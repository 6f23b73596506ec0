//! The layers a wave passes through on its way from the fabric to the core of a particle, the
//! plans that say which layers a kind of particle has, and topics.
use vstd::prelude::*;
use crate::case::SkewerCase;
use crate::error::MsgErr;
use crate::text::{push_char, push_str, str_eq};

verus! {

/// A layer of a particle, from the fabric (`Gravity`) to the `Core`.
#[derive(Debug, Clone, Copy, PartialEq, Eq, Hash, Structural)]
pub enum Layer {
    Gravity,
    Field,
    Shell,
    Portal,
    Host,
    Guest,
    Core,
}

/// The position of a layer, counted from the fabric.
pub open spec fn layer_ordinal(l: Layer) -> int {
    match l {
        Layer::Gravity => 0,
        Layer::Field => 1,
        Layer::Shell => 2,
        Layer::Portal => 3,
        Layer::Host => 4,
        Layer::Guest => 5,
        Layer::Core => 6,
    }
}

/// The layer at a position, if there is one.
pub open spec fn layer_at(o: int) -> Option<Layer> {
    if o == 0 {
        Some(Layer::Gravity)
    } else if o == 1 {
        Some(Layer::Field)
    } else if o == 2 {
        Some(Layer::Shell)
    } else if o == 3 {
        Some(Layer::Portal)
    } else if o == 4 {
        Some(Layer::Host)
    } else if o == 5 {
        Some(Layer::Guest)
    } else if o == 6 {
        Some(Layer::Core)
    } else {
        None
    }
}

impl Layer {
    pub fn ordinal(&self) -> (r: u8)
        ensures
            r == layer_ordinal(*self),
    {
        match self {
            Layer::Gravity => 0,
            Layer::Field => 1,
            Layer::Shell => 2,
            Layer::Portal => 3,
            Layer::Host => 4,
            Layer::Guest => 5,
            Layer::Core => 6,
        }
    }

    pub fn from_ordinal(o: u8) -> (r: Option<Layer>)
        ensures
            r == layer_at(o as int),
    {
        if o == 0 {
            Some(Layer::Gravity)
        } else if o == 1 {
            Some(Layer::Field)
        } else if o == 2 {
            Some(Layer::Shell)
        } else if o == 3 {
            Some(Layer::Portal)
        } else if o == 4 {
            Some(Layer::Host)
        } else if o == 5 {
            Some(Layer::Guest)
        } else if o == 6 {
            Some(Layer::Core)
        } else {
            None
        }
    }

    /// Whether the layer keeps state.
    pub fn has_state(&self) -> (b: bool)
        ensures
            b == (*self == Layer::Field || *self == Layer::Shell),
    {
        match self {
            Layer::Gravity => false,
            Layer::Field => true,
            Layer::Shell => true,
            Layer::Portal => false,
            Layer::Host => false,
            Layer::Guest => false,
            Layer::Core => false,
        }
    }

    pub fn default() -> (r: Self)
        ensures
            r == Layer::Core,
    {
        Layer::Core
    }

    pub fn to_string(&self) -> (r: String)
        ensures
            r@ == layer_name(*self),
    {
        let s = match self {
            Layer::Gravity => "Gravity",
            Layer::Field => "Field",
            Layer::Shell => "Shell",
            Layer::Portal => "Portal",
            Layer::Host => "Host",
            Layer::Guest => "Guest",
            Layer::Core => "Core",
        };
        s.to_string()
    }
}

/// The layer named `s`, if any.
pub open spec fn named_layer(s: Seq<char>) -> Option<Layer> {
    if s == "Gravity"@ {
        Some(Layer::Gravity)
    } else if s == "Field"@ {
        Some(Layer::Field)
    } else if s == "Shell"@ {
        Some(Layer::Shell)
    } else if s == "Portal"@ {
        Some(Layer::Portal)
    } else if s == "Host"@ {
        Some(Layer::Host)
    } else if s == "Guest"@ {
        Some(Layer::Guest)
    } else if s == "Core"@ {
        Some(Layer::Core)
    } else {
        None
    }
}

impl Layer {
    /// The layer with the name `s`.
    pub fn from_str(s: &str) -> (r: Result<Layer, MsgErr>)
        ensures
            match named_layer(s@) {
                Some(l) => r matches Ok(x) && x == l,
                None => r is Err,
            },
    {
        if str_eq(s, "Gravity") {
            Ok(Layer::Gravity)
        } else if str_eq(s, "Field") {
            Ok(Layer::Field)
        } else if str_eq(s, "Shell") {
            Ok(Layer::Shell)
        } else if str_eq(s, "Portal") {
            Ok(Layer::Portal)
        } else if str_eq(s, "Host") {
            Ok(Layer::Host)
        } else if str_eq(s, "Guest") {
            Ok(Layer::Guest)
        } else if str_eq(s, "Core") {
            Ok(Layer::Core)
        } else {
            Err(MsgErr::from_500("Matching variant not found"))
        }
    }
}

/// A layer's name reads back as the layer.
pub proof fn law_layer_name_reads_back(l: Layer)
    ensures
        named_layer(layer_name(l)) == Some(l),
{
    reveal_strlit("Gravity");
    reveal_strlit("Field");
    reveal_strlit("Shell");
    reveal_strlit("Portal");
    reveal_strlit("Host");
    reveal_strlit("Guest");
    reveal_strlit("Core");
    assert("Gravity"@.len() == 7 && "Gravity"@[0] == 'G');
    assert("Field"@.len() == 5 && "Field"@[0] == 'F');
    assert("Shell"@.len() == 5 && "Shell"@[0] == 'S');
    assert("Portal"@.len() == 6 && "Portal"@[0] == 'P');
    assert("Host"@.len() == 4 && "Host"@[0] == 'H');
    assert("Guest"@.len() == 5 && "Guest"@[0] == 'G');
    assert("Core"@.len() == 4 && "Core"@[0] == 'C');
    match l {
        Layer::Gravity => {},
        Layer::Field => {},
        Layer::Shell => {},
        Layer::Portal => {},
        Layer::Host => {},
        Layer::Guest => {},
        Layer::Core => {},
    }
}

/// The name of a layer.
pub open spec fn layer_name(l: Layer) -> Seq<char> {
    match l {
        Layer::Gravity => "Gravity"@,
        Layer::Field => "Field"@,
        Layer::Shell => "Shell"@,
        Layer::Portal => "Portal"@,
        Layer::Host => "Host"@,
        Layer::Guest => "Guest"@,
        Layer::Core => "Core"@,
    }
}

pub proof fn lemma_layer_at_ordinal(l: Layer)
    ensures
        layer_at(layer_ordinal(l)) == Some(l),
        0 <= layer_ordinal(l) <= 6,
{
}

/// The layers a wave visits in a particle.
pub struct TraversalPlan {
    pub stack: Vec<Layer>,
}

/// The nearest layer of `stack` at position `o` or below.
pub open spec fn fabric_from(stack: Seq<Layer>, o: int) -> Option<Layer>
    decreases o + 1,
{
    if o < 0 {
        None
    } else {
        match layer_at(o) {
            Some(l) => if stack.contains(l) {
                Some(l)
            } else {
                fabric_from(stack, o - 1)
            },
            None => fabric_from(stack, o - 1),
        }
    }
}

/// The nearest layer of `stack` at position `o` or above.
pub open spec fn core_from(stack: Seq<Layer>, o: int) -> Option<Layer>
    decreases 7 - o,
{
    if o > 6 || o < 0 {
        None
    } else {
        match layer_at(o) {
            Some(l) => if stack.contains(l) {
                Some(l)
            } else {
                core_from(stack, o + 1)
            },
            None => None,
        }
    }
}

fn stack_has(stack: &Vec<Layer>, layer: Layer) -> (b: bool)
    ensures
        b == stack@.contains(layer),
{
    let mut i: usize = 0;
    while i < stack.len()
        invariant
            i <= stack@.len(),
            forall|j: int| 0 <= j < i ==> stack@[j] != layer,
        decreases stack@.len() - i,
    {
        if stack[i] == layer {
            return true;
        }
        i = i + 1;
    }
    false
}

impl TraversalPlan {
    pub fn new(stack: Vec<Layer>) -> (r: Self)
        ensures
            r.stack@ == stack@,
    {
        Self { stack }
    }

    /// The nearest layer of the plan towards the fabric from `layer`.
    pub fn towards_fabric(&self, layer: &Layer) -> (r: Option<Layer>)
        ensures
            r == fabric_from(self.stack@, layer_ordinal(*layer) - 1),
    {
        let mut index: i32 = layer.ordinal() as i32;
        loop
            invariant
                0 <= index <= 6,
                fabric_from(self.stack@, layer_ordinal(*layer) - 1) == fabric_from(
                    self.stack@,
                    index - 1,
                ),
            decreases index,
        {
            index = index - 1;
            if index < 0 {
                return None;
            }
            let l = Layer::from_ordinal(index as u8).unwrap();
            if stack_has(&self.stack, l) {
                return Some(l);
            }
        }
    }

    /// The nearest layer of the plan towards the core from `layer`.
    pub fn towards_core(&self, layer: &Layer) -> (r: Option<Layer>)
        ensures
            r == core_from(self.stack@, layer_ordinal(*layer) + 1),
    {
        let mut index: u8 = layer.ordinal();
        loop
            invariant
                0 <= index <= 6,
                core_from(self.stack@, layer_ordinal(*layer) + 1) == core_from(
                    self.stack@,
                    index + 1,
                ),
            decreases 7 - index,
        {
            index = index + 1;
            let l = match Layer::from_ordinal(index) {
                Some(l) => l,
                None => {
                    return None;
                },
            };
            if stack_has(&self.stack, l) {
                return Some(l);
            }
        }
    }

    pub fn has_layer(&self, layer: &Layer) -> (b: bool)
        ensures
            b == self.stack@.contains(*layer),
    {
        stack_has(&self.stack, *layer)
    }
}

/// The nearest layer towards the fabric lies in the plan below `o`, and no layer of the plan
/// lies between them; where there is none, no layer of the plan lies at `o` or below.
pub proof fn law_towards_fabric_is_nearest(stack: Seq<Layer>, o: int)
    requires
        o <= 6,
    ensures
        fabric_from(stack, o) matches Some(l) ==> stack.contains(l) && layer_ordinal(l) <= o
            && forall|m: Layer|
            layer_ordinal(l) < layer_ordinal(m) <= o ==> !stack.contains(m),
        fabric_from(stack, o) is None ==> forall|m: Layer|
            layer_ordinal(m) <= o ==> !stack.contains(m),
    decreases o + 1,
{
    if o >= 0 {
        law_towards_fabric_is_nearest(stack, o - 1);
        assert forall|m: Layer| layer_ordinal(m) == o implies layer_at(o) == Some(m) by {
            lemma_layer_at_ordinal(m);
        }
    }
}

/// The nearest layer towards the core lies in the plan at or above `o`, and no layer of the
/// plan lies between them; where there is none, no layer of the plan lies at `o` or above.
pub proof fn law_towards_core_is_nearest(stack: Seq<Layer>, o: int)
    requires
        o >= 0,
    ensures
        core_from(stack, o) matches Some(l) ==> stack.contains(l) && layer_ordinal(l) >= o
            && forall|m: Layer|
            o <= layer_ordinal(m) < layer_ordinal(l) ==> !stack.contains(m),
        core_from(stack, o) is None ==> forall|m: Layer|
            layer_ordinal(m) >= o ==> !stack.contains(m),
    decreases 7 - o,
{
    if o <= 6 {
        law_towards_core_is_nearest(stack, o + 1);
        assert forall|m: Layer| layer_ordinal(m) == o implies layer_at(o) == Some(m) by {
            lemma_layer_at_ordinal(m);
        }
    }
}

/// The direction a wave travels in: towards the fabric or towards the core.
#[derive(Debug, Clone, Copy, PartialEq, Eq, Hash, Structural)]
pub enum TraversalDirection {
    Fabric,
    Core,
}

/// The direction reversed.
pub open spec fn reversed(d: TraversalDirection) -> TraversalDirection {
    match d {
        TraversalDirection::Fabric => TraversalDirection::Core,
        TraversalDirection::Core => TraversalDirection::Fabric,
    }
}

/// The direction from one layer to another; `None` for the same layer.
pub open spec fn direction_between(from: Layer, to: Layer) -> Option<TraversalDirection> {
    if from == to {
        None
    } else if layer_ordinal(from) < layer_ordinal(to) {
        Some(TraversalDirection::Core)
    } else {
        Some(TraversalDirection::Fabric)
    }
}

impl TraversalDirection {
    pub fn new(from: &Layer, to: &Layer) -> (r: Result<Self, MsgErr>)
        ensures
            match direction_between(*from, *to) {
                Some(d) => r matches Ok(x) && x == d,
                None => r is Err,
            },
    {
        if *from == *to {
            Err(
                MsgErr::from_500(
                    "cannot determine traversal direction if from and to are the same layer",
                ),
            )
        } else if from.ordinal() < to.ordinal() {
            Ok(TraversalDirection::Core)
        } else {
            Ok(TraversalDirection::Fabric)
        }
    }

    pub fn is_fabric(&self) -> (b: bool)
        ensures
            b == (*self == TraversalDirection::Fabric),
    {
        match self {
            TraversalDirection::Fabric => true,
            TraversalDirection::Core => false,
        }
    }

    pub fn is_core(&self) -> (b: bool)
        ensures
            b == (*self == TraversalDirection::Core),
    {
        match self {
            TraversalDirection::Fabric => false,
            TraversalDirection::Core => true,
        }
    }

    pub fn reverse(&self) -> (r: TraversalDirection)
        ensures
            r == reversed(*self),
    {
        match self {
            Self::Fabric => Self::Core,
            Self::Core => Self::Fabric,
        }
    }

    pub fn to_string(&self) -> (r: String)
        ensures
            r@ == (match self {
                TraversalDirection::Fabric => "Fabric"@,
                TraversalDirection::Core => "Core"@,
            }),
    {
        match self {
            TraversalDirection::Fabric => "Fabric".to_string(),
            TraversalDirection::Core => "Core".to_string(),
        }
    }
}

/// Reversing twice gives the direction back, and a reversed direction is never the same.
pub proof fn law_reverse_involution(d: TraversalDirection)
    ensures
        reversed(reversed(d)) == d,
        reversed(d) != d,
{
}

/// The direction from `a` to `b` is the reverse of the direction from `b` to `a`.
pub proof fn law_direction_antisymmetric(a: Layer, b: Layer)
    ensures
        a != b ==> (direction_between(a, b) matches Some(d) && direction_between(b, a) == Some(
            reversed(d),
        )),
        a == b ==> direction_between(a, b) is None,
{
    if a != b {
        assert(layer_ordinal(a) != layer_ordinal(b)) by {
            lemma_layer_at_ordinal(a);
            lemma_layer_at_ordinal(b);
        }
    }
}

/// What a wave is about.
#[derive(Debug, PartialEq, Eq, Hash)]
pub enum Topic {
    Nothing,
    Not,
    Any,
    Cli,
    Uuid(String),
    Path(Vec<SkewerCase>),
}

/// The text of a topic path: its segments joined by `:`.
pub open spec fn topic_path_text(segs: Seq<Seq<char>>, n: int) -> Seq<char>
    decreases n,
{
    if n <= 0 {
        Seq::empty()
    } else if n == 1 {
        segs[0]
    } else {
        topic_path_text(segs, n - 1) + seq![':'] + segs[n - 1]
    }
}

pub open spec fn view_skewers(segs: Seq<SkewerCase>) -> Seq<Seq<char>> {
    segs.map_values(|s: SkewerCase| s@)
}

/// The text of a topic.
pub open spec fn topic_text(t: Topic) -> Seq<char> {
    match t {
        Topic::Nothing => Seq::empty(),
        Topic::Not => "Topic<!>"@,
        Topic::Any => "Topic<*>"@,
        Topic::Uuid(u) => "Topic<Uuid>("@ + u@ + ")"@,
        Topic::Path(segs) => "Topic<Path>("@ + topic_path_text(
            view_skewers(segs@),
            segs@.len() as int,
        ) + ")"@,
        Topic::Cli => "Topic<Cli>"@,
    }
}

impl Topic {
    pub fn to_string(&self) -> (r: String)
        ensures
            r@ == topic_text(*self),
    {
        match self {
            Topic::Nothing => String::new(),
            Topic::Not => "Topic<!>".to_string(),
            Topic::Any => "Topic<*>".to_string(),
            Topic::Uuid(uuid) => {
                let mut r = "Topic<Uuid>(".to_string();
                push_str(&mut r, uuid.as_str());
                push_str(&mut r, ")");
                r
            },
            Topic::Path(segs) => {
                let ghost vs = view_skewers(segs@);
                let mut rtn = String::new();
                let mut i: usize = 0;
                while i < segs.len()
                    invariant
                        vs == view_skewers(segs@),
                        i <= segs@.len(),
                        rtn@ == topic_path_text(vs, i as int),
                    decreases segs@.len() - i,
                {
                    assert(vs[i as int] == segs@[i as int]@);
                    if i > 0 {
                        push_char(&mut rtn, ':');
                    }
                    let s = segs[i].to_string();
                    push_str(&mut rtn, s.as_str());
                    i = i + 1;
                    assert(rtn@ =~= topic_path_text(vs, i as int));
                }
                let mut r = "Topic<Path>(".to_string();
                push_str(&mut r, rtn.as_str());
                push_str(&mut r, ")");
                r
            },
            Topic::Cli => "Topic<Cli>".to_string(),
        }
    }

    pub fn default() -> (r: Self)
        ensures
            r == Topic::Nothing,
    {
        Topic::Nothing
    }
}

} // verus!
