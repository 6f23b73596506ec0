//! Ports: a point, a layer of it and a topic; and selectors that match ports.
use vstd::prelude::*;
use crate::case::SkewerCase;
use crate::layer::{layer_name, topic_text, view_skewers, Layer, Topic};
use crate::point::{point_string, Point, PointModel};
use crate::resolve::{route_eq, seg_eq};
use crate::text::{push_char, push_str};
use crate::util::{ValueMatcher, ValuePattern};

verus! {

/// The abstract value of a topic.
pub enum TopicModel {
    Nothing,
    Not,
    Any,
    Cli,
    Uuid(Seq<char>),
    Path(Seq<Seq<char>>),
}

pub open spec fn topic_model(t: Topic) -> TopicModel {
    match t {
        Topic::Nothing => TopicModel::Nothing,
        Topic::Not => TopicModel::Not,
        Topic::Any => TopicModel::Any,
        Topic::Cli => TopicModel::Cli,
        Topic::Uuid(u) => TopicModel::Uuid(u@),
        Topic::Path(p) => TopicModel::Path(view_skewers(p@)),
    }
}

/// Compares two topics.
pub fn topic_eq(a: &Topic, b: &Topic) -> (r: bool)
    ensures
        r == (topic_model(*a) == topic_model(*b)),
{
    match (a, b) {
        (Topic::Nothing, Topic::Nothing) => true,
        (Topic::Not, Topic::Not) => true,
        (Topic::Any, Topic::Any) => true,
        (Topic::Cli, Topic::Cli) => true,
        (Topic::Uuid(x), Topic::Uuid(y)) => *x == *y,
        (Topic::Path(x), Topic::Path(y)) => {
            let ghost (vx, vy) = (view_skewers(x@), view_skewers(y@));
            if x.len() != y.len() {
                assert(vx.len() != vy.len());
                return false;
            }
            let mut i: usize = 0;
            while i < x.len()
                invariant
                    vx == view_skewers(x@),
                    vy == view_skewers(y@),
                    topic_model(*a) == TopicModel::Path(vx),
                    topic_model(*b) == TopicModel::Path(vy),
                    x@.len() == y@.len(),
                    i <= x@.len(),
                    forall|j: int| 0 <= j < i ==> vx[j] == vy[j],
                decreases x@.len() - i,
            {
                assert(vx[i as int] == x@[i as int]@ && vy[i as int] == y@[i as int]@);
                if !x[i].same(&y[i]) {
                    assert(vx[i as int] != vy[i as int]);
                    return false;
                }
                i = i + 1;
            }
            assert(vx =~= vy);
            true
        },
        _ => false,
    }
}

/// A copy of a topic.
pub fn topic_clone(t: &Topic) -> (r: Topic)
    ensures
        topic_model(r) == topic_model(*t),
{
    match t {
        Topic::Nothing => Topic::Nothing,
        Topic::Not => Topic::Not,
        Topic::Any => Topic::Any,
        Topic::Cli => Topic::Cli,
        Topic::Uuid(u) => Topic::Uuid(u.clone()),
        Topic::Path(p) => {
            let mut v: Vec<SkewerCase> = Vec::new();
            let mut i: usize = 0;
            while i < p.len()
                invariant
                    i <= p@.len(),
                    view_skewers(v@) == view_skewers(p@).subrange(0, i as int),
                decreases p@.len() - i,
            {
                let ghost before = view_skewers(v@);
                v.push(p[i].clone());
                assert(view_skewers(v@) =~= before.push(p@[i as int]@));
                assert(view_skewers(p@).subrange(0, i + 1) =~= view_skewers(p@).subrange(
                    0,
                    i as int,
                ).push(p@[i as int]@));
                i = i + 1;
            }
            assert(view_skewers(p@).subrange(0, p@.len() as int) =~= view_skewers(p@));
            Topic::Path(v)
        },
    }
}

/// Compares two concrete points.
pub fn point_eq(a: &Point, b: &Point) -> (r: bool)
    ensures
        r == (a@ == b@),
{
    if !route_eq(&a.route, &b.route) {
        return false;
    }
    if a.segments.len() != b.segments.len() {
        assert(a@.segments.len() != b@.segments.len());
        return false;
    }
    let mut i: usize = 0;
    while i < a.segments.len()
        invariant
            a.segments@.len() == b.segments@.len(),
            i <= a.segments@.len(),
            forall|j: int| 0 <= j < i ==> a@.segments[j] == b@.segments[j],
        decreases a.segments@.len() - i,
    {
        assert(a@.segments[i as int] == a.segments@[i as int]@);
        assert(b@.segments[i as int] == b.segments@[i as int]@);
        if !seg_eq(&a.segments[i], &b.segments[i]) {
            return false;
        }
        i = i + 1;
    }
    assert(a@.segments =~= b@.segments);
    true
}

/// A point, a layer of it and a topic.
pub struct Port {
    pub point: Point,
    pub layer: Layer,
    pub topic: Topic,
}

/// The text of a port: `point@layer`, then `+topic` unless the topic is none.
pub open spec fn port_text(p: PointModel, l: Layer, t: Topic) -> Seq<char> {
    point_string(p) + seq!['@'] + layer_name(l) + (if t is Nothing {
        Seq::empty()
    } else {
        seq!['+'] + topic_text(t)
    })
}

impl Port {
    pub fn new(point: Point, layer: Layer, topic: Topic) -> (r: Self)
        ensures
            r.point == point,
            r.layer == layer,
            r.topic == topic,
    {
        Self { point, layer, topic }
    }

    pub fn with_topic(&self, topic: Topic) -> (r: Self)
        ensures
            r.point@ == self.point@,
            r.layer == self.layer,
            r.topic == topic,
    {
        Self { point: self.point.clone(), layer: self.layer, topic }
    }

    pub fn with_layer(&self, layer: Layer) -> (r: Self)
        ensures
            r.point@ == self.point@,
            r.layer == layer,
            topic_model(r.topic) == topic_model(self.topic),
    {
        Self { point: self.point.clone(), layer, topic: topic_clone(&self.topic) }
    }

    pub fn to_string(&self) -> (r: String)
        ensures
            r@ == port_text(self.point@, self.layer, self.topic),
    {
        let mut r = self.point.to_string();
        push_char(&mut r, '@');
        let l = self.layer.to_string();
        push_str(&mut r, l.as_str());
        match &self.topic {
            Topic::Nothing => {},
            topic => {
                push_char(&mut r, '+');
                let t = topic.to_string();
                push_str(&mut r, t.as_str());
            },
        }
        assert(r@ =~= port_text(self.point@, self.layer, self.topic));
        r
    }

    /// The selector that matches this port: its point, its layer, and its topic, where a port
    /// with no topic or any topic is matched on any topic and one with the `Not` topic on none.
    pub fn to_selector(self) -> (r: PortSelector)
        ensures
            !(self.topic is Not) ==> r.accepts(self),
            self.topic is Not ==> !r.accepts(self),
    {
        let Port { point, layer, topic } = self;
        let ghost t = topic_model(topic);
        let ghost pm = point@;
        let topic = match topic {
            Topic::Nothing => ValuePattern::Any,
            Topic::Not => ValuePattern::Nothing,
            Topic::Any => ValuePattern::Any,
            Topic::Uuid(uuid) => ValuePattern::Pattern(Topic::Uuid(uuid)),
            Topic::Path(path) => ValuePattern::Pattern(Topic::Path(path)),
            Topic::Cli => ValuePattern::Pattern(Topic::Cli),
        };
        PortSelector {
            point: ValuePattern::Pattern(point),
            topic,
            layer: ValuePattern::Pattern(layer),
        }
    }
}

/// Patterns over the point, topic and layer of a port.
pub struct PortSelector {
    pub point: ValuePattern<Point>,
    pub topic: ValuePattern<Topic>,
    pub layer: ValuePattern<Layer>,
}

impl ValueMatcher<Port> for PortSelector {
    open spec fn accepts(&self, port: Port) -> bool {
        &&& match self.point {
            ValuePattern::Any => true,
            ValuePattern::Nothing => false,
            ValuePattern::Pattern(p) => p@ == port.point@,
        }
        &&& match self.layer {
            ValuePattern::Any => true,
            ValuePattern::Nothing => false,
            ValuePattern::Pattern(l) => l == port.layer,
        }
        &&& match self.topic {
            ValuePattern::Any => true,
            ValuePattern::Nothing => false,
            ValuePattern::Pattern(t) => topic_model(t) == topic_model(port.topic),
        }
    }

    fn is_match(&self, port: &Port) -> (r: Result<(), ()>) {
        match &self.point {
            ValuePattern::Any => {},
            ValuePattern::Nothing => return Err(()),
            ValuePattern::Pattern(point) => if !point_eq(point, &port.point) {
                return Err(());
            },
        }
        match &self.layer {
            ValuePattern::Any => {},
            ValuePattern::Nothing => return Err(()),
            ValuePattern::Pattern(layer) => if *layer != port.layer {
                return Err(());
            },
        }
        match &self.topic {
            ValuePattern::Any => {},
            ValuePattern::Nothing => return Err(()),
            ValuePattern::Pattern(topic) => if !topic_eq(topic, &port.topic) {
                return Err(());
            },
        }
        Ok(())
    }
}

} // verus!
