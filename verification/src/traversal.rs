//! Traversals: a wave on its way through the layers of a particle, and what a layer does with
//! a wave that visits it.
use vstd::prelude::*;
use crate::kinds::{plan_stack, Kind};
use crate::layer::{
    core_from, fabric_from, law_towards_core_is_nearest, law_towards_fabric_is_nearest,
    layer_ordinal, reversed, Layer, TraversalDirection,
};
use crate::point::Point;
use crate::port::Port;

verus! {

/// A wave on its way through the layers of a particle: the particle's point and kind, the layer
/// the wave stands at, the layer it is bound for where there is one, the direction it travels
/// in and the port it goes to.
pub struct Traversal<W> {
    pub point: Point,
    pub payload: W,
    pub kind: Kind,
    pub layer: Layer,
    pub dest: Option<Layer>,
    pub dir: TraversalDirection,
    pub to: Port,
}

/// The layer a wave reaches next in a particle of kind `kind`, from `layer`, going `dir`:
/// the nearest layer of the kind's plan beyond it, where there is one.
pub open spec fn next_layer(kind: Kind, layer: Layer, dir: TraversalDirection) -> Option<Layer> {
    match dir {
        TraversalDirection::Fabric => fabric_from(plan_stack(kind), layer_ordinal(layer) - 1),
        TraversalDirection::Core => core_from(plan_stack(kind), layer_ordinal(layer) + 1),
    }
}

impl<W> Traversal<W> {
    pub fn new(
        payload: W,
        kind: Kind,
        layer: Layer,
        dir: TraversalDirection,
        dest: Option<Layer>,
        to: Port,
        point: Point,
    ) -> (r: Self)
        ensures
            r.payload == payload,
            r.kind == kind,
            r.layer == layer,
            r.dir == dir,
            r.dest == dest,
            r.to == to,
            r.point == point,
    {
        Self { payload, kind, layer, dest, dir, to, point }
    }

    /// The same traversal, carrying `payload` in place of its own.
    pub fn with<N>(self, payload: N) -> (r: Traversal<N>)
        ensures
            r.payload == payload,
            r.kind == self.kind,
            r.layer == self.layer,
            r.dir == self.dir,
            r.dest == self.dest,
            r.to == self.to,
            r.point == self.point,
    {
        Traversal {
            payload,
            kind: self.kind,
            layer: self.layer,
            dest: self.dest,
            dir: self.dir,
            to: self.to,
            point: self.point,
        }
    }

    /// Turns the traversal around.
    pub fn reverse(&mut self)
        ensures
            final(self).dir == reversed(old(self).dir),
            final(self).layer == old(self).layer,
            final(self).dest == old(self).dest,
            final(self).kind == old(self).kind,
            final(self).payload == old(self).payload,
            final(self).to == old(self).to,
            final(self).point == old(self).point,
    {
        self.dir = self.dir.reverse();
    }

    /// Moves the traversal to the next layer of its particle's plan in its direction, and
    /// returns that layer; where there is none, it stays where it is and returns `None`.
    pub fn next(&mut self) -> (r: Option<Layer>)
        ensures
            r == next_layer(old(self).kind, old(self).layer, old(self).dir),
            final(self).layer == (match r {
                Some(l) => l,
                None => old(self).layer,
            }),
            final(self).dir == old(self).dir,
            final(self).dest == old(self).dest,
            final(self).kind == old(self).kind,
            final(self).payload == old(self).payload,
            final(self).to == old(self).to,
            final(self).point == old(self).point,
    {
        let plan = self.kind.wave_traversal_plan();
        let next = match self.dir {
            TraversalDirection::Fabric => plan.towards_fabric(&self.layer),
            TraversalDirection::Core => plan.towards_core(&self.layer),
        };
        match next {
            Some(layer) => {
                self.layer = layer;
            },
            None => {},
        }
        next
    }

    pub fn is_fabric_bound(&self) -> (b: bool)
        ensures
            b == (self.dir == TraversalDirection::Fabric),
    {
        self.dir.is_fabric()
    }

    pub fn is_core_bound(&self) -> (b: bool)
        ensures
            b == (self.dir == TraversalDirection::Core),
    {
        self.dir.is_core()
    }
}

/// A step towards the core followed by a step towards the fabric comes back to the layer it
/// started from, where that layer is in the particle's plan and the first step leads anywhere;
/// and the same with the two directions swapped.
pub proof fn law_step_there_and_back(kind: Kind, layer: Layer, dir: TraversalDirection)
    requires
        plan_stack(kind).contains(layer),
        next_layer(kind, layer, dir) is Some,
    ensures
        next_layer(kind, next_layer(kind, layer, dir)->0, reversed(dir)) == Some(layer),
{
    let stack = plan_stack(kind);
    let o = layer_ordinal(layer);
    let n = next_layer(kind, layer, dir)->0;
    match dir {
        TraversalDirection::Core => {
            law_towards_core_is_nearest(stack, o + 1);
            law_towards_fabric_is_nearest(stack, layer_ordinal(n) - 1);
        },
        TraversalDirection::Fabric => {
            law_towards_fabric_is_nearest(stack, o - 1);
            law_towards_core_is_nearest(stack, layer_ordinal(n) + 1);
        },
    }
}

/// What a layer does with a wave that visits it.
#[derive(Debug, Clone, Copy, PartialEq, Eq, Structural)]
pub enum VisitAction {
    /// The wave is bound for this layer and directed: deliver it here.
    DeliverDirected,
    /// The wave is bound for this layer and reflected: deliver it here.
    DeliverReflected,
    /// Pass a directed wave on towards the fabric.
    DirectedFabricBound,
    /// Pass a reflected wave on towards the core.
    ReflectedCoreBound,
    /// Pass a directed wave on towards the core.
    DirectedCoreBound,
    /// Pass a reflected wave on towards the fabric.
    ReflectedFabricBound,
}

/// What the layer `layer` of a particle does with `traversal`, whose wave is directed (a
/// ping, a ripple or a signal) where `directed` holds and reflected otherwise: deliver it
/// where the traversal is bound for that layer, else pass it on in its direction.
pub fn visit_action<W>(layer: Layer, traversal: &Traversal<W>, directed: bool) -> (r: VisitAction)
    ensures
        traversal.dest == Some(layer) ==> r == (if directed {
            VisitAction::DeliverDirected
        } else {
            VisitAction::DeliverReflected
        }),
        traversal.dest != Some(layer) ==> r == (match (directed, traversal.dir) {
            (true, TraversalDirection::Fabric) => VisitAction::DirectedFabricBound,
            (false, TraversalDirection::Core) => VisitAction::ReflectedCoreBound,
            (true, TraversalDirection::Core) => VisitAction::DirectedCoreBound,
            (false, TraversalDirection::Fabric) => VisitAction::ReflectedFabricBound,
        }),
{
    if let Some(dest) = &traversal.dest {
        if layer == *dest {
            if directed {
                return VisitAction::DeliverDirected;
            } else {
                return VisitAction::DeliverReflected;
            }
        }
    }
    match (directed, traversal.dir) {
        (true, TraversalDirection::Fabric) => VisitAction::DirectedFabricBound,
        (false, TraversalDirection::Core) => VisitAction::ReflectedCoreBound,
        (true, TraversalDirection::Core) => VisitAction::DirectedCoreBound,
        (false, TraversalDirection::Fabric) => VisitAction::ReflectedFabricBound,
    }
}

/// Every plan runs from the field through the shell to the core; only mechtrons and portals
/// have portal, host or guest layers, and every other kind's plan is exactly the field, the
/// shell and the core, so that a wave going to the core passes from the shell straight to the
/// core, and one going to the fabric from the core straight to the shell.
pub proof fn law_plans_by_kind(kind: Kind)
    ensures
        plan_stack(kind).len() >= 3,
        plan_stack(kind)[0] == Layer::Field,
        plan_stack(kind)[1] == Layer::Shell,
        plan_stack(kind).last() == Layer::Core,
        (plan_stack(kind).contains(Layer::Portal) || plan_stack(kind).contains(Layer::Host)
            || plan_stack(kind).contains(Layer::Guest)) <==> (kind is Mechtron || kind is Portal),
        !(kind is Mechtron || kind is Portal) ==> plan_stack(kind) == seq![
            Layer::Field,
            Layer::Shell,
            Layer::Core,
        ],
        !(kind is Mechtron || kind is Portal) ==> next_layer(kind, Layer::Shell, TraversalDirection::Core)
            == Some(Layer::Core),
        !(kind is Mechtron || kind is Portal) ==> next_layer(kind, Layer::Core, TraversalDirection::Fabric)
            == Some(Layer::Shell),
        (kind is Mechtron || kind is Portal) ==> next_layer(kind, Layer::Shell, TraversalDirection::Core)
            == Some(Layer::Portal),
{
    let st = plan_stack(kind);
    if kind is Mechtron || kind is Portal {
        assert(st[2] == Layer::Portal);
        assert(st.contains(Layer::Portal));
        assert(core_from(st, 3) == Some(Layer::Portal));
    } else {
        assert(st == seq![Layer::Field, Layer::Shell, Layer::Core]);
        assert(!st.contains(Layer::Portal));
        assert(!st.contains(Layer::Host));
        assert(!st.contains(Layer::Guest));
        assert(st.contains(Layer::Core)) by {
            assert(st[2] == Layer::Core);
        }
        assert(core_from(st, 6) == Some(Layer::Core));
        assert(core_from(st, 5) == Some(Layer::Core));
        assert(core_from(st, 4) == Some(Layer::Core));
        assert(core_from(st, 3) == Some(Layer::Core));
        assert(st.contains(Layer::Shell)) by {
            assert(st[1] == Layer::Shell);
        }
        assert(fabric_from(st, 2) == Some(Layer::Shell));
        assert(fabric_from(st, 3) == Some(Layer::Shell));
        assert(fabric_from(st, 4) == Some(Layer::Shell));
        assert(fabric_from(st, 5) == Some(Layer::Shell));
    }
}

} // verus!
