use cosmic::kinds::Kind;
use cosmic::layer::{Layer, Topic, TraversalDirection};
use cosmic::point::Point;
use cosmic::port::Port;
use cosmic::traversal::{visit_action, Traversal, VisitAction};

fn traversal(kind: Kind, layer: Layer, dir: TraversalDirection, dest: Option<Layer>) -> Traversal<u32> {
    let point = Point::from_str("localhost:app").unwrap();
    let to = Port::new(Point::from_str("localhost:app").unwrap(), Layer::Core, Topic::Nothing);
    Traversal::new(7, kind, layer, dir, dest, to, point)
}

#[test]
fn traversal_walks_a_mechtron_towards_the_core() {
    let mut t = traversal(Kind::Mechtron, Layer::Field, TraversalDirection::Core, None);
    let mut seen = vec![];
    while let Some(layer) = t.next() {
        seen.push(layer);
    }
    assert_eq!(vec![Layer::Shell, Layer::Portal, Layer::Host, Layer::Guest, Layer::Core], seen);
    assert_eq!(Layer::Core, t.layer);
    assert_eq!(None, t.next());
    assert_eq!(Layer::Core, t.layer);
}

#[test]
fn traversal_skips_layers_outside_the_plan() {
    let mut t = traversal(Kind::App, Layer::Core, TraversalDirection::Fabric, None);
    assert_eq!(Some(Layer::Shell), t.next());
    assert_eq!(Some(Layer::Field), t.next());
    assert_eq!(None, t.next());
    assert_eq!(Layer::Field, t.layer);
    let mut t = traversal(Kind::App, Layer::Shell, TraversalDirection::Core, None);
    assert_eq!(Some(Layer::Core), t.next());
}

#[test]
fn traversal_steps_there_and_back() {
    let mut t = traversal(Kind::Portal, Layer::Host, TraversalDirection::Core, None);
    assert_eq!(Some(Layer::Guest), t.next());
    t.reverse();
    assert_eq!(TraversalDirection::Fabric, t.dir);
    assert!(t.is_fabric_bound());
    assert!(!t.is_core_bound());
    assert_eq!(Some(Layer::Host), t.next());
}

#[test]
fn traversal_with_keeps_the_rest() {
    let t = traversal(Kind::App, Layer::Shell, TraversalDirection::Core, Some(Layer::Core));
    let t = t.with("payload");
    assert_eq!("payload", t.payload);
    assert_eq!(Layer::Shell, t.layer);
    assert_eq!(Some(Layer::Core), t.dest);
    assert_eq!(TraversalDirection::Core, t.dir);
    assert_eq!("localhost:app@Core", t.to.to_string().as_str());
}

#[test]
fn visit_delivers_at_its_destination() {
    let t = traversal(Kind::App, Layer::Core, TraversalDirection::Core, Some(Layer::Core));
    assert_eq!(VisitAction::DeliverDirected, visit_action(Layer::Core, &t, true));
    assert_eq!(VisitAction::DeliverReflected, visit_action(Layer::Core, &t, false));
    assert_eq!(VisitAction::DirectedCoreBound, visit_action(Layer::Shell, &t, true));
    assert_eq!(VisitAction::ReflectedCoreBound, visit_action(Layer::Shell, &t, false));
    let t = traversal(Kind::App, Layer::Shell, TraversalDirection::Fabric, None);
    assert_eq!(VisitAction::DirectedFabricBound, visit_action(Layer::Shell, &t, true));
    assert_eq!(VisitAction::ReflectedFabricBound, visit_action(Layer::Shell, &t, false));
}
