use cosmic::case::SkewerCase;
use cosmic::command::{PropertyMod, SetProperties};
use cosmic::env::{Env, RegexCapturesResolver, ResolverErr, VarResolver};
use cosmic::error::{MsgErr, StatusErr};
use cosmic::lane::Frame;
use cosmic::layer::{Layer, Topic, TraversalDirection, TraversalPlan};
use cosmic::path::Path;
use cosmic::point::{Point, Version};
use cosmic::port::Port;
use cosmic::star::{StarHandle, StarKey};
use cosmic::sys::{Location, MsgMethod};
use cosmic::textmap::TextMap;
use cosmic::util::ValueMatcher;

fn point(s: &str) -> Point {
    Point::from_str(s).unwrap()
}

#[test]
fn points_read_back_from_their_text() {
    for text in [
        "localhost",
        "localhost:app:base",
        "my-domain.com:app:1.0.0",
        "my-domain.com:app:1.0.0-alpha:/file.txt",
        "space:filesystem:/",
        "GLOBAL::central",
        "LOCAL::space:base",
        "[hub]::my-domain.com:base",
        "other.domain::space:base",
        "ROOT",
    ] {
        let p = point(text);
        assert_eq!(text, p.to_string().as_str());
        assert_eq!(p, point(p.to_string().as_str()));
    }
}

#[test]
fn scope_reads_after_writes() {
    let mut env = Env::new(Point::root());
    assert!(env.val("x").is_err());
    env.set_var_str("x", "1");
    env.set_var_str("y", "2");
    env.set_var_str("x", "3");
    assert_eq!("3", env.val("x").unwrap().as_str());
    assert_eq!("2", env.val("y").unwrap().as_str());
    env.set_file("f", vec![1, 2, 3]);
    assert_eq!(vec![1u8, 2, 3], env.file("f").unwrap().content);
    let mut inner = env.push();
    assert_eq!("3", inner.val("x").unwrap().as_str());
    inner.set_var_str("x", "4");
    assert_eq!("4", inner.val("x").unwrap().as_str());
    assert_eq!(vec![1u8, 2, 3], inner.file("f").unwrap().content);
    let outer = inner.pop().unwrap();
    assert_eq!("3", outer.val("x").unwrap().as_str());
    assert!(outer.pop().is_err());
}

#[test]
fn traversal_plans_step_to_nearest_layer() {
    let plan = TraversalPlan::new(vec![Layer::Field, Layer::Shell, Layer::Core]);
    assert_eq!(Some(Layer::Shell), plan.towards_core(&Layer::Field));
    assert_eq!(Some(Layer::Core), plan.towards_core(&Layer::Shell));
    assert_eq!(None, plan.towards_core(&Layer::Core));
    assert_eq!(Some(Layer::Shell), plan.towards_fabric(&Layer::Core));
    assert_eq!(None, plan.towards_fabric(&Layer::Field));
    assert_eq!(Some(Layer::Core), plan.towards_core(&Layer::Portal));
    assert!(plan.has_layer(&Layer::Shell));
    assert!(!plan.has_layer(&Layer::Guest));
    assert_eq!(Some(Layer::Host), Layer::from_ordinal(Layer::Host.ordinal()));
    assert_eq!(None, Layer::from_ordinal(7));
}

#[test]
fn traversal_directions() {
    let d = TraversalDirection::new(&Layer::Field, &Layer::Core).unwrap();
    assert!(d.is_core());
    assert!(d.reverse().is_fabric());
    assert!(d.reverse().reverse().is_core());
    assert!(TraversalDirection::new(&Layer::Core, &Layer::Field).unwrap().is_fabric());
    assert!(TraversalDirection::new(&Layer::Shell, &Layer::Shell).is_err());
}

#[test]
fn star_keys_read_back() {
    let key = StarKey::new(&"central".to_string(), &StarHandle::new("fold", 12));
    let text = key.to_string();
    assert_eq!("STAR::central:fold[12]", text.as_str());
    assert_eq!(key, StarKey::from_str(text.as_str()).unwrap());
    assert_eq!("STAR::central:central[0]", StarKey::central().to_string().as_str());
    assert!(StarKey::from_str("STAR::central:fold[70000]").is_err());
    assert!(StarKey::from_str("central:fold[1]").is_err());
}

#[test]
fn ports_print_and_select_themselves() {
    let port = Port::new(point("localhost:app"), Layer::Core, Topic::Nothing);
    assert_eq!("localhost:app@Core", port.to_string().as_str());
    let path = Topic::Path(vec![SkewerCase::from_str("a").unwrap(), SkewerCase::from_str("b").unwrap()]);
    let port2 = port.with_topic(path);
    assert_eq!("localhost:app@Core+Topic<Path>(a:b)", port2.to_string().as_str());
    let selector = Port::new(point("localhost:app"), Layer::Core, Topic::Cli).to_selector();
    let same = Port::new(point("localhost:app"), Layer::Core, Topic::Cli);
    assert!(selector.is_match(&same).is_ok());
    let other_layer = Port::new(point("localhost:app"), Layer::Shell, Topic::Cli);
    assert!(selector.is_match(&other_layer).is_err());
    let none = Port::new(point("localhost:app"), Layer::Core, Topic::Not).to_selector();
    assert!(none.is_match(&Port::new(point("localhost:app"), Layer::Core, Topic::Not)).is_err());
}

#[test]
fn paths_join_and_split() {
    let p = Path::from_str("/users/home").unwrap();
    assert!(p.is_absolute());
    assert_eq!("home", p.last_segment().unwrap().as_str());
    assert_eq!("users/home", p.to_relative().as_str());
    let q = p.cat(&Path::from_str("/docs").unwrap()).unwrap();
    assert_eq!("/users/home//docs", q.to_string().as_str());
    let r = Path::from_str("/dir/").unwrap().cat(&Path::from_str("/file").unwrap()).unwrap();
    assert_eq!("/dir//file", r.to_string().as_str());
    assert!(Path::from_str("docs").is_err());
    assert_eq!("/x", Path::make_absolute("x").unwrap().to_string().as_str());
}

#[test]
fn frames_carry_strings_and_versions() {
    let f = Frame::from_string("hello".to_string());
    assert_eq!(b"hello".to_vec(), f.data);
    assert_eq!("hello", f.to_string().unwrap().as_str());
    assert!(Frame { data: vec![0xff, 0xfe] }.to_string().is_err());
    let v = Version::from_str("1.2.3-beta").unwrap();
    let back = Frame::from_version(&v).to_version().unwrap();
    assert_eq!(v, back);
}

#[test]
fn statuses_and_messages() {
    let e = MsgErr::from_status(404);
    assert_eq!(404, e.status());
    assert_eq!("Not Found", e.message().as_str());
    assert_eq!("418 Error", MsgErr::from_status(418).message().as_str());
    assert_eq!(500, MsgErr::from_500("x").status());
    assert_eq!("Error report", MsgErr::parse_error("m", "l", 0..1).message().as_str());
}

#[test]
fn locations_and_methods() {
    assert!(Location::Nowhere.ok_or().is_err());
    assert_eq!("Unassigned", Location::Nowhere.to_string().as_str());
    assert_eq!("GLOBAL::central", Location::Central.to_string().as_str());
    assert_eq!("localhost", Location::new(point("localhost")).ok_or().unwrap().to_string().as_str());
    assert_eq!("Def", MsgMethod::default().to_string().as_str());
    assert!(MsgMethod::new("Get").is_ok());
    assert!(MsgMethod::new("get").is_err());
    assert!(MsgMethod::new("Ge t").is_err());
}

#[test]
fn set_properties_append_is_union() {
    let mut a = SetProperties::new();
    a.push(PropertyMod::Assign { key: "x".to_string(), value: "1".to_string(), lock: false });
    a.push(PropertyMod::UnSet("y".to_string()));
    let mut b = SetProperties::new();
    b.push(PropertyMod::Assign { key: "x".to_string(), value: "2".to_string(), lock: true });
    b.push(PropertyMod::Assign { key: "z".to_string(), value: "3".to_string(), lock: false });
    a.append(b);
    assert_eq!(
        Some(&PropertyMod::Assign { key: "x".to_string(), value: "2".to_string(), lock: true }),
        a.map.get("x")
    );
    assert_eq!(Some(&PropertyMod::UnSet("y".to_string())), a.map.get("y"));
    assert!(a.map.contains_key("z"));
    assert!(!a.map.contains_key("w"));
}

#[test]
fn text_maps_keep_last_write() {
    let mut m: TextMap<String> = TextMap::new();
    m.insert("a".to_string(), "1".to_string());
    m.insert("b".to_string(), "2".to_string());
    m.insert("a".to_string(), "3".to_string());
    assert_eq!("3", m.get("a").unwrap().as_str());
    assert_eq!("2", m.get("b").unwrap().as_str());
    assert!(m.get("c").is_none());
}

#[test]
fn path_parents() {
    let p = Path::from_str("/users/home").unwrap();
    assert_eq!("/users", p.parent().unwrap().to_string().as_str());
    assert_eq!("/", Path::from_str("/users").unwrap().parent().unwrap().to_string().as_str());
    assert!(Path::from_str("/").unwrap().parent().is_none());
    let root = Path::from_str("/").unwrap();
    assert!(Path::parent_from(Some("users".to_string()), &p).is_none());
    assert!(Path::parent_from(None, &root).is_none());
}

#[test]
fn errors_from_messages_and_reports() {
    let e: MsgErr = "boom".to_string().into();
    assert_eq!(500, e.status());
    assert_eq!("boom", e.message().as_str());
    let p = cosmic::error::ParseErrs::from_range("bad", "here", 2..4);
    assert_eq!(1, p.report.len());
    assert_eq!(2, p.report[0].labels[0].span.start);
    let e: MsgErr = p.into();
    assert!(matches!(e, MsgErr::ParseErrs(_)));
}

#[test]
fn regex_resolver_needs_a_match() {
    let r = RegexCapturesResolver::new("(?P<name>[a-z]+)-(?P<num>[0-9]+)".to_string(), "x abc-42 y".to_string()).unwrap();
    assert_eq!("x abc-42 y", r.text().as_str());
    assert_eq!("abc", r.val("name").unwrap().as_str());
    assert_eq!("42", r.val("num").unwrap().as_str());
    assert!(matches!(r.val("other"), Err(ResolverErr::NotFound)));
    match RegexCapturesResolver::new("[0-9]+".to_string(), "abc".to_string()) {
        Err(e) => {
            assert_eq!(500, e.status());
            assert_eq!("no regex captures", e.message().as_str());
        },
        Ok(_) => panic!("expected no captures"),
    }
    match RegexCapturesResolver::new("(".to_string(), "abc".to_string()) {
        Err(e) => assert_eq!("invalid regex", e.message().as_str()),
        Ok(_) => panic!("expected a refused pattern"),
    }
}
