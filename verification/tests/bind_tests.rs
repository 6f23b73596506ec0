use cosmic::bind::{root_scope_selector, route_selector, Method, MethodKind, MethodPatternDef, RouteSelector};
use cosmic::error::MsgErr;
use cosmic::layer::Topic;
use cosmic::util::ValuePattern;

fn err<T>(r: Result<T, MsgErr>) -> MsgErr {
    match r {
        Err(e) => e,
        Ok(_) => panic!("expected an error"),
    }
}

fn report(e: &MsgErr) -> (String, Vec<(String, u32, u32)>) {
    match e {
        MsgErr::ParseErrs(p) => {
            let r = &p.report[0];
            (
                r.msg.clone().unwrap(),
                r.labels.iter().map(|l| (l.msg.clone().unwrap(), l.span.start, l.span.end)).collect(),
            )
        }
        MsgErr::Status { .. } => panic!("expected a parse report"),
    }
}

#[test]
fn root_scope_selectors_read() {
    let (rest, sel) = root_scope_selector("  Bind(version=1.0.0) {").unwrap();
    assert_eq!(" {", rest.as_str());
    assert_eq!("Bind", sel.name.as_str());
    assert_eq!("1.0.0", sel.version.span.as_str());
    assert_eq!(1, sel.version.element.major);
    let e = err(root_scope_selector("Bind(version=1.0.0 {"));
    assert_eq!(
        "expecting a closing parenthesis for the root version declaration (no spaces allowed) -> i.e. Bind(version=1.0.0)->",
        report(&e).0.as_str()
    );
    let e = err(root_scope_selector("Bind {"));
    assert!(report(&e).0.starts_with("Root config selector requires a version declaration"));
    let e = err(root_scope_selector("1Bind"));
    assert!(report(&e).0.starts_with("Expecting an alphanumeric root scope selector name"));
}

#[test]
fn route_selectors_read() {
    let s = route_selector("Http<Get>/users/.*").unwrap();
    assert_eq!("/users/.*", s.path().as_str());
    match s.method() {
        ValuePattern::Pattern(MethodPatternDef::Http(ValuePattern::Pattern(n))) => assert_eq!("Get", n.as_str()),
        _ => panic!("expected Http<Get>"),
    }
    let get = Method { kind: MethodKind::Http, name: "Get".to_string() };
    let post = Method { kind: MethodKind::Http, name: "Post".to_string() };
    assert!(s.is_match(&get, "/users/x").is_ok());
    assert!(s.is_match(&post, "/users/x").is_err());
    assert!(s.is_match(&get, "/other").is_err());

    let s = route_selector("[Topic<Cli>]::Msg<*>(auth)-(scope admin)").unwrap();
    assert_eq!("/.*", s.path().as_str());
    assert!(matches!(s.topic(), Some(ValuePattern::Pattern(Topic::Cli))));
    let f = &s.filters().filters;
    assert_eq!(2, f.len());
    assert_eq!("auth", f[0].name.as_str());
    assert_eq!(Some("admin".to_string()), f[1].args.clone());

    let s = route_selector("*").unwrap();
    assert!(matches!(s.method(), ValuePattern::Any));

    let e = err(route_selector("Cmd<Foo>"));
    assert_eq!(("Cmd not supported yet".to_string(), vec![("not supported (yet)".to_string(), 0, 3)]), report(&e));
    let e = err(route_selector("Http"));
    assert_eq!("Http method requires a sub kind i.e. Http<Get> or Http<*>", report(&e).0.as_str());
    let e = err(route_selector("Msg<Get<Deep>>"));
    assert_eq!(vec![("too many subkinds".to_string(), 8, 12)], report(&e).1);
    let e = err(route_selector("Http<Get> extra"));
    assert_eq!(("could not consume entire route selector".to_string(), vec![("extra".to_string(), 9, 15)]), report(&e));
    assert!(route_selector("Http<Get>/(").is_err());
}

#[test]
fn route_selector_parts() {
    let s = RouteSelector::any().unwrap();
    assert_eq!("/.*", s.path().as_str());
    let s = s.with_topic(Topic::Cli);
    assert!(matches!(s.topic(), Some(ValuePattern::Pattern(Topic::Cli))));
    assert!(RouteSelector::new(None, ValuePattern::Any, "(".to_string(), cosmic::model::ScopeFiltersDef { filters: vec![] }).is_err());
}
