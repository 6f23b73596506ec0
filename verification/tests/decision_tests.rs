use cosmic::errreport::create_err_report;
use cosmic::error::MsgErr;
use cosmic::interchange::{interchange_step, InterchangeAction, InterchangeEvent, InterchangeState};
use cosmic::kind::VersionReq;
use cosmic::kind::IsMatch;
use cosmic::lane::{client_step, ClientEvent, ClientOp, ClientState, HyperClientStatus};
use cosmic::model::{LexScopeSelector, RouteScopeSelector};
use cosmic::point::{Point, Version};
use cosmic::parse::consume_point_var;

fn report(e: &MsgErr) -> (String, Vec<(String, u32, u32)>) {
    match e {
        MsgErr::ParseErrs(p) => {
            assert_eq!(1, p.report.len());
            let r = &p.report[0];
            let labels = r
                .labels
                .iter()
                .map(|l| (l.msg.clone().unwrap(), l.span.start, l.span.end))
                .collect();
            (r.msg.clone().unwrap(), labels)
        }
        MsgErr::Status { .. } => panic!("expected a parse report"),
    }
}

#[test]
fn err_reports_by_context() {
    let e = create_err_report("point", 4, "x", "abc:x".to_string());
    assert_eq!(("Invalid Point".to_string(), vec![("Invalid Point".to_string(), 4, 4)]), report(&e));
    let e = create_err_report("var", 2, "${a b}c", "..${a b}c".to_string());
    assert_eq!(vec![("Bad Variable Substitution".to_string(), 2, 8)], report(&e).1);
    let e = create_err_report("block:open:{", 0, "x", "x".to_string());
    assert_eq!("expecting '{' (open scope block)", report(&e).0.as_str());
    let e = create_err_report("resolver-not-available", 1, "abc", "xabc".to_string());
    assert_eq!(vec![("resolution not available".to_string(), 1, 4)], report(&e).1);
    let e = create_err_report("consume", 0, "x", "x".to_string());
    assert!(report(&e).1.is_empty());
    let e = create_err_report("nope", 0, "x", "x".to_string());
    assert_eq!(
        "internal parser error: cannot determine an error message for parse context: nope",
        report(&e).0.as_str()
    );
    let e = create_err_report("regex", 0, "a(b rest", "a(b rest".to_string());
    let (m, labels) = report(&e);
    assert!(m.starts_with("Regex Syntax Error: '"));
    assert_eq!(vec![("regex syntax error".to_string(), 0, 3)], labels);
    let e = create_err_report("regex", 0, " x", " x".to_string());
    assert_eq!("internal parse error: could not identify regex", report(&e).0.as_str());
}

#[test]
fn point_parse_errors_are_reported_at_the_point() {
    let e = consume_point_var("Bad Point!").unwrap_err();
    assert_eq!(("Invalid Point".to_string(), vec![("Invalid Point".to_string(), 0, 0)]), report(&e));
}

#[test]
fn client_runner_decisions() {
    let (s, statuses, op) = client_step(ClientState::Start, ClientEvent::Begin);
    assert_eq!(ClientState::Connecting, s);
    assert_eq!(vec![HyperClientStatus::Unknown, HyperClientStatus::Connecting], statuses);
    assert_eq!(ClientOp::Connect { timeout_secs: 30 }, op);
    let (s, statuses, op) = client_step(s, ClientEvent::ConnectFailed);
    assert_eq!(ClientState::Connecting, s);
    assert!(statuses.is_empty());
    assert_eq!(ClientOp::RetryAfter { wait_secs: 1, timeout_secs: 30 }, op);
    let (s, statuses, op) = client_step(s, ClientEvent::Connected);
    assert_eq!(ClientState::Relaying, s);
    assert_eq!(vec![HyperClientStatus::Ready], statuses);
    assert_eq!(ClientOp::Relay, op);
    let (s, _, op) = client_step(s, ClientEvent::SendFailed);
    assert_eq!(ClientState::Connecting, s);
    assert_eq!(ClientOp::Requeue { timeout_secs: 30 }, op);
    let (s, _, op) = client_step(s, ClientEvent::RelayEnded);
    assert_eq!(ClientState::Connecting, s);
    assert_eq!(ClientOp::Ignore, op);
}

#[test]
fn interchange_routes_to_held_hyperways() {
    let p = |s: &str| Point::from_str(s).unwrap();
    let mut state = InterchangeState::new();
    assert_eq!(InterchangeAction::Listen { way: 1 }, interchange_step(&mut state, InterchangeEvent::Add { remote: p("a:b"), way: 1 }));
    assert_eq!(InterchangeAction::Forward { way: 1 }, interchange_step(&mut state, InterchangeEvent::Wave { to: Some(p("a:b")) }));
    assert_eq!(InterchangeAction::Nothing, interchange_step(&mut state, InterchangeEvent::Wave { to: Some(p("a:c")) }));
    assert_eq!(InterchangeAction::WarnNotSingle, interchange_step(&mut state, InterchangeEvent::Wave { to: None }));
    interchange_step(&mut state, InterchangeEvent::Add { remote: p("a:b"), way: 2 });
    assert_eq!(InterchangeAction::Mount { way: 2 }, interchange_step(&mut state, InterchangeEvent::Mount { remote: p("a:b") }));
    interchange_step(&mut state, InterchangeEvent::Remove { remote: p("a:b") });
    assert_eq!(InterchangeAction::Nothing, interchange_step(&mut state, InterchangeEvent::Mount { remote: p("a:b") }));
}

#[test]
fn route_scope_selectors() {
    let s = RouteScopeSelector::new(None).unwrap();
    assert_eq!("Route", s.name().as_str());
    assert_eq!(".*", s.path().as_str());
    let s = RouteScopeSelector::new(Some("/users/.*")).unwrap();
    assert_eq!("/users/.*", s.path().as_str());
    assert!(RouteScopeSelector::new(Some("(")).is_err());
    let lex = LexScopeSelector::new("Other".to_string(), None, None);
    match RouteScopeSelector::from(lex) {
        Err(MsgErr::Status { message, .. }) => assert_eq!("expected Route", message.as_str()),
        _ => panic!("expected a refusal"),
    }
}

#[test]
fn version_requirements_match_versions() {
    let req = VersionReq::from_str("^1.0.0").unwrap();
    assert!(req.is_match(&Version::from_str("1.2.3").unwrap()));
    assert!(!req.is_match(&Version::from_str("2.0.0").unwrap()));
    let odd = Version { major: 1, minor: 2, patch: 3, pre: "bad pre!".to_string(), build: String::new() };
    assert!(!req.is_match(&odd));
}

#[test]
fn tokens_admit_knocks() {
    let auth = cosmic::auth::TokenAuthenticator::new("agent", "secret".to_string());
    let remote = Point::from_str("localhost:remote").unwrap();
    let p = auth.auth(Some("secret"), Some(remote)).unwrap();
    assert_eq!("localhost:remote", p.to_string().as_str());
    match auth.auth(Some("secret"), None) {
        Err(MsgErr::Status { status, message }) => {
            assert_eq!(500, status);
            assert_eq!("expected a remote entry selection", message.as_str());
        }
        _ => panic!("expected a refusal"),
    }
    match auth.auth(Some("other"), None) {
        Err(MsgErr::Status { status, .. }) => assert_eq!(403, status),
        _ => panic!("expected forbidden"),
    }
    assert!(auth.auth(None, None).is_err());
}

#[test]
fn wasm_host_config_builds() {
    let mut b: cosmic::host::WasmHostConfigBuilder<u8> = cosmic::host::WasmHostConfig::builder();
    b.runtime(true);
    b.fs(7, &vec!["/a".to_string()]);
    b.fs(9, &vec!["/b".to_string()]);
    let c = b.build();
    assert!(!c.runtime);
    let fs = c.fs.unwrap();
    assert_eq!(7, fs.fs_factory);
    assert_eq!(vec!["/a".to_string(), "/b".to_string()], fs.pre_opened_dirs);
}

#[test]
fn point_templates() {
    let (rest, t) = cosmic::command::point_template("localhost:app:db% rest").unwrap();
    assert_eq!(" rest", rest.as_str());
    assert_eq!("localhost:app", t.parent.to_string().as_str());
    assert_eq!(cosmic::command::PointSegTemplate::Exact("db%".to_string()), t.child_segment_template);
    let (_, t) = cosmic::command::point_template("localhost:app").unwrap();
    assert_eq!(cosmic::command::PointSegTemplate::Exact("app".to_string()), t.child_segment_template);
    assert!(cosmic::command::point_template("ROOT").is_err());
}

#[test]
fn trailing_text_after_a_point_is_reported_where_it_starts() {
    let e = consume_point_var("localhost:app x").unwrap_err();
    let (m, labels) = report(&e);
    assert_eq!("internal parser error: cannot determine an error message for parse context: eof", m.as_str());
    assert!(labels.is_empty());
}
