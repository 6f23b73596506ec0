use cosmic::env::Env;
use cosmic::parse::{consume_point, consume_point_ctx, consume_point_var};
use cosmic::point::{Point, PointSeg, PointSegVar, RouteSeg, RouteSegVar, PointSegKind, RouteSegQuery};
use cosmic::resolve::ToResolved;
use cosmic::point::PointCtx;
use cosmic::case::SkewerCase;
use cosmic::point::{Trace, Version};
use cosmic::resolve::VarVal;

#[test]
fn it_works() {}

#[test]
fn test_point_var() {
    assert!(consume_point_var("[hub]::my-domain.com:${name}:base").is_ok());
    assert!(consume_point_var("[hub]::my-domain.com:1.0.0:/dorko/x/").is_ok());
    assert!(consume_point_var("[hub]::my-domain.com:1.0.0:/dorko/${x}/").is_ok());
    assert!(consume_point_var("[hub]::.:1.0.0:/dorko/${x}/").is_ok());
    assert!(consume_point_var("[hub]::..:1.0.0:/dorko/${x}/").is_ok());
    let point = consume_point_var("[hub]::my-domain.com:1.0.0:/dorko/${x}/file.txt").unwrap();
    if let Some(PointSegVar::Var(var)) = point.segments.get(4) {
        assert_eq!("x", var.name.as_str());
    } else {
        assert!(false);
    }
    if let Some(PointSegVar::File(file)) = point.segments.get(5) {
        assert_eq!("file.txt", file.as_str());
    } else {
        assert!(false);
    }

    let point = consume_point_var("${route}::my-domain.com:${name}:base").unwrap();

    // this one SHOULD fail
    assert!(consume_point_var("${route of routes}::my-domain.com:${BAD}:base").is_err());

    if let RouteSegVar::Var(ref var) = point.route {
        assert_eq!("route", var.name.as_str());
    } else {
        assert!(false);
    }
    if let Some(PointSegVar::Space(space)) = point.segments.get(0) {
        assert_eq!("my-domain.com", space.as_str());
    } else {
        assert!(false);
    }
    if let Some(PointSegVar::Var(var)) = point.segments.get(1) {
        assert_eq!("name", var.name.as_str());
    } else {
        assert!(false);
    }
    if let Some(PointSegVar::Base(base)) = point.segments.get(2) {
        assert_eq!("base", base.as_str());
    } else {
        assert!(false);
    }

    let mut env = Env::new(Point::from_str("my-domain.com").unwrap());
    env.set_var_str("route", "[hub]");
    env.set_var_str("name", "zophis");
    let point: Point = point.to_resolved_point(&env).unwrap();
    println!("{}", point.to_string());
}

#[test]
fn test_point() {
    let point = consume_point_var("[hub]::my-domain.com:name:base").unwrap().to_point().unwrap();
    assert_eq!("my-domain.com:name:base", point.to_string().as_str());
}

#[test]
fn parse_prints_back() {
    let texts = ["localhost", "localhost:app:mechtron", "GLOBAL::central", "my-domain.com:1.0.0"];
    for t in texts.iter() {
        let p = consume_point(t).unwrap();
        assert_eq!(*t, p.to_string().as_str());
    }
}

#[test]
fn point_root_and_route() {
    let root = consume_point("ROOT").unwrap();
    assert!(root.is_root());
    assert_eq!("ROOT", root.to_string().as_str());
    let p = consume_point("[hub]::localhost:base").unwrap();
    assert_eq!(RouteSeg::Tag("hub".to_string()), p.route);
    assert_eq!("[hub]::localhost:base", p.to_string().as_str());
    assert!(!p.route.is_local());
}

#[test]
fn point_rejects_bad_text() {
    assert!(consume_point("").is_err());
    assert!(consume_point("Localhost").is_err());
    assert!(consume_point("localhost:Bad").is_err());
    assert!(consume_point("localhost:${var}").is_err());
    assert!(consume_point_ctx("..:app").is_err());
    assert!(consume_point_var("..:app").is_ok());
}

#[test]
fn point_parent_and_last() {
    let p = consume_point("localhost:app:db").unwrap();
    let parent = p.parent().unwrap();
    assert_eq!("localhost:app", parent.to_string().as_str());
    assert_eq!(Some(PointSeg::Base("db".to_string())), p.last_segment());
    assert!(Point::root().parent().is_none());
}

#[test]
fn point_push_appends() {
    let p = consume_point("localhost").unwrap();
    let q = p.push("app").unwrap();
    assert_eq!("localhost:app", q.to_string().as_str());
    let r = Point::root().push("localhost").unwrap();
    assert_eq!("localhost", r.to_string().as_str());
    let v = consume_point("localhost:1.0.0").unwrap();
    assert!(v.push("x").is_err());
    let vf = v.push("/").unwrap();
    assert!(vf.has_filesystem());
    let file = consume_point("localhost:1.0.0:/file.txt").unwrap();
    assert!(file.push("more").is_err());
    assert!(file.is_artifact());
    assert!(!file.is_artifact_bundle());
    assert!(v.is_artifact_bundle());
}

#[test]
fn point_bundle_and_filepath() {
    let file = consume_point("localhost:1.0.0:/dir/file.txt").unwrap();
    assert!(file.has_bundle());
    let bundle = file.clone().to_bundle().unwrap();
    assert_eq!("localhost:1.0.0", bundle.to_string().as_str());
    assert_eq!(Some("/dirfile.txt".to_string()), file.filepath());
    assert!(consume_point("localhost").unwrap().filepath().is_none());
    assert!(consume_point("localhost").unwrap().to_bundle().is_err());
}

#[test]
fn point_truncate() {
    let p = consume_point("localhost:app:db").unwrap();
    let t = p.clone().truncate(PointSegKind::Space).unwrap();
    assert_eq!("localhost", t.to_string().as_str());
    let e = p.truncate(PointSegKind::Version);
    match e {
        Err(cosmic::error::MsgErr::Status { status, message }) => {
            assert_eq!(404, status);
            assert_eq!("Point segment kind: Version not found in point: localhost:app:db", message.as_str());
        }
        _ => assert!(false),
    }
}

#[test]
fn point_is_parent() {
    let a = consume_point("localhost:app").unwrap();
    let b = consume_point("localhost:app:db").unwrap();
    assert!(a.is_parent(&b).is_ok());
    assert!(b.is_parent(&a).is_err());
    assert!(a.is_parent(&a).is_err());
}

#[test]
fn point_push_segment() {
    let p = consume_point("localhost").unwrap();
    let q = p.push_segment(PointSeg::Base("app".to_string())).unwrap();
    assert_eq!("localhost:app", q.to_string().as_str());
    assert!(p.push_segment(PointSeg::Dir("d".to_string())).is_err());
}

#[test]
fn point_normalize_keeps_concrete() {
    let p = consume_point("localhost:app").unwrap();
    let n = p.clone().normalize().unwrap();
    assert_eq!(p, n);
}

#[test]
fn well_known_points() {
    assert_eq!("GLOBAL::central", Point::central().to_string().as_str());
    assert_eq!("GLOBAL::executor", Point::global_executor().to_string().as_str());
    assert_eq!("LOCAL::portal", Point::local_portal().to_string().as_str());
    assert_eq!("REMOTE::endpoint", Point::remote_endpoint().to_string().as_str());
    assert_eq!(consume_point("GLOBAL::central").unwrap(), Point::central());
}

#[test]
fn resolve_working_point() {
    let env = Env::new(consume_point("localhost:app").unwrap());
    assert!(ToResolved::<PointCtx>::to_resolved(consume_point_var(".:db").unwrap(), &env).is_err());
    let ctx = PointCtx {
        route: RouteSeg::This,
        segments: vec![
            cosmic::point::PointSegCtx::Working(cosmic::point::Trace::new(0, 1)),
            cosmic::point::PointSegCtx::Base("db".to_string()),
        ],
    };
    let p: Point = ctx.to_resolved(&env).unwrap();
    assert_eq!("localhost:app:db", p.to_string().as_str());
    let up: PointCtx = PointCtx { route: RouteSeg::This, segments: vec![cosmic::point::PointSegCtx::Pop(cosmic::point::Trace::new(0, 2))] };
    let q: Point = up.to_resolved(&env).unwrap();
    assert_eq!("localhost", q.to_string().as_str());
}

#[test]
fn resolve_missing_variable_fails() {
    let env = Env::new(Point::root());
    let pv = consume_point_var("localhost:${nope}").unwrap();
    let r: Result<PointCtx, _> = pv.to_resolved(&env);
    assert!(r.is_err());
}

#[test]
fn var_val_resolves_through_scope() {
    let mut env = Env::new(Point::root());
    env.set_var_str("ver", "1.2.3");
    env.set_var_str("bad", "one");
    let v: Version = VarVal::Var(SkewerCase::from_str("ver").unwrap(), Trace::new(0, 6))
        .to_resolved(&env)
        .unwrap();
    assert_eq!("1.2.3", v.to_string().as_str());
    let bad: Result<Version, _> =
        VarVal::Var(SkewerCase::from_str("bad").unwrap(), Trace::new(0, 6)).to_resolved(&env);
    assert!(bad.is_err());
    let missing: Result<Version, _> =
        VarVal::Var(SkewerCase::from_str("gone").unwrap(), Trace::new(0, 7)).to_resolved(&env);
    match missing {
        Err(cosmic::error::MsgErr::ParseErrs(p)) => {
            assert_eq!("variable 'gone' not found", p.report[0].msg.as_ref().unwrap().as_str());
        }
        _ => panic!("expected a parse error"),
    }
    let given: Point = VarVal::Val(Point::root(), Trace::new(0, 0)).to_resolved(&env).unwrap();
    assert_eq!("ROOT", given.to_string().as_str());
}

#[test]
fn push_then_parent_gives_back_the_point() {
    let p = Point::from_str("localhost:app").unwrap();
    let q = p.push("base").unwrap();
    assert_eq!("localhost:app:base", q.to_string().as_str());
    assert_eq!("localhost:app", q.parent().unwrap().to_string().as_str());
    let p = Point::from_str("my-domain.com:app:1.0.0:/").unwrap();
    let q = p.push("file.txt").unwrap();
    assert_eq!("my-domain.com:app:1.0.0:/file.txt", q.to_string().as_str());
    assert_eq!("my-domain.com:app:1.0.0:/", q.parent().unwrap().to_string().as_str());
}

#[test]
fn concrete_points_resolve_to_themselves() {
    let env = Env::new(Point::from_str("other:place").unwrap());
    for text in ["localhost", "localhost:app:base", "my-domain.com:app:1.0.0"] {
        let ctx = consume_point_ctx(text).unwrap();
        let p: Point = ctx.to_resolved(&env).unwrap();
        assert_eq!(text, p.to_string().as_str());
    }
}

#[test]
fn variables_resolve_to_their_values() {
    let mut env = Env::new(Point::root());
    env.set_var_str("x", "base");
    let var = consume_point_var("localhost:app:${x}").unwrap();
    let ctx: PointCtx = var.to_resolved(&env).unwrap();
    let p: Point = ctx.to_resolved(&env).unwrap();
    assert_eq!("localhost:app:base", p.to_string().as_str());
}
