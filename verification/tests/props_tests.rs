use cosmic::command::{GetCtx, GetDef, GetOp, PropertyMod, SetCommand, SetCtx, SetDef, SetProperties};
use cosmic::parse::consume_point_var;
use cosmic::resolve::ToResolved;
use cosmic::props::{get, get_properties, set_properties};

#[test]
fn property_changes_read_in_order() {
    let (rest, props) = set_properties("+x=1, !y , +z='a b',+x=\"q\"");
    assert_eq!("", rest.as_str());
    assert_eq!(
        Some(&PropertyMod::Assign { key: "x".to_string(), value: "q".to_string(), lock: false }),
        props.map.get("x")
    );
    assert_eq!(Some(&PropertyMod::UnSet("y".to_string())), props.map.get("y"));
    assert_eq!(
        Some(&PropertyMod::Assign { key: "z".to_string(), value: "a b".to_string(), lock: false }),
        props.map.get("z")
    );
}

#[test]
fn property_values_run_to_space_or_comma() {
    // an unquoted value takes everything up to white space or a comma, a closing brace too
    let (rest, props) = set_properties("+x=1}");
    assert_eq!("", rest.as_str());
    assert_eq!(
        Some(&PropertyMod::Assign { key: "x".to_string(), value: "1}".to_string(), lock: false }),
        props.map.get("x")
    );
    // the list stops before a comma that no change follows
    let (rest, props) = set_properties("+x=1,");
    assert_eq!(",", rest.as_str());
    assert!(props.map.contains_key("x"));
    // nothing that reads as a change
    let (rest, props) = set_properties("hello");
    assert_eq!("hello", rest.as_str());
    assert!(!props.map.contains_key("hello"));
    let (rest, _) = set_properties("+@x=1");
    assert_eq!("+@x=1", rest.as_str());
}

#[test]
fn property_names_read_in_order() {
    let (rest, names) = get_properties("a, b-c ,d}");
    assert_eq!("}", rest.as_str());
    assert_eq!(vec!["a".to_string(), "b-c".to_string(), "d".to_string()], names);
    let (rest, names) = get_properties("}");
    assert_eq!("}", rest.as_str());
    assert!(names.is_empty());
}

#[test]
fn set_commands() {
    let (rest, cmd) = cosmic::props::set("localhost{+x=1 ,!y } after").unwrap();
    assert_eq!(" after", rest.as_str());
    assert_eq!("localhost", cmd.point.to_string().as_str());
    assert!(cmd.properties.map.contains_key("x"));
    assert!(cmd.properties.map.contains_key("y"));
    // an unquoted value takes the closing brace
    assert!(cosmic::props::set("localhost{+x=1}").is_err());
    assert!(cosmic::props::set("localhost").is_err());
    // a base segment must be followed by the end of a segment, which a brace is not
    assert!(cosmic::props::set("localhost:app{!y}").is_err());
    assert!(cosmic::props::set("localhost:/file.txt{!y}").is_ok());
}

#[test]
fn get_commands() {
    let (rest, cmd) = get("localhost{a,b}").unwrap();
    assert_eq!("", rest.as_str());
    match cmd.op {
        GetOp::Properties(names) => assert_eq!(vec!["a".to_string(), "b".to_string()], names),
        GetOp::State => panic!("expected properties"),
    }
    let (rest, cmd) = get("localhost:app more").unwrap();
    assert_eq!(" more", rest.as_str());
    assert_eq!(GetOp::State, cmd.op);
    let (rest, cmd) = get("localhost{a").unwrap();
    assert_eq!("{a", rest.as_str());
    assert_eq!(GetOp::State, cmd.op);
    assert!(get("Local:app").is_err());
}

#[test]
fn commands_collapse_without_a_scope() {
    let point = consume_point_var("localhost:app:base").unwrap();
    let set = SetDef { point, properties: SetProperties::new() };
    let ctx: SetCtx = set.collapse().unwrap();
    assert_eq!("localhost:app:base", ctx.point.to_string().as_str());
    let set: SetCommand = ctx.collapse().unwrap();
    assert_eq!("localhost:app:base", set.point.to_string().as_str());
    let point = consume_point_var("localhost:${app}").unwrap();
    let get = GetDef { point, op: GetOp::State };
    let r: Result<GetCtx, _> = get.collapse();
    assert!(r.is_err());
}
