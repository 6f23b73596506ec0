use cosmic::bind::{lex_scope_selector, next_stacked_name, root_scope_selector, scope_filter, scope_filters};
use cosmic::config::Document;
use cosmic::document::{bind_config, doc, strip_comments};
use cosmic::scopes::{lex_child_scopes, lex_scope, lex_scopes};
use cosmic::error::MsgErr;
use cosmic::model::{BlockKind, NestedBlockKind, TerminatedBlockKind};

fn err<T>(r: Result<T, MsgErr>) -> MsgErr {
    match r {
        Err(e) => e,
        Ok(_) => panic!("expected an error"),
    }
}

fn report(e: &MsgErr) -> (String, Vec<(String, u32, u32)>) {
    match e {
        MsgErr::ParseErrs(p) => {
            let r = &p.report[0];
            (
                r.msg.clone().unwrap(),
                r.labels.iter().map(|l| (l.msg.clone().unwrap(), l.span.start, l.span.end)).collect(),
            )
        }
        MsgErr::Status { .. } => panic!("expected a parse report"),
    }
}

#[test]
fn test_root_scope_selector() {
    assert!(root_scope_selector("\n\n            Bind(version=1.0.0)->").is_ok());
    assert!(root_scope_selector("\n\n            Bind(version=1.0.0-alpha)->").is_ok());
    // the selector ends at its closing parenthesis: what follows is left to the caller
    let (rest, _) = root_scope_selector("\n\n            Bind(version=1.0.0) ->").unwrap();
    assert_eq!(" ->", rest.as_str());
    assert!(root_scope_selector("\n\n        Bind   x").is_err());
    assert!(root_scope_selector("\n\n        (Bind(version=3.2.0)   ").is_err());
}

#[test]
fn test_scope_filter() {
    assert!(scope_filter("(auth)").is_ok());
    assert!(scope_filter("(auth )").is_ok());
    assert!(scope_filter("(auth hello)").is_ok());
    assert!(scope_filter("(auth +hello)").is_ok());
    assert!(scope_filters("(auth +hello)->").is_ok());
    assert!(scope_filters("(auth +hello)-(filter2)->").is_ok());
    assert!(scope_filters("(3auth +hello)-(filter2)->").is_err());
    assert!(scope_filters("(a?th +hello)-(filter2)->").is_err());
    // the filters end before the white space: the block after them is left to the caller
    let (rest, _) = scope_filters("(auth +hello)-(filter2) {}").unwrap();
    assert_eq!(" {}", rest.as_str());
}

#[test]
fn scope_filters_read_names_and_arguments() {
    let (rest, f) = scope_filter("(auth +hello)->").unwrap();
    assert_eq!("->", rest.as_str());
    assert_eq!("auth", f.name.as_str());
    assert_eq!(Some("+hello".to_string()), f.args);
    let (rest, fs) = scope_filters("(auth)-(scope admin) x").unwrap();
    assert_eq!(" x", rest.as_str());
    assert_eq!(2, fs.filters.len());
    assert_eq!("scope", fs.filters[1].name.as_str());
    assert_eq!(Some("admin".to_string()), fs.filters[1].args);
    let (rest, fs) = scope_filters("Route").unwrap();
    assert_eq!("Route", rest.as_str());
    assert_eq!(0, fs.filters.len());
}

#[test]
fn test_next_selector() {
    assert_eq!("Http", next_stacked_name("Http").unwrap().1 .0.as_str());
    assert_eq!("Http", next_stacked_name("<Http>").unwrap().1 .0.as_str());
    assert_eq!("Http", next_stacked_name("Http<Msg>").unwrap().1 .0.as_str());
    assert_eq!("Http", next_stacked_name("<Http<Msg>>").unwrap().1 .0.as_str());
    assert_eq!("*", next_stacked_name("<*<Msg>>").unwrap().1 .0.as_str());
    assert_eq!("*", next_stacked_name("*").unwrap().1 .0.as_str());
    assert!(next_stacked_name("<*x<Msg>>").is_err());
}

#[test]
fn stacked_names_keep_children_and_rest() {
    let (rest, (name, children)) = next_stacked_name("Http<Get> -> {}").unwrap();
    assert_eq!("Http", name.as_str());
    assert_eq!(Some("<Get>".to_string()), children);
    assert_eq!(" -> {}", rest.as_str());
    let (rest, (name, children)) = next_stacked_name("<Msg>/x").unwrap();
    assert_eq!("Msg", name.as_str());
    assert_eq!(None, children);
    assert_eq!("/x", rest.as_str());
}

#[test]
fn scope_selectors_read_paths_only_without_children() {
    let (rest, sel) = lex_scope_selector("Route/users/.* -> {}").unwrap();
    assert_eq!("Route", sel.name.as_str());
    assert_eq!(Some("/users/.*".to_string()), sel.path);
    assert_eq!(None, sel.children);
    assert_eq!(" -> {}", rest.as_str());
    let (rest, sel) = lex_scope_selector("Route<Http<Get>>/users").unwrap();
    assert_eq!("Route", sel.name.as_str());
    assert_eq!(Some("<Http<Get>>".to_string()), sel.children);
    assert_eq!(None, sel.path);
    assert_eq!("/users", rest.as_str());
    assert!(lex_scope_selector("-> {}").is_err());
}

#[test]
fn comments_become_spaces_byte_for_byte() {
    assert_eq!("a    \nb", strip_comments("a#xyz\nb").as_str());
    assert_eq!("no comment", strip_comments("no comment").as_str());
    // 'é' takes two bytes, so its comment becomes three spaces
    let s = strip_comments("x#é\ny");
    assert_eq!("x   \ny", s.as_str());
    assert_eq!("x#é\ny".len(), s.len());
}

#[test]
fn test_rough_bind_config() {
    let unknown_config_kind = "\nUnknown(version=1.0.0)-> # test unknown config kind\n{\n    Route{\n    }\n}";
    let unsupported_bind_version = "\nBind(version=100.0.0)-> # test unsupported version\n{\n    Route{\n    }\n}";
    let multiple_unknown_sub_selectors = "\nBind(version=1.0.0)->\n{\n    Whatever -> { # Someone doesn't care what sub selectors he creates\n    }\n\n    Dude(filter $(value))->{}  # he doesn't care one bit!\n\n}";
    let now_we_got_rows_to_parse = "\nBind(version=1.0.0)->\n{\n    Route(auth)-> {\n       Http {\n          <$(method=.*)>/users/$(user=.*)/$(path=.*)-> localhost:app:users:$(user)^Http<$(method)>/$(path) => &;\n          <Get>/logout -> localhost:app:mechtrons:logout-handler => &;\n       }\n    }\n\n    Route -> {\n       Msg<FullStop> -> localhost:apps:\n       * -> localhost:app:bad-page => &;\n    }\n\n\n}";
    // in each, `->` stands where the root block should open
    assert!(doc(unknown_config_kind).is_err());
    assert!(doc(unsupported_bind_version).is_err());
    assert!(doc(multiple_unknown_sub_selectors).is_err());
    assert!(doc(now_we_got_rows_to_parse).is_err());
}

#[test]
fn bind_documents_read_their_route_scopes() {
    let src = "  Bind(version=1.0.0) # the root\n{ Route<Http> -> { <Get> -> localhost:app => &; } }\n";
    match doc(src).unwrap() {
        Document::BindConfig(c) => {
            let scopes = c.route_scopes();
            assert_eq!(1, scopes.len());
            assert_eq!("Route", scopes[0].selector.selector.name.as_str());
            assert_eq!(1, scopes[0].block.len());
            let message = &scopes[0].block[0];
            assert_eq!("Http", message.selector.selector.name.as_str());
            assert_eq!(" <Get> -> localhost:app => &; ", message.block.content.as_str());
        }
    }
    let c = bind_config("Bind(version=1.0.0)  {\n  Route<Msg<Create>> -> localhost:app => &;\n }").unwrap();
    let scopes = c.route_scopes();
    assert_eq!(1, scopes.len());
    let message = &scopes[0].block[0];
    assert_eq!("Msg", message.selector.selector.name.as_str());
    assert_eq!(Some("<Create>".to_string()), message.selector.selector.children);
    assert_eq!("-> localhost:app => &", message.block.content.as_str());

    let c = bind_config("Bind(version=1.0.0) {\n Route -> {\n <*> -> {\n <Get>/users -> localhost:users => &;\n }\n }\n Route(auth) -> {\n }\n}\n").unwrap();
    let scopes = c.route_scopes();
    assert_eq!(2, scopes.len());
    assert_eq!(1, scopes[0].block.len());
    assert_eq!("*", scopes[0].block[0].selector.selector.name.as_str());
    assert_eq!(0, scopes[1].block.len());
    assert_eq!("auth", scopes[1].selector.filters.filters[0].name.as_str());
}

#[test]
fn bind_scopes_must_be_routes() {
    assert!(matches!(
        err(doc("Bind(version=1.0.0) {\n * -> {\n <*> -> {\n <Get>/users -> localhost:users => &;\n }\n }\n}")),
        MsgErr::ParseErrs(_)
    ));
    let e = err(doc("Bind(version=1.0.0) { Whatever -> {} Route -> {} Dude -> {} }"));
    match &e {
        MsgErr::ParseErrs(p) => {
            assert_eq!(2, p.report.len());
            assert_eq!(Some("Unrecognized BindConfig selector: 'Whatever'".to_string()), p.report[0].msg);
            assert_eq!(Some("Unrecognized BindConfig selector: 'Dude'".to_string()), p.report[1].msg);
        }
        _ => panic!("expected a parse report"),
    }
}

#[test]
fn scopes_lex_with_steps_and_blocks() {
    let (rest, sc) = lex_scope("Route<Http<Get>>(auth)-(blah xyz) -[Text ]-> {} tail").unwrap();
    assert_eq!(" tail", rest.as_str());
    assert_eq!("Route", sc.selector.selector.name.as_str());
    assert_eq!(Some("<Http<Get>>".to_string()), sc.selector.selector.children);
    assert_eq!(Some("-[Text ]->".to_string()), sc.pipeline_step);
    assert_eq!("", sc.block.content.as_str());
    let (rest, sc) = lex_scope("Pipes -> 12345;").unwrap();
    assert_eq!("", rest.as_str());
    assert_eq!(None, sc.pipeline_step);
    assert_eq!("-> 12345", sc.block.content.as_str());
    let (_, sc) = lex_scope("Route<Http>(noauth) -> {zoink!{}}").unwrap();
    assert_eq!("zoink!{}", sc.block.content.as_str());
    assert_eq!("noauth", sc.selector.filters.filters[0].name.as_str());
    assert!(lex_scope("Pipes {}").is_err());
    assert!(lex_scope("-> {}").is_err());
    assert!(lex_scope("Route -> {").is_err());

    let scopes = lex_scopes("  Get -> {}\n\nPut -> {}   ").unwrap();
    assert_eq!(2, scopes.len());
    assert_eq!("Put", scopes[1].selector.selector.name.as_str());
    assert_eq!(0, lex_scopes("   ").unwrap().len());
    assert!(lex_scopes("Get -> {} }").is_err());
}

#[test]
fn child_scopes_come_from_children_or_the_block() {
    let (_, sc) = lex_scope("Route<Http>(auth) -> { x }").unwrap();
    let p = lex_child_scopes(sc).unwrap();
    assert_eq!(0, p.selector.filters.filters.len());
    assert_eq!(None, p.pipeline_step);
    assert_eq!("Http", p.block[0].selector.selector.name.as_str());
    assert_eq!("auth", p.block[0].selector.filters.filters[0].name.as_str());
    assert_eq!(" x ", p.block[0].block.content.as_str());
    let (_, sc) = lex_scope("Route -> { Get -> {} Put -> {} }").unwrap();
    let p = lex_child_scopes(sc).unwrap();
    assert_eq!(Some("->".to_string()), p.pipeline_step);
    assert_eq!(2, p.block.len());
    let (_, sc) = lex_scope("Route<Http x> -> {}").unwrap();
    assert!(lex_child_scopes(sc).is_err());
}

#[test]
fn documents_of_other_kinds_or_versions_are_refused() {
    let e = err(doc("Unknown(version=1.0.0) {}"));
    let (m, labels) = report(&e);
    assert_eq!("ConfigParser does not know how to process a 'Unknown'", m.as_str());
    assert_eq!(vec![("Unrecognized Config Kind".to_string(), 0, 7)], labels);
    let e = err(doc(" Bind(version=100.0.0) {}"));
    let (m, labels) = report(&e);
    assert_eq!("ConfigParser does not know how to process a Bind at version '100.0.0'", m.as_str());
    assert_eq!(vec![("Unsupported Bind Config Version".to_string(), 14, 21)], labels);
    match &e {
        MsgErr::ParseErrs(p) => assert_eq!(Some(" Bind(version=100.0.0) {}".to_string()), p.source),
        _ => panic!("expected a parse report"),
    }
}

#[test]
fn documents_without_a_closed_block_are_refused() {
    assert!(matches!(err(doc("Bind(version=1.0.0) { Route {")), MsgErr::ParseErrs(_)));
    assert!(matches!(err(doc("Bind(version=1.0.0) Route")), MsgErr::ParseErrs(_)));
    assert!(matches!(err(doc("# only a comment")), MsgErr::ParseErrs(_)));
}

#[test]
fn test_lex_scope() {
    let pipes = lex_scope("Pipes -> {}").unwrap().1;
    assert_eq!(pipes.selector.selector.name.as_str(), "Pipes");
    assert_eq!(pipes.block.kind, BlockKind::Nested(NestedBlockKind::Curly));
    assert_eq!(pipes.block.content.len(), 0);
    assert!(pipes.selector.filters.filters.is_empty());
    assert!(pipes.pipeline_step.is_some());

    assert!(lex_scope("Pipes {}").is_err());

    let pipes = lex_scope("Pipes -> 12345;").unwrap().1;
    assert_eq!(pipes.selector.selector.name.as_str(), "Pipes");
    assert_eq!(pipes.block.content.as_str(), "-> 12345");
    assert_eq!(pipes.block.kind, BlockKind::Terminated(TerminatedBlockKind::Semicolon));
    assert_eq!(pipes.selector.filters.filters.len(), 0);
    assert!(pipes.pipeline_step.is_none());
    let pipes = lex_scope("Pipes ->  12345;").unwrap().1;
    assert_eq!(pipes.selector.selector.name.as_str(), "Pipes");
    assert_eq!(pipes.block.content.as_str(), "->  12345");
    assert_eq!(pipes.block.kind, BlockKind::Terminated(TerminatedBlockKind::Semicolon));
    assert_eq!(pipes.selector.filters.filters.len(), 0);
    assert!(pipes.pipeline_step.is_none());

    let pipes = lex_scope("Pipes(auth) -> {}").unwrap().1;
    assert_eq!(pipes.selector.selector.name.as_str(), "Pipes");
    assert_eq!(pipes.block.content.len(), 0);
    assert_eq!(pipes.block.kind, BlockKind::Nested(NestedBlockKind::Curly));
    assert_eq!(pipes.selector.filters.filters.len(), 1);
    assert!(pipes.pipeline_step.is_some());

    let pipes = lex_scope("Route<Msg> -> {}").unwrap().1;
    assert_eq!(pipes.selector.selector.name.as_str(), "Route");
    assert_eq!(pipes.selector.selector.children.as_deref(), Some("<Msg>"));
    assert_eq!(pipes.block.content.as_str(), "");
    assert_eq!(pipes.block.kind, BlockKind::Nested(NestedBlockKind::Curly));
    assert_eq!(pipes.selector.filters.filters.len(), 0);
    assert!(pipes.pipeline_step.is_some());

    let pipes = lex_scope("Route<Http>(noauth) -> {zoink!{}}").unwrap().1;
    assert_eq!(pipes.selector.selector.name.as_str(), "Route");
    assert_eq!(pipes.selector.selector.children.as_deref(), Some("<Http>"));
    assert_eq!(pipes.block.content.as_str(), "zoink!{}");
    assert_eq!(pipes.block.kind, BlockKind::Nested(NestedBlockKind::Curly));
    assert_eq!(pipes.selector.filters.filters.len(), 1);

    let msg = "Hello my future friend";
    let parseme = format!("<Http<Get>> -> {};", msg);
    let pipes = lex_scope(parseme.as_str()).unwrap().1;
    assert_eq!(pipes.selector.selector.name.as_str(), "Http");
    assert_eq!(pipes.block.content.as_str(), format!("-> {}", msg));
    assert_eq!(pipes.block.kind, BlockKind::Terminated(TerminatedBlockKind::Semicolon));
    assert_eq!(pipes.selector.filters.filters.len(), 0);
    assert!(pipes.pipeline_step.is_none());

    assert!(lex_scope("* -> {}").is_ok());
}

#[test]
fn host_errors_keep_their_message() {
    let e = cosmic::hosterr::HostErr::new("no wasm source".to_string());
    assert_eq!("no wasm source", e.to_string().as_str());
}

#[test]
fn prerelease_binds_are_not_the_supported_version() {
    let e = err(doc("Bind(version=1.0.0-alpha) {}"));
    assert_eq!(
        "ConfigParser does not know how to process a Bind at version '1.0.0-alpha'",
        report(&e).0.as_str()
    );
    assert!(doc("Bind(version=1.0.0) {}").is_ok());
}
