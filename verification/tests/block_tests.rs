use cosmic::block::{
    expected_block_terminator_or_non_terminator, lex_block, lex_block_alt, lex_delimited_block,
    lex_nested_block, lex_terminated_block, nested_block, nested_block_content,
};
use cosmic::model::{BlockKind, DelimitedBlockKind, NestedBlockKind, TerminatedBlockKind};

fn all_consumed(r: Result<(String, cosmic::block::LexBlock), cosmic::error::MsgErr>) -> bool {
    match r {
        Ok((rest, _)) => rest.is_empty(),
        Err(_) => false,
    }
}

#[test]
fn test_lex_block() {
    let curly = BlockKind::Nested(NestedBlockKind::Curly);
    let single = BlockKind::Delimited(DelimitedBlockKind::SingleQuotes);
    assert!(all_consumed(lex_block("{}", curly)));
    assert!(all_consumed(lex_block("{x}", curly)));
    assert!(all_consumed(lex_block("{\\}}", curly)));
    assert!(all_consumed(lex_block("'hello'", single)));
    assert!(all_consumed(lex_block("'ain\\'t it cool?'", single)));
}

#[test]
fn test_rough_block() {
    let curly = NestedBlockKind::Curly;
    assert!(all_consumed(lex_nested_block("{  }", curly)));
    assert!(all_consumed(lex_nested_block("{ {} }", curly)));
    assert!(!all_consumed(lex_nested_block("{ } }", curly)));
    // a closing bracket of another kind is content to a rough block
    assert!(all_consumed(lex_nested_block("{ ] }", curly)));
    assert!(lex_nested_block("x blah\n\n\nHello my friend\n\n\n        }", curly).is_err());
    assert!(lex_nested_block("{\n\nHello my friend\n\n\n        ", curly).is_err());
}

#[test]
fn test_block() {
    let (rest, block) = lex_nested_block("{ <Get> -> localhost; }    ", NestedBlockKind::Curly).unwrap();
    assert_eq!("    ", rest.as_str());
    assert_eq!(" <Get> -> localhost; ", block.content.as_str());
    assert_eq!(BlockKind::Nested(NestedBlockKind::Curly), block.kind);
}

#[test]
fn rough_block_content_and_rest() {
    let (rest, block) = lex_nested_block("{a{b}c}d", NestedBlockKind::Curly).unwrap();
    assert_eq!("a{b}c", block.content.as_str());
    assert_eq!("d", rest.as_str());
    let (rest, block) = lex_nested_block("(x\\)y)z", NestedBlockKind::Parens).unwrap();
    assert_eq!("x\\)y", block.content.as_str());
    assert_eq!("z", rest.as_str());
}

#[test]
fn strict_block_rejects_unpaired_closers() {
    let curly = NestedBlockKind::Curly;
    let (rest, block) = nested_block("{ <a> [b] (c) }x", curly).unwrap();
    assert_eq!(" <a> [b] (c) ", block.content.as_str());
    assert_eq!("x", rest.as_str());
    assert!(nested_block("{ ] }", curly).is_err());
    assert!(nested_block("{ <Get> -> localhost; }", curly).is_err());
    assert!(nested_block("{ (] }", curly).is_err());
    assert!(nested_block("{ {} ", curly).is_err());
    assert!(nested_block("x{}", curly).is_err());
    let (rest, content) = nested_block_content("{ {} }  ", curly).unwrap();
    assert_eq!(" {} ", content.as_str());
    assert_eq!("  ", rest.as_str());
}

#[test]
fn quoted_and_terminated_blocks() {
    let (rest, block) = lex_delimited_block("\"a\\\"b\" c", DelimitedBlockKind::DoubleQuotes).unwrap();
    assert_eq!("a\\\"b", block.content.as_str());
    assert_eq!(" c", rest.as_str());
    assert!(lex_delimited_block("\"open", DelimitedBlockKind::DoubleQuotes).is_err());
    let (rest, block) = lex_terminated_block("abc; def", TerminatedBlockKind::Semicolon).unwrap();
    assert_eq!("abc", block.content.as_str());
    assert_eq!(" def", rest.as_str());
    assert!(lex_terminated_block("abc", TerminatedBlockKind::Semicolon).is_err());
    assert!(lex_block("{}", BlockKind::Partial).is_err());
}

#[test]
fn block_alternatives_in_order() {
    let kinds = vec![
        BlockKind::Nested(NestedBlockKind::Square),
        BlockKind::Delimited(DelimitedBlockKind::SingleQuotes),
        BlockKind::Nested(NestedBlockKind::Curly),
    ];
    let (rest, block) = lex_block_alt("{x} y", &kinds).unwrap();
    assert_eq!(BlockKind::Nested(NestedBlockKind::Curly), block.kind);
    assert_eq!("x", block.content.as_str());
    assert_eq!(" y", rest.as_str());
    // a block that opens but never closes stops the search
    assert!(lex_block_alt("[x {y}", &kinds).is_err());
    // no kind finds a block
    assert!(lex_block_alt("x", &kinds).is_err());
}

#[test]
fn terminator_or_non_terminator() {
    assert_eq!("x", expected_block_terminator_or_non_terminator("}x", NestedBlockKind::Curly).unwrap().as_str());
    assert!(expected_block_terminator_or_non_terminator("]", NestedBlockKind::Curly).is_err());
    assert!(expected_block_terminator_or_non_terminator("x", NestedBlockKind::Square).is_ok());
    assert!(expected_block_terminator_or_non_terminator("", NestedBlockKind::Square).is_err());
}
