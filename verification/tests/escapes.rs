use juno_gen::escape::escaped_string_literal;
use juno_gen::ast::{Node, NodeKind, SourceLoc, SourceRange};
use juno_gen::frame::ends_with_block;

fn units(s: &str) -> Vec<u16> {
    s.encode_utf16().collect()
}

#[test]
fn plain_ascii_passes_through() {
    assert_eq!(escaped_string_literal(&units("hello"), '"'), "hello");
}

#[test]
fn named_escapes() {
    assert_eq!(
        escaped_string_literal(&units("a\\b\x08\x0c\n\r\t\x0b"), '"'),
        "a\\\\b\\b\\f\\n\\r\\t\\v",
    );
}

#[test]
fn quote_is_escaped() {
    assert_eq!(escaped_string_literal(&units("say \"hi\""), '"'), "say \\\"hi\\\"");
}

#[test]
fn non_printable_units_use_hex() {
    assert_eq!(escaped_string_literal(&units("\x01"), '"'), "\\u0001");
    assert_eq!(escaped_string_literal(&vec![0x263au16], '"'), "\\u263a");
    assert_eq!(escaped_string_literal(&vec![0x7fu16], '"'), "\\u007f");
    assert_eq!(escaped_string_literal(&vec![0xffffu16], '"'), "\\uffff");
}

fn range() -> SourceRange {
    SourceRange {
        start: SourceLoc { line: 1, col: 1 },
        end: SourceLoc { line: 1, col: 1 },
    }
}

fn node(kind: NodeKind) -> Node {
    Node { kind, range: range() }
}

#[test]
fn block_like_statements_end_with_block() {
    let block = node(NodeKind::BlockStatement { body: vec![] });
    assert!(ends_with_block(Some(&block)));
    let while_block = node(NodeKind::WhileStatement {
        test: Box::new(node(NodeKind::BooleanLiteral { value: true })),
        body: Box::new(node(NodeKind::BlockStatement { body: vec![] })),
    });
    assert!(ends_with_block(Some(&while_block)));
    let while_plain = node(NodeKind::WhileStatement {
        test: Box::new(node(NodeKind::BooleanLiteral { value: true })),
        body: Box::new(node(NodeKind::EmptyStatement)),
    });
    assert!(!ends_with_block(Some(&while_plain)));
    assert!(!ends_with_block(None));
}

#[test]
fn if_uses_alternate_else_consequent() {
    let blk = || Box::new(node(NodeKind::BlockStatement { body: vec![] }));
    let empty = || Box::new(node(NodeKind::EmptyStatement));
    let with_alt = node(NodeKind::IfStatement {
        test: Box::new(node(NodeKind::BooleanLiteral { value: true })),
        consequent: blk(),
        alternate: Some(empty()),
    });
    assert!(!ends_with_block(Some(&with_alt)));
    let no_alt = node(NodeKind::IfStatement {
        test: Box::new(node(NodeKind::BooleanLiteral { value: true })),
        consequent: blk(),
        alternate: None,
    });
    assert!(ends_with_block(Some(&no_alt)));
}
