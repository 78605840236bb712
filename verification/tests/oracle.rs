use juno_gen::ast::{
    BinaryExpressionOperator, LogicalExpressionOperator, Node, NodeKind, SourceLoc, SourceRange,
    UnaryExpressionOperator,
};
use juno_gen::paren::{need_parens, ChildPos, NeedParens};
use juno_gen::precedence::{get_binary_precedence, get_logical_precedence};

fn range() -> SourceRange {
    SourceRange {
        start: SourceLoc { line: 1, col: 1 },
        end: SourceLoc { line: 1, col: 1 },
    }
}

fn node(kind: NodeKind) -> Node {
    Node { kind, range: range() }
}

fn num(text: &str) -> Node {
    node(NodeKind::NumericLiteral { text: text.to_string() })
}

#[test]
fn binary_precedence_table() {
    assert_eq!(get_binary_precedence(BinaryExpressionOperator::Exp), 12);
    assert_eq!(get_binary_precedence(BinaryExpressionOperator::Mult), 11);
    assert_eq!(get_binary_precedence(BinaryExpressionOperator::Plus), 10);
    assert_eq!(get_binary_precedence(BinaryExpressionOperator::LShift), 9);
    assert_eq!(get_binary_precedence(BinaryExpressionOperator::Less), 8);
    assert_eq!(get_binary_precedence(BinaryExpressionOperator::LooseEquals), 7);
    assert_eq!(get_binary_precedence(BinaryExpressionOperator::BitAnd), 6);
    assert_eq!(get_binary_precedence(BinaryExpressionOperator::BitXor), 5);
    assert_eq!(get_binary_precedence(BinaryExpressionOperator::BitOr), 4);
    assert_eq!(get_binary_precedence(BinaryExpressionOperator::In), 14);
    assert_eq!(get_binary_precedence(BinaryExpressionOperator::Instanceof), 14);
}

#[test]
fn logical_precedence_table() {
    assert_eq!(get_logical_precedence(LogicalExpressionOperator::And), 3);
    assert_eq!(get_logical_precedence(LogicalExpressionOperator::Or), 2);
    assert_eq!(get_logical_precedence(LogicalExpressionOperator::NullishCoalesce), 1);
}

#[test]
fn plus_is_left_associative_for_parens() {
    // 1+2+3: the left nested sum needs no parens, the right one does.
    let inner = node(NodeKind::BinaryExpression {
        left: Box::new(num("1")),
        right: Box::new(num("2")),
        operator: BinaryExpressionOperator::Plus,
    });
    let parent = node(NodeKind::BinaryExpression {
        left: Box::new(num("0")),
        right: Box::new(num("3")),
        operator: BinaryExpressionOperator::Plus,
    });
    assert_eq!(need_parens(&parent, &inner, ChildPos::Left, false), NeedParens::No);
    assert_eq!(need_parens(&parent, &inner, ChildPos::Right, false), NeedParens::Yes);
}

#[test]
fn nullish_mixed_with_and_always_parens() {
    let andexp = node(NodeKind::LogicalExpression {
        left: Box::new(num("1")),
        right: Box::new(num("2")),
        operator: LogicalExpressionOperator::And,
    });
    let parent = node(NodeKind::LogicalExpression {
        left: Box::new(num("1")),
        right: Box::new(num("2")),
        operator: LogicalExpressionOperator::NullishCoalesce,
    });
    assert_eq!(need_parens(&parent, &andexp, ChildPos::Left, false), NeedParens::Yes);
    assert_eq!(need_parens(&parent, &andexp, ChildPos::Right, false), NeedParens::Yes);
}

#[test]
fn optional_chain_reset_needs_parens() {
    // (a?.b).c must keep its parens.
    let ident = |t: &mut juno_gen::atom::AtomTable, s: &str| {
        let a = t.atom(s);
        node(NodeKind::Identifier { name: a, type_annotation: None, optional: false })
    };
    let mut t = juno_gen::atom::AtomTable::new();
    let optmember = node(NodeKind::OptionalMemberExpression {
        object: Box::new(ident(&mut t, "a")),
        property: Box::new(ident(&mut t, "b")),
        computed: false,
        optional: true,
    });
    let parent = node(NodeKind::MemberExpression {
        object: Box::new(num("0")),
        property: Box::new(ident(&mut t, "c")),
        computed: false,
    });
    assert_eq!(need_parens(&parent, &optmember, ChildPos::Left, false), NeedParens::Yes);
    let plain = node(NodeKind::MemberExpression {
        object: Box::new(num("0")),
        property: Box::new(ident(&mut t, "d")),
        computed: false,
    });
    assert_eq!(need_parens(&parent, &plain, ChildPos::Left, false), NeedParens::No);
}

#[test]
fn unary_minus_sign_merge_uses_space_when_compact() {
    // 1- -2: compact mode separates the signs with a space, pretty with parens.
    let negtwo = node(NodeKind::UnaryExpression {
        operator: UnaryExpressionOperator::Minus,
        argument: Box::new(num("2")),
        prefix: true,
    });
    let parent = node(NodeKind::BinaryExpression {
        left: Box::new(num("1")),
        right: Box::new(num("2")),
        operator: BinaryExpressionOperator::Minus,
    });
    assert_eq!(need_parens(&parent, &negtwo, ChildPos::Right, false), NeedParens::Space);
    assert_eq!(need_parens(&parent, &negtwo, ChildPos::Right, true), NeedParens::Yes);
}

#[test]
fn for_init_in_expression_needs_parens() {
    let inexp = node(NodeKind::BinaryExpression {
        left: Box::new(num("1")),
        right: Box::new(num("2")),
        operator: BinaryExpressionOperator::In,
    });
    let body = node(NodeKind::EmptyStatement);
    let parent = node(NodeKind::ForStatement {
        init: None,
        test: None,
        update: None,
        body: Box::new(body),
    });
    assert_eq!(need_parens(&parent, &inexp, ChildPos::Left, false), NeedParens::Yes);
}
