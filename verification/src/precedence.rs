//! The precedence model: a total preorder over expression kinds encoded as
//! non-negative integers, and an associativity per kind.

use vstd::prelude::*;
use crate::ast::{BinaryExpressionOperator, LogicalExpressionOperator, NodeKind};

verus! {

pub type Precedence = u32;

pub const ALWAYS_PAREN: Precedence = 0;
pub const SEQUENCE: Precedence = 1;
pub const ARROW: Precedence = 2;
pub const YIELD: Precedence = 3;
pub const ASSIGN: Precedence = 4;
pub const COND: Precedence = 5;
pub const BIN_START: Precedence = 6;
pub const UNARY: Precedence = 26;
pub const POST_UPDATE: Precedence = 27;
pub const TAGGED_TEMPLATE: Precedence = 28;
pub const NEW_NO_ARGS: Precedence = 29;
pub const MEMBER: Precedence = 30;
pub const PRIMARY: Precedence = 31;
pub const TOP: Precedence = 32;

pub const UNION_TYPE: Precedence = 1;
pub const INTERSECTION_TYPE: Precedence = 2;

/// Associativity direction: the tie-breaking rule between two operators of
/// equal precedence.
#[derive(Debug, Copy, Clone, PartialEq, Eq, Structural)]
pub enum Assoc {
    /// Left to right associativity.
    Ltr,
    /// Right to left associativity.
    Rtl,
}

pub open spec fn spec_binary_precedence(op: BinaryExpressionOperator) -> Precedence {
    match op {
        BinaryExpressionOperator::Exp => 12,
        BinaryExpressionOperator::Mult => 11,
        BinaryExpressionOperator::Mod => 11,
        BinaryExpressionOperator::Div => 11,
        BinaryExpressionOperator::Plus => 10,
        BinaryExpressionOperator::Minus => 10,
        BinaryExpressionOperator::LShift => 9,
        BinaryExpressionOperator::RShift => 9,
        BinaryExpressionOperator::RShift3 => 9,
        BinaryExpressionOperator::Less => 8,
        BinaryExpressionOperator::Greater => 8,
        BinaryExpressionOperator::LessEquals => 8,
        BinaryExpressionOperator::GreaterEquals => 8,
        BinaryExpressionOperator::LooseEquals => 7,
        BinaryExpressionOperator::LooseNotEquals => 7,
        BinaryExpressionOperator::StrictEquals => 7,
        BinaryExpressionOperator::StrictNotEquals => 7,
        BinaryExpressionOperator::BitAnd => 6,
        BinaryExpressionOperator::BitXor => 5,
        BinaryExpressionOperator::BitOr => 4,
        BinaryExpressionOperator::In => (8 + BIN_START) as Precedence,
        BinaryExpressionOperator::Instanceof => (8 + BIN_START) as Precedence,
    }
}

pub fn get_binary_precedence(op: BinaryExpressionOperator) -> (r: Precedence)
    ensures
        r == spec_binary_precedence(op),
{
    match op {
        BinaryExpressionOperator::Exp => 12,
        BinaryExpressionOperator::Mult => 11,
        BinaryExpressionOperator::Mod => 11,
        BinaryExpressionOperator::Div => 11,
        BinaryExpressionOperator::Plus => 10,
        BinaryExpressionOperator::Minus => 10,
        BinaryExpressionOperator::LShift => 9,
        BinaryExpressionOperator::RShift => 9,
        BinaryExpressionOperator::RShift3 => 9,
        BinaryExpressionOperator::Less => 8,
        BinaryExpressionOperator::Greater => 8,
        BinaryExpressionOperator::LessEquals => 8,
        BinaryExpressionOperator::GreaterEquals => 8,
        BinaryExpressionOperator::LooseEquals => 7,
        BinaryExpressionOperator::LooseNotEquals => 7,
        BinaryExpressionOperator::StrictEquals => 7,
        BinaryExpressionOperator::StrictNotEquals => 7,
        BinaryExpressionOperator::BitAnd => 6,
        BinaryExpressionOperator::BitXor => 5,
        BinaryExpressionOperator::BitOr => 4,
        BinaryExpressionOperator::In => 8 + BIN_START,
        BinaryExpressionOperator::Instanceof => 8 + BIN_START,
    }
}

pub open spec fn spec_logical_precedence(op: LogicalExpressionOperator) -> Precedence {
    match op {
        LogicalExpressionOperator::And => 3,
        LogicalExpressionOperator::Or => 2,
        LogicalExpressionOperator::NullishCoalesce => 1,
    }
}

pub fn get_logical_precedence(op: LogicalExpressionOperator) -> (r: Precedence)
    ensures
        r == spec_logical_precedence(op),
{
    match op {
        LogicalExpressionOperator::And => 3,
        LogicalExpressionOperator::Or => 2,
        LogicalExpressionOperator::NullishCoalesce => 1,
    }
}

/// The precedence and associativity of a node. In pretty mode a `new` call
/// always renders its argument parens, so it sits at member precedence even
/// with no arguments.
pub open spec fn spec_precedence(k: NodeKind, pretty: bool) -> (Precedence, Assoc) {
    match k {
        NodeKind::Identifier { .. }
        | NodeKind::NullLiteral
        | NodeKind::BooleanLiteral { .. }
        | NodeKind::StringLiteral { .. }
        | NodeKind::NumericLiteral { .. }
        | NodeKind::RegExpLiteral { .. }
        | NodeKind::ThisExpression
        | NodeKind::Super
        | NodeKind::ArrayExpression { .. }
        | NodeKind::ObjectExpression { .. }
        | NodeKind::ObjectPattern { .. }
        | NodeKind::FunctionExpression { .. }
        | NodeKind::TemplateLiteral { .. } => (PRIMARY, Assoc::Ltr),
        NodeKind::MemberExpression { .. }
        | NodeKind::OptionalMemberExpression { .. }
        | NodeKind::CallExpression { .. }
        | NodeKind::OptionalCallExpression { .. } => (MEMBER, Assoc::Ltr),
        NodeKind::NewExpression { arguments, .. } => {
            if pretty || arguments@.len() > 0 {
                (MEMBER, Assoc::Ltr)
            } else {
                (NEW_NO_ARGS, Assoc::Ltr)
            }
        },
        NodeKind::TaggedTemplateExpression { .. } => (TAGGED_TEMPLATE, Assoc::Ltr),
        NodeKind::UpdateExpression { prefix, .. } => {
            if prefix {
                (POST_UPDATE, Assoc::Ltr)
            } else {
                (UNARY, Assoc::Rtl)
            }
        },
        NodeKind::UnaryExpression { .. } => (UNARY, Assoc::Rtl),
        NodeKind::BinaryExpression { operator, .. } => (
            spec_binary_precedence(operator),
            Assoc::Ltr,
        ),
        NodeKind::LogicalExpression { operator, .. } => (
            spec_logical_precedence(operator),
            Assoc::Ltr,
        ),
        NodeKind::ConditionalExpression { .. } => (COND, Assoc::Rtl),
        NodeKind::AssignmentExpression { .. } => (ASSIGN, Assoc::Rtl),
        NodeKind::YieldExpression { .. } | NodeKind::ArrowFunctionExpression { .. } => (
            YIELD,
            Assoc::Ltr,
        ),
        NodeKind::SequenceExpression { .. } => (SEQUENCE, Assoc::Rtl),
        NodeKind::StringTypeAnnotation
        | NodeKind::NumberTypeAnnotation
        | NodeKind::BooleanTypeAnnotation
        | NodeKind::AnyTypeAnnotation
        | NodeKind::VoidTypeAnnotation => (PRIMARY, Assoc::Ltr),
        NodeKind::UnionTypeAnnotation { .. } => (UNION_TYPE, Assoc::Ltr),
        NodeKind::IntersectionTypeAnnotation { .. } => (INTERSECTION_TYPE, Assoc::Ltr),
        _ => (ALWAYS_PAREN, Assoc::Ltr),
    }
}

/// Return the precedence and associativity of a node kind.
pub fn get_precedence(k: &NodeKind, pretty: bool) -> (r: (Precedence, Assoc))
    ensures
        r == spec_precedence(*k, pretty),
{
    match k {
        NodeKind::Identifier { .. }
        | NodeKind::NullLiteral
        | NodeKind::BooleanLiteral { .. }
        | NodeKind::StringLiteral { .. }
        | NodeKind::NumericLiteral { .. }
        | NodeKind::RegExpLiteral { .. }
        | NodeKind::ThisExpression
        | NodeKind::Super
        | NodeKind::ArrayExpression { .. }
        | NodeKind::ObjectExpression { .. }
        | NodeKind::ObjectPattern { .. }
        | NodeKind::FunctionExpression { .. }
        | NodeKind::TemplateLiteral { .. } => (PRIMARY, Assoc::Ltr),
        NodeKind::MemberExpression { .. }
        | NodeKind::OptionalMemberExpression { .. }
        | NodeKind::CallExpression { .. }
        | NodeKind::OptionalCallExpression { .. } => (MEMBER, Assoc::Ltr),
        NodeKind::NewExpression { arguments, .. } => {
            if pretty || arguments.len() > 0 {
                (MEMBER, Assoc::Ltr)
            } else {
                (NEW_NO_ARGS, Assoc::Ltr)
            }
        },
        NodeKind::TaggedTemplateExpression { .. } => (TAGGED_TEMPLATE, Assoc::Ltr),
        NodeKind::UpdateExpression { prefix, .. } => {
            if *prefix {
                (POST_UPDATE, Assoc::Ltr)
            } else {
                (UNARY, Assoc::Rtl)
            }
        },
        NodeKind::UnaryExpression { .. } => (UNARY, Assoc::Rtl),
        NodeKind::BinaryExpression { operator, .. } => (get_binary_precedence(*operator), Assoc::Ltr),
        NodeKind::LogicalExpression { operator, .. } => (
            get_logical_precedence(*operator),
            Assoc::Ltr,
        ),
        NodeKind::ConditionalExpression { .. } => (COND, Assoc::Rtl),
        NodeKind::AssignmentExpression { .. } => (ASSIGN, Assoc::Rtl),
        NodeKind::YieldExpression { .. } | NodeKind::ArrowFunctionExpression { .. } => (
            YIELD,
            Assoc::Ltr,
        ),
        NodeKind::SequenceExpression { .. } => (SEQUENCE, Assoc::Rtl),
        NodeKind::StringTypeAnnotation
        | NodeKind::NumberTypeAnnotation
        | NodeKind::BooleanTypeAnnotation
        | NodeKind::AnyTypeAnnotation
        | NodeKind::VoidTypeAnnotation => (PRIMARY, Assoc::Ltr),
        NodeKind::UnionTypeAnnotation { .. } => (UNION_TYPE, Assoc::Ltr),
        NodeKind::IntersectionTypeAnnotation { .. } => (INTERSECTION_TYPE, Assoc::Ltr),
        _ => (ALWAYS_PAREN, Assoc::Ltr),
    }
}

} // verus!
