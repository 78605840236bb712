//! The parenthesization oracle: decides whether a child node needs grouping
//! parentheses (or a disambiguating space) in its parent's context.

use vstd::prelude::*;
use crate::ast::{BinaryExpressionOperator, Node, NodeKind, UnaryExpressionOperator};
use crate::precedence::{spec_precedence, get_precedence, Assoc, ALWAYS_PAREN, TOP};

verus! {

/// Child position for the purpose of determining whether the child needs
/// parens.
#[derive(Debug, Copy, Clone, PartialEq, Eq, Structural)]
pub enum ChildPos {
    Left,
    Anywhere,
    Right,
}

/// Whether parens are needed around something.
#[derive(Debug, Copy, Clone, PartialEq, Eq, Structural)]
pub enum NeedParens {
    /// No parentheses needed.
    No,
    /// Parentheses required.
    Yes,
    /// A space character is sufficient to distinguish, as between a binary
    /// minus and a unary minus.
    Space,
}

pub open spec fn bool_paren(b: bool) -> NeedParens {
    if b {
        NeedParens::Yes
    } else {
        NeedParens::No
    }
}

/// The leftmost-descendant predicates used by the oracle.
#[derive(Debug, Copy, Clone, PartialEq, Eq, Structural)]
pub enum StartsKind {
    /// A function expression, object expression or object pattern: inside an
    /// expression statement these would be misparsed as declarations/blocks.
    DeclLike,
    /// Starts with `+` or prefix `++`.
    PlusLike,
    /// Starts with `-` or prefix `--`.
    MinusLike,
}

pub open spec fn spec_starts_pred(k: NodeKind, which: StartsKind) -> bool {
    match which {
        StartsKind::DeclLike => {
            ||| k matches NodeKind::FunctionExpression { .. }
            ||| k matches NodeKind::ObjectExpression { .. }
            ||| k matches NodeKind::ObjectPattern { .. }
        },
        StartsKind::PlusLike => k.spec_check_plus(),
        StartsKind::MinusLike => k.spec_check_minus(),
    }
}

fn starts_pred(k: &NodeKind, which: StartsKind) -> (r: bool)
    ensures
        r == spec_starts_pred(*k, which),
{
    match which {
        StartsKind::DeclLike => matches!(
            k,
            NodeKind::FunctionExpression { .. }
            | NodeKind::ObjectExpression { .. }
            | NodeKind::ObjectPattern { .. }
        ),
        StartsKind::PlusLike => k.check_plus(),
        StartsKind::MinusLike => k.check_minus(),
    }
}

/// The plain precedence/associativity comparison that applies when no
/// context-sensitive override fires.
pub open spec fn spec_prec_parens(parent: Node, child: Node, pos: ChildPos, pretty: bool)
    -> NeedParens {
    let (child_prec, _child_assoc) = spec_precedence(child.kind, pretty);
    if child_prec == ALWAYS_PAREN {
        NeedParens::Yes
    } else {
        let (parent_prec, parent_assoc) = spec_precedence(parent.kind, pretty);
        if child_prec < parent_prec {
            NeedParens::Yes
        } else if child_prec > parent_prec {
            NeedParens::No
        } else if pos == ChildPos::Anywhere {
            NeedParens::Yes
        } else if child_prec == TOP {
            NeedParens::No
        } else {
            bool_paren(
                if parent_assoc == Assoc::Rtl {
                    pos == ChildPos::Left
                } else {
                    pos == ChildPos::Right
                },
            )
        }
    }
}

/// The sign-merge override: a unary `-` over a child starting with `-` or
/// `--` (symmetrically for `+`), or the right child of a binary `-`/`+`
/// starting likewise. Without grouping the two signs would merge into one
/// token.
pub open spec fn spec_sign_merge(parent: Node, child: Node, pos: ChildPos, pretty: bool) -> bool
    decreases child, 3nat,
{
    ||| (parent.kind matches NodeKind::UnaryExpression {
            operator: UnaryExpressionOperator::Minus, .. }
        && spec_root_starts_with(child, StartsKind::MinusLike, pretty))
    ||| (parent.kind matches NodeKind::UnaryExpression {
            operator: UnaryExpressionOperator::Plus, .. }
        && spec_root_starts_with(child, StartsKind::PlusLike, pretty))
    ||| (pos == ChildPos::Right
        && (parent.kind matches NodeKind::BinaryExpression {
            operator: BinaryExpressionOperator::Minus, .. })
        && spec_root_starts_with(child, StartsKind::MinusLike, pretty))
    ||| (pos == ChildPos::Right
        && (parent.kind matches NodeKind::BinaryExpression {
            operator: BinaryExpressionOperator::Plus, .. })
        && spec_root_starts_with(child, StartsKind::PlusLike, pretty))
}

/// Whether parentheses are needed around the `child` node, which is situated
/// at `pos` position in relation to its `parent`.
pub open spec fn spec_need_parens(parent: Node, child: Node, pos: ChildPos, pretty: bool)
    -> NeedParens
    decreases child, 4nat,
{
    if parent.kind matches NodeKind::ArrowFunctionExpression { .. } {
        // `x => ({a: 10})` needs parens to avoid confusing the object with a
        // block holding a labelled statement.
        if pos == ChildPos::Right && (child.kind matches NodeKind::ObjectExpression { .. }) {
            NeedParens::Yes
        } else {
            spec_prec_parens(parent, child, pos, pretty)
        }
    } else if parent.kind matches NodeKind::ForStatement { .. } {
        // `for((a in b);;)` needs parens to avoid confusion with `for(a in b)`.
        bool_paren(
            child.kind matches NodeKind::BinaryExpression {
                operator: BinaryExpressionOperator::In, .. },
        )
    } else if parent.kind matches NodeKind::ExpressionStatement { .. } {
        // An expression statement must not start with what would parse as a
        // declaration or a block.
        bool_paren(spec_root_starts_with(child, StartsKind::DeclLike, pretty))
    } else if spec_sign_merge(parent, child, pos, pretty) {
        if pretty {
            NeedParens::Yes
        } else {
            NeedParens::Space
        }
    } else if (parent.kind matches NodeKind::MemberExpression { .. }
            || parent.kind matches NodeKind::CallExpression { .. })
        && (child.kind matches NodeKind::OptionalMemberExpression { .. }
            || child.kind matches NodeKind::OptionalCallExpression { .. })
        && pos == ChildPos::Left {
        // A non-optional member/call over an optional chain must
        // parenthesize the chain: `(a?.b).c` is not `a?.b.c`.
        NeedParens::Yes
    } else if (parent.kind.spec_check_and_or() && child.kind.spec_check_nullish())
        || (parent.kind.spec_check_nullish() && child.kind.spec_check_and_or()) {
        // `??` mixed with `&&`/`||` always requires parens.
        NeedParens::Yes
    } else {
        spec_prec_parens(parent, child, pos, pretty)
    }
}

/// Whether the leftmost descendant of `expr`, reached through spines that
/// need no parens of their own, satisfies the predicate `which`.
pub open spec fn spec_root_starts_with(expr: Node, which: StartsKind, pretty: bool) -> bool
    decreases expr, 2nat,
{
    spec_starts_step(expr, which, pretty)
}

/// One step of the leftmost-descendant walk, entered from a parent along
/// whose left edge `expr` sits without parens.
pub open spec fn spec_expr_starts_with(expr: Node, parent: Node, which: StartsKind, pretty: bool)
    -> bool
    decreases expr, 5nat,
{
    if spec_need_parens(parent, expr, ChildPos::Left, pretty) == NeedParens::Yes {
        false
    } else {
        spec_starts_step(expr, which, pretty)
    }
}

pub open spec fn spec_starts_step(expr: Node, which: StartsKind, pretty: bool) -> bool
    decreases expr, 1nat,
{
    if spec_starts_pred(expr.kind, which) {
        true
    } else {
        match expr.kind {
            NodeKind::CallExpression { callee, .. } =>
                spec_expr_starts_with(*callee, expr, which, pretty),
            NodeKind::OptionalCallExpression { callee, .. } =>
                spec_expr_starts_with(*callee, expr, which, pretty),
            NodeKind::BinaryExpression { left, .. } =>
                spec_expr_starts_with(*left, expr, which, pretty),
            NodeKind::LogicalExpression { left, .. } =>
                spec_expr_starts_with(*left, expr, which, pretty),
            NodeKind::ConditionalExpression { test, .. } =>
                spec_expr_starts_with(*test, expr, which, pretty),
            NodeKind::AssignmentExpression { left, .. } =>
                spec_expr_starts_with(*left, expr, which, pretty),
            NodeKind::UpdateExpression { prefix, argument, .. } =>
                !prefix && spec_expr_starts_with(*argument, expr, which, pretty),
            NodeKind::UnaryExpression { prefix, argument, .. } =>
                !prefix && spec_expr_starts_with(*argument, expr, which, pretty),
            NodeKind::MemberExpression { object, .. } =>
                spec_expr_starts_with(*object, expr, which, pretty),
            NodeKind::OptionalMemberExpression { object, .. } =>
                spec_expr_starts_with(*object, expr, which, pretty),
            NodeKind::TaggedTemplateExpression { tag, .. } =>
                spec_expr_starts_with(*tag, expr, which, pretty),
            _ => false,
        }
    }
}

/// Whether parentheses are needed around the `child` node, which is situated
/// at `pos` position in relation to its `parent`.
pub fn need_parens(parent: &Node, child: &Node, pos: ChildPos, pretty: bool) -> (r: NeedParens)
    ensures
        r == spec_need_parens(*parent, *child, pos, pretty),
    decreases *child, 4nat,
{
    if matches!(parent.kind, NodeKind::ArrowFunctionExpression { .. }) {
        if pos == ChildPos::Right && matches!(child.kind, NodeKind::ObjectExpression { .. }) {
            NeedParens::Yes
        } else {
            prec_parens(parent, child, pos, pretty)
        }
    } else if matches!(parent.kind, NodeKind::ForStatement { .. }) {
        if matches!(
            child.kind,
            NodeKind::BinaryExpression { operator: BinaryExpressionOperator::In, .. },
        ) {
            NeedParens::Yes
        } else {
            NeedParens::No
        }
    } else if matches!(parent.kind, NodeKind::ExpressionStatement { .. }) {
        if root_starts_with(child, StartsKind::DeclLike, pretty) {
            NeedParens::Yes
        } else {
            NeedParens::No
        }
    } else if sign_merge(parent, child, pos, pretty) {
        if pretty {
            NeedParens::Yes
        } else {
            NeedParens::Space
        }
    } else if (matches!(parent.kind, NodeKind::MemberExpression { .. })
            || matches!(parent.kind, NodeKind::CallExpression { .. }))
        && (matches!(child.kind, NodeKind::OptionalMemberExpression { .. })
            || matches!(child.kind, NodeKind::OptionalCallExpression { .. }))
        && pos == ChildPos::Left {
        NeedParens::Yes
    } else if (parent.kind.check_and_or() && child.kind.check_nullish())
        || (parent.kind.check_nullish() && child.kind.check_and_or()) {
        NeedParens::Yes
    } else {
        prec_parens(parent, child, pos, pretty)
    }
}

fn prec_parens(parent: &Node, child: &Node, pos: ChildPos, pretty: bool) -> (r: NeedParens)
    ensures
        r == spec_prec_parens(*parent, *child, pos, pretty),
{
    let (child_prec, _child_assoc) = get_precedence(&child.kind, pretty);
    if child_prec == ALWAYS_PAREN {
        return NeedParens::Yes;
    }
    let (parent_prec, parent_assoc) = get_precedence(&parent.kind, pretty);
    if child_prec < parent_prec {
        NeedParens::Yes
    } else if child_prec > parent_prec {
        NeedParens::No
    } else if pos == ChildPos::Anywhere {
        NeedParens::Yes
    } else if child_prec == TOP {
        NeedParens::No
    } else {
        let danger = if parent_assoc == Assoc::Rtl {
            pos == ChildPos::Left
        } else {
            pos == ChildPos::Right
        };
        if danger {
            NeedParens::Yes
        } else {
            NeedParens::No
        }
    }
}

fn sign_merge(parent: &Node, child: &Node, pos: ChildPos, pretty: bool) -> (r: bool)
    ensures
        r == spec_sign_merge(*parent, *child, pos, pretty),
    decreases *child, 3nat,
{
    (matches!(
        parent.kind,
        NodeKind::UnaryExpression { operator: UnaryExpressionOperator::Minus, .. },
    ) && root_starts_with(child, StartsKind::MinusLike, pretty))
    || (matches!(
        parent.kind,
        NodeKind::UnaryExpression { operator: UnaryExpressionOperator::Plus, .. },
    ) && root_starts_with(child, StartsKind::PlusLike, pretty))
    || (pos == ChildPos::Right
        && matches!(
            parent.kind,
            NodeKind::BinaryExpression { operator: BinaryExpressionOperator::Minus, .. },
        )
        && root_starts_with(child, StartsKind::MinusLike, pretty))
    || (pos == ChildPos::Right
        && matches!(
            parent.kind,
            NodeKind::BinaryExpression { operator: BinaryExpressionOperator::Plus, .. },
        )
        && root_starts_with(child, StartsKind::PlusLike, pretty))
}

/// Whether the leftmost descendant of `expr` satisfies the predicate.
pub fn root_starts_with(expr: &Node, which: StartsKind, pretty: bool) -> (r: bool)
    ensures
        r == spec_root_starts_with(*expr, which, pretty),
    decreases *expr, 2nat,
{
    starts_step(expr, which, pretty)
}

fn expr_starts_with(expr: &Node, parent: &Node, which: StartsKind, pretty: bool) -> (r: bool)
    ensures
        r == spec_expr_starts_with(*expr, *parent, which, pretty),
    decreases *expr, 5nat,
{
    if need_parens(parent, expr, ChildPos::Left, pretty) == NeedParens::Yes {
        false
    } else {
        starts_step(expr, which, pretty)
    }
}

fn starts_step(expr: &Node, which: StartsKind, pretty: bool) -> (r: bool)
    ensures
        r == spec_starts_step(*expr, which, pretty),
    decreases *expr, 1nat,
{
    if starts_pred(&expr.kind, which) {
        return true;
    }
    match &expr.kind {
        NodeKind::CallExpression { callee, .. } => expr_starts_with(callee, expr, which, pretty),
        NodeKind::OptionalCallExpression { callee, .. } =>
            expr_starts_with(callee, expr, which, pretty),
        NodeKind::BinaryExpression { left, .. } => expr_starts_with(left, expr, which, pretty),
        NodeKind::LogicalExpression { left, .. } => expr_starts_with(left, expr, which, pretty),
        NodeKind::ConditionalExpression { test, .. } => expr_starts_with(test, expr, which, pretty),
        NodeKind::AssignmentExpression { left, .. } => expr_starts_with(left, expr, which, pretty),
        NodeKind::UpdateExpression { prefix, argument, .. } =>
            !*prefix && expr_starts_with(argument, expr, which, pretty),
        NodeKind::UnaryExpression { prefix, argument, .. } =>
            !*prefix && expr_starts_with(argument, expr, which, pretty),
        NodeKind::MemberExpression { object, .. } => expr_starts_with(object, expr, which, pretty),
        NodeKind::OptionalMemberExpression { object, .. } =>
            expr_starts_with(object, expr, which, pretty),
        NodeKind::TaggedTemplateExpression { tag, .. } =>
            expr_starts_with(tag, expr, which, pretty),
        _ => false,
    }
}

} // verus!
