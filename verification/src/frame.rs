//! Block and statement framing: whether a statement's emission ends in a
//! closing brace, so that no `;` terminator needs to follow it in a
//! statement list.

use vstd::prelude::*;
use crate::ast::{Node, NodeKind};

verus! {

/// Whether a statement's emission ends in a closing brace: a block, a
/// function or class-like declaration, a switch, or a statement whose last
/// emitted part is one of those, followed recursively through loop bodies,
/// `with`, labels, `try`/`catch`, and `if` (the alternate if present, else
/// the consequent).
pub open spec fn spec_ends_with_block(n: Node) -> bool
    decreases n, 1nat,
{
    match n.kind {
        NodeKind::BlockStatement { .. } => true,
        NodeKind::FunctionDeclaration { .. } => true,
        NodeKind::SwitchStatement { .. } => true,
        NodeKind::WhileStatement { body, .. } => spec_ends_with_block(*body),
        NodeKind::ForStatement { body, .. } => spec_ends_with_block(*body),
        NodeKind::ForInStatement { body, .. } => spec_ends_with_block(*body),
        NodeKind::ForOfStatement { body, .. } => spec_ends_with_block(*body),
        NodeKind::WithStatement { body, .. } => spec_ends_with_block(*body),
        NodeKind::LabeledStatement { body, .. } => spec_ends_with_block(*body),
        NodeKind::TryStatement { handler, finalizer, .. } => {
            match finalizer {
                Some(f) => spec_ends_with_block(*f),
                None => match handler {
                    Some(h) => spec_ends_with_block(*h),
                    None => false,
                },
            }
        },
        NodeKind::CatchClause { body, .. } => spec_ends_with_block(*body),
        NodeKind::IfStatement { consequent, alternate, .. } => {
            match alternate {
                Some(a) => spec_ends_with_block(*a),
                None => spec_ends_with_block(*consequent),
            }
        },
        _ => false,
    }
}

/// Whether a statement ends in a closing brace.
#[verifier::rlimit(100)]
pub fn ends_with_block_node(n: &Node) -> (r: bool)
    ensures
        r == spec_ends_with_block(*n),
    decreases *n, 2nat,
{
    match &n.kind {
        NodeKind::BlockStatement { .. } => true,
        NodeKind::FunctionDeclaration { .. } => true,
        NodeKind::SwitchStatement { .. } => true,
        NodeKind::WhileStatement { body, .. } => {
            let r = ends_with_block_node(body);
            proof {
                assert(spec_ends_with_block(*n) == spec_ends_with_block(**body));
            }
            r
        },
        NodeKind::ForStatement { body, .. } => {
            let r = ends_with_block_node(body);
            proof {
                assert(spec_ends_with_block(*n) == spec_ends_with_block(**body));
            }
            r
        },
        NodeKind::ForInStatement { body, .. } => {
            let r = ends_with_block_node(body);
            proof {
                assert(spec_ends_with_block(*n) == spec_ends_with_block(**body));
            }
            r
        },
        NodeKind::ForOfStatement { body, .. } => {
            let r = ends_with_block_node(body);
            proof {
                assert(spec_ends_with_block(*n) == spec_ends_with_block(**body));
            }
            r
        },
        NodeKind::WithStatement { body, .. } => {
            let r = ends_with_block_node(body);
            proof {
                assert(spec_ends_with_block(*n) == spec_ends_with_block(**body));
            }
            r
        },
        NodeKind::LabeledStatement { body, .. } => {
            let r = ends_with_block_node(body);
            proof {
                assert(spec_ends_with_block(*n) == spec_ends_with_block(**body));
            }
            r
        },
        NodeKind::TryStatement { handler, finalizer, .. } => {
            match finalizer {
                Some(f) => ends_with_block_node(f),
                None => match handler {
                    Some(h) => ends_with_block_node(h),
                    None => false,
                },
            }
        },
        NodeKind::CatchClause { body, .. } => {
            let r = ends_with_block_node(body);
            proof {
                assert(spec_ends_with_block(*n) == spec_ends_with_block(**body));
            }
            r
        },
        NodeKind::IfStatement { consequent, alternate, .. } => {
            match alternate {
                Some(a) => {
                    let r = ends_with_block_node(a);
                    proof {
                        assert(spec_ends_with_block(*n) == spec_ends_with_block(**a));
                    }
                    r
                },
                None => {
                    let r = ends_with_block_node(consequent);
                    proof {
                        assert(spec_ends_with_block(*n) == spec_ends_with_block(**consequent));
                    }
                    r
                },
            }
        },
        _ => false,
    }
}

/// Whether a statement ends in a closing brace (`None` counts as no).
pub fn ends_with_block(node: Option<&Node>) -> (r: bool)
    ensures
        r == match node {
            Some(n) => spec_ends_with_block(*n),
            None => false,
        },
{
    match node {
        Some(n) => ends_with_block_node(n),
        None => false,
    }
}

} // verus!
