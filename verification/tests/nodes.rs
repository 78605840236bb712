use juno_gen::ast::{Node, NodeKind, SourceLoc, SourceRange};

fn range() -> SourceRange {
    SourceRange {
        start: SourceLoc { line: 1, col: 1 },
        end: SourceLoc { line: 1, col: 1 },
    }
}

#[test]
fn test_many_nodes() {
    // The owning arena is an external collaborator; the read model itself
    // must stay intact however many nodes are built and dropped around it.
    let mut cached = None;
    let mut val = String::new();
    for _ in 0..10 {
        for i in 0..10_000 {
            cached = Some(Node {
                kind: NodeKind::NumericLiteral { text: format!("{}", i) },
                range: range(),
            });
            val = format!("{}", i);
        }
    }
    match cached.unwrap().kind {
        NodeKind::NumericLiteral { text } => {
            assert!(text == val, "Incorrect cached value: {:#?}", text);
        }
        _ => {
            panic!("Incorrect cached value");
        }
    };
}
