use gemini::ast::{clone_fn_def, Expr, FnDef, Stmt};
use gemini::driver::{expand, MacroError};
use gemini::rewrite::{rewrite_body, rewrite_expr, rewrite_stmt};

const DIAGNOSTIC: &str =
    "The gemini macro requires that you put the attribute on an async function";

fn call_expr(tag: u64) -> Expr {
    Expr::Opaque { tag, children: vec![Expr::Atom { tag: 0 }] }
}

fn suspending_fn(body: Vec<Stmt>) -> FnDef {
    FnDef { suspending: true, sig: 1, body }
}

#[test]
fn straight_line_suspensions_removed() {
    // Three straight-line statements: a suspended call, a doubly suspended
    // call, and a plain leaf.  The blocking body is the same body with the
    // suspension wrappers gone and nothing else changed.
    let body = vec![
        Stmt::ExprStmt { expr: Expr::Suspend(Box::new(call_expr(10))), semi: true },
        Stmt::ExprStmt {
            expr: Expr::Suspend(Box::new(Expr::Suspend(Box::new(call_expr(11))))),
            semi: true,
        },
        Stmt::ExprStmt { expr: Expr::Atom { tag: 12 }, semi: false },
    ];
    let f = suspending_fn(body);
    let em = expand(&f).unwrap();
    let expected = vec![
        Stmt::ExprStmt { expr: call_expr(10), semi: true },
        Stmt::ExprStmt { expr: call_expr(11), semi: true },
        Stmt::ExprStmt { expr: Expr::Atom { tag: 12 }, semi: false },
    ];
    assert_eq!(em.blocking_variant.body, expected);
    assert!(!em.blocking_variant.suspending);
    assert_eq!(em.blocking_variant.sig, f.sig);
    assert_eq!(em.suspending_variant, f);
}

#[test]
fn suspension_block_becomes_plain_block() {
    // A suspension block keeps its attributes and statements but turns
    // into a plain block; its label is dropped, and suspension points
    // inside it are rewritten too.
    let inner = vec![Stmt::ExprStmt { expr: Expr::Suspend(Box::new(call_expr(20))), semi: true }];
    let block = Expr::SuspendBlock { attrs: vec![9, 8], label: Some(5), body: inner };
    let f = suspending_fn(vec![Stmt::ExprStmt { expr: block, semi: false }]);
    let em = expand(&f).unwrap();
    let expected = vec![Stmt::ExprStmt {
        expr: Expr::Block {
            attrs: vec![9, 8],
            body: vec![Stmt::ExprStmt { expr: call_expr(20), semi: true }],
        },
        semi: false,
    }];
    assert_eq!(em.blocking_variant.body, expected);
}

#[test]
fn transform_twice_is_idempotent() {
    // Feed the blocking variant back in with the suspending marker
    // artificially set: the second pass finds nothing to remove.
    let body = vec![
        Stmt::ExprStmt {
            expr: Expr::Suspend(Box::new(Expr::SuspendBlock {
                attrs: vec![],
                label: None,
                body: vec![Stmt::ExprStmt { expr: Expr::Suspend(Box::new(call_expr(30))), semi: false }],
            })),
            semi: false,
        },
        Stmt::Other { tag: 2, children: vec![Expr::Suspend(Box::new(Expr::Atom { tag: 31 }))] },
    ];
    let first = expand(&suspending_fn(body)).unwrap();
    let mut again = clone_fn_def(&first.blocking_variant);
    again.suspending = true;
    let second = expand(&again).unwrap();
    assert_eq!(second.blocking_variant.body, first.blocking_variant.body);
    assert_eq!(second.blocking_variant.sig, first.blocking_variant.sig);
}

#[test]
fn non_suspending_function_is_rejected() {
    // Whatever the body holds, a function without the suspending marker is
    // a misuse: the transform fails with the documented diagnostic.
    let bodies = vec![
        vec![],
        vec![Stmt::ExprStmt { expr: Expr::Atom { tag: 1 }, semi: true }],
        vec![Stmt::ExprStmt { expr: Expr::Suspend(Box::new(call_expr(2))), semi: true }],
    ];
    for body in bodies {
        let f = FnDef { suspending: false, sig: 3, body };
        let err = expand(&f).unwrap_err();
        assert_eq!(err, MacroError::NotSuspending);
        assert_eq!(err.message().as_str(), DIAGNOSTIC);
    }
}

#[test]
fn suspended_block_with_suspended_call() {
    // The function returns the suspended result of `fetch()` inside a
    // suspension block that is itself suspension-awaited: the blocking
    // variant runs the plain block with the bare call.
    let fetch = call_expr(40);
    let body = vec![Stmt::ExprStmt {
        expr: Expr::Suspend(Box::new(Expr::SuspendBlock {
            attrs: vec![],
            label: None,
            body: vec![Stmt::ExprStmt { expr: Expr::Suspend(Box::new(fetch)), semi: false }],
        })),
        semi: false,
    }];
    let em = expand(&suspending_fn(body)).unwrap();
    let expected = vec![Stmt::ExprStmt {
        expr: Expr::Block {
            attrs: vec![],
            body: vec![Stmt::ExprStmt { expr: call_expr(40), semi: false }],
        },
        semi: false,
    }];
    assert_eq!(em.blocking_variant.body, expected);
}

#[test]
fn non_suspending_arithmetic_body_unchanged() {
    // A single arithmetic expression-statement holds no suspension point:
    // the blocking body is structurally identical to the input body.
    let sum = Expr::Opaque { tag: 50, children: vec![Expr::Atom { tag: 1 }, Expr::Atom { tag: 2 }] };
    let body = vec![Stmt::ExprStmt { expr: sum, semi: true }];
    let f = suspending_fn(body);
    let em = expand(&f).unwrap();
    assert_eq!(em.blocking_variant.body, f.body);
    assert_eq!(em.suspending_variant.body, f.body);
}

#[test]
fn empty_body_stays_empty() {
    let em = expand(&suspending_fn(vec![])).unwrap();
    assert_eq!(em.blocking_variant.body, vec![]);
    assert!(!em.blocking_variant.suspending);
}

#[test]
fn expressions_inside_other_statements_are_rewritten() {
    // A non-expression statement (a binding) is not replaced itself, but
    // the suspension points nested in it are still removed.
    let binding = Stmt::Other {
        tag: 7,
        children: vec![Expr::Suspend(Box::new(Expr::SuspendBlock {
            attrs: vec![3],
            label: None,
            body: vec![],
        }))],
    };
    let em = expand(&suspending_fn(vec![binding])).unwrap();
    let expected = vec![Stmt::Other {
        tag: 7,
        children: vec![Expr::Block { attrs: vec![3], body: vec![] }],
    }];
    assert_eq!(em.blocking_variant.body, expected);
}

#[test]
fn rewrite_expr_descends_into_children() {
    // Suspension points below an opaque container (call arguments,
    // operands) are eliminated as well.
    let e = Expr::Opaque {
        tag: 60,
        children: vec![
            Expr::Suspend(Box::new(Expr::Atom { tag: 61 })),
            Expr::Opaque { tag: 62, children: vec![Expr::Suspend(Box::new(call_expr(63)))] },
        ],
    };
    let r = rewrite_expr(e);
    let expected = Expr::Opaque {
        tag: 60,
        children: vec![
            Expr::Atom { tag: 61 },
            Expr::Opaque { tag: 62, children: vec![call_expr(63)] },
        ],
    };
    assert_eq!(r, expected);
}

#[test]
fn plain_block_contents_are_rewritten() {
    // A plain (non-suspending) block is kept as a block; suspension points
    // inside it are still removed.
    let e = Expr::Block {
        attrs: vec![4],
        body: vec![Stmt::ExprStmt { expr: Expr::Suspend(Box::new(call_expr(65))), semi: true }],
    };
    let r = rewrite_expr(e);
    let expected = Expr::Block {
        attrs: vec![4],
        body: vec![Stmt::ExprStmt { expr: call_expr(65), semi: true }],
    };
    assert_eq!(r, expected);
}

#[test]
fn rewrite_stmt_keeps_terminator() {
    let s = Stmt::ExprStmt { expr: Expr::Suspend(Box::new(Expr::Atom { tag: 70 })), semi: true };
    assert_eq!(rewrite_stmt(s), Stmt::ExprStmt { expr: Expr::Atom { tag: 70 }, semi: true });
    let s2 = Stmt::ExprStmt { expr: Expr::Suspend(Box::new(Expr::Atom { tag: 70 })), semi: false };
    assert_eq!(rewrite_stmt(s2), Stmt::ExprStmt { expr: Expr::Atom { tag: 70 }, semi: false });
}

#[test]
fn rewrite_body_keeps_statement_order() {
    let body = vec![
        Stmt::ExprStmt { expr: Expr::Atom { tag: 80 }, semi: true },
        Stmt::ExprStmt { expr: Expr::Suspend(Box::new(Expr::Atom { tag: 81 })), semi: true },
        Stmt::Other { tag: 82, children: vec![] },
    ];
    let r = rewrite_body(body);
    let expected = vec![
        Stmt::ExprStmt { expr: Expr::Atom { tag: 80 }, semi: true },
        Stmt::ExprStmt { expr: Expr::Atom { tag: 81 }, semi: true },
        Stmt::Other { tag: 82, children: vec![] },
    ];
    assert_eq!(r, expected);
}

#[test]
fn clone_fn_def_is_an_exact_copy() {
    let f = suspending_fn(vec![Stmt::ExprStmt {
        expr: Expr::SuspendBlock {
            attrs: vec![1],
            label: Some(2),
            body: vec![Stmt::ExprStmt { expr: Expr::Suspend(Box::new(call_expr(90))), semi: true }],
        },
        semi: false,
    }]);
    let c = clone_fn_def(&f);
    assert_eq!(c, f);
}

#[test]
fn original_is_emitted_untouched() {
    // The driver works on a copy: the suspending variant it emits is the
    // input definition, marker and all, unchanged.
    let f = suspending_fn(vec![Stmt::ExprStmt {
        expr: Expr::Suspend(Box::new(call_expr(95))),
        semi: true,
    }]);
    let em = expand(&f).unwrap();
    assert_eq!(em.suspending_variant, f);
    assert!(em.suspending_variant.suspending);
}
