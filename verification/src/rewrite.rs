//! The rewriter: eliminates every suspension expression and suspension
//! block from a body, recursively, preserving all other structure —
//! evaluation order, statement order, attributes, and the arity and
//! branching of every other expression form.

use vstd::prelude::*;

use crate::ast::{Expr, ExprModel, Stmt, StmtModel};
use crate::ast::{
    lemma_view_exprs_index, lemma_view_exprs_len, lemma_view_stmts_index, lemma_view_stmts_len,
    view_expr, view_exprs, view_stmt, view_stmts,
};

verus! {

/// What the rewriter computes on an expression: a suspension expression is
/// replaced by its (recursively rewritten) base; a suspension block becomes
/// a plain block with the same attributes, a rewritten body, and no label;
/// every other form keeps its structure with its children rewritten.
pub open spec fn strip_expr(e: ExprModel) -> ExprModel
    decreases e,
{
    match e {
        ExprModel::Suspend(base) => strip_expr(*base),
        ExprModel::SuspendBlock { attrs, label, body } => ExprModel::Block {
            attrs,
            body: strip_body(body),
        },
        ExprModel::Block { attrs, body } => ExprModel::Block { attrs, body: strip_body(body) },
        ExprModel::Opaque { tag, children } => ExprModel::Opaque {
            tag,
            children: strip_exprs(children),
        },
        ExprModel::Atom { tag } => ExprModel::Atom { tag },
    }
}

/// What the rewriter computes on a statement: the expression of an
/// expression-statement is rewritten; any other statement keeps its kind,
/// with the expressions nested inside it rewritten.
pub open spec fn strip_stmt(s: StmtModel) -> StmtModel
    decreases s,
{
    match s {
        StmtModel::ExprStmt { expr, semi } => StmtModel::ExprStmt { expr: strip_expr(expr), semi },
        StmtModel::Other { tag, children } => StmtModel::Other {
            tag,
            children: strip_exprs(children),
        },
    }
}

/// What the rewriter computes on a body: each statement rewritten in place,
/// none added, none removed, none reordered.
pub open spec fn strip_body(b: Seq<StmtModel>) -> Seq<StmtModel>
    decreases b,
{
    if b.len() == 0 {
        Seq::<StmtModel>::empty()
    } else {
        seq![strip_stmt(b[0])] + strip_body(b.subrange(1, b.len() as int))
    }
}

/// What the rewriter computes on the children of a compound expression:
/// each child rewritten in place.
pub open spec fn strip_exprs(es: Seq<ExprModel>) -> Seq<ExprModel>
    decreases es,
{
    if es.len() == 0 {
        Seq::<ExprModel>::empty()
    } else {
        seq![strip_expr(es[0])] + strip_exprs(es.subrange(1, es.len() as int))
    }
}

/// A body is rewritten statement by statement.
pub broadcast proof fn lemma_strip_body_len(b: Seq<StmtModel>)
    ensures
        (#[trigger] strip_body(b)).len() == b.len(),
    decreases b,
{
    if b.len() != 0 {
        lemma_strip_body_len(b.subrange(1, b.len() as int));
    }
}

/// The rewrite of the `i`-th statement is the `i`-th rewritten statement.
pub broadcast proof fn lemma_strip_body_index(b: Seq<StmtModel>, i: int)
    requires
        0 <= i < b.len(),
    ensures
        #[trigger] strip_body(b)[i] == strip_stmt(b[i]),
    decreases b,
{
    lemma_strip_body_len(b.subrange(1, b.len() as int));
    if i > 0 {
        lemma_strip_body_index(b.subrange(1, b.len() as int), i - 1);
    }
}

/// Children are rewritten child by child.
pub broadcast proof fn lemma_strip_exprs_len(es: Seq<ExprModel>)
    ensures
        (#[trigger] strip_exprs(es)).len() == es.len(),
    decreases es,
{
    if es.len() != 0 {
        lemma_strip_exprs_len(es.subrange(1, es.len() as int));
    }
}

/// The rewrite of the `i`-th child is the `i`-th rewritten child.
pub broadcast proof fn lemma_strip_exprs_index(es: Seq<ExprModel>, i: int)
    requires
        0 <= i < es.len(),
    ensures
        #[trigger] strip_exprs(es)[i] == strip_expr(es[i]),
    decreases es,
{
    lemma_strip_exprs_len(es.subrange(1, es.len() as int));
    if i > 0 {
        lemma_strip_exprs_index(es.subrange(1, es.len() as int), i - 1);
    }
}

/// Whether a suspension expression or suspension block occurs anywhere in
/// an expression.
pub open spec fn expr_has_suspension(e: ExprModel) -> bool
    decreases e,
{
    match e {
        ExprModel::Suspend(base) => true,
        ExprModel::SuspendBlock { attrs, label, body } => true,
        ExprModel::Block { attrs, body } => body_has_suspension(body),
        ExprModel::Opaque { tag, children } => exprs_have_suspension(children),
        ExprModel::Atom { tag } => false,
    }
}

/// Whether a suspension expression or suspension block occurs anywhere in
/// a statement.
pub open spec fn stmt_has_suspension(s: StmtModel) -> bool
    decreases s,
{
    match s {
        StmtModel::ExprStmt { expr, semi } => expr_has_suspension(expr),
        StmtModel::Other { tag, children } => exprs_have_suspension(children),
    }
}

/// Whether a suspension expression or suspension block occurs anywhere in
/// a body.
pub open spec fn body_has_suspension(b: Seq<StmtModel>) -> bool
    decreases b,
{
    if b.len() == 0 {
        false
    } else {
        stmt_has_suspension(b[0]) || body_has_suspension(b.subrange(1, b.len() as int))
    }
}

/// Whether a suspension expression or suspension block occurs anywhere in
/// a sequence of child expressions.
pub open spec fn exprs_have_suspension(es: Seq<ExprModel>) -> bool
    decreases es,
{
    if es.len() == 0 {
        false
    } else {
        expr_has_suspension(es[0]) || exprs_have_suspension(es.subrange(1, es.len() as int))
    }
}

/// Law: the rewriter's output never contains a suspension expression or a
/// suspension block, anywhere in the expression.
pub proof fn lemma_strip_expr_no_suspension(e: ExprModel)
    ensures
        !expr_has_suspension(strip_expr(e)),
    decreases e,
{
    match e {
        ExprModel::Suspend(base) => lemma_strip_expr_no_suspension(*base),
        ExprModel::SuspendBlock { attrs, label, body } => lemma_strip_body_no_suspension(body),
        ExprModel::Block { attrs, body } => lemma_strip_body_no_suspension(body),
        ExprModel::Opaque { tag, children } => lemma_strip_exprs_no_suspension(children),
        ExprModel::Atom { tag } => {},
    }
}

/// Law: the rewriter's output never contains a suspension expression or a
/// suspension block, anywhere in the statement.
pub proof fn lemma_strip_stmt_no_suspension(s: StmtModel)
    ensures
        !stmt_has_suspension(strip_stmt(s)),
    decreases s,
{
    match s {
        StmtModel::ExprStmt { expr, semi } => lemma_strip_expr_no_suspension(expr),
        StmtModel::Other { tag, children } => lemma_strip_exprs_no_suspension(children),
    }
}

/// Law: the rewriter's output never contains a suspension expression or a
/// suspension block, anywhere in the body.
pub proof fn lemma_strip_body_no_suspension(b: Seq<StmtModel>)
    ensures
        !body_has_suspension(strip_body(b)),
    decreases b,
{
    if b.len() != 0 {
        let tail = b.subrange(1, b.len() as int);
        lemma_strip_stmt_no_suspension(b[0]);
        lemma_strip_body_no_suspension(tail);
        let sb = strip_body(b);
        assert(sb.subrange(1, sb.len() as int) =~= strip_body(tail));
    }
}

/// Law: the rewriter's output never contains a suspension expression or a
/// suspension block, anywhere below a compound expression.
pub proof fn lemma_strip_exprs_no_suspension(es: Seq<ExprModel>)
    ensures
        !exprs_have_suspension(strip_exprs(es)),
    decreases es,
{
    if es.len() != 0 {
        let tail = es.subrange(1, es.len() as int);
        lemma_strip_expr_no_suspension(es[0]);
        lemma_strip_exprs_no_suspension(tail);
        let se = strip_exprs(es);
        assert(se.subrange(1, se.len() as int) =~= strip_exprs(tail));
    }
}

/// Law: on an expression that contains no suspension point the rewriter
/// changes nothing.
pub proof fn lemma_strip_expr_identity(e: ExprModel)
    requires
        !expr_has_suspension(e),
    ensures
        strip_expr(e) == e,
    decreases e,
{
    match e {
        ExprModel::Suspend(base) => {},
        ExprModel::SuspendBlock { attrs, label, body } => {},
        ExprModel::Block { attrs, body } => lemma_strip_body_identity(body),
        ExprModel::Opaque { tag, children } => lemma_strip_exprs_identity(children),
        ExprModel::Atom { tag } => {},
    }
}

/// Law: on a statement that contains no suspension point the rewriter
/// changes nothing.
pub proof fn lemma_strip_stmt_identity(s: StmtModel)
    requires
        !stmt_has_suspension(s),
    ensures
        strip_stmt(s) == s,
    decreases s,
{
    match s {
        StmtModel::ExprStmt { expr, semi } => lemma_strip_expr_identity(expr),
        StmtModel::Other { tag, children } => lemma_strip_exprs_identity(children),
    }
}

/// Law: on a body that contains no suspension point the rewriter changes
/// nothing.
pub proof fn lemma_strip_body_identity(b: Seq<StmtModel>)
    requires
        !body_has_suspension(b),
    ensures
        strip_body(b) == b,
    decreases b,
{
    if b.len() != 0 {
        lemma_strip_stmt_identity(b[0]);
        lemma_strip_body_identity(b.subrange(1, b.len() as int));
    }
    assert(strip_body(b) =~= b);
}

/// Law: on children that contain no suspension point the rewriter changes
/// nothing.
pub proof fn lemma_strip_exprs_identity(es: Seq<ExprModel>)
    requires
        !exprs_have_suspension(es),
    ensures
        strip_exprs(es) == es,
    decreases es,
{
    if es.len() != 0 {
        lemma_strip_expr_identity(es[0]);
        lemma_strip_exprs_identity(es.subrange(1, es.len() as int));
    }
    assert(strip_exprs(es) =~= es);
}

/// Law: one pass of the rewriter removes every suspension point, so a
/// second pass over the same expression is a no-op.
pub proof fn lemma_strip_expr_idempotent(e: ExprModel)
    ensures
        strip_expr(strip_expr(e)) == strip_expr(e),
{
    lemma_strip_expr_no_suspension(e);
    lemma_strip_expr_identity(strip_expr(e));
}

/// Law: one pass of the rewriter removes every suspension point, so a
/// second pass over the same body is a no-op.
pub proof fn lemma_strip_body_idempotent(b: Seq<StmtModel>)
    ensures
        strip_body(strip_body(b)) == strip_body(b),
{
    lemma_strip_body_no_suspension(b);
    lemma_strip_body_identity(strip_body(b));
}

/// Law: a suspension block is replaced by a plain block containing the
/// same statements, recursively rewritten, with the block's attributes
/// preserved and its label dropped.
pub proof fn lemma_suspension_block_becomes_plain_block(
    attrs: Seq<u64>,
    label: Option<u64>,
    body: Seq<StmtModel>,
)
    ensures
        strip_expr(ExprModel::SuspendBlock { attrs, label, body }) == (ExprModel::Block {
            attrs,
            body: strip_body(body),
        }),
{
}

/// Removal of the suspension-expression annotations alone: each suspension
/// expression is unwrapped to its base, and nothing else changes.
pub open spec fn erase_expr(e: ExprModel) -> ExprModel
    decreases e,
{
    match e {
        ExprModel::Suspend(base) => erase_expr(*base),
        ExprModel::SuspendBlock { attrs, label, body } => ExprModel::SuspendBlock {
            attrs,
            label,
            body: erase_body(body),
        },
        ExprModel::Block { attrs, body } => ExprModel::Block { attrs, body: erase_body(body) },
        ExprModel::Opaque { tag, children } => ExprModel::Opaque {
            tag,
            children: erase_exprs(children),
        },
        ExprModel::Atom { tag } => ExprModel::Atom { tag },
    }
}

/// Removal of the suspension-expression annotations alone, in a statement.
pub open spec fn erase_stmt(s: StmtModel) -> StmtModel
    decreases s,
{
    match s {
        StmtModel::ExprStmt { expr, semi } => StmtModel::ExprStmt { expr: erase_expr(expr), semi },
        StmtModel::Other { tag, children } => StmtModel::Other {
            tag,
            children: erase_exprs(children),
        },
    }
}

/// Removal of the suspension-expression annotations alone, in a body.
pub open spec fn erase_body(b: Seq<StmtModel>) -> Seq<StmtModel>
    decreases b,
{
    if b.len() == 0 {
        Seq::<StmtModel>::empty()
    } else {
        seq![erase_stmt(b[0])] + erase_body(b.subrange(1, b.len() as int))
    }
}

/// Removal of the suspension-expression annotations alone, in children.
pub open spec fn erase_exprs(es: Seq<ExprModel>) -> Seq<ExprModel>
    decreases es,
{
    if es.len() == 0 {
        Seq::<ExprModel>::empty()
    } else {
        seq![erase_expr(es[0])] + erase_exprs(es.subrange(1, es.len() as int))
    }
}

/// Whether an expression is free of suspension blocks (suspension
/// expressions may still occur anywhere in it).
pub open spec fn expr_block_free(e: ExprModel) -> bool
    decreases e,
{
    match e {
        ExprModel::Suspend(base) => expr_block_free(*base),
        ExprModel::SuspendBlock { attrs, label, body } => false,
        ExprModel::Block { attrs, body } => body_block_free(body),
        ExprModel::Opaque { tag, children } => exprs_block_free(children),
        ExprModel::Atom { tag } => true,
    }
}

/// Whether a statement is free of suspension blocks.
pub open spec fn stmt_block_free(s: StmtModel) -> bool
    decreases s,
{
    match s {
        StmtModel::ExprStmt { expr, semi } => expr_block_free(expr),
        StmtModel::Other { tag, children } => exprs_block_free(children),
    }
}

/// Whether a body is free of suspension blocks: its statements are
/// straight-line, with at most suspension expressions in them.
pub open spec fn body_block_free(b: Seq<StmtModel>) -> bool
    decreases b,
{
    if b.len() == 0 {
        true
    } else {
        stmt_block_free(b[0]) && body_block_free(b.subrange(1, b.len() as int))
    }
}

/// Whether a sequence of child expressions is free of suspension blocks.
pub open spec fn exprs_block_free(es: Seq<ExprModel>) -> bool
    decreases es,
{
    if es.len() == 0 {
        true
    } else {
        expr_block_free(es[0]) && exprs_block_free(es.subrange(1, es.len() as int))
    }
}

/// Law: on an expression with no suspension block, the rewrite is exactly
/// the removal of the suspension annotations and no other change.
pub proof fn lemma_strip_is_erase_expr(e: ExprModel)
    requires
        expr_block_free(e),
    ensures
        strip_expr(e) == erase_expr(e),
    decreases e,
{
    match e {
        ExprModel::Suspend(base) => lemma_strip_is_erase_expr(*base),
        ExprModel::SuspendBlock { attrs, label, body } => {},
        ExprModel::Block { attrs, body } => lemma_strip_is_erase_body(body),
        ExprModel::Opaque { tag, children } => lemma_strip_is_erase_exprs(children),
        ExprModel::Atom { tag } => {},
    }
}

/// Law: on a statement with no suspension block, the rewrite is exactly
/// the removal of the suspension annotations and no other change.
pub proof fn lemma_strip_is_erase_stmt(s: StmtModel)
    requires
        stmt_block_free(s),
    ensures
        strip_stmt(s) == erase_stmt(s),
    decreases s,
{
    match s {
        StmtModel::ExprStmt { expr, semi } => lemma_strip_is_erase_expr(expr),
        StmtModel::Other { tag, children } => lemma_strip_is_erase_exprs(children),
    }
}

/// Law: on a body of straight-line statements with no suspension block,
/// the rewritten body is the original body with every suspension
/// annotation removed and no other change.
pub proof fn lemma_strip_is_erase_body(b: Seq<StmtModel>)
    requires
        body_block_free(b),
    ensures
        strip_body(b) == erase_body(b),
    decreases b,
{
    if b.len() != 0 {
        lemma_strip_is_erase_stmt(b[0]);
        lemma_strip_is_erase_body(b.subrange(1, b.len() as int));
    }
    assert(strip_body(b) =~= erase_body(b));
}

/// Law: on children with no suspension block, the rewrite is exactly the
/// removal of the suspension annotations and no other change.
pub proof fn lemma_strip_is_erase_exprs(es: Seq<ExprModel>)
    requires
        exprs_block_free(es),
    ensures
        strip_exprs(es) == erase_exprs(es),
    decreases es,
{
    if es.len() != 0 {
        lemma_strip_is_erase_expr(es[0]);
        lemma_strip_is_erase_exprs(es.subrange(1, es.len() as int));
    }
    assert(strip_exprs(es) =~= erase_exprs(es));
}

/// Rewrites one expression.  A suspension expression is replaced by its
/// recursively rewritten base; a suspension block becomes a plain block
/// (attributes kept, label dropped) around its rewritten body; every other
/// form keeps its structure with its children rewritten.
pub fn rewrite_expr(e: Expr) -> (r: Expr)
    ensures
        r@ == strip_expr(e@),
    decreases e,
{
    match e {
        Expr::Suspend(base) => rewrite_expr(*base),
        Expr::SuspendBlock { attrs, label, body } => {
            proof {
                assert(decreases_to!(e => body));
                assert(decreases_to!(body => body@));
            }
            Expr::Block { attrs, body: rewrite_body(body) }
        },
        Expr::Block { attrs, body } => {
            proof {
                assert(decreases_to!(e => body));
                assert(decreases_to!(body => body@));
            }
            Expr::Block { attrs, body: rewrite_body(body) }
        },
        Expr::Opaque { tag, children } => {
            proof {
                assert(decreases_to!(e => children));
                assert(decreases_to!(children => children@));
            }
            Expr::Opaque { tag, children: rewrite_exprs(children) }
        },
        Expr::Atom { tag } => Expr::Atom { tag },
    }
}

/// Rewrites one statement: the expression of an expression-statement is
/// rewritten, any other statement keeps its kind with the expressions
/// nested inside it rewritten.
pub fn rewrite_stmt(s: Stmt) -> (r: Stmt)
    ensures
        r@ == strip_stmt(s@),
    decreases s,
{
    match s {
        Stmt::ExprStmt { expr, semi } => Stmt::ExprStmt { expr: rewrite_expr(expr), semi },
        Stmt::Other { tag, children } => {
            proof {
                assert(decreases_to!(s => children));
                assert(decreases_to!(children => children@));
            }
            Stmt::Other { tag, children: rewrite_exprs(children) }
        },
    }
}

/// Rewrites a body statement by statement.
pub fn rewrite_body(body: Vec<Stmt>) -> (r: Vec<Stmt>)
    ensures
        view_stmts(r@) == strip_body(view_stmts(body@)),
    decreases body@,
{
    let mut rest = body;
    if rest.len() == 0 {
        assert(view_stmts(rest@) =~= strip_body(view_stmts(rest@)));
        rest
    } else {
        let first = rest.remove(0);
        let first_r = rewrite_stmt(first);
        let mut tail_r = rewrite_body(rest);
        tail_r.insert(0, first_r);
        proof {
            broadcast use lemma_strip_body_len, lemma_strip_body_index;
            broadcast use lemma_view_stmts_len, lemma_view_stmts_index;

            let whole = view_stmts(body@);
            assert(body@.remove(0) =~= body@.subrange(1, body@.len() as int));
            assert(tail_r@.subrange(1, tail_r@.len() as int) =~= tail_r@.remove(0));
            assert(view_stmts(tail_r@)[0] == view_stmt(first_r));
            assert(whole.subrange(1, whole.len() as int) =~= view_stmts(
                body@.subrange(1, body@.len() as int),
            ));
            assert(view_stmts(tail_r@) =~= strip_body(whole));
        }
        tail_r
    }
}

/// Rewrites a sequence of child expressions child by child.
pub fn rewrite_exprs(children: Vec<Expr>) -> (r: Vec<Expr>)
    ensures
        view_exprs(r@) == strip_exprs(view_exprs(children@)),
    decreases children@,
{
    let mut rest = children;
    if rest.len() == 0 {
        assert(view_exprs(rest@) =~= strip_exprs(view_exprs(rest@)));
        rest
    } else {
        let first = rest.remove(0);
        let first_r = rewrite_expr(first);
        let mut tail_r = rewrite_exprs(rest);
        tail_r.insert(0, first_r);
        proof {
            broadcast use lemma_strip_exprs_len, lemma_strip_exprs_index;
            broadcast use lemma_view_exprs_len, lemma_view_exprs_index;

            let whole = view_exprs(children@);
            assert(children@.remove(0) =~= children@.subrange(1, children@.len() as int));
            assert(tail_r@.subrange(1, tail_r@.len() as int) =~= tail_r@.remove(0));
            assert(view_exprs(tail_r@)[0] == view_expr(first_r));
            assert(whole.subrange(1, whole.len() as int) =~= view_exprs(
                children@.subrange(1, children@.len() as int),
            ));
            assert(view_exprs(tail_r@) =~= strip_exprs(whole));
        }
        tail_r
    }
}

} // verus!
