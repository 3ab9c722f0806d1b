//! The syntax-tree model.
//!
//! A function body is an ordered sequence of statements; a statement is
//! either an expression-statement or some other statement kind (a local
//! binding, an item) that may still contain expressions.  Two expression
//! forms carry the suspension semantics: a suspension expression ("evaluate
//! the base, which may suspend, then yield its result here") and a
//! suspension block ("this block runs under a cooperative-suspension
//! context").  Every other expression form is an opaque container,
//! identified by a tag, that may hold further expressions (operands,
//! arguments, branch bodies).  Attributes and labels are likewise carried
//! as opaque tags: the transform only moves them around, never reads them.

use vstd::prelude::*;

verus! {

/// Mathematical model of an expression, used in specifications.
pub enum ExprModel {
    /// A suspension expression wrapping its base expression.
    Suspend(Box<ExprModel>),
    /// A suspension block: attributes, an optional label, and a body.
    SuspendBlock { attrs: Seq<u64>, label: Option<u64>, body: Seq<StmtModel> },
    /// A plain block expression (carries no label in this model).
    Block { attrs: Seq<u64>, body: Seq<StmtModel> },
    /// Any other compound expression form: a tag plus its child expressions.
    Opaque { tag: u64, children: Seq<ExprModel> },
    /// A leaf expression (a literal, a path).
    Atom { tag: u64 },
}

/// Mathematical model of a statement.
pub enum StmtModel {
    /// An expression-statement, with or without a trailing terminator.
    ExprStmt { expr: ExprModel, semi: bool },
    /// A non-expression statement (a binding, an item): a tag plus the
    /// expressions nested inside it.
    Other { tag: u64, children: Seq<ExprModel> },
}

/// Mathematical model of a function definition: the suspending marker,
/// the rest of the signature (opaque to the transform), and the body.
pub struct FnDefModel {
    pub suspending: bool,
    pub sig: u64,
    pub body: Seq<StmtModel>,
}

/// An expression.
#[derive(Debug, PartialEq, Eq)]
pub enum Expr {
    Suspend(Box<Expr>),
    SuspendBlock { attrs: Vec<u64>, label: Option<u64>, body: Vec<Stmt> },
    Block { attrs: Vec<u64>, body: Vec<Stmt> },
    Opaque { tag: u64, children: Vec<Expr> },
    Atom { tag: u64 },
}

/// A statement.
#[derive(Debug, PartialEq, Eq)]
pub enum Stmt {
    ExprStmt { expr: Expr, semi: bool },
    Other { tag: u64, children: Vec<Expr> },
}

/// A function definition.
#[derive(Debug, PartialEq, Eq)]
pub struct FnDef {
    pub suspending: bool,
    pub sig: u64,
    pub body: Vec<Stmt>,
}

/// The mathematical model of an expression.
pub open spec fn view_expr(e: Expr) -> ExprModel
    decreases e,
{
    match e {
        Expr::Suspend(base) => ExprModel::Suspend(Box::new(view_expr(*base))),
        Expr::SuspendBlock { attrs, label, body } => {
            proof {
                assert(decreases_to!(e => body));
                assert(decreases_to!(body => body@));
            }
            ExprModel::SuspendBlock { attrs: attrs@, label, body: view_stmts(body@) }
        },
        Expr::Block { attrs, body } => {
            proof {
                assert(decreases_to!(e => body));
                assert(decreases_to!(body => body@));
            }
            ExprModel::Block { attrs: attrs@, body: view_stmts(body@) }
        },
        Expr::Opaque { tag, children } => {
            proof {
                assert(decreases_to!(e => children));
                assert(decreases_to!(children => children@));
            }
            ExprModel::Opaque { tag, children: view_exprs(children@) }
        },
        Expr::Atom { tag } => ExprModel::Atom { tag },
    }
}

/// The mathematical model of a statement.
pub open spec fn view_stmt(s: Stmt) -> StmtModel
    decreases s,
{
    match s {
        Stmt::ExprStmt { expr, semi } => StmtModel::ExprStmt { expr: view_expr(expr), semi },
        Stmt::Other { tag, children } => {
            proof {
                assert(decreases_to!(s => children));
                assert(decreases_to!(children => children@));
            }
            StmtModel::Other { tag, children: view_exprs(children@) }
        },
    }
}

/// The mathematical model of a sequence of statements.
pub open spec fn view_stmts(ss: Seq<Stmt>) -> Seq<StmtModel>
    decreases ss,
{
    if ss.len() == 0 {
        Seq::<StmtModel>::empty()
    } else {
        seq![view_stmt(ss[0])] + view_stmts(ss.subrange(1, ss.len() as int))
    }
}

/// The mathematical model of a sequence of expressions.
pub open spec fn view_exprs(es: Seq<Expr>) -> Seq<ExprModel>
    decreases es,
{
    if es.len() == 0 {
        Seq::<ExprModel>::empty()
    } else {
        seq![view_expr(es[0])] + view_exprs(es.subrange(1, es.len() as int))
    }
}

/// A sequence of statements is viewed statement by statement.
pub broadcast proof fn lemma_view_stmts_len(ss: Seq<Stmt>)
    ensures
        (#[trigger] view_stmts(ss)).len() == ss.len(),
    decreases ss,
{
    if ss.len() != 0 {
        lemma_view_stmts_len(ss.subrange(1, ss.len() as int));
    }
}

/// The view of the `i`-th statement is the `i`-th viewed statement.
pub broadcast proof fn lemma_view_stmts_index(ss: Seq<Stmt>, i: int)
    requires
        0 <= i < ss.len(),
    ensures
        #[trigger] view_stmts(ss)[i] == view_stmt(ss[i]),
    decreases ss,
{
    lemma_view_stmts_len(ss.subrange(1, ss.len() as int));
    if i > 0 {
        lemma_view_stmts_index(ss.subrange(1, ss.len() as int), i - 1);
    }
}

/// A sequence of expressions is viewed expression by expression.
pub broadcast proof fn lemma_view_exprs_len(es: Seq<Expr>)
    ensures
        (#[trigger] view_exprs(es)).len() == es.len(),
    decreases es,
{
    if es.len() != 0 {
        lemma_view_exprs_len(es.subrange(1, es.len() as int));
    }
}

/// The view of the `i`-th expression is the `i`-th viewed expression.
pub broadcast proof fn lemma_view_exprs_index(es: Seq<Expr>, i: int)
    requires
        0 <= i < es.len(),
    ensures
        #[trigger] view_exprs(es)[i] == view_expr(es[i]),
    decreases es,
{
    lemma_view_exprs_len(es.subrange(1, es.len() as int));
    if i > 0 {
        lemma_view_exprs_index(es.subrange(1, es.len() as int), i - 1);
    }
}

/// An exact copy of a sequence of attribute or label tags.
fn clone_tags(v: &Vec<u64>) -> (r: Vec<u64>)
    ensures
        r@ == v@,
{
    let mut out: Vec<u64> = Vec::new();
    let mut i: usize = 0;
    while i < v.len()
        invariant
            i <= v.len(),
            out@ == v@.subrange(0, i as int),
        decreases v.len() - i,
    {
        out.push(v[i]);
        proof {
            assert(out@ =~= v@.subrange(0, i + 1));
        }
        i = i + 1;
    }
    proof {
        assert(out@ =~= v@);
    }
    out
}

/// An exact structural copy of an expression.
pub fn clone_expr(e: &Expr) -> (r: Expr)
    ensures
        r@ == e@,
    decreases e,
{
    match e {
        Expr::Suspend(base) => Expr::Suspend(Box::new(clone_expr(base))),
        Expr::SuspendBlock { attrs, label, body } => {
            proof {
                assert(decreases_to!(e => *body));
                assert(decreases_to!(*body => body@));
            }
            Expr::SuspendBlock { attrs: clone_tags(attrs), label: *label, body: clone_stmts(body) }
        },
        Expr::Block { attrs, body } => {
            proof {
                assert(decreases_to!(e => *body));
                assert(decreases_to!(*body => body@));
            }
            Expr::Block { attrs: clone_tags(attrs), body: clone_stmts(body) }
        },
        Expr::Opaque { tag, children } => {
            proof {
                assert(decreases_to!(e => *children));
                assert(decreases_to!(*children => children@));
            }
            Expr::Opaque { tag: *tag, children: clone_exprs(children) }
        },
        Expr::Atom { tag } => Expr::Atom { tag: *tag },
    }
}

/// An exact structural copy of a statement.
pub fn clone_stmt(s: &Stmt) -> (r: Stmt)
    ensures
        r@ == s@,
    decreases s,
{
    match s {
        Stmt::ExprStmt { expr, semi } => Stmt::ExprStmt { expr: clone_expr(expr), semi: *semi },
        Stmt::Other { tag, children } => {
            proof {
                assert(decreases_to!(s => *children));
                assert(decreases_to!(*children => children@));
            }
            Stmt::Other { tag: *tag, children: clone_exprs(children) }
        },
    }
}

/// An exact structural copy of a sequence of statements.
pub fn clone_stmts(ss: &Vec<Stmt>) -> (r: Vec<Stmt>)
    ensures
        view_stmts(r@) == view_stmts(ss@),
    decreases ss@,
{
    let mut out: Vec<Stmt> = Vec::new();
    let mut i: usize = 0;
    while i < ss.len()
        invariant
            i <= ss.len(),
            out@.len() == i,
            forall|j: int| 0 <= j < i ==> view_stmt(#[trigger] out@[j]) == view_stmt(ss@[j]),
        decreases ss@.len() - i,
    {
        proof {
            assert(decreases_to!(ss@ => ss@[i as int]));
        }
        out.push(clone_stmt(&ss[i]));
        i = i + 1;
    }
    proof {
        broadcast use lemma_view_stmts_len, lemma_view_stmts_index;

        assert(view_stmts(out@) =~= view_stmts(ss@));
    }
    out
}

/// An exact structural copy of a sequence of expressions.
pub fn clone_exprs(es: &Vec<Expr>) -> (r: Vec<Expr>)
    ensures
        view_exprs(r@) == view_exprs(es@),
    decreases es@,
{
    let mut out: Vec<Expr> = Vec::new();
    let mut i: usize = 0;
    while i < es.len()
        invariant
            i <= es.len(),
            out@.len() == i,
            forall|j: int| 0 <= j < i ==> view_expr(#[trigger] out@[j]) == view_expr(es@[j]),
        decreases es@.len() - i,
    {
        proof {
            assert(decreases_to!(es@ => es@[i as int]));
        }
        out.push(clone_expr(&es[i]));
        i = i + 1;
    }
    proof {
        broadcast use lemma_view_exprs_len, lemma_view_exprs_index;

        assert(view_exprs(out@) =~= view_exprs(es@));
    }
    out
}

/// An exact structural copy of a function definition; the original is
/// never mutated in place.
pub fn clone_fn_def(f: &FnDef) -> (r: FnDef)
    ensures
        r@ == f@,
{
    FnDef { suspending: f.suspending, sig: f.sig, body: clone_stmts(&f.body) }
}

impl View for Expr {
    type V = ExprModel;

    open spec fn view(&self) -> ExprModel {
        view_expr(*self)
    }
}

impl View for Stmt {
    type V = StmtModel;

    open spec fn view(&self) -> StmtModel {
        view_stmt(*self)
    }
}

impl View for FnDef {
    type V = FnDefModel;

    open spec fn view(&self) -> FnDefModel {
        FnDefModel { suspending: self.suspending, sig: self.sig, body: view_stmts(self.body@) }
    }
}

} // verus!
