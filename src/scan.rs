//! The traversals that look into one function body: the suspension probe and
//! rewriter (`await`), and the context probe and rewriter (`this`).
//!
//! Both kinds share one descent rule, parameterised by [`Target`]: nested
//! functions, methods and classes are never entered (they have their own
//! suspension scope and their own context); arrow functions are entered only
//! when looking for the context, which they inherit lexically.

use vstd::prelude::*;
use crate::ast::{
    lemma_view_exprs, lemma_view_exprs_push, lemma_view_props, lemma_view_props_push,
    lemma_view_stmt_lists, lemma_view_stmt_lists_push, lemma_view_stmts, lemma_view_stmts_push,
    view_expr, view_exprs, view_opt_expr, view_prop, view_props, view_stmt, view_stmt_lists,
    view_stmts, ArrowBody, ArrowExpr, Expr, Prop, SpecArrowBody, SpecArrowExpr, SpecExpr, SpecProp,
    SpecStmt, Stmt,
};

verus! {

/// What a traversal looks for.
#[derive(Clone, Copy, Debug, PartialEq, Eq)]
pub enum Target {
    /// Suspension expressions (`await`).
    Await,
    /// References to the context keyword (`this`).
    This,
}

/// The name of the local that holds a captured context.
pub open spec fn this_name() -> Seq<char> {
    seq!['_', 't', 'h', 'i', 's']
}

// ---------------------------------------------------------------------------
// Probe
// ---------------------------------------------------------------------------

pub open spec fn expr_has(e: SpecExpr, t: Target) -> bool
    decreases e,
{
    match e {
        SpecExpr::This => t is This,
        SpecExpr::Ident(_) => false,
        SpecExpr::Lit(_) => false,
        SpecExpr::Await(a) => t is Await || expr_has(*a, t),
        SpecExpr::Yield(a) => expr_has(*a, t),
        SpecExpr::Member(o, _) => expr_has(*o, t),
        SpecExpr::Call(c, args) => expr_has(*c, t) || exprs_have(args, t),
        SpecExpr::Assign(l, r) => expr_has(*l, t) || expr_has(*r, t),
        SpecExpr::Op(_, args) => exprs_have(args, t),
        SpecExpr::Object(props) => props_have(props, t),
        SpecExpr::Fn(_) => false,
        SpecExpr::Arrow(a) => t is This && arrow_body_has(a.body, t),
    }
}

pub open spec fn arrow_body_has(b: SpecArrowBody, t: Target) -> bool
    decreases b,
{
    match b {
        SpecArrowBody::Block(s) => stmts_have(s, t),
        SpecArrowBody::Expr(x) => expr_has(*x, t),
    }
}

pub open spec fn exprs_have(s: Seq<SpecExpr>, t: Target) -> bool
    decreases s,
{
    s.len() > 0 && (exprs_have(s.drop_last(), t) || expr_has(s.last(), t))
}

pub open spec fn opt_has(o: Option<SpecExpr>, t: Target) -> bool
    decreases o,
{
    match o {
        Some(x) => expr_has(x, t),
        None => false,
    }
}

pub open spec fn props_have(s: Seq<SpecProp>, t: Target) -> bool
    decreases s,
{
    s.len() > 0 && (props_have(s.drop_last(), t) || match s.last() {
        SpecProp::KeyValue(_, v) => expr_has(v, t),
        SpecProp::Method(_) => false,
    })
}

pub open spec fn stmt_has(s: SpecStmt, t: Target) -> bool
    decreases s,
{
    match s {
        SpecStmt::Expr(e) => expr_has(e, t),
        SpecStmt::Var(_, _, init) => opt_has(init, t),
        SpecStmt::FnDecl(_) => false,
        SpecStmt::Class(_) => false,
        SpecStmt::Return(e) => opt_has(e, t),
        SpecStmt::Block(b) => stmts_have(b, t),
        SpecStmt::If(c, th, el) => expr_has(c, t) || stmt_has(*th, t) || match el {
            Some(x) => stmt_has(*x, t),
            None => false,
        },
        SpecStmt::Other(_, es, ls) => exprs_have(es, t) || lists_have(ls, t),
    }
}

pub open spec fn lists_have(s: Seq<Seq<SpecStmt>>, t: Target) -> bool
    decreases s,
{
    s.len() > 0 && (lists_have(s.drop_last(), t) || stmts_have(s.last(), t))
}

pub open spec fn stmts_have(s: Seq<SpecStmt>, t: Target) -> bool
    decreases s,
{
    s.len() > 0 && (stmts_have(s.drop_last(), t) || stmt_has(s.last(), t))
}

pub fn expr_contains(e: &Expr, t: Target) -> (r: bool)
    ensures
        r == expr_has(e@, t),
    decreases e,
{
    match e {
        Expr::This => match t {
            Target::This => true,
            Target::Await => false,
        },
        Expr::Ident(_) => false,
        Expr::Lit(_) => false,
        Expr::Await(a) => match t {
            Target::Await => true,
            Target::This => expr_contains(a, t),
        },
        Expr::Yield(a) => expr_contains(a, t),
        Expr::Member(o, _) => expr_contains(o, t),
        Expr::Call(c, args) => expr_contains(c, t) || exprs_contain(args, t),
        Expr::Assign(l, r) => expr_contains(l, t) || expr_contains(r, t),
        Expr::Op(_, args) => exprs_contain(args, t),
        Expr::Object(props) => props_contain(props, t),
        Expr::Fn(_) => false,
        Expr::Arrow(a) => match t {
            Target::Await => false,
            Target::This => match &a.body {
                ArrowBody::Block(b) => {
                    let r = stmts_contain(b, t);
                    assert(e@->Arrow_0.body == SpecArrowBody::Block(view_stmts(b@)));
                    assert(arrow_body_has(SpecArrowBody::Block(view_stmts(b@)), t) == r);
                    r
                },
                ArrowBody::Expr(x) => {
                    let r = expr_contains(x, t);
                    assert(e@->Arrow_0.body == SpecArrowBody::Expr(Box::new(view_expr(**x))));
                    assert(arrow_body_has(SpecArrowBody::Expr(Box::new(view_expr(**x))), t) == r);
                    r
                },
            },
        },
    }
}

pub fn exprs_contain(v: &Vec<Expr>, t: Target) -> (r: bool)
    ensures
        r == exprs_have(view_exprs(v@), t),
    decreases v,
{
    let ghost ms = view_exprs(v@);
    proof { lemma_view_exprs(v@); }
    let mut i: usize = 0;
    while i < v.len()
        invariant
            ms == view_exprs(v@),
            ms.len() == v@.len(),
            forall|j: int| 0 <= j < v@.len() ==> #[trigger] ms[j] == view_expr(v@[j]),
            0 <= i <= v.len(),
            !exprs_have(ms.subrange(0, i as int), t),
        decreases v.len() - i,
    {
        assert(ms.subrange(0, i + 1).drop_last() =~= ms.subrange(0, i as int));
        if expr_contains(&v[i], t) {
            assert(exprs_have(ms.subrange(0, i + 1), t));
            proof { lemma_has_prefix_exprs(ms, i + 1, t); }
            return true;
        }
        i = i + 1;
    }
    assert(ms.subrange(0, i as int) =~= ms);
    false
}

/// A body made of `return x;` holds the target exactly when `x` does.
pub proof fn lemma_return_has(x: SpecExpr, t: Target)
    ensures
        stmts_have(seq![SpecStmt::Return(Some(x))], t) == expr_has(x, t),
{
    let s = seq![SpecStmt::Return(Some(x))];
    assert(s.drop_last() =~= Seq::empty());
    assert(!stmts_have(Seq::empty(), t));
    assert(stmt_has(SpecStmt::Return(Some(x)), t) == opt_has(Some(x), t));
}

proof fn lemma_has_prefix_exprs(s: Seq<SpecExpr>, k: int, t: Target)
    requires
        0 <= k <= s.len(),
        exprs_have(s.subrange(0, k), t),
    ensures
        exprs_have(s, t),
    decreases s.len() - k,
{
    if k < s.len() {
        assert(s.subrange(0, k + 1).drop_last() =~= s.subrange(0, k));
        lemma_has_prefix_exprs(s, k + 1, t);
    } else {
        assert(s.subrange(0, k) =~= s);
    }
}

pub fn props_contain(v: &Vec<Prop>, t: Target) -> (r: bool)
    ensures
        r == props_have(view_props(v@), t),
    decreases v,
{
    let ghost ms = view_props(v@);
    proof { lemma_view_props(v@); }
    let mut i: usize = 0;
    while i < v.len()
        invariant
            ms == view_props(v@),
            ms.len() == v@.len(),
            forall|j: int| 0 <= j < v@.len() ==> #[trigger] ms[j] == view_prop(v@[j]),
            0 <= i <= v.len(),
            !props_have(ms.subrange(0, i as int), t),
        decreases v.len() - i,
    {
        assert(ms.subrange(0, i + 1).drop_last() =~= ms.subrange(0, i as int));
        let found = match &v[i] {
            Prop::KeyValue(_, x) => expr_contains(x, t),
            Prop::Method(_) => false,
        };
        if found {
            assert(props_have(ms.subrange(0, i + 1), t));
            proof { lemma_has_prefix_props(ms, i + 1, t); }
            return true;
        }
        i = i + 1;
    }
    assert(ms.subrange(0, i as int) =~= ms);
    false
}

proof fn lemma_has_prefix_props(s: Seq<SpecProp>, k: int, t: Target)
    requires
        0 <= k <= s.len(),
        props_have(s.subrange(0, k), t),
    ensures
        props_have(s, t),
    decreases s.len() - k,
{
    if k < s.len() {
        assert(s.subrange(0, k + 1).drop_last() =~= s.subrange(0, k));
        lemma_has_prefix_props(s, k + 1, t);
    } else {
        assert(s.subrange(0, k) =~= s);
    }
}

fn opt_contains(o: &Option<Expr>, t: Target) -> (r: bool)
    ensures
        r == opt_has(view_opt_expr(*o), t),
    decreases o,
{
    match o {
        Some(x) => expr_contains(x, t),
        None => false,
    }
}

pub fn stmt_contains(s: &Stmt, t: Target) -> (r: bool)
    ensures
        r == stmt_has(s@, t),
    decreases s,
{
    match s {
        Stmt::Expr(e) => expr_contains(e, t),
        Stmt::Var(_, _, init) => opt_contains(init, t),
        Stmt::FnDecl(_) => false,
        Stmt::Class(_) => false,
        Stmt::Return(e) => opt_contains(e, t),
        Stmt::Block(b) => stmts_contain(b, t),
        Stmt::If(c, th, el) => {
            expr_contains(c, t) || stmt_contains(th, t) || match el {
                Some(x) => stmt_contains(x, t),
                None => false,
            }
        },
        Stmt::Other(_, es, ls) => exprs_contain(es, t) || lists_contain(ls, t),
    }
}

pub fn lists_contain(v: &Vec<Vec<Stmt>>, t: Target) -> (r: bool)
    ensures
        r == lists_have(view_stmt_lists(v@), t),
    decreases v,
{
    let ghost ms = view_stmt_lists(v@);
    proof { lemma_view_stmt_lists(v@); }
    let mut i: usize = 0;
    while i < v.len()
        invariant
            ms == view_stmt_lists(v@),
            ms.len() == v@.len(),
            forall|j: int| 0 <= j < v@.len() ==> #[trigger] ms[j] == view_stmts(v@[j]@),
            0 <= i <= v.len(),
            !lists_have(ms.subrange(0, i as int), t),
        decreases v.len() - i,
    {
        assert(ms.subrange(0, i + 1).drop_last() =~= ms.subrange(0, i as int));
        if stmts_contain(&v[i], t) {
            assert(lists_have(ms.subrange(0, i + 1), t));
            proof { lemma_has_prefix_lists(ms, i + 1, t); }
            return true;
        }
        i = i + 1;
    }
    assert(ms.subrange(0, i as int) =~= ms);
    false
}

proof fn lemma_has_prefix_lists(s: Seq<Seq<SpecStmt>>, k: int, t: Target)
    requires
        0 <= k <= s.len(),
        lists_have(s.subrange(0, k), t),
    ensures
        lists_have(s, t),
    decreases s.len() - k,
{
    if k < s.len() {
        assert(s.subrange(0, k + 1).drop_last() =~= s.subrange(0, k));
        lemma_has_prefix_lists(s, k + 1, t);
    } else {
        assert(s.subrange(0, k) =~= s);
    }
}

pub fn stmts_contain(v: &Vec<Stmt>, t: Target) -> (r: bool)
    ensures
        r == stmts_have(view_stmts(v@), t),
    decreases v,
{
    let ghost ms = view_stmts(v@);
    proof { lemma_view_stmts(v@); }
    let mut i: usize = 0;
    while i < v.len()
        invariant
            ms == view_stmts(v@),
            ms.len() == v@.len(),
            forall|j: int| 0 <= j < v@.len() ==> #[trigger] ms[j] == view_stmt(v@[j]),
            0 <= i <= v.len(),
            !stmts_have(ms.subrange(0, i as int), t),
        decreases v.len() - i,
    {
        assert(ms.subrange(0, i + 1).drop_last() =~= ms.subrange(0, i as int));
        if stmt_contains(&v[i], t) {
            assert(stmts_have(ms.subrange(0, i + 1), t));
            proof { lemma_has_prefix_stmts(ms, i + 1, t); }
            return true;
        }
        i = i + 1;
    }
    assert(ms.subrange(0, i as int) =~= ms);
    false
}

proof fn lemma_has_prefix_stmts(s: Seq<SpecStmt>, k: int, t: Target)
    requires
        0 <= k <= s.len(),
        stmts_have(s.subrange(0, k), t),
    ensures
        stmts_have(s, t),
    decreases s.len() - k,
{
    if k < s.len() {
        assert(s.subrange(0, k + 1).drop_last() =~= s.subrange(0, k));
        lemma_has_prefix_stmts(s, k + 1, t);
    } else {
        assert(s.subrange(0, k) =~= s);
    }
}

// ---------------------------------------------------------------------------
// Rewriter
// ---------------------------------------------------------------------------

/// `e` with every occurrence of the target replaced: `await x` by `yield x`,
/// or `this` by the captured-context local.
pub open spec fn expr_rw(e: SpecExpr, t: Target) -> SpecExpr
    decreases e,
{
    match e {
        SpecExpr::This => match t {
            Target::This => SpecExpr::Ident(this_name()),
            Target::Await => SpecExpr::This,
        },
        SpecExpr::Ident(_) => e,
        SpecExpr::Lit(_) => e,
        SpecExpr::Await(a) => match t {
            Target::Await => SpecExpr::Yield(Box::new(expr_rw(*a, t))),
            Target::This => SpecExpr::Await(Box::new(expr_rw(*a, t))),
        },
        SpecExpr::Yield(a) => SpecExpr::Yield(Box::new(expr_rw(*a, t))),
        SpecExpr::Member(o, p) => SpecExpr::Member(Box::new(expr_rw(*o, t)), p),
        SpecExpr::Call(c, args) => SpecExpr::Call(Box::new(expr_rw(*c, t)), exprs_rw(args, t)),
        SpecExpr::Assign(l, r) => SpecExpr::Assign(
            Box::new(expr_rw(*l, t)),
            Box::new(expr_rw(*r, t)),
        ),
        SpecExpr::Op(op, args) => SpecExpr::Op(op, exprs_rw(args, t)),
        SpecExpr::Object(props) => SpecExpr::Object(props_rw(props, t)),
        SpecExpr::Fn(_) => e,
        SpecExpr::Arrow(a) => match t {
            Target::Await => e,
            Target::This => SpecExpr::Arrow(
                SpecArrowExpr {
                    params: a.params,
                    body: arrow_body_rw(a.body, t),
                    is_async: a.is_async,
                },
            ),
        },
    }
}

pub open spec fn arrow_body_rw(b: SpecArrowBody, t: Target) -> SpecArrowBody
    decreases b,
{
    match b {
        SpecArrowBody::Block(s) => SpecArrowBody::Block(stmts_rw(s, t)),
        SpecArrowBody::Expr(x) => SpecArrowBody::Expr(Box::new(expr_rw(*x, t))),
    }
}

pub open spec fn exprs_rw(s: Seq<SpecExpr>, t: Target) -> Seq<SpecExpr>
    decreases s,
{
    if s.len() == 0 {
        Seq::empty()
    } else {
        exprs_rw(s.drop_last(), t).push(expr_rw(s.last(), t))
    }
}

pub open spec fn opt_rw(o: Option<SpecExpr>, t: Target) -> Option<SpecExpr>
    decreases o,
{
    match o {
        Some(x) => Some(expr_rw(x, t)),
        None => None,
    }
}

pub open spec fn prop_rw(p: SpecProp, t: Target) -> SpecProp
    decreases p,
{
    match p {
        SpecProp::KeyValue(k, v) => SpecProp::KeyValue(k, expr_rw(v, t)),
        SpecProp::Method(_) => p,
    }
}

pub open spec fn props_rw(s: Seq<SpecProp>, t: Target) -> Seq<SpecProp>
    decreases s,
{
    if s.len() == 0 {
        Seq::empty()
    } else {
        props_rw(s.drop_last(), t).push(prop_rw(s.last(), t))
    }
}

pub open spec fn stmt_rw(s: SpecStmt, t: Target) -> SpecStmt
    decreases s,
{
    match s {
        SpecStmt::Expr(e) => SpecStmt::Expr(expr_rw(e, t)),
        SpecStmt::Var(k, n, init) => SpecStmt::Var(k, n, opt_rw(init, t)),
        SpecStmt::FnDecl(_) => s,
        SpecStmt::Class(_) => s,
        SpecStmt::Return(e) => SpecStmt::Return(opt_rw(e, t)),
        SpecStmt::Block(b) => SpecStmt::Block(stmts_rw(b, t)),
        SpecStmt::If(c, th, el) => SpecStmt::If(
            expr_rw(c, t),
            Box::new(stmt_rw(*th, t)),
            match el {
                Some(x) => Some(Box::new(stmt_rw(*x, t))),
                None => None,
            },
        ),
        SpecStmt::Other(tag, es, ls) => SpecStmt::Other(tag, exprs_rw(es, t), lists_rw(ls, t)),
    }
}

pub open spec fn lists_rw(s: Seq<Seq<SpecStmt>>, t: Target) -> Seq<Seq<SpecStmt>>
    decreases s,
{
    if s.len() == 0 {
        Seq::empty()
    } else {
        lists_rw(s.drop_last(), t).push(stmts_rw(s.last(), t))
    }
}

pub open spec fn stmts_rw(s: Seq<SpecStmt>, t: Target) -> Seq<SpecStmt>
    decreases s,
{
    if s.len() == 0 {
        Seq::empty()
    } else {
        stmts_rw(s.drop_last(), t).push(stmt_rw(s.last(), t))
    }
}

pub fn rewrite_expr(e: Expr, t: Target) -> (r: Expr)
    ensures
        r@ == expr_rw(e@, t),
    decreases e,
{
    match e {
        Expr::This => match t {
            Target::This => {
                let name = String::from_str("_this");
                proof {
                    reveal_strlit("_this");
                    assert(name@ =~= this_name());
                }
                Expr::Ident(name)
            },
            Target::Await => Expr::This,
        },
        Expr::Ident(n) => Expr::Ident(n),
        Expr::Lit(n) => Expr::Lit(n),
        Expr::Await(a) => match t {
            Target::Await => Expr::Yield(Box::new(rewrite_expr(*a, t))),
            Target::This => Expr::Await(Box::new(rewrite_expr(*a, t))),
        },
        Expr::Yield(a) => Expr::Yield(Box::new(rewrite_expr(*a, t))),
        Expr::Member(o, p) => Expr::Member(Box::new(rewrite_expr(*o, t)), p),
        Expr::Call(c, args) => {
            let c2 = rewrite_expr(*c, t);
            Expr::Call(Box::new(c2), rewrite_exprs(args, t))
        },
        Expr::Assign(l, r) => {
            let l2 = rewrite_expr(*l, t);
            Expr::Assign(Box::new(l2), Box::new(rewrite_expr(*r, t)))
        },
        Expr::Op(op, args) => Expr::Op(op, rewrite_exprs(args, t)),
        Expr::Object(props) => Expr::Object(rewrite_props(props, t)),
        Expr::Fn(f) => Expr::Fn(f),
        Expr::Arrow(a) => match t {
            Target::Await => Expr::Arrow(a),
            Target::This => {
                let ArrowExpr { params, body, is_async } = a;
                let body2 = match body {
                    ArrowBody::Block(b) => ArrowBody::Block(rewrite_stmts(b, t)),
                    ArrowBody::Expr(x) => ArrowBody::Expr(Box::new(rewrite_expr(*x, t))),
                };
                let r = Expr::Arrow(ArrowExpr { params, body: body2, is_async });
                assert(r@->Arrow_0.body == arrow_body_rw(e@->Arrow_0.body, t));
                r
            },
        },
    }
}

pub fn rewrite_exprs(v: Vec<Expr>, t: Target) -> (r: Vec<Expr>)
    ensures
        view_exprs(r@) == exprs_rw(view_exprs(v@), t),
    decreases v,
{
    let ghost orig = v@;
    let ghost ms = view_exprs(v@);
    proof { lemma_view_exprs(v@); }
    let mut rest = v;
    let mut out: Vec<Expr> = Vec::new();
    while rest.len() > 0
        invariant
            ms == view_exprs(orig),
            ms.len() == orig.len(),
            forall|j: int| 0 <= j < orig.len() ==> #[trigger] ms[j] == view_expr(orig[j]),
            orig == v@,
            out.len() + rest.len() == orig.len(),
            rest@ == orig.subrange(out.len() as int, orig.len() as int),
            view_exprs(out@) == exprs_rw(ms.subrange(0, out.len() as int), t),
        decreases rest.len(),
    {
        let ghost k = out.len() as int;
        let x = rest.remove(0);
        assert(x == orig[k]);
        proof { assert(decreases_to!(v => v[k])); }
        let y = rewrite_expr(x, t);
        proof { lemma_view_exprs_push(out@, y); }
        out.push(y);
        assert(ms.subrange(0, k + 1).drop_last() =~= ms.subrange(0, k));
    }
    assert(ms.subrange(0, orig.len() as int) =~= ms);
    out
}

pub fn rewrite_props(v: Vec<Prop>, t: Target) -> (r: Vec<Prop>)
    ensures
        view_props(r@) == props_rw(view_props(v@), t),
    decreases v,
{
    let ghost orig = v@;
    let ghost ms = view_props(v@);
    proof { lemma_view_props(v@); }
    let mut rest = v;
    let mut out: Vec<Prop> = Vec::new();
    while rest.len() > 0
        invariant
            ms == view_props(orig),
            ms.len() == orig.len(),
            forall|j: int| 0 <= j < orig.len() ==> #[trigger] ms[j] == view_prop(orig[j]),
            orig == v@,
            out.len() + rest.len() == orig.len(),
            rest@ == orig.subrange(out.len() as int, orig.len() as int),
            view_props(out@) == props_rw(ms.subrange(0, out.len() as int), t),
        decreases rest.len(),
    {
        let ghost k = out.len() as int;
        let x = rest.remove(0);
        assert(x == orig[k]);
        proof { assert(decreases_to!(v => v[k])); }
        let y = match x {
            Prop::KeyValue(key, value) => Prop::KeyValue(key, rewrite_expr(value, t)),
            Prop::Method(m) => Prop::Method(m),
        };
        assert(view_prop(y) == prop_rw(ms[k], t));
        proof { lemma_view_props_push(out@, y); }
        out.push(y);
        assert(ms.subrange(0, k + 1).drop_last() =~= ms.subrange(0, k));
    }
    assert(ms.subrange(0, orig.len() as int) =~= ms);
    out
}

fn rewrite_opt(o: Option<Expr>, t: Target) -> (r: Option<Expr>)
    ensures
        view_opt_expr(r) == opt_rw(view_opt_expr(o), t),
    decreases o,
{
    match o {
        Some(x) => Some(rewrite_expr(x, t)),
        None => None,
    }
}

pub fn rewrite_stmt(s: Stmt, t: Target) -> (r: Stmt)
    ensures
        r@ == stmt_rw(s@, t),
    decreases s,
{
    match s {
        Stmt::Expr(e) => Stmt::Expr(rewrite_expr(e, t)),
        Stmt::Var(k, n, init) => Stmt::Var(k, n, rewrite_opt(init, t)),
        Stmt::FnDecl(d) => Stmt::FnDecl(d),
        Stmt::Class(c) => Stmt::Class(c),
        Stmt::Return(e) => Stmt::Return(rewrite_opt(e, t)),
        Stmt::Block(b) => Stmt::Block(rewrite_stmts(b, t)),
        Stmt::If(c, th, el) => {
            let c2 = rewrite_expr(c, t);
            let th2 = rewrite_stmt(*th, t);
            let el2 = match el {
                Some(x) => Some(Box::new(rewrite_stmt(*x, t))),
                None => None,
            };
            Stmt::If(c2, Box::new(th2), el2)
        },
        Stmt::Other(tag, es, ls) => {
            let es2 = rewrite_exprs(es, t);
            Stmt::Other(tag, es2, rewrite_lists(ls, t))
        },
    }
}

pub fn rewrite_lists(v: Vec<Vec<Stmt>>, t: Target) -> (r: Vec<Vec<Stmt>>)
    ensures
        view_stmt_lists(r@) == lists_rw(view_stmt_lists(v@), t),
    decreases v,
{
    let ghost orig = v@;
    let ghost ms = view_stmt_lists(v@);
    proof { lemma_view_stmt_lists(v@); }
    let mut rest = v;
    let mut out: Vec<Vec<Stmt>> = Vec::new();
    while rest.len() > 0
        invariant
            ms == view_stmt_lists(orig),
            ms.len() == orig.len(),
            forall|j: int| 0 <= j < orig.len() ==> #[trigger] ms[j] == view_stmts(orig[j]@),
            orig == v@,
            out.len() + rest.len() == orig.len(),
            rest@ == orig.subrange(out.len() as int, orig.len() as int),
            view_stmt_lists(out@) == lists_rw(ms.subrange(0, out.len() as int), t),
        decreases rest.len(),
    {
        let ghost k = out.len() as int;
        let x = rest.remove(0);
        assert(x == orig[k]);
        proof { assert(decreases_to!(v => v[k])); }
        let y = rewrite_stmts(x, t);
        proof { lemma_view_stmt_lists_push(out@, y); }
        out.push(y);
        assert(ms.subrange(0, k + 1).drop_last() =~= ms.subrange(0, k));
    }
    assert(ms.subrange(0, orig.len() as int) =~= ms);
    out
}

pub fn rewrite_stmts(v: Vec<Stmt>, t: Target) -> (r: Vec<Stmt>)
    ensures
        view_stmts(r@) == stmts_rw(view_stmts(v@), t),
    decreases v,
{
    let ghost orig = v@;
    let ghost ms = view_stmts(v@);
    proof { lemma_view_stmts(v@); }
    let mut rest = v;
    let mut out: Vec<Stmt> = Vec::new();
    while rest.len() > 0
        invariant
            ms == view_stmts(orig),
            ms.len() == orig.len(),
            forall|j: int| 0 <= j < orig.len() ==> #[trigger] ms[j] == view_stmt(orig[j]),
            orig == v@,
            out.len() + rest.len() == orig.len(),
            rest@ == orig.subrange(out.len() as int, orig.len() as int),
            view_stmts(out@) == stmts_rw(ms.subrange(0, out.len() as int), t),
        decreases rest.len(),
    {
        let ghost k = out.len() as int;
        let x = rest.remove(0);
        assert(x == orig[k]);
        proof { assert(decreases_to!(v => v[k])); }
        let y = rewrite_stmt(x, t);
        proof { lemma_view_stmts_push(out@, y); }
        out.push(y);
        assert(ms.subrange(0, k + 1).drop_last() =~= ms.subrange(0, k));
    }
    assert(ms.subrange(0, orig.len() as int) =~= ms);
    out
}

// ---------------------------------------------------------------------------
// The probes and rewriters as visitors over a function body
// ---------------------------------------------------------------------------

/// Reports whether a function body holds a suspension expression.
pub struct HasAwaitVisitor {
    pub has_await: bool,
}

impl HasAwaitVisitor {
    pub fn new() -> (r: Self)
        ensures
            !r.has_await,
    {
        HasAwaitVisitor { has_await: false }
    }

    /// Whether `body` holds an `await` outside nested functions and arrows.
    pub fn check(body: &Vec<Stmt>) -> (r: bool)
        ensures
            r == stmts_have(view_stmts(body@), Target::Await),
    {
        let mut visitor = Self::new();
        visitor.has_await = stmts_contain(body, Target::Await);
        visitor.has_await
    }
}

impl Default for HasAwaitVisitor {
    fn default() -> (r: Self)
        ensures
            !r.has_await,
    {
        Self::new()
    }
}

/// Reports whether a function body refers to the enclosing context.
pub struct HasThisVisitor {
    pub has_this: bool,
}

impl HasThisVisitor {
    pub fn new() -> (r: Self)
        ensures
            !r.has_this,
    {
        HasThisVisitor { has_this: false }
    }

    /// Whether `body` uses `this`, looking into arrow functions but not into
    /// other nested functions.
    pub fn check(body: &Vec<Stmt>) -> (r: bool)
        ensures
            r == stmts_have(view_stmts(body@), Target::This),
    {
        let mut visitor = Self::new();
        visitor.has_this = stmts_contain(body, Target::This);
        visitor.has_this
    }
}

impl Default for HasThisVisitor {
    fn default() -> (r: Self)
        ensures
            !r.has_this,
    {
        Self::new()
    }
}

/// Turns every suspension expression of a body into a non-delegating yield.
pub struct AwaitToYieldVisitor;

impl AwaitToYieldVisitor {
    pub fn visit_stmts(&self, body: Vec<Stmt>) -> (r: Vec<Stmt>)
        ensures
            view_stmts(r@) == stmts_rw(view_stmts(body@), Target::Await),
    {
        rewrite_stmts(body, Target::Await)
    }
}

/// Replaces every reference to the enclosing context by `_this`, and records
/// whether any was replaced.
pub struct ThisCaptureVisitor {
    pub needs_this: bool,
}

impl ThisCaptureVisitor {
    pub fn new() -> (r: Self)
        ensures
            !r.needs_this,
    {
        ThisCaptureVisitor { needs_this: false }
    }

    pub fn visit_stmts(&mut self, body: Vec<Stmt>) -> (r: Vec<Stmt>)
        ensures
            view_stmts(r@) == stmts_rw(view_stmts(body@), Target::This),
            final(self).needs_this == (old(self).needs_this || stmts_have(
                view_stmts(body@),
                Target::This,
            )),
    {
        if stmts_contain(&body, Target::This) {
            self.needs_this = true;
        }
        rewrite_stmts(body, Target::This)
    }
}

impl Default for ThisCaptureVisitor {
    fn default() -> (r: Self)
        ensures
            !r.needs_this,
    {
        Self::new()
    }
}

} // verus!
