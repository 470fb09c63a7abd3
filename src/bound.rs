//! A bound on how many wrapper names a pass generates: at most one per
//! function expression or arrow function of the input. The bound is computed
//! with saturating arithmetic, so a caller can check that the counter of
//! generated names cannot overflow before running the pass.

use vstd::prelude::*;
use crate::ast::{
    lemma_view_exprs, lemma_view_members, lemma_view_props, lemma_view_stmt_lists,
    lemma_view_stmts, view_stmt_lists, view_expr,
    view_exprs, view_item, view_items, view_member, view_members, view_opt_expr, view_prop,
    view_props, view_stmt, view_stmts, ArrowBody, ClassMember, Expr, Function, Module, ModuleItem,
    Prop, SpecArrowBody, SpecClassMember, SpecExpr, SpecFunction, SpecModuleItem, SpecProp,
    SpecStmt, Stmt,
};
use crate::walker::{
    names_used, transform, transform_items, walk_arrow_body, walk_expr, walk_exprs, walk_function,
    walk_item, walk_items, walk_lists, walk_member, walk_members, walk_opt, walk_prop, walk_props,
    walk_stmt, walk_stmt_list,
};

verus! {

/// `x`, or `u64::MAX` if it is larger.
pub open spec fn cap(x: nat) -> nat {
    if x > u64::MAX {
        u64::MAX as nat
    } else {
        x
    }
}

pub open spec fn function_fns(f: SpecFunction) -> nat
    decreases f,
{
    match f.body {
        Some(b) => stmts_fns(b),
        None => 0,
    }
}

/// The number of function expressions and arrow functions in `e`.
pub open spec fn expr_fns(e: SpecExpr) -> nat
    decreases e,
{
    match e {
        SpecExpr::This => 0,
        SpecExpr::Ident(_) => 0,
        SpecExpr::Lit(_) => 0,
        SpecExpr::Await(a) => expr_fns(*a),
        SpecExpr::Yield(a) => expr_fns(*a),
        SpecExpr::Member(o, _) => expr_fns(*o),
        SpecExpr::Call(c, args) => expr_fns(*c) + exprs_fns(args),
        SpecExpr::Assign(l, r) => expr_fns(*l) + expr_fns(*r),
        SpecExpr::Op(_, args) => exprs_fns(args),
        SpecExpr::Object(props) => props_fns(props),
        SpecExpr::Fn(f) => 1 + function_fns(f.function),
        SpecExpr::Arrow(a) => 1 + arrow_body_fns(a.body),
    }
}

pub open spec fn arrow_body_fns(b: SpecArrowBody) -> nat
    decreases b,
{
    match b {
        SpecArrowBody::Block(s) => stmts_fns(s),
        SpecArrowBody::Expr(x) => expr_fns(*x),
    }
}

pub open spec fn exprs_fns(s: Seq<SpecExpr>) -> nat
    decreases s,
{
    if s.len() == 0 {
        0
    } else {
        exprs_fns(s.drop_last()) + expr_fns(s.last())
    }
}

pub open spec fn opt_fns(o: Option<SpecExpr>) -> nat
    decreases o,
{
    match o {
        Some(x) => expr_fns(x),
        None => 0,
    }
}

pub open spec fn prop_fns(p: SpecProp) -> nat
    decreases p,
{
    match p {
        SpecProp::KeyValue(_, v) => expr_fns(v),
        SpecProp::Method(m) => function_fns(m.function),
    }
}

pub open spec fn props_fns(s: Seq<SpecProp>) -> nat
    decreases s,
{
    if s.len() == 0 {
        0
    } else {
        props_fns(s.drop_last()) + prop_fns(s.last())
    }
}

pub open spec fn member_fns(m: SpecClassMember) -> nat
    decreases m,
{
    match m {
        SpecClassMember::Method(cm) => function_fns(cm.function),
        SpecClassMember::Field(_, v) => opt_fns(v),
    }
}

pub open spec fn members_fns(s: Seq<SpecClassMember>) -> nat
    decreases s,
{
    if s.len() == 0 {
        0
    } else {
        members_fns(s.drop_last()) + member_fns(s.last())
    }
}

pub open spec fn stmt_fns(s: SpecStmt) -> nat
    decreases s,
{
    match s {
        SpecStmt::Expr(e) => expr_fns(e),
        SpecStmt::Var(_, _, init) => opt_fns(init),
        SpecStmt::FnDecl(d) => function_fns(d.function),
        SpecStmt::Class(c) => members_fns(c.members),
        SpecStmt::Return(e) => opt_fns(e),
        SpecStmt::Block(b) => stmts_fns(b),
        SpecStmt::If(c, th, el) => expr_fns(c) + stmt_fns(*th) + match el {
            Some(x) => stmt_fns(*x),
            None => 0,
        },
        SpecStmt::Other(_, es, ls) => exprs_fns(es) + lists_fns(ls),
    }
}

pub open spec fn lists_fns(s: Seq<Seq<SpecStmt>>) -> nat
    decreases s,
{
    if s.len() == 0 {
        0
    } else {
        lists_fns(s.drop_last()) + stmts_fns(s.last())
    }
}

pub open spec fn stmts_fns(s: Seq<SpecStmt>) -> nat
    decreases s,
{
    if s.len() == 0 {
        0
    } else {
        stmts_fns(s.drop_last()) + stmt_fns(s.last())
    }
}

pub open spec fn item_fns(i: SpecModuleItem) -> nat {
    match i {
        SpecModuleItem::Stmt(s) => stmt_fns(s),
        SpecModuleItem::Export(s) => stmt_fns(s),
        SpecModuleItem::Opaque(_) => 0,
    }
}

/// The number of function expressions and arrow functions in a module.
pub open spec fn items_fns(s: Seq<SpecModuleItem>) -> nat
    decreases s.len(),
{
    if s.len() == 0 {
        0
    } else {
        items_fns(s.drop_last()) + item_fns(s.last())
    }
}

// ---------------------------------------------------------------------------
// A walk uses at most one name per function expression or arrow function.
// ---------------------------------------------------------------------------

proof fn lemma_function_bound(f: SpecFunction, n: nat)
    ensures
        walk_function(f, n).1 <= function_fns(f),
    decreases f,
{
    match f.body {
        Some(b) => lemma_stmt_list_bound(b, n),
        None => {},
    }
}

proof fn lemma_expr_bound(e: SpecExpr, n: nat)
    ensures
        walk_expr(e, n).1 <= expr_fns(e),
    decreases e,
{
    match e {
        SpecExpr::Await(a) => lemma_expr_bound(*a, n),
        SpecExpr::Yield(a) => lemma_expr_bound(*a, n),
        SpecExpr::Member(o, _) => lemma_expr_bound(*o, n),
        SpecExpr::Call(c, args) => {
            lemma_expr_bound(*c, n);
            lemma_exprs_bound(args, n + walk_expr(*c, n).1);
        },
        SpecExpr::Assign(l, r) => {
            lemma_expr_bound(*l, n);
            lemma_expr_bound(*r, n + walk_expr(*l, n).1);
        },
        SpecExpr::Op(_, args) => lemma_exprs_bound(args, n),
        SpecExpr::Object(props) => lemma_props_bound(props, n),
        SpecExpr::Fn(f) => lemma_function_bound(f.function, n),
        SpecExpr::Arrow(a) => lemma_arrow_body_bound(a.body, n),
        _ => {},
    }
}

proof fn lemma_arrow_body_bound(b: SpecArrowBody, n: nat)
    ensures
        walk_arrow_body(b, n).1 <= arrow_body_fns(b),
    decreases b,
{
    match b {
        SpecArrowBody::Block(s) => lemma_stmt_list_bound(s, n),
        SpecArrowBody::Expr(x) => lemma_expr_bound(*x, n),
    }
}

proof fn lemma_exprs_bound(s: Seq<SpecExpr>, n: nat)
    ensures
        walk_exprs(s, n).1 <= exprs_fns(s),
    decreases s,
{
    if s.len() > 0 {
        lemma_exprs_bound(s.drop_last(), n);
        lemma_expr_bound(s.last(), n + walk_exprs(s.drop_last(), n).1);
    }
}

proof fn lemma_opt_bound(o: Option<SpecExpr>, n: nat)
    ensures
        walk_opt(o, n).1 <= opt_fns(o),
    decreases o,
{
    match o {
        Some(x) => lemma_expr_bound(x, n),
        None => {},
    }
}

proof fn lemma_props_bound(s: Seq<SpecProp>, n: nat)
    ensures
        walk_props(s, n).1 <= props_fns(s),
    decreases s,
{
    if s.len() > 0 {
        lemma_props_bound(s.drop_last(), n);
        let m = n + walk_props(s.drop_last(), n).1;
        match s.last() {
            SpecProp::KeyValue(_, v) => lemma_expr_bound(v, m),
            SpecProp::Method(f) => lemma_function_bound(f.function, m),
        }
        assert(walk_prop(s.last(), m).1 <= prop_fns(s.last()));
    }
}

proof fn lemma_members_bound(s: Seq<SpecClassMember>, n: nat)
    ensures
        walk_members(s, n).1 <= members_fns(s),
    decreases s,
{
    reveal(walk_member);
    if s.len() > 0 {
        lemma_members_bound(s.drop_last(), n);
        let m = n + walk_members(s.drop_last(), n).1;
        match s.last() {
            SpecClassMember::Method(cm) => lemma_function_bound(cm.function, m),
            SpecClassMember::Field(_, v) => lemma_opt_bound(v, m),
        }
        assert(walk_member(s.last(), m).1 <= member_fns(s.last()));
    }
}

proof fn lemma_stmt_bound(s: SpecStmt, n: nat)
    ensures
        walk_stmt(s, n).1 <= stmt_fns(s),
    decreases s,
{
    match s {
        SpecStmt::Expr(e) => lemma_expr_bound(e, n),
        SpecStmt::Var(_, _, init) => lemma_opt_bound(init, n),
        SpecStmt::FnDecl(d) => lemma_function_bound(d.function, n),
        SpecStmt::Class(c) => lemma_members_bound(c.members, n),
        SpecStmt::Return(e) => lemma_opt_bound(e, n),
        SpecStmt::Block(b) => lemma_stmt_list_bound(b, n),
        SpecStmt::If(c, th, el) => {
            lemma_expr_bound(c, n);
            let n1 = n + walk_expr(c, n).1;
            lemma_stmt_bound(*th, n1);
            match el {
                Some(x) => lemma_stmt_bound(*x, n1 + walk_stmt(*th, n1).1),
                None => {},
            }
        },
        SpecStmt::Other(_, es, ls) => {
            lemma_exprs_bound(es, n);
            lemma_lists_bound(ls, n + walk_exprs(es, n).1);
        },
    }
}

proof fn lemma_lists_bound(s: Seq<Seq<SpecStmt>>, n: nat)
    ensures
        walk_lists(s, n).1 <= lists_fns(s),
    decreases s,
{
    if s.len() > 0 {
        lemma_lists_bound(s.drop_last(), n);
        lemma_stmt_list_bound(s.last(), n + walk_lists(s.drop_last(), n).1);
    }
}

proof fn lemma_stmt_list_bound(s: Seq<SpecStmt>, n: nat)
    ensures
        walk_stmt_list(s, n).1 <= stmts_fns(s),
    decreases s,
{
    if s.len() > 0 {
        lemma_stmt_list_bound(s.drop_last(), n);
        lemma_stmt_bound(s.last(), n + walk_stmt_list(s.drop_last(), n).1);
    }
}

proof fn lemma_items_bound(s: Seq<SpecModuleItem>, n: nat)
    ensures
        walk_items(s, n).1 <= items_fns(s),
    decreases s.len(),
{
    if s.len() > 0 {
        lemma_items_bound(s.drop_last(), n);
        let m = n + walk_items(s.drop_last(), n).1;
        match s.last() {
            SpecModuleItem::Stmt(x) => lemma_stmt_bound(x, m),
            SpecModuleItem::Export(x) => lemma_stmt_bound(x, m),
            SpecModuleItem::Opaque(_) => {},
        }
        assert(walk_item(s.last(), m).1 <= item_fns(s.last()));
    }
}

/// A pass over a module generates at most one name per function expression
/// or arrow function of the module.
pub proof fn names_used_bound(items: Seq<SpecModuleItem>)
    ensures
        names_used(items) <= items_fns(items),
{
    lemma_items_bound(items, 0);
}

// ---------------------------------------------------------------------------
// Counting, with saturation
// ---------------------------------------------------------------------------

pub fn count_expr(e: &Expr) -> (r: u64)
    ensures
        r == cap(expr_fns(e@)),
    decreases e,
{
    match e {
        Expr::This => 0,
        Expr::Ident(_) => 0,
        Expr::Lit(_) => 0,
        Expr::Await(a) => count_expr(a),
        Expr::Yield(a) => count_expr(a),
        Expr::Member(o, _) => count_expr(o),
        Expr::Call(c, args) => count_expr(c).saturating_add(count_exprs(args)),
        Expr::Assign(l, r) => count_expr(l).saturating_add(count_expr(r)),
        Expr::Op(_, args) => count_exprs(args),
        Expr::Object(props) => count_props(props),
        Expr::Fn(f) => 1u64.saturating_add(count_function(&f.function)),
        Expr::Arrow(a) => {
            let inner = match &a.body {
                ArrowBody::Block(b) => {
                    let r = count_stmts(b);
                    assert(e@->Arrow_0.body == SpecArrowBody::Block(view_stmts(b@)));
                    assert(arrow_body_fns(SpecArrowBody::Block(view_stmts(b@))) == stmts_fns(view_stmts(b@)));
                    r
                },
                ArrowBody::Expr(x) => {
                    let r = count_expr(x);
                    assert(e@->Arrow_0.body == SpecArrowBody::Expr(Box::new(view_expr(**x))));
                    assert(arrow_body_fns(SpecArrowBody::Expr(Box::new(view_expr(**x)))) == expr_fns(view_expr(**x)));
                    r
                },
            };
            1u64.saturating_add(inner)
        },
    }
}

fn count_exprs(v: &Vec<Expr>) -> (r: u64)
    ensures
        r == cap(exprs_fns(view_exprs(v@))),
    decreases v,
{
    let ghost ms = view_exprs(v@);
    proof { lemma_view_exprs(v@); }
    let mut acc: u64 = 0;
    let mut i: usize = 0;
    while i < v.len()
        invariant
            ms == view_exprs(v@),
            ms.len() == v@.len(),
            forall|j: int| 0 <= j < v@.len() ==> #[trigger] ms[j] == view_expr(v@[j]),
            0 <= i <= v.len(),
            acc == cap(exprs_fns(ms.subrange(0, i as int))),
        decreases v.len() - i,
    {
        assert(ms.subrange(0, i + 1).drop_last() =~= ms.subrange(0, i as int));
        acc = acc.saturating_add(count_expr(&v[i]));
        i = i + 1;
    }
    assert(ms.subrange(0, i as int) =~= ms);
    acc
}

fn count_opt(o: &Option<Expr>) -> (r: u64)
    ensures
        r == cap(opt_fns(view_opt_expr(*o))),
    decreases o,
{
    match o {
        Some(x) => count_expr(x),
        None => 0,
    }
}

fn count_function(f: &Function) -> (r: u64)
    ensures
        r == cap(function_fns(f@)),
    decreases f,
{
    match &f.body {
        Some(b) => {
            assert(f@.body == Some(view_stmts(b@)));
            count_stmts(b)
        },
        None => 0,
    }
}

fn count_props(v: &Vec<Prop>) -> (r: u64)
    ensures
        r == cap(props_fns(view_props(v@))),
    decreases v,
{
    let ghost ms = view_props(v@);
    proof { lemma_view_props(v@); }
    let mut acc: u64 = 0;
    let mut i: usize = 0;
    while i < v.len()
        invariant
            ms == view_props(v@),
            ms.len() == v@.len(),
            forall|j: int| 0 <= j < v@.len() ==> #[trigger] ms[j] == view_prop(v@[j]),
            0 <= i <= v.len(),
            acc == cap(props_fns(ms.subrange(0, i as int))),
        decreases v.len() - i,
    {
        assert(ms.subrange(0, i + 1).drop_last() =~= ms.subrange(0, i as int));
        let c = match &v[i] {
            Prop::KeyValue(_, x) => count_expr(x),
            Prop::Method(m) => count_function(&m.function),
        };
        assert(c == cap(prop_fns(ms[i as int])));
        acc = acc.saturating_add(c);
        i = i + 1;
    }
    assert(ms.subrange(0, i as int) =~= ms);
    acc
}

fn count_members(v: &Vec<ClassMember>) -> (r: u64)
    ensures
        r == cap(members_fns(view_members(v@))),
    decreases v,
{
    let ghost ms = view_members(v@);
    proof { lemma_view_members(v@); }
    let mut acc: u64 = 0;
    let mut i: usize = 0;
    while i < v.len()
        invariant
            ms == view_members(v@),
            ms.len() == v@.len(),
            forall|j: int| 0 <= j < v@.len() ==> #[trigger] ms[j] == view_member(v@[j]),
            0 <= i <= v.len(),
            acc == cap(members_fns(ms.subrange(0, i as int))),
        decreases v.len() - i,
    {
        assert(ms.subrange(0, i + 1).drop_last() =~= ms.subrange(0, i as int));
        let c = match &v[i] {
            ClassMember::Method(m) => count_function(&m.function),
            ClassMember::Field(_, x) => count_opt(x),
        };
        assert(c == cap(member_fns(ms[i as int])));
        acc = acc.saturating_add(c);
        i = i + 1;
    }
    assert(ms.subrange(0, i as int) =~= ms);
    acc
}

pub fn count_stmt(s: &Stmt) -> (r: u64)
    ensures
        r == cap(stmt_fns(s@)),
    decreases s,
{
    match s {
        Stmt::Expr(e) => count_expr(e),
        Stmt::Var(_, _, init) => count_opt(init),
        Stmt::FnDecl(d) => count_function(&d.function),
        Stmt::Class(c) => count_members(&c.members),
        Stmt::Return(e) => count_opt(e),
        Stmt::Block(b) => count_stmts(b),
        Stmt::If(c, th, el) => {
            let a = count_expr(c).saturating_add(count_stmt(th));
            let b = match el {
                Some(x) => count_stmt(x),
                None => 0,
            };
            a.saturating_add(b)
        },
        Stmt::Other(_, es, ls) => count_exprs(es).saturating_add(count_lists(ls)),
    }
}

fn count_lists(v: &Vec<Vec<Stmt>>) -> (r: u64)
    ensures
        r == cap(lists_fns(view_stmt_lists(v@))),
    decreases v,
{
    let ghost ms = view_stmt_lists(v@);
    proof { lemma_view_stmt_lists(v@); }
    let mut acc: u64 = 0;
    let mut i: usize = 0;
    while i < v.len()
        invariant
            ms == view_stmt_lists(v@),
            ms.len() == v@.len(),
            forall|j: int| 0 <= j < v@.len() ==> #[trigger] ms[j] == view_stmts(v@[j]@),
            0 <= i <= v.len(),
            acc == cap(lists_fns(ms.subrange(0, i as int))),
        decreases v.len() - i,
    {
        assert(ms.subrange(0, i + 1).drop_last() =~= ms.subrange(0, i as int));
        acc = acc.saturating_add(count_stmts(&v[i]));
        i = i + 1;
    }
    assert(ms.subrange(0, i as int) =~= ms);
    acc
}

fn count_stmts(v: &Vec<Stmt>) -> (r: u64)
    ensures
        r == cap(stmts_fns(view_stmts(v@))),
    decreases v,
{
    let ghost ms = view_stmts(v@);
    proof { lemma_view_stmts(v@); }
    let mut acc: u64 = 0;
    let mut i: usize = 0;
    while i < v.len()
        invariant
            ms == view_stmts(v@),
            ms.len() == v@.len(),
            forall|j: int| 0 <= j < v@.len() ==> #[trigger] ms[j] == view_stmt(v@[j]),
            0 <= i <= v.len(),
            acc == cap(stmts_fns(ms.subrange(0, i as int))),
        decreases v.len() - i,
    {
        assert(ms.subrange(0, i + 1).drop_last() =~= ms.subrange(0, i as int));
        acc = acc.saturating_add(count_stmt(&v[i]));
        i = i + 1;
    }
    assert(ms.subrange(0, i as int) =~= ms);
    acc
}

/// The number of function expressions and arrow functions of a module, or
/// `u64::MAX` if there are more.
pub fn names_bound(module: &Module) -> (r: u64)
    ensures
        r == cap(items_fns(module@)),
{
    let v = &module.body;
    let ghost ms = view_items(v@);
    let mut acc: u64 = 0;
    let mut i: usize = 0;
    while i < v.len()
        invariant
            v == &module.body,
            ms == view_items(v@),
            ms.len() == v@.len(),
            0 <= i <= v.len(),
            acc == cap(items_fns(ms.subrange(0, i as int))),
        decreases v.len() - i,
    {
        assert(ms.subrange(0, i + 1).drop_last() =~= ms.subrange(0, i as int));
        assert(ms[i as int] == view_item(v@[i as int]));
        let c = match &v[i] {
            ModuleItem::Stmt(s) => count_stmt(s),
            ModuleItem::Export(s) => count_stmt(s),
            ModuleItem::Opaque(_) => 0,
        };
        acc = acc.saturating_add(c);
        i = i + 1;
    }
    assert(ms.subrange(0, i as int) =~= ms);
    acc
}

/// Runs one pass over a module when its function expressions and arrow
/// functions are fewer than `u64::MAX`, so that the counter of generated names
/// cannot overflow; otherwise hands back `None`.
pub fn transform_bounded(module: Module) -> (r: Option<Module>)
    ensures
        items_fns(module@) < u64::MAX ==> r is Some && r->0@ == transform_items(module@),
        items_fns(module@) >= u64::MAX ==> r is None,
{
    let b = names_bound(&module);
    if b < u64::MAX {
        proof { names_used_bound(module@); }
        Some(transform(module))
    } else {
        None
    }
}

} // verus!
