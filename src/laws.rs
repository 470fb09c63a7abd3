//! Properties of the pass as a whole, stated over the model and proved.

use vstd::prelude::*;
use crate::ast::{
    SpecArrowBody, SpecArrowExpr, SpecClassMember, SpecClassMethod, SpecExpr, SpecFnDecl,
    SpecFnExpr, SpecFunction, SpecModuleItem, SpecProp, SpecStmt,
};
use crate::hoist::{
    as_items, hoist, insert_pos, item_insert_pos, lemma_hoist_items_nothing, lemma_hoist_nothing,
    lemma_insert_pos_bounds,
};
use crate::scan::{
    expr_has, exprs_have, lemma_return_has, lists_have, opt_has, props_have, stmt_has, stmts_have,
    Target,
};
use crate::transforms::{
    arrow_block, arrow_result, fn_decl_result, fn_expr_result, helper_name, method_function,
    spec_forwarding_decl, sync_function,
};
use crate::names::{ref_name, ref_names_distinct};
use crate::walker::{
    helper_stmts, names_used, transform_items, walk_arrow_body, walk_expr, walk_exprs, walk_function,
    walk_item, walk_items, walk_lists, walk_member, walk_members, walk_opt, walk_prop, walk_props,
    walk_stmt, walk_stmt_list,
};

verus! {

// ---------------------------------------------------------------------------
// A construct without a suspension point only loses its `async` flag.
// ---------------------------------------------------------------------------

/// An async function declaration without `await` becomes the same
/// declaration with the `async` flag cleared, and no helper is produced.
pub proof fn no_await_declaration(d: SpecFnDecl)
    requires
        d.function.is_async,
        d.function.body is Some,
        !stmts_have(d.function.body->0, Target::Await),
    ensures
        fn_decl_result(d) == (SpecFnDecl { ident: d.ident, function: sync_function(d.function) }, None::<SpecFnDecl>),
{
}

/// An async function expression without `await` becomes the same expression
/// with the `async` flag cleared; it is not replaced.
pub proof fn no_await_function_expression(f: SpecFnExpr, ref_name: Seq<char>)
    requires
        f.function.is_async,
        f.function.body is Some,
        !stmts_have(f.function.body->0, Target::Await),
    ensures
        fn_expr_result(f, ref_name) == (SpecFnExpr { ident: f.ident, function: sync_function(f.function) }, None::<SpecExpr>),
{
}

/// An async arrow function without `await` becomes the same arrow with the
/// `async` flag cleared; it is not replaced.
pub proof fn no_await_arrow(a: SpecArrowExpr, ref_name: Seq<char>)
    requires
        a.is_async,
        !stmts_have(arrow_block(a.body), Target::Await),
    ensures
        arrow_result(a, ref_name) == (SpecArrowExpr { params: a.params, body: a.body, is_async: false }, None::<SpecExpr>),
{
}

/// An async method without `await` keeps its parameters and body and only
/// loses the `async` flag.
pub proof fn no_await_method(f: SpecFunction)
    requires
        f.is_async,
        f.body is Some,
        !stmts_have(f.body->0, Target::Await),
    ensures
        method_function(f) == sync_function(f),
{
    reveal(method_function);
}

// ---------------------------------------------------------------------------
// Trees without async constructs
// ---------------------------------------------------------------------------

pub open spec fn function_sync(f: SpecFunction) -> bool
    decreases f,
{
    !f.is_async && match f.body {
        Some(b) => stmts_sync(b),
        None => true,
    }
}

/// Whether no function, arrow or method inside `e` is marked `async`.
pub open spec fn expr_sync(e: SpecExpr) -> bool
    decreases e,
{
    match e {
        SpecExpr::This => true,
        SpecExpr::Ident(_) => true,
        SpecExpr::Lit(_) => true,
        SpecExpr::Await(a) => expr_sync(*a),
        SpecExpr::Yield(a) => expr_sync(*a),
        SpecExpr::Member(o, _) => expr_sync(*o),
        SpecExpr::Call(c, args) => expr_sync(*c) && exprs_sync(args),
        SpecExpr::Assign(l, r) => expr_sync(*l) && expr_sync(*r),
        SpecExpr::Op(_, args) => exprs_sync(args),
        SpecExpr::Object(props) => props_sync(props),
        SpecExpr::Fn(f) => function_sync(f.function),
        SpecExpr::Arrow(a) => !a.is_async && arrow_body_sync(a.body),
    }
}

pub open spec fn arrow_body_sync(b: SpecArrowBody) -> bool
    decreases b,
{
    match b {
        SpecArrowBody::Block(s) => stmts_sync(s),
        SpecArrowBody::Expr(x) => expr_sync(*x),
    }
}

pub open spec fn exprs_sync(s: Seq<SpecExpr>) -> bool
    decreases s,
{
    s.len() == 0 || (exprs_sync(s.drop_last()) && expr_sync(s.last()))
}

pub open spec fn opt_sync(o: Option<SpecExpr>) -> bool
    decreases o,
{
    match o {
        Some(x) => expr_sync(x),
        None => true,
    }
}

pub open spec fn prop_sync(p: SpecProp) -> bool
    decreases p,
{
    match p {
        SpecProp::KeyValue(_, v) => expr_sync(v),
        SpecProp::Method(m) => function_sync(m.function),
    }
}

pub open spec fn props_sync(s: Seq<SpecProp>) -> bool
    decreases s,
{
    s.len() == 0 || (props_sync(s.drop_last()) && prop_sync(s.last()))
}

pub open spec fn member_sync(m: SpecClassMember) -> bool
    decreases m,
{
    match m {
        SpecClassMember::Method(cm) => function_sync(cm.function),
        SpecClassMember::Field(_, v) => opt_sync(v),
    }
}

pub open spec fn members_sync(s: Seq<SpecClassMember>) -> bool
    decreases s,
{
    s.len() == 0 || (members_sync(s.drop_last()) && member_sync(s.last()))
}

pub open spec fn stmt_sync(s: SpecStmt) -> bool
    decreases s,
{
    match s {
        SpecStmt::Expr(e) => expr_sync(e),
        SpecStmt::Var(_, _, init) => opt_sync(init),
        SpecStmt::FnDecl(d) => function_sync(d.function),
        SpecStmt::Class(c) => members_sync(c.members),
        SpecStmt::Return(e) => opt_sync(e),
        SpecStmt::Block(b) => stmts_sync(b),
        SpecStmt::If(c, th, el) => expr_sync(c) && stmt_sync(*th) && match el {
            Some(x) => stmt_sync(*x),
            None => true,
        },
        SpecStmt::Other(_, es, ls) => exprs_sync(es) && lists_sync(ls),
    }
}

pub open spec fn lists_sync(s: Seq<Seq<SpecStmt>>) -> bool
    decreases s,
{
    s.len() == 0 || (lists_sync(s.drop_last()) && stmts_sync(s.last()))
}

pub open spec fn stmts_sync(s: Seq<SpecStmt>) -> bool
    decreases s,
{
    s.len() == 0 || (stmts_sync(s.drop_last()) && stmt_sync(s.last()))
}

pub open spec fn item_sync(i: SpecModuleItem) -> bool {
    match i {
        SpecModuleItem::Stmt(s) => stmt_sync(s),
        SpecModuleItem::Export(s) => stmt_sync(s),
        SpecModuleItem::Opaque(_) => true,
    }
}

/// Whether no construct of a module is marked `async`.
pub open spec fn items_sync(s: Seq<SpecModuleItem>) -> bool
    decreases s.len(),
{
    s.len() == 0 || (items_sync(s.drop_last()) && item_sync(s.last()))
}

// ---------------------------------------------------------------------------
// On such trees every walker is the identity.
// ---------------------------------------------------------------------------

proof fn lemma_walk_function_id(f: SpecFunction, n: nat)
    requires
        function_sync(f),
    ensures
        walk_function(f, n).0 == f,
        walk_function(f, n).1 == 0,
    decreases f,
{
    match f.body {
        Some(b) => {
            lemma_walk_stmt_list_id(b, n);
            lemma_hoist_nothing(b);
        },
        None => {},
    }
}

proof fn lemma_walk_expr_id(e: SpecExpr, n: nat)
    requires
        expr_sync(e),
    ensures
        walk_expr(e, n).0 == e,
        walk_expr(e, n).1 == 0,
    decreases e,
{
    match e {
        SpecExpr::Await(a) => lemma_walk_expr_id(*a, n),
        SpecExpr::Yield(a) => lemma_walk_expr_id(*a, n),
        SpecExpr::Member(o, _) => lemma_walk_expr_id(*o, n),
        SpecExpr::Call(c, args) => {
            lemma_walk_expr_id(*c, n);
            lemma_walk_exprs_id(args, n);
        },
        SpecExpr::Assign(l, r) => {
            lemma_walk_expr_id(*l, n);
            lemma_walk_expr_id(*r, n);
        },
        SpecExpr::Op(_, args) => lemma_walk_exprs_id(args, n),
        SpecExpr::Object(props) => lemma_walk_props_id(props, n),
        SpecExpr::Fn(f) => {
            lemma_walk_function_id(f.function, n);
            let fe = SpecFnExpr { ident: f.ident, function: walk_function(f.function, n).0 };
            assert(fe == f);
            assert(function_sync(f.function));
            assert(!fe.function.is_async);
            assert(fn_expr_result(fe, ref_name(n)) == (fe, None::<SpecExpr>));
        },
        SpecExpr::Arrow(a) => {
            lemma_walk_arrow_body_id(a.body, n);
            let ae = SpecArrowExpr { params: a.params, body: walk_arrow_body(a.body, n).0, is_async: a.is_async };
            assert(ae == a);
            assert(arrow_result(ae, ref_name(n)) == (ae, None::<SpecExpr>));
        },
        _ => {},
    }
}

proof fn lemma_walk_arrow_body_id(b: SpecArrowBody, n: nat)
    requires
        arrow_body_sync(b),
    ensures
        walk_arrow_body(b, n).0 == b,
        walk_arrow_body(b, n).1 == 0,
    decreases b,
{
    match b {
        SpecArrowBody::Block(s) => {
            lemma_walk_stmt_list_id(s, n);
            lemma_hoist_nothing(s);
        },
        SpecArrowBody::Expr(x) => lemma_walk_expr_id(*x, n),
    }
}

proof fn lemma_walk_exprs_id(s: Seq<SpecExpr>, n: nat)
    requires
        exprs_sync(s),
    ensures
        walk_exprs(s, n).0 == s,
        walk_exprs(s, n).1 == 0,
    decreases s,
{
    if s.len() > 0 {
        lemma_walk_exprs_id(s.drop_last(), n);
        lemma_walk_expr_id(s.last(), n);
        assert(s.drop_last().push(s.last()) =~= s);
    }
}

proof fn lemma_walk_opt_id(o: Option<SpecExpr>, n: nat)
    requires
        opt_sync(o),
    ensures
        walk_opt(o, n).0 == o,
        walk_opt(o, n).1 == 0,
    decreases o,
{
    match o {
        Some(x) => lemma_walk_expr_id(x, n),
        None => {},
    }
}

proof fn lemma_walk_prop_id(p: SpecProp, n: nat)
    requires
        prop_sync(p),
    ensures
        walk_prop(p, n).0 == p,
        walk_prop(p, n).1 == 0,
    decreases p,
{
    match p {
        SpecProp::KeyValue(_, v) => lemma_walk_expr_id(v, n),
        SpecProp::Method(m) => {
            lemma_walk_function_id(m.function, n);
            reveal(method_function);
        },
    }
}

proof fn lemma_walk_props_id(s: Seq<SpecProp>, n: nat)
    requires
        props_sync(s),
    ensures
        walk_props(s, n).0 == s,
        walk_props(s, n).1 == 0,
    decreases s,
{
    if s.len() > 0 {
        lemma_walk_props_id(s.drop_last(), n);
        lemma_walk_prop_id(s.last(), n);
        assert(s.drop_last().push(s.last()) =~= s);
    }
}

proof fn lemma_walk_member_id(m: SpecClassMember, n: nat)
    requires
        member_sync(m),
    ensures
        walk_member(m, n).0 == m,
        walk_member(m, n).1 == 0,
    decreases m,
{
    reveal(walk_member);
    match m {
        SpecClassMember::Method(cm) => {
            lemma_walk_function_id(cm.function, n);
            reveal(method_function);
        },
        SpecClassMember::Field(_, v) => lemma_walk_opt_id(v, n),
    }
}

proof fn lemma_walk_members_id(s: Seq<SpecClassMember>, n: nat)
    requires
        members_sync(s),
    ensures
        walk_members(s, n).0 == s,
        walk_members(s, n).1 == 0,
    decreases s,
{
    reveal(walk_member);
    if s.len() > 0 {
        lemma_walk_members_id(s.drop_last(), n);
        lemma_walk_member_id(s.last(), n);
        assert(s.drop_last().push(s.last()) =~= s);
    }
}

proof fn lemma_walk_stmt_id(s: SpecStmt, n: nat)
    requires
        stmt_sync(s),
    ensures
        walk_stmt(s, n).0 == s,
        walk_stmt(s, n).1 == 0,
        walk_stmt(s, n).2 == Seq::<SpecStmt>::empty(),
    decreases s,
{
    match s {
        SpecStmt::Expr(e) => lemma_walk_expr_id(e, n),
        SpecStmt::Var(_, _, init) => lemma_walk_opt_id(init, n),
        SpecStmt::FnDecl(d) => {
            lemma_walk_function_id(d.function, n);
            let d2 = SpecFnDecl { ident: d.ident, function: walk_function(d.function, n).0 };
            assert(d2 == d);
            assert(function_sync(d.function));
            assert(!d2.function.is_async);
            assert(fn_decl_result(d2) == (d2, None::<SpecFnDecl>));
            assert(helper_stmts(None) =~= Seq::<SpecStmt>::empty());
        },
        SpecStmt::Class(c) => lemma_walk_members_id(c.members, n),
        SpecStmt::Return(e) => lemma_walk_opt_id(e, n),
        SpecStmt::Block(b) => {
            lemma_walk_stmt_list_id(b, n);
            lemma_hoist_nothing(b);
        },
        SpecStmt::If(c, th, el) => {
            lemma_walk_expr_id(c, n);
            lemma_walk_stmt_id(*th, n);
            match el {
                Some(x) => {
                    lemma_walk_stmt_id(*x, n);
                    assert(Seq::<SpecStmt>::empty() + Seq::empty() =~= Seq::<SpecStmt>::empty());
                },
                None => {},
            }
        },
        SpecStmt::Other(_, es, ls) => {
            lemma_walk_exprs_id(es, n);
            lemma_walk_lists_id(ls, n);
        },
    }
}

proof fn lemma_walk_lists_id(s: Seq<Seq<SpecStmt>>, n: nat)
    requires
        lists_sync(s),
    ensures
        walk_lists(s, n).0 == s,
        walk_lists(s, n).1 == 0,
    decreases s,
{
    if s.len() > 0 {
        lemma_walk_lists_id(s.drop_last(), n);
        lemma_walk_stmt_list_id(s.last(), n);
        lemma_hoist_nothing(s.last());
        assert(s.drop_last().push(s.last()) =~= s);
    }
}

proof fn lemma_walk_stmt_list_id(s: Seq<SpecStmt>, n: nat)
    requires
        stmts_sync(s),
    ensures
        walk_stmt_list(s, n).0 == s,
        walk_stmt_list(s, n).1 == 0,
        walk_stmt_list(s, n).2 == Seq::<SpecStmt>::empty(),
    decreases s,
{
    if s.len() > 0 {
        lemma_walk_stmt_list_id(s.drop_last(), n);
        lemma_walk_stmt_id(s.last(), n);
        assert(s.drop_last().push(s.last()) =~= s);
        assert(Seq::<SpecStmt>::empty() + Seq::empty() =~= Seq::<SpecStmt>::empty());
    }
}

proof fn lemma_walk_items_id(s: Seq<SpecModuleItem>, n: nat)
    requires
        items_sync(s),
    ensures
        walk_items(s, n).0 == s,
        walk_items(s, n).1 == 0,
        walk_items(s, n).2 == Seq::<SpecStmt>::empty(),
    decreases s.len(),
{
    if s.len() > 0 {
        lemma_walk_items_id(s.drop_last(), n);
        match s.last() {
            SpecModuleItem::Stmt(x) => lemma_walk_stmt_id(x, n),
            SpecModuleItem::Export(x) => lemma_walk_stmt_id(x, n),
            SpecModuleItem::Opaque(_) => {},
        }
        assert(walk_item(s.last(), n).0 == s.last());
        assert(s.drop_last().push(s.last()) =~= s);
        assert(Seq::<SpecStmt>::empty() + Seq::empty() =~= Seq::<SpecStmt>::empty());
    }
}

/// On a module without async constructs the pass changes nothing; so running
/// it twice gives exactly what running it once gives.
pub proof fn transform_idempotent_without_async(items: Seq<SpecModuleItem>)
    requires
        items_sync(items),
    ensures
        transform_items(items) == items,
        transform_items(transform_items(items)) == transform_items(items),
{
    lemma_walk_items_id(items, 0);
    lemma_hoist_items_nothing(items);
}

// ---------------------------------------------------------------------------
// The pass keeps whether a body holds a suspension point.
// ---------------------------------------------------------------------------

pub open spec fn all_fn_decls(s: Seq<SpecStmt>) -> bool {
    forall|i: int| 0 <= i < s.len() ==> (#[trigger] s[i]) is FnDecl
}

proof fn lemma_stmts_have_concat(a: Seq<SpecStmt>, b: Seq<SpecStmt>)
    ensures
        stmts_have(a + b, Target::Await) == (stmts_have(a, Target::Await) || stmts_have(b, Target::Await)),
    decreases b.len(),
{
    if b.len() == 0 {
        assert(a + b =~= a);
    } else {
        lemma_stmts_have_concat(a, b.drop_last());
        assert((a + b).drop_last() =~= a + b.drop_last());
        assert((a + b).last() == b.last());
    }
}

proof fn lemma_fn_decls_have_none(s: Seq<SpecStmt>)
    requires
        all_fn_decls(s),
    ensures
        !stmts_have(s, Target::Await),
    decreases s.len(),
{
    if s.len() > 0 {
        assert(all_fn_decls(s.drop_last()));
        lemma_fn_decls_have_none(s.drop_last());
        assert(s[s.len() - 1] is FnDecl);
        assert(!stmt_has(s.last(), Target::Await));
    }
}

proof fn lemma_hoist_keeps_await(out: Seq<SpecStmt>, hs: Seq<SpecStmt>)
    requires
        all_fn_decls(hs),
    ensures
        stmts_have(hoist(out, hs), Target::Await) == stmts_have(out, Target::Await),
{
    let k = insert_pos(out);
    lemma_insert_pos_bounds(out);
    let a = out.subrange(0, k);
    let b = out.subrange(k, out.len() as int);
    lemma_fn_decls_have_none(hs);
    lemma_stmts_have_concat(a, hs);
    lemma_stmts_have_concat(a + hs, b);
    lemma_stmts_have_concat(a, b);
    assert(a + b =~= out);
}

proof fn lemma_walk_function_keeps_await(f: SpecFunction, n: nat)
    ensures
        walk_function(f, n).0.body is Some <==> f.body is Some,
        f.body is Some ==> stmts_have(walk_function(f, n).0.body->0, Target::Await) == stmts_have(
            f.body->0,
            Target::Await,
        ),
    decreases f,
{
    match f.body {
        Some(b) => {
            lemma_walk_stmt_list_keeps_await(b, n);
            let r = walk_stmt_list(b, n);
            lemma_hoist_keeps_await(r.0, r.2);
        },
        None => {},
    }
}

proof fn lemma_walk_expr_keeps_await(e: SpecExpr, n: nat)
    ensures
        expr_has(walk_expr(e, n).0, Target::Await) == expr_has(e, Target::Await),
    decreases e,
{
    let t = Target::Await;
    match e {
        SpecExpr::Await(a) => lemma_walk_expr_keeps_await(*a, n),
        SpecExpr::Yield(a) => lemma_walk_expr_keeps_await(*a, n),
        SpecExpr::Member(o, _) => lemma_walk_expr_keeps_await(*o, n),
        SpecExpr::Call(c, args) => {
            lemma_walk_expr_keeps_await(*c, n);
            lemma_walk_exprs_keeps_await(args, n + walk_expr(*c, n).1);
        },
        SpecExpr::Assign(l, r) => {
            lemma_walk_expr_keeps_await(*l, n);
            lemma_walk_expr_keeps_await(*r, n + walk_expr(*l, n).1);
        },
        SpecExpr::Op(_, args) => lemma_walk_exprs_keeps_await(args, n),
        SpecExpr::Object(props) => lemma_walk_props_keeps_await(props, n),
        SpecExpr::Fn(f) => {
            let rf = walk_function(f.function, n);
            let fe = SpecFnExpr { ident: f.ident, function: rf.0 };
            let w = fn_expr_result(fe, ref_name(n + rf.1));
            match w.1 {
                Some(x) => {
                    assert(x is Call);
                    assert(!expr_has(*x->Call_0, t));
                    assert(x->Call_1 =~= Seq::<SpecExpr>::empty());
                    assert(!exprs_have(x->Call_1, t));
                },
                None => {},
            }
        },
        SpecExpr::Arrow(a) => {
            let rb = walk_arrow_body(a.body, n);
            let ae = SpecArrowExpr { params: a.params, body: rb.0, is_async: a.is_async };
            let w = arrow_result(ae, ref_name(n + rb.1));
            match w.1 {
                Some(x) => {
                    assert(x is Call);
                    assert(!expr_has(*x->Call_0, t));
                    let args = x->Call_1;
                    if args.len() > 0 {
                        assert(args =~= seq![SpecExpr::This]);
                        assert(args.drop_last() =~= Seq::<SpecExpr>::empty());
                        assert(!exprs_have(args.drop_last(), t));
                        assert(!expr_has(args.last(), t));
                    } else {
                        assert(args =~= Seq::<SpecExpr>::empty());
                    }
                    assert(!exprs_have(args, t));
                },
                None => {},
            }
        },
        _ => {},
    }
}

proof fn lemma_walk_exprs_keeps_await(s: Seq<SpecExpr>, n: nat)
    ensures
        exprs_have(walk_exprs(s, n).0, Target::Await) == exprs_have(s, Target::Await),
    decreases s,
{
    if s.len() > 0 {
        lemma_walk_exprs_keeps_await(s.drop_last(), n);
        let p = walk_exprs(s.drop_last(), n);
        lemma_walk_expr_keeps_await(s.last(), n + p.1);
        assert(walk_exprs(s, n).0.drop_last() =~= p.0);
    }
}

proof fn lemma_walk_opt_keeps_await(o: Option<SpecExpr>, n: nat)
    ensures
        opt_has(walk_opt(o, n).0, Target::Await) == opt_has(o, Target::Await),
    decreases o,
{
    match o {
        Some(x) => lemma_walk_expr_keeps_await(x, n),
        None => {},
    }
}

proof fn lemma_walk_props_keeps_await(s: Seq<SpecProp>, n: nat)
    ensures
        props_have(walk_props(s, n).0, Target::Await) == props_have(s, Target::Await),
    decreases s,
{
    if s.len() > 0 {
        lemma_walk_props_keeps_await(s.drop_last(), n);
        let p = walk_props(s.drop_last(), n);
        let l = walk_prop(s.last(), n + p.1);
        match s.last() {
            SpecProp::KeyValue(k, v) => {
                lemma_walk_expr_keeps_await(v, n + p.1);
                assert(l.0 == SpecProp::KeyValue(k, walk_expr(v, n + p.1).0));
            },
            SpecProp::Method(_) => {
                assert(l.0 is Method);
            },
        }
        assert(walk_props(s, n).0.drop_last() =~= p.0);
        assert(walk_props(s, n).0.last() == l.0);
    }
}

proof fn lemma_walk_stmt_keeps_await(s: SpecStmt, n: nat)
    ensures
        stmt_has(walk_stmt(s, n).0, Target::Await) == stmt_has(s, Target::Await),
        all_fn_decls(walk_stmt(s, n).2),
    decreases s,
{
    match s {
        SpecStmt::Expr(e) => lemma_walk_expr_keeps_await(e, n),
        SpecStmt::Var(_, _, init) => lemma_walk_opt_keeps_await(init, n),
        SpecStmt::FnDecl(d) => {},
        SpecStmt::Class(_) => {},
        SpecStmt::Return(e) => lemma_walk_opt_keeps_await(e, n),
        SpecStmt::Block(b) => {
            lemma_walk_stmt_list_keeps_await(b, n);
            let r = walk_stmt_list(b, n);
            lemma_hoist_keeps_await(r.0, r.2);
        },
        SpecStmt::If(c, th, el) => {
            lemma_walk_expr_keeps_await(c, n);
            let rc = walk_expr(c, n);
            lemma_walk_stmt_keeps_await(*th, n + rc.1);
            let rt = walk_stmt(*th, n + rc.1);
            match el {
                Some(x) => {
                    lemma_walk_stmt_keeps_await(*x, n + rc.1 + rt.1);
                    let re = walk_stmt(*x, n + rc.1 + rt.1);
                    assert forall|i: int| 0 <= i < (rt.2 + re.2).len() implies (#[trigger] (rt.2
                        + re.2)[i]) is FnDecl by {
                        if i >= rt.2.len() {
                            assert((rt.2 + re.2)[i] == re.2[i - rt.2.len()]);
                        }
                    }
                },
                None => {},
            }
        },
        SpecStmt::Other(_, es, ls) => {
            lemma_walk_exprs_keeps_await(es, n);
            lemma_walk_lists_keeps_await(ls, n + walk_exprs(es, n).1);
        },
    }
}

proof fn lemma_walk_lists_keeps_await(s: Seq<Seq<SpecStmt>>, n: nat)
    ensures
        lists_have(walk_lists(s, n).0, Target::Await) == lists_have(s, Target::Await),
    decreases s,
{
    if s.len() > 0 {
        lemma_walk_lists_keeps_await(s.drop_last(), n);
        let p = walk_lists(s.drop_last(), n);
        lemma_walk_stmt_list_keeps_await(s.last(), n + p.1);
        let l = walk_stmt_list(s.last(), n + p.1);
        lemma_hoist_keeps_await(l.0, l.2);
        assert(walk_lists(s, n).0.drop_last() =~= p.0);
    }
}

proof fn lemma_walk_stmt_list_keeps_await(s: Seq<SpecStmt>, n: nat)
    ensures
        stmts_have(walk_stmt_list(s, n).0, Target::Await) == stmts_have(s, Target::Await),
        all_fn_decls(walk_stmt_list(s, n).2),
    decreases s,
{
    if s.len() > 0 {
        lemma_walk_stmt_list_keeps_await(s.drop_last(), n);
        let p = walk_stmt_list(s.drop_last(), n);
        lemma_walk_stmt_keeps_await(s.last(), n + p.1);
        let l = walk_stmt(s.last(), n + p.1);
        assert(walk_stmt_list(s, n).0.drop_last() =~= p.0);
        assert forall|i: int| 0 <= i < (p.2 + l.2).len() implies (#[trigger] (p.2 + l.2)[i]) is FnDecl by {
            if i >= p.2.len() {
                assert((p.2 + l.2)[i] == l.2[i - p.2.len()]);
            }
        }
    }
}

/// A module whose only statement is an async declaration `foo` with a
/// suspension point comes out as exactly two function declarations: `foo`,
/// which forwards to the helper, and right after it the helper `_foo`.
pub proof fn single_async_declaration_layout(d: SpecFnDecl)
    requires
        d.function.is_async,
        d.function.body is Some,
        stmts_have(d.function.body->0, Target::Await),
    ensures
        ({
            let out = transform_items(seq![SpecModuleItem::Stmt(SpecStmt::FnDecl(d))]);
            &&& out.len() == 2
            &&& out[0] == SpecModuleItem::Stmt(SpecStmt::FnDecl(spec_forwarding_decl(d.ident)))
            &&& out[1] matches SpecModuleItem::Stmt(SpecStmt::FnDecl(h))
            &&& out[1]->Stmt_0->FnDecl_0.ident == helper_name(d.ident)
        }),
{
    let items = seq![SpecModuleItem::Stmt(SpecStmt::FnDecl(d))];
    lemma_walk_function_keeps_await(d.function, 0);
    let rf = walk_function(d.function, 0);
    let d2 = SpecFnDecl { ident: d.ident, function: rf.0 };
    let t = fn_decl_result(d2);
    assert(t.1 is Some);
    assert(items.drop_last() =~= Seq::<SpecModuleItem>::empty());
    let w = walk_items(items, 0);
    let p0 = walk_items(items.drop_last(), 0);
    assert(p0.0 =~= Seq::<SpecModuleItem>::empty());
    assert(p0.1 == 0);
    assert(p0.2 =~= Seq::<SpecStmt>::empty());
    let ws = walk_stmt(SpecStmt::FnDecl(d), 0);
    assert(ws.0 == SpecStmt::FnDecl(t.0));
    assert(ws.2 == helper_stmts(t.1));
    assert(helper_stmts(t.1) =~= seq![SpecStmt::FnDecl(t.1->0)]);
    assert(items.last() == SpecModuleItem::Stmt(SpecStmt::FnDecl(d)));
    assert(walk_item(items.last(), 0).0 == SpecModuleItem::Stmt(ws.0));
    assert(walk_item(items.last(), 0).2 == ws.2);
    assert(w.0 =~= seq![SpecModuleItem::Stmt(SpecStmt::FnDecl(t.0))]);
    assert(w.2 =~= seq![SpecStmt::FnDecl(t.1->0)]);
    assert(w.0.drop_last() =~= Seq::<SpecModuleItem>::empty());
    assert(item_insert_pos(w.0) == 1);
    assert(as_items(w.2) =~= seq![SpecModuleItem::Stmt(SpecStmt::FnDecl(t.1->0))]);
    assert(transform_items(items) =~= seq![
        SpecModuleItem::Stmt(SpecStmt::FnDecl(t.0)),
        SpecModuleItem::Stmt(SpecStmt::FnDecl(t.1->0)),
    ]);
}

// ---------------------------------------------------------------------------
// The same, for the whole walk over a construct.
// ---------------------------------------------------------------------------

/// The walk over an async function expression whose body has no `await` and
/// no async construct gives the same expression with only the `async` flag
/// cleared, and uses no generated name.
pub proof fn walk_no_await_function_expression(f: SpecFnExpr, n: nat)
    requires
        f.function.is_async,
        f.function.body is Some,
        stmts_sync(f.function.body->0),
        !stmts_have(f.function.body->0, Target::Await),
    ensures
        walk_expr(SpecExpr::Fn(f), n).0 == SpecExpr::Fn(
            SpecFnExpr { ident: f.ident, function: sync_function(f.function) },
        ),
        walk_expr(SpecExpr::Fn(f), n).1 == 0,
{
    let b = f.function.body->0;
    lemma_walk_stmt_list_id(b, n);
    lemma_hoist_nothing(b);
    let rf = walk_function(f.function, n);
    assert(rf.0 == f.function);
    assert(rf.1 == 0);
    let fe = SpecFnExpr { ident: f.ident, function: rf.0 };
    assert(fe == f);
}

/// The walk over an async arrow function whose body has no `await` and no
/// async construct gives the same arrow with only the `async` flag cleared,
/// and uses no generated name.
pub proof fn walk_no_await_arrow(a: SpecArrowExpr, n: nat)
    requires
        a.is_async,
        arrow_body_sync(a.body),
        !stmts_have(arrow_block(a.body), Target::Await),
    ensures
        walk_expr(SpecExpr::Arrow(a), n).0 == SpecExpr::Arrow(
            SpecArrowExpr { params: a.params, body: a.body, is_async: false },
        ),
        walk_expr(SpecExpr::Arrow(a), n).1 == 0,
{
    lemma_walk_arrow_body_id(a.body, n);
    let ae = SpecArrowExpr { params: a.params, body: walk_arrow_body(a.body, n).0, is_async: a.is_async };
    assert(ae == a);
}

/// The walk over an async function declaration whose body has no `await` and
/// no async construct gives the same declaration with only the `async` flag
/// cleared, records no helper and uses no generated name.
pub proof fn walk_no_await_declaration(d: SpecFnDecl, n: nat)
    requires
        d.function.is_async,
        d.function.body is Some,
        stmts_sync(d.function.body->0),
        !stmts_have(d.function.body->0, Target::Await),
    ensures
        walk_stmt(SpecStmt::FnDecl(d), n).0 == SpecStmt::FnDecl(
            SpecFnDecl { ident: d.ident, function: sync_function(d.function) },
        ),
        walk_stmt(SpecStmt::FnDecl(d), n).1 == 0,
        walk_stmt(SpecStmt::FnDecl(d), n).2 == Seq::<SpecStmt>::empty(),
{
    let b = d.function.body->0;
    lemma_walk_stmt_list_id(b, n);
    lemma_hoist_nothing(b);
    let rf = walk_function(d.function, n);
    assert(rf.0 == d.function);
    let d2 = SpecFnDecl { ident: d.ident, function: rf.0 };
    assert(d2 == d);
    assert(helper_stmts(None) =~= Seq::<SpecStmt>::empty());
}

/// The walk over an async class method whose body has no `await` and no
/// async construct keeps the method with only the `async` flag cleared.
pub proof fn walk_no_await_class_method(m: SpecClassMethod, n: nat)
    requires
        m.function.is_async,
        m.function.body is Some,
        stmts_sync(m.function.body->0),
        !stmts_have(m.function.body->0, Target::Await),
    ensures
        walk_member(SpecClassMember::Method(m), n).0 == SpecClassMember::Method(
            SpecClassMethod {
                key: m.key,
                kind: m.kind,
                is_static: m.is_static,
                function: sync_function(m.function),
            },
        ),
        walk_member(SpecClassMember::Method(m), n).1 == 0,
{
    reveal(walk_member);
    reveal(method_function);
    let b = m.function.body->0;
    lemma_walk_stmt_list_id(b, n);
    lemma_hoist_nothing(b);
    assert(walk_function(m.function, n).0 == m.function);
}

// ---------------------------------------------------------------------------
// Which constructs take a generated name
// ---------------------------------------------------------------------------

/// 1 for an async function with a body that has a suspension point.
pub open spec fn replaced_fn(f: SpecFunction) -> nat {
    if f.is_async && f.body is Some && stmts_have(f.body->0, Target::Await) {
        1
    } else {
        0
    }
}

/// 1 for an async arrow whose body has a suspension point.
pub open spec fn replaced_arrow(a: SpecArrowExpr) -> nat {
    if a.is_async && stmts_have(arrow_block(a.body), Target::Await) {
        1
    } else {
        0
    }
}

pub open spec fn function_replaced(f: SpecFunction) -> nat
    decreases f,
{
    match f.body {
        Some(b) => stmts_replaced(b),
        None => 0,
    }
}

/// The number of function expressions and arrow functions in `e` that the
/// pass replaces by a wrapper.
pub open spec fn expr_replaced(e: SpecExpr) -> nat
    decreases e,
{
    match e {
        SpecExpr::This => 0,
        SpecExpr::Ident(_) => 0,
        SpecExpr::Lit(_) => 0,
        SpecExpr::Await(a) => expr_replaced(*a),
        SpecExpr::Yield(a) => expr_replaced(*a),
        SpecExpr::Member(o, _) => expr_replaced(*o),
        SpecExpr::Call(c, args) => expr_replaced(*c) + exprs_replaced(args),
        SpecExpr::Assign(l, r) => expr_replaced(*l) + expr_replaced(*r),
        SpecExpr::Op(_, args) => exprs_replaced(args),
        SpecExpr::Object(props) => props_replaced(props),
        SpecExpr::Fn(f) => function_replaced(f.function) + replaced_fn(f.function),
        SpecExpr::Arrow(a) => arrow_body_replaced(a.body) + replaced_arrow(a),
    }
}

pub open spec fn arrow_body_replaced(b: SpecArrowBody) -> nat
    decreases b,
{
    match b {
        SpecArrowBody::Block(s) => stmts_replaced(s),
        SpecArrowBody::Expr(x) => expr_replaced(*x),
    }
}

pub open spec fn exprs_replaced(s: Seq<SpecExpr>) -> nat
    decreases s,
{
    if s.len() == 0 {
        0
    } else {
        exprs_replaced(s.drop_last()) + expr_replaced(s.last())
    }
}

pub open spec fn opt_replaced(o: Option<SpecExpr>) -> nat
    decreases o,
{
    match o {
        Some(x) => expr_replaced(x),
        None => 0,
    }
}

pub open spec fn props_replaced(s: Seq<SpecProp>) -> nat
    decreases s,
{
    if s.len() == 0 {
        0
    } else {
        props_replaced(s.drop_last()) + match s.last() {
            SpecProp::KeyValue(_, v) => expr_replaced(v),
            SpecProp::Method(m) => function_replaced(m.function),
        }
    }
}

pub open spec fn members_replaced(s: Seq<SpecClassMember>) -> nat
    decreases s,
{
    if s.len() == 0 {
        0
    } else {
        members_replaced(s.drop_last()) + match s.last() {
            SpecClassMember::Method(cm) => function_replaced(cm.function),
            SpecClassMember::Field(_, v) => opt_replaced(v),
        }
    }
}

pub open spec fn stmt_replaced(s: SpecStmt) -> nat
    decreases s,
{
    match s {
        SpecStmt::Expr(e) => expr_replaced(e),
        SpecStmt::Var(_, _, init) => opt_replaced(init),
        SpecStmt::FnDecl(d) => function_replaced(d.function),
        SpecStmt::Class(c) => members_replaced(c.members),
        SpecStmt::Return(e) => opt_replaced(e),
        SpecStmt::Block(b) => stmts_replaced(b),
        SpecStmt::If(c, th, el) => expr_replaced(c) + stmt_replaced(*th) + match el {
            Some(x) => stmt_replaced(*x),
            None => 0,
        },
        SpecStmt::Other(_, es, ls) => exprs_replaced(es) + lists_replaced(ls),
    }
}

pub open spec fn stmts_replaced(s: Seq<SpecStmt>) -> nat
    decreases s,
{
    if s.len() == 0 {
        0
    } else {
        stmts_replaced(s.drop_last()) + stmt_replaced(s.last())
    }
}

pub open spec fn lists_replaced(s: Seq<Seq<SpecStmt>>) -> nat
    decreases s,
{
    if s.len() == 0 {
        0
    } else {
        lists_replaced(s.drop_last()) + stmts_replaced(s.last())
    }
}

pub open spec fn item_replaced(i: SpecModuleItem) -> nat {
    match i {
        SpecModuleItem::Stmt(s) => stmt_replaced(s),
        SpecModuleItem::Export(s) => stmt_replaced(s),
        SpecModuleItem::Opaque(_) => 0,
    }
}

/// The number of function expressions and arrow functions of a module that
/// the pass replaces by a wrapper.
pub open spec fn items_replaced(s: Seq<SpecModuleItem>) -> nat
    decreases s.len(),
{
    if s.len() == 0 {
        0
    } else {
        items_replaced(s.drop_last()) + item_replaced(s.last())
    }
}

proof fn lemma_arrow_body_keeps_await(b: SpecArrowBody, n: nat)
    ensures
        stmts_have(arrow_block(walk_arrow_body(b, n).0), Target::Await) == stmts_have(
            arrow_block(b),
            Target::Await,
        ),
{
    match b {
        SpecArrowBody::Block(s) => {
            lemma_walk_stmt_list_keeps_await(s, n);
            let r = walk_stmt_list(s, n);
            lemma_hoist_keeps_await(r.0, r.2);
        },
        SpecArrowBody::Expr(x) => {
            lemma_walk_expr_keeps_await(*x, n);
            lemma_return_has(*x, Target::Await);
            lemma_return_has(walk_expr(*x, n).0, Target::Await);
        },
    }
}

proof fn lemma_count_function(f: SpecFunction, n: nat)
    ensures
        walk_function(f, n).1 == function_replaced(f),
    decreases f,
{
    match f.body {
        Some(b) => lemma_count_stmt_list(b, n),
        None => {},
    }
}

proof fn lemma_count_expr(e: SpecExpr, n: nat)
    ensures
        walk_expr(e, n).1 == expr_replaced(e),
    decreases e,
{
    match e {
        SpecExpr::Await(a) => lemma_count_expr(*a, n),
        SpecExpr::Yield(a) => lemma_count_expr(*a, n),
        SpecExpr::Member(o, _) => lemma_count_expr(*o, n),
        SpecExpr::Call(c, args) => {
            lemma_count_expr(*c, n);
            lemma_count_exprs(args, n + walk_expr(*c, n).1);
        },
        SpecExpr::Assign(l, r) => {
            lemma_count_expr(*l, n);
            lemma_count_expr(*r, n + walk_expr(*l, n).1);
        },
        SpecExpr::Op(_, args) => lemma_count_exprs(args, n),
        SpecExpr::Object(props) => lemma_count_props(props, n),
        SpecExpr::Fn(f) => {
            lemma_count_function(f.function, n);
            lemma_walk_function_keeps_await(f.function, n);
            let rf = walk_function(f.function, n);
            let fe = SpecFnExpr { ident: f.ident, function: rf.0 };
            let w = fn_expr_result(fe, ref_name(n + rf.1));
            assert(rf.0.is_async == f.function.is_async);
            assert(w.1 is Some <==> replaced_fn(f.function) == 1);
        },
        SpecExpr::Arrow(a) => {
            lemma_count_arrow_body(a.body, n);
            lemma_arrow_body_keeps_await(a.body, n);
            let rb = walk_arrow_body(a.body, n);
            let ae = SpecArrowExpr { params: a.params, body: rb.0, is_async: a.is_async };
            let w = arrow_result(ae, ref_name(n + rb.1));
            assert(w.1 is Some <==> replaced_arrow(a) == 1);
        },
        _ => {},
    }
}

proof fn lemma_count_arrow_body(b: SpecArrowBody, n: nat)
    ensures
        walk_arrow_body(b, n).1 == arrow_body_replaced(b),
    decreases b,
{
    match b {
        SpecArrowBody::Block(s) => lemma_count_stmt_list(s, n),
        SpecArrowBody::Expr(x) => lemma_count_expr(*x, n),
    }
}

proof fn lemma_count_exprs(s: Seq<SpecExpr>, n: nat)
    ensures
        walk_exprs(s, n).1 == exprs_replaced(s),
    decreases s,
{
    if s.len() > 0 {
        lemma_count_exprs(s.drop_last(), n);
        lemma_count_expr(s.last(), n + walk_exprs(s.drop_last(), n).1);
    }
}

proof fn lemma_count_opt(o: Option<SpecExpr>, n: nat)
    ensures
        walk_opt(o, n).1 == opt_replaced(o),
    decreases o,
{
    match o {
        Some(x) => lemma_count_expr(x, n),
        None => {},
    }
}

proof fn lemma_count_props(s: Seq<SpecProp>, n: nat)
    ensures
        walk_props(s, n).1 == props_replaced(s),
    decreases s,
{
    if s.len() > 0 {
        lemma_count_props(s.drop_last(), n);
        let m = n + walk_props(s.drop_last(), n).1;
        match s.last() {
            SpecProp::KeyValue(_, v) => lemma_count_expr(v, m),
            SpecProp::Method(f) => lemma_count_function(f.function, m),
        }
        assert(walk_prop(s.last(), m).1 == match s.last() {
            SpecProp::KeyValue(_, v) => expr_replaced(v),
            SpecProp::Method(f) => function_replaced(f.function),
        });
    }
}

proof fn lemma_count_members(s: Seq<SpecClassMember>, n: nat)
    ensures
        walk_members(s, n).1 == members_replaced(s),
    decreases s,
{
    reveal(walk_member);
    if s.len() > 0 {
        lemma_count_members(s.drop_last(), n);
        let m = n + walk_members(s.drop_last(), n).1;
        match s.last() {
            SpecClassMember::Method(cm) => lemma_count_function(cm.function, m),
            SpecClassMember::Field(_, v) => lemma_count_opt(v, m),
        }
        assert(walk_member(s.last(), m).1 == match s.last() {
            SpecClassMember::Method(cm) => function_replaced(cm.function),
            SpecClassMember::Field(_, v) => opt_replaced(v),
        });
    }
}

proof fn lemma_count_stmt(s: SpecStmt, n: nat)
    ensures
        walk_stmt(s, n).1 == stmt_replaced(s),
    decreases s,
{
    match s {
        SpecStmt::Expr(e) => lemma_count_expr(e, n),
        SpecStmt::Var(_, _, init) => lemma_count_opt(init, n),
        SpecStmt::FnDecl(d) => lemma_count_function(d.function, n),
        SpecStmt::Class(c) => lemma_count_members(c.members, n),
        SpecStmt::Return(e) => lemma_count_opt(e, n),
        SpecStmt::Block(b) => lemma_count_stmt_list(b, n),
        SpecStmt::If(c, th, el) => {
            lemma_count_expr(c, n);
            let n1 = n + walk_expr(c, n).1;
            lemma_count_stmt(*th, n1);
            match el {
                Some(x) => lemma_count_stmt(*x, n1 + walk_stmt(*th, n1).1),
                None => {},
            }
        },
        SpecStmt::Other(_, es, ls) => {
            lemma_count_exprs(es, n);
            lemma_count_lists(ls, n + walk_exprs(es, n).1);
        },
    }
}

proof fn lemma_count_stmt_list(s: Seq<SpecStmt>, n: nat)
    ensures
        walk_stmt_list(s, n).1 == stmts_replaced(s),
    decreases s,
{
    if s.len() > 0 {
        lemma_count_stmt_list(s.drop_last(), n);
        lemma_count_stmt(s.last(), n + walk_stmt_list(s.drop_last(), n).1);
    }
}

proof fn lemma_count_lists(s: Seq<Seq<SpecStmt>>, n: nat)
    ensures
        walk_lists(s, n).1 == lists_replaced(s),
    decreases s,
{
    if s.len() > 0 {
        lemma_count_lists(s.drop_last(), n);
        lemma_count_stmt_list(s.last(), n + walk_lists(s.drop_last(), n).1);
    }
}

proof fn lemma_count_items(s: Seq<SpecModuleItem>, n: nat)
    ensures
        walk_items(s, n).1 == items_replaced(s),
    decreases s.len(),
{
    if s.len() > 0 {
        lemma_count_items(s.drop_last(), n);
        let m = n + walk_items(s.drop_last(), n).1;
        match s.last() {
            SpecModuleItem::Stmt(x) => lemma_count_stmt(x, m),
            SpecModuleItem::Export(x) => lemma_count_stmt(x, m),
            SpecModuleItem::Opaque(_) => {},
        }
        assert(walk_item(s.last(), m).1 == item_replaced(s.last()));
    }
}

/// A pass hands out exactly one name per replaced function expression or
/// arrow function (a construct reduced to its synchronous form takes none),
/// namely `ref_name(0)`, ..., `ref_name(k - 1)` in the order the constructs
/// are finished, innermost first; these names are pairwise distinct.
pub proof fn pass_names(items: Seq<SpecModuleItem>)
    ensures
        names_used(items) == items_replaced(items),
        forall|i: nat, j: nat|
            i < names_used(items) && j < names_used(items) && i != j ==> #[trigger] ref_name(i)
                != #[trigger] ref_name(j),
{
    lemma_count_items(items, 0);
    assert forall|i: nat, j: nat|
        i < names_used(items) && j < names_used(items) && i != j implies #[trigger] ref_name(i)
            != #[trigger] ref_name(j) by {
        ref_names_distinct(i, j);
    }
}

} // verus!
