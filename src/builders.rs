//! Builders for the nodes that the rewritten forms are made of, each with the
//! model of the node it builds.

use vstd::prelude::*;
use crate::ast::{
    lemma_view_exprs_push, lemma_view_stmts_push, view_exprs, view_opt_expr, view_pats, view_stmts, Expr,
    FnDecl, FnExpr, Function, Pat, SpecExpr, SpecFnDecl, SpecFnExpr, SpecFunction, SpecPat,
    SpecStmt, Stmt, VarKind,
};
use crate::scan::this_name;

verus! {

/// The free identifier of the runtime helper that drives a generator.
pub open spec fn wrapper_name() -> Seq<char> {
    "_ngAsyncToGenerator"@
}

pub open spec fn spec_var_decl(name: Seq<char>, init: SpecExpr) -> SpecStmt {
    SpecStmt::Var(VarKind::Var, name, Some(init))
}

/// `var _this = this;`
pub open spec fn spec_this_capture() -> SpecStmt {
    spec_var_decl(this_name(), SpecExpr::This)
}

pub open spec fn spec_fn_expr(
    name: Option<Seq<char>>,
    params: Seq<SpecPat>,
    body: Seq<SpecStmt>,
    is_generator: bool,
) -> SpecExpr {
    SpecExpr::Fn(
        SpecFnExpr {
            ident: name,
            function: SpecFunction {
                params,
                body: Some(body),
                is_async: false,
                is_generator,
            },
        },
    )
}

pub open spec fn spec_generator_fn_expr(params: Seq<SpecPat>, body: Seq<SpecStmt>) -> SpecExpr {
    spec_fn_expr(None, params, body, true)
}

pub open spec fn spec_regular_fn_expr(name: Option<Seq<char>>, body: Seq<SpecStmt>) -> SpecExpr {
    spec_fn_expr(name, Seq::empty(), body, false)
}

pub open spec fn spec_fn_decl(name: Seq<char>, body: Seq<SpecStmt>) -> SpecFnDecl {
    SpecFnDecl {
        ident: name,
        function: SpecFunction {
            params: Seq::empty(),
            body: Some(body),
            is_async: false,
            is_generator: false,
        },
    }
}

/// `wrapper.apply(ctx, arguments)`
pub open spec fn spec_apply_with(wrapper: SpecExpr, ctx: SpecExpr) -> SpecExpr {
    SpecExpr::Call(
        Box::new(SpecExpr::Member(Box::new(wrapper), "apply"@)),
        seq![ctx, SpecExpr::Ident("arguments"@)],
    )
}

/// `wrapper.apply(this, arguments)`
pub open spec fn spec_apply_call(wrapper: SpecExpr) -> SpecExpr {
    spec_apply_with(wrapper, SpecExpr::This)
}

/// `wrapper.apply(_this, arguments)`
pub open spec fn spec_apply_call_with_captured_this(wrapper: SpecExpr) -> SpecExpr {
    spec_apply_with(wrapper, SpecExpr::Ident(this_name()))
}

/// `wrapper()`
pub open spec fn spec_immediate_call(wrapper: SpecExpr) -> SpecExpr {
    SpecExpr::Call(Box::new(wrapper), Seq::empty())
}

/// `_ngAsyncToGenerator(generator)`
pub open spec fn spec_ng_async_wrapper(generator: SpecExpr) -> SpecExpr {
    SpecExpr::Call(Box::new(SpecExpr::Ident(wrapper_name())), seq![generator])
}

/// `left = right`
pub open spec fn spec_assign_expr(left: Seq<char>, right: SpecExpr) -> SpecExpr {
    SpecExpr::Assign(Box::new(SpecExpr::Ident(left)), Box::new(right))
}

/// `(function () { stmts })()`
pub open spec fn spec_iife(stmts: Seq<SpecStmt>) -> SpecExpr {
    spec_immediate_call(spec_regular_fn_expr(None, stmts))
}

/// `(function (_this) { stmts })(this)`
pub open spec fn spec_iife_with_this_param(stmts: Seq<SpecStmt>) -> SpecExpr {
    SpecExpr::Call(
        Box::new(spec_fn_expr(None, seq![SpecPat::Ident(this_name())], stmts, false)),
        seq![SpecExpr::This],
    )
}

pub(crate) fn stmts1(a: Stmt) -> (r: Vec<Stmt>)
    ensures
        view_stmts(r@) == seq![a@],
{
    let mut v: Vec<Stmt> = Vec::new();
    proof { lemma_view_stmts_push(v@, a); }
    v.push(a);
    assert(view_stmts(v@) =~= seq![a@]);
    v
}

pub(crate) fn stmts2(a: Stmt, b: Stmt) -> (r: Vec<Stmt>)
    ensures
        view_stmts(r@) == seq![a@, b@],
{
    let mut v = stmts1(a);
    proof { lemma_view_stmts_push(v@, b); }
    v.push(b);
    assert(view_stmts(v@) =~= seq![a@, b@]);
    v
}

pub fn ident(name: &str) -> (r: Expr)
    ensures
        r@ == SpecExpr::Ident(name@),
{
    Expr::Ident(String::from_str(name))
}

pub fn binding_ident(name: &str) -> (r: Pat)
    ensures
        r@ == SpecPat::Ident(name@),
{
    Pat::Ident(String::from_str(name))
}

pub fn block(stmts: Vec<Stmt>) -> (r: Stmt)
    ensures
        r@ == SpecStmt::Block(view_stmts(stmts@)),
{
    Stmt::Block(stmts)
}

pub fn return_stmt(expr: Expr) -> (r: Stmt)
    ensures
        r@ == SpecStmt::Return(Some(expr@)),
{
    let r = Stmt::Return(Some(expr));
    assert(view_opt_expr(Some(expr)) == Some(expr@));
    r
}

pub fn expr_stmt(expr: Expr) -> (r: Stmt)
    ensures
        r@ == SpecStmt::Expr(expr@),
{
    Stmt::Expr(expr)
}

pub fn var_decl(name: &str, init: Expr) -> (r: Stmt)
    ensures
        r@ == spec_var_decl(name@, init@),
{
    let r = Stmt::Var(VarKind::Var, String::from_str(name), Some(init));
    assert(view_opt_expr(Some(init)) == Some(init@));
    r
}

pub fn this_capture() -> (r: Stmt)
    ensures
        r@ == spec_this_capture(),
{
    proof {
        reveal_strlit("_this");
        assert("_this"@ =~= this_name());
    }
    var_decl("_this", Expr::This)
}

pub fn fn_expr(name: Option<String>, params: Vec<Pat>, body: Vec<Stmt>, is_generator: bool) -> (r: Expr)
    ensures
        r@ == spec_fn_expr(
            match name {
                Some(n) => Some(n@),
                None => None,
            },
            view_pats(params@),
            view_stmts(body@),
            is_generator,
        ),
{
    let f = Function { params, body: Some(body), is_async: false, is_generator };
    assert(f@.body == Some(view_stmts(body@)));
    Expr::Fn(FnExpr { ident: name, function: f })
}

pub fn generator_fn_expr(params: Vec<Pat>, body: Vec<Stmt>) -> (r: Expr)
    ensures
        r@ == spec_generator_fn_expr(view_pats(params@), view_stmts(body@)),
{
    fn_expr(None, params, body, true)
}

pub fn regular_fn_expr(name: Option<String>, body: Vec<Stmt>) -> (r: Expr)
    ensures
        r@ == spec_regular_fn_expr(
            match name {
                Some(n) => Some(n@),
                None => None,
            },
            view_stmts(body@),
        ),
{
    let params: Vec<Pat> = Vec::new();
    assert(view_pats(params@) =~= Seq::empty());
    fn_expr(name, params, body, false)
}

pub fn fn_decl(name: &str, body: Vec<Stmt>) -> (r: FnDecl)
    ensures
        r.ident@ == name@,
        r.function@ == spec_fn_decl(name@, view_stmts(body@)).function,
{
    let params: Vec<Pat> = Vec::new();
    assert(view_pats(params@) =~= Seq::empty());
    FnDecl {
        ident: String::from_str(name),
        function: Function { params, body: Some(body), is_async: false, is_generator: false },
    }
}

pub fn call_expr(callee: Expr, args: Vec<Expr>) -> (r: Expr)
    ensures
        r@ == SpecExpr::Call(Box::new(callee@), view_exprs(args@)),
{
    Expr::Call(Box::new(callee), args)
}

pub fn member_expr(obj: Expr, method: &str) -> (r: Expr)
    ensures
        r@ == SpecExpr::Member(Box::new(obj@), method@),
{
    Expr::Member(Box::new(obj), String::from_str(method))
}

fn apply_with(wrapper: Expr, ctx: Expr) -> (r: Expr)
    ensures
        r@ == spec_apply_with(wrapper@, ctx@),
{
    let mut args: Vec<Expr> = Vec::new();
    proof { lemma_view_exprs_push(args@, ctx); }
    args.push(ctx);
    let arguments = ident("arguments");
    proof { lemma_view_exprs_push(args@, arguments); }
    args.push(arguments);
    assert(view_exprs(args@) =~= seq![ctx@, SpecExpr::Ident("arguments"@)]);
    call_expr(member_expr(wrapper, "apply"), args)
}

pub fn apply_call(wrapper: Expr) -> (r: Expr)
    ensures
        r@ == spec_apply_call(wrapper@),
{
    apply_with(wrapper, Expr::This)
}

pub fn apply_call_with_captured_this(wrapper: Expr) -> (r: Expr)
    ensures
        r@ == spec_apply_call_with_captured_this(wrapper@),
{
    proof {
        reveal_strlit("_this");
        assert("_this"@ =~= this_name());
    }
    let ctx = ident("_this");
    apply_with(wrapper, ctx)
}

pub fn immediate_call(wrapper: Expr) -> (r: Expr)
    ensures
        r@ == spec_immediate_call(wrapper@),
{
    let args: Vec<Expr> = Vec::new();
    assert(view_exprs(args@) =~= Seq::empty());
    call_expr(wrapper, args)
}

pub fn ng_async_wrapper(generator_fn: Expr) -> (r: Expr)
    ensures
        r@ == spec_ng_async_wrapper(generator_fn@),
{
    let mut args: Vec<Expr> = Vec::new();
    proof { lemma_view_exprs_push(args@, generator_fn); }
    args.push(generator_fn);
    assert(view_exprs(args@) =~= seq![generator_fn@]);
    call_expr(ident("_ngAsyncToGenerator"), args)
}

pub fn assign_expr(left: &str, right: Expr) -> (r: Expr)
    ensures
        r@ == spec_assign_expr(left@, right@),
{
    Expr::Assign(Box::new(ident(left)), Box::new(right))
}

pub fn iife(stmts: Vec<Stmt>) -> (r: Expr)
    ensures
        r@ == spec_iife(view_stmts(stmts@)),
{
    immediate_call(regular_fn_expr(None, stmts))
}

pub fn iife_with_this_param(stmts: Vec<Stmt>) -> (r: Expr)
    ensures
        r@ == spec_iife_with_this_param(view_stmts(stmts@)),
{
    proof {
        reveal_strlit("_this");
        assert("_this"@ =~= this_name());
    }
    let mut params: Vec<Pat> = Vec::new();
    params.push(binding_ident("_this"));
    assert(view_pats(params@) =~= seq![SpecPat::Ident(this_name())]);
    let mut args: Vec<Expr> = Vec::new();
    proof { lemma_view_exprs_push(args@, Expr::This); }
    args.push(Expr::This);
    assert(view_exprs(args@) =~= seq![SpecExpr::This]);
    call_expr(fn_expr(None, params, stmts, false), args)
}

} // verus!
