//! The generator builder and the four construct transformers: function
//! declarations, function expressions, arrow functions and methods.
//!
//! Each transformer first asks the suspension probe whether the body holds an
//! `await`. If it holds none, only the `async` flag is cleared. A construct
//! without a body is left as it is.

use vstd::prelude::*;
use crate::ast::{
    view_expr, view_opt_fn_decl, view_opt_expr, view_pats, view_stmts, ArrowBody, ArrowExpr, ClassMethod,
    Expr, FnDecl, FnExpr, Function, MethodProp, Pat, SpecArrowBody, SpecArrowExpr, SpecClassMethod,
    SpecExpr, SpecFnDecl, SpecFnExpr, SpecFunction, SpecMethodProp, SpecPat, SpecStmt, Stmt,
};
use crate::builders::{
    apply_call, apply_call_with_captured_this, assign_expr, expr_stmt, fn_decl,
    generator_fn_expr, ident, iife, iife_with_this_param, immediate_call, ng_async_wrapper,
    regular_fn_expr, return_stmt, spec_apply_call, spec_apply_call_with_captured_this,
    spec_assign_expr, spec_fn_decl, spec_generator_fn_expr, spec_iife, spec_iife_with_this_param,
    spec_immediate_call, spec_ng_async_wrapper, spec_regular_fn_expr, spec_this_capture,
    spec_var_decl, stmts1, stmts2, this_capture, var_decl,
};
use crate::scan::{
    expr_contains, lemma_return_has, stmts_contain, stmts_have, stmts_rw, AwaitToYieldVisitor,
    Target, ThisCaptureVisitor,
};

verus! {

// ---------------------------------------------------------------------------
// Generator builder
// ---------------------------------------------------------------------------

/// The body of the generator built from `body`: every `await` becomes a
/// `yield`, then, when `capture` is set, every `this` becomes `_this`.
pub open spec fn generator_body(body: Seq<SpecStmt>, capture: bool) -> Seq<SpecStmt> {
    if capture {
        stmts_rw(stmts_rw(body, Target::Await), Target::This)
    } else {
        stmts_rw(body, Target::Await)
    }
}

/// Whether building the generator from `body` replaced a `this`.
pub open spec fn generator_captures(body: Seq<SpecStmt>, capture: bool) -> bool {
    capture && stmts_have(stmts_rw(body, Target::Await), Target::This)
}

pub open spec fn spec_generator_function(
    params: Seq<SpecPat>,
    body: Seq<SpecStmt>,
    capture: bool,
) -> SpecFunction {
    SpecFunction {
        params,
        body: Some(generator_body(body, capture)),
        is_async: false,
        is_generator: true,
    }
}

/// Builds the generator function that stands for an async function with
/// these parameters and body, and reports whether a `this` was captured.
pub fn create_generator_function(params: Vec<Pat>, body: Vec<Stmt>, capture_this: bool) -> (r: (
    Function,
    bool,
))
    ensures
        r.0@ == spec_generator_function(view_pats(params@), view_stmts(body@), capture_this),
        r.0.body is Some,
        r.1 == generator_captures(view_stmts(body@), capture_this),
{
    let new_body = AwaitToYieldVisitor.visit_stmts(body);
    let mut needs_this = false;
    let new_body = if capture_this {
        let mut this_visitor = ThisCaptureVisitor::new();
        let captured = this_visitor.visit_stmts(new_body);
        needs_this = this_visitor.needs_this;
        captured
    } else {
        new_body
    };
    let f = Function { params, body: Some(new_body), is_async: false, is_generator: true };
    assert(f@.body == Some(view_stmts(new_body@)));
    (f, needs_this)
}

/// Splits the generator built by `create_generator_function` into the
/// parameters and body of a generator function expression.
fn generator_expr(params: Vec<Pat>, body: Vec<Stmt>, capture_this: bool) -> (r: Expr)
    ensures
        r@ == spec_generator_fn_expr(
            view_pats(params@),
            generator_body(view_stmts(body@), capture_this),
        ),
{
    let (g, _) = create_generator_function(params, body, capture_this);
    let Function { params: gp, body: gb, .. } = g;
    match gb {
        Some(b) => generator_fn_expr(gp, b),
        None => generator_fn_expr(gp, Vec::new()),
    }
}

// ---------------------------------------------------------------------------
// Function declarations
// ---------------------------------------------------------------------------

/// The name of the helper that an async function declaration is moved to.
pub open spec fn helper_name(name: Seq<char>) -> Seq<char> {
    "_"@ + name
}

/// `function _name() { _name = _ngAsyncToGenerator(function* (params) { ... });
/// return _name.apply(this, arguments); }`
pub open spec fn spec_helper_decl(
    name: Seq<char>,
    params: Seq<SpecPat>,
    body: Seq<SpecStmt>,
) -> SpecFnDecl {
    let h = helper_name(name);
    spec_fn_decl(
        h,
        seq![
            SpecStmt::Expr(
                spec_assign_expr(
                    h,
                    spec_ng_async_wrapper(
                        spec_generator_fn_expr(params, generator_body(body, false)),
                    ),
                ),
            ),
            SpecStmt::Return(Some(spec_apply_call(SpecExpr::Ident(h)))),
        ],
    )
}

/// `function name() { return _name.apply(this, arguments); }`
pub open spec fn spec_forwarding_decl(name: Seq<char>) -> SpecFnDecl {
    SpecFnDecl {
        ident: name,
        function: spec_fn_decl(
            name,
            seq![SpecStmt::Return(Some(spec_apply_call(SpecExpr::Ident(helper_name(name)))))],
        ).function,
    }
}

/// A declaration with only its `async` flag cleared.
pub open spec fn sync_function(f: SpecFunction) -> SpecFunction {
    SpecFunction { params: f.params, body: f.body, is_async: false, is_generator: f.is_generator }
}

/// What the declaration becomes, and the helper to hoist, if any.
pub open spec fn fn_decl_result(d: SpecFnDecl) -> (SpecFnDecl, Option<SpecFnDecl>) {
    if !d.function.is_async {
        (d, None)
    } else {
        match d.function.body {
            None => (d, None),
            Some(b) => if !stmts_have(b, Target::Await) {
                (SpecFnDecl { ident: d.ident, function: sync_function(d.function) }, None)
            } else {
                (
                    spec_forwarding_decl(d.ident),
                    Some(spec_helper_decl(d.ident, d.function.params, b)),
                )
            },
        }
    }
}

/// Rewrites an async function declaration into a forwarding declaration and
/// returns the helper declaration that holds the generator.
pub fn transform_fn_decl(decl: &mut FnDecl) -> (r: Option<FnDecl>)
    ensures
        (final(decl)@, view_opt_fn_decl(r)) == fn_decl_result(old(decl)@),
{
    if !decl.function.is_async {
        return None;
    }
    let has_await = match &decl.function.body {
        Some(b) => stmts_contain(b, Target::Await),
        None => {
            return None;
        },
    };
    if !has_await {
        decl.function.is_async = false;
        return None;
    }
    let ghost d0 = decl@;
    let body = match decl.function.body.take() {
        Some(b) => b,
        None => {
            return None;
        },
    };
    let mut params: Vec<Pat> = Vec::new();
    std::mem::swap(&mut params, &mut decl.function.params);
    let mut helper = String::from_str("_");
    helper.append(decl.ident.as_str());
    let generator = generator_expr(params, body, false);
    let helper_fn = fn_decl(
        helper.as_str(),
        stmts2(
            expr_stmt(assign_expr(helper.as_str(), ng_async_wrapper(generator))),
            return_stmt(apply_call(ident(helper.as_str()))),
        ),
    );
    // function foo() { return _foo.apply(this, arguments); }
    let forward = fn_decl(decl.ident.as_str(), stmts1(return_stmt(apply_call(ident(helper.as_str())))));
    decl.function = forward.function;
    assert(decl@ == spec_forwarding_decl(d0.ident));
    assert(helper_fn@ == spec_helper_decl(d0.ident, d0.function.params, d0.function.body->0));
    Some(helper_fn)
}

// ---------------------------------------------------------------------------
// Function expressions and arrow functions
// ---------------------------------------------------------------------------

/// `(function () { var ref = _ngAsyncToGenerator(function* (params) { ... });
/// return function name() { return ref.apply(this, arguments); }; })()`
pub open spec fn spec_ref_wrapper(
    name: Option<Seq<char>>,
    params: Seq<SpecPat>,
    body: Seq<SpecStmt>,
    ref_name: Seq<char>,
) -> SpecExpr {
    spec_iife(
        seq![
            spec_var_decl(
                ref_name,
                spec_ng_async_wrapper(spec_generator_fn_expr(params, generator_body(body, false))),
            ),
            SpecStmt::Return(
                Some(
                    spec_regular_fn_expr(
                        name,
                        seq![SpecStmt::Return(Some(spec_apply_call(SpecExpr::Ident(ref_name))))],
                    ),
                ),
            ),
        ],
    )
}

/// `(function (_this) { var ref = _ngAsyncToGenerator(function* (params) { ... });
/// return function () { return ref.apply(_this, arguments); }; })(this)`
pub open spec fn spec_captured_ref_wrapper(
    params: Seq<SpecPat>,
    body: Seq<SpecStmt>,
    ref_name: Seq<char>,
) -> SpecExpr {
    spec_iife_with_this_param(
        seq![
            spec_var_decl(
                ref_name,
                spec_ng_async_wrapper(spec_generator_fn_expr(params, generator_body(body, true))),
            ),
            SpecStmt::Return(
                Some(
                    spec_regular_fn_expr(
                        None,
                        seq![
                            SpecStmt::Return(
                                Some(spec_apply_call_with_captured_this(SpecExpr::Ident(ref_name))),
                            ),
                        ],
                    ),
                ),
            ),
        ],
    )
}

/// What is left of a function expression whose parts were moved into its
/// replacement.
pub open spec fn spent_fn_expr(f: SpecFnExpr) -> SpecFnExpr {
    SpecFnExpr {
        ident: None,
        function: SpecFunction {
            params: Seq::empty(),
            body: None,
            is_async: f.function.is_async,
            is_generator: f.function.is_generator,
        },
    }
}

/// What the function expression becomes in place, and its replacement, if any.
pub open spec fn fn_expr_result(f: SpecFnExpr, ref_name: Seq<char>) -> (SpecFnExpr, Option<SpecExpr>) {
    if !f.function.is_async {
        (f, None)
    } else {
        match f.function.body {
            None => (f, None),
            Some(b) => if !stmts_have(b, Target::Await) {
                (SpecFnExpr { ident: f.ident, function: sync_function(f.function) }, None)
            } else {
                (spent_fn_expr(f), Some(spec_ref_wrapper(f.ident, f.function.params, b, ref_name)))
            },
        }
    }
}

/// Rewrites an async function expression into an immediately-invoked
/// wrapper that binds `ref_name` and returns a forwarding function.
pub fn transform_fn_expr(fn_expr: &mut FnExpr, ref_name: &str) -> (r: Option<Expr>)
    ensures
        (final(fn_expr)@, view_opt_expr(r)) == fn_expr_result(old(fn_expr)@, ref_name@),
{
    if !fn_expr.function.is_async {
        return None;
    }
    let has_await = match &fn_expr.function.body {
        Some(b) => stmts_contain(b, Target::Await),
        None => {
            return None;
        },
    };
    if !has_await {
        fn_expr.function.is_async = false;
        return None;
    }
    let ghost f0 = fn_expr@;
    let body = match fn_expr.function.body.take() {
        Some(b) => b,
        None => {
            return None;
        },
    };
    let own_name = fn_expr.ident.take();
    let mut params: Vec<Pat> = Vec::new();
    std::mem::swap(&mut params, &mut fn_expr.function.params);
    assert(view_pats(fn_expr.function.params@) =~= Seq::empty());
    let generator = generator_expr(params, body, false);
    let r = iife(
        stmts2(
            var_decl(ref_name, ng_async_wrapper(generator)),
            return_stmt(
                regular_fn_expr(own_name, stmts1(return_stmt(apply_call(ident(ref_name))))),
            ),
        ),
    );
    assert(fn_expr@ == spent_fn_expr(f0));
    Some(r)
}

/// The body of an arrow function as a statement list: an expression body `e`
/// becomes `return e;`.
pub open spec fn arrow_block(b: SpecArrowBody) -> Seq<SpecStmt> {
    match b {
        SpecArrowBody::Block(s) => s,
        SpecArrowBody::Expr(x) => seq![SpecStmt::Return(Some(*x))],
    }
}

pub open spec fn spent_arrow(a: SpecArrowExpr) -> SpecArrowExpr {
    SpecArrowExpr { params: Seq::empty(), body: SpecArrowBody::Block(Seq::empty()), is_async: a.is_async }
}

/// What the arrow function becomes in place, and its replacement, if any.
pub open spec fn arrow_result(a: SpecArrowExpr, ref_name: Seq<char>) -> (SpecArrowExpr, Option<SpecExpr>) {
    let b = arrow_block(a.body);
    if !a.is_async {
        (a, None)
    } else if !stmts_have(b, Target::Await) {
        (SpecArrowExpr { params: a.params, body: a.body, is_async: false }, None)
    } else if stmts_have(b, Target::This) {
        (spent_arrow(a), Some(spec_captured_ref_wrapper(a.params, b, ref_name)))
    } else {
        (spent_arrow(a), Some(spec_ref_wrapper(None, a.params, b, ref_name)))
    }
}

/// Rewrites an async arrow function into an immediately-invoked wrapper. When
/// the body uses `this`, the wrapper receives the enclosing `this` as its
/// argument and the forwarding function applies the generator to it.
pub fn transform_arrow_fn(arrow: &mut ArrowExpr, ref_name: &str) -> (r: Option<Expr>)
    ensures
        (final(arrow)@, view_opt_expr(r)) == arrow_result(old(arrow)@, ref_name@),
{
    if !arrow.is_async {
        return None;
    }
    let has_await = match &arrow.body {
        ArrowBody::Block(b) => stmts_contain(b, Target::Await),
        ArrowBody::Expr(e) => {
            proof { lemma_return_has(view_expr(**e), Target::Await); }
            expr_contains(e, Target::Await)
        },
    };
    if !has_await {
        arrow.is_async = false;
        return None;
    }
    let ghost a0 = arrow@;
    let empty_body: Vec<Stmt> = Vec::new();
    assert(view_stmts(empty_body@) =~= Seq::empty());
    let mut taken = ArrowBody::Block(empty_body);
    std::mem::swap(&mut taken, &mut arrow.body);
    let body = match taken {
        ArrowBody::Block(b) => b,
        ArrowBody::Expr(e) => stmts1(return_stmt(*e)),
    };
    assert(view_stmts(body@) == arrow_block(a0.body));
    let uses_this = stmts_contain(&body, Target::This);
    let mut params: Vec<Pat> = Vec::new();
    std::mem::swap(&mut params, &mut arrow.params);
    assert(view_pats(arrow.params@) =~= Seq::empty());
    if uses_this {
        let generator = generator_expr(params, body, true);
        let r = iife_with_this_param(
            stmts2(
                var_decl(ref_name, ng_async_wrapper(generator)),
                return_stmt(
                    regular_fn_expr(
                        None,
                        stmts1(return_stmt(apply_call_with_captured_this(ident(ref_name)))),
                    ),
                ),
            ),
        );
        Some(r)
    } else {
        let generator = generator_expr(params, body, false);
        let r = iife(
            stmts2(
                var_decl(ref_name, ng_async_wrapper(generator)),
                return_stmt(regular_fn_expr(None, stmts1(return_stmt(apply_call(ident(ref_name)))))),
            ),
        );
        Some(r)
    }
}

// ---------------------------------------------------------------------------
// Methods
// ---------------------------------------------------------------------------

/// The new body of an async method: `var _this = this;` when the body uses
/// `this`, then `return _ngAsyncToGenerator(function* () { ... })();`.
pub open spec fn method_body(body: Seq<SpecStmt>) -> Seq<SpecStmt> {
    let ret = SpecStmt::Return(
        Some(
            spec_immediate_call(
                spec_ng_async_wrapper(spec_generator_fn_expr(Seq::empty(), generator_body(body, true))),
            ),
        ),
    );
    if generator_captures(body, true) {
        seq![spec_this_capture(), ret]
    } else {
        seq![ret]
    }
}

/// What an async method's function becomes.
#[verifier::opaque]
pub open spec fn method_function(f: SpecFunction) -> SpecFunction {
    if !f.is_async {
        f
    } else {
        match f.body {
            None => f,
            Some(b) => if !stmts_have(b, Target::Await) {
                sync_function(f)
            } else {
                SpecFunction {
                    params: f.params,
                    body: Some(method_body(b)),
                    is_async: false,
                    is_generator: f.is_generator,
                }
            },
        }
    }
}

/// The statements that replace an async method's body.
pub struct MethodTransformResult {
    pub stmts: Vec<Stmt>,
}

/// Builds the new body of an async method from its old body.
pub fn transform_method(body: Vec<Stmt>) -> (r: MethodTransformResult)
    ensures
        view_stmts(r.stmts@) == method_body(view_stmts(body@)),
{
    let no_params: Vec<Pat> = Vec::new();
    assert(view_pats(no_params@) =~= Seq::empty());
    let (g, needs_this) = create_generator_function(no_params, body, true);
    let Function { params: gp, body: gb, .. } = g;
    let gb = match gb {
        Some(b) => b,
        None => Vec::new(),
    };
    let ret = return_stmt(immediate_call(ng_async_wrapper(generator_fn_expr(gp, gb))));
    let stmts = if needs_this {
        stmts2(this_capture(), ret)
    } else {
        stmts1(ret)
    };
    MethodTransformResult { stmts }
}

fn transform_function(f: &mut Function)
    ensures
        final(f)@ == method_function(old(f)@),
{
    reveal(method_function);
    if !f.is_async {
        return;
    }
    let has_await = match &f.body {
        Some(b) => stmts_contain(b, Target::Await),
        None => {
            return;
        },
    };
    if !has_await {
        f.is_async = false;
        return;
    }
    let body = match f.body.take() {
        Some(b) => b,
        None => {
            return;
        },
    };
    let result = transform_method(body);
    f.body = Some(result.stmts);
    f.is_async = false;
}

/// Rewrites an async class method in place.
pub fn transform_class_method(method: &mut ClassMethod)
    ensures
        final(method)@ == (SpecClassMethod {
            key: old(method)@.key,
            kind: old(method)@.kind,
            is_static: old(method)@.is_static,
            function: method_function(old(method)@.function),
        }),
{
    transform_function(&mut method.function);
}

/// Rewrites an async object-literal method in place.
pub fn transform_object_method(method_prop: &mut MethodProp)
    ensures
        final(method_prop)@ == (SpecMethodProp {
            key: old(method_prop)@.key,
            kind: old(method_prop)@.kind,
            function: method_function(old(method_prop)@.function),
        }),
{
    transform_function(&mut method_prop.function);
}

} // verus!
