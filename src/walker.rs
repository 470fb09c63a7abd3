//! The tree walker: one pass over a module that rewrites every async
//! construct, innermost first, and places the helpers of async function
//! declarations at the statement list they were declared in.
//!
//! Each statement list opens its own frame of pending helpers; the frame is
//! flushed through hoist placement when the list is finished. The counter of
//! generated names is advanced only when a function expression or an arrow
//! function is actually replaced.

use vstd::prelude::*;
use crate::ast::{
    lemma_view_exprs, lemma_view_exprs_push, lemma_view_members, lemma_view_members_push,
    lemma_view_props, lemma_view_props_push, lemma_view_stmt_lists, lemma_view_stmt_lists_push,
    lemma_view_stmts, lemma_view_stmts_push, view_stmt_lists, view_expr,
    view_exprs, view_item, view_items, view_member, view_members, view_opt_expr, view_prop,
    view_props, view_stmt, view_stmts, ArrowBody, ArrowExpr, ClassDecl, ClassMember, ClassMethod,
    Expr, FnDecl, FnExpr, Function, MethodProp, Module, ModuleItem, Prop, Stmt, SpecArrowBody, SpecArrowExpr, SpecClassDecl, SpecClassMember, SpecClassMethod, SpecExpr,
    SpecFnDecl, SpecFnExpr, SpecFunction, SpecMethodProp, SpecModuleItem, SpecProp, SpecStmt,
};
use crate::hoist::{hoist, hoist_items, insert_hoisted_module_items, insert_hoisted_stmts};
use crate::names::{ref_name, RefCounter};
use crate::transforms::{
    arrow_result, fn_decl_result, fn_expr_result, method_function, transform_arrow_fn,
    transform_class_method, transform_fn_decl, transform_fn_expr, transform_object_method,
};

verus! {

// ---------------------------------------------------------------------------
// The pass, on the model. Each function returns the rewritten node and how
// many generated names it used, starting from name number `n`; statement
// walkers also return the helpers they recorded for the enclosing frame.
// ---------------------------------------------------------------------------

pub open spec fn walk_expr(e: SpecExpr, n: nat) -> (SpecExpr, nat)
    decreases e,
{
    match e {
        SpecExpr::This => (e, 0),
        SpecExpr::Ident(_) => (e, 0),
        SpecExpr::Lit(_) => (e, 0),
        SpecExpr::Await(a) => {
            let r = walk_expr(*a, n);
            (SpecExpr::Await(Box::new(r.0)), r.1)
        },
        SpecExpr::Yield(a) => {
            let r = walk_expr(*a, n);
            (SpecExpr::Yield(Box::new(r.0)), r.1)
        },
        SpecExpr::Member(o, p) => {
            let r = walk_expr(*o, n);
            (SpecExpr::Member(Box::new(r.0), p), r.1)
        },
        SpecExpr::Call(c, args) => {
            let rc = walk_expr(*c, n);
            let ra = walk_exprs(args, n + rc.1);
            (SpecExpr::Call(Box::new(rc.0), ra.0), rc.1 + ra.1)
        },
        SpecExpr::Assign(l, r) => {
            let rl = walk_expr(*l, n);
            let rr = walk_expr(*r, n + rl.1);
            (SpecExpr::Assign(Box::new(rl.0), Box::new(rr.0)), rl.1 + rr.1)
        },
        SpecExpr::Op(op, args) => {
            let ra = walk_exprs(args, n);
            (SpecExpr::Op(op, ra.0), ra.1)
        },
        SpecExpr::Object(props) => {
            let rp = walk_props(props, n);
            (SpecExpr::Object(rp.0), rp.1)
        },
        SpecExpr::Fn(f) => {
            let rf = walk_function(f.function, n);
            let t = fn_expr_result(SpecFnExpr { ident: f.ident, function: rf.0 }, ref_name(n + rf.1));
            match t.1 {
                Some(x) => (x, rf.1 + 1),
                None => (SpecExpr::Fn(t.0), rf.1),
            }
        },
        SpecExpr::Arrow(a) => {
            let rb = walk_arrow_body(a.body, n);
            let t = arrow_result(
                SpecArrowExpr { params: a.params, body: rb.0, is_async: a.is_async },
                ref_name(n + rb.1),
            );
            match t.1 {
                Some(x) => (x, rb.1 + 1),
                None => (SpecExpr::Arrow(t.0), rb.1),
            }
        },
    }
}

pub open spec fn walk_arrow_body(b: SpecArrowBody, n: nat) -> (SpecArrowBody, nat)
    decreases b,
{
    match b {
        SpecArrowBody::Block(s) => {
            let r = walk_stmt_list(s, n);
            (SpecArrowBody::Block(hoist(r.0, r.2)), r.1)
        },
        SpecArrowBody::Expr(x) => {
            let r = walk_expr(*x, n);
            (SpecArrowBody::Expr(Box::new(r.0)), r.1)
        },
    }
}

pub open spec fn walk_exprs(s: Seq<SpecExpr>, n: nat) -> (Seq<SpecExpr>, nat)
    decreases s,
{
    if s.len() == 0 {
        (Seq::empty(), 0)
    } else {
        let p = walk_exprs(s.drop_last(), n);
        let l = walk_expr(s.last(), n + p.1);
        (p.0.push(l.0), p.1 + l.1)
    }
}

pub open spec fn walk_opt(o: Option<SpecExpr>, n: nat) -> (Option<SpecExpr>, nat)
    decreases o,
{
    match o {
        Some(x) => {
            let r = walk_expr(x, n);
            (Some(r.0), r.1)
        },
        None => (None, 0),
    }
}

pub open spec fn walk_function(f: SpecFunction, n: nat) -> (SpecFunction, nat)
    decreases f,
{
    match f.body {
        Some(b) => {
            let r = walk_stmt_list(b, n);
            (
                SpecFunction {
                    params: f.params,
                    body: Some(hoist(r.0, r.2)),
                    is_async: f.is_async,
                    is_generator: f.is_generator,
                },
                r.1,
            )
        },
        None => (f, 0),
    }
}

pub open spec fn walk_prop(p: SpecProp, n: nat) -> (SpecProp, nat)
    decreases p,
{
    match p {
        SpecProp::KeyValue(k, v) => {
            let r = walk_expr(v, n);
            (SpecProp::KeyValue(k, r.0), r.1)
        },
        SpecProp::Method(m) => {
            let r = walk_function(m.function, n);
            (SpecProp::Method(SpecMethodProp { key: m.key, kind: m.kind, function: method_function(r.0) }), r.1)
        },
    }
}

pub open spec fn walk_props(s: Seq<SpecProp>, n: nat) -> (Seq<SpecProp>, nat)
    decreases s,
{
    if s.len() == 0 {
        (Seq::empty(), 0)
    } else {
        let p = walk_props(s.drop_last(), n);
        let l = walk_prop(s.last(), n + p.1);
        (p.0.push(l.0), p.1 + l.1)
    }
}

#[verifier::opaque]
pub open spec fn walk_member(m: SpecClassMember, n: nat) -> (SpecClassMember, nat)
    decreases m,
{
    match m {
        SpecClassMember::Method(cm) => {
            let r = walk_function(cm.function, n);
            (
                SpecClassMember::Method(
                    SpecClassMethod {
                        key: cm.key,
                        kind: cm.kind,
                        is_static: cm.is_static,
                        function: method_function(r.0),
                    },
                ),
                r.1,
            )
        },
        SpecClassMember::Field(k, v) => {
            let r = walk_opt(v, n);
            (SpecClassMember::Field(k, r.0), r.1)
        },
    }
}

pub open spec fn walk_members(s: Seq<SpecClassMember>, n: nat) -> (Seq<SpecClassMember>, nat)
    decreases s,
{
    if s.len() == 0 {
        (Seq::empty(), 0)
    } else {
        let p = walk_members(s.drop_last(), n);
        let l = walk_member(s.last(), n + p.1);
        (p.0.push(l.0), p.1 + l.1)
    }
}

/// The optional helper of a declaration as a list of statements.
pub open spec fn helper_stmts(h: Option<SpecFnDecl>) -> Seq<SpecStmt> {
    match h {
        Some(d) => seq![SpecStmt::FnDecl(d)],
        None => Seq::empty(),
    }
}

pub open spec fn walk_stmt(s: SpecStmt, n: nat) -> (SpecStmt, nat, Seq<SpecStmt>)
    decreases s,
{
    match s {
        SpecStmt::Expr(e) => {
            let r = walk_expr(e, n);
            (SpecStmt::Expr(r.0), r.1, Seq::empty())
        },
        SpecStmt::Var(k, name, init) => {
            let r = walk_opt(init, n);
            (SpecStmt::Var(k, name, r.0), r.1, Seq::empty())
        },
        SpecStmt::FnDecl(d) => {
            let r = walk_function(d.function, n);
            let t = fn_decl_result(SpecFnDecl { ident: d.ident, function: r.0 });
            (SpecStmt::FnDecl(t.0), r.1, helper_stmts(t.1))
        },
        SpecStmt::Class(c) => {
            let r = walk_members(c.members, n);
            (SpecStmt::Class(SpecClassDecl { ident: c.ident, members: r.0 }), r.1, Seq::empty())
        },
        SpecStmt::Return(e) => {
            let r = walk_opt(e, n);
            (SpecStmt::Return(r.0), r.1, Seq::empty())
        },
        SpecStmt::Block(b) => {
            let r = walk_stmt_list(b, n);
            (SpecStmt::Block(hoist(r.0, r.2)), r.1, Seq::empty())
        },
        SpecStmt::If(c, th, el) => {
            let rc = walk_expr(c, n);
            let rt = walk_stmt(*th, n + rc.1);
            match el {
                Some(x) => {
                    let re = walk_stmt(*x, n + rc.1 + rt.1);
                    (
                        SpecStmt::If(rc.0, Box::new(rt.0), Some(Box::new(re.0))),
                        rc.1 + rt.1 + re.1,
                        rt.2 + re.2,
                    )
                },
                None => (SpecStmt::If(rc.0, Box::new(rt.0), None), rc.1 + rt.1, rt.2),
            }
        },
        SpecStmt::Other(tag, es, ls) => {
            let re = walk_exprs(es, n);
            let rl = walk_lists(ls, n + re.1);
            (SpecStmt::Other(tag, re.0, rl.0), re.1 + rl.1, Seq::empty())
        },
    }
}

/// The statement lists of a general statement, each walked with a frame of
/// its own.
pub open spec fn walk_lists(s: Seq<Seq<SpecStmt>>, n: nat) -> (Seq<Seq<SpecStmt>>, nat)
    decreases s,
{
    if s.len() == 0 {
        (Seq::empty(), 0)
    } else {
        let p = walk_lists(s.drop_last(), n);
        let l = walk_stmt_list(s.last(), n + p.1);
        (p.0.push(hoist(l.0, l.2)), p.1 + l.1)
    }
}

/// The statements of one list, walked in order: the rewritten statements, the
/// names used, and the helpers recorded for the list's frame.
pub open spec fn walk_stmt_list(s: Seq<SpecStmt>, n: nat) -> (Seq<SpecStmt>, nat, Seq<SpecStmt>)
    decreases s,
{
    if s.len() == 0 {
        (Seq::empty(), 0, Seq::empty())
    } else {
        let p = walk_stmt_list(s.drop_last(), n);
        let l = walk_stmt(s.last(), n + p.1);
        (p.0.push(l.0), p.1 + l.1, p.2 + l.2)
    }
}

/// A statement list with its frame flushed.
pub open spec fn walk_block(s: Seq<SpecStmt>, n: nat) -> (Seq<SpecStmt>, nat) {
    let r = walk_stmt_list(s, n);
    (hoist(r.0, r.2), r.1)
}

pub open spec fn walk_item(i: SpecModuleItem, n: nat) -> (SpecModuleItem, nat, Seq<SpecStmt>) {
    match i {
        SpecModuleItem::Stmt(s) => {
            let r = walk_stmt(s, n);
            (SpecModuleItem::Stmt(r.0), r.1, r.2)
        },
        SpecModuleItem::Export(s) => {
            let r = walk_stmt(s, n);
            (SpecModuleItem::Export(r.0), r.1, r.2)
        },
        SpecModuleItem::Opaque(_) => (i, 0, Seq::empty()),
    }
}

pub open spec fn walk_items(s: Seq<SpecModuleItem>, n: nat) -> (
    Seq<SpecModuleItem>,
    nat,
    Seq<SpecStmt>,
)
    decreases s.len(),
{
    if s.len() == 0 {
        (Seq::empty(), 0, Seq::empty())
    } else {
        let p = walk_items(s.drop_last(), n);
        let l = walk_item(s.last(), n + p.1);
        (p.0.push(l.0), p.1 + l.1, p.2 + l.2)
    }
}

/// The whole pass over a module's items.
pub open spec fn transform_items(items: Seq<SpecModuleItem>) -> Seq<SpecModuleItem> {
    let r = walk_items(items, 0);
    hoist_items(r.0, r.2)
}

/// How many wrapper names the pass over a module's items generates.
pub open spec fn names_used(items: Seq<SpecModuleItem>) -> nat {
    walk_items(items, 0).1
}

// ---------------------------------------------------------------------------
// A prefix of a list never uses more names than the whole list.
// ---------------------------------------------------------------------------

proof fn lemma_walk_exprs_prefix(s: Seq<SpecExpr>, k: int, n: nat)
    requires
        0 <= k <= s.len(),
    ensures
        walk_exprs(s.subrange(0, k), n).1 <= walk_exprs(s, n).1,
    decreases s.len() - k,
{
    if k < s.len() {
        lemma_walk_exprs_prefix(s, k + 1, n);
        assert(s.subrange(0, k + 1).drop_last() =~= s.subrange(0, k));
    } else {
        assert(s.subrange(0, k) =~= s);
    }
}

proof fn lemma_walk_props_prefix(s: Seq<SpecProp>, k: int, n: nat)
    requires
        0 <= k <= s.len(),
    ensures
        walk_props(s.subrange(0, k), n).1 <= walk_props(s, n).1,
    decreases s.len() - k,
{
    if k < s.len() {
        lemma_walk_props_prefix(s, k + 1, n);
        assert(s.subrange(0, k + 1).drop_last() =~= s.subrange(0, k));
    } else {
        assert(s.subrange(0, k) =~= s);
    }
}

proof fn lemma_walk_members_prefix(s: Seq<SpecClassMember>, k: int, n: nat)
    requires
        0 <= k <= s.len(),
    ensures
        walk_members(s.subrange(0, k), n).1 <= walk_members(s, n).1,
    decreases s.len() - k,
{
    if k < s.len() {
        lemma_walk_members_prefix(s, k + 1, n);
        assert(s.subrange(0, k + 1).drop_last() =~= s.subrange(0, k));
    } else {
        assert(s.subrange(0, k) =~= s);
    }
}

proof fn lemma_walk_members_step(s: Seq<SpecClassMember>, k: int, n: nat)
    requires
        0 <= k < s.len(),
    ensures
        ({
            let p = walk_members(s.subrange(0, k), n);
            let l = walk_member(s[k], n + p.1);
            &&& walk_members(s.subrange(0, k + 1), n).0 == p.0.push(l.0)
            &&& walk_members(s.subrange(0, k + 1), n).1 == p.1 + l.1
        }),
{
    reveal(walk_member);
    let t = s.subrange(0, k + 1);
    assert(t.len() > 0);
    assert(t.drop_last() =~= s.subrange(0, k));
    assert(t.last() == s[k]);
    let p = walk_members(t.drop_last(), n);
    let l = walk_member(t.last(), n + p.1);
    assert(walk_members(t, n).0 == p.0.push(l.0));
    assert(walk_members(t, n).1 == p.1 + l.1);
}

proof fn lemma_walk_stmt_list_prefix(s: Seq<SpecStmt>, k: int, n: nat)
    requires
        0 <= k <= s.len(),
    ensures
        walk_stmt_list(s.subrange(0, k), n).1 <= walk_stmt_list(s, n).1,
    decreases s.len() - k,
{
    if k < s.len() {
        lemma_walk_stmt_list_prefix(s, k + 1, n);
        assert(s.subrange(0, k + 1).drop_last() =~= s.subrange(0, k));
    } else {
        assert(s.subrange(0, k) =~= s);
    }
}

proof fn lemma_walk_lists_prefix(s: Seq<Seq<SpecStmt>>, k: int, n: nat)
    requires
        0 <= k <= s.len(),
    ensures
        walk_lists(s.subrange(0, k), n).1 <= walk_lists(s, n).1,
    decreases s.len() - k,
{
    if k < s.len() {
        lemma_walk_lists_prefix(s, k + 1, n);
        assert(s.subrange(0, k + 1).drop_last() =~= s.subrange(0, k));
    } else {
        assert(s.subrange(0, k) =~= s);
    }
}

proof fn lemma_walk_items_prefix(s: Seq<SpecModuleItem>, k: int, n: nat)
    requires
        0 <= k <= s.len(),
    ensures
        walk_items(s.subrange(0, k), n).1 <= walk_items(s, n).1,
    decreases s.len() - k,
{
    if k < s.len() {
        lemma_walk_items_prefix(s, k + 1, n);
        assert(s.subrange(0, k + 1).drop_last() =~= s.subrange(0, k));
    } else {
        assert(s.subrange(0, k) =~= s);
    }
}

// ---------------------------------------------------------------------------
// The pass
// ---------------------------------------------------------------------------

/// The walker of one pass: it owns the counter of generated names.
pub struct AsyncToNgGeneratorVisitor {
    ref_counter: RefCounter,
}

impl AsyncToNgGeneratorVisitor {
    /// The number of wrapper names generated so far.
    pub closed spec fn count(&self) -> nat {
        self.ref_counter.count as nat
    }

    pub fn new() -> (r: Self)
        ensures
            r.count() == 0,
    {
        AsyncToNgGeneratorVisitor { ref_counter: RefCounter::new() }
    }

    /// Rewrites every async construct of `e`, innermost first.
    pub fn visit_expr(&mut self, e: Expr) -> (r: Expr)
        requires
            old(self).count() + walk_expr(e@, old(self).count()).1 <= u64::MAX,
        ensures
            r@ == walk_expr(e@, old(self).count()).0,
            final(self).count() == old(self).count() + walk_expr(e@, old(self).count()).1,
        decreases e,
    {
        let ghost c0 = self.count();
        let ghost w = walk_expr(e@, c0);
        match e {
            Expr::This => Expr::This,
            Expr::Ident(n) => Expr::Ident(n),
            Expr::Lit(n) => Expr::Lit(n),
            Expr::Await(a) => Expr::Await(Box::new(self.visit_expr(*a))),
            Expr::Yield(a) => Expr::Yield(Box::new(self.visit_expr(*a))),
            Expr::Member(o, p) => Expr::Member(Box::new(self.visit_expr(*o)), p),
            Expr::Call(c, args) => {
                let c2 = self.visit_expr(*c);
                let a2 = self.visit_exprs(args);
                Expr::Call(Box::new(c2), a2)
            },
            Expr::Assign(l, r) => {
                let l2 = self.visit_expr(*l);
                let r2 = self.visit_expr(*r);
                Expr::Assign(Box::new(l2), Box::new(r2))
            },
            Expr::Op(op, args) => Expr::Op(op, self.visit_exprs(args)),
            Expr::Object(props) => Expr::Object(self.visit_props(props)),
            Expr::Fn(f) => {
                let FnExpr { ident, function } = f;
                let function = self.visit_function(function);
                let mut fe = FnExpr { ident, function };
                let name = self.ref_counter.peek();
                match transform_fn_expr(&mut fe, name.as_str()) {
                    Some(x) => {
                        self.ref_counter.advance();
                        x
                    },
                    None => Expr::Fn(fe),
                }
            },
            Expr::Arrow(a) => {
                let ArrowExpr { params, body, is_async } = a;
                let ghost ab = body@;
                let ghost wb = walk_arrow_body(ab, c0);
                assert(w.1 >= wb.1);
                let body = match body {
                    ArrowBody::Block(b) => {
                        assert(wb == (SpecArrowBody::Block(walk_block(view_stmts(b@), c0).0), walk_block(view_stmts(b@), c0).1));
                        ArrowBody::Block(self.visit_stmts(b))
                    },
                    ArrowBody::Expr(x) => {
                        assert(wb == (SpecArrowBody::Expr(Box::new(walk_expr(view_expr(*x), c0).0)), walk_expr(view_expr(*x), c0).1));
                        ArrowBody::Expr(Box::new(self.visit_expr(*x)))
                    },
                };
                let mut ae = ArrowExpr { params, body, is_async };
                let name = self.ref_counter.peek();
                match transform_arrow_fn(&mut ae, name.as_str()) {
                    Some(x) => {
                        self.ref_counter.advance();
                        x
                    },
                    None => Expr::Arrow(ae),
                }
            },
        }
    }

    fn visit_exprs(&mut self, v: Vec<Expr>) -> (r: Vec<Expr>)
        requires
            old(self).count() + walk_exprs(view_exprs(v@), old(self).count()).1 <= u64::MAX,
        ensures
            view_exprs(r@) == walk_exprs(view_exprs(v@), old(self).count()).0,
            final(self).count() == old(self).count() + walk_exprs(
                view_exprs(v@),
                old(self).count(),
            ).1,
        decreases v,
    {
        let ghost c0 = self.count();
        let ghost orig = v@;
        let ghost ms = view_exprs(v@);
        proof { lemma_view_exprs(v@); }
        let mut rest = v;
        let mut out: Vec<Expr> = Vec::new();
        while rest.len() > 0
            invariant
                ms == view_exprs(orig),
                ms.len() == orig.len(),
                forall|j: int| 0 <= j < orig.len() ==> #[trigger] ms[j] == view_expr(orig[j]),
                orig == v@,
                out.len() + rest.len() == orig.len(),
                rest@ == orig.subrange(out.len() as int, orig.len() as int),
                view_exprs(out@) == walk_exprs(ms.subrange(0, out.len() as int), c0).0,
                self.count() == c0 + walk_exprs(ms.subrange(0, out.len() as int), c0).1,
                c0 + walk_exprs(ms, c0).1 <= u64::MAX,
            decreases rest.len(),
        {
            let ghost k = out.len() as int;
            let x = rest.remove(0);
            proof {
                assert(x == orig[k]);
                assert(decreases_to!(v => v[k]));
                assert(ms.subrange(0, k + 1).drop_last() =~= ms.subrange(0, k));
                lemma_walk_exprs_prefix(ms, k + 1, c0);
            }
            let y = self.visit_expr(x);
            proof { lemma_view_exprs_push(out@, y); }
            out.push(y);
        }
        assert(ms.subrange(0, orig.len() as int) =~= ms);
        out
    }

    fn visit_opt(&mut self, o: Option<Expr>) -> (r: Option<Expr>)
        requires
            old(self).count() + walk_opt(view_opt_expr(o), old(self).count()).1 <= u64::MAX,
        ensures
            view_opt_expr(r) == walk_opt(view_opt_expr(o), old(self).count()).0,
            final(self).count() == old(self).count() + walk_opt(
                view_opt_expr(o),
                old(self).count(),
            ).1,
        decreases o,
    {
        match o {
            Some(x) => Some(self.visit_expr(x)),
            None => None,
        }
    }

    fn visit_function(&mut self, f: Function) -> (r: Function)
        requires
            old(self).count() + walk_function(f@, old(self).count()).1 <= u64::MAX,
        ensures
            r@ == walk_function(f@, old(self).count()).0,
            final(self).count() == old(self).count() + walk_function(f@, old(self).count()).1,
        decreases f,
    {
        let Function { params, body, is_async, is_generator } = f;
        match body {
            Some(b) => {
                let b2 = self.visit_stmts(b);
                let r = Function { params, body: Some(b2), is_async, is_generator };
                assert(r@.body == Some(view_stmts(b2@)));
                r
            },
            None => Function { params, body: None, is_async, is_generator },
        }
    }

    fn visit_prop(&mut self, p: Prop) -> (r: Prop)
        requires
            old(self).count() + walk_prop(view_prop(p), old(self).count()).1 <= u64::MAX,
        ensures
            view_prop(r) == walk_prop(view_prop(p), old(self).count()).0,
            final(self).count() == old(self).count() + walk_prop(view_prop(p), old(self).count()).1,
        decreases p,
    {
        match p {
            Prop::KeyValue(key, value) => Prop::KeyValue(key, self.visit_expr(value)),
            Prop::Method(m) => {
                let MethodProp { key, kind, function } = m;
                let function = self.visit_function(function);
                let mut m2 = MethodProp { key, kind, function };
                transform_object_method(&mut m2);
                Prop::Method(m2)
            },
        }
    }

    fn visit_member(&mut self, m: ClassMember) -> (r: ClassMember)
        requires
            old(self).count() + walk_member(view_member(m), old(self).count()).1 <= u64::MAX,
        ensures
            view_member(r) == walk_member(view_member(m), old(self).count()).0,
            final(self).count() == old(self).count() + walk_member(
                view_member(m),
                old(self).count(),
            ).1,
        decreases m,
    {
        reveal(walk_member);
        match m {
            ClassMember::Method(cm) => {
                let ClassMethod { key, kind, is_static, function } = cm;
                let function = self.visit_function(function);
                let mut m2 = ClassMethod { key, kind, is_static, function };
                transform_class_method(&mut m2);
                ClassMember::Method(m2)
            },
            ClassMember::Field(key, value) => ClassMember::Field(key, self.visit_opt(value)),
        }
    }

    fn visit_props(&mut self, v: Vec<Prop>) -> (r: Vec<Prop>)
        requires
            old(self).count() + walk_props(view_props(v@), old(self).count()).1 <= u64::MAX,
        ensures
            view_props(r@) == walk_props(view_props(v@), old(self).count()).0,
            final(self).count() == old(self).count() + walk_props(
                view_props(v@),
                old(self).count(),
            ).1,
        decreases v,
    {
        let ghost c0 = self.count();
        let ghost orig = v@;
        let ghost ms = view_props(v@);
        proof { lemma_view_props(v@); }
        let mut rest = v;
        let mut out: Vec<Prop> = Vec::new();
        while rest.len() > 0
            invariant
                ms == view_props(orig),
                ms.len() == orig.len(),
                forall|j: int| 0 <= j < orig.len() ==> #[trigger] ms[j] == view_prop(orig[j]),
                orig == v@,
                out.len() + rest.len() == orig.len(),
                rest@ == orig.subrange(out.len() as int, orig.len() as int),
                view_props(out@) == walk_props(ms.subrange(0, out.len() as int), c0).0,
                self.count() == c0 + walk_props(ms.subrange(0, out.len() as int), c0).1,
                c0 + walk_props(ms, c0).1 <= u64::MAX,
            decreases rest.len(),
        {
            let ghost k = out.len() as int;
            let x = rest.remove(0);
            proof {
                assert(x == orig[k]);
                assert(decreases_to!(v => v[k]));
                assert(ms.subrange(0, k + 1).drop_last() =~= ms.subrange(0, k));
                lemma_walk_props_prefix(ms, k + 1, c0);
            }
            let y = self.visit_prop(x);
            proof { lemma_view_props_push(out@, y); }
            out.push(y);
        }
        assert(ms.subrange(0, orig.len() as int) =~= ms);
        out
    }

    fn visit_members(&mut self, v: Vec<ClassMember>) -> (r: Vec<ClassMember>)
        requires
            old(self).count() + walk_members(view_members(v@), old(self).count()).1 <= u64::MAX,
        ensures
            view_members(r@) == walk_members(view_members(v@), old(self).count()).0,
            final(self).count() == old(self).count() + walk_members(
                view_members(v@),
                old(self).count(),
            ).1,
        decreases v,
    {
        let ghost c0 = self.count();
        let ghost orig = v@;
        let ghost ms = view_members(v@);
        proof { lemma_view_members(v@); }
        let mut rest = v;
        let mut out: Vec<ClassMember> = Vec::new();
        while rest.len() > 0
            invariant
                ms == view_members(orig),
                ms.len() == orig.len(),
                orig == v@,
                out.len() + rest.len() == orig.len(),
                rest@ == orig.subrange(out.len() as int, orig.len() as int),
                view_members(out@) == walk_members(ms.subrange(0, out.len() as int), c0).0,
                self.count() == c0 + walk_members(ms.subrange(0, out.len() as int), c0).1,
                c0 + walk_members(ms, c0).1 <= u64::MAX,
            decreases rest.len(),
        {
            let ghost k = out.len() as int;
            let x = rest.remove(0);
            proof {
                assert(x == orig[k]);
                assert(decreases_to!(v => v[k]));
                lemma_view_members(orig);
                assert(ms[k] == view_member(x));
                lemma_walk_members_step(ms, k, c0);
                lemma_walk_members_prefix(ms, k + 1, c0);
            }
            let y = self.visit_member(x);
            proof { lemma_view_members_push(out@, y); }
            out.push(y);
        }
        assert(ms.subrange(0, orig.len() as int) =~= ms);
        out
    }

    /// Rewrites one statement; the helpers of async declarations found at
    /// this level are appended to `frame`.
    fn visit_stmt(&mut self, s: Stmt, frame: &mut Vec<Stmt>) -> (r: Stmt)
        requires
            old(self).count() + walk_stmt(s@, old(self).count()).1 <= u64::MAX,
        ensures
            r@ == walk_stmt(s@, old(self).count()).0,
            final(self).count() == old(self).count() + walk_stmt(s@, old(self).count()).1,
            view_stmts(final(frame)@) == view_stmts(old(frame)@) + walk_stmt(
                s@,
                old(self).count(),
            ).2,
        decreases s,
    {
        let ghost c0 = self.count();
        let ghost f0 = view_stmts(frame@);
        match s {
            Stmt::Expr(e) => {
                assert(f0 + Seq::empty() =~= f0);
                Stmt::Expr(self.visit_expr(e))
            },
            Stmt::Var(k, n, init) => {
                assert(f0 + Seq::empty() =~= f0);
                Stmt::Var(k, n, self.visit_opt(init))
            },
            Stmt::FnDecl(d) => {
                let FnDecl { ident, function } = d;
                let function = self.visit_function(function);
                let mut d2 = FnDecl { ident, function };
                match transform_fn_decl(&mut d2) {
                    Some(h) => {
                        proof { lemma_view_stmts_push(frame@, Stmt::FnDecl(h)); }
                        frame.push(Stmt::FnDecl(h));
                        assert(helper_stmts(Some(h@)) == seq![view_stmt(Stmt::FnDecl(h))]);
                    },
                    None => {
                        assert(f0 + Seq::empty() =~= f0);
                    },
                }
                Stmt::FnDecl(d2)
            },
            Stmt::Class(c) => {
                assert(f0 + Seq::empty() =~= f0);
                let ClassDecl { ident, members } = c;
                let members = self.visit_members(members);
                Stmt::Class(ClassDecl { ident, members })
            },
            Stmt::Return(e) => {
                assert(f0 + Seq::empty() =~= f0);
                Stmt::Return(self.visit_opt(e))
            },
            Stmt::Block(b) => {
                assert(f0 + Seq::empty() =~= f0);
                Stmt::Block(self.visit_stmts(b))
            },
            Stmt::If(c, th, el) => {
                let c2 = self.visit_expr(c);
                let th2 = self.visit_stmt(*th, frame);
                let el2 = match el {
                    Some(x) => Some(Box::new(self.visit_stmt(*x, frame))),
                    None => None,
                };
                let r = Stmt::If(c2, Box::new(th2), el2);
                assert(view_stmts(frame@) =~= f0 + walk_stmt(s@, c0).2);
                r
            },
            Stmt::Other(tag, es, ls) => {
                assert(f0 + Seq::empty() =~= f0);
                let es2 = self.visit_exprs(es);
                let ls2 = self.visit_lists(ls);
                Stmt::Other(tag, es2, ls2)
            },
        }
    }

    fn visit_lists(&mut self, v: Vec<Vec<Stmt>>) -> (r: Vec<Vec<Stmt>>)
        requires
            old(self).count() + walk_lists(view_stmt_lists(v@), old(self).count()).1 <= u64::MAX,
        ensures
            view_stmt_lists(r@) == walk_lists(view_stmt_lists(v@), old(self).count()).0,
            final(self).count() == old(self).count() + walk_lists(
                view_stmt_lists(v@),
                old(self).count(),
            ).1,
        decreases v,
    {
        let ghost c0 = self.count();
        let ghost orig = v@;
        let ghost ms = view_stmt_lists(v@);
        proof { lemma_view_stmt_lists(v@); }
        let mut rest = v;
        let mut out: Vec<Vec<Stmt>> = Vec::new();
        while rest.len() > 0
            invariant
                ms == view_stmt_lists(orig),
                ms.len() == orig.len(),
                forall|j: int| 0 <= j < orig.len() ==> #[trigger] ms[j] == view_stmts(orig[j]@),
                orig == v@,
                out.len() + rest.len() == orig.len(),
                rest@ == orig.subrange(out.len() as int, orig.len() as int),
                view_stmt_lists(out@) == walk_lists(ms.subrange(0, out.len() as int), c0).0,
                self.count() == c0 + walk_lists(ms.subrange(0, out.len() as int), c0).1,
                c0 + walk_lists(ms, c0).1 <= u64::MAX,
            decreases rest.len(),
        {
            let ghost k = out.len() as int;
            let x = rest.remove(0);
            proof {
                assert(x == orig[k]);
                assert(decreases_to!(v => v[k]));
                assert(ms.subrange(0, k + 1).drop_last() =~= ms.subrange(0, k));
                lemma_walk_lists_prefix(ms, k + 1, c0);
            }
            let y = self.visit_stmts(x);
            proof { lemma_view_stmt_lists_push(out@, y); }
            out.push(y);
        }
        assert(ms.subrange(0, orig.len() as int) =~= ms);
        out
    }

    /// Rewrites a statement list: its own frame is opened, and flushed
    /// through hoist placement at the end.
    pub fn visit_stmts(&mut self, v: Vec<Stmt>) -> (r: Vec<Stmt>)
        requires
            old(self).count() + walk_block(view_stmts(v@), old(self).count()).1 <= u64::MAX,
        ensures
            view_stmts(r@) == walk_block(view_stmts(v@), old(self).count()).0,
            final(self).count() == old(self).count() + walk_block(
                view_stmts(v@),
                old(self).count(),
            ).1,
        decreases v,
    {
        let ghost c0 = self.count();
        let ghost orig = v@;
        let ghost ms = view_stmts(v@);
        proof { lemma_view_stmts(v@); }
        let mut frame: Vec<Stmt> = Vec::new();
        assert(view_stmts(frame@) =~= Seq::empty());
        let mut rest = v;
        let mut out: Vec<Stmt> = Vec::new();
        while rest.len() > 0
            invariant
                ms == view_stmts(orig),
                ms.len() == orig.len(),
                forall|j: int| 0 <= j < orig.len() ==> #[trigger] ms[j] == view_stmt(orig[j]),
                orig == v@,
                out.len() + rest.len() == orig.len(),
                rest@ == orig.subrange(out.len() as int, orig.len() as int),
                view_stmts(out@) == walk_stmt_list(ms.subrange(0, out.len() as int), c0).0,
                self.count() == c0 + walk_stmt_list(ms.subrange(0, out.len() as int), c0).1,
                view_stmts(frame@) == walk_stmt_list(ms.subrange(0, out.len() as int), c0).2,
                c0 + walk_stmt_list(ms, c0).1 <= u64::MAX,
            decreases rest.len(),
        {
            let ghost k = out.len() as int;
            let x = rest.remove(0);
            proof {
                assert(x == orig[k]);
                assert(decreases_to!(v => v[k]));
                assert(ms.subrange(0, k + 1).drop_last() =~= ms.subrange(0, k));
                lemma_walk_stmt_list_prefix(ms, k + 1, c0);
            }
            let y = self.visit_stmt(x, &mut frame);
            proof { lemma_view_stmts_push(out@, y); }
            out.push(y);
            assert(view_stmts(frame@) =~= walk_stmt_list(ms.subrange(0, k + 1), c0).2);
        }
        assert(ms.subrange(0, orig.len() as int) =~= ms);
        insert_hoisted_stmts(&mut out, frame);
        out
    }

    /// Rewrites the items of a module, with the module's own frame.
    pub fn visit_module_items(&mut self, items: Vec<ModuleItem>) -> (r: Vec<ModuleItem>)
        requires
            old(self).count() + walk_items(view_items(items@), old(self).count()).1 <= u64::MAX,
        ensures
            view_items(r@) == ({
                let w = walk_items(view_items(items@), old(self).count());
                hoist_items(w.0, w.2)
            }),
            final(self).count() == old(self).count() + walk_items(
                view_items(items@),
                old(self).count(),
            ).1,
    {
        let ghost c0 = self.count();
        let ghost orig = items@;
        let ghost ms = view_items(items@);
        let mut frame: Vec<Stmt> = Vec::new();
        assert(view_stmts(frame@) =~= Seq::empty());
        let mut rest = items;
        let mut out: Vec<ModuleItem> = Vec::new();
        assert(Seq::<SpecStmt>::empty() + Seq::empty() =~= Seq::<SpecStmt>::empty());
        while rest.len() > 0
            invariant
                ms == view_items(orig),
                ms.len() == orig.len(),
                out.len() + rest.len() == orig.len(),
                rest@ == orig.subrange(out.len() as int, orig.len() as int),
                view_items(out@) == walk_items(ms.subrange(0, out.len() as int), c0).0,
                self.count() == c0 + walk_items(ms.subrange(0, out.len() as int), c0).1,
                view_stmts(frame@) == walk_items(ms.subrange(0, out.len() as int), c0).2,
                c0 + walk_items(ms, c0).1 <= u64::MAX,
            decreases rest.len(),
        {
            let ghost k = out.len() as int;
            let x = rest.remove(0);
            proof {
                assert(x == orig[k]);
                assert(ms[k] == view_item(x));
                assert(ms.subrange(0, k + 1).drop_last() =~= ms.subrange(0, k));
                lemma_walk_items_prefix(ms, k + 1, c0);
            }
            let y = match x {
                ModuleItem::Stmt(s) => ModuleItem::Stmt(self.visit_stmt(s, &mut frame)),
                ModuleItem::Export(s) => ModuleItem::Export(self.visit_stmt(s, &mut frame)),
                ModuleItem::Opaque(h) => ModuleItem::Opaque(h),
            };
            let ghost before = out@;
            out.push(y);
            assert(view_items(out@) =~= view_items(before).push(view_item(y)));
            assert(view_stmts(frame@) =~= walk_items(ms.subrange(0, k + 1), c0).2);
        }
        assert(ms.subrange(0, orig.len() as int) =~= ms);
        insert_hoisted_module_items(&mut out, frame);
        out
    }
}

impl Default for AsyncToNgGeneratorVisitor {
    fn default() -> (r: Self)
        ensures
            r.count() == 0,
    {
        Self::new()
    }
}

/// Runs one pass over a module.
pub fn transform(module: Module) -> (r: Module)
    requires
        names_used(module@) <= u64::MAX,
    ensures
        r@ == transform_items(module@),
{
    let mut visitor = AsyncToNgGeneratorVisitor::new();
    let Module { body } = module;
    let body = visitor.visit_module_items(body);
    Module { body }
}

} // verus!
