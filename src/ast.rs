//! The syntax tree that the pass rewrites, and its mathematical model.
//!
//! Every executable node type has a view of the same shape in which names are
//! `Seq<char>` and child lists are `Seq`s; the contracts of the pass are stated
//! over those views.

use vstd::prelude::*;

verus! {

/// The keyword of a variable declaration.
#[derive(Clone, Copy, Debug, PartialEq, Eq)]
pub enum VarKind {
    Var,
    Let,
    Const,
}

/// What a method of a class or of an object literal is.
#[derive(Clone, Copy, Debug, PartialEq, Eq)]
pub enum MethodKind {
    Method,
    Getter,
    Setter,
    Constructor,
}

/// A binding pattern of a parameter list.
#[derive(Debug, PartialEq, Eq)]
pub enum Pat {
    /// `name`
    Ident(String),
    /// `...name`
    Rest(String),
}

/// A function: parameters, body and flags. An ambient declaration has no body.
#[derive(Debug, PartialEq, Eq)]
pub struct Function {
    pub params: Vec<Pat>,
    pub body: Option<Vec<Stmt>>,
    pub is_async: bool,
    pub is_generator: bool,
}

/// `function name(params) { body }` as an expression; the name is optional.
#[derive(Debug, PartialEq, Eq)]
pub struct FnExpr {
    pub ident: Option<String>,
    pub function: Function,
}

/// The body of an arrow function.
#[derive(Debug, PartialEq, Eq)]
pub enum ArrowBody {
    Block(Vec<Stmt>),
    Expr(Box<Expr>),
}

/// `(params) => body`
#[derive(Debug, PartialEq, Eq)]
pub struct ArrowExpr {
    pub params: Vec<Pat>,
    pub body: ArrowBody,
    pub is_async: bool,
}

/// A method of an object literal: `key(params) { body }`.
#[derive(Debug, PartialEq, Eq)]
pub struct MethodProp {
    pub key: String,
    pub kind: MethodKind,
    pub function: Function,
}

/// A property of an object literal.
#[derive(Debug, PartialEq, Eq)]
pub enum Prop {
    /// `key: value`
    KeyValue(String, Expr),
    Method(MethodProp),
}

#[derive(Debug, PartialEq, Eq)]
pub enum Expr {
    /// The context keyword `this`.
    This,
    Ident(String),
    /// A literal, as its source text.
    Lit(String),
    /// `await arg`
    Await(Box<Expr>),
    /// `yield arg` (never delegating)
    Yield(Box<Expr>),
    /// `obj.prop`
    Member(Box<Expr>, String),
    /// `callee(args)`
    Call(Box<Expr>, Vec<Expr>),
    /// `target = value`
    Assign(Box<Expr>, Box<Expr>),
    /// Any other operator (unary, binary, conditional, `new`, array literal,
    /// ...) applied to operands that are evaluated in the enclosing function.
    Op(String, Vec<Expr>),
    /// An object literal.
    Object(Vec<Prop>),
    Fn(FnExpr),
    Arrow(ArrowExpr),
}

/// `function ident(params) { body }` as a declaration.
#[derive(Debug, PartialEq, Eq)]
pub struct FnDecl {
    pub ident: String,
    pub function: Function,
}

/// A method of a class.
#[derive(Debug, PartialEq, Eq)]
pub struct ClassMethod {
    pub key: String,
    pub kind: MethodKind,
    pub is_static: bool,
    pub function: Function,
}

#[derive(Debug, PartialEq, Eq)]
pub enum ClassMember {
    Method(ClassMethod),
    /// A field with its optional initializer.
    Field(String, Option<Expr>),
}

/// `class ident { members }`
#[derive(Debug, PartialEq, Eq)]
pub struct ClassDecl {
    pub ident: String,
    pub members: Vec<ClassMember>,
}

#[derive(Debug, PartialEq, Eq)]
pub enum Stmt {
    Expr(Expr),
    /// `kind name = init;`
    Var(VarKind, String, Option<Expr>),
    FnDecl(FnDecl),
    Class(ClassDecl),
    Return(Option<Expr>),
    Block(Vec<Stmt>),
    /// `if (test) cons else alt`
    If(Expr, Box<Stmt>, Option<Box<Stmt>>),
    /// Any other statement (a loop, `try`, `throw`, `switch`, a label,
    /// `break`, ...): its kind, the expressions it evaluates in the enclosing
    /// function, and the statement lists it holds, each a lexical level of
    /// its own.
    Other(String, Vec<Expr>, Vec<Vec<Stmt>>),
}

/// A top-level item of a module.
#[derive(Debug, PartialEq, Eq)]
pub enum ModuleItem {
    Stmt(Stmt),
    /// `export` in front of a declaration.
    Export(Stmt),
    /// An item the pass keeps as it is (an import, a re-export, ...), as a
    /// handle of the host.
    Opaque(String),
}

#[derive(Debug, PartialEq, Eq)]
pub struct Module {
    pub body: Vec<ModuleItem>,
}

// ---------------------------------------------------------------------------
// The model
// ---------------------------------------------------------------------------

pub enum SpecPat {
    Ident(Seq<char>),
    Rest(Seq<char>),
}

pub struct SpecFunction {
    pub params: Seq<SpecPat>,
    pub body: Option<Seq<SpecStmt>>,
    pub is_async: bool,
    pub is_generator: bool,
}

pub struct SpecFnExpr {
    pub ident: Option<Seq<char>>,
    pub function: SpecFunction,
}

pub enum SpecArrowBody {
    Block(Seq<SpecStmt>),
    Expr(Box<SpecExpr>),
}

pub struct SpecArrowExpr {
    pub params: Seq<SpecPat>,
    pub body: SpecArrowBody,
    pub is_async: bool,
}

pub struct SpecMethodProp {
    pub key: Seq<char>,
    pub kind: MethodKind,
    pub function: SpecFunction,
}

pub enum SpecProp {
    KeyValue(Seq<char>, SpecExpr),
    Method(SpecMethodProp),
}

pub enum SpecExpr {
    This,
    Ident(Seq<char>),
    Lit(Seq<char>),
    Await(Box<SpecExpr>),
    Yield(Box<SpecExpr>),
    Member(Box<SpecExpr>, Seq<char>),
    Call(Box<SpecExpr>, Seq<SpecExpr>),
    Assign(Box<SpecExpr>, Box<SpecExpr>),
    Op(Seq<char>, Seq<SpecExpr>),
    Object(Seq<SpecProp>),
    Fn(SpecFnExpr),
    Arrow(SpecArrowExpr),
}

pub struct SpecFnDecl {
    pub ident: Seq<char>,
    pub function: SpecFunction,
}

pub struct SpecClassMethod {
    pub key: Seq<char>,
    pub kind: MethodKind,
    pub is_static: bool,
    pub function: SpecFunction,
}

pub enum SpecClassMember {
    Method(SpecClassMethod),
    Field(Seq<char>, Option<SpecExpr>),
}

pub struct SpecClassDecl {
    pub ident: Seq<char>,
    pub members: Seq<SpecClassMember>,
}

pub enum SpecStmt {
    Expr(SpecExpr),
    Var(VarKind, Seq<char>, Option<SpecExpr>),
    FnDecl(SpecFnDecl),
    Class(SpecClassDecl),
    Return(Option<SpecExpr>),
    Block(Seq<SpecStmt>),
    If(SpecExpr, Box<SpecStmt>, Option<Box<SpecStmt>>),
    Other(Seq<char>, Seq<SpecExpr>, Seq<Seq<SpecStmt>>),
}

pub enum SpecModuleItem {
    Stmt(SpecStmt),
    Export(SpecStmt),
    Opaque(Seq<char>),
}

// ---------------------------------------------------------------------------
// Views
// ---------------------------------------------------------------------------

pub open spec fn view_pat(p: Pat) -> SpecPat {
    match p {
        Pat::Ident(n) => SpecPat::Ident(n@),
        Pat::Rest(n) => SpecPat::Rest(n@),
    }
}

pub open spec fn view_pats(s: Seq<Pat>) -> Seq<SpecPat> {
    s.map_values(|p: Pat| view_pat(p))
}

pub open spec fn view_opt_name(n: Option<String>) -> Option<Seq<char>> {
    match n {
        Some(s) => Some(s@),
        None => None,
    }
}

pub open spec fn view_function(f: Function) -> SpecFunction
    decreases f,
{
    SpecFunction {
        params: view_pats(f.params@),
        body: match f.body {
            Some(b) => Some(view_stmts(b@)),
            None => None,
        },
        is_async: f.is_async,
        is_generator: f.is_generator,
    }
}

pub open spec fn view_expr(e: Expr) -> SpecExpr
    decreases e,
{
    match e {
        Expr::This => SpecExpr::This,
        Expr::Ident(n) => SpecExpr::Ident(n@),
        Expr::Lit(n) => SpecExpr::Lit(n@),
        Expr::Await(a) => SpecExpr::Await(Box::new(view_expr(*a))),
        Expr::Yield(a) => SpecExpr::Yield(Box::new(view_expr(*a))),
        Expr::Member(o, p) => SpecExpr::Member(Box::new(view_expr(*o)), p@),
        Expr::Call(c, args) => SpecExpr::Call(Box::new(view_expr(*c)), view_exprs(args@)),
        Expr::Assign(l, r) => SpecExpr::Assign(Box::new(view_expr(*l)), Box::new(view_expr(*r))),
        Expr::Op(op, args) => SpecExpr::Op(op@, view_exprs(args@)),
        Expr::Object(props) => SpecExpr::Object(view_props(props@)),
        Expr::Fn(f) => SpecExpr::Fn(
            SpecFnExpr { ident: view_opt_name(f.ident), function: view_function(f.function) },
        ),
        Expr::Arrow(a) => SpecExpr::Arrow(
            SpecArrowExpr {
                params: view_pats(a.params@),
                body: match a.body {
                    ArrowBody::Block(b) => SpecArrowBody::Block(view_stmts(b@)),
                    ArrowBody::Expr(x) => SpecArrowBody::Expr(Box::new(view_expr(*x))),
                },
                is_async: a.is_async,
            },
        ),
    }
}

pub open spec fn view_opt_expr(e: Option<Expr>) -> Option<SpecExpr>
    decreases e,
{
    match e {
        Some(x) => Some(view_expr(x)),
        None => None,
    }
}

pub open spec fn view_exprs(s: Seq<Expr>) -> Seq<SpecExpr>
    decreases s,
{
    if s.len() == 0 {
        Seq::empty()
    } else {
        view_exprs(s.drop_last()).push(view_expr(s.last()))
    }
}

pub open spec fn view_prop(p: Prop) -> SpecProp
    decreases p,
{
    match p {
        Prop::KeyValue(k, v) => SpecProp::KeyValue(k@, view_expr(v)),
        Prop::Method(m) => SpecProp::Method(
            SpecMethodProp { key: m.key@, kind: m.kind, function: view_function(m.function) },
        ),
    }
}

pub open spec fn view_props(s: Seq<Prop>) -> Seq<SpecProp>
    decreases s,
{
    if s.len() == 0 {
        Seq::empty()
    } else {
        view_props(s.drop_last()).push(view_prop(s.last()))
    }
}

pub open spec fn view_member(m: ClassMember) -> SpecClassMember
    decreases m,
{
    match m {
        ClassMember::Method(cm) => SpecClassMember::Method(
            SpecClassMethod {
                key: cm.key@,
                kind: cm.kind,
                is_static: cm.is_static,
                function: view_function(cm.function),
            },
        ),
        ClassMember::Field(k, v) => SpecClassMember::Field(k@, view_opt_expr(v)),
    }
}

pub open spec fn view_members(s: Seq<ClassMember>) -> Seq<SpecClassMember>
    decreases s,
{
    if s.len() == 0 {
        Seq::empty()
    } else {
        view_members(s.drop_last()).push(view_member(s.last()))
    }
}

pub open spec fn view_stmt(s: Stmt) -> SpecStmt
    decreases s,
{
    match s {
        Stmt::Expr(e) => SpecStmt::Expr(view_expr(e)),
        Stmt::Var(k, n, init) => SpecStmt::Var(k, n@, view_opt_expr(init)),
        Stmt::FnDecl(d) => SpecStmt::FnDecl(
            SpecFnDecl { ident: d.ident@, function: view_function(d.function) },
        ),
        Stmt::Class(c) => SpecStmt::Class(
            SpecClassDecl { ident: c.ident@, members: view_members(c.members@) },
        ),
        Stmt::Return(e) => SpecStmt::Return(view_opt_expr(e)),
        Stmt::Block(b) => SpecStmt::Block(view_stmts(b@)),
        Stmt::If(t, c, a) => SpecStmt::If(
            view_expr(t),
            Box::new(view_stmt(*c)),
            match a {
                Some(x) => Some(Box::new(view_stmt(*x))),
                None => None,
            },
        ),
        Stmt::Other(tag, es, ls) => SpecStmt::Other(tag@, view_exprs(es@), view_stmt_lists(ls@)),
    }
}

pub open spec fn view_stmt_lists(s: Seq<Vec<Stmt>>) -> Seq<Seq<SpecStmt>>
    decreases s,
{
    if s.len() == 0 {
        Seq::empty()
    } else {
        view_stmt_lists(s.drop_last()).push(view_stmts(s.last()@))
    }
}

pub open spec fn view_stmts(s: Seq<Stmt>) -> Seq<SpecStmt>
    decreases s,
{
    if s.len() == 0 {
        Seq::empty()
    } else {
        view_stmts(s.drop_last()).push(view_stmt(s.last()))
    }
}

pub open spec fn view_item(i: ModuleItem) -> SpecModuleItem {
    match i {
        ModuleItem::Stmt(s) => SpecModuleItem::Stmt(view_stmt(s)),
        ModuleItem::Export(s) => SpecModuleItem::Export(view_stmt(s)),
        ModuleItem::Opaque(h) => SpecModuleItem::Opaque(h@),
    }
}

pub open spec fn view_items(s: Seq<ModuleItem>) -> Seq<SpecModuleItem> {
    s.map_values(|i: ModuleItem| view_item(i))
}

impl View for Pat {
    type V = SpecPat;

    open spec fn view(&self) -> SpecPat {
        view_pat(*self)
    }
}

impl View for Function {
    type V = SpecFunction;

    open spec fn view(&self) -> SpecFunction {
        view_function(*self)
    }
}

impl View for Expr {
    type V = SpecExpr;

    open spec fn view(&self) -> SpecExpr {
        view_expr(*self)
    }
}

impl View for Stmt {
    type V = SpecStmt;

    open spec fn view(&self) -> SpecStmt {
        view_stmt(*self)
    }
}

impl View for Module {
    type V = Seq<SpecModuleItem>;

    open spec fn view(&self) -> Seq<SpecModuleItem> {
        view_items(self.body@)
    }
}

impl View for FnDecl {
    type V = SpecFnDecl;

    open spec fn view(&self) -> SpecFnDecl {
        SpecFnDecl { ident: self.ident@, function: view_function(self.function) }
    }
}

impl View for FnExpr {
    type V = SpecFnExpr;

    open spec fn view(&self) -> SpecFnExpr {
        SpecFnExpr { ident: view_opt_name(self.ident), function: view_function(self.function) }
    }
}

impl View for ArrowBody {
    type V = SpecArrowBody;

    open spec fn view(&self) -> SpecArrowBody {
        match *self {
            ArrowBody::Block(b) => SpecArrowBody::Block(view_stmts(b@)),
            ArrowBody::Expr(x) => SpecArrowBody::Expr(Box::new(view_expr(*x))),
        }
    }
}

impl View for ArrowExpr {
    type V = SpecArrowExpr;

    open spec fn view(&self) -> SpecArrowExpr {
        SpecArrowExpr { params: view_pats(self.params@), body: self.body@, is_async: self.is_async }
    }
}

impl View for ClassMethod {
    type V = SpecClassMethod;

    open spec fn view(&self) -> SpecClassMethod {
        SpecClassMethod {
            key: self.key@,
            kind: self.kind,
            is_static: self.is_static,
            function: view_function(self.function),
        }
    }
}

impl View for MethodProp {
    type V = SpecMethodProp;

    open spec fn view(&self) -> SpecMethodProp {
        SpecMethodProp { key: self.key@, kind: self.kind, function: view_function(self.function) }
    }
}

pub open spec fn view_opt_fn_decl(d: Option<FnDecl>) -> Option<SpecFnDecl> {
    match d {
        Some(x) => Some(x@),
        None => None,
    }
}

// ---------------------------------------------------------------------------
// Facts about the views of lists
// ---------------------------------------------------------------------------

pub proof fn lemma_view_exprs(s: Seq<Expr>)
    ensures
        view_exprs(s).len() == s.len(),
        forall|i: int| 0 <= i < s.len() ==> #[trigger] view_exprs(s)[i] == view_expr(s[i]),
    decreases s.len(),
{
    if s.len() > 0 {
        lemma_view_exprs(s.drop_last());
    }
}

pub proof fn lemma_view_exprs_push(s: Seq<Expr>, x: Expr)
    ensures
        view_exprs(s.push(x)) == view_exprs(s).push(view_expr(x)),
{
    assert(s.push(x).drop_last() =~= s);
}

pub proof fn lemma_view_stmts(s: Seq<Stmt>)
    ensures
        view_stmts(s).len() == s.len(),
        forall|i: int| 0 <= i < s.len() ==> #[trigger] view_stmts(s)[i] == view_stmt(s[i]),
    decreases s.len(),
{
    if s.len() > 0 {
        lemma_view_stmts(s.drop_last());
    }
}

pub proof fn lemma_view_stmts_push(s: Seq<Stmt>, x: Stmt)
    ensures
        view_stmts(s.push(x)) == view_stmts(s).push(view_stmt(x)),
{
    assert(s.push(x).drop_last() =~= s);
}

pub proof fn lemma_view_stmts_concat(a: Seq<Stmt>, b: Seq<Stmt>)
    ensures
        view_stmts(a + b) == view_stmts(a) + view_stmts(b),
{
    lemma_view_stmts(a);
    lemma_view_stmts(b);
    lemma_view_stmts(a + b);
    assert(view_stmts(a + b) =~= view_stmts(a) + view_stmts(b));
}

pub proof fn lemma_view_stmts_subrange(s: Seq<Stmt>, i: int, j: int)
    requires
        0 <= i <= j <= s.len(),
    ensures
        view_stmts(s.subrange(i, j)) == view_stmts(s).subrange(i, j),
{
    lemma_view_stmts(s);
    lemma_view_stmts(s.subrange(i, j));
    assert(view_stmts(s.subrange(i, j)) =~= view_stmts(s).subrange(i, j));
}

pub proof fn lemma_view_stmt_lists(s: Seq<Vec<Stmt>>)
    ensures
        view_stmt_lists(s).len() == s.len(),
        forall|i: int|
            0 <= i < s.len() ==> #[trigger] view_stmt_lists(s)[i] == view_stmts(s[i]@),
    decreases s.len(),
{
    if s.len() > 0 {
        lemma_view_stmt_lists(s.drop_last());
    }
}

pub proof fn lemma_view_stmt_lists_push(s: Seq<Vec<Stmt>>, x: Vec<Stmt>)
    ensures
        view_stmt_lists(s.push(x)) == view_stmt_lists(s).push(view_stmts(x@)),
{
    assert(s.push(x).drop_last() =~= s);
}

pub proof fn lemma_view_props(s: Seq<Prop>)
    ensures
        view_props(s).len() == s.len(),
        forall|i: int| 0 <= i < s.len() ==> #[trigger] view_props(s)[i] == view_prop(s[i]),
    decreases s.len(),
{
    if s.len() > 0 {
        lemma_view_props(s.drop_last());
    }
}

pub proof fn lemma_view_props_push(s: Seq<Prop>, x: Prop)
    ensures
        view_props(s.push(x)) == view_props(s).push(view_prop(x)),
{
    assert(s.push(x).drop_last() =~= s);
}

pub proof fn lemma_view_members(s: Seq<ClassMember>)
    ensures
        view_members(s).len() == s.len(),
        forall|i: int| 0 <= i < s.len() ==> #[trigger] view_members(s)[i] == view_member(s[i]),
    decreases s.len(),
{
    if s.len() > 0 {
        lemma_view_members(s.drop_last());
    }
}

pub proof fn lemma_view_members_push(s: Seq<ClassMember>, x: ClassMember)
    ensures
        view_members(s.push(x)) == view_members(s).push(view_member(x)),
{
    assert(s.push(x).drop_last() =~= s);
}

} // verus!
