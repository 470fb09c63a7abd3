use async_to_ng_generator::ast::{
    ArrowBody, ArrowExpr, ClassDecl, ClassMember, ClassMethod, Expr, FnDecl, FnExpr, Function,
    MethodKind, MethodProp, Module, ModuleItem, Pat, Prop, Stmt, VarKind,
};
use async_to_ng_generator::bound::{names_bound, transform_bounded};
use async_to_ng_generator::hoist::{insert_hoisted_module_items, insert_hoisted_stmts};
use async_to_ng_generator::names::RefCounter;
use async_to_ng_generator::scan::{AwaitToYieldVisitor, HasAwaitVisitor, HasThisVisitor, ThisCaptureVisitor};
use async_to_ng_generator::transforms::{
    create_generator_function, transform_arrow_fn, transform_class_method, transform_fn_decl,
    transform_fn_expr, transform_method, transform_object_method,
};
use async_to_ng_generator::walker::{transform, AsyncToNgGeneratorVisitor};

fn id(x: &str) -> Expr {
    Expr::Ident(x.to_string())
}

fn pat(x: &str) -> Pat {
    Pat::Ident(x.to_string())
}

fn call(callee: Expr, args: Vec<Expr>) -> Expr {
    Expr::Call(Box::new(callee), args)
}

fn member(obj: Expr, prop: &str) -> Expr {
    Expr::Member(Box::new(obj), prop.to_string())
}

fn awaited(e: Expr) -> Expr {
    Expr::Await(Box::new(e))
}

fn yielded(e: Expr) -> Expr {
    Expr::Yield(Box::new(e))
}

fn ret(e: Expr) -> Stmt {
    Stmt::Return(Some(e))
}

fn func(params: Vec<Pat>, body: Vec<Stmt>, is_async: bool) -> Function {
    Function { params, body: Some(body), is_async, is_generator: false }
}

fn decl(name: &str, f: Function) -> Stmt {
    Stmt::FnDecl(FnDecl { ident: name.to_string(), function: f })
}

fn apply(wrapper: &str) -> Expr {
    call(member(id(wrapper), "apply"), vec![Expr::This, id("arguments")])
}

fn apply_captured(wrapper: &str) -> Expr {
    call(member(id(wrapper), "apply"), vec![id("_this"), id("arguments")])
}

fn ng(generator: Expr) -> Expr {
    call(id("_ngAsyncToGenerator"), vec![generator])
}

fn generator(params: Vec<Pat>, body: Vec<Stmt>) -> Expr {
    Expr::Fn(FnExpr {
        ident: None,
        function: Function { params, body: Some(body), is_async: false, is_generator: true },
    })
}

fn plain_fn(name: Option<&str>, params: Vec<Pat>, body: Vec<Stmt>) -> Expr {
    Expr::Fn(FnExpr { ident: name.map(|n| n.to_string()), function: func(params, body, false) })
}

fn var(kind: VarKind, name: &str, init: Expr) -> Stmt {
    Stmt::Var(kind, name.to_string(), Some(init))
}

fn module(items: Vec<Stmt>) -> Module {
    Module { body: items.into_iter().map(ModuleItem::Stmt).collect() }
}

/// `(function () { var ref = _ngAsyncToGenerator(gen); return function name() { return ref.apply(this, arguments); }; })()`
fn ref_wrapper(name: Option<&str>, gen: Expr, ref_name: &str) -> Expr {
    call(
        plain_fn(
            None,
            vec![],
            vec![
                var(VarKind::Var, ref_name, ng(gen)),
                ret(plain_fn(name, vec![], vec![ret(apply(ref_name))])),
            ],
        ),
        vec![],
    )
}

/// `async function foo(a, b) { return await bar(a, b); }`
fn foo_decl() -> Stmt {
    decl(
        "foo",
        func(vec![pat("a"), pat("b")], vec![ret(awaited(call(id("bar"), vec![id("a"), id("b")])))], true),
    )
}

/// The two declarations that `foo_decl` becomes.
fn foo_forward() -> Stmt {
    decl("foo", func(vec![], vec![ret(apply("_foo"))], false))
}

fn foo_helper() -> Stmt {
    decl(
        "_foo",
        func(
            vec![],
            vec![
                Stmt::Expr(Expr::Assign(
                    Box::new(id("_foo")),
                    Box::new(ng(generator(
                        vec![pat("a"), pat("b")],
                        vec![ret(yielded(call(id("bar"), vec![id("a"), id("b")])))],
                    ))),
                )),
                ret(apply("_foo")),
            ],
            false,
        ),
    )
}

#[test]
fn function_declaration_end_to_end() {
    let out = transform(module(vec![foo_decl()]));
    assert_eq!(out, module(vec![foo_forward(), foo_helper()]));
}

#[test]
fn helper_is_hoisted_right_after_its_declaration() {
    let out = transform(module(vec![foo_decl()]));
    let names: Vec<String> = out
        .body
        .iter()
        .filter_map(|i| match i {
            ModuleItem::Stmt(Stmt::FnDecl(d)) => Some(d.ident.clone()),
            _ => None,
        })
        .collect();
    assert_eq!(names, vec!["foo".to_string(), "_foo".to_string()]);
    assert_eq!(out.body.len(), 2);
}

#[test]
fn helpers_go_after_the_last_function_declaration() {
    // async function a() { await x; } let y = 1; function b() {}
    let input = module(vec![
        decl("a", func(vec![], vec![Stmt::Expr(awaited(id("x")))], true)),
        var(VarKind::Let, "y", Expr::Lit("1".to_string())),
        decl("b", func(vec![], vec![], false)),
    ]);
    let out = transform(input);
    let helper_a = decl(
        "_a",
        func(
            vec![],
            vec![
                Stmt::Expr(Expr::Assign(
                    Box::new(id("_a")),
                    Box::new(ng(generator(vec![], vec![Stmt::Expr(yielded(id("x")))]))),
                )),
                ret(apply("_a")),
            ],
            false,
        ),
    );
    let expected = module(vec![
        decl("a", func(vec![], vec![ret(apply("_a"))], false)),
        var(VarKind::Let, "y", Expr::Lit("1".to_string())),
        decl("b", func(vec![], vec![], false)),
        helper_a,
    ]);
    assert_eq!(out, expected);
}

#[test]
fn exported_function_counts_as_a_declaration_for_hoisting() {
    let mut items = vec![
        ModuleItem::Export(decl("f", func(vec![], vec![], false))),
        ModuleItem::Stmt(Stmt::Expr(id("x"))),
    ];
    insert_hoisted_module_items(&mut items, vec![decl("h", func(vec![], vec![], false))]);
    assert_eq!(
        items,
        vec![
            ModuleItem::Export(decl("f", func(vec![], vec![], false))),
            ModuleItem::Stmt(decl("h", func(vec![], vec![], false))),
            ModuleItem::Stmt(Stmt::Expr(id("x"))),
        ]
    );
}

#[test]
fn hoisting_without_declarations_inserts_at_the_front_in_order() {
    let mut stmts = vec![Stmt::Expr(id("x")), Stmt::Expr(id("y"))];
    insert_hoisted_stmts(
        &mut stmts,
        vec![decl("h1", func(vec![], vec![], false)), decl("h2", func(vec![], vec![], false))],
    );
    assert_eq!(
        stmts,
        vec![
            decl("h1", func(vec![], vec![], false)),
            decl("h2", func(vec![], vec![], false)),
            Stmt::Expr(id("x")),
            Stmt::Expr(id("y")),
        ]
    );
}

#[test]
fn hoisting_nothing_leaves_the_list_alone() {
    let mut stmts = vec![decl("f", func(vec![], vec![], false)), Stmt::Expr(id("x"))];
    insert_hoisted_stmts(&mut stmts, vec![]);
    assert_eq!(stmts, vec![decl("f", func(vec![], vec![], false)), Stmt::Expr(id("x"))]);
}

#[test]
fn nested_helper_stays_in_the_enclosing_body() {
    // function outer() { async function inner() { await x; } }
    let input = module(vec![decl(
        "outer",
        func(vec![], vec![decl("inner", func(vec![], vec![Stmt::Expr(awaited(id("x")))], true))], false),
    )]);
    let out = transform(input);
    let helper = decl(
        "_inner",
        func(
            vec![],
            vec![
                Stmt::Expr(Expr::Assign(
                    Box::new(id("_inner")),
                    Box::new(ng(generator(vec![], vec![Stmt::Expr(yielded(id("x")))]))),
                )),
                ret(apply("_inner")),
            ],
            false,
        ),
    );
    let expected = module(vec![decl(
        "outer",
        func(vec![], vec![decl("inner", func(vec![], vec![ret(apply("_inner"))], false)), helper], false),
    )]);
    assert_eq!(out, expected);
}

#[test]
fn class_method_captures_this() {
    // class Service { async load() { await this.fetch(); } }
    let input = module(vec![Stmt::Class(ClassDecl {
        ident: "Service".to_string(),
        members: vec![ClassMember::Method(ClassMethod {
            key: "load".to_string(),
            kind: MethodKind::Method,
            is_static: false,
            function: func(vec![], vec![Stmt::Expr(awaited(call(member(Expr::This, "fetch"), vec![])))], true),
        })],
    })]);
    let out = transform(input);
    let body = vec![
        var(VarKind::Var, "_this", Expr::This),
        ret(call(
            ng(generator(vec![], vec![Stmt::Expr(yielded(call(member(id("_this"), "fetch"), vec![])))])),
            vec![],
        )),
    ];
    let expected = module(vec![Stmt::Class(ClassDecl {
        ident: "Service".to_string(),
        members: vec![ClassMember::Method(ClassMethod {
            key: "load".to_string(),
            kind: MethodKind::Method,
            is_static: false,
            function: func(vec![], body, false),
        })],
    })]);
    assert_eq!(out, expected);
}

#[test]
fn method_without_this_has_no_capture() {
    let mut m = ClassMethod {
        key: "run".to_string(),
        kind: MethodKind::Method,
        is_static: true,
        function: func(vec![pat("a")], vec![ret(awaited(id("a")))], true),
    };
    transform_class_method(&mut m);
    let expected = ClassMethod {
        key: "run".to_string(),
        kind: MethodKind::Method,
        is_static: true,
        function: func(
            vec![pat("a")],
            vec![ret(call(ng(generator(vec![], vec![ret(yielded(id("a")))])), vec![]))],
            false,
        ),
    };
    assert_eq!(m, expected);
}

#[test]
fn arrow_forwards_the_captured_context() {
    // const f = async () => { return await this.x(); };
    let arrow = Expr::Arrow(ArrowExpr {
        params: vec![],
        body: ArrowBody::Block(vec![ret(awaited(call(member(Expr::This, "x"), vec![])))]),
        is_async: true,
    });
    let out = transform(module(vec![var(VarKind::Const, "f", arrow)]));
    let gen = generator(vec![], vec![ret(yielded(call(member(id("_this"), "x"), vec![])))]);
    let wrapper = call(
        Expr::Fn(FnExpr {
            ident: None,
            function: func(
                vec![pat("_this")],
                vec![
                    var(VarKind::Var, "_ref", ng(gen)),
                    ret(plain_fn(None, vec![], vec![ret(apply_captured("_ref"))])),
                ],
                false,
            ),
        }),
        vec![Expr::This],
    );
    assert_eq!(out, module(vec![var(VarKind::Const, "f", wrapper)]));
}

#[test]
fn arrow_without_this_forwards_call_time_context() {
    // const g = async (u) => await fetch(u);
    let mut arrow = ArrowExpr {
        params: vec![pat("u")],
        body: ArrowBody::Expr(Box::new(awaited(call(id("fetch"), vec![id("u")])))),
        is_async: true,
    };
    let r = transform_arrow_fn(&mut arrow, "_ref3");
    let gen = generator(vec![pat("u")], vec![ret(yielded(call(id("fetch"), vec![id("u")])))]);
    assert_eq!(r, Some(ref_wrapper(None, gen, "_ref3")));
}

#[test]
fn named_function_expression_keeps_its_name() {
    // (async function named() { await y; })
    let mut f = FnExpr {
        ident: Some("named".to_string()),
        function: func(vec![pat("p")], vec![Stmt::Expr(awaited(id("y")))], true),
    };
    let r = transform_fn_expr(&mut f, "_ref");
    let gen = generator(vec![pat("p")], vec![Stmt::Expr(yielded(id("y")))]);
    assert_eq!(r, Some(ref_wrapper(Some("named"), gen, "_ref")));
}

#[test]
fn function_expression_does_not_capture_this() {
    let mut f = FnExpr {
        ident: None,
        function: func(vec![], vec![ret(awaited(member(Expr::This, "v")))], true),
    };
    let r = transform_fn_expr(&mut f, "_ref");
    let gen = generator(vec![], vec![ret(yielded(member(Expr::This, "v")))]);
    assert_eq!(r, Some(ref_wrapper(None, gen, "_ref")));
}

#[test]
fn generated_names_are_distinct_and_ordered() {
    // [async () => await a, async function () { await b; }, async () => 1]
    let input = module(vec![Stmt::Expr(Expr::Op(
        "[]".to_string(),
        vec![
            Expr::Arrow(ArrowExpr { params: vec![], body: ArrowBody::Expr(Box::new(awaited(id("a")))), is_async: true }),
            Expr::Fn(FnExpr { ident: None, function: func(vec![], vec![Stmt::Expr(awaited(id("b")))], true) }),
            Expr::Arrow(ArrowExpr { params: vec![], body: ArrowBody::Expr(Box::new(Expr::Lit("1".to_string()))), is_async: true }),
        ],
    ))]);
    let out = transform(input);
    let expected = module(vec![Stmt::Expr(Expr::Op(
        "[]".to_string(),
        vec![
            ref_wrapper(None, generator(vec![], vec![ret(yielded(id("a")))]), "_ref"),
            ref_wrapper(None, generator(vec![], vec![Stmt::Expr(yielded(id("b")))]), "_ref1"),
            Expr::Arrow(ArrowExpr { params: vec![], body: ArrowBody::Expr(Box::new(Expr::Lit("1".to_string()))), is_async: false }),
        ],
    ))]);
    assert_eq!(out, expected);
}

#[test]
fn ref_counter_sequence() {
    let mut c = RefCounter::new();
    let names: Vec<String> = (0..12).map(|_| c.next()).collect();
    assert_eq!(names[0], "_ref");
    assert_eq!(names[1], "_ref1");
    assert_eq!(names[2], "_ref2");
    assert_eq!(names[10], "_ref10");
    assert_eq!(names[11], "_ref11");
    assert_eq!(c.count, 12);
    let mut big = RefCounter { count: 1234567 };
    assert_eq!(big.peek(), "_ref1234567");
    assert_eq!(big.next(), "_ref1234567");
    assert_eq!(big.next(), "_ref1234568");
}

#[test]
fn inner_async_constructs_are_rewritten_first() {
    // async function outer() { const f = async () => await g(); await f(); }
    let inner = Expr::Arrow(ArrowExpr {
        params: vec![],
        body: ArrowBody::Expr(Box::new(awaited(call(id("g"), vec![])))),
        is_async: true,
    });
    let input = module(vec![decl(
        "outer",
        func(vec![], vec![var(VarKind::Const, "f", inner), Stmt::Expr(awaited(call(id("f"), vec![])))], true),
    )]);
    let out = transform(input);
    let inner_out = ref_wrapper(None, generator(vec![], vec![ret(yielded(call(id("g"), vec![])))]), "_ref");
    let helper = decl(
        "_outer",
        func(
            vec![],
            vec![
                Stmt::Expr(Expr::Assign(
                    Box::new(id("_outer")),
                    Box::new(ng(generator(
                        vec![],
                        vec![var(VarKind::Const, "f", inner_out), Stmt::Expr(yielded(call(id("f"), vec![])))],
                    ))),
                )),
                ret(apply("_outer")),
            ],
            false,
        ),
    );
    assert_eq!(out, module(vec![decl("outer", func(vec![], vec![ret(apply("_outer"))], false)), helper]));
}

#[test]
fn no_await_only_clears_the_async_flag() {
    let mut d = FnDecl { ident: "f".to_string(), function: func(vec![pat("a")], vec![ret(id("a"))], true) };
    assert_eq!(transform_fn_decl(&mut d), None);
    assert_eq!(d, FnDecl { ident: "f".to_string(), function: func(vec![pat("a")], vec![ret(id("a"))], false) });

    let mut e = FnExpr { ident: Some("g".to_string()), function: func(vec![], vec![ret(id("b"))], true) };
    assert_eq!(transform_fn_expr(&mut e, "_ref"), None);
    assert_eq!(e, FnExpr { ident: Some("g".to_string()), function: func(vec![], vec![ret(id("b"))], false) });

    let mut a = ArrowExpr { params: vec![pat("x")], body: ArrowBody::Expr(Box::new(id("x"))), is_async: true };
    assert_eq!(transform_arrow_fn(&mut a, "_ref"), None);
    assert_eq!(a, ArrowExpr { params: vec![pat("x")], body: ArrowBody::Expr(Box::new(id("x"))), is_async: false });

    let mut m = MethodProp { key: "m".to_string(), kind: MethodKind::Method, function: func(vec![], vec![ret(Expr::This)], true) };
    transform_object_method(&mut m);
    assert_eq!(m, MethodProp { key: "m".to_string(), kind: MethodKind::Method, function: func(vec![], vec![ret(Expr::This)], false) });
}

#[test]
fn await_inside_nested_function_does_not_count() {
    let body = vec![Stmt::Expr(plain_fn(None, vec![], vec![Stmt::Expr(awaited(id("x")))]))];
    assert!(!HasAwaitVisitor::check(&body));
    let mut d = FnDecl { ident: "f".to_string(), function: func(vec![], body, true) };
    assert_eq!(transform_fn_decl(&mut d), None);
    assert!(!d.function.is_async);
}

#[test]
fn absent_body_is_left_untouched() {
    let ambient = Function { params: vec![pat("a")], body: None, is_async: true, is_generator: false };
    let mut d = FnDecl { ident: "f".to_string(), function: ambient };
    assert_eq!(transform_fn_decl(&mut d), None);
    assert_eq!(d, FnDecl { ident: "f".to_string(), function: Function { params: vec![pat("a")], body: None, is_async: true, is_generator: false } });
    let mut m = ClassMethod {
        key: "m".to_string(),
        kind: MethodKind::Method,
        is_static: false,
        function: Function { params: vec![], body: None, is_async: true, is_generator: false },
    };
    transform_class_method(&mut m);
    assert!(m.function.is_async);
    assert_eq!(m.function.body, None);
}

#[test]
fn transform_twice_without_async_is_stable() {
    let build = || {
        module(vec![
            decl("f", func(vec![pat("a")], vec![ret(call(member(Expr::This, "g"), vec![id("a")]))], false)),
            var(VarKind::Let, "o", Expr::Object(vec![Prop::KeyValue("k".to_string(), id("v"))])),
        ])
    };
    let once = transform(build());
    let twice = transform(transform(build()));
    assert_eq!(once, build());
    assert_eq!(twice, once);
}

#[test]
fn object_method_keeps_its_parameters() {
    // ({ async m(a) { return await a; } })
    let obj = Expr::Object(vec![Prop::Method(MethodProp {
        key: "m".to_string(),
        kind: MethodKind::Method,
        function: func(vec![pat("a")], vec![ret(awaited(id("a")))], true),
    })]);
    let out = transform(module(vec![Stmt::Expr(obj)]));
    let expected = Expr::Object(vec![Prop::Method(MethodProp {
        key: "m".to_string(),
        kind: MethodKind::Method,
        function: func(
            vec![pat("a")],
            vec![ret(call(ng(generator(vec![], vec![ret(yielded(id("a")))])), vec![]))],
            false,
        ),
    })]);
    assert_eq!(out, module(vec![Stmt::Expr(expected)]));
}

#[test]
fn probes_follow_the_descent_rules() {
    let arrow_this = vec![Stmt::Expr(Expr::Arrow(ArrowExpr {
        params: vec![],
        body: ArrowBody::Expr(Box::new(Expr::This)),
        is_async: false,
    }))];
    assert!(HasThisVisitor::check(&arrow_this));
    let arrow_await = vec![Stmt::Expr(Expr::Arrow(ArrowExpr {
        params: vec![],
        body: ArrowBody::Expr(Box::new(awaited(id("x")))),
        is_async: true,
    }))];
    assert!(!HasAwaitVisitor::check(&arrow_await));
    let fn_this = vec![Stmt::Expr(plain_fn(None, vec![], vec![ret(Expr::This)]))];
    assert!(!HasThisVisitor::check(&fn_this));
    let nested_if = vec![Stmt::If(
        id("c"),
        Box::new(Stmt::Block(vec![])),
        Some(Box::new(Stmt::Return(Some(awaited(id("x")))))),
    )];
    assert!(HasAwaitVisitor::check(&nested_if));
}

#[test]
fn rewriters_replace_every_target() {
    let body = vec![
        Stmt::Expr(awaited(awaited(id("x")))),
        ret(call(member(Expr::This, "a"), vec![Expr::This])),
    ];
    let yielded_body = AwaitToYieldVisitor.visit_stmts(body);
    assert_eq!(
        yielded_body,
        vec![Stmt::Expr(yielded(yielded(id("x")))), ret(call(member(Expr::This, "a"), vec![Expr::This]))]
    );
    let mut capture = ThisCaptureVisitor::new();
    let captured = capture.visit_stmts(yielded_body);
    assert!(capture.needs_this);
    assert_eq!(
        captured,
        vec![Stmt::Expr(yielded(yielded(id("x")))), ret(call(member(id("_this"), "a"), vec![id("_this")]))]
    );
}

#[test]
fn generator_builder_reports_capture() {
    let (g, captured) = create_generator_function(vec![pat("a")], vec![ret(awaited(Expr::This))], true);
    assert!(captured);
    assert_eq!(g, Function { params: vec![pat("a")], body: Some(vec![ret(yielded(id("_this")))]), is_async: false, is_generator: true });
    let (g2, captured2) = create_generator_function(vec![], vec![ret(awaited(Expr::This))], false);
    assert!(!captured2);
    assert_eq!(g2.body, Some(vec![ret(yielded(Expr::This))]));
}

#[test]
fn method_body_without_this() {
    let r = transform_method(vec![Stmt::Expr(awaited(id("t")))]);
    assert_eq!(r.stmts, vec![ret(call(ng(generator(vec![], vec![Stmt::Expr(yielded(id("t")))])), vec![]))]);
}

#[test]
fn declaration_transform_returns_helper() {
    let mut d = match foo_decl() {
        Stmt::FnDecl(d) => d,
        _ => unreachable!(),
    };
    let helper = transform_fn_decl(&mut d);
    assert_eq!(Stmt::FnDecl(d), foo_forward());
    assert_eq!(helper.map(Stmt::FnDecl), Some(foo_helper()));
}

#[test]
fn visitor_walks_statements_with_its_own_frame() {
    let mut v = AsyncToNgGeneratorVisitor::new();
    let out = v.visit_stmts(vec![Stmt::Expr(id("x")), foo_decl()]);
    assert_eq!(out, vec![Stmt::Expr(id("x")), foo_forward(), foo_helper()]);
}

#[test]
fn name_bound_counts_function_expressions_and_arrows() {
    let arrow = Expr::Arrow(ArrowExpr {
        params: vec![],
        body: ArrowBody::Expr(Box::new(plain_fn(None, vec![], vec![]))),
        is_async: true,
    });
    let m = module(vec![
        var(VarKind::Const, "f", arrow),
        decl("g", func(vec![], vec![ret(plain_fn(Some("h"), vec![], vec![]))], false)),
    ]);
    assert_eq!(names_bound(&m), 3);
    assert_eq!(names_bound(&module(vec![foo_decl()])), 0);
}

#[test]
fn bounded_transform_matches_transform() {
    let out = transform_bounded(module(vec![foo_decl()]));
    assert_eq!(out, Some(module(vec![foo_forward(), foo_helper()])));
}

#[test]
fn helpers_keep_source_order() {
    // async function a() { await x; } async function b() { await y; }
    let out = transform(module(vec![
        decl("a", func(vec![], vec![Stmt::Expr(awaited(id("x")))], true)),
        decl("b", func(vec![], vec![Stmt::Expr(awaited(id("y")))], true)),
    ]));
    let names: Vec<String> = out
        .body
        .iter()
        .filter_map(|i| match i {
            ModuleItem::Stmt(Stmt::FnDecl(d)) => Some(d.ident.clone()),
            _ => None,
        })
        .collect();
    assert_eq!(names, vec!["a", "b", "_a", "_b"]);
}

#[test]
fn awaits_inside_general_statements_are_rewritten() {
    // async function f() { try { await h(); } catch (e) { throw e; } }
    let try_stmt = |inner: Expr| {
        Stmt::Other(
            "try".to_string(),
            vec![],
            vec![
                vec![Stmt::Expr(inner)],
                vec![Stmt::Other("throw".to_string(), vec![id("e")], vec![])],
            ],
        )
    };
    let out = transform(module(vec![decl("f", func(vec![], vec![try_stmt(awaited(call(id("h"), vec![])))], true))]));
    let helper = decl(
        "_f",
        func(
            vec![],
            vec![
                Stmt::Expr(Expr::Assign(
                    Box::new(id("_f")),
                    Box::new(ng(generator(vec![], vec![try_stmt(yielded(call(id("h"), vec![])))]))),
                )),
                ret(apply("_f")),
            ],
            false,
        ),
    );
    assert_eq!(out, module(vec![decl("f", func(vec![], vec![ret(apply("_f"))], false)), helper]));
}

#[test]
fn general_statement_lists_keep_their_own_helpers() {
    // while (c) { async function g() { await x; } }
    let out = transform(module(vec![Stmt::Other(
        "while".to_string(),
        vec![id("c")],
        vec![vec![decl("g", func(vec![], vec![Stmt::Expr(awaited(id("x")))], true))]],
    )]));
    let helper = decl(
        "_g",
        func(
            vec![],
            vec![
                Stmt::Expr(Expr::Assign(
                    Box::new(id("_g")),
                    Box::new(ng(generator(vec![], vec![Stmt::Expr(yielded(id("x")))]))),
                )),
                ret(apply("_g")),
            ],
            false,
        ),
    );
    assert_eq!(
        out,
        module(vec![Stmt::Other(
            "while".to_string(),
            vec![id("c")],
            vec![vec![decl("g", func(vec![], vec![ret(apply("_g"))], false)), helper]],
        )])
    );
}

#[test]
fn opaque_items_are_kept() {
    let mut input = module(vec![foo_decl()]);
    input.body.insert(0, ModuleItem::Opaque("import#0".to_string()));
    let out = transform(input);
    assert_eq!(
        out.body,
        vec![
            ModuleItem::Opaque("import#0".to_string()),
            ModuleItem::Stmt(foo_forward()),
            ModuleItem::Stmt(foo_helper()),
        ]
    );
}

#[test]
fn constructor_is_left_alone_beside_an_async_method() {
    let ctor = || ClassMember::Method(ClassMethod {
        key: "constructor".to_string(),
        kind: MethodKind::Constructor,
        is_static: false,
        function: func(vec![pat("a")], vec![Stmt::Expr(Expr::Assign(Box::new(id("x")), Box::new(Expr::This)))], false),
    });
    let input = module(vec![Stmt::Class(ClassDecl {
        ident: "C".to_string(),
        members: vec![
            ctor(),
            ClassMember::Method(ClassMethod {
                key: "run".to_string(),
                kind: MethodKind::Method,
                is_static: false,
                function: func(vec![], vec![Stmt::Expr(awaited(id("t")))], true),
            }),
        ],
    })]);
    let out = transform(input);
    let expected = module(vec![Stmt::Class(ClassDecl {
        ident: "C".to_string(),
        members: vec![
            ctor(),
            ClassMember::Method(ClassMethod {
                key: "run".to_string(),
                kind: MethodKind::Method,
                is_static: false,
                function: func(
                    vec![],
                    vec![ret(call(ng(generator(vec![], vec![Stmt::Expr(yielded(id("t")))])), vec![]))],
                    false,
                ),
            }),
        ],
    })]);
    assert_eq!(out, expected);
}
