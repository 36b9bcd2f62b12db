use hook_engine::ast::{
    Arm, Block, Expr, GenericParam, HookDefinition, Param, Span, Stmt, Ty,
};
use hook_engine::body::BodyRewriter;
use hook_engine::signature::HookSignature;
use hook_engine::validate::{Diagnostic, DiagnosticKind};
use hook_engine::{check_hook_name, hook_impl, HookFn};

fn span(lo: usize, hi: usize) -> Span {
    Span { lo, hi }
}

fn plain_def(name: &str, params: Vec<Param>, ret: Option<Ty>, body: Block) -> HookDefinition {
    HookDefinition {
        name: name.to_string(),
        name_span: span(3, 3 + name.len()),
        vis: String::new(),
        attrs: Vec::new(),
        generics: Vec::new(),
        params,
        ret,
        body,
        asyncness: None,
        constness: None,
        abi: None,
        unsafety: None,
    }
}

fn i32_ty() -> Ty {
    Ty::Path { name: "i32".to_string(), args: Vec::new() }
}

fn counter_def() -> HookDefinition {
    plain_def(
        "use_counter",
        vec![Param { name: "initial".to_string(), ty: i32_ty() }],
        Some(i32_ty()),
        Block {
            stmts: vec![Stmt::Expr {
                expr: Expr::Call {
                    callee: "use_state".to_string(),
                    args: vec![Expr::Path { name: "initial".to_string() }],
                },
            }],
        },
    )
}

fn doc_note_text(effective_sig: &str) -> String {
    let mut s = String::new();
    s.push_str("\n# Note\n\n");
    s.push_str("When used in function components and hooks, this hook is equivalent to:\n\n");
    s.push_str("```\n");
    s.push_str(effective_sig);
    s.push_str("\n```\n");
    s
}

fn expected_counter_doc() -> String {
    doc_note_text("fn use_counter(initial: i32) -> i32 { /* implementation omitted */ }")
}

#[test]
fn hook_name_convention() {
    assert!(check_hook_name("use_state"));
    assert!(check_hook_name("use_"));
    assert!(!check_hook_name("use"));
    assert!(!check_hook_name("user_data"));
    assert!(!check_hook_name(""));
    assert!(!check_hook_name("compute_value"));
}

#[test]
fn valid_hook_no_diagnostics() {
    let (hook, diags) = HookFn::from_definition(counter_def());
    assert_eq!(diags.len(), 0);
    let out = hook_impl(hook, false);
    assert!(!out.is_empty());
}

#[test]
fn missing_prefix_single_diagnostic() {
    let def = plain_def("compute_value", Vec::new(), None, Block { stmts: Vec::new() });
    let name_span = def.name_span;
    let (hook, diags) = HookFn::from_definition(def);
    assert_eq!(
        diags,
        vec![Diagnostic { span: name_span, kind: DiagnosticKind::MissingPrefix }]
    );
    assert_eq!(
        diags[0].message(),
        "hooks must have a name starting with `use_`"
    );
    let out = hook_impl(hook, false);
    assert!(!out.is_empty());
}

#[test]
fn multiple_modifiers_count_one_each() {
    let mut def = plain_def("use_thing", Vec::new(), None, Block { stmts: Vec::new() });
    def.asyncness = Some(span(0, 5));
    def.unsafety = Some(span(6, 12));
    let (_, diags) = HookFn::from_definition(def);
    assert_eq!(diags.len(), 2);
    assert_eq!(diags[0].kind, DiagnosticKind::AsyncNotAllowed);
    assert_eq!(diags[0].span, span(0, 5));
    assert_eq!(diags[1].kind, DiagnosticKind::UnsafeNotAllowed);
    assert_eq!(diags[1].span, span(6, 12));
}

#[test]
fn every_constraint_reported_once() {
    let mut def = plain_def("bad_name", Vec::new(), None, Block { stmts: Vec::new() });
    def.asyncness = Some(span(0, 1));
    def.constness = Some(span(1, 2));
    def.abi = Some(span(2, 3));
    def.unsafety = Some(span(3, 4));
    let (_, diags) = HookFn::from_definition(def);
    assert_eq!(diags.len(), 5);
    assert_eq!(diags[0].kind, DiagnosticKind::AsyncNotAllowed);
    assert_eq!(diags[1].kind, DiagnosticKind::ConstNotAllowed);
    assert_eq!(diags[2].kind, DiagnosticKind::ForeignAbiNotAllowed);
    assert_eq!(diags[3].kind, DiagnosticKind::UnsafeNotAllowed);
    assert_eq!(diags[4].kind, DiagnosticKind::MissingPrefix);
}

#[test]
fn diagnostic_messages() {
    let d = |kind| Diagnostic { span: span(0, 0), kind };
    assert_eq!(
        d(DiagnosticKind::AsyncNotAllowed).message(),
        "async functions can't be hooks"
    );
    assert_eq!(
        d(DiagnosticKind::ConstNotAllowed).message(),
        "const functions can't be hooks"
    );
    assert_eq!(
        d(DiagnosticKind::ForeignAbiNotAllowed).message(),
        "functions with a foreign calling convention can't be hooks"
    );
    assert_eq!(
        d(DiagnosticKind::UnsafeNotAllowed).message(),
        "unsafe functions can't be hooks"
    );
}

#[test]
fn scenario_c_two_diagnostics() {
    let mut def = plain_def("compute_value", Vec::new(), None, Block { stmts: Vec::new() });
    def.asyncness = Some(span(0, 5));
    let name_span = def.name_span;
    let (_, diags) = HookFn::from_definition(def);
    assert_eq!(diags.len(), 2);
    assert_eq!(diags[0].kind, DiagnosticKind::AsyncNotAllowed);
    assert_eq!(diags[0].span, span(0, 5));
    assert_eq!(diags[1].kind, DiagnosticKind::MissingPrefix);
    assert_eq!(diags[1].span, name_span);
}

#[test]
fn doc_rendering_idempotent() {
    let (hook, _) = HookFn::from_definition(counter_def());
    let first = hook.doc_attr();
    let second = hook.doc_attr();
    assert_eq!(first, second);
    assert_eq!(first, expected_counter_doc());
}

#[test]
fn boxing_selected_for_opaque_return_only() {
    let opaque = plain_def(
        "use_thing",
        Vec::new(),
        Some(Ty::Opaque { bounds: "Clone".to_string() }),
        Block { stmts: Vec::new() },
    );
    assert!(HookSignature::rewrite(&opaque).needs_boxing);

    let named = counter_def();
    assert!(!HookSignature::rewrite(&named).needs_boxing);

    let absent = plain_def("use_unit", Vec::new(), None, Block { stmts: Vec::new() });
    assert!(!HookSignature::rewrite(&absent).needs_boxing);
}

#[test]
fn body_rewrite_is_scope_aware() {
    let hook_call = |arg: &str| Expr::Call {
        callee: "use_state".to_string(),
        args: vec![Expr::Path { name: arg.to_string() }],
    };
    let body = Block {
        stmts: vec![
            Stmt::Semi {
                expr: Expr::If {
                    cond: Box::new(Expr::Verbatim { text: "flag".to_string() }),
                    then_branch: Block { stmts: vec![Stmt::Expr { expr: hook_call("a") }] },
                    else_branch: None,
                },
            },
            Stmt::Semi {
                expr: Expr::Loop {
                    body: Block { stmts: vec![Stmt::Semi { expr: hook_call("b") }] },
                },
            },
            Stmt::Semi {
                expr: Expr::Match {
                    scrutinee: Box::new(Expr::Verbatim { text: "x".to_string() }),
                    arms: vec![Arm {
                        pat: "_".to_string(),
                        body: Block { stmts: vec![Stmt::Expr { expr: hook_call("c") }] },
                    }],
                },
            },
            Stmt::Let {
                name: "f".to_string(),
                init: Expr::Closure {
                    params: vec!["v".to_string()],
                    body: Block { stmts: vec![Stmt::Expr { expr: hook_call("v") }] },
                },
            },
        ],
    };
    let rewriter = BodyRewriter::new("_ctx".to_string());
    let rewritten = rewriter.rewrite_block(body);

    let rewritten_call = |arg: &str| Expr::Call {
        callee: "use_state".to_string(),
        args: vec![
            Expr::Path { name: "_ctx".to_string() },
            Expr::Path { name: arg.to_string() },
        ],
    };
    let expected = Block {
        stmts: vec![
            Stmt::Semi {
                expr: Expr::If {
                    cond: Box::new(Expr::Verbatim { text: "flag".to_string() }),
                    then_branch: Block { stmts: vec![Stmt::Expr { expr: rewritten_call("a") }] },
                    else_branch: None,
                },
            },
            Stmt::Semi {
                expr: Expr::Loop {
                    body: Block { stmts: vec![Stmt::Semi { expr: rewritten_call("b") }] },
                },
            },
            Stmt::Semi {
                expr: Expr::Match {
                    scrutinee: Box::new(Expr::Verbatim { text: "x".to_string() }),
                    arms: vec![Arm {
                        pat: "_".to_string(),
                        body: Block { stmts: vec![Stmt::Expr { expr: rewritten_call("c") }] },
                    }],
                },
            },
            // the closure introduces its own scope: left untouched
            Stmt::Let {
                name: "f".to_string(),
                init: Expr::Closure {
                    params: vec!["v".to_string()],
                    body: Block { stmts: vec![Stmt::Expr { expr: hook_call("v") }] },
                },
            },
        ],
    };
    assert_eq!(rewritten, expected);
}

#[test]
fn plain_calls_keep_their_arguments() {
    let body = Block {
        stmts: vec![Stmt::Expr {
            expr: Expr::Call {
                callee: "format".to_string(),
                args: vec![Expr::Path { name: "x".to_string() }],
            },
        }],
    };
    let rewriter = BodyRewriter::new("_ctx".to_string());
    let rewritten = rewriter.rewrite_block(body);
    let expected = Block {
        stmts: vec![Stmt::Expr {
            expr: Expr::Call {
                callee: "format".to_string(),
                args: vec![Expr::Path { name: "x".to_string() }],
            },
        }],
    };
    assert_eq!(rewritten, expected);
}

#[test]
fn scenario_a_struct_provider() {
    let (hook, diags) = HookFn::from_definition(counter_def());
    assert_eq!(diags.len(), 0);
    let out = hook_impl(hook, false);

    let escaped_doc = expected_counter_doc().replace('\n', "\\n");
    let mut expected = String::new();
    expected.push_str("#[doc = \"");
    expected.push_str(&escaped_doc);
    expected.push_str("\"] ");
    expected.push_str("fn use_counter(initial: i32) -> impl ::yew::functional::Hook<Output = i32> { ");
    expected.push_str("fn inner_fn(_ctx: &mut ::yew::functional::HookContext, initial: i32) -> i32 ");
    expected.push_str("{ use_state(_ctx, initial) } ");
    expected.push_str("struct HookProvider { _marker: ::std::marker::PhantomData<()>, args: (i32,) } ");
    expected.push_str("#[automatically_derived] impl ::yew::functional::Hook for HookProvider ");
    expected.push_str("{ type Output = i32; ");
    expected.push_str("fn run(mut self, _ctx: &mut ::yew::functional::HookContext) -> Self::Output ");
    expected.push_str("{ let (initial,) = self.args; inner_fn(_ctx, initial,) } } ");
    expected.push_str("#[automatically_derived] impl HookProvider { fn new(initial: i32) -> Self ");
    expected.push_str("{ HookProvider { _marker: ::std::marker::PhantomData, args: (initial,) } } } ");
    expected.push_str("HookProvider::new(initial,) }");
    assert_eq!(out, expected);
}

#[test]
fn scenario_b_boxed_provider() {
    let def = plain_def(
        "use_thing",
        Vec::new(),
        Some(Ty::Opaque { bounds: "Clone".to_string() }),
        Block { stmts: Vec::new() },
    );
    let (hook, diags) = HookFn::from_definition(def);
    assert_eq!(diags.len(), 0);
    let out = hook_impl(hook, false);

    let doc = doc_note_text("fn use_thing() -> impl Clone { /* implementation omitted */ }");
    let escaped_doc = doc.replace('\n', "\\n");
    let mut expected = String::new();
    expected.push_str("#[doc = \"");
    expected.push_str(&escaped_doc);
    expected.push_str("\"] ");
    expected.push_str("fn use_thing() -> impl ::yew::functional::Hook<Output = impl Clone> { ");
    expected.push_str("fn inner_fn<'hook>(_ctx: &mut ::yew::functional::HookContext) -> impl Clone { } ");
    expected.push_str("let boxed_inner = ::std::boxed::Box::new");
    expected.push_str("(move |_ctx: &mut ::yew::functional::HookContext| { inner_fn(_ctx, ) }); ");
    expected.push_str("::yew::functional::BoxedHook::new(boxed_inner) }");
    assert_eq!(out, expected);
}

#[test]
fn doc_example_mode_emits_original() {
    let (hook, _) = HookFn::from_definition(counter_def());
    let out = hook_impl(hook, true);
    assert_eq!(out, "fn use_counter(initial: i32) -> i32 { use_state(initial) }");
}

#[test]
fn attributes_and_visibility_pass_through() {
    let mut def = counter_def();
    def.vis = "pub".to_string();
    def.attrs = vec!["#[allow(dead_code)]".to_string()];
    let (hook, _) = HookFn::from_definition(def);
    let out = hook_impl(hook, true);
    assert_eq!(
        out,
        "#[allow(dead_code)] pub fn use_counter(initial: i32) -> i32 { use_state(initial) }"
    );
}

#[test]
fn phantom_markers_cover_unused_generics() {
    let mut def = plain_def(
        "use_pair",
        vec![Param {
            name: "x".to_string(),
            ty: Ty::Path { name: "T".to_string(), args: Vec::new() },
        }],
        None,
        Block { stmts: Vec::new() },
    );
    def.generics = vec![
        GenericParam::Lifetime { name: "a".to_string() },
        GenericParam::TypeParam { name: "T".to_string(), bounds: String::new() },
        GenericParam::TypeParam { name: "U".to_string(), bounds: "Clone".to_string() },
    ];
    let hs = HookSignature::rewrite(&def);
    assert_eq!(hs.phantom_types, vec!["U".to_string()]);
    assert_eq!(hs.phantom_lifetimes, vec!["a".to_string()]);
    assert_eq!(hs.arg_names, vec!["x".to_string()]);
}

#[test]
fn generic_parameters_are_preserved() {
    let mut def = plain_def(
        "use_pick",
        vec![Param {
            name: "x".to_string(),
            ty: Ty::Path {
                name: "Vec".to_string(),
                args: vec![Ty::Path { name: "T".to_string(), args: Vec::new() }],
            },
        }],
        Some(Ty::Path { name: "T".to_string(), args: Vec::new() }),
        Block { stmts: Vec::new() },
    );
    def.generics = vec![GenericParam::TypeParam {
        name: "T".to_string(),
        bounds: "Clone".to_string(),
    }];
    let (hook, _) = HookFn::from_definition(def);
    let out = hook_impl(hook, false);
    assert!(out.contains("fn use_pick<T: Clone>(x: Vec<T>)"));
    assert!(out.contains("inner_fn::<T,>(_ctx, x,)"));
    assert!(out.contains("HookProvider::<T,>::new(x,)"));
    assert!(out.contains("type Output = T;"));
}

#[test]
fn boxing_rewrites_elided_lifetimes() {
    let def = plain_def(
        "use_view",
        vec![Param {
            name: "s".to_string(),
            ty: Ty::Reference {
                lifetime: None,
                inner: Box::new(Ty::Path { name: "str".to_string(), args: Vec::new() }),
            },
        }],
        Some(Ty::Opaque { bounds: "Clone".to_string() }),
        Block { stmts: Vec::new() },
    );
    let hs = HookSignature::rewrite(&def);
    assert!(hs.needs_boxing);
    assert_eq!(hs.hook_lifetime, "hook".to_string());
    assert_eq!(
        hs.params,
        vec![Param {
            name: "s".to_string(),
            ty: Ty::Reference {
                lifetime: Some("hook".to_string()),
                inner: Box::new(Ty::Path { name: "str".to_string(), args: Vec::new() }),
            },
        }]
    );
    assert_eq!(
        hs.inner_generics,
        vec![GenericParam::Lifetime { name: "hook".to_string() }]
    );
}

#[test]
fn escape_for_doc_attribute() {
    assert_eq!(hook_engine::emit::escape("a\"b\\c\nd"), "a\\\"b\\\\c\\nd");
    assert_eq!(hook_engine::emit::escape(""), "");
    assert_eq!(hook_engine::emit::escape("plain"), "plain");
}

#[test]
fn rendering_covers_every_statement_form() {
    let def = plain_def(
        "use_fancy",
        Vec::new(),
        None,
        Block {
            stmts: vec![
                Stmt::Let {
                    name: "f".to_string(),
                    init: Expr::Closure {
                        params: vec!["v".to_string()],
                        body: Block {
                            stmts: vec![Stmt::Expr { expr: Expr::Path { name: "v".to_string() } }],
                        },
                    },
                },
                Stmt::Semi {
                    expr: Expr::Match {
                        scrutinee: Box::new(Expr::Path { name: "x".to_string() }),
                        arms: vec![
                            Arm {
                                pat: "Some(y)".to_string(),
                                body: Block {
                                    stmts: vec![Stmt::Expr {
                                        expr: Expr::Path { name: "y".to_string() },
                                    }],
                                },
                            },
                            Arm { pat: "None".to_string(), body: Block { stmts: Vec::new() } },
                        ],
                    },
                },
                Stmt::Expr {
                    expr: Expr::Loop {
                        body: Block {
                            stmts: vec![Stmt::Semi {
                                expr: Expr::Call {
                                    callee: "use_state".to_string(),
                                    args: vec![Expr::Path { name: "z".to_string() }],
                                },
                            }],
                        },
                    },
                },
            ],
        },
    );
    let (hook, _) = HookFn::from_definition(def);
    let out = hook_impl(hook, true);
    assert_eq!(
        out,
        "fn use_fancy() { let f = |v| { v }; match x { Some(y) => { y }, None => { }, }; loop { use_state(z); } }"
    );
}

#[test]
fn opaque_parameter_types_are_desugared() {
    let def = plain_def(
        "use_cb",
        vec![Param {
            name: "cb".to_string(),
            ty: Ty::Opaque { bounds: "Fn()".to_string() },
        }],
        Some(i32_ty()),
        Block { stmts: Vec::new() },
    );
    let hs = HookSignature::rewrite(&def);
    assert!(!hs.needs_boxing);
    assert_eq!(
        hs.params,
        vec![Param {
            name: "cb".to_string(),
            ty: Ty::Path { name: "__HookArg_cb".to_string(), args: Vec::new() },
        }]
    );
    assert_eq!(
        hs.provider_generics,
        vec![GenericParam::TypeParam { name: "__HookArg_cb".to_string(), bounds: "Fn()".to_string() }]
    );
    assert_eq!(hs.turbofish_names, vec!["_".to_string()]);

    let (hook, diags) = HookFn::from_definition(def);
    assert_eq!(diags.len(), 0);
    let out = hook_impl(hook, false);
    assert!(out.contains("fn use_cb(cb: impl Fn()) -> impl ::yew::functional::Hook<Output = i32>"));
    assert!(out.contains("fn inner_fn<__HookArg_cb: Fn()>(_ctx: &mut ::yew::functional::HookContext, cb: __HookArg_cb) -> i32 { }"));
    assert!(out.contains("struct HookProvider<__HookArg_cb: Fn()> { _marker: ::std::marker::PhantomData<()>, args: (__HookArg_cb,) }"));
    assert!(out.contains("impl<__HookArg_cb: Fn()> ::yew::functional::Hook for HookProvider<__HookArg_cb>"));
    assert!(out.contains("inner_fn::<_,>(_ctx, cb,)"));
    assert!(out.contains("HookProvider::<_,>::new(cb,)"));
}

#[test]
fn unit_lifetime_avoids_declared_names() {
    let mut def = plain_def(
        "use_view",
        vec![Param {
            name: "s".to_string(),
            ty: Ty::Reference {
                lifetime: None,
                inner: Box::new(Ty::Path { name: "str".to_string(), args: Vec::new() }),
            },
        }],
        Some(Ty::Opaque { bounds: "Clone".to_string() }),
        Block { stmts: Vec::new() },
    );
    def.generics = vec![GenericParam::Lifetime { name: "hook".to_string() }];
    let hs = HookSignature::rewrite(&def);
    // longer than every declared lifetime name, so never a duplicate
    assert_eq!(hs.hook_lifetime, "hook____".to_string());
    assert_eq!(
        hs.params,
        vec![Param {
            name: "s".to_string(),
            ty: Ty::Reference {
                lifetime: Some("hook____".to_string()),
                inner: Box::new(Ty::Path { name: "str".to_string(), args: Vec::new() }),
            },
        }]
    );
    assert_eq!(
        hs.inner_generics,
        vec![
            GenericParam::Lifetime { name: "hook____".to_string() },
            GenericParam::Lifetime { name: "hook".to_string() },
        ]
    );
}

#[test]
fn escape_handles_carriage_return() {
    assert_eq!(hook_engine::emit::escape("a\rb"), "a\\rb");
}
