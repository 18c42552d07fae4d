use oxidizer::ast::{BinExpr, BinOp, Callee, CallExpr, Decl, Expr, FnDecl, Lit, MemberExpr,
    MemberProp, ModuleDecl, ModuleItem, Pat, Stmt, TsType};
use oxidizer::func::{convert_expr_pub, convert_stmt_pub, RustGenerator};
use oxidizer::module::translate_module;

fn ident(name: &str) -> Expr {
    Expr::Ident(name.to_string())
}

fn num(text: &str) -> Expr {
    Expr::Lit(Lit::Num(text.to_string()))
}

fn str_lit(text: &str) -> Expr {
    Expr::Lit(Lit::Str(text.to_string()))
}

fn member(obj: Expr, prop: &str) -> Expr {
    Expr::Member(MemberExpr { obj: Box::new(obj), prop: MemberProp::Named(prop.to_string()) })
}

fn call(callee: Expr, args: Vec<Expr>) -> Expr {
    Expr::Call(CallExpr { callee: Callee::Expr(Box::new(callee)), args })
}

fn binary(op: BinOp, left: Expr, right: Expr) -> Expr {
    Expr::Bin(BinExpr { op, left: Box::new(left), right: Box::new(right) })
}

#[test]
fn test_identifier_expression_normalized() {
    assert_eq!(convert_expr_pub(&ident("getUserName")), "get_user_name");
}

#[test]
fn test_numeric_literal_preserved() {
    assert_eq!(convert_expr_pub(&num("42")), "42");
}

#[test]
fn test_string_literal_reescaped() {
    assert_eq!(convert_expr_pub(&str_lit("hi")), "\"hi\"");
    assert_eq!(convert_expr_pub(&str_lit("a\"b\\c\nd")), "\"a\\\"b\\\\c\\nd\"");
}

#[test]
fn test_string_literal_control_characters_escaped() {
    assert_eq!(convert_expr_pub(&str_lit("")), "\"\"");
    assert_eq!(convert_expr_pub(&str_lit("a\tb\rc")), "\"a\\tb\\rc\"");
}

#[test]
fn test_unsupported_literal_marked() {
    assert_eq!(
        convert_expr_pub(&Expr::Lit(Lit::Other)),
        "compile_error!(\"unsupported literal\")"
    );
}

#[test]
fn test_unsupported_expression_marked() {
    assert_eq!(convert_expr_pub(&Expr::Other), "compile_error!(\"unsupported expression\")");
    assert_eq!(convert_expr_pub(&Expr::This), "compile_error!(\"unsupported expression\")");
}

#[test]
fn test_binary_operators_mapped() {
    assert_eq!(convert_expr_pub(&binary(BinOp::Add, ident("a"), ident("b"))), "a + b");
    assert_eq!(convert_expr_pub(&binary(BinOp::Sub, ident("a"), ident("b"))), "a - b");
    assert_eq!(convert_expr_pub(&binary(BinOp::Mul, ident("a"), ident("b"))), "a * b");
    assert_eq!(convert_expr_pub(&binary(BinOp::Div, ident("a"), ident("b"))), "a / b");
}

#[test]
fn test_binary_unsupported_operator_placeholder() {
    assert_eq!(
        convert_expr_pub(&binary(BinOp::Other, ident("a"), ident("b"))),
        "a /* unsupported op */ b"
    );
}

#[test]
fn test_this_member_becomes_instance_field() {
    let e = Expr::Member(MemberExpr {
        obj: Box::new(Expr::This),
        prop: MemberProp::Named("name".to_string()),
    });
    assert_eq!(convert_expr_pub(&e), "self.name");
}

#[test]
fn test_member_receiver_and_property_normalized() {
    assert_eq!(convert_expr_pub(&member(ident("myObj"), "fooBar")), "my_obj.foo_bar");
}

#[test]
fn test_computed_member_always_marked() {
    let e = Expr::Member(MemberExpr { obj: Box::new(ident("a")), prop: MemberProp::Computed });
    let out = convert_expr_pub(&e);
    assert_eq!(out, "compile_error!(\"unsupported member access\")");
    assert!(!out.is_empty());
    let this_e = Expr::Member(MemberExpr {
        obj: Box::new(Expr::This),
        prop: MemberProp::Computed,
    });
    assert_eq!(convert_expr_pub(&this_e), "compile_error!(\"unsupported member access\")");
}

#[test]
fn test_await_appends_suspension_marker() {
    let e = Expr::Await(Box::new(call(ident("fetchData"), vec![])));
    assert_eq!(convert_expr_pub(&e), "fetch_data().await");
}

#[test]
fn test_console_log_and_error() {
    let log = call(member(ident("console"), "log"), vec![str_lit("hi"), ident("x")]);
    assert_eq!(convert_expr_pub(&log), "println!(\"hi\", x)");
    let err = call(member(ident("console"), "error"), vec![str_lit("bad")]);
    assert_eq!(convert_expr_pub(&err), "eprintln!(\"bad\")");
}

#[test]
fn test_console_unknown_method_falls_through() {
    let e = call(member(ident("console"), "warn"), vec![ident("x")]);
    assert_eq!(convert_expr_pub(&e), "console.warn(x)");
}

#[test]
fn test_math_two_argument_max_mapped() {
    let e = call(member(ident("Math"), "max"), vec![ident("a"), ident("b")]);
    assert_eq!(convert_expr_pub(&e), "a.max(b)");
}

#[test]
fn test_math_three_argument_max_falls_through() {
    let e = call(member(ident("Math"), "max"), vec![ident("a"), ident("b"), ident("c")]);
    assert_eq!(convert_expr_pub(&e), "math.max(a, b, c)");
}

#[test]
fn test_math_unary_family_and_random() {
    let r = call(member(ident("Math"), "round"), vec![ident("x")]);
    assert_eq!(convert_expr_pub(&r), "x.round()");
    let f = call(member(ident("Math"), "floor"), vec![ident("x")]);
    assert_eq!(convert_expr_pub(&f), "x.floor()");
    let c = call(member(ident("Math"), "ceil"), vec![ident("x")]);
    assert_eq!(convert_expr_pub(&c), "x.ceil()");
    let a = call(member(ident("Math"), "abs"), vec![ident("x")]);
    assert_eq!(convert_expr_pub(&a), "x.abs()");
    let rand = call(member(ident("Math"), "random"), vec![]);
    assert_eq!(convert_expr_pub(&rand), "rand::random::<f64>()");
    let bad = call(member(ident("Math"), "random"), vec![ident("x")]);
    assert_eq!(convert_expr_pub(&bad), "math.random(x)");
}

#[test]
fn test_array_methods_mapped() {
    let push = call(member(ident("arr"), "push"), vec![ident("x")]);
    assert_eq!(convert_expr_pub(&push), "arr.push(x)");
    let map = call(member(ident("items"), "map"), vec![ident("cb")]);
    assert_eq!(convert_expr_pub(&map), "items.iter().map(cb).collect::<Vec<_>>()");
    let filter = call(member(ident("items"), "filter"), vec![ident("cb")]);
    assert_eq!(convert_expr_pub(&filter), "items.iter().filter(cb).collect::<Vec<_>>()");
    let join = call(member(ident("parts"), "join"), vec![str_lit(", ")]);
    assert_eq!(convert_expr_pub(&join), "parts.join(\", \")");
}

#[test]
fn test_array_wrong_arity_falls_through() {
    let e = call(member(ident("arr"), "push"), vec![ident("x"), ident("y")]);
    assert_eq!(convert_expr_pub(&e), "arr.push(x, y)");
}

#[test]
fn test_axios_get_with_url() {
    let e = call(member(ident("axios"), "get"), vec![str_lit("/users")]);
    assert_eq!(
        convert_expr_pub(&e),
        "reqwest::Client::new().get(\"/users\").send().await?"
    );
}

#[test]
fn test_axios_verb_case_folded() {
    let e = call(member(ident("axios"), "GET"), vec![str_lit("/users")]);
    assert_eq!(
        convert_expr_pub(&e),
        "reqwest::Client::new().get(\"/users\").send().await?"
    );
}

#[test]
fn test_axios_post_attaches_json_body() {
    let e = call(member(ident("axios"), "post"), vec![str_lit("/users"), ident("payload")]);
    assert_eq!(
        convert_expr_pub(&e),
        "reqwest::Client::new().post(\"/users\").json(&payload).send().await?"
    );
}

#[test]
fn test_axios_without_arguments_hits_empty_target() {
    let e = call(member(ident("axios"), "get"), vec![]);
    assert_eq!(convert_expr_pub(&e), "reqwest::Client::new().get(\"\").send().await?");
}

#[test]
fn test_fetch_call_mapped() {
    let e = call(ident("fetch"), vec![ident("url")]);
    assert_eq!(convert_expr_pub(&e), "reqwest::get(url).await?");
    let bare = call(ident("fetch"), vec![]);
    assert_eq!(convert_expr_pub(&bare), "reqwest::get(\"\").await?");
}

#[test]
fn test_generic_call_conversion() {
    let e = call(ident("doWork"), vec![ident("a"), num("2")]);
    assert_eq!(convert_expr_pub(&e), "do_work(a, 2)");
}

#[test]
fn test_unmodeled_callee_fallback_name() {
    let e = Expr::Call(CallExpr { callee: Callee::Other, args: vec![ident("a")] });
    assert_eq!(convert_expr_pub(&e), "unknown_callee(a)");
}

#[test]
fn test_return_statements() {
    assert_eq!(convert_stmt_pub(&Stmt::Return(None)), "return;");
    assert_eq!(convert_stmt_pub(&Stmt::Return(Some(ident("x")))), "return x;");
}

#[test]
fn test_expression_statement_terminated() {
    assert_eq!(convert_stmt_pub(&Stmt::Expr(ident("x"))), "x;");
}

#[test]
fn test_unsupported_statement_emits_nothing() {
    assert_eq!(convert_stmt_pub(&Stmt::Other), "");
    assert_eq!(convert_stmt_pub(&Stmt::Decl(Decl::Other)), "");
}

fn multiply_decl() -> FnDecl {
    FnDecl {
        name: "multiply".to_string(),
        is_async: false,
        params: vec![
            Pat::Ident("a".to_string(), Some(TsType::Named("number".to_string()))),
            Pat::Ident("b".to_string(), Some(TsType::Named("number".to_string()))),
        ],
        return_type: Some(TsType::Named("number".to_string())),
        body: Some(vec![Stmt::Return(Some(binary(BinOp::Mul, ident("a"), ident("b"))))]),
    }
}

#[test]
fn test_function_declaration_end_to_end() {
    let mut generator = RustGenerator::new();
    generator.visit_fn_decl(&multiply_decl());
    assert_eq!(generator.code, "fn multiply(a: f64, b: f64) -> f64 { return a * b; }\n");
}

#[test]
fn test_exported_function_gets_visibility() {
    let items = vec![ModuleItem::ModuleDecl(ModuleDecl::ExportDecl(Decl::Fn(multiply_decl())))];
    let out = translate_module(&items);
    assert_eq!(out, "pub fn multiply(a: f64, b: f64) -> f64 { return a * b; }\n");
}

#[test]
fn test_async_function_unwraps_declared_return() {
    let decl = FnDecl {
        name: "findAll".to_string(),
        is_async: true,
        params: vec![],
        return_type: Some(TsType::Applied(
            "Promise".to_string(),
            vec![TsType::Named("string".to_string())],
        )),
        body: Some(vec![]),
    };
    let items = vec![ModuleItem::ModuleDecl(ModuleDecl::ExportDecl(Decl::Fn(decl)))];
    let out = translate_module(&items);
    assert_eq!(out, "pub async fn find_all() -> String { }\n");
}

#[test]
fn test_destructuring_parameter_skipped() {
    let decl = FnDecl {
        name: "f".to_string(),
        is_async: false,
        params: vec![
            Pat::Other,
            Pat::Ident("x".to_string(), None),
        ],
        return_type: None,
        body: None,
    };
    let mut generator = RustGenerator::new();
    generator.visit_fn_decl(&decl);
    assert_eq!(generator.code, "fn f(x: ()) -> () { }\n");
}

#[test]
fn test_unsupported_statement_skipped_inside_body() {
    let decl = FnDecl {
        name: "g".to_string(),
        is_async: false,
        params: vec![],
        return_type: None,
        body: Some(vec![Stmt::Other, Stmt::Return(None)]),
    };
    let mut generator = RustGenerator::new();
    generator.visit_fn_decl(&decl);
    assert_eq!(generator.code, "fn g() -> () { return; }\n");
}

#[test]
fn test_translation_deterministic() {
    let make = || {
        vec![
            ModuleItem::ModuleDecl(ModuleDecl::ExportDecl(Decl::Fn(multiply_decl()))),
            ModuleItem::Stmt(Stmt::Expr(call(
                member(ident("console"), "log"),
                vec![str_lit("done")],
            ))),
        ]
    };
    let first = translate_module(&make());
    let second = translate_module(&make());
    assert_eq!(first, second);
}
