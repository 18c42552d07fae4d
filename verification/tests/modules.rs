use oxidizer::ast::{BinOp, Callee, CallExpr, Decl, Expr, FnDecl, ImportDecl, ImportSpecifier,
    Lit, MemberExpr, MemberProp, ModuleDecl, ModuleItem, Pat, Program, Stmt, TsType};
use oxidizer::diagnostics::OxidizerError;
use oxidizer::func::RustGenerator;
use oxidizer::module::translate_module;
use oxidizer::orchestrator::{cargo_manifest, module_uses_http, pipeline, statement_count};
use oxidizer::types::{map_ts_type, unwrap_promise_type};

fn import_item(src: &str, specifiers: Vec<ImportSpecifier>) -> ModuleItem {
    ModuleItem::ModuleDecl(ModuleDecl::Import(ImportDecl { src: src.to_string(), specifiers }))
}

fn named(local: &str) -> ImportSpecifier {
    ImportSpecifier::Named { local: local.to_string(), imported: None }
}

#[test]
fn test_relative_import_path_rewritten() {
    let items = vec![import_item("./foo/bar", vec![named("X")])];
    assert_eq!(translate_module(&items), "use crate::foo::bar::X;\n");
}

#[test]
fn test_namespace_import_aliases_whole_module() {
    let items = vec![import_item(
        "./foo/bar",
        vec![ImportSpecifier::Namespace { local: "ns".to_string() }],
    )];
    assert_eq!(translate_module(&items), "use crate::foo::bar as ns;\n");
}

#[test]
fn test_renamed_import_gets_alias() {
    let items = vec![import_item(
        "pkg",
        vec![ImportSpecifier::Named { local: "Y".to_string(), imported: Some("X".to_string()) }],
    )];
    assert_eq!(translate_module(&items), "use pkg::X as Y;\n");
}

#[test]
fn test_default_import_uses_local_name() {
    let items = vec![import_item(
        "./widgets",
        vec![ImportSpecifier::DefaultImport { local: "Widget".to_string() }],
    )];
    assert_eq!(translate_module(&items), "use crate::widgets::Widget;\n");
}

#[test]
fn test_bare_package_path_passes_through() {
    let items = vec![import_item("serde", vec![named("Thing")])];
    assert_eq!(translate_module(&items), "use serde::Thing;\n");
}

#[test]
fn test_import_with_several_specifiers() {
    let items = vec![import_item("./m", vec![named("A"), named("B")])];
    assert_eq!(translate_module(&items), "use crate::m::A;\nuse crate::m::B;\n");
}

#[test]
fn test_repeated_relative_marker_stripped() {
    let items = vec![import_item("././deep", vec![named("D")])];
    assert_eq!(translate_module(&items), "use crate::deep::D;\n");
}

#[test]
fn test_type_mapping_table() {
    assert_eq!(map_ts_type(&Some(TsType::Named("number".to_string()))), "f64");
    assert_eq!(map_ts_type(&Some(TsType::Named("string".to_string()))), "String");
    assert_eq!(map_ts_type(&Some(TsType::Named("boolean".to_string()))), "bool");
    assert_eq!(map_ts_type(&Some(TsType::Named("void".to_string()))), "()");
    assert_eq!(map_ts_type(&Some(TsType::Named("any".to_string()))), "()");
    assert_eq!(map_ts_type(&Some(TsType::Named("CreateCatDto".to_string()))), "CreateCatDto");
    assert_eq!(map_ts_type(&None), "()");
    assert_eq!(map_ts_type(&Some(TsType::Other)), "()");
}

#[test]
fn test_array_type_maps_to_owned_sequence() {
    let t = TsType::Applied("Array".to_string(), vec![TsType::Named("number".to_string())]);
    assert_eq!(map_ts_type(&Some(t)), "Vec<f64>");
}

#[test]
fn test_wrapper_type_maps_literally_outside_async() {
    let t = TsType::Applied("Promise".to_string(), vec![TsType::Named("number".to_string())]);
    assert_eq!(map_ts_type(&Some(t)), "Promise<f64>");
}

#[test]
fn test_async_unwrap_returns_inner_mapping() {
    let t = TsType::Applied("Promise".to_string(), vec![TsType::Named("string".to_string())]);
    assert_eq!(unwrap_promise_type(&Some(t)), "String");
}

#[test]
fn test_async_unwrap_on_other_types_maps_normally() {
    let arr = TsType::Applied("Array".to_string(), vec![TsType::Named("number".to_string())]);
    assert_eq!(unwrap_promise_type(&Some(arr)), "Vec<f64>");
    assert_eq!(unwrap_promise_type(&None), "()");
    let two = TsType::Applied(
        "Promise".to_string(),
        vec![TsType::Named("string".to_string()), TsType::Named("number".to_string())],
    );
    assert_eq!(unwrap_promise_type(&Some(two)), "Promise<String, f64>");
}

#[test]
fn test_statement_count_module_and_script() {
    let module = Program::Module(vec![
        ModuleItem::Stmt(Stmt::Return(None)),
        ModuleItem::Stmt(Stmt::Other),
    ]);
    assert_eq!(statement_count(&module), 2);
    let script = Program::Script(vec![Stmt::Other, Stmt::Other, Stmt::Return(None)]);
    assert_eq!(statement_count(&script), 3);
}

#[test]
fn test_pipeline_succeeds() {
    assert!(pipeline().is_ok());
}

#[test]
fn test_error_descriptions() {
    let io = OxidizerError::IoError("boom".to_string());
    assert_eq!(io.describe(), "IO Error: boom");
    let parse = OxidizerError::ParserError {
        message: "bad token".to_string(),
        src_name: "input.ts".to_string(),
        src_text: "let;".to_string(),
        span_offset: 3,
        span_len: 1,
    };
    assert_eq!(parse.describe(), "Parsing Error: bad token");
    assert_eq!(OxidizerError::Unknown.describe(), "Unknown Error");
}

fn axios_fn_item() -> ModuleItem {
    let url = Expr::Lit(Lit::Str("/cats".to_string()));
    let axios_get = Expr::Call(CallExpr {
        callee: Callee::Expr(Box::new(Expr::Member(MemberExpr {
            obj: Box::new(Expr::Ident("axios".to_string())),
            prop: MemberProp::Named("get".to_string()),
        }))),
        args: vec![url],
    });
    let decl = FnDecl {
        name: "load".to_string(),
        is_async: true,
        params: vec![],
        return_type: None,
        body: Some(vec![Stmt::Return(Some(Expr::Await(Box::new(axios_get))))]),
    };
    ModuleItem::Stmt(Stmt::Decl(Decl::Fn(decl)))
}

fn plain_fn_item() -> ModuleItem {
    let product = Expr::Bin(oxidizer::ast::BinExpr {
        op: BinOp::Mul,
        left: Box::new(Expr::Ident("a".to_string())),
        right: Box::new(Expr::Ident("b".to_string())),
    });
    let decl = FnDecl {
        name: "multiply".to_string(),
        is_async: false,
        params: vec![
            Pat::Ident("a".to_string(), Some(TsType::Named("number".to_string()))),
            Pat::Ident("b".to_string(), Some(TsType::Named("number".to_string()))),
        ],
        return_type: Some(TsType::Named("number".to_string())),
        body: Some(vec![Stmt::Return(Some(product))]),
    };
    ModuleItem::Stmt(Stmt::Decl(Decl::Fn(decl)))
}

#[test]
fn test_http_usage_detected() {
    let with_http = vec![plain_fn_item(), axios_fn_item()];
    assert!(module_uses_http(&with_http));
    let without = vec![plain_fn_item()];
    assert!(!module_uses_http(&without));
}

#[test]
fn test_manifest_entries_follow_http_usage() {
    let with_http = cargo_manifest(true);
    assert!(with_http.contains("reqwest = { version = \"0.11\", features = [\"json\"] }\n"));
    assert!(with_http.contains("tokio = { version = \"1.0\", features = [\"full\"] }\n"));
    let without = cargo_manifest(false);
    assert!(!without.contains("reqwest"));
    assert!(!without.contains("tokio"));
    assert!(without.contains("[dependencies]\n"));
}

#[test]
fn test_module_level_statement_generated() {
    let items = vec![ModuleItem::Stmt(Stmt::Expr(Expr::Ident("doIt".to_string())))];
    assert_eq!(translate_module(&items), "do_it;\n");
}

#[test]
fn test_other_module_items_emit_nothing() {
    let items = vec![
        ModuleItem::ModuleDecl(ModuleDecl::Other),
        ModuleItem::Stmt(Stmt::Other),
        ModuleItem::ModuleDecl(ModuleDecl::ExportDecl(Decl::Other)),
    ];
    assert_eq!(translate_module(&items), "");
}

#[test]
fn test_mixed_module_keeps_source_order() {
    let items = vec![
        import_item("./util", vec![named("Helper")]),
        plain_fn_item(),
        ModuleItem::Stmt(Stmt::Expr(Expr::Ident("done".to_string()))),
    ];
    assert_eq!(
        translate_module(&items),
        "use crate::util::Helper;\nfn multiply(a: f64, b: f64) -> f64 { return a * b; }\ndone;\n"
    );
}

#[test]
fn test_exporting_flag_scoped_to_export() {
    let mut generator = RustGenerator::new();
    let exported = ModuleItem::ModuleDecl(ModuleDecl::ExportDecl(Decl::Fn(FnDecl {
        name: "a".to_string(),
        is_async: false,
        params: vec![],
        return_type: None,
        body: None,
    })));
    generator.process_module_item(&exported);
    assert!(!generator.is_exporting);
    let plain = ModuleItem::Stmt(Stmt::Decl(Decl::Fn(FnDecl {
        name: "b".to_string(),
        is_async: false,
        params: vec![],
        return_type: None,
        body: None,
    })));
    generator.process_module_item(&plain);
    assert_eq!(generator.code, "pub fn a() -> () { }\nfn b() -> () { }\n");
}
