//! The extractor's tests: Rust sources read by `syn` through the library, and
//! the items that walking a syntax tree meets, given directly.
use rulest::extract::{
    convert_visibility, extract_from_events, flatten_use_tree, format_fn_signature, ExtractedFile, FieldsModel,
    FnSigModel, ImplMethod, ItemEvent, ParamModel, UseList, UseTreeModel, VisModel,
};
use rulest::models::{SymbolKind, Visibility};
use rulest::rust_syntax::{extract_from_items, extract_rust_source, RustItem};

fn sig(ident: &str, params: Vec<ParamModel>, output: Option<&str>) -> FnSigModel {
    FnSigModel { ident: ident.to_string(), params, output: output.map(|s| s.to_string()), is_async: false }
}

fn typed(pat: &str, ty: &str) -> ParamModel {
    ParamModel::Typed { pat: pat.to_string(), ty: ty.to_string() }
}

fn extract(events: Vec<ItemEvent>) -> ExtractedFile {
    extract_from_events(&events)
}

fn extract_from_source(source: &str) -> ExtractedFile {
    extract_rust_source(source).expect("Failed to extract symbols")
}

#[test]
fn test_extract_function() {
    let source = r#"pub fn foo(x: i32) -> bool { true }"#;
    let extracted = extract_from_source(source);
    assert_eq!(extracted.symbols.len(), 1);
    let sym = &extracted.symbols[0];
    assert_eq!(sym.name, "foo");
    assert_eq!(sym.kind, SymbolKind::Function);
    assert_eq!(sym.visibility, Visibility::Public);
    let sig = sym.signature.as_ref().expect("signature should be present");
    assert!(sig.contains("fn foo"), "signature should contain 'fn foo', got: {}", sig);
    assert!(sig.contains("-> bool"), "signature should contain '-> bool', got: {}", sig);
}

#[test]
fn test_extract_struct() {
    let source = r#"
            pub struct Point {
                pub x: f64,
                pub y: f64,
            }
        "#;
    let extracted = extract_from_source(source);
    assert_eq!(extracted.symbols.len(), 1);
    let sym = &extracted.symbols[0];
    assert_eq!(sym.name, "Point");
    assert_eq!(sym.kind, SymbolKind::Struct);
    assert_eq!(sym.visibility, Visibility::Public);
    let sig = sym.signature.as_ref().expect("signature should be present");
    assert!(sig.contains("struct Point"), "signature should contain 'struct Point', got: {}", sig);
    assert!(sig.contains("x:"), "signature should contain field 'x:', got: {}", sig);
    assert!(sig.contains("y:"), "signature should contain field 'y:', got: {}", sig);
}

#[test]
fn test_extract_enum() {
    let source = r#"
            pub enum Color {
                Red,
                Green,
                Blue,
            }
        "#;
    let extracted = extract_from_source(source);
    assert_eq!(extracted.symbols.len(), 1);
    let sym = &extracted.symbols[0];
    assert_eq!(sym.name, "Color");
    assert_eq!(sym.kind, SymbolKind::Enum);
    assert_eq!(sym.visibility, Visibility::Public);
    let sig = sym.signature.as_ref().expect("signature should be present");
    assert!(sig.contains("enum Color"), "signature should contain 'enum Color', got: {}", sig);
    assert!(sig.contains("Red"), "signature should contain variant 'Red', got: {}", sig);
    assert!(sig.contains("Green"), "signature should contain variant 'Green', got: {}", sig);
    assert!(sig.contains("Blue"), "signature should contain variant 'Blue', got: {}", sig);
}

#[test]
fn test_extract_trait() {
    let source = r#"
            pub trait Greetable {
                fn greet(&self) -> String;
            }
        "#;
    let extracted = extract_from_source(source);
    assert_eq!(extracted.symbols.len(), 1);
    let sym = &extracted.symbols[0];
    assert_eq!(sym.name, "Greetable");
    assert_eq!(sym.kind, SymbolKind::Trait);
    assert_eq!(sym.visibility, Visibility::Public);
    let sig = sym.signature.as_ref().expect("signature should be present");
    assert!(sig.contains("trait Greetable"), "signature should contain 'trait Greetable', got: {}", sig);
    assert!(sig.contains("fn greet"), "signature should contain 'fn greet', got: {}", sig);
}

#[test]
fn test_extract_impl_trait() {
    let source = r#"
            pub struct Foo;
            impl std::fmt::Display for Foo {
                fn fmt(&self, f: &mut std::fmt::Formatter<'_>) -> std::fmt::Result {
                    write!(f, "Foo")
                }
            }
        "#;
    let extracted = extract_from_source(source);
    assert!(
        extracted.symbols.iter().any(|s| s.name == "Foo" && s.kind == SymbolKind::Struct),
        "Should extract struct Foo"
    );
    assert!(
        extracted.symbols.iter().any(|s| s.name == "fmt" && s.kind == SymbolKind::Function),
        "Should extract method fmt"
    );
    assert_eq!(extracted.trait_impls.len(), 1);
    let (trait_name, ty_name) = &extracted.trait_impls[0];
    assert!(trait_name.contains("Display"), "trait_impls should capture Display, got: {}", trait_name);
    assert_eq!(ty_name, "Foo", "trait_impls should capture type Foo, got: {}", ty_name);
}

#[test]
fn test_extract_pub_use() {
    let source = r#"pub use crate::module::Symbol;"#;
    let extracted = extract_from_source(source);
    assert_eq!(extracted.symbols.len(), 1);
    let sym = &extracted.symbols[0];
    assert_eq!(sym.name, "Symbol");
    assert_eq!(sym.visibility, Visibility::Public);
    let sig = sym.signature.as_ref().expect("signature should be present");
    assert!(sig.contains("pub use"), "signature should contain 'pub use', got: {}", sig);
    assert!(sig.contains("crate::module::Symbol"), "signature should contain the full path, got: {}", sig);
}

#[test]
fn test_extract_macro() {
    let source = r#"
            macro_rules! my_macro {
                ($x:expr) => { $x + 1 };
            }
        "#;
    let extracted = extract_from_source(source);
    assert_eq!(extracted.symbols.len(), 1);
    let sym = &extracted.symbols[0];
    assert_eq!(sym.name, "my_macro");
    assert_eq!(sym.kind, SymbolKind::Macro);
    assert_eq!(sym.visibility, Visibility::Public);
    let sig = sym.signature.as_ref().expect("signature should be present");
    assert!(sig.contains("macro_rules!"), "signature should contain 'macro_rules!', got: {}", sig);
}

#[test]
fn source_lines_scopes_and_exact_signatures() {
    let source = "pub struct Foo;\nimpl Foo {\n    pub fn get(&mut self, n: Vec<u8>) -> Option<u32> { None }\n}\npub(crate) const MAX: usize = 3;\n";
    let f = extract_from_source(source);
    assert_eq!(f.symbols.len(), 3);
    assert_eq!(f.symbols[0].signature.as_deref(), Some("struct Foo"));
    assert_eq!(f.symbols[0].line_number, Some(1));
    assert_eq!(f.symbols[1].name, "get");
    assert_eq!(f.symbols[1].signature.as_deref(), Some("fn get(&mut self, n: Vec<u8>) -> Option<u32>"));
    assert_eq!(f.symbols[1].scope.as_deref(), Some("impl Foo"));
    assert_eq!(f.symbols[1].line_number, Some(3));
    assert_eq!(f.symbols[2].signature.as_deref(), Some("const MAX: usize"));
    assert_eq!(f.symbols[2].visibility, Visibility::CrateLocal);
    assert_eq!(f.symbols[2].scope, None);
    assert!(f.trait_impls.is_empty());
}

#[test]
fn items_in_function_bodies_are_not_extracted_but_inline_modules_are() {
    let source = "fn outer() { fn inner() {} struct Hidden; }\nmod m { pub fn shown() {} }\nmod elsewhere;\n";
    let f = extract_from_source(source);
    let names: Vec<&str> = f.symbols.iter().map(|s| s.name.as_str()).collect();
    assert_eq!(names, vec!["outer", "shown"]);
}

#[test]
fn extern_blocks_give_ffi_functions() {
    let source = "extern \"C\" { fn ext(buf: *mut u8) -> i32; }\npub extern \"C\" fn exported() {}\n";
    let f = extract_from_source(source);
    assert_eq!(f.symbols.len(), 2);
    assert_eq!(f.symbols[0].name, "ext");
    assert_eq!(f.symbols[0].kind, SymbolKind::FfiFunction);
    assert_eq!(f.symbols[0].signature.as_deref(), Some("fn ext(buf: *mutu8) -> i32"));
    assert_eq!(f.symbols[1].kind, SymbolKind::FfiFunction);
}

#[test]
fn unparsable_source_is_an_error() {
    assert!(extract_rust_source("fn (").is_err());
    assert!(extract_rust_source("").expect("empty source parses").symbols.is_empty());
}

#[test]
fn a_tree_given_directly_is_walked_the_same_way() {
    let f = extract_from_items(vec![
        RustItem::Fn { vis: VisModel::Public, sig: sig("f", vec![], None), line: 1, is_extern: false, body: vec![
            RustItem::Struct { vis: VisModel::Public, ident: "Inner".to_string(), fields: FieldsModel::Unit, line: 2 },
        ] },
        RustItem::Mod { items: Some(vec![RustItem::Other, RustItem::Macro { ident: Some("m".to_string()), line: 4 }]) },
        RustItem::Mod { items: None },
    ]);
    let names: Vec<&str> = f.symbols.iter().map(|s| s.name.as_str()).collect();
    assert_eq!(names, vec!["f", "m"]);
}

#[test]
fn signatures_print_receivers_async_and_results() {
    let s = FnSigModel {
        ident: "run".to_string(),
        params: vec![ParamModel::Receiver { reference: true, mutable: true }, typed("n", "u8")],
        output: None,
        is_async: true,
    };
    assert_eq!(format_fn_signature(&s), "async fn run(&mut self, n: u8)");
    let by_value = sig("take", vec![ParamModel::Receiver { reference: false, mutable: true }], Some("Self"));
    assert_eq!(format_fn_signature(&by_value), "fn take(self) -> Self");
}

#[test]
fn visibilities_convert() {
    assert_eq!(convert_visibility(&VisModel::Public), Visibility::Public);
    assert_eq!(convert_visibility(&VisModel::Restricted(vec!["crate".to_string()])), Visibility::CrateLocal);
    assert_eq!(convert_visibility(&VisModel::Restricted(vec!["super".to_string()])), Visibility::Private);
    assert_eq!(convert_visibility(&VisModel::Inherited), Visibility::Private);
}

#[test]
fn use_groups_renames_and_globs_flatten() {
    // a::{b, c as d, e::*}
    let group = UseList::Cons(
        UseTreeModel::Name("b".to_string()),
        Box::new(UseList::Cons(
            UseTreeModel::Rename("c".to_string(), "d".to_string()),
            Box::new(UseList::Cons(
                UseTreeModel::Path("e".to_string(), Box::new(UseTreeModel::Glob)),
                Box::new(UseList::Nil),
            )),
        )),
    );
    let tree = UseTreeModel::Path("a".to_string(), Box::new(UseTreeModel::Group(Box::new(group))));
    let pairs = flatten_use_tree(&tree, "");
    assert_eq!(
        pairs,
        vec![
            ("b".to_string(), "a::b".to_string()),
            ("d".to_string(), "a::c".to_string()),
            ("*".to_string(), "a::e::*".to_string()),
        ]
    );
    assert_eq!(flatten_use_tree(&UseTreeModel::Glob, ""), vec![("*".to_string(), "*".to_string())]);
}

#[test]
fn private_use_is_not_a_reexport_and_crate_use_is() {
    let f = extract(vec![
        ItemEvent::Use { vis: VisModel::Inherited, tree: UseTreeModel::Name("X".to_string()) },
        ItemEvent::Use { vis: VisModel::Restricted(vec!["crate".to_string()]), tree: UseTreeModel::Name("Y".to_string()) },
    ]);
    assert_eq!(f.symbols.len(), 1);
    assert_eq!(f.symbols[0].name, "Y");
    assert_eq!(f.symbols[0].kind, SymbolKind::ReExport);
    assert_eq!(f.symbols[0].visibility, Visibility::CrateLocal);
    assert_eq!(f.symbols[0].signature.as_deref(), Some("pub use Y"));
    assert_eq!(f.symbols[0].line_number, None);
}

#[test]
fn impl_scope_covers_methods_and_nested_items_then_ends() {
    let f = extract(vec![
        ItemEvent::ImplStart {
            self_ty: "Engine".to_string(),
            trait_path: None,
            methods: vec![Some(ImplMethod { vis: VisModel::Public, sig: sig("start", vec![], None), line: 3 }), None],
        },
        ItemEvent::Const { vis: VisModel::Inherited, ident: "LIMIT".to_string(), ty: "u32".to_string(), line: 4 },
        ItemEvent::ImplEnd,
        ItemEvent::Static { vis: VisModel::Public, ident: "COUNT".to_string(), ty: "u64".to_string(), line: 9 },
        ItemEvent::TypeAlias { vis: VisModel::Public, ident: "Id".to_string(), ty: "u64".to_string(), line: 10 },
    ]);
    assert_eq!(f.symbols.len(), 4);
    assert_eq!(f.symbols[0].scope.as_deref(), Some("impl Engine"));
    assert_eq!(f.symbols[0].signature.as_deref(), Some("fn start()"));
    assert_eq!(f.symbols[1].scope.as_deref(), Some("impl Engine"));
    assert_eq!(f.symbols[1].signature.as_deref(), Some("const LIMIT: u32"));
    assert_eq!(f.symbols[2].scope, None);
    assert_eq!(f.symbols[2].signature.as_deref(), Some("static COUNT: u64"));
    assert_eq!(f.symbols[3].signature.as_deref(), Some("type Id = u64"));
    assert!(f.trait_impls.is_empty());
}

#[test]
fn ffi_functions_are_marked() {
    let f = extract(vec![
        ItemEvent::Fn { vis: VisModel::Public, sig: sig("my_c_func", vec![typed("x", "i32")], Some("i32")), line: 3, is_extern: true },
        ItemEvent::ForeignFn {
            vis: VisModel::Inherited,
            sig: sig("external_dependency", vec![typed("buf", "*mutu8"), typed("len", "usize")], Some("i32")),
            line: 7,
        },
        ItemEvent::Fn { vis: VisModel::Public, sig: sig("regular_function", vec![], Some("bool")), line: 10, is_extern: false },
    ]);
    assert_eq!(f.symbols[0].kind, SymbolKind::FfiFunction);
    assert_eq!(f.symbols[1].kind, SymbolKind::FfiFunction);
    assert_eq!(f.symbols[2].kind, SymbolKind::Function);
}

#[test]
fn struct_fields_print_in_each_form() {
    let f = extract(vec![
        ItemEvent::Struct {
            vis: VisModel::Inherited,
            ident: "Pair".to_string(),
            fields: FieldsModel::Unnamed(vec!["u8".to_string(), "String".to_string()]),
            line: 1,
        },
        ItemEvent::Struct {
            vis: VisModel::Public,
            ident: "P".to_string(),
            fields: FieldsModel::Named(vec![(Some("a".to_string()), "i32".to_string())]),
            line: 2,
        },
        ItemEvent::Macro { ident: None, line: 3 },
    ]);
    assert_eq!(f.symbols.len(), 2);
    assert_eq!(f.symbols[0].signature.as_deref(), Some("struct Pair(u8, String)"));
    assert_eq!(f.symbols[0].visibility, Visibility::Private);
    assert_eq!(f.symbols[1].signature.as_deref(), Some("struct P { a: i32 }"));
}

/// The sample workspace's `crates/domain/src/types.rs`.
const FIXTURE_TYPES: &str = r#"/// A monetary amount.
pub struct Price {
    pub amount: f64,
    pub currency: String,
}

pub trait CurrencyFormat {
    fn format_idr(&self) -> String;
}

impl CurrencyFormat for Price {
    fn format_idr(&self) -> String {
        format!("IDR {:.0}", self.amount)
    }
}

pub fn calculate_fee(amount: f64, rate: f64) -> f64 {
    amount * rate
}
"#;

/// The sample workspace's `crates/infra/src/repository.rs`.
const FIXTURE_REPOSITORY: &str = r#"use domain::prelude::Price;

pub struct OrderRepository;

impl OrderRepository {
    pub fn find_total(&self) -> Price {
        Price { amount: 100000.0, currency: "IDR".to_string() }
    }
}

macro_rules! log_query {
    ($q:expr) => {
        println!("Query: {}", $q);
    };
}
"#;

#[test]
fn test_extractor_on_fixture() {
    let extracted = extract_from_source(FIXTURE_TYPES);

    let price = extracted
        .symbols
        .iter()
        .find(|s| s.name == "Price" && s.kind == SymbolKind::Struct)
        .expect("should extract Price struct");
    assert_eq!(price.visibility, Visibility::Public);
    let sig = price.signature.as_ref().expect("Price should have a signature");
    assert!(sig.contains("struct Price"), "Price signature should contain 'struct Price', got: {}", sig);

    let trait_sym = extracted
        .symbols
        .iter()
        .find(|s| s.name == "CurrencyFormat" && s.kind == SymbolKind::Trait)
        .expect("should extract CurrencyFormat trait");
    assert_eq!(trait_sym.visibility, Visibility::Public);
    let sig = trait_sym.signature.as_ref().expect("CurrencyFormat should have a signature");
    assert!(
        sig.contains("trait CurrencyFormat"),
        "CurrencyFormat signature should contain 'trait CurrencyFormat', got: {}",
        sig
    );

    let fee_fn = extracted
        .symbols
        .iter()
        .find(|s| s.name == "calculate_fee" && s.kind == SymbolKind::Function)
        .expect("should extract calculate_fee function");
    assert_eq!(fee_fn.visibility, Visibility::Public);
    let sig = fee_fn.signature.as_ref().expect("calculate_fee should have a signature");
    assert!(sig.contains("fn calculate_fee"), "calculate_fee signature should contain 'fn calculate_fee', got: {}", sig);

    let impl_found = extracted
        .trait_impls
        .iter()
        .any(|(trait_name, ty)| trait_name == "CurrencyFormat" && ty == "Price");
    assert!(impl_found, "should capture impl CurrencyFormat for Price in trait_impls, got: {:?}", extracted.trait_impls);
}

#[test]
fn test_extractor_pub_use() {
    let extracted = extract_from_source("pub use crate::types::Price;\npub use crate::types::CurrencyFormat;\n");

    let reexport_names: Vec<&str> =
        extracted.symbols.iter().filter(|s| s.kind == SymbolKind::ReExport).map(|s| s.name.as_str()).collect();
    assert!(reexport_names.contains(&"Price"), "should capture pub use re-export of Price, found: {:?}", reexport_names);
    assert!(
        reexport_names.contains(&"CurrencyFormat"),
        "should capture pub use re-export of CurrencyFormat, found: {:?}",
        reexport_names
    );
    for sym in extracted.symbols.iter().filter(|s| s.kind == SymbolKind::ReExport) {
        assert_eq!(sym.visibility, Visibility::Public, "pub use re-export '{}' should have Public visibility", sym.name);
    }
    for sym in extracted.symbols.iter().filter(|s| s.kind == SymbolKind::ReExport) {
        let sig = sym.signature.as_ref().expect("re-export should have a signature");
        assert!(sig.contains("pub use"), "re-export '{}' signature should contain 'pub use', got: {}", sym.name, sig);
    }
}

#[test]
fn test_extractor_macro() {
    let extracted = extract_from_source(FIXTURE_REPOSITORY);

    let macro_sym = extracted
        .symbols
        .iter()
        .find(|s| s.name == "log_query" && s.kind == SymbolKind::Macro)
        .expect("should extract log_query macro");
    let sig = macro_sym.signature.as_ref().expect("log_query macro should have a signature");
    assert!(sig.contains("macro_rules!"), "log_query signature should contain 'macro_rules!', got: {}", sig);
    assert!(sig.contains("log_query"), "log_query signature should contain 'log_query', got: {}", sig);
}

#[test]
fn types_are_written_without_spaces() {
    let f = extract(vec![
        ItemEvent::TypeAlias { vis: VisModel::Public, ident: "Id".to_string(), ty: "Vec < u8 >".to_string(), line: 1 },
        ItemEvent::Fn {
            vis: VisModel::Public,
            sig: sig("f", vec![typed("mut x", "& mut String")], Some("Option < u8 >")),
            line: 2,
            is_extern: false,
        },
    ]);
    assert_eq!(f.symbols[0].signature.as_deref(), Some("type Id = Vec<u8>"));
    assert_eq!(f.symbols[1].signature.as_deref(), Some("fn f(mut x: &mutString) -> Option<u8>"));
}
