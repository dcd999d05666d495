//! The TypeScript extractor's tests: sources read by swc through the library,
//! and the events that parsing a source reports, given directly.
use rulest::extract::ExtractedFile;
use rulest::models::{SymbolKind, Visibility};
use rulest::ts_syntax::{extract_from_ts_items, extract_ts_source, TsItem};
use rulest::typescript::{
    expr_name, extract_ts_from_events, format_ts_class_sig, format_ts_fn_sig, typescript_dialect, TsAccess, TsClass,
    TsClassMember, TsDecl, TsDeclarator, TsEnumMember, TsEvent, TsExportSpec, TsExpr, TsFunction, TsParam,
    TsPropKey, TsVarKind,
};

fn extract(events: Vec<TsEvent>) -> ExtractedFile {
    extract_ts_from_events(&events)
}

fn func(params: Vec<TsParam>) -> TsFunction {
    TsFunction { is_async: false, params }
}

fn named(n: &str) -> TsParam {
    TsParam::Ident(n.to_string())
}

fn decl(d: TsDecl, exported: bool) -> TsEvent {
    TsEvent::Decl { decl: d, exported }
}

/// Extracts the symbols of a source, as TSX for the extension `.tsx`.
fn extract_from_source(source: &str, ext: &str) -> ExtractedFile {
    extract_ts_source(source, ext == ".tsx").unwrap()
}

#[test]
fn test_extract_ts_function() {
    let e = extract_from_source("export function greet(name: string): string { return name; }", ".ts");
    assert_eq!(e.symbols.len(), 1);
    assert_eq!(e.symbols[0].name, "greet");
    assert_eq!(e.symbols[0].kind, SymbolKind::Function);
    assert_eq!(e.symbols[0].visibility, Visibility::Public);
}

#[test]
fn test_extract_ts_class() {
    let e = extract_from_source(
        "export class Greeter implements IGreeter { constructor(private prefix: string) {} greet(name: string): string { return this.prefix + name; } }",
        ".ts",
    );
    let class = e.symbols.iter().find(|s| s.name == "Greeter").expect("Should find Greeter");
    assert_eq!(class.kind, SymbolKind::Class);
    assert!(class.signature.as_ref().unwrap().contains("implements IGreeter"));
    let method = e.symbols.iter().find(|s| s.name == "greet" && s.scope.as_deref() == Some("class Greeter"));
    assert!(method.is_some(), "Should find greet method with class scope");
}

#[test]
fn test_extract_ts_interface() {
    let e = extract_from_source("export interface Greeter { greet(name: string): string; }", ".ts");
    assert_eq!(e.symbols.len(), 1);
    assert_eq!(e.symbols[0].name, "Greeter");
    assert_eq!(e.symbols[0].kind, SymbolKind::Interface);
}

#[test]
fn test_extract_ts_enum() {
    let e = extract_from_source("export enum Mood { Happy, Sad, Neutral }", ".ts");
    assert_eq!(e.symbols.len(), 1);
    assert_eq!(e.symbols[0].name, "Mood");
    assert_eq!(e.symbols[0].kind, SymbolKind::Enum);
    assert!(e.symbols[0].signature.as_ref().unwrap().contains("Happy"));
}

#[test]
fn test_extract_ts_type_alias() {
    let e = extract_from_source("export type MoodMap = Record<string, number>;", ".ts");
    assert_eq!(e.symbols.len(), 1);
    assert_eq!(e.symbols[0].name, "MoodMap");
    assert_eq!(e.symbols[0].kind, SymbolKind::TypeAlias);
}

#[test]
fn test_extract_ts_const() {
    let e = extract_from_source("export const MAX_SIZE: number = 100;", ".ts");
    assert_eq!(e.symbols.len(), 1);
    assert_eq!(e.symbols[0].name, "MAX_SIZE");
    assert_eq!(e.symbols[0].kind, SymbolKind::Const);
}

#[test]
fn test_extract_ts_reexport() {
    let e = extract_from_source("export { Foo as Bar } from './foo';", ".ts");
    assert_eq!(e.symbols.len(), 1);
    assert_eq!(e.symbols[0].name, "Bar");
    assert_eq!(e.symbols[0].kind, SymbolKind::ReExport);
}

#[test]
fn test_extract_ts_private() {
    let e = extract_from_source("function internalHelper(): void {}", ".ts");
    assert_eq!(e.symbols.len(), 1);
    assert_eq!(e.symbols[0].visibility, Visibility::Private);
}

#[test]
fn test_extract_tsx() {
    let e = extract_from_source("export function App(): JSX.Element { return <div>Hello</div>; }", ".tsx");
    assert_eq!(e.symbols.len(), 1);
    assert_eq!(e.symbols[0].name, "App");
    assert_eq!(e.symbols[0].kind, SymbolKind::Function);
}

#[test]
fn ts_source_namespaces_lines_and_signatures() {
    let source = "namespace Outer {\n  export function inner(a, ...rest) {}\n}\nexport async function top(x) {}\nimport { y } from './y';\n";
    let e = extract_from_source(source, ".ts");
    assert_eq!(e.symbols.len(), 2);
    assert_eq!(e.symbols[0].name, "inner");
    assert_eq!(e.symbols[0].scope.as_deref(), Some("namespace Outer"));
    assert_eq!(e.symbols[0].line_number, Some(2));
    assert_eq!(e.symbols[1].name, "top");
    assert_eq!(e.symbols[1].scope, None);
    assert_eq!(e.symbols[1].line_number, Some(4));
    assert!(e.trait_impls.is_empty());
}

#[test]
fn ts_unparsable_source_is_an_error_and_tsx_needs_its_dialect() {
    assert!(extract_ts_source("export function (", false).is_err());
    assert!(extract_ts_source("export const a = <div>x</div>;", false).is_err());
    assert!(extract_ts_source("export const a = <div>x</div>;", true).is_ok());
}

#[test]
fn ts_a_tree_given_directly_is_walked_the_same_way() {
    let e = extract_from_ts_items(vec![
        TsItem::Namespace { name: "N".to_string(), body: Some(vec![TsItem::Other, TsItem::Decl {
            decl: TsDecl::TypeAlias { name: "T".to_string(), line: Some(2) },
            exported: true,
        }]) },
        TsItem::Namespace { name: "Skipped".to_string(), body: None },
        TsItem::ExportAll { src: "./all".to_string(), line: Some(5) },
    ]);
    assert_eq!(e.symbols.len(), 2);
    assert_eq!(e.symbols[0].name, "T");
    assert_eq!(e.symbols[0].scope.as_deref(), Some("namespace N"));
    assert_eq!(e.symbols[1].scope, None);
}

#[test]
fn ts_signatures_are_exact() {
    let f = TsFunction {
        is_async: true,
        params: vec![named("a"), TsParam::Other, TsParam::Rest(None), TsParam::Rest(Some("rest".to_string()))],
    };
    assert_eq!(format_ts_fn_sig("load", &f), "async function load(a, arg1, ...arg2, ...rest)");
    assert_eq!(format_ts_fn_sig("f", &func(vec![])), "function f()");

    let c = TsClass {
        super_class: Some(TsExpr::Ident("Base".to_string())),
        implements: vec![
            TsExpr::Ident("A".to_string()),
            TsExpr::Member(Box::new(TsExpr::Ident("ns".to_string())), Some("B".to_string())),
        ],
        members: vec![],
    };
    assert_eq!(format_ts_class_sig("C", &c), "class C extends Base implements A, ns.B");
    let d = TsClass { super_class: Some(TsExpr::Other), implements: vec![], members: vec![] };
    assert_eq!(format_ts_class_sig("D", &d), "class D");
    assert_eq!(expr_name(&TsExpr::Member(Box::new(TsExpr::Other), None)), "?.?");
}

#[test]
fn ts_namespaces_nest_their_scopes() {
    // namespace Outer { namespace Inner { export type T = number; } function f() {} }  let x;
    let e = extract(vec![
        TsEvent::NamespaceStart { name: "Outer".to_string() },
        TsEvent::NamespaceStart { name: "Inner".to_string() },
        decl(TsDecl::TypeAlias { name: "T".to_string(), line: Some(1) }, true),
        TsEvent::NamespaceEnd,
        decl(TsDecl::Fn { name: "f".to_string(), function: func(vec![]), line: Some(1) }, false),
        TsEvent::NamespaceEnd,
        decl(
            TsDecl::Var { kind: TsVarKind::Let, decls: vec![TsDeclarator::Named { name: "x".to_string(), line: None }] },
            false,
        ),
    ]);
    assert_eq!(e.symbols.len(), 3);
    assert_eq!(e.symbols[0].scope.as_deref(), Some("namespace Outer > namespace Inner"));
    assert_eq!(e.symbols[0].signature.as_deref(), Some("type T"));
    assert_eq!(e.symbols[1].scope.as_deref(), Some("namespace Outer"));
    assert_eq!(e.symbols[2].scope, None);
    assert_eq!(e.symbols[2].kind, SymbolKind::Static);
    assert_eq!(e.symbols[2].signature.as_deref(), Some("let x"));
    assert!(e.trait_impls.is_empty());
}

#[test]
fn ts_default_exports_and_reexports() {
    let e = extract(vec![
        TsEvent::DefaultFn { ident: None, function: func(vec![]), line: Some(1) },
        TsEvent::DefaultClass {
            ident: Some("Widget".to_string()),
            class: TsClass {
                super_class: None,
                implements: vec![],
                members: vec![
                    TsClassMember::Method {
                        key: TsPropKey::Computed,
                        access: TsAccess::Protected,
                        is_static: true,
                        is_async: true,
                        line: Some(3),
                    },
                    TsClassMember::Method {
                        key: TsPropKey::Name("hide".to_string()),
                        access: TsAccess::Private,
                        is_static: false,
                        is_async: false,
                        line: Some(4),
                    },
                    TsClassMember::Other,
                ],
            },
            line: Some(2),
        },
        TsEvent::DefaultInterface { name: "Props".to_string(), line: Some(5) },
        TsEvent::ExportNamed {
            specs: vec![
                TsExportSpec::Named { orig: "a".to_string(), exported: None, line: Some(6) },
                TsExportSpec::Named { orig: "b".to_string(), exported: Some("c".to_string()), line: Some(6) },
                TsExportSpec::Other,
            ],
            src: None,
        },
        TsEvent::ExportAll { src: "./all".to_string(), line: Some(7) },
    ]);
    let names: Vec<&str> = e.symbols.iter().map(|s| s.name.as_str()).collect();
    assert_eq!(names, vec!["default", "Widget", "[computed]", "hide", "Props", "a", "c", "*"]);
    assert_eq!(e.symbols[0].signature.as_deref(), Some("function default()"));
    assert_eq!(e.symbols[2].signature.as_deref(), Some("static async method"));
    assert_eq!(e.symbols[2].visibility, Visibility::CrateLocal);
    assert_eq!(e.symbols[3].visibility, Visibility::Private);
    assert_eq!(e.symbols[3].scope.as_deref(), Some("class Widget"));
    assert_eq!(e.symbols[4].signature.as_deref(), Some("interface Props"));
    assert_eq!(e.symbols[5].signature.as_deref(), Some("export { a }"));
    assert_eq!(e.symbols[6].signature.as_deref(), Some("export { b as c }"));
    assert_eq!(e.symbols[7].signature.as_deref(), Some("export * from './all'"));
    assert!(e.symbols.iter().skip(4).all(|s| s.visibility == Visibility::Public));
}

#[test]
fn ts_enums_interfaces_and_patterns() {
    let e = extract(vec![
        decl(
            TsDecl::Enum {
                name: "E".to_string(),
                members: vec![TsEnumMember::Ident("A".to_string()), TsEnumMember::Str("b c".to_string())],
                line: Some(1),
            },
            false,
        ),
        decl(
            TsDecl::Interface {
                name: "I".to_string(),
                extends: vec![TsExpr::Ident("J".to_string()), TsExpr::Ident("K".to_string())],
                line: Some(2),
            },
            true,
        ),
        decl(TsDecl::Var { kind: TsVarKind::Var, decls: vec![TsDeclarator::Pattern] }, true),
        decl(TsDecl::Using, true),
    ]);
    assert_eq!(e.symbols.len(), 2);
    assert_eq!(e.symbols[0].signature.as_deref(), Some("enum E { A, \"b c\" }"));
    assert_eq!(e.symbols[1].signature.as_deref(), Some("interface I extends J, K"));
}

#[test]
fn ts_dialect_by_extension() {
    assert_eq!(typescript_dialect("web/app.tsx"), Some(true));
    assert_eq!(typescript_dialect("web/app.ts"), Some(false));
    assert_eq!(typescript_dialect("src/lib.rs"), None);
}
