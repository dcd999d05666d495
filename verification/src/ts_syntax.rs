//! Reading TypeScript and TSX source with swc into the library's own tree of
//! module items, and the order in which that tree is walked for symbols: a
//! namespace whose body is a block is walked through, between its start and
//! its end; a statement that declares nothing is passed over.
use vstd::prelude::*;

use crate::extract::{extracted_view, ExtractedFile};
use crate::typescript::{
    extract_ts_from_events, ts_walk, TsAccess, TsClass, TsClassMember, TsDecl, TsDeclarator, TsEnumMember, TsEvent,
    TsExportSpec, TsExpr, TsFunction, TsParam, TsPropKey, TsVarKind,
};

verus! {

// ---------------------------------------------------------------- the item tree

/// An item of a TypeScript module, with the items of a namespace body.
#[derive(Debug)]
pub enum TsItem {
    /// A declaration, exported when it stands under `export`.
    Decl { decl: TsDecl, exported: bool },
    /// `namespace name ..`: `Some` with the items of its body when that is a
    /// block, `None` for `namespace a.b { .. }`.
    Namespace { name: String, body: Option<Vec<TsItem>> },
    /// `export default function [name]`.
    DefaultFn { ident: Option<String>, function: TsFunction, line: Option<u32> },
    /// `export default class [name]`.
    DefaultClass { ident: Option<String>, class: TsClass, line: Option<u32> },
    /// `export default interface name`.
    DefaultInterface { name: String, line: Option<u32> },
    /// `export { .. } [from 'src']`.
    ExportNamed { specs: Vec<TsExportSpec>, src: Option<String> },
    /// `export * from 'src'`.
    ExportAll { src: String, line: Option<u32> },
    /// Any other module item.
    Other,
}

/// The module items that swc reads in `source` (as TSX when `tsx`), converted
/// field by field into the library's tree; `None` when swc cannot parse it.
pub uninterp spec fn ts_module_items(source: Seq<char>, tsx: bool) -> Option<Seq<TsItem>>;

// ---------------------------------------------------------------- which items are walked

/// The events met walking `items` in order.
pub open spec fn ts_item_events(items: Seq<TsItem>) -> Seq<TsEvent>
    decreases items,
{
    if items.len() == 0 {
        Seq::empty()
    } else {
        one_ts_item_events(items[0]) + ts_item_events(items.subrange(1, items.len() as int))
    }
}

/// The events met walking one item: a namespace with a block body opens its
/// scope, is walked through and closes it; any other namespace, and an item
/// that declares nothing, gives none.
pub open spec fn one_ts_item_events(item: TsItem) -> Seq<TsEvent>
    decreases item,
{
    match item {
        TsItem::Decl { decl, exported } => seq![TsEvent::Decl { decl, exported }],
        TsItem::Namespace { name, body } => match body {
            Some(v) => seq![TsEvent::NamespaceStart { name }] + ts_item_events(v@) + seq![TsEvent::NamespaceEnd],
            None => Seq::empty(),
        },
        TsItem::DefaultFn { ident, function, line } => seq![TsEvent::DefaultFn { ident, function, line }],
        TsItem::DefaultClass { ident, class, line } => seq![TsEvent::DefaultClass { ident, class, line }],
        TsItem::DefaultInterface { name, line } => seq![TsEvent::DefaultInterface { name, line }],
        TsItem::ExportNamed { specs, src } => seq![TsEvent::ExportNamed { specs, src }],
        TsItem::ExportAll { src, line } => seq![TsEvent::ExportAll { src, line }],
        TsItem::Other => Seq::empty(),
    }
}

/// Appends the events met walking `item`.
fn push_ts_item_events(item: TsItem, out: &mut Vec<TsEvent>)
    ensures
        final(out)@ == old(out)@ + one_ts_item_events(item),
    decreases item,
{
    let ghost it = item;
    let ghost before = out@;
    match item {
        TsItem::Decl { decl, exported } => out.push(TsEvent::Decl { decl, exported }),
        TsItem::Namespace { name, body } => {
            match body {
                Some(v) => {
                    out.push(TsEvent::NamespaceStart { name });
                    proof {
                        assert(decreases_to!(it => v@));
                    }
                    push_ts_items_events(v, out);
                    out.push(TsEvent::NamespaceEnd);
                },
                None => {},
            }
        },
        TsItem::DefaultFn { ident, function, line } => out.push(TsEvent::DefaultFn { ident, function, line }),
        TsItem::DefaultClass { ident, class, line } => out.push(TsEvent::DefaultClass { ident, class, line }),
        TsItem::DefaultInterface { name, line } => out.push(TsEvent::DefaultInterface { name, line }),
        TsItem::ExportNamed { specs, src } => out.push(TsEvent::ExportNamed { specs, src }),
        TsItem::ExportAll { src, line } => out.push(TsEvent::ExportAll { src, line }),
        TsItem::Other => {},
    }
    assert(out@ =~= before + one_ts_item_events(it));
}

/// Appends the events met walking `items` in order.
fn push_ts_items_events(items: Vec<TsItem>, out: &mut Vec<TsEvent>)
    ensures
        final(out)@ == old(out)@ + ts_item_events(items@),
    decreases items@,
{
    let ghost all = items@;
    let ghost before = out@;
    let mut rest = items;
    if rest.len() == 0 {
        assert(before + ts_item_events(all) =~= before);
        return;
    }
    let first = rest.remove(0);
    assert(rest@ =~= all.subrange(1, all.len() as int));
    proof {
        assert(decreases_to!(all => all[0]));
        assert(decreases_to!(all => all.subrange(1, all.len() as int)));
    }
    push_ts_item_events(first, out);
    push_ts_items_events(rest, out);
    assert(ts_item_events(all) == one_ts_item_events(all[0]) + ts_item_events(all.subrange(1, all.len() as int)));
    assert(out@ =~= before + ts_item_events(all));
}

/// The symbols of the items of a TypeScript module: the events met walking
/// them (`ts_item_events`), taken in order by `ts_walk`.
pub fn extract_from_ts_items(items: Vec<TsItem>) -> (r: ExtractedFile)
    ensures
        extracted_view(r.symbols) == ts_walk(ts_item_events(items@)).symbols,
        r.trait_impls.len() == 0,
{
    let mut events: Vec<TsEvent> = Vec::new();
    push_ts_items_events(items, &mut events);
    assert(events@ =~= ts_item_events(items@));
    extract_ts_from_events(&events)
}

/// Parses TypeScript (TSX when `tsx`) and extracts its symbols: `Err` with
/// swc's message when it cannot be parsed, else what `extract_from_ts_items`
/// gives for the items read.
pub fn extract_ts_source(source: &str, tsx: bool) -> (r: Result<ExtractedFile, String>)
    ensures
        r is Ok <==> ts_module_items(source@, tsx) is Some,
        r matches Ok(f) ==> extracted_view(f.symbols) == ts_walk(ts_item_events(ts_module_items(source@, tsx)->0)).symbols
            && f.trait_impls.len() == 0,
{
    let items = parse_ts_items(source, tsx)?;
    Ok(extract_from_ts_items(items))
}

// ---------------------------------------------------------------- swc

#[verifier::external_type_specification]
#[verifier::external_body]
pub struct ExSourceMap(swc_common::SourceMap);

#[verifier::external_type_specification]
#[verifier::external_body]
pub struct ExSpan(swc_common::Span);

#[verifier::external_type_specification]
#[verifier::external_body]
pub struct ExModuleItem(swc_ecma_ast::ModuleItem);

#[verifier::external_type_specification]
#[verifier::external_body]
pub struct ExModuleDecl(swc_ecma_ast::ModuleDecl);

#[verifier::external_type_specification]
#[verifier::external_body]
pub struct ExExportDefaultDecl(swc_ecma_ast::ExportDefaultDecl);

#[verifier::external_type_specification]
#[verifier::external_body]
pub struct ExNamedExport(swc_ecma_ast::NamedExport);

#[verifier::external_type_specification]
#[verifier::external_body]
pub struct ExDecl(swc_ecma_ast::Decl);

#[verifier::external_type_specification]
#[verifier::external_body]
pub struct ExFnDecl(swc_ecma_ast::FnDecl);

#[verifier::external_type_specification]
#[verifier::external_body]
pub struct ExClassDecl(swc_ecma_ast::ClassDecl);

#[verifier::external_type_specification]
#[verifier::external_body]
pub struct ExTsInterfaceDecl(swc_ecma_ast::TsInterfaceDecl);

#[verifier::external_type_specification]
#[verifier::external_body]
pub struct ExAccessibility(swc_ecma_ast::Accessibility);

#[verifier::external_type_specification]
#[verifier::external_body]
pub struct ExVarDecl(swc_ecma_ast::VarDecl);

#[verifier::external_type_specification]
#[verifier::external_body]
pub struct ExTsEnumDecl(swc_ecma_ast::TsEnumDecl);

#[verifier::external_type_specification]
#[verifier::external_body]
pub struct ExTsModuleDecl(swc_ecma_ast::TsModuleDecl);

#[verifier::external_type_specification]
#[verifier::external_body]
pub struct ExFunction(swc_ecma_ast::Function);

#[verifier::external_type_specification]
#[verifier::external_body]
pub struct ExClass(swc_ecma_ast::Class);

#[verifier::external_type_specification]
#[verifier::external_body]
pub struct ExClassMember(swc_ecma_ast::ClassMember);

#[verifier::external_type_specification]
#[verifier::external_body]
pub struct ExPropName(swc_ecma_ast::PropName);

#[verifier::external_type_specification]
#[verifier::external_body]
pub struct ExExpr(swc_ecma_ast::Expr);

#[verifier::external_type_specification]
#[verifier::external_body]
pub struct ExStr(swc_ecma_ast::Str);

#[verifier::external_type_specification]
#[verifier::external_body]
pub struct ExModuleExportName(swc_ecma_ast::ModuleExportName);

/// `swc_ecma_parser::Parser::parse_module` on `source` (TypeScript syntax, TSX
/// when `tsx`, decorators on), its items converted into the library's tree
/// (`Err` with the parse error as it debug-prints). The contract claims only
/// that the result is the one named `ts_module_items(source, tsx)`: the same
/// source and dialect always give the same tree, and `Ok` exactly when swc
/// parses it.
#[verifier::external_body]
fn parse_ts_items(source: &str, tsx: bool) -> (r: Result<Vec<TsItem>, String>)
    ensures
        match r {
            Ok(v) => ts_module_items(source@, tsx) == Some(v@),
            Err(_) => ts_module_items(source@, tsx) is None,
        },
{
    let cm: swc_common::sync::Lrc<swc_common::SourceMap> = Default::default();
    let fm = cm.new_source_file(swc_common::sync::Lrc::new(swc_common::FileName::Anon), source.to_string());
    let syntax = swc_ecma_parser::Syntax::Typescript(swc_ecma_parser::TsSyntax { tsx, decorators: true, ..Default::default() });
    let mut parser = swc_ecma_parser::Parser::new(syntax, swc_ecma_parser::StringInput::from(&*fm), None);
    match parser.parse_module() {
        Ok(m) => Ok(m.body.iter().map(|i| ts_item(i, &cm)).collect()),
        Err(e) => Err(format!("{:?}", e)),
    }
}

/// Converts a module item: a module declaration, a declaration statement, or
/// `Other`; part of the conversion that `parse_ts_items` makes.
#[verifier::external_body]
fn ts_item(item: &swc_ecma_ast::ModuleItem, cm: &swc_common::SourceMap) -> TsItem {
    match item {
        swc_ecma_ast::ModuleItem::ModuleDecl(d) => module_decl_item(d, cm),
        swc_ecma_ast::ModuleItem::Stmt(swc_ecma_ast::Stmt::Decl(d)) => decl_item(d, cm, false),
        _ => TsItem::Other,
    }
}

/// Converts a module declaration, one arm per kind of export; part of the
/// conversion that `parse_ts_items` makes.
#[verifier::external_body]
fn module_decl_item(decl: &swc_ecma_ast::ModuleDecl, cm: &swc_common::SourceMap) -> TsItem {
    match decl {
        swc_ecma_ast::ModuleDecl::ExportDecl(e) => decl_item(&e.decl, cm, true),
        swc_ecma_ast::ModuleDecl::ExportDefaultDecl(e) => default_item(e, cm),
        swc_ecma_ast::ModuleDecl::ExportNamed(n) => named_export_item(n, cm),
        swc_ecma_ast::ModuleDecl::ExportAll(a) => TsItem::ExportAll { src: str_text(&a.src), line: line_at(cm, a.span) },
        _ => TsItem::Other,
    }
}

/// Converts `export default ..`, with the line of the export; part of the
/// conversion that `parse_ts_items` makes.
#[verifier::external_body]
fn default_item(e: &swc_ecma_ast::ExportDefaultDecl, cm: &swc_common::SourceMap) -> TsItem {
    let line = line_at(cm, e.span);
    match &e.decl {
        swc_ecma_ast::DefaultDecl::Fn(f) => TsItem::DefaultFn { ident: f.ident.as_ref().map(|i| i.sym.as_str().to_owned()), function: function_model(&f.function), line },
        swc_ecma_ast::DefaultDecl::Class(c) => TsItem::DefaultClass { ident: c.ident.as_ref().map(|i| i.sym.as_str().to_owned()), class: class_model(&c.class, cm), line },
        swc_ecma_ast::DefaultDecl::TsInterfaceDecl(i) => TsItem::DefaultInterface { name: i.id.sym.as_str().to_owned(), line },
        #[allow(unreachable_patterns)]
        _ => TsItem::Other,
    }
}

/// Converts `export { .. } [from 'src']`, one entry per specifier; part of the
/// conversion that `parse_ts_items` makes.
#[verifier::external_body]
fn named_export_item(n: &swc_ecma_ast::NamedExport, cm: &swc_common::SourceMap) -> TsItem {
    let specs = n.specifiers.iter().map(|s| match s {
        swc_ecma_ast::ExportSpecifier::Named(x) => TsExportSpec::Named { orig: export_name(&x.orig), exported: x.exported.as_ref().map(export_name), line: line_at(cm, x.span) },
        _ => TsExportSpec::Other,
    }).collect();
    TsItem::ExportNamed { specs, src: n.src.as_ref().map(|s| str_text(s)) }
}

/// Converts a declaration, one arm per kind; part of the conversion that
/// `parse_ts_items` makes.
#[verifier::external_body]
fn decl_item(d: &swc_ecma_ast::Decl, cm: &swc_common::SourceMap, exported: bool) -> TsItem {
    let decl = match d {
        swc_ecma_ast::Decl::Fn(f) => fn_decl(f, cm),
        swc_ecma_ast::Decl::Class(c) => class_decl(c, cm),
        swc_ecma_ast::Decl::Var(v) => var_decl(v, cm),
        swc_ecma_ast::Decl::TsInterface(i) => interface_decl(i, cm),
        swc_ecma_ast::Decl::TsTypeAlias(t) => TsDecl::TypeAlias { name: t.id.sym.as_str().to_owned(), line: line_at(cm, t.span) },
        swc_ecma_ast::Decl::TsEnum(e) => enum_decl(e, cm),
        swc_ecma_ast::Decl::TsModule(m) => return namespace_item(m, cm),
        _ => TsDecl::Using,
    };
    TsItem::Decl { decl, exported }
}

/// Converts a function declaration, with the line of the function; part of
/// the conversion that `parse_ts_items` makes.
#[verifier::external_body]
fn fn_decl(f: &swc_ecma_ast::FnDecl, cm: &swc_common::SourceMap) -> TsDecl {
    TsDecl::Fn { name: f.ident.sym.as_str().to_owned(), function: function_model(&f.function), line: line_at(cm, f.function.span) }
}

/// Converts a class declaration, with the line of the class; part of the
/// conversion that `parse_ts_items` makes.
#[verifier::external_body]
fn class_decl(c: &swc_ecma_ast::ClassDecl, cm: &swc_common::SourceMap) -> TsDecl {
    TsDecl::Class { name: c.ident.sym.as_str().to_owned(), class: class_model(&c.class, cm), line: line_at(cm, c.class.span) }
}

/// Converts an interface declaration, one entry per `extends` expression; part
/// of the conversion that `parse_ts_items` makes.
#[verifier::external_body]
fn interface_decl(i: &swc_ecma_ast::TsInterfaceDecl, cm: &swc_common::SourceMap) -> TsDecl {
    TsDecl::Interface { name: i.id.sym.as_str().to_owned(), extends: i.extends.iter().map(|e| expr_model(&e.expr)).collect(), line: line_at(cm, i.span) }
}

/// Converts a variable declaration: its keyword and one entry per declarator;
/// part of the conversion that `parse_ts_items` makes.
#[verifier::external_body]
fn var_decl(v: &swc_ecma_ast::VarDecl, cm: &swc_common::SourceMap) -> TsDecl {
    let kind = match v.kind {
        swc_ecma_ast::VarDeclKind::Const => TsVarKind::Const,
        swc_ecma_ast::VarDeclKind::Let => TsVarKind::Let,
        swc_ecma_ast::VarDeclKind::Var => TsVarKind::Var,
    };
    let decls = v.decls.iter().map(|d| match &d.name {
        swc_ecma_ast::Pat::Ident(i) => TsDeclarator::Named { name: i.id.sym.as_str().to_owned(), line: line_at(cm, d.span) },
        _ => TsDeclarator::Pattern,
    }).collect();
    TsDecl::Var { kind, decls }
}

/// Converts an enum declaration, one entry per member; part of the conversion
/// that `parse_ts_items` makes.
#[verifier::external_body]
fn enum_decl(e: &swc_ecma_ast::TsEnumDecl, cm: &swc_common::SourceMap) -> TsDecl {
    let members = e.members.iter().map(|m| match &m.id {
        swc_ecma_ast::TsEnumMemberId::Ident(i) => TsEnumMember::Ident(i.sym.as_str().to_owned()),
        swc_ecma_ast::TsEnumMemberId::Str(s) => TsEnumMember::Str(str_text(s)),
        #[allow(unreachable_patterns)]
        _ => TsEnumMember::Ident(String::new()),
    }).collect();
    TsDecl::Enum { name: e.id.sym.as_str().to_owned(), members, line: line_at(cm, e.span) }
}

/// Converts a namespace declaration: its name and, when its body is a block,
/// its items; part of the conversion that `parse_ts_items` makes.
#[verifier::external_body]
fn namespace_item(m: &swc_ecma_ast::TsModuleDecl, cm: &swc_common::SourceMap) -> TsItem {
    let name = match &m.id {
        swc_ecma_ast::TsModuleName::Ident(i) => i.sym.as_str().to_owned(),
        swc_ecma_ast::TsModuleName::Str(s) => str_text(s),
        #[allow(unreachable_patterns)]
        _ => String::new(),
    };
    let body = match &m.body {
        Some(swc_ecma_ast::TsNamespaceBody::TsModuleBlock(b)) => Some(b.body.iter().map(|i| ts_item(i, cm)).collect()),
        _ => None,
    };
    TsItem::Namespace { name, body }
}

/// Converts a function: whether it is `async`, and one entry per parameter;
/// part of the conversion that `parse_ts_items` makes.
#[verifier::external_body]
fn function_model(f: &swc_ecma_ast::Function) -> TsFunction {
    let params = f.params.iter().map(|p| match &p.pat {
        swc_ecma_ast::Pat::Ident(i) => TsParam::Ident(i.id.sym.as_str().to_owned()),
        swc_ecma_ast::Pat::Rest(r) => match &*r.arg {
            swc_ecma_ast::Pat::Ident(i) => TsParam::Rest(Some(i.id.sym.as_str().to_owned())),
            _ => TsParam::Rest(None),
        },
        _ => TsParam::Other,
    }).collect();
    TsFunction { is_async: f.is_async, params }
}

/// Converts a class: its superclass, its `implements` clause, one entry per
/// member; part of the conversion that `parse_ts_items` makes.
#[verifier::external_body]
fn class_model(c: &swc_ecma_ast::Class, cm: &swc_common::SourceMap) -> TsClass {
    TsClass {
        super_class: c.super_class.as_ref().map(|s| expr_model(s)),
        implements: c.implements.iter().map(|i| expr_model(&i.expr)).collect(),
        members: c.body.iter().map(|m| class_member(m, cm)).collect(),
    }
}

/// Converts a class member: a method, a constructor, or `Other`; part of the
/// conversion that `parse_ts_items` makes.
#[verifier::external_body]
fn class_member(m: &swc_ecma_ast::ClassMember, cm: &swc_common::SourceMap) -> TsClassMember {
    match m {
        swc_ecma_ast::ClassMember::Method(x) => TsClassMember::Method {
            key: prop_key(&x.key),
            access: access_model(x.accessibility),
            is_static: x.is_static,
            is_async: x.function.is_async,
            line: line_at(cm, x.span),
        },
        swc_ecma_ast::ClassMember::Constructor(x) => TsClassMember::Constructor { line: line_at(cm, x.span) },
        _ => TsClassMember::Other,
    }
}

/// Converts the accessibility written on a method (`Unspecified` when none
/// is); part of the conversion that `parse_ts_items` makes.
#[verifier::external_body]
fn access_model(a: Option<swc_ecma_ast::Accessibility>) -> TsAccess {
    match a {
        Some(swc_ecma_ast::Accessibility::Private) => TsAccess::Private,
        Some(swc_ecma_ast::Accessibility::Protected) => TsAccess::Protected,
        Some(swc_ecma_ast::Accessibility::Public) => TsAccess::Public,
        None => TsAccess::Unspecified,
    }
}

/// Converts the key of a method: a name as written, or `Computed`; part of the
/// conversion that `parse_ts_items` makes.
#[verifier::external_body]
fn prop_key(k: &swc_ecma_ast::PropName) -> TsPropKey {
    match k {
        swc_ecma_ast::PropName::Ident(i) => TsPropKey::Name(i.sym.as_str().to_owned()),
        swc_ecma_ast::PropName::Str(s) => TsPropKey::Name(str_text(s)),
        swc_ecma_ast::PropName::Num(n) => TsPropKey::Name(n.value.to_string()),
        swc_ecma_ast::PropName::BigInt(b) => TsPropKey::Name(b.value.to_string()),
        _ => TsPropKey::Computed,
    }
}

/// Converts an expression naming a type: a name, a member access, or `Other`;
/// part of the conversion that `parse_ts_items` makes.
#[verifier::external_body]
fn expr_model(e: &swc_ecma_ast::Expr) -> TsExpr {
    match e {
        swc_ecma_ast::Expr::Ident(i) => TsExpr::Ident(i.sym.as_str().to_owned()),
        swc_ecma_ast::Expr::Member(m) => TsExpr::Member(Box::new(expr_model(&m.obj)), match &m.prop {
            swc_ecma_ast::MemberProp::Ident(i) => Some(i.sym.as_str().to_owned()),
            _ => None,
        }),
        _ => TsExpr::Other,
    }
}

/// The text of a string literal; part of the conversion that `parse_ts_items`
/// makes.
#[verifier::external_body]
fn str_text(s: &swc_ecma_ast::Str) -> String {
    s.value.as_str().unwrap_or_default().to_owned()
}

/// The text of an exported name; part of the conversion that `parse_ts_items`
/// makes.
#[verifier::external_body]
fn export_name(n: &swc_ecma_ast::ModuleExportName) -> String {
    match n {
        swc_ecma_ast::ModuleExportName::Ident(i) => i.sym.as_str().to_owned(),
        swc_ecma_ast::ModuleExportName::Str(s) => str_text(s),
        #[allow(unreachable_patterns)]
        _ => String::new(),
    }
}

/// The line (from 1) at which a span starts, through the source map; `None`
/// for a span that stands for no place in the source. Part of the conversion
/// that `parse_ts_items` makes.
#[verifier::external_body]
fn line_at(cm: &swc_common::SourceMap, span: swc_common::Span) -> Option<u32> {
    if span.lo.is_dummy() {
        return None;
    }
    Some(cm.lookup_char_pos(span.lo).line as u32)
}

} // verus!
