//! Symbols of TypeScript and TSX sources. `ts_syntax` reads a source with swc
//! and walks its module items; the declarations met arrive here, in source
//! order, as `TsEvent` values, and are turned into the registry's symbols:
//! functions, classes with their methods, interfaces, type aliases, enums,
//! variables, and re-exports.
use vstd::prelude::*;

use crate::advisory::{opt_view, strings_view};
use crate::extract::{extracted_view, ExtractedFile, ExtractedSymbol, ExtractedSymbolView};
use crate::models::{SymbolKind, Visibility};
use crate::queries::join_with;
use crate::text::{concat, ends_with, owned};
use crate::time::decimal;

verus! {

// ---------------------------------------------------------------- the model of the syntax

/// An expression naming a type in an `extends` or `implements` clause.
#[derive(Debug)]
pub enum TsExpr {
    /// A name.
    Ident(String),
    /// `object.property`; the property when it is a plain name.
    Member(Box<TsExpr>, Option<String>),
    /// Any other expression.
    Other,
}

/// A parameter of a function.
#[derive(Debug)]
pub enum TsParam {
    /// A named parameter.
    Ident(String),
    /// A rest parameter `...name`, with its name when it is a plain name.
    Rest(Option<String>),
    /// A destructuring pattern or another form.
    Other,
}

/// A function: whether it is `async`, and its parameters.
#[derive(Debug)]
pub struct TsFunction {
    pub is_async: bool,
    pub params: Vec<TsParam>,
}

/// The accessibility written on a class member.
#[derive(Debug, Clone, Copy, PartialEq, Eq, Structural)]
pub enum TsAccess {
    Public,
    Protected,
    Private,
    /// None written.
    Unspecified,
}

/// The key of a class method.
#[derive(Debug)]
pub enum TsPropKey {
    /// A name, string or number key, as written.
    Name(String),
    /// A computed key `[expr]`.
    Computed,
}

/// A member of a class body.
#[derive(Debug)]
pub enum TsClassMember {
    Method { key: TsPropKey, access: TsAccess, is_static: bool, is_async: bool, line: Option<u32> },
    Constructor { line: Option<u32> },
    /// A property, accessor, or other member.
    Other,
}

/// A class: its superclass, the types it implements, and its members.
#[derive(Debug)]
pub struct TsClass {
    pub super_class: Option<TsExpr>,
    pub implements: Vec<TsExpr>,
    pub members: Vec<TsClassMember>,
}

/// The keyword of a variable declaration.
#[derive(Debug, Clone, Copy, PartialEq, Eq, Structural)]
pub enum TsVarKind {
    Var,
    Let,
    Const,
}

/// One declarator of a variable declaration.
#[derive(Debug)]
pub enum TsDeclarator {
    /// `name = ..`, with its line.
    Named { name: String, line: Option<u32> },
    /// A destructuring pattern.
    Pattern,
}

/// A member of an enum: a name or a string.
#[derive(Debug)]
pub enum TsEnumMember {
    Ident(String),
    Str(String),
}

/// A declaration (namespaces arrive as `TsEvent::NamespaceStart` and
/// `TsEvent::NamespaceEnd` around their bodies).
#[derive(Debug)]
pub enum TsDecl {
    Fn { name: String, function: TsFunction, line: Option<u32> },
    Class { name: String, class: TsClass, line: Option<u32> },
    Var { kind: TsVarKind, decls: Vec<TsDeclarator> },
    Interface { name: String, extends: Vec<TsExpr>, line: Option<u32> },
    TypeAlias { name: String, line: Option<u32> },
    Enum { name: String, members: Vec<TsEnumMember>, line: Option<u32> },
    /// A `using` declaration.
    Using,
}

/// A specifier of `export { .. }`.
#[derive(Debug)]
pub enum TsExportSpec {
    /// `orig` or `orig as exported`, with its line.
    Named { orig: String, exported: Option<String>, line: Option<u32> },
    /// A namespace or default specifier.
    Other,
}

/// What the parser meets, in source order, at module level or in a
/// namespace body.
#[derive(Debug)]
pub enum TsEvent {
    /// A declaration, exported when it stands under `export`.
    Decl { decl: TsDecl, exported: bool },
    /// `export default function [name]`.
    DefaultFn { ident: Option<String>, function: TsFunction, line: Option<u32> },
    /// `export default class [name]`.
    DefaultClass { ident: Option<String>, class: TsClass, line: Option<u32> },
    /// `export default interface name`.
    DefaultInterface { name: String, line: Option<u32> },
    /// `export { .. } [from 'src']`.
    ExportNamed { specs: Vec<TsExportSpec>, src: Option<String> },
    /// `export * from 'src'`.
    ExportAll { src: String, line: Option<u32> },
    /// The start of the body of `namespace name { .. }`.
    NamespaceStart { name: String },
    /// The end of a namespace body.
    NamespaceEnd,
}

// ---------------------------------------------------------------- signatures

/// The name an expression gives a type: a name, `object.property` (with `?`
/// for a property that is not a plain name), or `?`.
pub open spec fn ts_expr_name(e: TsExpr) -> Seq<char>
    decreases e,
{
    match e {
        TsExpr::Ident(n) => n@,
        TsExpr::Member(o, p) => ts_expr_name(*o) + "."@ + match p {
            Some(s) => s@,
            None => "?"@,
        },
        TsExpr::Other => "?"@,
    }
}

/// The names of expressions.
pub open spec fn ts_expr_names(es: Seq<TsExpr>) -> Seq<Seq<char>> {
    es.map_values(|e: TsExpr| ts_expr_name(e))
}

/// The text of the parameter at position `i`: its name, `...name`, or
/// `argI` / `...argI` when it has no plain name.
pub open spec fn ts_param_text(p: TsParam, i: int) -> Seq<char> {
    match p {
        TsParam::Ident(n) => n@,
        TsParam::Rest(Some(n)) => "..."@ + n@,
        TsParam::Rest(None) => "...arg"@ + decimal(i as nat),
        TsParam::Other => "arg"@ + decimal(i as nat),
    }
}

/// The texts of parameters, by position.
pub open spec fn ts_params_text(ps: Seq<TsParam>) -> Seq<Seq<char>> {
    Seq::new(ps.len(), |i: int| ts_param_text(ps[i], i))
}

/// The signature of a function: `[async ]function name(params)`.
pub open spec fn ts_fn_sig(name: Seq<char>, f: TsFunction) -> Seq<char> {
    (if f.is_async {
        "async "@
    } else {
        Seq::empty()
    }) + "function "@ + name + "("@ + join_with(ts_params_text(f.params@), ", "@) + ")"@
}

/// The signature of a class: `class name`, then ` extends Base` when the
/// superclass is a plain name, then ` implements A, B` when it implements
/// any type.
pub open spec fn ts_class_sig(name: Seq<char>, c: TsClass) -> Seq<char> {
    "class "@ + name + match c.super_class {
        Some(TsExpr::Ident(b)) => " extends "@ + b@,
        _ => Seq::empty(),
    } + if c.implements.len() > 0 {
        " implements "@ + join_with(ts_expr_names(c.implements@), ", "@)
    } else {
        Seq::empty()
    }
}

/// The text of an enum member: its name, or its string in double quotes.
pub open spec fn ts_enum_member_text(m: TsEnumMember) -> Seq<char> {
    match m {
        TsEnumMember::Ident(n) => n@,
        TsEnumMember::Str(s) => "\""@ + s@ + "\""@,
    }
}

/// The keyword of a variable declaration.
pub open spec fn ts_var_keyword(k: TsVarKind) -> Seq<char> {
    match k {
        TsVarKind::Var => "var"@,
        TsVarKind::Let => "let"@,
        TsVarKind::Const => "const"@,
    }
}

/// The name of an expression (see `ts_expr_name`).
pub fn expr_name(e: &TsExpr) -> (r: String)
    ensures
        r@ == ts_expr_name(*e),
    decreases e,
{
    match e {
        TsExpr::Ident(n) => n.clone(),
        TsExpr::Member(o, p) => {
            let mut s = expr_name(o);
            s.append(".");
            match p {
                Some(name) => s.append(name.as_str()),
                None => s.append("?"),
            }
            s
        },
        TsExpr::Other => owned("?"),
    }
}

/// The names of expressions, joined with `, `.
fn expr_names_joined(es: &Vec<TsExpr>) -> (r: String)
    ensures
        r@ == join_with(ts_expr_names(es@), ", "@),
{
    let mut names: Vec<String> = Vec::new();
    let mut i: usize = 0;
    while i < es.len()
        invariant
            i <= es.len(),
            strings_view(names) == ts_expr_names(es@.take(i as int)),
        decreases es.len() - i,
    {
        let n = expr_name(&es[i]);
        let ghost before = strings_view(names);
        names.push(n);
        assert(strings_view(names) == before.push(n@));
        assert(ts_expr_names(es@.take(i + 1)) == ts_expr_names(es@.take(i as int)).push(ts_expr_name(es@[i as int])));
        i = i + 1;
    }
    assert(es@.take(es.len() as int) == es@);
    crate::extract::join_strings(&names, ", ")
}

/// The text of the parameter at position `i` (see `ts_param_text`).
fn param_text(p: &TsParam, i: usize) -> (r: String)
    ensures
        r@ == ts_param_text(*p, i as int),
{
    match p {
        TsParam::Ident(n) => n.clone(),
        TsParam::Rest(Some(n)) => concat("...", n.as_str()),
        TsParam::Rest(None) => {
            let d = crate::cli::count_string(i);
            concat("...arg", d.as_str())
        },
        TsParam::Other => {
            let d = crate::cli::count_string(i);
            concat("arg", d.as_str())
        },
    }
}

/// The signature of a function (see `ts_fn_sig`).
pub fn format_ts_fn_sig(name: &str, f: &TsFunction) -> (r: String)
    ensures
        r@ == ts_fn_sig(name@, *f),
{
    let ghost pv = ts_params_text(f.params@);
    let mut texts: Vec<String> = Vec::new();
    let mut i: usize = 0;
    while i < f.params.len()
        invariant
            i <= f.params.len(),
            pv == ts_params_text(f.params@),
            strings_view(texts) == pv.take(i as int),
        decreases f.params.len() - i,
    {
        let t = param_text(&f.params[i], i);
        let ghost before = strings_view(texts);
        texts.push(t);
        assert(strings_view(texts) == before.push(t@));
        assert(pv.take(i + 1) == pv.take(i as int).push(pv[i as int]));
        i = i + 1;
    }
    assert(pv.take(f.params.len() as int) == pv);
    let mut s = if f.is_async {
        owned("async ")
    } else {
        String::new()
    };
    s.append("function ");
    s.append(name);
    s.append("(");
    let j = crate::extract::join_strings(&texts, ", ");
    s.append(j.as_str());
    s.append(")");
    s
}

/// The signature of a class (see `ts_class_sig`).
pub fn format_ts_class_sig(name: &str, c: &TsClass) -> (r: String)
    ensures
        r@ == ts_class_sig(name@, *c),
{
    let mut s = concat("class ", name);
    match &c.super_class {
        Some(TsExpr::Ident(b)) => {
            s.append(" extends ");
            s.append(b.as_str());
        },
        _ => {},
    }
    if c.implements.len() > 0 {
        s.append(" implements ");
        let j = expr_names_joined(&c.implements);
        s.append(j.as_str());
    }
    s
}

// ---------------------------------------------------------------- symbols

/// A symbol with a signature.
pub open spec fn ts_sym(
    name: Seq<char>,
    kind: SymbolKind,
    visibility: Visibility,
    signature: Seq<char>,
    line: Option<u32>,
    scope: Option<Seq<char>>,
) -> ExtractedSymbolView {
    ExtractedSymbolView { name, kind, visibility, signature: Some(signature), line_number: line, scope }
}

/// Exported declarations are public, others private.
pub open spec fn export_visibility(exported: bool) -> Visibility {
    if exported {
        Visibility::Public
    } else {
        Visibility::Private
    }
}

/// The visibility of a class member: `private` is private, `protected`
/// crate-local, anything else public.
pub open spec fn member_visibility(a: TsAccess) -> Visibility {
    match a {
        TsAccess::Private => Visibility::Private,
        TsAccess::Protected => Visibility::CrateLocal,
        _ => Visibility::Public,
    }
}

/// The name of a method key; a computed key is `[computed]`.
pub open spec fn key_text(k: TsPropKey) -> Seq<char> {
    match k {
        TsPropKey::Name(n) => n@,
        TsPropKey::Computed => "[computed]"@,
    }
}

/// The symbols of one class member, in the scope `class <name>`: a method
/// (signature `[static ][async ]method`) or the constructor.
pub open spec fn member_symbol(m: TsClassMember, class_name: Seq<char>) -> Seq<ExtractedSymbolView> {
    let scope = Some("class "@ + class_name);
    match m {
        TsClassMember::Method { key, access, is_static, is_async, line } => seq![
            ts_sym(
                key_text(key),
                SymbolKind::Function,
                member_visibility(access),
                (if is_static {
                    "static "@
                } else {
                    Seq::empty()
                }) + (if is_async {
                    "async "@
                } else {
                    Seq::empty()
                }) + "method"@,
                line,
                scope,
            ),
        ],
        TsClassMember::Constructor { line } => seq![
            ts_sym("constructor"@, SymbolKind::Function, Visibility::Public, "constructor"@, line, scope),
        ],
        TsClassMember::Other => Seq::empty(),
    }
}

/// The symbols of the members of a class, in order.
pub open spec fn member_symbols(ms: Seq<TsClassMember>, class_name: Seq<char>) -> Seq<ExtractedSymbolView>
    decreases ms.len(),
{
    if ms.len() == 0 {
        Seq::empty()
    } else {
        member_symbols(ms.drop_last(), class_name) + member_symbol(ms.last(), class_name)
    }
}

/// The symbols of a class: the class itself, then its members.
pub open spec fn class_symbols(
    name: Seq<char>,
    c: TsClass,
    visibility: Visibility,
    line: Option<u32>,
    scope: Option<Seq<char>>,
) -> Seq<ExtractedSymbolView> {
    seq![ts_sym(name, SymbolKind::Class, visibility, ts_class_sig(name, c), line, scope)] + member_symbols(
        c.members@,
        name,
    )
}

/// The symbols of the declarators of a variable declaration: each named one
/// is a constant under `const`, else a static, with signature `<keyword>
/// <name>`.
pub open spec fn declarator_symbols(
    ds: Seq<TsDeclarator>,
    kind: TsVarKind,
    visibility: Visibility,
    scope: Option<Seq<char>>,
) -> Seq<ExtractedSymbolView>
    decreases ds.len(),
{
    if ds.len() == 0 {
        Seq::empty()
    } else {
        declarator_symbols(ds.drop_last(), kind, visibility, scope) + match ds.last() {
            TsDeclarator::Named { name, line } => seq![
                ts_sym(
                    name@,
                    if kind == TsVarKind::Const {
                        SymbolKind::Const
                    } else {
                        SymbolKind::Static
                    },
                    visibility,
                    ts_var_keyword(kind) + " "@ + name@,
                    line,
                    scope,
                ),
            ],
            TsDeclarator::Pattern => Seq::empty(),
        }
    }
}

/// The symbols of a declaration.
pub open spec fn decl_symbols(d: TsDecl, exported: bool, scope: Option<Seq<char>>) -> Seq<ExtractedSymbolView> {
    let v = export_visibility(exported);
    match d {
        TsDecl::Fn { name, function, line } => seq![
            ts_sym(name@, SymbolKind::Function, v, ts_fn_sig(name@, function), line, scope),
        ],
        TsDecl::Class { name, class, line } => class_symbols(name@, class, v, line, scope),
        TsDecl::Var { kind, decls } => declarator_symbols(decls@, kind, v, scope),
        TsDecl::Interface { name, extends, line } => seq![
            ts_sym(
                name@,
                SymbolKind::Interface,
                v,
                "interface "@ + name@ + if extends.len() > 0 {
                    " extends "@ + join_with(ts_expr_names(extends@), ", "@)
                } else {
                    Seq::empty()
                },
                line,
                scope,
            ),
        ],
        TsDecl::TypeAlias { name, line } => seq![
            ts_sym(name@, SymbolKind::TypeAlias, v, "type "@ + name@, line, scope),
        ],
        TsDecl::Enum { name, members, line } => seq![
            ts_sym(
                name@,
                SymbolKind::Enum,
                v,
                "enum "@ + name@ + " { "@ + join_with(
                    members@.map_values(|m: TsEnumMember| ts_enum_member_text(m)),
                    ", "@,
                ) + " }"@,
                line,
                scope,
            ),
        ],
        TsDecl::Using => Seq::empty(),
    }
}

/// The symbol of one specifier of `export { .. }`: a public re-export under
/// its exported name, with signature `export { orig } from 'src'`, `export {
/// orig as name }` or `export { orig }`.
pub open spec fn export_spec_symbol(
    spec: TsExportSpec,
    src: Option<Seq<char>>,
    scope: Option<Seq<char>>,
) -> Seq<ExtractedSymbolView> {
    match spec {
        TsExportSpec::Named { orig, exported, line } => {
            let name = match exported {
                Some(e) => e@,
                None => orig@,
            };
            let signature = match src {
                Some(s) => "export { "@ + orig@ + " } from '"@ + s + "'"@,
                None => if orig@ != name {
                    "export { "@ + orig@ + " as "@ + name + " }"@
                } else {
                    "export { "@ + orig@ + " }"@
                },
            };
            seq![ts_sym(name, SymbolKind::ReExport, Visibility::Public, signature, line, scope)]
        },
        TsExportSpec::Other => Seq::empty(),
    }
}

/// The symbols of the specifiers of `export { .. }`, in order.
pub open spec fn export_spec_symbols(
    specs: Seq<TsExportSpec>,
    src: Option<Seq<char>>,
    scope: Option<Seq<char>>,
) -> Seq<ExtractedSymbolView>
    decreases specs.len(),
{
    if specs.len() == 0 {
        Seq::empty()
    } else {
        export_spec_symbols(specs.drop_last(), src, scope) + export_spec_symbol(specs.last(), src, scope)
    }
}

/// The name of a default export: its own, or `default`.
pub open spec fn default_name(ident: Option<String>) -> Seq<char> {
    match ident {
        Some(n) => n@,
        None => "default"@,
    }
}

/// The scope of a namespace body: `namespace <name>`, after the enclosing
/// scope and ` > ` when there is one.
pub open spec fn namespace_scope(scope: Option<Seq<char>>, name: Seq<char>) -> Seq<char> {
    match scope {
        Some(s) => s + " > namespace "@ + name,
        None => "namespace "@ + name,
    }
}

/// What a walk has found so far: the symbols, the scope of the namespace
/// being walked, and the scopes to return to.
#[verifier::ext_equal]
pub struct TsWalkState {
    pub symbols: Seq<ExtractedSymbolView>,
    pub scope: Option<Seq<char>>,
    pub saved: Seq<Option<Seq<char>>>,
}

/// What meeting one event does to a walk: declarations add their symbols in
/// the current scope (exported ones public, others private); default exports
/// are public and named `default` when they have no name; re-exports are
/// public; a namespace body opens its scope until its end.
pub open spec fn ts_step(st: TsWalkState, e: TsEvent) -> TsWalkState {
    match e {
        TsEvent::Decl { decl, exported } => TsWalkState {
            symbols: st.symbols + decl_symbols(decl, exported, st.scope),
            ..st
        },
        TsEvent::DefaultFn { ident, function, line } => TsWalkState {
            symbols: st.symbols.push(
                ts_sym(
                    default_name(ident),
                    SymbolKind::Function,
                    Visibility::Public,
                    ts_fn_sig(default_name(ident), function),
                    line,
                    st.scope,
                ),
            ),
            ..st
        },
        TsEvent::DefaultClass { ident, class, line } => TsWalkState {
            symbols: st.symbols + class_symbols(default_name(ident), class, Visibility::Public, line, st.scope),
            ..st
        },
        TsEvent::DefaultInterface { name, line } => TsWalkState {
            symbols: st.symbols.push(
                ts_sym(name@, SymbolKind::Interface, Visibility::Public, "interface "@ + name@, line, st.scope),
            ),
            ..st
        },
        TsEvent::ExportNamed { specs, src } => TsWalkState {
            symbols: st.symbols + export_spec_symbols(specs@, opt_view(src), st.scope),
            ..st
        },
        TsEvent::ExportAll { src, line } => TsWalkState {
            symbols: st.symbols.push(
                ts_sym(
                    "*"@,
                    SymbolKind::ReExport,
                    Visibility::Public,
                    "export * from '"@ + src@ + "'"@,
                    line,
                    st.scope,
                ),
            ),
            ..st
        },
        TsEvent::NamespaceStart { name } => TsWalkState {
            scope: Some(namespace_scope(st.scope, name@)),
            saved: st.saved.push(st.scope),
            ..st
        },
        TsEvent::NamespaceEnd => if st.saved.len() > 0 {
            TsWalkState { scope: st.saved.last(), saved: st.saved.drop_last(), ..st }
        } else {
            TsWalkState { scope: None, ..st }
        },
    }
}

/// The state after walking the events in order.
pub open spec fn ts_walk(events: Seq<TsEvent>) -> TsWalkState
    decreases events.len(),
{
    if events.len() == 0 {
        TsWalkState { symbols: Seq::empty(), scope: None, saved: Seq::empty() }
    } else {
        ts_step(ts_walk(events.drop_last()), events.last())
    }
}

// ---------------------------------------------------------------- building the symbols

/// A copy of an optional string.
fn copy_scope(o: &Option<String>) -> (r: Option<String>)
    ensures
        opt_view(r) == opt_view(*o),
{
    match o {
        Some(s) => Some(s.clone()),
        None => None,
    }
}

/// A symbol with a signature (see `ts_sym`).
fn make_symbol(
    name: String,
    kind: SymbolKind,
    visibility: Visibility,
    signature: String,
    line: Option<u32>,
    scope: Option<String>,
) -> (r: ExtractedSymbol)
    ensures
        r@ == ts_sym(name@, kind, visibility, signature@, line, opt_view(scope)),
{
    ExtractedSymbol { name, kind, visibility, signature: Some(signature), line_number: line, scope }
}

/// Appends symbols.
fn push_all(dst: &mut Vec<ExtractedSymbol>, src: Vec<ExtractedSymbol>)
    ensures
        extracted_view(*final(dst)) == extracted_view(*old(dst)) + extracted_view(src),
{
    let mut src = src;
    let ghost a = extracted_view(*dst);
    let ghost b = extracted_view(src);
    dst.append(&mut src);
    assert(extracted_view(*dst) =~= a + b);
}

/// The visibility of an export (see `export_visibility`).
fn visibility_for(exported: bool) -> (r: Visibility)
    ensures
        r == export_visibility(exported),
{
    if exported {
        Visibility::Public
    } else {
        Visibility::Private
    }
}

/// The symbols of one class member (see `member_symbol`).
fn member_symbol_of(m: &TsClassMember, class_name: &str) -> (r: Vec<ExtractedSymbol>)
    ensures
        extracted_view(r) == member_symbol(*m, class_name@),
{
    let mut out: Vec<ExtractedSymbol> = Vec::new();
    match m {
        TsClassMember::Method { key, access, is_static, is_async, line } => {
            let name = match key {
                TsPropKey::Name(n) => n.clone(),
                TsPropKey::Computed => owned("[computed]"),
            };
            let v = match access {
                TsAccess::Private => Visibility::Private,
                TsAccess::Protected => Visibility::CrateLocal,
                _ => Visibility::Public,
            };
            let mut sig = if *is_static {
                owned("static ")
            } else {
                String::new()
            };
            if *is_async {
                sig.append("async ");
            }
            sig.append("method");
            let sym = make_symbol(name, SymbolKind::Function, v, sig, *line, Some(concat("class ", class_name)));
            out.push(sym);
            assert(extracted_view(out) =~= member_symbol(*m, class_name@));
        },
        TsClassMember::Constructor { line } => {
            let sym = make_symbol(
                owned("constructor"),
                SymbolKind::Function,
                Visibility::Public,
                owned("constructor"),
                *line,
                Some(concat("class ", class_name)),
            );
            out.push(sym);
            assert(extracted_view(out) =~= member_symbol(*m, class_name@));
        },
        TsClassMember::Other => {
            assert(extracted_view(out) =~= member_symbol(*m, class_name@));
        },
    }
    out
}

/// The symbols of a class (see `class_symbols`).
fn class_symbols_of(
    name: &str,
    c: &TsClass,
    visibility: Visibility,
    line: Option<u32>,
    scope: &Option<String>,
) -> (r: Vec<ExtractedSymbol>)
    ensures
        extracted_view(r) == class_symbols(name@, *c, visibility, line, opt_view(*scope)),
{
    let sig = format_ts_class_sig(name, c);
    let mut out: Vec<ExtractedSymbol> = Vec::new();
    out.push(make_symbol(owned(name), SymbolKind::Class, visibility, sig, line, copy_scope(scope)));
    let ghost head = extracted_view(out);
    let mut i: usize = 0;
    while i < c.members.len()
        invariant
            i <= c.members.len(),
            extracted_view(out) == head + member_symbols(c.members@.take(i as int), name@),
        decreases c.members.len() - i,
    {
        let more = member_symbol_of(&c.members[i], name);
        push_all(&mut out, more);
        assert(c.members@.take(i + 1).drop_last() == c.members@.take(i as int));
        assert(member_symbols(c.members@.take(i + 1), name@) == member_symbols(c.members@.take(i as int), name@)
            + member_symbol(c.members@[i as int], name@));
        i = i + 1;
    }
    assert(c.members@.take(c.members.len() as int) == c.members@);
    out
}

/// The symbols of the declarators of a variable declaration (see
/// `declarator_symbols`).
fn declarator_symbols_of(
    ds: &Vec<TsDeclarator>,
    kind: TsVarKind,
    visibility: Visibility,
    scope: &Option<String>,
) -> (r: Vec<ExtractedSymbol>)
    ensures
        extracted_view(r) == declarator_symbols(ds@, kind, visibility, opt_view(*scope)),
{
    let keyword = match kind {
        TsVarKind::Var => "var",
        TsVarKind::Let => "let",
        TsVarKind::Const => "const",
    };
    proof {
        reveal_strlit("var");
        reveal_strlit("let");
        reveal_strlit("const");
    }
    assert(keyword@ == ts_var_keyword(kind));
    let sk = if kind == TsVarKind::Const {
        SymbolKind::Const
    } else {
        SymbolKind::Static
    };
    let mut out: Vec<ExtractedSymbol> = Vec::new();
    let mut i: usize = 0;
    while i < ds.len()
        invariant
            i <= ds.len(),
            keyword@ == ts_var_keyword(kind),
            sk == (if kind == TsVarKind::Const {
                SymbolKind::Const
            } else {
                SymbolKind::Static
            }),
            extracted_view(out) == declarator_symbols(ds@.take(i as int), kind, visibility, opt_view(*scope)),
        decreases ds.len() - i,
    {
        assert(ds@.take(i + 1).drop_last() == ds@.take(i as int));
        assert(ds@.take(i + 1).last() == ds@[i as int]);
        match &ds[i] {
            TsDeclarator::Named { name, line } => {
                let mut sig = concat(keyword, " ");
                sig.append(name.as_str());
                let sym = make_symbol(name.clone(), sk, visibility, sig, *line, copy_scope(scope));
                let ghost before = extracted_view(out);
                out.push(sym);
                assert(extracted_view(out) == before.push(sym@));
                assert(extracted_view(out) =~= declarator_symbols(ds@.take(i + 1), kind, visibility, opt_view(*scope)));
            },
            TsDeclarator::Pattern => {
                assert(extracted_view(out) =~= declarator_symbols(ds@.take(i + 1), kind, visibility, opt_view(*scope)));
            },
        }
        i = i + 1;
    }
    assert(ds@.take(ds.len() as int) == ds@);
    out
}

/// The text of an enum member (see `ts_enum_member_text`).
fn enum_member_text(m: &TsEnumMember) -> (r: String)
    ensures
        r@ == ts_enum_member_text(*m),
{
    match m {
        TsEnumMember::Ident(n) => n.clone(),
        TsEnumMember::Str(st) => {
            let mut t = concat("\"", st.as_str());
            t.append("\"");
            t
        },
    }
}

/// The signature of an enum: `enum name { A, B }`.
fn enum_signature(name: &str, members: &Vec<TsEnumMember>) -> (r: String)
    ensures
        r@ == "enum "@ + name@ + " { "@ + join_with(
            members@.map_values(|m: TsEnumMember| ts_enum_member_text(m)),
            ", "@,
        ) + " }"@,
{
    let ghost mv = members@.map_values(|m: TsEnumMember| ts_enum_member_text(m));
    let mut texts: Vec<String> = Vec::new();
    let mut i: usize = 0;
    while i < members.len()
        invariant
            i <= members.len(),
            mv == members@.map_values(|m: TsEnumMember| ts_enum_member_text(m)),
            strings_view(texts) == mv.take(i as int),
        decreases members.len() - i,
    {
        let t = enum_member_text(&members[i]);
        let ghost before = strings_view(texts);
        texts.push(t);
        assert(strings_view(texts) == before.push(t@));
        assert(mv.take(i + 1) == mv.take(i as int).push(mv[i as int]));
        i = i + 1;
    }
    assert(mv.take(members.len() as int) == mv);
    let mut s = concat("enum ", name);
    s.append(" { ");
    let j = crate::extract::join_strings(&texts, ", ");
    s.append(j.as_str());
    s.append(" }");
    s
}

/// The symbols of a declaration (see `decl_symbols`).
pub fn decl_symbols_of(d: &TsDecl, exported: bool, scope: &Option<String>) -> (r: Vec<ExtractedSymbol>)
    ensures
        extracted_view(r) == decl_symbols(*d, exported, opt_view(*scope)),
{
    let v = visibility_for(exported);
    let mut out: Vec<ExtractedSymbol> = Vec::new();
    match d {
        TsDecl::Fn { name, function, line } => {
            let sig = format_ts_fn_sig(name.as_str(), function);
            out.push(make_symbol(name.clone(), SymbolKind::Function, v, sig, *line, copy_scope(scope)));
            assert(extracted_view(out) =~= decl_symbols(*d, exported, opt_view(*scope)));
        },
        TsDecl::Class { name, class, line } => {
            out = class_symbols_of(name.as_str(), class, v, *line, scope);
        },
        TsDecl::Var { kind, decls } => {
            out = declarator_symbols_of(decls, *kind, v, scope);
        },
        TsDecl::Interface { name, extends, line } => {
            let mut sig = concat("interface ", name.as_str());
            if extends.len() > 0 {
                sig.append(" extends ");
                let j = expr_names_joined(extends);
                sig.append(j.as_str());
            } else {
                assert(sig@ =~= "interface "@ + name@ + Seq::<char>::empty());
            }
            assert(sig@ =~= "interface "@ + name@ + if extends.len() > 0 {
                " extends "@ + join_with(ts_expr_names(extends@), ", "@)
            } else {
                Seq::empty()
            });
            out.push(make_symbol(name.clone(), SymbolKind::Interface, v, sig, *line, copy_scope(scope)));
            assert(extracted_view(out) =~= decl_symbols(*d, exported, opt_view(*scope)));
        },
        TsDecl::TypeAlias { name, line } => {
            let sig = concat("type ", name.as_str());
            out.push(make_symbol(name.clone(), SymbolKind::TypeAlias, v, sig, *line, copy_scope(scope)));
            assert(extracted_view(out) =~= decl_symbols(*d, exported, opt_view(*scope)));
        },
        TsDecl::Enum { name, members, line } => {
            let sig = enum_signature(name.as_str(), members);
            out.push(make_symbol(name.clone(), SymbolKind::Enum, v, sig, *line, copy_scope(scope)));
            assert(extracted_view(out) =~= decl_symbols(*d, exported, opt_view(*scope)));
        },
        TsDecl::Using => {
            assert(extracted_view(out) =~= decl_symbols(*d, exported, opt_view(*scope)));
        },
    }
    out
}

/// The symbols of the specifiers of `export { .. }` (see
/// `export_spec_symbols`).
fn export_spec_symbols_of(
    specs: &Vec<TsExportSpec>,
    src: &Option<String>,
    scope: &Option<String>,
) -> (r: Vec<ExtractedSymbol>)
    ensures
        extracted_view(r) == export_spec_symbols(specs@, opt_view(*src), opt_view(*scope)),
{
    let mut out: Vec<ExtractedSymbol> = Vec::new();
    let mut i: usize = 0;
    while i < specs.len()
        invariant
            i <= specs.len(),
            extracted_view(out) == export_spec_symbols(specs@.take(i as int), opt_view(*src), opt_view(*scope)),
        decreases specs.len() - i,
    {
        assert(specs@.take(i + 1).drop_last() == specs@.take(i as int));
        assert(specs@.take(i + 1).last() == specs@[i as int]);
        match &specs[i] {
            TsExportSpec::Named { orig, exported, line } => {
                let name = match exported {
                    Some(e) => e.clone(),
                    None => orig.clone(),
                };
                let mut sig = concat("export { ", orig.as_str());
                match src {
                    Some(s) => {
                        sig.append(" } from '");
                        sig.append(s.as_str());
                        sig.append("'");
                    },
                    None => {
                        if crate::text::str_eq(orig.as_str(), name.as_str()) {
                            sig.append(" }");
                        } else {
                            sig.append(" as ");
                            sig.append(name.as_str());
                            sig.append(" }");
                        }
                    },
                }
                let sym = make_symbol(name, SymbolKind::ReExport, Visibility::Public, sig, *line, copy_scope(scope));
                let ghost before = extracted_view(out);
                out.push(sym);
                assert(extracted_view(out) == before.push(sym@));
                assert(extracted_view(out) =~= export_spec_symbols(
                    specs@.take(i + 1),
                    opt_view(*src),
                    opt_view(*scope),
                ));
            },
            TsExportSpec::Other => {
                assert(extracted_view(out) =~= export_spec_symbols(
                    specs@.take(i + 1),
                    opt_view(*src),
                    opt_view(*scope),
                ));
            },
        }
        i = i + 1;
    }
    assert(specs@.take(specs.len() as int) == specs@);
    out
}

// ---------------------------------------------------------------- the walk

/// A walk in progress.
struct TsWalker {
    symbols: Vec<ExtractedSymbol>,
    scope: Option<String>,
    saved: Vec<Option<String>>,
}

/// The plain content of a walk in progress.
spec fn ts_walker_view(w: TsWalker) -> TsWalkState {
    TsWalkState {
        symbols: extracted_view(w.symbols),
        scope: opt_view(w.scope),
        saved: w.saved@.map_values(|o: Option<String>| opt_view(o)),
    }
}

/// The name of a default export (see `default_name`).
fn default_name_of(ident: &Option<String>) -> (r: String)
    ensures
        r@ == default_name(*ident),
{
    match ident {
        Some(n) => n.clone(),
        None => owned("default"),
    }
}

impl TsWalker {
    /// Adds symbols at the end.
    fn add_all(&mut self, more: Vec<ExtractedSymbol>)
        ensures
            ts_walker_view(*final(self)) == (TsWalkState {
                symbols: ts_walker_view(*old(self)).symbols + extracted_view(more),
                ..ts_walker_view(*old(self))
            }),
    {
        push_all(&mut self.symbols, more);
        assert(ts_walker_view(*self) =~= (TsWalkState {
            symbols: ts_walker_view(*old(self)).symbols + extracted_view(more),
            ..ts_walker_view(*old(self))
        }));
    }

    /// Adds one symbol at the end.
    fn add_one(&mut self, sym: ExtractedSymbol)
        ensures
            ts_walker_view(*final(self)) == (TsWalkState {
                symbols: ts_walker_view(*old(self)).symbols.push(sym@),
                ..ts_walker_view(*old(self))
            }),
    {
        let ghost before = extracted_view(self.symbols);
        self.symbols.push(sym);
        assert(extracted_view(self.symbols) == before.push(sym@));
        assert(ts_walker_view(*self) =~= (TsWalkState {
            symbols: ts_walker_view(*old(self)).symbols.push(sym@),
            ..ts_walker_view(*old(self))
        }));
    }

    /// Meets one event of the walk (see `ts_step`).
    fn meet(&mut self, e: &TsEvent)
        ensures
            ts_walker_view(*final(self)) == ts_step(ts_walker_view(*old(self)), *e),
    {
        match e {
            TsEvent::Decl { decl, exported } => {
                let more = decl_symbols_of(decl, *exported, &self.scope);
                self.add_all(more);
            },
            TsEvent::DefaultFn { ident, function, line } => {
                let name = default_name_of(ident);
                let sig = format_ts_fn_sig(name.as_str(), function);
                let sym = make_symbol(name, SymbolKind::Function, Visibility::Public, sig, *line, copy_scope(&self.scope));
                self.add_one(sym);
            },
            TsEvent::DefaultClass { ident, class, line } => {
                let name = default_name_of(ident);
                let more = class_symbols_of(name.as_str(), class, Visibility::Public, *line, &self.scope);
                self.add_all(more);
            },
            TsEvent::DefaultInterface { name, line } => {
                let sig = concat("interface ", name.as_str());
                let sym = make_symbol(
                    name.clone(),
                    SymbolKind::Interface,
                    Visibility::Public,
                    sig,
                    *line,
                    copy_scope(&self.scope),
                );
                self.add_one(sym);
            },
            TsEvent::ExportNamed { specs, src } => {
                let more = export_spec_symbols_of(specs, src, &self.scope);
                self.add_all(more);
            },
            TsEvent::ExportAll { src, line } => {
                let mut sig = concat("export * from '", src.as_str());
                sig.append("'");
                let sym = make_symbol(
                    owned("*"),
                    SymbolKind::ReExport,
                    Visibility::Public,
                    sig,
                    *line,
                    copy_scope(&self.scope),
                );
                self.add_one(sym);
            },
            TsEvent::NamespaceStart { name } => {
                let scope = match &self.scope {
                    Some(s) => {
                        let mut t = concat(s.as_str(), " > namespace ");
                        t.append(name.as_str());
                        t
                    },
                    None => concat("namespace ", name.as_str()),
                };
                let ghost saved_before = self.saved@.map_values(|o: Option<String>| opt_view(o));
                let previous = copy_scope(&self.scope);
                let ghost prev_view = opt_view(self.scope);
                self.saved.push(previous);
                assert(self.saved@.map_values(|o: Option<String>| opt_view(o)) == saved_before.push(prev_view));
                self.scope = Some(scope);
                assert(ts_walker_view(*self) =~= ts_step(ts_walker_view(*old(self)), *e));
            },
            TsEvent::NamespaceEnd => {
                let ghost saved_before = self.saved@.map_values(|o: Option<String>| opt_view(o));
                match self.saved.pop() {
                    Some(prev) => {
                        assert(self.saved@.map_values(|o: Option<String>| opt_view(o)) == saved_before.drop_last());
                        self.scope = prev;
                    },
                    None => {
                        self.scope = None;
                    },
                }
                assert(ts_walker_view(*self) =~= ts_step(ts_walker_view(*old(self)), *e));
            },
        }
    }
}

/// The symbols of a TypeScript or TSX file, from the events met parsing it
/// (see `ts_walk`); such files record no trait implementations.
pub fn extract_ts_from_events(events: &Vec<TsEvent>) -> (r: ExtractedFile)
    ensures
        extracted_view(r.symbols) == ts_walk(events@).symbols,
        r.trait_impls.len() == 0,
{
    let mut w = TsWalker { symbols: Vec::new(), scope: None, saved: Vec::new() };
    assert(events@.take(0).len() == 0);
    assert(ts_walker_view(w) =~= ts_walk(events@.take(0)));
    let mut i: usize = 0;
    while i < events.len()
        invariant
            i <= events.len(),
            ts_walker_view(w) == ts_walk(events@.take(i as int)),
        decreases events.len() - i,
    {
        assert(events@.take(i + 1).drop_last() == events@.take(i as int));
        assert(events@.take(i + 1).last() == events@[i as int]);
        w.meet(&events[i]);
        i = i + 1;
    }
    assert(events@.take(events.len() as int) == events@);
    ExtractedFile { symbols: w.symbols, trait_impls: Vec::new() }
}

/// Whether a file is TypeScript, by its extension: `Some(true)` for TSX
/// (`.tsx`), `Some(false)` for plain TypeScript (`.ts`), `None` otherwise.
pub fn typescript_dialect(path: &str) -> (r: Option<bool>)
    ensures
        r == if ends_with(path@, ".tsx"@) {
            Some(true)
        } else if ends_with(path@, ".ts"@) {
            Some(false)
        } else {
            None::<bool>
        },
{
    let p = crate::text::chars_of(path);
    let tsx = crate::text::chars_of(".tsx");
    let ts = crate::text::chars_of(".ts");
    if crate::text::has_suffix(p.as_slice(), tsx.as_slice()) {
        Some(true)
    } else if crate::text::has_suffix(p.as_slice(), ts.as_slice()) {
        Some(false)
    } else {
        None
    }
}

// ---------------------------------------------------------------- laws

/// Whether events hold no namespace start or end.
pub open spec fn no_namespace_events(es: Seq<TsEvent>) -> bool {
    forall|i: int| 0 <= i < es.len() ==> !(#[trigger] es[i] is NamespaceStart) && !(es[i] is NamespaceEnd)
}

/// Walking events that hold no namespace start or end keeps the scope and
/// the scopes to return to.
proof fn lemma_flat_events_keep_scope(start: Seq<TsEvent>, body: Seq<TsEvent>)
    requires
        no_namespace_events(body),
    ensures
        ts_walk(start + body).scope == ts_walk(start).scope,
        ts_walk(start + body).saved == ts_walk(start).saved,
    decreases body.len(),
{
    if body.len() > 0 {
        let shorter = body.drop_last();
        assert forall|i: int| 0 <= i < shorter.len() implies !(#[trigger] shorter[i] is NamespaceStart) && !(
        shorter[i] is NamespaceEnd) by {
            assert(shorter[i] == body[i]);
        }
        lemma_flat_events_keep_scope(start, shorter);
        assert((start + body).drop_last() == start + shorter);
        assert((start + body).last() == body[body.len() - 1]);
    } else {
        assert(start + body == start);
    }
}

/// A namespace body is walked in its own scope, and the scope of what
/// follows it is that of what precedes it: throughout the body of
/// `namespace name { .. }`, which declares no nested namespace, the scope is
/// that of the namespace, and after it the walk is back in the scope it was
/// in before, with the same scopes to return to.
pub proof fn lemma_namespace_scope_restored(before: Seq<TsEvent>, name: String, body: Seq<TsEvent>)
    requires
        no_namespace_events(body),
    ensures
        ts_walk(before.push(TsEvent::NamespaceStart { name }) + body).scope == Some(
            namespace_scope(ts_walk(before).scope, name@),
        ),
        ts_walk(before.push(TsEvent::NamespaceStart { name }) + body.push(TsEvent::NamespaceEnd)).scope == ts_walk(
            before,
        ).scope,
        ts_walk(before.push(TsEvent::NamespaceStart { name }) + body.push(TsEvent::NamespaceEnd)).saved == ts_walk(
            before,
        ).saved,
{
    let opened = before.push(TsEvent::NamespaceStart { name });
    assert(opened.drop_last() == before);
    lemma_flat_events_keep_scope(opened, body);
    let all = opened + body.push(TsEvent::NamespaceEnd);
    assert(all.drop_last() == opened + body);
    assert(all.last() == TsEvent::NamespaceEnd);
}


/// The symbols of the declarators of a variable declaration are constants
/// under `const` and statics otherwise, all with the declaration's visibility
/// and scope.
proof fn lemma_declarator_symbols_shape(
    ds: Seq<TsDeclarator>,
    kind: TsVarKind,
    visibility: Visibility,
    scope: Option<Seq<char>>,
)
    ensures
        forall|i: int|
            0 <= i < declarator_symbols(ds, kind, visibility, scope).len() ==> {
                let x = #[trigger] declarator_symbols(ds, kind, visibility, scope)[i];
                &&& x.kind == if kind == TsVarKind::Const {
                    SymbolKind::Const
                } else {
                    SymbolKind::Static
                }
                &&& x.visibility == visibility
                &&& x.scope == scope
            },
    decreases ds.len(),
{
    if ds.len() > 0 {
        lemma_declarator_symbols_shape(ds.drop_last(), kind, visibility, scope);
        let head = declarator_symbols(ds.drop_last(), kind, visibility, scope);
        let all = declarator_symbols(ds, kind, visibility, scope);
        assert forall|i: int| 0 <= i < all.len() implies {
            let x = #[trigger] all[i];
            &&& x.kind == if kind == TsVarKind::Const {
                SymbolKind::Const
            } else {
                SymbolKind::Static
            }
            &&& x.visibility == visibility
            &&& x.scope == scope
        } by {
            if i < head.len() {
                assert(all[i] == head[i]);
            }
        }
    }
}

/// The symbols of the members of a class all stand in the scope `class <name>`.
proof fn lemma_member_symbols_scoped(ms: Seq<TsClassMember>, name: Seq<char>)
    ensures
        forall|i: int|
            0 <= i < member_symbols(ms, name).len() ==> (#[trigger] member_symbols(ms, name)[i]).scope == Some(
                "class "@ + name,
            ),
    decreases ms.len(),
{
    if ms.len() > 0 {
        lemma_member_symbols_scoped(ms.drop_last(), name);
        let head = member_symbols(ms.drop_last(), name);
        let all = member_symbols(ms, name);
        assert forall|i: int| 0 <= i < all.len() implies (#[trigger] all[i]).scope == Some("class "@ + name) by {
            if i < head.len() {
                assert(all[i] == head[i]);
            }
        }
    }
}

/// Meeting a declaration appends its symbols to those found so far and keeps
/// the scope and the scopes to return to. Its own symbols have the
/// declaration's visibility (public when exported, else private) and stand in
/// the current scope: the one symbol of a function, interface, type alias or
/// enum; the class itself, first, for a class, whose members follow in the
/// scope `class <name>`; each declarator of a variable declaration, a
/// constant under `const` and a static otherwise.
pub proof fn lemma_decl_appends(st: TsWalkState, d: TsDecl, exported: bool)
    ensures
        ts_step(st, TsEvent::Decl { decl: d, exported }).symbols == st.symbols + decl_symbols(d, exported, st.scope),
        ts_step(st, TsEvent::Decl { decl: d, exported }).scope == st.scope,
        ts_step(st, TsEvent::Decl { decl: d, exported }).saved == st.saved,
        (d is Fn || d is Interface || d is TypeAlias || d is Enum) ==> decl_symbols(d, exported, st.scope).len() == 1
            && decl_symbols(d, exported, st.scope)[0].visibility == export_visibility(exported)
            && decl_symbols(d, exported, st.scope)[0].scope == st.scope,
        d matches TsDecl::Class { name, .. } ==> {
            let syms = decl_symbols(d, exported, st.scope);
            &&& syms.len() >= 1
            &&& syms[0].name == name@ && syms[0].kind == SymbolKind::Class
            &&& syms[0].visibility == export_visibility(exported) && syms[0].scope == st.scope
            &&& forall|i: int| 1 <= i < syms.len() ==> (#[trigger] syms[i]).scope == Some("class "@ + name@)
        },
        d matches TsDecl::Var { kind, .. } ==> forall|i: int|
            0 <= i < decl_symbols(d, exported, st.scope).len() ==> {
                let x = #[trigger] decl_symbols(d, exported, st.scope)[i];
                &&& x.kind == if kind == TsVarKind::Const {
                    SymbolKind::Const
                } else {
                    SymbolKind::Static
                }
                &&& x.visibility == export_visibility(exported)
                &&& x.scope == st.scope
            },
{
    match d {
        TsDecl::Class { name, class, line } => {
            lemma_member_symbols_scoped(class.members@, name@);
            let syms = decl_symbols(d, exported, st.scope);
            let ms = member_symbols(class.members@, name@);
            assert forall|i: int| 1 <= i < syms.len() implies (#[trigger] syms[i]).scope == Some("class "@ + name@) by {
                assert(syms[i] == ms[i - 1]);
            }
        },
        TsDecl::Var { kind, decls } => {
            lemma_declarator_symbols_shape(decls@, kind, export_visibility(exported), st.scope);
        },
        _ => {},
    }
}


/// A class member's symbol: a method gives one function symbol in the scope
/// `class <name>`, public when it carries no access modifier or `public`,
/// crate-local when `protected` and private when `private`; a constructor is a
/// public function named `constructor`.
pub proof fn lemma_member_symbol_visibility(m: TsClassMember, class_name: Seq<char>)
    ensures
        m matches TsClassMember::Method { access, .. } ==> {
            let syms = member_symbol(m, class_name);
            &&& syms.len() == 1
            &&& syms[0].kind == SymbolKind::Function
            &&& syms[0].scope == Some("class "@ + class_name)
            &&& (access is Public || access is Unspecified) ==> syms[0].visibility == Visibility::Public
            &&& access is Protected ==> syms[0].visibility == Visibility::CrateLocal
            &&& access is Private ==> syms[0].visibility == Visibility::Private
        },
        m is Constructor ==> {
            let syms = member_symbol(m, class_name);
            &&& syms.len() == 1
            &&& syms[0].name == "constructor"@
            &&& syms[0].kind == SymbolKind::Function
            &&& syms[0].visibility == Visibility::Public
        },
        m is Other ==> member_symbol(m, class_name).len() == 0,
{
}

} // verus!
