//! Extracting the symbols of a Rust source file. `rust_syntax` reads the file
//! with `syn` and walks its item tree; each item met on the walk arrives here
//! as an `ItemEvent` of plain values, and this module decides which symbols
//! the file defines, with their kinds, visibilities, signatures and scopes,
//! and which traits it implements for which types.
use vstd::prelude::*;

use crate::advisory::{opt_view, strings_view};
use crate::models::{SymbolKind, Visibility};
use crate::queries::join_with;
use crate::text::{concat, owned};

verus! {

// ---------------------------------------------------------------- the model of the syntax

/// The visibility written on an item.
#[derive(Debug, Clone)]
pub enum VisModel {
    /// `pub`
    Public,
    /// `pub(path)`, with the segments of the path.
    Restricted(Vec<String>),
    /// No visibility written.
    Inherited,
}

/// A parameter of a function signature.
#[derive(Debug, Clone)]
pub enum ParamModel {
    /// `self`, `&self` or `&mut self`.
    Receiver { reference: bool, mutable: bool },
    /// `pattern: Type`, each as its tokens print.
    Typed { pat: String, ty: String },
}

/// A function signature.
#[derive(Debug, Clone)]
pub struct FnSigModel {
    pub ident: String,
    pub params: Vec<ParamModel>,
    /// The return type as its tokens print, when one is written.
    pub output: Option<String>,
    pub is_async: bool,
}

/// The fields of a struct.
#[derive(Debug, Clone)]
pub enum FieldsModel {
    /// `{ name: Type, .. }`
    Named(Vec<(Option<String>, String)>),
    /// `(Type, ..)`
    Unnamed(Vec<String>),
    /// No fields.
    Unit,
}

/// The tree of a `use` item.
#[derive(Debug)]
pub enum UseTreeModel {
    /// `segment::tree`
    Path(String, Box<UseTreeModel>),
    /// `name`
    Name(String),
    /// `name as alias`
    Rename(String, String),
    /// `*`
    Glob,
    /// `{tree, ..}`
    Group(Box<UseList>),
}

/// The trees of a `use` group, in order.
#[derive(Debug)]
pub enum UseList {
    Nil,
    Cons(UseTreeModel, Box<UseList>),
}

/// A method of an `impl` block, with the line of its name.
#[derive(Debug, Clone)]
pub struct ImplMethod {
    pub vis: VisModel,
    pub sig: FnSigModel,
    pub line: u32,
}

/// An item met while walking a file, in the order of the walk. An `impl`
/// block arrives as `ImplStart` before the items nested in it and `ImplEnd`
/// after them.
#[derive(Debug)]
pub enum ItemEvent {
    /// A function item; `is_extern` when it declares an ABI (`extern "C" fn`).
    Fn { vis: VisModel, sig: FnSigModel, line: u32, is_extern: bool },
    /// A function declared in an `extern` block.
    ForeignFn { vis: VisModel, sig: FnSigModel, line: u32 },
    Struct { vis: VisModel, ident: String, fields: FieldsModel, line: u32 },
    Enum { vis: VisModel, ident: String, variants: Vec<String>, line: u32 },
    /// A trait, with one entry per item of its body: `Some` with the
    /// signature of a method, `None` for any other item.
    Trait { vis: VisModel, ident: String, methods: Vec<Option<FnSigModel>>, line: u32 },
    TypeAlias { vis: VisModel, ident: String, ty: String, line: u32 },
    Const { vis: VisModel, ident: String, ty: String, line: u32 },
    Static { vis: VisModel, ident: String, ty: String, line: u32 },
    /// A `macro_rules!` item; only a named one defines a symbol.
    Macro { ident: Option<String>, line: u32 },
    /// The start of an `impl` block: the implementing type, the path of the
    /// trait when it implements one, and one entry per item of its body:
    /// `Some` for a method, `None` for any other item.
    ImplStart { self_ty: String, trait_path: Option<Vec<String>>, methods: Vec<Option<ImplMethod>> },
    ImplEnd,
    Use { vis: VisModel, tree: UseTreeModel },
}

// ---------------------------------------------------------------- what is extracted

/// A symbol extracted from source code (not yet placed in a module).
#[derive(Debug, Clone)]
pub struct ExtractedSymbol {
    pub name: String,
    pub kind: SymbolKind,
    pub visibility: Visibility,
    pub signature: Option<String>,
    pub line_number: Option<u32>,
    pub scope: Option<String>,
}

/// The symbols of one source file, and the trait implementations it holds as
/// `(trait, type)` pairs.
#[derive(Debug, Clone)]
pub struct ExtractedFile {
    pub symbols: Vec<ExtractedSymbol>,
    pub trait_impls: Vec<(String, String)>,
}

/// The plain content of an extracted symbol.
pub struct ExtractedSymbolView {
    pub name: Seq<char>,
    pub kind: SymbolKind,
    pub visibility: Visibility,
    pub signature: Option<Seq<char>>,
    pub line_number: Option<u32>,
    pub scope: Option<Seq<char>>,
}

impl View for ExtractedSymbol {
    type V = ExtractedSymbolView;

    open spec fn view(&self) -> ExtractedSymbolView {
        ExtractedSymbolView {
            name: self.name@,
            kind: self.kind,
            visibility: self.visibility,
            signature: opt_view(self.signature),
            line_number: self.line_number,
            scope: opt_view(self.scope),
        }
    }
}

/// The plain content of extracted symbols.
pub open spec fn extracted_view(v: Vec<ExtractedSymbol>) -> Seq<ExtractedSymbolView> {
    v@.map_values(|s: ExtractedSymbol| s@)
}

/// The plain content of `(trait, type)` pairs.
pub open spec fn impls_view(v: Vec<(String, String)>) -> Seq<(Seq<char>, Seq<char>)> {
    v@.map_values(|p: (String, String)| (p.0@, p.1@))
}

// ---------------------------------------------------------------- visibility and signatures

/// The registry's visibility of a written one: `pub` is public, `pub(crate)`
/// crate-local, anything else private.
pub open spec fn visibility_of(v: VisModel) -> Visibility {
    match v {
        VisModel::Public => Visibility::Public,
        VisModel::Restricted(path) => if join_with(strings_view(path), "::"@) == "crate"@ {
            Visibility::CrateLocal
        } else {
            Visibility::Private
        },
        VisModel::Inherited => Visibility::Private,
    }
}

/// The texts joined with `sep` between each two.
pub fn join_strings(parts: &Vec<String>, sep: &str) -> (r: String)
    ensures
        r@ == join_with(strings_view(*parts), sep@),
{
    let ghost pv = strings_view(*parts);
    let mut out = String::new();
    let mut i: usize = 0;
    while i < parts.len()
        invariant
            i <= parts.len(),
            pv == strings_view(*parts),
            pv.len() == parts.len(),
            out@ == join_with(pv.take(i as int), sep@),
        decreases parts.len() - i,
    {
        assert(pv.take(i + 1).drop_last() == pv.take(i as int));
        assert(pv.take(i + 1).last() == parts@[i as int]@);
        if i > 0 {
            out.append(sep);
        }
        out.append(parts[i].as_str());
        proof {
            if i == 0 {
                assert(pv.take(1).len() == 1);
            }
        }
        i = i + 1;
    }
    assert(pv.take(parts.len() as int) == pv);
    out
}

/// The registry's visibility of a written one (see `visibility_of`).
pub fn convert_visibility(v: &VisModel) -> (r: Visibility)
    ensures
        r == visibility_of(*v),
{
    match v {
        VisModel::Public => Visibility::Public,
        VisModel::Restricted(path) => {
            let p = join_strings(path, "::");
            if crate::text::str_eq(p.as_str(), "crate") {
                Visibility::CrateLocal
            } else {
                Visibility::Private
            }
        },
        VisModel::Inherited => Visibility::Private,
    }
}

/// `s` without its spaces: how a type is written in a signature.
pub open spec fn no_spaces(s: Seq<char>) -> Seq<char>
    decreases s.len(),
{
    if s.len() == 0 {
        s
    } else if s.last() == ' ' {
        no_spaces(s.drop_last())
    } else {
        no_spaces(s.drop_last()).push(s.last())
    }
}

/// The text of a type: its tokens as they print, without spaces.
pub fn type_string(ty: &str) -> (r: String)
    ensures
        r@ == no_spaces(ty@),
{
    let cs = crate::text::chars_of(ty);
    let mut out = String::new();
    let mut i: usize = 0;
    while i < cs.len()
        invariant
            i <= cs.len(),
            cs@ == ty@,
            out@ == no_spaces(cs@.take(i as int)),
        decreases cs.len() - i,
    {
        assert(cs@.take(i + 1).drop_last() == cs@.take(i as int));
        assert(cs@.take(i + 1).last() == cs@[i as int]);
        if cs[i] != ' ' {
            crate::text::push_char(&mut out, cs[i]);
        }
        i = i + 1;
    }
    assert(cs@.take(cs.len() as int) == cs@);
    out
}

/// The text of a parameter: `self`, `&self` or `&mut self`, or `pattern: Type`.
pub open spec fn param_text(p: ParamModel) -> Seq<char> {
    match p {
        ParamModel::Receiver { reference, mutable } => if reference {
            if mutable {
                "&mut self"@
            } else {
                "&self"@
            }
        } else {
            "self"@
        },
        ParamModel::Typed { pat, ty } => pat@ + ": "@ + no_spaces(ty@),
    }
}

/// The texts of parameters.
pub open spec fn params_text(ps: Seq<ParamModel>) -> Seq<Seq<char>> {
    ps.map_values(|p: ParamModel| param_text(p))
}

/// The text of a signature: `[async ]fn name(params)[ -> Type]`.
pub open spec fn sig_text(s: FnSigModel) -> Seq<char> {
    (if s.is_async {
        "async "@
    } else {
        Seq::empty()
    }) + "fn "@ + s.ident@ + "("@ + join_with(params_text(s.params@), ", "@) + ")"@ + match s.output {
        Some(t) => " -> "@ + no_spaces(t@),
        None => Seq::empty(),
    }
}

/// The text of a parameter (see `param_text`).
fn param_string(p: &ParamModel) -> (r: String)
    ensures
        r@ == param_text(*p),
{
    match p {
        ParamModel::Receiver { reference, mutable } => {
            if *reference {
                if *mutable {
                    owned("&mut self")
                } else {
                    owned("&self")
                }
            } else {
                owned("self")
            }
        },
        ParamModel::Typed { pat, ty } => {
            let mut s = concat(pat.as_str(), ": ");
            let t = type_string(ty.as_str());
            s.append(t.as_str());
            s
        },
    }
}

/// The text of a function signature (see `sig_text`).
pub fn format_fn_signature(sig: &FnSigModel) -> (r: String)
    ensures
        r@ == sig_text(*sig),
{
    let mut texts: Vec<String> = Vec::new();
    let mut i: usize = 0;
    while i < sig.params.len()
        invariant
            i <= sig.params.len(),
            strings_view(texts) == params_text(sig.params@.take(i as int)),
        decreases sig.params.len() - i,
    {
        let t = param_string(&sig.params[i]);
        let ghost before = strings_view(texts);
        texts.push(t);
        assert(strings_view(texts) == before.push(t@));
        assert(params_text(sig.params@.take(i + 1)) == params_text(sig.params@.take(i as int)).push(param_text(sig.params@[i as int])));
        i = i + 1;
    }
    assert(sig.params@.take(sig.params.len() as int) == sig.params@);
    let mut s = if sig.is_async {
        owned("async ")
    } else {
        String::new()
    };
    s.append("fn ");
    s.append(sig.ident.as_str());
    s.append("(");
    let joined = join_strings(&texts, ", ");
    s.append(joined.as_str());
    s.append(")");
    match &sig.output {
        Some(t) => {
            s.append(" -> ");
            let u = type_string(t.as_str());
            s.append(u.as_str());
        },
        None => {},
    }
    assert(s@ =~= sig_text(*sig));
    s
}

// ---------------------------------------------------------------- use trees

/// `prefix::segment`, or `segment` alone when the prefix is empty.
pub open spec fn under(prefix: Seq<char>, segment: Seq<char>) -> Seq<char> {
    if prefix.len() == 0 {
        segment
    } else {
        prefix + "::"@ + segment
    }
}

/// The `(name, full path)` pairs that a `use` tree brings in under `prefix`;
/// a glob brings in `*`, a rename its alias.
pub open spec fn use_pairs(t: UseTreeModel, prefix: Seq<char>) -> Seq<(Seq<char>, Seq<char>)>
    decreases t,
{
    match t {
        UseTreeModel::Path(seg, sub) => use_pairs(*sub, under(prefix, seg@)),
        UseTreeModel::Name(n) => seq![(n@, under(prefix, n@))],
        UseTreeModel::Rename(orig, alias) => seq![(alias@, under(prefix, orig@))],
        UseTreeModel::Glob => seq![("*"@, under(prefix, "*"@))],
        UseTreeModel::Group(items) => use_list_pairs(*items, prefix),
    }
}

/// The pairs that the trees of a group bring in under `prefix`, in order.
pub open spec fn use_list_pairs(l: UseList, prefix: Seq<char>) -> Seq<(Seq<char>, Seq<char>)>
    decreases l,
{
    match l {
        UseList::Nil => Seq::empty(),
        UseList::Cons(t, rest) => use_pairs(t, prefix) + use_list_pairs(*rest, prefix),
    }
}

/// `prefix::segment`, or `segment` alone when the prefix is empty.
fn under_text(prefix: &str, segment: &str) -> (r: String)
    ensures
        r@ == under(prefix@, segment@),
{
    if prefix.unicode_len() == 0 {
        owned(segment)
    } else {
        let mut s = concat(prefix, "::");
        s.append(segment);
        s
    }
}

/// Appends the pairs `b` to `a`.
fn append_pairs(a: &mut Vec<(String, String)>, b: Vec<(String, String)>)
    ensures
        impls_view(*final(a)) == impls_view(*old(a)) + impls_view(b),
{
    let ghost start = impls_view(*a);
    let mut i: usize = 0;
    while i < b.len()
        invariant
            i <= b.len(),
            impls_view(*a) == start + impls_view(b).take(i as int),
        decreases b.len() - i,
    {
        let ghost before = impls_view(*a);
        let x = b[i].0.clone();
        let y = b[i].1.clone();
        a.push((x, y));
        assert(impls_view(*a) == before.push((x@, y@)));
        assert(impls_view(b).take(i + 1) == impls_view(b).take(i as int).push(impls_view(b)[i as int]));
        i = i + 1;
    }
    assert(impls_view(b).take(b.len() as int) == impls_view(b));
}

/// Flattens a `use` tree into `(name, full path)` pairs (see `use_pairs`).
pub fn flatten_use_tree(tree: &UseTreeModel, prefix: &str) -> (r: Vec<(String, String)>)
    ensures
        impls_view(r) == use_pairs(*tree, prefix@),
    decreases tree,
{
    match tree {
        UseTreeModel::Path(seg, sub) => {
            let p = under_text(prefix, seg.as_str());
            flatten_use_tree(sub, p.as_str())
        },
        UseTreeModel::Name(n) => {
            let mut v: Vec<(String, String)> = Vec::new();
            v.push((n.clone(), under_text(prefix, n.as_str())));
            assert(impls_view(v) =~= use_pairs(*tree, prefix@));
            v
        },
        UseTreeModel::Rename(orig, alias) => {
            let mut v: Vec<(String, String)> = Vec::new();
            v.push((alias.clone(), under_text(prefix, orig.as_str())));
            assert(impls_view(v) =~= use_pairs(*tree, prefix@));
            v
        },
        UseTreeModel::Glob => {
            let mut v: Vec<(String, String)> = Vec::new();
            v.push((owned("*"), under_text(prefix, "*")));
            assert(impls_view(v) =~= use_pairs(*tree, prefix@));
            v
        },
        UseTreeModel::Group(items) => flatten_use_list(items, prefix),
    }
}

/// Flattens the trees of a group (see `use_list_pairs`).
fn flatten_use_list(l: &UseList, prefix: &str) -> (r: Vec<(String, String)>)
    ensures
        impls_view(r) == use_list_pairs(*l, prefix@),
    decreases l,
{
    match l {
        UseList::Nil => {
            let v: Vec<(String, String)> = Vec::new();
            assert(impls_view(v) =~= use_list_pairs(*l, prefix@));
            v
        },
        UseList::Cons(t, rest) => {
            let mut v = flatten_use_tree(t, prefix);
            let w = flatten_use_list(rest, prefix);
            append_pairs(&mut v, w);
            v
        },
    }
}

// ---------------------------------------------------------------- walking the items

/// The text of the fields of a struct: ` { name: Type, .. }`, `(Type, ..)`, or
/// nothing.
pub open spec fn fields_text(f: FieldsModel) -> Seq<char> {
    match f {
        FieldsModel::Named(fs) => " { "@ + join_with(
            fs@.map_values(
                |p: (Option<String>, String)|
                    match p.0 {
                        Some(n) => n@,
                        None => Seq::empty(),
                    } + ": "@ + no_spaces(p.1@),
            ),
            ", "@,
        ) + " }"@,
        FieldsModel::Unnamed(ts) => "("@ + join_with(types_text(strings_view(ts)), ", "@) + ")"@,
        FieldsModel::Unit => Seq::empty(),
    }
}

/// The texts of types.
pub open spec fn types_text(ts: Seq<Seq<char>>) -> Seq<Seq<char>> {
    ts.map_values(|t: Seq<char>| no_spaces(t))
}

/// The values of the `Some` entries, in order.
pub open spec fn somes<T>(s: Seq<Option<T>>) -> Seq<T>
    decreases s.len(),
{
    if s.len() == 0 {
        Seq::empty()
    } else {
        let rest = somes(s.drop_last());
        match s.last() {
            Some(x) => rest.push(x),
            None => rest,
        }
    }
}

/// The texts of signatures.
pub open spec fn sigs_text(ms: Seq<FnSigModel>) -> Seq<Seq<char>> {
    ms.map_values(|m: FnSigModel| sig_text(m))
}

/// An extracted symbol.
pub open spec fn sym(
    name: Seq<char>,
    kind: SymbolKind,
    visibility: Visibility,
    signature: Seq<char>,
    line: Option<u32>,
    scope: Option<Seq<char>>,
) -> ExtractedSymbolView {
    ExtractedSymbolView { name, kind, visibility, signature: Some(signature), line_number: line, scope }
}

/// What a walk has found so far: the symbols and trait implementations, the
/// scope of the `impl` block being walked, and the scopes to return to.
#[verifier::ext_equal]
pub struct WalkState {
    pub symbols: Seq<ExtractedSymbolView>,
    pub impls: Seq<(Seq<char>, Seq<char>)>,
    pub scope: Option<Seq<char>>,
    pub saved: Seq<Option<Seq<char>>>,
}

/// The scope of the methods of an `impl` block: `impl Trait for Type` or
/// `impl Type`.
pub open spec fn impl_scope(self_ty: Seq<char>, trait_path: Option<Vec<String>>) -> Seq<char> {
    match trait_path {
        Some(p) => "impl "@ + join_with(strings_view(p), "::"@) + " for "@ + self_ty,
        None => "impl "@ + self_ty,
    }
}

/// The symbols of the methods of an `impl` block.
pub open spec fn method_symbols(ms: Seq<ImplMethod>, scope: Seq<char>) -> Seq<ExtractedSymbolView> {
    ms.map_values(
        |m: ImplMethod|
            sym(m.sig.ident@, SymbolKind::Function, visibility_of(m.vis), sig_text(m.sig), Some(m.line), Some(scope)),
    )
}

/// The re-export symbols of a `pub use` item.
pub open spec fn use_symbols(
    pairs: Seq<(Seq<char>, Seq<char>)>,
    v: Visibility,
    scope: Option<Seq<char>>,
) -> Seq<ExtractedSymbolView> {
    pairs.map_values(|p: (Seq<char>, Seq<char>)| sym(p.0, SymbolKind::ReExport, v, "pub use "@ + p.1, None, scope))
}

/// What meeting one item does to a walk: each item that defines a symbol adds
/// it in the current scope with its signature; a function with an ABI, and a
/// function of an `extern` block, is an FFI function; a named `macro_rules!`
/// is public;
/// an `impl` block records its trait and type, adds its methods in its own
/// scope and opens that scope until its end; a `pub` or `pub(crate)` `use`
/// adds a re-export per name it brings in.
pub open spec fn step(st: WalkState, e: ItemEvent) -> WalkState {
    match e {
        ItemEvent::Fn { vis, sig, line, is_extern } => WalkState {
            symbols: st.symbols.push(
                sym(
                    sig.ident@,
                    if is_extern {
                        SymbolKind::FfiFunction
                    } else {
                        SymbolKind::Function
                    },
                    visibility_of(vis),
                    sig_text(sig),
                    Some(line),
                    st.scope,
                ),
            ),
            ..st
        },
        ItemEvent::ForeignFn { vis, sig, line } => WalkState {
            symbols: st.symbols.push(
                sym(sig.ident@, SymbolKind::FfiFunction, visibility_of(vis), sig_text(sig), Some(line), st.scope),
            ),
            ..st
        },
        ItemEvent::Struct { vis, ident, fields, line } => WalkState {
            symbols: st.symbols.push(
                sym(ident@, SymbolKind::Struct, visibility_of(vis), "struct "@ + ident@ + fields_text(fields), Some(line), st.scope),
            ),
            ..st
        },
        ItemEvent::Enum { vis, ident, variants, line } => WalkState {
            symbols: st.symbols.push(
                sym(
                    ident@,
                    SymbolKind::Enum,
                    visibility_of(vis),
                    "enum "@ + ident@ + " { "@ + join_with(strings_view(variants), ", "@) + " }"@,
                    Some(line),
                    st.scope,
                ),
            ),
            ..st
        },
        ItemEvent::Trait { vis, ident, methods, line } => WalkState {
            symbols: st.symbols.push(
                sym(
                    ident@,
                    SymbolKind::Trait,
                    visibility_of(vis),
                    "trait "@ + ident@ + " { "@ + join_with(sigs_text(somes(methods@)), "; "@) + " }"@,
                    Some(line),
                    st.scope,
                ),
            ),
            ..st
        },
        ItemEvent::TypeAlias { vis, ident, ty, line } => WalkState {
            symbols: st.symbols.push(
                sym(ident@, SymbolKind::TypeAlias, visibility_of(vis), "type "@ + ident@ + " = "@ + no_spaces(ty@), Some(line), st.scope),
            ),
            ..st
        },
        ItemEvent::Const { vis, ident, ty, line } => WalkState {
            symbols: st.symbols.push(
                sym(ident@, SymbolKind::Const, visibility_of(vis), "const "@ + ident@ + ": "@ + no_spaces(ty@), Some(line), st.scope),
            ),
            ..st
        },
        ItemEvent::Static { vis, ident, ty, line } => WalkState {
            symbols: st.symbols.push(
                sym(ident@, SymbolKind::Static, visibility_of(vis), "static "@ + ident@ + ": "@ + no_spaces(ty@), Some(line), st.scope),
            ),
            ..st
        },
        ItemEvent::Macro { ident, line } => match ident {
            Some(i) => WalkState {
                symbols: st.symbols.push(
                    sym(i@, SymbolKind::Macro, Visibility::Public, "macro_rules! "@ + i@, Some(line), st.scope),
                ),
                ..st
            },
            None => st,
        },
        ItemEvent::ImplStart { self_ty, trait_path, methods } => {
            let scope = impl_scope(no_spaces(self_ty@), trait_path);
            WalkState {
                symbols: st.symbols + method_symbols(somes(methods@), scope),
                impls: match trait_path {
                    Some(p) => st.impls.push((join_with(strings_view(p), "::"@), no_spaces(self_ty@))),
                    None => st.impls,
                },
                scope: Some(scope),
                saved: st.saved.push(st.scope),
            }
        },
        ItemEvent::ImplEnd => if st.saved.len() > 0 {
            WalkState { scope: st.saved.last(), saved: st.saved.drop_last(), ..st }
        } else {
            WalkState { scope: None, ..st }
        },
        ItemEvent::Use { vis, tree } => {
            let v = visibility_of(vis);
            if v == Visibility::Public || v == Visibility::CrateLocal {
                WalkState { symbols: st.symbols + use_symbols(use_pairs(tree, Seq::empty()), v, st.scope), ..st }
            } else {
                st
            }
        },
    }
}

/// The state after walking the items in order.
pub open spec fn walk(events: Seq<ItemEvent>) -> WalkState
    decreases events.len(),
{
    if events.len() == 0 {
        WalkState { symbols: Seq::empty(), impls: Seq::empty(), scope: None, saved: Seq::empty() }
    } else {
        step(walk(events.drop_last()), events.last())
    }
}

/// A walk in progress.
struct Walker {
    symbols: Vec<ExtractedSymbol>,
    trait_impls: Vec<(String, String)>,
    scope: Option<String>,
    saved: Vec<Option<String>>,
}

/// The plain content of a walk in progress.
spec fn walker_view(w: Walker) -> WalkState {
    WalkState {
        symbols: extracted_view(w.symbols),
        impls: impls_view(w.trait_impls),
        scope: opt_view(w.scope),
        saved: w.saved@.map_values(|o: Option<String>| opt_view(o)),
    }
}

/// A copy of an optional string.
fn copy_opt(o: &Option<String>) -> (r: Option<String>)
    ensures
        opt_view(r) == opt_view(*o),
{
    match o {
        Some(s) => Some(s.clone()),
        None => None,
    }
}

/// The text of the fields of a struct (see `fields_text`).
fn fields_string(f: &FieldsModel) -> (r: String)
    ensures
        r@ == fields_text(*f),
{
    match f {
        FieldsModel::Named(fs) => {
            let ghost parts = fs@.map_values(
                |p: (Option<String>, String)|
                    match p.0 {
                        Some(n) => n@,
                        None => Seq::<char>::empty(),
                    } + ": "@ + no_spaces(p.1@),
            );
            let mut texts: Vec<String> = Vec::new();
            let mut i: usize = 0;
            while i < fs.len()
                invariant
                    i <= fs.len(),
                    parts == fs@.map_values(
                        |p: (Option<String>, String)|
                            match p.0 {
                                Some(n) => n@,
                                None => Seq::<char>::empty(),
                            } + ": "@ + no_spaces(p.1@),
                    ),
                    strings_view(texts) == parts.take(i as int),
                decreases fs.len() - i,
            {
                let mut t = match &fs[i].0 {
                    Some(n) => n.clone(),
                    None => String::new(),
                };
                t.append(": ");
                let u = type_string(fs[i].1.as_str());
                t.append(u.as_str());
                let ghost before = strings_view(texts);
                texts.push(t);
                assert(strings_view(texts) == before.push(t@));
                assert(parts.take(i + 1) == parts.take(i as int).push(parts[i as int]));
                i = i + 1;
            }
            assert(parts.take(fs.len() as int) == parts);
            let mut s = owned(" { ");
            let j = join_strings(&texts, ", ");
            s.append(j.as_str());
            s.append(" }");
            s
        },
        FieldsModel::Unnamed(ts) => {
            let mut texts: Vec<String> = Vec::new();
            let mut i: usize = 0;
            while i < ts.len()
                invariant
                    i <= ts.len(),
                    strings_view(texts) == types_text(strings_view(*ts)).take(i as int),
                decreases ts.len() - i,
            {
                let u = type_string(ts[i].as_str());
                let ghost before = strings_view(texts);
                texts.push(u);
                assert(strings_view(texts) == before.push(u@));
                assert(types_text(strings_view(*ts)).take(i + 1) == types_text(strings_view(*ts)).take(i as int).push(
                    no_spaces(ts@[i as int]@),
                ));
                i = i + 1;
            }
            assert(types_text(strings_view(*ts)).take(ts.len() as int) == types_text(strings_view(*ts)));
            let mut s = owned("(");
            let j = join_strings(&texts, ", ");
            s.append(j.as_str());
            s.append(")");
            s
        },
        FieldsModel::Unit => String::new(),
    }
}

/// `head` followed by `tail`.
fn text2(head: &str, tail: &str) -> (r: String)
    ensures
        r@ == head@ + tail@,
{
    concat(head, tail)
}

/// `a` `b` `c` `d` in a row.
fn text4(a: &str, b: &str, c: &str, d: &str) -> (r: String)
    ensures
        r@ == a@ + b@ + c@ + d@,
{
    let mut s = concat(a, b);
    s.append(c);
    s.append(d);
    s
}

impl Walker {
    /// Adds a symbol in the current scope.
    fn add(&mut self, name: String, kind: SymbolKind, visibility: Visibility, signature: String, line: Option<u32>)
        ensures
            walker_view(*final(self)) == (WalkState {
                symbols: walker_view(*old(self)).symbols.push(
                    sym(name@, kind, visibility, signature@, line, walker_view(*old(self)).scope),
                ),
                ..walker_view(*old(self))
            }),
    {
        let scope = copy_opt(&self.scope);
        let s = ExtractedSymbol { name, kind, visibility, signature: Some(signature), line_number: line, scope };
        let ghost before = extracted_view(self.symbols);
        self.symbols.push(s);
        assert(extracted_view(self.symbols) == before.push(s@));
    }

    /// Meets one item of the walk (see `step`).
    fn meet(&mut self, e: &ItemEvent)
        ensures
            walker_view(*final(self)) == step(walker_view(*old(self)), *e),
    {
        match e {
            ItemEvent::Fn { vis, sig, line, is_extern } => {
                let v = convert_visibility(vis);
                let t = format_fn_signature(sig);
                let kind = if *is_extern {
                    SymbolKind::FfiFunction
                } else {
                    SymbolKind::Function
                };
                self.add(sig.ident.clone(), kind, v, t, Some(*line));
                assert(walker_view(*self) =~= step(walker_view(*old(self)), *e));
            },
            ItemEvent::ForeignFn { vis, sig, line } => {
                let v = convert_visibility(vis);
                let t = format_fn_signature(sig);
                self.add(sig.ident.clone(), SymbolKind::FfiFunction, v, t, Some(*line));
                assert(walker_view(*self) =~= step(walker_view(*old(self)), *e));
            },
            ItemEvent::Struct { vis, ident, fields, line } => {
                let v = convert_visibility(vis);
                let f = fields_string(fields);
                let mut t = text2("struct ", ident.as_str());
                t.append(f.as_str());
                self.add(ident.clone(), SymbolKind::Struct, v, t, Some(*line));
                assert(walker_view(*self) =~= step(walker_view(*old(self)), *e));
            },
            ItemEvent::Enum { vis, ident, variants, line } => {
                let v = convert_visibility(vis);
                let j = join_strings(variants, ", ");
                let mut t = text4("enum ", ident.as_str(), " { ", j.as_str());
                t.append(" }");
                self.add(ident.clone(), SymbolKind::Enum, v, t, Some(*line));
                assert(walker_view(*self) =~= step(walker_view(*old(self)), *e));
            },
            ItemEvent::Trait { vis, ident, methods, line } => {
                let v = convert_visibility(vis);
                let mut texts: Vec<String> = Vec::new();
                let mut i: usize = 0;
                while i < methods.len()
                    invariant
                        i <= methods.len(),
                        strings_view(texts) == sigs_text(somes(methods@.take(i as int))),
                    decreases methods.len() - i,
                {
                    assert(methods@.take(i + 1).drop_last() == methods@.take(i as int));
                    assert(methods@.take(i + 1).last() == methods@[i as int]);
                    if let Some(m) = &methods[i] {
                        let t = format_fn_signature(m);
                        let ghost before = strings_view(texts);
                        texts.push(t);
                        assert(strings_view(texts) == before.push(t@));
                        assert(sigs_text(somes(methods@.take(i + 1))) =~= sigs_text(somes(methods@.take(i as int))).push(
                            sig_text(*m),
                        ));
                    }
                    i = i + 1;
                }
                assert(methods@.take(methods.len() as int) == methods@);
                let j = join_strings(&texts, "; ");
                let mut t = text4("trait ", ident.as_str(), " { ", j.as_str());
                t.append(" }");
                self.add(ident.clone(), SymbolKind::Trait, v, t, Some(*line));
                assert(walker_view(*self) =~= step(walker_view(*old(self)), *e));
            },
            ItemEvent::TypeAlias { vis, ident, ty, line } => {
                let v = convert_visibility(vis);
                let u = type_string(ty.as_str());
                let t = text4("type ", ident.as_str(), " = ", u.as_str());
                self.add(ident.clone(), SymbolKind::TypeAlias, v, t, Some(*line));
            },
            ItemEvent::Const { vis, ident, ty, line } => {
                let v = convert_visibility(vis);
                let u = type_string(ty.as_str());
                let t = text4("const ", ident.as_str(), ": ", u.as_str());
                self.add(ident.clone(), SymbolKind::Const, v, t, Some(*line));
            },
            ItemEvent::Static { vis, ident, ty, line } => {
                let v = convert_visibility(vis);
                let u = type_string(ty.as_str());
                let t = text4("static ", ident.as_str(), ": ", u.as_str());
                self.add(ident.clone(), SymbolKind::Static, v, t, Some(*line));
            },
            ItemEvent::Macro { ident, line } => {
                if let Some(i) = ident {
                    let t = text2("macro_rules! ", i.as_str());
                    self.add(i.clone(), SymbolKind::Macro, Visibility::Public, t, Some(*line));
                }
            },
            ItemEvent::ImplStart { self_ty, trait_path, methods } => {
                let ty = type_string(self_ty.as_str());
                let scope = match trait_path {
                    Some(p) => {
                        let trait_name = join_strings(p, "::");
                        let t = text4("impl ", trait_name.as_str(), " for ", ty.as_str());
                        let ghost before = impls_view(self.trait_impls);
                        let pair = (trait_name, ty);
                        self.trait_impls.push(pair);
                        assert(impls_view(self.trait_impls) == before.push((pair.0@, pair.1@)));
                        t
                    },
                    None => text2("impl ", ty.as_str()),
                };
                let ghost st = walker_view(*old(self));
                let ghost saved_before = self.saved@.map_values(|o: Option<String>| opt_view(o));
                let previous = copy_opt(&self.scope);
                self.saved.push(previous);
                assert(self.saved@.map_values(|o: Option<String>| opt_view(o)) == saved_before.push(st.scope));
                let ghost base = extracted_view(self.symbols);
                let ghost impls0 = impls_view(self.trait_impls);
                let ghost saved0 = self.saved@.map_values(|o: Option<String>| opt_view(o));
                let mut i: usize = 0;
                while i < methods.len()
                    invariant
                        i <= methods.len(),
                        extracted_view(self.symbols) == base + method_symbols(somes(methods@.take(i as int)), scope@),
                        impls_view(self.trait_impls) == impls0,
                        self.saved@.map_values(|o: Option<String>| opt_view(o)) == saved0,
                    decreases methods.len() - i,
                {
                    assert(methods@.take(i + 1).drop_last() == methods@.take(i as int));
                    assert(methods@.take(i + 1).last() == methods@[i as int]);
                    if let Some(m) = &methods[i] {
                        let v = convert_visibility(&m.vis);
                        let t = format_fn_signature(&m.sig);
                        let s = ExtractedSymbol {
                            name: m.sig.ident.clone(),
                            kind: SymbolKind::Function,
                            visibility: v,
                            signature: Some(t),
                            line_number: Some(m.line),
                            scope: Some(scope.clone()),
                        };
                        let ghost before = extracted_view(self.symbols);
                        self.symbols.push(s);
                        assert(extracted_view(self.symbols) == before.push(s@));
                        assert(method_symbols(somes(methods@.take(i + 1)), scope@) =~= method_symbols(
                            somes(methods@.take(i as int)),
                            scope@,
                        ).push(s@));
                    }
                    i = i + 1;
                }
                assert(methods@.take(methods.len() as int) == methods@);
                self.scope = Some(scope);
                assert(walker_view(*self) =~= step(walker_view(*old(self)), *e));
            },
            ItemEvent::ImplEnd => {
                let ghost saved_before = self.saved@.map_values(|o: Option<String>| opt_view(o));
                match self.saved.pop() {
                    Some(prev) => {
                        assert(self.saved@.map_values(|o: Option<String>| opt_view(o)) == saved_before.drop_last());
                        self.scope = prev;
                    },
                    None => {
                        self.scope = None;
                    },
                }
            },
            ItemEvent::Use { vis, tree } => {
                let v = convert_visibility(vis);
                if v == Visibility::Public || v == Visibility::CrateLocal {
                    let empty = "";
                    proof {
                        reveal_strlit("");
                    }
                    assert(empty@ =~= Seq::<char>::empty());
                    let pairs = flatten_use_tree(tree, empty);
                    let ghost pv = impls_view(pairs);
                    let ghost base = extracted_view(self.symbols);
                    let ghost sc = opt_view(self.scope);
                    let ghost impls0 = impls_view(self.trait_impls);
                    let ghost saved0 = self.saved@.map_values(|o: Option<String>| opt_view(o));
                    let mut i: usize = 0;
                    while i < pairs.len()
                        invariant
                            i <= pairs.len(),
                            pv == impls_view(pairs),
                            sc == opt_view(self.scope),
                            impls_view(self.trait_impls) == impls0,
                            self.saved@.map_values(|o: Option<String>| opt_view(o)) == saved0,
                            extracted_view(self.symbols) == base + use_symbols(pv.take(i as int), v, sc),
                        decreases pairs.len() - i,
                    {
                        let t = text2("pub use ", pairs[i].1.as_str());
                        let s = ExtractedSymbol {
                            name: pairs[i].0.clone(),
                            kind: SymbolKind::ReExport,
                            visibility: v,
                            signature: Some(t),
                            line_number: None,
                            scope: copy_opt(&self.scope),
                        };
                        let ghost before = extracted_view(self.symbols);
                        self.symbols.push(s);
                        assert(extracted_view(self.symbols) == before.push(s@));
                        assert(use_symbols(pv.take(i + 1), v, sc) == use_symbols(pv.take(i as int), v, sc).push(s@));
                        i = i + 1;
                    }
                    assert(pv.take(pairs.len() as int) == pv);
                    assert(walker_view(*self) =~= step(walker_view(*old(self)), *e));
                }
            },
        }
    }
}

/// The symbols and trait implementations of a file, from the items met
/// walking it (see `walk`).
pub fn extract_from_events(events: &Vec<ItemEvent>) -> (r: ExtractedFile)
    ensures
        extracted_view(r.symbols) == walk(events@).symbols,
        impls_view(r.trait_impls) == walk(events@).impls,
{
    let mut w = Walker { symbols: Vec::new(), trait_impls: Vec::new(), scope: None, saved: Vec::new() };
    assert(events@.take(0).len() == 0);
    assert(walker_view(w) =~= walk(events@.take(0)));
    let mut i: usize = 0;
    while i < events.len()
        invariant
            i <= events.len(),
            walker_view(w) == walk(events@.take(i as int)),
        decreases events.len() - i,
    {
        assert(events@.take(i + 1).drop_last() == events@.take(i as int));
        assert(events@.take(i + 1).last() == events@[i as int]);
        w.meet(&events[i]);
        i = i + 1;
    }
    assert(events@.take(events.len() as int) == events@);
    ExtractedFile { symbols: w.symbols, trait_impls: w.trait_impls }
}

// ---------------------------------------------------------------- laws

/// Whether items hold no start or end of an `impl` block.
pub open spec fn no_impl_events(es: Seq<ItemEvent>) -> bool {
    forall|i: int| 0 <= i < es.len() ==> !(#[trigger] es[i] is ImplStart) && !(es[i] is ImplEnd)
}

/// Walking items that hold no start or end of an `impl` block keeps the
/// scope and the scopes to return to.
proof fn lemma_flat_items_keep_scope(start: Seq<ItemEvent>, body: Seq<ItemEvent>)
    requires
        no_impl_events(body),
    ensures
        walk(start + body).scope == walk(start).scope,
        walk(start + body).saved == walk(start).saved,
    decreases body.len(),
{
    if body.len() > 0 {
        let shorter = body.drop_last();
        assert forall|i: int| 0 <= i < shorter.len() implies !(#[trigger] shorter[i] is ImplStart) && !(
        shorter[i] is ImplEnd) by {
            assert(shorter[i] == body[i]);
        }
        lemma_flat_items_keep_scope(start, shorter);
        assert((start + body).drop_last() == start + shorter);
        assert((start + body).last() == body[body.len() - 1]);
    } else {
        assert(start + body == start);
    }
}

/// The items nested in an `impl` block are walked in the block's scope, and
/// the scope of what follows the block is that of what precedes it: after an
/// `impl` block whose nested items hold no other `impl` block, the walk is
/// back in the scope it was in before, with the same scopes to return to.
pub proof fn lemma_impl_scope_restored(
    before: Seq<ItemEvent>,
    self_ty: String,
    trait_path: Option<Vec<String>>,
    methods: Vec<Option<ImplMethod>>,
    nested: Seq<ItemEvent>,
)
    requires
        no_impl_events(nested),
    ensures
        walk(before.push(ItemEvent::ImplStart { self_ty, trait_path, methods }) + nested).scope == Some(
            impl_scope(no_spaces(self_ty@), trait_path),
        ),
        walk(before.push(ItemEvent::ImplStart { self_ty, trait_path, methods }) + nested.push(ItemEvent::ImplEnd)).scope
            == walk(before).scope,
        walk(before.push(ItemEvent::ImplStart { self_ty, trait_path, methods }) + nested.push(ItemEvent::ImplEnd)).saved
            == walk(before).saved,
{
    let opened = before.push(ItemEvent::ImplStart { self_ty, trait_path, methods });
    assert(opened.drop_last() == before);
    lemma_flat_items_keep_scope(opened, nested);
    let all = opened + nested.push(ItemEvent::ImplEnd);
    assert(all.drop_last() == opened + nested);
    assert(all.last() == ItemEvent::ImplEnd);
}


/// What walking one more item adds: exactly one symbol, last, with the given
/// name, kind and line, in the scope the walk was in, everything found before
/// kept, and the scope and trait implementations unchanged; a `pub` item is
/// public and an item without visibility private.
pub open spec fn one_symbol_added(
    es: Seq<ItemEvent>,
    e: ItemEvent,
    vis: VisModel,
    name: Seq<char>,
    kind: SymbolKind,
    line: u32,
) -> bool {
    let before = walk(es);
    let after = walk(es.push(e));
    &&& after.symbols.len() == before.symbols.len() + 1
    &&& after.symbols.drop_last() == before.symbols
    &&& after.symbols.last().name == name
    &&& after.symbols.last().kind == kind
    &&& after.symbols.last().line_number == Some(line)
    &&& after.symbols.last().scope == before.scope
    &&& vis is Public ==> after.symbols.last().visibility == Visibility::Public
    &&& vis is Inherited ==> after.symbols.last().visibility == Visibility::Private
    &&& after.scope == before.scope
    &&& after.impls == before.impls
}

/// The kind of symbol each item defines, after any items: a function is a
/// function (an FFI function when it declares an ABI, or stands in an
/// `extern` block), a struct a struct, an enum an enum, a trait a trait, a
/// type alias a type alias, a constant a constant, a static a static, and a
/// named `macro_rules!` a public macro.
pub proof fn lemma_walk_item_kinds(es: Seq<ItemEvent>, e: ItemEvent)
    ensures
        match e {
            ItemEvent::Fn { vis, sig, line, is_extern } => one_symbol_added(
                es,
                e,
                vis,
                sig.ident@,
                if is_extern {
                    SymbolKind::FfiFunction
                } else {
                    SymbolKind::Function
                },
                line,
            ),
            ItemEvent::ForeignFn { vis, sig, line } => one_symbol_added(es, e, vis, sig.ident@, SymbolKind::FfiFunction, line),
            ItemEvent::Struct { vis, ident, line, .. } => one_symbol_added(es, e, vis, ident@, SymbolKind::Struct, line),
            ItemEvent::Enum { vis, ident, line, .. } => one_symbol_added(es, e, vis, ident@, SymbolKind::Enum, line),
            ItemEvent::Trait { vis, ident, line, .. } => one_symbol_added(es, e, vis, ident@, SymbolKind::Trait, line),
            ItemEvent::TypeAlias { vis, ident, line, .. } => one_symbol_added(es, e, vis, ident@, SymbolKind::TypeAlias, line),
            ItemEvent::Const { vis, ident, line, .. } => one_symbol_added(es, e, vis, ident@, SymbolKind::Const, line),
            ItemEvent::Static { vis, ident, line, .. } => one_symbol_added(es, e, vis, ident@, SymbolKind::Static, line),
            ItemEvent::Macro { ident: Some(i), line } => one_symbol_added(es, e, VisModel::Public, i@, SymbolKind::Macro, line)
                && walk(es.push(e)).symbols.last().visibility == Visibility::Public,
            _ => true,
        },
{
    assert(es.push(e).drop_last() == es);
    assert(es.push(e).last() == e);
    let before = walk(es);
    let after = walk(es.push(e));
    if !(e is ImplStart || e is ImplEnd || e is Use || e matches ItemEvent::Macro { ident: None, .. }) {
        assert(after.symbols.drop_last() =~= before.symbols);
    }
}

} // verus!
