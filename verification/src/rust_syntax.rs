//! Reading Rust source with `syn` into the library's own item tree, and the
//! order in which that tree is walked for symbols. The tree keeps the items
//! nested in other items; which of them are walked is decided here: the items
//! of an inline module and of an `extern` block are, those declared in a
//! function body are not (signatures only, never bodies).
use vstd::prelude::*;

use quote::ToTokens;
use syn::Visibility as SynVisibility;

use crate::extract::{
    extract_from_events, extracted_view, impls_view, walk, ExtractedFile, FieldsModel, FnSigModel, ImplMethod,
    ItemEvent, ParamModel, UseList, UseTreeModel, VisModel,
};

verus! {

// ---------------------------------------------------------------- the item tree

/// An item of a Rust source file, with the items nested in it.
#[derive(Debug)]
pub enum RustItem {
    /// A function item; `is_extern` when it declares an ABI. `body` holds one
    /// entry per statement of its body: the item it declares, or `Other`.
    Fn { vis: VisModel, sig: FnSigModel, line: u32, is_extern: bool, body: Vec<RustItem> },
    /// An `extern` block, with its items.
    ForeignMod { items: Vec<RustItem> },
    /// A function declared in an `extern` block.
    ForeignFn { vis: VisModel, sig: FnSigModel, line: u32 },
    Struct { vis: VisModel, ident: String, fields: FieldsModel, line: u32 },
    Enum { vis: VisModel, ident: String, variants: Vec<String>, line: u32 },
    /// A trait, with one entry per item of its body (`Some` for a method).
    Trait { vis: VisModel, ident: String, methods: Vec<Option<FnSigModel>>, line: u32 },
    TypeAlias { vis: VisModel, ident: String, ty: String, line: u32 },
    Const { vis: VisModel, ident: String, ty: String, line: u32 },
    Static { vis: VisModel, ident: String, ty: String, line: u32 },
    /// A macro item; `ident` is the name of a `macro_rules!` definition.
    Macro { ident: Option<String>, line: u32 },
    /// An `impl` block, with one entry per item of its body (`Some` for a method).
    Impl { self_ty: String, trait_path: Option<Vec<String>>, methods: Vec<Option<ImplMethod>> },
    Use { vis: VisModel, tree: UseTreeModel },
    /// A module: `Some` with its items when they are written inline, `None`
    /// for `mod name;`.
    Mod { items: Option<Vec<RustItem>> },
    /// Any other item, and a statement that declares no item.
    Other,
}

/// The items that `syn` reads in `source`, converted field by field into the
/// library's tree; `None` when `syn` cannot parse it.
pub uninterp spec fn rust_items(source: Seq<char>) -> Option<Seq<RustItem>>;

// ---------------------------------------------------------------- which items are walked

/// The items met walking `items` in order.
pub open spec fn item_events(items: Seq<RustItem>) -> Seq<ItemEvent>
    decreases items,
{
    if items.len() == 0 {
        Seq::empty()
    } else {
        one_item_events(items[0]) + item_events(items.subrange(1, items.len() as int))
    }
}

/// The items met walking one item: the item itself, then, for an `impl`
/// block, its end; an inline module and an `extern` block are walked through;
/// the items declared in a function body are not walked.
pub open spec fn one_item_events(item: RustItem) -> Seq<ItemEvent>
    decreases item,
{
    match item {
        RustItem::Fn { vis, sig, line, is_extern, body: _ } => seq![ItemEvent::Fn { vis, sig, line, is_extern }],
        RustItem::ForeignMod { items } => item_events(items@),
        RustItem::ForeignFn { vis, sig, line } => seq![ItemEvent::ForeignFn { vis, sig, line }],
        RustItem::Struct { vis, ident, fields, line } => seq![ItemEvent::Struct { vis, ident, fields, line }],
        RustItem::Enum { vis, ident, variants, line } => seq![ItemEvent::Enum { vis, ident, variants, line }],
        RustItem::Trait { vis, ident, methods, line } => seq![ItemEvent::Trait { vis, ident, methods, line }],
        RustItem::TypeAlias { vis, ident, ty, line } => seq![ItemEvent::TypeAlias { vis, ident, ty, line }],
        RustItem::Const { vis, ident, ty, line } => seq![ItemEvent::Const { vis, ident, ty, line }],
        RustItem::Static { vis, ident, ty, line } => seq![ItemEvent::Static { vis, ident, ty, line }],
        RustItem::Macro { ident, line } => seq![ItemEvent::Macro { ident, line }],
        RustItem::Impl { self_ty, trait_path, methods } => seq![
            ItemEvent::ImplStart { self_ty, trait_path, methods },
            ItemEvent::ImplEnd,
        ],
        RustItem::Use { vis, tree } => seq![ItemEvent::Use { vis, tree }],
        RustItem::Mod { items } => match items {
            Some(v) => item_events(v@),
            None => Seq::empty(),
        },
        RustItem::Other => Seq::empty(),
    }
}

/// Signatures only, never bodies: what walking a function item meets does
/// not depend on the items declared in its body.
pub proof fn lemma_fn_body_not_walked(
    vis: VisModel,
    sig: FnSigModel,
    line: u32,
    is_extern: bool,
    body: Vec<RustItem>,
    other_body: Vec<RustItem>,
)
    ensures
        one_item_events(RustItem::Fn { vis, sig, line, is_extern, body }) == one_item_events(
            RustItem::Fn { vis, sig, line, is_extern, body: other_body },
        ),
        one_item_events(RustItem::Fn { vis, sig, line, is_extern, body }) == seq![
            ItemEvent::Fn { vis, sig, line, is_extern },
        ],
{
}

/// Appends the items met walking `item`.
fn push_item_events(item: RustItem, out: &mut Vec<ItemEvent>)
    ensures
        final(out)@ == old(out)@ + one_item_events(item),
    decreases item,
{
    let ghost it = item;
    let ghost before = out@;
    match item {
        RustItem::Fn { vis, sig, line, is_extern, body: _ } => out.push(ItemEvent::Fn { vis, sig, line, is_extern }),
        RustItem::ForeignMod { items } => {
            proof {
                assert(decreases_to!(it => items@));
            }
            push_items_events(items, out);
            return;
        },
        RustItem::ForeignFn { vis, sig, line } => out.push(ItemEvent::ForeignFn { vis, sig, line }),
        RustItem::Struct { vis, ident, fields, line } => out.push(ItemEvent::Struct { vis, ident, fields, line }),
        RustItem::Enum { vis, ident, variants, line } => out.push(ItemEvent::Enum { vis, ident, variants, line }),
        RustItem::Trait { vis, ident, methods, line } => out.push(ItemEvent::Trait { vis, ident, methods, line }),
        RustItem::TypeAlias { vis, ident, ty, line } => out.push(ItemEvent::TypeAlias { vis, ident, ty, line }),
        RustItem::Const { vis, ident, ty, line } => out.push(ItemEvent::Const { vis, ident, ty, line }),
        RustItem::Static { vis, ident, ty, line } => out.push(ItemEvent::Static { vis, ident, ty, line }),
        RustItem::Macro { ident, line } => out.push(ItemEvent::Macro { ident, line }),
        RustItem::Impl { self_ty, trait_path, methods } => {
            out.push(ItemEvent::ImplStart { self_ty, trait_path, methods });
            out.push(ItemEvent::ImplEnd);
            assert(out@ =~= before + one_item_events(it));
            return;
        },
        RustItem::Use { vis, tree } => out.push(ItemEvent::Use { vis, tree }),
        RustItem::Mod { items } => {
            match items {
                Some(v) => {
                    proof {
                        assert(decreases_to!(it => v@));
                    }
                    push_items_events(v, out);
                },
                None => {
                    assert(out@ =~= before + one_item_events(it));
                },
            }
            return;
        },
        RustItem::Other => {
            assert(out@ =~= before + one_item_events(it));
            return;
        },
    }
    assert(out@ =~= before + one_item_events(it));
}

/// Appends the items met walking `items` in order.
fn push_items_events(items: Vec<RustItem>, out: &mut Vec<ItemEvent>)
    ensures
        final(out)@ == old(out)@ + item_events(items@),
    decreases items@,
{
    let ghost all = items@;
    let ghost before = out@;
    let mut rest = items;
    if rest.len() == 0 {
        assert(before + item_events(all) =~= before);
        return;
    }
    let first = rest.remove(0);
    assert(rest@ =~= all.subrange(1, all.len() as int));
    proof {
        assert(decreases_to!(all => all[0]));
        assert(decreases_to!(all => all.subrange(1, all.len() as int)));
    }
    push_item_events(first, out);
    push_items_events(rest, out);
    assert(item_events(all) == one_item_events(all[0]) + item_events(all.subrange(1, all.len() as int)));
    assert(out@ =~= before + item_events(all));
}

/// The symbols and trait implementations of the items of a file: the items
/// met walking them (`item_events`), taken in order by `walk`.
pub fn extract_from_items(items: Vec<RustItem>) -> (r: ExtractedFile)
    ensures
        extracted_view(r.symbols) == walk(item_events(items@)).symbols,
        impls_view(r.trait_impls) == walk(item_events(items@)).impls,
{
    let mut events: Vec<ItemEvent> = Vec::new();
    push_items_events(items, &mut events);
    assert(events@ =~= item_events(items@));
    extract_from_events(&events)
}

/// Parses Rust source and extracts its symbols: `Err` with `syn`'s message
/// when it cannot be parsed, else what `extract_from_items` gives for the
/// items read.
pub fn extract_rust_source(source: &str) -> (r: Result<ExtractedFile, String>)
    ensures
        r is Ok <==> rust_items(source@) is Some,
        r matches Ok(f) ==> extracted_view(f.symbols) == walk(item_events(rust_items(source@)->0)).symbols
            && impls_view(f.trait_impls) == walk(item_events(rust_items(source@)->0)).impls,
{
    let items = parse_rust_items(source)?;
    Ok(extract_from_items(items))
}

// ---------------------------------------------------------------- syn

#[verifier::external_type_specification]
#[verifier::external_body]
pub struct ExSynItem(syn::Item);

#[verifier::external_type_specification]
#[verifier::external_body]
pub struct ExSynItemFn(syn::ItemFn);

#[verifier::external_type_specification]
#[verifier::external_body]
pub struct ExSynItemForeignMod(syn::ItemForeignMod);

#[verifier::external_type_specification]
#[verifier::external_body]
pub struct ExSynForeignItem(syn::ForeignItem);

#[verifier::external_type_specification]
#[verifier::external_body]
pub struct ExSynItemStruct(syn::ItemStruct);

#[verifier::external_type_specification]
#[verifier::external_body]
pub struct ExSynItemEnum(syn::ItemEnum);

#[verifier::external_type_specification]
#[verifier::external_body]
pub struct ExSynItemTrait(syn::ItemTrait);

#[verifier::external_type_specification]
#[verifier::external_body]
pub struct ExSynItemType(syn::ItemType);

#[verifier::external_type_specification]
#[verifier::external_body]
pub struct ExSynItemConst(syn::ItemConst);

#[verifier::external_type_specification]
#[verifier::external_body]
pub struct ExSynItemStatic(syn::ItemStatic);

#[verifier::external_type_specification]
#[verifier::external_body]
pub struct ExSynItemMacro(syn::ItemMacro);

#[verifier::external_type_specification]
#[verifier::external_body]
pub struct ExSynItemImpl(syn::ItemImpl);

#[verifier::external_type_specification]
#[verifier::external_body]
pub struct ExSynItemUse(syn::ItemUse);

#[verifier::external_type_specification]
#[verifier::external_body]
pub struct ExSynUseTree(syn::UseTree);

#[verifier::external_type_specification]
#[verifier::external_body]
pub struct ExSynItemMod(syn::ItemMod);

#[verifier::external_type_specification]
#[verifier::external_body]
pub struct ExSynStmt(syn::Stmt);

#[verifier::external_type_specification]
#[verifier::external_body]
pub struct ExSynVisibility(SynVisibility);

#[verifier::external_type_specification]
#[verifier::external_body]
pub struct ExSynSignature(syn::Signature);

#[verifier::external_type_specification]
#[verifier::external_body]
pub struct ExSynType(syn::Type);

#[verifier::external_type_specification]
#[verifier::external_body]
pub struct ExIdent(proc_macro2::Ident);

/// `syn::parse_file` on `source`, its items converted into the library's tree
/// (`Err` with the parse error's message). The contract claims only that the
/// result is the one named `rust_items(source)`: the same source always
/// gives the same tree, and `Ok` exactly when `syn` parses it.
#[verifier::external_body]
fn parse_rust_items(source: &str) -> (r: Result<Vec<RustItem>, String>)
    ensures
        match r {
            Ok(v) => rust_items(source@) == Some(v@),
            Err(_) => rust_items(source@) is None,
        },
{
    match syn::parse_file(source) {
        Ok(file) => Ok(file.items.iter().map(rust_item).collect()),
        Err(e) => Err(e.to_string()),
    }
}

/// Converts a `syn::Item`, one arm per kind of item; part of the conversion
/// that `parse_rust_items` makes.
#[verifier::external_body]
fn rust_item(item: &syn::Item) -> RustItem {
    match item {
        syn::Item::Fn(f) => fn_item(f),
        syn::Item::ForeignMod(m) => foreign_mod_item(m),
        syn::Item::Struct(s) => struct_item(s),
        syn::Item::Enum(e) => enum_item(e),
        syn::Item::Trait(t) => trait_item(t),
        syn::Item::Type(t) => type_item(t),
        syn::Item::Const(c) => const_item(c),
        syn::Item::Static(s) => static_item(s),
        syn::Item::Macro(m) => macro_item(m),
        syn::Item::Impl(i) => impl_item(i),
        syn::Item::Use(u) => use_item(u),
        syn::Item::Mod(m) => mod_item(m),
        _ => RustItem::Other,
    }
}

/// Converts a `syn::ItemFn`, with the statements of its body; part of the
/// conversion that `parse_rust_items` makes.
#[verifier::external_body]
fn fn_item(f: &syn::ItemFn) -> RustItem {
    RustItem::Fn {
        vis: vis_model(&f.vis),
        sig: sig_model(&f.sig),
        line: line_of(&f.sig.ident),
        is_extern: f.sig.abi.is_some(),
        body: f.block.stmts.iter().map(stmt_item).collect(),
    }
}

/// Converts a statement of a function body: the item it declares, or `Other`;
/// part of the conversion that `parse_rust_items` makes.
#[verifier::external_body]
fn stmt_item(stmt: &syn::Stmt) -> RustItem {
    match stmt {
        syn::Stmt::Item(i) => rust_item(i),
        _ => RustItem::Other,
    }
}

/// Converts an `extern` block, one entry per item; part of the conversion
/// that `parse_rust_items` makes.
#[verifier::external_body]
fn foreign_mod_item(m: &syn::ItemForeignMod) -> RustItem {
    RustItem::ForeignMod { items: m.items.iter().map(foreign_item).collect() }
}

/// Converts a `syn::ItemUse`; part of the conversion that `parse_rust_items`
/// makes.
#[verifier::external_body]
fn use_item(u: &syn::ItemUse) -> RustItem {
    RustItem::Use { vis: vis_model(&u.vis), tree: use_tree(&u.tree) }
}

/// Converts an item of an `extern` block; part of the conversion that
/// `parse_rust_items` makes.
#[verifier::external_body]
fn foreign_item(item: &syn::ForeignItem) -> RustItem {
    match item {
        syn::ForeignItem::Fn(f) => RustItem::ForeignFn {
            vis: vis_model(&f.vis),
            sig: sig_model(&f.sig),
            line: line_of(&f.sig.ident),
        },
        _ => RustItem::Other,
    }
}

/// Converts a `syn::ItemStruct` with its fields; part of the conversion that
/// `parse_rust_items` makes.
#[verifier::external_body]
fn struct_item(s: &syn::ItemStruct) -> RustItem {
    let fields = match &s.fields {
        syn::Fields::Named(f) => FieldsModel::Named(
            f.named.iter().map(|x| (x.ident.as_ref().map(|i| i.to_string()), type_text(&x.ty))).collect(),
        ),
        syn::Fields::Unnamed(f) => FieldsModel::Unnamed(f.unnamed.iter().map(|x| type_text(&x.ty)).collect()),
        syn::Fields::Unit => FieldsModel::Unit,
    };
    RustItem::Struct { vis: vis_model(&s.vis), ident: s.ident.to_string(), fields, line: line_of(&s.ident) }
}

/// Converts a `syn::ItemEnum` with the names of its variants; part of the
/// conversion that `parse_rust_items` makes.
#[verifier::external_body]
fn enum_item(e: &syn::ItemEnum) -> RustItem {
    RustItem::Enum {
        vis: vis_model(&e.vis),
        ident: e.ident.to_string(),
        variants: e.variants.iter().map(|v| v.ident.to_string()).collect(),
        line: line_of(&e.ident),
    }
}

/// Converts a `syn::ItemTrait`, one entry per item of its body; part of the
/// conversion that `parse_rust_items` makes.
#[verifier::external_body]
fn trait_item(t: &syn::ItemTrait) -> RustItem {
    let methods = t.items.iter().map(|i| match i {
        syn::TraitItem::Fn(m) => Some(sig_model(&m.sig)),
        _ => None,
    }).collect();
    RustItem::Trait { vis: vis_model(&t.vis), ident: t.ident.to_string(), methods, line: line_of(&t.ident) }
}

/// Converts a `syn::ItemType`; part of the conversion that `parse_rust_items`
/// makes.
#[verifier::external_body]
fn type_item(t: &syn::ItemType) -> RustItem {
    RustItem::TypeAlias { vis: vis_model(&t.vis), ident: t.ident.to_string(), ty: type_text(&t.ty), line: line_of(&t.ident) }
}

/// Converts a `syn::ItemConst`; part of the conversion that `parse_rust_items`
/// makes.
#[verifier::external_body]
fn const_item(c: &syn::ItemConst) -> RustItem {
    RustItem::Const { vis: vis_model(&c.vis), ident: c.ident.to_string(), ty: type_text(&c.ty), line: line_of(&c.ident) }
}

/// Converts a `syn::ItemStatic`; part of the conversion that
/// `parse_rust_items` makes.
#[verifier::external_body]
fn static_item(s: &syn::ItemStatic) -> RustItem {
    RustItem::Static { vis: vis_model(&s.vis), ident: s.ident.to_string(), ty: type_text(&s.ty), line: line_of(&s.ident) }
}

/// Converts a `syn::ItemMacro` (its name, for `macro_rules!`, with its line;
/// line 0 when it has none); part of the conversion that `parse_rust_items`
/// makes.
#[verifier::external_body]
fn macro_item(m: &syn::ItemMacro) -> RustItem {
    match &m.ident {
        Some(i) => RustItem::Macro { ident: Some(i.to_string()), line: line_of(i) },
        None => RustItem::Macro { ident: None, line: 0 },
    }
}

/// Converts a `syn::ItemImpl`: its type, the segments of its trait's path, one
/// entry per item of its body; part of the conversion that `parse_rust_items`
/// makes.
#[verifier::external_body]
fn impl_item(i: &syn::ItemImpl) -> RustItem {
    let methods = i.items.iter().map(|x| match x {
        syn::ImplItem::Fn(m) => Some(ImplMethod { vis: vis_model(&m.vis), sig: sig_model(&m.sig), line: line_of(&m.sig.ident) }),
        _ => None,
    }).collect();
    let trait_path = i.trait_.as_ref().map(|(_, p, _)| p.segments.iter().map(|s| s.ident.to_string()).collect());
    RustItem::Impl { self_ty: type_text(&i.self_ty), trait_path, methods }
}

/// Converts a `syn::ItemMod`, with its items when they are inline; part of the
/// conversion that `parse_rust_items` makes.
#[verifier::external_body]
fn mod_item(m: &syn::ItemMod) -> RustItem {
    RustItem::Mod { items: m.content.as_ref().map(|(_, items)| items.iter().map(rust_item).collect()) }
}

/// Converts a `syn::UseTree`; part of the conversion that `parse_rust_items`
/// makes.
#[verifier::external_body]
fn use_tree(tree: &syn::UseTree) -> UseTreeModel {
    match tree {
        syn::UseTree::Path(p) => UseTreeModel::Path(p.ident.to_string(), Box::new(use_tree(&p.tree))),
        syn::UseTree::Name(n) => UseTreeModel::Name(n.ident.to_string()),
        syn::UseTree::Rename(r) => UseTreeModel::Rename(r.ident.to_string(), r.rename.to_string()),
        syn::UseTree::Glob(_) => UseTreeModel::Glob,
        syn::UseTree::Group(g) => UseTreeModel::Group(
            Box::new(g.items.iter().rev().fold(UseList::Nil, |l, t| UseList::Cons(use_tree(t), Box::new(l)))),
        ),
    }
}

/// Converts a `syn::Visibility`, with the segments of a restricting path; part
/// of the conversion that `parse_rust_items` makes.
#[verifier::external_body]
fn vis_model(vis: &SynVisibility) -> VisModel {
    match vis {
        syn::Visibility::Public(_) => VisModel::Public,
        syn::Visibility::Restricted(r) => VisModel::Restricted(r.path.segments.iter().map(|s| s.ident.to_string()).collect()),
        syn::Visibility::Inherited => VisModel::Inherited,
    }
}

/// Converts a `syn::Signature`: its name, its parameters (a pattern as its
/// tokens print), its return type, whether it is `async`; part of the
/// conversion that `parse_rust_items` makes.
#[verifier::external_body]
fn sig_model(sig: &syn::Signature) -> FnSigModel {
    let params = sig.inputs.iter().map(|a| match a {
        syn::FnArg::Receiver(r) => ParamModel::Receiver { reference: r.reference.is_some(), mutable: r.mutability.is_some() },
        syn::FnArg::Typed(t) => ParamModel::Typed { pat: t.pat.to_token_stream().to_string(), ty: type_text(&t.ty) },
    }).collect();
    let output = match &sig.output {
        syn::ReturnType::Default => None,
        syn::ReturnType::Type(_, ty) => Some(type_text(ty)),
    };
    FnSigModel { ident: sig.ident.to_string(), params, output, is_async: sig.asyncness.is_some() }
}

/// A type as its tokens print (`quote::ToTokens`, then `Display`); part of
/// the conversion that `parse_rust_items` makes.
#[verifier::external_body]
fn type_text(ty: &syn::Type) -> String {
    ty.to_token_stream().to_string()
}

/// The line of a name in its file (from 1), through `proc_macro2`'s span
/// locations; part of the conversion that `parse_rust_items` makes.
#[verifier::external_body]
fn line_of(ident: &proc_macro2::Ident) -> u32 {
    ident.span().start().line as u32
}

} // verus!
