//! The queries that agents put to the registry before they write code: whether
//! a symbol already exists, whether a type can be reused, whether a crate's
//! ownership rules allow a symbol, whether someone else is working in a module.
//!
//! Each query reads rows from the database and then decides. The deciding is a
//! function of the rows alone and is stated exactly; of the rows themselves
//! nothing can be stated beyond their shape, since they are what the database
//! holds.
use vstd::prelude::*;

use rusqlite::Connection;

use crate::advisory::{
    copy_symbols, opt_view, symbols_view, Advisory, AdvisoryView, ExistingSymbol, ExistingSymbolView,
};
use crate::db::{cell_text, query_rows, read_opt_text, read_opt_u32, read_text, sqlite_error_text, text_param, SqlParam, SqlValue};
use crate::advisory::{PlanReport, PlanSummary, PlanValidationResult, PlannedAction, PlannedActionView};
use crate::models::{LinkedSymbol, Module, Symbol, SymbolKind, SymbolStatus, Visibility};
use crate::text::{concat, owned, starts_with, str_eq, string_of};
use crate::time::{decimal, decimal_chars};

verus! {

// ---------------------------------------------------------------- reading symbol rows

/// The text of a cell that may be `NULL`: `Some(None)` for `NULL`, `None` for a
/// cell that holds neither.
pub open spec fn opt_cell(v: SqlValue) -> Option<Option<Seq<char>>> {
    match v {
        SqlValue::Null => Some(None),
        SqlValue::Text(s) => Some(Some(s@)),
        _ => None,
    }
}

/// A line number read from a cell that may be `NULL`.
pub open spec fn opt_line_cell(v: SqlValue) -> Option<Option<u32>> {
    match v {
        SqlValue::Null => Some(None),
        SqlValue::Integer(i) => if 0 <= i <= u32::MAX {
            Some(Some(i as u32))
        } else {
            None
        },
        _ => None,
    }
}

/// A count read from a cell; one that holds no count in range gives none.
pub open spec fn count_cell(v: SqlValue) -> Option<usize> {
    match v {
        SqlValue::Integer(i) => if 0 <= i <= usize::MAX {
            Some(i as usize)
        } else {
            None
        },
        _ => None,
    }
}

/// Where a symbol stands, `path:line`, when its line is known.
pub open spec fn location_of(path: Seq<char>, line: Option<u32>) -> Option<Seq<char>> {
    match line {
        Some(ln) => Some(path + ":"@ + decimal(ln as nat)),
        None => None,
    }
}

/// The symbol that a row `(name, kind, module path, crate, signature,
/// visibility, created_by, call sites, line, scope)` describes; `None` when a
/// cell has the wrong type.
pub open spec fn symbol_of_cells(row: Seq<SqlValue>) -> Option<ExistingSymbolView> {
    if row.len() >= 10 && cell_text(row[0]) is Some && cell_text(row[1]) is Some && cell_text(row[2]) is Some
        && cell_text(row[3]) is Some && opt_cell(row[4]) is Some && cell_text(row[5]) is Some
        && opt_cell(row[6]) is Some && opt_line_cell(row[8]) is Some && opt_cell(row[9]) is Some {
        Some(
            ExistingSymbolView {
                name: cell_text(row[0])->0,
                kind: cell_text(row[1])->0,
                mod_path: cell_text(row[2])->0,
                crate_name: cell_text(row[3])->0,
                signature: opt_cell(row[4])->0,
                visibility: cell_text(row[5])->0,
                call_sites: count_cell(row[7]),
                created_by: opt_cell(row[6])->0,
                line_number: opt_line_cell(row[8])->0,
                scope: opt_cell(row[9])->0,
                location: location_of(cell_text(row[2])->0, opt_line_cell(row[8])->0),
            },
        )
    } else {
        None
    }
}

/// The symbols that rows describe, in order; a row that cannot be read is
/// left out.
pub open spec fn symbols_of_rows(rows: Seq<Vec<SqlValue>>) -> Seq<ExistingSymbolView>
    decreases rows.len(),
{
    if rows.len() == 0 {
        Seq::empty()
    } else {
        match symbol_of_cells(rows.last()@) {
            Some(e) => symbols_of_rows(rows.drop_last()).push(e),
            None => symbols_of_rows(rows.drop_last()),
        }
    }
}

/// The characters of an optional string.
pub open spec fn opt_symbol_view(o: Option<ExistingSymbol>) -> Option<ExistingSymbolView> {
    match o {
        Some(e) => Some(e@),
        None => None,
    }
}

/// `path:line`.
fn location_text(path: &str, line: u32) -> (r: String)
    ensures
        r@ == path@ + ":"@ + decimal(line as nat),
{
    let mut s = concat(path, ":");
    let d = decimal_chars(line as u64);
    let ds = string_of(d.as_slice());
    s.append(ds.as_str());
    s
}

/// Reads a symbol from a result row.
pub fn symbol_of_row(row: &Vec<SqlValue>) -> (r: Option<ExistingSymbol>)
    ensures
        opt_symbol_view(r) == symbol_of_cells(row@),
{
    if row.len() < 10 {
        return None;
    }
    let name = read_text(&row[0])?;
    let kind = read_text(&row[1])?;
    let mod_path = read_text(&row[2])?;
    let crate_name = read_text(&row[3])?;
    let signature = read_opt_text(&row[4])?;
    let visibility = read_text(&row[5])?;
    let created_by = read_opt_text(&row[6])?;
    let call_sites = match &row[7] {
        SqlValue::Integer(i) => if *i >= 0 && (*i as u64) <= (usize::MAX as u64) {
            Some(*i as usize)
        } else {
            None
        },
        _ => None,
    };
    let line_number = read_opt_u32(&row[8])?;
    let scope = read_opt_text(&row[9])?;
    let location = match line_number {
        Some(ln) => Some(location_text(mod_path.as_str(), ln)),
        None => None,
    };
    Some(
        ExistingSymbol {
            name,
            kind,
            mod_path,
            crate_name,
            signature,
            visibility,
            call_sites,
            created_by,
            line_number,
            scope,
            location,
        },
    )
}

/// Reads the symbols of result rows, leaving out rows that cannot be read.
pub fn symbols_from_rows(rows: &Vec<Vec<SqlValue>>) -> (r: Vec<ExistingSymbol>)
    ensures
        symbols_view(r) == symbols_of_rows(rows@),
{
    let mut out: Vec<ExistingSymbol> = Vec::new();
    let mut i: usize = 0;
    while i < rows.len()
        invariant
            i <= rows.len(),
            symbols_view(out) == symbols_of_rows(rows@.take(i as int)),
        decreases rows.len() - i,
    {
        assert(rows@.take(i + 1).drop_last() == rows@.take(i as int));
        assert(rows@.take(i + 1).last() == rows@[i as int]);
        match symbol_of_row(&rows[i]) {
            Some(e) => {
                out.push(e);
                assert(symbols_view(out) == symbols_of_rows(rows@.take(i as int)).push(e@));
            },
            None => {},
        }
        i = i + 1;
    }
    assert(rows@.take(rows.len() as int) == rows@);
    out
}

/// `what` followed by `: ` and the text of a SQLite error.
fn query_error(what: &str, e: rusqlite::Error) -> (r: String)
    ensures
        starts_with(r@, what@ + ": "@),
{
    let mut m = concat(what, ": ");
    let ghost head = m@;
    let t = sqlite_error_text(&e);
    m.append(t.as_str());
    assert(m@.subrange(0, head.len() as int) =~= head);
    m
}

/// The symbols that a query with one parameter finds; `what` opens the
/// message of an error.
fn lookup_symbols(conn: &Connection, sql: &str, param: &str, what: &str) -> (r: Result<Vec<ExistingSymbol>, String>)
    ensures
        r matches Ok(v) ==> exists|rows: Seq<Vec<SqlValue>>| symbols_view(v) == symbols_of_rows(rows),
        r matches Err(m) ==> starts_with(m@, what@ + ": "@),
{
    let mut p: Vec<SqlParam> = Vec::new();
    p.push(text_param(param));
    match query_rows(conn, sql, &p) {
        Ok((_, rows)) => Ok(symbols_from_rows(&rows)),
        Err(e) => Err(query_error(what, e)),
    }
}

/// The symbols of a list that bear a given name, in order (what a search by
/// name keeps of the rows it reads).
pub open spec fn named(s: Seq<ExistingSymbolView>, name: Seq<char>) -> Seq<ExistingSymbolView>
    decreases s.len(),
{
    if s.len() == 0 {
        Seq::empty()
    } else if s.last().name == name {
        named(s.drop_last(), name).push(s.last())
    } else {
        named(s.drop_last(), name)
    }
}

/// The symbols of a list that bear a given name (see `named`).
fn named_only(v: Vec<ExistingSymbol>, name: &str) -> (r: Vec<ExistingSymbol>)
    ensures
        symbols_view(r) == named(symbols_view(v), name@),
{
    let ghost vv = symbols_view(v);
    let mut out: Vec<ExistingSymbol> = Vec::new();
    let mut i: usize = 0;
    while i < v.len()
        invariant
            i <= v.len(),
            vv == symbols_view(v),
            symbols_view(out) == named(vv.take(i as int), name@),
        decreases v.len() - i,
    {
        assert(vv.take(i + 1).drop_last() == vv.take(i as int));
        assert(vv.take(i + 1).last() == v@[i as int]@);
        if str_eq(v[i].name.as_str(), name) {
            let ghost before = symbols_view(out);
            let e = v[i].copy();
            out.push(e);
            assert(symbols_view(out) == before.push(e@));
        }
        assert(symbols_view(out) =~= named(vv.take(i + 1), name@));
        i = i + 1;
    }
    assert(vv.take(v.len() as int) == vv);
    out
}

/// The symbols of a given name, with their call-site counts.
fn find_symbols_by_name(conn: &Connection, name: &str) -> (r: Result<Vec<ExistingSymbol>, String>)
    ensures
        r matches Ok(v) ==> exists|rows: Seq<Vec<SqlValue>>| symbols_view(v) == named(symbols_of_rows(rows), name@),
{
    let found = lookup_symbols(
        conn,
        "SELECT s.name, s.kind, m.path, c.name, s.signature, s.visibility, s.created_by,
                (SELECT COUNT(*) FROM relationships r WHERE r.to_symbol_id = s.id AND r.kind = 'calls') as call_sites,
                s.line_number, s.scope
         FROM symbols s
         JOIN modules m ON s.module_id = m.id
         JOIN crates c ON m.crate_id = c.id
         WHERE s.name = ?1",
        name,
        "Failed to query symbols by name",
    )?;
    let ghost rows = choose|rows: Seq<Vec<SqlValue>>| symbols_view(found) == symbols_of_rows(rows);
    Ok(named_only(found, name))
}

/// `%pattern%`, the `LIKE` pattern of names that contain `pattern`.
fn like_pattern(pattern: &str) -> (r: String)
    ensures
        r@ == "%"@ + pattern@ + "%"@,
{
    let mut s = concat("%", pattern);
    s.append("%");
    s
}

/// The symbols whose names contain `pattern` (SQL `LIKE`).
fn find_symbols_fuzzy(conn: &Connection, pattern: &str) -> (r: Result<Vec<ExistingSymbol>, String>)
    ensures
        r matches Ok(v) ==> exists|rows: Seq<Vec<SqlValue>>| symbols_view(v) == symbols_of_rows(rows),
{
    let like = like_pattern(pattern);
    lookup_symbols(
        conn,
        "SELECT s.name, s.kind, m.path, c.name, s.signature, s.visibility, s.created_by,
                (SELECT COUNT(*) FROM relationships r WHERE r.to_symbol_id = s.id AND r.kind = 'calls') as call_sites,
                s.line_number, s.scope
         FROM symbols s
         JOIN modules m ON s.module_id = m.id
         JOIN crates c ON m.crate_id = c.id
         WHERE s.name LIKE ?1",
        like.as_str(),
        "Failed to search symbols",
    )
}

/// Whether a symbol kind names a type: struct, enum, trait, type alias,
/// re-export, class or interface.
pub open spec fn is_type_kind(k: Seq<char>) -> bool {
    ||| k == "struct"@
    ||| k == "enum"@
    ||| k == "trait"@
    ||| k == "type_alias"@
    ||| k == "re_export"@
    ||| k == "class"@
    ||| k == "interface"@
}

/// The symbols of a list that bear a given name and whose kind names a type,
/// in order.
pub open spec fn types_named(s: Seq<ExistingSymbolView>, name: Seq<char>) -> Seq<ExistingSymbolView>
    decreases s.len(),
{
    if s.len() == 0 {
        Seq::empty()
    } else if s.last().name == name && is_type_kind(s.last().kind) {
        types_named(s.drop_last(), name).push(s.last())
    } else {
        types_named(s.drop_last(), name)
    }
}

/// Whether a symbol kind names a type (see `is_type_kind`).
fn type_kind(k: &str) -> (r: bool)
    ensures
        r == is_type_kind(k@),
{
    str_eq(k, "struct") || str_eq(k, "enum") || str_eq(k, "trait") || str_eq(k, "type_alias") || str_eq(
        k,
        "re_export",
    ) || str_eq(k, "class") || str_eq(k, "interface")
}

/// The symbols of a list that bear a given name and name a type (see
/// `types_named`).
fn types_named_only(v: Vec<ExistingSymbol>, name: &str) -> (r: Vec<ExistingSymbol>)
    ensures
        symbols_view(r) == types_named(symbols_view(v), name@),
{
    let ghost vv = symbols_view(v);
    let mut out: Vec<ExistingSymbol> = Vec::new();
    let mut i: usize = 0;
    while i < v.len()
        invariant
            i <= v.len(),
            vv == symbols_view(v),
            symbols_view(out) == types_named(vv.take(i as int), name@),
        decreases v.len() - i,
    {
        assert(vv.take(i + 1).drop_last() == vv.take(i as int));
        assert(vv.take(i + 1).last() == v@[i as int]@);
        if str_eq(v[i].name.as_str(), name) && type_kind(v[i].kind.as_str()) {
            let ghost before = symbols_view(out);
            let e = v[i].copy();
            out.push(e);
            assert(symbols_view(out) == before.push(e@));
        }
        assert(symbols_view(out) =~= types_named(vv.take(i + 1), name@));
        i = i + 1;
    }
    assert(vv.take(v.len() as int) == vv);
    out
}

/// The type-like symbols (struct, enum, trait, type alias, re-export, class,
/// interface) of a given name.
fn find_type_symbols(conn: &Connection, wanted: &str) -> (r: Result<Vec<ExistingSymbol>, String>)
    ensures
        r matches Ok(v) ==> exists|rows: Seq<Vec<SqlValue>>| symbols_view(v) == types_named(symbols_of_rows(rows), wanted@),
{
    let found = lookup_symbols(
        conn,
        "SELECT s.name, s.kind, m.path, c.name, s.signature, s.visibility, s.created_by,
                (SELECT COUNT(*) FROM relationships r WHERE r.to_symbol_id = s.id AND r.kind = 'calls') as call_sites,
                s.line_number, s.scope
         FROM symbols s
         JOIN modules m ON s.module_id = m.id
         JOIN crates c ON m.crate_id = c.id
         WHERE s.name = ?1",
        wanted,
        "Failed to query type symbols",
    )?;
    let ghost rows = choose|rows: Seq<Vec<SqlValue>>| symbols_view(found) == symbols_of_rows(rows);
    Ok(types_named_only(found, wanted))
}

// ---------------------------------------------------------------- creation

/// `crate::module/path`, where a symbol lives.
pub open spec fn qualified(e: ExistingSymbolView) -> Seq<char> {
    e.crate_name + "::"@ + e.mod_path
}

/// Whether a symbol is a re-export rather than a definition.
pub open spec fn is_reexport(e: ExistingSymbolView) -> bool {
    e.kind == "re_export"@
}

/// The definitions among symbols, in order.
pub open spec fn definitions(s: Seq<ExistingSymbolView>) -> Seq<ExistingSymbolView>
    decreases s.len(),
{
    if s.len() == 0 {
        Seq::empty()
    } else if is_reexport(s.last()) {
        definitions(s.drop_last())
    } else {
        definitions(s.drop_last()).push(s.last())
    }
}

/// The re-exports among symbols, in order.
pub open spec fn reexports(s: Seq<ExistingSymbolView>) -> Seq<ExistingSymbolView>
    decreases s.len(),
{
    if s.len() == 0 {
        Seq::empty()
    } else if is_reexport(s.last()) {
        reexports(s.drop_last()).push(s.last())
    } else {
        reexports(s.drop_last())
    }
}

/// The parts joined with `sep` between each two.
pub open spec fn join_with(parts: Seq<Seq<char>>, sep: Seq<char>) -> Seq<char>
    decreases parts.len(),
{
    if parts.len() == 0 {
        Seq::empty()
    } else if parts.len() == 1 {
        parts[0]
    } else {
        join_with(parts.drop_last(), sep) + sep + parts.last()
    }
}

/// Where each symbol lives.
pub open spec fn qualified_all(s: Seq<ExistingSymbolView>) -> Seq<Seq<char>> {
    s.map_values(|e: ExistingSymbolView| qualified(e))
}

/// The note that lists the re-exports of a definition, empty when there are none.
pub open spec fn reexport_note(rs: Seq<ExistingSymbolView>) -> Seq<char> {
    if rs.len() == 0 {
        Seq::empty()
    } else {
        " Also re-exported from: "@ + join_with(qualified_all(rs), ", "@)
    }
}

/// The advice given from the symbols that carry exactly the wanted name; none
/// when there are none. One symbol is to be reused. Of several, a single
/// definition is to be reused (its re-exports are noted); re-exports alone send
/// the agent to the first of them; several definitions are ambiguous.
pub open spec fn exact_spec(name: Seq<char>, m: Seq<ExistingSymbolView>) -> Option<AdvisoryView> {
    if m.len() == 0 {
        None
    } else if m.len() == 1 {
        Some(
            AdvisoryView::ReuseExisting {
                existing: m[0],
                suggestion: "Symbol '"@ + name + "' already exists in "@ + qualified(m[0]) + ". Consider reusing it."@,
            },
        )
    } else {
        let d = definitions(m);
        let r = reexports(m);
        if d.len() == 1 {
            Some(
                AdvisoryView::ReuseExisting {
                    existing: d[0],
                    suggestion: "Symbol '"@ + name + "' already exists in "@ + qualified(d[0]) + "."@ + reexport_note(r),
                },
            )
        } else if d.len() == 0 {
            Some(
                AdvisoryView::ReuseExisting {
                    existing: r[0],
                    suggestion: "Symbol '"@ + name + "' is re-exported from "@ + qualified(r[0]) + "."@,
                },
            )
        } else {
            Some(AdvisoryView::AmbiguousMatch { candidates: d })
        }
    }
}

/// The advice given from the symbols whose names contain the wanted one; none
/// when there are none.
pub open spec fn fuzzy_spec(m: Seq<ExistingSymbolView>) -> Option<AdvisoryView> {
    if m.len() == 0 {
        None
    } else if m.len() == 1 {
        Some(
            AdvisoryView::ReuseExisting {
                existing: m[0],
                suggestion: "Similar symbol '"@ + m[0].name + "' found in "@ + qualified(m[0])
                    + ". Did you mean to reuse it?"@,
            },
        )
    } else {
        Some(AdvisoryView::AmbiguousMatch { candidates: m })
    }
}

/// A symbol of a linked registry, as an existing symbol: its crate is named
/// after the registry, a missing kind reads `unknown`, a missing crate `?`.
pub open spec fn linked_existing(l: LinkedSymbol) -> ExistingSymbolView {
    ExistingSymbolView {
        name: l.name@,
        kind: match l.kind {
            Some(k) => k@,
            None => "unknown"@,
        },
        mod_path: match l.mod_path {
            Some(p) => p@,
            None => Seq::empty(),
        },
        crate_name: l.source_name@ + "::"@ + match l.crate_name {
            Some(c) => c@,
            None => "?"@,
        },
        signature: opt_view(l.signature),
        visibility: "public"@,
        call_sites: None,
        created_by: None,
        line_number: None,
        scope: None,
        location: None,
    }
}

/// The advice given from the symbols of linked registries that carry the
/// wanted name; none when there are none.
pub open spec fn linked_spec(name: Seq<char>, ls: Seq<LinkedSymbol>) -> Option<AdvisoryView> {
    if ls.len() == 0 {
        None
    } else {
        Some(
            AdvisoryView::ReuseExisting {
                existing: linked_existing(ls[0]),
                suggestion: "Symbol '"@ + name + "' exists in linked registry '"@ + ls[0].source_name@
                    + "'. Reuse it instead of creating a duplicate."@,
            },
        )
    }
}

/// The advice on creating `name` in `target`: exact matches come first, then
/// names that contain it, then linked registries; with none of these it is
/// safe to create.
pub open spec fn creation_spec(
    name: Seq<char>,
    target: Seq<char>,
    exact: Seq<ExistingSymbolView>,
    fuzzy: Seq<ExistingSymbolView>,
    linked: Seq<LinkedSymbol>,
) -> AdvisoryView {
    match exact_spec(name, exact) {
        Some(a) => a,
        None => match fuzzy_spec(fuzzy) {
            Some(a) => a,
            None => match linked_spec(name, linked) {
                Some(a) => a,
                None => AdvisoryView::SafeToCreate { symbol: name, target },
            },
        },
    }
}

/// `crate::module/path` for a symbol.
fn qualified_text(e: &ExistingSymbol) -> (r: String)
    ensures
        r@ == qualified(e@),
{
    let mut s = concat(e.crate_name.as_str(), "::");
    s.append(e.mod_path.as_str());
    s
}

/// Where each symbol lives, joined with `, `.
fn joined_places(v: &Vec<ExistingSymbol>) -> (r: String)
    ensures
        r@ == join_with(qualified_all(symbols_view(*v)), ", "@),
{
    let ghost parts = qualified_all(symbols_view(*v));
    let mut out = String::new();
    let mut i: usize = 0;
    while i < v.len()
        invariant
            i <= v.len(),
            parts == qualified_all(symbols_view(*v)),
            parts.len() == v.len(),
            out@ == join_with(parts.take(i as int), ", "@),
        decreases v.len() - i,
    {
        assert(parts.take(i + 1).drop_last() == parts.take(i as int));
        assert(parts.take(i + 1).last() == qualified(v@[i as int]@));
        if i > 0 {
            out.append(", ");
        }
        let q = qualified_text(&v[i]);
        out.append(q.as_str());
        proof {
            if i == 0 {
                assert(parts.take(1).len() == 1);
            }
        }
        i = i + 1;
    }
    assert(parts.take(v.len() as int) == parts);
    out
}

/// The advice from exactly matching symbols (see `exact_spec`).
fn exact_advice(name: &str, m: &Vec<ExistingSymbol>) -> (r: Option<Advisory>)
    ensures
        match r {
            Some(a) => exact_spec(name@, symbols_view(*m)) == Some(a@),
            None => exact_spec(name@, symbols_view(*m)) is None,
        },
{
    let ghost sv = symbols_view(*m);
    if m.len() == 0 {
        return None;
    }
    if m.len() == 1 {
        let mut s = concat("Symbol '", name);
        s.append("' already exists in ");
        let q = qualified_text(&m[0]);
        s.append(q.as_str());
        s.append(". Consider reusing it.");
        return Some(Advisory::ReuseExisting { existing: m[0].copy(), suggestion: s });
    }
    let mut defs: Vec<ExistingSymbol> = Vec::new();
    let mut res: Vec<ExistingSymbol> = Vec::new();
    let mut i: usize = 0;
    while i < m.len()
        invariant
            i <= m.len(),
            sv == symbols_view(*m),
            symbols_view(defs) == definitions(sv.take(i as int)),
            symbols_view(res) == reexports(sv.take(i as int)),
            defs.len() + res.len() == i,
        decreases m.len() - i,
    {
        assert(sv.take(i + 1).drop_last() == sv.take(i as int));
        assert(sv.take(i + 1).last() == m@[i as int]@);
        if str_eq(m[i].kind.as_str(), "re_export") {
            res.push(m[i].copy());
            assert(symbols_view(res) == reexports(sv.take(i as int)).push(m@[i as int]@));
        } else {
            defs.push(m[i].copy());
            assert(symbols_view(defs) == definitions(sv.take(i as int)).push(m@[i as int]@));
        }
        i = i + 1;
    }
    assert(sv.take(m.len() as int) == sv);
    if defs.len() == 1 {
        let mut s = concat("Symbol '", name);
        s.append("' already exists in ");
        let q = qualified_text(&defs[0]);
        s.append(q.as_str());
        s.append(".");
        let ghost before = s@;
        if res.len() > 0 {
            s.append(" Also re-exported from: ");
            let places = joined_places(&res);
            s.append(places.as_str());
            assert(s@ =~= before + reexport_note(symbols_view(res)));
        } else {
            assert(s@ + reexport_note(symbols_view(res)) =~= s@);
        }
        assert(symbols_view(defs)[0] == defs@[0]@);
        let a = Advisory::ReuseExisting { existing: defs[0].copy(), suggestion: s };
        Some(a)
    } else if defs.len() == 0 {
        let mut s = concat("Symbol '", name);
        s.append("' is re-exported from ");
        let q = qualified_text(&res[0]);
        s.append(q.as_str());
        s.append(".");
        assert(symbols_view(res)[0] == res@[0]@);
        let a = Advisory::ReuseExisting { existing: res[0].copy(), suggestion: s };
        assert(exact_spec(name@, sv) == Some(a@));
        Some(a)
    } else {
        let a = Advisory::AmbiguousMatch { candidates: defs };
        assert(exact_spec(name@, sv) == Some(a@));
        Some(a)
    }
}

/// The advice from symbols whose names contain the wanted one (see `fuzzy_spec`).
fn fuzzy_advice(m: &Vec<ExistingSymbol>) -> (r: Option<Advisory>)
    ensures
        match r {
            Some(a) => fuzzy_spec(symbols_view(*m)) == Some(a@),
            None => fuzzy_spec(symbols_view(*m)) is None,
        },
{
    if m.len() == 0 {
        None
    } else if m.len() == 1 {
        let mut s = concat("Similar symbol '", m[0].name.as_str());
        s.append("' found in ");
        let q = qualified_text(&m[0]);
        s.append(q.as_str());
        s.append(". Did you mean to reuse it?");
        Some(Advisory::ReuseExisting { existing: m[0].copy(), suggestion: s })
    } else {
        Some(Advisory::AmbiguousMatch { candidates: copy_symbols(m) })
    }
}

/// A symbol of a linked registry as an existing symbol (see `linked_existing`).
fn existing_of_linked(l: &LinkedSymbol) -> (r: ExistingSymbol)
    ensures
        r@ == linked_existing(*l),
{
    let mut crate_name = concat(l.source_name.as_str(), "::");
    match &l.crate_name {
        Some(c) => crate_name.append(c.as_str()),
        None => crate_name.append("?"),
    }
    ExistingSymbol {
        name: l.name.clone(),
        kind: match &l.kind {
            Some(k) => k.clone(),
            None => owned("unknown"),
        },
        mod_path: match &l.mod_path {
            Some(p) => p.clone(),
            None => String::new(),
        },
        crate_name,
        signature: match &l.signature {
            Some(g) => Some(g.clone()),
            None => None,
        },
        visibility: owned("public"),
        call_sites: None,
        created_by: None,
        line_number: None,
        scope: None,
        location: None,
    }
}

/// The advice from symbols of linked registries (see `linked_spec`).
fn linked_advice(name: &str, ls: &Vec<LinkedSymbol>) -> (r: Option<Advisory>)
    ensures
        match r {
            Some(a) => linked_spec(name@, ls@) == Some(a@),
            None => linked_spec(name@, ls@) is None,
        },
{
    if ls.len() == 0 {
        return None;
    }
    let mut s = concat("Symbol '", name);
    s.append("' exists in linked registry '");
    s.append(ls[0].source_name.as_str());
    s.append("'. Reuse it instead of creating a duplicate.");
    Some(Advisory::ReuseExisting { existing: existing_of_linked(&ls[0]), suggestion: s })
}

/// The advice on creating `name` in `target`, given the symbols of that exact
/// name, those whose names contain it, and the linked symbols of that name.
pub fn creation_advice(
    name: &str,
    target: &str,
    exact: &Vec<ExistingSymbol>,
    fuzzy: &Vec<ExistingSymbol>,
    linked: &Vec<LinkedSymbol>,
) -> (r: Advisory)
    ensures
        r@ == creation_spec(name@, target@, symbols_view(*exact), symbols_view(*fuzzy), linked@),
{
    if let Some(a) = exact_advice(name, exact) {
        return a;
    }
    if let Some(a) = fuzzy_advice(fuzzy) {
        return a;
    }
    if let Some(a) = linked_advice(name, linked) {
        return a;
    }
    Advisory::SafeToCreate { symbol: owned(name), target: owned(target) }
}

/// Reads a symbol of a linked registry from a row `(id, source, name, kind,
/// crate, module path, signature, linked_at)`.
fn linked_of_row(row: &Vec<SqlValue>) -> (r: Option<LinkedSymbol>)
    ensures
        match r {
            Some(l) => row.len() >= 8 && row@[0] == SqlValue::Integer(l.id->0) && l.id is Some
                && cell_text(row@[1]) == Some(l.source_name@) && cell_text(row@[2]) == Some(l.name@)
                && opt_cell(row@[3]) == Some(opt_view(l.kind)) && opt_cell(row@[4]) == Some(opt_view(l.crate_name))
                && opt_cell(row@[5]) == Some(opt_view(l.mod_path)) && opt_cell(row@[6]) == Some(opt_view(l.signature))
                && cell_text(row@[7]) == Some(l.linked_at@),
            None => row.len() < 8 || !(row@[0] is Integer) || cell_text(row@[1]) is None || cell_text(row@[2]) is None
                || opt_cell(row@[3]) is None || opt_cell(row@[4]) is None || opt_cell(row@[5]) is None
                || opt_cell(row@[6]) is None || cell_text(row@[7]) is None,
        },
{
    if row.len() < 8 {
        return None;
    }
    let id = crate::db::read_i64(&row[0])?;
    let source_name = read_text(&row[1])?;
    let name = read_text(&row[2])?;
    let kind = read_opt_text(&row[3])?;
    let crate_name = read_opt_text(&row[4])?;
    let mod_path = read_opt_text(&row[5])?;
    let signature = read_opt_text(&row[6])?;
    let linked_at = read_text(&row[7])?;
    Some(LinkedSymbol { id: Some(id), source_name, name, kind, crate_name, mod_path, signature, linked_at })
}

/// The symbols of linked registries that carry a given name; rows that
/// cannot be read are left out.
fn find_linked_symbols(conn: &Connection, name: &str) -> (r: Result<Vec<LinkedSymbol>, String>)
    ensures
        r matches Ok(v) ==> forall|i: int| 0 <= i < v.len() ==> (#[trigger] v@[i]).id is Some,
{
    let mut p: Vec<SqlParam> = Vec::new();
    p.push(text_param(name));
    let (_, rows) = match query_rows(
        conn,
        "SELECT id, source_name, name, kind, crate_name, module_path, signature, linked_at
         FROM linked_symbols WHERE name = ?1",
        &p,
    ) {
        Ok(x) => x,
        Err(e) => {
            return Err(query_error("Failed to query linked symbols", e));
        },
    };
    let mut out: Vec<LinkedSymbol> = Vec::new();
    let mut i: usize = 0;
    while i < rows.len()
        invariant
            i <= rows.len(),
            forall|k: int| 0 <= k < out.len() ==> (#[trigger] out@[k]).id is Some,
        decreases rows.len() - i,
    {
        if let Some(l) = linked_of_row(&rows[i]) {
            out.push(l);
        }
        i = i + 1;
    }
    Ok(out)
}

/// Whether advice is what the creation check answers for a name and target:
/// one advisory, the creation advice over some rows of the registry.
pub open spec fn creation_answer(name: Seq<char>, target: Seq<char>, v: Seq<AdvisoryView>) -> bool {
    v.len() == 1 && exists|e: Seq<Vec<SqlValue>>, f: Seq<Vec<SqlValue>>, l: Seq<LinkedSymbol>|
        v[0] == creation_spec(name, target, named(symbols_of_rows(e), name), symbols_of_rows(f), l)
}

/// Whether advice is what the boundary check answers for a name and crate,
/// over some rules of that crate, owners, and other crates of the registry.
pub open spec fn boundary_answer(name: Seq<char>, krate: Seq<char>, v: Seq<AdvisoryView>) -> bool {
    exists|rules: Seq<BoundaryRule>, owners: Seq<(String, String)>, alts: Seq<(String, String)>|
        boundary_spec(name, krate, rules, owners, alts) == Some(v) && rules_of_crate(rules, krate) && alts_besides(
            alts,
            krate,
        )
}

/// Validates whether a symbol can be created in the target module.
///
/// Looks for symbols of exactly that name, then for names that contain it,
/// then in linked registries; answers with one advisory: reuse, ambiguity, or
/// safe to create. A failed query of linked registries counts as none found.
pub fn validate_creation(conn: &Connection, symbol_name: &str, target_module: &str) -> (r: Result<Vec<Advisory>, String>)
    ensures
        r matches Ok(v) ==> v.len() == 1 && exists|e: Seq<Vec<SqlValue>>, f: Seq<Vec<SqlValue>>, l: Seq<LinkedSymbol>|
            v@[0]@ == creation_spec(symbol_name@, target_module@, named(symbols_of_rows(e), symbol_name@), symbols_of_rows(f), l),
{
    let none: Vec<ExistingSymbol> = Vec::new();
    let no_links: Vec<LinkedSymbol> = Vec::new();
    let ghost empty_rows: Seq<Vec<SqlValue>> = Seq::empty();
    assert(symbols_of_rows(empty_rows) == Seq::<ExistingSymbolView>::empty());
    let exact = find_symbols_by_name(conn, symbol_name)?;
    let ghost e = choose|rows: Seq<Vec<SqlValue>>| symbols_view(exact) == named(symbols_of_rows(rows), symbol_name@);
    if exact.len() > 0 {
        let a = creation_advice(symbol_name, target_module, &exact, &none, &no_links);
        let mut v: Vec<Advisory> = Vec::new();
        v.push(a);
        assert(v@[0]@ == creation_spec(symbol_name@, target_module@, named(symbols_of_rows(e), symbol_name@), symbols_of_rows(empty_rows), no_links@));
        return Ok(v);
    }
    let fuzzy = find_symbols_fuzzy(conn, symbol_name)?;
    let ghost f = choose|rows: Seq<Vec<SqlValue>>| symbols_view(fuzzy) == symbols_of_rows(rows);
    if fuzzy.len() > 0 {
        let a = creation_advice(symbol_name, target_module, &exact, &fuzzy, &no_links);
        let mut v: Vec<Advisory> = Vec::new();
        v.push(a);
        assert(v@[0]@ == creation_spec(symbol_name@, target_module@, named(symbols_of_rows(e), symbol_name@), symbols_of_rows(f), no_links@));
        return Ok(v);
    }
    let linked = match find_linked_symbols(conn, symbol_name) {
        Ok(l) => l,
        Err(_) => Vec::new(),
    };
    let a = creation_advice(symbol_name, target_module, &exact, &fuzzy, &linked);
    let mut v: Vec<Advisory> = Vec::new();
    v.push(a);
    assert(v@[0]@ == creation_spec(symbol_name@, target_module@, named(symbols_of_rows(e), symbol_name@), symbols_of_rows(f), linked@));
    Ok(v)
}

// ---------------------------------------------------------------- dependencies

/// The part of `s` after its last `c` (all of `s` when it holds none).
pub open spec fn after_last(s: Seq<char>, c: char) -> Seq<char>
    decreases s.len(),
{
    if s.len() == 0 {
        s
    } else if s.last() == c {
        Seq::empty()
    } else {
        after_last(s.drop_last(), c).push(s.last())
    }
}

/// `s` with every trailing copy of `suffix` removed (`trim_end_matches`).
pub open spec fn strip_suffix_all(s: Seq<char>, suffix: Seq<char>) -> Seq<char>
    decreases s.len(),
{
    if suffix.len() > 0 && crate::text::ends_with(s, suffix) {
        strip_suffix_all(s.take(s.len() - suffix.len()), suffix)
    } else {
        s
    }
}

/// The module name of a file path: its last segment without `.rs`.
pub open spec fn module_name(path: Seq<char>) -> Seq<char> {
    strip_suffix_all(after_last(path, '/'), ".rs"@)
}

/// The module name of a file path (see `module_name`).
pub fn module_name_of(path: &str) -> (r: String)
    ensures
        r@ == module_name(path@),
{
    let cs = crate::text::chars_of(path);
    let mut seg: Vec<char> = Vec::new();
    let mut i: usize = 0;
    while i < cs.len()
        invariant
            i <= cs.len(),
            seg@ == after_last(cs@.take(i as int), '/'),
        decreases cs.len() - i,
    {
        assert(cs@.take(i + 1).drop_last() == cs@.take(i as int));
        assert(cs@.take(i + 1).last() == cs@[i as int]);
        if cs[i] == '/' {
            seg = Vec::new();
        } else {
            seg.push(cs[i]);
        }
        i = i + 1;
    }
    assert(cs@.take(cs.len() as int) == cs@);
    let suffix = crate::text::chars_of(".rs");
    proof {
        reveal_strlit(".rs");
    }
    let ghost whole = seg@;
    while crate::text::has_suffix(seg.as_slice(), suffix.as_slice())
        invariant
            suffix@ == ".rs"@,
            suffix@.len() == 3,
            strip_suffix_all(seg@, ".rs"@) == strip_suffix_all(whole, ".rs"@),
        decreases seg.len(),
    {
        let n = seg.len() - 3;
        let cut = crate::text::slice_of(seg.as_slice(), 0, n);
        assert(cut@ == seg@.take(n as int));
        seg = cut;
    }
    string_of(seg.as_slice())
}

/// The texts in the first cells of rows, in order; rows whose first cell holds
/// no text are left out.
pub open spec fn texts_of_rows(rows: Seq<Vec<SqlValue>>) -> Seq<Seq<char>>
    decreases rows.len(),
{
    if rows.len() == 0 {
        Seq::empty()
    } else if rows.last().len() > 0 && cell_text(rows.last()@[0]) is Some {
        texts_of_rows(rows.drop_last()).push(cell_text(rows.last()@[0])->0)
    } else {
        texts_of_rows(rows.drop_last())
    }
}

/// Reads the texts in the first cells of rows (see `texts_of_rows`).
pub fn texts_from_rows(rows: &Vec<Vec<SqlValue>>) -> (r: Vec<String>)
    ensures
        crate::advisory::strings_view(r) == texts_of_rows(rows@),
{
    let mut out: Vec<String> = Vec::new();
    let mut i: usize = 0;
    while i < rows.len()
        invariant
            i <= rows.len(),
            crate::advisory::strings_view(out) == texts_of_rows(rows@.take(i as int)),
        decreases rows.len() - i,
    {
        assert(rows@.take(i + 1).drop_last() == rows@.take(i as int));
        assert(rows@.take(i + 1).last() == rows@[i as int]);
        if rows[i].len() > 0 {
            if let Some(t) = read_text(&rows[i][0]) {
                out.push(t);
                assert(crate::advisory::strings_view(out) == texts_of_rows(rows@.take(i as int)).push(t@));
            }
        }
        i = i + 1;
    }
    assert(rows@.take(rows.len() as int) == rows@);
    out
}

/// The names of the traits that a symbol implements (through `implements`
/// relationships); none when the symbol is not found.
fn find_implemented_traits(conn: &Connection, symbol_name: &str, mod_path: &str) -> (r: Result<Vec<String>, String>)
    ensures
        r matches Ok(v) ==> exists|rows: Seq<Vec<SqlValue>>| crate::advisory::strings_view(v) == texts_of_rows(rows),
{
    let mut p: Vec<SqlParam> = Vec::new();
    p.push(text_param(symbol_name));
    p.push(text_param(mod_path));
    let ghost no_rows: Seq<Vec<SqlValue>> = Seq::empty();
    let found = match query_rows(
        conn,
        "SELECT s.id FROM symbols s
         JOIN modules m ON s.module_id = m.id
         WHERE s.name = ?1 AND m.path = ?2",
        &p,
    ) {
        Ok((_, rows)) => crate::registry::decode_first_i64(&rows),
        Err(_) => None,
    };
    let sid = match found {
        Some(id) => id,
        None => {
            let v: Vec<String> = Vec::new();
            assert(crate::advisory::strings_view(v) == texts_of_rows(no_rows));
            return Ok(v);
        },
    };
    let mut q: Vec<SqlParam> = Vec::new();
    q.push(SqlParam::Integer(sid));
    match query_rows(
        conn,
        "SELECT s2.name FROM relationships r
         JOIN symbols s2 ON r.to_symbol_id = s2.id
         WHERE r.from_symbol_id = ?1 AND r.kind = 'implements'",
        &q,
    ) {
        Ok((_, rows)) => Ok(texts_from_rows(&rows)),
        Err(e) => Err(query_error("Failed to query trait implementations", e)),
    }
}

/// The path under which a re-export makes a symbol reachable, from the row
/// `(module path, crate name)` of the re-export: `crate::module::name`.
pub open spec fn reexport_path_of(rows: Seq<Vec<SqlValue>>, name: Seq<char>) -> Option<Seq<char>> {
    if rows.len() > 0 && rows[0].len() >= 2 && cell_text(rows[0]@[0]) is Some && cell_text(rows[0]@[1]) is Some {
        Some(cell_text(rows[0]@[1])->0 + "::"@ + module_name(cell_text(rows[0]@[0])->0) + "::"@ + name)
    } else {
        None
    }
}

/// Reads the re-export path of a symbol from the rows of its re-exports.
pub fn reexport_path_from_rows(rows: &Vec<Vec<SqlValue>>, name: &str) -> (r: Option<String>)
    ensures
        opt_view(r) == reexport_path_of(rows@, name@),
{
    if rows.len() == 0 || rows[0].len() < 2 {
        return None;
    }
    let mp = read_text(&rows[0][0])?;
    let cn = read_text(&rows[0][1])?;
    let mut s = concat(cn.as_str(), "::");
    let m = module_name_of(mp.as_str());
    s.append(m.as_str());
    s.append("::");
    s.append(name);
    Some(s)
}

/// The path of a `pub use` re-export of a symbol in its crate, if there is one.
fn find_reexport_path(conn: &Connection, symbol_name: &str, crate_name: &str) -> (r: Option<String>)
    ensures
        r matches Some(t) ==> exists|rows: Seq<Vec<SqlValue>>| reexport_path_of(rows, symbol_name@) == Some(t@),
{
    let mut p: Vec<SqlParam> = Vec::new();
    p.push(text_param(symbol_name));
    p.push(text_param(crate_name));
    match query_rows(
        conn,
        "SELECT m.path, c.name FROM symbols s
         JOIN modules m ON s.module_id = m.id
         JOIN crates c ON m.crate_id = c.id
         WHERE s.name = ?1 AND s.kind = 're_export' AND c.name = ?2",
        &p,
    ) {
        Ok((_, rows)) => reexport_path_from_rows(&rows, symbol_name),
        Err(_) => None,
    }
}

/// The advice on depending on a type: with no such type it is safe to create;
/// with one, use it, by its re-export path when there is one, else by
/// `crate::Name`, with the traits it implements; with several, ambiguous.
pub open spec fn dependency_spec(
    wanted: Seq<char>,
    m: Seq<ExistingSymbolView>,
    traits: Seq<Seq<char>>,
    reexport: Option<Seq<char>>,
) -> AdvisoryView {
    if m.len() == 0 {
        AdvisoryView::SafeToCreate { symbol: wanted, target: "unknown"@ }
    } else if m.len() == 1 {
        AdvisoryView::UseExistingType {
            existing: m[0],
            prelude_path: match reexport {
                Some(p) => p,
                None => m[0].crate_name + "::"@ + m[0].name,
            },
            traits,
        }
    } else {
        AdvisoryView::AmbiguousMatch { candidates: m }
    }
}

/// The advice on depending on a type, given the type symbols of that name,
/// the traits the single one implements, and its re-export path.
pub fn dependency_advice(wanted: &str, m: &Vec<ExistingSymbol>, traits: Vec<String>, reexport: Option<String>) -> (r: Advisory)
    ensures
        r@ == dependency_spec(wanted@, symbols_view(*m), crate::advisory::strings_view(traits), opt_view(reexport)),
{
    if m.len() == 0 {
        Advisory::SafeToCreate { symbol: owned(wanted), target: owned("unknown") }
    } else if m.len() == 1 {
        let prelude_path = match reexport {
            Some(p) => p,
            None => {
                let mut s = concat(m[0].crate_name.as_str(), "::");
                s.append(m[0].name.as_str());
                s
            },
        };
        Advisory::UseExistingType { existing: m[0].copy(), prelude_path, traits }
    } else {
        Advisory::AmbiguousMatch { candidates: copy_symbols(m) }
    }
}

/// Validates whether a type already exists in the registry (struct, enum,
/// trait, type alias, re-export, class or interface); answers with one
/// advisory.
pub fn validate_dependency(conn: &Connection, wanted: &str) -> (r: Result<Vec<Advisory>, String>)
    ensures
        r matches Ok(v) ==> v.len() == 1 && exists|rows: Seq<Vec<SqlValue>>, traits: Seq<Seq<char>>, reexport: Option<Seq<char>>|
            v@[0]@ == dependency_spec(wanted@, types_named(symbols_of_rows(rows), wanted@), traits, reexport),
{
    let matches = find_type_symbols(conn, wanted)?;
    let ghost rows = choose|rows: Seq<Vec<SqlValue>>| symbols_view(matches) == types_named(symbols_of_rows(rows), wanted@);
    let mut traits: Vec<String> = Vec::new();
    let mut reexport: Option<String> = None;
    if matches.len() == 1 {
        traits = find_implemented_traits(conn, matches[0].name.as_str(), matches[0].mod_path.as_str())?;
        reexport = find_reexport_path(conn, matches[0].name.as_str(), matches[0].crate_name.as_str());
    }
    let ghost tv = crate::advisory::strings_view(traits);
    let ghost rv = opt_view(reexport);
    let a = dependency_advice(wanted, &matches, traits, reexport);
    let mut v: Vec<Advisory> = Vec::new();
    v.push(a);
    assert(v@[0]@ == dependency_spec(wanted@, types_named(symbols_of_rows(rows), wanted@), tv, rv));
    Ok(v)
}

// ---------------------------------------------------------------- boundaries

/// An ownership rule of a crate as the boundary check reads it.
#[derive(Debug, Clone)]
pub struct BoundaryRule {
    pub crate_name: String,
    pub description: String,
    pub kind: String,
    pub pattern: Option<String>,
    pub regex: Option<String>,
}

/// Whether a rule forbids a symbol: only `must_not` rules forbid; a rule with a
/// glob pattern or a regular expression forbids the names they match; a rule
/// with neither forbids the names that touch the concerns its description
/// names. `None` where that last match cannot be decided (see `rule_outcome`).
pub open spec fn rule_forbids(sym: Seq<char>, r: BoundaryRule) -> Option<bool> {
    if r.kind@ != "must_not"@ {
        Some(false)
    } else if r.pattern is None && r.regex is None {
        crate::matching::rule_outcome(sym, r.description@)
    } else {
        Some(
            (r.pattern matches Some(p) && crate::matching::glob_any(sym, p@)) || (r.regex matches Some(x)
                && crate::matching::regex_match(sym, x@)),
        )
    }
}

/// The plain content of a pair of strings.
pub open spec fn pair_view(p: (String, String)) -> (Seq<char>, Seq<char>) {
    (p.0@, p.1@)
}

/// The first of the crates `(name, path)` from index `j` on that carries a given name.
pub open spec fn alt_named(alts: Seq<(String, String)>, name: Seq<char>, j: int) -> Option<(Seq<char>, Seq<char>)>
    decreases alts.len() - j,
{
    if j < 0 || j >= alts.len() {
        None
    } else if alts[j].0@ == name {
        Some(pair_view(alts[j]))
    } else {
        alt_named(alts, name, j + 1)
    }
}

/// The crate suggested when no owner fits: the first other crate, else a
/// crate `other`.
pub open spec fn fallback_alt(alts: Seq<(String, String)>) -> (Seq<char>, Seq<char>) {
    if alts.len() > 0 {
        pair_view(alts[0])
    } else {
        ("other"@, "crates/other/src/lib.rs"@)
    }
}

/// The crate to suggest for a forbidden symbol: the first crate, among the
/// other crates `alts`, whose `must_own` rule (from index `i` of `owners`, each
/// `(crate, description)`) touches the symbol; else the fallback. `None` where
/// a description match cannot be decided.
pub open spec fn best_alt_from(
    sym: Seq<char>,
    owners: Seq<(String, String)>,
    alts: Seq<(String, String)>,
    i: int,
) -> Option<(Seq<char>, Seq<char>)>
    decreases owners.len() - i,
{
    if i < 0 || i >= owners.len() {
        Some(fallback_alt(alts))
    } else {
        match crate::matching::rule_outcome(sym, owners[i].1@) {
            None => None,
            Some(true) => match alt_named(alts, owners[i].0@, 0) {
                Some(a) => Some(a),
                None => best_alt_from(sym, owners, alts, i + 1),
            },
            Some(false) => best_alt_from(sym, owners, alts, i + 1),
        }
    }
}

/// The advisory for a symbol that a rule forbids, suggesting crate `alt`.
pub open spec fn violation(sym: Seq<char>, r: BoundaryRule, alt: (Seq<char>, Seq<char>)) -> AdvisoryView {
    AdvisoryView::BoundaryViolation {
        rule: r.description@,
        crate_name: r.crate_name@,
        suggestion: crate::advisory::ModuleSuggestionView {
            mod_path: alt.1 + "/src/lib.rs"@,
            crate_name: alt.0,
            reason: "Crate '"@ + r.crate_name@ + "' has a must_not rule: "@ + r.description@ + ". Consider placing '"@
                + sym + "' in crate '"@ + alt.0 + "'."@,
        },
    }
}

/// The violations of the rules, in order.
pub open spec fn violations(
    sym: Seq<char>,
    rules: Seq<BoundaryRule>,
    owners: Seq<(String, String)>,
    alts: Seq<(String, String)>,
) -> Option<Seq<AdvisoryView>>
    decreases rules.len(),
{
    if rules.len() == 0 {
        Some(Seq::empty())
    } else {
        match violations(sym, rules.drop_last(), owners, alts) {
            None => None,
            Some(v) => match rule_forbids(sym, rules.last()) {
                None => None,
                Some(false) => Some(v),
                Some(true) => match best_alt_from(sym, owners, alts, 0) {
                    None => None,
                    Some(a) => Some(v.push(violation(sym, rules.last(), a))),
                },
            },
        }
    }
}

/// The advice on placing `sym` in crate `target`: one violation per rule of
/// the crate that forbids it, or, when none does, safe to create.
pub open spec fn boundary_spec(
    sym: Seq<char>,
    target: Seq<char>,
    rules: Seq<BoundaryRule>,
    owners: Seq<(String, String)>,
    alts: Seq<(String, String)>,
) -> Option<Seq<AdvisoryView>> {
    match violations(sym, rules, owners, alts) {
        None => None,
        Some(v) => if v.len() == 0 {
            Some(seq![AdvisoryView::SafeToCreate { symbol: sym, target }])
        } else {
            Some(v)
        },
    }
}

/// How many of the rules forbid `sym`.
pub open spec fn forbidding(sym: Seq<char>, rules: Seq<BoundaryRule>) -> nat
    decreases rules.len(),
{
    if rules.len() == 0 {
        0
    } else {
        forbidding(sym, rules.drop_last()) + if rule_forbids(sym, rules.last()) == Some(true) {
            1nat
        } else {
            0nat
        }
    }
}

/// The violations found are one per forbidding rule, each a boundary violation
/// naming its rule.
proof fn lemma_violations_count(
    sym: Seq<char>,
    rules: Seq<BoundaryRule>,
    owners: Seq<(String, String)>,
    alts: Seq<(String, String)>,
)
    requires
        violations(sym, rules, owners, alts) is Some,
    ensures
        violations(sym, rules, owners, alts)->0.len() == forbidding(sym, rules),
        forall|i: int|
            0 <= i < violations(sym, rules, owners, alts)->0.len() ==> (#[trigger] violations(
                sym,
                rules,
                owners,
                alts,
            )->0[i]) is BoundaryViolation,
    decreases rules.len(),
{
    if rules.len() > 0 {
        lemma_violations_count(sym, rules.drop_last(), owners, alts);
        let before = violations(sym, rules.drop_last(), owners, alts)->0;
        let all = violations(sym, rules, owners, alts)->0;
        assert forall|i: int| 0 <= i < all.len() implies (#[trigger] all[i]) is BoundaryViolation by {
            if i < before.len() {
                assert(all[i] == before[i]);
            }
        }
    }
}

/// The advice on placing a symbol in a crate, whenever it can be given: safe
/// to create exactly when none of the crate's rules forbids the symbol, and
/// otherwise one boundary violation per forbidding rule and nothing else; a
/// rule other than `must_not` (`must_own`, `shared_with`) never forbids.
pub proof fn lemma_boundary_advice(
    sym: Seq<char>,
    target: Seq<char>,
    rules: Seq<BoundaryRule>,
    owners: Seq<(String, String)>,
    alts: Seq<(String, String)>,
)
    requires
        boundary_spec(sym, target, rules, owners, alts) is Some,
    ensures
        (boundary_spec(sym, target, rules, owners, alts)->0 == seq![AdvisoryView::SafeToCreate { symbol: sym, target }])
            <==> forbidding(sym, rules) == 0,
        forbidding(sym, rules) > 0 ==> boundary_spec(sym, target, rules, owners, alts)->0.len() == forbidding(sym, rules)
            && forall|i: int|
            0 <= i < forbidding(sym, rules) ==> (#[trigger] boundary_spec(
                sym,
                target,
                rules,
                owners,
                alts,
            )->0[i]) is BoundaryViolation,
        forall|r: BoundaryRule| r.kind@ != "must_not"@ ==> #[trigger] rule_forbids(sym, r) == Some(false),
{
    lemma_violations_count(sym, rules, owners, alts);
    let v = violations(sym, rules, owners, alts)->0;
    if forbidding(sym, rules) > 0 {
        assert(v[0] is BoundaryViolation);
        assert(boundary_spec(sym, target, rules, owners, alts)->0 != seq![AdvisoryView::SafeToCreate { symbol: sym, target }]);
    }
}

/// The advice on creating a symbol is one of three kinds: safe to create
/// exactly when no symbol has the name, none contains it and no linked
/// registry holds it; an ambiguity only when two or more definitions (not
/// re-exports) have the exact name, or none has it and two or more contain
/// it; otherwise the one symbol to reuse.
pub proof fn lemma_creation_advice(
    name: Seq<char>,
    target: Seq<char>,
    exact: Seq<ExistingSymbolView>,
    fuzzy: Seq<ExistingSymbolView>,
    linked: Seq<LinkedSymbol>,
)
    ensures
        (creation_spec(name, target, exact, fuzzy, linked) == AdvisoryView::SafeToCreate { symbol: name, target }) <==> (
        exact.len() == 0 && fuzzy.len() == 0 && linked.len() == 0),
        creation_spec(name, target, exact, fuzzy, linked) is SafeToCreate || creation_spec(
            name,
            target,
            exact,
            fuzzy,
            linked,
        ) is ReuseExisting || creation_spec(name, target, exact, fuzzy, linked) is AmbiguousMatch,
        creation_spec(name, target, exact, fuzzy, linked) is AmbiguousMatch ==> (definitions(exact).len() >= 2 || (
        exact.len() == 0 && fuzzy.len() >= 2)),
{
}

/// The kinds of symbol that name a type, as the dependency check knows them.
pub open spec fn type_kinds() -> Seq<Seq<char>> {
    seq!["struct"@, "enum"@, "trait"@, "type_alias"@, "re_export"@, "class"@, "interface"@]
}

/// Whether the list holds a symbol named `name` whose kind is one of `type_kinds`.
pub open spec fn holds_type_named(s: Seq<ExistingSymbolView>, name: Seq<char>) -> bool {
    exists|i: int| 0 <= i < s.len() && (#[trigger] s[i]).name == name && type_kinds().contains(s[i].kind)
}

proof fn lemma_type_kinds(k: Seq<char>)
    ensures
        type_kinds().contains(k) == is_type_kind(k),
{
    if is_type_kind(k) {
        if k == "struct"@ {
            assert(type_kinds()[0] == k);
        } else if k == "enum"@ {
            assert(type_kinds()[1] == k);
        } else if k == "trait"@ {
            assert(type_kinds()[2] == k);
        } else if k == "type_alias"@ {
            assert(type_kinds()[3] == k);
        } else if k == "re_export"@ {
            assert(type_kinds()[4] == k);
        } else if k == "class"@ {
            assert(type_kinds()[5] == k);
        } else {
            assert(type_kinds()[6] == k);
        }
    }
}

/// `types_named` keeps something exactly when the list holds a symbol of
/// that name and of a type kind.
proof fn lemma_types_named_empty(s: Seq<ExistingSymbolView>, name: Seq<char>)
    ensures
        (types_named(s, name).len() > 0) == holds_type_named(s, name),
    decreases s.len(),
{
    if s.len() > 0 {
        let t = s.drop_last();
        lemma_types_named_empty(t, name);
        lemma_type_kinds(s.last().kind);
        if holds_type_named(t, name) {
            let i = choose|i: int| 0 <= i < t.len() && (#[trigger] t[i]).name == name && type_kinds().contains(t[i].kind);
            assert(s[i] == t[i]);
        }
        if holds_type_named(s, name) {
            let i = choose|i: int| 0 <= i < s.len() && (#[trigger] s[i]).name == name && type_kinds().contains(s[i].kind);
            if i < t.len() {
                assert(t[i] == s[i]);
            } else {
                lemma_type_kinds(s[i].kind);
            }
        }
        if s.last().name == name && is_type_kind(s.last().kind) {
            assert(s[s.len() - 1] == s.last());
        }
    }
}

/// A type that the registry's rows name is never reported missing: when the
/// symbols read hold one named `wanted` whose kind is struct, enum, trait,
/// type alias, re-export, class or interface, the advice on depending on
/// `wanted` is not "safe to create"; when they hold none, it is.
pub proof fn lemma_dependency_finds_types(
    wanted: Seq<char>,
    s: Seq<ExistingSymbolView>,
    traits: Seq<Seq<char>>,
    reexport: Option<Seq<char>>,
)
    ensures
        holds_type_named(s, wanted) ==> !(dependency_spec(wanted, types_named(s, wanted), traits, reexport) is SafeToCreate),
        !holds_type_named(s, wanted) ==> dependency_spec(wanted, types_named(s, wanted), traits, reexport) == (
        AdvisoryView::SafeToCreate { symbol: wanted, target: "unknown"@ }),
{
    lemma_types_named_empty(s, wanted);
}

/// The plain content of an optional pair of strings.
pub open spec fn opt_pair_view(o: Option<(String, String)>) -> Option<(Seq<char>, Seq<char>)> {
    match o {
        Some(p) => Some(pair_view(p)),
        None => None,
    }
}

/// The plain content of an optional list of advisories.
pub open spec fn opt_advisories_view(o: Option<Vec<Advisory>>) -> Option<Seq<AdvisoryView>> {
    match o {
        Some(v) => Some(crate::advisory::advisories_view(v)),
        None => None,
    }
}

/// Whether a rule forbids a symbol (see `rule_forbids`).
pub fn rule_forbids_symbol(sym: &str, r: &BoundaryRule) -> (out: Option<bool>)
    ensures
        out == rule_forbids(sym@, *r),
{
    if !str_eq(r.kind.as_str(), "must_not") {
        return Some(false);
    }
    if r.pattern.is_none() && r.regex.is_none() {
        return crate::matching::rule_match(sym, r.description.as_str());
    }
    let pm = match &r.pattern {
        Some(p) => crate::matching::glob_matches(sym, p.as_str()),
        None => false,
    };
    let rm = match &r.regex {
        Some(x) => crate::matching::regex_matches(sym, x.as_str()),
        None => false,
    };
    Some(pm || rm)
}

/// A copy of a pair of strings.
fn copy_pair(p: &(String, String)) -> (r: (String, String))
    ensures
        pair_view(r) == pair_view(*p),
{
    (p.0.clone(), p.1.clone())
}

/// The crate to suggest for a forbidden symbol (see `best_alt_from`).
pub fn best_alternative(sym: &str, owners: &Vec<(String, String)>, alts: &Vec<(String, String)>) -> (r: Option<(String, String)>)
    ensures
        opt_pair_view(r) == best_alt_from(sym@, owners@, alts@, 0),
{
    let mut i: usize = 0;
    while i < owners.len()
        invariant
            i <= owners.len(),
            best_alt_from(sym@, owners@, alts@, 0) == best_alt_from(sym@, owners@, alts@, i as int),
        decreases owners.len() - i,
    {
        match crate::matching::rule_match(sym, owners[i].1.as_str()) {
            None => {
                return None;
            },
            Some(true) => {
                let mut j: usize = 0;
                while j < alts.len()
                    invariant
                        j <= alts.len(),
                        i < owners.len(),
                        crate::matching::rule_outcome(sym@, owners@[i as int].1@) == Some(true),
                        best_alt_from(sym@, owners@, alts@, 0) == best_alt_from(sym@, owners@, alts@, i as int),
                        alt_named(alts@, owners@[i as int].0@, 0) == alt_named(alts@, owners@[i as int].0@, j as int),
                    decreases alts.len() - j,
                {
                    if str_eq(alts[j].0.as_str(), owners[i].0.as_str()) {
                        return Some(copy_pair(&alts[j]));
                    }
                    j = j + 1;
                }
            },
            Some(false) => {},
        }
        i = i + 1;
    }
    if alts.len() > 0 {
        Some(copy_pair(&alts[0]))
    } else {
        Some((owned("other"), owned("crates/other/src/lib.rs")))
    }
}

/// The advisory for a symbol that a rule forbids (see `violation`).
fn violation_advisory(sym: &str, r: &BoundaryRule, alt: &(String, String)) -> (a: Advisory)
    ensures
        a@ == violation(sym@, *r, pair_view(*alt)),
{
    let mp = concat(alt.1.as_str(), "/src/lib.rs");
    let mut reason = concat("Crate '", r.crate_name.as_str());
    reason.append("' has a must_not rule: ");
    reason.append(r.description.as_str());
    reason.append(". Consider placing '");
    reason.append(sym);
    reason.append("' in crate '");
    reason.append(alt.0.as_str());
    reason.append("'.");
    Advisory::BoundaryViolation {
        rule: r.description.clone(),
        crate_name: r.crate_name.clone(),
        suggestion: crate::advisory::ModuleSuggestion { mod_path: mp, crate_name: alt.0.clone(), reason },
    }
}

/// Once the violations of a prefix of the rules cannot be decided, neither can
/// those of all the rules.
proof fn lemma_violations_none(
    sym: Seq<char>,
    rules: Seq<BoundaryRule>,
    owners: Seq<(String, String)>,
    alts: Seq<(String, String)>,
    k: int,
)
    requires
        0 <= k <= rules.len(),
        violations(sym, rules.take(k), owners, alts) is None,
    ensures
        violations(sym, rules, owners, alts) is None,
    decreases rules.len() - k,
{
    if k < rules.len() {
        assert(rules.take(k + 1).drop_last() == rules.take(k));
        lemma_violations_none(sym, rules, owners, alts, k + 1);
    } else {
        assert(rules.take(k) == rules);
    }
}

/// The advice on placing `sym` in crate `target` given the crate's rules, the
/// `must_own` rules of all crates and the other crates (see `boundary_spec`);
/// `None` where a description match cannot be decided.
pub fn boundary_advice(
    sym: &str,
    target: &str,
    rules: &Vec<BoundaryRule>,
    owners: &Vec<(String, String)>,
    alts: &Vec<(String, String)>,
) -> (r: Option<Vec<Advisory>>)
    ensures
        opt_advisories_view(r) == boundary_spec(sym@, target@, rules@, owners@, alts@),
{
    let mut out: Vec<Advisory> = Vec::new();
    let mut i: usize = 0;
    while i < rules.len()
        invariant
            i <= rules.len(),
            violations(sym@, rules@.take(i as int), owners@, alts@) == Some(crate::advisory::advisories_view(out)),
        decreases rules.len() - i,
    {
        assert(rules@.take(i + 1).drop_last() == rules@.take(i as int));
        assert(rules@.take(i + 1).last() == rules@[i as int]);
        match rule_forbids_symbol(sym, &rules[i]) {
            None => {
                proof {
                    lemma_violations_none(sym@, rules@, owners@, alts@, i + 1);
                }
                return None;
            },
            Some(false) => {},
            Some(true) => {
                match best_alternative(sym, owners, alts) {
                    None => {
                        proof {
                            lemma_violations_none(sym@, rules@, owners@, alts@, i + 1);
                        }
                        return None;
                    },
                    Some(alt) => {
                        let a = violation_advisory(sym, &rules[i], &alt);
                        out.push(a);
                        assert(crate::advisory::advisories_view(out) == violations(sym@, rules@.take(i as int), owners@, alts@)->0.push(a@));
                    },
                }
            },
        }
        i = i + 1;
    }
    assert(rules@.take(rules.len() as int) == rules@);
    if out.len() == 0 {
        let mut v: Vec<Advisory> = Vec::new();
        v.push(Advisory::SafeToCreate { symbol: owned(sym), target: owned(target) });
        assert(crate::advisory::advisories_view(v) == seq![AdvisoryView::SafeToCreate { symbol: sym@, target: target@ }]);
        Some(v)
    } else {
        Some(out)
    }
}

/// Reads a rule from a row `(id, crate, description, kind, pattern, regex)`.
fn boundary_rule_of_row(row: &Vec<SqlValue>) -> (r: Option<BoundaryRule>)
    ensures
        match r {
            Some(b) => row.len() >= 6 && row@[0] is Integer && cell_text(row@[1]) == Some(b.crate_name@)
                && cell_text(row@[2]) == Some(b.description@) && cell_text(row@[3]) == Some(b.kind@)
                && opt_cell(row@[4]) == Some(opt_view(b.pattern)) && opt_cell(row@[5]) == Some(opt_view(b.regex)),
            None => row.len() < 6 || !(row@[0] is Integer) || cell_text(row@[1]) is None || cell_text(row@[2]) is None
                || cell_text(row@[3]) is None || opt_cell(row@[4]) is None || opt_cell(row@[5]) is None,
        },
{
    if row.len() < 6 {
        return None;
    }
    let _id = crate::db::read_i64(&row[0])?;
    let crate_name = read_text(&row[1])?;
    let description = read_text(&row[2])?;
    let kind = read_text(&row[3])?;
    let pattern = read_opt_text(&row[4])?;
    let regex = read_opt_text(&row[5])?;
    Some(BoundaryRule { crate_name, description, kind, pattern, regex })
}

/// The pairs of texts in the first two cells of rows, in order; rows that
/// hold no such pair are left out.
pub open spec fn pairs_of_rows(rows: Seq<Vec<SqlValue>>) -> Seq<(Seq<char>, Seq<char>)>
    decreases rows.len(),
{
    if rows.len() == 0 {
        Seq::empty()
    } else if rows.last().len() >= 2 && cell_text(rows.last()@[0]) is Some && cell_text(rows.last()@[1]) is Some {
        pairs_of_rows(rows.drop_last()).push((cell_text(rows.last()@[0])->0, cell_text(rows.last()@[1])->0))
    } else {
        pairs_of_rows(rows.drop_last())
    }
}

/// The plain content of pairs of strings.
pub open spec fn pairs_view(v: Seq<(String, String)>) -> Seq<(Seq<char>, Seq<char>)> {
    v.map_values(|p: (String, String)| pair_view(p))
}

/// Reads the pairs of texts of rows (see `pairs_of_rows`).
pub fn pairs_from_rows(rows: &Vec<Vec<SqlValue>>) -> (r: Vec<(String, String)>)
    ensures
        pairs_view(r@) == pairs_of_rows(rows@),
{
    let mut out: Vec<(String, String)> = Vec::new();
    let mut i: usize = 0;
    while i < rows.len()
        invariant
            i <= rows.len(),
            pairs_view(out@) == pairs_of_rows(rows@.take(i as int)),
        decreases rows.len() - i,
    {
        assert(rows@.take(i + 1).drop_last() == rows@.take(i as int));
        assert(rows@.take(i + 1).last() == rows@[i as int]);
        if rows[i].len() >= 2 {
            match (read_text(&rows[i][0]), read_text(&rows[i][1])) {
                (Some(a), Some(b)) => {
                    out.push((a, b));
                    assert(pairs_view(out@) == pairs_of_rows(rows@.take(i as int)).push((a@, b@)));
                },
                _ => {},
            }
        }
        i = i + 1;
    }
    assert(rows@.take(rows.len() as int) == rows@);
    out
}

/// The pairs that a query reads, none when it fails.
fn query_pairs(conn: &Connection, sql: &str, params: &Vec<SqlParam>) -> (r: Vec<(String, String)>)
    ensures
        exists|rows: Seq<Vec<SqlValue>>| pairs_view(r@) == pairs_of_rows(rows),
{
    match query_rows(conn, sql, params) {
        Ok((_, rows)) => pairs_from_rows(&rows),
        Err(_) => {
            let v: Vec<(String, String)> = Vec::new();
            let ghost none: Seq<Vec<SqlValue>> = Seq::empty();
            assert(pairs_view(v@) == pairs_of_rows(none));
            v
        },
    }
}

/// Whether the rules are all rules of one crate (what the boundary check
/// reads of the registry for that crate).
pub open spec fn rules_of_crate(rules: Seq<BoundaryRule>, krate: Seq<char>) -> bool {
    forall|k: int| 0 <= k < rules.len() ==> (#[trigger] rules[k]).crate_name@ == krate
}

/// Whether the alternative crates are all other than one crate.
pub open spec fn alts_besides(alts: Seq<(String, String)>, krate: Seq<char>) -> bool {
    forall|k: int| 0 <= k < alts.len() ==> (#[trigger] alts[k]).0@ != krate
}

/// Validates whether placing a symbol in a target crate violates the crate's
/// ownership rules (`must_not` rules matched by glob pattern, regular
/// expression or, lacking both, by the concerns their descriptions name).
///
/// A rule description whose four-byte stem cut falls inside a character
/// cannot be matched; the query then fails.
pub fn validate_boundary(conn: &Connection, symbol_name: &str, target_crate: &str) -> (r: Result<Vec<Advisory>, String>)
    ensures
        r matches Ok(v) ==> exists|rules: Seq<BoundaryRule>, owners: Seq<(String, String)>, alts: Seq<(String, String)>|
            boundary_spec(symbol_name@, target_crate@, rules, owners, alts) == Some(crate::advisory::advisories_view(v))
                && rules_of_crate(rules, target_crate@) && alts_besides(alts, target_crate@),
        r matches Err(m) ==> starts_with(m@, "Failed to query ownership rules"@ + ": "@) || m@
            == "Failed to match the symbol against an ownership rule"@,
{
    let mut p: Vec<SqlParam> = Vec::new();
    p.push(text_param(target_crate));
    let (_, rows) = match query_rows(
        conn,
        "SELECT id, crate_name, description, kind, pattern, regex FROM ownership_rules WHERE crate_name = ?1",
        &p,
    ) {
        Ok(x) => x,
        Err(e) => {
            return Err(query_error("Failed to query ownership rules", e));
        },
    };
    let mut rules: Vec<BoundaryRule> = Vec::new();
    let mut i: usize = 0;
    while i < rows.len()
        invariant
            i <= rows.len(),
            rules_of_crate(rules@, target_crate@),
        decreases rows.len() - i,
    {
        if let Some(b) = boundary_rule_of_row(&rows[i]) {
            if str_eq(b.crate_name.as_str(), target_crate) {
                rules.push(b);
            }
        }
        i = i + 1;
    }
    let found_alts = query_pairs(conn, "SELECT name, path FROM crates WHERE name != ?1", &p);
    let mut alts: Vec<(String, String)> = Vec::new();
    let mut j: usize = 0;
    while j < found_alts.len()
        invariant
            j <= found_alts.len(),
            alts_besides(alts@, target_crate@),
        decreases found_alts.len() - j,
    {
        if !str_eq(found_alts[j].0.as_str(), target_crate) {
            alts.push((found_alts[j].0.clone(), found_alts[j].1.clone()));
        }
        j = j + 1;
    }
    let owners = query_pairs(
        conn,
        "SELECT crate_name, description FROM ownership_rules WHERE kind = 'must_own'",
        &Vec::new(),
    );
    match boundary_advice(symbol_name, target_crate, &rules, &owners, &alts) {
        Some(v) => Ok(v),
        None => Err(owned("Failed to match the symbol against an ownership rule")),
    }
}

// ---------------------------------------------------------------- work in progress

/// A planned or in-progress symbol: its name, who registered it, and when it
/// was last updated.
#[derive(Debug, Clone)]
pub struct WipRow {
    pub name: String,
    pub created_by: Option<String>,
    pub updated_at: Option<String>,
}

/// The first agent named among the rows.
pub open spec fn first_agent(rows: Seq<WipRow>) -> Option<Seq<char>>
    decreases rows.len(),
{
    if rows.len() == 0 {
        None
    } else {
        match rows[0].created_by {
            Some(a) => Some(a@),
            None => first_agent(rows.drop_first()),
        }
    }
}

/// Whether `a` orders before `b`, character by character (the order of
/// `String`, which is that of their UTF-8 bytes).
pub open spec fn lex_less(a: Seq<char>, b: Seq<char>) -> bool
    decreases a.len(),
{
    if b.len() == 0 {
        false
    } else if a.len() == 0 {
        true
    } else if a[0] != b[0] {
        (a[0] as u32) < (b[0] as u32)
    } else {
        lex_less(a.drop_first(), b.drop_first())
    }
}

/// The greatest of the texts (`Iterator::max`), none for no texts.
pub open spec fn max_text(s: Seq<Seq<char>>) -> Option<Seq<char>>
    decreases s.len(),
{
    if s.len() == 0 {
        None
    } else {
        match max_text(s.drop_last()) {
            None => Some(s.last()),
            Some(m) => if lex_less(s.last(), m) {
                Some(m)
            } else {
                Some(s.last())
            },
        }
    }
}

/// The update times that the rows carry, in order.
pub open spec fn update_times(rows: Seq<WipRow>) -> Seq<Seq<char>>
    decreases rows.len(),
{
    if rows.len() == 0 {
        Seq::empty()
    } else {
        match rows.last().updated_at {
            Some(u) => update_times(rows.drop_last()).push(u@),
            None => update_times(rows.drop_last()),
        }
    }
}

/// The names of the rows, in order.
pub open spec fn wip_names(rows: Seq<WipRow>) -> Seq<Seq<char>> {
    rows.map_values(|w: WipRow| w.name@)
}

/// The advice on work in progress at time `now`: nothing when there is none;
/// else one conflict naming the first agent found (`unknown` when none is),
/// all the symbols, and how long ago the latest update was.
pub open spec fn wip_spec(rows: Seq<WipRow>, now: u64) -> Seq<AdvisoryView> {
    if rows.len() == 0 {
        Seq::empty()
    } else {
        seq![
            AdvisoryView::WipConflict {
                agent: match first_agent(rows) {
                    Some(a) => a,
                    None => "unknown"@,
                },
                branch: None,
                symbols: wip_names(rows),
                last_activity: match max_text(update_times(rows)) {
                    Some(t) => Some(crate::time::relative_text(t, now)),
                    None => None,
                },
            },
        ]
    }
}

/// Whether `a` orders before `b` (see `lex_less`).
pub fn text_less(a: &str, b: &str) -> (r: bool)
    ensures
        r == lex_less(a@, b@),
{
    let x = crate::text::chars_of(a);
    let y = crate::text::chars_of(b);
    let mut i: usize = 0;
    assert(x@.skip(0) == x@);
    assert(y@.skip(0) == y@);
    while i < x.len() && i < y.len()
        invariant
            i <= x.len(),
            i <= y.len(),
            x@ == a@,
            y@ == b@,
            x@.take(i as int) == y@.take(i as int),
            lex_less(a@, b@) == lex_less(x@.skip(i as int), y@.skip(i as int)),
        decreases x.len() - i,
    {
        assert(x@.skip(i as int)[0] == x@[i as int]);
        assert(y@.skip(i as int)[0] == y@[i as int]);
        assert(x@.skip(i as int).drop_first() == x@.skip(i + 1));
        assert(y@.skip(i as int).drop_first() == y@.skip(i + 1));
        if x[i] != y[i] {
            return (x[i] as u32) < (y[i] as u32);
        }
        assert(x@.take(i + 1) == x@.take(i as int).push(x@[i as int]));
        assert(y@.take(i + 1) == y@.take(i as int).push(y@[i as int]));
        i = i + 1;
    }
    i < y.len()
}

/// The advice on work in progress at time `now` (see `wip_spec`).
pub fn wip_advice(rows: &Vec<WipRow>, now: u64) -> (r: Vec<Advisory>)
    ensures
        crate::advisory::advisories_view(r) == wip_spec(rows@, now),
{
    let mut out: Vec<Advisory> = Vec::new();
    if rows.len() == 0 {
        assert(crate::advisory::advisories_view(out) =~= wip_spec(rows@, now));
        return out;
    }
    let mut symbols: Vec<String> = Vec::new();
    let mut agent: Option<String> = None;
    let mut latest: Option<String> = None;
    let mut i: usize = 0;
    assert(rows@.skip(0) == rows@);
    while i < rows.len()
        invariant
            i <= rows.len(),
            crate::advisory::strings_view(symbols) == wip_names(rows@.take(i as int)),
            match agent {
                Some(a) => first_agent(rows@) == Some(a@),
                None => first_agent(rows@) == first_agent(rows@.skip(i as int)),
            },
            opt_view(latest) == max_text(update_times(rows@.take(i as int))),
        decreases rows.len() - i,
    {
        assert(rows@.take(i + 1).drop_last() == rows@.take(i as int));
        assert(rows@.take(i + 1).last() == rows@[i as int]);
        assert(wip_names(rows@.take(i + 1)) == wip_names(rows@.take(i as int)).push(rows@[i as int].name@));
        assert(rows@.skip(i as int)[0] == rows@[i as int]);
        assert(rows@.skip(i as int).drop_first() == rows@.skip(i + 1));
        symbols.push(rows[i].name.clone());
        if agent.is_none() {
            match &rows[i].created_by {
                Some(a) => {
                    agent = Some(a.clone());
                },
                None => {},
            }
        }
        match &rows[i].updated_at {
            Some(u) => {
                assert(update_times(rows@.take(i + 1)) == update_times(rows@.take(i as int)).push(u@));
                assert(update_times(rows@.take(i + 1)).drop_last() =~= update_times(rows@.take(i as int)));
                let keep = match &latest {
                    Some(m) => text_less(u.as_str(), m.as_str()),
                    None => false,
                };
                if !keep {
                    let c = u.clone();
                    assert(c@ == u@);
                    latest = Some(c);
                }
                assert(opt_view(latest) == max_text(update_times(rows@.take(i + 1))));
            },
            None => {
                assert(update_times(rows@.take(i + 1)) == update_times(rows@.take(i as int)));
            },
        }
        i = i + 1;
    }
    assert(rows@.take(rows.len() as int) == rows@);
    let agent_text = match agent {
        Some(a) => a,
        None => {
            assert(rows@.skip(rows.len() as int).len() == 0);
            owned("unknown")
        },
    };
    let now_text = match latest {
        Some(t) => Some(crate::time::relative_time_at(t.as_str(), now)),
        None => None,
    };
    out.push(Advisory::WipConflict { agent: agent_text, branch: None, symbols, last_activity: now_text });
    assert(crate::advisory::advisories_view(out) =~= wip_spec(rows@, now));
    out
}

/// Reads a work-in-progress row `(name, created_by, updated_at)`.
fn wip_row_of(row: &Vec<SqlValue>) -> (r: Option<WipRow>)
    ensures
        match r {
            Some(w) => row.len() >= 3 && cell_text(row@[0]) == Some(w.name@)
                && opt_cell(row@[1]) == Some(opt_view(w.created_by)) && opt_cell(row@[2]) == Some(opt_view(w.updated_at)),
            None => row.len() < 3 || cell_text(row@[0]) is None || opt_cell(row@[1]) is None || opt_cell(row@[2]) is None,
        },
{
    if row.len() < 3 {
        return None;
    }
    let name = read_text(&row[0])?;
    let created_by = read_opt_text(&row[1])?;
    let updated_at = read_opt_text(&row[2])?;
    Some(WipRow { name, created_by, updated_at })
}

/// Whether two characters are equal, ASCII letters regardless of case (as
/// SQLite's `LIKE` compares them).
pub open spec fn same_ignoring_ascii_case(a: char, b: char) -> bool {
    let x = a as u32;
    let y = b as u32;
    ||| x == y
    ||| 65 <= x <= 90 && y == x + 32
    ||| 65 <= y <= 90 && x == y + 32
}

/// Whether the pattern `p` of a `LIKE '%p%'` fits `s` at index `i`: each `_`
/// of `p` stands for any character, the others match regardless of ASCII case.
pub open spec fn like_at(s: Seq<char>, p: Seq<char>, i: int) -> bool {
    &&& 0 <= i
    &&& i + p.len() <= s.len()
    &&& forall|j: int| 0 <= j < p.len() ==> (#[trigger] p[j] == '_' || same_ignoring_ascii_case(s[i + j], p[j]))
}

/// What `s LIKE '%p%'` requires of `s`: that `p` fit it somewhere (see
/// `like_at`); a pattern holding `%` is not looked into.
pub open spec fn like_occurs(s: Seq<char>, p: Seq<char>) -> bool {
    p.contains('%') || exists|i: int| like_at(s, p, i)
}

/// Whether two characters are equal regardless of ASCII case.
fn same_ignoring_case_char(a: char, b: char) -> (r: bool)
    ensures
        r == same_ignoring_ascii_case(a, b),
{
    let x = a as u32;
    let y = b as u32;
    x == y || (65 <= x && x <= 90 && y == x + 32) || (65 <= y && y <= 90 && x == y + 32)
}

/// Whether `p` fits `s` at index `i` (see `like_at`).
fn like_fits_at(s: &[char], p: &[char], i: usize) -> (r: bool)
    ensures
        r == like_at(s@, p@, i as int),
{
    if i > s.len() || p.len() > s.len() - i {
        return false;
    }
    let mut j: usize = 0;
    while j < p.len()
        invariant
            j <= p.len(),
            i + p.len() <= s.len(),
            forall|k: int| 0 <= k < j ==> (#[trigger] p@[k] == '_' || same_ignoring_ascii_case(s@[i + k], p@[k])),
        decreases p.len() - j,
    {
        if !(p[j] == '_' || same_ignoring_case_char(s[i + j], p[j])) {
            assert(!(p@[j as int] == '_' || same_ignoring_ascii_case(s@[i + j], p@[j as int])));
            return false;
        }
        j = j + 1;
    }
    true
}

/// Whether `s` meets what `s LIKE '%p%'` requires (see `like_occurs`).
pub fn like_occurs_text(s: &str, p: &str) -> (r: bool)
    ensures
        r == like_occurs(s@, p@),
{
    let cs = crate::text::chars_of(s);
    let ps = crate::text::chars_of(p);
    let mut k: usize = 0;
    while k < ps.len()
        invariant
            k <= ps.len(),
            ps@ == p@,
            forall|j: int| 0 <= j < k ==> ps@[j] != '%',
        decreases ps.len() - k,
    {
        if ps[k] == '%' {
            assert(p@.contains('%')) by {
                assert(p@[k as int] == '%');
            }
            return true;
        }
        k = k + 1;
    }
    assert(!p@.contains('%'));
    let mut i: usize = 0;
    while i < cs.len()
        invariant
            i <= cs.len(),
            cs@ == s@,
            ps@ == p@,
            forall|j: int| 0 <= j < i ==> !like_at(s@, p@, j),
        decreases cs.len() - i,
    {
        if like_fits_at(cs.as_slice(), ps.as_slice(), i) {
            return true;
        }
        i = i + 1;
    }
    if like_fits_at(cs.as_slice(), ps.as_slice(), i) {
        return true;
    }
    assert forall|j: int| !like_at(s@, p@, j) by {
        if j > i {
            assert(!(j + p@.len() <= s@.len()));
        }
    }
    false
}

/// Whether advice is what the work-in-progress check answers for `path`: the
/// advice on some planned or in-progress symbols, each in a module whose path
/// meets `LIKE '%path%'`.
pub open spec fn wip_answer(path: Seq<char>, v: Seq<AdvisoryView>) -> bool {
    exists|rows: Seq<WipRow>, paths: Seq<Seq<char>>, now: u64|
        rows.len() == paths.len() && (forall|k: int| 0 <= k < paths.len() ==> like_occurs(#[trigger] paths[k], path))
            && v == wip_spec(rows, now)
}

/// Checks for planned or in-progress symbols in modules whose path contains
/// `mod_path`; answers with at most one conflict.
pub fn check_wip(conn: &Connection, mod_path: &str) -> (r: Result<Vec<Advisory>, String>)
    ensures
        r matches Ok(v) ==> exists|rows: Seq<WipRow>, now: u64| crate::advisory::advisories_view(v) == wip_spec(rows, now),
        r matches Ok(v) ==> wip_answer(mod_path@, crate::advisory::advisories_view(v)),
        r matches Err(m) ==> starts_with(m@, "Failed to query WIP symbols"@ + ": "@),
{
    let mut p: Vec<SqlParam> = Vec::new();
    let like = like_pattern(mod_path);
    p.push(text_param(like.as_str()));
    let (_, rows) = match query_rows(
        conn,
        "SELECT s.name, s.created_by, s.updated_at, m.path FROM symbols s
         JOIN modules m ON s.module_id = m.id
         WHERE m.path LIKE ?1 AND s.status IN ('planned', 'wip')",
        &p,
    ) {
        Ok(x) => x,
        Err(e) => {
            return Err(query_error("Failed to query WIP symbols", e));
        },
    };
    let mut wip: Vec<WipRow> = Vec::new();
    let ghost mut paths: Seq<Seq<char>> = Seq::empty();
    let mut i: usize = 0;
    while i < rows.len()
        invariant
            i <= rows.len(),
            wip.len() == paths.len(),
            forall|k: int| 0 <= k < paths.len() ==> like_occurs(#[trigger] paths[k], mod_path@),
        decreases rows.len() - i,
    {
        if let Some(w) = wip_row_of(&rows[i]) {
            if rows[i].len() >= 4 {
                if let Some(path) = read_text(&rows[i][3]) {
                    if like_occurs_text(path.as_str(), mod_path) {
                        wip.push(w);
                        proof {
                            let old_paths = paths;
                            paths = paths.push(path@);
                            assert forall|k: int| 0 <= k < paths.len() implies like_occurs(#[trigger] paths[k], mod_path@) by {
                                if k < old_paths.len() {
                                    assert(paths[k] == old_paths[k]);
                                }
                            }
                        }
                    }
                }
            }
        }
        i = i + 1;
    }
    let now = crate::time::unix_now_secs();
    let out = wip_advice(&wip, now);
    assert(wip_answer(mod_path@, crate::advisory::advisories_view(out)));
    Ok(out)
}

// ---------------------------------------------------------------- reuse

/// The words of a description that take more than two bytes, in order.
pub open spec fn long_words(ws: Seq<Seq<char>>) -> Seq<Seq<char>>
    decreases ws.len(),
{
    if ws.len() == 0 {
        Seq::empty()
    } else if crate::unicode::byte_len(ws.last()) > 2 {
        long_words(ws.drop_last()).push(ws.last())
    } else {
        long_words(ws.drop_last())
    }
}

/// The keywords searched for a capability description: its
/// whitespace-separated words of more than two bytes.
pub open spec fn reuse_keywords(d: Seq<char>) -> Seq<Seq<char>> {
    long_words(crate::seed::words(d))
}

/// Whether `w` takes more than two bytes in UTF-8.
fn more_than_two_bytes(w: &[char]) -> (r: bool)
    ensures
        r == (crate::unicode::byte_len(w@) > 2),
{
    let mut n: usize = 0;
    let mut i: usize = 0;
    while i < w.len()
        invariant
            i <= w.len(),
            n == crate::unicode::byte_len(w@.take(i as int)),
            n <= 2,
        decreases w.len() - i,
    {
        assert(w@.take(i + 1).drop_last() == w@.take(i as int));
        n = n + crate::unicode::char_len_utf8(w[i]);
        i = i + 1;
        if n > 2 {
            proof {
                crate::unicode::lemma_byte_len_prefix(w@, i as int);
            }
            return true;
        }
    }
    assert(w@.take(w.len() as int) == w@);
    false
}

/// The keywords of a capability description (see `reuse_keywords`).
pub fn keywords_of(description: &str) -> (r: Vec<String>)
    ensures
        crate::advisory::strings_view(r) == reuse_keywords(description@),
{
    let cs = crate::text::chars_of(description);
    let ws = crate::seed::words_of(cs.as_slice());
    let ghost wv = ws@.map_values(|v: Vec<char>| v@);
    let mut out: Vec<String> = Vec::new();
    let mut i: usize = 0;
    while i < ws.len()
        invariant
            i <= ws.len(),
            wv == ws@.map_values(|v: Vec<char>| v@),
            wv == crate::seed::words(description@),
            crate::advisory::strings_view(out) == long_words(wv.take(i as int)),
        decreases ws.len() - i,
    {
        assert(wv.take(i + 1).drop_last() == wv.take(i as int));
        assert(wv.take(i + 1).last() == ws@[i as int]@);
        if more_than_two_bytes(ws[i].as_slice()) {
            let w = string_of(ws[i].as_slice());
            out.push(w);
            assert(crate::advisory::strings_view(out) == long_words(wv.take(i as int)).push(w@));
        }
        i = i + 1;
    }
    assert(wv.take(ws.len() as int) == wv);
    out
}

/// Whether two symbols stand under the same name in the same module.
pub open spec fn same_place(a: ExistingSymbolView, b: ExistingSymbolView) -> bool {
    a.name == b.name && a.mod_path == b.mod_path
}

/// Whether some symbol of `acc` stands where `e` does.
pub open spec fn has_place(acc: Seq<ExistingSymbolView>, e: ExistingSymbolView) -> bool {
    exists|k: int| 0 <= k < acc.len() && same_place(#[trigger] acc[k], e)
}

/// `acc` extended by the symbols of `new` that stand where none before them does.
pub open spec fn merge_new(acc: Seq<ExistingSymbolView>, new: Seq<ExistingSymbolView>) -> Seq<ExistingSymbolView>
    decreases new.len(),
{
    if new.len() == 0 {
        acc
    } else {
        let m = merge_new(acc, new.drop_last());
        if has_place(m, new.last()) {
            m
        } else {
            m.push(new.last())
        }
    }
}

/// Whether no two symbols of a list stand in the same place.
pub open spec fn places_unique(s: Seq<ExistingSymbolView>) -> bool {
    forall|i: int, j: int| 0 <= i < j < s.len() ==> !same_place(#[trigger] s[i], #[trigger] s[j])
}

/// Merging never repeats a place: the candidates that a reuse search collects
/// stand in pairwise different places.
pub proof fn lemma_merge_keeps_places_unique(acc: Seq<ExistingSymbolView>, new: Seq<ExistingSymbolView>)
    requires
        places_unique(acc),
    ensures
        places_unique(merge_new(acc, new)),
    decreases new.len(),
{
    if new.len() > 0 {
        lemma_merge_keeps_places_unique(acc, new.drop_last());
        let m = merge_new(acc, new.drop_last());
        if !has_place(m, new.last()) {
            let n = m.push(new.last());
            assert forall|i: int, j: int| 0 <= i < j < n.len() implies !same_place(#[trigger] n[i], #[trigger] n[j]) by {
                if j == n.len() - 1 {
                    if same_place(n[i], n[j]) {
                        assert(same_place(m[i], new.last()));
                        assert(has_place(m, new.last()));
                    }
                } else {
                    assert(n[i] == m[i] && n[j] == m[j]);
                }
            }
        }
    }
}

/// Appends to `acc` the symbols of `new` that stand where none before them does.
pub fn merge_symbols(acc: &mut Vec<ExistingSymbol>, new: Vec<ExistingSymbol>)
    ensures
        symbols_view(*final(acc)) == merge_new(symbols_view(*old(acc)), symbols_view(new)),
{
    let ghost start = symbols_view(*acc);
    let ghost nv = symbols_view(new);
    let mut i: usize = 0;
    while i < new.len()
        invariant
            i <= new.len(),
            nv == symbols_view(new),
            symbols_view(*acc) == merge_new(start, nv.take(i as int)),
        decreases new.len() - i,
    {
        assert(nv.take(i + 1).drop_last() == nv.take(i as int));
        assert(nv.take(i + 1).last() == new@[i as int]@);
        let ghost m = symbols_view(*acc);
        let mut found = false;
        let mut k: usize = 0;
        while k < acc.len()
            invariant
                k <= acc.len(),
                m == symbols_view(*acc),
                i < new.len(),
                found == exists|q: int| 0 <= q < k && same_place(#[trigger] m[q], new@[i as int]@),
            decreases acc.len() - k,
        {
            if str_eq(acc[k].name.as_str(), new[i].name.as_str()) && str_eq(acc[k].mod_path.as_str(), new[i].mod_path.as_str()) {
                found = true;
            }
            assert(m[k as int] == acc@[k as int]@);
            k = k + 1;
        }
        if !found {
            acc.push(new[i].copy());
            assert(symbols_view(*acc) == m.push(new@[i as int]@));
        }
        i = i + 1;
    }
    assert(nv.take(new.len() as int) == nv);
}

/// The symbol that a contract row `(name, kind, module path, crate,
/// signature, visibility)` points to.
pub open spec fn contract_symbol_of_cells(row: Seq<SqlValue>) -> Option<ExistingSymbolView> {
    if row.len() >= 6 && cell_text(row[0]) is Some && cell_text(row[1]) is Some && cell_text(row[2]) is Some
        && cell_text(row[3]) is Some && opt_cell(row[4]) is Some && cell_text(row[5]) is Some {
        Some(
            ExistingSymbolView {
                name: cell_text(row[0])->0,
                kind: cell_text(row[1])->0,
                mod_path: cell_text(row[2])->0,
                crate_name: cell_text(row[3])->0,
                signature: opt_cell(row[4])->0,
                visibility: cell_text(row[5])->0,
                call_sites: None,
                created_by: None,
                line_number: None,
                scope: None,
                location: None,
            },
        )
    } else {
        None
    }
}

/// The symbols that contract rows point to; unreadable rows are left out.
pub open spec fn contract_symbols_of_rows(rows: Seq<Vec<SqlValue>>) -> Seq<ExistingSymbolView>
    decreases rows.len(),
{
    if rows.len() == 0 {
        Seq::empty()
    } else {
        match contract_symbol_of_cells(rows.last()@) {
            Some(e) => contract_symbols_of_rows(rows.drop_last()).push(e),
            None => contract_symbols_of_rows(rows.drop_last()),
        }
    }
}

/// Reads the symbol that a contract row points to.
fn contract_symbol_of_row(row: &Vec<SqlValue>) -> (r: Option<ExistingSymbol>)
    ensures
        opt_symbol_view(r) == contract_symbol_of_cells(row@),
{
    if row.len() < 6 {
        return None;
    }
    let name = read_text(&row[0])?;
    let kind = read_text(&row[1])?;
    let mod_path = read_text(&row[2])?;
    let crate_name = read_text(&row[3])?;
    let signature = read_opt_text(&row[4])?;
    let visibility = read_text(&row[5])?;
    Some(
        ExistingSymbol {
            name,
            kind,
            mod_path,
            crate_name,
            signature,
            visibility,
            call_sites: None,
            created_by: None,
            line_number: None,
            scope: None,
            location: None,
        },
    )
}

/// Reads the symbols that contract rows point to.
pub fn contract_symbols_from_rows(rows: &Vec<Vec<SqlValue>>) -> (r: Vec<ExistingSymbol>)
    ensures
        symbols_view(r) == contract_symbols_of_rows(rows@),
{
    let mut out: Vec<ExistingSymbol> = Vec::new();
    let mut i: usize = 0;
    while i < rows.len()
        invariant
            i <= rows.len(),
            symbols_view(out) == contract_symbols_of_rows(rows@.take(i as int)),
        decreases rows.len() - i,
    {
        assert(rows@.take(i + 1).drop_last() == rows@.take(i as int));
        assert(rows@.take(i + 1).last() == rows@[i as int]);
        match contract_symbol_of_row(&rows[i]) {
            Some(e) => {
                out.push(e);
                assert(symbols_view(out) == contract_symbols_of_rows(rows@.take(i as int)).push(e@));
            },
            None => {},
        }
        i = i + 1;
    }
    assert(rows@.take(rows.len() as int) == rows@);
    out
}

/// The advice from the reusable candidates found: nothing for none; for one
/// trait, the pattern to implement it with its import; for one other symbol,
/// reuse it; for several, ambiguous.
pub open spec fn reuse_spec(all: Seq<ExistingSymbolView>) -> Seq<AdvisoryView> {
    if all.len() == 0 {
        Seq::empty()
    } else if all.len() == 1 {
        let e = all[0];
        if e.kind == "trait"@ {
            seq![
                AdvisoryView::ReuseWithPattern {
                    trait_name: e.name,
                    call_pattern: "impl "@ + e.name + " for YourType"@,
                    example: "See "@ + qualified(e) + " for the trait definition"@,
                    import: "use "@ + e.crate_name + "::"@ + module_name(e.mod_path) + "::"@ + e.name + ";"@,
                },
            ]
        } else {
            seq![
                AdvisoryView::ReuseExisting {
                    existing: e,
                    suggestion: "Consider reusing '"@ + e.name + "' from "@ + qualified(e),
                },
            ]
        }
    } else {
        seq![AdvisoryView::AmbiguousMatch { candidates: all }]
    }
}

/// The advice from the reusable candidates found (see `reuse_spec`).
pub fn reuse_advice(all: Vec<ExistingSymbol>) -> (r: Vec<Advisory>)
    ensures
        crate::advisory::advisories_view(r) == reuse_spec(symbols_view(all)),
{
    let mut out: Vec<Advisory> = Vec::new();
    if all.len() == 0 {
    } else if all.len() == 1 {
        let e = &all[0];
        let ghost ev = symbols_view(all)[0];
        assert(ev == e@);
        if str_eq(e.kind.as_str(), "trait") {
            let call_pattern = {
                let mut c = concat("impl ", e.name.as_str());
                c.append(" for YourType");
                c
            };
            let example = {
                let mut x = concat("See ", e.crate_name.as_str());
                x.append("::");
                x.append(e.mod_path.as_str());
                x.append(" for the trait definition");
                assert(x@ =~= "See "@ + qualified(ev) + " for the trait definition"@);
                x
            };
            let import = {
                let mut u = concat("use ", e.crate_name.as_str());
                u.append("::");
                let m = module_name_of(e.mod_path.as_str());
                u.append(m.as_str());
                u.append("::");
                u.append(e.name.as_str());
                u.append(";");
                assert(u@ =~= "use "@ + ev.crate_name + "::"@ + module_name(ev.mod_path) + "::"@ + ev.name + ";"@);
                u
            };
            out.push(Advisory::ReuseWithPattern { trait_name: e.name.clone(), call_pattern, example, import });
        } else {
            let mut m = concat("Consider reusing '", e.name.as_str());
            m.append("' from ");
            m.append(e.crate_name.as_str());
            m.append("::");
            m.append(e.mod_path.as_str());
            assert(m@ =~= "Consider reusing '"@ + ev.name + "' from "@ + qualified(ev));
            out.push(Advisory::ReuseExisting { existing: e.copy(), suggestion: m });
        }
    } else {
        let ghost av = symbols_view(all);
        out.push(Advisory::AmbiguousMatch { candidates: all });
        assert(crate::advisory::advisories_view(out) =~= reuse_spec(av));
        return out;
    }
    assert(crate::advisory::advisories_view(out) =~= reuse_spec(symbols_view(all)));
    out
}

/// Whether every symbol of a list is public.
pub open spec fn all_public(s: Seq<ExistingSymbolView>) -> bool {
    forall|k: int| 0 <= k < s.len() ==> (#[trigger] s[k]).visibility == "public"@
}

/// Merging public symbols into public symbols keeps them all public.
proof fn lemma_merge_keeps_public(acc: Seq<ExistingSymbolView>, new: Seq<ExistingSymbolView>)
    requires
        all_public(acc),
        all_public(new),
    ensures
        all_public(merge_new(acc, new)),
    decreases new.len(),
{
    if new.len() > 0 {
        let shorter = new.drop_last();
        assert forall|k: int| 0 <= k < shorter.len() implies (#[trigger] shorter[k]).visibility == "public"@ by {
            assert(shorter[k] == new[k]);
        }
        lemma_merge_keeps_public(acc, shorter);
        assert(new.last() == new[new.len() - 1]);
    }
}

/// The public symbols of a list, in order.
pub open spec fn publics(s: Seq<ExistingSymbolView>) -> Seq<ExistingSymbolView>
    decreases s.len(),
{
    if s.len() == 0 {
        Seq::empty()
    } else if s.last().visibility == "public"@ {
        publics(s.drop_last()).push(s.last())
    } else {
        publics(s.drop_last())
    }
}

proof fn lemma_publics_public(s: Seq<ExistingSymbolView>)
    ensures
        all_public(publics(s)),
    decreases s.len(),
{
    if s.len() > 0 {
        lemma_publics_public(s.drop_last());
    }
}

/// The public symbols of a list, in order.
fn public_only(v: Vec<ExistingSymbol>) -> (r: Vec<ExistingSymbol>)
    ensures
        all_public(symbols_view(r)),
        symbols_view(r) == publics(symbols_view(v)),
{
    let ghost vv = symbols_view(v);
    let mut out: Vec<ExistingSymbol> = Vec::new();
    let mut i: usize = 0;
    while i < v.len()
        invariant
            i <= v.len(),
            vv == symbols_view(v),
            symbols_view(out) == publics(vv.take(i as int)),
        decreases v.len() - i,
    {
        assert(vv.take(i + 1).drop_last() == vv.take(i as int));
        assert(vv.take(i + 1).last() == v@[i as int]@);
        proof {
            reveal_strlit("public");
        }
        if str_eq(v[i].visibility.as_str(), "public") {
            let ghost before = symbols_view(out);
            let e = v[i].copy();
            out.push(e);
            assert(symbols_view(out) == before.push(e@));
        }
        assert(symbols_view(out) =~= publics(vv.take(i + 1)));
        i = i + 1;
    }
    assert(vv.take(v.len() as int) == vv);
    proof {
        lemma_publics_public(vv);
    }
    out
}

/// Searches the public symbols for reusable ones matching a capability
/// description: public symbols whose names contain one of its keywords, then
/// public symbols whose contracts mention one; each place is counted once. A
/// description without keywords finds nothing.
pub fn suggest_reuse(conn: &Connection, capability_description: &str) -> (r: Result<Vec<Advisory>, String>)
    ensures
        r matches Ok(v) ==> exists|all: Seq<ExistingSymbolView>|
            places_unique(all) && all_public(all) && crate::advisory::advisories_view(v) == reuse_spec(all),
        reuse_keywords(capability_description@).len() == 0 ==> (r matches Ok(v) && v.len() == 0),
{
    let keywords = keywords_of(capability_description);
    let mut all: Vec<ExistingSymbol> = Vec::new();
    let mut i: usize = 0;
    while i < keywords.len()
        invariant
            i <= keywords.len(),
            places_unique(symbols_view(all)),
            all_public(symbols_view(all)),
            crate::advisory::strings_view(keywords) == reuse_keywords(capability_description@),
            keywords.len() == 0 ==> all.len() == 0,
        decreases keywords.len() - i,
    {
        let found = public_only(find_symbols_fuzzy(conn, keywords[i].as_str())?);
        let ghost before = symbols_view(all);
        merge_symbols(&mut all, found);
        proof {
            lemma_merge_keeps_places_unique(before, symbols_view(found));
            lemma_merge_keeps_public(before, symbols_view(found));
        }
        i = i + 1;
    }
    let mut j: usize = 0;
    while j < keywords.len()
        invariant
            j <= keywords.len(),
            places_unique(symbols_view(all)),
            all_public(symbols_view(all)),
            crate::advisory::strings_view(keywords) == reuse_keywords(capability_description@),
            keywords.len() == 0 ==> all.len() == 0,
        decreases keywords.len() - j,
    {
        let mut p: Vec<SqlParam> = Vec::new();
        let like = like_pattern(keywords[j].as_str());
        p.push(text_param(like.as_str()));
        let rows = match query_rows(
            conn,
            "SELECT s.name, s.kind, m.path, c2.name, s.signature, s.visibility
             FROM contracts ct
             JOIN symbols s ON ct.symbol_id = s.id
             JOIN modules m ON s.module_id = m.id
             JOIN crates c2 ON m.crate_id = c2.id
             WHERE ct.description LIKE ?1 AND s.visibility = 'public'",
            &p,
        ) {
            Ok((_, rows)) => rows,
            Err(e) => {
                return Err(query_error("Failed to query contracts", e));
            },
        };
        let found = public_only(contract_symbols_from_rows(&rows));
        let ghost before = symbols_view(all);
        merge_symbols(&mut all, found);
        proof {
            lemma_merge_keeps_places_unique(before, symbols_view(found));
            lemma_merge_keeps_public(before, symbols_view(found));
        }
        j = j + 1;
    }
    let ghost av = symbols_view(all);
    let out = reuse_advice(all);
    proof {
        if keywords.len() == 0 {
            assert(av.len() == 0);
            assert(crate::advisory::advisories_view(out).len() == 0);
        }
    }
    Ok(out)
}

// ---------------------------------------------------------------- plans

/// The kind that a planned symbol is registered with: the kind named by the
/// action, a function when it names none or no known kind.
pub open spec fn planned_kind(k: Option<Seq<char>>) -> SymbolKind {
    match k {
        Some(t) => match SymbolKind::from_text(t) {
            Some(x) => x,
            None => SymbolKind::Function,
        },
        None => SymbolKind::Function,
    }
}

/// The status that a planned symbol is registered with: planned for a
/// `create`, in progress otherwise.
pub open spec fn planned_status(action: Seq<char>) -> SymbolStatus {
    if action == "create"@ {
        SymbolStatus::Planned
    } else {
        SymbolStatus::Wip
    }
}

/// Whether `s` is the symbol that registering a planned action in module
/// `module_id` by `agent` at time `now` stores: public, with the planned
/// kind and status, no signature, line or scope, made and updated by the
/// agent at that time.
pub open spec fn is_planned_symbol(s: Symbol, action: PlannedAction, module_id: i64, agent: Seq<char>, now: Seq<char>) -> bool {
    &&& s.id is None
    &&& s.module_id == module_id
    &&& s.name@ == action.symbol@
    &&& s.kind == planned_kind(opt_view(action.kind))
    &&& s.visibility == Visibility::Public
    &&& s.signature is None
    &&& s.line_number is None
    &&& s.scope is None
    &&& s.status == planned_status(action.action@)
    &&& opt_view(s.created_by) == Some(agent)
    &&& opt_view(s.created_at) == Some(now)
    &&& opt_view(s.updated_at) == Some(now)
}

/// The symbol that registering a planned action in module `module_id` by
/// `agent` at time `now` stores: public, with the planned kind and status.
pub fn planned_symbol(action: &PlannedAction, module_id: i64, agent: &str, now: &str) -> (r: Symbol)
    ensures
        r.id is None,
        r.module_id == module_id,
        r.name@ == action.symbol@,
        r.kind == planned_kind(opt_view(action.kind)),
        r.visibility == Visibility::Public,
        r.signature is None,
        r.line_number is None,
        r.scope is None,
        r.status == planned_status(action.action@),
        opt_view(r.created_by) == Some(agent@),
        opt_view(r.created_at) == Some(now@),
        opt_view(r.updated_at) == Some(now@),
{
    let kind = match &action.kind {
        Some(k) => match SymbolKind::parse(k.as_str()) {
            Ok(x) => x,
            Err(_) => SymbolKind::Function,
        },
        None => SymbolKind::Function,
    };
    let status = if str_eq(action.action.as_str(), "create") {
        SymbolStatus::Planned
    } else {
        SymbolStatus::Wip
    };
    Symbol {
        id: None,
        module_id,
        name: action.symbol.clone(),
        kind,
        visibility: Visibility::Public,
        signature: None,
        line_number: None,
        scope: None,
        status,
        created_by: Some(owned(agent)),
        created_at: Some(owned(now)),
        updated_at: Some(owned(now)),
    }
}

/// What registering one planned action does, given the module that its
/// target names (`None` when the registry holds no such module): nothing for
/// a missing module, an error for a module without an id, else the planned
/// symbol to store in that module.
pub fn planned_registration(
    action: &PlannedAction,
    found: Option<Module>,
    agent: &str,
    now: &str,
) -> (r: Result<Option<Symbol>, String>)
    ensures
        found is None ==> r matches Ok(None),
        found is Some && found->0.id is None ==> (r matches Err(msg) && msg@ == "Module found but has no ID"@),
        found is Some && found->0.id is Some ==> (r matches Ok(Some(s)) && is_planned_symbol(
            s,
            *action,
            found->0.id->0,
            agent@,
            now@,
        )),
{
    match found {
        None => Ok(None),
        Some(m) => match m.id {
            Some(id) => Ok(Some(planned_symbol(action, id, agent, now))),
            None => Err(owned("Module found but has no ID")),
        },
    }
}

/// How many of the lookups found a module.
pub open spec fn found_count(found: Seq<Option<Module>>) -> nat
    decreases found.len(),
{
    if found.len() == 0 {
        0
    } else {
        found_count(found.drop_last()) + if found.last() is Some {
            1nat
        } else {
            0nat
        }
    }
}

/// Registers the planned actions as planned or in-progress symbols, so that
/// other agents see them through `check_wip`; an action whose target module is
/// not in the registry is skipped. Gives the number registered: for the
/// modules that the lookups of the actions' targets found, one per action
/// whose module was found (each with an id), none for one whose module was not.
pub fn register_plan(conn: &Connection, actions: &[PlannedAction], agent: &str) -> (r: Result<usize, String>)
    ensures
        r matches Ok(n) ==> exists|found: Seq<Option<Module>>|
            found.len() == actions.len() && n == found_count(found) && forall|i: int|
                0 <= i < found.len() && (#[trigger] found[i]) is Some ==> found[i]->0.id is Some,
        actions.len() == 0 ==> r == Ok::<usize, String>(0),
        r matches Err(m) ==> (crate::cli::starts_with_text(m@, "Failed to find module: "@) || m@
            == "Module found but has no ID"@ || crate::cli::starts_with_text(m@, "Failed to register symbol '"@)),
{
    let mut registered: usize = 0;
    let mut i: usize = 0;
    let ghost mut founds: Seq<Option<Module>> = Seq::empty();
    while i < actions.len()
        invariant
            i <= actions.len(),
            registered <= i,
            founds.len() == i,
            registered == found_count(founds),
            forall|j: int| 0 <= j < founds.len() && (#[trigger] founds[j]) is Some ==> founds[j]->0.id is Some,
        decreases actions.len() - i,
    {
        let action = &actions[i];
        let found = match crate::registry::find_module_by_path(conn, action.target.as_str()) {
            Ok(m) => m,
            Err(e) => {
                let t = e.message();
                let m = concat("Failed to find module: ", t.as_str());
                assert(m@.take("Failed to find module: "@.len() as int) =~= "Failed to find module: "@);
                return Err(m);
            },
        };
        let now = crate::time::chrono_now();
        let ghost g = found;
        match planned_registration(action, found, agent, now.as_str()) {
            Err(e) => {
                return Err(e);
            },
            Ok(None) => {
                proof {
                    assert(founds.push(g).drop_last() == founds);
                    founds = founds.push(g);
                }
            },
            Ok(Some(symbol)) => {
                match crate::registry::upsert_symbol(conn, &symbol) {
                    Ok(_) => {},
                    Err(e) => {
                        let mut msg = concat("Failed to register symbol '", action.symbol.as_str());
                        assert(msg@.take("Failed to register symbol '"@.len() as int) =~= "Failed to register symbol '"@);
                        let ghost head = msg@;
                        msg.append("': ");
                        let t = e.message();
                        msg.append(t.as_str());
                        assert(msg@.take("Failed to register symbol '"@.len() as int) =~= head.take("Failed to register symbol '"@.len() as int));
                        return Err(msg);
                    },
                }
                registered = registered + 1;
                proof {
                    assert(founds.push(g).drop_last() == founds);
                    founds = founds.push(g);
                }
            },
        }
        i = i + 1;
    }
    assert(founds.len() == actions.len());
    Ok(registered)
}

/// The variant of an advisory, numbered in declaration order.
pub open spec fn variant(a: AdvisoryView) -> int {
    match a {
        AdvisoryView::SafeToCreate { .. } => 0,
        AdvisoryView::ReuseExisting { .. } => 1,
        AdvisoryView::UseExistingType { .. } => 2,
        AdvisoryView::BoundaryViolation { .. } => 3,
        AdvisoryView::WipConflict { .. } => 4,
        AdvisoryView::AmbiguousMatch { .. } => 5,
        AdvisoryView::ReuseWithPattern { .. } => 6,
    }
}

/// The advisories of one variant, in order.
pub open spec fn only_variant(s: Seq<AdvisoryView>, v: int) -> Seq<AdvisoryView>
    decreases s.len(),
{
    if s.len() == 0 {
        Seq::empty()
    } else if variant(s.last()) == v {
        only_variant(s.drop_last(), v).push(s.last())
    } else {
        only_variant(s.drop_last(), v)
    }
}

/// The advisories of one planned action: the creation advice, the
/// use-existing-type advice of the dependency check, the boundary violations
/// (when the action names a crate) and the work-in-progress conflicts.
pub open spec fn plan_entry_spec(
    creation: Seq<AdvisoryView>,
    dependency: Seq<AdvisoryView>,
    boundary: Option<Seq<AdvisoryView>>,
    wip: Seq<AdvisoryView>,
) -> Seq<AdvisoryView> {
    creation + only_variant(dependency, 2) + match boundary {
        Some(b) => only_variant(b, 3),
        None => Seq::empty(),
    } + wip
}

/// Appends to `out` copies of the advisories of `v` of one variant.
fn push_variant(out: &mut Vec<Advisory>, v: &Vec<Advisory>, which: u8)
    requires
        which == 2 || which == 3,
    ensures
        crate::advisory::advisories_view(*final(out)) == crate::advisory::advisories_view(*old(out)) + only_variant(
            crate::advisory::advisories_view(*v),
            which as int,
        ),
{
    let ghost start = crate::advisory::advisories_view(*out);
    let ghost vv = crate::advisory::advisories_view(*v);
    let mut i: usize = 0;
    while i < v.len()
        invariant
            i <= v.len(),
            which == 2 || which == 3,
            vv == crate::advisory::advisories_view(*v),
            crate::advisory::advisories_view(*out) == start + only_variant(vv.take(i as int), which as int),
        decreases v.len() - i,
    {
        assert(vv.take(i + 1).drop_last() == vv.take(i as int));
        assert(vv.take(i + 1).last() == v@[i as int]@);
        let hit = match &v[i] {
            Advisory::UseExistingType { .. } => which == 2,
            Advisory::BoundaryViolation { .. } => which == 3,
            _ => false,
        };
        if hit {
            let ghost before = crate::advisory::advisories_view(*out);
            out.push(v[i].copy());
            assert(crate::advisory::advisories_view(*out) == before.push(v@[i as int]@));
        }
        i = i + 1;
    }
    assert(vv.take(v.len() as int) == vv);
}

/// Appends all the advisories of `v` to `out`.
fn push_all(out: &mut Vec<Advisory>, v: Vec<Advisory>)
    ensures
        crate::advisory::advisories_view(*final(out)) == crate::advisory::advisories_view(*old(out))
            + crate::advisory::advisories_view(v),
{
    let ghost start = crate::advisory::advisories_view(*out);
    let ghost vv = crate::advisory::advisories_view(v);
    let mut i: usize = 0;
    while i < v.len()
        invariant
            i <= v.len(),
            vv == crate::advisory::advisories_view(v),
            crate::advisory::advisories_view(*out) == start + vv.take(i as int),
        decreases v.len() - i,
    {
        out.push(v[i].copy());
        i = i + 1;
        assert(start + vv.take(i as int) == (start + vv.take(i - 1)).push(vv[i - 1]));
    }
    assert(vv.take(v.len() as int) == vv);
}

/// The advisories of one planned action (see `plan_entry_spec`).
pub fn plan_entry(creation: Vec<Advisory>, dependency: &Vec<Advisory>, boundary: Option<Vec<Advisory>>, wip: Vec<Advisory>) -> (r: Vec<Advisory>)
    ensures
        crate::advisory::advisories_view(r) == plan_entry_spec(
            crate::advisory::advisories_view(creation),
            crate::advisory::advisories_view(*dependency),
            opt_advisories_view(boundary),
            crate::advisory::advisories_view(wip),
        ),
{
    let mut out: Vec<Advisory> = Vec::new();
    push_all(&mut out, creation);
    push_variant(&mut out, dependency, 2);
    match &boundary {
        Some(b) => push_variant(&mut out, b, 3),
        None => {},
    }
    push_all(&mut out, wip);
    assert(crate::advisory::advisories_view(out) =~= plan_entry_spec(
        crate::advisory::advisories_view(creation),
        crate::advisory::advisories_view(*dependency),
        opt_advisories_view(boundary),
        crate::advisory::advisories_view(wip),
    ));
    out
}

/// The summary category of an advisory: 0 safe, 1 reuse (reuse an existing
/// symbol or type, or a trait pattern), 2 violation, 3 conflict, 4 ambiguous.
pub open spec fn category(a: AdvisoryView) -> int {
    match a {
        AdvisoryView::SafeToCreate { .. } => 0,
        AdvisoryView::ReuseExisting { .. } => 1,
        AdvisoryView::UseExistingType { .. } => 1,
        AdvisoryView::ReuseWithPattern { .. } => 1,
        AdvisoryView::BoundaryViolation { .. } => 2,
        AdvisoryView::WipConflict { .. } => 3,
        AdvisoryView::AmbiguousMatch { .. } => 4,
    }
}

/// How many advisories fall in a category.
pub open spec fn count_category(s: Seq<AdvisoryView>, c: int) -> nat
    decreases s.len(),
{
    if s.len() == 0 {
        0
    } else {
        count_category(s.drop_last(), c) + if category(s.last()) == c {
            1nat
        } else {
            0nat
        }
    }
}

/// Every advisory falls in exactly one category: the five counts of a
/// summary add up to the number of advisories.
pub proof fn lemma_categories_cover(s: Seq<AdvisoryView>)
    ensures
        count_category(s, 0) + count_category(s, 1) + count_category(s, 2) + count_category(s, 3) + count_category(s, 4)
            == s.len(),
    decreases s.len(),
{
    if s.len() > 0 {
        lemma_categories_cover(s.drop_last());
    }
}

/// All the advisories of the results, in order.
pub open spec fn plan_advisories(rs: Seq<PlanValidationResult>) -> Seq<AdvisoryView>
    decreases rs.len(),
{
    if rs.len() == 0 {
        Seq::empty()
    } else {
        plan_advisories(rs.drop_last()) + crate::advisory::advisories_view(rs.last().advisories)
    }
}

/// A count that stops at the largest `usize`.
pub open spec fn capped(n: int) -> usize {
    if n > usize::MAX {
        usize::MAX
    } else {
        n as usize
    }
}

/// Whether a summary counts the advisories `all` of a plan of `n` actions.
pub open spec fn summarizes(sm: PlanSummary, all: Seq<AdvisoryView>, n: nat) -> bool {
    &&& sm.total_actions == n
    &&& sm.safe == capped(count_category(all, 0) as int)
    &&& sm.reuse == capped(count_category(all, 1) as int)
    &&& sm.violations == capped(count_category(all, 2) as int)
    &&& sm.conflicts == capped(count_category(all, 3) as int)
    &&& sm.ambiguous == capped(count_category(all, 4) as int)
}

/// Whether the advisories of a planned action have the shape that plan
/// validation gives: first the creation advice for its symbol and target,
/// then only advice on existing types, boundary violations (only when the
/// action names a crate) and conflicts.
pub open spec fn entry_shaped(a: PlannedActionView, advs: Seq<AdvisoryView>) -> bool {
    &&& advs.len() >= 1
    &&& exists|e: Seq<Vec<SqlValue>>, f: Seq<Vec<SqlValue>>, l: Seq<LinkedSymbol>|
        advs[0] == creation_spec(a.symbol, a.target, named(symbols_of_rows(e), a.symbol), symbols_of_rows(f), l)
    &&& forall|k: int| 1 <= k < advs.len() ==> variant(#[trigger] advs[k]) == 2 || variant(advs[k]) == 3 || variant(
        advs[k],
    ) == 4
    &&& a.crate_name is None ==> forall|k: int| 1 <= k < advs.len() ==> variant(#[trigger] advs[k]) != 3
}

/// Whether advice is what the dependency check answers for a name: one
/// advisory, over the type symbols of that name among some rows.
pub open spec fn dependency_answer(name: Seq<char>, v: Seq<AdvisoryView>) -> bool {
    v.len() == 1 && exists|rows: Seq<Vec<SqlValue>>, traits: Seq<Seq<char>>, reexport: Option<Seq<char>>|
        v[0] == dependency_spec(name, types_named(symbols_of_rows(rows), name), traits, reexport)
}

/// Whether advice is the plan entry of an action: the creation check's answer
/// for its symbol and target, then what the dependency check answers for its
/// symbol, what the boundary check answers for its symbol in the crate it
/// names (when it names one), and what the work-in-progress check answers for
/// its target (see `plan_entry_spec`).
pub open spec fn plan_entry_answer(a: PlannedActionView, advs: Seq<AdvisoryView>) -> bool {
    exists|c: Seq<AdvisoryView>, d: Seq<AdvisoryView>, b: Option<Seq<AdvisoryView>>, w: Seq<AdvisoryView>|
        #![trigger plan_entry_spec(c, d, b, w)]
        advs == plan_entry_spec(c, d, b, w) && creation_answer(a.symbol, a.target, c) && dependency_answer(a.symbol, d)
            && match a.crate_name {
            Some(cn) => b matches Some(bv) && boundary_answer(a.symbol, cn, bv),
            None => b is None,
        } && wip_answer(a.target, w)
}

/// Whether advice ends, after at least one other advisory, with a conflict
/// that names exactly the symbols of the rows, in order.
pub open spec fn closes_with_conflict(advs: Seq<AdvisoryView>, rows: Seq<WipRow>) -> bool {
    advs.len() >= 2 && match advs.last() {
        AdvisoryView::WipConflict { symbols, .. } => symbols.len() == rows.len() && forall|i: int|
            0 <= i < rows.len() ==> symbols[i] == (#[trigger] rows[i]).name@,
        _ => false,
    }
}

/// Work in progress in an action's target closes its plan entry: for some
/// planned or in-progress symbols, each in a module whose path meets `LIKE
/// '%target%'`, the entry ends with one conflict naming exactly those
/// symbols, in order, when there are any.
pub proof fn lemma_plan_entry_reports_wip(a: PlannedActionView, advs: Seq<AdvisoryView>)
    requires
        plan_entry_answer(a, advs),
    ensures
        exists|rows: Seq<WipRow>, paths: Seq<Seq<char>>|
            rows.len() == paths.len() && (forall|k: int| 0 <= k < paths.len() ==> like_occurs(#[trigger] paths[k], a.target))
                && (rows.len() > 0 ==> closes_with_conflict(advs, rows)),
{
    let (c, d, b, w) = choose|c: Seq<AdvisoryView>, d: Seq<AdvisoryView>, b: Option<Seq<AdvisoryView>>, w: Seq<AdvisoryView>|
        #![trigger plan_entry_spec(c, d, b, w)]
        advs == plan_entry_spec(c, d, b, w) && creation_answer(a.symbol, a.target, c) && dependency_answer(a.symbol, d)
            && match a.crate_name {
            Some(cn) => b matches Some(bv) && boundary_answer(a.symbol, cn, bv),
            None => b is None,
        } && wip_answer(a.target, w);
    let (rows, paths, now) = choose|rows: Seq<WipRow>, paths: Seq<Seq<char>>, now: u64|
        rows.len() == paths.len() && (forall|k: int| 0 <= k < paths.len() ==> like_occurs(#[trigger] paths[k], a.target))
            && w == wip_spec(rows, now);
    if rows.len() > 0 {
        let front = c + only_variant(d, 2) + match b {
            Some(bb) => only_variant(bb, 3),
            None => Seq::empty(),
        };
        assert(advs == front + w);
        assert(w.len() == 1);
        assert(advs.last() == w[0]);
        assert(c.len() == 1);
    }
    assert(rows.len() == paths.len() && (forall|k: int| 0 <= k < paths.len() ==> like_occurs(#[trigger] paths[k], a.target))
        && (rows.len() > 0 ==> closes_with_conflict(advs, rows)));
}

/// Adds the advisories of `advs` to the counts of a summary.
fn tally(sm: &mut PlanSummary, advs: &Vec<Advisory>, Ghost(seen): Ghost<Seq<AdvisoryView>>)
    requires
        summarizes(*old(sm), seen, old(sm).total_actions as nat),
    ensures
        summarizes(*final(sm), seen + crate::advisory::advisories_view(*advs), old(sm).total_actions as nat),
{
    let ghost av = crate::advisory::advisories_view(*advs);
    let ghost n = sm.total_actions as nat;
    let mut i: usize = 0;
    while i < advs.len()
        invariant
            i <= advs.len(),
            av == crate::advisory::advisories_view(*advs),
            summarizes(*sm, seen + av.take(i as int), n),
        decreases advs.len() - i,
    {
        let ghost before = seen + av.take(i as int);
        assert(seen + av.take(i + 1) == before.push(av[i as int]));
        assert(before.push(av[i as int]).drop_last() == before);
        assert(av[i as int] == advs@[i as int]@);
        match &advs[i] {
            Advisory::SafeToCreate { .. } => {
                sm.safe = sm.safe.saturating_add(1);
            },
            Advisory::ReuseExisting { .. } | Advisory::UseExistingType { .. } | Advisory::ReuseWithPattern { .. } => {
                sm.reuse = sm.reuse.saturating_add(1);
            },
            Advisory::BoundaryViolation { .. } => {
                sm.violations = sm.violations.saturating_add(1);
            },
            Advisory::WipConflict { .. } => {
                sm.conflicts = sm.conflicts.saturating_add(1);
            },
            Advisory::AmbiguousMatch { .. } => {
                sm.ambiguous = sm.ambiguous.saturating_add(1);
            },
        }
        i = i + 1;
    }
    assert(av.take(advs.len() as int) == av);
}

/// Validates a whole plan: for each action, whether its symbol exists, whether
/// it names an existing type, whether it breaks the rules of the crate it
/// names, and whether someone works in its target; with a summary of the
/// advisories by category.
pub fn validate_plan(conn: &Connection, actions: &[PlannedAction]) -> (r: Result<PlanReport, String>)
    ensures
        r matches Ok(rep) ==> {
            &&& rep.results.len() == actions.len()
            &&& forall|i: int| 0 <= i < actions.len() ==> (#[trigger] rep.results@[i]).action@ == actions@[i]@
                && entry_shaped(actions@[i]@, crate::advisory::advisories_view(rep.results@[i].advisories))
            &&& forall|i: int|
                0 <= i < actions.len() ==> plan_entry_answer(
                    actions@[i]@,
                    crate::advisory::advisories_view(#[trigger] rep.results@[i].advisories),
                )
            &&& summarizes(rep.summary, plan_advisories(rep.results@), actions.len() as nat)
        },
{
    let mut results: Vec<PlanValidationResult> = Vec::new();
    let mut summary = PlanSummary {
        total_actions: actions.len(),
        safe: 0,
        reuse: 0,
        violations: 0,
        conflicts: 0,
        ambiguous: 0,
    };
    assert(plan_advisories(results@) == Seq::<AdvisoryView>::empty());
    let mut i: usize = 0;
    while i < actions.len()
        invariant
            i <= actions.len(),
            results.len() == i,
            forall|k: int| 0 <= k < i ==> (#[trigger] results@[k]).action@ == actions@[k]@
                && entry_shaped(actions@[k]@, crate::advisory::advisories_view(results@[k].advisories)),
            forall|k: int|
                0 <= k < i ==> plan_entry_answer(
                    actions@[k]@,
                    crate::advisory::advisories_view(#[trigger] results@[k].advisories),
                ),
            summarizes(summary, plan_advisories(results@), actions.len() as nat),
        decreases actions.len() - i,
    {
        let action = &actions[i];
        let creation = validate_creation(conn, action.symbol.as_str(), action.target.as_str())?;
        let ghost cv = crate::advisory::advisories_view(creation);
        let dependency = validate_dependency(conn, action.symbol.as_str())?;
        let boundary = match &action.crate_name {
            Some(c) => Some(validate_boundary(conn, action.symbol.as_str(), c.as_str())?),
            None => None,
        };
        let wip = check_wip(conn, action.target.as_str())?;
        let ghost wv = crate::advisory::advisories_view(wip);
        let ghost dv = crate::advisory::advisories_view(dependency);
        let ghost bv = opt_advisories_view(boundary);
        let advisories = plan_entry(creation, &dependency, boundary, wip);
        let ghost adv = crate::advisory::advisories_view(advisories);
        proof {
            assert(adv[0] == cv[0]);
            assert forall|k: int| 1 <= k < adv.len() implies variant(#[trigger] adv[k]) == 2 || variant(adv[k]) == 3
                || variant(adv[k]) == 4 by {
                lemma_plan_entry_tail(cv, dv, bv, wv, k);
            }
            if action.crate_name is None {
                assert forall|k: int| 1 <= k < adv.len() implies variant(#[trigger] adv[k]) != 3 by {
                    lemma_plan_entry_tail(cv, dv, bv, wv, k);
                }
            }
            assert(creation_answer(action@.symbol, action@.target, cv));
            assert(dependency_answer(action@.symbol, dv));
            assert(wip_answer(action@.target, wv));
            assert(plan_entry_answer(action@, adv));
        }
        tally(&mut summary, &advisories, Ghost(plan_advisories(results@)));
        let ghost before = results@;
        results.push(PlanValidationResult { action: action.copy(), advisories });
        assert(results@.drop_last() == before);
        i = i + 1;
    }
    Ok(PlanReport { results, summary })
}

/// The advisories of `s` of one variant are all of that variant.
pub proof fn lemma_only_variant(s: Seq<AdvisoryView>, v: int, k: int)
    requires
        0 <= k < only_variant(s, v).len(),
    ensures
        variant(only_variant(s, v)[k]) == v,
    decreases s.len(),
{
    if s.len() > 0 {
        if variant(s.last()) == v {
            if k < only_variant(s.drop_last(), v).len() {
                lemma_only_variant(s.drop_last(), v, k);
            }
        } else {
            lemma_only_variant(s.drop_last(), v, k);
        }
    }
}

/// Past the single creation advice, the advisories of a planned action are
/// advice on existing types, boundary violations or conflicts.
proof fn lemma_plan_entry_tail(
    cv: Seq<AdvisoryView>,
    dv: Seq<AdvisoryView>,
    bv: Option<Seq<AdvisoryView>>,
    wv: Seq<AdvisoryView>,
    k: int,
)
    requires
        cv.len() == 1,
        forall|j: int| 0 <= j < wv.len() ==> variant(#[trigger] wv[j]) == 4,
        1 <= k < plan_entry_spec(cv, dv, bv, wv).len(),
    ensures
        variant(plan_entry_spec(cv, dv, bv, wv)[k]) == 2 || variant(plan_entry_spec(cv, dv, bv, wv)[k]) == 3
            || variant(plan_entry_spec(cv, dv, bv, wv)[k]) == 4,
        bv is None ==> variant(plan_entry_spec(cv, dv, bv, wv)[k]) != 3,
{
    let d = only_variant(dv, 2);
    let b = match bv {
        Some(x) => only_variant(x, 3),
        None => Seq::empty(),
    };
    let all = plan_entry_spec(cv, dv, bv, wv);
    assert(all == cv + d + b + wv);
    if k < 1 + d.len() {
        assert(all[k] == d[k - 1]);
        lemma_only_variant(dv, 2, k - 1);
    } else if k < 1 + d.len() + b.len() {
        assert(all[k] == b[k - 1 - d.len()]);
        lemma_only_variant(bv->0, 3, k - 1 - d.len());
    } else {
        assert(all[k] == wv[k - 1 - d.len() - b.len()]);
    }
}

// ---------------------------------------------------------------- statistics

/// Aggregate statistics of the registry.
#[derive(Debug, Clone)]
pub struct RegistryStats {
    pub crate_count: usize,
    pub module_count: usize,
    pub symbol_count: usize,
    pub rule_count: usize,
    pub symbols_by_kind: Vec<(String, usize)>,
    pub symbols_by_visibility: Vec<(String, usize)>,
    pub symbols_by_status: Vec<(String, usize)>,
}

/// The count in the first cell of the first row; zero when there is none.
pub open spec fn count_of_rows(rows: Seq<Vec<SqlValue>>) -> usize {
    if rows.len() > 0 && rows[0].len() > 0 && count_cell(rows[0]@[0]) is Some {
        count_cell(rows[0]@[0])->0
    } else {
        0
    }
}

/// Reads the count in the first cell of the first row (see `count_of_rows`).
pub fn count_from_rows(rows: &Vec<Vec<SqlValue>>) -> (r: usize)
    ensures
        r == count_of_rows(rows@),
{
    if rows.len() == 0 || rows[0].len() == 0 {
        return 0;
    }
    match crate::db::read_usize(&rows[0][0]) {
        Some(n) => n,
        None => 0,
    }
}

/// The `(name, count)` pairs of rows, in order; unreadable rows are left out.
pub open spec fn group_counts_of_rows(rows: Seq<Vec<SqlValue>>) -> Seq<(Seq<char>, usize)>
    decreases rows.len(),
{
    if rows.len() == 0 {
        Seq::empty()
    } else if rows.last().len() >= 2 && cell_text(rows.last()@[0]) is Some && count_cell(rows.last()@[1]) is Some {
        group_counts_of_rows(rows.drop_last()).push((cell_text(rows.last()@[0])->0, count_cell(rows.last()@[1])->0))
    } else {
        group_counts_of_rows(rows.drop_last())
    }
}

/// The plain content of `(name, count)` pairs.
pub open spec fn group_counts_view(v: Seq<(String, usize)>) -> Seq<(Seq<char>, usize)> {
    v.map_values(|p: (String, usize)| (p.0@, p.1))
}

/// Reads the `(name, count)` pairs of rows (see `group_counts_of_rows`).
pub fn group_counts_from_rows(rows: &Vec<Vec<SqlValue>>) -> (r: Vec<(String, usize)>)
    ensures
        group_counts_view(r@) == group_counts_of_rows(rows@),
{
    let mut out: Vec<(String, usize)> = Vec::new();
    let mut i: usize = 0;
    while i < rows.len()
        invariant
            i <= rows.len(),
            group_counts_view(out@) == group_counts_of_rows(rows@.take(i as int)),
        decreases rows.len() - i,
    {
        assert(rows@.take(i + 1).drop_last() == rows@.take(i as int));
        assert(rows@.take(i + 1).last() == rows@[i as int]);
        if rows[i].len() >= 2 {
            match (read_text(&rows[i][0]), crate::db::read_usize(&rows[i][1])) {
                (Some(a), Some(n)) => {
                    out.push((a, n));
                    assert(group_counts_view(out@) == group_counts_of_rows(rows@.take(i as int)).push((a@, n)));
                },
                _ => {},
            }
        }
        i = i + 1;
    }
    assert(rows@.take(rows.len() as int) == rows@);
    out
}

/// The count that a counting query gives; zero when it fails.
fn query_count(conn: &Connection, sql: &str) -> (r: usize)
    ensures
        exists|rows: Seq<Vec<SqlValue>>| r == count_of_rows(rows),
{
    match query_rows(conn, sql, &Vec::new()) {
        Ok((_, rows)) => count_from_rows(&rows),
        Err(_) => {
            let ghost none: Seq<Vec<SqlValue>> = Seq::empty();
            assert(0 == count_of_rows(none));
            0
        },
    }
}

/// The `(name, count)` pairs that a grouping query gives; none when it fails.
fn group_count(conn: &Connection, sql: &str) -> (r: Vec<(String, usize)>)
    ensures
        exists|rows: Seq<Vec<SqlValue>>| group_counts_view(r@) == group_counts_of_rows(rows),
{
    match query_rows(conn, sql, &Vec::new()) {
        Ok((_, rows)) => group_counts_from_rows(&rows),
        Err(_) => {
            let v: Vec<(String, usize)> = Vec::new();
            let ghost none: Seq<Vec<SqlValue>> = Seq::empty();
            assert(group_counts_view(v@) == group_counts_of_rows(none));
            v
        },
    }
}

/// Aggregate statistics of the registry: the numbers of crates, modules,
/// symbols and ownership rules, and the symbols counted by kind, visibility
/// and status. A query that fails counts as zero, or as no groups.
pub fn get_registry_stats(conn: &Connection) -> (r: RegistryStats)
    ensures
        exists|rows: Seq<Vec<SqlValue>>| r.crate_count == count_of_rows(rows),
        exists|rows: Seq<Vec<SqlValue>>| r.module_count == count_of_rows(rows),
        exists|rows: Seq<Vec<SqlValue>>| r.symbol_count == count_of_rows(rows),
        exists|rows: Seq<Vec<SqlValue>>| r.rule_count == count_of_rows(rows),
        exists|rows: Seq<Vec<SqlValue>>| group_counts_view(r.symbols_by_kind@) == group_counts_of_rows(rows),
        exists|rows: Seq<Vec<SqlValue>>| group_counts_view(r.symbols_by_visibility@) == group_counts_of_rows(rows),
        exists|rows: Seq<Vec<SqlValue>>| group_counts_view(r.symbols_by_status@) == group_counts_of_rows(rows),
{
    let crate_count = query_count(conn, "SELECT COUNT(*) FROM crates");
    let module_count = query_count(conn, "SELECT COUNT(*) FROM modules");
    let symbol_count = query_count(conn, "SELECT COUNT(*) FROM symbols");
    let rule_count = query_count(conn, "SELECT COUNT(*) FROM ownership_rules");
    let symbols_by_kind = group_count(conn, "SELECT kind, COUNT(*) FROM symbols GROUP BY kind");
    let symbols_by_visibility = group_count(conn, "SELECT visibility, COUNT(*) FROM symbols GROUP BY visibility");
    let symbols_by_status = group_count(conn, "SELECT status, COUNT(*) FROM symbols GROUP BY status");
    RegistryStats {
        crate_count,
        module_count,
        symbol_count,
        rule_count,
        symbols_by_kind,
        symbols_by_visibility,
        symbols_by_status,
    }
}

/// All crate-level dependencies as `(from crate, to crate)` name pairs.
pub fn get_crate_dependencies(conn: &Connection) -> (r: Result<Vec<(String, String)>, String>)
    ensures
        r matches Ok(v) ==> exists|rows: Seq<Vec<SqlValue>>| pairs_view(v@) == pairs_of_rows(rows),
        r matches Err(m) ==> starts_with(m@, "Failed to query crate dependencies"@ + ": "@),
{
    match query_rows(
        conn,
        "SELECT c1.name, c2.name
         FROM crate_dependencies cd
         JOIN crates c1 ON cd.from_crate_id = c1.id
         JOIN crates c2 ON cd.to_crate_id = c2.id",
        &Vec::new(),
    ) {
        Ok((_, rows)) => Ok(pairs_from_rows(&rows)),
        Err(e) => Err(query_error("Failed to query crate dependencies", e)),
    }
}

/// The creation advice is always to create, to reuse, or ambiguous.
pub proof fn lemma_creation_variant(
    name: Seq<char>,
    target: Seq<char>,
    exact: Seq<ExistingSymbolView>,
    fuzzy: Seq<ExistingSymbolView>,
    linked: Seq<LinkedSymbol>,
)
    ensures
        variant(creation_spec(name, target, exact, fuzzy, linked)) == 0 || variant(creation_spec(name, target, exact, fuzzy, linked))
            == 1 || variant(creation_spec(name, target, exact, fuzzy, linked)) == 5,
{
}

} // verus!
