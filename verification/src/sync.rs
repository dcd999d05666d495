//! Keeping the registry in step with a workspace. A sync records the member
//! crates, then, for each source file that changed since the last sync (by
//! modification time), replaces its symbols by those extracted from it while
//! keeping the planned and in-progress symbols that the file does not define
//! yet, and finally records the trait implementations between symbols.
//!
//! Reading files, their modification times and the sync log stay outside;
//! here are the decisions and the registry updates.
use vstd::prelude::*;

use rusqlite::Connection;

use crate::advisory::opt_view;
use crate::db::{cell_text, query_rows, read_i64, read_opt_text, read_opt_u32, read_text, SqlParam, SqlValue};
use crate::extract::{ExtractedFile, ExtractedSymbol};
use crate::models::{Crate, Language, Module, Relationship, RelationshipKind, Symbol, SymbolKind, SymbolStatus, Visibility};
use crate::registry::{
    delete_symbols_for_module, find_symbol_id_by_name, find_symbol_id_by_name_and_kind, insert_crate, insert_module,
    insert_relationship, insert_symbol, RegistryError,
};
use crate::text::{concat, owned, str_eq};
use crate::workspace::ModuleInfo;

verus! {

// ---------------------------------------------------------------- the sync log

/// The modification times of the files as of their last sync.
#[derive(Debug, Clone)]
pub struct SyncLog {
    pub files: Vec<(String, u64)>,
}

/// The time recorded for a path: that of its first entry.
pub open spec fn logged_time(files: Seq<(String, u64)>, path: Seq<char>) -> Option<u64>
    decreases files.len(),
{
    if files.len() == 0 {
        None
    } else if files[0].0@ == path {
        Some(files[0].1)
    } else {
        logged_time(files.drop_first(), path)
    }
}

/// Whether a file needs syncing: it was never synced, or it was modified
/// after its last sync.
pub open spec fn needs_sync_spec(files: Seq<(String, u64)>, path: Seq<char>, mtime: u64) -> bool {
    match logged_time(files, path) {
        Some(t) => mtime > t,
        None => true,
    }
}

/// Whether no path occurs twice in a log.
pub open spec fn keys_unique(files: Seq<(String, u64)>) -> bool {
    forall|i: int, j: int| 0 <= i < j < files.len() ==> (#[trigger] files[i]).0@ != (#[trigger] files[j]).0@
}

impl SyncLog {
    /// A log that records no file (a full sync).
    pub fn new() -> (r: SyncLog)
        ensures
            r.files@.len() == 0,
            keys_unique(r.files@),
    {
        SyncLog { files: Vec::new() }
    }

    /// Whether a file with modification time `current_mtime` needs syncing
    /// (see `needs_sync_spec`).
    pub fn needs_sync(&self, file_path: &str, current_mtime: u64) -> (r: bool)
        ensures
            r == needs_sync_spec(self.files@, file_path@, current_mtime),
    {
        let mut i: usize = 0;
        assert(self.files@.skip(0) == self.files@);
        while i < self.files.len()
            invariant
                i <= self.files.len(),
                logged_time(self.files@, file_path@) == logged_time(self.files@.skip(i as int), file_path@),
            decreases self.files.len() - i,
        {
            assert(self.files@.skip(i as int)[0] == self.files@[i as int]);
            assert(self.files@.skip(i as int).drop_first() == self.files@.skip(i + 1));
            if str_eq(self.files[i].0.as_str(), file_path) {
                return current_mtime > self.files[i].1;
            }
            i = i + 1;
        }
        true
    }

    /// Records that a file was synced at modification time `mtime`.
    pub fn record(&mut self, file_path: &str, mtime: u64)
        ensures
            logged_time(final(self).files@, file_path@) == Some(mtime),
            forall|p: Seq<char>| p != file_path@ ==> logged_time(#[trigger] final(self).files@, p) == logged_time(
                old(self).files@,
                p,
            ),
            keys_unique(old(self).files@) ==> keys_unique(final(self).files@),
    {
        let mut i: usize = 0;
        while i < self.files.len()
            invariant
                i <= self.files.len(),
                self.files@ == old(self).files@,
                forall|k: int| 0 <= k < i ==> (#[trigger] self.files@[k]).0@ != file_path@,
            decreases self.files.len() - i,
        {
            if str_eq(self.files[i].0.as_str(), file_path) {
                let ghost before = self.files@;
                let entry = (owned(file_path), mtime);
                proof {
                    lemma_logged_time_set(before, i as int, entry);
                }
                self.files.set(i, entry);
                assert(keys_unique(before) ==> keys_unique(self.files@)) by {
                    if keys_unique(before) {
                        assert forall|a: int, b: int| 0 <= a < b < self.files@.len() implies (#[trigger] self.files@[a]).0@
                            != (#[trigger] self.files@[b]).0@ by {
                            assert(before[a].0@ != before[b].0@);
                        }
                    }
                }
                return;
            }
            i = i + 1;
        }
        let ghost before = self.files@;
        let entry = (owned(file_path), mtime);
        proof {
            lemma_logged_time_push(before, entry);
        }
        self.files.push(entry);
        assert(keys_unique(before) ==> keys_unique(self.files@)) by {
            if keys_unique(before) {
                assert forall|a: int, b: int| 0 <= a < b < self.files@.len() implies (#[trigger] self.files@[a]).0@
                    != (#[trigger] self.files@[b]).0@ by {
                    if b < before.len() {
                        assert(before[a].0@ != before[b].0@);
                    } else {
                        assert(self.files@[a] == before[a]);
                    }
                }
            }
        }
    }
}

/// Replacing the first entry of a path gives that path the new time and
/// leaves the other paths as they were.
proof fn lemma_logged_time_set(files: Seq<(String, u64)>, i: int, e: (String, u64))
    requires
        0 <= i < files.len(),
        files[i].0@ == e.0@,
        forall|k: int| 0 <= k < i ==> (#[trigger] files[k]).0@ != e.0@,
    ensures
        logged_time(files.update(i, e), e.0@) == Some(e.1),
        forall|p: Seq<char>| p != e.0@ ==> logged_time(files.update(i, e), p) == #[trigger] logged_time(files, p),
    decreases i,
{
    let u = files.update(i, e);
    if i > 0 {
        lemma_logged_time_set(files.drop_first(), i - 1, e);
        assert(u.drop_first() == files.drop_first().update(i - 1, e));
        assert(u[0] == files[0]);
    } else {
        assert(u.drop_first() == files.drop_first());
    }
    assert forall|p: Seq<char>| p != e.0@ implies logged_time(u, p) == #[trigger] logged_time(files, p) by {
        if i > 0 {
            assert(logged_time(u.drop_first(), p) == logged_time(files.drop_first(), p));
        } else {
            assert(u[0] == e);
            assert(logged_time(u, p) == logged_time(u.drop_first(), p));
        }
    }
}

/// Appending an entry for a path that has none gives it that time and leaves
/// the other paths as they were.
proof fn lemma_logged_time_push(files: Seq<(String, u64)>, e: (String, u64))
    requires
        forall|k: int| 0 <= k < files.len() ==> (#[trigger] files[k]).0@ != e.0@,
    ensures
        logged_time(files.push(e), e.0@) == Some(e.1),
        forall|p: Seq<char>| p != e.0@ ==> logged_time(files.push(e), p) == #[trigger] logged_time(files, p),
    decreases files.len(),
{
    let u = files.push(e);
    if files.len() > 0 {
        lemma_logged_time_push(files.drop_first(), e);
        assert(u.drop_first() == files.drop_first().push(e));
        assert(u[0] == files[0]);
    } else {
        assert(u.drop_first().len() == 0);
    }
    assert forall|p: Seq<char>| p != e.0@ implies logged_time(u, p) == #[trigger] logged_time(files, p) by {
        if files.len() > 0 {
            assert(logged_time(u.drop_first(), p) == logged_time(files.drop_first(), p));
        } else {
            assert(u[0] == e);
            assert(logged_time(u, p) == logged_time(u.drop_first(), p));
        }
    }
}

/// A file just recorded at some time needs no sync until it is modified
/// later than that time.
pub proof fn lemma_recorded_file_is_current(files: Seq<(String, u64)>, path: Seq<char>, recorded: u64, mtime: u64)
    requires
        logged_time(files, path) == Some(recorded),
    ensures
        needs_sync_spec(files, path, mtime) == (mtime > recorded),
{
}

// ---------------------------------------------------------------- statistics

/// What a sync did.
#[derive(Debug, Clone)]
pub struct SyncStats {
    pub crates_found: usize,
    pub modules_scanned: usize,
    pub symbols_added: usize,
    pub symbols_updated: usize,
    pub symbols_removed: usize,
    pub modules_skipped: usize,
    /// The files that could not be parsed, with the parser's message.
    pub parse_errors: Vec<(String, String)>,
}

impl SyncStats {
    /// The statistics of a sync that found `crates_found` crates and has done
    /// nothing else yet.
    pub fn new(crates_found: usize) -> (r: SyncStats)
        ensures
            r.crates_found == crates_found,
            r.modules_scanned == 0,
            r.symbols_added == 0,
            r.symbols_updated == 0,
            r.symbols_removed == 0,
            r.modules_skipped == 0,
            r.parse_errors@.len() == 0,
    {
        SyncStats {
            crates_found,
            modules_scanned: 0,
            symbols_added: 0,
            symbols_updated: 0,
            symbols_removed: 0,
            modules_skipped: 0,
            parse_errors: Vec::new(),
        }
    }

    /// Counts a file skipped because it did not change.
    pub fn note_skipped(&mut self)
        ensures
            final(self).modules_skipped == crate::queries::capped(old(self).modules_skipped + 1),
            final(self).modules_scanned == old(self).modules_scanned,
            final(self).symbols_added == old(self).symbols_added,
            final(self).symbols_removed == old(self).symbols_removed,
            final(self).parse_errors == old(self).parse_errors,
    {
        self.modules_skipped = self.modules_skipped.saturating_add(1);
    }
}

/// What to do with a source file of a crate.
#[derive(Debug, Clone, Copy, PartialEq, Eq, Structural)]
pub enum ModuleAction {
    /// The file does not exist: leave it.
    Missing,
    /// The file did not change since the last sync: skip it.
    Unchanged,
    /// Scan the file.
    Scan,
}

/// What to do with a source file: leave it when it is missing, skip it when
/// it did not change since it was last synced, else scan it.
pub fn module_action(log: &SyncLog, path: &str, exists: bool, mtime: u64) -> (r: ModuleAction)
    ensures
        !exists ==> r == ModuleAction::Missing,
        exists && !needs_sync_spec(log.files@, path@, mtime) ==> r == ModuleAction::Unchanged,
        exists && needs_sync_spec(log.files@, path@, mtime) ==> r == ModuleAction::Scan,
{
    if !exists {
        ModuleAction::Missing
    } else if !log.needs_sync(path, mtime) {
        ModuleAction::Unchanged
    } else {
        ModuleAction::Scan
    }
}

// ---------------------------------------------------------------- registry updates

/// `head` followed by `middle`, `': '` and the text of a registry error.
fn failure(head: &str, middle: &str, e: &RegistryError) -> (r: String)
    ensures
        r@ == head@ + middle@ + "': "@ + e.text(),
{
    let mut s = concat(head, middle);
    s.append("': ");
    let t = e.message();
    s.append(t.as_str());
    s
}

/// `head` followed by the text of a registry error.
fn failure2(head: &str, e: &RegistryError) -> (r: String)
    ensures
        r@ == head@ + e.text(),
{
    let t = e.message();
    concat(head, t.as_str())
}

/// Records the crates of a workspace, giving each crate's name with its row id.
pub fn register_crates(conn: &Connection, crates: &Vec<Crate>) -> (r: Result<Vec<(String, i64)>, String>)
    ensures
        r matches Ok(ids) ==> ids.len() == crates.len() && forall|k: int| 0 <= k < ids.len() ==> (#[trigger] ids@[k]).0@
            == crates@[k].name@,
{
    let mut ids: Vec<(String, i64)> = Vec::new();
    let mut i: usize = 0;
    while i < crates.len()
        invariant
            i <= crates.len(),
            ids.len() == i,
            forall|k: int| 0 <= k < ids.len() ==> (#[trigger] ids@[k]).0@ == crates@[k].name@,
        decreases crates.len() - i,
    {
        match insert_crate(conn, &crates[i]) {
            Ok(id) => ids.push((crates[i].name.clone(), id)),
            Err(e) => {
                return Err(failure("Failed to insert crate '", crates[i].name.as_str(), &e));
            },
        }
        i = i + 1;
    }
    Ok(ids)
}

/// The id recorded for a crate name: that of its last entry.
pub open spec fn crate_id_spec(ids: Seq<(String, i64)>, name: Seq<char>) -> Option<i64>
    decreases ids.len(),
{
    if ids.len() == 0 {
        None
    } else if ids.last().0@ == name {
        Some(ids.last().1)
    } else {
        crate_id_spec(ids.drop_last(), name)
    }
}

/// The id recorded for a crate name (see `crate_id_spec`).
pub fn crate_id_of(ids: &Vec<(String, i64)>, name: &str) -> (r: Option<i64>)
    ensures
        r == crate_id_spec(ids@, name@),
{
    let mut i: usize = ids.len();
    assert(ids@.take(ids.len() as int) == ids@);
    while i > 0
        invariant
            i <= ids.len(),
            crate_id_spec(ids@, name@) == crate_id_spec(ids@.take(i as int), name@),
        decreases i,
    {
        assert(ids@.take(i as int).drop_last() == ids@.take(i - 1));
        assert(ids@.take(i as int).last() == ids@[i - 1]);
        if str_eq(ids[i - 1].0.as_str(), name) {
            return Some(ids[i - 1].1);
        }
        i = i - 1;
    }
    None
}

/// The kind stored under a name; an unknown name is read as a function.
pub open spec fn kind_or_function(t: Seq<char>) -> SymbolKind {
    match SymbolKind::from_text(t) {
        Some(k) => k,
        None => SymbolKind::Function,
    }
}

/// The visibility stored under a name; an unknown name is read as private.
pub open spec fn visibility_or_private(t: Seq<char>) -> Visibility {
    match Visibility::from_text(t) {
        Some(v) => v,
        None => Visibility::Private,
    }
}

/// The status stored under a name; an unknown name is read as planned.
pub open spec fn status_or_planned(t: Seq<char>) -> SymbolStatus {
    match SymbolStatus::from_text(t) {
        Some(st) => st,
        None => SymbolStatus::Planned,
    }
}

/// Reads a planned or in-progress symbol from a row `(id, module_id, name,
/// kind, visibility, signature, line, scope, status, created_by, created_at,
/// updated_at)`, to be inserted again: without its id, an unknown kind read as
/// a function, an unknown visibility as private, an unknown status as planned.
fn preserved_of_row(row: &Vec<SqlValue>) -> (r: Option<Symbol>)
    ensures
        match r {
            Some(s) => s.id is None && row.len() >= 12 && row@[0] is Integer && row@[1] == SqlValue::Integer(s.module_id)
                && cell_text(row@[2]) == Some(s.name@) && cell_text(row@[3]) is Some && s.kind
                == kind_or_function(cell_text(row@[3])->0) && cell_text(row@[4]) is Some && s.visibility
                == visibility_or_private(cell_text(row@[4])->0)
                && crate::queries::opt_cell(row@[5]) == Some(opt_view(s.signature)) && crate::queries::opt_line_cell(row@[6])
                == Some(s.line_number) && crate::queries::opt_cell(row@[7]) == Some(opt_view(s.scope))
                && cell_text(row@[8]) is Some && s.status == status_or_planned(cell_text(row@[8])->0)
                && crate::queries::opt_cell(row@[9]) == Some(opt_view(s.created_by)) && crate::queries::opt_cell(row@[10])
                == Some(opt_view(s.created_at)) && crate::queries::opt_cell(row@[11]) == Some(opt_view(s.updated_at)),
            None => row.len() < 12 || !(row@[0] is Integer) || !(row@[1] is Integer) || cell_text(row@[2]) is None
                || cell_text(row@[3]) is None || cell_text(row@[4]) is None || crate::queries::opt_cell(row@[5]) is None
                || crate::queries::opt_line_cell(row@[6]) is None || crate::queries::opt_cell(row@[7]) is None
                || cell_text(row@[8]) is None || crate::queries::opt_cell(row@[9]) is None || crate::queries::opt_cell(
                row@[10],
            ) is None || crate::queries::opt_cell(row@[11]) is None,
        },
{
    if row.len() < 12 {
        return None;
    }
    let _id = read_i64(&row[0])?;
    let module_id = read_i64(&row[1])?;
    let name = read_text(&row[2])?;
    let kind_text = read_text(&row[3])?;
    let vis_text = read_text(&row[4])?;
    let signature = read_opt_text(&row[5])?;
    let line_number = read_opt_u32(&row[6])?;
    let scope = read_opt_text(&row[7])?;
    let status_text = read_text(&row[8])?;
    let created_by = read_opt_text(&row[9])?;
    let created_at = read_opt_text(&row[10])?;
    let updated_at = read_opt_text(&row[11])?;
    let kind = match SymbolKind::parse(kind_text.as_str()) {
        Ok(k) => k,
        Err(_) => SymbolKind::Function,
    };
    let visibility = match Visibility::parse(vis_text.as_str()) {
        Ok(v) => v,
        Err(_) => Visibility::Private,
    };
    let status = match SymbolStatus::parse(status_text.as_str()) {
        Ok(st) => st,
        Err(_) => SymbolStatus::Planned,
    };
    Some(
        Symbol {
            id: None,
            module_id,
            name,
            kind,
            visibility,
            signature,
            line_number,
            scope,
            status,
            created_by,
            created_at,
            updated_at,
        },
    )
}

/// The planned and in-progress symbols of a module, to be kept across a sync;
/// a row that cannot be read fails the query.
pub fn query_planned_wip_symbols(conn: &Connection, module_id: i64) -> (r: Result<Vec<Symbol>, String>)
    ensures
        r matches Ok(v) ==> forall|k: int| 0 <= k < v.len() ==> (#[trigger] v@[k]).id is None,
{
    let mut p: Vec<SqlParam> = Vec::new();
    p.push(SqlParam::Integer(module_id));
    let (_, rows) = match query_rows(
        conn,
        "SELECT id, module_id, name, kind, visibility, signature, line_number, scope, status, created_by, created_at, updated_at \
         FROM symbols WHERE module_id = ?1 AND status IN ('planned', 'wip')",
        &p,
    ) {
        Ok(x) => x,
        Err(e) => {
            return Err(crate::db::sqlite_error_text(&e));
        },
    };
    let mut out: Vec<Symbol> = Vec::new();
    let mut i: usize = 0;
    while i < rows.len()
        invariant
            i <= rows.len(),
            forall|k: int| 0 <= k < out.len() ==> (#[trigger] out@[k]).id is None,
        decreases rows.len() - i,
    {
        match preserved_of_row(&rows[i]) {
            Some(s) => out.push(s),
            None => {
                return Err(owned("Invalid column type in a planned/wip symbol row"));
            },
        }
        i = i + 1;
    }
    Ok(out)
}

/// The symbol that an extracted one is stored as: stable, in module
/// `module_id`.
pub fn stored_symbol(module_id: i64, s: ExtractedSymbol) -> (r: Symbol)
    ensures
        r.id is None,
        r.module_id == module_id,
        r.name@ == s.name@,
        r.kind == s.kind,
        r.visibility == s.visibility,
        opt_view(r.signature) == opt_view(s.signature),
        r.line_number == s.line_number,
        opt_view(r.scope) == opt_view(s.scope),
        r.status == SymbolStatus::Stable,
        r.created_by is None,
        r.created_at is None,
        r.updated_at is None,
{
    Symbol {
        id: None,
        module_id,
        name: s.name,
        kind: s.kind,
        visibility: s.visibility,
        signature: s.signature,
        line_number: s.line_number,
        scope: s.scope,
        status: SymbolStatus::Stable,
        created_by: None,
        created_at: None,
        updated_at: None,
    }
}

/// Whether some string of `v` has the characters of `s`.
fn has_name(v: &Vec<String>, s: &str) -> (r: bool)
    ensures
        r == exists|k: int| 0 <= k < v.len() && (#[trigger] v@[k])@ == s@,
{
    let mut i: usize = 0;
    while i < v.len()
        invariant
            i <= v.len(),
            forall|k: int| 0 <= k < i ==> (#[trigger] v@[k])@ != s@,
        decreases v.len() - i,
    {
        if str_eq(v[i].as_str(), s) {
            return true;
        }
        i = i + 1;
    }
    false
}

/// Syncs one source file of crate `crate_id` whose modification time is
/// `mtime`, given what extracting its symbols gave: records the module,
/// replaces its symbols by the extracted ones, inserts again the planned and
/// in-progress symbols that the file does not define, collects its trait
/// implementations, and records the file in the log. A file that could not be
/// parsed is noted in the statistics and keeps only its planned and
/// in-progress symbols.
pub fn sync_module(
    conn: &Connection,
    crate_id: i64,
    info: &ModuleInfo,
    mtime: u64,
    extracted: Result<ExtractedFile, String>,
    stats: &mut SyncStats,
    log: &mut SyncLog,
    trait_impls: &mut Vec<(String, String)>,
) -> (r: Result<(), String>)
    ensures
        final(stats).crates_found == old(stats).crates_found,
        final(stats).modules_skipped == old(stats).modules_skipped,
        r is Ok ==> logged_time(final(log).files@, info.path@) == Some(mtime),
        forall|p: Seq<char>| p != info.path@ ==> logged_time(#[trigger] final(log).files@, p) == logged_time(
            old(log).files@,
            p,
        ),
        r is Ok ==> final(stats).modules_scanned == crate::queries::capped(old(stats).modules_scanned + 1),
        r is Ok && extracted is Ok ==> final(stats).symbols_added == crate::queries::capped(
            old(stats).symbols_added + extracted->Ok_0.symbols.len(),
        ),
        r is Ok && extracted is Ok ==> crate::extract::impls_view(*final(trait_impls)) == crate::extract::impls_view(
            *old(trait_impls),
        ) + crate::extract::impls_view(extracted->Ok_0.trait_impls),
        r is Ok && extracted is Ok ==> final(stats).parse_errors == old(stats).parse_errors,
        r is Ok && extracted is Err ==> final(stats).symbols_added == old(stats).symbols_added,
        r is Ok && extracted is Err ==> final(stats).parse_errors@.len() == old(stats).parse_errors@.len() + 1
            && final(stats).parse_errors@.last().0@ == info.path@ && final(stats).parse_errors@.last().1@
            == extracted->Err_0@,
        r is Ok && extracted is Err ==> *final(trait_impls) == *old(trait_impls),
{
    stats.modules_scanned = stats.modules_scanned.saturating_add(1);
    let module = Module {
        id: None,
        crate_id,
        path: info.path.clone(),
        name: info.name.clone(),
        language: Language::Rust,
    };
    let module_id = match insert_module(conn, &module) {
        Ok(id) => id,
        Err(e) => {
            return Err(failure("Failed to insert module '", info.path.as_str(), &e));
        },
    };
    let preserved = match query_planned_wip_symbols(conn, module_id) {
        Ok(v) => v,
        Err(e) => {
            return Err(concat("Failed to query planned/wip symbols: ", e.as_str()));
        },
    };
    let removed = match delete_symbols_for_module(conn, module_id) {
        Ok(n) => n,
        Err(e) => {
            return Err(failure2("Failed to clear symbols: ", &e));
        },
    };
    stats.symbols_removed = stats.symbols_removed.saturating_add(removed);
    let mut names: Vec<String> = Vec::new();
    match extracted {
        Ok(ex) => {
            let ghost added0 = stats.symbols_added;
            let ExtractedFile { symbols, trait_impls: found } = ex;
            let n = symbols.len();
            let mut i: usize = 0;
            while i < n
                invariant
                    i <= n,
                    n == symbols.len(),
                    stats.symbols_added == crate::queries::capped(added0 + i),
                    stats.crates_found == old(stats).crates_found,
                    stats.modules_skipped == old(stats).modules_skipped,
                    stats.modules_scanned == crate::queries::capped(old(stats).modules_scanned + 1),
                    stats.parse_errors == old(stats).parse_errors,
                decreases n - i,
            {
                names.push(symbols[i].name.clone());
                let stored = stored_symbol(module_id, symbols[i].clone());
                match insert_symbol(conn, &stored) {
                    Ok(_) => {},
                    Err(e) => {
                        return Err(failure2("Failed to insert symbol: ", &e));
                    },
                }
                stats.symbols_added = stats.symbols_added.saturating_add(1);
                i = i + 1;
            }
            let ghost impls0 = crate::extract::impls_view(*trait_impls);
            let mut k: usize = 0;
            while k < found.len()
                invariant
                    k <= found.len(),
                    crate::extract::impls_view(*trait_impls) == impls0 + crate::extract::impls_view(found).take(k as int),
                decreases found.len() - k,
            {
                let pair = (found[k].0.clone(), found[k].1.clone());
                let ghost before = crate::extract::impls_view(*trait_impls);
                trait_impls.push(pair);
                assert(crate::extract::impls_view(*trait_impls) == before.push((pair.0@, pair.1@)));
                assert(crate::extract::impls_view(found).take(k + 1) == crate::extract::impls_view(found).take(k as int).push(
                    crate::extract::impls_view(found)[k as int],
                ));
                k = k + 1;
            }
            assert(crate::extract::impls_view(found).take(found.len() as int) == crate::extract::impls_view(found));
        },
        Err(msg) => {
            stats.parse_errors.push((info.path.clone(), msg));
        },
    }
    let ghost stats_mid = *stats;
    let ghost impls_mid = *trait_impls;
    let mut j: usize = 0;
    while j < preserved.len()
        invariant
            j <= preserved.len(),
            stats.crates_found == old(stats).crates_found,
            stats.modules_skipped == old(stats).modules_skipped,
            stats.modules_scanned == stats_mid.modules_scanned,
            stats.symbols_added == stats_mid.symbols_added,
            stats.parse_errors == stats_mid.parse_errors,
            *trait_impls == impls_mid,
            log.files@ == old(log).files@,
        decreases preserved.len() - j,
    {
        if !has_name(&names, preserved[j].name.as_str()) {
            match insert_symbol(conn, &preserved[j]) {
                Ok(_) => {},
                Err(e) => {
                    return Err(failure2("Failed to re-insert planned/wip symbol: ", &e));
                },
            }
            stats.symbols_removed = stats.symbols_removed.saturating_sub(1);
        }
        j = j + 1;
    }
    log.record(info.path.as_str(), mtime);
    Ok(())
}

/// Records the trait implementations found in the files as `implements`
/// relationships, from the type's symbol to the trait's, where both are in
/// the registry.
pub fn link_trait_impls(conn: &Connection, impls: &Vec<(String, String)>) -> (r: Result<usize, String>)
    ensures
        r matches Ok(n) ==> n <= impls.len(),
{
    let mut linked: usize = 0;
    let mut i: usize = 0;
    while i < impls.len()
        invariant
            i <= impls.len(),
            linked <= i,
        decreases impls.len() - i,
    {
        let trait_name = impls[i].0.as_str();
        let ty_name = impls[i].1.as_str();
        let trait_id = match find_symbol_id_by_name_and_kind(conn, trait_name, "trait") {
            Ok(t) => t,
            Err(e) => {
                return Err(failure("Failed to look up trait '", trait_name, &e));
            },
        };
        let type_id = match find_symbol_id_by_name(conn, ty_name) {
            Ok(t) => t,
            Err(e) => {
                return Err(failure("Failed to look up type '", ty_name, &e));
            },
        };
        match (trait_id, type_id) {
            (Some(to), Some(from)) => {
                let relationship = Relationship {
                    id: None,
                    from_symbol_id: from,
                    to_symbol_id: to,
                    kind: RelationshipKind::Implements,
                };
                match insert_relationship(conn, &relationship) {
                    Ok(_) => {},
                    Err(e) => {
                        let mut m = concat("Failed to insert trait impl relationship (", ty_name);
                        m.append(" -> ");
                        m.append(trait_name);
                        m.append("): ");
                        let t = e.message();
                        m.append(t.as_str());
                        return Err(m);
                    },
                }
                linked = linked + 1;
            },
            _ => {},
        }
        i = i + 1;
    }
    Ok(linked)
}

} // verus!
