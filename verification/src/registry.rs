//! The registry database: its schema and migrations, and the statements that
//! store and look up crates, modules, symbols, rules and linked registries.
//! What a statement does to the database is SQLite's work and is not modelled
//! here; what is stated is which statement runs with which parameters, how the
//! rows read back are decoded, and how errors are reported.
use vstd::prelude::*;

use rusqlite::Connection;

use crate::db::{
    opt_int_view, opt_text_view, opt_u32_param, param_view, params_view, ParamView, cell_text, opt_text_param, query_rows, read_i64, read_opt_text, read_opt_u32, read_text,
    sqlite_error_text, sqlite_execute, sqlite_execute_batch, sqlite_last_insert_rowid, sqlite_open,
    text_param, SqlParam, SqlValue,
};
use crate::models::{
    Contract, Crate, Language, LinkedRegistry, LinkedSymbol, Module, OwnershipRule, Relationship,
    Symbol,
};
use crate::seed::{rejected_of, rejection_message, rejection_text, seed_rejections, seed_statement_list, seed_statements};
use crate::text::{concat, owned};
use crate::time::{decimal, decimal_chars};

verus! {

/// Current schema version (4: modules carry their language). Versions 0 and 1
/// are databases from before migrations existed.
pub const SCHEMA_VERSION: i32 = 4;

/// The full schema, every statement idempotent.
pub const SCHEMA_SQL: &'static str = "
CREATE TABLE IF NOT EXISTS crates (
    id INTEGER PRIMARY KEY AUTOINCREMENT,
    name TEXT NOT NULL UNIQUE,
    path TEXT NOT NULL,
    description TEXT,
    status TEXT NOT NULL DEFAULT 'active',
    bounded_context TEXT
);

CREATE TABLE IF NOT EXISTS modules (
    id INTEGER PRIMARY KEY AUTOINCREMENT,
    crate_id INTEGER NOT NULL REFERENCES crates(id) ON DELETE CASCADE,
    path TEXT NOT NULL UNIQUE,
    name TEXT NOT NULL,
    language TEXT NOT NULL DEFAULT 'rust'
);

CREATE TABLE IF NOT EXISTS symbols (
    id INTEGER PRIMARY KEY AUTOINCREMENT,
    module_id INTEGER NOT NULL REFERENCES modules(id) ON DELETE CASCADE,
    name TEXT NOT NULL,
    kind TEXT NOT NULL,
    visibility TEXT NOT NULL DEFAULT 'private',
    signature TEXT,
    line_number INTEGER,
    scope TEXT,
    status TEXT NOT NULL DEFAULT 'stable',
    created_by TEXT,
    created_at TEXT,
    updated_at TEXT
);

CREATE INDEX IF NOT EXISTS idx_symbols_name ON symbols(name);
CREATE INDEX IF NOT EXISTS idx_symbols_kind ON symbols(kind);
CREATE INDEX IF NOT EXISTS idx_symbols_module ON symbols(module_id);

CREATE TABLE IF NOT EXISTS relationships (
    id INTEGER PRIMARY KEY AUTOINCREMENT,
    from_symbol_id INTEGER NOT NULL REFERENCES symbols(id) ON DELETE CASCADE,
    to_symbol_id INTEGER NOT NULL REFERENCES symbols(id) ON DELETE CASCADE,
    kind TEXT NOT NULL
);

CREATE TABLE IF NOT EXISTS contracts (
    id INTEGER PRIMARY KEY AUTOINCREMENT,
    symbol_id INTEGER NOT NULL REFERENCES symbols(id) ON DELETE CASCADE,
    kind TEXT NOT NULL,
    description TEXT NOT NULL
);

CREATE TABLE IF NOT EXISTS ownership_rules (
    id INTEGER PRIMARY KEY AUTOINCREMENT,
    crate_name TEXT NOT NULL,
    description TEXT NOT NULL,
    kind TEXT NOT NULL,
    pattern TEXT,
    regex TEXT
);

CREATE TABLE IF NOT EXISTS linked_registries (
    id INTEGER PRIMARY KEY AUTOINCREMENT,
    name TEXT NOT NULL UNIQUE,
    path TEXT NOT NULL,
    linked_at TEXT NOT NULL
);

CREATE TABLE IF NOT EXISTS linked_symbols (
    id INTEGER PRIMARY KEY AUTOINCREMENT,
    source_name TEXT NOT NULL,
    name TEXT NOT NULL,
    kind TEXT,
    crate_name TEXT,
    module_path TEXT,
    signature TEXT,
    linked_at TEXT NOT NULL
);
CREATE INDEX IF NOT EXISTS idx_linked_name ON linked_symbols(name);

CREATE TABLE IF NOT EXISTS crate_dependencies (
    id INTEGER PRIMARY KEY AUTOINCREMENT,
    from_crate_id INTEGER NOT NULL REFERENCES crates(id) ON DELETE CASCADE,
    to_crate_id INTEGER NOT NULL REFERENCES crates(id) ON DELETE CASCADE,
    UNIQUE(from_crate_id, to_crate_id)
);
";

/// Why a registry operation failed.
#[derive(Debug, Clone)]
pub enum RegistryError {
    /// SQLite reported an error, or a row could not be read; the text says which.
    Sqlite(String),
    /// A seed file held statements other than inserts into `ownership_rules`.
    SeedRejected(String),
    /// The database was written by a newer schema version than this one.
    NewerSchema { found: i32, supported: i32 },
}

/// The decimal text of an `i32`, with a minus sign when negative.
pub open spec fn int_text(v: int) -> Seq<char> {
    if v < 0 {
        seq!['-'] + decimal((-v) as nat)
    } else {
        decimal(v as nat)
    }
}

/// The decimal text of an `i32`.
pub fn i32_text(v: i32) -> (r: String)
    ensures
        r@ == int_text(v as int),
{
    if v < 0 {
        let mag: u64 = (0i64 - (v as i64)) as u64;
        let d = decimal_chars(mag);
        let ds = crate::text::string_of(d.as_slice());
        proof {
            reveal_strlit("-");
        }
        concat("-", ds.as_str())
    } else {
        let d = decimal_chars(v as u64);
        crate::text::string_of(d.as_slice())
    }
}

impl RegistryError {
    /// The text of the error.
    pub open spec fn text(self) -> Seq<char> {
        match self {
            RegistryError::Sqlite(m) => m@,
            RegistryError::SeedRejected(m) => m@,
            RegistryError::NewerSchema { found, supported } => "database schema version "@ + int_text(
                found as int,
            ) + " is newer than supported version "@ + int_text(supported as int),
        }
    }

    /// The text of the error.
    pub fn message(&self) -> (r: String)
        ensures
            r@ == self.text(),
    {
        match self {
            RegistryError::Sqlite(m) => m.clone(),
            RegistryError::SeedRejected(m) => m.clone(),
            RegistryError::NewerSchema { found, supported } => {
                let mut s = owned("database schema version ");
                let f = i32_text(*found);
                s.append(f.as_str());
                s.append(" is newer than supported version ");
                let v = i32_text(*supported);
                s.append(v.as_str());
                s
            },
        }
    }
}

/// A SQLite error as a registry error.
fn sql_err(e: rusqlite::Error) -> (r: RegistryError)
    ensures
        r is Sqlite,
{
    RegistryError::Sqlite(sqlite_error_text(&e))
}

/// The registry error for a row whose cells have the wrong types.
fn bad_row() -> (r: RegistryError)
    ensures
        r matches RegistryError::Sqlite(m) && m@ == "Invalid column type in result row"@,
{
    RegistryError::Sqlite(owned("Invalid column type in result row"))
}

/// Opens (or creates) the registry database at `path`, with write-ahead
/// logging and foreign keys on.
pub fn open_registry(path: &str) -> (r: Result<Connection, RegistryError>)
    ensures
        r matches Err(e) ==> e is Sqlite,
{
    let conn = match sqlite_open(path) {
        Ok(c) => c,
        Err(e) => {
            return Err(sql_err(e));
        },
    };
    match sqlite_execute_batch(&conn, "PRAGMA journal_mode=WAL; PRAGMA foreign_keys=ON;") {
        Ok(()) => Ok(conn),
        Err(e) => Err(sql_err(e)),
    }
}

/// The first cell of the first row, read as an `i32`.
pub open spec fn first_i32(rows: Seq<Vec<SqlValue>>) -> Option<i32> {
    if rows.len() > 0 && rows[0].len() > 0 {
        match rows[0]@[0] {
            SqlValue::Integer(i) => if i32::MIN <= i <= i32::MAX {
                Some(i as i32)
            } else {
                None
            },
            _ => None,
        }
    } else {
        None
    }
}

/// Reads the first cell of the first row as an `i32`.
pub fn decode_first_i32(rows: &Vec<Vec<SqlValue>>) -> (r: Option<i32>)
    ensures
        r == first_i32(rows@),
{
    if rows.len() == 0 || rows[0].len() == 0 {
        return None;
    }
    match read_i64(&rows[0][0]) {
        Some(i) => {
            if i >= -2147483648 && i <= 2147483647 {
                Some(i as i32)
            } else {
                None
            }
        },
        None => None,
    }
}

/// The schema version of the database (`PRAGMA user_version`).
pub fn get_schema_version(conn: &Connection) -> (r: Result<i32, RegistryError>)
    ensures
        r matches Err(e) ==> e is Sqlite,
{
    let (_, rows) = match query_rows(conn, "PRAGMA user_version", &Vec::new()) {
        Ok(x) => x,
        Err(e) => {
            return Err(sql_err(e));
        },
    };
    match decode_first_i32(&rows) {
        Some(v) => Ok(v),
        None => Err(bad_row()),
    }
}

/// The statement that sets the schema version.
pub fn schema_version_sql(version: i32) -> (r: String)
    ensures
        r@ == "PRAGMA user_version = "@ + int_text(version as int),
{
    let v = i32_text(version);
    concat("PRAGMA user_version = ", v.as_str())
}

/// Sets the schema version of the database (`PRAGMA user_version`).
pub fn set_schema_version(conn: &Connection, version: i32) -> (r: Result<(), RegistryError>)
    ensures
        r matches Err(e) ==> e is Sqlite,
{
    let sql = schema_version_sql(version);
    match sqlite_execute_batch(conn, sql.as_str()) {
        Ok(()) => Ok(()),
        Err(e) => Err(sql_err(e)),
    }
}

/// What bringing a database of a given schema version up to date takes.
#[derive(Debug, Clone, Copy, PartialEq, Eq, Structural)]
pub enum SchemaStep {
    /// A fresh (or pre-migration) database: create the full schema.
    Create,
    /// An older schema: run the migrations from this version on.
    Migrate(i32),
    /// Already current: nothing to do.
    UpToDate,
    /// Written by a newer version: refuse.
    TooNew(i32),
}

/// What bringing a database of schema version `current` up to date takes:
/// version 0 gets the full schema, older versions are migrated, the current one
/// is left alone and a newer one is refused.
pub fn schema_step(current: i32) -> (r: SchemaStep)
    ensures
        r == (if current == 0 {
            SchemaStep::Create
        } else if current < SCHEMA_VERSION {
            SchemaStep::Migrate(current)
        } else if current == SCHEMA_VERSION {
            SchemaStep::UpToDate
        } else {
            SchemaStep::TooNew(current)
        }),
{
    if current == 0 {
        SchemaStep::Create
    } else if current < SCHEMA_VERSION {
        SchemaStep::Migrate(current)
    } else if current == SCHEMA_VERSION {
        SchemaStep::UpToDate
    } else {
        SchemaStep::TooNew(current)
    }
}

/// Creates or migrates the schema to the current version: a fresh database gets
/// the full schema, an older one is migrated, a current one is left alone, and
/// one from a newer version is refused with `NewerSchema`.
pub fn create_schema(conn: &Connection) -> (r: Result<(), RegistryError>)
    ensures
        r matches Err(RegistryError::NewerSchema { found, supported }) ==> found > SCHEMA_VERSION
            && supported == SCHEMA_VERSION,
        r matches Err(e) ==> (e is Sqlite || e is NewerSchema),
{
    let current = get_schema_version(conn)?;
    match schema_step(current) {
        SchemaStep::Create => {
            if let Err(e) = sqlite_execute_batch(conn, SCHEMA_SQL) {
                return Err(sql_err(e));
            }
            set_schema_version(conn, SCHEMA_VERSION)
        },
        SchemaStep::Migrate(from) => {
            migrate(conn, from)?;
            set_schema_version(conn, SCHEMA_VERSION)
        },
        SchemaStep::UpToDate => Ok(()),
        SchemaStep::TooNew(found) => Err(RegistryError::NewerSchema { found, supported: SCHEMA_VERSION }),
    }
}

/// Runs the migrations from `from_version` up to the current version, in order.
fn migrate(conn: &Connection, from_version: i32) -> (r: Result<(), RegistryError>)
    ensures
        r matches Err(e) ==> e is Sqlite,
{
    if from_version < 2 {
        migrate_to_v2(conn)?;
    }
    if from_version < 3 {
        migrate_to_v3(conn)?;
    }
    if from_version < 4 {
        migrate_to_v4(conn)?;
    }
    Ok(())
}

/// Migration to v2: makes sure every table exists.
fn migrate_to_v2(conn: &Connection) -> (r: Result<(), RegistryError>)
    ensures
        r matches Err(e) ==> e is Sqlite,
{
    match sqlite_execute_batch(conn, SCHEMA_SQL) {
        Ok(()) => Ok(()),
        Err(e) => Err(sql_err(e)),
    }
}

/// Migration to v3: pattern and regex columns on ownership rules (an error
/// because they exist already is ignored), and the linked-registry tables.
fn migrate_to_v3(conn: &Connection) -> (r: Result<(), RegistryError>)
    ensures
        r matches Err(e) ==> e is Sqlite,
{
    let _ = sqlite_execute_batch(conn, "ALTER TABLE ownership_rules ADD COLUMN pattern TEXT");
    let _ = sqlite_execute_batch(conn, "ALTER TABLE ownership_rules ADD COLUMN regex TEXT");
    match sqlite_execute_batch(
        conn,
        "CREATE TABLE IF NOT EXISTS linked_registries (
            id INTEGER PRIMARY KEY AUTOINCREMENT,
            name TEXT NOT NULL UNIQUE,
            path TEXT NOT NULL,
            linked_at TEXT NOT NULL
        );
        CREATE TABLE IF NOT EXISTS linked_symbols (
            id INTEGER PRIMARY KEY AUTOINCREMENT,
            source_name TEXT NOT NULL,
            name TEXT NOT NULL,
            kind TEXT,
            crate_name TEXT,
            module_path TEXT,
            signature TEXT,
            linked_at TEXT NOT NULL
        );
        CREATE INDEX IF NOT EXISTS idx_linked_name ON linked_symbols(name);",
    ) {
        Ok(()) => Ok(()),
        Err(e) => Err(sql_err(e)),
    }
}

/// Migration to v4: the language column on modules (an error because it exists
/// already is ignored).
fn migrate_to_v4(conn: &Connection) -> (r: Result<(), RegistryError>)
    ensures
        r is Ok,
{
    let _ = sqlite_execute_batch(conn, "ALTER TABLE modules ADD COLUMN language TEXT NOT NULL DEFAULT 'rust'");
    Ok(())
}

/// Runs one statement and gives the id of the inserted row.
fn insert_row(conn: &Connection, sql: &str, params: &Vec<SqlParam>) -> (r: Result<i64, RegistryError>)
    ensures
        r matches Err(e) ==> e is Sqlite,
{
    match sqlite_execute(conn, sql, params) {
        Ok(_) => Ok(sqlite_last_insert_rowid(conn)),
        Err(e) => Err(sql_err(e)),
    }
}

/// Runs an insert-or-update statement, then gives the row id that the
/// lookup `select` finds (the first cell of its first row).
fn upsert_row(
    conn: &Connection,
    sql: &str,
    params: &Vec<SqlParam>,
    select: &str,
    key: &Vec<SqlParam>,
) -> (r: Result<i64, RegistryError>)
    ensures
        r matches Err(e) ==> e is Sqlite,
{
    run_statement(conn, sql, params)?;
    let (_, rows) = match query_rows(conn, select, key) {
        Ok(x) => x,
        Err(e) => {
            return Err(sql_err(e));
        },
    };
    match decode_first_i64(&rows) {
        Some(id) => Ok(id),
        None => Err(bad_row()),
    }
}

/// Runs one statement, giving the number of rows changed.
fn run_statement(conn: &Connection, sql: &str, params: &Vec<SqlParam>) -> (r: Result<usize, RegistryError>)
    ensures
        r matches Err(e) ==> e is Sqlite,
{
    match sqlite_execute(conn, sql, params) {
        Ok(n) => Ok(n),
        Err(e) => Err(sql_err(e)),
    }
}

/// The parameters of the statement that inserts a crate.
pub fn crate_params(c: &Crate) -> (r: Vec<SqlParam>)
    ensures
        params_view(r@) == seq![ParamView::Text(c.name@), ParamView::Text(c.path@), opt_text_view(c.description), opt_text_view(c.bounded_context)],
{
    let mut r: Vec<SqlParam> = Vec::new();
    r.push(text_param(c.name.as_str()));
    r.push(text_param(c.path.as_str()));
    r.push(opt_text_param(&c.description));
    r.push(opt_text_param(&c.bounded_context));
    assert(params_view(r@) =~= seq![ParamView::Text(c.name@), ParamView::Text(c.path@), opt_text_view(c.description), opt_text_view(c.bounded_context)]);
    r
}

/// Inserts a crate, or updates the crate of that name in place (keeping its
/// row id, and so its modules), giving its row id.
pub fn insert_crate(conn: &Connection, c: &Crate) -> (r: Result<i64, RegistryError>)
    ensures
        r matches Err(e) ==> e is Sqlite,
{
    let params = crate_params(c);
    let mut key: Vec<SqlParam> = Vec::new();
    key.push(text_param(c.name.as_str()));
    upsert_row(
        conn,
        "INSERT INTO crates (name, path, description, bounded_context) VALUES (?1, ?2, ?3, ?4) \
         ON CONFLICT(name) DO UPDATE SET path = excluded.path, description = excluded.description, \
         bounded_context = excluded.bounded_context",
        &params,
        "SELECT id FROM crates WHERE name = ?1",
        &key,
    )
}

/// The parameters of the statement that inserts a module.
pub fn module_params(m: &Module) -> (r: Vec<SqlParam>)
    ensures
        params_view(r@) == seq![ParamView::Integer(m.crate_id as int), ParamView::Text(m.path@), ParamView::Text(m.name@), ParamView::Text(m.language.text())],
{
    let mut r: Vec<SqlParam> = Vec::new();
    r.push(SqlParam::Integer(m.crate_id));
    r.push(text_param(m.path.as_str()));
    r.push(text_param(m.name.as_str()));
    r.push(text_param(m.language.as_str()));
    assert(params_view(r@) =~= seq![ParamView::Integer(m.crate_id as int), ParamView::Text(m.path@), ParamView::Text(m.name@), ParamView::Text(m.language.text())]);
    r
}

/// Inserts a module, or updates the module of that path in place (keeping
/// its row id, and so its symbols), giving its row id.
pub fn insert_module(conn: &Connection, m: &Module) -> (r: Result<i64, RegistryError>)
    ensures
        r matches Err(e) ==> e is Sqlite,
{
    let params = module_params(m);
    let mut key: Vec<SqlParam> = Vec::new();
    key.push(text_param(m.path.as_str()));
    upsert_row(
        conn,
        "INSERT INTO modules (crate_id, path, name, language) VALUES (?1, ?2, ?3, ?4) \
         ON CONFLICT(path) DO UPDATE SET crate_id = excluded.crate_id, name = excluded.name, \
         language = excluded.language",
        &params,
        "SELECT id FROM modules WHERE path = ?1",
        &key,
    )
}

/// The parameters of the statement that inserts a symbol.
pub fn symbol_params(s: &Symbol) -> (r: Vec<SqlParam>)
    ensures
        params_view(r@) == seq![ParamView::Integer(s.module_id as int), ParamView::Text(s.name@), ParamView::Text(s.kind.text()), ParamView::Text(s.visibility.text()), opt_text_view(s.signature), opt_int_view(s.line_number), opt_text_view(s.scope), ParamView::Text(s.status.text()), opt_text_view(s.created_by), opt_text_view(s.created_at), opt_text_view(s.updated_at)],
{
    let mut r: Vec<SqlParam> = Vec::new();
    r.push(SqlParam::Integer(s.module_id));
    r.push(text_param(s.name.as_str()));
    r.push(text_param(s.kind.as_str()));
    r.push(text_param(s.visibility.as_str()));
    r.push(opt_text_param(&s.signature));
    r.push(opt_u32_param(s.line_number));
    r.push(opt_text_param(&s.scope));
    r.push(text_param(s.status.as_str()));
    r.push(opt_text_param(&s.created_by));
    r.push(opt_text_param(&s.created_at));
    r.push(opt_text_param(&s.updated_at));
    assert(params_view(r@) =~= seq![ParamView::Integer(s.module_id as int), ParamView::Text(s.name@), ParamView::Text(s.kind.text()), ParamView::Text(s.visibility.text()), opt_text_view(s.signature), opt_int_view(s.line_number), opt_text_view(s.scope), ParamView::Text(s.status.text()), opt_text_view(s.created_by), opt_text_view(s.created_at), opt_text_view(s.updated_at)]);
    r
}

/// Inserts a symbol, giving its row id.
pub fn insert_symbol(conn: &Connection, s: &Symbol) -> (r: Result<i64, RegistryError>)
    ensures
        r matches Err(e) ==> e is Sqlite,
{
    let params = symbol_params(s);
    insert_row(
        conn,
        "INSERT INTO symbols (module_id, name, kind, visibility, signature, line_number, scope, status, created_by, created_at, updated_at) VALUES (?1, ?2, ?3, ?4, ?5, ?6, ?7, ?8, ?9, ?10, ?11)",
        &params,
    )
}

/// The parameters of the statement that inserts a relationship.
pub fn relationship_params(r: &Relationship) -> (out: Vec<SqlParam>)
    ensures
        params_view(out@) == seq![ParamView::Integer(r.from_symbol_id as int), ParamView::Integer(r.to_symbol_id as int), ParamView::Text(r.kind.text())],
{
    let mut out: Vec<SqlParam> = Vec::new();
    out.push(SqlParam::Integer(r.from_symbol_id));
    out.push(SqlParam::Integer(r.to_symbol_id));
    out.push(text_param(r.kind.as_str()));
    assert(params_view(out@) =~= seq![ParamView::Integer(r.from_symbol_id as int), ParamView::Integer(r.to_symbol_id as int), ParamView::Text(r.kind.text())]);
    out
}

/// Inserts a relationship, giving its row id.
pub fn insert_relationship(conn: &Connection, r: &Relationship) -> (out: Result<i64, RegistryError>)
    ensures
        out matches Err(e) ==> e is Sqlite,
{
    let params = relationship_params(r);
    insert_row(
        conn,
        "INSERT INTO relationships (from_symbol_id, to_symbol_id, kind) VALUES (?1, ?2, ?3)",
        &params,
    )
}

/// The parameters of the statement that inserts a contract.
pub fn contract_params(c: &Contract) -> (r: Vec<SqlParam>)
    ensures
        params_view(r@) == seq![ParamView::Integer(c.symbol_id as int), ParamView::Text(c.kind.text()), ParamView::Text(c.description@)],
{
    let mut r: Vec<SqlParam> = Vec::new();
    r.push(SqlParam::Integer(c.symbol_id));
    r.push(text_param(c.kind.as_str()));
    r.push(text_param(c.description.as_str()));
    assert(params_view(r@) =~= seq![ParamView::Integer(c.symbol_id as int), ParamView::Text(c.kind.text()), ParamView::Text(c.description@)]);
    r
}

/// Inserts a contract, giving its row id.
pub fn insert_contract(conn: &Connection, c: &Contract) -> (r: Result<i64, RegistryError>)
    ensures
        r matches Err(e) ==> e is Sqlite,
{
    let params = contract_params(c);
    insert_row(
        conn,
        "INSERT INTO contracts (symbol_id, kind, description) VALUES (?1, ?2, ?3)",
        &params,
    )
}

/// The parameters of the statement that inserts a ownership rule.
pub fn ownership_rule_params(r: &OwnershipRule) -> (out: Vec<SqlParam>)
    ensures
        params_view(out@) == seq![ParamView::Text(r.crate_name@), ParamView::Text(r.description@), ParamView::Text(r.kind.text()), opt_text_view(r.pattern), opt_text_view(r.regex)],
{
    let mut out: Vec<SqlParam> = Vec::new();
    out.push(text_param(r.crate_name.as_str()));
    out.push(text_param(r.description.as_str()));
    out.push(text_param(r.kind.as_str()));
    out.push(opt_text_param(&r.pattern));
    out.push(opt_text_param(&r.regex));
    assert(params_view(out@) =~= seq![ParamView::Text(r.crate_name@), ParamView::Text(r.description@), ParamView::Text(r.kind.text()), opt_text_view(r.pattern), opt_text_view(r.regex)]);
    out
}

/// Inserts an ownership rule, giving its row id.
pub fn insert_ownership_rule(conn: &Connection, r: &OwnershipRule) -> (out: Result<i64, RegistryError>)
    ensures
        out matches Err(e) ==> e is Sqlite,
{
    let params = ownership_rule_params(r);
    insert_row(
        conn,
        "INSERT INTO ownership_rules (crate_name, description, kind, pattern, regex) VALUES (?1, ?2, ?3, ?4, ?5)",
        &params,
    )
}

/// The parameters of the statement that inserts a linked registry.
pub fn linked_registry_params(r: &LinkedRegistry) -> (out: Vec<SqlParam>)
    ensures
        params_view(out@) == seq![ParamView::Text(r.name@), ParamView::Text(r.path@), ParamView::Text(r.linked_at@)],
{
    let mut out: Vec<SqlParam> = Vec::new();
    out.push(text_param(r.name.as_str()));
    out.push(text_param(r.path.as_str()));
    out.push(text_param(r.linked_at.as_str()));
    assert(params_view(out@) =~= seq![ParamView::Text(r.name@), ParamView::Text(r.path@), ParamView::Text(r.linked_at@)]);
    out
}

/// Inserts (or replaces, by name) a linked registry, giving its row id.
pub fn insert_linked_registry(conn: &Connection, r: &LinkedRegistry) -> (out: Result<i64, RegistryError>)
    ensures
        out matches Err(e) ==> e is Sqlite,
{
    let params = linked_registry_params(r);
    insert_row(
        conn,
        "INSERT OR REPLACE INTO linked_registries (name, path, linked_at) VALUES (?1, ?2, ?3)",
        &params,
    )
}

/// The parameters of the statement that inserts a linked symbol.
pub fn linked_symbol_params(s: &LinkedSymbol) -> (r: Vec<SqlParam>)
    ensures
        params_view(r@) == seq![ParamView::Text(s.source_name@), ParamView::Text(s.name@), opt_text_view(s.kind), opt_text_view(s.crate_name), opt_text_view(s.mod_path), opt_text_view(s.signature), ParamView::Text(s.linked_at@)],
{
    let mut r: Vec<SqlParam> = Vec::new();
    r.push(text_param(s.source_name.as_str()));
    r.push(text_param(s.name.as_str()));
    r.push(opt_text_param(&s.kind));
    r.push(opt_text_param(&s.crate_name));
    r.push(opt_text_param(&s.mod_path));
    r.push(opt_text_param(&s.signature));
    r.push(text_param(s.linked_at.as_str()));
    assert(params_view(r@) =~= seq![ParamView::Text(s.source_name@), ParamView::Text(s.name@), opt_text_view(s.kind), opt_text_view(s.crate_name), opt_text_view(s.mod_path), opt_text_view(s.signature), ParamView::Text(s.linked_at@)]);
    r
}

/// Inserts a symbol imported from a linked registry, giving its row id.
pub fn insert_linked_symbol(conn: &Connection, s: &LinkedSymbol) -> (r: Result<i64, RegistryError>)
    ensures
        r matches Err(e) ==> e is Sqlite,
{
    let params = linked_symbol_params(s);
    insert_row(
        conn,
        "INSERT INTO linked_symbols (source_name, name, kind, crate_name, module_path, signature, linked_at) VALUES (?1, ?2, ?3, ?4, ?5, ?6, ?7)",
        &params,
    )
}

/// Updates a symbol in place when the module already has one of that name and
/// kind (its visibility, signature, line, scope, status and update time),
/// else inserts it; gives the row id.
pub fn upsert_symbol(conn: &Connection, s: &Symbol) -> (r: Result<i64, RegistryError>)
    ensures
        r matches Err(e) ==> e is Sqlite,
{
    let key = symbol_key_params(s);
    let existing = match query_rows(
        conn,
        "SELECT id FROM symbols WHERE module_id = ?1 AND name = ?2 AND kind = ?3",
        &key,
    ) {
        Ok((_, rows)) => decode_first_i64(&rows),
        Err(_) => None,
    };
    match existing {
        Some(id) => {
            let params = symbol_update_params(s, id);
            run_statement(
                conn,
                "UPDATE symbols SET visibility = ?1, signature = ?2, line_number = ?3, scope = ?4, status = ?5, updated_at = ?6 WHERE id = ?7",
                &params,
            )?;
            Ok(id)
        },
        None => insert_symbol(conn, s),
    }
}

/// The parameters that find a symbol by its key: module, name and kind.
pub fn symbol_key_params(s: &Symbol) -> (r: Vec<SqlParam>)
    ensures
        params_view(r@) == seq![ParamView::Integer(s.module_id as int), ParamView::Text(s.name@), ParamView::Text(s.kind.text())],
{
    let mut r: Vec<SqlParam> = Vec::new();
    r.push(SqlParam::Integer(s.module_id));
    r.push(text_param(s.name.as_str()));
    r.push(text_param(s.kind.as_str()));
    assert(params_view(r@) =~= seq![ParamView::Integer(s.module_id as int), ParamView::Text(s.name@), ParamView::Text(s.kind.text())]);
    r
}

/// The parameters of the statement that refreshes the symbol with row id `id`:
/// visibility, signature, line, scope, status, update time, then the id.
pub fn symbol_update_params(s: &Symbol, id: i64) -> (r: Vec<SqlParam>)
    ensures
        params_view(r@) == seq![ParamView::Text(s.visibility.text()), opt_text_view(s.signature), opt_int_view(s.line_number), opt_text_view(s.scope), ParamView::Text(s.status.text()), opt_text_view(s.updated_at), ParamView::Integer(id as int)],
{
    let mut r: Vec<SqlParam> = Vec::new();
    r.push(text_param(s.visibility.as_str()));
    r.push(opt_text_param(&s.signature));
    r.push(opt_u32_param(s.line_number));
    r.push(opt_text_param(&s.scope));
    r.push(text_param(s.status.as_str()));
    r.push(opt_text_param(&s.updated_at));
    r.push(SqlParam::Integer(id));
    assert(params_view(r@) =~= seq![ParamView::Text(s.visibility.text()), opt_text_view(s.signature), opt_int_view(s.line_number), opt_text_view(s.scope), ParamView::Text(s.status.text()), opt_text_view(s.updated_at), ParamView::Integer(id as int)]);
    r
}

/// The first cell of the first row, read as an `i64`.
pub open spec fn first_i64(rows: Seq<Vec<SqlValue>>) -> Option<i64> {
    if rows.len() > 0 && rows[0].len() > 0 {
        match rows[0]@[0] {
            SqlValue::Integer(i) => Some(i),
            _ => None,
        }
    } else {
        None
    }
}

/// Reads the first cell of the first row as an `i64`.
pub fn decode_first_i64(rows: &Vec<Vec<SqlValue>>) -> (r: Option<i64>)
    ensures
        r == first_i64(rows@),
{
    if rows.len() == 0 || rows[0].len() == 0 {
        return None;
    }
    read_i64(&rows[0][0])
}

/// Removes a linked registry and the symbols imported from it.
pub fn remove_linked_registry(conn: &Connection, name: &str) -> (r: Result<(), RegistryError>)
    ensures
        r matches Err(e) ==> e is Sqlite,
{
    let mut p: Vec<SqlParam> = Vec::new();
    p.push(text_param(name));
    run_statement(conn, "DELETE FROM linked_symbols WHERE source_name = ?1", &p)?;
    run_statement(conn, "DELETE FROM linked_registries WHERE name = ?1", &p)?;
    Ok(())
}

/// Reads a linked registry from a row `(id, name, path, linked_at)`.
pub fn linked_registry_of_row(row: &Vec<SqlValue>) -> (r: Option<LinkedRegistry>)
    ensures
        match r {
            Some(l) => row.len() >= 4 && row@[0] == SqlValue::Integer(l.id->0) && l.id is Some
                && cell_text(row@[1]) == Some(l.name@) && cell_text(row@[2]) == Some(l.path@)
                && cell_text(row@[3]) == Some(l.linked_at@),
            None => row.len() < 4 || !(row@[0] is Integer) || cell_text(row@[1]) is None
                || cell_text(row@[2]) is None || cell_text(row@[3]) is None,
        },
{
    if row.len() < 4 {
        return None;
    }
    let id = read_i64(&row[0])?;
    let name = read_text(&row[1])?;
    let path = read_text(&row[2])?;
    let linked_at = read_text(&row[3])?;
    Some(LinkedRegistry { id: Some(id), name, path, linked_at })
}

/// Lists all linked registries.
pub fn list_linked_registries(conn: &Connection) -> (r: Result<Vec<LinkedRegistry>, RegistryError>)
    ensures
        r matches Err(e) ==> e is Sqlite,
{
    let (_, rows) = match query_rows(conn, "SELECT id, name, path, linked_at FROM linked_registries", &Vec::new()) {
        Ok(x) => x,
        Err(e) => {
            return Err(sql_err(e));
        },
    };
    let mut out: Vec<LinkedRegistry> = Vec::new();
    let mut i: usize = 0;
    while i < rows.len()
        invariant
            i <= rows.len(),
        decreases rows.len() - i,
    {
        match linked_registry_of_row(&rows[i]) {
            Some(l) => out.push(l),
            None => {
                return Err(bad_row());
            },
        }
        i = i + 1;
    }
    Ok(out)
}

/// Removes the symbols imported from a given linked registry.
pub fn clear_linked_symbols(conn: &Connection, source_name: &str) -> (r: Result<(), RegistryError>)
    ensures
        r matches Err(e) ==> e is Sqlite,
{
    let mut p: Vec<SqlParam> = Vec::new();
    p.push(text_param(source_name));
    run_statement(conn, "DELETE FROM linked_symbols WHERE source_name = ?1", &p)?;
    Ok(())
}

/// A public symbol as `(name, kind, module path, crate name, signature)`.
pub type PublicSymbol = (String, String, String, String, Option<String>);

/// Reads a public symbol from a row of five cells.
pub fn public_symbol_of_row(row: &Vec<SqlValue>) -> (r: Option<PublicSymbol>)
    ensures
        match r {
            Some(t) => row.len() >= 5 && cell_text(row@[0]) == Some(t.0@) && cell_text(row@[1]) == Some(t.1@)
                && cell_text(row@[2]) == Some(t.2@) && cell_text(row@[3]) == Some(t.3@)
                && match t.4 {
                    Some(sg) => cell_text(row@[4]) == Some(sg@),
                    None => row@[4] is Null,
                },
            None => row.len() < 5 || cell_text(row@[0]) is None || cell_text(row@[1]) is None
                || cell_text(row@[2]) is None || cell_text(row@[3]) is None || (!(row@[4] is Null)
                && cell_text(row@[4]) is None),
        },
{
    if row.len() < 5 {
        return None;
    }
    let name = read_text(&row[0])?;
    let kind = read_text(&row[1])?;
    let path = read_text(&row[2])?;
    let crate_name = read_text(&row[3])?;
    let signature = read_opt_text(&row[4])?;
    Some((name, kind, path, crate_name, signature))
}

/// All public symbols of a registry, for linking it from another one.
pub fn query_public_symbols(conn: &Connection) -> (r: Result<Vec<PublicSymbol>, RegistryError>)
    ensures
        r matches Err(e) ==> e is Sqlite,
{
    let (_, rows) = match query_rows(
        conn,
        "SELECT s.name, s.kind, m.path, c.name, s.signature
         FROM symbols s
         JOIN modules m ON s.module_id = m.id
         JOIN crates c ON m.crate_id = c.id
         WHERE s.visibility = 'public'",
        &Vec::new(),
    ) {
        Ok(x) => x,
        Err(e) => {
            return Err(sql_err(e));
        },
    };
    let mut out: Vec<PublicSymbol> = Vec::new();
    let mut i: usize = 0;
    while i < rows.len()
        invariant
            i <= rows.len(),
        decreases rows.len() - i,
    {
        match public_symbol_of_row(&rows[i]) {
            Some(t) => out.push(t),
            None => {
                return Err(bad_row());
            },
        }
        i = i + 1;
    }
    Ok(out)
}

/// Records that one crate depends on another (a duplicate is ignored).
pub fn insert_crate_dependency(conn: &Connection, from_crate_id: i64, to_crate_id: i64) -> (r: Result<(), RegistryError>)
    ensures
        r matches Err(e) ==> e is Sqlite,
{
    let mut p: Vec<SqlParam> = Vec::new();
    p.push(SqlParam::Integer(from_crate_id));
    p.push(SqlParam::Integer(to_crate_id));
    run_statement(
        conn,
        "INSERT OR IGNORE INTO crate_dependencies (from_crate_id, to_crate_id) VALUES (?1, ?2)",
        &p,
    )?;
    Ok(())
}

/// Removes all crate dependencies.
pub fn clear_crate_dependencies(conn: &Connection) -> (r: Result<(), RegistryError>)
    ensures
        r matches Err(e) ==> e is Sqlite,
{
    run_statement(conn, "DELETE FROM crate_dependencies", &Vec::new())?;
    Ok(())
}

/// Removes all symbols of a module, giving how many there were.
pub fn delete_symbols_for_module(conn: &Connection, module_id: i64) -> (r: Result<usize, RegistryError>)
    ensures
        r matches Err(e) ==> e is Sqlite,
{
    let mut p: Vec<SqlParam> = Vec::new();
    p.push(SqlParam::Integer(module_id));
    run_statement(conn, "DELETE FROM symbols WHERE module_id = ?1", &p)
}

/// The language named in a cell: the stored name of a language, else Rust.
pub open spec fn language_of_cell(v: SqlValue) -> Language {
    match cell_text(v) {
        Some(t) => match Language::from_text(t) {
            Some(l) => l,
            None => Language::Rust,
        },
        None => Language::Rust,
    }
}

/// Whether `m` is what the row `(id, crate_id, path, name, language)` reads as.
pub open spec fn module_row_reads(row: Seq<SqlValue>, m: Module) -> bool {
    &&& row.len() >= 5
    &&& m.id is Some && row[0] == SqlValue::Integer(m.id->0) && row[1] == SqlValue::Integer(m.crate_id)
    &&& cell_text(row[2]) == Some(m.path@) && cell_text(row[3]) == Some(m.name@)
    &&& m.language == language_of_cell(row[4])
}

/// Whether `c` is what the row `(id, name, path, description, bounded_context)`
/// reads as.
pub open spec fn crate_row_reads(row: Seq<SqlValue>, c: Crate) -> bool {
    &&& row.len() >= 5
    &&& c.id is Some && row[0] == SqlValue::Integer(c.id->0) && cell_text(row[1]) == Some(c.name@)
    &&& cell_text(row[2]) == Some(c.path@)
    &&& match c.description {
        Some(d) => cell_text(row[3]) == Some(d@),
        None => row[3] is Null,
    }
    &&& match c.bounded_context {
        Some(b) => cell_text(row[4]) == Some(b@),
        None => row[4] is Null,
    }
}

/// Reads a module from a row `(id, crate_id, path, name, language)`; a
/// language cell that names no language reads as Rust.
pub fn module_of_row(row: &Vec<SqlValue>) -> (r: Option<Module>)
    requires
        row.len() >= 5,
    ensures
        match r {
            Some(m) => module_row_reads(row@, m),
            None => !(row@[0] is Integer) || !(row@[1] is Integer) || cell_text(row@[2]) is None
                || cell_text(row@[3]) is None,
        },
{
    let id = read_i64(&row[0])?;
    let crate_id = read_i64(&row[1])?;
    let path = read_text(&row[2])?;
    let name = read_text(&row[3])?;
    let language = match read_text(&row[4]) {
        Some(t) => match Language::parse(t.as_str()) {
            Ok(l) => l,
            Err(_) => Language::Rust,
        },
        None => Language::Rust,
    };
    Some(Module { id: Some(id), crate_id, path, name, language })
}

/// The module stored under a file path, if any (a row that cannot be read
/// counts as none).
pub fn find_module_by_path(conn: &Connection, path: &str) -> (r: Result<Option<Module>, RegistryError>)
    ensures
        r matches Err(e) ==> e is Sqlite,
        r matches Ok(Some(m)) ==> exists|row: Seq<SqlValue>| module_row_reads(row, m),
{
    let mut p: Vec<SqlParam> = Vec::new();
    p.push(text_param(path));
    let (n, rows) = match query_rows(conn, "SELECT id, crate_id, path, name, language FROM modules WHERE path = ?1", &p) {
        Ok(x) => x,
        Err(e) => {
            return Err(sql_err(e));
        },
    };
    if rows.len() == 0 || n < 5 {
        return Ok(None);
    }
    let r = module_of_row(&rows[0]);
    proof {
        if r is Some {
            assert(module_row_reads(rows@[0]@, r->0));
        }
    }
    Ok(r)
}

/// Reads a crate from a row `(id, name, path, description, bounded_context)`.
pub fn crate_of_row(row: &Vec<SqlValue>) -> (r: Option<Crate>)
    requires
        row.len() >= 5,
    ensures
        match r {
            Some(c) => crate_row_reads(row@, c),
            None => !(row@[0] is Integer) || cell_text(row@[1]) is None || cell_text(row@[2]) is None
                || (!(row@[3] is Null) && cell_text(row@[3]) is None) || (!(row@[4] is Null) && cell_text(row@[4]) is None),
        },
{
    let id = read_i64(&row[0])?;
    let name = read_text(&row[1])?;
    let path = read_text(&row[2])?;
    let description = read_opt_text(&row[3])?;
    let bounded_context = read_opt_text(&row[4])?;
    Some(Crate { id: Some(id), name, path, description, bounded_context })
}

/// The crate of a given name, if any (a row that cannot be read counts as none).
pub fn find_crate_by_name(conn: &Connection, name: &str) -> (r: Result<Option<Crate>, RegistryError>)
    ensures
        r matches Err(e) ==> e is Sqlite,
        r matches Ok(Some(c)) ==> exists|row: Seq<SqlValue>| crate_row_reads(row, c),
{
    let mut p: Vec<SqlParam> = Vec::new();
    p.push(text_param(name));
    let (n, rows) = match query_rows(conn, "SELECT id, name, path, description, bounded_context FROM crates WHERE name = ?1", &p) {
        Ok(x) => x,
        Err(e) => {
            return Err(sql_err(e));
        },
    };
    if rows.len() == 0 || n < 5 {
        return Ok(None);
    }
    let r = crate_of_row(&rows[0]);
    proof {
        if r is Some {
            assert(crate_row_reads(rows@[0]@, r->0));
        }
    }
    Ok(r)
}

/// The id of the first symbol with a given name and kind, if any.
pub fn find_symbol_id_by_name_and_kind(conn: &Connection, name: &str, kind: &str) -> (r: Result<Option<i64>, RegistryError>)
    ensures
        r is Ok,
{
    let mut p: Vec<SqlParam> = Vec::new();
    p.push(text_param(name));
    p.push(text_param(kind));
    match query_rows(conn, "SELECT id FROM symbols WHERE name = ?1 AND kind = ?2 LIMIT 1", &p) {
        Ok((_, rows)) => Ok(decode_first_i64(&rows)),
        Err(_) => Ok(None),
    }
}

/// The id of the first symbol with a given name, of any kind, if any.
pub fn find_symbol_id_by_name(conn: &Connection, name: &str) -> (r: Result<Option<i64>, RegistryError>)
    ensures
        r is Ok,
{
    let mut p: Vec<SqlParam> = Vec::new();
    p.push(text_param(name));
    match query_rows(conn, "SELECT id FROM symbols WHERE name = ?1 LIMIT 1", &p) {
        Ok((_, rows)) => Ok(decode_first_i64(&rows)),
        Err(_) => Ok(None),
    }
}

/// Runs a seed file after checking it: it is refused, with nothing run, exactly
/// when a statement (comments removed) is anything but an
/// `INSERT INTO ownership_rules`; the error lists the refused statements.
pub fn execute_seed_sql(conn: &Connection, sql: &str) -> (r: Result<(), RegistryError>)
    ensures
        (r matches Err(RegistryError::SeedRejected(_))) <==> rejected_of(seed_statements(sql@)).len() > 0,
        r matches Err(RegistryError::SeedRejected(m)) ==> m@ == rejection_text(rejected_of(seed_statements(sql@))),
        r matches Err(e) ==> (e is Sqlite || e is SeedRejected),
{
    let rejected = seed_rejections(sql);
    if rejected.len() > 0 {
        let msg = rejection_message(&rejected);
        return Err(RegistryError::SeedRejected(msg));
    }
    let stmts = seed_statement_list(sql);
    let mut i: usize = 0;
    while i < stmts.len()
        invariant
            i <= stmts.len(),
            rejected_of(seed_statements(sql@)).len() == 0,
        decreases stmts.len() - i,
    {
        if let Err(e) = sqlite_execute_batch(conn, stmts[i].as_str()) {
            return Err(sql_err(e));
        }
        i = i + 1;
    }
    Ok(())
}

} // verus!
