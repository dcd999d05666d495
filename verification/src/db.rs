//! The SQLite calls that the registry makes, through `rusqlite`. Parameters and
//! result cells travel as plain values; what a query returns depends on what
//! the database holds, so nothing is stated of it here.
use vstd::prelude::*;

use rusqlite::{Connection, Statement};

verus! {

#[verifier::external_type_specification]
#[verifier::external_body]
pub struct ExConnection(rusqlite::Connection);

#[verifier::external_type_specification]
#[verifier::external_body]
pub struct ExStatement<'a>(rusqlite::Statement<'a>);

#[verifier::external_type_specification]
#[verifier::external_body]
pub struct ExSqliteError(rusqlite::Error);

#[verifier::external_type_specification]
#[verifier::external_body]
pub struct ExSqliteValue(rusqlite::types::Value);

/// A value bound to a `?` parameter of a statement.
#[derive(Debug, Clone)]
pub enum SqlParam {
    Null,
    Integer(i64),
    Text(String),
}

/// A cell of a result row.
#[derive(Debug, Clone)]
pub enum SqlValue {
    Null,
    Integer(i64),
    Real,
    Text(String),
    Blob(Vec<u8>),
}

/// `Connection::open`: opens (or creates) the database file at `path`.
#[verifier::external_body]
pub(crate) fn sqlite_open(path: &str) -> (r: Result<Connection, rusqlite::Error>) {
    Connection::open(path)
}

/// `Connection::execute_batch`: runs the statements of `sql` in turn.
#[verifier::external_body]
pub(crate) fn sqlite_execute_batch(conn: &Connection, sql: &str) -> (r: Result<(), rusqlite::Error>) {
    conn.execute_batch(sql)
}

/// A result cell as a plain value; a real number keeps no value.
#[verifier::external_body]
fn sqlite_cell(v: &rusqlite::types::Value) -> SqlValue {
    match v {
        rusqlite::types::Value::Null => SqlValue::Null,
        rusqlite::types::Value::Integer(i) => SqlValue::Integer(*i),
        rusqlite::types::Value::Real(_) => SqlValue::Real,
        rusqlite::types::Value::Text(s) => SqlValue::Text(s.clone()),
        rusqlite::types::Value::Blob(b) => SqlValue::Blob(b.clone()),
    }
}

/// `Connection::execute`: runs one statement with `params` bound in order
/// (`NULL`, an integer or a text value each, as `rusqlite::types::Value`),
/// giving the number of rows changed.
#[verifier::external_body]
pub(crate) fn sqlite_execute(conn: &Connection, sql: &str, params: &Vec<SqlParam>) -> (r: Result<usize, rusqlite::Error>) {
    let values = params.iter().map(|p| match p {
        SqlParam::Null => rusqlite::types::Value::Null,
        SqlParam::Integer(i) => rusqlite::types::Value::Integer(*i),
        SqlParam::Text(t) => rusqlite::types::Value::Text(t.clone()),
    });
    conn.execute(sql, rusqlite::params_from_iter(values))
}

/// `Connection::last_insert_rowid`: the row id of the latest insertion.
#[verifier::external_body]
pub(crate) fn sqlite_last_insert_rowid(conn: &Connection) -> (r: i64) {
    conn.last_insert_rowid()
}

/// `Connection::prepare`: compiles one statement.
#[verifier::external_body]
pub(crate) fn sqlite_prepare<'a>(conn: &'a Connection, sql: &str) -> (r: Result<Statement<'a>, rusqlite::Error>) {
    conn.prepare(sql)
}

/// `Statement::column_count`: the number of columns of the statement's rows.
#[verifier::external_body]
pub(crate) fn sqlite_column_count(stmt: &Statement) -> (r: usize) {
    stmt.column_count()
}

/// `Statement::query_map`: runs the statement with `params` bound in order
/// (`NULL`, an integer or a text value each, as `rusqlite::types::Value`),
/// giving each result row as its first `n` cells.
#[verifier::external_body]
fn sqlite_query_values(stmt: &mut Statement, params: &Vec<SqlParam>, n: usize) -> (r: Result<Vec<Vec<rusqlite::types::Value>>, rusqlite::Error>)
    ensures
        r matches Ok(rows) ==> forall|i: int| 0 <= i < rows.len() ==> (#[trigger] rows[i]).len() == n,
{
    let values = params.iter().map(|p| match p {
        SqlParam::Null => rusqlite::types::Value::Null,
        SqlParam::Integer(i) => rusqlite::types::Value::Integer(*i),
        SqlParam::Text(t) => rusqlite::types::Value::Text(t.clone()),
    });
    let rows = stmt.query_map(rusqlite::params_from_iter(values), |row| (0..n).map(|i| row.get(i)).collect())?;
    rows.collect()
}

/// Runs a statement with `params` bound, giving each result row as its first
/// `n` cells.
pub(crate) fn sqlite_query_rows(stmt: &mut Statement, params: &Vec<SqlParam>, n: usize) -> (r: Result<Vec<Vec<SqlValue>>, rusqlite::Error>)
    ensures
        r matches Ok(rows) ==> forall|i: int| 0 <= i < rows.len() ==> (#[trigger] rows[i]).len() == n,
{
    let raw = sqlite_query_values(stmt, params, n)?;
    let mut rows: Vec<Vec<SqlValue>> = Vec::new();
    let mut i: usize = 0;
    while i < raw.len()
        invariant
            i <= raw.len(),
            forall|k: int| 0 <= k < raw.len() ==> (#[trigger] raw[k]).len() == n,
            rows.len() == i,
            forall|k: int| 0 <= k < rows.len() ==> (#[trigger] rows[k]).len() == n,
        decreases raw.len() - i,
    {
        let mut cells: Vec<SqlValue> = Vec::new();
        let mut j: usize = 0;
        while j < raw[i].len()
            invariant
                i < raw.len(),
                j <= raw[i as int].len(),
                cells.len() == j,
            decreases raw[i as int].len() - j,
        {
            cells.push(sqlite_cell(&raw[i][j]));
            j = j + 1;
        }
        rows.push(cells);
        i = i + 1;
    }
    Ok(rows)
}

/// The text of a SQLite error (`Display` of `rusqlite::Error`).
#[verifier::external_body]
pub(crate) fn sqlite_error_text(e: &rusqlite::Error) -> (r: String) {
    e.to_string()
}

/// Runs a query and gives its rows, each with one cell per column.
pub fn query_rows(conn: &Connection, sql: &str, params: &Vec<SqlParam>) -> (r: Result<(usize, Vec<Vec<SqlValue>>), rusqlite::Error>)
    ensures
        r matches Ok((n, rows)) ==> forall|i: int| 0 <= i < rows.len() ==> (#[trigger] rows[i]).len() == n,
{
    let mut stmt = sqlite_prepare(conn, sql)?;
    let n = sqlite_column_count(&stmt);
    let rows = sqlite_query_rows(&mut stmt, params, n)?;
    Ok((n, rows))
}

// ---------------------------------------------------------------- reading cells

/// The text of a cell that holds text.
pub open spec fn cell_text(v: SqlValue) -> Option<Seq<char>> {
    match v {
        SqlValue::Text(s) => Some(s@),
        _ => None,
    }
}

/// A `String` read from a cell, which must hold text.
pub fn read_text(v: &SqlValue) -> (r: Option<String>)
    ensures
        match r {
            Some(s) => cell_text(*v) == Some(s@),
            None => cell_text(*v) is None,
        },
{
    match v {
        SqlValue::Text(s) => Some(s.clone()),
        _ => None,
    }
}

/// An optional `String` read from a cell: `NULL` gives `None`, text gives the
/// text, anything else fails.
pub fn read_opt_text(v: &SqlValue) -> (r: Option<Option<String>>)
    ensures
        match r {
            Some(None) => *v is Null,
            Some(Some(s)) => cell_text(*v) == Some(s@),
            None => !(*v is Null) && cell_text(*v) is None,
        },
{
    match v {
        SqlValue::Null => Some(None),
        SqlValue::Text(s) => Some(Some(s.clone())),
        _ => None,
    }
}

/// An `i64` read from a cell, which must hold an integer.
pub fn read_i64(v: &SqlValue) -> (r: Option<i64>)
    ensures
        match r {
            Some(i) => *v == SqlValue::Integer(i),
            None => !(*v is Integer),
        },
{
    match v {
        SqlValue::Integer(i) => Some(*i),
        _ => None,
    }
}

/// An optional `u32` read from a cell: `NULL` gives `None`, an integer in range
/// gives its value, anything else fails.
pub fn read_opt_u32(v: &SqlValue) -> (r: Option<Option<u32>>)
    ensures
        match r {
            Some(None) => *v is Null,
            Some(Some(n)) => *v == SqlValue::Integer(n as i64),
            None => !(*v is Null) && !(*v matches SqlValue::Integer(i) && 0 <= i <= u32::MAX),
        },
{
    match v {
        SqlValue::Null => Some(None),
        SqlValue::Integer(i) => {
            if *i >= 0 && *i <= 4294967295 {
                Some(Some(*i as u32))
            } else {
                None
            }
        },
        _ => None,
    }
}

/// A `usize` read from a cell, which must hold an integer in range.
pub fn read_usize(v: &SqlValue) -> (r: Option<usize>)
    ensures
        match r {
            Some(n) => *v matches SqlValue::Integer(i) && i == n,
            None => !(*v matches SqlValue::Integer(i) && 0 <= i <= usize::MAX),
        },
{
    match v {
        SqlValue::Integer(i) => {
            if *i >= 0 && (*i as u64) <= (usize::MAX as u64) {
                Some(*i as usize)
            } else {
                None
            }
        },
        _ => None,
    }
}

/// The text of a parameter.
pub fn text_param(s: &str) -> (r: SqlParam)
    ensures
        r matches SqlParam::Text(t) && t@ == s@,
        param_view(r) == ParamView::Text(s@),
{
    SqlParam::Text(crate::text::owned(s))
}

/// An optional text parameter: `None` binds `NULL`.
pub fn opt_text_param(s: &Option<String>) -> (r: SqlParam)
    ensures
        match *s {
            Some(t) => r matches SqlParam::Text(u) && u@ == t@,
            None => r is Null,
        },
        param_view(r) == opt_text_view(*s),
{
    match s {
        Some(t) => SqlParam::Text(t.clone()),
        None => SqlParam::Null,
    }
}

/// The plain content of a parameter.
pub enum ParamView {
    Null,
    Integer(int),
    Text(Seq<char>),
}

/// The plain content of a parameter.
pub open spec fn param_view(p: SqlParam) -> ParamView {
    match p {
        SqlParam::Null => ParamView::Null,
        SqlParam::Integer(i) => ParamView::Integer(i as int),
        SqlParam::Text(s) => ParamView::Text(s@),
    }
}

/// The plain content of the parameters.
pub open spec fn params_view(ps: Seq<SqlParam>) -> Seq<ParamView> {
    ps.map_values(|p: SqlParam| param_view(p))
}

/// The parameter for an optional text: `NULL` for `None`.
pub open spec fn opt_text_view(o: Option<String>) -> ParamView {
    match o {
        Some(s) => ParamView::Text(s@),
        None => ParamView::Null,
    }
}

/// The parameter for an optional number: `NULL` for `None`.
pub open spec fn opt_int_view(o: Option<u32>) -> ParamView {
    match o {
        Some(n) => ParamView::Integer(n as int),
        None => ParamView::Null,
    }
}

/// An optional number parameter: `None` binds `NULL`.
pub fn opt_u32_param(o: Option<u32>) -> (r: SqlParam)
    ensures
        param_view(r) == opt_int_view(o),
{
    match o {
        Some(n) => SqlParam::Integer(n as i64),
        None => SqlParam::Null,
    }
}

} // verus!
