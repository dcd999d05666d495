use rulest::models::{Crate, Language, Module, Symbol, SymbolKind, SymbolStatus, Visibility};
use rulest::registry::{
    create_schema, execute_seed_sql, find_crate_by_name, get_schema_version, insert_crate, insert_module,
    set_schema_version, upsert_symbol, SCHEMA_SQL, SCHEMA_VERSION,
};
use rusqlite::Connection;

#[test]
fn test_schema_creation() {
    let conn = Connection::open_in_memory().unwrap();
    create_schema(&conn).unwrap();

    let count: i64 = conn.query_row("SELECT COUNT(*) FROM crates", [], |row| row.get(0)).unwrap();
    assert_eq!(count, 0);
}

#[test]
fn test_insert_and_find_crate() {
    let conn = Connection::open_in_memory().unwrap();
    create_schema(&conn).unwrap();

    let c = Crate {
        id: None,
        name: "my-crate".to_string(),
        path: "/path/to/crate".to_string(),
        description: Some("A test crate".to_string()),
        bounded_context: None,
    };
    let id = insert_crate(&conn, &c).unwrap();
    assert!(id > 0);

    let found = find_crate_by_name(&conn, "my-crate").unwrap();
    assert!(found.is_some());
    assert_eq!(found.unwrap().name, "my-crate");
}

#[test]
fn test_upsert_symbol() {
    let conn = Connection::open_in_memory().unwrap();
    create_schema(&conn).unwrap();

    let c = Crate {
        id: None,
        name: "test".to_string(),
        path: ".".to_string(),
        description: None,
        bounded_context: None,
    };
    let crate_id = insert_crate(&conn, &c).unwrap();

    let m = Module {
        id: None,
        crate_id,
        path: "src/lib.rs".to_string(),
        name: "lib".to_string(),
        language: Language::Rust,
    };
    let module_id = insert_module(&conn, &m).unwrap();

    let s = Symbol {
        id: None,
        module_id,
        name: "foo".to_string(),
        kind: SymbolKind::Function,
        visibility: Visibility::Public,
        signature: Some("fn foo() -> i32".to_string()),
        line_number: None,
        scope: None,
        status: SymbolStatus::Planned,
        created_by: None,
        created_at: None,
        updated_at: None,
    };
    let id1 = upsert_symbol(&conn, &s).unwrap();

    let s2 = Symbol { status: SymbolStatus::Stable, ..s.clone() };
    let id2 = upsert_symbol(&conn, &s2).unwrap();
    assert_eq!(id1, id2);

    let status: String = conn
        .query_row("SELECT status FROM symbols WHERE id = ?1", [id1], |row| row.get(0))
        .unwrap();
    assert_eq!(status, "stable");
}

#[test]
fn test_seed_sql_valid_insert() {
    let conn = Connection::open_in_memory().unwrap();
    create_schema(&conn).unwrap();

    let sql = "INSERT INTO ownership_rules (crate_name, description, kind) VALUES ('my-crate', 'owns core logic', 'must_own');";
    execute_seed_sql(&conn, sql).unwrap();

    let count: i64 = conn.query_row("SELECT COUNT(*) FROM ownership_rules", [], |row| row.get(0)).unwrap();
    assert_eq!(count, 1);
}

#[test]
fn test_seed_sql_rejects_drop() {
    let conn = Connection::open_in_memory().unwrap();
    create_schema(&conn).unwrap();

    let sql = "DROP TABLE ownership_rules;";
    let result = execute_seed_sql(&conn, sql);
    assert!(result.is_err());
    let err_msg = result.unwrap_err().message();
    assert!(err_msg.contains("rejected"), "error should mention rejected statements: {err_msg}");
}

#[test]
fn test_seed_sql_rejects_delete() {
    let conn = Connection::open_in_memory().unwrap();
    create_schema(&conn).unwrap();

    let sql = "DELETE FROM ownership_rules;";
    let result = execute_seed_sql(&conn, sql);
    assert!(result.is_err());
}

#[test]
fn test_seed_sql_rejects_update() {
    let conn = Connection::open_in_memory().unwrap();
    create_schema(&conn).unwrap();

    let sql = "UPDATE ownership_rules SET kind = 'shared_with' WHERE id = 1;";
    let result = execute_seed_sql(&conn, sql);
    assert!(result.is_err());
}

#[test]
fn test_seed_sql_allows_comments_and_whitespace() {
    let conn = Connection::open_in_memory().unwrap();
    create_schema(&conn).unwrap();

    let sql = r#"
-- This is a comment
/* Block comment */

INSERT INTO ownership_rules (crate_name, description, kind) VALUES ('a', 'rule a', 'must_own');

-- Another comment
INSERT INTO ownership_rules (crate_name, description, kind) VALUES ('b', 'rule b', 'must_not');
"#;
    execute_seed_sql(&conn, sql).unwrap();

    let count: i64 = conn.query_row("SELECT COUNT(*) FROM ownership_rules", [], |row| row.get(0)).unwrap();
    assert_eq!(count, 2);
}

#[test]
fn test_seed_sql_rejects_insert_into_other_table() {
    let conn = Connection::open_in_memory().unwrap();
    create_schema(&conn).unwrap();

    let sql = "INSERT INTO crates (name, path) VALUES ('evil', '/tmp');";
    let result = execute_seed_sql(&conn, sql);
    assert!(result.is_err());
}

#[test]
fn test_fresh_database_gets_schema_version() {
    let conn = Connection::open_in_memory().unwrap();
    assert_eq!(get_schema_version(&conn).unwrap(), 0);

    create_schema(&conn).unwrap();
    assert_eq!(get_schema_version(&conn).unwrap(), SCHEMA_VERSION);
}

#[test]
fn test_create_schema_idempotent() {
    let conn = Connection::open_in_memory().unwrap();
    create_schema(&conn).unwrap();

    let c = Crate {
        id: None,
        name: "idempotent-test".to_string(),
        path: "/tmp".to_string(),
        description: None,
        bounded_context: None,
    };
    insert_crate(&conn, &c).unwrap();

    create_schema(&conn).unwrap();

    let found = find_crate_by_name(&conn, "idempotent-test").unwrap();
    assert!(found.is_some());
    assert_eq!(get_schema_version(&conn).unwrap(), SCHEMA_VERSION);
}

#[test]
fn test_get_set_schema_version() {
    let conn = Connection::open_in_memory().unwrap();
    assert_eq!(get_schema_version(&conn).unwrap(), 0);

    set_schema_version(&conn, 5).unwrap();
    assert_eq!(get_schema_version(&conn).unwrap(), 5);

    set_schema_version(&conn, 42).unwrap();
    assert_eq!(get_schema_version(&conn).unwrap(), 42);
}

#[test]
fn test_newer_version_returns_error() {
    let conn = Connection::open_in_memory().unwrap();
    set_schema_version(&conn, SCHEMA_VERSION + 1).unwrap();

    let result = create_schema(&conn);
    assert!(result.is_err());
}

#[test]
fn test_migration_from_pre_migration_database() {
    let conn = Connection::open_in_memory().unwrap();
    conn.execute_batch(SCHEMA_SQL).unwrap();
    assert_eq!(get_schema_version(&conn).unwrap(), 0);

    create_schema(&conn).unwrap();
    assert_eq!(get_schema_version(&conn).unwrap(), SCHEMA_VERSION);
}

#[test]
fn test_migration_from_v1() {
    let conn = Connection::open_in_memory().unwrap();
    conn.execute_batch(SCHEMA_SQL).unwrap();
    set_schema_version(&conn, 1).unwrap();

    create_schema(&conn).unwrap();
    assert_eq!(get_schema_version(&conn).unwrap(), SCHEMA_VERSION);
}

#[test]
fn newer_schema_error_names_both_versions() {
    let conn = Connection::open_in_memory().unwrap();
    set_schema_version(&conn, 10).unwrap();
    let err = create_schema(&conn).unwrap_err();
    assert_eq!(
        err.message(),
        format!("database schema version 10 is newer than supported version {}", SCHEMA_VERSION)
    );
}

#[test]
fn seed_rejection_lists_each_refused_statement() {
    let conn = Connection::open_in_memory().unwrap();
    create_schema(&conn).unwrap();
    let sql = "INSERT INTO ownership_rules (crate_name, description, kind) VALUES ('a', 'b', 'must_own'); DELETE FROM crates; DROP TABLE symbols;";
    let err = execute_seed_sql(&conn, sql).unwrap_err().message();
    assert!(err.contains("DELETE FROM crates"), "{err}");
    assert!(err.contains("DROP TABLE symbols"), "{err}");
    let count: i64 = conn.query_row("SELECT COUNT(*) FROM ownership_rules", [], |row| row.get(0)).unwrap();
    assert_eq!(count, 0, "nothing runs when a statement is refused");
}

#[test]
fn upsert_refreshes_each_column_in_place() {
    let conn = Connection::open_in_memory().unwrap();
    create_schema(&conn).unwrap();
    let c = Crate { id: None, name: "core".to_string(), path: "crates/core".to_string(), description: None, bounded_context: None };
    let crate_id = insert_crate(&conn, &c).unwrap();
    let m = Module { id: None, crate_id, path: "crates/core/src/lib.rs".to_string(), name: "lib".to_string(), language: Language::Rust };
    let module_id = insert_module(&conn, &m).unwrap();
    let s = Symbol {
        id: None,
        module_id,
        name: "run".to_string(),
        kind: SymbolKind::Function,
        visibility: Visibility::Private,
        signature: None,
        line_number: Some(3),
        scope: None,
        status: SymbolStatus::Planned,
        created_by: Some("agent".to_string()),
        created_at: None,
        updated_at: None,
    };
    let id1 = upsert_symbol(&conn, &s).unwrap();
    let s2 = Symbol {
        visibility: Visibility::Public,
        signature: Some("fn run()".to_string()),
        line_number: Some(9),
        scope: Some("impl Engine".to_string()),
        status: SymbolStatus::Wip,
        updated_at: Some("2024-01-02T00:00:00Z".to_string()),
        ..s.clone()
    };
    assert_eq!(upsert_symbol(&conn, &s2).unwrap(), id1);
    let row: (String, String, i64, String, String, String, String) = conn
        .query_row(
            "SELECT visibility, signature, line_number, scope, status, updated_at, created_by FROM symbols WHERE id = ?1",
            [id1],
            |r| Ok((r.get(0)?, r.get(1)?, r.get(2)?, r.get(3)?, r.get(4)?, r.get(5)?, r.get(6)?)),
        )
        .unwrap();
    assert_eq!(row.0, "public");
    assert_eq!(row.1, "fn run()");
    assert_eq!(row.2, 9);
    assert_eq!(row.3, "impl Engine");
    assert_eq!(row.4, "wip");
    assert_eq!(row.5, "2024-01-02T00:00:00Z");
    assert_eq!(row.6, "agent");
    let count: i64 = conn.query_row("SELECT COUNT(*) FROM symbols", [], |r| r.get(0)).unwrap();
    assert_eq!(count, 1);
}
