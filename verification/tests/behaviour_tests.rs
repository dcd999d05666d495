//! Tests of the seed check, the rule and pattern matching, the tool list, the
//! reuse search, plan registration, the query command and stable row ids.
use rulest::advisory::{Advisory, PlannedAction};
use rulest::cli::replace_text;
use rulest::matching::{regex_matches, symbol_matches_rule};
use rulest::mcp::{tool_definitions, ParamKind};
use rulest::models::{Crate, Language, Module, Symbol, SymbolKind, SymbolStatus, Visibility};
use rulest::queries::{check_wip, register_plan, suggest_reuse};
use rulest::query::{run, QueryArgs};
use rulest::registry::{create_schema, execute_seed_sql, insert_crate, insert_module, insert_symbol, RegistryError};
use rusqlite::Connection;

fn fresh() -> Connection {
    let conn = Connection::open_in_memory().unwrap();
    create_schema(&conn).unwrap();
    conn
}

fn krate(name: &str) -> Crate {
    Crate { id: None, name: name.to_string(), path: format!("crates/{}", name), description: None, bounded_context: None }
}

fn module(crate_id: i64, path: &str, name: &str) -> Module {
    Module { id: None, crate_id, path: path.to_string(), name: name.to_string(), language: Language::Rust }
}

fn count(conn: &Connection, sql: &str) -> i64 {
    conn.query_row(sql, [], |row| row.get(0)).unwrap()
}

#[test]
fn seed_refuses_a_table_that_only_begins_with_ownership_rules() {
    let conn = fresh();
    let sql = "INSERT INTO ownership_rules (crate_name, description, kind) VALUES ('a', 'r', 'must_own'); INSERT INTO ownership_rulesx VALUES (1);";
    let r = execute_seed_sql(&conn, sql);
    assert!(matches!(r, Err(RegistryError::SeedRejected(_))), "got {:?}", r);
    assert_eq!(count(&conn, "SELECT COUNT(*) FROM ownership_rules"), 0);
    let ok = execute_seed_sql(&conn, "INSERT INTO ownership_rules(crate_name, description, kind) VALUES ('a', 'r', 'must_own');");
    assert!(ok.is_ok(), "got {:?}", ok);
    assert_eq!(count(&conn, "SELECT COUNT(*) FROM ownership_rules"), 1);
}

#[test]
fn camel_case_parts_match_rule_stems() {
    assert!(symbol_matches_rule("ClientRouter", "No routing"));
    assert!(!symbol_matches_rule("Ledger", "No routing"));
}

#[test]
fn regex_groups_and_alternatives() {
    assert!(regex_matches("PgPool", "^(Pg|Sql)"));
    assert!(!regex_matches("MyPg", "^(Pg|Sql)"));
    assert!(regex_matches("UserRepo", "Repo$"));
    assert!(regex_matches("SqlRepo", "^(SqlRepo|X)$"));
    assert!(!regex_matches("SqlRepoX", "^(SqlRepo|X)$"));
    assert!(regex_matches("MyHttpClient", "Http"));
    assert!(regex_matches("Sql", "(Pg | Sql)"));
    assert!(!regex_matches("A", "(A)|(B)"));
    assert!(regex_matches("XA)Y", "(A)|(B)"));
}

#[test]
fn each_tool_lists_its_parameters() {
    let t = tool_definitions();
    let names: Vec<&str> = t.iter().map(|d| d.name.as_str()).collect();
    assert_eq!(
        names,
        vec!["validate_creation", "validate_dependency", "validate_boundary", "check_wip", "suggest_reuse", "register_plan", "validate_plan"]
    );
    let required: Vec<Vec<&str>> = t.iter().map(|d| d.required.iter().map(|s| s.as_str()).collect()).collect();
    assert_eq!(
        required,
        vec![
            vec!["symbol_name", "target_module"],
            vec!["type_name"],
            vec!["symbol_name", "target_crate"],
            vec!["module_path"],
            vec!["capability"],
            vec!["actions", "agent"],
            vec!["actions"],
        ]
    );
    assert_eq!(t[5].params[0].kind, ParamKind::Actions);
    assert_eq!(t[5].params[1].kind, ParamKind::Text);
}

#[test]
fn reuse_search_skips_private_symbols() {
    let conn = fresh();
    let c = insert_crate(&conn, &krate("c")).unwrap();
    let m = insert_module(&conn, &module(c, "crates/c/src/lib.rs", "lib")).unwrap();
    insert_symbol(
        &conn,
        &Symbol {
            id: None,
            module_id: m,
            name: "calculate_fee".to_string(),
            kind: SymbolKind::Function,
            visibility: Visibility::Private,
            signature: None,
            line_number: None,
            scope: None,
            status: SymbolStatus::Stable,
            created_by: None,
            created_at: None,
            updated_at: None,
        },
    )
    .unwrap();
    assert_eq!(suggest_reuse(&conn, "calculate fee").unwrap().len(), 0);
    assert_eq!(suggest_reuse(&conn, "a b").unwrap().len(), 0);
}

#[test]
fn registering_a_plan_is_idempotent_and_skips_missing_modules() {
    let conn = fresh();
    let c = insert_crate(&conn, &krate("trading")).unwrap();
    insert_module(&conn, &module(c, "crates/trading/src/fees.rs", "fees")).unwrap();
    let a = PlannedAction {
        action: "create".to_string(),
        symbol: "planned_symbol".to_string(),
        target: "crates/trading/src/fees.rs".to_string(),
        crate_name: Some("trading".to_string()),
        kind: Some("function".to_string()),
    };
    let mut b = a.copy();
    b.target = "crates/none/src/x.rs".to_string();
    assert_eq!(register_plan(&conn, &[a.copy()], "test-agent").unwrap(), 1);
    assert_eq!(register_plan(&conn, &[a], "test-agent").unwrap(), 1);
    assert_eq!(count(&conn, "SELECT COUNT(*) FROM symbols WHERE name = 'planned_symbol'"), 1);
    assert_eq!(register_plan(&conn, &[b], "x").unwrap(), 0);
    assert_eq!(count(&conn, "SELECT COUNT(*) FROM symbols"), 1);
    assert_eq!(register_plan(&conn, &[], "x").unwrap(), 0);
}

#[test]
fn query_without_an_option_says_so() {
    let p = ":memory:".to_string();
    let args = QueryArgs {
        symbol: None,
        db: p,
        validate_creation: None,
        target: None,
        validate_dependency: None,
        validate_boundary: None,
        crate_name: None,
        check_wip: None,
        suggest_reuse: None,
    };
    assert_eq!(run(&args, true).unwrap_err(), "No query specified. Use --help for options.");
}

#[test]
fn reinserting_keeps_crate_and_module_ids_and_planned_symbols() {
    let conn = fresh();
    let c1 = insert_crate(&conn, &krate("mylib")).unwrap();
    let m1 = insert_module(&conn, &module(c1, "crates/mylib/src/h.rs", "h")).unwrap();
    let a = PlannedAction {
        action: "create".to_string(),
        symbol: "new_handler".to_string(),
        target: "crates/mylib/src/h.rs".to_string(),
        crate_name: Some("mylib".to_string()),
        kind: None,
    };
    assert_eq!(register_plan(&conn, &[a], "agent").unwrap(), 1);
    let c2 = insert_crate(&conn, &krate("mylib")).unwrap();
    let m2 = insert_module(&conn, &module(c2, "crates/mylib/src/h.rs", "h")).unwrap();
    assert_eq!(c1, c2);
    assert_eq!(m1, m2);
    let w = check_wip(&conn, "crates/mylib/src/h.rs").unwrap();
    assert!(w.iter().any(|x| matches!(x, Advisory::WipConflict { symbols, .. } if symbols.iter().any(|s| s == "new_handler"))), "got {:?}", w);
}

#[test]
fn replacing_text_as_str_replace_does() {
    assert_eq!(replace_text("a {{x}} b {{x}}", "{{x}}", "1"), "a 1 b 1");
    assert_eq!(replace_text("aaa", "aa", "b"), "ba");
    assert_eq!(replace_text("ab", "", "-"), "-a-b-");
    assert_eq!(replace_text("", "", "x"), "x");
    assert_eq!(replace_text("abc", "z", "y"), "abc");
}
