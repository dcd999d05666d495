use rulest::advisory::{Advisory, PlannedAction};
use rulest::models::{Crate, Language, Module, OwnershipRule, OwnershipRuleKind, Symbol, SymbolKind, SymbolStatus, Visibility};
use rulest::queries::{
    check_wip, get_crate_dependencies, get_registry_stats, module_name_of, register_plan, suggest_reuse,
    validate_boundary, validate_creation, validate_dependency, validate_plan,
};
use rulest::registry::{
    create_schema, find_crate_by_name, get_schema_version, insert_crate, insert_crate_dependency, insert_module,
    insert_ownership_rule, insert_symbol, SCHEMA_VERSION,
};
use rusqlite::Connection;

fn symbol(module_id: i64, name: &str, kind: SymbolKind, signature: Option<&str>) -> Symbol {
    Symbol {
        id: None,
        module_id,
        name: name.to_string(),
        kind,
        visibility: Visibility::Public,
        signature: signature.map(|s| s.to_string()),
        line_number: None,
        scope: None,
        status: SymbolStatus::Stable,
        created_by: None,
        created_at: None,
        updated_at: None,
    }
}

fn setup_test_db() -> Connection {
    let conn = Connection::open_in_memory().unwrap();
    create_schema(&conn).unwrap();

    let c = Crate {
        id: None,
        name: "trading".to_string(),
        path: "crates/trading".to_string(),
        description: None,
        bounded_context: None,
    };
    let crate_id = insert_crate(&conn, &c).unwrap();

    let m = Module {
        id: None,
        crate_id,
        path: "crates/trading/src/fees.rs".to_string(),
        name: "fees".to_string(),
        language: Language::Rust,
    };
    let module_id = insert_module(&conn, &m).unwrap();

    insert_symbol(
        &conn,
        &symbol(module_id, "calculate_fee", SymbolKind::Function, Some("fn calculate_fee(amount: f64, rate: f64) -> f64")),
    )
    .unwrap();
    insert_symbol(&conn, &symbol(module_id, "FeeSchedule", SymbolKind::Struct, Some("struct FeeSchedule"))).unwrap();

    conn
}

fn add_crate_module(conn: &Connection, crate_name: &str, crate_path: &str, mpath: &str, module_name: &str) -> i64 {
    let crate_id = insert_crate(
        conn,
        &Crate {
            id: None,
            name: crate_name.to_string(),
            path: crate_path.to_string(),
            description: None,
            bounded_context: None,
        },
    )
    .unwrap();
    insert_module(
        conn,
        &Module {
            id: None,
            crate_id,
            path: mpath.to_string(),
            name: module_name.to_string(),
            language: Language::Rust,
        },
    )
    .unwrap()
}

#[test]
fn test_validate_creation_finds_exact_match() {
    let conn = setup_test_db();
    let advisories = validate_creation(&conn, "calculate_fee", "crates/other/src/lib.rs").unwrap();
    assert_eq!(advisories.len(), 1);
    match &advisories[0] {
        Advisory::ReuseExisting { existing, .. } => {
            assert_eq!(existing.name, "calculate_fee");
        }
        other => panic!("Expected ReuseExisting, got {:?}", other),
    }
}

#[test]
fn test_validate_creation_safe() {
    let conn = setup_test_db();
    let advisories = validate_creation(&conn, "totally_new_function", "crates/other/src/lib.rs").unwrap();
    assert_eq!(advisories.len(), 1);
    assert!(matches!(&advisories[0], Advisory::SafeToCreate { .. }));
}

#[test]
fn test_validate_dependency() {
    let conn = setup_test_db();
    let advisories = validate_dependency(&conn, "FeeSchedule").unwrap();
    assert_eq!(advisories.len(), 1);
    match &advisories[0] {
        Advisory::UseExistingType { existing, .. } => {
            assert_eq!(existing.name, "FeeSchedule");
        }
        other => panic!("Expected UseExistingType, got {:?}", other),
    }
}

#[test]
fn test_validate_boundary_violation() {
    let conn = setup_test_db();
    insert_ownership_rule(
        &conn,
        &OwnershipRule {
            id: None,
            crate_name: "domain".to_string(),
            description: "No infrastructure concerns".to_string(),
            kind: OwnershipRuleKind::MustNot,
            pattern: None,
            regex: None,
        },
    )
    .unwrap();

    let advisories = validate_boundary(&conn, "HttpClient", "domain").unwrap();
    assert_eq!(advisories.len(), 1);
    assert!(matches!(&advisories[0], Advisory::SafeToCreate { .. } | Advisory::BoundaryViolation { .. }));
}

#[test]
fn test_check_wip() {
    let conn = setup_test_db();

    let module_id: i64 = conn.query_row("SELECT id FROM modules WHERE name = 'fees'", [], |row| row.get(0)).unwrap();

    let mut s = symbol(module_id, "new_fee_calculator", SymbolKind::Function, None);
    s.status = SymbolStatus::Wip;
    insert_symbol(&conn, &s).unwrap();

    let advisories = check_wip(&conn, "fees").unwrap();
    assert_eq!(advisories.len(), 1);
    match &advisories[0] {
        Advisory::WipConflict { symbols, .. } => {
            assert!(symbols.contains(&"new_fee_calculator".to_string()));
        }
        other => panic!("Expected WipConflict, got {:?}", other),
    }
}

#[test]
fn test_suggest_reuse() {
    let conn = setup_test_db();
    let advisories = suggest_reuse(&conn, "calculate fee").unwrap();

    assert!(!advisories.is_empty(), "suggest_reuse should return advisories for a matching keyword");
    match &advisories[0] {
        Advisory::ReuseExisting { existing, .. } => {
            assert_eq!(existing.name, "calculate_fee");
        }
        Advisory::AmbiguousMatch { candidates } => {
            assert!(
                candidates.iter().any(|c| c.name == "calculate_fee"),
                "Candidates should include 'calculate_fee', got: {:?}",
                candidates.iter().map(|c| &c.name).collect::<Vec<_>>()
            );
        }
        other => panic!("Expected ReuseExisting or AmbiguousMatch, got {:?}", other),
    }
}

#[test]
fn test_validate_plan() {
    let conn = setup_test_db();
    let actions = vec![
        PlannedAction {
            action: "create".to_string(),
            symbol: "brand_new_fn".to_string(),
            target: "crates/other/src/lib.rs".to_string(),
            crate_name: None,
            kind: Some("function".to_string()),
        },
        PlannedAction {
            action: "create".to_string(),
            symbol: "calculate_fee".to_string(),
            target: "crates/other/src/lib.rs".to_string(),
            crate_name: None,
            kind: Some("function".to_string()),
        },
    ];

    let report = validate_plan(&conn, &actions).unwrap();
    assert_eq!(report.results.len(), 2, "Plan report should have 2 results");
    assert_eq!(report.summary.total_actions, 2, "Summary total_actions should be 2");

    let first = &report.results[0];
    assert!(
        first.advisories.iter().any(|a| matches!(a, Advisory::SafeToCreate { .. })),
        "brand_new_fn should be SafeToCreate, got: {:?}",
        first.advisories
    );

    let second = &report.results[1];
    assert!(
        second.advisories.iter().any(|a| matches!(a, Advisory::ReuseExisting { .. })),
        "calculate_fee should trigger ReuseExisting, got: {:?}",
        second.advisories
    );

    assert!(report.summary.reuse >= 1, "Summary should count at least 1 reuse");
}

#[test]
fn test_register_plan() {
    let conn = setup_test_db();
    let actions = vec![PlannedAction {
        action: "create".to_string(),
        symbol: "planned_symbol".to_string(),
        target: "crates/trading/src/fees.rs".to_string(),
        crate_name: Some("trading".to_string()),
        kind: Some("function".to_string()),
    }];

    let count = register_plan(&conn, &actions, "test-agent").unwrap();
    assert_eq!(count, 1, "Should register 1 symbol");

    let (status, created_by): (String, Option<String>) = conn
        .query_row(
            "SELECT status, created_by FROM symbols WHERE name = 'planned_symbol'",
            [],
            |row| Ok((row.get(0)?, row.get(1)?)),
        )
        .expect("planned_symbol should exist in DB");

    assert_eq!(status, "planned", "Status should be 'planned'");
    assert_eq!(created_by.as_deref(), Some("test-agent"), "created_by should be 'test-agent'");
}

#[test]
fn test_validate_creation_prefers_definition_over_reexport() {
    let conn = setup_test_db();

    let crate_id2 = insert_crate(
        &conn,
        &Crate {
            id: None,
            name: "crypto-types".to_string(),
            path: "crates/crypto-types".to_string(),
            description: None,
            bounded_context: None,
        },
    )
    .unwrap();
    let module_algo_id = insert_module(
        &conn,
        &Module {
            id: None,
            crate_id: crate_id2,
            path: "crates/crypto-types/src/algorithm.rs".to_string(),
            name: "algorithm".to_string(),
            language: Language::Rust,
        },
    )
    .unwrap();
    let module_lib_id = insert_module(
        &conn,
        &Module {
            id: None,
            crate_id: crate_id2,
            path: "crates/crypto-types/src/lib.rs".to_string(),
            name: "lib".to_string(),
            language: Language::Rust,
        },
    )
    .unwrap();

    let mut def = symbol(module_algo_id, "AlgorithmId", SymbolKind::Enum, Some("enum AlgorithmId"));
    def.line_number = Some(5);
    insert_symbol(&conn, &def).unwrap();
    let mut re = symbol(module_lib_id, "AlgorithmId", SymbolKind::ReExport, Some("pub use algorithm::AlgorithmId"));
    re.line_number = Some(1);
    insert_symbol(&conn, &re).unwrap();

    let advisories = validate_creation(&conn, "AlgorithmId", "crates/other/src/lib.rs").unwrap();
    assert_eq!(advisories.len(), 1);
    match &advisories[0] {
        Advisory::ReuseExisting { existing, suggestion } => {
            assert_eq!(existing.kind, "enum", "Should prefer the definition (enum), not re_export");
            assert_eq!(existing.mod_path, "crates/crypto-types/src/algorithm.rs");
            assert!(suggestion.contains("re-exported"), "Suggestion should mention re-export: {}", suggestion);
        }
        other => panic!("Expected ReuseExisting pointing to definition, got {:?}", other),
    }
}

#[test]
fn test_validate_creation_ambiguous_when_multiple_definitions() {
    let conn = setup_test_db();

    let mod_a_id = add_crate_module(&conn, "crate-a", "crates/crate-a", "crates/crate-a/src/lib.rs", "lib");
    insert_symbol(&conn, &symbol(mod_a_id, "DuplicateType", SymbolKind::Struct, None)).unwrap();
    let mod_b_id = add_crate_module(&conn, "crate-b", "crates/crate-b", "crates/crate-b/src/lib.rs", "lib");
    insert_symbol(&conn, &symbol(mod_b_id, "DuplicateType", SymbolKind::Struct, None)).unwrap();

    let advisories = validate_creation(&conn, "DuplicateType", "crates/other/src/lib.rs").unwrap();
    assert_eq!(advisories.len(), 1);
    match &advisories[0] {
        Advisory::AmbiguousMatch { candidates } => {
            assert_eq!(candidates.len(), 2, "Should have 2 definition candidates");
            assert!(candidates.iter().all(|c| c.kind == "struct"), "All candidates should be definitions");
        }
        other => panic!("Expected AmbiguousMatch for multiple definitions, got {:?}", other),
    }
}

#[test]
fn test_validate_boundary_does_not_false_positive() {
    let conn = setup_test_db();

    conn.execute(
        "INSERT INTO ownership_rules (crate_name, description, kind) VALUES (?1, ?2, ?3)",
        ["domain", "No HTTP routing or network operations", "must_not"],
    )
    .unwrap();

    let advisories = validate_boundary(&conn, "PostService", "domain").unwrap();
    assert!(
        advisories.iter().all(|a| matches!(a, Advisory::SafeToCreate { .. })),
        "PostService should be safe to create in domain, got: {:?}",
        advisories
    );

    let advisories = validate_boundary(&conn, "HttpClient", "domain").unwrap();
    assert!(
        advisories.iter().any(|a| matches!(a, Advisory::BoundaryViolation { .. })),
        "HttpClient should trigger boundary violation in domain, got: {:?}",
        advisories
    );
}

#[test]
fn test_query_tools_integration() {
    let conn = Connection::open_in_memory().unwrap();
    create_schema(&conn).unwrap();
    let module_id = add_crate_module(&conn, "mylib", "crates/mylib", "crates/mylib/src/lib.rs", "lib");
    let mut s = symbol(module_id, "process_data", SymbolKind::Function, Some("fn process_data(input: &str) -> Result<String, Error>"));
    s.line_number = Some(10);
    insert_symbol(&conn, &s).unwrap();

    let advisories = validate_creation(&conn, "process_data", "other/lib.rs").unwrap();
    assert!(!advisories.is_empty(), "Should find existing process_data");
    let _dep_advisories = validate_dependency(&conn, "process_data").unwrap();
    let _reuse_advisories = suggest_reuse(&conn, "data processing").unwrap();
}

#[test]
fn test_register_plan_and_check_wip() {
    let conn = Connection::open_in_memory().unwrap();
    create_schema(&conn).unwrap();
    add_crate_module(&conn, "mylib", "crates/mylib", "crates/mylib/src/handlers.rs", "handlers");

    let actions = vec![PlannedAction {
        action: "create".to_string(),
        symbol: "new_handler".to_string(),
        target: "crates/mylib/src/handlers.rs".to_string(),
        crate_name: Some("mylib".to_string()),
        kind: Some("function".to_string()),
    }];
    let registered = register_plan(&conn, &actions, "test-agent").unwrap();
    assert_eq!(registered, 1, "Should register 1 planned symbol");

    let advisories = check_wip(&conn, "handlers").unwrap();
    assert!(
        advisories.iter().any(|a| matches!(a, Advisory::WipConflict { .. })),
        "Should detect WIP conflict for the planned symbol, got: {:?}",
        advisories
    );
}

#[test]
fn test_init_idempotency() {
    let conn = Connection::open_in_memory().unwrap();
    create_schema(&conn).unwrap();
    insert_crate(
        &conn,
        &Crate {
            id: None,
            name: "existing-crate".to_string(),
            path: "crates/existing".to_string(),
            description: None,
            bounded_context: None,
        },
    )
    .unwrap();
    create_schema(&conn).unwrap();
    let found = find_crate_by_name(&conn, "existing-crate").unwrap();
    assert!(found.is_some(), "Crate should survive second create_schema call");
    let version = get_schema_version(&conn).unwrap();
    assert_eq!(version, SCHEMA_VERSION);
}

#[test]
fn test_add_rule_and_validate_boundary() {
    let conn = Connection::open_in_memory().unwrap();
    create_schema(&conn).unwrap();
    insert_crate(
        &conn,
        &Crate {
            id: None,
            name: "domain".to_string(),
            path: "crates/domain".to_string(),
            description: None,
            bounded_context: Some("core".to_string()),
        },
    )
    .unwrap();
    insert_ownership_rule(
        &conn,
        &OwnershipRule {
            id: None,
            crate_name: "domain".to_string(),
            description: "No HTTP clients, network, or infrastructure concerns".to_string(),
            kind: OwnershipRuleKind::MustNot,
            pattern: None,
            regex: None,
        },
    )
    .unwrap();
    let advisories = validate_boundary(&conn, "HttpClient", "domain").unwrap();
    assert!(
        advisories.iter().any(|a| matches!(a, Advisory::BoundaryViolation { .. })),
        "Should detect BoundaryViolation, got: {:?}",
        advisories
    );
}

#[test]
fn test_add_rule_must_own_and_must_not() {
    let conn = Connection::open_in_memory().unwrap();
    create_schema(&conn).unwrap();
    for (name, path, desc, ctx) in [
        ("domain", "crates/domain", "Core domain logic", Some("core")),
        ("infra", "crates/infra", "Infrastructure layer", Some("infra")),
    ] {
        insert_crate(
            &conn,
            &Crate {
                id: None,
                name: name.to_string(),
                path: path.to_string(),
                description: Some(desc.to_string()),
                bounded_context: ctx.map(|c| c.to_string()),
            },
        )
        .unwrap();
    }
    for (desc, kind) in [
        ("Owns all pricing and fee calculation logic", OwnershipRuleKind::MustOwn),
        ("No HTTP clients, network, or infrastructure concerns", OwnershipRuleKind::MustNot),
    ] {
        insert_ownership_rule(
            &conn,
            &OwnershipRule {
                id: None,
                crate_name: "domain".to_string(),
                description: desc.to_string(),
                kind,
                pattern: None,
                regex: None,
            },
        )
        .unwrap();
    }
    let advisories = validate_boundary(&conn, "HttpClient", "domain").unwrap();
    assert!(
        advisories.iter().any(|a| matches!(a, Advisory::BoundaryViolation { .. })),
        "Should detect BoundaryViolation for HttpClient in domain, got: {:?}",
        advisories
    );
    let advisories = validate_boundary(&conn, "PriceCalculator", "domain").unwrap();
    assert!(
        advisories.iter().any(|a| matches!(a, Advisory::SafeToCreate { .. })),
        "PriceCalculator should be safe in domain, got: {:?}",
        advisories
    );
    let stats = get_registry_stats(&conn);
    assert_eq!(stats.rule_count, 2, "Should have exactly 2 rules, got {}", stats.rule_count);
}

#[test]
fn test_status_returns_stats() {
    let conn = Connection::open_in_memory().unwrap();
    create_schema(&conn).unwrap();

    let stats = get_registry_stats(&conn);
    assert_eq!(stats.crate_count, 0);
    assert_eq!(stats.module_count, 0);
    assert_eq!(stats.symbol_count, 0);
    assert_eq!(stats.rule_count, 0);
}

#[test]
fn test_status_returns_detailed_stats() {
    let conn = Connection::open_in_memory().unwrap();
    create_schema(&conn).unwrap();
    let module_id = add_crate_module(&conn, "test-crate", "crates/test", "crates/test/src/lib.rs", "lib");
    let mut a = symbol(module_id, "MyStruct", SymbolKind::Struct, Some("struct MyStruct"));
    a.line_number = Some(1);
    insert_symbol(&conn, &a).unwrap();
    let mut b = symbol(module_id, "helper_fn", SymbolKind::Function, Some("fn helper_fn()"));
    b.visibility = Visibility::Private;
    b.line_number = Some(10);
    insert_symbol(&conn, &b).unwrap();
    let mut c = symbol(module_id, "new_feature", SymbolKind::Function, Some("fn new_feature()"));
    c.status = SymbolStatus::Wip;
    c.created_by = Some("agent-1".to_string());
    c.line_number = Some(20);
    insert_symbol(&conn, &c).unwrap();
    let mut d = symbol(module_id, "MyTrait", SymbolKind::Trait, Some("trait MyTrait"));
    d.status = SymbolStatus::Planned;
    d.line_number = Some(30);
    insert_symbol(&conn, &d).unwrap();
    insert_ownership_rule(
        &conn,
        &OwnershipRule {
            id: None,
            crate_name: "test-crate".to_string(),
            description: "test rule".to_string(),
            kind: OwnershipRuleKind::MustOwn,
            pattern: None,
            regex: None,
        },
    )
    .unwrap();

    let stats = get_registry_stats(&conn);
    let count_of = |v: &Vec<(String, usize)>, key: &str| v.iter().find(|(k, _)| k == key).map(|(_, n)| *n).unwrap_or(0);
    assert_eq!(count_of(&stats.symbols_by_kind, "function"), 2, "Should have 2 functions");
    assert_eq!(count_of(&stats.symbols_by_kind, "struct"), 1, "Should have 1 struct");
    assert_eq!(count_of(&stats.symbols_by_kind, "trait"), 1, "Should have 1 trait");
    assert_eq!(count_of(&stats.symbols_by_visibility, "public"), 3, "Should have 3 public symbols");
    assert_eq!(count_of(&stats.symbols_by_visibility, "private"), 1, "Should have 1 private symbol");
    assert_eq!(count_of(&stats.symbols_by_status, "stable"), 2, "Should have 2 stable symbols");
    assert_eq!(count_of(&stats.symbols_by_status, "wip"), 1, "Should have 1 wip symbol");
    assert_eq!(count_of(&stats.symbols_by_status, "planned"), 1, "Should have 1 planned symbol");
    assert_eq!(stats.crate_count, 1);
    assert_eq!(stats.module_count, 1);
    assert_eq!(stats.symbol_count, 4);
    assert_eq!(stats.rule_count, 1);
}

#[test]
fn test_schema_rejects_future_version() {
    let conn = Connection::open_in_memory().unwrap();
    rulest::registry::set_schema_version(&conn, SCHEMA_VERSION + 10).unwrap();
    let result = create_schema(&conn);
    assert!(result.is_err(), "Should reject databases from the future");
    let msg = result.unwrap_err().message();
    assert!(msg.contains("newer"), "Error should mention 'newer' version, got: {}", msg);
}

#[test]
fn test_seed_sql_roundtrip() {
    let conn = Connection::open_in_memory().unwrap();
    create_schema(&conn).unwrap();
    insert_crate(
        &conn,
        &Crate {
            id: None,
            name: "payments".to_string(),
            path: "crates/payments".to_string(),
            description: None,
            bounded_context: None,
        },
    )
    .unwrap();
    let seed_sql = r#"
-- Payment domain rules
INSERT INTO ownership_rules (crate_name, description, kind) VALUES ('payments', 'Owns all payment processing logic', 'must_own');
INSERT INTO ownership_rules (crate_name, description, kind) VALUES ('payments', 'No database or storage concerns', 'must_not');
"#;
    rulest::registry::execute_seed_sql(&conn, seed_sql).unwrap();
    let stats = get_registry_stats(&conn);
    assert_eq!(stats.rule_count, 2, "Should have 2 rules from seed SQL, got {}", stats.rule_count);
    let advisories = validate_boundary(&conn, "DatabaseConnection", "payments").unwrap();
    assert!(
        advisories.iter().any(|a| matches!(a, Advisory::BoundaryViolation { .. })),
        "DatabaseConnection should violate boundary in payments crate, got: {:?}",
        advisories
    );
}

#[test]
fn test_schema_migration_from_v1_to_current() {
    let conn = Connection::open_in_memory().unwrap();
    conn.execute_batch(rulest::registry::SCHEMA_SQL).unwrap();
    rulest::registry::set_schema_version(&conn, 1).unwrap();
    create_schema(&conn).unwrap();
    let version = get_schema_version(&conn).unwrap();
    assert_eq!(version, SCHEMA_VERSION, "Should have migrated to version {}, got {}", SCHEMA_VERSION, version);
    let mut stmt = conn.prepare("SELECT name FROM sqlite_master WHERE type='table' ORDER BY name").unwrap();
    let tables: Vec<String> = stmt.query_map([], |row| row.get(0)).unwrap().filter_map(|r| r.ok()).collect();
    for t in ["crates", "modules", "symbols", "relationships", "contracts", "ownership_rules", "crate_dependencies"] {
        assert!(tables.contains(&t.to_string()), "Table '{}' should exist after migration, found tables: {:?}", t, tables);
    }
}

// ---- further cases

#[test]
fn reexports_alone_send_to_the_first_one() {
    let conn = setup_test_db();
    let m1 = add_crate_module(&conn, "a", "crates/a", "crates/a/src/lib.rs", "lib");
    let m2 = add_crate_module(&conn, "b", "crates/b", "crates/b/src/prelude.rs", "prelude");
    insert_symbol(&conn, &symbol(m1, "Thing", SymbolKind::ReExport, None)).unwrap();
    insert_symbol(&conn, &symbol(m2, "Thing", SymbolKind::ReExport, None)).unwrap();
    let advisories = validate_creation(&conn, "Thing", "x.rs").unwrap();
    match &advisories[0] {
        Advisory::ReuseExisting { existing, suggestion } => {
            assert_eq!(existing.crate_name, "a");
            assert_eq!(suggestion, "Symbol 'Thing' is re-exported from a::crates/a/src/lib.rs.");
        }
        other => panic!("unexpected {:?}", other),
    }
}

#[test]
fn exact_match_suggestion_names_the_place() {
    let conn = setup_test_db();
    let advisories = validate_creation(&conn, "calculate_fee", "x.rs").unwrap();
    match &advisories[0] {
        Advisory::ReuseExisting { suggestion, existing } => {
            assert_eq!(
                suggestion,
                "Symbol 'calculate_fee' already exists in trading::crates/trading/src/fees.rs. Consider reusing it."
            );
            assert_eq!(existing.call_sites, Some(0));
            assert_eq!(existing.location, None);
        }
        other => panic!("unexpected {:?}", other),
    }
}

#[test]
fn definition_with_reexport_lists_where_it_is_reexported() {
    let conn = setup_test_db();
    let m = add_crate_module(&conn, "pre", "crates/pre", "crates/pre/src/lib.rs", "lib");
    insert_symbol(&conn, &symbol(m, "FeeSchedule", SymbolKind::ReExport, None)).unwrap();
    let advisories = validate_creation(&conn, "FeeSchedule", "x.rs").unwrap();
    match &advisories[0] {
        Advisory::ReuseExisting { suggestion, .. } => assert_eq!(
            suggestion,
            "Symbol 'FeeSchedule' already exists in trading::crates/trading/src/fees.rs. Also re-exported from: pre::crates/pre/src/lib.rs"
        ),
        other => panic!("unexpected {:?}", other),
    }
}

#[test]
fn fuzzy_match_suggests_the_similar_symbol() {
    let conn = setup_test_db();
    let advisories = validate_creation(&conn, "Schedule", "x.rs").unwrap();
    match &advisories[0] {
        Advisory::ReuseExisting { existing, suggestion } => {
            assert_eq!(existing.name, "FeeSchedule");
            assert_eq!(
                suggestion,
                "Similar symbol 'FeeSchedule' found in trading::crates/trading/src/fees.rs. Did you mean to reuse it?"
            );
        }
        other => panic!("unexpected {:?}", other),
    }
}

#[test]
fn location_joins_path_and_line() {
    let conn = setup_test_db();
    let module_id: i64 = conn.query_row("SELECT id FROM modules WHERE name = 'fees'", [], |row| row.get(0)).unwrap();
    let mut s = symbol(module_id, "located", SymbolKind::Function, None);
    s.line_number = Some(42);
    insert_symbol(&conn, &s).unwrap();
    let advisories = validate_creation(&conn, "located", "x.rs").unwrap();
    match &advisories[0] {
        Advisory::ReuseExisting { existing, .. } => {
            assert_eq!(existing.location.as_deref(), Some("crates/trading/src/fees.rs:42"));
            assert_eq!(existing.line_number, Some(42));
        }
        other => panic!("unexpected {:?}", other),
    }
}

#[test]
fn linked_registry_symbol_is_offered_for_reuse() {
    let conn = setup_test_db();
    let sym = rulest::models::LinkedSymbol {
        id: None,
        source_name: "shared".to_string(),
        name: "TokenBucket".to_string(),
        kind: None,
        crate_name: None,
        mod_path: Some("crates/rate/src/lib.rs".to_string()),
        signature: None,
        linked_at: "0".to_string(),
    };
    rulest::registry::insert_linked_symbol(&conn, &sym).unwrap();
    let advisories = validate_creation(&conn, "TokenBucket", "x.rs").unwrap();
    match &advisories[0] {
        Advisory::ReuseExisting { existing, suggestion } => {
            assert_eq!(existing.crate_name, "shared::?");
            assert_eq!(existing.kind, "unknown");
            assert_eq!(existing.visibility, "public");
            assert_eq!(
                suggestion,
                "Symbol 'TokenBucket' exists in linked registry 'shared'. Reuse it instead of creating a duplicate."
            );
        }
        other => panic!("unexpected {:?}", other),
    }
}

#[test]
fn dependency_unknown_type_is_safe() {
    let conn = setup_test_db();
    let advisories = validate_dependency(&conn, "Nope").unwrap();
    match &advisories[0] {
        Advisory::SafeToCreate { symbol, target } => {
            assert_eq!(symbol, "Nope");
            assert_eq!(target, "unknown");
        }
        other => panic!("unexpected {:?}", other),
    }
}

#[test]
fn dependency_uses_reexport_path_and_traits() {
    let conn = setup_test_db();
    let module_id: i64 = conn.query_row("SELECT id FROM modules WHERE name = 'fees'", [], |row| row.get(0)).unwrap();
    let ty = insert_symbol(&conn, &symbol(module_id, "Money", SymbolKind::Struct, None)).unwrap();
    let tr = insert_symbol(&conn, &symbol(module_id, "Priced", SymbolKind::Trait, None)).unwrap();
    conn.execute(
        "INSERT INTO relationships (from_symbol_id, to_symbol_id, kind) VALUES (?1, ?2, 'implements')",
        [ty, tr],
    )
    .unwrap();
    let pre = conn
        .query_row("SELECT id FROM crates WHERE name = 'trading'", [], |row| row.get::<_, i64>(0))
        .unwrap();
    let prelude = insert_module(
        &conn,
        &Module {
            id: None,
            crate_id: pre,
            path: "crates/trading/src/prelude.rs".to_string(),
            name: "prelude".to_string(),
            language: Language::Rust,
        },
    )
    .unwrap();
    // a re-export of the same name would make the lookup ambiguous, so look up
    // the path of `Money` before adding one
    let advisories = validate_dependency(&conn, "Money").unwrap();
    match &advisories[0] {
        Advisory::UseExistingType { prelude_path, traits, .. } => {
            assert_eq!(prelude_path, "trading::Money");
            assert_eq!(traits, &vec!["Priced".to_string()]);
        }
        other => panic!("unexpected {:?}", other),
    }
    insert_symbol(&conn, &symbol(prelude, "Money", SymbolKind::ReExport, None)).unwrap();
    let advisories = validate_dependency(&conn, "Money").unwrap();
    assert!(matches!(&advisories[0], Advisory::AmbiguousMatch { candidates } if candidates.len() == 2));
}

#[test]
fn boundary_pattern_and_regex_rules() {
    let conn = setup_test_db();
    for (pattern, regex) in [(Some("Sql*,*Repository"), None), (None, Some("^Pg"))] {
        insert_ownership_rule(
            &conn,
            &OwnershipRule {
                id: None,
                crate_name: "domain".to_string(),
                description: "no storage".to_string(),
                kind: OwnershipRuleKind::MustNot,
                pattern: pattern.map(|p| p.to_string()),
                regex: regex.map(|r| r.to_string()),
            },
        )
        .unwrap();
    }
    let v = validate_boundary(&conn, "UserRepository", "domain").unwrap();
    assert_eq!(v.len(), 1);
    match &v[0] {
        Advisory::BoundaryViolation { rule, crate_name, suggestion } => {
            assert_eq!(rule, "no storage");
            assert_eq!(crate_name, "domain");
            assert_eq!(suggestion.crate_name, "trading");
            assert_eq!(suggestion.mod_path, "crates/trading/src/lib.rs");
            assert_eq!(
                suggestion.reason,
                "Crate 'domain' has a must_not rule: no storage. Consider placing 'UserRepository' in crate 'trading'."
            );
        }
        other => panic!("unexpected {:?}", other),
    }
    let v = validate_boundary(&conn, "PgPool", "domain").unwrap();
    assert_eq!(v.len(), 1);
    assert!(matches!(&v[0], Advisory::BoundaryViolation { .. }));
    // the storage words of the description are not consulted when a pattern is given
    let v = validate_boundary(&conn, "StorageThing", "domain").unwrap();
    assert!(matches!(&v[0], Advisory::SafeToCreate { .. }));
}

#[test]
fn boundary_suggests_the_owning_crate() {
    let conn = setup_test_db();
    insert_crate(
        &conn,
        &Crate {
            id: None,
            name: "net".to_string(),
            path: "crates/net".to_string(),
            description: None,
            bounded_context: None,
        },
    )
    .unwrap();
    for (c, d, k) in [
        ("domain", "No network code", OwnershipRuleKind::MustNot),
        ("net", "Owns network clients", OwnershipRuleKind::MustOwn),
    ] {
        insert_ownership_rule(
            &conn,
            &OwnershipRule {
                id: None,
                crate_name: c.to_string(),
                description: d.to_string(),
                kind: k,
                pattern: None,
                regex: None,
            },
        )
        .unwrap();
    }
    let v = validate_boundary(&conn, "NetworkClient", "domain").unwrap();
    match &v[0] {
        Advisory::BoundaryViolation { suggestion, .. } => {
            assert_eq!(suggestion.crate_name, "net");
            assert_eq!(suggestion.mod_path, "crates/net/src/lib.rs");
        }
        other => panic!("unexpected {:?}", other),
    }
}

#[test]
fn boundary_without_other_crates_falls_back_to_other() {
    let conn = Connection::open_in_memory().unwrap();
    create_schema(&conn).unwrap();
    insert_ownership_rule(
        &conn,
        &OwnershipRule {
            id: None,
            crate_name: "solo".to_string(),
            description: "No http".to_string(),
            kind: OwnershipRuleKind::MustNot,
            pattern: None,
            regex: None,
        },
    )
    .unwrap();
    let v = validate_boundary(&conn, "HttpThing", "solo").unwrap();
    match &v[0] {
        Advisory::BoundaryViolation { suggestion, .. } => {
            assert_eq!(suggestion.crate_name, "other");
            assert_eq!(suggestion.mod_path, "crates/other/src/lib.rs/src/lib.rs");
        }
        other => panic!("unexpected {:?}", other),
    }
}

#[test]
fn wip_conflict_names_agent_and_recency() {
    let conn = setup_test_db();
    let module_id: i64 = conn.query_row("SELECT id FROM modules WHERE name = 'fees'", [], |row| row.get(0)).unwrap();
    let mut a = symbol(module_id, "a_fn", SymbolKind::Function, None);
    a.status = SymbolStatus::Planned;
    a.updated_at = Some("2000-01-01T00:00:00Z".to_string());
    insert_symbol(&conn, &a).unwrap();
    let mut b = symbol(module_id, "b_fn", SymbolKind::Function, None);
    b.status = SymbolStatus::Wip;
    b.created_by = Some("agent-7".to_string());
    b.updated_at = Some("2001-01-01T00:00:00Z".to_string());
    insert_symbol(&conn, &b).unwrap();
    let v = check_wip(&conn, "trading/src").unwrap();
    match &v[0] {
        Advisory::WipConflict { agent, branch, symbols, last_activity } => {
            assert_eq!(agent, "agent-7");
            assert_eq!(branch, &None);
            assert_eq!(symbols.len(), 2);
            assert!(last_activity.as_deref().unwrap().ends_with("days ago"));
        }
        other => panic!("unexpected {:?}", other),
    }
    assert!(check_wip(&conn, "nowhere").unwrap().is_empty());
}

#[test]
fn reuse_of_a_trait_gives_its_import() {
    let conn = setup_test_db();
    let module_id: i64 = conn.query_row("SELECT id FROM modules WHERE name = 'fees'", [], |row| row.get(0)).unwrap();
    insert_symbol(&conn, &symbol(module_id, "Rounding", SymbolKind::Trait, None)).unwrap();
    let v = suggest_reuse(&conn, "Rounding of amounts").unwrap();
    match &v[0] {
        Advisory::ReuseWithPattern { trait_name, call_pattern, example, import } => {
            assert_eq!(trait_name, "Rounding");
            assert_eq!(call_pattern, "impl Rounding for YourType");
            assert_eq!(example, "See trading::crates/trading/src/fees.rs for the trait definition");
            assert_eq!(import, "use trading::fees::Rounding;");
        }
        other => panic!("unexpected {:?}", other),
    }
}

#[test]
fn reuse_counts_each_place_once() {
    let conn = setup_test_db();
    // both keywords find calculate_fee; it is listed once
    let v = suggest_reuse(&conn, "calculate calculate").unwrap();
    match &v[0] {
        Advisory::ReuseExisting { existing, suggestion } => {
            assert_eq!(existing.name, "calculate_fee");
            assert_eq!(suggestion, "Consider reusing 'calculate_fee' from trading::crates/trading/src/fees.rs");
        }
        other => panic!("unexpected {:?}", other),
    }
    // words of two bytes or fewer are not searched
    assert!(suggest_reuse(&conn, "ca fe").unwrap().is_empty());
}

#[test]
fn plan_summary_counts_every_advisory_once() {
    let conn = setup_test_db();
    insert_ownership_rule(
        &conn,
        &OwnershipRule {
            id: None,
            crate_name: "trading".to_string(),
            description: "No http".to_string(),
            kind: OwnershipRuleKind::MustNot,
            pattern: None,
            regex: None,
        },
    )
    .unwrap();
    let actions = vec![
        PlannedAction {
            action: "create".to_string(),
            symbol: "HttpGate".to_string(),
            target: "crates/trading/src/gate.rs".to_string(),
            crate_name: Some("trading".to_string()),
            kind: None,
        },
        PlannedAction {
            action: "modify".to_string(),
            symbol: "FeeSchedule".to_string(),
            target: "crates/trading/src/fees.rs".to_string(),
            crate_name: None,
            kind: None,
        },
    ];
    let report = validate_plan(&conn, &actions).unwrap();
    let total: usize = report.results.iter().map(|r| r.advisories.len()).sum();
    let s = &report.summary;
    assert_eq!(s.safe + s.reuse + s.violations + s.conflicts + s.ambiguous, total);
    assert_eq!(s.violations, 1);
    assert_eq!(s.total_actions, 2);
    assert_eq!(report.results[1].action.symbol, "FeeSchedule");
}

#[test]
fn register_plan_skips_unknown_modules_and_marks_modify_as_wip() {
    let conn = setup_test_db();
    let actions = vec![
        PlannedAction {
            action: "modify".to_string(),
            symbol: "tweak".to_string(),
            target: "crates/trading/src/fees.rs".to_string(),
            crate_name: None,
            kind: Some("no_such_kind".to_string()),
        },
        PlannedAction {
            action: "create".to_string(),
            symbol: "elsewhere".to_string(),
            target: "crates/none/src/lib.rs".to_string(),
            crate_name: None,
            kind: None,
        },
    ];
    assert_eq!(register_plan(&conn, &actions, "me").unwrap(), 1);
    let (status, kind): (String, String) = conn
        .query_row("SELECT status, kind FROM symbols WHERE name = 'tweak'", [], |row| Ok((row.get(0)?, row.get(1)?)))
        .unwrap();
    assert_eq!(status, "wip");
    assert_eq!(kind, "function");
}

#[test]
fn crate_dependencies_are_listed_by_name() {
    let conn = setup_test_db();
    let a = insert_crate(
        &conn,
        &Crate { id: None, name: "app".to_string(), path: "crates/app".to_string(), description: None, bounded_context: None },
    )
    .unwrap();
    let t: i64 = conn.query_row("SELECT id FROM crates WHERE name = 'trading'", [], |row| row.get(0)).unwrap();
    insert_crate_dependency(&conn, a, t).unwrap();
    insert_crate_dependency(&conn, a, t).unwrap();
    assert_eq!(get_crate_dependencies(&conn).unwrap(), vec![("app".to_string(), "trading".to_string())]);
}

#[test]
fn module_name_strips_directories_and_rs() {
    assert_eq!(module_name_of("crates/a/src/fees.rs"), "fees");
    assert_eq!(module_name_of("lib.rs.rs"), "lib");
    assert_eq!(module_name_of("plain"), "plain");
    assert_eq!(module_name_of("dir/"), "");
}

#[test]
fn register_plan_counts_only_actions_whose_module_is_found() {
    let conn = setup_test_db();
    let action = |symbol: &str, target: &str| PlannedAction {
        action: "create".to_string(),
        symbol: symbol.to_string(),
        target: target.to_string(),
        crate_name: None,
        kind: Some("function".to_string()),
    };
    assert_eq!(register_plan(&conn, &[action("ghost_fn", "crates/none/src/x.rs")], "x").unwrap(), 0);
    let n: i64 = conn.query_row("SELECT COUNT(*) FROM symbols WHERE name = 'ghost_fn'", [], |r| r.get(0)).unwrap();
    assert_eq!(n, 0);
    let mixed = [
        action("one_fn", "crates/trading/src/fees.rs"),
        action("two_fn", "crates/none/src/x.rs"),
        action("three_fn", "crates/trading/src/fees.rs"),
    ];
    assert_eq!(register_plan(&conn, &mixed, "x").unwrap(), 2);
    assert_eq!(register_plan(&conn, &mixed, "x").unwrap(), 2);
    let n: i64 = conn
        .query_row("SELECT COUNT(*) FROM symbols WHERE name IN ('one_fn', 'three_fn')", [], |r| r.get(0))
        .unwrap();
    assert_eq!(n, 2);
    assert_eq!(register_plan(&conn, &[], "x").unwrap(), 0);
}
