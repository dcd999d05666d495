use rulest::advisory::{Advisory, ExistingSymbol, ModuleSuggestion, PlanSummary};
use rulest::check::{
    add_file_totals, changed_file_report, changed_summary, exit_code, file_report, staged_files, Finding,
};
use rulest::cli::{
    escape_sql, link_command, plan_actions, plan_summary_line, registered_message, render_crate_list, render_module,
    render_root, replace_text, rule_added_message, seed_rule_statement, starter_seed, status_lines, LinkCommand,
};
use rulest::models::{Crate, OwnershipRuleKind};
use rulest::queries::RegistryStats;
use rulest::query::{run, QueryArgs};
use rulest::sync::{module_action, ModuleAction, SyncLog};
use rulest::time::{days_in_month, epoch_to_iso8601, is_leap_year, iso8601_to_epoch, relative_time_at};
use rulest::workspace::{build_workspace, is_rust_source, module_info_for, pathdiff_from, PackageInfo};

fn existing(name: &str) -> ExistingSymbol {
    ExistingSymbol {
        name: name.to_string(),
        kind: "function".to_string(),
        mod_path: "crates/a/src/lib.rs".to_string(),
        crate_name: "a".to_string(),
        signature: None,
        visibility: "public".to_string(),
        call_sites: None,
        created_by: None,
        line_number: None,
        scope: None,
        location: None,
    }
}

fn finding(symbol: &str, advisory: Advisory) -> Finding {
    Finding { symbol: symbol.to_string(), advisory }
}

fn safe(symbol: &str) -> Advisory {
    Advisory::SafeToCreate { symbol: symbol.to_string(), target: "x.rs".to_string() }
}

#[test]
fn file_check_passes_when_all_safe() {
    let r = file_report("crates/a/src/x.rs", &vec![finding("f", safe("f")), finding("g", safe("g"))]);
    assert!(!r.has_warnings && !r.has_errors);
    assert_eq!(r.safe_count, 2);
    assert_eq!(r.lines, vec!["PASS: crates/a/src/x.rs (2 symbols, all safe)".to_string()]);
    assert_eq!(exit_code(r.has_errors, r.has_warnings), 0);
}

#[test]
fn file_check_reports_warnings_and_errors() {
    let findings = vec![
        finding("f", Advisory::ReuseExisting { existing: existing("f"), suggestion: String::new() }),
        finding(
            "Http",
            Advisory::BoundaryViolation {
                rule: "No http".to_string(),
                crate_name: "a".to_string(),
                suggestion: ModuleSuggestion { mod_path: String::new(), crate_name: String::new(), reason: String::new() },
            },
        ),
        finding("h", Advisory::AmbiguousMatch { candidates: vec![existing("h"), existing("h")] }),
    ];
    let r = file_report("x.rs", &findings);
    assert_eq!(
        r.lines,
        vec![
            "WARNING: f already exists in a::crates/a/src/lib.rs (reuse_existing)".to_string(),
            "ERROR: Http in a violates boundary rule (must_not: No http)".to_string(),
            "WARNING: h has 2 ambiguous matches".to_string(),
        ]
    );
    assert_eq!(exit_code(r.has_errors, r.has_warnings), 2);
    assert_eq!(exit_code(false, true), 1);

    let c = changed_file_report("x.rs", &findings);
    assert_eq!(c.warnings, 2);
    assert_eq!(c.errors, 1);
    assert_eq!(c.lines.last().unwrap(), "FAIL: x.rs");
    assert_eq!(c.lines[0], "  - f: reuse_existing (already in a::crates/a/src/lib.rs)");
    assert_eq!(c.lines[1], "  - Http: boundary_violation (No http)");
    assert_eq!(c.lines[2], "  - h: ambiguous_match");
    let ok = changed_file_report("y.rs", &vec![finding("f", safe("f"))]);
    assert_eq!(ok.lines, vec!["PASS: y.rs (1 new symbols, all safe)".to_string()]);
}

#[test]
fn staged_totals_double_count_as_the_hook_does() {
    assert_eq!(add_file_totals((0, 0), 1, 3), (2, 3));
    assert_eq!(add_file_totals((2, 3), 0, 2), (2, 7));
    assert_eq!(add_file_totals((2, 7), 0, 0), (2, 7));
    assert_eq!(add_file_totals((usize::MAX, 0), 1, 0), (usize::MAX, 0));
    assert_eq!(changed_summary(3, 2, 7), "\nChecked 3 files: 2 errors, 7 warnings");
}

#[test]
fn staged_files_keep_rust_and_typescript() {
    let listing = "src/a.rs\r\nREADME.md\nweb/app.tsx\nweb/x.ts\n\nCargo.toml\n";
    assert_eq!(
        staged_files(listing),
        vec!["src/a.rs".to_string(), "web/app.tsx".to_string(), "web/x.ts".to_string()]
    );
    assert!(staged_files("").is_empty());
    assert_eq!(staged_files("last.rs"), vec!["last.rs".to_string()]);
}

#[test]
fn seed_statements_escape_quotes() {
    assert_eq!(escape_sql("it's"), "it''s");
    assert_eq!(
        seed_rule_statement("my'crate", "No 'raw' SQL", OwnershipRuleKind::MustNot),
        "INSERT INTO ownership_rules (crate_name, description, kind) VALUES ('my''crate', 'No ''raw'' SQL', 'must_not');\n"
    );
    assert_eq!(rule_added_message(OwnershipRuleKind::MustOwn, "core", "pricing"), "Added rule: must_own core 'pricing'");
    assert_eq!(replace_text("aXbXc", "X", "--"), "a--b--c");
    assert_eq!(replace_text("aaa", "aa", "b"), "ba");
}

fn krate(name: &str, description: Option<&str>) -> Crate {
    Crate {
        id: None,
        name: name.to_string(),
        path: format!("crates/{}", name),
        description: description.map(|d| d.to_string()),
        bounded_context: None,
    }
}

#[test]
fn templates_are_filled_in() {
    let crates = vec![krate("core", Some("Domain")), krate("web", None)];
    assert_eq!(
        render_root("# {{workspace_name}}\n{{crate_list}}\n", "shop", &crates),
        "# shop\n| core | `core` | Domain |\n| web | `web` | — |\n"
    );
    assert_eq!(
        render_module("{{crate_name}}: {{description}} ({{dependencies}})", &crates[1]),
        "web: TODO: Add description (TODO: list dependencies)"
    );
    assert_eq!(
        render_crate_list("[\n{{crate_list}}\n]", &crates, 1),
        "[\n      \"Edit(crates/core/src/**)\",\n      \"Edit(crates/web/src/**)\",\n]"
    );
    assert_eq!(
        render_crate_list("{{crate_list}}", &vec![krate("o'k", None)], 2),
        "INSERT INTO ownership_rules (crate_name, description, kind) VALUES ('o''k', 'o''k owns its domain logic', 'must_own');"
    );
    let seed = starter_seed(&crates);
    assert!(seed.starts_with("-- Architecture ownership rules for this workspace\n"));
    assert!(seed.ends_with(
        "-- INSERT INTO ownership_rules (crate_name, description, kind) VALUES ('web', 'TODO: describe ownership', 'must_own');\n"
    ));
}

#[test]
fn link_options_choose_one_command() {
    assert!(matches!(link_command(true, true, None, None, None), LinkCommand::List));
    assert!(matches!(link_command(false, true, None, None, None), LinkCommand::Refresh));
    assert!(matches!(link_command(false, false, Some("x".to_string()), None, None), LinkCommand::Remove(n) if n == "x"));
    assert!(matches!(
        link_command(false, false, None, Some("n".to_string()), Some("p".to_string())),
        LinkCommand::Link { .. }
    ));
    assert!(matches!(link_command(false, false, None, Some("n".to_string()), None), LinkCommand::Usage(_)));
}

#[test]
fn status_lines_pad_group_names() {
    let stats = RegistryStats {
        crate_count: 2,
        module_count: 3,
        symbol_count: 4,
        rule_count: 0,
        symbols_by_kind: vec![("function".to_string(), 3), ("struct".to_string(), 1)],
        symbols_by_visibility: vec![],
        symbols_by_status: vec![("a_very_long_status".to_string(), 4)],
    };
    let lines = status_lines("db", &stats);
    assert_eq!(
        lines,
        vec![
            "Registry: db",
            "",
            "  Crates:    2",
            "  Modules:   3",
            "  Symbols:   4",
            "  Rules:     0",
            "",
            "  Symbols by kind:",
            "    function     3",
            "    struct       1",
            "",
            "  Symbols by status:",
            "    a_very_long_status 4",
        ]
    );
}

#[test]
fn plan_summaries_and_messages() {
    assert!(plan_actions("# nothing\n").is_err());
    assert_eq!(plan_actions("CREATE: f in: a.rs").unwrap().len(), 1);
    let s = PlanSummary { total_actions: 2, safe: 1, reuse: 2, violations: 0, conflicts: 1, ambiguous: 0 };
    assert_eq!(plan_summary_line(&s), "Plan: 2 actions | 1 safe | 2 reuse | 0 violations | 1 conflicts | 0 ambiguous");
    assert_eq!(registered_message(1, 3, "cli"), "Registered 1 planned symbols from 3 actions (agent: cli)");
}

fn args() -> QueryArgs {
    QueryArgs {
        symbol: None,
        db: "/nonexistent/registry.db".to_string(),
        validate_creation: None,
        target: None,
        validate_dependency: None,
        validate_boundary: None,
        crate_name: None,
        check_wip: None,
        suggest_reuse: None,
    }
}

#[test]
fn query_needs_a_registry_and_a_question() {
    let a = args();
    assert_eq!(
        run(&a, false).unwrap_err(),
        "Registry not found at /nonexistent/registry.db. Run `rulest init` first."
    );
    let mut b = args();
    b.db = ":memory:".to_string();
    assert_eq!(run(&b, true).unwrap_err(), "No query specified. Use --help for options.");
    b.symbol = Some("anything".to_string());
    // a fresh in-memory database has no tables, so the lookup fails
    assert!(run(&b, true).is_err());
}

#[test]
fn sync_log_decides_what_to_scan() {
    let mut log = SyncLog::new();
    assert_eq!(module_action(&log, "a.rs", false, 5), ModuleAction::Missing);
    assert_eq!(module_action(&log, "a.rs", true, 5), ModuleAction::Scan);
    log.record("a.rs", 5);
    assert!(!log.needs_sync("a.rs", 5));
    assert!(log.needs_sync("a.rs", 6));
    assert_eq!(module_action(&log, "a.rs", true, 5), ModuleAction::Unchanged);
    log.record("a.rs", 9);
    assert_eq!(log.files.len(), 1);
    assert!(!log.needs_sync("a.rs", 8));
    assert!(log.needs_sync("b.rs", 0));
}

#[test]
fn paths_are_made_relative_by_components() {
    assert_eq!(pathdiff_from("/ws/crates/a", "/ws"), "crates/a");
    assert_eq!(pathdiff_from("/ws/crates/a/", "/ws/"), "crates/a");
    assert_eq!(pathdiff_from("/ws/crates/a", ""), "/ws/crates/a");
    assert_eq!(pathdiff_from("/other/a", "/ws"), "/other/a");
    assert_eq!(pathdiff_from("/ws", "/ws"), "");
    assert_eq!(pathdiff_from("/wsx/a", "/ws"), "/wsx/a");
}

#[test]
fn modules_are_named_after_their_files() {
    let m = module_info_for("crates/domain", "sub/types.rs");
    assert_eq!(m.path, "crates/domain/src/sub/types.rs");
    assert_eq!(m.name, "types");
    assert!(is_rust_source("src/lib.rs"));
    assert!(!is_rust_source("src/.rs"));
    assert!(!is_rust_source("src/lib.rs/notes.txt"));
}

#[test]
fn workspaces_keep_members_and_their_internal_dependencies() {
    let pkg = |id: &str, name: &str, deps: Vec<&str>, files: Vec<&str>| PackageInfo {
        id: id.to_string(),
        name: name.to_string(),
        manifest_dir: format!("/ws/crates/{}", name),
        description: None,
        dependencies: deps.into_iter().map(|d| d.to_string()).collect(),
        rs_files: files.into_iter().map(|f| f.to_string()).collect(),
    };
    let packages = vec![
        pkg("serde 1.0", "serde", vec![], vec![]),
        pkg("domain 0.1", "domain", vec!["serde"], vec!["lib.rs", "types.rs"]),
        pkg("infra 0.1", "infra", vec!["domain", "serde"], vec!["lib.rs"]),
    ];
    let members = vec!["domain 0.1".to_string(), "infra 0.1".to_string()];
    let w = build_workspace(&packages, &members, "/ws");
    assert_eq!(w.crates.len(), 2);
    assert_eq!(w.crates[0].name, "domain");
    assert_eq!(w.crates[0].path, "crates/domain");
    assert_eq!(w.modules[0].1.len(), 2);
    assert_eq!(w.modules[0].1[1].path, "crates/domain/src/types.rs");
    assert_eq!(w.dependencies, vec![("infra".to_string(), "domain".to_string())]);
}

#[test]
fn dates_convert_both_ways() {
    assert!(is_leap_year(2000));
    assert!(!is_leap_year(1900));
    assert!(is_leap_year(2024));
    assert_eq!(days_in_month(2023, 2), 28);
    assert_eq!(days_in_month(2024, 2), 29);
    assert_eq!(days_in_month(2024, 13), 30);
    assert_eq!(epoch_to_iso8601(0), "1970-01-01T00:00:00Z");
    assert_eq!(epoch_to_iso8601(951782400), "2000-02-29T00:00:00Z");
    assert_eq!(epoch_to_iso8601(1700000000), "2023-11-14T22:13:20Z");
    assert_eq!(iso8601_to_epoch("2023-11-14T22:13:20Z"), Some(1700000000));
    assert_eq!(iso8601_to_epoch("2023-11-14"), None);
    for t in [0u64, 59, 86399, 951782400, 1700000000, 4102444800] {
        assert_eq!(iso8601_to_epoch(&epoch_to_iso8601(t)), Some(t));
    }
}

#[test]
fn relative_times_are_worded() {
    assert_eq!(relative_time_at("100", 100), "just now");
    assert_eq!(relative_time_at("100", 159), "just now");
    assert_eq!(relative_time_at("100", 160), "1 minute ago");
    assert_eq!(relative_time_at("100", 100 + 7200), "2 hours ago");
    assert_eq!(relative_time_at("1970-01-01T00:00:00Z", 86400), "1 day ago");
    assert_eq!(relative_time_at("1970-01-01T00:00:00Z", 3 * 86400 + 5), "3 days ago");
    assert_eq!(relative_time_at("yesterday", 5), "unknown");
    assert_eq!(relative_time_at("500", 100), "just now");
}

/// What `cargo metadata` and the walk over `src` report of the sample
/// workspace: `domain` (lib, types, prelude) and `infra`, which depends on it.
fn fixture_packages() -> (Vec<PackageInfo>, Vec<String>) {
    let pkg = |name: &str, deps: Vec<&str>, files: Vec<&str>| PackageInfo {
        id: format!("path+file:///fixtures/sample-workspace/crates/{}#0.1.0", name),
        name: name.to_string(),
        manifest_dir: format!("/fixtures/sample-workspace/crates/{}", name),
        description: None,
        dependencies: deps.into_iter().map(|d| d.to_string()).collect(),
        rs_files: files.into_iter().map(|f| f.to_string()).collect(),
    };
    let packages = vec![
        pkg("domain", vec![], vec!["lib.rs", "types.rs", "prelude.rs"]),
        pkg("infra", vec!["domain"], vec!["lib.rs", "repository.rs"]),
    ];
    let members = packages.iter().map(|p| p.id.clone()).collect();
    (packages, members)
}

#[test]
fn test_cargo_meta_extracts_workspace() {
    let (packages, members) = fixture_packages();
    let info = build_workspace(&packages, &members, "/fixtures");

    assert!(info.crates.len() >= 2, "Should find at least 2 crates, got {}", info.crates.len());
    let names: Vec<&str> = info.crates.iter().map(|c| c.name.as_str()).collect();
    assert!(names.contains(&"domain"), "Should find 'domain' crate");
    assert!(names.contains(&"infra"), "Should find 'infra' crate");
    assert!(!info.modules.is_empty(), "Should find modules");
    assert!(
        info.dependencies.iter().any(|(from, to)| from == "infra" && to == "domain"),
        "Should detect infra -> domain dependency, got: {:?}",
        info.dependencies
    );
}

#[test]
fn test_cargo_meta_extracts_modules() {
    let (packages, members) = fixture_packages();
    let info = build_workspace(&packages, &members, "/fixtures");

    let domain_modules = info
        .modules
        .iter()
        .find(|(name, _)| name == "domain")
        .map(|(_, modules)| modules)
        .expect("Should have domain modules");
    let module_names: Vec<&str> = domain_modules.iter().map(|m| m.name.as_str()).collect();
    assert!(module_names.contains(&"lib"), "Should find lib module, got: {:?}", module_names);
    assert!(module_names.contains(&"types"), "Should find types module, got: {:?}", module_names);
    assert!(module_names.contains(&"prelude"), "Should find prelude module, got: {:?}", module_names);
    assert_eq!(domain_modules[1].path, "sample-workspace/crates/domain/src/types.rs");
}
