use rulest::plan::{extract_crate_name, parse_plan, parse_plan_public};

#[test]
fn test_parse_plan() {
    let plan = r#"
# Settlement feature plan

CREATE: fn calculate_settlement_fee in: crates/trading/src/fees.rs
CREATE: struct CurrencyAmount in: crates/domain/src/types.rs
MODIFY: fn execute_settlement in: crates/trading/src/settlement.rs
"#;
    let actions = parse_plan(plan).unwrap();
    assert_eq!(actions.len(), 3);
    assert_eq!(actions[0].action, "create");
    assert_eq!(actions[0].symbol, "calculate_settlement_fee");
    assert_eq!(actions[0].target, "crates/trading/src/fees.rs");
    assert_eq!(actions[0].crate_name, Some("trading".to_string()));
    assert_eq!(actions[1].symbol, "CurrencyAmount");
    assert_eq!(actions[1].crate_name, Some("domain".to_string()));
    assert_eq!(actions[2].action, "modify");
}

#[test]
fn test_parse_plan_skips_comments() {
    let plan = "# comment\n// another\n\nCREATE: foo in: bar.rs\n";
    let actions = parse_plan(plan).unwrap();
    assert_eq!(actions.len(), 1);
    assert_eq!(actions[0].symbol, "foo");
}

#[test]
fn test_extract_crate_name() {
    assert_eq!(
        extract_crate_name("crates/trading/src/fees.rs"),
        Some("trading".to_string())
    );
    assert_eq!(extract_crate_name("src/main.rs"), None);
}

#[test]
fn plan_lines_are_case_insensitive_and_split_on_in() {
    let actions = parse_plan_public("create: enum Mode in crates/app/src/mode.rs\nModify: trait Store\n").unwrap();
    assert_eq!(actions.len(), 2);
    assert_eq!(actions[0].action, "create");
    assert_eq!(actions[0].symbol, "Mode");
    assert_eq!(actions[0].target, "crates/app/src/mode.rs");
    assert_eq!(actions[0].crate_name, Some("app".to_string()));
    assert_eq!(actions[1].action, "modify");
    assert_eq!(actions[1].symbol, "Store");
    assert_eq!(actions[1].target, "");
    assert_eq!(actions[1].crate_name, None);
    assert_eq!(actions[1].kind, None);
}

#[test]
fn plan_lines_without_symbol_or_action_are_ignored() {
    let actions = parse_plan("DELETE: foo in: a.rs\nCREATE:   \nnothing here\n").unwrap();
    assert_eq!(actions.len(), 0);
    // once the kind is stripped, ` in: ` no longer has its leading space
    let actions = parse_plan("CREATE: fn  in: a.rs").unwrap();
    assert_eq!(actions.len(), 1);
    assert_eq!(actions[0].symbol, "in: a.rs");
    assert_eq!(actions[0].target, "");
}

#[test]
fn crate_name_needs_a_segment_after_crates() {
    assert_eq!(extract_crate_name("crates/lonely"), None);
    assert_eq!(extract_crate_name("crates//x.rs"), Some("".to_string()));
    assert_eq!(extract_crate_name("lib/crates/a/b.rs"), None);
}
