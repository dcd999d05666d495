use rulest::advisory::{Advisory, PlannedAction};
use rulest::mcp::{
    call_tool, file_changed_advisories, is_blank_line, parse_error, protocol_version, route_request, server_name,
    tool_definitions, ParamKind, RpcRequest, RpcRoute, ToolArgs, ToolResponse,
};
use rulest::models::{Crate, Language, Module, OwnershipRule, OwnershipRuleKind, Symbol, SymbolKind, SymbolStatus, Visibility};
use rulest::registry::{create_schema, insert_crate, insert_module, insert_ownership_rule, insert_symbol};
use rusqlite::Connection;

fn no_args() -> ToolArgs {
    ToolArgs {
        symbol_name: None,
        target_module: None,
        wanted_type: None,
        target_crate: None,
        mod_path: None,
        capability: None,
        agent: None,
        actions: None,
    }
}

fn setup_tools_db() -> Connection {
    let conn = Connection::open_in_memory().unwrap();
    create_schema(&conn).unwrap();
    let crate_id = insert_crate(
        &conn,
        &Crate {
            id: None,
            name: "mylib".to_string(),
            path: "crates/mylib".to_string(),
            description: None,
            bounded_context: None,
        },
    )
    .unwrap();
    let module_id = insert_module(
        &conn,
        &Module {
            id: None,
            crate_id,
            path: "crates/mylib/src/utils.rs".to_string(),
            name: "utils".to_string(),
            language: Language::Rust,
        },
    )
    .unwrap();
    insert_symbol(
        &conn,
        &Symbol {
            id: None,
            module_id,
            name: "helper_fn".to_string(),
            kind: SymbolKind::Function,
            visibility: Visibility::Public,
            signature: Some("fn helper_fn() -> bool".to_string()),
            line_number: None,
            scope: None,
            status: SymbolStatus::Stable,
            created_by: None,
            created_at: None,
            updated_at: None,
        },
    )
    .unwrap();
    conn
}

fn empty_db() -> Connection {
    let conn = Connection::open_in_memory().unwrap();
    create_schema(&conn).unwrap();
    conn
}

#[test]
fn test_validate_creation_tool() {
    let conn = setup_tools_db();
    let mut args = no_args();
    args.symbol_name = Some("helper_fn".to_string());
    args.target_module = Some("crates/other/src/lib.rs".to_string());
    let result = call_tool(&conn, "validate_creation", &args);
    match result {
        ToolResponse::Advisories(advisories) => {
            assert!(!advisories.is_empty(), "advisories should not be empty for an existing symbol");
        }
        other => panic!("Response should have 'advisories' key, got {:?}", other),
    }
}

#[test]
fn test_unknown_tool() {
    let conn = setup_tools_db();
    let result = call_tool(&conn, "nonexistent_tool", &no_args());
    match result {
        ToolResponse::Error(error_msg) => {
            assert!(error_msg.contains("Unknown tool"), "Error message should mention unknown tool, got: {}", error_msg);
        }
        other => panic!("Response should have 'error' key for unknown tool, got {:?}", other),
    }
}

#[test]
fn test_register_plan_tool() {
    let conn = setup_tools_db();
    let mut args = no_args();
    args.agent = Some("test-agent".to_string());
    args.actions = Some(Ok(vec![PlannedAction {
        action: "create".to_string(),
        symbol: "new_widget".to_string(),
        target: "crates/mylib/src/utils.rs".to_string(),
        crate_name: None,
        kind: Some("function".to_string()),
    }]));
    let result = call_tool(&conn, "register_plan", &args);
    assert!(!result.is_error(), "register_plan should not return an error, got: {:?}", result);
    match result {
        ToolResponse::Registered { registered, .. } => assert_eq!(registered, 1, "Should have registered 1 symbol"),
        other => panic!("Response should have 'registered' count, got {:?}", other),
    }
}

#[test]
fn test_mcp_register_plan_rejects_malformed_actions() {
    let conn = empty_db();
    let mut args = no_args();
    args.agent = Some("test-agent".to_string());
    args.actions = Some(Err("invalid type: string \"not an array\", expected a sequence".to_string()));
    let result = call_tool(&conn, "register_plan", &args);
    assert!(result.is_error(), "Should return error for malformed actions, got: {:?}", result);
}

#[test]
fn test_handle_initialize() {
    assert_eq!(server_name(), "rulest");
    assert!(!protocol_version().is_empty());
    assert_eq!(protocol_version(), "2024-11-05");
}

#[test]
fn test_handle_tools_list() {
    let tools = tool_definitions();
    assert_eq!(tools.len(), 7, "Should expose 7 MCP tools");
    let names: Vec<&str> = tools.iter().map(|t| t.name.as_str()).collect();
    assert!(names.contains(&"validate_creation"));
    assert!(names.contains(&"validate_dependency"));
    assert!(names.contains(&"validate_boundary"));
    assert!(names.contains(&"check_wip"));
    assert!(names.contains(&"suggest_reuse"));
    assert!(names.contains(&"register_plan"));
    assert!(names.contains(&"validate_plan"));
}

#[test]
fn test_handle_tools_call_valid() {
    let conn = empty_db();
    let mut args = no_args();
    args.symbol_name = Some("nonexistent_fn".to_string());
    args.target_module = Some("src/lib.rs".to_string());
    let result = call_tool(&conn, "validate_creation", &args);
    assert_eq!(result.is_error(), false);
    assert!(matches!(result, ToolResponse::Advisories(_)));
}

#[test]
fn test_handle_tools_call_unknown_tool() {
    let conn = empty_db();
    let result = call_tool(&conn, "nonexistent_tool", &no_args());
    assert_eq!(result.is_error(), true);
}

#[test]
fn test_handle_tools_call_validate_plan() {
    let conn = empty_db();
    let mut args = no_args();
    args.actions = Some(Ok(vec![PlannedAction {
        action: "create".to_string(),
        symbol: "new_fn".to_string(),
        target: "src/lib.rs".to_string(),
        crate_name: None,
        kind: None,
    }]));
    let result = call_tool(&conn, "validate_plan", &args);
    assert_eq!(result.is_error(), false);
}

// ---- further cases

#[test]
fn unknown_tool_error_is_exact() {
    let conn = empty_db();
    match call_tool(&conn, "frobnicate", &no_args()) {
        ToolResponse::Error(m) => assert_eq!(m, "Unknown tool: frobnicate"),
        other => panic!("unexpected {:?}", other),
    }
}

#[test]
fn missing_arguments_count_as_empty_and_unknown_agent() {
    let conn = empty_db();
    match call_tool(&conn, "validate_creation", &no_args()) {
        ToolResponse::Advisories(v) => match &v[0] {
            Advisory::SafeToCreate { symbol, target } => {
                assert_eq!(symbol, "");
                assert_eq!(target, "");
            }
            other => panic!("unexpected {:?}", other),
        },
        other => panic!("unexpected {:?}", other),
    }
    match call_tool(&conn, "register_plan", &no_args()) {
        ToolResponse::Registered { registered, total } => {
            assert_eq!(registered, 0);
            assert_eq!(total, 0);
        }
        other => panic!("unexpected {:?}", other),
    }
}

#[test]
fn tool_definitions_require_their_parameters() {
    let tools = tool_definitions();
    assert_eq!(tools[0].name, "validate_creation");
    assert_eq!(tools[0].required, vec!["symbol_name".to_string(), "target_module".to_string()]);
    assert_eq!(tools[1].required, vec!["type_name".to_string()]);
    assert_eq!(tools[3].params[0].name, "module_path");
    assert_eq!(tools[5].params[0].kind, ParamKind::Actions);
    assert_eq!(tools[5].required, vec!["actions".to_string(), "agent".to_string()]);
    assert_eq!(tools[6].required, vec!["actions".to_string()]);
}

fn req(jsonrpc: Option<&str>, method: Option<&str>, notification: bool) -> RpcRequest {
    RpcRequest {
        jsonrpc: jsonrpc.map(|s| s.to_string()),
        method: method.map(|s| s.to_string()),
        is_notification: notification,
    }
}

#[test]
fn requests_are_routed_by_method() {
    assert!(matches!(route_request(&req(Some("2.0"), Some("initialize"), false), false), RpcRoute::Initialize));
    assert!(matches!(route_request(&req(Some("2.0"), Some("tools/list"), false), false), RpcRoute::ToolsList));
    assert!(matches!(route_request(&req(Some("2.0"), Some("tools/call"), true), false), RpcRoute::ToolsCall));
    assert!(matches!(
        route_request(&req(Some("2.0"), Some("notifications/file_changed"), true), true),
        RpcRoute::FileChanged
    ));
    assert!(matches!(
        route_request(&req(Some("2.0"), Some("notifications/file_changed"), true), false),
        RpcRoute::Silent
    ));
    match route_request(&req(Some("2.0"), Some("nope"), false), false) {
        RpcRoute::Reject { code, message } => {
            assert_eq!(code, -32601);
            assert_eq!(message, "Method not found: nope");
        }
        other => panic!("unexpected {:?}", other),
    }
}

#[test]
fn invalid_requests_are_rejected() {
    match route_request(&req(Some("1.0"), Some("initialize"), false), false) {
        RpcRoute::Reject { code, message } => {
            assert_eq!(code, -32600);
            assert!(message.contains("jsonrpc"));
        }
        other => panic!("unexpected {:?}", other),
    }
    match route_request(&req(Some("2.0"), Some(""), false), false) {
        RpcRoute::Reject { code, message } => {
            assert_eq!(code, -32600);
            assert_eq!(message, "Invalid Request: missing or empty 'method' field");
        }
        other => panic!("unexpected {:?}", other),
    }
    let (code, message) = parse_error("expected value");
    assert_eq!(code, -32700);
    assert_eq!(message, "Parse error: expected value");
    assert!(is_blank_line("  \t\n"));
    assert!(!is_blank_line(" {} "));
}

#[test]
fn file_change_reports_creation_and_violations() {
    let conn = setup_tools_db();
    insert_ownership_rule(
        &conn,
        &OwnershipRule {
            id: None,
            crate_name: "mylib".to_string(),
            description: "No http".to_string(),
            kind: OwnershipRuleKind::MustNot,
            pattern: None,
            regex: None,
        },
    )
    .unwrap();
    let names = vec!["helper_fn".to_string(), "HttpThing".to_string()];
    let v = file_changed_advisories(&conn, "crates/mylib/src/new.rs", &names);
    assert_eq!(v.len(), 3);
    assert!(matches!(v[0], Advisory::ReuseExisting { .. }));
    assert!(matches!(v[1], Advisory::SafeToCreate { .. }));
    assert!(matches!(v[2], Advisory::BoundaryViolation { .. }));
    let v = file_changed_advisories(&conn, "src/new.rs", &names);
    assert_eq!(v.len(), 2);
}
