//! The MCP (Model Context Protocol) side of the registry: the seven tools that
//! agents call over JSON-RPC 2.0, how a call is answered, and how a request is
//! routed. JSON itself is read and written around this module; here requests
//! and answers are plain values.
use vstd::prelude::*;

use rusqlite::Connection;

use crate::advisory::{advisories_view, Advisory, AdvisoryView, PlanReport, PlannedAction};
use crate::queries::{
    boundary_spec, check_wip, creation_spec, dependency_spec, places_unique, plan_advisories, register_plan,
    reuse_spec, suggest_reuse, summarizes, symbols_of_rows, validate_boundary, validate_creation,
    validate_dependency, validate_plan, wip_spec, BoundaryRule, WipRow,
};
use crate::db::SqlValue;
use crate::advisory::ExistingSymbolView;
use crate::models::LinkedSymbol;
use crate::text::{concat, owned, str_eq};

verus! {

// ---------------------------------------------------------------- tool definitions

/// The JSON type of a tool parameter.
#[derive(Debug, Clone, Copy, PartialEq, Eq, Structural)]
pub enum ParamKind {
    /// A string.
    Text,
    /// An array of planned actions.
    Actions,
}

/// One parameter of a tool's input schema.
#[derive(Debug, Clone)]
pub struct ToolParam {
    pub name: String,
    pub kind: ParamKind,
    pub description: String,
}

/// A tool as `tools/list` describes it: its name, what it does, and its
/// parameters, of which those in `required` must be given.
#[derive(Debug, Clone)]
pub struct ToolDefinition {
    pub name: String,
    pub description: String,
    pub params: Vec<ToolParam>,
    pub required: Vec<String>,
}

/// The names of the tools, in the order `tools/list` gives them.
pub open spec fn tool_names() -> Seq<Seq<char>> {
    seq![
        "validate_creation"@,
        "validate_dependency"@,
        "validate_boundary"@,
        "check_wip"@,
        "suggest_reuse"@,
        "register_plan"@,
        "validate_plan"@,
    ]
}

/// A text parameter.
fn text_param(name: &str, description: &str) -> (r: ToolParam)
    ensures
        r.name@ == name@,
        r.kind == ParamKind::Text,
        r.description@ == description@,
{
    ToolParam { name: owned(name), kind: ParamKind::Text, description: owned(description) }
}

/// A list of names.
fn names(a: &str, b: Option<&str>) -> (r: Vec<String>)
    ensures
        r.len() == if b is Some { 2int } else { 1int },
        r@[0]@ == a@,
        b matches Some(t) ==> r@[1]@ == t@,
{
    let mut v: Vec<String> = Vec::new();
    v.push(owned(a));
    match b {
        Some(t) => v.push(owned(t)),
        None => {},
    }
    v
}

/// A tool with the given parameters, all of them required.
fn tool(name: &str, description: &str, params: Vec<ToolParam>) -> (r: ToolDefinition)
    requires
        params.len() == 1 || params.len() == 2,
    ensures
        r.name@ == name@,
        r.description@ == description@,
        r.params == params,
        r.required.len() == params.len(),
        forall|i: int| 0 <= i < params.len() ==> (#[trigger] r.required@[i])@ == params@[i].name@,
{
    let second = if params.len() == 2 {
        Some(params[1].name.as_str())
    } else {
        None
    };
    let required = names(params[0].name.as_str(), second);
    ToolDefinition { name: owned(name), description: owned(description), params, required }
}

/// The parameters of a planned action in the `actions` array of a tool: its
/// `action`, `symbol` and `target`, which are required, and its optional
/// `crate_name` and `kind`.
pub fn action_item_params() -> (r: Vec<ToolParam>)
    ensures
        r.len() == 5,
        r@[0].name@ == "action"@,
        r@[1].name@ == "symbol"@,
        r@[2].name@ == "target"@,
        r@[3].name@ == "crate_name"@,
        r@[4].name@ == "kind"@,
        forall|i: int| 0 <= i < 5 ==> (#[trigger] r@[i]).kind == ParamKind::Text,
{
    let mut v: Vec<ToolParam> = Vec::new();
    v.push(text_param("action", "create or modify"));
    v.push(text_param("symbol", "Symbol name"));
    v.push(text_param("target", "Target file path"));
    v.push(text_param("crate_name", "Target crate name (optional)"));
    v.push(
        text_param(
            "kind",
            "Symbol kind: function, struct, enum, trait, type_alias, const, static, macro (optional, defaults to function)",
        ),
    );
    v
}

/// The required parameters of a planned action.
pub fn action_item_required() -> (r: Vec<String>)
    ensures
        r.len() == 3,
        r@[0]@ == "action"@,
        r@[1]@ == "symbol"@,
        r@[2]@ == "target"@,
{
    let mut v: Vec<String> = Vec::new();
    v.push(owned("action"));
    v.push(owned("symbol"));
    v.push(owned("target"));
    v
}

/// A parameter as plain values: its name, kind and description.
pub open spec fn param_view(p: ToolParam) -> (Seq<char>, ParamKind, Seq<char>) {
    (p.name@, p.kind, p.description@)
}

/// The descriptions of the tools, in the order of `tool_names`.
pub open spec fn tool_descriptions() -> Seq<Seq<char>> {
    seq![
        "Check if a symbol can be created or if a similar one already exists. Returns SAFE_TO_CREATE, REUSE_EXISTING, or AMBIGUOUS_MATCH."@,
        "Look up a type (struct/trait/enum) across all crates. Returns USE_EXISTING_TYPE with prelude path if found."@,
        "Check if placing a symbol in a crate violates ownership rules. Returns BOUNDARY_VIOLATION if rules are violated."@,
        "Scan for WIP or planned symbols in a module path. Returns WIP_CONFLICT if active work is detected."@,
        "Search for reusable symbols matching a capability description. Returns suggestions for existing code that can be reused."@,
        "Register planned symbols from an AI plan into the registry. Enables conflict detection via check_wip for multi-agent coordination."@,
        "Validate an entire structured plan against the registry. Checks each action for conflicts, duplicates, boundary violations, and WIP conflicts. Returns a report with per-action advisories and a summary."@,
    ]
}

/// The parameters of each tool, in the order of `tool_names`: name, kind and
/// description; all of them are required.
pub open spec fn tool_params() -> Seq<Seq<(Seq<char>, ParamKind, Seq<char>)>> {
    seq![
        seq![("symbol_name"@, ParamKind::Text, "Name of the symbol to create"@), ("target_module"@, ParamKind::Text, "Target module path (e.g., crates/trading/src/fees.rs)"@)],
        seq![("type_name"@, ParamKind::Text, "Name of the type to look up"@)],
        seq![("symbol_name"@, ParamKind::Text, "Name of the symbol to place"@), ("target_crate"@, ParamKind::Text, "Target crate name"@)],
        seq![("module_path"@, ParamKind::Text, "Module path to check (e.g., src/fees)"@)],
        seq![("capability"@, ParamKind::Text, "Description of the capability needed (e.g., 'calculate trading fees')"@)],
        seq![("actions"@, ParamKind::Actions, "List of planned actions to register"@), ("agent"@, ParamKind::Text, "Agent identifier for tracking"@)],
        seq![("actions"@, ParamKind::Actions, "List of planned actions to validate"@)],
    ]
}

/// The tools of the server, as `tools/list` describes them: their names and
/// descriptions in order, each with its parameters (`tool_params`), all of
/// which are required, in the same order.
pub fn tool_definitions() -> (r: Vec<ToolDefinition>)
    ensures
        r.len() == 7,
        forall|i: int| 0 <= i < 7 ==> (#[trigger] r@[i]).name@ == tool_names()[i],
        forall|i: int| 0 <= i < 7 ==> (#[trigger] r@[i]).description@ == tool_descriptions()[i],
        forall|i: int| 0 <= i < 7 ==> (#[trigger] r@[i]).params@.map_values(|q: ToolParam| param_view(q)) == tool_params()[i],
        forall|i: int| 0 <= i < 7 ==> (#[trigger] r@[i]).required@.map_values(|x: String| x@) == tool_params()[i].map_values(
            |t: (Seq<char>, ParamKind, Seq<char>)| t.0,
        ),
{
    let mut v: Vec<ToolDefinition> = Vec::new();

    let mut p: Vec<ToolParam> = Vec::new();
    p.push(text_param("symbol_name", "Name of the symbol to create"));
    p.push(text_param("target_module", "Target module path (e.g., crates/trading/src/fees.rs)"));
    v.push(
        tool(
            "validate_creation",
            "Check if a symbol can be created or if a similar one already exists. Returns SAFE_TO_CREATE, REUSE_EXISTING, or AMBIGUOUS_MATCH.",
            p,
        ),
    );

    let mut p: Vec<ToolParam> = Vec::new();
    p.push(text_param("type_name", "Name of the type to look up"));
    v.push(
        tool(
            "validate_dependency",
            "Look up a type (struct/trait/enum) across all crates. Returns USE_EXISTING_TYPE with prelude path if found.",
            p,
        ),
    );

    let mut p: Vec<ToolParam> = Vec::new();
    p.push(text_param("symbol_name", "Name of the symbol to place"));
    p.push(text_param("target_crate", "Target crate name"));
    v.push(
        tool(
            "validate_boundary",
            "Check if placing a symbol in a crate violates ownership rules. Returns BOUNDARY_VIOLATION if rules are violated.",
            p,
        ),
    );

    let mut p: Vec<ToolParam> = Vec::new();
    p.push(text_param("module_path", "Module path to check (e.g., src/fees)"));
    v.push(
        tool(
            "check_wip",
            "Scan for WIP or planned symbols in a module path. Returns WIP_CONFLICT if active work is detected.",
            p,
        ),
    );

    let mut p: Vec<ToolParam> = Vec::new();
    p.push(text_param("capability", "Description of the capability needed (e.g., 'calculate trading fees')"));
    v.push(
        tool(
            "suggest_reuse",
            "Search for reusable symbols matching a capability description. Returns suggestions for existing code that can be reused.",
            p,
        ),
    );

    let mut p: Vec<ToolParam> = Vec::new();
    p.push(
        ToolParam {
            name: owned("actions"),
            kind: ParamKind::Actions,
            description: owned("List of planned actions to register"),
        },
    );
    p.push(text_param("agent", "Agent identifier for tracking"));
    v.push(
        tool(
            "register_plan",
            "Register planned symbols from an AI plan into the registry. Enables conflict detection via check_wip for multi-agent coordination.",
            p,
        ),
    );

    let mut p: Vec<ToolParam> = Vec::new();
    p.push(
        ToolParam {
            name: owned("actions"),
            kind: ParamKind::Actions,
            description: owned("List of planned actions to validate"),
        },
    );
    v.push(
        tool(
            "validate_plan",
            "Validate an entire structured plan against the registry. Checks each action for conflicts, duplicates, boundary violations, and WIP conflicts. Returns a report with per-action advisories and a summary.",
            p,
        ),
    );
    proof {
        assert forall|i: int| 0 <= i < 7 implies (#[trigger] v@[i]).params@.map_values(|q: ToolParam| param_view(q))
            == tool_params()[i] && v@[i].required@.map_values(|x: String| x@) == tool_params()[i].map_values(
            |t: (Seq<char>, ParamKind, Seq<char>)| t.0,
        ) by {
            assert(v@[i].params@.map_values(|q: ToolParam| param_view(q)) =~= tool_params()[i]);
            assert(v@[i].required@.map_values(|x: String| x@) =~= tool_params()[i].map_values(
                |t: (Seq<char>, ParamKind, Seq<char>)| t.0,
            ));
        }
    }
    v
}

// ---------------------------------------------------------------- tool calls

/// The arguments of a tool call, each as given (`None` where the argument is
/// missing or not of its type).
#[derive(Debug, Clone)]
pub struct ToolArgs {
    pub symbol_name: Option<String>,
    pub target_module: Option<String>,
    pub wanted_type: Option<String>,
    pub target_crate: Option<String>,
    pub mod_path: Option<String>,
    pub capability: Option<String>,
    pub agent: Option<String>,
    /// The planned actions: `None` when missing, an error when they are not
    /// an array of planned actions.
    pub actions: Option<Result<Vec<PlannedAction>, String>>,
}

/// The answer to a tool call.
#[derive(Debug, Clone)]
pub enum ToolResponse {
    /// The advisories of a query.
    Advisories(Vec<Advisory>),
    /// How many planned symbols were registered, out of how many actions.
    Registered { registered: usize, total: usize },
    /// The report on a plan.
    Report(PlanReport),
    /// The call failed; the text says why.
    Error(String),
}

impl ToolResponse {
    /// Whether the answer reports a failure.
    pub fn is_error(&self) -> (r: bool)
        ensures
            r == (*self is Error),
    {
        match self {
            ToolResponse::Error(_) => true,
            _ => false,
        }
    }
}

/// An argument, or `default` when it is missing.
pub open spec fn arg_or(o: Option<String>, default: Seq<char>) -> Seq<char> {
    match o {
        Some(s) => s@,
        None => default,
    }
}

/// The number of planned actions given (none when missing).
pub open spec fn actions_len(o: Option<Result<Vec<PlannedAction>, String>>) -> nat {
    match o {
        Some(Ok(v)) => v@.len(),
        _ => 0,
    }
}

/// Whether the actions given are not an array of planned actions, with the
/// error that answers the call then.
pub open spec fn actions_refused(o: Option<Result<Vec<PlannedAction>, String>>, r: ToolResponse) -> bool {
    o matches Some(Err(m)) && r matches ToolResponse::Error(t) && t@ == "Invalid 'actions' argument: "@ + m@
}

/// What answering a tool call gives: for each query tool, its advisories as
/// the query states them or a failure; for `register_plan`, the count of the
/// actions whose module was found, out of those given; for `validate_plan`, its report; for
/// any other name, the error `Unknown tool: <name>`. A missing text argument
/// counts as empty, a missing agent as `unknown`, missing actions as none;
/// actions that are not an array of planned actions are refused.
pub open spec fn tool_answered(name: Seq<char>, args: ToolArgs, r: ToolResponse) -> bool {
    if name == "validate_creation"@ {
        match r {
            ToolResponse::Advisories(v) => v.len() == 1 && exists|e: Seq<Vec<SqlValue>>, f: Seq<Vec<SqlValue>>, l: Seq<LinkedSymbol>|
                v@[0]@ == creation_spec(
                    arg_or(args.symbol_name, Seq::empty()),
                    arg_or(args.target_module, Seq::empty()),
                    crate::queries::named(symbols_of_rows(e), arg_or(args.symbol_name, Seq::empty())),
                    symbols_of_rows(f),
                    l,
                ),
            ToolResponse::Error(_) => true,
            _ => false,
        }
    } else if name == "validate_dependency"@ {
        match r {
            ToolResponse::Advisories(v) => v.len() == 1 && exists|rows: Seq<Vec<SqlValue>>, traits: Seq<Seq<char>>, reexport: Option<Seq<char>>|
                v@[0]@ == dependency_spec(
                    arg_or(args.wanted_type, Seq::empty()),
                    crate::queries::types_named(symbols_of_rows(rows), arg_or(args.wanted_type, Seq::empty())),
                    traits,
                    reexport,
                ),
            ToolResponse::Error(_) => true,
            _ => false,
        }
    } else if name == "validate_boundary"@ {
        match r {
            ToolResponse::Advisories(v) => exists|rules: Seq<BoundaryRule>, owners: Seq<(String, String)>, alts: Seq<(String, String)>|
                boundary_spec(
                    arg_or(args.symbol_name, Seq::empty()),
                    arg_or(args.target_crate, Seq::empty()),
                    rules,
                    owners,
                    alts,
                ) == Some(advisories_view(v)),
            ToolResponse::Error(_) => true,
            _ => false,
        }
    } else if name == "check_wip"@ {
        match r {
            ToolResponse::Advisories(v) => (exists|rows: Seq<WipRow>, now: u64| advisories_view(v) == wip_spec(rows, now))
                && crate::queries::wip_answer(arg_or(args.mod_path, Seq::empty()), advisories_view(v)),
            ToolResponse::Error(_) => true,
            _ => false,
        }
    } else if name == "suggest_reuse"@ {
        &&& crate::queries::reuse_keywords(arg_or(args.capability, Seq::empty())).len() == 0 ==> (r matches ToolResponse::Advisories(
            v,
        ) && v.len() == 0)
        &&& match r {
            ToolResponse::Advisories(v) => exists|all: Seq<ExistingSymbolView>|
                places_unique(all) && crate::queries::all_public(all) && advisories_view(v) == reuse_spec(all),
            ToolResponse::Error(_) => true,
            _ => false,
        }
    } else if name == "register_plan"@ {
        if args.actions matches Some(Err(_)) {
            actions_refused(args.actions, r)
        } else {
            match r {
                ToolResponse::Registered { registered, total } => total == actions_len(args.actions) && exists|
                    found: Seq<Option<crate::models::Module>>,
                | found.len() == total && registered == crate::queries::found_count(found),
                ToolResponse::Error(_) => true,
                _ => false,
            }
        }
    } else if name == "validate_plan"@ && args.actions matches Some(Err(_)) {
        actions_refused(args.actions, r)
    } else if name == "validate_plan"@ {
        match r {
            ToolResponse::Report(rep) => rep.results.len() == actions_len(args.actions) && summarizes(
                rep.summary,
                plan_advisories(rep.results@),
                actions_len(args.actions),
            ),
            ToolResponse::Error(_) => true,
            _ => false,
        }
    } else {
        r matches ToolResponse::Error(m) && m@ == "Unknown tool: "@ + name
    }
}

/// An argument, or `default` when it is missing.
fn arg_text(o: &Option<String>, default: &str) -> (r: String)
    ensures
        r@ == arg_or(*o, default@),
{
    match o {
        Some(s) => s.clone(),
        None => owned(default),
    }
}

/// Answers a tool call (see `tool_answered`).
pub fn call_tool(conn: &Connection, tool_name: &str, args: &ToolArgs) -> (r: ToolResponse)
    ensures
        tool_answered(tool_name@, *args, r),
{
    let empty = "";
    proof {
        reveal_strlit("");
    }
    assert(empty@ == Seq::<char>::empty());
    if str_eq(tool_name, "validate_creation") {
        let s = arg_text(&args.symbol_name, empty);
        let t = arg_text(&args.target_module, empty);
        match validate_creation(conn, s.as_str(), t.as_str()) {
            Ok(v) => ToolResponse::Advisories(v),
            Err(e) => ToolResponse::Error(e),
        }
    } else if str_eq(tool_name, "validate_dependency") {
        let w = arg_text(&args.wanted_type, empty);
        match validate_dependency(conn, w.as_str()) {
            Ok(v) => ToolResponse::Advisories(v),
            Err(e) => ToolResponse::Error(e),
        }
    } else if str_eq(tool_name, "validate_boundary") {
        let s = arg_text(&args.symbol_name, empty);
        let c = arg_text(&args.target_crate, empty);
        match validate_boundary(conn, s.as_str(), c.as_str()) {
            Ok(v) => ToolResponse::Advisories(v),
            Err(e) => ToolResponse::Error(e),
        }
    } else if str_eq(tool_name, "check_wip") {
        let m = arg_text(&args.mod_path, empty);
        match check_wip(conn, m.as_str()) {
            Ok(v) => ToolResponse::Advisories(v),
            Err(e) => ToolResponse::Error(e),
        }
    } else if str_eq(tool_name, "suggest_reuse") {
        let c = arg_text(&args.capability, empty);
        match suggest_reuse(conn, c.as_str()) {
            Ok(v) => ToolResponse::Advisories(v),
            Err(e) => ToolResponse::Error(e),
        }
    } else if str_eq(tool_name, "register_plan") {
        let agent = arg_text(&args.agent, "unknown");
        let none: Vec<PlannedAction> = Vec::new();
        let actions = match &args.actions {
            Some(Ok(a)) => a,
            Some(Err(m)) => {
                return ToolResponse::Error(concat("Invalid 'actions' argument: ", m.as_str()));
            },
            None => &none,
        };
        match register_plan(conn, actions.as_slice(), agent.as_str()) {
            Ok(count) => ToolResponse::Registered { registered: count, total: actions.len() },
            Err(e) => ToolResponse::Error(e),
        }
    } else if str_eq(tool_name, "validate_plan") {
        let none: Vec<PlannedAction> = Vec::new();
        let actions = match &args.actions {
            Some(Ok(a)) => a,
            Some(Err(m)) => {
                return ToolResponse::Error(concat("Invalid 'actions' argument: ", m.as_str()));
            },
            None => &none,
        };
        match validate_plan(conn, actions.as_slice()) {
            Ok(rep) => ToolResponse::Report(rep),
            Err(e) => ToolResponse::Error(e),
        }
    } else {
        ToolResponse::Error(concat("Unknown tool: ", tool_name))
    }
}

// ---------------------------------------------------------------- routing requests

/// The name the server gives of itself.
pub fn server_name() -> (r: &'static str)
    ensures
        r@ == "rulest"@,
{
    "rulest"
}

/// The version of the protocol that the server speaks.
pub fn protocol_version() -> (r: &'static str)
    ensures
        r@ == "2024-11-05"@,
{
    "2024-11-05"
}

/// What the server reads of a JSON-RPC request: its `jsonrpc` and `method`
/// fields where they are strings, and whether it is a notification (it has
/// no `id`, or a null one).
#[derive(Debug, Clone)]
pub struct RpcRequest {
    pub jsonrpc: Option<String>,
    pub method: Option<String>,
    pub is_notification: bool,
}

/// How the server answers a request.
#[derive(Debug, Clone)]
pub enum RpcRoute {
    /// Answer with the server's name, version and capabilities.
    Initialize,
    /// Answer with the tool definitions.
    ToolsList,
    /// Call the tool named in the parameters and answer with its result.
    ToolsCall,
    /// Validate the changed file and notify the client of the advisories.
    FileChanged,
    /// A notification: no answer.
    Silent,
    /// Answer with a JSON-RPC error.
    Reject { code: i64, message: String },
}

/// Whether a route is the rejection with this code and message.
pub open spec fn rejects(r: RpcRoute, code: int, message: Seq<char>) -> bool {
    r matches RpcRoute::Reject { code: c, message: m } && c == code && m@ == message
}

/// How a request is answered: a request without `jsonrpc` "2.0", or without
/// a non-empty method, is invalid (-32600); `initialize`, `tools/list` and
/// `tools/call` are served; a file-change notification is served only in
/// auto-validate mode; other notifications get no answer; any other method is
/// not found (-32601).
pub open spec fn route_ok(req: RpcRequest, auto_validate: bool, r: RpcRoute) -> bool {
    if !(req.jsonrpc matches Some(v) && v@ == "2.0"@) {
        rejects(r, -32600, "Invalid Request: missing or invalid 'jsonrpc' field (must be \"2.0\")"@)
    } else if !(req.method matches Some(m) && m@.len() > 0) {
        rejects(r, -32600, "Invalid Request: missing or empty 'method' field"@)
    } else {
        let m = req.method->0@;
        if m == "initialize"@ {
            r is Initialize
        } else if m == "tools/list"@ {
            r is ToolsList
        } else if m == "tools/call"@ {
            r is ToolsCall
        } else if m == "notifications/file_changed"@ && auto_validate {
            r is FileChanged
        } else if req.is_notification {
            r is Silent
        } else {
            rejects(r, -32601, "Method not found: "@ + m)
        }
    }
}

/// Routes a request (see `route_ok`).
pub fn route_request(req: &RpcRequest, auto_validate: bool) -> (r: RpcRoute)
    ensures
        route_ok(*req, auto_validate, r),
{
    let version_ok = match &req.jsonrpc {
        Some(v) => str_eq(v.as_str(), "2.0"),
        None => false,
    };
    if !version_ok {
        return RpcRoute::Reject {
            code: -32600,
            message: owned("Invalid Request: missing or invalid 'jsonrpc' field (must be \"2.0\")"),
        };
    }
    let m = match &req.method {
        Some(m) => {
            if m.unicode_len() == 0 {
                return RpcRoute::Reject {
                    code: -32600,
                    message: owned("Invalid Request: missing or empty 'method' field"),
                };
            }
            m
        },
        None => {
            return RpcRoute::Reject {
                code: -32600,
                message: owned("Invalid Request: missing or empty 'method' field"),
            };
        },
    };
    if str_eq(m.as_str(), "initialize") {
        RpcRoute::Initialize
    } else if str_eq(m.as_str(), "tools/list") {
        RpcRoute::ToolsList
    } else if str_eq(m.as_str(), "tools/call") {
        RpcRoute::ToolsCall
    } else if auto_validate && str_eq(m.as_str(), "notifications/file_changed") {
        RpcRoute::FileChanged
    } else if req.is_notification {
        RpcRoute::Silent
    } else {
        RpcRoute::Reject { code: -32601, message: concat("Method not found: ", m.as_str()) }
    }
}

/// The JSON-RPC error for a line that is not JSON: code -32700 and
/// `Parse error: <detail>`.
pub fn parse_error(detail: &str) -> (r: (i64, String))
    ensures
        r.0 == -32700,
        r.1@ == "Parse error: "@ + detail@,
{
    (-32700, concat("Parse error: ", detail))
}

/// Whether an input line holds nothing but whitespace (such lines are
/// skipped).
pub fn is_blank_line(line: &str) -> (r: bool)
    ensures
        r == (crate::text::trim(line@).len() == 0),
{
    let cs = crate::text::chars_of(line);
    let t = crate::text::trim_chars(cs.as_slice());
    t.len() == 0
}

/// The advice on one symbol of a changed file: its creation advice, then the
/// boundary violations among its boundary advice.
pub open spec fn change_part(c: Seq<AdvisoryView>, b: Seq<AdvisoryView>) -> Seq<AdvisoryView> {
    c + crate::queries::only_variant(b, 3)
}

/// Whether advice is what auto-validate mode sends on one symbol: the change
/// part of the creation check's answer (or nothing, when that query fails)
/// and, for a file in a crate, of the boundary check's answer (or nothing).
pub open spec fn part_answers(sym: Seq<char>, file: Seq<char>, krate: Option<Seq<char>>, p: Seq<AdvisoryView>) -> bool {
    exists|c: Seq<AdvisoryView>, b: Seq<AdvisoryView>|
        p == change_part(c, b) && (c.len() == 0 || crate::queries::creation_answer(sym, file, c)) && (b.len() == 0
            || (krate is Some && crate::queries::boundary_answer(sym, krate->0, b)))
}

/// The parts joined in order.
pub open spec fn flatten(parts: Seq<Seq<AdvisoryView>>) -> Seq<AdvisoryView>
    decreases parts.len(),
{
    if parts.len() == 0 {
        Seq::empty()
    } else {
        flatten(parts.drop_last()) + parts.last()
    }
}

/// The advice on one symbol of a changed file (see `change_part`).
pub fn change_advice(creation: &Vec<Advisory>, boundary: &Vec<Advisory>) -> (r: Vec<Advisory>)
    ensures
        advisories_view(r) == change_part(advisories_view(*creation), advisories_view(*boundary)),
{
    let ghost cv = advisories_view(*creation);
    let ghost bv = advisories_view(*boundary);
    let mut out: Vec<Advisory> = Vec::new();
    let mut k: usize = 0;
    while k < creation.len()
        invariant
            k <= creation.len(),
            cv == advisories_view(*creation),
            advisories_view(out) == cv.take(k as int),
        decreases creation.len() - k,
    {
        let a = creation[k].copy();
        let ghost before = advisories_view(out);
        out.push(a);
        assert(advisories_view(out) == before.push(a@));
        assert(a@ == cv[k as int]);
        assert(advisories_view(out) =~= cv.take(k + 1));
        k = k + 1;
    }
    assert(cv.take(creation.len() as int) == cv);
    let mut j: usize = 0;
    while j < boundary.len()
        invariant
            j <= boundary.len(),
            cv == advisories_view(*creation),
            bv == advisories_view(*boundary),
            advisories_view(out) == cv + crate::queries::only_variant(bv.take(j as int), 3),
        decreases boundary.len() - j,
    {
        assert(bv.take(j + 1).drop_last() == bv.take(j as int));
        assert(bv.take(j + 1).last() == boundary@[j as int]@);
        if let Advisory::BoundaryViolation { .. } = &boundary[j] {
            let a = boundary[j].copy();
            let ghost before = advisories_view(out);
            out.push(a);
            assert(advisories_view(out) =~= before.push(a@));
        }
        j = j + 1;
    }
    assert(bv.take(boundary.len() as int) == bv);
    out
}

/// Appends advisories.
fn append_advice(dst: &mut Vec<Advisory>, src: Vec<Advisory>)
    ensures
        advisories_view(*final(dst)) == advisories_view(*old(dst)) + advisories_view(src),
{
    let mut src = src;
    let ghost a = advisories_view(*dst);
    let ghost b = advisories_view(src);
    dst.append(&mut src);
    assert(advisories_view(*dst) =~= a + b);
}

/// The advice on a changed file that auto-validate mode sends: for each
/// symbol of the file in order, its creation advice and, where the file lies
/// in a crate (`crates/<name>/...`), its boundary violations (see
/// `part_answers`); a query that fails adds nothing.
pub fn file_changed_advisories(conn: &Connection, file_path: &str, symbols: &Vec<String>) -> (r: Vec<Advisory>)
    ensures
        forall|k: int| 0 <= k < r.len() ==> {
            let v = crate::queries::variant(#[trigger] r@[k]@);
            v == 0 || v == 1 || v == 3 || v == 5 || v == 6
        },
        crate::plan::crate_of_path(file_path@) is None ==> forall|k: int| 0 <= k < r.len()
            ==> crate::queries::variant(#[trigger] r@[k]@) != 3,
        exists|parts: Seq<Seq<AdvisoryView>>|
            parts.len() == symbols.len() && advisories_view(r) == flatten(parts) && forall|i: int|
                0 <= i < parts.len() ==> part_answers(
                    symbols@[i]@,
                    file_path@,
                    crate::plan::crate_of_path(file_path@),
                    #[trigger] parts[i],
                ),
{
    let crate_name = crate::plan::extract_crate_name(file_path);
    let mut out: Vec<Advisory> = Vec::new();
    let ghost mut parts: Seq<Seq<AdvisoryView>> = Seq::empty();
    let mut i: usize = 0;
    while i < symbols.len()
        invariant
            i <= symbols.len(),
            crate::plan::opt_chars(crate_name) == crate::plan::crate_of_path(file_path@),
            parts.len() == i,
            advisories_view(out) == flatten(parts),
            forall|q: int|
                0 <= q < parts.len() ==> part_answers(
                    symbols@[q]@,
                    file_path@,
                    crate::plan::crate_of_path(file_path@),
                    #[trigger] parts[q],
                ),
            forall|k: int| 0 <= k < out.len() ==> {
                let v = crate::queries::variant(#[trigger] out@[k]@);
                v == 0 || v == 1 || v == 3 || v == 5 || v == 6
            },
            crate::plan::crate_of_path(file_path@) is None ==> forall|k: int| 0 <= k < out.len()
                ==> crate::queries::variant(#[trigger] out@[k]@) != 3,
        decreases symbols.len() - i,
    {
        let creation = match validate_creation(conn, symbols[i].as_str(), file_path) {
            Ok(v) => v,
            Err(_) => Vec::new(),
        };
        let ghost cv = advisories_view(creation);
        proof {
            if cv.len() > 0 {
                let w = choose|e: Seq<Vec<SqlValue>>, f: Seq<Vec<SqlValue>>, l: Seq<LinkedSymbol>|
                    creation@[0]@ == creation_spec(symbols@[i as int]@, file_path@, crate::queries::named(symbols_of_rows(e), symbols@[i as int]@), symbols_of_rows(f), l);
                assert(cv[0] == creation@[0]@);
                crate::queries::lemma_creation_variant(symbols@[i as int]@, file_path@, crate::queries::named(symbols_of_rows(w.0), symbols@[i as int]@), symbols_of_rows(w.1), w.2);
            }
        }
        let boundary = match &crate_name {
            Some(c) => match validate_boundary(conn, symbols[i].as_str(), c.as_str()) {
                Ok(v) => v,
                Err(_) => Vec::new(),
            },
            None => Vec::new(),
        };
        let ghost bv = advisories_view(boundary);
        let part = change_advice(&creation, &boundary);
        let ghost pv = advisories_view(part);
        proof {
            assert(part_answers(symbols@[i as int]@, file_path@, crate::plan::crate_of_path(file_path@), pv)) by {
                assert(pv == change_part(cv, bv));
            }
            assert forall|k: int| 0 <= k < pv.len() implies {
                let v = crate::queries::variant(#[trigger] pv[k]);
                (v == 0 || v == 1 || v == 3 || v == 5 || v == 6) && (crate::plan::crate_of_path(file_path@) is None ==> v != 3)
            } by {
                if k < cv.len() {
                    assert(pv[k] == cv[0]);
                } else {
                    assert(pv[k] == crate::queries::only_variant(bv, 3)[k - cv.len()]);
                    crate::queries::lemma_only_variant(bv, 3, k - cv.len());
                    if crate::plan::crate_of_path(file_path@) is None {
                        assert(bv.len() == 0);
                        assert(crate::queries::only_variant(bv, 3).len() == 0);
                    }
                }
            }
        }
        let ghost before = advisories_view(out);
        assert forall|k: int| 0 <= k < before.len() implies {
            let v = crate::queries::variant(#[trigger] before[k]);
            (v == 0 || v == 1 || v == 3 || v == 5 || v == 6) && (crate::plan::crate_of_path(file_path@) is None ==> v != 3)
        } by {
            assert(before[k] == out@[k]@);
        }
        append_advice(&mut out, part);
        proof {
            let old_parts = parts;
            parts = parts.push(pv);
            assert(parts.drop_last() == old_parts);
            assert forall|k: int| 0 <= k < out.len() implies {
                let v = crate::queries::variant(#[trigger] out@[k]@);
                (v == 0 || v == 1 || v == 3 || v == 5 || v == 6) && (crate::plan::crate_of_path(file_path@) is None ==> v != 3)
            } by {
                assert(advisories_view(out)[k] == out@[k]@);
                assert(advisories_view(out).len() == out.len());
                assert(advisories_view(out) == before + pv);
                if k < before.len() {
                    assert((before + pv)[k] == before[k]);
                } else {
                    assert((before + pv)[k] == pv[k - before.len()]);
                }
            }
        }
        i = i + 1;
    }
    out
}

} // verus!
