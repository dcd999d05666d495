use rulest::matching::{glob_match_single, glob_matches, regex_matches, rule_match, split_camel_case, symbol_matches_rule};

#[test]
fn test_symbol_matches_rule() {
    // Should match: symbol name contains keyword from rule
    assert!(symbol_matches_rule("HttpClient", "No HTTP routing or network operations"));
    assert!(symbol_matches_rule("DatabaseSchema", "No database or filesystem operations"));
    assert!(symbol_matches_rule("Router", "No HTTP routing or network operations"));
    assert!(symbol_matches_rule("TemplateRenderer", "No template rendering"));
    assert!(symbol_matches_rule("FileWriter", "No I/O or filesystem operations"));

    // Should NOT match: symbol name unrelated to rule
    assert!(!symbol_matches_rule("PostService", "No HTTP routing, no direct database schema, no template rendering"));
    assert!(!symbol_matches_rule("UserRole", "No I/O or filesystem operations"));
    assert!(!symbol_matches_rule("CommentService", "No HTTP routing or network operations"));
    assert!(!symbol_matches_rule("HookRegistry", "No database or filesystem operations"));
}

#[test]
fn test_split_camel_case() {
    assert_eq!(split_camel_case("HttpClient"), vec!["http", "client"]);
    assert_eq!(split_camel_case("postservice"), vec!["postservice"]);
    assert_eq!(split_camel_case("DatabaseSchema"), vec!["database", "schema"]);
    assert_eq!(split_camel_case("URLParser"), vec!["u", "r", "l", "parser"]);
}

#[test]
fn split_camel_case_of_empty_is_one_empty_part() {
    assert_eq!(split_camel_case(""), vec![""]);
}

#[test]
fn glob_patterns_anchor_at_both_ends() {
    assert!(glob_match_single("SqlStore", "Sql*"));
    assert!(glob_match_single("UserRepository", "*Repository"));
    assert!(glob_match_single("PgPool", "Pg*Pool"));
    assert!(!glob_match_single("MySqlStore", "Sql*"));
    assert!(!glob_match_single("RepositoryUser", "*Repository"));
    assert!(glob_match_single("Exact", "Exact"));
    assert!(!glob_match_single("Exactly", "Exact"));
    assert!(glob_matches("UserRepository", "Sql*, *Repository ,Pg*"));
    assert!(!glob_matches("Service", "Sql*,,*Repository"));
}

#[test]
fn regex_subset_handles_anchors_and_alternation() {
    assert!(regex_matches("SqlStore", "^Sql"));
    assert!(!regex_matches("MySql", "^Sql"));
    assert!(regex_matches("UserRepo", "Repo$"));
    assert!(regex_matches("Router", "^(Router|Handler)$"));
    assert!(!regex_matches("Routers", "^(Router|Handler)$"));
    assert!(regex_matches("MyHandlerImpl", "Handler|Router"));
}

#[test]
fn rule_match_gives_none_only_inside_a_character() {
    assert_eq!(rule_match("HttpClient", "No HTTP routing"), Some(true));
    assert_eq!(rule_match("UserRole", "No I/O"), Some(false));
}

#[test]
fn regex_parentheses_group_only_the_whole_body() {
    assert!(!regex_matches("Foo", "Foo)"));
    assert!(regex_matches("MyFoo)x", "Foo)"));
    assert!(regex_matches("Handler", "^(Router|Handler)$"));
    assert!(!regex_matches("Router", "^(Router)|(Handler)$"));
}

#[test]
fn each_star_stands_for_any_text() {
    assert!(glob_match_single("abab", "*ab"));
    assert!(!glob_match_single("a", "a*a"));
    assert!(glob_match_single("aa", "a*a"));
    assert!(glob_match_single("SqlPool", "Sql*"));
    assert!(!glob_match_single("MySql", "Sql*"));
    assert!(glob_match_single("PgSqlStore", "*Sql*"));
    assert!(glob_match_single("abcbc", "a*bc*c"));
    assert!(!glob_match_single("abc", "ab*bc"));
    assert!(glob_match_single("x", "*"));
    assert!(glob_match_single("Exact", "Exact"));
    assert!(!glob_match_single("Exactly", "Exact"));
}

#[test]
fn patterns_are_trimmed_of_unicode_whitespace() {
    assert!(glob_matches("Foo", "\u{3000}Foo\u{a0}, Bar"));
    assert!(glob_matches("Bar", "Foo,\u{2009}Bar\u{85}"));
    assert!(!glob_matches("Foo", "\u{200b}Foo"));
}
