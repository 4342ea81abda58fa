use tistow::aliases::AliasTable;
use tistow::calc::{calculator_expression, calculator_result, evaluate_expression};
use tistow::fuzzy::{fuzzy_match, MAX_MATCH_LEN};
use tistow::results::{ResultAction, SearchMode, SearchResult};
use tistow::search::{Candidate, Origin, Search};

fn file(name: &str, path: &str) -> Candidate {
    Candidate { name: name.to_string(), origin: Origin::Path { path: path.to_string() } }
}

fn open_row(name: &str, path: &str) -> SearchResult {
    SearchResult {
        mode: SearchMode::Search,
        text: name.to_string(),
        action: Some(ResultAction::Open { path: path.to_string() }),
    }
}

fn copy_row(shown: &str) -> SearchResult {
    SearchResult {
        mode: SearchMode::Calculator,
        text: format!("= {}", shown),
        action: Some(ResultAction::Copy { text: shown.to_string() }),
    }
}

fn texts(results: &[SearchResult]) -> Vec<String> {
    results.iter().map(|r| r.text.clone()).collect()
}

fn editors() -> Search {
    let mut aliases = AliasTable::new();
    aliases.insert("code".to_string(), "Editor".to_string());
    Search::new(
        vec![
            file("Visual Studio Code", "/apps/vscode"),
            file("Codecs", "/apps/codecs"),
            file("Coder", "/apps/coder"),
            file("Code", "/apps/code"),
            file("Editor", "/apps/editor"),
            file("Paint", "/apps/paint"),
        ],
        aliases,
    )
}

#[test]
fn empty_query_has_no_results() {
    let engine = Search::new(vec![file("Notepad", "/a"), file("Calculator", "/b")], AliasTable::new());
    assert_eq!(engine.search(""), vec![]);
    assert_eq!(Search::new(vec![], AliasTable::new()).search(""), vec![]);
}

#[test]
fn calculator_adds_two_and_two() {
    let engine = Search::new(vec![file("Notepad", "/a")], AliasTable::new());
    assert_eq!(engine.search("=2+2"), vec![copy_row("4")]);
}

#[test]
fn calculator_reports_error_as_copyable_text() {
    let engine = Search::new(vec![], AliasTable::new());
    assert_eq!(engine.search("=notanumber"), vec![copy_row("ERROR")]);
}

#[test]
fn calculator_formats_numbers_as_they_print() {
    let engine = Search::new(vec![file("1/4", "/a")], AliasTable::new());
    assert_eq!(engine.search("=1/4"), vec![copy_row("0.25")]);
    assert_eq!(engine.search("= 2 * (3 + 4) "), vec![copy_row("14")]);
    assert_eq!(engine.search("=-3"), vec![copy_row("-3")]);
    assert_eq!(engine.search("=1/0"), vec![copy_row("inf")]);
    assert_eq!(engine.search("=max(1, 2.5)"), vec![copy_row("2.5")]);
}

#[test]
fn calculator_accepts_leading_whitespace() {
    let engine = Search::new(vec![], AliasTable::new());
    assert_eq!(engine.search("  =2+2"), vec![copy_row("4")]);
    assert_eq!(engine.search("\t= 10 % 4\n"), vec![copy_row("2")]);
}

#[test]
fn calculator_fails_on_what_is_no_expression() {
    let engine = Search::new(vec![], AliasTable::new());
    assert_eq!(engine.search("="), vec![copy_row("ERROR")]);
    assert_eq!(engine.search("=   "), vec![copy_row("ERROR")]);
    assert_eq!(engine.search("=2+"), vec![copy_row("ERROR")]);
    assert_eq!(engine.search("=(1"), vec![copy_row("ERROR")]);
    assert_eq!(engine.search("==1"), vec![copy_row("ERROR")]);
    assert_eq!(engine.search("=x+1"), vec![copy_row("ERROR")]);
}

#[test]
fn calculator_expression_is_what_follows_the_sign() {
    assert_eq!(calculator_expression("=2+2"), Some("2+2".to_string()));
    assert_eq!(calculator_expression("  = 2 + 2  "), Some("2 + 2".to_string()));
    assert_eq!(calculator_expression("="), Some(String::new()));
    assert_eq!(calculator_expression("2=2"), None);
    assert_eq!(calculator_expression(""), None);
    assert_eq!(calculator_expression("   "), None);
}

#[test]
fn expressions_are_evaluated() {
    assert_eq!(evaluate_expression("2+2"), Some("4".to_string()));
    assert_eq!(evaluate_expression(" 2 ^ 10 "), Some("1024".to_string()));
    assert_eq!(evaluate_expression("2 +"), None);
    assert_eq!(evaluate_expression("two"), None);
    assert_eq!(evaluate_expression(""), None);
}

#[test]
fn a_value_is_returned_exactly_for_what_evaluates() {
    assert!(evaluate_expression("sin(1)").is_some());
    assert!(evaluate_expression("1/0").is_some());
    assert!(evaluate_expression("sqrt(-1)").is_some());
    assert_eq!(evaluate_expression("sin()"), None);
    assert_eq!(evaluate_expression("sin(1, 2)"), None);
    assert_eq!(evaluate_expression("nosuch(1)"), None);
    assert_eq!(evaluate_expression("x"), None);
    assert_eq!(evaluate_expression("1 2"), None);
}

#[test]
fn blanks_are_no_expression() {
    assert_eq!(evaluate_expression(" "), None);
    assert_eq!(evaluate_expression(" \t\r\n "), None);
    assert_eq!(evaluate_expression(" 1 "), Some("1".to_string()));
}

#[test]
fn calculator_result_shows_value_or_error() {
    assert_eq!(calculator_result(Some("4".to_string())), copy_row("4"));
    assert_eq!(calculator_result(None), copy_row("ERROR"));
}

#[test]
fn alias_short_circuits_lower_tiers() {
    let mut aliases = AliasTable::new();
    aliases.insert("note".to_string(), "Notepad".to_string());
    let engine = Search::new(vec![file("Notepad", "/a"), file("Calculator", "/b")], aliases);
    assert_eq!(engine.search("note"), vec![open_row("Notepad", "/a")]);
}

#[test]
fn alias_is_looked_up_with_the_trimmed_query() {
    let mut aliases = AliasTable::new();
    aliases.insert("ed".to_string(), "Paint".to_string());
    let engine = Search::new(vec![file("Editor", "/e"), file("Paint", "/p")], aliases);
    assert_eq!(texts(&engine.search(" ed ")), vec!["Paint".to_string(), "Editor".to_string()]);
    assert_eq!(texts(&engine.search("ED")), vec!["Editor".to_string()]);
}

#[test]
fn tiers_come_in_priority_order() {
    let results = editors().search("code");
    assert_eq!(
        results,
        vec![
            open_row("Editor", "/apps/editor"),
            open_row("Code", "/apps/code"),
            open_row("Codecs", "/apps/codecs"),
            open_row("Coder", "/apps/coder"),
            open_row("Visual Studio Code", "/apps/vscode"),
        ]
    );
}

#[test]
fn candidates_keep_registration_order_within_a_tier() {
    let engine = Search::new(
        vec![file("Zeta tool", "/z"), file("Alpha tool", "/a"), file("Mid tool", "/m")],
        AliasTable::new(),
    );
    assert_eq!(
        texts(&engine.search("tool")),
        vec!["Zeta tool".to_string(), "Alpha tool".to_string(), "Mid tool".to_string()]
    );
    let engine = Search::new(
        vec![file("tool z", "/z"), file("Tool a", "/a"), file("TOOL m", "/m")],
        AliasTable::new(),
    );
    assert_eq!(
        texts(&engine.search("tool")),
        vec!["tool z".to_string(), "Tool a".to_string(), "TOOL m".to_string()]
    );
}

#[test]
fn search_is_repeatable() {
    let engine = editors();
    let first = engine.search("code");
    let second = engine.search("code");
    let third = editors().search("code");
    assert_eq!(first, second);
    assert_eq!(first, third);
    assert_eq!(engine.search("=1+1"), engine.search("=1+1"));
}

#[test]
fn a_name_is_listed_once() {
    let engine = Search::new(
        vec![
            file("Notepad", "/first"),
            file("Notes", "/notes"),
            file("Notepad", "/second"),
            file("Notepad", "/third"),
        ],
        AliasTable::new(),
    );
    assert_eq!(engine.search("note"), vec![open_row("Notepad", "/first"), open_row("Notes", "/notes")]);
    let results = engine.search("n");
    let mut seen: Vec<String> = Vec::new();
    for row in &results {
        assert!(!seen.contains(&row.text));
        seen.push(row.text.clone());
    }
}

#[test]
fn names_that_differ_in_case_are_both_listed() {
    let engine = Search::new(vec![file("Notepad", "/a"), file("notepad", "/b")], AliasTable::new());
    assert_eq!(engine.search("notepad"), vec![open_row("Notepad", "/a"), open_row("notepad", "/b")]);
}

#[test]
fn a_candidate_of_several_tiers_is_listed_in_the_highest() {
    let mut aliases = AliasTable::new();
    aliases.insert("code".to_string(), "Code".to_string());
    let engine = Search::new(vec![file("Codecs", "/apps/codecs"), file("Code", "/apps/code")], aliases);
    assert_eq!(
        engine.search("code"),
        vec![open_row("Code", "/apps/code"), open_row("Codecs", "/apps/codecs")]
    );
}

#[test]
fn candidates_that_do_not_match_are_left_out() {
    assert_eq!(editors().search("zzz"), vec![]);
    assert_eq!(texts(&editors().search("pai")), vec!["Paint".to_string()]);
}

#[test]
fn a_blank_query_lists_every_name() {
    let engine = Search::new(vec![file("B", "/b"), file("A", "/a"), file("B", "/c")], AliasTable::new());
    assert_eq!(texts(&engine.search(" ")), vec!["B".to_string(), "A".to_string()]);
}

#[test]
fn registered_callbacks_are_found_after_the_files() {
    let mut engine = Search::new(vec![file("Lock screen", "/lock")], AliasTable::new());
    engine.register_callback_shortcut("Lock now".to_string());
    assert_eq!(engine.len(), 2);
    assert_eq!(
        engine.search("lock"),
        vec![
            open_row("Lock screen", "/lock"),
            SearchResult {
                mode: SearchMode::Search,
                text: "Lock now".to_string(),
                action: Some(ResultAction::Lua { name: "Lock now".to_string() }),
            },
        ]
    );
}

#[test]
fn fuzzy_match_follows_the_matcher() {
    assert!(fuzzy_match("Visual Studio Code", "vsc").is_some());
    assert!(fuzzy_match("Notepad", "NTPD").is_some());
    assert_eq!(fuzzy_match("Notepad", "xyz"), None);
    assert_eq!(fuzzy_match("Notepad", "notepadd"), None);
    assert_eq!(fuzzy_match("anything", ""), Some(0));
    assert!(fuzzy_match("axbycz", "abc") < fuzzy_match("abc", "abc"));
}

#[test]
fn long_names_are_fuzzy_matched() {
    let long = "a".repeat(0x10_0001);
    assert!(fuzzy_match(&long, "a").is_some());
    assert_eq!(fuzzy_match(&long, "b"), None);
    let engine = Search::new(vec![file(&format!("b{}", long), "/long")], AliasTable::new());
    assert_eq!(texts(&engine.search("a")).len(), 1);
    assert_eq!(texts(&engine.search("b")).len(), 1);
    assert_eq!(engine.search("c"), vec![]);
}

#[test]
fn an_overlong_query_matches_nothing() {
    assert_eq!(MAX_MATCH_LEN, 67_108_863);
    let long = "a".repeat(MAX_MATCH_LEN + 1);
    assert_eq!(fuzzy_match(&long, &long), None);
    assert_eq!(fuzzy_match("a", &long), None);
    let engine = Search::new(vec![file("baa", "/b")], AliasTable::new());
    assert_eq!(engine.search(&format!("b{}", long)), vec![]);
}
