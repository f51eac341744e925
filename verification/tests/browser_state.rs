use linear_tui::browser::BrowserCommand;
use linear_tui::browser::BrowserState;
use linear_tui::browser::KeyInput;
use linear_tui::browser::str_contains;
use linear_tui::types::Issue;
use linear_tui::types::IssueState;

fn issue(id: &str, identifier: &str, title: &str, description: Option<&str>) -> Issue {
    Issue {
        id: id.to_string(),
        identifier: identifier.to_string(),
        title: title.to_string(),
        description: description.map(|d| d.to_string()),
        state: IssueState {
            id: "st".to_string(),
            name: "Todo".to_string(),
            color: "#000".to_string(),
        },
        priority: 0,
        assignee: None,
        created_at: "".to_string(),
        updated_at: "".to_string(),
    }
}

fn sample_issues() -> Vec<Issue> {
    vec![
        issue("1", "ENG-1", "Fix login crash", None),
        issue("2", "ENG-2", "Polish dashboard", Some("fixes layout")),
        issue("3", "OPS-3", "Rotate keys", None),
    ]
}

#[test]
fn substring_search_finds_and_rejects() {
    assert!(str_contains("hello world", "lo wo"));
    assert!(str_contains("hello", ""));
    assert!(!str_contains("hello", "world"));
    assert!(!str_contains("hi", "high"));
}

#[test]
fn typing_a_query_filters_case_insensitively() {
    let issues = sample_issues();
    let mut b = BrowserState::new();
    assert_eq!(b.on_key(KeyInput::CharKey { c: '/' }, &issues), BrowserCommand::Stay);
    assert!(b.search_mode);
    b.on_key(KeyInput::CharKey { c: 'F' }, &issues);
    b.on_key(KeyInput::CharKey { c: 'I' }, &issues);
    b.on_key(KeyInput::CharKey { c: 'x' }, &issues);
    // "FIx" matches the title of the first and the description of the
    // second, in order.
    assert_eq!(b.filtered_issues, vec![0, 1]);
    assert_eq!(b.search_query, "FIx");
}

#[test]
fn escape_clears_the_filter() {
    let issues = sample_issues();
    let mut b = BrowserState::new();
    b.on_key(KeyInput::CharKey { c: '/' }, &issues);
    b.on_key(KeyInput::CharKey { c: 'z' }, &issues);
    assert!(b.filtered_issues.is_empty());
    b.on_key(KeyInput::Esc, &issues);
    assert!(!b.search_mode);
    assert!(b.search_query.is_empty());
    assert!(b.filtered_issues.is_empty());
    assert_eq!(b.selected_index, 0);
}

#[test]
fn backspace_refilters() {
    let issues = sample_issues();
    let mut b = BrowserState::new();
    b.on_key(KeyInput::CharKey { c: '/' }, &issues);
    b.on_key(KeyInput::CharKey { c: 'f' }, &issues);
    b.on_key(KeyInput::CharKey { c: 'z' }, &issues);
    assert!(b.filtered_issues.is_empty());
    b.on_key(KeyInput::Backspace, &issues);
    assert_eq!(b.filtered_issues, vec![0, 1]);
}

#[test]
fn selection_moves_within_bounds() {
    let issues = sample_issues();
    let mut b = BrowserState::new();
    b.on_key(KeyInput::Up, &issues);
    assert_eq!(b.selected_index, 0);
    b.on_key(KeyInput::Down, &issues);
    b.on_key(KeyInput::CharKey { c: 'j' }, &issues);
    assert_eq!(b.selected_index, 2);
    b.on_key(KeyInput::Down, &issues);
    assert_eq!(b.selected_index, 2);
    b.on_key(KeyInput::CharKey { c: 'k' }, &issues);
    assert_eq!(b.selected_index, 1);
}

#[test]
fn quit_and_refresh_commands() {
    let issues = sample_issues();
    let mut b = BrowserState::new();
    assert_eq!(b.on_key(KeyInput::CharKey { c: 'r' }, &issues), BrowserCommand::Refresh);
    assert!(!b.should_quit);
    assert_eq!(b.on_key(KeyInput::CharKey { c: 'q' }, &issues), BrowserCommand::Stay);
    assert!(b.should_quit);
}
