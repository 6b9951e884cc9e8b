use jiq::autocomplete::context::get_suggestions;
use jiq::autocomplete::json_analyzer::JsonAnalyzer;
use jiq::autocomplete::state::{AutocompleteState, Suggestion, SuggestionType};

const DOCUMENT: &str =
    r#"{"user": {"name": "x", "nick": "y", "age": 3}, "items": [{"id": 1, "tags": []}]}"#;

fn analyzer() -> JsonAnalyzer {
    let mut analyzer = JsonAnalyzer::new();
    analyzer.analyze(DOCUMENT).unwrap();
    analyzer
}

fn texts(query: &str, cursor: usize) -> Vec<String> {
    get_suggestions(query, cursor, &analyzer())
        .into_iter()
        .map(|s| s.text)
        .collect()
}

#[test]
fn test_nothing_before_the_cursor_suggests_nothing() {
    for query in ["", ".user", "map(.x)", "   "] {
        assert_eq!(texts(query, 0), Vec::<String>::new());
    }
}

#[test]
fn test_after_a_dot_all_fields_are_suggested() {
    assert_eq!(texts(".", 1), vec![".items", ".user"]);
    assert_eq!(texts(".user.", 6), vec![".age", ".name", ".nick"]);
    assert_eq!(texts(".user | .", 9), vec![".items", ".user"]);
    assert_eq!(texts(".items[].", 9), vec![".id", ".tags"]);
}

#[test]
fn test_partial_field_filters_the_fields_at_its_path() {
    assert_eq!(texts(".us", 3), vec![".user"]);
    assert_eq!(texts(".user.n", 7), vec![".name", ".nick"]);
    assert_eq!(texts(".user.N", 7), vec![".name", ".nick"]);
    assert_eq!(texts(".user.na", 8), vec![".name"]);
    assert_eq!(texts("map(.items[].i", 14), vec![".id"]);
    assert_eq!(texts(".absent.n", 9), Vec::<String>::new());
}

#[test]
fn test_partial_word_is_looked_up_in_the_catalog() {
    assert_eq!(texts("sel", 3), vec!["select"]);
    assert_eq!(texts(".user | ke", 10), vec!["keys", "keys_unsorted"]);
    assert_eq!(texts(".user | ", 8), Vec::<String>::new());
}

#[test]
fn test_cursor_cuts_the_query() {
    assert_eq!(texts(".user.name", 3), vec![".user"]);
    assert_eq!(texts(".user.name", 6), vec![".age", ".name", ".nick"]);
    // a cursor behind the end stands at the end
    assert_eq!(texts(".user.na", 99), vec![".name"]);
}

#[test]
fn test_cursor_counts_characters() {
    let mut analyzer = JsonAnalyzer::new();
    analyzer.analyze(r#"{"né": {"ab": 1}}"#).unwrap();
    let texts: Vec<String> = get_suggestions(".né.a", 5, &analyzer)
        .into_iter()
        .map(|s| s.text)
        .collect();
    assert_eq!(texts, vec![".ab"]);
}

#[test]
fn test_selection_goes_round() {
    let mut state = AutocompleteState::new();
    assert!(!state.is_visible());
    assert!(state.selected().is_none());
    state.select_next();
    state.select_previous();
    assert_eq!(state.selected_index(), None);

    state.update_suggestions(vec![
        Suggestion::new(".a", SuggestionType::Field),
        Suggestion::new(".b", SuggestionType::Field),
        Suggestion::new(".c", SuggestionType::Field),
    ]);
    assert!(state.is_visible());
    assert_eq!(state.selected_index(), Some(0));
    state.select_next();
    assert_eq!(state.selected().unwrap().text, ".b");
    state.select_next();
    state.select_next();
    assert_eq!(state.selected_index(), Some(0));
    state.select_previous();
    assert_eq!(state.selected().unwrap().text, ".c");
    state.select_previous();
    assert_eq!(state.selected_index(), Some(1));
    assert_eq!(state.suggestions().len(), 3);
}

#[test]
fn test_new_list_selects_its_first_entry() {
    let mut state = AutocompleteState::new();
    state.update_suggestions(vec![
        Suggestion::new(".a", SuggestionType::Field),
        Suggestion::new(".b", SuggestionType::Field),
    ]);
    state.select_next();
    state.update_suggestions(vec![Suggestion::new("map", SuggestionType::Function)]);
    assert_eq!(state.selected_index(), Some(0));
    state.update_suggestions(Vec::new());
    assert!(!state.is_visible());
    assert_eq!(state.selected_index(), None);
}

#[test]
fn test_close_empties_the_list() {
    let mut state = AutocompleteState::new();
    state.update_suggestions(vec![Suggestion::new(".a", SuggestionType::Field)]);
    state.close();
    assert!(!state.is_visible());
    assert!(state.suggestions().is_empty());
    assert!(state.selected().is_none());
}

#[test]
fn test_refresh_reads_query_and_cursor() {
    let analyzer = analyzer();
    let mut state = AutocompleteState::new();
    state.refresh(".user.n", 7, &analyzer);
    assert!(state.is_visible());
    assert_eq!(state.selected().unwrap().text, ".name");
    assert_eq!(state.suggestions().len(), 2);
    state.refresh(".user.n", 0, &analyzer);
    assert!(!state.is_visible());
    state.refresh("ma", 2, &analyzer);
    assert_eq!(state.selected().unwrap().text, "map");
}

#[test]
fn test_suggestions_are_equal_by_text() {
    let field = Suggestion::new("map", SuggestionType::Field);
    let function = Suggestion::new("map", SuggestionType::Function).with_description("Apply");
    assert_eq!(field, function);
    assert_ne!(field, Suggestion::new("max", SuggestionType::Field));
    let copy = function.clone();
    assert_eq!(copy.text, "map");
    assert_eq!(copy.suggestion_type, SuggestionType::Function);
    assert_eq!(copy.description.as_deref(), Some("Apply"));
}
