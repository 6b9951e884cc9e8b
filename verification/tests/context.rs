use jiq::autocomplete::context::{
    analyze_context, extract_clean_path, extract_path_before_current_field, is_delimiter,
    SuggestionContext,
};

#[test]
fn test_empty_query() {
    let (ctx, partial) = analyze_context("");
    assert_eq!(ctx, SuggestionContext::FunctionContext);
    assert_eq!(partial, "");
}

#[test]
fn test_function_context() {
    let (ctx, partial) = analyze_context("ma");
    assert_eq!(ctx, SuggestionContext::FunctionContext);
    assert_eq!(partial, "ma");

    let (ctx, partial) = analyze_context("select");
    assert_eq!(ctx, SuggestionContext::FunctionContext);
    assert_eq!(partial, "select");
}

#[test]
fn test_field_context_with_dot() {
    let (ctx, partial) = analyze_context(".na");
    assert_eq!(ctx, SuggestionContext::FieldContext);
    assert_eq!(partial, "na");

    let (ctx, partial) = analyze_context(".name");
    assert_eq!(ctx, SuggestionContext::FieldContext);
    assert_eq!(partial, "name");
}

#[test]
fn test_just_dot() {
    let (ctx, partial) = analyze_context(".");
    assert_eq!(ctx, SuggestionContext::FieldContext);
    assert_eq!(partial, "");
}

#[test]
fn test_after_pipe() {
    let (ctx, partial) = analyze_context(".name | ma");
    assert_eq!(ctx, SuggestionContext::FunctionContext);
    assert_eq!(partial, "ma");
}

#[test]
fn test_nested_field() {
    let (ctx, partial) = analyze_context(".user.na");
    assert_eq!(ctx, SuggestionContext::FieldContext);
    assert_eq!(partial, "na");
}

#[test]
fn test_array_access() {
    let (ctx, partial) = analyze_context(".items[0].na");
    assert_eq!(ctx, SuggestionContext::FieldContext);
    assert_eq!(partial, "na");
}

#[test]
fn test_in_function_call() {
    let (ctx, partial) = analyze_context("map(.na");
    assert_eq!(ctx, SuggestionContext::FieldContext);
    assert_eq!(partial, "na");
}

#[test]
fn test_extract_path_root_level() {
    assert_eq!(extract_path_before_current_field("."), "");
    assert_eq!(extract_path_before_current_field(".na"), "");
}

#[test]
fn test_extract_path_nested() {
    assert_eq!(extract_path_before_current_field(".products.ty"), ".products");
    assert_eq!(extract_path_before_current_field(".services.items."), ".services.items");
}

#[test]
fn test_extract_path_with_array() {
    assert_eq!(extract_path_before_current_field(".services[].service"), ".services[]");
    assert_eq!(extract_path_before_current_field(".items[0].na"), ".items[0]");
}

#[test]
fn test_trailing_whitespace_is_skipped() {
    let (ctx, partial) = analyze_context(".name   ");
    assert_eq!(ctx, SuggestionContext::FieldContext);
    assert_eq!(partial, "name");
    let (ctx, partial) = analyze_context("   \t");
    assert_eq!(ctx, SuggestionContext::FunctionContext);
    assert_eq!(partial, "");
    let (ctx, partial) = analyze_context(".a | .  ");
    assert_eq!(ctx, SuggestionContext::FieldContext);
    assert_eq!(partial, "");
}

#[test]
fn test_token_after_each_delimiter() {
    for d in ["|", ";", "(", ")", "[", "]", "{", "}", ",", " ", "\t", "\n", "\r"] {
        let text = format!("abc{}sel", d);
        let (ctx, partial) = analyze_context(&text);
        assert_eq!(ctx, SuggestionContext::FunctionContext);
        assert_eq!(partial, "sel");
    }
}

#[test]
fn test_word_after_dot_and_space_is_field() {
    let (ctx, partial) = analyze_context(". na");
    assert_eq!(ctx, SuggestionContext::FieldContext);
    assert_eq!(partial, "na");
    let (ctx, partial) = analyze_context("x |");
    assert_eq!(ctx, SuggestionContext::FunctionContext);
    assert_eq!(partial, "");
}

#[test]
fn test_is_delimiter_agrees_with_the_list() {
    let delimiters = "|;()[]{}, \t\n\r";
    for code in 0u32..0x3000 {
        if let Some(c) = char::from_u32(code) {
            assert_eq!(is_delimiter(c), delimiters.contains(c));
        }
    }
}

#[test]
fn test_clean_path_resets_and_trims() {
    assert_eq!(extract_clean_path("map(.items) | .products"), ".products");
    assert_eq!(extract_clean_path(".a; .b "), ".b");
    assert_eq!(extract_clean_path("select(.x"), ".x");
    assert_eq!(extract_clean_path("foo"), "");
    assert_eq!(extract_clean_path(".a | "), "");
    assert_eq!(extract_clean_path(""), "");
    assert_eq!(extract_clean_path("  .a.b  "), ".a.b");
}

#[test]
fn test_extract_path_without_dot() {
    assert_eq!(extract_path_before_current_field("map"), "");
    assert_eq!(extract_path_before_current_field(""), "");
    assert_eq!(extract_path_before_current_field("map(.items) | .products.ty"), ".products");
    assert_eq!(extract_path_before_current_field("x.y"), "");
}
