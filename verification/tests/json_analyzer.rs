use jiq::autocomplete::json_analyzer::JsonAnalyzer;

#[test]
fn test_simple_object() {
    let mut analyzer = JsonAnalyzer::new();
    let json = r#"{"name": "John", "age": 30}"#;
    analyzer.analyze(json).unwrap();

    let fields = analyzer.get_all_fields();
    assert_eq!(fields, vec!["age", "name"]);
}

#[test]
fn test_nested_object() {
    let mut analyzer = JsonAnalyzer::new();
    let json = r#"{"user": {"name": "John", "email": "john@example.com"}, "posts": []}"#;
    analyzer.analyze(json).unwrap();

    let fields = analyzer.get_all_fields();
    assert_eq!(fields, vec!["email", "name", "posts", "user"]);
}

#[test]
fn test_array_of_objects() {
    let mut analyzer = JsonAnalyzer::new();
    let json = r#"[{"id": 1, "name": "Item 1"}, {"id": 2, "name": "Item 2", "extra": true}]"#;
    analyzer.analyze(json).unwrap();

    let fields = analyzer.get_all_fields();
    assert_eq!(fields, vec!["extra", "id", "name"]);
}

#[test]
fn test_contextual_top_level_fields() {
    let mut analyzer = JsonAnalyzer::new();
    let json = r#"{"services": {"items": []}, "products": {"type": "xyz", "sku": "123"}}"#;
    analyzer.analyze(json).unwrap();

    // Top level should only return "services" and "products"
    let suggestions = analyzer.get_contextual_field_suggestions("", "");
    assert_eq!(suggestions.len(), 2);
    assert!(suggestions.iter().any(|s| s.text == ".services"));
    assert!(suggestions.iter().any(|s| s.text == ".products"));
}

#[test]
fn test_contextual_nested_fields() {
    let mut analyzer = JsonAnalyzer::new();
    let json = r#"{"services": {"items": []}, "products": {"type": "xyz", "sku": "123"}}"#;
    analyzer.analyze(json).unwrap();

    // At .products level should only return "type" and "sku"
    let suggestions = analyzer.get_contextual_field_suggestions(".products", "");
    assert_eq!(suggestions.len(), 2);
    assert!(suggestions.iter().any(|s| s.text == ".type"));
    assert!(suggestions.iter().any(|s| s.text == ".sku"));

    // Should NOT include "items" (from services)
    assert!(!suggestions.iter().any(|s| s.text == ".items"));
}

#[test]
fn test_contextual_array_fields() {
    let mut analyzer = JsonAnalyzer::new();
    let json = r#"{"items": [{"id": 1, "name": "Item1"}]}"#;
    analyzer.analyze(json).unwrap();

    // At .items[] level should return fields from array elements
    let suggestions = analyzer.get_contextual_field_suggestions(".items[]", "");
    assert_eq!(suggestions.len(), 2);
    assert!(suggestions.iter().any(|s| s.text == ".id"));
    assert!(suggestions.iter().any(|s| s.text == ".name"));
}
