use serde_json::Value;
use tempus_engine::metadata::RuleDefinition;

fn j(text: &str) -> Value {
    serde_json::from_str(text).unwrap()
}

#[test]
fn new_creates_minimal_definition() {
    let rule = RuleDefinition::new("test", j(r#"{"==": [1, 1]}"#));
    assert_eq!(rule.name, "test");
    assert_eq!(rule.version, None);
    assert_eq!(rule.description, None);
    assert!(rule.tags.is_empty());
    assert!(rule.required_context_keys.is_empty());
}

#[test]
fn builder_pattern_works() {
    let rule = RuleDefinition::new("fraud-block", j(r#"{">":[{"var":"risk"},0.8]}"#))
        .with_version("2.1.0")
        .with_description("Block high-risk transactions")
        .with_tags(vec!["fraud".into(), "prod".into()]);

    assert_eq!(rule.name, "fraud-block");
    assert_eq!(rule.version.as_deref(), Some("2.1.0"));
    assert_eq!(
        rule.description.as_deref(),
        Some("Block high-risk transactions")
    );
    assert_eq!(rule.tags, vec!["fraud", "prod"]);
}

#[test]
fn validate_context_passes_when_all_keys_present() {
    let rule = RuleDefinition::new("r", j("{}"))
        .with_required_keys(vec!["score".into(), "income".into()]);
    let ctx = j(r#"{"score": 700, "income": 50000}"#);
    assert!(rule.validate_context(&ctx).is_ok());
}

#[test]
fn validate_context_fails_on_missing_key() {
    let rule = RuleDefinition::new("r", j("{}"))
        .with_required_keys(vec!["score".into(), "income".into()]);
    let ctx = j(r#"{"score": 700}"#);
    let err = rule.validate_context(&ctx).unwrap_err();
    assert!(err.missing_keys.contains(&"income".to_string()));
}

#[test]
fn validate_context_passes_with_no_required_keys() {
    let rule = RuleDefinition::new("r", j("{}"));
    assert!(rule.validate_context(&j("{}")).is_ok());
}
