use serde_json::Value;
use tempus_engine::metadata::RuleDefinition;
use tempus_engine::{
    evaluate, execute, execute_batch, execute_batch_detailed, execute_chain, execute_explain,
    get_engine_info,
};

fn j(text: &str) -> Value {
    serde_json::from_str(text).unwrap()
}

fn s(text: &str) -> Value {
    Value::String(text.to_string())
}

fn sample_rule() -> RuleDefinition {
    RuleDefinition::new(
        "score-check",
        j(r#"{"if": [{">": [{"var": "score"}, 700]}, "approve", "review"]}"#),
    )
}

#[test]
fn execute_returns_correct_result() {
    let rule = sample_rule();
    let result = execute(&rule, r#"{"score": 800}"#).unwrap();
    assert_eq!(result, s("approve"));
}

#[test]
fn execute_returns_review_for_low_score() {
    let rule = sample_rule();
    let result = execute(&rule, r#"{"score": 500}"#).unwrap();
    assert_eq!(result, s("review"));
}

#[test]
fn execute_batch_processes_multiple_contexts() {
    let rule = sample_rule();
    let contexts = vec![
        r#"{"score": 800}"#.to_string(),
        r#"{"score": 500}"#.to_string(),
        r#"{"score": 742}"#.to_string(),
    ];
    let results = execute_batch(&rule, &contexts).unwrap();
    assert_eq!(results, vec![s("approve"), s("review"), s("approve")]);
}

#[test]
fn execute_batch_detailed_reports_errors() {
    let rule = sample_rule();
    let contexts = vec![r#"{"score": 800}"#.to_string(), "{bad json}".to_string()];
    let results = execute_batch_detailed(&rule, &contexts).unwrap();
    assert_eq!(results[0].result, Some(s("approve")));
    assert!(results[1].error.is_some());
}

#[test]
fn get_engine_info_returns_version() {
    let info = get_engine_info();
    assert_eq!(info["engine"], "tempus-engine");
    assert!(info["version"].as_str().is_some());
    assert!(info["evaluator"]["engine"].as_str().is_some());
}

#[test]
fn rule_metadata_is_preserved() {
    let mut rule = sample_rule();
    rule.version = Some("1.2.0".to_string());
    rule.tags = vec!["credit".to_string(), "prod".to_string()];

    assert_eq!(rule.name, "score-check");
    assert_eq!(rule.version, Some("1.2.0".to_string()));
    assert_eq!(rule.tags.len(), 2);

    // Metadata doesn't affect evaluation
    let result = execute(&rule, r#"{"score": 800}"#).unwrap();
    assert_eq!(result, s("approve"));
}

#[test]
fn re_exported_evaluate_works_directly() {
    let result = evaluate(r#"{">":[{"var":"x"},1]}"#, r#"{"x":5}"#).unwrap();
    assert_eq!(result, Value::Bool(true));
}

#[test]
fn execute_chain_single_rule() {
    let rules = vec![sample_rule()];
    let (result, _ctx) = execute_chain(&rules, r#"{"score": 800}"#).unwrap();
    assert_eq!(result, s("approve"));
}

#[test]
fn execute_chain_pipes_decision_to_next_rule() {
    // Rule 1: score → "approve" or "review"
    let rule1 = RuleDefinition::new(
        "score-gate",
        j(r#"{"if": [{">": [{"var": "score"}, 700]}, "approve", "review"]}"#),
    );
    // Rule 2: reads "decision" from context
    let rule2 = RuleDefinition::new("decision-logger", j(r#"{"var": "decision"}"#));
    let (result, ctx) = execute_chain(&[rule1, rule2], r#"{"score": 800}"#).unwrap();
    assert_eq!(result, s("approve"));
    assert_eq!(ctx["decision"], s("approve"));
}

#[test]
fn execute_chain_empty_returns_error() {
    assert!(execute_chain(&[], r#"{}"#).is_err());
}

#[test]
fn execute_explain_captures_metadata() {
    let rule = sample_rule()
        .with_version("1.0.0")
        .with_tags(vec!["credit".into()]);
    let trace = execute_explain(&rule, r#"{"score": 800}"#).unwrap();
    assert_eq!(trace.rule_name, "score-check");
    assert_eq!(trace.rule_version.as_deref(), Some("1.0.0"));
    assert_eq!(trace.result, s("approve"));
    assert_eq!(trace.context_snapshot["score"], j("800"));
    assert!(!trace.evaluated_at.is_empty());
}
