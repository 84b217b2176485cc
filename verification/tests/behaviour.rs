use serde_json::Value;
use tempus_engine::metadata::RuleDefinition;
use tempus_engine::text::join_strings;
use tempus_engine::{
    evaluate, evaluate_batch, execute, execute_batch, execute_batch_detailed, execute_chain,
    execute_explain, get_engine_info, serialize_logic, RuleEngineError, ValidationError,
};

fn j(text: &str) -> Value {
    serde_json::from_str(text).unwrap()
}

fn s(text: &str) -> Value {
    Value::String(text.to_string())
}

fn gate() -> RuleDefinition {
    RuleDefinition::new(
        "score-gate",
        j(r#"{"if": [{">": [{"var": "score"}, 700]}, "approve", "review"]}"#),
    )
}

fn keys(names: &[&str]) -> Vec<String> {
    names.iter().map(|k| k.to_string()).collect()
}

#[test]
fn validate_context_rejects_non_object_with_every_key() {
    let rule = RuleDefinition::new("loan", j("true")).with_required_keys(keys(&["score", "income"]));
    let err = rule.validate_context(&j("[1, 2]")).unwrap_err();
    assert_eq!(err.rule_name, "loan");
    assert_eq!(err.missing_keys, keys(&["score", "income"]));
}

#[test]
fn validate_context_lists_missing_keys_in_required_order() {
    let rule = RuleDefinition::new("loan", j("true")).with_required_keys(keys(&["c", "a", "b"]));
    let err = rule.validate_context(&j(r#"{"a": 1}"#)).unwrap_err();
    assert_eq!(err.missing_keys, keys(&["c", "b"]));
}

#[test]
fn validate_context_accepts_any_context_without_required_keys() {
    let rule = RuleDefinition::new("free", j("true"));
    assert!(rule.validate_context(&j("42")).is_ok());
}

#[test]
fn validation_error_message_lists_keys() {
    let err = ValidationError::new("loan", keys(&["income", "score"]));
    assert_eq!(
        err.message(),
        "rule 'loan' validation failed: missing context keys: [income, score]"
    );
    let none = ValidationError::new("loan", Vec::new());
    assert_eq!(none.message(), "rule 'loan' validation failed: missing context keys: []");
}

#[test]
fn engine_error_messages_follow_the_evaluator() {
    let cases = vec![
        (RuleEngineError::InvalidRule("x".into()), "Error parsing rule: x"),
        (RuleEngineError::InvalidContext("x".into()), "Error parsing context: x"),
        (RuleEngineError::Evaluation("x".into()), "json-logic evaluation error: x"),
        (RuleEngineError::NumericCoercion("x".into()), "Numeric coercion error: x"),
        (RuleEngineError::Serialization("x".into()), "Serialization error: x"),
    ];
    for (err, text) in cases {
        assert_eq!(err.message(), text);
    }
}

#[test]
fn join_strings_separates_pieces() {
    assert_eq!(join_strings(&keys(&["a", "b", "c"]), ", "), "a, b, c");
    assert_eq!(join_strings(&keys(&["only"]), "-"), "only");
    assert_eq!(join_strings(&Vec::new(), "-"), "");
}

#[test]
fn serialize_logic_gives_compact_text() {
    let rule = RuleDefinition::new("r", j(r#"{ ">" : [ {"var": "x"}, 1 ] }"#));
    assert_eq!(serialize_logic(&rule).unwrap(), r#"{">":[{"var":"x"},1]}"#);
}

#[test]
fn execute_reports_unparsable_context() {
    let err = execute(&gate(), "{bad json}").unwrap_err();
    assert!(matches!(err, RuleEngineError::InvalidContext(_)));
}

#[test]
fn evaluate_reports_unparsable_rule() {
    let err = evaluate("{bad", "{}").unwrap_err();
    assert!(matches!(err, RuleEngineError::InvalidRule(_)));
}

#[test]
fn evaluate_batch_refuses_unparsable_rule() {
    let err = evaluate_batch("{bad", &["{}".to_string()]).unwrap_err();
    assert_eq!(err, evaluate("{bad", "{}").unwrap_err());
}

#[test]
fn execute_batch_holds_null_where_a_context_fails() {
    let contexts = vec![r#"{"score": 800}"#.to_string(), "{bad json}".to_string()];
    let results = execute_batch(&gate(), &contexts).unwrap();
    assert_eq!(results, vec![s("approve"), Value::Null]);
}

#[test]
fn execute_batch_agrees_with_execute() {
    let contexts = vec![
        r#"{"score": 701}"#.to_string(),
        r#"{"score": 700}"#.to_string(),
        r#"{"score": 9000}"#.to_string(),
    ];
    let results = execute_batch(&gate(), &contexts).unwrap();
    for (i, ctx) in contexts.iter().enumerate() {
        assert_eq!(results[i], execute(&gate(), ctx).unwrap());
    }
}

#[test]
fn execute_batch_detailed_renders_errors_like_execute() {
    let contexts = vec!["{bad json}".to_string(), r#"{"score": 1}"#.to_string()];
    let results = execute_batch_detailed(&gate(), &contexts).unwrap();
    let single = execute(&gate(), "{bad json}").unwrap_err();
    assert_eq!(results[0].result, None);
    assert_eq!(results[0].error.as_deref(), Some(single.message().as_str()));
    assert_eq!(results[1].result, Some(s("review")));
    assert_eq!(results[1].error, None);
}

#[test]
fn metadata_does_not_affect_execution() {
    let plain = gate();
    let decorated = gate()
        .with_version("9.9.9")
        .with_description("same logic")
        .with_tags(keys(&["x"]))
        .with_required_keys(keys(&["score"]));
    for ctx in [r#"{"score": 800}"#, r#"{"score": 10}"#, "{}"] {
        assert_eq!(execute(&plain, ctx), execute(&decorated, ctx));
    }
}

#[test]
fn execute_chain_reports_unparsable_context() {
    match execute_chain(&[gate()], "{bad") {
        Err(RuleEngineError::InvalidRule(m)) => assert!(m.starts_with("invalid context JSON: ")),
        other => panic!("unexpected outcome {:?}", other),
    }
}

#[test]
fn execute_chain_empty_error_text() {
    assert_eq!(
        execute_chain(&[], "{}").unwrap_err(),
        RuleEngineError::InvalidRule("rule chain must contain at least one rule".to_string())
    );
}

#[test]
fn execute_chain_keeps_original_keys() {
    let limit = RuleDefinition::new(
        "limit",
        j(r#"{"if": [{"==": [{"var": "decision"}, "approve"]}, 10000, 1000]}"#),
    );
    let (result, ctx) = execute_chain(&[gate(), limit], r#"{"score": 800, "amount": 5}"#).unwrap();
    assert_eq!(result, j("10000"));
    assert_eq!(ctx, j(r#"{"score": 800, "amount": 5, "decision": 10000}"#));
}

#[test]
fn execute_chain_pipes_through_three_rules() {
    let count = RuleDefinition::new("count", j(r#"{"+": [{"var": "decision"}, 1]}"#));
    let start = RuleDefinition::new("start", j("1"));
    let (result, ctx) = execute_chain(&[start, count.clone(), count], "{}").unwrap();
    assert_eq!(result.as_f64(), Some(3.0));
    assert_eq!(ctx["decision"].as_f64(), Some(3.0));
}

#[test]
fn execute_chain_leaves_non_object_context_unchanged() {
    let constant = RuleDefinition::new("constant", j(r#""done""#));
    let (result, ctx) = execute_chain(&[constant], "[1, 2]").unwrap();
    assert_eq!(result, s("done"));
    assert_eq!(ctx, j("[1, 2]"));
}

#[test]
fn execute_chain_stops_at_failing_rule() {
    let broken = RuleDefinition::new("broken", j(r#"{"no_such_operator": [1]}"#));
    let single = execute(&broken, "{}");
    assert!(single.is_err());
    assert_eq!(execute_chain(&[gate(), broken], r#"{"score": 800}"#).unwrap_err(), single.unwrap_err());
}

#[test]
fn execute_explain_reports_unparsable_context() {
    match execute_explain(&gate(), "{bad") {
        Err(RuleEngineError::InvalidRule(m)) => assert!(m.starts_with("invalid context JSON: ")),
        other => panic!("unexpected outcome {:?}", other.map(|t| t.result)),
    }
}

#[test]
fn execute_explain_snapshots_rule_and_engine() {
    let rule = gate().with_tags(keys(&["credit", "prod"]));
    let trace = execute_explain(&rule, r#"{"score": 10}"#).unwrap();
    assert_eq!(trace.rule_tags, keys(&["credit", "prod"]));
    assert_eq!(trace.rule_version, None);
    assert_eq!(trace.logic_snapshot, rule.logic);
    assert_eq!(trace.context_snapshot, j(r#"{"score": 10}"#));
    assert_eq!(trace.result, s("review"));
    assert_eq!(trace.engine, "tempus-engine@0.1.0");
}

#[test]
fn get_engine_info_has_exactly_three_entries() {
    let info = get_engine_info();
    let obj = info.as_object().unwrap();
    assert_eq!(obj.len(), 3);
    assert_eq!(info["version"], "0.1.0");
    assert_eq!(info["evaluator"]["engine"], "jsonlogic-fast");
}

#[test]
fn execute_explain_result_matches_execute() {
    for ctx in [r#"{"score": 701}"#, r#"{"score": 3}"#] {
        let trace = execute_explain(&gate(), ctx).unwrap();
        assert_eq!(trace.result, execute(&gate(), ctx).unwrap());
    }
    let broken = RuleDefinition::new("broken", j(r#"{"no_such_operator": [1]}"#));
    assert_eq!(
        execute_explain(&broken, "{}").map(|t| t.result),
        execute(&broken, "{}")
    );
}

#[test]
fn get_engine_info_describes_the_evaluator() {
    let info = get_engine_info();
    let evaluator = info["evaluator"].as_object().unwrap();
    assert_eq!(evaluator.len(), 6);
    assert_eq!(info["evaluator"]["engine"], "jsonlogic-fast");
    assert_eq!(info["evaluator"]["version"], "0.1.7");
    assert_eq!(info["evaluator"]["parallelism"], "rayon");
    assert_eq!(info["evaluator"]["evaluator"], "jsonlogic-rs");
    assert_eq!(info["evaluator"]["result_model"], "serde_json::Value");
    assert!(evaluator.contains_key("available_threads"));
}

#[test]
fn execute_explain_stamps_rfc3339_utc() {
    let trace = execute_explain(&gate(), r#"{"score": 800}"#).unwrap();
    assert!(trace.evaluated_at.len() >= 25);
    assert!(trace.evaluated_at.ends_with("+00:00"));
    assert_eq!(&trace.evaluated_at[10..11], "T");
}

#[test]
fn execute_chain_append_runs_new_rule_on_final_context() {
    let limit = RuleDefinition::new(
        "limit",
        j(r#"{"if": [{"==": [{"var": "decision"}, "approve"]}, 10000, 1000]}"#),
    );
    let (_, ctx) = execute_chain(&[gate()], r#"{"score": 800}"#).unwrap();
    let (w, ctx2) = execute_chain(&[gate(), limit.clone()], r#"{"score": 800}"#).unwrap();
    let expected = execute(&limit, &serde_json::to_string(&ctx).unwrap()).unwrap();
    assert_eq!(w, expected);
    let mut with_decision = ctx.clone();
    with_decision.as_object_mut().unwrap().insert("decision".to_string(), expected);
    assert_eq!(ctx2, with_decision);
}

#[test]
fn validate_context_is_monotone_in_keys() {
    let rule = RuleDefinition::new("loan", j("true")).with_required_keys(keys(&["a", "b", "c"]));
    let fewer = rule.validate_context(&j(r#"{"x": 1}"#)).unwrap_err();
    let more = rule.validate_context(&j(r#"{"x": 1, "b": 2}"#)).unwrap_err();
    assert_eq!(fewer.missing_keys, keys(&["a", "b", "c"]));
    assert_eq!(more.missing_keys, keys(&["a", "c"]));
    assert!(rule.validate_context(&j(r#"{"a": 0, "b": 0, "c": 0}"#)).is_ok());
    assert!(rule.validate_context(&j(r#"{"a": 0, "b": 0, "c": 0, "d": 0}"#)).is_ok());
    assert_eq!(
        rule.validate_context(&j(r#"{"a": 1}"#)),
        rule.validate_context(&j(r#"{"a": "other value"}"#))
    );
}
