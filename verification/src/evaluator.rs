//! The JSON-Logic evaluator of `jsonlogic-fast`, behind trusted items.
//!
//! Evaluation is deterministic: the same rule text and context text give the
//! same outcome, so the outcome of `jsonlogic_fast::evaluate` is named by
//! `json_logic_evaluate`. That outcome is `None` where the evaluator does not
//! return: its arithmetic operators unwrap `serde_json::Number::from_f64`,
//! which panics when a result is not a finite number (such as the sum of
//! `1e308` and `1e308`, or of a string that parses to infinity). The trusted
//! items require the outcome to be `Some`. The batch functions are stated
//! over that name, as their source shows them: the rule is parsed once, then
//! each context is evaluated as `evaluate` would, in order.

use vstd::prelude::*;
use serde_json::Value;
use crate::error::{RuleEngineError, RuleEngineErrorView, RuleEngineResult, outcome};
use crate::json::{is_json_object, json_parse, json_string, object_entries};
use jsonlogic_fast::error::RuleEngineError as Outside;

verus! {

/// `jsonlogic_fast::evaluate(rule, context)`: the value the JSON-Logic rule
/// text gives on the context text, or the error it raises; `None` where the
/// evaluation panics instead of returning.
pub uninterp spec fn json_logic_evaluate(rule: Seq<char>, context: Seq<char>) -> Option<Result<Value, RuleEngineErrorView>>;

/// Evaluating `rule` on each of `contexts` returns rather than panics.
pub open spec fn batch_returns(rule: Seq<char>, contexts: Seq<String>) -> bool {
    forall|i: int| 0 <= i < contexts.len() ==> (#[trigger] json_logic_evaluate(rule, contexts[i]@)) is Some
}

/// Result of a single rule evaluation with optional error.
#[derive(Debug, Clone, PartialEq)]
pub struct EvaluationResult {
    /// The evaluated value, when evaluation succeeded.
    pub result: Option<Value>,
    /// The rendered error, when evaluation failed.
    pub error: Option<String>,
}

/// What a batch reports for one context: the evaluated value, or the
/// rendered error of evaluating it.
pub open spec fn detailed_outcome(rule: Seq<char>, context: Seq<char>, d: EvaluationResult) -> bool {
    match json_logic_evaluate(rule, context) {
        Some(Ok(v)) => d.result == Some(v) && d.error is None,
        Some(Err(e)) => d.result is None && (d.error matches Some(m) && m@ == e.message()),
        None => false,
    }
}

/// The rule text itself is refused: every context gives the same
/// `InvalidRule` error `e`.
pub open spec fn rule_refused(rule: Seq<char>, e: RuleEngineErrorView) -> bool {
    &&& e is InvalidRule
    &&& forall|c: Seq<char>| #[trigger] json_logic_evaluate(rule, c) == Some(Err::<Value, RuleEngineErrorView>(e))
}

/// The rule text is accepted: no context gives an `InvalidRule` error.
pub open spec fn rule_accepted(rule: Seq<char>) -> bool {
    forall|c: Seq<char>| !(#[trigger] json_logic_evaluate(rule, c) matches Some(Err(RuleEngineErrorView::InvalidRule(_))))
}

/// What a batch evaluation of `rule` over `contexts` gives: the rule's
/// `InvalidRule` error when the rule is refused; otherwise one value per
/// context, in order, the value evaluation gives or `null` where it fails.
pub open spec fn batch_values(rule: Seq<char>, contexts: Seq<String>, r: RuleEngineResult<Vec<Value>>) -> bool {
    match r {
        Err(e) => rule_refused(rule, e@),
        Ok(vs) => {
            &&& rule_accepted(rule)
            &&& vs.len() == contexts.len()
            &&& forall|i: int| 0 <= i < vs.len() ==>
                match #[trigger] json_logic_evaluate(rule, contexts[i]@) {
                    Some(Ok(v)) => vs@[i] == v,
                    Some(Err(_)) => json_parse("null"@) == Ok::<Value, Seq<char>>(vs@[i]),
                    None => false,
                }
        },
    }
}

/// What a detailed batch evaluation of `rule` over `contexts` gives: the
/// rule's `InvalidRule` error when the rule is refused; otherwise, per
/// context and in order, the value or the rendered error of evaluating it.
pub open spec fn batch_details(rule: Seq<char>, contexts: Seq<String>, r: RuleEngineResult<Vec<EvaluationResult>>) -> bool {
    match r {
        Err(e) => rule_refused(rule, e@),
        Ok(ds) => {
            &&& rule_accepted(rule)
            &&& ds.len() == contexts.len()
            &&& forall|i: int| 0 <= i < ds.len() ==>
                #[trigger] detailed_outcome(rule, contexts[i]@, ds@[i])
        },
    }
}

/// `jsonlogic_fast::evaluate`: evaluates a JSON-Logic rule text against a
/// JSON context text. Its outcome is `json_logic_evaluate` of the two texts;
/// it is called only where that evaluation returns.
#[verifier::external_body]
pub fn evaluate(rule_json: &str, context_json: &str) -> (r: RuleEngineResult<Value>)
    requires
        json_logic_evaluate(rule_json@, context_json@) is Some,
    ensures
        json_logic_evaluate(rule_json@, context_json@) == Some(outcome(r)),
{
    match jsonlogic_fast::evaluate(rule_json, context_json) {
        Ok(v) => Ok(v),
        Err(Outside::InvalidRule(m)) => Err(RuleEngineError::InvalidRule(m)),
        Err(Outside::InvalidContext(m)) => Err(RuleEngineError::InvalidContext(m)),
        Err(Outside::Evaluation(m)) => Err(RuleEngineError::Evaluation(m)),
        Err(Outside::NumericCoercion(m)) => Err(RuleEngineError::NumericCoercion(m)),
        Err(Outside::Serialization(m)) => Err(RuleEngineError::Serialization(m)),
    }
}

/// `jsonlogic_fast::evaluate_batch`: fails with the rule's `InvalidRule`
/// error when the rule text is refused; otherwise gives one value per
/// context, in order: the value `evaluate` gives, or `null` where
/// evaluating that context fails.
#[verifier::external_body]
pub fn evaluate_batch(rule_json: &str, contexts_json: &[String]) -> (r: RuleEngineResult<Vec<Value>>)
    requires
        batch_returns(rule_json@, contexts_json@),
    ensures
        batch_values(rule_json@, contexts_json@, r),
{
    match jsonlogic_fast::evaluate_batch(rule_json, contexts_json) {
        Ok(vs) => Ok(vs),
        Err(Outside::InvalidRule(m)) => Err(RuleEngineError::InvalidRule(m)),
        Err(Outside::InvalidContext(m)) => Err(RuleEngineError::InvalidContext(m)),
        Err(Outside::Evaluation(m)) => Err(RuleEngineError::Evaluation(m)),
        Err(Outside::NumericCoercion(m)) => Err(RuleEngineError::NumericCoercion(m)),
        Err(Outside::Serialization(m)) => Err(RuleEngineError::Serialization(m)),
    }
}

/// `jsonlogic_fast::evaluate_batch_detailed`: fails with the rule's
/// `InvalidRule` error when the rule text is refused; otherwise reports, per
/// context and in order, the value `evaluate` gives or its rendered error.
#[verifier::external_body]
pub fn evaluate_batch_detailed(rule_json: &str, contexts_json: &[String]) -> (r: RuleEngineResult<Vec<EvaluationResult>>)
    requires
        batch_returns(rule_json@, contexts_json@),
    ensures
        batch_details(rule_json@, contexts_json@, r),
{
    match jsonlogic_fast::evaluate_batch_detailed(rule_json, contexts_json) {
        Ok(ds) => Ok(ds.into_iter().map(|d| EvaluationResult { result: d.result, error: d.error }).collect()),
        Err(Outside::InvalidRule(m)) => Err(RuleEngineError::InvalidRule(m)),
        Err(Outside::InvalidContext(m)) => Err(RuleEngineError::InvalidContext(m)),
        Err(Outside::Evaluation(m)) => Err(RuleEngineError::Evaluation(m)),
        Err(Outside::NumericCoercion(m)) => Err(RuleEngineError::NumericCoercion(m)),
        Err(Outside::Serialization(m)) => Err(RuleEngineError::Serialization(m)),
    }
}

/// The evaluator's description as `jsonlogic_fast::get_core_info` gives it:
/// an object with six entries, of which all but `"available_threads"` (the
/// machine's thread count) are the same on every run.
pub open spec fn describes_evaluator(info: Value) -> bool {
    &&& is_json_object(info)
    &&& object_entries(info).dom() =~= set![
        "engine"@,
        "version"@,
        "parallelism"@,
        "available_threads"@,
        "evaluator"@,
        "result_model"@,
    ]
    &&& object_entries(info)["engine"@] == json_string("jsonlogic-fast"@)
    &&& object_entries(info)["version"@] == json_string("0.1.7"@)
    &&& object_entries(info)["parallelism"@] == json_string("rayon"@)
        || object_entries(info)["parallelism"@] == json_string("sequential"@)
    &&& object_entries(info)["evaluator"@] == json_string("jsonlogic-rs"@)
    &&& object_entries(info)["result_model"@] == json_string("serde_json::Value"@)
}

/// `jsonlogic_fast::get_core_info`: the evaluator's own description. Its
/// `"available_threads"` entry is the machine's thread count, of which
/// nothing is stated; the other entries are fixed by the evaluator's source.
#[verifier::external_body]
pub(crate) fn core_info() -> (info: Value)
    ensures
        describes_evaluator(info),
{
    jsonlogic_fast::get_core_info()
}

} // verus!
