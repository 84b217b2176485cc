//! Executing rule definitions: single, batch, chained and explained.
//!
//! Each operation serializes the rule's JSON-Logic blob to text and hands it
//! to the evaluator; the contracts say what comes back in terms of the
//! serializer's and the evaluator's named outcomes.

use vstd::prelude::*;
use serde_json::Value;
use crate::error::{RuleEngineError, RuleEngineErrorView, RuleEngineResult, outcome};
use crate::evaluator::{
    EvaluationResult, batch_details, batch_returns, batch_values, core_info, describes_evaluator, evaluate, evaluate_batch,
    evaluate_batch_detailed, json_logic_evaluate,
};
use crate::explain::{ENGINE_VERSION, ExplainResult, engine_tag, rfc3339_utc};
use crate::json::{
    is_json_object, json_entries, json_map_with, json_object, json_parse, json_string, json_text, map_insert,
    new_map, object_entries, object_map, object_value, parse_json, string_value, to_json_text,
    value_into_object,
};
use crate::metadata::RuleDefinition;

verus! {

/// The text of a rule's logic, or the `InvalidRule` error that serializing
/// it raised.
pub open spec fn logic_text(logic: Value) -> Result<Seq<char>, RuleEngineErrorView> {
    match json_text(logic) {
        Ok(t) => Ok(t),
        Err(m) => Err(RuleEngineErrorView::InvalidRule(m)),
    }
}

/// What executing a rule with the given logic on a context text gives;
/// `None` where the evaluator would panic instead of returning.
pub open spec fn execution(logic: Value, context: Seq<char>) -> Option<Result<Value, RuleEngineErrorView>> {
    match logic_text(logic) {
        Err(e) => Some(Err(e)),
        Ok(t) => json_logic_evaluate(t, context),
    }
}

/// Executing the rule on each of `contexts` returns rather than panics.
pub open spec fn executions_return(logic: Value, contexts: Seq<String>) -> bool {
    forall|i: int| 0 <= i < contexts.len() ==> (#[trigger] execution(logic, contexts[i]@)) is Some
}

/// One link of a chain: the rule's logic evaluated on the text of `context`.
pub open spec fn chain_step(logic: Value, context: Value) -> Option<Result<Value, RuleEngineErrorView>> {
    match logic_text(logic) {
        Err(e) => Some(Err(e)),
        Ok(t) => match json_text(context) {
            Err(m) => Some(Err(RuleEngineErrorView::InvalidRule(m))),
            Ok(c) => json_logic_evaluate(t, c),
        },
    }
}

/// `context` with its `"decision"` entry set to `d` when it is an object;
/// any other value is left as it is.
pub open spec fn with_decision(context: Value, d: Value) -> Value {
    if is_json_object(context) {
        json_object(json_map_with(object_map(context), "decision"@, d))
    } else {
        context
    }
}

/// Runs the rules from position `i` on: each is evaluated on the current
/// context, whose `"decision"` then holds its result. Gives the last result
/// (`last` when no rule is left) and the final context, or the first error;
/// `None` where an evaluation would panic.
pub open spec fn chain_from(rules: Seq<RuleDefinition>, i: int, context: Value, last: Value) -> Option<Result<(Value, Value), RuleEngineErrorView>>
    decreases rules.len() - i,
{
    if i >= rules.len() || i < 0 {
        Some(Ok((last, context)))
    } else {
        match chain_step(rules[i].logic, context) {
            None => None,
            Some(Err(e)) => Some(Err(e)),
            Some(Ok(res)) => chain_from(rules, i + 1, with_decision(context, res), res),
        }
    }
}

/// What executing a chain of rules on an initial context text gives.
pub open spec fn chain_outcome(rules: Seq<RuleDefinition>, initial: Seq<char>) -> Option<Result<(Value, Value), RuleEngineErrorView>> {
    if rules.len() == 0 {
        Some(Err(RuleEngineErrorView::InvalidRule("rule chain must contain at least one rule"@)))
    } else {
        match json_parse(initial) {
            Err(m) => Some(Err(RuleEngineErrorView::InvalidRule("invalid context JSON: "@ + m))),
            Ok(c) => chain_from(rules, 0, c, c),
        }
    }
}

/// What explaining a rule on a context text gives: the parsed context and
/// the result, or the first error.
pub open spec fn explanation(logic: Value, context: Seq<char>) -> Option<Result<(Value, Value), RuleEngineErrorView>> {
    match json_parse(context) {
        Err(m) => Some(Err(RuleEngineErrorView::InvalidRule("invalid context JSON: "@ + m))),
        Ok(snapshot) => match execution(logic, context) {
            None => None,
            Some(Err(e)) => Some(Err(e)),
            Some(Ok(res)) => Some(Ok((snapshot, res))),
        },
    }
}

/// Metadata does not affect evaluation: two definitions with the same name
/// and logic (such as a rule and the rule after any builder call) execute
/// alike on every context.
pub proof fn lemma_metadata_does_not_affect_execution(a: RuleDefinition, b: RuleDefinition, context: Seq<char>)
    requires
        crate::metadata::same_identity(a, b),
    ensures
        execution(a.logic, context) == execution(b.logic, context),
{
}

/// A batch agrees with single execution, context by context: where executing
/// the rule on a context gives `v`, the batch holds `v` at that position;
/// where it fails for the context, the batch holds `null`; and the batch
/// fails only when execution fails on every context with the same error.
pub proof fn lemma_batch_agrees_with_execute(logic: Value, contexts: Seq<String>, r: RuleEngineResult<Vec<Value>>)
    requires
        match logic_text(logic) {
            Err(e) => r matches Err(x) && x@ == e,
            Ok(t) => batch_values(t, contexts, r),
        },
    ensures
        match r {
            Err(e) => forall|c: Seq<char>| #[trigger] execution(logic, c) == Some(Err::<Value, RuleEngineErrorView>(e@)),
            Ok(vs) => {
                &&& vs.len() == contexts.len()
                &&& forall|i: int| 0 <= i < contexts.len() ==>
                    match #[trigger] execution(logic, contexts[i]@) {
                        Some(Ok(v)) => vs@[i] == v,
                        Some(Err(_)) => json_parse("null"@) == Ok::<Value, Seq<char>>(vs@[i]),
                        None => false,
                    }
            },
        },
{
}

/// The rule's text is accepted by the evaluator: executing the rule never
/// fails with an `InvalidRule` error.
pub open spec fn rule_text_accepted(logic: Value) -> bool {
    forall|c: Seq<char>| !(#[trigger] execution(logic, c) matches Some(Err(RuleEngineErrorView::InvalidRule(_))))
}

/// A detailed batch of an accepted rule never fails as a whole and agrees
/// with single execution, context by context: the value where executing the
/// rule on the context succeeds, the rendered error where it fails; a
/// failing context does not stop the batch nor alter the other entries.
pub proof fn lemma_detailed_batch_agrees_with_execute(
    logic: Value,
    contexts: Seq<String>,
    r: RuleEngineResult<Vec<EvaluationResult>>,
)
    requires
        rule_text_accepted(logic),
        match logic_text(logic) {
            Err(e) => r matches Err(x) && x@ == e,
            Ok(t) => batch_details(t, contexts, r),
        },
    ensures
        r is Ok,
        r->Ok_0.len() == contexts.len(),
        forall|i: int| 0 <= i < contexts.len() ==>
            match #[trigger] execution(logic, contexts[i]@) {
                Some(Ok(v)) => r->Ok_0@[i].result == Some(v) && r->Ok_0@[i].error is None,
                Some(Err(e)) => r->Ok_0@[i].result is None
                    && (r->Ok_0@[i].error matches Some(m) && m@ == e.message()),
                None => false,
            },
{
    let c = Seq::<char>::empty();
    assert(!(execution(logic, c) matches Some(Err(RuleEngineErrorView::InvalidRule(_)))));
    let t = logic_text(logic)->Ok_0;
    assert forall|i: int| 0 <= i < contexts.len() implies
        match #[trigger] execution(logic, contexts[i]@) {
            Some(Ok(v)) => r->Ok_0@[i].result == Some(v) && r->Ok_0@[i].error is None,
            Some(Err(e)) => r->Ok_0@[i].result is None
                && (r->Ok_0@[i].error matches Some(m) && m@ == e.message()),
            None => false,
        } by {
        assert(crate::evaluator::detailed_outcome(t, contexts[i]@, r->Ok_0@[i]));
    }
}

/// An explained execution decides as a plain one: on a context that parses,
/// the traced result is the value `execute` gives, and explaining fails with
/// the error `execute` fails with.
pub proof fn lemma_explain_agrees_with_execute(logic: Value, context: Seq<char>)
    requires
        json_parse(context) is Ok,
    ensures
        match execution(logic, context) {
            Some(Ok(v)) => explanation(logic, context) == Some(Ok::<(Value, Value), RuleEngineErrorView>((json_parse(context)->Ok_0, v))),
            Some(Err(e)) => explanation(logic, context) == Some(Err::<(Value, Value), RuleEngineErrorView>(e)),
            None => explanation(logic, context) is None,
        },
{
}

/// Running a chain from position `i` over the rules with one more rule
/// appended: the appended rule runs on the context the shorter chain ends
/// with, and its result is set as that context's `"decision"`.
proof fn lemma_chain_from_push(rules: Seq<RuleDefinition>, rule: RuleDefinition, i: int, context: Value, last: Value)
    requires
        0 <= i <= rules.len(),
    ensures
        chain_from(rules.push(rule), i, context, last) == match chain_from(rules, i, context, last) {
            Some(Ok((v, ctx))) => match chain_step(rule.logic, ctx) {
                Some(Ok(w)) => Some(Ok((w, with_decision(ctx, w)))),
                Some(Err(e)) => Some(Err(e)),
                None => None,
            },
            other => other,
        },
    decreases rules.len() - i,
{
    let longer = rules.push(rule);
    if i < rules.len() {
        assert(longer[i] == rules[i]);
        match chain_step(rules[i].logic, context) {
            Some(Ok(res)) => lemma_chain_from_push(rules, rule, i + 1, with_decision(context, res), res),
            _ => {},
        }
    } else {
        assert(longer[i] == rule);
        match chain_step(rule.logic, context) {
            Some(Ok(w)) => {
                assert(chain_from(longer, i + 1, with_decision(context, w), w) == Some(
                    Ok::<(Value, Value), RuleEngineErrorView>((w, with_decision(context, w))),
                ));
            },
            _ => {},
        }
    }
}

/// The context the next rule of a chain sees: an object context is the map
/// after `insert("decision", d)`; any other context is passed on unchanged.
pub proof fn lemma_decision_injection(context: Value, d: Value)
    ensures
        is_json_object(context) ==> with_decision(context, d)
            == json_object(json_map_with(object_map(context), "decision"@, d)),
        !is_json_object(context) ==> with_decision(context, d) == context,
{
}

/// Appending a rule to a non-empty chain on a context text that parses:
/// when the shorter chain succeeds with `(v, ctx)`, the longer chain
/// evaluates `serde_json`'s text of the new rule's logic on `serde_json`'s
/// text of `ctx` (which carries the previous decision), unaltered, and ends
/// with the new result inserted as `"decision"` into an object `ctx` (any
/// other `ctx` passed on as is); it fails with the new rule's error when that
/// evaluation fails. When the shorter chain fails, the longer one fails alike.
pub proof fn lemma_chain_append(rules: Seq<RuleDefinition>, rule: RuleDefinition, initial: Seq<char>)
    requires
        rules.len() > 0,
        json_parse(initial) is Ok,
    ensures
        match chain_outcome(rules, initial) {
            Some(Ok((v, ctx))) => chain_outcome(rules.push(rule), initial) == match json_text(rule.logic) {
                Err(m) => Some(Err::<(Value, Value), RuleEngineErrorView>(RuleEngineErrorView::InvalidRule(m))),
                Ok(t) => match json_text(ctx) {
                    Err(m) => Some(Err::<(Value, Value), RuleEngineErrorView>(RuleEngineErrorView::InvalidRule(m))),
                    Ok(c) => match json_logic_evaluate(t, c) {
                        Some(Ok(w)) => Some(Ok::<(Value, Value), RuleEngineErrorView>((
                            w,
                            if is_json_object(ctx) {
                                json_object(json_map_with(object_map(ctx), "decision"@, w))
                            } else {
                                ctx
                            },
                        ))),
                        Some(Err(e)) => Some(Err::<(Value, Value), RuleEngineErrorView>(e)),
                        None => None,
                    },
                },
            },
            other => chain_outcome(rules.push(rule), initial) == other,
        },
{
    let c = json_parse(initial)->Ok_0;
    lemma_chain_from_push(rules, rule, 0, c, c);
}

/// The rule text handed to the evaluator is `serde_json`'s text of the
/// logic itself: a serialization that succeeds gives exactly that text, and
/// one that fails gives `InvalidRule` with serde's message.
pub proof fn lemma_serialized_logic_is_serde_text(logic: Value, r: RuleEngineResult<String>)
    requires
        match r {
            Ok(s) => logic_text(logic) == Ok::<Seq<char>, RuleEngineErrorView>(s@),
            Err(e) => logic_text(logic) == Err::<Seq<char>, RuleEngineErrorView>(e@),
        },
    ensures
        r matches Ok(s) ==> json_text(logic) == Ok::<Seq<char>, Seq<char>>(s@),
        r matches Err(e) ==> json_text(logic) matches Err(m) && e@ == RuleEngineErrorView::InvalidRule(m),
{
}

/// Executing a rule evaluates `serde_json`'s text of its logic on the context
/// text exactly as given: the outcome is the evaluator's outcome on those two
/// texts, or `InvalidRule` with serde's message when the logic does not
/// serialize.
pub proof fn lemma_execute_evaluates_serde_text(logic: Value, context: Seq<char>, r: RuleEngineResult<Value>)
    requires
        execution(logic, context) == Some(outcome(r)),
    ensures
        json_text(logic) matches Ok(t) ==> json_logic_evaluate(t, context) == Some(outcome(r)),
        json_text(logic) matches Err(m) ==> r matches Err(e) && e@ == RuleEngineErrorView::InvalidRule(m),
{
}

/// A batch evaluates `serde_json`'s text of the logic on each context text
/// exactly as given, as the evaluator's batch does; when the logic does not
/// serialize, it fails with `InvalidRule` and serde's message.
pub proof fn lemma_batch_evaluates_serde_text(logic: Value, contexts: Seq<String>, r: RuleEngineResult<Vec<Value>>)
    requires
        match logic_text(logic) {
            Err(e) => r matches Err(x) && x@ == e,
            Ok(t) => batch_values(t, contexts, r),
        },
    ensures
        json_text(logic) matches Ok(t) ==> batch_values(t, contexts, r),
        json_text(logic) matches Err(m) ==> r matches Err(e) && e@ == RuleEngineErrorView::InvalidRule(m),
{
}

/// A detailed batch evaluates `serde_json`'s text of the logic on each
/// context text exactly as given, as the evaluator's detailed batch does;
/// when the logic does not serialize, it fails with `InvalidRule`.
pub proof fn lemma_detailed_batch_evaluates_serde_text(
    logic: Value,
    contexts: Seq<String>,
    r: RuleEngineResult<Vec<EvaluationResult>>,
)
    requires
        match logic_text(logic) {
            Err(e) => r matches Err(x) && x@ == e,
            Ok(t) => batch_details(t, contexts, r),
        },
    ensures
        json_text(logic) matches Ok(t) ==> batch_details(t, contexts, r),
        json_text(logic) matches Err(m) ==> r matches Err(e) && e@ == RuleEngineErrorView::InvalidRule(m),
{
}

/// A chain of one rule on an initial context text that parses to `c0`
/// evaluates `serde_json`'s text of the rule's logic on `serde_json`'s text
/// of `c0`, unaltered: it gives that evaluation's value, or its error, or
/// `InvalidRule` with serde's message when either text cannot be written.
pub proof fn lemma_chain_first_rule(rule: RuleDefinition, initial: Seq<char>)
    requires
        json_parse(initial) is Ok,
    ensures
        ({
            let c0 = json_parse(initial)->Ok_0;
            match chain_outcome(seq![rule], initial) {
                None => json_text(rule.logic) matches Ok(t) && json_text(c0) matches Ok(c)
                    && json_logic_evaluate(t, c) is None,
                Some(Ok((v, ctx))) => json_text(rule.logic) matches Ok(t) && json_text(c0) matches Ok(c)
                    && json_logic_evaluate(t, c) == Some(Ok::<Value, RuleEngineErrorView>(v))
                    && ctx == if is_json_object(c0) {
                        json_object(json_map_with(object_map(c0), "decision"@, v))
                    } else {
                        c0
                    },
                Some(Err(e)) => match json_text(rule.logic) {
                    Err(m) => e == RuleEngineErrorView::InvalidRule(m),
                    Ok(t) => match json_text(c0) {
                        Err(m) => e == RuleEngineErrorView::InvalidRule(m),
                        Ok(c) => json_logic_evaluate(t, c) == Some(Err::<Value, RuleEngineErrorView>(e)),
                    },
                },
            }
        }),
{
    let c0 = json_parse(initial)->Ok_0;
    let rules = seq![rule];
    assert(rules[0] == rule);
    match chain_step(rule.logic, c0) {
        Some(Ok(res)) => {
            assert(chain_from(rules, 1, with_decision(c0, res), res) == Some(
                Ok::<(Value, Value), RuleEngineErrorView>((res, with_decision(c0, res))),
            ));
        },
        _ => {},
    }
}

/// Explaining parses the context text with `serde_json` and evaluates
/// `serde_json`'s text of the logic on the context text exactly as given:
/// the snapshot is the parsed context, the result is the evaluator's value,
/// and each failure is the first of these steps to fail.
pub proof fn lemma_explain_evaluates_serde_text(logic: Value, context: Seq<char>)
    ensures
        explanation(logic, context) matches Some(Ok((snapshot, res))) ==> {
            &&& json_parse(context) == Ok::<Value, Seq<char>>(snapshot)
            &&& json_text(logic) matches Ok(t)
            &&& json_logic_evaluate(t, context) == Some(Ok::<Value, RuleEngineErrorView>(res))
        },
        explanation(logic, context) matches Some(Err(e)) ==> match json_parse(context) {
            Err(m) => e == RuleEngineErrorView::InvalidRule("invalid context JSON: "@ + m),
            Ok(_) => match json_text(logic) {
                Err(m) => e == RuleEngineErrorView::InvalidRule(m),
                Ok(t) => json_logic_evaluate(t, context) == Some(Err::<Value, RuleEngineErrorView>(e)),
            },
        },
{
}

/// Serialize the JSON-Logic blob of a [`RuleDefinition`] to a string.
pub fn serialize_logic(rule_def: &RuleDefinition) -> (r: RuleEngineResult<String>)
    ensures
        match r {
            Ok(s) => logic_text(rule_def.logic) == Ok::<Seq<char>, RuleEngineErrorView>(s@),
            Err(e) => logic_text(rule_def.logic) == Err::<Seq<char>, RuleEngineErrorView>(e@),
        },
        r matches Ok(s) ==> json_text(rule_def.logic) == Ok::<Seq<char>, Seq<char>>(s@),
        r matches Err(e) ==> json_text(rule_def.logic) matches Err(m) && e@ == RuleEngineErrorView::InvalidRule(m),
{
    match to_json_text(&rule_def.logic) {
        Ok(s) => Ok(s),
        Err(m) => Err(RuleEngineError::InvalidRule(m)),
    }
}

/// The error for a context text that does not parse: `invalid context JSON: <detail>`.
fn invalid_context(detail: String) -> (e: RuleEngineError)
    ensures
        e@ == RuleEngineErrorView::InvalidRule("invalid context JSON: "@ + detail@),
{
    let mut msg = String::new();
    msg.append("invalid context JSON: ");
    msg.append(detail.as_str());
    RuleEngineError::InvalidRule(msg)
}

/// Execute a rule definition (with metadata) against a JSON context text.
///
/// The evaluator panics where an arithmetic result is not a finite number;
/// such rule and context texts are left out.
pub fn execute(rule_def: &RuleDefinition, context_json: &str) -> (r: RuleEngineResult<Value>)
    requires
        execution(rule_def.logic, context_json@) is Some,
    ensures
        execution(rule_def.logic, context_json@) == Some(outcome(r)),
        json_text(rule_def.logic) matches Ok(t) ==> json_logic_evaluate(t, context_json@) == Some(outcome(r)),
        json_text(rule_def.logic) matches Err(m) ==> r matches Err(e) && e@ == RuleEngineErrorView::InvalidRule(m),
{
    let rule_json = serialize_logic(rule_def)?;
    let r = evaluate(rule_json.as_str(), context_json);
    proof {
        lemma_execute_evaluates_serde_text(rule_def.logic, context_json@, r);
    }
    r
}

/// Execute a rule definition against a batch of context texts.
pub fn execute_batch(rule_def: &RuleDefinition, contexts_json: &[String]) -> (r: RuleEngineResult<Vec<Value>>)
    requires
        executions_return(rule_def.logic, contexts_json@),
    ensures
        match logic_text(rule_def.logic) {
            Err(e) => r matches Err(x) && x@ == e,
            Ok(t) => batch_values(t, contexts_json@, r),
        },
        json_text(rule_def.logic) matches Ok(t) ==> batch_values(t, contexts_json@, r),
        json_text(rule_def.logic) matches Err(m) ==> r matches Err(e) && e@ == RuleEngineErrorView::InvalidRule(m),
{
    let rule_json = serialize_logic(rule_def)?;
    assert(batch_returns(rule_json@, contexts_json@)) by {
        assert forall|i: int| 0 <= i < contexts_json@.len() implies
            (#[trigger] json_logic_evaluate(rule_json@, contexts_json@[i]@)) is Some by {
            assert(execution(rule_def.logic, contexts_json@[i]@) is Some);
        }
    }
    let r = evaluate_batch(rule_json.as_str(), contexts_json);
    proof {
        lemma_batch_evaluates_serde_text(rule_def.logic, contexts_json@, r);
    }
    r
}

/// Execute a rule definition against a batch of contexts with detailed results.
pub fn execute_batch_detailed(rule_def: &RuleDefinition, contexts_json: &[String]) -> (r: RuleEngineResult<Vec<EvaluationResult>>)
    requires
        executions_return(rule_def.logic, contexts_json@),
    ensures
        match logic_text(rule_def.logic) {
            Err(e) => r matches Err(x) && x@ == e,
            Ok(t) => batch_details(t, contexts_json@, r),
        },
        json_text(rule_def.logic) matches Ok(t) ==> batch_details(t, contexts_json@, r),
        json_text(rule_def.logic) matches Err(m) ==> r matches Err(e) && e@ == RuleEngineErrorView::InvalidRule(m),
{
    let rule_json = serialize_logic(rule_def)?;
    assert(batch_returns(rule_json@, contexts_json@)) by {
        assert forall|i: int| 0 <= i < contexts_json@.len() implies
            (#[trigger] json_logic_evaluate(rule_json@, contexts_json@[i]@)) is Some by {
            assert(execution(rule_def.logic, contexts_json@[i]@) is Some);
        }
    }
    let r = evaluate_batch_detailed(rule_json.as_str(), contexts_json);
    proof {
        lemma_detailed_batch_evaluates_serde_text(rule_def.logic, contexts_json@, r);
    }
    r
}

/// Sets the `"decision"` entry of an object context to `d`; any other
/// value is returned as it is.
fn inject_decision(context: Value, d: Value) -> (r: Value)
    ensures
        r == with_decision(context, d),
        is_json_object(context) ==> is_json_object(r)
            && object_entries(r) == object_entries(context).insert("decision"@, d),
{
    match value_into_object(context) {
        Ok(mut m) => {
            let ghost m0 = m;
            map_insert(&mut m, "decision".to_owned(), d);
            let r = object_value(m);
            assert(object_map(context) == m0);
            assert(object_map(r) == m);
            r
        },
        Err(w) => w,
    }
}

/// Execute a sequence of rules where the output of each rule is set as the
/// `"decision"` entry of the context for the next rule.
///
/// Returns the last rule's result and the final context, whose `"decision"`
/// holds that result. Fails when the chain is empty, when the initial context
/// does not parse, or when any rule fails.
pub fn execute_chain(rules: &[RuleDefinition], initial_context_json: &str) -> (r: RuleEngineResult<(Value, Value)>)
    requires
        chain_outcome(rules@, initial_context_json@) is Some,
    ensures
        chain_outcome(rules@, initial_context_json@) == Some(outcome(r)),
        rules@.len() == 1 ==> (r matches Ok((v, _)) ==> {
            &&& json_parse(initial_context_json@) matches Ok(c0)
            &&& json_text(rules@[0].logic) matches Ok(t)
            &&& json_text(c0) matches Ok(c)
            &&& json_logic_evaluate(t, c) == Some(Ok::<Value, RuleEngineErrorView>(v))
        }),
        r is Ok ==> rules@.len() > 0,
        r matches Ok((res, ctx)) ==> json_parse(initial_context_json@) matches Ok(c0) && {
            &&& is_json_object(c0) ==> is_json_object(ctx)
                && object_entries(ctx) == object_entries(c0).insert("decision"@, res)
            &&& !is_json_object(c0) ==> ctx == c0
        },
{
    if rules.len() == 0 {
        return Err(RuleEngineError::InvalidRule("rule chain must contain at least one rule".to_owned()));
    }
    let mut context = match parse_json(initial_context_json) {
        Ok(v) => v,
        Err(m) => {
            return Err(invalid_context(m));
        },
    };
    let ghost c0 = context;
    proof {
        if rules@.len() == 1 {
            assert(rules@ == seq![rules@[0]]);
            lemma_chain_first_rule(rules@[0], initial_context_json@);
        }
    }
    let mut last: Option<Value> = None;
    let ghost mut spec_ctx = c0;
    let n: usize = rules.len();
    let mut i: usize = 0;
    while i < n
        invariant
            n == rules@.len(),
            n > 0,
            i <= n,
            json_parse(initial_context_json@) == Ok::<Value, Seq<char>>(c0),
            chain_outcome(rules@, initial_context_json@) is Some,
            chain_outcome(rules@, initial_context_json@) == chain_from(
                rules@,
                i as int,
                spec_ctx,
                match last {
                    Some(v) => v,
                    None => c0,
                },
            ),
            i == 0 ==> last is None && spec_ctx == c0,
            i > 0 ==> last is Some,
            i < n ==> context == spec_ctx,
            i == n ==> spec_ctx == with_decision(context, last->0),
            is_json_object(c0) ==> is_json_object(context)
                && object_entries(context).remove("decision"@) == object_entries(c0).remove("decision"@),
            !is_json_object(c0) ==> context == c0,
        decreases n - i,
    {
        let rule_json = serialize_logic(&rules[i])?;
        let ctx_str = match to_json_text(&context) {
            Ok(s) => s,
            Err(m) => {
                return Err(RuleEngineError::InvalidRule(m));
            },
        };
        let res = evaluate(rule_json.as_str(), ctx_str.as_str())?;
        proof {
            spec_ctx = with_decision(spec_ctx, res);
        }
        // The next rule reads this result as "decision"; after the last rule
        // the decision is set once the loop ends.
        if i + 1 < n {
            let ghost prev = context;
            context = inject_decision(context, res.clone());
            proof {
                if is_json_object(c0) {
                    assert(object_entries(context).remove("decision"@)
                        =~= object_entries(prev).remove("decision"@));
                }
            }
        }
        last = Some(res);
        i = i + 1;
    }
    match last {
        Some(res) => {
            let ghost pre = context;
            let context = inject_decision(context, res.clone());
            proof {
                if is_json_object(c0) {
                    let d = "decision"@;
                    assert(object_entries(pre).insert(d, res) =~= object_entries(pre).remove(d).insert(d, res));
                    assert(object_entries(c0).insert(d, res) =~= object_entries(c0).remove(d).insert(d, res));
                }
            }
            Ok((res, context))
        },
        None => {
            assert(false);
            Err(RuleEngineError::InvalidRule("rule chain must contain at least one rule".to_owned()))
        },
    }
}

/// Execute a rule with full tracing metadata attached to the result: the
/// rule snapshot, the parsed context, the decision and a timestamp.
pub fn execute_explain(rule_def: &RuleDefinition, context_json: &str) -> (r: RuleEngineResult<ExplainResult>)
    requires
        explanation(rule_def.logic, context_json@) is Some,
    ensures
        match r {
            Err(e) => explanation(rule_def.logic, context_json@) == Some(Err::<(Value, Value), RuleEngineErrorView>(e@)),
            Ok(t) => {
                &&& explanation(rule_def.logic, context_json@) == Some(Ok::<(Value, Value), RuleEngineErrorView>((t.context_snapshot, t.result)))
                &&& t.rule_name == rule_def.name
                &&& t.rule_version == rule_def.version
                &&& t.rule_tags@ == rule_def.tags@
                &&& t.logic_snapshot == rule_def.logic
                &&& rfc3339_utc(t.evaluated_at@)
                &&& t.engine@ == engine_tag()
            },
        },
        r matches Ok(t) ==> {
            &&& json_parse(context_json@) == Ok::<Value, Seq<char>>(t.context_snapshot)
            &&& json_text(rule_def.logic) matches Ok(x)
            &&& json_logic_evaluate(x, context_json@) == Some(Ok::<Value, RuleEngineErrorView>(t.result))
        },
{
    proof {
        lemma_explain_evaluates_serde_text(rule_def.logic, context_json@);
    }
    let context_snapshot = match parse_json(context_json) {
        Ok(v) => v,
        Err(m) => {
            return Err(invalid_context(m));
        },
    };
    let rule_json = serialize_logic(rule_def)?;
    let result = evaluate(rule_json.as_str(), context_json)?;
    Ok(ExplainResult::new(
        rule_def.name.clone(),
        rule_def.version.clone(),
        rule_def.tags.clone(),
        rule_def.logic.clone(),
        context_snapshot,
        result,
    ))
}

/// Return engine information: this engine's name and version, and the
/// evaluator's own description under `"evaluator"`.
pub fn get_engine_info() -> (info: Value)
    ensures
        is_json_object(info),
        object_entries(info).dom() =~= set!["engine"@, "version"@, "evaluator"@],
        object_entries(info)["engine"@] == json_string("tempus-engine"@),
        object_entries(info)["version"@] == json_string(ENGINE_VERSION@),
        object_entries(info)["version"@] == json_string("0.1.0"@),
        describes_evaluator(object_entries(info)["evaluator"@]),
{
    proof {
        reveal_strlit("engine");
        reveal_strlit("version");
        reveal_strlit("evaluator");
        assert("engine"@.len() != "version"@.len());
        assert("engine"@.len() != "evaluator"@.len());
        assert("version"@.len() != "evaluator"@.len());
    }
    let engine = string_value("tempus-engine".to_owned());
    let version = string_value(ENGINE_VERSION.to_owned());
    let mut m = new_map();
    map_insert(&mut m, "engine".to_owned(), engine);
    map_insert(&mut m, "version".to_owned(), version);
    let evaluator = core_info();
    let ghost described = evaluator;
    map_insert(&mut m, "evaluator".to_owned(), evaluator);
    assert(json_entries(m)["engine"@] == engine);
    assert(json_entries(m)["version"@] == version);
    assert(json_entries(m)["evaluator"@] == described);
    let info = object_value(m);
    assert(object_map(info) == m);
    info
}

} // verus!
