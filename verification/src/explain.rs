//! Explainability support for auditable decision traces.
//!
//! [`crate::execute_explain`] gives an [`ExplainResult`] holding the full
//! execution snapshot: rule, context, result, and timestamp.

use vstd::prelude::*;
use serde_json::Value;

verus! {

/// The version of this engine, as reported in traces and engine info.
pub const ENGINE_VERSION: &'static str = "0.1.0";

/// The engine tag written into every trace: `tempus-engine@<version>`.
pub open spec fn engine_tag() -> Seq<char> {
    "tempus-engine@"@ + ENGINE_VERSION@
}

/// The outcome of an [`crate::execute_explain`] call: the evaluation result
/// together with a full execution trace for audit and debugging.
#[derive(Debug, Clone)]
pub struct ExplainResult {
    /// Name of the rule that was evaluated.
    pub rule_name: String,
    /// Semantic version of the rule, if set.
    pub rule_version: Option<String>,
    /// Tags attached to the rule.
    pub rule_tags: Vec<String>,
    /// The raw JSON-Logic blob that was executed.
    pub logic_snapshot: Value,
    /// The context that was passed to the evaluator.
    pub context_snapshot: Value,
    /// The final evaluation output.
    pub result: Value,
    /// RFC-3339 UTC timestamp (populated at call time).
    pub evaluated_at: String,
    /// Name of the engine and its version.
    pub engine: String,
}

/// What every RFC 3339 UTC timestamp that `chrono` writes has: at least the
/// 25 characters of its shortest form (`YYYY-MM-DDTHH:MM:SS+00:00`), ending
/// with the offset `+00:00`.
pub open spec fn rfc3339_utc(s: Seq<char>) -> bool {
    &&& s.len() >= 25
    &&& s.subrange(s.len() - 6, s.len() as int) == "+00:00"@
}

/// `chrono::Utc::now().to_rfc3339()`: the current time as an RFC 3339
/// string. The time is the machine's, so only what every such string has is
/// stated: the date and time fields take at least 19 characters, and the UTC
/// offset is written `+00:00` at the end.
#[verifier::external_body]
fn now_rfc3339() -> (s: String)
    ensures
        rfc3339_utc(s@),
{
    chrono::Utc::now().to_rfc3339()
}

impl ExplainResult {
    /// A trace of the given rule, context and result, stamped with the
    /// current time and this engine's tag.
    pub fn new(
        rule_name: String,
        rule_version: Option<String>,
        rule_tags: Vec<String>,
        logic_snapshot: Value,
        context_snapshot: Value,
        result: Value,
    ) -> (t: Self)
        ensures
            t.rule_name == rule_name,
            t.rule_version == rule_version,
            t.rule_tags == rule_tags,
            t.logic_snapshot == logic_snapshot,
            t.context_snapshot == context_snapshot,
            t.result == result,
            rfc3339_utc(t.evaluated_at@),
            t.engine@ == engine_tag(),
            t.engine@ == "tempus-engine@0.1.0"@,
    {
        let mut engine = String::new();
        engine.append("tempus-engine@");
        engine.append(ENGINE_VERSION);
        assert(engine@ =~= engine_tag());
        proof {
            reveal_strlit("tempus-engine@");
            reveal_strlit("0.1.0");
            reveal_strlit("tempus-engine@0.1.0");
            assert(engine@ =~= "tempus-engine@0.1.0"@);
        }
        ExplainResult {
            rule_name,
            rule_version,
            rule_tags,
            logic_snapshot,
            context_snapshot,
            result,
            evaluated_at: now_rfc3339(),
            engine,
        }
    }
}

} // verus!
