//! Error types: context validation failures and engine failures.

use vstd::prelude::*;
use crate::text::{joined, join_strings, texts};

verus! {

/// Error raised when a context fails schema validation for a rule.
#[derive(Debug, Clone, PartialEq)]
pub struct ValidationError {
    /// Name of the rule that rejected the context.
    pub rule_name: String,
    /// Keys that were required but absent from the context.
    pub missing_keys: Vec<String>,
}

impl ValidationError {
    /// A validation error for the rule `rule_name` listing `missing_keys`.
    pub fn new(rule_name: &str, missing_keys: Vec<String>) -> (e: Self)
        ensures
            e.rule_name@ == rule_name@,
            e.missing_keys@ == missing_keys@,
    {
        ValidationError { rule_name: rule_name.to_owned(), missing_keys }
    }

    /// The text of the error as it is shown to a reader.
    pub open spec fn spec_message(&self) -> Seq<char> {
        "rule '"@ + self.rule_name@ + "' validation failed: missing context keys: ["@
            + joined(texts(self.missing_keys@), ", "@) + "]"@
    }

    /// Renders the error: `rule '<name>' validation failed: missing context keys: [<k1>, <k2>]`.
    pub fn message(&self) -> (m: String)
        ensures
            m@ == self.spec_message(),
    {
        let mut m = String::new();
        m.append("rule '");
        m.append(self.rule_name.as_str());
        m.append("' validation failed: missing context keys: [");
        let keys = join_strings(&self.missing_keys, ", ");
        m.append(keys.as_str());
        m.append("]");
        assert(m@ =~= self.spec_message());
        m
    }
}

/// Errors of rule evaluation, with the variants of `jsonlogic-fast`'s error.
#[derive(Debug, Clone, PartialEq, Eq)]
pub enum RuleEngineError {
    /// The rule text is not valid JSON, or the rule could not be prepared.
    InvalidRule(String),
    /// The context text is not valid JSON.
    InvalidContext(String),
    /// The JSON-Logic evaluation failed.
    Evaluation(String),
    /// A result could not be coerced to a number.
    NumericCoercion(String),
    /// A value could not be serialized.
    Serialization(String),
}

/// A `RuleEngineError` with its detail taken as text.
pub enum RuleEngineErrorView {
    InvalidRule(Seq<char>),
    InvalidContext(Seq<char>),
    Evaluation(Seq<char>),
    NumericCoercion(Seq<char>),
    Serialization(Seq<char>),
}

impl View for RuleEngineError {
    type V = RuleEngineErrorView;

    open spec fn view(&self) -> RuleEngineErrorView {
        match self {
            RuleEngineError::InvalidRule(s) => RuleEngineErrorView::InvalidRule(s@),
            RuleEngineError::InvalidContext(s) => RuleEngineErrorView::InvalidContext(s@),
            RuleEngineError::Evaluation(s) => RuleEngineErrorView::Evaluation(s@),
            RuleEngineError::NumericCoercion(s) => RuleEngineErrorView::NumericCoercion(s@),
            RuleEngineError::Serialization(s) => RuleEngineErrorView::Serialization(s@),
        }
    }
}

impl RuleEngineErrorView {
    /// The text of the error as it is shown to a reader.
    pub open spec fn message(self) -> Seq<char> {
        match self {
            RuleEngineErrorView::InvalidRule(s) => "Error parsing rule: "@ + s,
            RuleEngineErrorView::InvalidContext(s) => "Error parsing context: "@ + s,
            RuleEngineErrorView::Evaluation(s) => "json-logic evaluation error: "@ + s,
            RuleEngineErrorView::NumericCoercion(s) => "Numeric coercion error: "@ + s,
            RuleEngineErrorView::Serialization(s) => "Serialization error: "@ + s,
        }
    }
}

/// Result type of the engine's operations.
pub type RuleEngineResult<T> = Result<T, RuleEngineError>;

/// A result of the engine taken with its error by view.
pub open spec fn outcome<T>(r: RuleEngineResult<T>) -> Result<T, RuleEngineErrorView> {
    match r {
        Ok(v) => Ok(v),
        Err(e) => Err(e@),
    }
}

impl RuleEngineError {
    /// Renders the error as `jsonlogic-fast` displays it, e.g. `Error parsing rule: <detail>`.
    pub fn message(&self) -> (m: String)
        ensures
            m@ == self@.message(),
    {
        let mut m = String::new();
        match self {
            RuleEngineError::InvalidRule(s) => {
                m.append("Error parsing rule: ");
                m.append(s.as_str());
            },
            RuleEngineError::InvalidContext(s) => {
                m.append("Error parsing context: ");
                m.append(s.as_str());
            },
            RuleEngineError::Evaluation(s) => {
                m.append("json-logic evaluation error: ");
                m.append(s.as_str());
            },
            RuleEngineError::NumericCoercion(s) => {
                m.append("Numeric coercion error: ");
                m.append(s.as_str());
            },
            RuleEngineError::Serialization(s) => {
                m.append("Serialization error: ");
                m.append(s.as_str());
            },
        }
        assert(m@ =~= self@.message());
        m
    }
}

} // verus!
