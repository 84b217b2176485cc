//! Deterministic rule execution for decision systems.
//!
//! Rules are JSON-Logic blobs carried with governance metadata; the
//! evaluation itself is done by `jsonlogic-fast`, while this crate adds
//! context validation, rule chaining, explain traces and a named rule store.
//!
//! - [`metadata`]: rule definitions, their builders and context validation;
//! - [`engine`]: single, batch, chained and explained execution;
//! - [`store`]: a named collection of rule definitions;
//! - [`evaluator`] and [`json`]: the outside evaluator and JSON library,
//!   behind trusted items whose contracts name what they compute;
//! - [`error`], [`explain`], [`text`]: errors, traces and message text.

pub mod engine;
pub mod error;
pub mod evaluator;
pub mod explain;
pub mod json;
pub mod metadata;
pub mod store;
pub mod text;

pub use engine::{
    execute, execute_batch, execute_batch_detailed, execute_chain, execute_explain,
    get_engine_info, serialize_logic,
};
pub use error::{RuleEngineError, RuleEngineResult, ValidationError};
pub use evaluator::{evaluate, evaluate_batch, evaluate_batch_detailed, EvaluationResult};
pub use explain::ExplainResult;
pub use store::RuleStore;
