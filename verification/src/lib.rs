//! An attribute-based policy decision point.
//!
//! A request context is judged against a set of policies. Each policy holds
//! rules guarded by condition expressions; rule results are merged by a named
//! combining algorithm, and policy results by deny-overrides.

pub mod combine;
pub mod engine;
pub mod expression;
pub mod json;
pub mod model;
pub mod samples;
pub mod text;

pub use engine::PolicyEngine;
pub use model::{DecodeError, Policy, PolicyContext, PolicyResult, PolicyResultView, PolicyRule};
pub use samples::{create_sample_context, create_sample_policy};
