//! Orchestration logic of an on-demand code-analysis service: working-copy
//! naming and release, manifest lookup, analyzer invocation decisions, path
//! normalization of findings, cache keys and the request state machine.

mod text;

pub mod model;
pub mod normalize;
pub mod naming;
pub mod cleanup;
pub mod decimal;
pub mod analyzer;
pub mod manifest;
pub mod pipeline;
pub mod request;

pub use model::{AnalysisResult, AnalysisResultItem, ApiResponse, DefectLevel};
