//! A supervised-model selection engine.
//!
//! Given the shape of a dataset (row count, feature count, number of
//! distinct target classes), the engine evaluates a closed catalog of
//! model families under k-fold cross-validation, ranks the results in a
//! comparison ledger, and frames the winning model's trained parameters
//! behind a tag that pins down exactly which concrete predictor the
//! stored bytes belong to.
//!
//! The numeric work itself (fitting, scoring, serializing trained
//! parameters) is the caller's capability: the engine plans it, records
//! its outcomes, and dispatches on them.

pub mod catalog;
pub mod engine;
pub mod error;
pub mod final_model;
pub mod folds;
pub mod ledger;
pub mod settings;

pub use catalog::{Algorithm, TaskKind};
pub use engine::SupervisedModel;
pub use error::Error;
pub use settings::{Metric, Settings};
