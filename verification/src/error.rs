//! The engine's error taxonomy.

use vstd::prelude::*;
use crate::catalog::Algorithm;

verus! {

/// Everything that can go wrong inside the engine.
///
/// Configuration errors (`MissingConfiguration`, `MetricTaskMismatch`)
/// are raised before any training is planned. `EmptyLedger` is raised
/// after a comparison in which no variant survived. `FinalTrainingFailed`
/// reports that retraining the winner on the full dataset failed; there
/// is no fallback once a winner is chosen. The dispatch errors
/// (`NoFinalModel`, `ShapeMismatch`, `UnknownTag`) indicate a prediction
/// request against a missing, mismatched, or corrupted final model.
#[derive(Clone, Copy, Debug, PartialEq, Eq, Structural)]
pub enum Error {
    /// A variant is eligible and not skip-listed, yet has no stored
    /// configuration.
    MissingConfiguration(Algorithm),
    /// The ranking metric is not valid for the task kind.
    MetricTaskMismatch,
    /// No variant was evaluated successfully.
    EmptyLedger,
    /// Retraining the winning variant on the full dataset failed.
    FinalTrainingFailed,
    /// A prediction was requested before a final model was committed.
    NoFinalModel,
    /// The feature matrix handed to prediction has a column count that
    /// differs from the training matrix's column count.
    ShapeMismatch,
    /// Stored final-model bytes do not begin with a well-formed tag.
    UnknownTag,
}

} // verus!
