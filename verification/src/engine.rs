//! The comparison-and-dispatch engine.
//!
//! The engine owns the dataset's shape (row count, feature count,
//! distinct target classes), the configuration store, the comparison
//! ledger, and the committed final model. It plans which variants are
//! evaluated, records the outcomes the numeric capability reports,
//! ranks them, names the winner, frames the winner's trained parameters
//! behind a tag, and dispatches predictions on that tag. The numeric
//! work itself — fitting, scoring, serializing trained parameters — is
//! the caller's: the engine hands out plans and takes back plain
//! values.

use vstd::prelude::*;
use crate::catalog::{catalog, catalog_seq, spec_eligible, Algorithm};
use crate::error::Error;
use crate::final_model::{spec_tag_algorithm, FinalModel, ModelTag};
use crate::ledger::{spec_contains_algorithm, ComparisonEntry, Ledger};
use crate::settings::{
    metric_compatible, spec_metric_compatible, spec_resolve, spec_skiplisted, Settings,
    VariantConfig, VariantConfigView,
};

verus! {

/// Where the engine stands: nothing compared yet, a comparison
/// recorded, or a final model committed. A new comparison discards the
/// final model.
#[derive(Clone, Copy, Debug, PartialEq, Eq, Structural)]
pub enum EnginePhase {
    Uninitialized,
    Compared,
    Finalized,
}

/// One planned evaluation: a variant and its resolved configuration.
#[derive(Clone, Debug, PartialEq, Eq)]
pub struct EvaluationTask {
    pub algorithm: Algorithm,
    pub config: VariantConfig,
}

/// What the numeric capability reports back for one variant: aggregate
/// score keys and a duration, or a failure with its cause.
#[derive(Clone, Debug, PartialEq, Eq)]
pub enum EvaluationOutcome {
    Succeeded { mean_train_key: u64, mean_test_key: u64, duration_ms: u64 },
    Failed { cause: String },
}

/// A variant whose evaluation failed, and why. Failed variants are
/// excluded from the ledger; the comparison itself goes on.
#[derive(Clone, Debug, PartialEq, Eq)]
pub struct FailureRecord {
    pub algorithm: Algorithm,
    pub cause: String,
}

/// The final training the engine asks for: retrain the winner on the
/// whole dataset under this configuration, and serialize the trained
/// parameters; the tag is what the stored blob will carry.
#[derive(Clone, Debug, PartialEq, Eq)]
pub struct CommitTask {
    pub algorithm: Algorithm,
    pub config: VariantConfig,
    pub tag: ModelTag,
}

/// The dispatch decision for a prediction: which concrete predictor to
/// deserialize, and the bytes to deserialize it from.
#[derive(Clone, Debug, PartialEq, Eq)]
pub struct PredictTask {
    pub tag: ModelTag,
    pub payload: Vec<u8>,
}

/// The tag a configuration commits to: the variant's family plus the
/// structural sub-kind the configuration carries.
pub open spec fn spec_tag_of_config(c: VariantConfigView) -> ModelTag {
    match c {
        VariantConfigView::LogisticRegression(_) => ModelTag::LogisticRegression,
        VariantConfigView::RandomForestClassifier(_) => ModelTag::RandomForestClassifier,
        VariantConfigView::KNNClassifier(p) => ModelTag::KNNClassifier(p.distance),
        VariantConfigView::DecisionTreeClassifier(_) => ModelTag::DecisionTreeClassifier,
        VariantConfigView::GaussianNaiveBayes(_) => ModelTag::GaussianNaiveBayes,
        VariantConfigView::CategoricalNaiveBayes(_) => ModelTag::CategoricalNaiveBayes,
        VariantConfigView::SVC(p) => ModelTag::SVC(p.kernel),
        VariantConfigView::Linear(_) => ModelTag::Linear,
        VariantConfigView::SVR(p) => ModelTag::SVR(p.kernel),
        VariantConfigView::Lasso(_) => ModelTag::Lasso,
        VariantConfigView::Ridge(_) => ModelTag::Ridge,
        VariantConfigView::ElasticNet(_) => ModelTag::ElasticNet,
        VariantConfigView::DecisionTreeRegressor(_) => ModelTag::DecisionTreeRegressor,
        VariantConfigView::RandomForestRegressor(_) => ModelTag::RandomForestRegressor,
        VariantConfigView::KNNRegressor(p) => ModelTag::KNNRegressor(p.distance),
    }
}

/// The tag a configuration commits to.
pub fn tag_of_config(c: &VariantConfig) -> (r: ModelTag)
    ensures
        r == spec_tag_of_config(c.view()),
{
    match c {
        VariantConfig::LogisticRegression(_) => ModelTag::LogisticRegression,
        VariantConfig::RandomForestClassifier(_) => ModelTag::RandomForestClassifier,
        VariantConfig::KNNClassifier(p) => ModelTag::KNNClassifier(p.distance),
        VariantConfig::DecisionTreeClassifier(_) => ModelTag::DecisionTreeClassifier,
        VariantConfig::GaussianNaiveBayes(_) => ModelTag::GaussianNaiveBayes,
        VariantConfig::CategoricalNaiveBayes(_) => ModelTag::CategoricalNaiveBayes,
        VariantConfig::SVC(p) => ModelTag::SVC(p.kernel),
        VariantConfig::Linear(_) => ModelTag::Linear,
        VariantConfig::SVR(p) => ModelTag::SVR(p.kernel),
        VariantConfig::Lasso(_) => ModelTag::Lasso,
        VariantConfig::Ridge(_) => ModelTag::Ridge,
        VariantConfig::ElasticNet(_) => ModelTag::ElasticNet,
        VariantConfig::DecisionTreeRegressor(_) => ModelTag::DecisionTreeRegressor,
        VariantConfig::RandomForestRegressor(_) => ModelTag::RandomForestRegressor,
        VariantConfig::KNNRegressor(p) => ModelTag::KNNRegressor(p.distance),
    }
}

/// Whether the configuration declares a task kind under which the
/// variant is structurally eligible and not skip-listed: exactly the
/// variants a comparison evaluates.
pub open spec fn spec_planned(s: Settings, classes: usize, a: Algorithm) -> bool {
    match s.task_kind {
        Some(t) => spec_eligible(a, t, classes) && !spec_skiplisted(s, a),
        None => false,
    }
}

/// The algorithm/configuration pairs of the evaluation plan, walking
/// the catalog from entry `i`: the planned variants in catalog order,
/// or the first missing-configuration error.
pub open spec fn spec_plan_from(s: Settings, classes: usize, i: int) -> Result<
    Seq<(Algorithm, VariantConfigView)>,
    Error,
>
    decreases catalog_seq().len() - i,
{
    if i < 0 || i >= catalog_seq().len() {
        Ok(Seq::empty())
    } else {
        let a = catalog_seq()[i];
        if spec_planned(s, classes, a) {
            match spec_resolve(s, a) {
                None => Err(Error::MissingConfiguration(a)),
                Some(c) => match spec_plan_from(s, classes, i + 1) {
                    Ok(rest) => Ok(seq![(a, c)] + rest),
                    Err(e) => Err(e),
                },
            }
        } else {
            spec_plan_from(s, classes, i + 1)
        }
    }
}

/// The whole evaluation plan: empty while no task kind is declared; the
/// metric-task mismatch comes before any variant; otherwise the planned
/// variants in catalog order, each with its stored configuration.
pub open spec fn spec_comparison_plan(s: Settings, classes: usize) -> Result<
    Seq<(Algorithm, VariantConfigView)>,
    Error,
> {
    match s.task_kind {
        None => Ok(Seq::empty()),
        Some(t) => if !spec_metric_compatible(s.sort_by, t) {
            Err(Error::MetricTaskMismatch)
        } else {
            spec_plan_from(s, classes, 0)
        },
    }
}

/// The algorithm and configuration value of each task.
pub open spec fn spec_task_views(ts: Seq<EvaluationTask>) -> Seq<(Algorithm, VariantConfigView)> {
    ts.map_values(|t: EvaluationTask| (t.algorithm, t.config.view()))
}

/// What planning owes the caller: the planned pairs, or the plan's
/// error.
pub open spec fn comparison_plan_post(
    m: SupervisedModel,
    r: Result<Vec<EvaluationTask>, Error>,
) -> bool {
    match (spec_comparison_plan(m.settings, m.num_classes), r) {
        (Ok(expected), Ok(tasks)) => spec_task_views(tasks@) == expected,
        (Err(e1), Err(e2)) => e1 == e2,
        _ => false,
    }
}

/// The supervised-model selection engine.
#[derive(Clone, Debug)]
pub struct SupervisedModel {
    /// The configuration store; read-only during a comparison run.
    pub settings: Settings,
    /// Rows of the training matrix.
    pub num_rows: usize,
    /// Columns of the training matrix; predictions must match it.
    pub num_features: usize,
    /// Distinct values of the target vector.
    pub num_classes: usize,
    /// The ranked comparison results.
    pub ledger: Ledger,
    /// The variants whose evaluation failed, with their causes.
    pub failures: Vec<FailureRecord>,
    /// Where the engine stands.
    pub phase: EnginePhase,
    /// The committed final model, once `phase` is `Finalized`.
    pub final_model: Option<FinalModel>,
}

impl SupervisedModel {
    /// Well-formed: a plausible dataset shape, a sorted ledger ranked by
    /// the active metric, and a final model exactly in the finalized
    /// phase, tagged with the ledger's winner.
    pub open spec fn wf(self) -> bool {
        &&& self.num_rows >= 1
        &&& self.num_features >= 1
        &&& 1 <= self.num_classes <= self.num_rows
        &&& self.ledger.wf()
        &&& self.ledger.metric == self.settings.sort_by
        &&& (self.phase == EnginePhase::Uninitialized ==> self.ledger.entries@.len() == 0)
        &&& match self.final_model {
            Some(m) => {
                &&& self.phase == EnginePhase::Finalized
                &&& self.ledger.entries@.len() > 0
                &&& spec_tag_algorithm(m.tag) == self.ledger.entries@[0].algorithm
            },
            None => self.phase != EnginePhase::Finalized,
        }
    }

    /// A fresh engine over a dataset of the given shape. The shape is
    /// the dataset as the engine sees it: `num_rows` samples of
    /// `num_features` features each, with `num_classes` distinct target
    /// values.
    pub fn new(
        num_rows: usize,
        num_features: usize,
        num_classes: usize,
        settings: Settings,
    ) -> (r: Self)
        requires
            num_rows >= 1,
            num_features >= 1,
            1 <= num_classes <= num_rows,
        ensures
            r.wf(),
            r.settings == settings,
            r.num_rows == num_rows,
            r.num_features == num_features,
            r.num_classes == num_classes,
            r.phase == EnginePhase::Uninitialized,
            r.ledger.entries@.len() == 0,
            r.failures@.len() == 0,
            r.final_model is None,
    {
        let metric = settings.sort_by;
        SupervisedModel {
            settings,
            num_rows,
            num_features,
            num_classes,
            ledger: Ledger::new(metric),
            failures: Vec::new(),
            phase: EnginePhase::Uninitialized,
            final_model: None,
        }
    }

    /// Plan a comparison run: every structurally eligible, unskipped
    /// variant in catalog order, with its resolved configuration. Fails
    /// fast — before any training — with `MetricTaskMismatch` when the
    /// metric does not fit the task, and with `MissingConfiguration`
    /// naming the first planned variant that has no stored record.
    pub fn comparison_plan(&self) -> (r: Result<Vec<EvaluationTask>, Error>)
        ensures
            comparison_plan_post(*self, r),
    {
        let ghost s = self.settings;
        let ghost classes = self.num_classes;
        let t = match self.settings.task_kind {
            None => {
                let empty: Vec<EvaluationTask> = Vec::new();
                proof {
                    assert(spec_task_views(empty@) =~= Seq::<(Algorithm, VariantConfigView)>::empty());
                }
                return Ok(empty);
            },
            Some(t) => t,
        };
        if !metric_compatible(self.settings.sort_by, t) {
            return Err(Error::MetricTaskMismatch);
        }
        let cat = catalog();
        let mut tasks: Vec<EvaluationTask> = Vec::new();
        let mut i: usize = 0;
        while i < cat.len()
            invariant
                cat@ == catalog_seq(),
                i <= cat@.len(),
                s == self.settings,
                classes == self.num_classes,
                self.settings.task_kind == Some(t),
                spec_metric_compatible(self.settings.sort_by, t),
                spec_plan_from(s, classes, 0) == (match spec_plan_from(s, classes, i as int) {
                    Ok(rest) => Ok::<Seq<(Algorithm, VariantConfigView)>, Error>(
                        spec_task_views(tasks@) + rest,
                    ),
                    Err(e) => Err::<Seq<(Algorithm, VariantConfigView)>, Error>(e),
                }),
            decreases cat@.len() - i,
        {
            let a = cat[i];
            let planned = match self.settings.task_kind {
                Some(tk) => a.eligible(tk, self.num_classes) && !self.settings.is_skiplisted(a),
                None => false,
            };
            proof {
                assert(planned == spec_planned(s, classes, a));
            }
            if planned {
                match self.settings.resolve(a) {
                    Err(e) => {
                        proof {
                            assert(spec_plan_from(s, classes, i as int) == Err::<
                                Seq<(Algorithm, VariantConfigView)>,
                                Error,
                            >(e));
                        }
                        return Err(e);
                    },
                    Ok(c) => {
                        let ghost cv = c.view();
                        let ghost before = tasks@;
                        tasks.push(EvaluationTask { algorithm: a, config: c });
                        proof {
                            assert(spec_task_views(tasks@) =~= spec_task_views(before) + seq![
                                (a, cv),
                            ]);
                            assert(spec_resolve(s, a) == Some(cv));
                            if spec_plan_from(s, classes, i + 1) is Ok {
                                let rest = spec_plan_from(s, classes, i + 1)->Ok_0;
                                assert(spec_plan_from(s, classes, i as int) == Ok::<
                                    Seq<(Algorithm, VariantConfigView)>,
                                    Error,
                                >(seq![(a, cv)] + rest));
                                assert((spec_task_views(before) + (seq![(a, cv)] + rest)) =~= (
                                spec_task_views(tasks@) + rest));
                            }
                        }
                    },
                }
            } else {
                proof {
                    assert(spec_plan_from(s, classes, i as int) == spec_plan_from(
                        s,
                        classes,
                        i + 1,
                    ));
                }
            }
            i = i + 1;
        }
        proof {
            assert(spec_plan_from(s, classes, cat@.len() as int) == Ok::<
                Seq<(Algorithm, VariantConfigView)>,
                Error,
            >(Seq::empty()));
            assert(spec_task_views(tasks@) + Seq::<(Algorithm, VariantConfigView)>::empty()
                =~= spec_task_views(tasks@));
        }
        Ok(tasks)
    }

    /// Discard any previous comparison and final model: the engine is
    /// back at the start, with its dataset and settings kept.
    pub fn begin_comparison(&mut self)
        requires
            old(self).wf(),
        ensures
            final(self).wf(),
            final(self).settings == old(self).settings,
            final(self).num_rows == old(self).num_rows,
            final(self).num_features == old(self).num_features,
            final(self).num_classes == old(self).num_classes,
            final(self).phase == EnginePhase::Uninitialized,
            final(self).ledger.entries@.len() == 0,
            final(self).failures@.len() == 0,
            final(self).final_model is None,
    {
        let metric = self.settings.sort_by;
        self.ledger = Ledger::new(metric);
        self.failures = Vec::new();
        self.phase = EnginePhase::Uninitialized;
        self.final_model = None;
    }

    /// Whether a variant already has a ledger entry.
    pub fn has_entry(&self, a: Algorithm) -> (r: bool)
        ensures
            r == spec_contains_algorithm(self.ledger.entries@, a),
    {
        self.ledger.contains_algorithm(a)
    }

    /// Record what the numeric capability reported for one variant. A
    /// success enters the ledger at its ranking position; a failure is
    /// kept aside with its cause and leaves the ledger untouched, so
    /// one poorly conditioned variant never blocks the others.
    pub fn record_evaluation(&mut self, algorithm: Algorithm, outcome: EvaluationOutcome)
        requires
            old(self).wf(),
            old(self).phase != EnginePhase::Finalized,
            !spec_contains_algorithm(old(self).ledger.entries@, algorithm),
        ensures
            final(self).wf(),
            final(self).settings == old(self).settings,
            final(self).num_rows == old(self).num_rows,
            final(self).num_features == old(self).num_features,
            final(self).num_classes == old(self).num_classes,
            final(self).phase == EnginePhase::Compared,
            final(self).final_model is None,
            final(self).ledger.metric == old(self).ledger.metric,
            match outcome {
                EvaluationOutcome::Succeeded { mean_train_key, mean_test_key, duration_ms } => {
                    &&& final(self).ledger.entries@.to_multiset() == old(
                        self,
                    ).ledger.entries@.to_multiset().insert(
                        ComparisonEntry {
                            algorithm,
                            mean_train_key,
                            mean_test_key,
                            duration_ms,
                        },
                    )
                    &&& final(self).failures@ == old(self).failures@
                },
                EvaluationOutcome::Failed { cause } => {
                    &&& final(self).ledger.entries@ == old(self).ledger.entries@
                    &&& final(self).failures@ == old(self).failures@.push(
                        FailureRecord { algorithm, cause },
                    )
                },
            },
    {
        match outcome {
            EvaluationOutcome::Succeeded { mean_train_key, mean_test_key, duration_ms } => {
                self.ledger.record(
                    ComparisonEntry { algorithm, mean_train_key, mean_test_key, duration_ms },
                );
            },
            EvaluationOutcome::Failed { cause } => {
                self.failures.push(FailureRecord { algorithm, cause });
            },
        }
        self.phase = EnginePhase::Compared;
    }

    /// The winning entry: the ledger's top, whose mean test key is
    /// extremal in the metric's direction among everything recorded.
    /// `EmptyLedger` when nothing survived — everything skip-listed,
    /// ineligible, or failed.
    pub fn best(&self) -> (r: Result<ComparisonEntry, Error>)
        requires
            self.wf(),
        ensures
            self.ledger.entries@.len() == 0 ==> r == Err::<ComparisonEntry, Error>(
                Error::EmptyLedger,
            ),
            self.ledger.entries@.len() > 0 ==> r == Ok::<ComparisonEntry, Error>(
                self.ledger.entries@[0],
            ),
    {
        self.ledger.best()
    }

    /// Plan the final training: the winner and its configuration, and
    /// the tag the stored blob will carry. The winner is retrained on
    /// the whole dataset, not fold-restricted, under the same
    /// configuration used during comparison.
    pub fn commit_plan(&self) -> (r: Result<CommitTask, Error>)
        requires
            self.wf(),
        ensures
            commit_plan_post(*self, r),
    {
        let winner = match self.best() {
            Err(e) => {
                return Err(e);
            },
            Ok(entry) => entry.algorithm,
        };
        match self.settings.resolve(winner) {
            Err(e) => Err(e),
            Ok(config) => {
                let tag = tag_of_config(&config);
                Ok(CommitTask { algorithm: winner, config, tag })
            },
        }
    }

    /// Commit the final training's outcome. `fitted` carries the
    /// serialized trained parameters, or nothing when the retraining
    /// failed — a failure is fatal (`FinalTrainingFailed`): once a
    /// winner is chosen there is no fallback variant, and the engine
    /// stays un-finalized. On success the engine stores the tagged
    /// blob and only then accepts predictions.
    pub fn commit(&mut self, fitted: Option<Vec<u8>>) -> (r: Result<(), Error>)
        requires
            old(self).wf(),
        ensures
            final(self).wf(),
            final(self).settings == old(self).settings,
            final(self).num_rows == old(self).num_rows,
            final(self).num_features == old(self).num_features,
            final(self).num_classes == old(self).num_classes,
            final(self).ledger == old(self).ledger,
            final(self).failures == old(self).failures,
            commit_post(*old(self), fitted, *final(self), r),
    {
        let payload = match fitted {
            None => {
                return Err(Error::FinalTrainingFailed);
            },
            Some(p) => p,
        };
        match self.commit_plan() {
            Err(e) => Err(e),
            Ok(task) => {
                self.final_model = Some(FinalModel { tag: task.tag, payload });
                self.phase = EnginePhase::Finalized;
                Ok(())
            },
        }
    }

    /// Dispatch a prediction request over `num_features` feature
    /// columns: reject it before any deserialization when no final
    /// model stands (`NoFinalModel`) or when the column count differs
    /// from the training matrix's (`ShapeMismatch`); otherwise hand out
    /// the committed tag — which names the winner — and the committed
    /// payload, unchanged.
    pub fn predict_plan(&self, num_features: usize) -> (r: Result<PredictTask, Error>)
        requires
            self.wf(),
        ensures
            !(self.phase == EnginePhase::Finalized) ==> r == Err::<PredictTask, Error>(
                Error::NoFinalModel,
            ),
            self.phase == EnginePhase::Finalized && num_features != self.num_features ==> r
                == Err::<PredictTask, Error>(Error::ShapeMismatch),
            self.phase == EnginePhase::Finalized && num_features == self.num_features ==> match (
                r,
                self.final_model,
            ) {
                (Ok(task), Some(m)) => {
                    &&& task.tag == m.tag
                    &&& task.payload@ == m.payload@
                    &&& spec_tag_algorithm(task.tag) == self.ledger.entries@[0].algorithm
                },
                _ => false,
            },
    {
        match &self.final_model {
            None => Err(Error::NoFinalModel),
            Some(m) => {
                if !(self.phase == EnginePhase::Finalized) {
                    Err(Error::NoFinalModel)
                } else if num_features != self.num_features {
                    Err(Error::ShapeMismatch)
                } else {
                    let payload = copy_bytes(&m.payload);
                    Ok(PredictTask { tag: m.tag, payload })
                }
            },
        }
    }

    /// The stored byte form of the committed final model.
    pub fn final_model_bytes(&self) -> (r: Result<Vec<u8>, Error>)
        requires
            self.wf(),
        ensures
            !(self.phase == EnginePhase::Finalized) ==> r == Err::<Vec<u8>, Error>(
                Error::NoFinalModel,
            ),
            self.phase == EnginePhase::Finalized ==> match (r, self.final_model) {
                (Ok(bytes), Some(m)) => bytes@ == crate::final_model::spec_tag_bytes(m.tag)
                    + m.payload@,
                _ => false,
            },
    {
        match &self.final_model {
            None => Err(Error::NoFinalModel),
            Some(m) => Ok(m.to_bytes()),
        }
    }

    /// The ledger's rows, in ranking order.
    pub fn ledger_snapshot(&self) -> (r: Vec<ComparisonEntry>)
        ensures
            r@ == self.ledger.entries@,
    {
        let mut out: Vec<ComparisonEntry> = Vec::new();
        let mut i: usize = 0;
        while i < self.ledger.entries.len()
            invariant
                i <= self.ledger.entries@.len(),
                out@ == self.ledger.entries@.subrange(0, i as int),
            decreases self.ledger.entries@.len() - i,
        {
            out.push(self.ledger.entries[i]);
            proof {
                assert(out@ =~= self.ledger.entries@.subrange(0, i + 1 as int));
            }
            i = i + 1;
        }
        proof {
            assert(out@ =~= self.ledger.entries@);
        }
        out
    }

    /// The variants the caller's policy skipped although the task would
    /// have admitted them, in catalog order: what a report shows as
    /// "skipped", distinct from "failed" (see `failures`) and from the
    /// ledger's successes.
    pub fn skipped_variants(&self) -> (r: Vec<Algorithm>)
        ensures
            r@ == catalog_seq().filter(
                |a: Algorithm|
                    match self.settings.task_kind {
                        Some(t) => spec_eligible(a, t, self.num_classes) && spec_skiplisted(
                            self.settings,
                            a,
                        ),
                        None => false,
                    },
            ),
    {
        let cat = catalog();
        let mut r: Vec<Algorithm> = Vec::new();
        let mut i: usize = 0;
        while i < cat.len()
            invariant
                cat@ == catalog_seq(),
                i <= cat@.len(),
                r@ == catalog_seq().subrange(0, i as int).filter(
                    |a: Algorithm|
                        match self.settings.task_kind {
                            Some(t) => spec_eligible(a, t, self.num_classes) && spec_skiplisted(
                                self.settings,
                                a,
                            ),
                            None => false,
                        },
                ),
            decreases cat@.len() - i,
        {
            let a = cat[i];
            let keep = match self.settings.task_kind {
                Some(t) => a.eligible(t, self.num_classes) && self.settings.is_skiplisted(a),
                None => false,
            };
            proof {
                let pred = |a: Algorithm|
                    match self.settings.task_kind {
                        Some(t) => spec_eligible(a, t, self.num_classes) && spec_skiplisted(
                            self.settings,
                            a,
                        ),
                        None => false,
                    };
                let prefix = catalog_seq().subrange(0, i as int);
                let next = catalog_seq().subrange(0, i + 1 as int);
                assert(next.drop_last() =~= prefix);
                reveal_with_fuel(Seq::filter, 2);
            }
            if keep {
                r.push(a);
            }
            i = i + 1;
        }
        proof {
            assert(catalog_seq().subrange(0, catalog_seq().len() as int) =~= catalog_seq());
        }
        r
    }
}

/// What planning the final training owes: `EmptyLedger` when nothing
/// survived comparison, `MissingConfiguration` when the winner's record
/// is gone, otherwise the winner with its configuration and tag.
pub open spec fn commit_plan_post(m: SupervisedModel, r: Result<CommitTask, Error>) -> bool {
    if m.ledger.entries@.len() == 0 {
        r == Err::<CommitTask, Error>(Error::EmptyLedger)
    } else {
        let winner = m.ledger.entries@[0].algorithm;
        match spec_resolve(m.settings, winner) {
            None => r == Err::<CommitTask, Error>(Error::MissingConfiguration(winner)),
            Some(cv) => match r {
                Ok(task) => {
                    &&& task.algorithm == winner
                    &&& task.config.view() == cv
                    &&& task.tag == spec_tag_of_config(cv)
                },
                Err(_) => false,
            },
        }
    }
}

/// What committing owes: on a failed retraining, the fatal error and no
/// state change; otherwise the commit-plan's error, or the final model
/// stored exactly as handed over and the engine finalized.
pub open spec fn commit_post(
    before: SupervisedModel,
    fitted: Option<Vec<u8>>,
    after: SupervisedModel,
    r: Result<(), Error>,
) -> bool {
    match fitted {
        None => {
            &&& r == Err::<(), Error>(Error::FinalTrainingFailed)
            &&& after.phase == before.phase
            &&& after.final_model == before.final_model
        },
        Some(payload) => {
            if before.ledger.entries@.len() == 0 {
                &&& r == Err::<(), Error>(Error::EmptyLedger)
                &&& after.phase == before.phase
                &&& after.final_model == before.final_model
            } else {
                let winner = before.ledger.entries@[0].algorithm;
                match spec_resolve(before.settings, winner) {
                    None => {
                        &&& r == Err::<(), Error>(Error::MissingConfiguration(winner))
                        &&& after.phase == before.phase
                        &&& after.final_model == before.final_model
                    },
                    Some(cv) => {
                        &&& r == Ok::<(), Error>(())
                        &&& after.phase == EnginePhase::Finalized
                        &&& match after.final_model {
                            Some(m) => m.tag == spec_tag_of_config(cv) && m.payload@ == payload@,
                            None => false,
                        }
                    },
                }
            }
        },
    }
}

/// A copy of a byte vector.
fn copy_bytes(v: &Vec<u8>) -> (r: Vec<u8>)
    ensures
        r@ == v@,
{
    let mut out: Vec<u8> = Vec::new();
    let mut i: usize = 0;
    while i < v.len()
        invariant
            i <= v@.len(),
            out@ == v@.subrange(0, i as int),
        decreases v@.len() - i,
    {
        out.push(v[i]);
        proof {
            assert(out@ =~= v@.subrange(0, i + 1 as int));
        }
        i = i + 1;
    }
    proof {
        assert(out@ =~= v@);
    }
    out
}

} // verus!
