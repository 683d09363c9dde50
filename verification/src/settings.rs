//! The configuration store.
//!
//! One optional hyperparameter record per catalog entry, plus the global
//! controls: the skip set, the fold count, the shuffle flag and seed,
//! and the ranking metric. Real-valued hyperparameters are carried as
//! the bit patterns of their 32-bit machine representation: the engine
//! never interprets them, it only hands them to the numeric capability
//! that fits the models.

use vstd::prelude::*;
use crate::catalog::{Algorithm, TaskKind};
use crate::error::Error;

verus! {

/// Bit pattern of the 32-bit value 1.0.
pub const REAL_ONE_BITS: u32 = 0x3F80_0000;
/// Bit pattern of the 32-bit value 0.5.
pub const REAL_HALF_BITS: u32 = 0x3F00_0000;
/// Bit pattern of the 32-bit value 0.1.
pub const REAL_TENTH_BITS: u32 = 0x3DCC_CCCD;
/// Bit pattern of the 32-bit value 0.001.
pub const REAL_THOUSANDTH_BITS: u32 = 0x3A83_126F;
/// Bit pattern of the 32-bit value 0.0001.
pub const REAL_TEN_THOUSANDTH_BITS: u32 = 0x38D1_B717;
/// Bit pattern of the 32-bit value 0.0.
pub const REAL_ZERO_BITS: u32 = 0;

/// A real-valued hyperparameter, carried opaquely as the bit pattern of
/// its 32-bit machine representation.
#[derive(Clone, Copy, Debug, PartialEq, Eq, Structural)]
pub struct RealParam {
    pub bits: u32,
}

impl RealParam {
    /// Wrap a bit pattern.
    pub fn from_bits(bits: u32) -> (r: Self)
        ensures
            r == (RealParam { bits }),
    {
        RealParam { bits }
    }
}

/// The metric by which the comparison ledger is ranked.
#[derive(Clone, Copy, Debug, PartialEq, Eq, Structural)]
pub enum Metric {
    /// Fraction of correct predictions; classification only.
    Accuracy,
    /// Mean squared error; regression only.
    MeanSquaredError,
    /// Mean absolute error; regression only.
    MeanAbsoluteError,
    /// Coefficient of determination; regression only. Higher is better,
    /// unlike the error metrics.
    RSquared,
}

/// Whether a metric is valid for a task kind.
pub open spec fn spec_metric_compatible(m: Metric, t: TaskKind) -> bool {
    match t {
        TaskKind::Classification => m == Metric::Accuracy,
        TaskKind::Regression => m != Metric::Accuracy,
    }
}

/// Whether a metric is valid for a task kind.
pub fn metric_compatible(m: Metric, t: TaskKind) -> (r: bool)
    ensures
        r == spec_metric_compatible(m, t),
{
    match t {
        TaskKind::Classification => m == Metric::Accuracy,
        TaskKind::Regression => !(m == Metric::Accuracy),
    }
}

/// The distance function of a nearest-neighbour variant. The choice is
/// part of the variant's identity: it changes the shape of the
/// serialized trained parameters.
#[derive(Clone, Copy, Debug, PartialEq, Eq, Structural)]
pub enum Distance {
    Euclidean,
    Manhattan,
    /// Minkowski distance of the given order.
    Minkowski(u16),
    Mahalanobis,
    Hamming,
}

/// The kernel of a support vector variant. Like the distance, the
/// choice is part of the variant's identity.
#[derive(Clone, Copy, Debug, PartialEq, Eq, Structural)]
pub enum Kernel {
    Linear,
    /// Polynomial kernel: degree, gamma, coefficient.
    Polynomial(RealParam, RealParam, RealParam),
    /// Radial basis function kernel: gamma.
    RBF(RealParam),
    /// Sigmoid kernel: gamma, coefficient.
    Sigmoid(RealParam, RealParam),
}

/// Search structure of a nearest-neighbour variant.
#[derive(Clone, Copy, Debug, PartialEq, Eq, Structural)]
pub enum KNNAlgorithmName {
    LinearSearch,
    CoverTree,
}

/// Weighting of neighbour votes.
#[derive(Clone, Copy, Debug, PartialEq, Eq, Structural)]
pub enum KNNWeightFunction {
    Uniform,
    Distance,
}

/// Split quality measure of tree-based classifiers.
#[derive(Clone, Copy, Debug, PartialEq, Eq, Structural)]
pub enum SplitCriterion {
    Gini,
    Entropy,
    ClassificationError,
}

/// Solver for ordinary linear regression.
#[derive(Clone, Copy, Debug, PartialEq, Eq, Structural)]
pub enum LinearRegressionSolverName {
    QR,
    SVD,
}

/// Solver for ridge regression.
#[derive(Clone, Copy, Debug, PartialEq, Eq, Structural)]
pub enum RidgeRegressionSolverName {
    Cholesky,
    SVD,
}

/// Hyperparameters of ordinary linear regression.
#[derive(Clone, Copy, Debug, PartialEq, Eq, Structural)]
pub struct LinearRegressionParameters {
    pub solver: LinearRegressionSolverName,
}

/// Default hyperparameters of ordinary linear regression.
pub open spec fn spec_default_linear() -> LinearRegressionParameters {
    LinearRegressionParameters { solver: LinearRegressionSolverName::SVD }
}

impl Default for LinearRegressionParameters {
    fn default() -> (r: Self)
        ensures
            r == spec_default_linear(),
    {
        LinearRegressionParameters { solver: LinearRegressionSolverName::SVD }
    }
}

/// Hyperparameters of logistic regression.
#[derive(Clone, Copy, Debug, PartialEq, Eq, Structural)]
pub struct LogisticRegressionParameters {
    /// Regularization strength.
    pub alpha: RealParam,
}

/// Default hyperparameters of logistic regression.
pub open spec fn spec_default_logistic() -> LogisticRegressionParameters {
    LogisticRegressionParameters { alpha: RealParam { bits: REAL_ZERO_BITS } }
}

impl Default for LogisticRegressionParameters {
    fn default() -> (r: Self)
        ensures
            r == spec_default_logistic(),
    {
        LogisticRegressionParameters { alpha: RealParam { bits: REAL_ZERO_BITS } }
    }
}

/// Hyperparameters of lasso regression.
#[derive(Clone, Copy, Debug, PartialEq, Eq, Structural)]
pub struct LassoParameters {
    pub alpha: RealParam,
    pub normalize: bool,
    pub tol: RealParam,
    pub max_iter: usize,
}

/// Default hyperparameters of lasso regression.
pub open spec fn spec_default_lasso() -> LassoParameters {
    LassoParameters {
        alpha: RealParam { bits: REAL_ONE_BITS },
        normalize: true,
        tol: RealParam { bits: REAL_TEN_THOUSANDTH_BITS },
        max_iter: 1000,
    }
}

impl Default for LassoParameters {
    fn default() -> (r: Self)
        ensures
            r == spec_default_lasso(),
    {
        LassoParameters {
            alpha: RealParam { bits: REAL_ONE_BITS },
            normalize: true,
            tol: RealParam { bits: REAL_TEN_THOUSANDTH_BITS },
            max_iter: 1000,
        }
    }
}

/// Hyperparameters of ridge regression.
#[derive(Clone, Copy, Debug, PartialEq, Eq, Structural)]
pub struct RidgeRegressionParameters {
    pub solver: RidgeRegressionSolverName,
    pub alpha: RealParam,
    pub normalize: bool,
}

/// Default hyperparameters of ridge regression.
pub open spec fn spec_default_ridge() -> RidgeRegressionParameters {
    RidgeRegressionParameters {
        solver: RidgeRegressionSolverName::Cholesky,
        alpha: RealParam { bits: REAL_ONE_BITS },
        normalize: true,
    }
}

impl Default for RidgeRegressionParameters {
    fn default() -> (r: Self)
        ensures
            r == spec_default_ridge(),
    {
        RidgeRegressionParameters {
            solver: RidgeRegressionSolverName::Cholesky,
            alpha: RealParam { bits: REAL_ONE_BITS },
            normalize: true,
        }
    }
}

/// Hyperparameters of elastic-net regression.
#[derive(Clone, Copy, Debug, PartialEq, Eq, Structural)]
pub struct ElasticNetParameters {
    pub alpha: RealParam,
    pub l1_ratio: RealParam,
    pub normalize: bool,
    pub tol: RealParam,
    pub max_iter: usize,
}

/// Default hyperparameters of elastic-net regression.
pub open spec fn spec_default_elastic_net() -> ElasticNetParameters {
    ElasticNetParameters {
        alpha: RealParam { bits: REAL_ONE_BITS },
        l1_ratio: RealParam { bits: REAL_HALF_BITS },
        normalize: true,
        tol: RealParam { bits: REAL_TEN_THOUSANDTH_BITS },
        max_iter: 1000,
    }
}

impl Default for ElasticNetParameters {
    fn default() -> (r: Self)
        ensures
            r == spec_default_elastic_net(),
    {
        ElasticNetParameters {
            alpha: RealParam { bits: REAL_ONE_BITS },
            l1_ratio: RealParam { bits: REAL_HALF_BITS },
            normalize: true,
            tol: RealParam { bits: REAL_TEN_THOUSANDTH_BITS },
            max_iter: 1000,
        }
    }
}

/// Hyperparameters of a support vector regressor.
#[derive(Clone, Copy, Debug, PartialEq, Eq, Structural)]
pub struct SVRParameters {
    pub eps: RealParam,
    pub c: RealParam,
    pub tol: RealParam,
    pub kernel: Kernel,
}

/// Default hyperparameters of a support vector regressor.
pub open spec fn spec_default_svr() -> SVRParameters {
    SVRParameters {
        eps: RealParam { bits: REAL_TENTH_BITS },
        c: RealParam { bits: REAL_ONE_BITS },
        tol: RealParam { bits: REAL_THOUSANDTH_BITS },
        kernel: Kernel::Linear,
    }
}

impl Default for SVRParameters {
    fn default() -> (r: Self)
        ensures
            r == spec_default_svr(),
    {
        SVRParameters {
            eps: RealParam { bits: REAL_TENTH_BITS },
            c: RealParam { bits: REAL_ONE_BITS },
            tol: RealParam { bits: REAL_THOUSANDTH_BITS },
            kernel: Kernel::Linear,
        }
    }
}

/// Hyperparameters of a support vector classifier.
#[derive(Clone, Copy, Debug, PartialEq, Eq, Structural)]
pub struct SVCParameters {
    pub epoch: usize,
    pub c: RealParam,
    pub tol: RealParam,
    pub kernel: Kernel,
}

/// Default hyperparameters of a support vector classifier.
pub open spec fn spec_default_svc() -> SVCParameters {
    SVCParameters {
        epoch: 2,
        c: RealParam { bits: REAL_ONE_BITS },
        tol: RealParam { bits: REAL_THOUSANDTH_BITS },
        kernel: Kernel::Linear,
    }
}

impl Default for SVCParameters {
    fn default() -> (r: Self)
        ensures
            r == spec_default_svc(),
    {
        SVCParameters {
            epoch: 2,
            c: RealParam { bits: REAL_ONE_BITS },
            tol: RealParam { bits: REAL_THOUSANDTH_BITS },
            kernel: Kernel::Linear,
        }
    }
}

/// Hyperparameters of a decision tree regressor.
#[derive(Clone, Copy, Debug, PartialEq, Eq)]
pub struct DecisionTreeRegressorParameters {
    pub max_depth: Option<u16>,
    pub min_samples_leaf: usize,
    pub min_samples_split: usize,
}

/// Default hyperparameters of a decision tree regressor.
pub open spec fn spec_default_decision_tree_regressor() -> DecisionTreeRegressorParameters {
    DecisionTreeRegressorParameters {
        max_depth: None,
        min_samples_leaf: 1,
        min_samples_split: 2,
    }
}

impl Default for DecisionTreeRegressorParameters {
    fn default() -> (r: Self)
        ensures
            r == spec_default_decision_tree_regressor(),
    {
        DecisionTreeRegressorParameters {
            max_depth: None,
            min_samples_leaf: 1,
            min_samples_split: 2,
        }
    }
}

/// Hyperparameters of a decision tree classifier.
#[derive(Clone, Copy, Debug, PartialEq, Eq)]
pub struct DecisionTreeClassifierParameters {
    pub criterion: SplitCriterion,
    pub max_depth: Option<u16>,
    pub min_samples_leaf: usize,
    pub min_samples_split: usize,
}

/// Default hyperparameters of a decision tree classifier.
pub open spec fn spec_default_decision_tree_classifier() -> DecisionTreeClassifierParameters {
    DecisionTreeClassifierParameters {
        criterion: SplitCriterion::Gini,
        max_depth: None,
        min_samples_leaf: 1,
        min_samples_split: 2,
    }
}

impl Default for DecisionTreeClassifierParameters {
    fn default() -> (r: Self)
        ensures
            r == spec_default_decision_tree_classifier(),
    {
        DecisionTreeClassifierParameters {
            criterion: SplitCriterion::Gini,
            max_depth: None,
            min_samples_leaf: 1,
            min_samples_split: 2,
        }
    }
}

/// Hyperparameters of a random forest regressor.
#[derive(Clone, Copy, Debug, PartialEq, Eq)]
pub struct RandomForestRegressorParameters {
    pub max_depth: Option<u16>,
    pub min_samples_leaf: usize,
    pub min_samples_split: usize,
    pub n_trees: usize,
    pub m: Option<usize>,
}

/// Default hyperparameters of a random forest regressor.
pub open spec fn spec_default_random_forest_regressor() -> RandomForestRegressorParameters {
    RandomForestRegressorParameters {
        max_depth: None,
        min_samples_leaf: 1,
        min_samples_split: 2,
        n_trees: 10,
        m: None,
    }
}

impl Default for RandomForestRegressorParameters {
    fn default() -> (r: Self)
        ensures
            r == spec_default_random_forest_regressor(),
    {
        RandomForestRegressorParameters {
            max_depth: None,
            min_samples_leaf: 1,
            min_samples_split: 2,
            n_trees: 10,
            m: None,
        }
    }
}

/// Hyperparameters of a random forest classifier.
#[derive(Clone, Copy, Debug, PartialEq, Eq)]
pub struct RandomForestClassifierParameters {
    pub criterion: SplitCriterion,
    pub max_depth: Option<u16>,
    pub min_samples_leaf: usize,
    pub min_samples_split: usize,
    pub n_trees: u16,
    pub m: Option<usize>,
}

/// Default hyperparameters of a random forest classifier.
pub open spec fn spec_default_random_forest_classifier() -> RandomForestClassifierParameters {
    RandomForestClassifierParameters {
        criterion: SplitCriterion::Gini,
        max_depth: None,
        min_samples_leaf: 1,
        min_samples_split: 2,
        n_trees: 100,
        m: None,
    }
}

impl Default for RandomForestClassifierParameters {
    fn default() -> (r: Self)
        ensures
            r == spec_default_random_forest_classifier(),
    {
        RandomForestClassifierParameters {
            criterion: SplitCriterion::Gini,
            max_depth: None,
            min_samples_leaf: 1,
            min_samples_split: 2,
            n_trees: 100,
            m: None,
        }
    }
}

/// Hyperparameters of a nearest-neighbour classifier.
#[derive(Clone, Copy, Debug, PartialEq, Eq, Structural)]
pub struct KNNClassifierParameters {
    pub k: usize,
    pub weight: KNNWeightFunction,
    pub algorithm: KNNAlgorithmName,
    pub distance: Distance,
}

/// Default hyperparameters of a nearest-neighbour classifier.
pub open spec fn spec_default_knn_classifier() -> KNNClassifierParameters {
    KNNClassifierParameters {
        k: 3,
        weight: KNNWeightFunction::Uniform,
        algorithm: KNNAlgorithmName::CoverTree,
        distance: Distance::Euclidean,
    }
}

impl Default for KNNClassifierParameters {
    fn default() -> (r: Self)
        ensures
            r == spec_default_knn_classifier(),
    {
        KNNClassifierParameters {
            k: 3,
            weight: KNNWeightFunction::Uniform,
            algorithm: KNNAlgorithmName::CoverTree,
            distance: Distance::Euclidean,
        }
    }
}

/// Hyperparameters of a nearest-neighbour regressor.
#[derive(Clone, Copy, Debug, PartialEq, Eq, Structural)]
pub struct KNNRegressorParameters {
    pub k: usize,
    pub weight: KNNWeightFunction,
    pub algorithm: KNNAlgorithmName,
    pub distance: Distance,
}

/// Default hyperparameters of a nearest-neighbour regressor.
pub open spec fn spec_default_knn_regressor() -> KNNRegressorParameters {
    KNNRegressorParameters {
        k: 3,
        weight: KNNWeightFunction::Uniform,
        algorithm: KNNAlgorithmName::CoverTree,
        distance: Distance::Euclidean,
    }
}

impl Default for KNNRegressorParameters {
    fn default() -> (r: Self)
        ensures
            r == spec_default_knn_regressor(),
    {
        KNNRegressorParameters {
            k: 3,
            weight: KNNWeightFunction::Uniform,
            algorithm: KNNAlgorithmName::CoverTree,
            distance: Distance::Euclidean,
        }
    }
}

/// Hyperparameters of the Gaussian naive Bayes classifier.
#[derive(Debug, PartialEq, Eq)]
pub struct GaussianNBParameters {
    /// Prior class probabilities; when absent they are estimated from
    /// the data.
    pub priors: Option<Vec<RealParam>>,
}

/// Default hyperparameters of the Gaussian naive Bayes classifier.
pub open spec fn spec_default_gaussian_nb() -> GaussianNBParameters {
    GaussianNBParameters { priors: None }
}

impl Default for GaussianNBParameters {
    fn default() -> (r: Self)
        ensures
            r == spec_default_gaussian_nb(),
    {
        GaussianNBParameters { priors: None }
    }
}

impl Clone for GaussianNBParameters {
    /// A clone carries the same prior list.
    fn clone(&self) -> (r: Self)
        ensures
            spec_priors_view(r) == spec_priors_view(*self),
    {
        match &self.priors {
            None => GaussianNBParameters { priors: None },
            Some(v) => {
                let mut copy: Vec<RealParam> = Vec::new();
                let mut i: usize = 0;
                while i < v.len()
                    invariant
                        i <= v@.len(),
                        copy@ == v@.subrange(0, i as int),
                    decreases v@.len() - i,
                {
                    copy.push(v[i]);
                    i = i + 1;
                }
                proof {
                    assert(copy@ =~= v@);
                }
                GaussianNBParameters { priors: Some(copy) }
            },
        }
    }
}

/// Hyperparameters of the categorical naive Bayes classifier.
#[derive(Clone, Copy, Debug, PartialEq, Eq, Structural)]
pub struct CategoricalNBParameters {
    /// Additive smoothing parameter.
    pub alpha: RealParam,
}

/// Default hyperparameters of the categorical naive Bayes classifier.
pub open spec fn spec_default_categorical_nb() -> CategoricalNBParameters {
    CategoricalNBParameters { alpha: RealParam { bits: REAL_ONE_BITS } }
}

impl Default for CategoricalNBParameters {
    fn default() -> (r: Self)
        ensures
            r == spec_default_categorical_nb(),
    {
        CategoricalNBParameters { alpha: RealParam { bits: REAL_ONE_BITS } }
    }
}

/// The configuration of one concrete variant, as resolved for an
/// evaluation or a final training run.
#[derive(Clone, Debug, PartialEq, Eq)]
pub enum VariantConfig {
    LogisticRegression(LogisticRegressionParameters),
    RandomForestClassifier(RandomForestClassifierParameters),
    KNNClassifier(KNNClassifierParameters),
    DecisionTreeClassifier(DecisionTreeClassifierParameters),
    GaussianNaiveBayes(GaussianNBParameters),
    CategoricalNaiveBayes(CategoricalNBParameters),
    SVC(SVCParameters),
    Linear(LinearRegressionParameters),
    SVR(SVRParameters),
    Lasso(LassoParameters),
    Ridge(RidgeRegressionParameters),
    ElasticNet(ElasticNetParameters),
    DecisionTreeRegressor(DecisionTreeRegressorParameters),
    RandomForestRegressor(RandomForestRegressorParameters),
    KNNRegressor(KNNRegressorParameters),
}

/// The mathematical value of a variant configuration: identical to
/// [`VariantConfig`] except that the prior list of the Gaussian naive
/// Bayes record is a sequence rather than a vector, so that two records
/// with the same priors are equal values.
pub enum VariantConfigView {
    LogisticRegression(LogisticRegressionParameters),
    RandomForestClassifier(RandomForestClassifierParameters),
    KNNClassifier(KNNClassifierParameters),
    DecisionTreeClassifier(DecisionTreeClassifierParameters),
    GaussianNaiveBayes(Option<Seq<RealParam>>),
    CategoricalNaiveBayes(CategoricalNBParameters),
    SVC(SVCParameters),
    Linear(LinearRegressionParameters),
    SVR(SVRParameters),
    Lasso(LassoParameters),
    Ridge(RidgeRegressionParameters),
    ElasticNet(ElasticNetParameters),
    DecisionTreeRegressor(DecisionTreeRegressorParameters),
    RandomForestRegressor(RandomForestRegressorParameters),
    KNNRegressor(KNNRegressorParameters),
}

/// The prior list of a Gaussian record, as a value.
pub open spec fn spec_priors_view(p: GaussianNBParameters) -> Option<Seq<RealParam>> {
    match p.priors {
        Some(v) => Some(v@),
        None => None,
    }
}

impl VariantConfig {
    /// The mathematical value of this configuration.
    pub open spec fn view(self) -> VariantConfigView {
        match self {
            VariantConfig::LogisticRegression(p) => VariantConfigView::LogisticRegression(p),
            VariantConfig::RandomForestClassifier(p) => VariantConfigView::RandomForestClassifier(
                p,
            ),
            VariantConfig::KNNClassifier(p) => VariantConfigView::KNNClassifier(p),
            VariantConfig::DecisionTreeClassifier(p) => VariantConfigView::DecisionTreeClassifier(
                p,
            ),
            VariantConfig::GaussianNaiveBayes(p) => VariantConfigView::GaussianNaiveBayes(
                spec_priors_view(p),
            ),
            VariantConfig::CategoricalNaiveBayes(p) => VariantConfigView::CategoricalNaiveBayes(p),
            VariantConfig::SVC(p) => VariantConfigView::SVC(p),
            VariantConfig::Linear(p) => VariantConfigView::Linear(p),
            VariantConfig::SVR(p) => VariantConfigView::SVR(p),
            VariantConfig::Lasso(p) => VariantConfigView::Lasso(p),
            VariantConfig::Ridge(p) => VariantConfigView::Ridge(p),
            VariantConfig::ElasticNet(p) => VariantConfigView::ElasticNet(p),
            VariantConfig::DecisionTreeRegressor(p) => VariantConfigView::DecisionTreeRegressor(p),
            VariantConfig::RandomForestRegressor(p) => VariantConfigView::RandomForestRegressor(p),
            VariantConfig::KNNRegressor(p) => VariantConfigView::KNNRegressor(p),
        }
    }
}

/// The default seed of the fold shuffler. A fixed seed keeps shuffled
/// comparisons reproducible unless the caller chooses otherwise.
pub const DEFAULT_SHUFFLE_SEED: u64 = 0x5EED_0123_4567_89AB;

/// Global controls and the per-variant configuration records.
#[derive(Clone, Debug)]
pub struct Settings {
    /// The ranking metric.
    pub sort_by: Metric,
    /// The task kind, when declared. The canned profiles declare it; no
    /// variant is eligible while it is absent.
    pub task_kind: Option<TaskKind>,
    /// Variants excluded from comparison by the caller's policy.
    pub skiplist: Vec<Algorithm>,
    /// The fold count of cross-validation.
    pub number_of_folds: usize,
    /// Whether row indices are shuffled before fold partitioning.
    pub shuffle: bool,
    /// Seed of the shuffle; fixed by default for reproducibility.
    pub shuffle_seed: u64,
    /// Whether the caller wants progress reported.
    pub verbose: bool,
    pub linear_settings: Option<LinearRegressionParameters>,
    pub svr_settings: Option<SVRParameters>,
    pub lasso_settings: Option<LassoParameters>,
    pub ridge_settings: Option<RidgeRegressionParameters>,
    pub elastic_net_settings: Option<ElasticNetParameters>,
    pub decision_tree_regressor_settings: Option<DecisionTreeRegressorParameters>,
    pub random_forest_regressor_settings: Option<RandomForestRegressorParameters>,
    pub knn_regressor_settings: Option<KNNRegressorParameters>,
    pub logistic_settings: Option<LogisticRegressionParameters>,
    pub random_forest_classifier_settings: Option<RandomForestClassifierParameters>,
    pub knn_classifier_settings: Option<KNNClassifierParameters>,
    pub svc_settings: Option<SVCParameters>,
    pub decision_tree_classifier_settings: Option<DecisionTreeClassifierParameters>,
    pub gaussian_nb_settings: Option<GaussianNBParameters>,
    pub categorical_nb_settings: Option<CategoricalNBParameters>,
}

/// The stored configuration record of a variant, as a value; `None`
/// when the store holds no record for it.
pub open spec fn spec_resolve(s: Settings, a: Algorithm) -> Option<VariantConfigView> {
    match a {
        Algorithm::LogisticRegression => match s.logistic_settings {
            Some(p) => Some(VariantConfigView::LogisticRegression(p)),
            None => None,
        },
        Algorithm::RandomForestClassifier => match s.random_forest_classifier_settings {
            Some(p) => Some(VariantConfigView::RandomForestClassifier(p)),
            None => None,
        },
        Algorithm::KNNClassifier => match s.knn_classifier_settings {
            Some(p) => Some(VariantConfigView::KNNClassifier(p)),
            None => None,
        },
        Algorithm::DecisionTreeClassifier => match s.decision_tree_classifier_settings {
            Some(p) => Some(VariantConfigView::DecisionTreeClassifier(p)),
            None => None,
        },
        Algorithm::GaussianNaiveBayes => match s.gaussian_nb_settings {
            Some(p) => Some(VariantConfigView::GaussianNaiveBayes(spec_priors_view(p))),
            None => None,
        },
        Algorithm::CategoricalNaiveBayes => match s.categorical_nb_settings {
            Some(p) => Some(VariantConfigView::CategoricalNaiveBayes(p)),
            None => None,
        },
        Algorithm::SVC => match s.svc_settings {
            Some(p) => Some(VariantConfigView::SVC(p)),
            None => None,
        },
        Algorithm::Linear => match s.linear_settings {
            Some(p) => Some(VariantConfigView::Linear(p)),
            None => None,
        },
        Algorithm::SVR => match s.svr_settings {
            Some(p) => Some(VariantConfigView::SVR(p)),
            None => None,
        },
        Algorithm::Lasso => match s.lasso_settings {
            Some(p) => Some(VariantConfigView::Lasso(p)),
            None => None,
        },
        Algorithm::Ridge => match s.ridge_settings {
            Some(p) => Some(VariantConfigView::Ridge(p)),
            None => None,
        },
        Algorithm::ElasticNet => match s.elastic_net_settings {
            Some(p) => Some(VariantConfigView::ElasticNet(p)),
            None => None,
        },
        Algorithm::DecisionTreeRegressor => match s.decision_tree_regressor_settings {
            Some(p) => Some(VariantConfigView::DecisionTreeRegressor(p)),
            None => None,
        },
        Algorithm::RandomForestRegressor => match s.random_forest_regressor_settings {
            Some(p) => Some(VariantConfigView::RandomForestRegressor(p)),
            None => None,
        },
        Algorithm::KNNRegressor => match s.knn_regressor_settings {
            Some(p) => Some(VariantConfigView::KNNRegressor(p)),
            None => None,
        },
    }
}

/// What resolution must return: the stored record for the variant, or
/// the error naming it as unconfigured.
pub open spec fn resolve_post(
    s: Settings,
    a: Algorithm,
    r: Result<VariantConfig, Error>,
) -> bool {
    match (spec_resolve(s, a), r) {
        (Some(cv), Ok(c)) => c.view() == cv,
        (None, Err(e)) => e == Error::MissingConfiguration(a),
        _ => false,
    }
}

/// Whether the caller's policy excludes a variant from comparison.
pub open spec fn spec_skiplisted(s: Settings, a: Algorithm) -> bool {
    s.skiplist@.contains(a)
}

impl Settings {
    /// Whether the caller's policy excludes a variant from comparison.
    pub fn is_skiplisted(&self, a: Algorithm) -> (r: bool)
        ensures
            r == spec_skiplisted(*self, a),
    {
        let mut i: usize = 0;
        while i < self.skiplist.len()
            invariant
                i <= self.skiplist@.len(),
                forall|j: int| 0 <= j < i ==> self.skiplist@[j] != a,
            decreases self.skiplist@.len() - i,
        {
            if self.skiplist[i] == a {
                return true;
            }
            i = i + 1;
        }
        false
    }

    /// The stored configuration record of a variant, or
    /// `MissingConfiguration` when the store holds none.
    pub fn resolve(&self, a: Algorithm) -> (r: Result<VariantConfig, Error>)
        ensures
            resolve_post(*self, a, r),
    {
        match a {
            Algorithm::LogisticRegression => match &self.logistic_settings {
                Some(p) => Ok(VariantConfig::LogisticRegression(*p)),
                None => Err(Error::MissingConfiguration(a)),
            },
            Algorithm::RandomForestClassifier => match &self.random_forest_classifier_settings {
                Some(p) => Ok(VariantConfig::RandomForestClassifier(*p)),
                None => Err(Error::MissingConfiguration(a)),
            },
            Algorithm::KNNClassifier => match &self.knn_classifier_settings {
                Some(p) => Ok(VariantConfig::KNNClassifier(*p)),
                None => Err(Error::MissingConfiguration(a)),
            },
            Algorithm::DecisionTreeClassifier => match &self.decision_tree_classifier_settings {
                Some(p) => Ok(VariantConfig::DecisionTreeClassifier(*p)),
                None => Err(Error::MissingConfiguration(a)),
            },
            Algorithm::GaussianNaiveBayes => match &self.gaussian_nb_settings {
                Some(p) => Ok(VariantConfig::GaussianNaiveBayes(p.clone())),
                None => Err(Error::MissingConfiguration(a)),
            },
            Algorithm::CategoricalNaiveBayes => match &self.categorical_nb_settings {
                Some(p) => Ok(VariantConfig::CategoricalNaiveBayes(*p)),
                None => Err(Error::MissingConfiguration(a)),
            },
            Algorithm::SVC => match &self.svc_settings {
                Some(p) => Ok(VariantConfig::SVC(*p)),
                None => Err(Error::MissingConfiguration(a)),
            },
            Algorithm::Linear => match &self.linear_settings {
                Some(p) => Ok(VariantConfig::Linear(*p)),
                None => Err(Error::MissingConfiguration(a)),
            },
            Algorithm::SVR => match &self.svr_settings {
                Some(p) => Ok(VariantConfig::SVR(*p)),
                None => Err(Error::MissingConfiguration(a)),
            },
            Algorithm::Lasso => match &self.lasso_settings {
                Some(p) => Ok(VariantConfig::Lasso(*p)),
                None => Err(Error::MissingConfiguration(a)),
            },
            Algorithm::Ridge => match &self.ridge_settings {
                Some(p) => Ok(VariantConfig::Ridge(*p)),
                None => Err(Error::MissingConfiguration(a)),
            },
            Algorithm::ElasticNet => match &self.elastic_net_settings {
                Some(p) => Ok(VariantConfig::ElasticNet(*p)),
                None => Err(Error::MissingConfiguration(a)),
            },
            Algorithm::DecisionTreeRegressor => match &self.decision_tree_regressor_settings {
                Some(p) => Ok(VariantConfig::DecisionTreeRegressor(*p)),
                None => Err(Error::MissingConfiguration(a)),
            },
            Algorithm::RandomForestRegressor => match &self.random_forest_regressor_settings {
                Some(p) => Ok(VariantConfig::RandomForestRegressor(*p)),
                None => Err(Error::MissingConfiguration(a)),
            },
            Algorithm::KNNRegressor => match &self.knn_regressor_settings {
                Some(p) => Ok(VariantConfig::KNNRegressor(*p)),
                None => Err(Error::MissingConfiguration(a)),
            },
        }
    }
}

/// The skip list of the blank profile: every catalog entry.
pub open spec fn spec_default_skiplist() -> Seq<Algorithm> {
    seq![
        Algorithm::LogisticRegression,
        Algorithm::RandomForestClassifier,
        Algorithm::KNNClassifier,
        Algorithm::SVC,
        Algorithm::DecisionTreeClassifier,
        Algorithm::CategoricalNaiveBayes,
        Algorithm::GaussianNaiveBayes,
        Algorithm::Linear,
        Algorithm::Lasso,
        Algorithm::Ridge,
        Algorithm::ElasticNet,
        Algorithm::SVR,
        Algorithm::DecisionTreeRegressor,
        Algorithm::RandomForestRegressor,
        Algorithm::KNNRegressor,
    ]
}

/// The skip list of the regression profile: the classification
/// variants.
pub open spec fn spec_regression_skiplist() -> Seq<Algorithm> {
    seq![
        Algorithm::LogisticRegression,
        Algorithm::RandomForestClassifier,
        Algorithm::KNNClassifier,
        Algorithm::SVC,
        Algorithm::DecisionTreeClassifier,
        Algorithm::CategoricalNaiveBayes,
        Algorithm::GaussianNaiveBayes,
    ]
}

/// The skip list of the classification profile: the regression
/// variants.
pub open spec fn spec_classification_skiplist() -> Seq<Algorithm> {
    seq![
        Algorithm::Linear,
        Algorithm::Lasso,
        Algorithm::Ridge,
        Algorithm::ElasticNet,
        Algorithm::SVR,
        Algorithm::DecisionTreeRegressor,
        Algorithm::RandomForestRegressor,
        Algorithm::KNNRegressor,
    ]
}

impl Default for Settings {
    /// The blank profile: no task kind declared, every variant
    /// skip-listed, no configuration stored.
    fn default() -> (r: Self)
        ensures
            r.sort_by == Metric::RSquared,
            r.task_kind == Option::<TaskKind>::None,
            r.skiplist@ == spec_default_skiplist(),
            r.number_of_folds == 10,
            r.shuffle == false,
            r.shuffle_seed == DEFAULT_SHUFFLE_SEED,
            r.verbose == false,
            forall|a: Algorithm| spec_resolve(r, a) is None,
    {
        let skiplist: Vec<Algorithm> = vec![
            Algorithm::LogisticRegression,
            Algorithm::RandomForestClassifier,
            Algorithm::KNNClassifier,
            Algorithm::SVC,
            Algorithm::DecisionTreeClassifier,
            Algorithm::CategoricalNaiveBayes,
            Algorithm::GaussianNaiveBayes,
            Algorithm::Linear,
            Algorithm::Lasso,
            Algorithm::Ridge,
            Algorithm::ElasticNet,
            Algorithm::SVR,
            Algorithm::DecisionTreeRegressor,
            Algorithm::RandomForestRegressor,
            Algorithm::KNNRegressor,
        ];
        proof {
            assert(skiplist@ =~= spec_default_skiplist());
        }
        Settings {
            sort_by: Metric::RSquared,
            task_kind: None,
            skiplist,
            number_of_folds: 10,
            shuffle: false,
            shuffle_seed: DEFAULT_SHUFFLE_SEED,
            verbose: false,
            linear_settings: None,
            svr_settings: None,
            lasso_settings: None,
            ridge_settings: None,
            elastic_net_settings: None,
            decision_tree_regressor_settings: None,
            random_forest_regressor_settings: None,
            knn_regressor_settings: None,
            logistic_settings: None,
            random_forest_classifier_settings: None,
            knn_classifier_settings: None,
            svc_settings: None,
            decision_tree_classifier_settings: None,
            gaussian_nb_settings: None,
            categorical_nb_settings: None,
        }
    }
}

impl Settings {
    /// The regression profile: regression variants enabled with their
    /// default records, classification variants skip-listed with no
    /// record, ranked by the coefficient of determination.
    pub fn default_regression() -> (r: Self)
        ensures
            r.sort_by == Metric::RSquared,
            r.task_kind == Some(TaskKind::Regression),
            r.skiplist@ == spec_regression_skiplist(),
            r.number_of_folds == 10,
            r.shuffle == false,
            r.shuffle_seed == DEFAULT_SHUFFLE_SEED,
            r.verbose == false,
            r.linear_settings == Some(spec_default_linear()),
            r.svr_settings == Some(spec_default_svr()),
            r.lasso_settings == Some(spec_default_lasso()),
            r.ridge_settings == Some(spec_default_ridge()),
            r.elastic_net_settings == Some(spec_default_elastic_net()),
            r.decision_tree_regressor_settings == Some(spec_default_decision_tree_regressor()),
            r.random_forest_regressor_settings == Some(spec_default_random_forest_regressor()),
            r.knn_regressor_settings == Some(spec_default_knn_regressor()),
            r.logistic_settings == Option::<LogisticRegressionParameters>::None,
            r.random_forest_classifier_settings == Option::<RandomForestClassifierParameters>::None,
            r.knn_classifier_settings == Option::<KNNClassifierParameters>::None,
            r.svc_settings == Option::<SVCParameters>::None,
            r.decision_tree_classifier_settings == Option::<DecisionTreeClassifierParameters>::None,
            spec_priors_view_opt(r.gaussian_nb_settings) is None,
            r.categorical_nb_settings == Option::<CategoricalNBParameters>::None,
    {
        let skiplist: Vec<Algorithm> = vec![
            Algorithm::LogisticRegression,
            Algorithm::RandomForestClassifier,
            Algorithm::KNNClassifier,
            Algorithm::SVC,
            Algorithm::DecisionTreeClassifier,
            Algorithm::CategoricalNaiveBayes,
            Algorithm::GaussianNaiveBayes,
        ];
        proof {
            assert(skiplist@ =~= spec_regression_skiplist());
        }
        Settings {
            sort_by: Metric::RSquared,
            task_kind: Some(TaskKind::Regression),
            skiplist,
            number_of_folds: 10,
            shuffle: false,
            shuffle_seed: DEFAULT_SHUFFLE_SEED,
            verbose: false,
            linear_settings: Some(LinearRegressionParameters::default()),
            svr_settings: Some(SVRParameters::default()),
            lasso_settings: Some(LassoParameters::default()),
            ridge_settings: Some(RidgeRegressionParameters::default()),
            elastic_net_settings: Some(ElasticNetParameters::default()),
            decision_tree_regressor_settings: Some(DecisionTreeRegressorParameters::default()),
            random_forest_regressor_settings: Some(RandomForestRegressorParameters::default()),
            knn_regressor_settings: Some(KNNRegressorParameters::default()),
            logistic_settings: None,
            random_forest_classifier_settings: None,
            knn_classifier_settings: None,
            svc_settings: None,
            decision_tree_classifier_settings: None,
            gaussian_nb_settings: None,
            categorical_nb_settings: None,
        }
    }

    /// The classification profile: classification variants enabled with
    /// their default records, regression variants skip-listed with no
    /// record, ranked by accuracy.
    pub fn default_classification() -> (r: Self)
        ensures
            r.sort_by == Metric::Accuracy,
            r.task_kind == Some(TaskKind::Classification),
            r.skiplist@ == spec_classification_skiplist(),
            r.number_of_folds == 10,
            r.shuffle == false,
            r.shuffle_seed == DEFAULT_SHUFFLE_SEED,
            r.verbose == false,
            r.linear_settings == Option::<LinearRegressionParameters>::None,
            r.svr_settings == Option::<SVRParameters>::None,
            r.lasso_settings == Option::<LassoParameters>::None,
            r.ridge_settings == Option::<RidgeRegressionParameters>::None,
            r.elastic_net_settings == Option::<ElasticNetParameters>::None,
            r.decision_tree_regressor_settings == Option::<DecisionTreeRegressorParameters>::None,
            r.random_forest_regressor_settings == Option::<RandomForestRegressorParameters>::None,
            r.knn_regressor_settings == Option::<KNNRegressorParameters>::None,
            r.logistic_settings == Some(spec_default_logistic()),
            r.random_forest_classifier_settings == Some(spec_default_random_forest_classifier()),
            r.knn_classifier_settings == Some(spec_default_knn_classifier()),
            r.svc_settings == Some(spec_default_svc()),
            r.decision_tree_classifier_settings == Some(spec_default_decision_tree_classifier()),
            spec_priors_view_opt(r.gaussian_nb_settings) == Some(spec_priors_view(
                spec_default_gaussian_nb(),
            )),
            r.categorical_nb_settings == Some(spec_default_categorical_nb()),
    {
        let skiplist: Vec<Algorithm> = vec![
            Algorithm::Linear,
            Algorithm::Lasso,
            Algorithm::Ridge,
            Algorithm::ElasticNet,
            Algorithm::SVR,
            Algorithm::DecisionTreeRegressor,
            Algorithm::RandomForestRegressor,
            Algorithm::KNNRegressor,
        ];
        proof {
            assert(skiplist@ =~= spec_classification_skiplist());
        }
        Settings {
            sort_by: Metric::Accuracy,
            task_kind: Some(TaskKind::Classification),
            skiplist,
            number_of_folds: 10,
            shuffle: false,
            shuffle_seed: DEFAULT_SHUFFLE_SEED,
            verbose: false,
            linear_settings: None,
            svr_settings: None,
            lasso_settings: None,
            ridge_settings: None,
            elastic_net_settings: None,
            decision_tree_regressor_settings: None,
            random_forest_regressor_settings: None,
            knn_regressor_settings: None,
            logistic_settings: Some(LogisticRegressionParameters::default()),
            random_forest_classifier_settings: Some(RandomForestClassifierParameters::default()),
            knn_classifier_settings: Some(KNNClassifierParameters::default()),
            svc_settings: Some(SVCParameters::default()),
            decision_tree_classifier_settings: Some(DecisionTreeClassifierParameters::default()),
            gaussian_nb_settings: Some(GaussianNBParameters::default()),
            categorical_nb_settings: Some(CategoricalNBParameters::default()),
        }
    }

    /// Specify the fold count of cross-validation.
    pub fn with_number_of_folds(self, n: usize) -> (r: Self)
        ensures
            r == (Settings { number_of_folds: n, ..self }),
    {
        Settings { number_of_folds: n, ..self }
    }

    /// Specify whether the rows are shuffled before fold partitioning.
    pub fn shuffle_data(self, shuffle: bool) -> (r: Self)
        ensures
            r == (Settings { shuffle, ..self }),
    {
        Settings { shuffle, ..self }
    }

    /// Specify the seed of the fold shuffler.
    pub fn with_shuffle_seed(self, seed: u64) -> (r: Self)
        ensures
            r == (Settings { shuffle_seed: seed, ..self }),
    {
        Settings { shuffle_seed: seed, ..self }
    }

    /// Specify whether progress is reported.
    pub fn verbose(self, verbose: bool) -> (r: Self)
        ensures
            r == (Settings { verbose, ..self }),
    {
        Settings { verbose, ..self }
    }

    /// Exclude a variant from comparison.
    pub fn skip(self, a: Algorithm) -> (r: Self)
        ensures
            r.skiplist@ == self.skiplist@.push(a),
            r == (Settings { skiplist: r.skiplist, ..self }),
    {
        let mut s = self;
        s.skiplist.push(a);
        s
    }

    /// Specify the ranking metric.
    pub fn sorted_by(self, sort_by: Metric) -> (r: Self)
        ensures
            r == (Settings { sort_by, ..self }),
    {
        Settings { sort_by, ..self }
    }

    /// Declare the task kind explicitly.
    pub fn with_task_kind(self, task: TaskKind) -> (r: Self)
        ensures
            r == (Settings { task_kind: Some(task), ..self }),
    {
        Settings { task_kind: Some(task), ..self }
    }

    /// Store a random forest classifier record.
    pub fn with_random_forest_classifier_settings(
        self,
        settings: RandomForestClassifierParameters,
    ) -> (r: Self)
        ensures
            r == (Settings { random_forest_classifier_settings: Some(settings), ..self }),
    {
        Settings { random_forest_classifier_settings: Some(settings), ..self }
    }

    /// Store a logistic regression record.
    pub fn with_logistic_settings(self, settings: LogisticRegressionParameters) -> (r: Self)
        ensures
            r == (Settings { logistic_settings: Some(settings), ..self }),
    {
        Settings { logistic_settings: Some(settings), ..self }
    }

    /// Store a support vector classifier record.
    pub fn with_svc_settings(self, settings: SVCParameters) -> (r: Self)
        ensures
            r == (Settings { svc_settings: Some(settings), ..self }),
    {
        Settings { svc_settings: Some(settings), ..self }
    }

    /// Store a decision tree classifier record.
    pub fn with_decision_tree_classifier_settings(
        self,
        settings: DecisionTreeClassifierParameters,
    ) -> (r: Self)
        ensures
            r == (Settings { decision_tree_classifier_settings: Some(settings), ..self }),
    {
        Settings { decision_tree_classifier_settings: Some(settings), ..self }
    }

    /// Store a nearest-neighbour classifier record.
    pub fn with_knn_classifier_settings(self, settings: KNNClassifierParameters) -> (r: Self)
        ensures
            r == (Settings { knn_classifier_settings: Some(settings), ..self }),
    {
        Settings { knn_classifier_settings: Some(settings), ..self }
    }

    /// Store a Gaussian naive Bayes record.
    pub fn with_gaussian_nb_settings(self, settings: GaussianNBParameters) -> (r: Self)
        ensures
            spec_priors_view_opt(r.gaussian_nb_settings) == Some(spec_priors_view(settings)),
            r == (Settings { gaussian_nb_settings: r.gaussian_nb_settings, ..self }),
    {
        Settings { gaussian_nb_settings: Some(settings), ..self }
    }

    /// Store a categorical naive Bayes record.
    pub fn with_categorical_nb_settings(self, settings: CategoricalNBParameters) -> (r: Self)
        ensures
            r == (Settings { categorical_nb_settings: Some(settings), ..self }),
    {
        Settings { categorical_nb_settings: Some(settings), ..self }
    }

    /// Store a linear regression record.
    pub fn with_linear_settings(self, settings: LinearRegressionParameters) -> (r: Self)
        ensures
            r == (Settings { linear_settings: Some(settings), ..self }),
    {
        Settings { linear_settings: Some(settings), ..self }
    }

    /// Store a lasso regression record.
    pub fn with_lasso_settings(self, settings: LassoParameters) -> (r: Self)
        ensures
            r == (Settings { lasso_settings: Some(settings), ..self }),
    {
        Settings { lasso_settings: Some(settings), ..self }
    }

    /// Store a ridge regression record.
    pub fn with_ridge_settings(self, settings: RidgeRegressionParameters) -> (r: Self)
        ensures
            r == (Settings { ridge_settings: Some(settings), ..self }),
    {
        Settings { ridge_settings: Some(settings), ..self }
    }

    /// Store an elastic-net record.
    pub fn with_elastic_net_settings(self, settings: ElasticNetParameters) -> (r: Self)
        ensures
            r == (Settings { elastic_net_settings: Some(settings), ..self }),
    {
        Settings { elastic_net_settings: Some(settings), ..self }
    }

    /// Store a nearest-neighbour regressor record.
    pub fn with_knn_regressor_settings(self, settings: KNNRegressorParameters) -> (r: Self)
        ensures
            r == (Settings { knn_regressor_settings: Some(settings), ..self }),
    {
        Settings { knn_regressor_settings: Some(settings), ..self }
    }

    /// Store a support vector regressor record.
    pub fn with_svr_settings(self, settings: SVRParameters) -> (r: Self)
        ensures
            r == (Settings { svr_settings: Some(settings), ..self }),
    {
        Settings { svr_settings: Some(settings), ..self }
    }

    /// Store a random forest regressor record.
    pub fn with_random_forest_regressor_settings(
        self,
        settings: RandomForestRegressorParameters,
    ) -> (r: Self)
        ensures
            r == (Settings { random_forest_regressor_settings: Some(settings), ..self }),
    {
        Settings { random_forest_regressor_settings: Some(settings), ..self }
    }

    /// Store a decision tree regressor record.
    pub fn with_decision_tree_regressor_settings(
        self,
        settings: DecisionTreeRegressorParameters,
    ) -> (r: Self)
        ensures
            r == (Settings { decision_tree_regressor_settings: Some(settings), ..self }),
    {
        Settings { decision_tree_regressor_settings: Some(settings), ..self }
    }
}

/// The prior list of an optional Gaussian record, as a value.
pub open spec fn spec_priors_view_opt(p: Option<GaussianNBParameters>) -> Option<
    Option<Seq<RealParam>>,
> {
    match p {
        Some(q) => Some(spec_priors_view(q)),
        None => None,
    }
}


impl LinearRegressionParameters {
    /// Choose the solver.
    pub fn with_solver(self, solver: LinearRegressionSolverName) -> (r: Self)
        ensures
            r == (LinearRegressionParameters { solver }),
    {
        LinearRegressionParameters { solver }
    }
}

impl LogisticRegressionParameters {
    /// Choose the regularization strength.
    pub fn with_alpha(self, alpha: RealParam) -> (r: Self)
        ensures
            r == (LogisticRegressionParameters { alpha }),
    {
        LogisticRegressionParameters { alpha }
    }
}

impl LassoParameters {
    /// Choose the penalty strength.
    pub fn with_alpha(self, alpha: RealParam) -> (r: Self)
        ensures
            r == (LassoParameters { alpha, ..self }),
    {
        LassoParameters { alpha, ..self }
    }

    /// Choose the optimization tolerance.
    pub fn with_tol(self, tol: RealParam) -> (r: Self)
        ensures
            r == (LassoParameters { tol, ..self }),
    {
        LassoParameters { tol, ..self }
    }

    /// Choose whether the regressors are normalized first.
    pub fn with_normalize(self, normalize: bool) -> (r: Self)
        ensures
            r == (LassoParameters { normalize, ..self }),
    {
        LassoParameters { normalize, ..self }
    }

    /// Choose the iteration cap.
    pub fn with_max_iter(self, max_iter: usize) -> (r: Self)
        ensures
            r == (LassoParameters { max_iter, ..self }),
    {
        LassoParameters { max_iter, ..self }
    }
}

impl RidgeRegressionParameters {
    /// Choose the penalty strength.
    pub fn with_alpha(self, alpha: RealParam) -> (r: Self)
        ensures
            r == (RidgeRegressionParameters { alpha, ..self }),
    {
        RidgeRegressionParameters { alpha, ..self }
    }

    /// Choose whether the regressors are normalized first.
    pub fn with_normalize(self, normalize: bool) -> (r: Self)
        ensures
            r == (RidgeRegressionParameters { normalize, ..self }),
    {
        RidgeRegressionParameters { normalize, ..self }
    }

    /// Choose the solver.
    pub fn with_solver(self, solver: RidgeRegressionSolverName) -> (r: Self)
        ensures
            r == (RidgeRegressionParameters { solver, ..self }),
    {
        RidgeRegressionParameters { solver, ..self }
    }
}

impl ElasticNetParameters {
    /// Choose the penalty strength.
    pub fn with_alpha(self, alpha: RealParam) -> (r: Self)
        ensures
            r == (ElasticNetParameters { alpha, ..self }),
    {
        ElasticNetParameters { alpha, ..self }
    }

    /// Choose the mix between the two penalties.
    pub fn with_l1_ratio(self, l1_ratio: RealParam) -> (r: Self)
        ensures
            r == (ElasticNetParameters { l1_ratio, ..self }),
    {
        ElasticNetParameters { l1_ratio, ..self }
    }

    /// Choose whether the regressors are normalized first.
    pub fn with_normalize(self, normalize: bool) -> (r: Self)
        ensures
            r == (ElasticNetParameters { normalize, ..self }),
    {
        ElasticNetParameters { normalize, ..self }
    }

    /// Choose the optimization tolerance.
    pub fn with_tol(self, tol: RealParam) -> (r: Self)
        ensures
            r == (ElasticNetParameters { tol, ..self }),
    {
        ElasticNetParameters { tol, ..self }
    }

    /// Choose the iteration cap.
    pub fn with_max_iter(self, max_iter: usize) -> (r: Self)
        ensures
            r == (ElasticNetParameters { max_iter, ..self }),
    {
        ElasticNetParameters { max_iter, ..self }
    }
}

impl SVRParameters {
    /// Choose the epsilon of the insensitive band.
    pub fn with_eps(self, eps: RealParam) -> (r: Self)
        ensures
            r == (SVRParameters { eps, ..self }),
    {
        SVRParameters { eps, ..self }
    }

    /// Choose the penalty parameter.
    pub fn with_c(self, c: RealParam) -> (r: Self)
        ensures
            r == (SVRParameters { c, ..self }),
    {
        SVRParameters { c, ..self }
    }

    /// Choose the tolerance.
    pub fn with_tol(self, tol: RealParam) -> (r: Self)
        ensures
            r == (SVRParameters { tol, ..self }),
    {
        SVRParameters { tol, ..self }
    }

    /// Choose the kernel.
    pub fn with_kernel(self, kernel: Kernel) -> (r: Self)
        ensures
            r == (SVRParameters { kernel, ..self }),
    {
        SVRParameters { kernel, ..self }
    }
}

impl SVCParameters {
    /// Choose the number of epochs.
    pub fn with_epoch(self, epoch: usize) -> (r: Self)
        ensures
            r == (SVCParameters { epoch, ..self }),
    {
        SVCParameters { epoch, ..self }
    }

    /// Choose the penalty parameter.
    pub fn with_c(self, c: RealParam) -> (r: Self)
        ensures
            r == (SVCParameters { c, ..self }),
    {
        SVCParameters { c, ..self }
    }

    /// Choose the tolerance.
    pub fn with_tol(self, tol: RealParam) -> (r: Self)
        ensures
            r == (SVCParameters { tol, ..self }),
    {
        SVCParameters { tol, ..self }
    }

    /// Choose the kernel.
    pub fn with_kernel(self, kernel: Kernel) -> (r: Self)
        ensures
            r == (SVCParameters { kernel, ..self }),
    {
        SVCParameters { kernel, ..self }
    }
}

impl DecisionTreeRegressorParameters {
    /// Cap the tree depth.
    pub fn with_max_depth(self, max_depth: u16) -> (r: Self)
        ensures
            r == (DecisionTreeRegressorParameters { max_depth: Some(max_depth), ..self }),
    {
        DecisionTreeRegressorParameters { max_depth: Some(max_depth), ..self }
    }

    /// Choose the minimum samples in a leaf.
    pub fn with_min_samples_leaf(self, min_samples_leaf: usize) -> (r: Self)
        ensures
            r == (DecisionTreeRegressorParameters { min_samples_leaf, ..self }),
    {
        DecisionTreeRegressorParameters { min_samples_leaf, ..self }
    }

    /// Choose the minimum samples for a split.
    pub fn with_min_samples_split(self, min_samples_split: usize) -> (r: Self)
        ensures
            r == (DecisionTreeRegressorParameters { min_samples_split, ..self }),
    {
        DecisionTreeRegressorParameters { min_samples_split, ..self }
    }
}

impl DecisionTreeClassifierParameters {
    /// Choose the split criterion.
    pub fn with_criterion(self, criterion: SplitCriterion) -> (r: Self)
        ensures
            r == (DecisionTreeClassifierParameters { criterion, ..self }),
    {
        DecisionTreeClassifierParameters { criterion, ..self }
    }

    /// Cap the tree depth.
    pub fn with_max_depth(self, max_depth: u16) -> (r: Self)
        ensures
            r == (DecisionTreeClassifierParameters { max_depth: Some(max_depth), ..self }),
    {
        DecisionTreeClassifierParameters { max_depth: Some(max_depth), ..self }
    }

    /// Choose the minimum samples in a leaf.
    pub fn with_min_samples_leaf(self, min_samples_leaf: usize) -> (r: Self)
        ensures
            r == (DecisionTreeClassifierParameters { min_samples_leaf, ..self }),
    {
        DecisionTreeClassifierParameters { min_samples_leaf, ..self }
    }

    /// Choose the minimum samples for a split.
    pub fn with_min_samples_split(self, min_samples_split: usize) -> (r: Self)
        ensures
            r == (DecisionTreeClassifierParameters { min_samples_split, ..self }),
    {
        DecisionTreeClassifierParameters { min_samples_split, ..self }
    }
}

impl RandomForestRegressorParameters {
    /// Cap the tree depth.
    pub fn with_max_depth(self, max_depth: u16) -> (r: Self)
        ensures
            r == (RandomForestRegressorParameters { max_depth: Some(max_depth), ..self }),
    {
        RandomForestRegressorParameters { max_depth: Some(max_depth), ..self }
    }

    /// Choose the minimum samples in a leaf.
    pub fn with_min_samples_leaf(self, min_samples_leaf: usize) -> (r: Self)
        ensures
            r == (RandomForestRegressorParameters { min_samples_leaf, ..self }),
    {
        RandomForestRegressorParameters { min_samples_leaf, ..self }
    }

    /// Choose the minimum samples for a split.
    pub fn with_min_samples_split(self, min_samples_split: usize) -> (r: Self)
        ensures
            r == (RandomForestRegressorParameters { min_samples_split, ..self }),
    {
        RandomForestRegressorParameters { min_samples_split, ..self }
    }

    /// Choose the number of trees.
    pub fn with_n_trees(self, n_trees: usize) -> (r: Self)
        ensures
            r == (RandomForestRegressorParameters { n_trees, ..self }),
    {
        RandomForestRegressorParameters { n_trees, ..self }
    }

    /// Choose how many features each split draws.
    pub fn with_m(self, m: usize) -> (r: Self)
        ensures
            r == (RandomForestRegressorParameters { m: Some(m), ..self }),
    {
        RandomForestRegressorParameters { m: Some(m), ..self }
    }
}

impl RandomForestClassifierParameters {
    /// Choose the split criterion.
    pub fn with_criterion(self, criterion: SplitCriterion) -> (r: Self)
        ensures
            r == (RandomForestClassifierParameters { criterion, ..self }),
    {
        RandomForestClassifierParameters { criterion, ..self }
    }

    /// Cap the tree depth.
    pub fn with_max_depth(self, max_depth: u16) -> (r: Self)
        ensures
            r == (RandomForestClassifierParameters { max_depth: Some(max_depth), ..self }),
    {
        RandomForestClassifierParameters { max_depth: Some(max_depth), ..self }
    }

    /// Choose the minimum samples in a leaf.
    pub fn with_min_samples_leaf(self, min_samples_leaf: usize) -> (r: Self)
        ensures
            r == (RandomForestClassifierParameters { min_samples_leaf, ..self }),
    {
        RandomForestClassifierParameters { min_samples_leaf, ..self }
    }

    /// Choose the minimum samples for a split.
    pub fn with_min_samples_split(self, min_samples_split: usize) -> (r: Self)
        ensures
            r == (RandomForestClassifierParameters { min_samples_split, ..self }),
    {
        RandomForestClassifierParameters { min_samples_split, ..self }
    }

    /// Choose the number of trees.
    pub fn with_n_trees(self, n_trees: u16) -> (r: Self)
        ensures
            r == (RandomForestClassifierParameters { n_trees, ..self }),
    {
        RandomForestClassifierParameters { n_trees, ..self }
    }

    /// Choose how many features each split draws.
    pub fn with_m(self, m: usize) -> (r: Self)
        ensures
            r == (RandomForestClassifierParameters { m: Some(m), ..self }),
    {
        RandomForestClassifierParameters { m: Some(m), ..self }
    }
}

impl KNNClassifierParameters {
    /// Choose the neighbour count.
    pub fn with_k(self, k: usize) -> (r: Self)
        ensures
            r == (KNNClassifierParameters { k, ..self }),
    {
        KNNClassifierParameters { k, ..self }
    }

    /// Choose the vote weighting.
    pub fn with_weight(self, weight: KNNWeightFunction) -> (r: Self)
        ensures
            r == (KNNClassifierParameters { weight, ..self }),
    {
        KNNClassifierParameters { weight, ..self }
    }

    /// Choose the search structure.
    pub fn with_algorithm(self, algorithm: KNNAlgorithmName) -> (r: Self)
        ensures
            r == (KNNClassifierParameters { algorithm, ..self }),
    {
        KNNClassifierParameters { algorithm, ..self }
    }

    /// Choose the distance function.
    pub fn with_distance(self, distance: Distance) -> (r: Self)
        ensures
            r == (KNNClassifierParameters { distance, ..self }),
    {
        KNNClassifierParameters { distance, ..self }
    }
}

impl KNNRegressorParameters {
    /// Choose the neighbour count.
    pub fn with_k(self, k: usize) -> (r: Self)
        ensures
            r == (KNNRegressorParameters { k, ..self }),
    {
        KNNRegressorParameters { k, ..self }
    }

    /// Choose the vote weighting.
    pub fn with_weight(self, weight: KNNWeightFunction) -> (r: Self)
        ensures
            r == (KNNRegressorParameters { weight, ..self }),
    {
        KNNRegressorParameters { weight, ..self }
    }

    /// Choose the search structure.
    pub fn with_algorithm(self, algorithm: KNNAlgorithmName) -> (r: Self)
        ensures
            r == (KNNRegressorParameters { algorithm, ..self }),
    {
        KNNRegressorParameters { algorithm, ..self }
    }

    /// Choose the distance function.
    pub fn with_distance(self, distance: Distance) -> (r: Self)
        ensures
            r == (KNNRegressorParameters { distance, ..self }),
    {
        KNNRegressorParameters { distance, ..self }
    }
}

impl GaussianNBParameters {
    /// Fix the prior class probabilities.
    pub fn with_priors(self, priors: Vec<RealParam>) -> (r: Self)
        ensures
            r == (GaussianNBParameters { priors: Some(priors) }),
    {
        GaussianNBParameters { priors: Some(priors) }
    }
}

impl CategoricalNBParameters {
    /// Choose the smoothing parameter.
    pub fn with_alpha(self, alpha: RealParam) -> (r: Self)
        ensures
            r == (CategoricalNBParameters { alpha }),
    {
        CategoricalNBParameters { alpha }
    }
}

} // verus!
