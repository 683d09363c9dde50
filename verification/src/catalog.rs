//! The closed catalog of model families.
//!
//! Each entry is one algorithm variant, annotated with the task kind it
//! serves and any structural constraint on the dataset (the support
//! vector classifier only handles binary targets). The catalog order is
//! the declaration order below; it is the tie-break order used by the
//! comparison ledger.

use vstd::prelude::*;

verus! {

/// Whether the target vector is continuous or categorical.
#[derive(Clone, Copy, Debug, PartialEq, Eq, Structural)]
pub enum TaskKind {
    Regression,
    Classification,
}

/// One model family of the closed catalog.
#[derive(Clone, Copy, Debug, PartialEq, Eq, Structural)]
pub enum Algorithm {
    LogisticRegression,
    RandomForestClassifier,
    KNNClassifier,
    DecisionTreeClassifier,
    GaussianNaiveBayes,
    CategoricalNaiveBayes,
    SVC,
    Linear,
    SVR,
    Lasso,
    Ridge,
    ElasticNet,
    DecisionTreeRegressor,
    RandomForestRegressor,
    KNNRegressor,
}

/// The catalog in declaration order.
pub open spec fn catalog_seq() -> Seq<Algorithm> {
    seq![
        Algorithm::LogisticRegression,
        Algorithm::RandomForestClassifier,
        Algorithm::KNNClassifier,
        Algorithm::DecisionTreeClassifier,
        Algorithm::GaussianNaiveBayes,
        Algorithm::CategoricalNaiveBayes,
        Algorithm::SVC,
        Algorithm::Linear,
        Algorithm::SVR,
        Algorithm::Lasso,
        Algorithm::Ridge,
        Algorithm::ElasticNet,
        Algorithm::DecisionTreeRegressor,
        Algorithm::RandomForestRegressor,
        Algorithm::KNNRegressor,
    ]
}

/// Position of an algorithm in the catalog declaration order.
pub open spec fn spec_catalog_index(a: Algorithm) -> int {
    match a {
        Algorithm::LogisticRegression => 0,
        Algorithm::RandomForestClassifier => 1,
        Algorithm::KNNClassifier => 2,
        Algorithm::DecisionTreeClassifier => 3,
        Algorithm::GaussianNaiveBayes => 4,
        Algorithm::CategoricalNaiveBayes => 5,
        Algorithm::SVC => 6,
        Algorithm::Linear => 7,
        Algorithm::SVR => 8,
        Algorithm::Lasso => 9,
        Algorithm::Ridge => 10,
        Algorithm::ElasticNet => 11,
        Algorithm::DecisionTreeRegressor => 12,
        Algorithm::RandomForestRegressor => 13,
        Algorithm::KNNRegressor => 14,
    }
}

/// The task kind an algorithm serves.
pub open spec fn spec_task_of(a: Algorithm) -> TaskKind {
    match a {
        Algorithm::LogisticRegression => TaskKind::Classification,
        Algorithm::RandomForestClassifier => TaskKind::Classification,
        Algorithm::KNNClassifier => TaskKind::Classification,
        Algorithm::DecisionTreeClassifier => TaskKind::Classification,
        Algorithm::GaussianNaiveBayes => TaskKind::Classification,
        Algorithm::CategoricalNaiveBayes => TaskKind::Classification,
        Algorithm::SVC => TaskKind::Classification,
        _ => TaskKind::Regression,
    }
}

/// Structural eligibility: the algorithm serves the task at hand, and
/// any hard constraint on the target holds. The support vector
/// classifier is a binary-only margin classifier: it is ineligible,
/// not merely skipped, when the target has more than two classes.
pub open spec fn spec_eligible(a: Algorithm, task: TaskKind, classes: usize) -> bool {
    &&& spec_task_of(a) == task
    &&& (a == Algorithm::SVC ==> classes == 2)
}

impl Algorithm {
    /// Position of this algorithm in the catalog declaration order.
    pub fn catalog_index(self) -> (r: usize)
        ensures
            r == spec_catalog_index(self),
    {
        match self {
            Algorithm::LogisticRegression => 0,
            Algorithm::RandomForestClassifier => 1,
            Algorithm::KNNClassifier => 2,
            Algorithm::DecisionTreeClassifier => 3,
            Algorithm::GaussianNaiveBayes => 4,
            Algorithm::CategoricalNaiveBayes => 5,
            Algorithm::SVC => 6,
            Algorithm::Linear => 7,
            Algorithm::SVR => 8,
            Algorithm::Lasso => 9,
            Algorithm::Ridge => 10,
            Algorithm::ElasticNet => 11,
            Algorithm::DecisionTreeRegressor => 12,
            Algorithm::RandomForestRegressor => 13,
            Algorithm::KNNRegressor => 14,
        }
    }

    /// The task kind this algorithm serves.
    pub fn task_of(self) -> (r: TaskKind)
        ensures
            r == spec_task_of(self),
    {
        match self {
            Algorithm::LogisticRegression
            | Algorithm::RandomForestClassifier
            | Algorithm::KNNClassifier
            | Algorithm::DecisionTreeClassifier
            | Algorithm::GaussianNaiveBayes
            | Algorithm::CategoricalNaiveBayes
            | Algorithm::SVC => TaskKind::Classification,
            _ => TaskKind::Regression,
        }
    }

    /// Structural eligibility of this algorithm for a task and a
    /// target-class count.
    pub fn eligible(self, task: TaskKind, classes: usize) -> (r: bool)
        ensures
            r == spec_eligible(self, task, classes),
    {
        self.task_of() == task && (!(self == Algorithm::SVC) || classes == 2)
    }
}

/// The catalog index determines the algorithm: no two entries share a
/// position.
pub proof fn lemma_catalog_index_injective(a: Algorithm, b: Algorithm)
    requires
        spec_catalog_index(a) == spec_catalog_index(b),
    ensures
        a == b,
{
}

/// The catalog in declaration order, as a vector.
pub fn catalog() -> (r: Vec<Algorithm>)
    ensures
        r@ == catalog_seq(),
{
    let r: Vec<Algorithm> = vec![
        Algorithm::LogisticRegression,
        Algorithm::RandomForestClassifier,
        Algorithm::KNNClassifier,
        Algorithm::DecisionTreeClassifier,
        Algorithm::GaussianNaiveBayes,
        Algorithm::CategoricalNaiveBayes,
        Algorithm::SVC,
        Algorithm::Linear,
        Algorithm::SVR,
        Algorithm::Lasso,
        Algorithm::Ridge,
        Algorithm::ElasticNet,
        Algorithm::DecisionTreeRegressor,
        Algorithm::RandomForestRegressor,
        Algorithm::KNNRegressor,
    ];
    assert(r@ =~= catalog_seq());
    r
}

/// The structurally eligible subset of the catalog, in declaration
/// order.
pub fn eligible_set(task: TaskKind, classes: usize) -> (r: Vec<Algorithm>)
    ensures
        r@ == catalog_seq().filter(|a: Algorithm| spec_eligible(a, task, classes)),
{
    let all = catalog();
    let mut r: Vec<Algorithm> = Vec::new();
    let mut i: usize = 0;
    while i < all.len()
        invariant
            all@ == catalog_seq(),
            i <= all@.len(),
            r@ == catalog_seq().subrange(0, i as int).filter(
                |a: Algorithm| spec_eligible(a, task, classes),
            ),
        decreases all@.len() - i,
    {
        let a = all[i];
        proof {
            let prefix = catalog_seq().subrange(0, i as int);
            let next = catalog_seq().subrange(0, i + 1 as int);
            assert(next.drop_last() =~= prefix);
            reveal_with_fuel(Seq::filter, 2);
        }
        if a.eligible(task, classes) {
            r.push(a);
        }
        i = i + 1;
    }
    proof {
        assert(catalog_seq().subrange(0, catalog_seq().len() as int) =~= catalog_seq());
    }
    r
}

} // verus!
