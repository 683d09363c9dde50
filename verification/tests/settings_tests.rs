use automl::catalog::{Algorithm, TaskKind};
use automl::settings::{
    metric_compatible, CategoricalNBParameters, Distance, ElasticNetParameters, GaussianNBParameters, KNNAlgorithmName,
    KNNClassifierParameters, KNNWeightFunction, Kernel, LassoParameters,
    LinearRegressionParameters, LinearRegressionSolverName, Metric, RealParam,
    RidgeRegressionParameters, RidgeRegressionSolverName, SVCParameters, Settings,
};

fn rp(x: f32) -> RealParam {
    RealParam::from_bits(x.to_bits())
}

#[test]
fn real_valued_defaults_carry_exact_bit_patterns() {
    assert_eq!(LassoParameters::default().alpha, rp(1.0));
    assert_eq!(LassoParameters::default().tol, rp(1e-4));
    assert_eq!(LassoParameters::default().max_iter, 1000);
    assert!(LassoParameters::default().normalize);
    assert_eq!(ElasticNetParameters::default().l1_ratio, rp(0.5));
    assert_eq!(SVCParameters::default().tol, rp(1e-3));
    assert_eq!(SVCParameters::default().c, rp(1.0));
    assert_eq!(SVCParameters::default().epoch, 2);
    assert_eq!(automl::settings::SVRParameters::default().eps, rp(0.1));
    assert_eq!(CategoricalNBParameters::default().alpha, rp(1.0));
    assert_eq!(automl::settings::LogisticRegressionParameters::default().alpha, rp(0.0));
    assert_eq!(GaussianNBParameters::default().priors, None);
    assert_eq!(
        LinearRegressionParameters::default().solver,
        LinearRegressionSolverName::SVD
    );
    assert_eq!(
        RidgeRegressionParameters::default().solver,
        RidgeRegressionSolverName::Cholesky
    );
    let knn = KNNClassifierParameters::default();
    assert_eq!(knn.k, 3);
    assert_eq!(knn.weight, KNNWeightFunction::Uniform);
    assert_eq!(knn.algorithm, KNNAlgorithmName::CoverTree);
    assert_eq!(knn.distance, Distance::Euclidean);
}

#[test]
fn regression_profile_enables_exactly_the_regression_variants() {
    let s = Settings::default_regression();
    assert_eq!(s.sort_by, Metric::RSquared);
    assert_eq!(s.task_kind, Some(TaskKind::Regression));
    assert_eq!(s.number_of_folds, 10);
    assert!(!s.shuffle);
    assert!(s.linear_settings.is_some());
    assert!(s.svr_settings.is_some());
    assert!(s.lasso_settings.is_some());
    assert!(s.ridge_settings.is_some());
    assert!(s.elastic_net_settings.is_some());
    assert!(s.decision_tree_regressor_settings.is_some());
    assert!(s.random_forest_regressor_settings.is_some());
    assert!(s.knn_regressor_settings.is_some());
    assert!(s.logistic_settings.is_none());
    assert!(s.svc_settings.is_none());
    for a in [
        Algorithm::LogisticRegression,
        Algorithm::RandomForestClassifier,
        Algorithm::KNNClassifier,
        Algorithm::SVC,
        Algorithm::DecisionTreeClassifier,
        Algorithm::CategoricalNaiveBayes,
        Algorithm::GaussianNaiveBayes,
    ] {
        assert!(s.skiplist.contains(&a));
    }
    assert_eq!(s.skiplist.len(), 7);
}

#[test]
fn classification_profile_enables_exactly_the_classification_variants() {
    let s = Settings::default_classification();
    assert_eq!(s.sort_by, Metric::Accuracy);
    assert_eq!(s.task_kind, Some(TaskKind::Classification));
    assert!(s.logistic_settings.is_some());
    assert!(s.random_forest_classifier_settings.is_some());
    assert!(s.knn_classifier_settings.is_some());
    assert!(s.svc_settings.is_some());
    assert!(s.decision_tree_classifier_settings.is_some());
    assert!(s.gaussian_nb_settings.is_some());
    assert!(s.categorical_nb_settings.is_some());
    assert!(s.linear_settings.is_none());
    assert_eq!(s.skiplist.len(), 8);
}

#[test]
fn blank_profile_skips_everything_and_stores_nothing() {
    let s = Settings::default();
    assert_eq!(s.task_kind, None);
    assert_eq!(s.skiplist.len(), 15);
    assert!(s.linear_settings.is_none());
    assert!(s.gaussian_nb_settings.is_none());
}

#[test]
fn builders_replace_one_control_each() {
    let s = Settings::default()
        .with_number_of_folds(3)
        .shuffle_data(true)
        .with_shuffle_seed(99)
        .verbose(true)
        .sorted_by(Metric::MeanAbsoluteError)
        .skip(Algorithm::Linear);
    assert_eq!(s.number_of_folds, 3);
    assert!(s.shuffle);
    assert_eq!(s.shuffle_seed, 99);
    assert!(s.verbose);
    assert_eq!(s.sort_by, Metric::MeanAbsoluteError);
    assert_eq!(s.skiplist.len(), 16);
    assert_eq!(*s.skiplist.last().unwrap(), Algorithm::Linear);
}

#[test]
fn variant_setting_builders_store_the_record() {
    let svc = SVCParameters::default()
        .with_epoch(10)
        .with_tol(rp(1e-10))
        .with_c(rp(1.0))
        .with_kernel(Kernel::RBF(rp(0.5)));
    let s = Settings::default_classification().with_svc_settings(svc);
    assert_eq!(s.svc_settings.unwrap().kernel, Kernel::RBF(rp(0.5)));

    let knn = KNNClassifierParameters::default()
        .with_algorithm(KNNAlgorithmName::LinearSearch)
        .with_k(7)
        .with_distance(Distance::Minkowski(4))
        .with_weight(KNNWeightFunction::Distance);
    let s2 = Settings::default_classification().with_knn_classifier_settings(knn);
    let stored = s2.knn_classifier_settings.unwrap();
    assert_eq!(stored.k, 7);
    assert_eq!(stored.distance, Distance::Minkowski(4));

    let gnb = GaussianNBParameters::default().with_priors(vec![rp(0.5), rp(0.5)]);
    let s3 = Settings::default_classification().with_gaussian_nb_settings(gnb);
    assert_eq!(
        s3.gaussian_nb_settings.unwrap().priors,
        Some(vec![rp(0.5), rp(0.5)])
    );
}

#[test]
fn metric_compatibility_follows_the_task() {
    assert!(metric_compatible(Metric::Accuracy, TaskKind::Classification));
    assert!(!metric_compatible(Metric::Accuracy, TaskKind::Regression));
    assert!(metric_compatible(Metric::RSquared, TaskKind::Regression));
    assert!(metric_compatible(Metric::MeanSquaredError, TaskKind::Regression));
    assert!(metric_compatible(Metric::MeanAbsoluteError, TaskKind::Regression));
    assert!(!metric_compatible(Metric::RSquared, TaskKind::Classification));
}
