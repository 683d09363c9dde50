use automl::catalog::{eligible_set, Algorithm, TaskKind};
use automl::engine::{EvaluationOutcome, SupervisedModel};
use automl::error::Error;
use automl::final_model::ModelTag;
use automl::ledger::ComparisonEntry;
use automl::settings::{Metric, Settings};

/// A total-order key for a 32-bit float score: greater scores give
/// greater keys.
fn score_key(x: f32) -> u64 {
    let b = x.to_bits();
    let k = if b & 0x8000_0000 != 0 { !b } else { b | 0x8000_0000 };
    k as u64
}

fn outcome(train: f32, test: f32, ms: u64) -> EvaluationOutcome {
    EvaluationOutcome::Succeeded {
        mean_train_key: score_key(train),
        mean_test_key: score_key(test),
        duration_ms: ms,
    }
}

#[test]
fn binary_target_admits_the_margin_classifier() {
    let two = eligible_set(TaskKind::Classification, 2);
    assert!(two.contains(&Algorithm::SVC));
    assert_eq!(two.len(), 7);
}

#[test]
fn three_class_target_excludes_the_margin_classifier() {
    let three = eligible_set(TaskKind::Classification, 3);
    assert!(!three.contains(&Algorithm::SVC));
    assert_eq!(three.len(), 6);
}

#[test]
fn three_class_plan_excludes_svc_without_any_skip() {
    let settings = Settings::default_classification();
    assert!(!settings.skiplist.contains(&Algorithm::SVC));
    let engine = SupervisedModel::new(9, 2, 3, settings);
    let plan = engine.comparison_plan().unwrap();
    assert!(plan.iter().all(|t| t.algorithm != Algorithm::SVC));
    assert_eq!(plan.len(), 6);
}

#[test]
fn binary_plan_includes_svc() {
    let engine = SupervisedModel::new(8, 2, 2, Settings::default_classification());
    let plan = engine.comparison_plan().unwrap();
    let algs: Vec<Algorithm> = plan.iter().map(|t| t.algorithm).collect();
    assert!(algs.contains(&Algorithm::SVC));
    assert_eq!(algs.len(), 7);
}

#[test]
fn plan_follows_catalog_order() {
    let engine = SupervisedModel::new(8, 2, 2, Settings::default_regression());
    let plan = engine.comparison_plan().unwrap();
    let algs: Vec<Algorithm> = plan.iter().map(|t| t.algorithm).collect();
    assert_eq!(
        algs,
        vec![
            Algorithm::Linear,
            Algorithm::SVR,
            Algorithm::Lasso,
            Algorithm::Ridge,
            Algorithm::ElasticNet,
            Algorithm::DecisionTreeRegressor,
            Algorithm::RandomForestRegressor,
            Algorithm::KNNRegressor,
        ]
    );
}

#[test]
fn metric_task_mismatch_is_fatal_before_planning() {
    let settings = Settings::default_regression().sorted_by(Metric::Accuracy);
    let engine = SupervisedModel::new(8, 2, 4, settings);
    assert_eq!(engine.comparison_plan(), Err(Error::MetricTaskMismatch));
}

#[test]
fn resolve_names_the_unconfigured_variant() {
    let settings = Settings::default_regression();
    assert_eq!(
        settings.resolve(Algorithm::LogisticRegression),
        Err(Error::MissingConfiguration(Algorithm::LogisticRegression))
    );
    assert!(settings.resolve(Algorithm::Lasso).is_ok());
}

#[test]
fn plan_fails_fast_on_missing_configuration() {
    // A store that declares the task but holds no record for an
    // eligible, unskipped variant fails before any training, naming the
    // first such variant in catalog order.
    let mut settings = Settings::default_classification();
    settings.skiplist = Vec::new();
    settings.logistic_settings = None;
    let engine = SupervisedModel::new(8, 2, 2, settings);
    assert_eq!(
        engine.comparison_plan(),
        Err(Error::MissingConfiguration(Algorithm::LogisticRegression))
    );
}

#[test]
fn undeclared_task_kind_plans_nothing() {
    let engine = SupervisedModel::new(8, 2, 2, Settings::default());
    assert_eq!(engine.comparison_plan().unwrap().len(), 0);
}

#[test]
fn skiplisting_everything_yields_empty_ledger() {
    let mut settings = Settings::default_classification();
    for a in automl::catalog::catalog() {
        settings = settings.skip(a);
    }
    let mut engine = SupervisedModel::new(8, 2, 2, settings);
    let plan = engine.comparison_plan().unwrap();
    assert_eq!(plan.len(), 0);
    for task in plan {
        engine.record_evaluation(task.algorithm, outcome(0.9, 0.8, 1));
    }
    assert_eq!(engine.best(), Err(Error::EmptyLedger));
    assert!(matches!(engine.commit_plan(), Err(Error::EmptyLedger)));
}

#[test]
fn one_failed_variant_leaves_the_rest_ranked() {
    // A numerical failure in one fit drops only that variant; the
    // ledger still carries every other result.
    let mut engine = SupervisedModel::new(8, 2, 2, Settings::default_classification());
    engine.record_evaluation(Algorithm::LogisticRegression, outcome(0.9, 0.8, 3));
    engine.record_evaluation(
        Algorithm::GaussianNaiveBayes,
        EvaluationOutcome::Failed { cause: String::from("singular matrix") },
    );
    engine.record_evaluation(Algorithm::DecisionTreeClassifier, outcome(0.95, 0.7, 2));
    let ledger = engine.ledger_snapshot();
    assert_eq!(ledger.len(), 2);
    assert!(ledger.iter().any(|e| e.algorithm == Algorithm::LogisticRegression));
    assert!(ledger.iter().any(|e| e.algorithm == Algorithm::DecisionTreeClassifier));
    assert!(ledger.iter().all(|e| e.algorithm != Algorithm::GaussianNaiveBayes));
    assert_eq!(engine.failures.len(), 1);
    assert_eq!(engine.failures[0].algorithm, Algorithm::GaussianNaiveBayes);
    assert_eq!(engine.failures[0].cause, "singular matrix");
}

#[test]
fn r_squared_ranks_greatest_first() {
    let mut engine = SupervisedModel::new(8, 2, 8, Settings::default_regression());
    engine.record_evaluation(Algorithm::Linear, outcome(0.8, 0.7, 1));
    engine.record_evaluation(Algorithm::Ridge, outcome(0.9, 0.9, 1));
    engine.record_evaluation(Algorithm::Lasso, outcome(0.5, -0.25, 1));
    let ledger = engine.ledger_snapshot();
    assert_eq!(ledger[0].algorithm, Algorithm::Ridge);
    assert_eq!(ledger[1].algorithm, Algorithm::Linear);
    assert_eq!(ledger[2].algorithm, Algorithm::Lasso);
    let best = engine.best().unwrap();
    for e in &ledger {
        assert!(best.mean_test_key >= e.mean_test_key);
    }
}

#[test]
fn error_metrics_rank_least_first() {
    let settings = Settings::default_regression().sorted_by(Metric::MeanSquaredError);
    let mut engine = SupervisedModel::new(8, 2, 8, settings);
    engine.record_evaluation(Algorithm::Linear, outcome(1.0, 4.0, 1));
    engine.record_evaluation(Algorithm::Ridge, outcome(1.0, 0.5, 1));
    engine.record_evaluation(Algorithm::Lasso, outcome(1.0, 2.25, 1));
    let ledger = engine.ledger_snapshot();
    assert_eq!(ledger[0].algorithm, Algorithm::Ridge);
    assert_eq!(ledger[1].algorithm, Algorithm::Lasso);
    assert_eq!(ledger[2].algorithm, Algorithm::Linear);
    let best = engine.best().unwrap();
    for e in &ledger {
        assert!(best.mean_test_key <= e.mean_test_key);
    }
}

#[test]
fn ties_keep_catalog_declaration_order() {
    // Equal scores fall back to catalog declaration order, whatever
    // order the evaluations arrive in.
    let run = |record_order: &[Algorithm]| -> Vec<ComparisonEntry> {
        let mut engine = SupervisedModel::new(8, 2, 8, Settings::default_regression());
        for &a in record_order {
            engine.record_evaluation(a, outcome(0.5, 0.5, 1));
        }
        engine.ledger_snapshot()
    };
    let l1 = run(&[Algorithm::KNNRegressor, Algorithm::Linear, Algorithm::Ridge]);
    let l2 = run(&[Algorithm::Ridge, Algorithm::KNNRegressor, Algorithm::Linear]);
    assert_eq!(l1, l2);
    assert_eq!(l1[0].algorithm, Algorithm::Linear);
    assert_eq!(l1[1].algorithm, Algorithm::Ridge);
    assert_eq!(l1[2].algorithm, Algorithm::KNNRegressor);
}

#[test]
fn ledger_is_independent_of_evaluation_order() {
    let entries = [
        (Algorithm::Linear, 0.7f32),
        (Algorithm::Ridge, 0.9),
        (Algorithm::Lasso, 0.9),
        (Algorithm::ElasticNet, 0.1),
        (Algorithm::SVR, 0.7),
    ];
    let run = |order: &[usize]| -> Vec<ComparisonEntry> {
        let mut engine = SupervisedModel::new(8, 2, 8, Settings::default_regression());
        for &i in order {
            let (a, s) = entries[i];
            engine.record_evaluation(a, outcome(0.0, s, 1));
        }
        engine.ledger_snapshot()
    };
    let l1 = run(&[0, 1, 2, 3, 4]);
    let l2 = run(&[4, 2, 0, 3, 1]);
    let l3 = run(&[3, 4, 1, 0, 2]);
    assert_eq!(l1, l2);
    assert_eq!(l2, l3);
    // Ridge and Lasso tie; Lasso stands earlier in the catalog.
    assert_eq!(l1[0].algorithm, Algorithm::Lasso);
    assert_eq!(l1[1].algorithm, Algorithm::Ridge);
}

#[test]
fn predict_before_commit_is_rejected() {
    let mut engine = SupervisedModel::new(8, 2, 8, Settings::default_regression());
    assert!(matches!(engine.predict_plan(2), Err(Error::NoFinalModel)));
    engine.record_evaluation(Algorithm::Linear, outcome(0.9, 0.9, 1));
    assert!(matches!(engine.predict_plan(2), Err(Error::NoFinalModel)));
    assert!(matches!(engine.final_model_bytes(), Err(Error::NoFinalModel)));
}

#[test]
fn failed_final_training_is_fatal_and_leaves_state() {
    let mut engine = SupervisedModel::new(8, 2, 8, Settings::default_regression());
    engine.record_evaluation(Algorithm::Linear, outcome(0.9, 0.9, 1));
    assert_eq!(engine.commit(None), Err(Error::FinalTrainingFailed));
    assert!(matches!(engine.predict_plan(2), Err(Error::NoFinalModel)));
}

#[test]
fn commit_without_survivors_is_empty_ledger() {
    let mut engine = SupervisedModel::new(8, 2, 8, Settings::default_regression());
    assert_eq!(engine.commit(Some(vec![1, 2, 3])), Err(Error::EmptyLedger));
}

#[test]
fn commit_tags_the_winner_and_predict_hands_it_back() {
    let mut engine = SupervisedModel::new(8, 2, 8, Settings::default_regression());
    engine.record_evaluation(Algorithm::Linear, outcome(0.9, 0.9, 1));
    engine.record_evaluation(Algorithm::Ridge, outcome(0.8, 0.2, 1));
    let task = engine.commit_plan().unwrap();
    assert_eq!(task.algorithm, Algorithm::Linear);
    assert_eq!(task.tag, ModelTag::Linear);
    let payload = vec![7u8, 8, 9];
    engine.commit(Some(payload.clone())).unwrap();
    assert!(matches!(engine.predict_plan(3), Err(Error::ShapeMismatch)));
    let pt = engine.predict_plan(2).unwrap();
    assert_eq!(pt.tag, ModelTag::Linear);
    assert_eq!(pt.payload, payload);
}

#[test]
fn a_new_comparison_discards_the_final_model() {
    let mut engine = SupervisedModel::new(8, 2, 8, Settings::default_regression());
    engine.record_evaluation(Algorithm::Linear, outcome(0.9, 0.9, 1));
    engine.commit(Some(vec![1])).unwrap();
    assert!(engine.predict_plan(2).is_ok());
    engine.begin_comparison();
    assert!(matches!(engine.predict_plan(2), Err(Error::NoFinalModel)));
    assert_eq!(engine.ledger_snapshot().len(), 0);
}

#[test]
fn skipped_variants_are_reported_distinct_from_failures() {
    let settings = Settings::default_classification().skip(Algorithm::KNNClassifier);
    let mut engine = SupervisedModel::new(8, 2, 2, settings);
    engine.record_evaluation(
        Algorithm::SVC,
        EvaluationOutcome::Failed { cause: String::from("did not converge") },
    );
    engine.record_evaluation(Algorithm::LogisticRegression, outcome(0.9, 0.9, 1));
    let skipped = engine.skipped_variants();
    assert_eq!(skipped, vec![Algorithm::KNNClassifier]);
    assert_eq!(engine.failures.len(), 1);
    assert_eq!(engine.ledger_snapshot().len(), 1);
}

#[test]
fn stored_engine_bytes_read_back_as_the_committed_model() {
    let mut engine = SupervisedModel::new(8, 2, 8, Settings::default_regression());
    engine.record_evaluation(Algorithm::Linear, outcome(0.9, 0.9, 1));
    let payload = vec![10u8, 20, 30, 40];
    engine.commit(Some(payload.clone())).unwrap();
    let bytes = engine.final_model_bytes().unwrap();
    let restored = automl::final_model::FinalModel::from_bytes(&bytes).unwrap();
    assert_eq!(restored.tag, ModelTag::Linear);
    assert_eq!(restored.payload, payload);
}
