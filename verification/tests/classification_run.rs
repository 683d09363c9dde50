use automl::catalog::Algorithm;
use automl::engine::{EvaluationOutcome, SupervisedModel};
use automl::final_model::ModelTag;
use automl::folds::cv_partition;
use automl::settings::{Settings, VariantConfig};

use smartcore::linalg::naive::dense_matrix::DenseMatrix;
use smartcore::linear::logistic_regression::{
    LogisticRegression, LogisticRegressionParameters as ScLogisticParameters,
};
use smartcore::metrics::accuracy;
use smartcore::tree::decision_tree_classifier::{
    DecisionTreeClassifier, DecisionTreeClassifierParameters as ScTreeParameters,
};

fn score_key(x: f32) -> u64 {
    let b = x.to_bits();
    let k = if b & 0x8000_0000 != 0 { !b } else { b | 0x8000_0000 };
    k as u64
}

/// A binary target that follows the first feature's sign.
fn binary_dataset() -> (Vec<Vec<f32>>, Vec<f32>) {
    let mut x: Vec<Vec<f32>> = Vec::new();
    let mut y: Vec<f32> = Vec::new();
    for i in 0..16 {
        let a = (i as f32) - 7.5;
        let b = ((i * 3) % 7) as f32;
        x.push(vec![a, b]);
        y.push(if a > 0.0 { 1.0 } else { 0.0 });
    }
    (x, y)
}

fn rows_of(x: &Vec<Vec<f32>>, idx: &Vec<usize>) -> Vec<Vec<f32>> {
    idx.iter().map(|&i| x[i].clone()).collect()
}

fn vals_of(y: &Vec<f32>, idx: &Vec<usize>) -> Vec<f32> {
    idx.iter().map(|&i| y[i]).collect()
}

#[test]
fn classification_run_selects_and_serves_a_classifier() {
    let (x, y) = binary_dataset();
    let settings = Settings::default_classification()
        .with_number_of_folds(4)
        .shuffle_data(true)
        .skip(Algorithm::RandomForestClassifier)
        .skip(Algorithm::KNNClassifier)
        .skip(Algorithm::SVC)
        .skip(Algorithm::GaussianNaiveBayes)
        .skip(Algorithm::CategoricalNaiveBayes);
    let mut engine = SupervisedModel::new(x.len(), 2, 2, settings);
    let plan = engine.comparison_plan().unwrap();
    let algs: Vec<Algorithm> = plan.iter().map(|t| t.algorithm).collect();
    assert_eq!(algs, vec![Algorithm::LogisticRegression, Algorithm::DecisionTreeClassifier]);

    let folds = cv_partition(
        x.len(),
        engine.settings.number_of_folds,
        engine.settings.shuffle,
        engine.settings.shuffle_seed,
    );
    for task in plan {
        let mut test_scores: Vec<f32> = Vec::new();
        let mut train_scores: Vec<f32> = Vec::new();
        let mut failed: Option<String> = None;
        for fold in &folds {
            let xm = DenseMatrix::from_2d_vec(&rows_of(&x, &fold.train_rows));
            let ym = vals_of(&y, &fold.train_rows);
            let xt = DenseMatrix::from_2d_vec(&rows_of(&x, &fold.test_rows));
            let yt = vals_of(&y, &fold.test_rows);
            let scored = match &task.config {
                VariantConfig::LogisticRegression(_) => {
                    LogisticRegression::fit(&xm, &ym, ScLogisticParameters::default())
                        .map(|m| (m.predict(&xm).unwrap(), m.predict(&xt).unwrap()))
                }
                VariantConfig::DecisionTreeClassifier(_) => {
                    DecisionTreeClassifier::fit(&xm, &ym, ScTreeParameters::default())
                        .map(|m| (m.predict(&xm).unwrap(), m.predict(&xt).unwrap()))
                }
                _ => panic!("only two classifiers are planned"),
            };
            match scored {
                Ok((train_pred, test_pred)) => {
                    train_scores.push(accuracy(&ym, &train_pred));
                    test_scores.push(accuracy(&yt, &test_pred));
                }
                Err(e) => {
                    failed = Some(format!("{}", e));
                    break;
                }
            }
        }
        let outcome = match failed {
            Some(cause) => EvaluationOutcome::Failed { cause },
            None => EvaluationOutcome::Succeeded {
                mean_train_key: score_key(
                    train_scores.iter().sum::<f32>() / train_scores.len() as f32,
                ),
                mean_test_key: score_key(
                    test_scores.iter().sum::<f32>() / test_scores.len() as f32,
                ),
                duration_ms: 0,
            },
        };
        engine.record_evaluation(task.algorithm, outcome);
    }

    // Accuracy is not reverse-ranked, so the ledger orders ascending and
    // its head carries the least accurate surviving variant.
    let ledger = engine.ledger_snapshot();
    assert!(!ledger.is_empty());
    for e in &ledger {
        assert!(engine.best().unwrap().mean_test_key <= e.mean_test_key);
    }

    let task = engine.commit_plan().unwrap();
    let payload = match &task.config {
        VariantConfig::LogisticRegression(_) => {
            let xm = DenseMatrix::from_2d_vec(&x);
            bincode::serialize(
                &LogisticRegression::fit(&xm, &y, ScLogisticParameters::default()).unwrap(),
            )
            .unwrap()
        }
        VariantConfig::DecisionTreeClassifier(_) => {
            let xm = DenseMatrix::from_2d_vec(&x);
            bincode::serialize(
                &DecisionTreeClassifier::fit(&xm, &y, ScTreeParameters::default()).unwrap(),
            )
            .unwrap()
        }
        _ => panic!("only two classifiers can win"),
    };
    engine.commit(Some(payload)).unwrap();
    let pt = engine.predict_plan(2).unwrap();
    let xm = DenseMatrix::from_2d_vec(&x);
    let preds: Vec<f32> = match pt.tag {
        ModelTag::LogisticRegression => {
            let m: LogisticRegression<f32, DenseMatrix<f32>> =
                bincode::deserialize(&pt.payload).unwrap();
            m.predict(&xm).unwrap()
        }
        ModelTag::DecisionTreeClassifier => {
            let m: DecisionTreeClassifier<f32> = bincode::deserialize(&pt.payload).unwrap();
            m.predict(&xm).unwrap()
        }
        _ => panic!("the committed tag must name one of the two planned classifiers"),
    };
    assert_eq!(preds.len(), y.len());
    for p in &preds {
        assert!(*p == 0.0 || *p == 1.0);
    }
}
