use automl::catalog::Algorithm;
use automl::engine::{EvaluationOutcome, SupervisedModel};
use automl::final_model::ModelTag;
use automl::folds::cv_partition;
use automl::settings::{
    LinearRegressionSolverName, Settings, VariantConfig,
};

use smartcore::linalg::naive::dense_matrix::DenseMatrix;
use smartcore::linear::linear_regression::{
    LinearRegression, LinearRegressionParameters as ScLinearParameters,
    LinearRegressionSolverName as ScLinearSolverName,
};
use smartcore::metrics::r2;

fn score_key(x: f32) -> u64 {
    let b = x.to_bits();
    let k = if b & 0x8000_0000 != 0 { !b } else { b | 0x8000_0000 };
    k as u64
}

fn dataset() -> (Vec<Vec<f32>>, Vec<f32>) {
    let mut x: Vec<Vec<f32>> = Vec::new();
    let mut y: Vec<f32> = Vec::new();
    for i in 0..12 {
        let a = i as f32;
        let b = (i % 5) as f32 * 0.5;
        x.push(vec![a, b]);
        y.push(2.0 * a + 3.0 * b + 1.0);
    }
    (x, y)
}

fn rows_of(x: &Vec<Vec<f32>>, idx: &Vec<usize>) -> Vec<Vec<f32>> {
    idx.iter().map(|&i| x[i].clone()).collect()
}

fn vals_of(y: &Vec<f32>, idx: &Vec<usize>) -> Vec<f32> {
    idx.iter().map(|&i| y[i]).collect()
}

fn sc_solver(s: LinearRegressionSolverName) -> ScLinearSolverName {
    match s {
        LinearRegressionSolverName::QR => ScLinearSolverName::QR,
        LinearRegressionSolverName::SVD => ScLinearSolverName::SVD,
    }
}

/// Drive one full selection run over the linear-regression variant
/// alone and return the final model's predictions on the training
/// matrix.
fn run_selection_once() -> Vec<f32> {
    let (x, y) = dataset();
    let settings = Settings::default_regression()
        .with_number_of_folds(3)
        .skip(Algorithm::SVR)
        .skip(Algorithm::Lasso)
        .skip(Algorithm::Ridge)
        .skip(Algorithm::ElasticNet)
        .skip(Algorithm::DecisionTreeRegressor)
        .skip(Algorithm::RandomForestRegressor)
        .skip(Algorithm::KNNRegressor);
    let mut engine = SupervisedModel::new(x.len(), 2, y.len(), settings);

    let plan = engine.comparison_plan().unwrap();
    assert_eq!(plan.len(), 1);
    let folds = cv_partition(
        x.len(),
        engine.settings.number_of_folds,
        engine.settings.shuffle,
        engine.settings.shuffle_seed,
    );
    for task in plan {
        let params = match &task.config {
            VariantConfig::Linear(p) => ScLinearParameters { solver: sc_solver(p.solver) },
            _ => panic!("only the linear variant is planned"),
        };
        let mut test_scores: Vec<f32> = Vec::new();
        let mut train_scores: Vec<f32> = Vec::new();
        for fold in &folds {
            let xm = DenseMatrix::from_2d_vec(&rows_of(&x, &fold.train_rows));
            let ym = vals_of(&y, &fold.train_rows);
            let model = LinearRegression::fit(&xm, &ym, params.clone()).unwrap();
            let xt = DenseMatrix::from_2d_vec(&rows_of(&x, &fold.test_rows));
            let yt = vals_of(&y, &fold.test_rows);
            test_scores.push(r2(&yt, &model.predict(&xt).unwrap()));
            train_scores.push(r2(&ym, &model.predict(&xm).unwrap()));
        }
        let mean_test = test_scores.iter().sum::<f32>() / test_scores.len() as f32;
        let mean_train = train_scores.iter().sum::<f32>() / train_scores.len() as f32;
        engine.record_evaluation(
            task.algorithm,
            EvaluationOutcome::Succeeded {
                mean_train_key: score_key(mean_train),
                mean_test_key: score_key(mean_test),
                duration_ms: 0,
            },
        );
    }

    let commit_task = engine.commit_plan().unwrap();
    assert_eq!(commit_task.algorithm, Algorithm::Linear);
    assert_eq!(commit_task.tag, ModelTag::Linear);
    let params = match &commit_task.config {
        VariantConfig::Linear(p) => ScLinearParameters { solver: sc_solver(p.solver) },
        _ => panic!("the winner must be the linear variant"),
    };
    let xm = DenseMatrix::from_2d_vec(&x);
    let fitted = LinearRegression::fit(&xm, &y, params).unwrap();
    let payload = bincode::serialize(&fitted).unwrap();
    engine.commit(Some(payload)).unwrap();

    let pt = engine.predict_plan(2).unwrap();
    assert_eq!(pt.tag, ModelTag::Linear);
    let restored: LinearRegression<f32, DenseMatrix<f32>> =
        bincode::deserialize(&pt.payload).unwrap();
    restored.predict(&xm).unwrap()
}

#[test]
fn round_trip_linear_regression_is_bit_for_bit() {
    // A deterministic variant committed and dispatched twice gives the
    // same output vector, bit for bit.
    let first = run_selection_once();
    let second = run_selection_once();
    let first_bits: Vec<u32> = first.iter().map(|v| v.to_bits()).collect();
    let second_bits: Vec<u32> = second.iter().map(|v| v.to_bits()).collect();
    assert_eq!(first_bits, second_bits);
    // And the predictions fit the synthetic line closely.
    let (_, y) = dataset();
    for (p, t) in first.iter().zip(y.iter()) {
        assert!((p - t).abs() < 0.1, "prediction {} strays from {}", p, t);
    }
}

#[test]
fn stored_blob_restores_the_same_predictor() {
    let (x, y) = dataset();
    let xm = DenseMatrix::from_2d_vec(&x);
    let fitted = LinearRegression::fit(&xm, &y, ScLinearParameters::default()).unwrap();
    let stored = automl::final_model::FinalModel {
        tag: ModelTag::Linear,
        payload: bincode::serialize(&fitted).unwrap(),
    };
    let bytes = stored.to_bytes();
    let back = automl::final_model::FinalModel::from_bytes(&bytes).unwrap();
    assert_eq!(back.tag, ModelTag::Linear);
    let restored: LinearRegression<f32, DenseMatrix<f32>> =
        bincode::deserialize(&back.payload).unwrap();
    let a = fitted.predict(&xm).unwrap();
    let b = restored.predict(&xm).unwrap();
    let a_bits: Vec<u32> = a.iter().map(|v| v.to_bits()).collect();
    let b_bits: Vec<u32> = b.iter().map(|v| v.to_bits()).collect();
    assert_eq!(a_bits, b_bits);
}

#[test]
fn engine_ranking_agrees_with_measured_scores() {
    // Evaluate two deterministic regression variants for real and check
    // that the ledger's order follows the measured coefficient of
    // determination.
    let (x, y) = dataset();
    let settings = Settings::default_regression().with_number_of_folds(3);
    let mut engine = SupervisedModel::new(x.len(), 2, y.len(), settings);
    let folds = cv_partition(x.len(), 3, false, 0);
    let mut measured: Vec<(Algorithm, f32)> = Vec::new();
    for alg in [Algorithm::Linear, Algorithm::Ridge] {
        let mut test_scores: Vec<f32> = Vec::new();
        for fold in &folds {
            let xm = DenseMatrix::from_2d_vec(&rows_of(&x, &fold.train_rows));
            let ym = vals_of(&y, &fold.train_rows);
            let xt = DenseMatrix::from_2d_vec(&rows_of(&x, &fold.test_rows));
            let yt = vals_of(&y, &fold.test_rows);
            let pred = match alg {
                Algorithm::Linear => {
                    let m =
                        LinearRegression::fit(&xm, &ym, ScLinearParameters::default()).unwrap();
                    m.predict(&xt).unwrap()
                },
                Algorithm::Ridge => {
                    let m = smartcore::linear::ridge_regression::RidgeRegression::fit(
                        &xm,
                        &ym,
                        smartcore::linear::ridge_regression::RidgeRegressionParameters::default(),
                    )
                    .unwrap();
                    m.predict(&xt).unwrap()
                },
                _ => unreachable!(),
            };
            test_scores.push(r2(&yt, &pred));
        }
        let mean = test_scores.iter().sum::<f32>() / test_scores.len() as f32;
        measured.push((alg, mean));
        engine.record_evaluation(
            alg,
            EvaluationOutcome::Succeeded {
                mean_train_key: 0,
                mean_test_key: score_key(mean),
                duration_ms: 0,
            },
        );
    }
    let best = engine.best().unwrap();
    let top_measured = if measured[0].1 >= measured[1].1 { measured[0].0 } else { measured[1].0 };
    assert_eq!(best.algorithm, top_measured);
}
