use automl::error::Error;
use automl::final_model::{FinalModel, ModelTag, FORMAT_VERSION};
use automl::settings::{Distance, Kernel, RealParam};

fn rp(x: f32) -> RealParam {
    RealParam::from_bits(x.to_bits())
}

fn round_trip(tag: ModelTag, payload: Vec<u8>) {
    let model = FinalModel { tag, payload: payload.clone() };
    let bytes = model.to_bytes();
    let back = FinalModel::from_bytes(&bytes).unwrap();
    assert_eq!(back.tag, tag);
    assert_eq!(back.payload, payload);
}

#[test]
fn plain_tags_round_trip() {
    round_trip(ModelTag::Linear, vec![1, 2, 3, 4, 5]);
    round_trip(ModelTag::Lasso, vec![]);
    round_trip(ModelTag::Ridge, vec![0xFF; 64]);
    round_trip(ModelTag::ElasticNet, vec![0]);
    round_trip(ModelTag::LogisticRegression, vec![9; 7]);
    round_trip(ModelTag::RandomForestClassifier, vec![1]);
    round_trip(ModelTag::RandomForestRegressor, vec![2]);
    round_trip(ModelTag::DecisionTreeClassifier, vec![3]);
    round_trip(ModelTag::DecisionTreeRegressor, vec![4]);
    round_trip(ModelTag::GaussianNaiveBayes, vec![5]);
    round_trip(ModelTag::CategoricalNaiveBayes, vec![6]);
}

#[test]
fn distance_tags_round_trip() {
    round_trip(ModelTag::KNNClassifier(Distance::Euclidean), vec![1, 2]);
    round_trip(ModelTag::KNNClassifier(Distance::Hamming), vec![]);
    round_trip(ModelTag::KNNRegressor(Distance::Minkowski(3)), vec![1, 2, 3]);
    round_trip(ModelTag::KNNRegressor(Distance::Minkowski(40000)), vec![8; 9]);
    round_trip(ModelTag::KNNRegressor(Distance::Mahalanobis), vec![7]);
    round_trip(ModelTag::KNNClassifier(Distance::Manhattan), vec![0, 0, 0]);
}

#[test]
fn kernel_tags_round_trip() {
    round_trip(ModelTag::SVC(Kernel::Linear), vec![1]);
    round_trip(ModelTag::SVR(Kernel::RBF(rp(0.5))), vec![2, 3]);
    round_trip(ModelTag::SVC(Kernel::Polynomial(rp(3.0), rp(0.1), rp(1.0))), vec![4]);
    round_trip(ModelTag::SVR(Kernel::Sigmoid(rp(-0.75), rp(2.5))), vec![5, 6, 7]);
}

#[test]
fn tag_layout_is_version_then_code() {
    let model = FinalModel { tag: ModelTag::Linear, payload: vec![0xAB, 0xCD] };
    let bytes = model.to_bytes();
    assert_eq!(bytes, vec![FORMAT_VERSION, 7, 0xAB, 0xCD]);
    let knn = FinalModel { tag: ModelTag::KNNRegressor(Distance::Minkowski(3)), payload: vec![] };
    assert_eq!(knn.to_bytes(), vec![FORMAT_VERSION, 14, 2, 3, 0]);
}

#[test]
fn corrupted_tag_is_rejected_not_reinterpreted() {
    // Tag integrity: a blob whose tag bytes are deliberately corrupted
    // fails with a dispatch error instead of silently producing
    // predictions under another variant's logic.
    let model = FinalModel {
        tag: ModelTag::SVC(Kernel::RBF(rp(0.5))),
        payload: vec![1, 2, 3, 4, 5, 6],
    };
    let good = model.to_bytes();
    assert!(FinalModel::from_bytes(&good).is_ok());

    let mut bad_version = good.clone();
    bad_version[0] = FORMAT_VERSION.wrapping_add(1);
    assert_eq!(FinalModel::from_bytes(&bad_version), Err(Error::UnknownTag));

    let mut bad_code = good.clone();
    bad_code[1] = 0xEE;
    assert_eq!(FinalModel::from_bytes(&bad_code), Err(Error::UnknownTag));

    let mut bad_kernel = good.clone();
    bad_kernel[2] = 9;
    assert_eq!(FinalModel::from_bytes(&bad_kernel), Err(Error::UnknownTag));

    let truncated: Vec<u8> = good[..3].to_vec();
    assert_eq!(FinalModel::from_bytes(&truncated), Err(Error::UnknownTag));

    let empty: Vec<u8> = Vec::new();
    assert_eq!(FinalModel::from_bytes(&empty), Err(Error::UnknownTag));
}

#[test]
fn decoding_a_different_valid_code_changes_the_tag_visibly() {
    let model = FinalModel { tag: ModelTag::Linear, payload: vec![1, 2, 3] };
    let mut bytes = model.to_bytes();
    bytes[1] = 9;
    let back = FinalModel::from_bytes(&bytes).unwrap();
    assert_eq!(back.tag, ModelTag::Lasso);
    assert_ne!(back.tag, model.tag);
}
