use automl::folds::{cv_partition, identity_order, shuffled_order, Fold};

fn assert_covers_once(folds: &Vec<Fold>, n: usize) {
    let mut seen = vec![0usize; n];
    for fold in folds {
        for &row in &fold.test_rows {
            assert!(row < n);
            seen[row] += 1;
        }
    }
    for row in 0..n {
        assert_eq!(seen[row], 1, "row {} must sit in exactly one test fold", row);
    }
}

fn assert_train_is_complement(folds: &Vec<Fold>, n: usize) {
    for fold in folds {
        assert_eq!(fold.test_rows.len() + fold.train_rows.len(), n);
        for &row in &fold.train_rows {
            assert!(!fold.test_rows.contains(&row));
        }
    }
}

#[test]
fn contiguous_folds_cover_every_row_once() {
    let folds = cv_partition(10, 3, false, 0);
    assert_eq!(folds.len(), 3);
    assert_eq!(folds[0].test_rows, vec![0, 1, 2, 3]);
    assert_eq!(folds[1].test_rows, vec![4, 5, 6]);
    assert_eq!(folds[2].test_rows, vec![7, 8, 9]);
    assert_eq!(folds[0].train_rows, vec![4, 5, 6, 7, 8, 9]);
    assert_eq!(folds[1].train_rows, vec![0, 1, 2, 3, 7, 8, 9]);
    assert_covers_once(&folds, 10);
    assert_train_is_complement(&folds, 10);
}

#[test]
fn shuffled_folds_cover_every_row_once() {
    for k in 2..=7 {
        let folds = cv_partition(19, k, true, 42);
        assert_eq!(folds.len(), k);
        assert_covers_once(&folds, 19);
        assert_train_is_complement(&folds, 19);
    }
}

#[test]
fn every_fold_count_up_to_n_covers_once() {
    for k in 2..=12 {
        let folds = cv_partition(12, k, false, 0);
        assert_covers_once(&folds, 12);
        for fold in &folds {
            assert!(!fold.test_rows.is_empty());
        }
    }
}

#[test]
fn shuffle_is_reproducible_for_a_seed() {
    let a = shuffled_order(100, 7);
    let b = shuffled_order(100, 7);
    assert_eq!(a, b);
    let folds_a = cv_partition(100, 10, true, 7);
    let folds_b = cv_partition(100, 10, true, 7);
    assert_eq!(folds_a, folds_b);
}

#[test]
fn shuffle_is_a_permutation() {
    let order = shuffled_order(50, 3);
    let mut sorted = order.clone();
    sorted.sort();
    assert_eq!(sorted, identity_order(50));
    assert_ne!(order, identity_order(50));
}

#[test]
fn fold_sizes_differ_by_at_most_one() {
    let folds = cv_partition(17, 5, false, 0);
    let sizes: Vec<usize> = folds.iter().map(|f| f.test_rows.len()).collect();
    assert_eq!(sizes, vec![4, 4, 3, 3, 3]);
}
