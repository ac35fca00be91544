use nullvec::Float32;
use nullvec::Float64;
use nullvec::NullVec;
use nullvec::Nullable;

fn f(x: f64) -> Float64 {
    Float64::from_bits(x.to_bits())
}

#[test]
fn test_sum() {
    let values: Vec<usize> = vec![];
    let nvec = NullVec::new(values);
    assert_eq!(nvec.sum(), Nullable::Value(0));

    let values: Vec<usize> = vec![1, 2, 3];
    let nvec = NullVec::new(values);
    assert_eq!(nvec.sum(), Nullable::Value(6));

    let values: Vec<usize> = vec![1, 2, 3];
    let nvec = NullVec::with_mask(values, Some(vec![true, false, false])).unwrap();
    assert_eq!(nvec.sum(), Nullable::Value(5));

    let values: Vec<usize> = vec![1, 2, 3];
    let nvec = NullVec::with_mask(values, Some(vec![true, true, true])).unwrap();
    assert_eq!(nvec.sum(), Nullable::Null);
}

#[test]
fn test_count() {
    let values: Vec<usize> = vec![];
    let nvec = NullVec::new(values);
    assert_eq!(nvec.count(), 0);

    let values: Vec<usize> = vec![1, 2, 3];
    let nvec = NullVec::new(values);
    assert_eq!(nvec.count(), 3);

    let values: Vec<usize> = vec![1, 2, 3];
    let nvec = NullVec::with_mask(values, Some(vec![true, false, false])).unwrap();
    assert_eq!(nvec.count(), 2);

    let values: Vec<usize> = vec![1, 2, 3];
    let nvec = NullVec::with_mask(values, Some(vec![true, true, true])).unwrap();
    assert_eq!(nvec.count(), 0);
}

#[test]
fn test_mean() {
    let values: Vec<usize> = vec![];
    let nvec = NullVec::new(values);
    assert_eq!(nvec.mean(), Nullable::Null);

    let values: Vec<usize> = vec![1, 2, 3];
    let nvec = NullVec::new(values);
    assert_eq!(nvec.mean(), Nullable::Value(f(2.0)));

    let values: Vec<usize> = vec![1, 2, 3];
    let nvec = NullVec::with_mask(values, Some(vec![true, false, false])).unwrap();
    assert_eq!(nvec.mean(), Nullable::Value(f(2.5)));

    let values: Vec<usize> = vec![1, 2, 3];
    let nvec = NullVec::with_mask(values, Some(vec![true, true, true])).unwrap();
    assert_eq!(nvec.mean(), Nullable::Null);
}

#[test]
fn test_var() {
    let values: Vec<usize> = vec![];
    let nvec = NullVec::new(values);
    assert_eq!(nvec.var(), Nullable::Null);

    let values: Vec<usize> = vec![1, 2, 3];
    let nvec = NullVec::new(values);
    assert_eq!(nvec.var(), Nullable::Value(f(2.0 / 3.0)));

    let values: Vec<usize> = vec![1, 2, 3];
    let nvec = NullVec::with_mask(values, Some(vec![true, false, false])).unwrap();
    assert_eq!(nvec.var(), Nullable::Value(f(0.25)));

    let values: Vec<usize> = vec![1, 2, 3];
    let nvec = NullVec::with_mask(values, Some(vec![true, true, true])).unwrap();
    assert_eq!(nvec.var(), Nullable::Null);
}

#[test]
fn test_unbiased_var() {
    let values: Vec<usize> = vec![];
    let nvec = NullVec::new(values);
    assert_eq!(nvec.unbiased_var(), Nullable::Null);

    let values: Vec<usize> = vec![1, 2, 3];
    let nvec = NullVec::new(values);
    assert_eq!(nvec.unbiased_var(), Nullable::Value(f(1.0)));

    let values: Vec<usize> = vec![1, 2, 3];
    let nvec = NullVec::with_mask(values, Some(vec![true, false, false])).unwrap();
    assert_eq!(nvec.unbiased_var(), Nullable::Value(f(0.5)));

    let values: Vec<usize> = vec![1, 2, 3];
    let nvec = NullVec::with_mask(values, Some(vec![true, true, true])).unwrap();
    assert_eq!(nvec.unbiased_var(), Nullable::Null);
}

#[test]
fn test_std() {
    let values: Vec<usize> = vec![];
    let nvec = NullVec::new(values);
    assert_eq!(nvec.stdev(), Nullable::Null);

    let values: Vec<usize> = vec![1, 2, 3];
    let nvec = NullVec::new(values);
    assert_eq!(nvec.stdev(), Nullable::Value(f(0.81649658092772603)));

    let values: Vec<usize> = vec![1, 2, 3];
    let nvec = NullVec::with_mask(values, Some(vec![true, false, false])).unwrap();
    assert_eq!(nvec.stdev(), Nullable::Value(f(0.5)));

    let values: Vec<usize> = vec![1, 2, 3];
    let nvec = NullVec::with_mask(values, Some(vec![true, true, true])).unwrap();
    assert_eq!(nvec.stdev(), Nullable::Null);
}

#[test]
fn test_unbiased_std() {
    let values: Vec<usize> = vec![];
    let nvec = NullVec::new(values);
    assert_eq!(nvec.unbiased_stdev(), Nullable::Null);

    let values: Vec<usize> = vec![1, 2, 3];
    let nvec = NullVec::new(values);
    assert_eq!(nvec.unbiased_stdev(), Nullable::Value(f(1.0)));

    let values: Vec<usize> = vec![1, 2, 3];
    let nvec = NullVec::with_mask(values, Some(vec![true, false, false])).unwrap();
    assert_eq!(nvec.unbiased_stdev(), Nullable::Value(f(0.70710678118654757)));

    let values: Vec<usize> = vec![1, 2, 3];
    let nvec = NullVec::with_mask(values, Some(vec![true, true, true])).unwrap();
    assert_eq!(nvec.unbiased_stdev(), Nullable::Null);
}

#[test]
fn test_min() {
    let values: Vec<usize> = vec![];
    let nvec = NullVec::new(values);
    assert_eq!(nvec.min(), Nullable::Null);

    let values: Vec<usize> = vec![2, 1, 3];
    let nvec = NullVec::new(values);
    assert_eq!(nvec.min(), Nullable::Value(1));

    let values: Vec<usize> = vec![2, 1, 3];
    let nvec = NullVec::with_mask(values, Some(vec![false, true, false])).unwrap();
    assert_eq!(nvec.min(), Nullable::Value(2));

    let values: Vec<usize> = vec![2, 1, 3];
    let nvec = NullVec::with_mask(values, Some(vec![true, true, true])).unwrap();
    assert_eq!(nvec.min(), Nullable::Null);
}

#[test]
fn test_max() {
    let values: Vec<usize> = vec![];
    let nvec = NullVec::new(values);
    assert_eq!(nvec.max(), Nullable::Null);

    let values: Vec<usize> = vec![2, 1, 3];
    let nvec = NullVec::new(values);
    assert_eq!(nvec.max(), Nullable::Value(3));

    let values: Vec<usize> = vec![2, 1, 3];
    let nvec = NullVec::with_mask(values, Some(vec![false, true, false])).unwrap();
    assert_eq!(nvec.max(), Nullable::Value(3));

    let values: Vec<usize> = vec![2, 1, 3];
    let nvec = NullVec::with_mask(values, Some(vec![true, true, true])).unwrap();
    assert_eq!(nvec.max(), Nullable::Null);
}

#[test]
fn test_float_aggregation_values() {
    let nvec = NullVec::new(vec![f(1.0), f(2.0), f(3.0)]);
    assert_eq!(nvec.sum(), Nullable::Value(f(6.0)));
    assert_eq!(nvec.count(), 3);
    assert_eq!(nvec.mean(), Nullable::Value(f(2.0)));
    assert_eq!(nvec.var(), Nullable::Value(f(0.6666666666666666)));
    assert_eq!(nvec.unbiased_var(), Nullable::Value(f(1.0)));
    assert_eq!(nvec.stdev(), Nullable::Value(f(0.816496580927726)));
    assert_eq!(nvec.unbiased_stdev(), Nullable::Value(f(1.0)));
    assert_eq!(nvec.min(), Nullable::Value(f(1.0)));
    assert_eq!(nvec.max(), Nullable::Value(f(3.0)));
}

#[test]
fn test_min_max_ties_keep_earliest_bits() {
    // plus and minus zero compare equal: the earliest stays
    let nvec = NullVec::new(vec![f(-0.0), f(0.0)]);
    assert_eq!(nvec.min(), Nullable::Value(f(-0.0)));
    assert_eq!(nvec.max(), Nullable::Value(f(-0.0)));
}

#[test]
fn test_unbiased_var_single_element() {
    // one not-null element divides the zero deviation sum by the float zero
    let nvec = NullVec::new(vec![5usize]);
    match nvec.unbiased_var() {
        Nullable::Value(v) => assert!(f64::from_bits(v.to_bits()).is_nan()),
        Nullable::Null => panic!("expected a value"),
    }
}

#[test]
fn test_float32_aggregation() {
    let g = |x: f32| Float32::from_bits(x.to_bits());
    let nvec = NullVec::new(vec![g(1.0), g(2.0), g(3.0)]);
    assert_eq!(nvec.sum(), Nullable::Value(g(6.0)));
    assert_eq!(nvec.mean(), Nullable::Value(f(2.0)));
    assert_eq!(nvec.min(), Nullable::Value(g(1.0)));
    assert_eq!(nvec.max(), Nullable::Value(g(3.0)));

    // a single-precision quiet NaN folds at construction like a double one
    let folded = NullVec::new(vec![g(1.5), g(f32::NAN)]);
    assert_eq!(folded.is_null(), vec![false, true]);
}

#[test]
fn test_float_remainder_op() {
    let a = Nullable::Value(f(5.5));
    assert_eq!(a % Nullable::Value(f(2.0)), Nullable::Value(f(1.5)));
}

#[test]
fn test_sqrt_special_values() {
    assert_eq!(f(4.0).sqrt(), f(2.0));
    assert_eq!(f(0.0).sqrt(), f(0.0));
    assert_eq!(f(2.0).sqrt(), f(std::f64::consts::SQRT_2));
    assert_eq!(f(0.5).sqrt(), f(0.7071067811865476));
    assert_eq!(f(1e300).sqrt(), f(1e150));
    assert_eq!(f(5e-324).sqrt(), f(2.2227587494850775e-162));
    assert_eq!(f(f64::INFINITY).sqrt(), f(f64::INFINITY));
    assert!(f64::from_bits(f(-1.0).sqrt().to_bits()).is_nan());
}
