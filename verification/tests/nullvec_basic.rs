use nullvec::maybe_null;
use nullvec::Error;
use nullvec::Float64;
use nullvec::NullVec;
use nullvec::Nullable;

fn f(x: f64) -> Float64 {
    Float64::from_bits(x.to_bits())
}

fn fv(xs: &[f64]) -> Vec<Float64> {
    let mut out = Vec::new();
    for x in xs {
        out.push(f(*x));
    }
    out
}

#[test]
fn test_int_construction() {
    let values: Vec<usize> = vec![1, 2, 3];
    let nvec = NullVec::new(values);
    assert_eq!(nvec.data_ref(), &vec![1, 2, 3]);
    assert_eq!(nvec.mask_ref(), &None);
}

#[test]
fn nullvec_test_int() {
    let values: Vec<usize> = vec![1, 2, 3];
    let nvec = NullVec::new(values);
    assert_eq!(nvec.data_ref(), &vec![1, 2, 3]);
    assert_eq!(nvec.mask_ref(), &None);
}

#[test]
fn test_float_construction() {
    let values = fv(&[1.1, 1.2, 1.3]);
    let nvec = NullVec::new(values);
    assert_eq!(nvec.data_ref(), &fv(&[1.1, 1.2, 1.3]));
    assert_eq!(nvec.mask_ref(), &None);
}

#[test]
fn nullvec_test_float() {
    let values = fv(&[1.1, 1.2, 1.3]);
    let nvec = NullVec::new(values);
    assert_eq!(nvec.data_ref(), &fv(&[1.1, 1.2, 1.3]));
    assert_eq!(nvec.mask_ref(), &None);
}

#[test]
fn mod_test_float_nan() {
    let values = fv(&[1.1, f64::NAN, 1.3]);
    let nvec = NullVec::new(values);
    assert_eq!(nvec.data_ref(), &fv(&[1.1, 0.0, 1.3]));
    assert_eq!(nvec.mask_ref(), &Some(vec![false, true, false]));
}

#[test]
fn nullvec_test_float_nan() {
    let values = fv(&[1.1, f64::NAN, 1.3]);
    let nvec = NullVec::new(values);
    assert_eq!(nvec.data_ref(), &fv(&[1.1, 0.0, 1.3]));
    assert_eq!(nvec.mask_ref(), &Some(vec![false, true, false]));
}

#[test]
fn test_int_with_mask() {
    let values: Vec<usize> = vec![1, 2, 3];
    let nvec = NullVec::with_mask(values, Some(vec![true, false, false])).unwrap();
    assert_eq!(nvec.data_ref(), &vec![1, 2, 3]);
    assert_eq!(nvec.mask_ref(), &Some(vec![true, false, false]));
}

#[test]
fn test_float_with_mask() {
    let values = fv(&[1.1, f64::NAN, 1.3]);
    let nvec = NullVec::with_mask(values, Some(vec![true, false, false])).unwrap();
    assert_eq!(nvec.data_ref(), &fv(&[1.1, 0.0, 1.3]));
    assert_eq!(nvec.mask_ref(), &Some(vec![true, true, false]));

    let values = fv(&[1.1, f64::NAN, 1.3]);
    let nvec = NullVec::with_mask(values, None).unwrap();
    assert_eq!(nvec.data_ref(), &fv(&[1.1, 0.0, 1.3]));
    assert_eq!(nvec.mask_ref(), &Some(vec![false, true, false]));
}

#[test]
fn test_with_mask_length_mismatch() {
    let values: Vec<usize> = vec![1, 2, 3];
    let r = NullVec::with_mask(values, Some(vec![true, false]));
    assert_eq!(r.unwrap_err(), Error::LengthMismatchError);
}

#[test]
fn test_maybe_null() {
    let values = fv(&[1.1, f64::NAN, 1.3]);
    let (not_null, mask) = maybe_null(values);
    assert_eq!(not_null, fv(&[1.1, 0.0, 1.3]));
    assert_eq!(mask, Some(vec![false, true, false]));

    let values = fv(&[1.1, 1.2, 1.3]);
    let (not_null, mask) = maybe_null(values);
    assert_eq!(not_null, fv(&[1.1, 1.2, 1.3]));
    assert_eq!(mask, None);
}

#[test]
fn test_int_isnull() {
    let values: Vec<usize> = vec![1, 2, 3];
    let nvec = NullVec::new(values);
    assert_eq!(nvec.has_null(), false);
    let res = nvec.is_null();
    assert_eq!(res, vec![false, false, false]);

    let res = nvec.not_null();
    assert_eq!(res, vec![true, true, true]);

    let values: Vec<usize> = vec![1, 2, 3];
    let nvec = NullVec::with_mask(values, Some(vec![false, false, true])).unwrap();
    assert_eq!(nvec.has_null(), true);
    let res = nvec.is_null();
    assert_eq!(res, vec![false, false, true]);

    let res = nvec.not_null();
    assert_eq!(res, vec![true, true, false]);
}

#[test]
fn test_float_isnull() {
    let values = fv(&[1.1, f64::NAN, 1.3]);
    let nvec = NullVec::new(values);
    assert_eq!(nvec.has_null(), true);
    let res = nvec.is_null();
    assert_eq!(res, vec![false, true, false]);

    let res = nvec.not_null();
    assert_eq!(res, vec![true, false, true]);
}

#[test]
fn test_float_not_null_values() {
    let values = fv(&[1.1, 1.2, 1.3]);
    let nvec = NullVec::new(values);
    assert_eq!(nvec.not_null_values(), fv(&[1.1, 1.2, 1.3]));

    let values = fv(&[f64::NAN, 1.2, 1.3]);
    let nvec = NullVec::new(values);
    assert_eq!(nvec.not_null_values(), fv(&[1.2, 1.3]));
}

#[test]
fn test_as_null() {
    let values: Vec<i64> = vec![1, 2, 3];
    let nvec = NullVec::new(values);

    let res = nvec.as_null();
    assert_eq!(res.data_ref(), &vec![1, 2, 3]);
    assert_eq!(res.mask_ref(), &Some(vec![true, true, true]));
}

#[test]
fn test_int_drop_null() {
    let values: Vec<usize> = vec![1, 0, 3];
    let nvec = NullVec::with_mask(values, Some(vec![false, true, false])).unwrap();

    let res = nvec.drop_null();
    assert_eq!(res.data_ref(), &vec![1, 3]);
    assert_eq!(res.mask_ref(), &None);
}

#[test]
fn test_int_fill_null() {
    let values: Vec<usize> = vec![1, 0, 3];
    let nvec = NullVec::with_mask(values, Some(vec![false, true, false])).unwrap();

    let res = nvec.fill_null(10);
    assert_eq!(res.data_ref(), &vec![1, 10, 3]);
    assert_eq!(res.mask_ref(), &None);
}

#[test]
fn test_float_drop_null() {
    let values = fv(&[1.1, f64::NAN, 1.3]);
    let nvec = NullVec::new(values);

    let res = nvec.drop_null();
    assert_eq!(res.data_ref(), &fv(&[1.1, 1.3]));
    assert_eq!(res.mask_ref(), &None);
}

#[test]
fn test_float_fill_null() {
    let values = fv(&[1.1, f64::NAN, 1.3]);
    let nvec = NullVec::new(values);

    let res = nvec.fill_null(f(10.0));
    assert_eq!(res.data_ref(), &fv(&[1.1, 10.0, 1.3]));
    assert_eq!(res.mask_ref(), &None);
}

#[test]
fn test_iloc() {
    let values: Vec<usize> = vec![1, 2, 3];
    let nvec = NullVec::new(values);
    assert_eq!(nvec.iloc(&1).unwrap(), Nullable::Value(2));

    let values: Vec<usize> = vec![1, 2, 3];
    let nvec = NullVec::with_mask(values, Some(vec![false, false, true])).unwrap();
    assert_eq!(nvec.iloc(&1).unwrap(), Nullable::Value(2));
    assert_eq!(nvec.iloc(&2).unwrap(), Nullable::Null);
}

#[test]
fn test_iloc_out_of_bounds1() {
    let values: Vec<usize> = vec![1, 2, 3];
    let nvec = NullVec::new(values);
    assert_eq!(nvec.iloc(&3).unwrap_err(), Error::BoundsError);
}

#[test]
fn test_iloc_out_of_bounds2() {
    let values: Vec<usize> = vec![1, 2, 3];
    let nvec = NullVec::with_mask(values, Some(vec![false, false, true])).unwrap();
    assert_eq!(nvec.iloc(&3).unwrap_err(), Error::BoundsError);
}

#[test]
fn test_iloc_unchecked() {
    let values: Vec<usize> = vec![1, 2, 3];
    let nvec = NullVec::new(values);
    assert_eq!(nvec.iloc_unchecked(&1), Nullable::Value(2));

    let values: Vec<usize> = vec![1, 2, 3];
    let nvec = NullVec::with_mask(values, Some(vec![false, false, true])).unwrap();
    assert_eq!(nvec.iloc_unchecked(&1), Nullable::Value(2));
    assert_eq!(nvec.iloc_unchecked(&2), Nullable::Null);
}

#[test]
fn test_ilocs() {
    let values: Vec<usize> = vec![1, 2, 3];
    let nvec = NullVec::new(values);
    let res = nvec.ilocs(&vec![2, 1]).unwrap();
    assert_eq!(res.data_ref(), &vec![3, 2]);
    assert_eq!(res.mask_ref(), &None);

    let res = nvec.ilocs(&vec![2, 1]).unwrap();
    assert_eq!(res.data_ref(), &vec![3, 2]);
    assert_eq!(res.mask_ref(), &None);

    let values: Vec<usize> = vec![1, 2, 3];
    let nvec = NullVec::with_mask(values, Some(vec![false, false, true])).unwrap();
    let res = nvec.ilocs(&vec![2, 1]).unwrap();
    assert_eq!(res.data_ref(), &vec![3, 2]);
    assert_eq!(res.mask_ref(), &Some(vec![true, false]));

    let res = nvec.ilocs(&vec![2, 1]).unwrap();
    assert_eq!(res.data_ref(), &vec![3, 2]);
    assert_eq!(res.mask_ref(), &Some(vec![true, false]));
}

#[test]
fn test_ilocs_out_of_bounds1() {
    let values: Vec<usize> = vec![1, 2, 3];
    let nvec = NullVec::new(values);
    assert_eq!(nvec.ilocs(&vec![1, 3]).unwrap_err(), Error::BoundsError);
}

#[test]
fn test_ilocs_out_of_bounds2() {
    let values: Vec<usize> = vec![1, 2, 3];
    let nvec = NullVec::with_mask(values, Some(vec![false, false, true])).unwrap();
    assert_eq!(nvec.ilocs(&vec![1, 3]).unwrap_err(), Error::BoundsError);
}

#[test]
fn test_ilocs_unchecked() {
    let values: Vec<usize> = vec![1, 2, 3];
    let nvec = NullVec::new(values);
    let res = nvec.ilocs_unchecked(&vec![2, 1]);
    assert_eq!(res.data_ref(), &vec![3, 2]);
    assert_eq!(res.mask_ref(), &None);

    let values: Vec<usize> = vec![1, 2, 3];
    let nvec = NullVec::with_mask(values, Some(vec![false, false, true])).unwrap();
    let res = nvec.ilocs_unchecked(&vec![2, 1]);
    assert_eq!(res.data_ref(), &vec![3, 2]);
    assert_eq!(res.mask_ref(), &Some(vec![true, false]));
}

#[test]
fn test_ilocs_forced() {
    let values: Vec<usize> = vec![1, 2, 3];
    let nvec = NullVec::new(values);
    let res = nvec.ilocs_forced(&vec![2, 1]);
    assert_eq!(res.data_ref(), &vec![3, 2]);
    assert_eq!(res.mask_ref(), &None);

    let res = nvec.ilocs_forced(&vec![5, 1]);
    assert_eq!(res.data_ref(), &vec![0, 2]);
    assert_eq!(res.mask_ref(), &Some(vec![true, false]));

    let values: Vec<usize> = vec![1, 2, 3];
    let nvec = NullVec::with_mask(values, Some(vec![false, false, true])).unwrap();
    let res = nvec.ilocs_forced(&vec![2, 1]);
    assert_eq!(res.data_ref(), &vec![3, 2]);
    assert_eq!(res.mask_ref(), &Some(vec![true, false]));

    let res = nvec.ilocs_forced(&vec![0, 1]);
    assert_eq!(res.data_ref(), &vec![1, 2]);
    assert_eq!(res.mask_ref(), &None);

    let res = nvec.ilocs_forced(&vec![10, 10]);
    assert_eq!(res.data_ref(), &vec![0, 0]);
    assert_eq!(res.mask_ref(), &Some(vec![true, true]));

    let res = nvec.ilocs_forced(&vec![2, 1]);
    assert_eq!(res.data_ref(), &vec![3, 2]);
    assert_eq!(res.mask_ref(), &Some(vec![true, false]));
}

#[test]
fn test_ilocs_forced_empty() {
    let values: Vec<usize> = vec![];
    let nvec = NullVec::new(values);
    let res = nvec.ilocs_forced(&vec![2, 1]);
    assert_eq!(res.data_ref(), &vec![0, 0]);
    assert_eq!(res.mask_ref(), &Some(vec![true, true]));
}

#[test]
fn test_blocs() {
    let values: Vec<usize> = vec![1, 2, 3];
    let nvec = NullVec::with_mask(values, Some(vec![false, false, true])).unwrap();
    let res = nvec.blocs(&vec![true, false, true]).unwrap();
    assert_eq!(res.data_ref(), &vec![1, 3]);
    assert_eq!(res.mask_ref(), &Some(vec![false, true]));
}

#[test]
fn test_blocs_length_mismatch_error() {
    let values: Vec<usize> = vec![1, 2, 3];
    let nvec = NullVec::new(values);
    let res = nvec.blocs(&vec![true, false]);
    assert_eq!(res.unwrap_err(), Error::LengthMismatchError);
}

#[test]
fn test_append_keeps_each_sides_nulls() {
    let left = NullVec::with_mask(vec![1, 2, 3], Some(vec![true, false, false])).unwrap();
    let right = NullVec::with_mask(vec![4, 5], Some(vec![false, true])).unwrap();
    let res = left.append(&right);
    assert_eq!(res.data_ref(), &vec![1, 2, 3, 4, 5]);
    assert_eq!(
        res.mask_ref(),
        &Some(vec![true, false, false, false, true])
    );

    let maskless = NullVec::new(vec![7, 8]);
    let res2 = maskless.append(&left);
    assert_eq!(res2.data_ref(), &vec![7, 8, 1, 2, 3]);
    assert_eq!(res2.mask_ref(), &Some(vec![false, false, true, false, false]));
}

#[test]
fn test_into_string_vec() {
    let values: Vec<usize> = vec![1, 2, 3];
    let nvec = NullVec::new(values);
    let exp = vec!["1".to_string(), "2".to_string(), "3".to_string()];
    assert_eq!(nvec.into_string_vec(), exp);

    let values: Vec<usize> = vec![1, 2, 3];
    let nvec = NullVec::with_mask(values, Some(vec![false, false, true])).unwrap();
    let exp = vec!["1".to_string(), "2".to_string(), "Null".to_string()];
    assert_eq!(nvec.into_string_vec(), exp);

    let values: Vec<String> = vec!["a".to_string(), "bb".to_string(), "".to_string()];
    let nvec = NullVec::with_mask(values, Some(vec![false, false, true])).unwrap();
    let exp = vec!["a".to_string(), "bb".to_string(), "Null".to_string()];
    assert_eq!(nvec.into_string_vec(), exp);
}

#[test]
fn test_into_iter() {
    let values: Vec<usize> = vec![1, 2, 3];
    let nvec = NullVec::with_mask(values, Some(vec![true, false, false])).unwrap();
    let mut it = nvec.into_iter();
    assert_eq!(it.size_hint(), (3, Some(3)));

    assert_eq!(it.next(), Some(Nullable::Null));
    assert_eq!(it.size_hint(), (2, Some(2)));

    assert_eq!(it.next(), Some(Nullable::Value(2)));
    assert_eq!(it.size_hint(), (1, Some(1)));

    assert_eq!(it.next(), Some(Nullable::Value(3)));
    assert_eq!(it.size_hint(), (0, Some(0)));

    assert_eq!(it.next(), None);
    assert_eq!(it.size_hint(), (0, Some(0)));

    assert_eq!(it.next(), None);
    assert_eq!(it.size_hint(), (0, Some(0)));

    assert_eq!(it.next(), None);
    assert_eq!(it.size_hint(), (0, Some(0)));
}

#[test]
fn test_iter_raw() {
    let values: Vec<usize> = vec![1, 2, 3];
    let nvec = NullVec::with_mask(values, Some(vec![true, false, false])).unwrap();
    let mut it = nvec.iter_raw();
    assert_eq!(it.size_hint(), (3, Some(3)));

    assert_eq!(it.next(), Some((true, &1)));
    assert_eq!(it.size_hint(), (2, Some(2)));

    assert_eq!(it.next(), Some((false, &2)));
    assert_eq!(it.size_hint(), (1, Some(1)));

    assert_eq!(it.next(), Some((false, &3)));
    assert_eq!(it.size_hint(), (0, Some(0)));

    assert_eq!(it.next(), None);
    assert_eq!(it.size_hint(), (0, Some(0)));

    assert_eq!(it.next(), None);
    assert_eq!(it.size_hint(), (0, Some(0)));
}

#[test]
fn test_iter_not_null() {
    let values: Vec<usize> = vec![1, 2, 3];
    let nvec = NullVec::with_mask(values, Some(vec![true, false, false])).unwrap();
    let mut it = nvec.iter_not_null();
    assert_eq!(it.size_hint(), (3, Some(3)));

    assert_eq!(it.next(), Some(&2));
    assert_eq!(it.size_hint(), (1, Some(1)));

    assert_eq!(it.next(), Some(&3));
    assert_eq!(it.size_hint(), (0, Some(0)));

    assert_eq!(it.next(), None);
    assert_eq!(it.size_hint(), (0, Some(0)));

    assert_eq!(it.next(), None);
    assert_eq!(it.size_hint(), (0, Some(0)));
}

#[test]
fn test_iter_not_null_long() {
    let values: Vec<usize> = vec![1, 2, 3, 4, 5, 6, 7, 8, 9];
    let nvec = NullVec::with_mask(
        values,
        Some(vec![true, false, false, true, true, true, false, true, true]),
    )
    .unwrap();
    let mut it = nvec.iter_not_null();
    assert_eq!(it.size_hint(), (9, Some(9)));

    assert_eq!(it.next(), Some(&2));
    assert_eq!(it.size_hint(), (7, Some(7)));

    assert_eq!(it.next(), Some(&3));
    assert_eq!(it.size_hint(), (6, Some(6)));

    assert_eq!(it.next(), Some(&7));
    assert_eq!(it.size_hint(), (2, Some(2)));

    assert_eq!(it.next(), None);
    assert_eq!(it.size_hint(), (0, Some(0)));

    assert_eq!(it.next(), None);
    assert_eq!(it.size_hint(), (0, Some(0)));
}
