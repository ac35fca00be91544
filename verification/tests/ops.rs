use nullvec::Float64;
use nullvec::NullVec;
use nullvec::Nullable;

fn f(x: f64) -> Float64 {
    Float64::from_bits(x.to_bits())
}

fn fv(xs: &[f64]) -> Vec<Float64> {
    let mut out = Vec::new();
    for x in xs {
        out.push(f(*x));
    }
    out
}

#[test]
fn nullvec_ops_test_int() {
    let values: Vec<usize> = vec![1, 2, 3];
    let nvec = NullVec::new(values);

    let res = nvec + 2;
    assert_eq!(res.data_ref(), &vec![3, 4, 5]);
    assert_eq!(res.mask_ref(), &None);
}

#[test]
fn nullvec_ops_test_float() {
    let nvec = NullVec::new(fv(&[1.1, 1.2, 1.3]));

    let res = nvec + f(2.0);
    assert_eq!(res.data_ref(), &fv(&[3.1, 3.2, 3.3]));
    assert_eq!(res.mask_ref(), &None);
}

#[test]
fn nullvec_ops_test_float_nan() {
    let nvec = NullVec::new(fv(&[1.1, f64::NAN, 1.3]));

    let res = nvec + f(2.0);
    assert_eq!(res.data_ref(), &fv(&[3.1, 2.0, 3.3]));
    assert_eq!(res.mask_ref(), &Some(vec![false, true, false]));
}

#[test]
fn nullvec_ops_primitive_test_int() {
    let values: Vec<usize> = vec![1, 2, 3];
    let nvec = NullVec::new(values);
    let res = nvec + 2;
    assert_eq!(res.data_ref(), &vec![3, 4, 5]);
    assert_eq!(res.mask_ref(), &None);
}

#[test]
fn nullvec_ops_primitive_test_int_ref_rhs() {
    let values: Vec<usize> = vec![1, 2, 3];
    let nvec = NullVec::new(values);
    let res = nvec + &2;
    assert_eq!(res.data_ref(), &vec![3, 4, 5]);
    assert_eq!(res.mask_ref(), &None);
}

#[test]
fn nullvec_ops_primitive_test_int_ref_lhs() {
    let values: Vec<usize> = vec![1, 2, 3];
    let nvec = NullVec::new(values);
    let res = &nvec + 2;
    assert_eq!(res.data_ref(), &vec![3, 4, 5]);
    assert_eq!(res.mask_ref(), &None);
}

#[test]
fn nullvec_ops_primitive_test_int_ref_both() {
    let values: Vec<usize> = vec![1, 2, 3];
    let nvec = NullVec::new(values);
    let res = &nvec + &2;
    assert_eq!(res.data_ref(), &vec![3, 4, 5]);
    assert_eq!(res.mask_ref(), &None);
}

#[test]
fn nullvec_ops_primitive_test_float() {
    let nvec = NullVec::new(fv(&[1.1, 1.2, 1.3]));

    let res = nvec + f(2.0);
    assert_eq!(res.data_ref(), &fv(&[3.1, 3.2, 3.3]));
    assert_eq!(res.mask_ref(), &None);
}

#[test]
fn nullvec_ops_primitive_test_float_nan() {
    let nvec = NullVec::new(fv(&[1.1, f64::NAN, 1.3]));

    let res = nvec + f(2.0);
    assert_eq!(res.data_ref(), &fv(&[3.1, 2.0, 3.3]));
    assert_eq!(res.mask_ref(), &Some(vec![false, true, false]));
}

#[test]
fn nullvec_ops_primitive_test_bool() {
    let values: Vec<bool> = vec![true, false, true];
    let nvec = NullVec::new(values);

    let res = nvec & true;
    assert_eq!(res.data_ref(), &vec![true, false, true]);
    assert_eq!(res.mask_ref(), &None);
}

#[test]
fn nullvec_ops_nullable_test_int() {
    let values: Vec<usize> = vec![1, 2, 3];
    let nvec = NullVec::new(values);
    let res = nvec + Nullable::Value(2);
    assert_eq!(res.data_ref(), &vec![3, 4, 5]);
    assert_eq!(res.mask_ref(), &None);

    let values: Vec<usize> = vec![1, 2, 3];
    let nvec = NullVec::new(values);
    let res = nvec + Nullable::Null;
    assert_eq!(res.data_ref(), &vec![1, 2, 3]);
    assert_eq!(res.mask_ref(), &Some(vec![true, true, true]));
}

#[test]
fn nullvec_ops_nullable_test_int_ref_rhs() {
    let values: Vec<usize> = vec![1, 2, 3];
    let nvec = NullVec::new(values);
    let res = nvec + &Nullable::Value(2);
    assert_eq!(res.data_ref(), &vec![3, 4, 5]);
    assert_eq!(res.mask_ref(), &None);

    let values: Vec<usize> = vec![1, 2, 3];
    let nvec = NullVec::new(values);
    let res = nvec + &Nullable::Null;
    assert_eq!(res.data_ref(), &vec![1, 2, 3]);
    assert_eq!(res.mask_ref(), &Some(vec![true, true, true]));
}

#[test]
fn nullvec_ops_nullable_test_int_ref_lhs() {
    let values: Vec<usize> = vec![1, 2, 3];
    let nvec = NullVec::new(values);
    let res = &nvec + Nullable::Value(2);
    assert_eq!(res.data_ref(), &vec![3, 4, 5]);
    assert_eq!(res.mask_ref(), &None);

    let res = &nvec + Nullable::Null;
    assert_eq!(res.data_ref(), &vec![1, 2, 3]);
    assert_eq!(res.mask_ref(), &Some(vec![true, true, true]));
}

#[test]
fn nullvec_ops_nullable_test_int_ref_both() {
    let values: Vec<usize> = vec![1, 2, 3];
    let nvec = NullVec::new(values);
    let res = &nvec + &Nullable::Value(2);
    assert_eq!(res.data_ref(), &vec![3, 4, 5]);
    assert_eq!(res.mask_ref(), &None);

    let res = &nvec + &Nullable::Null;
    assert_eq!(res.data_ref(), &vec![1, 2, 3]);
    assert_eq!(res.mask_ref(), &Some(vec![true, true, true]));
}

#[test]
fn nullvec_ops_nullable_test_float() {
    let nvec = NullVec::new(fv(&[1.1, 1.2, 1.3]));
    let res = nvec + Nullable::Value(f(2.0));
    assert_eq!(res.data_ref(), &fv(&[3.1, 3.2, 3.3]));
    assert_eq!(res.mask_ref(), &None);

    let nvec = NullVec::new(fv(&[1.1, 1.2, 1.3]));
    let res = nvec + Nullable::Null;
    assert_eq!(res.data_ref(), &fv(&[1.1, 1.2, 1.3]));
    assert_eq!(res.mask_ref(), &Some(vec![true, true, true]));
}

#[test]
fn nullvec_ops_nullable_test_float_nan() {
    let nvec = NullVec::new(fv(&[1.1, f64::NAN, 1.3]));
    let res = nvec + Nullable::Value(f(2.0));
    assert_eq!(res.data_ref(), &fv(&[3.1, 2.0, 3.3]));
    assert_eq!(res.mask_ref(), &Some(vec![false, true, false]));

    let nvec = NullVec::new(fv(&[1.1, f64::NAN, 1.3]));
    let res = nvec + Nullable::Null;
    assert_eq!(res.data_ref(), &fv(&[1.1, 0.0, 1.3]));
    assert_eq!(res.mask_ref(), &Some(vec![true, true, true]));
}

#[test]
fn nullvec_ops_nullable_test_bool() {
    let values: Vec<bool> = vec![true, false, true];
    let nvec = NullVec::new(values);
    let res = nvec & Nullable::Value(true);
    assert_eq!(res.data_ref(), &vec![true, false, true]);
    assert_eq!(res.mask_ref(), &None);

    let values: Vec<bool> = vec![true, false, true];
    let nvec = NullVec::new(values);
    let res = nvec & Nullable::Null;
    assert_eq!(res.data_ref(), &vec![true, false, true]);
    assert_eq!(res.mask_ref(), &Some(vec![true, true, true]));
}

#[test]
fn nullvec_vec_ops_test_int() {
    let values: Vec<usize> = vec![1, 2, 3];
    let nvec = NullVec::new(values);
    let res = nvec + vec![2, 2, 2];
    assert_eq!(res.data_ref(), &vec![3, 4, 5]);
    assert_eq!(res.mask_ref(), &None);
}

#[test]
fn nullvec_vec_ops_test_int_ref_rhs() {
    let values: Vec<usize> = vec![1, 2, 3];
    let nvec = NullVec::new(values);
    let res = nvec + &vec![2, 2, 2];
    assert_eq!(res.data_ref(), &vec![3, 4, 5]);
    assert_eq!(res.mask_ref(), &None);
}

#[test]
fn nullvec_vec_ops_test_int_ref_lhs() {
    let values: Vec<usize> = vec![1, 2, 3];
    let nvec = NullVec::new(values);
    let res = &nvec + vec![2, 2, 2];
    assert_eq!(res.data_ref(), &vec![3, 4, 5]);
    assert_eq!(res.mask_ref(), &None);
}

#[test]
fn nullvec_vec_ops_test_int_ref_both() {
    let values: Vec<usize> = vec![1, 2, 3];
    let nvec = NullVec::new(values);
    let res = &nvec + &vec![2, 2, 2];
    assert_eq!(res.data_ref(), &vec![3, 4, 5]);
    assert_eq!(res.mask_ref(), &None);
}

#[test]
fn nullvec_vec_ops_test_float() {
    let nvec = NullVec::new(fv(&[1.1, 1.2, 1.3]));
    let res = nvec + fv(&[2.0, 2.0, 2.0]);
    assert_eq!(res.data_ref(), &fv(&[3.1, 3.2, 3.3]));
    assert_eq!(res.mask_ref(), &None);
}

#[test]
fn nullvec_vec_ops_test_float_nan() {
    let nvec = NullVec::new(fv(&[1.1, f64::NAN, 1.3]));
    let res = nvec + fv(&[2.0, 2.0, 2.0]);
    assert_eq!(res.data_ref(), &fv(&[3.1, 2.0, 3.3]));
    assert_eq!(res.mask_ref(), &Some(vec![false, true, false]));
}

#[test]
fn nullvec_vec_ops_test_bool() {
    let values: Vec<bool> = vec![true, false, true];
    let nvec = NullVec::new(values);
    let res = nvec & vec![true, true, true];
    assert_eq!(res.data_ref(), &vec![true, false, true]);
    assert_eq!(res.mask_ref(), &None);
}

#[test]
fn nullvec_nullvec_ops_test_int() {
    let v1: Vec<usize> = vec![1, 2, 3];
    let nvec1 = NullVec::new(v1);
    let v2: Vec<usize> = vec![2, 2, 2];
    let nvec2 = NullVec::new(v2);

    let res = nvec1 + nvec2;
    assert_eq!(res.data_ref(), &vec![3, 4, 5]);
    assert_eq!(res.mask_ref(), &None);
}

#[test]
fn nullvec_nullvec_ops_test_int_ref_rhs() {
    let v1: Vec<usize> = vec![1, 2, 3];
    let nvec1 = NullVec::new(v1);
    let v2: Vec<usize> = vec![2, 2, 2];
    let nvec2 = NullVec::new(v2);

    let res = nvec1 + &nvec2;
    assert_eq!(res.data_ref(), &vec![3, 4, 5]);
    assert_eq!(res.mask_ref(), &None);
}

#[test]
fn nullvec_nullvec_ops_test_int_ref_lhs() {
    let v1: Vec<usize> = vec![1, 2, 3];
    let nvec1 = NullVec::new(v1);
    let v2: Vec<usize> = vec![2, 2, 2];
    let nvec2 = NullVec::new(v2);

    let res = &nvec1 + nvec2;
    assert_eq!(res.data_ref(), &vec![3, 4, 5]);
    assert_eq!(res.mask_ref(), &None);
}

#[test]
fn nullvec_nullvec_ops_test_int_ref_both() {
    let v1: Vec<usize> = vec![1, 2, 3];
    let nvec1 = NullVec::new(v1);
    let v2: Vec<usize> = vec![2, 2, 2];
    let nvec2 = NullVec::new(v2);

    let res = &nvec1 + &nvec2;
    assert_eq!(res.data_ref(), &vec![3, 4, 5]);
    assert_eq!(res.mask_ref(), &None);
}

#[test]
fn nullvec_nullvec_ops_test_float() {
    let nvec1 = NullVec::new(fv(&[1.1, 1.2, 1.3]));
    let nvec2 = NullVec::new(fv(&[2.0, 2.0, 2.0]));

    let res = nvec1 + nvec2;
    assert_eq!(res.data_ref(), &fv(&[3.1, 3.2, 3.3]));
    assert_eq!(res.mask_ref(), &None);
}

#[test]
fn test_float_nan_lhs() {
    let nvec1 = NullVec::new(fv(&[1.0, f64::NAN, 3.0]));
    let nvec2 = NullVec::new(fv(&[1.0, 2.0, 3.0]));

    let res = nvec1 + nvec2;
    assert_eq!(res.data_ref(), &fv(&[2.0, 2.0, 6.0]));
    assert_eq!(res.mask_ref(), &Some(vec![false, true, false]));
}

#[test]
fn test_float_nan_rhs() {
    let nvec1 = NullVec::new(fv(&[1.0, 2.0, 3.0]));
    let nvec2 = NullVec::new(fv(&[1.0, f64::NAN, 3.0]));

    let res = nvec1 + nvec2;
    assert_eq!(res.data_ref(), &fv(&[2.0, 2.0, 6.0]));
    assert_eq!(res.mask_ref(), &Some(vec![false, true, false]));
}

#[test]
fn test_float_nan_both() {
    let nvec1 = NullVec::new(fv(&[1.0, f64::NAN, 3.0]));
    let nvec2 = NullVec::new(fv(&[1.0, f64::NAN, 3.0]));

    let res = nvec1 + nvec2;
    assert_eq!(res.data_ref(), &fv(&[2.0, 0.0, 6.0]));
    assert_eq!(res.mask_ref(), &Some(vec![false, true, false]));
}

#[test]
fn nullvec_nullvec_ops_test_bool() {
    let v1: Vec<bool> = vec![true, false, true];
    let nvec1 = NullVec::new(v1);
    let v2: Vec<bool> = vec![true, true, true];
    let nvec2 = NullVec::new(v2);

    let res = nvec1 & nvec2;
    assert_eq!(res.data_ref(), &vec![true, false, true]);
    assert_eq!(res.mask_ref(), &None);
}
