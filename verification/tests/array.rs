use nullvec::Array;
use nullvec::Error;
use nullvec::Float64;
use nullvec::NullVec;
use nullvec::Nullable;
use nullvec::Scalar;

fn f(x: f64) -> Float64 {
    Float64::from_bits(x.to_bits())
}

fn fv(xs: &[f64]) -> Vec<Float64> {
    let mut out = Vec::new();
    for x in xs {
        out.push(f(*x));
    }
    out
}

#[test]
fn test_creation() {
    let iarr = Array::Int64Array(NullVec::new(vec![1, 2, 3]));
    assert_eq!(iarr.len(), 3);

    let farr = Array::Float64Array(NullVec::new(fv(&[1.1, 2.1, 3.1, 4.1])));
    assert_eq!(farr.len(), 4);

    let barr = Array::BoolArray(NullVec::new(vec![true, false, true]));
    assert_eq!(barr.len(), 3);

    let sarr = Array::StringArray(NullVec::new(vec!["a".to_string(), "b".to_string()]));
    assert_eq!(sarr.len(), 2);
}

#[test]
fn test_creation_new() {
    let iarr = Array::new(vec![1i32, 2, 3]).unwrap();
    assert_eq!(iarr.len(), 3);

    let i64arr = Array::new(vec![1i64, 2, 3]).unwrap();
    assert_eq!(i64arr.len(), 3);

    let farr = Array::new(fv(&[1.1, 2.1, 3.1, 4.1])).unwrap();
    assert_eq!(farr.len(), 4);

    let barr = Array::new(vec![true, false, true]).unwrap();
    assert_eq!(barr.len(), 3);

    let sarr = Array::new(vec!["a".to_string(), "b".to_string()]).unwrap();
    assert_eq!(sarr.len(), 2);
}

#[test]
fn test_creation_macros() {
    let iarr = Array::new(vec![1i32, 2, 3]).unwrap();
    assert_eq!(iarr.len(), 3);

    let i64arr = Array::new(vec![1i64, 2, 3]).unwrap();
    assert_eq!(i64arr.len(), 3);

    let farr = Array::new(fv(&[1.1, 2.1, 3.1, 4.1])).unwrap();
    assert_eq!(farr.len(), 4);

    let barr = Array::new(vec![true, false, true]).unwrap();
    assert_eq!(barr.len(), 3);

    let string_arr = Array::new(vec!["A".to_string(), "B".to_string(), "C".to_string()]).unwrap();
    assert_eq!(string_arr.len(), 3);
}

#[test]
fn test_dtype_property() {
    let iarr = Array::new(vec![1i32, 2, 3]).unwrap();
    assert_eq!(iarr.is_numeric(), true);
    assert_eq!(iarr.dtype(), "i32");

    let farr = Array::new(fv(&[1.1, 2.1, 3.1, 4.1])).unwrap();
    assert_eq!(farr.is_numeric(), true);
    assert_eq!(farr.dtype(), "float64");

    let barr = Array::new(vec![true, false, true]).unwrap();
    assert_eq!(barr.is_numeric(), false);

    let sarr = Array::new(vec!["a".to_string(), "b".to_string()]).unwrap();
    assert_eq!(sarr.is_numeric(), false);
}

#[test]
fn test_eq() {
    let iarr1 = Array::new(vec![1i32, 2, 3]).unwrap();
    let iarr2 = Array::new(vec![2i32, 3, 4]).unwrap();
    let iarr3 = Array::new(vec![1i32, 2, 3, 4, 5]).unwrap();
    let iarr4 = Array::new(vec![1i32, 2, 3]).unwrap();
    assert_eq!(iarr1, iarr1);
    assert_eq!(iarr1 == iarr2, false);
    assert_eq!(iarr1 == iarr3, false);
    assert_eq!(iarr1, iarr4);

    let farr1 = Array::new(fv(&[1.0, 2.0, 3.0])).unwrap();
    let farr2 = Array::new(fv(&[2.0, 3.0, 4.0])).unwrap();
    let farr3 = Array::new(fv(&[1.0, 2.0, 3.0, 4.0, 5.0])).unwrap();
    let farr4 = Array::new(fv(&[1.0, 2.0, 3.0])).unwrap();
    assert_eq!(farr1, farr1);
    assert_eq!(farr1 == farr2, false);
    assert_eq!(farr1 == farr3, false);
    assert_eq!(farr1, farr4);

    assert_eq!(iarr1 == farr1, false);
    assert_eq!(iarr2 == farr2, false);
    assert_eq!(iarr3 == farr3, false);
    assert_eq!(iarr4 == farr4, false);
}

#[test]
fn test_clone() {
    let iarr1 = Array::new(vec![1i32, 2, 3]).unwrap();
    assert_eq!(iarr1, iarr1.clone());
}

#[test]
fn array_test_ilocs() {
    let iarr = Array::new(vec![1i32, 2, 3, 4, 5]).unwrap();
    assert_eq!(iarr.iloc(&2).unwrap(), Scalar::i32(3));
    let ires = iarr.ilocs(&vec![1, 4, 0]).unwrap();
    assert_eq!(ires, Array::new(vec![2i32, 5, 1]).unwrap());

    let farr = Array::new(fv(&[1.1, 2.1, 3.1, 4.1, 5.1])).unwrap();
    assert_eq!(farr.iloc(&2).unwrap(), Scalar::Float64(f(3.1)));
    let fres = farr.ilocs(&vec![1, 4, 0]).unwrap();
    assert_eq!(fres, Array::new(fv(&[2.1, 5.1, 1.1])).unwrap());

    let barr = Array::new(vec![true, false, true, true]).unwrap();
    assert_eq!(barr.iloc(&2).unwrap(), Scalar::bool(true));
    let bres = barr.ilocs(&vec![1, 2]).unwrap();
    assert_eq!(bres, Array::new(vec![false, true]).unwrap());

    let sarr = Array::new(vec!["a".to_string(), "b".to_string(), "c".to_string()]).unwrap();
    assert_eq!(sarr.iloc(&2).unwrap(), Scalar::String("c".to_string()));
    let sres = sarr.ilocs(&vec![2, 0]).unwrap();
    assert_eq!(
        sres,
        Array::new(vec!["c".to_string(), "a".to_string()]).unwrap()
    );
}

#[test]
fn test_ilocs_panic() {
    let iarr = Array::new(vec![1i32, 2, 3, 4, 5]).unwrap();
    assert_eq!(iarr.ilocs(&vec![1, 5, 0]).unwrap_err(), Error::BoundsError);
}

#[test]
fn test_ilocs_forced_array() {
    let iarr = Array::new(vec![1i32, 2, 3]).unwrap();
    let res = iarr.ilocs_forced(&vec![5, 1]);
    assert_eq!(res.iloc(&0).unwrap(), Scalar::Null);
    assert_eq!(res.iloc(&1).unwrap(), Scalar::i32(2));
}

#[test]
fn array_test_blocs() {
    let iarr = Array::new(vec![1i32, 2, 3]).unwrap();
    let ires = iarr.blocs(&vec![true, false, true]).unwrap();
    assert_eq!(ires, Array::new(vec![1i32, 3]).unwrap());

    let farr = Array::new(fv(&[1.1, 2.1, 3.1])).unwrap();
    let fres = farr.blocs(&vec![true, false, true]).unwrap();
    assert_eq!(fres, Array::new(fv(&[1.1, 3.1])).unwrap());

    let barr = Array::new(vec![true, false, true]).unwrap();
    let bres = barr.blocs(&vec![true, false, true]).unwrap();
    assert_eq!(bres, Array::new(vec![true, true]).unwrap());

    let sarr = Array::new(vec!["a".to_string(), "b".to_string(), "c".to_string()]).unwrap();
    let sres = sarr.blocs(&vec![true, false, true]).unwrap();
    assert_eq!(
        sres,
        Array::new(vec!["a".to_string(), "c".to_string()]).unwrap()
    );
}

#[test]
fn test_blocs_length_mismatch_array() {
    let iarr = Array::new(vec![1i32, 2, 3]).unwrap();
    assert_eq!(
        iarr.blocs(&vec![true, false]).unwrap_err(),
        Error::LengthMismatchError
    );
}

#[test]
fn test_container() {
    let iarr = Array::new(vec![1i32, 2, 3]).unwrap();
    let farr = Array::new(fv(&[1.1, 2.1, 3.1])).unwrap();
    let barr = Array::new(vec![true, false, true]).unwrap();
    let sarr = Array::new(vec!["a".to_string(), "b".to_string(), "c".to_string()]).unwrap();

    let container: Vec<Array> = vec![iarr, farr, barr, sarr];
    assert_eq!(container.len(), 4);
}

#[test]
fn test_append() {
    let iarr1 = Array::new(vec![1i32, 2, 3]).unwrap();
    let iarr2 = Array::new(vec![1i32, 2, 3]).unwrap();
    let res = iarr1.append(&iarr2).unwrap();
    let exp = Array::new(vec![1i32, 2, 3, 1, 2, 3]).unwrap();
    assert_eq!(res, exp);
}

#[test]
fn test_append_type_mismatch() {
    let iarr = Array::new(vec![1i32, 2, 3]).unwrap();
    let barr = Array::new(vec![true, false]).unwrap();
    assert_eq!(iarr.append(&barr).unwrap_err(), Error::TypeMismatchError);
}

#[test]
fn test_aggregation_int64() {
    let arr = Array::Int64Array(NullVec::new(vec![1, 2, 3]));
    assert_eq!(arr.sum().unwrap(), Scalar::i64(6));
    assert_eq!(arr.count().unwrap(), 3);
    assert_eq!(arr.mean().unwrap(), Nullable::new(f(2.0)));
    assert_eq!(arr.var().unwrap(), Nullable::new(f(0.6666666666666666)));
    assert_eq!(arr.unbiased_var().unwrap(), Nullable::new(f(1.0)));
    assert_eq!(arr.stdev().unwrap(), Nullable::new(f(0.816496580927726)));
    assert_eq!(arr.unbiased_stdev().unwrap(), Nullable::new(f(1.0)));

    assert_eq!(arr.min().unwrap(), Scalar::i64(1));
    assert_eq!(arr.max().unwrap(), Scalar::i64(3));
}

#[test]
fn test_aggregation_float64() {
    let arr = Array::Float64Array(NullVec::new(fv(&[1.0, 2.0, 3.0])));
    assert_eq!(arr.sum().unwrap(), Scalar::Float64(f(6.0)));
    assert_eq!(arr.count().unwrap(), 3);
    assert_eq!(arr.mean().unwrap(), Nullable::new(f(2.0)));
    assert_eq!(arr.var().unwrap(), Nullable::new(f(0.6666666666666666)));
    assert_eq!(arr.unbiased_var().unwrap(), Nullable::new(f(1.0)));
    assert_eq!(arr.stdev().unwrap(), Nullable::new(f(0.816496580927726)));
    assert_eq!(arr.unbiased_stdev().unwrap(), Nullable::new(f(1.0)));

    assert_eq!(arr.min().unwrap(), Scalar::Float64(f(1.0)));
    assert_eq!(arr.max().unwrap(), Scalar::Float64(f(3.0)));
}

#[test]
fn test_aggregation_sum_should_panic() {
    let nv = NullVec::new(vec!["a".to_string(), "b".to_string(), "c".to_string()]);
    let arr = Array::StringArray(nv);
    assert_eq!(arr.sum().unwrap_err(), Error::CoercionError);
}

#[test]
fn test_aggregation_mean_should_panic() {
    let nv = NullVec::new(vec!["a".to_string(), "b".to_string(), "c".to_string()]);
    let arr = Array::StringArray(nv);
    assert_eq!(arr.mean().unwrap_err(), Error::CoercionError);
}

#[test]
fn test_aggregation_min_should_panic() {
    let nv = NullVec::new(vec!["a".to_string(), "b".to_string(), "c".to_string()]);
    let arr = Array::StringArray(nv);
    assert_eq!(arr.min().unwrap_err(), Error::CoercionError);
}
