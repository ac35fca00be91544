use nullvec::Array;
use nullvec::Error;
use nullvec::Float32;
use nullvec::Float64;
use nullvec::NullVec;
use nullvec::Nullable;
use nullvec::Scalar;

fn f(x: f64) -> Float64 {
    Float64::from_bits(x.to_bits())
}

fn fv(xs: &[f64]) -> Vec<Float64> {
    let mut out = Vec::new();
    for x in xs {
        out.push(f(*x));
    }
    out
}

#[test]
fn test_float_conv_from_vec() {
    let nv = NullVec::new(fv(&[1.0, 2.0]));
    assert_eq!(nv.data_ref(), &fv(&[1.0, 2.0]));
    assert_eq!(nv.mask_ref(), &None);

    let res = nv.into_vec().unwrap();
    assert_eq!(res, fv(&[1.0, 2.0]));

    let nv = NullVec::new(fv(&[1.0, f64::NAN]));
    assert_eq!(nv.data_ref(), &fv(&[1.0, 0.0]));
    assert_eq!(nv.mask_ref(), &Some(vec![false, true]));
}

#[test]
fn test_float_conv_from_vec_contains_null() {
    let nv = NullVec::new(fv(&[1.0, f64::NAN]));
    assert_eq!(nv.data_ref(), &fv(&[1.0, 0.0]));
    assert_eq!(nv.mask_ref(), &Some(vec![false, true]));

    assert_eq!(nv.into_vec().unwrap_err(), Error::CoercionError);
}

#[test]
fn test_float_conv_from_nullablevec() {
    let nv = NullVec::from_nullables(vec![Nullable::Value(f(1.0)), Nullable::Value(f(2.0))]);
    assert_eq!(nv.data_ref(), &fv(&[1.0, 2.0]));
    assert_eq!(nv.mask_ref(), &None);

    let res = nv.into_nullables();
    assert_eq!(res, vec![Nullable::Value(f(1.0)), Nullable::Value(f(2.0))]);

    let nv = NullVec::from_nullables(vec![Nullable::Value(f(1.0)), Nullable::Null]);
    assert_eq!(nv.data_ref(), &fv(&[1.0, 0.0]));
    assert_eq!(nv.mask_ref(), &Some(vec![false, true]));

    let res = nv.into_nullables();
    assert_eq!(res, vec![Nullable::Value(f(1.0)), Nullable::Null]);
}

#[test]
fn test_empty_scalar_to_array() {
    let vals: Vec<Scalar> = vec![];
    let r = Array::new(vals);
    assert_eq!(r.unwrap_err(), Error::EmptyInputError);
}

#[test]
fn test_null_first_scalar_to_array() {
    let vals: Vec<Scalar> = vec![Scalar::Null, Scalar::i64(1)];
    let r = Array::new(vals);
    assert_eq!(r.unwrap_err(), Error::EmptyInputError);
}

#[test]
fn test_i64_vec_to_array() {
    let exp = Array::Int64Array(NullVec::new(vec![1, 2]));

    let vals: Vec<i64> = vec![1, 2];
    let res = Array::new(vals).unwrap();
    assert_eq!(res, exp);

    let vals: Vec<Scalar> = vec![Scalar::i64(1), Scalar::i64(2)];
    let res = Array::new(vals).unwrap();
    assert_eq!(res, exp);
}

#[test]
fn test_usize_vec_to_array() {
    let exp = Array::UsizeArray(NullVec::new(vec![1, 2]));

    let vals: Vec<usize> = vec![1, 2];
    let res = Array::new(vals).unwrap();
    assert_eq!(res, exp);

    let vals: Vec<Scalar> = vec![Scalar::usize(1), Scalar::usize(2)];
    let res = Array::new(vals).unwrap();
    assert_eq!(res, exp);
}

#[test]
fn test_f64_vec_to_array() {
    let exp = Array::Float64Array(NullVec::new(fv(&[1.1, 2.2])));

    let vals = fv(&[1.1, 2.2]);
    let res = Array::new(vals).unwrap();
    assert_eq!(res, exp);

    let vals: Vec<Scalar> = vec![Scalar::Float64(f(1.1)), Scalar::Float64(f(2.2))];
    let res = Array::new(vals).unwrap();
    assert_eq!(res, exp);
}

#[test]
fn test_mixed_scalar_to_array_casts() {
    // the first element fixes the kind; the rest coerce to it
    let vals: Vec<Scalar> = vec![Scalar::i64(1), Scalar::Float64(f(2.5)), Scalar::Null];
    let res = Array::new(vals).unwrap();
    let exp = Array::Int64Array(
        NullVec::with_mask(vec![1, 2, 0], Some(vec![false, false, true])).unwrap(),
    );
    assert_eq!(res, exp);
}

#[test]
fn test_uncoercible_scalar_to_array() {
    let vals: Vec<Scalar> = vec![Scalar::i64(1), Scalar::bool(true)];
    assert_eq!(Array::new(vals).unwrap_err(), Error::CoercionError);
}

#[test]
fn test_bool_vec_to_array() {
    let exp = Array::BoolArray(NullVec::new(vec![true, false]));

    let vals: Vec<bool> = vec![true, false];
    let res = Array::new(vals).unwrap();
    assert_eq!(res, exp);

    let vals: Vec<Scalar> = vec![Scalar::bool(true), Scalar::bool(false)];
    let res = Array::new(vals).unwrap();
    assert_eq!(res, exp);
}

#[test]
fn test_str_vec_to_array() {
    let exp = Array::StringArray(NullVec::new(vec!["a".to_string(), "b".to_string()]));

    let vals: Vec<String> = vec!["a".to_string(), "b".to_string()];
    let res = Array::new(vals).unwrap();
    assert_eq!(res, exp);

    let vals: Vec<Scalar> = vec![
        Scalar::String("a".to_string()),
        Scalar::String("b".to_string()),
    ];
    let res = Array::new(vals).unwrap();
    assert_eq!(res, exp);
}

#[test]
fn test_i64_array_to_scalars() {
    let arr = Array::Int64Array(
        NullVec::with_mask(vec![1, 2], Some(vec![false, true])).unwrap(),
    );
    let res = arr.into_scalars();
    assert_eq!(res, vec![Scalar::i64(1), Scalar::Null]);
}

#[test]
fn test_i64_primitives_to_scalar() {
    let s = Scalar::from(10i64);
    assert_eq!(s, Scalar::i64(10));
    assert_eq!(s.dtype(), "i64");
    assert_eq!(s.as_i64().unwrap(), Nullable::Value(10));
}

#[test]
fn test_f64_primitives_to_scalar() {
    let s = Scalar::from(f(0.1));
    assert_eq!(s, Scalar::Float64(f(0.1)));
}

#[test]
fn test_bool_primitives_to_scalar() {
    let s = Scalar::from(true);
    assert_eq!(s, Scalar::bool(true));
}

#[test]
fn test_str_primitives_to_scalar() {
    let s = Scalar::from("Hello world".to_string());
    assert_eq!(s, Scalar::String("Hello world".to_string()));
}

#[test]
fn test_i64_scalar_to_primitives() {
    let s = Scalar::i64(10);
    assert_eq!(s.as_usize().unwrap(), Nullable::Value(10usize));
    assert_eq!(s.as_float64().unwrap(), Nullable::Value(f(10.0)));
}

#[test]
fn test_i64_dtype_property() {
    let i = Scalar::i64(1);
    assert_eq!(i.dtype(), "i64".to_string());
    assert_eq!(i.is_i64(), true);
    assert_eq!(i.is_float64(), false);
    assert_eq!(i.is_bool(), false);
    assert_eq!(i.is_str(), false);

    assert_eq!(i.as_i64().unwrap(), Nullable::new(1i64));
    assert_eq!(i.as_usize().unwrap(), Nullable::new(1usize));
    assert_eq!(i.as_float64().unwrap(), Nullable::new(f(1.0)));
}

#[test]
fn test_f64_dtype_property() {
    let s = Scalar::Float64(f(1.1));
    assert_eq!(s.dtype(), "float64".to_string());
    assert_eq!(s.is_i64(), false);
    assert_eq!(s.is_float64(), true);
    assert_eq!(s.is_bool(), false);
    assert_eq!(s.is_str(), false);

    assert_eq!(s.as_float64().unwrap(), Nullable::new(f(1.1)));
    assert_eq!(s.as_i64().unwrap(), Nullable::new(1.1f64 as i64));
    assert_eq!(s.as_usize().unwrap(), Nullable::new(1.1f64 as usize));
}

#[test]
fn test_float_to_int_cast_saturates() {
    assert_eq!(
        Scalar::Float64(f(1e300)).as_i16().unwrap(),
        Nullable::Value(i16::MAX)
    );
    assert_eq!(
        Scalar::Float64(f(-1e300)).as_u8().unwrap(),
        Nullable::Value(0u8)
    );
    assert_eq!(
        Scalar::Float64(f(f64::NAN)).as_i64().unwrap(),
        Nullable::Value(0i64)
    );
}

#[test]
fn test_i64_to_bool() {
    let i = Scalar::i64(1);
    assert_eq!(i.as_bool().unwrap_err(), Error::CoercionError);
}

#[test]
fn test_i64_to_str() {
    let i = Scalar::i64(1);
    assert_eq!(i.as_str().unwrap_err(), Error::CoercionError);
}

#[test]
fn test_f64_to_bool() {
    let s = Scalar::Float64(f(1.1));
    assert_eq!(s.as_bool().unwrap_err(), Error::CoercionError);
}

#[test]
fn test_bool_to_f64() {
    let b = Scalar::bool(true);
    assert_eq!(b.as_float64().unwrap_err(), Error::CoercionError);
}

#[test]
fn test_str_to_i64() {
    let s = Scalar::String("1".to_string());
    assert_eq!(s.as_i64().unwrap_err(), Error::CoercionError);
}

#[test]
fn test_bool_dtype_property() {
    let b = Scalar::bool(true);
    assert_eq!(b.dtype(), "bool".to_string());
    assert_eq!(b.is_i64(), false);
    assert_eq!(b.is_float64(), false);
    assert_eq!(b.is_bool(), true);
    assert_eq!(b.is_str(), false);

    assert_eq!(b.as_bool().unwrap(), Nullable::new(true));
}

#[test]
fn test_str_dtype_property() {
    let s = Scalar::String("aa".to_string());
    assert_eq!(s.dtype(), "str".to_string());
    assert_eq!(s.is_i64(), false);
    assert_eq!(s.is_float64(), false);
    assert_eq!(s.is_bool(), false);
    assert_eq!(s.is_str(), true);

    assert_eq!(s.as_str().unwrap(), Nullable::new("aa".to_string()));
}

#[test]
fn test_float32_casts() {
    let g = |x: f32| Float32::from_bits(x.to_bits());
    let s = Scalar::Float32(g(1.5));
    assert_eq!(s.dtype(), "float32");
    assert_eq!(s.as_float64().unwrap(), Nullable::Value(f(1.5)));
    assert_eq!(s.as_i64().unwrap(), Nullable::Value(1i64));

    let t = Scalar::i64(7);
    assert_eq!(t.as_float32().unwrap(), Nullable::Value(g(7.0)));

    let d = Scalar::Float64(f(1.5));
    assert_eq!(d.as_float32().unwrap(), Nullable::Value(g(1.5)));
}

#[test]
fn test_scalar_dup() {
    let s = Scalar::String("aa".to_string());
    assert_eq!(s.dup(), s);
    let n = Scalar::i64(3);
    assert_eq!(n.dup(), n);
}

#[test]
fn test_null_scalar() {
    let n = Scalar::Null;
    assert_eq!(n.dtype(), "null".to_string());
    assert_eq!(n.is_null(), true);
    assert_eq!(n.as_i64().unwrap(), Nullable::Null);
    assert_eq!(n.as_bool().unwrap(), Nullable::Null);
}
