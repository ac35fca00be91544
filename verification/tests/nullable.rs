use nullvec::Float64;
use nullvec::Null;
use nullvec::Nullable;

fn f(x: f64) -> Float64 {
    Float64::from_bits(x.to_bits())
}

#[test]
fn mod_test_int() {
    let i1 = Nullable::new(3);
    let i2 = Nullable::new(3);
    assert_eq!(i1, i1);
    assert_eq!(i1, i2);
    assert_eq!(i1, Nullable::new(3));

    assert!(i1 != Nullable::Null);
}

#[test]
fn mod_test_float() {
    let i1 = Nullable::new(f(1.1));
    let i2 = Nullable::new(f(f64::NAN));
    assert_eq!(i1, Nullable::Value(f(1.1)));
    assert_eq!(i2, Nullable::Null);
}

#[test]
fn mod_test_int_conv_from() {
    let i = Nullable::<i64>::new(3);
    assert_eq!(i, Nullable::new(3));
    let o = match i {
        Nullable::Value(v) => v,
        Nullable::Null => panic!("unexpected null"),
    };
    assert_eq!(o, 3);
}

#[test]
fn mod_test_float_conv_from() {
    let fv = Nullable::<Float64>::new(f(3.0));
    assert_eq!(fv, Nullable::new(f(3.0)));
    let o = Float64::from(fv);
    assert_eq!(o, f(3.0));

    let nf = Nullable::<Float64>::new(f(f64::NAN));
    assert_eq!(nf, Nullable::Null);
    let no = Float64::from(nf);
    assert_eq!(f64::from_bits(no.to_bits()).is_nan(), true);
}

#[test]
fn mod_test_int_ops_add() {
    let i1 = Nullable::Value(3);
    let i2 = Nullable::Value(2);
    assert_eq!(i1 + i2, Nullable::Value(5));

    let i3 = Nullable::Value(3);
    assert_eq!(i3 + Nullable::Null, Nullable::Null);
    let i4 = Nullable::Value(3);
    assert_eq!(Nullable::Null + i4, Nullable::Null);

    let n: Nullable<i64> = Nullable::Null;
    assert_eq!(n + Nullable::Null, Nullable::Null);
}

#[test]
fn test_int_arithmetic_ops_add_primitive() {
    let i1 = Nullable::Value(3);
    assert_eq!(i1 + 2, Nullable::Value(5));
    assert_eq!(Nullable::Null + 2, Nullable::Null);

    let i1 = Nullable::Value(3);
    assert_eq!(i1 + &2, Nullable::Value(5));
    assert_eq!(Nullable::Null + &2, Nullable::Null);

    let i1 = Nullable::Value(3);
    assert_eq!(&i1 + 2, Nullable::Value(5));
    assert_eq!(&Nullable::Null + 2, Nullable::Null);

    let i1 = Nullable::Value(3);
    assert_eq!(&i1 + &2, Nullable::Value(5));
    assert_eq!(&Nullable::Null + &2, Nullable::Null);
}

#[test]
fn test_int_bitwise_ops_add_primitive() {
    let i1 = Nullable::Value(true);
    assert_eq!(i1 & false, Nullable::Value(false));
    assert_eq!(Nullable::Null & false, Nullable::Null);

    let i1 = Nullable::Value(true);
    assert_eq!(i1 & &false, Nullable::Value(false));
    assert_eq!(Nullable::Null & &false, Nullable::Null);

    let i1 = Nullable::Value(true);
    assert_eq!(&i1 & false, Nullable::Value(false));
    assert_eq!(&Nullable::Null & false, Nullable::Null);

    let i1 = Nullable::Value(true);
    assert_eq!(&i1 & &false, Nullable::Value(false));
    assert_eq!(&Nullable::Null & &false, Nullable::Null);
}

#[test]
fn test_bool_bitor_bitxor_ops() {
    let b1 = Nullable::Value(true);
    assert_eq!(b1 | false, Nullable::Value(true));
    let b2 = Nullable::Value(true);
    assert_eq!(b2 ^ true, Nullable::Value(false));
    let b3 = Nullable::Value(false);
    assert_eq!(b3 | Nullable::Value(true), Nullable::Value(true));
    let b4 = Nullable::Value(false);
    assert_eq!(b4 ^ Nullable::Null, Nullable::Null);
    let i1 = Nullable::Value(6u8);
    assert_eq!(i1 | 1, Nullable::Value(7u8));
    let i2 = Nullable::Value(6u8);
    assert_eq!(i2 ^ 3, Nullable::Value(5u8));
}

#[test]
fn nullable_ops_test_int_ops_add_nullable() {
    let i1 = Nullable::Value(3);
    let i2 = Nullable::Value(2);
    assert_eq!(i1 + i2, Nullable::Value(5));

    let i3 = Nullable::Value(3);
    assert_eq!(i3 + Null, Null);
    let i4 = Nullable::Value(3);
    assert_eq!(Null + i4, Null);

    let n: Nullable<i64> = Null;
    assert_eq!(n + Null, Null);
}

#[test]
fn nullable_ops_test_int_ops_sub_nullable() {
    let i1 = Nullable::Value(3);
    let i2 = Nullable::Value(2);
    assert_eq!(i1 - i2, Nullable::Value(1));

    let i3 = Nullable::Value(3);
    assert_eq!(i3 - Null, Null);
    let i4 = Nullable::Value(3);
    assert_eq!(Null - i4, Null);

    let n: Nullable<i64> = Null;
    assert_eq!(n - Null, Null);
}

#[test]
fn nullable_ops_test_int_ops_mul_nullable() {
    let i1 = Nullable::Value(3);
    let i2 = Nullable::Value(2);
    assert_eq!(i1 * i2, Nullable::Value(6));

    let i3 = Nullable::Value(3);
    assert_eq!(i3 * Null, Null);
    let i4 = Nullable::Value(3);
    assert_eq!(Null * i4, Null);

    let n: Nullable<i64> = Null;
    assert_eq!(n * Null, Null);
}

#[test]
fn nullable_ops_test_int_ops_div_nullable() {
    let i1 = Nullable::Value(5);
    let i2 = Nullable::Value(2);
    assert_eq!(i1 / i2, Nullable::Value(2));

    let i3 = Nullable::Value(3);
    assert_eq!(i3 / Null, Null);
    let i4 = Nullable::Value(3);
    assert_eq!(Null / i4, Null);

    let n: Nullable<i64> = Null;
    assert_eq!(n / Null, Null);
}

#[test]
fn nullable_ops_test_int_ops_rem_nullable() {
    let i1 = Nullable::Value(5);
    let i2 = Nullable::Value(2);
    assert_eq!(i1 % i2, Nullable::Value(1));

    let i3 = Nullable::Value(3);
    assert_eq!(i3 % Null, Null);
    let i4 = Nullable::Value(3);
    assert_eq!(Null % i4, Null);

    let n: Nullable<i64> = Null;
    assert_eq!(n % Null, Null);
}

#[test]
fn nullable_ops_test_int_ops_ref_rhs_nullable() {
    let i1 = Nullable::Value(3);
    let i2 = Nullable::Value(2);
    assert_eq!(i1 + &i2, Nullable::Value(5));

    let i3 = Nullable::Value(3);
    assert_eq!(i3 + &Null, Null);
    let i4 = Nullable::Value(3);
    assert_eq!(Null + &i4, Null);

    let n: Nullable<i64> = Null;
    assert_eq!(n + &Null, Null);
}

#[test]
fn nullable_ops_test_int_ops_ref_lhs_nullable() {
    let i1 = Nullable::Value(3);
    let i2 = Nullable::Value(2);
    assert_eq!(&i1 + i2, Nullable::Value(5));

    let i3 = Nullable::Value(3);
    assert_eq!(&i3 + Null, Null);
    let i4 = Nullable::Value(3);
    assert_eq!(&Null + i4, Null);

    let n: Nullable<i64> = Null;
    assert_eq!(&n + Null, Null);
}

#[test]
fn nullable_ops_test_int_ops_ref_both_nullable() {
    let i1 = Nullable::Value(3);
    let i2 = Nullable::Value(2);
    assert_eq!(&i1 + &i2, Nullable::Value(5));

    let i3 = Nullable::Value(3);
    assert_eq!(&i3 + &Null, Null);
    let i4 = Nullable::Value(3);
    assert_eq!(&Null + &i4, Null);

    let n: Nullable<i64> = Null;
    assert_eq!(&n + &Null, Null);
}
