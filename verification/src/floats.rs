//! Floating-point element kinds, carried as IEEE 754 bit patterns.
//!
//! The verifier works on the bit patterns alone: the null test (`NaN`) and
//! the ordering of non-`NaN` values are plain integer logic on the pattern,
//! while arithmetic and conversions rely on a software implementation of the
//! IEEE operations, each behind its own trusted wrapper whose result is a
//! named deterministic function of the operand bits.

pub mod sqrt;

use vstd::prelude::*;

use rustc_apfloat::Float;
use rustc_apfloat::FloatConvert;

use crate::traits::NullStorable;

verus! {

/// Whether a 64-bit pattern encodes a `NaN`: the exponent is all ones and the
/// fraction is not zero.
pub open spec fn is_nan_bits64(b: u64) -> bool {
    (b >> 52) & 0x7ff == 0x7ff && b & 0x000f_ffff_ffff_ffff != 0
}

/// Whether a 32-bit pattern encodes a `NaN`.
pub open spec fn is_nan_bits32(b: u32) -> bool {
    (b >> 23) & 0xff == 0xff && b & 0x007f_ffff != 0
}

/// A 64-bit IEEE 754 value, held as its bit pattern.
///
/// Equality is bitwise; two values are the same element exactly when their
/// patterns agree.
#[derive(Clone, Copy, Debug, PartialEq, Eq, Structural)]
pub struct Float64 {
    /// The IEEE 754 bit pattern.
    pub bits: u64,
}

/// A 32-bit IEEE 754 value, held as its bit pattern.
#[derive(Clone, Copy, Debug, PartialEq, Eq, Structural)]
pub struct Float32 {
    /// The IEEE 754 bit pattern.
    pub bits: u32,
}

impl Float64 {
    /// The value with the given bit pattern.
    pub fn from_bits(bits: u64) -> (r: Self)
        ensures
            r.bits == bits,
    {
        Float64 { bits }
    }

    /// The bit pattern of this value.
    pub fn to_bits(&self) -> (r: u64)
        ensures
            r == self.bits,
    {
        self.bits
    }

    /// Whether this value is a `NaN`.
    pub fn is_nan(&self) -> (r: bool)
        ensures
            r == is_nan_bits64(self.bits),
    {
        (self.bits >> 52) & 0x7ff == 0x7ff && self.bits & 0x000f_ffff_ffff_ffff != 0
    }
}

impl Float32 {
    /// The value with the given bit pattern.
    pub fn from_bits(bits: u32) -> (r: Self)
        ensures
            r.bits == bits,
    {
        Float32 { bits }
    }

    /// The bit pattern of this value.
    pub fn to_bits(&self) -> (r: u32)
        ensures
            r == self.bits,
    {
        self.bits
    }

    /// Whether this value is a `NaN`.
    pub fn is_nan(&self) -> (r: bool)
        ensures
            r == is_nan_bits32(self.bits),
    {
        (self.bits >> 23) & 0xff == 0xff && self.bits & 0x007f_ffff != 0
    }
}

impl NullStorable for Float64 {
    type Model = Float64;

    open spec fn model(self) -> Float64 {
        self
    }

    open spec fn can_fold_null() -> bool {
        true
    }

    open spec fn model_is_null(m: Float64) -> bool {
        is_nan_bits64(m.bits)
    }

    open spec fn placeholder_model() -> Float64 {
        Float64 { bits: 0 }
    }

    proof fn lemma_no_fold_no_null(m: Float64) {
    }

    proof fn lemma_placeholder_not_null() {
        assert(!is_nan_bits64(0)) by (bit_vector);
    }

    fn has_primitive_null() -> bool {
        true
    }

    fn is_null(&self) -> (r: bool)
        ensures
            r == Self::model_is_null(self.model()),
    {
        self.is_nan()
    }

    fn is_not_null(&self) -> (r: bool)
        ensures
            r == !Self::model_is_null(self.model()),
    {
        !self.is_nan()
    }

    fn default_value() -> (r: Float64)
        ensures
            r.model() == Self::placeholder_model(),
    {
        Float64 { bits: 0 }
    }

    fn dup(&self) -> (r: Float64)
        ensures
            r.model() == self.model(),
    {
        *self
    }
}

impl NullStorable for Float32 {
    type Model = Float32;

    open spec fn model(self) -> Float32 {
        self
    }

    open spec fn can_fold_null() -> bool {
        true
    }

    open spec fn model_is_null(m: Float32) -> bool {
        is_nan_bits32(m.bits)
    }

    open spec fn placeholder_model() -> Float32 {
        Float32 { bits: 0 }
    }

    proof fn lemma_no_fold_no_null(m: Float32) {
    }

    proof fn lemma_placeholder_not_null() {
        assert(!is_nan_bits32(0)) by (bit_vector);
    }

    fn has_primitive_null() -> bool {
        true
    }

    fn is_null(&self) -> (r: bool)
        ensures
            r == Self::model_is_null(self.model()),
    {
        self.is_nan()
    }

    fn is_not_null(&self) -> (r: bool)
        ensures
            r == !Self::model_is_null(self.model()),
    {
        !self.is_nan()
    }

    fn default_value() -> (r: Float32)
        ensures
            r.model() == Self::placeholder_model(),
    {
        Float32 { bits: 0 }
    }

    fn dup(&self) -> (r: Float32)
        ensures
            r.model() == self.model(),
    {
        *self
    }
}

/// The pattern of the IEEE 754 sum of two 64-bit patterns, rounded to
/// nearest, ties to even.
pub uninterp spec fn add_bits64(a: u64, b: u64) -> u64;

/// The pattern of the IEEE 754 difference of two 64-bit patterns.
pub uninterp spec fn sub_bits64(a: u64, b: u64) -> u64;

/// The pattern of the IEEE 754 product of two 64-bit patterns.
pub uninterp spec fn mul_bits64(a: u64, b: u64) -> u64;

/// The pattern of the IEEE 754 quotient of two 64-bit patterns.
pub uninterp spec fn div_bits64(a: u64, b: u64) -> u64;

/// The 64-bit pattern nearest to an unsigned integer.
pub uninterp spec fn bits64_of_u64(x: u64) -> u64;

/// The 64-bit pattern nearest to a signed integer.
pub uninterp spec fn bits64_of_i64(x: i64) -> u64;

/// The 32-bit pattern nearest to an unsigned integer.
pub uninterp spec fn bits32_of_u64(x: u64) -> u32;

/// The 32-bit pattern nearest to a signed integer.
pub uninterp spec fn bits32_of_i64(x: i64) -> u32;

/// The 64-bit pattern of the exactly widened 32-bit pattern.
pub uninterp spec fn bits64_of_bits32(x: u32) -> u64;

/// The 32-bit pattern nearest to a 64-bit pattern.
pub uninterp spec fn bits32_of_bits64(x: u64) -> u32;

/// A 64-bit pattern truncated toward zero to a signed integer of the given
/// width, saturating at the width's bounds, zero for `NaN`.
pub uninterp spec fn sint_of_bits64(b: u64, width: u32) -> i128;

/// A 64-bit pattern truncated toward zero to an unsigned integer of the given
/// width, saturating at the width's bounds, zero for `NaN` and below zero.
pub uninterp spec fn uint_of_bits64(b: u64, width: u32) -> u128;

/// Relies on `rustc_apfloat`'s IEEE 754 double addition, a deterministic
/// function of the operand bits.
#[verifier::external_body]
pub(crate) fn fadd64(a: u64, b: u64) -> (r: u64)
    ensures
        r == add_bits64(a, b),
{
    let x = rustc_apfloat::ieee::Double::from_bits(a as u128);
    let y = rustc_apfloat::ieee::Double::from_bits(b as u128);
    x.add_r(y, rustc_apfloat::Round::NearestTiesToEven).value.to_bits() as u64
}

/// Relies on `rustc_apfloat`'s IEEE 754 double subtraction.
#[verifier::external_body]
pub(crate) fn fsub64(a: u64, b: u64) -> (r: u64)
    ensures
        r == sub_bits64(a, b),
{
    let x = rustc_apfloat::ieee::Double::from_bits(a as u128);
    let y = rustc_apfloat::ieee::Double::from_bits(b as u128);
    x.sub_r(y, rustc_apfloat::Round::NearestTiesToEven).value.to_bits() as u64
}

/// Relies on `rustc_apfloat`'s IEEE 754 double multiplication.
#[verifier::external_body]
pub(crate) fn fmul64(a: u64, b: u64) -> (r: u64)
    ensures
        r == mul_bits64(a, b),
{
    let x = rustc_apfloat::ieee::Double::from_bits(a as u128);
    let y = rustc_apfloat::ieee::Double::from_bits(b as u128);
    x.mul_r(y, rustc_apfloat::Round::NearestTiesToEven).value.to_bits() as u64
}

/// Relies on `rustc_apfloat`'s IEEE 754 double division.
#[verifier::external_body]
pub(crate) fn fdiv64(a: u64, b: u64) -> (r: u64)
    ensures
        r == div_bits64(a, b),
{
    let x = rustc_apfloat::ieee::Double::from_bits(a as u128);
    let y = rustc_apfloat::ieee::Double::from_bits(b as u128);
    x.div_r(y, rustc_apfloat::Round::NearestTiesToEven).value.to_bits() as u64
}

/// Relies on `rustc_apfloat`'s conversion from unsigned integers to double.
#[verifier::external_body]
pub(crate) fn f64_from_u64(x: u64) -> (r: u64)
    ensures
        r == bits64_of_u64(x),
{
    let v = rustc_apfloat::ieee::Double::from_u128_r(
        x as u128,
        rustc_apfloat::Round::NearestTiesToEven,
    );
    v.value.to_bits() as u64
}

/// Relies on `rustc_apfloat`'s conversion from signed integers to double.
#[verifier::external_body]
pub(crate) fn f64_from_i64(x: i64) -> (r: u64)
    ensures
        r == bits64_of_i64(x),
{
    let v = rustc_apfloat::ieee::Double::from_i128_r(
        x as i128,
        rustc_apfloat::Round::NearestTiesToEven,
    );
    v.value.to_bits() as u64
}

/// Relies on `rustc_apfloat`'s conversion from unsigned integers to single.
#[verifier::external_body]
pub(crate) fn f32_from_u64(x: u64) -> (r: u32)
    ensures
        r == bits32_of_u64(x),
{
    let v = rustc_apfloat::ieee::Single::from_u128_r(
        x as u128,
        rustc_apfloat::Round::NearestTiesToEven,
    );
    v.value.to_bits() as u32
}

/// Relies on `rustc_apfloat`'s conversion from signed integers to single.
#[verifier::external_body]
pub(crate) fn f32_from_i64(x: i64) -> (r: u32)
    ensures
        r == bits32_of_i64(x),
{
    let v = rustc_apfloat::ieee::Single::from_i128_r(
        x as i128,
        rustc_apfloat::Round::NearestTiesToEven,
    );
    v.value.to_bits() as u32
}

/// Relies on `rustc_apfloat`'s single-to-double conversion, which is exact.
#[verifier::external_body]
pub(crate) fn f32_to_f64(x: u32) -> (r: u64)
    ensures
        r == bits64_of_bits32(x),
{
    let v = rustc_apfloat::ieee::Single::from_bits(x as u128);
    let mut loses_info = false;
    let w: rustc_apfloat::StatusAnd<rustc_apfloat::ieee::Double> = v.convert_r(
        rustc_apfloat::Round::NearestTiesToEven,
        &mut loses_info,
    );
    w.value.to_bits() as u64
}

/// Relies on `rustc_apfloat`'s double-to-single conversion, rounded to
/// nearest, ties to even.
#[verifier::external_body]
pub(crate) fn f64_to_f32(x: u64) -> (r: u32)
    ensures
        r == bits32_of_bits64(x),
{
    let v = rustc_apfloat::ieee::Double::from_bits(x as u128);
    let mut loses_info = false;
    let w: rustc_apfloat::StatusAnd<rustc_apfloat::ieee::Single> = v.convert_r(
        rustc_apfloat::Round::NearestTiesToEven,
        &mut loses_info,
    );
    w.value.to_bits() as u32
}

/// Relies on `rustc_apfloat`'s double-to-signed-integer conversion: truncated
/// toward zero, saturated at the width's bounds, zero for `NaN`.
#[verifier::external_body]
pub(crate) fn f64_to_sint(b: u64, width: u32) -> (r: i128)
    requires
        8 <= width <= 64,
    ensures
        r == sint_of_bits64(b, width),
{
    let v = rustc_apfloat::ieee::Double::from_bits(b as u128);
    v.to_i128(width as usize).value
}

/// Relies on `rustc_apfloat`'s double-to-unsigned-integer conversion:
/// truncated toward zero, saturated at the width's bounds, zero for `NaN`
/// and for negative values.
#[verifier::external_body]
pub(crate) fn f64_to_uint(b: u64, width: u32) -> (r: u128)
    requires
        8 <= width <= 64,
    ensures
        r == uint_of_bits64(b, width),
{
    let v = rustc_apfloat::ieee::Double::from_bits(b as u128);
    v.to_u128(width as usize).value
}

/// The pattern of the IEEE 754 single sum of two 32-bit patterns.
pub uninterp spec fn add_bits32(a: u32, b: u32) -> u32;

/// The pattern of the IEEE 754 single difference of two 32-bit patterns.
pub uninterp spec fn sub_bits32(a: u32, b: u32) -> u32;

/// The pattern of the IEEE 754 single product of two 32-bit patterns.
pub uninterp spec fn mul_bits32(a: u32, b: u32) -> u32;

/// The pattern of the IEEE 754 single quotient of two 32-bit patterns.
pub uninterp spec fn div_bits32(a: u32, b: u32) -> u32;

/// The pattern of the C `fmod` of two 64-bit patterns, as the machine
/// remainder of doubles behaves.
pub uninterp spec fn rem_bits64(a: u64, b: u64) -> u64;

/// The pattern of the C `fmod` of two 32-bit patterns.
pub uninterp spec fn rem_bits32(a: u32, b: u32) -> u32;

/// Whether one 64-bit pattern orders strictly below another: `NaN` compares
/// below nothing, the two zeros are equal, and otherwise sign and magnitude
/// decide.
pub open spec fn lt_bits64(a: u64, b: u64) -> bool {
    if is_nan_bits64(a) || is_nan_bits64(b) {
        false
    } else if a & 0x7fff_ffff_ffff_ffff == 0 && b & 0x7fff_ffff_ffff_ffff == 0 {
        false
    } else if (a >> 63) != (b >> 63) {
        a >> 63 == 1
    } else if a >> 63 == 0 {
        a < b
    } else {
        a > b
    }
}

/// Whether one 32-bit pattern orders strictly below another.
pub open spec fn lt_bits32(a: u32, b: u32) -> bool {
    if is_nan_bits32(a) || is_nan_bits32(b) {
        false
    } else if a & 0x7fff_ffff == 0 && b & 0x7fff_ffff == 0 {
        false
    } else if (a >> 31) != (b >> 31) {
        a >> 31 == 1
    } else if a >> 31 == 0 {
        a < b
    } else {
        a > b
    }
}

/// The IEEE 754 strict order of two 64-bit patterns, decided on the bits.
pub(crate) fn flt64(a: u64, b: u64) -> (r: bool)
    ensures
        r == lt_bits64(a, b),
{
    if (a >> 52) & 0x7ff == 0x7ff && a & 0x000f_ffff_ffff_ffff != 0 {
        false
    } else if (b >> 52) & 0x7ff == 0x7ff && b & 0x000f_ffff_ffff_ffff != 0 {
        false
    } else if a & 0x7fff_ffff_ffff_ffff == 0 && b & 0x7fff_ffff_ffff_ffff == 0 {
        false
    } else if (a >> 63) != (b >> 63) {
        a >> 63 == 1
    } else if a >> 63 == 0 {
        a < b
    } else {
        a > b
    }
}

/// The IEEE 754 strict order of two 32-bit patterns, decided on the bits.
pub(crate) fn flt32(a: u32, b: u32) -> (r: bool)
    ensures
        r == lt_bits32(a, b),
{
    if (a >> 23) & 0xff == 0xff && a & 0x007f_ffff != 0 {
        false
    } else if (b >> 23) & 0xff == 0xff && b & 0x007f_ffff != 0 {
        false
    } else if a & 0x7fff_ffff == 0 && b & 0x7fff_ffff == 0 {
        false
    } else if (a >> 31) != (b >> 31) {
        a >> 31 == 1
    } else if a >> 31 == 0 {
        a < b
    } else {
        a > b
    }
}

/// Relies on `rustc_apfloat`'s IEEE 754 single addition.
#[verifier::external_body]
pub(crate) fn fadd32(a: u32, b: u32) -> (r: u32)
    ensures
        r == add_bits32(a, b),
{
    let x = rustc_apfloat::ieee::Single::from_bits(a as u128);
    let y = rustc_apfloat::ieee::Single::from_bits(b as u128);
    x.add_r(y, rustc_apfloat::Round::NearestTiesToEven).value.to_bits() as u32
}

/// Relies on `rustc_apfloat`'s IEEE 754 single subtraction.
#[verifier::external_body]
pub(crate) fn fsub32(a: u32, b: u32) -> (r: u32)
    ensures
        r == sub_bits32(a, b),
{
    let x = rustc_apfloat::ieee::Single::from_bits(a as u128);
    let y = rustc_apfloat::ieee::Single::from_bits(b as u128);
    x.sub_r(y, rustc_apfloat::Round::NearestTiesToEven).value.to_bits() as u32
}

/// Relies on `rustc_apfloat`'s IEEE 754 single multiplication.
#[verifier::external_body]
pub(crate) fn fmul32(a: u32, b: u32) -> (r: u32)
    ensures
        r == mul_bits32(a, b),
{
    let x = rustc_apfloat::ieee::Single::from_bits(a as u128);
    let y = rustc_apfloat::ieee::Single::from_bits(b as u128);
    x.mul_r(y, rustc_apfloat::Round::NearestTiesToEven).value.to_bits() as u32
}

/// Relies on `rustc_apfloat`'s IEEE 754 single division.
#[verifier::external_body]
pub(crate) fn fdiv32(a: u32, b: u32) -> (r: u32)
    ensures
        r == div_bits32(a, b),
{
    let x = rustc_apfloat::ieee::Single::from_bits(a as u128);
    let y = rustc_apfloat::ieee::Single::from_bits(b as u128);
    x.div_r(y, rustc_apfloat::Round::NearestTiesToEven).value.to_bits() as u32
}

/// Relies on `rustc_apfloat`'s C `fmod` on doubles, the machine remainder.
#[verifier::external_body]
pub(crate) fn frem64(a: u64, b: u64) -> (r: u64)
    ensures
        r == rem_bits64(a, b),
{
    let x = rustc_apfloat::ieee::Double::from_bits(a as u128);
    let y = rustc_apfloat::ieee::Double::from_bits(b as u128);
    x.c_fmod(y).value.to_bits() as u64
}

/// Relies on `rustc_apfloat`'s C `fmod` on singles, the machine remainder.
#[verifier::external_body]
pub(crate) fn frem32(a: u32, b: u32) -> (r: u32)
    ensures
        r == rem_bits32(a, b),
{
    let x = rustc_apfloat::ieee::Single::from_bits(a as u128);
    let y = rustc_apfloat::ieee::Single::from_bits(b as u128);
    x.c_fmod(y).value.to_bits() as u32
}

impl crate::traits::NumElem for Float64 {
    open spec fn zero_model() -> Float64 {
        Float64 { bits: 0 }
    }

    open spec fn add_req(a: Float64, b: Float64) -> bool {
        true
    }

    open spec fn add_spec(a: Float64, b: Float64) -> Float64 {
        Float64 { bits: add_bits64(a.bits, b.bits) }
    }

    open spec fn sub_req(a: Float64, b: Float64) -> bool {
        true
    }

    open spec fn sub_spec(a: Float64, b: Float64) -> Float64 {
        Float64 { bits: sub_bits64(a.bits, b.bits) }
    }

    open spec fn mul_req(a: Float64, b: Float64) -> bool {
        true
    }

    open spec fn mul_spec(a: Float64, b: Float64) -> Float64 {
        Float64 { bits: mul_bits64(a.bits, b.bits) }
    }

    open spec fn div_req(a: Float64, b: Float64) -> bool {
        true
    }

    open spec fn div_spec(a: Float64, b: Float64) -> Float64 {
        Float64 { bits: div_bits64(a.bits, b.bits) }
    }

    open spec fn rem_req(a: Float64, b: Float64) -> bool {
        true
    }

    open spec fn rem_spec(a: Float64, b: Float64) -> Float64 {
        Float64 { bits: rem_bits64(a.bits, b.bits) }
    }

    open spec fn bits64_spec(m: Float64) -> u64 {
        m.bits
    }

    fn zero() -> Float64 {
        Float64 { bits: 0 }
    }

    fn add_el(self, rhs: Float64) -> Float64 {
        Float64 { bits: fadd64(self.bits, rhs.bits) }
    }

    fn sub_el(self, rhs: Float64) -> Float64 {
        Float64 { bits: fsub64(self.bits, rhs.bits) }
    }

    fn mul_el(self, rhs: Float64) -> Float64 {
        Float64 { bits: fmul64(self.bits, rhs.bits) }
    }

    fn div_el(self, rhs: Float64) -> Float64 {
        Float64 { bits: fdiv64(self.bits, rhs.bits) }
    }

    fn rem_el(self, rhs: Float64) -> Float64 {
        Float64 { bits: frem64(self.bits, rhs.bits) }
    }

    fn to_bits64(&self) -> u64 {
        self.bits
    }
}

impl crate::traits::CmpElem for Float64 {
    open spec fn lt_spec(a: Float64, b: Float64) -> bool {
        lt_bits64(a.bits, b.bits)
    }

    fn lt_el(&self, rhs: &Float64) -> bool {
        flt64(self.bits, rhs.bits)
    }
}

impl crate::traits::NumElem for Float32 {
    open spec fn zero_model() -> Float32 {
        Float32 { bits: 0 }
    }

    open spec fn add_req(a: Float32, b: Float32) -> bool {
        true
    }

    open spec fn add_spec(a: Float32, b: Float32) -> Float32 {
        Float32 { bits: add_bits32(a.bits, b.bits) }
    }

    open spec fn sub_req(a: Float32, b: Float32) -> bool {
        true
    }

    open spec fn sub_spec(a: Float32, b: Float32) -> Float32 {
        Float32 { bits: sub_bits32(a.bits, b.bits) }
    }

    open spec fn mul_req(a: Float32, b: Float32) -> bool {
        true
    }

    open spec fn mul_spec(a: Float32, b: Float32) -> Float32 {
        Float32 { bits: mul_bits32(a.bits, b.bits) }
    }

    open spec fn div_req(a: Float32, b: Float32) -> bool {
        true
    }

    open spec fn div_spec(a: Float32, b: Float32) -> Float32 {
        Float32 { bits: div_bits32(a.bits, b.bits) }
    }

    open spec fn rem_req(a: Float32, b: Float32) -> bool {
        true
    }

    open spec fn rem_spec(a: Float32, b: Float32) -> Float32 {
        Float32 { bits: rem_bits32(a.bits, b.bits) }
    }

    open spec fn bits64_spec(m: Float32) -> u64 {
        bits64_of_bits32(m.bits)
    }

    fn zero() -> Float32 {
        Float32 { bits: 0 }
    }

    fn add_el(self, rhs: Float32) -> Float32 {
        Float32 { bits: fadd32(self.bits, rhs.bits) }
    }

    fn sub_el(self, rhs: Float32) -> Float32 {
        Float32 { bits: fsub32(self.bits, rhs.bits) }
    }

    fn mul_el(self, rhs: Float32) -> Float32 {
        Float32 { bits: fmul32(self.bits, rhs.bits) }
    }

    fn div_el(self, rhs: Float32) -> Float32 {
        Float32 { bits: fdiv32(self.bits, rhs.bits) }
    }

    fn rem_el(self, rhs: Float32) -> Float32 {
        Float32 { bits: frem32(self.bits, rhs.bits) }
    }

    fn to_bits64(&self) -> u64 {
        f32_to_f64(self.bits)
    }
}

impl crate::traits::CmpElem for Float32 {
    open spec fn lt_spec(a: Float32, b: Float32) -> bool {
        lt_bits32(a.bits, b.bits)
    }

    fn lt_el(&self, rhs: &Float32) -> bool {
        flt32(self.bits, rhs.bits)
    }
}

impl vstd::std_specs::convert::FromSpecImpl<crate::nullable::Nullable<Float64>> for Float64 {
    open spec fn obeys_from_spec() -> bool {
        true
    }

    open spec fn from_spec(n: crate::nullable::Nullable<Float64>) -> Float64 {
        match n {
            crate::nullable::Nullable::Value(v) => v,
            crate::nullable::Nullable::Null => Float64 { bits: 0x7ff8_0000_0000_0000 },
        }
    }
}

impl From<crate::nullable::Nullable<Float64>> for Float64 {
    /// A nullable 64-bit float collapsed to a plain one: `Null` becomes the
    /// canonical quiet `NaN`.
    fn from(n: crate::nullable::Nullable<Float64>) -> (r: Float64) {
        match n {
            crate::nullable::Nullable::Value(v) => v,
            crate::nullable::Nullable::Null => Float64 { bits: 0x7ff8_0000_0000_0000 },
        }
    }
}

} // verus!
