//! The dynamically typed scalar: a closed tagged union over every supported
//! primitive kind plus an explicit `Null`.

use vstd::prelude::*;

use crate::error::Error;
use crate::floats::{Float32, Float64};
use crate::nullable::Nullable;

verus! {

/// The mathematical value of a `Scalar`: each kind keeps its own tag, text is
/// a character sequence, floats are their bit patterns.
#[allow(non_camel_case_types)]
pub enum ScalarModel {
    /// A `i64` value.
    i64(i64),
    /// A `i32` value.
    i32(i32),
    /// A `i16` value.
    i16(i16),
    /// A `i8` value.
    i8(i8),
    /// A `isize` value.
    isize(isize),
    /// A `u64` value.
    u64(u64),
    /// A `u32` value.
    u32(u32),
    /// A `u16` value.
    u16(u16),
    /// A `u8` value.
    u8(u8),
    /// A `usize` value.
    usize(usize),
    /// A 64-bit float value.
    Float64(Float64),
    /// A 32-bit float value.
    Float32(Float32),
    /// A boolean value.
    bool(bool),
    /// A text value.
    Str(Seq<char>),
    /// The null value.
    Null,
}

/// A dynamically typed scalar over the supported primitive kinds.
#[allow(non_camel_case_types)]
#[derive(Clone, Debug, PartialEq)]
pub enum Scalar {
    /// Store a `i64` value.
    i64(i64),
    /// Store a `i32` value.
    i32(i32),
    /// Store a `i16` value.
    i16(i16),
    /// Store a `i8` value.
    i8(i8),
    /// Store a `isize` value.
    isize(isize),
    /// Store a `u64` value.
    u64(u64),
    /// Store a `u32` value.
    u32(u32),
    /// Store a `u16` value.
    u16(u16),
    /// Store a `u8` value.
    u8(u8),
    /// Store a `usize` value.
    usize(usize),
    /// Store a 64-bit float value.
    Float64(Float64),
    /// Store a 32-bit float value.
    Float32(Float32),
    /// Store a `bool` value.
    bool(bool),
    /// Store a `String` value.
    String(String),
    /// Store `Null`.
    Null,
}

/// The native numeric-cast conversion of a scalar to `i64`, as `as_i64`
/// performs it.
pub open spec fn cast_i64_model(s: Scalar) -> Result<Nullable<i64>, Error> {
    match s {
        Scalar::i64(v) => Ok(Nullable::Value(v)),
        Scalar::i32(v) => Ok(Nullable::Value((v as i64))),
        Scalar::i16(v) => Ok(Nullable::Value((v as i64))),
        Scalar::i8(v) => Ok(Nullable::Value((v as i64))),
        Scalar::isize(v) => Ok(Nullable::Value((v as i64))),
        Scalar::u64(v) => Ok(Nullable::Value((v as i64))),
        Scalar::u32(v) => Ok(Nullable::Value((v as i64))),
        Scalar::u16(v) => Ok(Nullable::Value((v as i64))),
        Scalar::u8(v) => Ok(Nullable::Value((v as i64))),
        Scalar::usize(v) => Ok(Nullable::Value((v as i64))),
        Scalar::Float64(f) => Ok(Nullable::Value((crate::floats::sint_of_bits64(f.bits, 64) as i64))),
        Scalar::Float32(f) => Ok(Nullable::Value((crate::floats::sint_of_bits64(crate::floats::bits64_of_bits32(f.bits), 64) as i64))),
        Scalar::bool(_) => Err(Error::CoercionError),
        Scalar::String(_) => Err(Error::CoercionError),
        Scalar::Null => Ok(Nullable::Null),
    }
}

/// The native numeric-cast conversion of a scalar to `i32`, as `as_i32`
/// performs it.
pub open spec fn cast_i32_model(s: Scalar) -> Result<Nullable<i32>, Error> {
    match s {
        Scalar::i64(v) => Ok(Nullable::Value((v as i32))),
        Scalar::i32(v) => Ok(Nullable::Value(v)),
        Scalar::i16(v) => Ok(Nullable::Value((v as i32))),
        Scalar::i8(v) => Ok(Nullable::Value((v as i32))),
        Scalar::isize(v) => Ok(Nullable::Value((v as i32))),
        Scalar::u64(v) => Ok(Nullable::Value((v as i32))),
        Scalar::u32(v) => Ok(Nullable::Value((v as i32))),
        Scalar::u16(v) => Ok(Nullable::Value((v as i32))),
        Scalar::u8(v) => Ok(Nullable::Value((v as i32))),
        Scalar::usize(v) => Ok(Nullable::Value((v as i32))),
        Scalar::Float64(f) => Ok(Nullable::Value((crate::floats::sint_of_bits64(f.bits, 32) as i32))),
        Scalar::Float32(f) => Ok(Nullable::Value((crate::floats::sint_of_bits64(crate::floats::bits64_of_bits32(f.bits), 32) as i32))),
        Scalar::bool(_) => Err(Error::CoercionError),
        Scalar::String(_) => Err(Error::CoercionError),
        Scalar::Null => Ok(Nullable::Null),
    }
}

/// The native numeric-cast conversion of a scalar to `i16`, as `as_i16`
/// performs it.
pub open spec fn cast_i16_model(s: Scalar) -> Result<Nullable<i16>, Error> {
    match s {
        Scalar::i64(v) => Ok(Nullable::Value((v as i16))),
        Scalar::i32(v) => Ok(Nullable::Value((v as i16))),
        Scalar::i16(v) => Ok(Nullable::Value(v)),
        Scalar::i8(v) => Ok(Nullable::Value((v as i16))),
        Scalar::isize(v) => Ok(Nullable::Value((v as i16))),
        Scalar::u64(v) => Ok(Nullable::Value((v as i16))),
        Scalar::u32(v) => Ok(Nullable::Value((v as i16))),
        Scalar::u16(v) => Ok(Nullable::Value((v as i16))),
        Scalar::u8(v) => Ok(Nullable::Value((v as i16))),
        Scalar::usize(v) => Ok(Nullable::Value((v as i16))),
        Scalar::Float64(f) => Ok(Nullable::Value((crate::floats::sint_of_bits64(f.bits, 16) as i16))),
        Scalar::Float32(f) => Ok(Nullable::Value((crate::floats::sint_of_bits64(crate::floats::bits64_of_bits32(f.bits), 16) as i16))),
        Scalar::bool(_) => Err(Error::CoercionError),
        Scalar::String(_) => Err(Error::CoercionError),
        Scalar::Null => Ok(Nullable::Null),
    }
}

/// The native numeric-cast conversion of a scalar to `i8`, as `as_i8`
/// performs it.
pub open spec fn cast_i8_model(s: Scalar) -> Result<Nullable<i8>, Error> {
    match s {
        Scalar::i64(v) => Ok(Nullable::Value((v as i8))),
        Scalar::i32(v) => Ok(Nullable::Value((v as i8))),
        Scalar::i16(v) => Ok(Nullable::Value((v as i8))),
        Scalar::i8(v) => Ok(Nullable::Value(v)),
        Scalar::isize(v) => Ok(Nullable::Value((v as i8))),
        Scalar::u64(v) => Ok(Nullable::Value((v as i8))),
        Scalar::u32(v) => Ok(Nullable::Value((v as i8))),
        Scalar::u16(v) => Ok(Nullable::Value((v as i8))),
        Scalar::u8(v) => Ok(Nullable::Value((v as i8))),
        Scalar::usize(v) => Ok(Nullable::Value((v as i8))),
        Scalar::Float64(f) => Ok(Nullable::Value((crate::floats::sint_of_bits64(f.bits, 8) as i8))),
        Scalar::Float32(f) => Ok(Nullable::Value((crate::floats::sint_of_bits64(crate::floats::bits64_of_bits32(f.bits), 8) as i8))),
        Scalar::bool(_) => Err(Error::CoercionError),
        Scalar::String(_) => Err(Error::CoercionError),
        Scalar::Null => Ok(Nullable::Null),
    }
}

/// The native numeric-cast conversion of a scalar to `isize`, as `as_isize`
/// performs it.
pub open spec fn cast_isize_model(s: Scalar) -> Result<Nullable<isize>, Error> {
    match s {
        Scalar::i64(v) => Ok(Nullable::Value((v as isize))),
        Scalar::i32(v) => Ok(Nullable::Value((v as isize))),
        Scalar::i16(v) => Ok(Nullable::Value((v as isize))),
        Scalar::i8(v) => Ok(Nullable::Value((v as isize))),
        Scalar::isize(v) => Ok(Nullable::Value(v)),
        Scalar::u64(v) => Ok(Nullable::Value((v as isize))),
        Scalar::u32(v) => Ok(Nullable::Value((v as isize))),
        Scalar::u16(v) => Ok(Nullable::Value((v as isize))),
        Scalar::u8(v) => Ok(Nullable::Value((v as isize))),
        Scalar::usize(v) => Ok(Nullable::Value((v as isize))),
        Scalar::Float64(f) => Ok(Nullable::Value((crate::floats::sint_of_bits64(f.bits, 64) as isize))),
        Scalar::Float32(f) => Ok(Nullable::Value((crate::floats::sint_of_bits64(crate::floats::bits64_of_bits32(f.bits), 64) as isize))),
        Scalar::bool(_) => Err(Error::CoercionError),
        Scalar::String(_) => Err(Error::CoercionError),
        Scalar::Null => Ok(Nullable::Null),
    }
}

/// The native numeric-cast conversion of a scalar to `u64`, as `as_u64`
/// performs it.
pub open spec fn cast_u64_model(s: Scalar) -> Result<Nullable<u64>, Error> {
    match s {
        Scalar::i64(v) => Ok(Nullable::Value((v as u64))),
        Scalar::i32(v) => Ok(Nullable::Value((v as u64))),
        Scalar::i16(v) => Ok(Nullable::Value((v as u64))),
        Scalar::i8(v) => Ok(Nullable::Value((v as u64))),
        Scalar::isize(v) => Ok(Nullable::Value((v as u64))),
        Scalar::u64(v) => Ok(Nullable::Value(v)),
        Scalar::u32(v) => Ok(Nullable::Value((v as u64))),
        Scalar::u16(v) => Ok(Nullable::Value((v as u64))),
        Scalar::u8(v) => Ok(Nullable::Value((v as u64))),
        Scalar::usize(v) => Ok(Nullable::Value((v as u64))),
        Scalar::Float64(f) => Ok(Nullable::Value((crate::floats::uint_of_bits64(f.bits, 64) as u64))),
        Scalar::Float32(f) => Ok(Nullable::Value((crate::floats::uint_of_bits64(crate::floats::bits64_of_bits32(f.bits), 64) as u64))),
        Scalar::bool(_) => Err(Error::CoercionError),
        Scalar::String(_) => Err(Error::CoercionError),
        Scalar::Null => Ok(Nullable::Null),
    }
}

/// The native numeric-cast conversion of a scalar to `u32`, as `as_u32`
/// performs it.
pub open spec fn cast_u32_model(s: Scalar) -> Result<Nullable<u32>, Error> {
    match s {
        Scalar::i64(v) => Ok(Nullable::Value((v as u32))),
        Scalar::i32(v) => Ok(Nullable::Value((v as u32))),
        Scalar::i16(v) => Ok(Nullable::Value((v as u32))),
        Scalar::i8(v) => Ok(Nullable::Value((v as u32))),
        Scalar::isize(v) => Ok(Nullable::Value((v as u32))),
        Scalar::u64(v) => Ok(Nullable::Value((v as u32))),
        Scalar::u32(v) => Ok(Nullable::Value(v)),
        Scalar::u16(v) => Ok(Nullable::Value((v as u32))),
        Scalar::u8(v) => Ok(Nullable::Value((v as u32))),
        Scalar::usize(v) => Ok(Nullable::Value((v as u32))),
        Scalar::Float64(f) => Ok(Nullable::Value((crate::floats::uint_of_bits64(f.bits, 32) as u32))),
        Scalar::Float32(f) => Ok(Nullable::Value((crate::floats::uint_of_bits64(crate::floats::bits64_of_bits32(f.bits), 32) as u32))),
        Scalar::bool(_) => Err(Error::CoercionError),
        Scalar::String(_) => Err(Error::CoercionError),
        Scalar::Null => Ok(Nullable::Null),
    }
}

/// The native numeric-cast conversion of a scalar to `u16`, as `as_u16`
/// performs it.
pub open spec fn cast_u16_model(s: Scalar) -> Result<Nullable<u16>, Error> {
    match s {
        Scalar::i64(v) => Ok(Nullable::Value((v as u16))),
        Scalar::i32(v) => Ok(Nullable::Value((v as u16))),
        Scalar::i16(v) => Ok(Nullable::Value((v as u16))),
        Scalar::i8(v) => Ok(Nullable::Value((v as u16))),
        Scalar::isize(v) => Ok(Nullable::Value((v as u16))),
        Scalar::u64(v) => Ok(Nullable::Value((v as u16))),
        Scalar::u32(v) => Ok(Nullable::Value((v as u16))),
        Scalar::u16(v) => Ok(Nullable::Value(v)),
        Scalar::u8(v) => Ok(Nullable::Value((v as u16))),
        Scalar::usize(v) => Ok(Nullable::Value((v as u16))),
        Scalar::Float64(f) => Ok(Nullable::Value((crate::floats::uint_of_bits64(f.bits, 16) as u16))),
        Scalar::Float32(f) => Ok(Nullable::Value((crate::floats::uint_of_bits64(crate::floats::bits64_of_bits32(f.bits), 16) as u16))),
        Scalar::bool(_) => Err(Error::CoercionError),
        Scalar::String(_) => Err(Error::CoercionError),
        Scalar::Null => Ok(Nullable::Null),
    }
}

/// The native numeric-cast conversion of a scalar to `u8`, as `as_u8`
/// performs it.
pub open spec fn cast_u8_model(s: Scalar) -> Result<Nullable<u8>, Error> {
    match s {
        Scalar::i64(v) => Ok(Nullable::Value((v as u8))),
        Scalar::i32(v) => Ok(Nullable::Value((v as u8))),
        Scalar::i16(v) => Ok(Nullable::Value((v as u8))),
        Scalar::i8(v) => Ok(Nullable::Value((v as u8))),
        Scalar::isize(v) => Ok(Nullable::Value((v as u8))),
        Scalar::u64(v) => Ok(Nullable::Value((v as u8))),
        Scalar::u32(v) => Ok(Nullable::Value((v as u8))),
        Scalar::u16(v) => Ok(Nullable::Value((v as u8))),
        Scalar::u8(v) => Ok(Nullable::Value(v)),
        Scalar::usize(v) => Ok(Nullable::Value((v as u8))),
        Scalar::Float64(f) => Ok(Nullable::Value((crate::floats::uint_of_bits64(f.bits, 8) as u8))),
        Scalar::Float32(f) => Ok(Nullable::Value((crate::floats::uint_of_bits64(crate::floats::bits64_of_bits32(f.bits), 8) as u8))),
        Scalar::bool(_) => Err(Error::CoercionError),
        Scalar::String(_) => Err(Error::CoercionError),
        Scalar::Null => Ok(Nullable::Null),
    }
}

/// The native numeric-cast conversion of a scalar to `usize`, as `as_usize`
/// performs it.
pub open spec fn cast_usize_model(s: Scalar) -> Result<Nullable<usize>, Error> {
    match s {
        Scalar::i64(v) => Ok(Nullable::Value((v as usize))),
        Scalar::i32(v) => Ok(Nullable::Value((v as usize))),
        Scalar::i16(v) => Ok(Nullable::Value((v as usize))),
        Scalar::i8(v) => Ok(Nullable::Value((v as usize))),
        Scalar::isize(v) => Ok(Nullable::Value((v as usize))),
        Scalar::u64(v) => Ok(Nullable::Value((v as usize))),
        Scalar::u32(v) => Ok(Nullable::Value((v as usize))),
        Scalar::u16(v) => Ok(Nullable::Value((v as usize))),
        Scalar::u8(v) => Ok(Nullable::Value((v as usize))),
        Scalar::usize(v) => Ok(Nullable::Value(v)),
        Scalar::Float64(f) => Ok(Nullable::Value((crate::floats::uint_of_bits64(f.bits, 64) as usize))),
        Scalar::Float32(f) => Ok(Nullable::Value((crate::floats::uint_of_bits64(crate::floats::bits64_of_bits32(f.bits), 64) as usize))),
        Scalar::bool(_) => Err(Error::CoercionError),
        Scalar::String(_) => Err(Error::CoercionError),
        Scalar::Null => Ok(Nullable::Null),
    }
}

/// The native numeric-cast conversion of a scalar to `Float64`, as `as_float64`
/// performs it.
pub open spec fn cast_float64_model(s: Scalar) -> Result<Nullable<Float64>, Error> {
    match s {
        Scalar::i64(v) => Ok(Nullable::Value(Float64 { bits: crate::floats::bits64_of_i64(v as i64) })),
        Scalar::i32(v) => Ok(Nullable::Value(Float64 { bits: crate::floats::bits64_of_i64(v as i64) })),
        Scalar::i16(v) => Ok(Nullable::Value(Float64 { bits: crate::floats::bits64_of_i64(v as i64) })),
        Scalar::i8(v) => Ok(Nullable::Value(Float64 { bits: crate::floats::bits64_of_i64(v as i64) })),
        Scalar::isize(v) => Ok(Nullable::Value(Float64 { bits: crate::floats::bits64_of_i64(v as i64) })),
        Scalar::u64(v) => Ok(Nullable::Value(Float64 { bits: crate::floats::bits64_of_u64(v as u64) })),
        Scalar::u32(v) => Ok(Nullable::Value(Float64 { bits: crate::floats::bits64_of_u64(v as u64) })),
        Scalar::u16(v) => Ok(Nullable::Value(Float64 { bits: crate::floats::bits64_of_u64(v as u64) })),
        Scalar::u8(v) => Ok(Nullable::Value(Float64 { bits: crate::floats::bits64_of_u64(v as u64) })),
        Scalar::usize(v) => Ok(Nullable::Value(Float64 { bits: crate::floats::bits64_of_u64(v as u64) })),
        Scalar::Float64(f) => Ok(Nullable::Value(f)),
        Scalar::Float32(f) => Ok(Nullable::Value(Float64 { bits: crate::floats::bits64_of_bits32(f.bits) })),
        Scalar::bool(_) => Err(Error::CoercionError),
        Scalar::String(_) => Err(Error::CoercionError),
        Scalar::Null => Ok(Nullable::Null),
    }
}

/// The native numeric-cast conversion of a scalar to `Float32`, as `as_float32`
/// performs it.
pub open spec fn cast_float32_model(s: Scalar) -> Result<Nullable<Float32>, Error> {
    match s {
        Scalar::i64(v) => Ok(Nullable::Value(Float32 { bits: crate::floats::bits32_of_i64(v as i64) })),
        Scalar::i32(v) => Ok(Nullable::Value(Float32 { bits: crate::floats::bits32_of_i64(v as i64) })),
        Scalar::i16(v) => Ok(Nullable::Value(Float32 { bits: crate::floats::bits32_of_i64(v as i64) })),
        Scalar::i8(v) => Ok(Nullable::Value(Float32 { bits: crate::floats::bits32_of_i64(v as i64) })),
        Scalar::isize(v) => Ok(Nullable::Value(Float32 { bits: crate::floats::bits32_of_i64(v as i64) })),
        Scalar::u64(v) => Ok(Nullable::Value(Float32 { bits: crate::floats::bits32_of_u64(v as u64) })),
        Scalar::u32(v) => Ok(Nullable::Value(Float32 { bits: crate::floats::bits32_of_u64(v as u64) })),
        Scalar::u16(v) => Ok(Nullable::Value(Float32 { bits: crate::floats::bits32_of_u64(v as u64) })),
        Scalar::u8(v) => Ok(Nullable::Value(Float32 { bits: crate::floats::bits32_of_u64(v as u64) })),
        Scalar::usize(v) => Ok(Nullable::Value(Float32 { bits: crate::floats::bits32_of_u64(v as u64) })),
        Scalar::Float64(f) => Ok(Nullable::Value(Float32 { bits: crate::floats::bits32_of_bits64(f.bits) })),
        Scalar::Float32(f) => Ok(Nullable::Value(f)),
        Scalar::bool(_) => Err(Error::CoercionError),
        Scalar::String(_) => Err(Error::CoercionError),
        Scalar::Null => Ok(Nullable::Null),
    }
}

/// The exact-kind conversion of a scalar to `bool`, as `as_bool` performs
/// it: no numeric coercion is defined.
pub open spec fn cast_bool_model(s: Scalar) -> Result<Nullable<bool>, Error> {
    match s {
        Scalar::bool(v) => Ok(Nullable::Value(v)),
        Scalar::Null => Ok(Nullable::<bool>::Null),
        _ => Err(Error::CoercionError),
    }
}

impl Scalar {
    /// The mathematical value of this scalar.
    pub open spec fn model(self) -> ScalarModel {
        match self {
            Scalar::i64(v) => ScalarModel::i64(v),
            Scalar::i32(v) => ScalarModel::i32(v),
            Scalar::i16(v) => ScalarModel::i16(v),
            Scalar::i8(v) => ScalarModel::i8(v),
            Scalar::isize(v) => ScalarModel::isize(v),
            Scalar::u64(v) => ScalarModel::u64(v),
            Scalar::u32(v) => ScalarModel::u32(v),
            Scalar::u16(v) => ScalarModel::u16(v),
            Scalar::u8(v) => ScalarModel::u8(v),
            Scalar::usize(v) => ScalarModel::usize(v),
            Scalar::Float64(v) => ScalarModel::Float64(v),
            Scalar::Float32(v) => ScalarModel::Float32(v),
            Scalar::bool(v) => ScalarModel::bool(v),
            Scalar::String(v) => ScalarModel::Str(v@),
            Scalar::Null => ScalarModel::Null,
        }
    }

    /// Whether this scalar is `Null`.
    pub fn is_null(&self) -> (r: bool)
        ensures
            r == (self.model() is Null),
    {
        match self {
            Scalar::Null => true,
            _ => false,
        }
    }

    /// A copy of this scalar with the same model.
    pub fn dup(&self) -> (r: Self)
        ensures
            r.model() == self.model(),
    {
        match self {
            Scalar::i64(v) => Scalar::i64(*v),
            Scalar::i32(v) => Scalar::i32(*v),
            Scalar::i16(v) => Scalar::i16(*v),
            Scalar::i8(v) => Scalar::i8(*v),
            Scalar::isize(v) => Scalar::isize(*v),
            Scalar::u64(v) => Scalar::u64(*v),
            Scalar::u32(v) => Scalar::u32(*v),
            Scalar::u16(v) => Scalar::u16(*v),
            Scalar::u8(v) => Scalar::u8(*v),
            Scalar::usize(v) => Scalar::usize(*v),
            Scalar::Float64(v) => Scalar::Float64(*v),
            Scalar::Float32(v) => Scalar::Float32(*v),
            Scalar::bool(v) => Scalar::bool(*v),
            Scalar::String(v) => Scalar::String(v.clone()),
            Scalar::Null => Scalar::Null,
        }
    }

    /// The stable per-kind tag used for introspection.
    pub fn dtype(&self) -> (r: &'static str)
        ensures
            r@ == self.dtype_model(),
    {
        match self {
            Scalar::i64(_) => "i64",
            Scalar::i32(_) => "i32",
            Scalar::i16(_) => "i16",
            Scalar::i8(_) => "i8",
            Scalar::isize(_) => "isize",
            Scalar::u64(_) => "u64",
            Scalar::u32(_) => "u32",
            Scalar::u16(_) => "u16",
            Scalar::u8(_) => "u8",
            Scalar::usize(_) => "usize",
            Scalar::Float64(_) => "float64",
            Scalar::Float32(_) => "float32",
            Scalar::bool(_) => "bool",
            Scalar::String(_) => "str",
            Scalar::Null => "null",
        }
    }

    /// The tag a scalar's kind carries.
    pub open spec fn dtype_model(self) -> Seq<char> {
        match self {
            Scalar::i64(_) => "i64"@,
            Scalar::i32(_) => "i32"@,
            Scalar::i16(_) => "i16"@,
            Scalar::i8(_) => "i8"@,
            Scalar::isize(_) => "isize"@,
            Scalar::u64(_) => "u64"@,
            Scalar::u32(_) => "u32"@,
            Scalar::u16(_) => "u16"@,
            Scalar::u8(_) => "u8"@,
            Scalar::usize(_) => "usize"@,
            Scalar::Float64(_) => "float64"@,
            Scalar::Float32(_) => "float32"@,
            Scalar::bool(_) => "bool"@,
            Scalar::String(_) => "str"@,
            Scalar::Null => "null"@,
        }
    }

    /// Whether this scalar holds a `i64`.
    pub fn is_i64(&self) -> (r: bool)
        ensures
            r == (self matches Scalar::i64(_)),
    {
        match self {
            Scalar::i64(_) => true,
            _ => false,
        }
    }

    /// Whether this scalar holds a `i32`.
    pub fn is_i32(&self) -> (r: bool)
        ensures
            r == (self matches Scalar::i32(_)),
    {
        match self {
            Scalar::i32(_) => true,
            _ => false,
        }
    }

    /// Whether this scalar holds a `i16`.
    pub fn is_i16(&self) -> (r: bool)
        ensures
            r == (self matches Scalar::i16(_)),
    {
        match self {
            Scalar::i16(_) => true,
            _ => false,
        }
    }

    /// Whether this scalar holds a `i8`.
    pub fn is_i8(&self) -> (r: bool)
        ensures
            r == (self matches Scalar::i8(_)),
    {
        match self {
            Scalar::i8(_) => true,
            _ => false,
        }
    }

    /// Whether this scalar holds a `isize`.
    pub fn is_isize(&self) -> (r: bool)
        ensures
            r == (self matches Scalar::isize(_)),
    {
        match self {
            Scalar::isize(_) => true,
            _ => false,
        }
    }

    /// Whether this scalar holds a `u64`.
    pub fn is_u64(&self) -> (r: bool)
        ensures
            r == (self matches Scalar::u64(_)),
    {
        match self {
            Scalar::u64(_) => true,
            _ => false,
        }
    }

    /// Whether this scalar holds a `u32`.
    pub fn is_u32(&self) -> (r: bool)
        ensures
            r == (self matches Scalar::u32(_)),
    {
        match self {
            Scalar::u32(_) => true,
            _ => false,
        }
    }

    /// Whether this scalar holds a `u16`.
    pub fn is_u16(&self) -> (r: bool)
        ensures
            r == (self matches Scalar::u16(_)),
    {
        match self {
            Scalar::u16(_) => true,
            _ => false,
        }
    }

    /// Whether this scalar holds a `u8`.
    pub fn is_u8(&self) -> (r: bool)
        ensures
            r == (self matches Scalar::u8(_)),
    {
        match self {
            Scalar::u8(_) => true,
            _ => false,
        }
    }

    /// Whether this scalar holds a `usize`.
    pub fn is_usize(&self) -> (r: bool)
        ensures
            r == (self matches Scalar::usize(_)),
    {
        match self {
            Scalar::usize(_) => true,
            _ => false,
        }
    }

    /// Whether this scalar holds a `Float64`.
    pub fn is_float64(&self) -> (r: bool)
        ensures
            r == (self matches Scalar::Float64(_)),
    {
        match self {
            Scalar::Float64(_) => true,
            _ => false,
        }
    }

    /// Whether this scalar holds a `Float32`.
    pub fn is_float32(&self) -> (r: bool)
        ensures
            r == (self matches Scalar::Float32(_)),
    {
        match self {
            Scalar::Float32(_) => true,
            _ => false,
        }
    }

    /// Whether this scalar holds a `bool`.
    pub fn is_bool(&self) -> (r: bool)
        ensures
            r == (self matches Scalar::bool(_)),
    {
        match self {
            Scalar::bool(_) => true,
            _ => false,
        }
    }

    /// Whether this scalar holds a `String`.
    pub fn is_str(&self) -> (r: bool)
        ensures
            r == (self matches Scalar::String(_)),
    {
        match self {
            Scalar::String(_) => true,
            _ => false,
        }
    }

    /// Convert the value to `i64` with native numeric-cast behaviour:
    /// exact for `Null` and numeric kinds (truncating where narrowing,
    /// toward zero and saturating from floats), refused for text and boolean.
    pub fn as_i64(&self) -> (r: Result<Nullable<i64>, Error>)
        ensures
            r == cast_i64_model(*self),
    {
        match self {
            Scalar::i64(v) => Ok(Nullable::Value(*v)),
            Scalar::i32(v) => Ok(Nullable::Value(#[verifier::truncate] (*v as i64))),
            Scalar::i16(v) => Ok(Nullable::Value(#[verifier::truncate] (*v as i64))),
            Scalar::i8(v) => Ok(Nullable::Value(#[verifier::truncate] (*v as i64))),
            Scalar::isize(v) => Ok(Nullable::Value(#[verifier::truncate] (*v as i64))),
            Scalar::u64(v) => Ok(Nullable::Value(#[verifier::truncate] (*v as i64))),
            Scalar::u32(v) => Ok(Nullable::Value(#[verifier::truncate] (*v as i64))),
            Scalar::u16(v) => Ok(Nullable::Value(#[verifier::truncate] (*v as i64))),
            Scalar::u8(v) => Ok(Nullable::Value(#[verifier::truncate] (*v as i64))),
            Scalar::usize(v) => Ok(Nullable::Value(#[verifier::truncate] (*v as i64))),
            Scalar::Float64(f) => Ok(Nullable::Value(#[verifier::truncate] (crate::floats::f64_to_sint(f.bits, 64) as i64))),
            Scalar::Float32(f) => Ok(Nullable::Value(#[verifier::truncate] (crate::floats::f64_to_sint(crate::floats::f32_to_f64(f.bits), 64) as i64))),
            Scalar::bool(_) => Err(Error::CoercionError),
            Scalar::String(_) => Err(Error::CoercionError),
            Scalar::Null => Ok(Nullable::Null),
        }
    }

    /// Convert the value to `i32` with native numeric-cast behaviour:
    /// exact for `Null` and numeric kinds (truncating where narrowing,
    /// toward zero and saturating from floats), refused for text and boolean.
    pub fn as_i32(&self) -> (r: Result<Nullable<i32>, Error>)
        ensures
            r == cast_i32_model(*self),
    {
        match self {
            Scalar::i64(v) => Ok(Nullable::Value(#[verifier::truncate] (*v as i32))),
            Scalar::i32(v) => Ok(Nullable::Value(*v)),
            Scalar::i16(v) => Ok(Nullable::Value(#[verifier::truncate] (*v as i32))),
            Scalar::i8(v) => Ok(Nullable::Value(#[verifier::truncate] (*v as i32))),
            Scalar::isize(v) => Ok(Nullable::Value(#[verifier::truncate] (*v as i32))),
            Scalar::u64(v) => Ok(Nullable::Value(#[verifier::truncate] (*v as i32))),
            Scalar::u32(v) => Ok(Nullable::Value(#[verifier::truncate] (*v as i32))),
            Scalar::u16(v) => Ok(Nullable::Value(#[verifier::truncate] (*v as i32))),
            Scalar::u8(v) => Ok(Nullable::Value(#[verifier::truncate] (*v as i32))),
            Scalar::usize(v) => Ok(Nullable::Value(#[verifier::truncate] (*v as i32))),
            Scalar::Float64(f) => Ok(Nullable::Value(#[verifier::truncate] (crate::floats::f64_to_sint(f.bits, 32) as i32))),
            Scalar::Float32(f) => Ok(Nullable::Value(#[verifier::truncate] (crate::floats::f64_to_sint(crate::floats::f32_to_f64(f.bits), 32) as i32))),
            Scalar::bool(_) => Err(Error::CoercionError),
            Scalar::String(_) => Err(Error::CoercionError),
            Scalar::Null => Ok(Nullable::Null),
        }
    }

    /// Convert the value to `i16` with native numeric-cast behaviour:
    /// exact for `Null` and numeric kinds (truncating where narrowing,
    /// toward zero and saturating from floats), refused for text and boolean.
    pub fn as_i16(&self) -> (r: Result<Nullable<i16>, Error>)
        ensures
            r == cast_i16_model(*self),
    {
        match self {
            Scalar::i64(v) => Ok(Nullable::Value(#[verifier::truncate] (*v as i16))),
            Scalar::i32(v) => Ok(Nullable::Value(#[verifier::truncate] (*v as i16))),
            Scalar::i16(v) => Ok(Nullable::Value(*v)),
            Scalar::i8(v) => Ok(Nullable::Value(#[verifier::truncate] (*v as i16))),
            Scalar::isize(v) => Ok(Nullable::Value(#[verifier::truncate] (*v as i16))),
            Scalar::u64(v) => Ok(Nullable::Value(#[verifier::truncate] (*v as i16))),
            Scalar::u32(v) => Ok(Nullable::Value(#[verifier::truncate] (*v as i16))),
            Scalar::u16(v) => Ok(Nullable::Value(#[verifier::truncate] (*v as i16))),
            Scalar::u8(v) => Ok(Nullable::Value(#[verifier::truncate] (*v as i16))),
            Scalar::usize(v) => Ok(Nullable::Value(#[verifier::truncate] (*v as i16))),
            Scalar::Float64(f) => Ok(Nullable::Value(#[verifier::truncate] (crate::floats::f64_to_sint(f.bits, 16) as i16))),
            Scalar::Float32(f) => Ok(Nullable::Value(#[verifier::truncate] (crate::floats::f64_to_sint(crate::floats::f32_to_f64(f.bits), 16) as i16))),
            Scalar::bool(_) => Err(Error::CoercionError),
            Scalar::String(_) => Err(Error::CoercionError),
            Scalar::Null => Ok(Nullable::Null),
        }
    }

    /// Convert the value to `i8` with native numeric-cast behaviour:
    /// exact for `Null` and numeric kinds (truncating where narrowing,
    /// toward zero and saturating from floats), refused for text and boolean.
    pub fn as_i8(&self) -> (r: Result<Nullable<i8>, Error>)
        ensures
            r == cast_i8_model(*self),
    {
        match self {
            Scalar::i64(v) => Ok(Nullable::Value(#[verifier::truncate] (*v as i8))),
            Scalar::i32(v) => Ok(Nullable::Value(#[verifier::truncate] (*v as i8))),
            Scalar::i16(v) => Ok(Nullable::Value(#[verifier::truncate] (*v as i8))),
            Scalar::i8(v) => Ok(Nullable::Value(*v)),
            Scalar::isize(v) => Ok(Nullable::Value(#[verifier::truncate] (*v as i8))),
            Scalar::u64(v) => Ok(Nullable::Value(#[verifier::truncate] (*v as i8))),
            Scalar::u32(v) => Ok(Nullable::Value(#[verifier::truncate] (*v as i8))),
            Scalar::u16(v) => Ok(Nullable::Value(#[verifier::truncate] (*v as i8))),
            Scalar::u8(v) => Ok(Nullable::Value(#[verifier::truncate] (*v as i8))),
            Scalar::usize(v) => Ok(Nullable::Value(#[verifier::truncate] (*v as i8))),
            Scalar::Float64(f) => Ok(Nullable::Value(#[verifier::truncate] (crate::floats::f64_to_sint(f.bits, 8) as i8))),
            Scalar::Float32(f) => Ok(Nullable::Value(#[verifier::truncate] (crate::floats::f64_to_sint(crate::floats::f32_to_f64(f.bits), 8) as i8))),
            Scalar::bool(_) => Err(Error::CoercionError),
            Scalar::String(_) => Err(Error::CoercionError),
            Scalar::Null => Ok(Nullable::Null),
        }
    }

    /// Convert the value to `isize` with native numeric-cast behaviour:
    /// exact for `Null` and numeric kinds (truncating where narrowing,
    /// toward zero and saturating from floats), refused for text and boolean.
    pub fn as_isize(&self) -> (r: Result<Nullable<isize>, Error>)
        ensures
            r == cast_isize_model(*self),
    {
        match self {
            Scalar::i64(v) => Ok(Nullable::Value(#[verifier::truncate] (*v as isize))),
            Scalar::i32(v) => Ok(Nullable::Value(#[verifier::truncate] (*v as isize))),
            Scalar::i16(v) => Ok(Nullable::Value(#[verifier::truncate] (*v as isize))),
            Scalar::i8(v) => Ok(Nullable::Value(#[verifier::truncate] (*v as isize))),
            Scalar::isize(v) => Ok(Nullable::Value(*v)),
            Scalar::u64(v) => Ok(Nullable::Value(#[verifier::truncate] (*v as isize))),
            Scalar::u32(v) => Ok(Nullable::Value(#[verifier::truncate] (*v as isize))),
            Scalar::u16(v) => Ok(Nullable::Value(#[verifier::truncate] (*v as isize))),
            Scalar::u8(v) => Ok(Nullable::Value(#[verifier::truncate] (*v as isize))),
            Scalar::usize(v) => Ok(Nullable::Value(#[verifier::truncate] (*v as isize))),
            Scalar::Float64(f) => Ok(Nullable::Value(#[verifier::truncate] (crate::floats::f64_to_sint(f.bits, 64) as isize))),
            Scalar::Float32(f) => Ok(Nullable::Value(#[verifier::truncate] (crate::floats::f64_to_sint(crate::floats::f32_to_f64(f.bits), 64) as isize))),
            Scalar::bool(_) => Err(Error::CoercionError),
            Scalar::String(_) => Err(Error::CoercionError),
            Scalar::Null => Ok(Nullable::Null),
        }
    }

    /// Convert the value to `u64` with native numeric-cast behaviour:
    /// exact for `Null` and numeric kinds (truncating where narrowing,
    /// toward zero and saturating from floats), refused for text and boolean.
    pub fn as_u64(&self) -> (r: Result<Nullable<u64>, Error>)
        ensures
            r == cast_u64_model(*self),
    {
        match self {
            Scalar::i64(v) => Ok(Nullable::Value(#[verifier::truncate] (*v as u64))),
            Scalar::i32(v) => Ok(Nullable::Value(#[verifier::truncate] (*v as u64))),
            Scalar::i16(v) => Ok(Nullable::Value(#[verifier::truncate] (*v as u64))),
            Scalar::i8(v) => Ok(Nullable::Value(#[verifier::truncate] (*v as u64))),
            Scalar::isize(v) => Ok(Nullable::Value(#[verifier::truncate] (*v as u64))),
            Scalar::u64(v) => Ok(Nullable::Value(*v)),
            Scalar::u32(v) => Ok(Nullable::Value(#[verifier::truncate] (*v as u64))),
            Scalar::u16(v) => Ok(Nullable::Value(#[verifier::truncate] (*v as u64))),
            Scalar::u8(v) => Ok(Nullable::Value(#[verifier::truncate] (*v as u64))),
            Scalar::usize(v) => Ok(Nullable::Value(#[verifier::truncate] (*v as u64))),
            Scalar::Float64(f) => Ok(Nullable::Value(#[verifier::truncate] (crate::floats::f64_to_uint(f.bits, 64) as u64))),
            Scalar::Float32(f) => Ok(Nullable::Value(#[verifier::truncate] (crate::floats::f64_to_uint(crate::floats::f32_to_f64(f.bits), 64) as u64))),
            Scalar::bool(_) => Err(Error::CoercionError),
            Scalar::String(_) => Err(Error::CoercionError),
            Scalar::Null => Ok(Nullable::Null),
        }
    }

    /// Convert the value to `u32` with native numeric-cast behaviour:
    /// exact for `Null` and numeric kinds (truncating where narrowing,
    /// toward zero and saturating from floats), refused for text and boolean.
    pub fn as_u32(&self) -> (r: Result<Nullable<u32>, Error>)
        ensures
            r == cast_u32_model(*self),
    {
        match self {
            Scalar::i64(v) => Ok(Nullable::Value(#[verifier::truncate] (*v as u32))),
            Scalar::i32(v) => Ok(Nullable::Value(#[verifier::truncate] (*v as u32))),
            Scalar::i16(v) => Ok(Nullable::Value(#[verifier::truncate] (*v as u32))),
            Scalar::i8(v) => Ok(Nullable::Value(#[verifier::truncate] (*v as u32))),
            Scalar::isize(v) => Ok(Nullable::Value(#[verifier::truncate] (*v as u32))),
            Scalar::u64(v) => Ok(Nullable::Value(#[verifier::truncate] (*v as u32))),
            Scalar::u32(v) => Ok(Nullable::Value(*v)),
            Scalar::u16(v) => Ok(Nullable::Value(#[verifier::truncate] (*v as u32))),
            Scalar::u8(v) => Ok(Nullable::Value(#[verifier::truncate] (*v as u32))),
            Scalar::usize(v) => Ok(Nullable::Value(#[verifier::truncate] (*v as u32))),
            Scalar::Float64(f) => Ok(Nullable::Value(#[verifier::truncate] (crate::floats::f64_to_uint(f.bits, 32) as u32))),
            Scalar::Float32(f) => Ok(Nullable::Value(#[verifier::truncate] (crate::floats::f64_to_uint(crate::floats::f32_to_f64(f.bits), 32) as u32))),
            Scalar::bool(_) => Err(Error::CoercionError),
            Scalar::String(_) => Err(Error::CoercionError),
            Scalar::Null => Ok(Nullable::Null),
        }
    }

    /// Convert the value to `u16` with native numeric-cast behaviour:
    /// exact for `Null` and numeric kinds (truncating where narrowing,
    /// toward zero and saturating from floats), refused for text and boolean.
    pub fn as_u16(&self) -> (r: Result<Nullable<u16>, Error>)
        ensures
            r == cast_u16_model(*self),
    {
        match self {
            Scalar::i64(v) => Ok(Nullable::Value(#[verifier::truncate] (*v as u16))),
            Scalar::i32(v) => Ok(Nullable::Value(#[verifier::truncate] (*v as u16))),
            Scalar::i16(v) => Ok(Nullable::Value(#[verifier::truncate] (*v as u16))),
            Scalar::i8(v) => Ok(Nullable::Value(#[verifier::truncate] (*v as u16))),
            Scalar::isize(v) => Ok(Nullable::Value(#[verifier::truncate] (*v as u16))),
            Scalar::u64(v) => Ok(Nullable::Value(#[verifier::truncate] (*v as u16))),
            Scalar::u32(v) => Ok(Nullable::Value(#[verifier::truncate] (*v as u16))),
            Scalar::u16(v) => Ok(Nullable::Value(*v)),
            Scalar::u8(v) => Ok(Nullable::Value(#[verifier::truncate] (*v as u16))),
            Scalar::usize(v) => Ok(Nullable::Value(#[verifier::truncate] (*v as u16))),
            Scalar::Float64(f) => Ok(Nullable::Value(#[verifier::truncate] (crate::floats::f64_to_uint(f.bits, 16) as u16))),
            Scalar::Float32(f) => Ok(Nullable::Value(#[verifier::truncate] (crate::floats::f64_to_uint(crate::floats::f32_to_f64(f.bits), 16) as u16))),
            Scalar::bool(_) => Err(Error::CoercionError),
            Scalar::String(_) => Err(Error::CoercionError),
            Scalar::Null => Ok(Nullable::Null),
        }
    }

    /// Convert the value to `u8` with native numeric-cast behaviour:
    /// exact for `Null` and numeric kinds (truncating where narrowing,
    /// toward zero and saturating from floats), refused for text and boolean.
    pub fn as_u8(&self) -> (r: Result<Nullable<u8>, Error>)
        ensures
            r == cast_u8_model(*self),
    {
        match self {
            Scalar::i64(v) => Ok(Nullable::Value(#[verifier::truncate] (*v as u8))),
            Scalar::i32(v) => Ok(Nullable::Value(#[verifier::truncate] (*v as u8))),
            Scalar::i16(v) => Ok(Nullable::Value(#[verifier::truncate] (*v as u8))),
            Scalar::i8(v) => Ok(Nullable::Value(#[verifier::truncate] (*v as u8))),
            Scalar::isize(v) => Ok(Nullable::Value(#[verifier::truncate] (*v as u8))),
            Scalar::u64(v) => Ok(Nullable::Value(#[verifier::truncate] (*v as u8))),
            Scalar::u32(v) => Ok(Nullable::Value(#[verifier::truncate] (*v as u8))),
            Scalar::u16(v) => Ok(Nullable::Value(#[verifier::truncate] (*v as u8))),
            Scalar::u8(v) => Ok(Nullable::Value(*v)),
            Scalar::usize(v) => Ok(Nullable::Value(#[verifier::truncate] (*v as u8))),
            Scalar::Float64(f) => Ok(Nullable::Value(#[verifier::truncate] (crate::floats::f64_to_uint(f.bits, 8) as u8))),
            Scalar::Float32(f) => Ok(Nullable::Value(#[verifier::truncate] (crate::floats::f64_to_uint(crate::floats::f32_to_f64(f.bits), 8) as u8))),
            Scalar::bool(_) => Err(Error::CoercionError),
            Scalar::String(_) => Err(Error::CoercionError),
            Scalar::Null => Ok(Nullable::Null),
        }
    }

    /// Convert the value to `usize` with native numeric-cast behaviour:
    /// exact for `Null` and numeric kinds (truncating where narrowing,
    /// toward zero and saturating from floats), refused for text and boolean.
    pub fn as_usize(&self) -> (r: Result<Nullable<usize>, Error>)
        ensures
            r == cast_usize_model(*self),
    {
        match self {
            Scalar::i64(v) => Ok(Nullable::Value(#[verifier::truncate] (*v as usize))),
            Scalar::i32(v) => Ok(Nullable::Value(#[verifier::truncate] (*v as usize))),
            Scalar::i16(v) => Ok(Nullable::Value(#[verifier::truncate] (*v as usize))),
            Scalar::i8(v) => Ok(Nullable::Value(#[verifier::truncate] (*v as usize))),
            Scalar::isize(v) => Ok(Nullable::Value(#[verifier::truncate] (*v as usize))),
            Scalar::u64(v) => Ok(Nullable::Value(#[verifier::truncate] (*v as usize))),
            Scalar::u32(v) => Ok(Nullable::Value(#[verifier::truncate] (*v as usize))),
            Scalar::u16(v) => Ok(Nullable::Value(#[verifier::truncate] (*v as usize))),
            Scalar::u8(v) => Ok(Nullable::Value(#[verifier::truncate] (*v as usize))),
            Scalar::usize(v) => Ok(Nullable::Value(*v)),
            Scalar::Float64(f) => Ok(Nullable::Value(#[verifier::truncate] (crate::floats::f64_to_uint(f.bits, 64) as usize))),
            Scalar::Float32(f) => Ok(Nullable::Value(#[verifier::truncate] (crate::floats::f64_to_uint(crate::floats::f32_to_f64(f.bits), 64) as usize))),
            Scalar::bool(_) => Err(Error::CoercionError),
            Scalar::String(_) => Err(Error::CoercionError),
            Scalar::Null => Ok(Nullable::Null),
        }
    }

    /// Convert the value to a 64-bit or 32-bit float with native numeric-cast
    /// behaviour, refused for text and boolean.
    pub fn as_float64(&self) -> (r: Result<Nullable<Float64>, Error>)
        ensures
            r == cast_float64_model(*self),
    {
        match self {
            Scalar::i64(v) => Ok(Nullable::Value(Float64 { bits: crate::floats::f64_from_i64(*v as i64) })),
            Scalar::i32(v) => Ok(Nullable::Value(Float64 { bits: crate::floats::f64_from_i64(*v as i64) })),
            Scalar::i16(v) => Ok(Nullable::Value(Float64 { bits: crate::floats::f64_from_i64(*v as i64) })),
            Scalar::i8(v) => Ok(Nullable::Value(Float64 { bits: crate::floats::f64_from_i64(*v as i64) })),
            Scalar::isize(v) => Ok(Nullable::Value(Float64 { bits: crate::floats::f64_from_i64(*v as i64) })),
            Scalar::u64(v) => Ok(Nullable::Value(Float64 { bits: crate::floats::f64_from_u64(*v as u64) })),
            Scalar::u32(v) => Ok(Nullable::Value(Float64 { bits: crate::floats::f64_from_u64(*v as u64) })),
            Scalar::u16(v) => Ok(Nullable::Value(Float64 { bits: crate::floats::f64_from_u64(*v as u64) })),
            Scalar::u8(v) => Ok(Nullable::Value(Float64 { bits: crate::floats::f64_from_u64(*v as u64) })),
            Scalar::usize(v) => Ok(Nullable::Value(Float64 { bits: crate::floats::f64_from_u64(*v as u64) })),
            Scalar::Float64(f) => Ok(Nullable::Value(*f)),
            Scalar::Float32(f) => Ok(Nullable::Value(Float64 { bits: crate::floats::f32_to_f64(f.bits) })),
            Scalar::bool(_) => Err(Error::CoercionError),
            Scalar::String(_) => Err(Error::CoercionError),
            Scalar::Null => Ok(Nullable::Null),
        }
    }

    /// Convert the value to a 64-bit or 32-bit float with native numeric-cast
    /// behaviour, refused for text and boolean.
    pub fn as_float32(&self) -> (r: Result<Nullable<Float32>, Error>)
        ensures
            r == cast_float32_model(*self),
    {
        match self {
            Scalar::i64(v) => Ok(Nullable::Value(Float32 { bits: crate::floats::f32_from_i64(*v as i64) })),
            Scalar::i32(v) => Ok(Nullable::Value(Float32 { bits: crate::floats::f32_from_i64(*v as i64) })),
            Scalar::i16(v) => Ok(Nullable::Value(Float32 { bits: crate::floats::f32_from_i64(*v as i64) })),
            Scalar::i8(v) => Ok(Nullable::Value(Float32 { bits: crate::floats::f32_from_i64(*v as i64) })),
            Scalar::isize(v) => Ok(Nullable::Value(Float32 { bits: crate::floats::f32_from_i64(*v as i64) })),
            Scalar::u64(v) => Ok(Nullable::Value(Float32 { bits: crate::floats::f32_from_u64(*v as u64) })),
            Scalar::u32(v) => Ok(Nullable::Value(Float32 { bits: crate::floats::f32_from_u64(*v as u64) })),
            Scalar::u16(v) => Ok(Nullable::Value(Float32 { bits: crate::floats::f32_from_u64(*v as u64) })),
            Scalar::u8(v) => Ok(Nullable::Value(Float32 { bits: crate::floats::f32_from_u64(*v as u64) })),
            Scalar::usize(v) => Ok(Nullable::Value(Float32 { bits: crate::floats::f32_from_u64(*v as u64) })),
            Scalar::Float64(f) => Ok(Nullable::Value(Float32 { bits: crate::floats::f64_to_f32(f.bits) })),
            Scalar::Float32(f) => Ok(Nullable::Value(*f)),
            Scalar::bool(_) => Err(Error::CoercionError),
            Scalar::String(_) => Err(Error::CoercionError),
            Scalar::Null => Ok(Nullable::Null),
        }
    }

    /// Convert to `bool`: exact-kind only, no numeric coercion is defined.
    pub fn as_bool(&self) -> (r: Result<Nullable<bool>, Error>)
        ensures
            r == cast_bool_model(*self),
    {
        match self {
            Scalar::bool(v) => Ok(Nullable::Value(*v)),
            Scalar::Null => Ok(Nullable::Null),
            _ => Err(Error::CoercionError),
        }
    }

    /// Convert to text: exact-kind only, no coercion is defined.
    pub fn as_str(&self) -> (r: Result<Nullable<String>, Error>)
        ensures
            (match *self {
                Scalar::String(s) => r matches Ok(n) && n.model() == Some(s@),
                Scalar::Null => r matches Ok(n) && n matches Nullable::Null,
                _ => r matches Err(e) && e is CoercionError,
            }),
    {
        match self {
            Scalar::String(v) => Ok(Nullable::Value(v.clone())),
            Scalar::Null => Ok(Nullable::Null),
            _ => Err(Error::CoercionError),
        }
    }
}

impl Default for Scalar {
    /// The default scalar is `Null`.
    fn default() -> (r: Self)
        ensures
            r is Null,
    {
        Scalar::Null
    }
}

impl vstd::std_specs::convert::FromSpecImpl<i64> for Scalar {
    open spec fn obeys_from_spec() -> bool {
        true
    }

    open spec fn from_spec(v: i64) -> Scalar {
        Scalar::i64(v)
    }
}

impl From<i64> for Scalar {
    /// A plain `i64` under its scalar tag.
    fn from(v: i64) -> (r: Scalar) {
        Scalar::i64(v)
    }
}

impl vstd::std_specs::convert::FromSpecImpl<i32> for Scalar {
    open spec fn obeys_from_spec() -> bool {
        true
    }

    open spec fn from_spec(v: i32) -> Scalar {
        Scalar::i32(v)
    }
}

impl From<i32> for Scalar {
    /// A plain `i32` under its scalar tag.
    fn from(v: i32) -> (r: Scalar) {
        Scalar::i32(v)
    }
}

impl vstd::std_specs::convert::FromSpecImpl<i16> for Scalar {
    open spec fn obeys_from_spec() -> bool {
        true
    }

    open spec fn from_spec(v: i16) -> Scalar {
        Scalar::i16(v)
    }
}

impl From<i16> for Scalar {
    /// A plain `i16` under its scalar tag.
    fn from(v: i16) -> (r: Scalar) {
        Scalar::i16(v)
    }
}

impl vstd::std_specs::convert::FromSpecImpl<i8> for Scalar {
    open spec fn obeys_from_spec() -> bool {
        true
    }

    open spec fn from_spec(v: i8) -> Scalar {
        Scalar::i8(v)
    }
}

impl From<i8> for Scalar {
    /// A plain `i8` under its scalar tag.
    fn from(v: i8) -> (r: Scalar) {
        Scalar::i8(v)
    }
}

impl vstd::std_specs::convert::FromSpecImpl<isize> for Scalar {
    open spec fn obeys_from_spec() -> bool {
        true
    }

    open spec fn from_spec(v: isize) -> Scalar {
        Scalar::isize(v)
    }
}

impl From<isize> for Scalar {
    /// A plain `isize` under its scalar tag.
    fn from(v: isize) -> (r: Scalar) {
        Scalar::isize(v)
    }
}

impl vstd::std_specs::convert::FromSpecImpl<u64> for Scalar {
    open spec fn obeys_from_spec() -> bool {
        true
    }

    open spec fn from_spec(v: u64) -> Scalar {
        Scalar::u64(v)
    }
}

impl From<u64> for Scalar {
    /// A plain `u64` under its scalar tag.
    fn from(v: u64) -> (r: Scalar) {
        Scalar::u64(v)
    }
}

impl vstd::std_specs::convert::FromSpecImpl<u32> for Scalar {
    open spec fn obeys_from_spec() -> bool {
        true
    }

    open spec fn from_spec(v: u32) -> Scalar {
        Scalar::u32(v)
    }
}

impl From<u32> for Scalar {
    /// A plain `u32` under its scalar tag.
    fn from(v: u32) -> (r: Scalar) {
        Scalar::u32(v)
    }
}

impl vstd::std_specs::convert::FromSpecImpl<u16> for Scalar {
    open spec fn obeys_from_spec() -> bool {
        true
    }

    open spec fn from_spec(v: u16) -> Scalar {
        Scalar::u16(v)
    }
}

impl From<u16> for Scalar {
    /// A plain `u16` under its scalar tag.
    fn from(v: u16) -> (r: Scalar) {
        Scalar::u16(v)
    }
}

impl vstd::std_specs::convert::FromSpecImpl<u8> for Scalar {
    open spec fn obeys_from_spec() -> bool {
        true
    }

    open spec fn from_spec(v: u8) -> Scalar {
        Scalar::u8(v)
    }
}

impl From<u8> for Scalar {
    /// A plain `u8` under its scalar tag.
    fn from(v: u8) -> (r: Scalar) {
        Scalar::u8(v)
    }
}

impl vstd::std_specs::convert::FromSpecImpl<usize> for Scalar {
    open spec fn obeys_from_spec() -> bool {
        true
    }

    open spec fn from_spec(v: usize) -> Scalar {
        Scalar::usize(v)
    }
}

impl From<usize> for Scalar {
    /// A plain `usize` under its scalar tag.
    fn from(v: usize) -> (r: Scalar) {
        Scalar::usize(v)
    }
}

impl vstd::std_specs::convert::FromSpecImpl<Float64> for Scalar {
    open spec fn obeys_from_spec() -> bool {
        true
    }

    open spec fn from_spec(v: Float64) -> Scalar {
        Scalar::Float64(v)
    }
}

impl From<Float64> for Scalar {
    /// A plain `Float64` under its scalar tag.
    fn from(v: Float64) -> (r: Scalar) {
        Scalar::Float64(v)
    }
}

impl vstd::std_specs::convert::FromSpecImpl<Float32> for Scalar {
    open spec fn obeys_from_spec() -> bool {
        true
    }

    open spec fn from_spec(v: Float32) -> Scalar {
        Scalar::Float32(v)
    }
}

impl From<Float32> for Scalar {
    /// A plain `Float32` under its scalar tag.
    fn from(v: Float32) -> (r: Scalar) {
        Scalar::Float32(v)
    }
}

impl vstd::std_specs::convert::FromSpecImpl<bool> for Scalar {
    open spec fn obeys_from_spec() -> bool {
        true
    }

    open spec fn from_spec(v: bool) -> Scalar {
        Scalar::bool(v)
    }
}

impl From<bool> for Scalar {
    /// A plain `bool` under its scalar tag.
    fn from(v: bool) -> (r: Scalar) {
        Scalar::bool(v)
    }
}

impl vstd::std_specs::convert::FromSpecImpl<String> for Scalar {
    open spec fn obeys_from_spec() -> bool {
        true
    }

    open spec fn from_spec(v: String) -> Scalar {
        Scalar::String(v)
    }
}

impl From<String> for Scalar {
    /// A plain `String` under its scalar tag.
    fn from(v: String) -> (r: Scalar) {
        Scalar::String(v)
    }
}

} // verus!
