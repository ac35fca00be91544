//! Conversions into and out of the dynamically typed array.

use vstd::prelude::*;

use crate::error::Error;
use crate::floats::{Float32, Float64};
use crate::generic::array_impl::Array;
use crate::generic::scalar_impl::{
    cast_bool_model, cast_i64_model, cast_i32_model, cast_i16_model, cast_i8_model, cast_isize_model, cast_u64_model, cast_u32_model, cast_u16_model, cast_u8_model, cast_usize_model, cast_float64_model, cast_float32_model,  Scalar, ScalarModel,
};
use crate::nullable::Nullable;
use crate::nullvec::nullvec_convert::entry_model;
use crate::nullvec::NullVec;
use crate::traits::models;

verus! {

/// What a buffer converts to as an array: which error stops it, and failing
/// none, the kind tag and the scalar contents of the result.
pub trait IntoArray: Sized {
    /// The failure the conversion stops with, if any.
    spec fn arr_err(self) -> Option<Error>;

    /// The kind tag of the resulting array.
    spec fn arr_kind(self) -> Seq<char>;

    /// The scalar contents of the resulting array.
    spec fn arr_scalars(self) -> Seq<ScalarModel>;

    /// Convert this buffer into a dynamically typed array.
    fn into_array(self) -> (r: Result<Array, Error>)
        ensures
            self.arr_err() is None ==> (r matches Ok(a) && a.dtype_model() == self.arr_kind()
                && a.scalars() == self.arr_scalars()),
            (match self.arr_err() {
                Some(e) => r == Err::<Array, Error>(e),
                None => true,
            }),
    ;
}

impl Array {
    /// Create a new array from any supported buffer: a plain buffer of one
    /// primitive kind, or a scalar buffer whose element kind is inferred from
    /// its first element.
    pub fn new<I: IntoArray>(values: I) -> (r: Result<Array, Error>)
        ensures
            values.arr_err() is None ==> (r matches Ok(a) && a.dtype_model() == values.arr_kind()
                && a.scalars() == values.arr_scalars()),
            (match values.arr_err() {
                Some(e) => r == Err::<Array, Error>(e),
                None => true,
            }),
    {
        values.into_array()
    }

    /// Extract the contents as scalars; null positions come out as
    /// `Scalar::Null`. This is always possible.
    pub fn into_scalars(&self) -> (r: Vec<Scalar>)
        ensures
            r@.len() == self.scalars().len(),
            forall|i: int|
                0 <= i < r@.len() ==> (#[trigger] r@[i]).model() == self.scalars()[i],
    {
        let n = self.len();
        let mut out: Vec<Scalar> = Vec::new();
        let mut i: usize = 0;
        while i < n
            invariant
                i <= n,
                n == self.scalars().len(),
                out@.len() == i,
                forall|j: int|
                    0 <= j < i ==> (#[trigger] out@[j]).model() == self.scalars()[j],
            decreases n - i,
        {
            out.push(self.iloc_unchecked(&i));
            i = i + 1;
        }
        out
    }
}

impl IntoArray for Vec<i64> {
    open spec fn arr_err(self) -> Option<Error> {
        None
    }

    open spec fn arr_kind(self) -> Seq<char> {
        "i64"@
    }

    open spec fn arr_scalars(self) -> Seq<ScalarModel> {
        Seq::new(self@.len(), |i: int| ScalarModel::i64(models(self@)[i]))
    }

    fn into_array(self) -> (r: Result<Array, Error>)
        ensures
            self.arr_err() is None ==> (r matches Ok(a) && a.dtype_model() == self.arr_kind()
                && a.scalars() == self.arr_scalars()),
            (match self.arr_err() {
                Some(e) => r == Err::<Array, Error>(e),
                None => true,
            }),
    {
        let ghost whole = self;
        let nv = NullVec::new(self);
        let a = Array::Int64Array(nv);
        proof {
            assert(a.scalars() =~= Vec::<i64>::arr_scalars(whole));
        }
        Ok(a)
    }
}

impl IntoArray for Vec<i32> {
    open spec fn arr_err(self) -> Option<Error> {
        None
    }

    open spec fn arr_kind(self) -> Seq<char> {
        "i32"@
    }

    open spec fn arr_scalars(self) -> Seq<ScalarModel> {
        Seq::new(self@.len(), |i: int| ScalarModel::i32(models(self@)[i]))
    }

    fn into_array(self) -> (r: Result<Array, Error>)
        ensures
            self.arr_err() is None ==> (r matches Ok(a) && a.dtype_model() == self.arr_kind()
                && a.scalars() == self.arr_scalars()),
            (match self.arr_err() {
                Some(e) => r == Err::<Array, Error>(e),
                None => true,
            }),
    {
        let ghost whole = self;
        let nv = NullVec::new(self);
        let a = Array::Int32Array(nv);
        proof {
            assert(a.scalars() =~= Vec::<i32>::arr_scalars(whole));
        }
        Ok(a)
    }
}

impl IntoArray for Vec<i16> {
    open spec fn arr_err(self) -> Option<Error> {
        None
    }

    open spec fn arr_kind(self) -> Seq<char> {
        "i16"@
    }

    open spec fn arr_scalars(self) -> Seq<ScalarModel> {
        Seq::new(self@.len(), |i: int| ScalarModel::i16(models(self@)[i]))
    }

    fn into_array(self) -> (r: Result<Array, Error>)
        ensures
            self.arr_err() is None ==> (r matches Ok(a) && a.dtype_model() == self.arr_kind()
                && a.scalars() == self.arr_scalars()),
            (match self.arr_err() {
                Some(e) => r == Err::<Array, Error>(e),
                None => true,
            }),
    {
        let ghost whole = self;
        let nv = NullVec::new(self);
        let a = Array::Int16Array(nv);
        proof {
            assert(a.scalars() =~= Vec::<i16>::arr_scalars(whole));
        }
        Ok(a)
    }
}

impl IntoArray for Vec<i8> {
    open spec fn arr_err(self) -> Option<Error> {
        None
    }

    open spec fn arr_kind(self) -> Seq<char> {
        "i8"@
    }

    open spec fn arr_scalars(self) -> Seq<ScalarModel> {
        Seq::new(self@.len(), |i: int| ScalarModel::i8(models(self@)[i]))
    }

    fn into_array(self) -> (r: Result<Array, Error>)
        ensures
            self.arr_err() is None ==> (r matches Ok(a) && a.dtype_model() == self.arr_kind()
                && a.scalars() == self.arr_scalars()),
            (match self.arr_err() {
                Some(e) => r == Err::<Array, Error>(e),
                None => true,
            }),
    {
        let ghost whole = self;
        let nv = NullVec::new(self);
        let a = Array::Int8Array(nv);
        proof {
            assert(a.scalars() =~= Vec::<i8>::arr_scalars(whole));
        }
        Ok(a)
    }
}

impl IntoArray for Vec<isize> {
    open spec fn arr_err(self) -> Option<Error> {
        None
    }

    open spec fn arr_kind(self) -> Seq<char> {
        "isize"@
    }

    open spec fn arr_scalars(self) -> Seq<ScalarModel> {
        Seq::new(self@.len(), |i: int| ScalarModel::isize(models(self@)[i]))
    }

    fn into_array(self) -> (r: Result<Array, Error>)
        ensures
            self.arr_err() is None ==> (r matches Ok(a) && a.dtype_model() == self.arr_kind()
                && a.scalars() == self.arr_scalars()),
            (match self.arr_err() {
                Some(e) => r == Err::<Array, Error>(e),
                None => true,
            }),
    {
        let ghost whole = self;
        let nv = NullVec::new(self);
        let a = Array::IsizeArray(nv);
        proof {
            assert(a.scalars() =~= Vec::<isize>::arr_scalars(whole));
        }
        Ok(a)
    }
}

impl IntoArray for Vec<u64> {
    open spec fn arr_err(self) -> Option<Error> {
        None
    }

    open spec fn arr_kind(self) -> Seq<char> {
        "u64"@
    }

    open spec fn arr_scalars(self) -> Seq<ScalarModel> {
        Seq::new(self@.len(), |i: int| ScalarModel::u64(models(self@)[i]))
    }

    fn into_array(self) -> (r: Result<Array, Error>)
        ensures
            self.arr_err() is None ==> (r matches Ok(a) && a.dtype_model() == self.arr_kind()
                && a.scalars() == self.arr_scalars()),
            (match self.arr_err() {
                Some(e) => r == Err::<Array, Error>(e),
                None => true,
            }),
    {
        let ghost whole = self;
        let nv = NullVec::new(self);
        let a = Array::UInt64Array(nv);
        proof {
            assert(a.scalars() =~= Vec::<u64>::arr_scalars(whole));
        }
        Ok(a)
    }
}

impl IntoArray for Vec<u32> {
    open spec fn arr_err(self) -> Option<Error> {
        None
    }

    open spec fn arr_kind(self) -> Seq<char> {
        "u32"@
    }

    open spec fn arr_scalars(self) -> Seq<ScalarModel> {
        Seq::new(self@.len(), |i: int| ScalarModel::u32(models(self@)[i]))
    }

    fn into_array(self) -> (r: Result<Array, Error>)
        ensures
            self.arr_err() is None ==> (r matches Ok(a) && a.dtype_model() == self.arr_kind()
                && a.scalars() == self.arr_scalars()),
            (match self.arr_err() {
                Some(e) => r == Err::<Array, Error>(e),
                None => true,
            }),
    {
        let ghost whole = self;
        let nv = NullVec::new(self);
        let a = Array::UInt32Array(nv);
        proof {
            assert(a.scalars() =~= Vec::<u32>::arr_scalars(whole));
        }
        Ok(a)
    }
}

impl IntoArray for Vec<u16> {
    open spec fn arr_err(self) -> Option<Error> {
        None
    }

    open spec fn arr_kind(self) -> Seq<char> {
        "u16"@
    }

    open spec fn arr_scalars(self) -> Seq<ScalarModel> {
        Seq::new(self@.len(), |i: int| ScalarModel::u16(models(self@)[i]))
    }

    fn into_array(self) -> (r: Result<Array, Error>)
        ensures
            self.arr_err() is None ==> (r matches Ok(a) && a.dtype_model() == self.arr_kind()
                && a.scalars() == self.arr_scalars()),
            (match self.arr_err() {
                Some(e) => r == Err::<Array, Error>(e),
                None => true,
            }),
    {
        let ghost whole = self;
        let nv = NullVec::new(self);
        let a = Array::UInt16Array(nv);
        proof {
            assert(a.scalars() =~= Vec::<u16>::arr_scalars(whole));
        }
        Ok(a)
    }
}

impl IntoArray for Vec<u8> {
    open spec fn arr_err(self) -> Option<Error> {
        None
    }

    open spec fn arr_kind(self) -> Seq<char> {
        "u8"@
    }

    open spec fn arr_scalars(self) -> Seq<ScalarModel> {
        Seq::new(self@.len(), |i: int| ScalarModel::u8(models(self@)[i]))
    }

    fn into_array(self) -> (r: Result<Array, Error>)
        ensures
            self.arr_err() is None ==> (r matches Ok(a) && a.dtype_model() == self.arr_kind()
                && a.scalars() == self.arr_scalars()),
            (match self.arr_err() {
                Some(e) => r == Err::<Array, Error>(e),
                None => true,
            }),
    {
        let ghost whole = self;
        let nv = NullVec::new(self);
        let a = Array::UInt8Array(nv);
        proof {
            assert(a.scalars() =~= Vec::<u8>::arr_scalars(whole));
        }
        Ok(a)
    }
}

impl IntoArray for Vec<usize> {
    open spec fn arr_err(self) -> Option<Error> {
        None
    }

    open spec fn arr_kind(self) -> Seq<char> {
        "usize"@
    }

    open spec fn arr_scalars(self) -> Seq<ScalarModel> {
        Seq::new(self@.len(), |i: int| ScalarModel::usize(models(self@)[i]))
    }

    fn into_array(self) -> (r: Result<Array, Error>)
        ensures
            self.arr_err() is None ==> (r matches Ok(a) && a.dtype_model() == self.arr_kind()
                && a.scalars() == self.arr_scalars()),
            (match self.arr_err() {
                Some(e) => r == Err::<Array, Error>(e),
                None => true,
            }),
    {
        let ghost whole = self;
        let nv = NullVec::new(self);
        let a = Array::UsizeArray(nv);
        proof {
            assert(a.scalars() =~= Vec::<usize>::arr_scalars(whole));
        }
        Ok(a)
    }
}

impl IntoArray for Vec<Float64> {
    open spec fn arr_err(self) -> Option<Error> {
        None
    }

    open spec fn arr_kind(self) -> Seq<char> {
        "float64"@
    }

    open spec fn arr_scalars(self) -> Seq<ScalarModel> {
        Seq::new(
            self@.len(),
            |i: int|
                if <Float64 as crate::traits::NullStorable>::model_is_null(models(self@)[i]) {
                    ScalarModel::Null
                } else {
                    ScalarModel::Float64(models(self@)[i])
                },
        )
    }

    fn into_array(self) -> (r: Result<Array, Error>)
        ensures
            self.arr_err() is None ==> (r matches Ok(a) && a.dtype_model() == self.arr_kind()
                && a.scalars() == self.arr_scalars()),
            (match self.arr_err() {
                Some(e) => r == Err::<Array, Error>(e),
                None => true,
            }),
    {
        let ghost whole = self;
        let nv = NullVec::new(self);
        let a = Array::Float64Array(nv);
        proof {
            assert(a.scalars() =~= Vec::<Float64>::arr_scalars(whole));
        }
        Ok(a)
    }
}

impl IntoArray for Vec<Float32> {
    open spec fn arr_err(self) -> Option<Error> {
        None
    }

    open spec fn arr_kind(self) -> Seq<char> {
        "float32"@
    }

    open spec fn arr_scalars(self) -> Seq<ScalarModel> {
        Seq::new(
            self@.len(),
            |i: int|
                if <Float32 as crate::traits::NullStorable>::model_is_null(models(self@)[i]) {
                    ScalarModel::Null
                } else {
                    ScalarModel::Float32(models(self@)[i])
                },
        )
    }

    fn into_array(self) -> (r: Result<Array, Error>)
        ensures
            self.arr_err() is None ==> (r matches Ok(a) && a.dtype_model() == self.arr_kind()
                && a.scalars() == self.arr_scalars()),
            (match self.arr_err() {
                Some(e) => r == Err::<Array, Error>(e),
                None => true,
            }),
    {
        let ghost whole = self;
        let nv = NullVec::new(self);
        let a = Array::Float32Array(nv);
        proof {
            assert(a.scalars() =~= Vec::<Float32>::arr_scalars(whole));
        }
        Ok(a)
    }
}

impl IntoArray for Vec<bool> {
    open spec fn arr_err(self) -> Option<Error> {
        None
    }

    open spec fn arr_kind(self) -> Seq<char> {
        "bool"@
    }

    open spec fn arr_scalars(self) -> Seq<ScalarModel> {
        Seq::new(self@.len(), |i: int| ScalarModel::bool(models(self@)[i]))
    }

    fn into_array(self) -> (r: Result<Array, Error>)
        ensures
            self.arr_err() is None ==> (r matches Ok(a) && a.dtype_model() == self.arr_kind()
                && a.scalars() == self.arr_scalars()),
            (match self.arr_err() {
                Some(e) => r == Err::<Array, Error>(e),
                None => true,
            }),
    {
        let ghost whole = self;
        let nv = NullVec::new(self);
        let a = Array::BoolArray(nv);
        proof {
            assert(a.scalars() =~= Vec::<bool>::arr_scalars(whole));
        }
        Ok(a)
    }
}

impl IntoArray for Vec<String> {
    open spec fn arr_err(self) -> Option<Error> {
        None
    }

    open spec fn arr_kind(self) -> Seq<char> {
        "str"@
    }

    open spec fn arr_scalars(self) -> Seq<ScalarModel> {
        Seq::new(self@.len(), |i: int| ScalarModel::Str(models(self@)[i]))
    }

    fn into_array(self) -> (r: Result<Array, Error>)
        ensures
            self.arr_err() is None ==> (r matches Ok(a) && a.dtype_model() == self.arr_kind()
                && a.scalars() == self.arr_scalars()),
            (match self.arr_err() {
                Some(e) => r == Err::<Array, Error>(e),
                None => true,
            }),
    {
        let ghost whole = self;
        let nv = NullVec::new(self);
        let a = Array::StringArray(nv);
        proof {
            assert(a.scalars() =~= Vec::<String>::arr_scalars(whole));
        }
        Ok(a)
    }
}

/// Cast every scalar of a buffer to `i64`, collecting a nullable vector; a
/// scalar that does not coerce stops the conversion.
fn scalars_to_i64(values: &Vec<Scalar>) -> (r: Result<NullVec<i64>, Error>)
    ensures
        (forall|i: int| 0 <= i < values@.len() ==> cast_i64_model(#[trigger] values@[i]) is Ok)
            == (r is Ok),
        (r matches Ok(nv) && {
            &&& nv.vals().len() == values@.len()
            &&& nv.nulls().len() == values@.len()
            &&& forall|i: int|
                0 <= i < values@.len() ==> (match cast_i64_model(#[trigger] values@[i]) {
                    Ok(n) => nv.vals()[i] == (match entry_model::<i64>(n.model()) {
                        Some(m) => m,
                        None => <i64 as crate::traits::NullStorable>::placeholder_model(),
                    }) && nv.nulls()[i] == (entry_model::<i64>(n.model()) is None),
                    Err(_) => true,
                })
        }) || (r matches Err(e) && e is CoercionError),
{
    let n = values.len();
    let mut out: Vec<Nullable<i64>> = Vec::new();
    let mut i: usize = 0;
    while i < n
        invariant
            i <= n,
            n == values@.len(),
            out@.len() == i,
            forall|j: int|
                0 <= j < i ==> (cast_i64_model(#[trigger] values@[j]) matches Ok(nb) && out@[j]
                    == nb),
        decreases n - i,
    {
        match values[i].as_i64() {
            Ok(nb) => {
                out.push(nb);
            },
            Err(e) => {
                return Err(Error::CoercionError);
            },
        }
        i = i + 1;
    }
    Ok(NullVec::from_nullables(out))
}

/// Cast every scalar of a buffer to `i32`, collecting a nullable vector; a
/// scalar that does not coerce stops the conversion.
fn scalars_to_i32(values: &Vec<Scalar>) -> (r: Result<NullVec<i32>, Error>)
    ensures
        (forall|i: int| 0 <= i < values@.len() ==> cast_i32_model(#[trigger] values@[i]) is Ok)
            == (r is Ok),
        (r matches Ok(nv) && {
            &&& nv.vals().len() == values@.len()
            &&& nv.nulls().len() == values@.len()
            &&& forall|i: int|
                0 <= i < values@.len() ==> (match cast_i32_model(#[trigger] values@[i]) {
                    Ok(n) => nv.vals()[i] == (match entry_model::<i32>(n.model()) {
                        Some(m) => m,
                        None => <i32 as crate::traits::NullStorable>::placeholder_model(),
                    }) && nv.nulls()[i] == (entry_model::<i32>(n.model()) is None),
                    Err(_) => true,
                })
        }) || (r matches Err(e) && e is CoercionError),
{
    let n = values.len();
    let mut out: Vec<Nullable<i32>> = Vec::new();
    let mut i: usize = 0;
    while i < n
        invariant
            i <= n,
            n == values@.len(),
            out@.len() == i,
            forall|j: int|
                0 <= j < i ==> (cast_i32_model(#[trigger] values@[j]) matches Ok(nb) && out@[j]
                    == nb),
        decreases n - i,
    {
        match values[i].as_i32() {
            Ok(nb) => {
                out.push(nb);
            },
            Err(e) => {
                return Err(Error::CoercionError);
            },
        }
        i = i + 1;
    }
    Ok(NullVec::from_nullables(out))
}

/// Cast every scalar of a buffer to `i16`, collecting a nullable vector; a
/// scalar that does not coerce stops the conversion.
fn scalars_to_i16(values: &Vec<Scalar>) -> (r: Result<NullVec<i16>, Error>)
    ensures
        (forall|i: int| 0 <= i < values@.len() ==> cast_i16_model(#[trigger] values@[i]) is Ok)
            == (r is Ok),
        (r matches Ok(nv) && {
            &&& nv.vals().len() == values@.len()
            &&& nv.nulls().len() == values@.len()
            &&& forall|i: int|
                0 <= i < values@.len() ==> (match cast_i16_model(#[trigger] values@[i]) {
                    Ok(n) => nv.vals()[i] == (match entry_model::<i16>(n.model()) {
                        Some(m) => m,
                        None => <i16 as crate::traits::NullStorable>::placeholder_model(),
                    }) && nv.nulls()[i] == (entry_model::<i16>(n.model()) is None),
                    Err(_) => true,
                })
        }) || (r matches Err(e) && e is CoercionError),
{
    let n = values.len();
    let mut out: Vec<Nullable<i16>> = Vec::new();
    let mut i: usize = 0;
    while i < n
        invariant
            i <= n,
            n == values@.len(),
            out@.len() == i,
            forall|j: int|
                0 <= j < i ==> (cast_i16_model(#[trigger] values@[j]) matches Ok(nb) && out@[j]
                    == nb),
        decreases n - i,
    {
        match values[i].as_i16() {
            Ok(nb) => {
                out.push(nb);
            },
            Err(e) => {
                return Err(Error::CoercionError);
            },
        }
        i = i + 1;
    }
    Ok(NullVec::from_nullables(out))
}

/// Cast every scalar of a buffer to `i8`, collecting a nullable vector; a
/// scalar that does not coerce stops the conversion.
fn scalars_to_i8(values: &Vec<Scalar>) -> (r: Result<NullVec<i8>, Error>)
    ensures
        (forall|i: int| 0 <= i < values@.len() ==> cast_i8_model(#[trigger] values@[i]) is Ok)
            == (r is Ok),
        (r matches Ok(nv) && {
            &&& nv.vals().len() == values@.len()
            &&& nv.nulls().len() == values@.len()
            &&& forall|i: int|
                0 <= i < values@.len() ==> (match cast_i8_model(#[trigger] values@[i]) {
                    Ok(n) => nv.vals()[i] == (match entry_model::<i8>(n.model()) {
                        Some(m) => m,
                        None => <i8 as crate::traits::NullStorable>::placeholder_model(),
                    }) && nv.nulls()[i] == (entry_model::<i8>(n.model()) is None),
                    Err(_) => true,
                })
        }) || (r matches Err(e) && e is CoercionError),
{
    let n = values.len();
    let mut out: Vec<Nullable<i8>> = Vec::new();
    let mut i: usize = 0;
    while i < n
        invariant
            i <= n,
            n == values@.len(),
            out@.len() == i,
            forall|j: int|
                0 <= j < i ==> (cast_i8_model(#[trigger] values@[j]) matches Ok(nb) && out@[j]
                    == nb),
        decreases n - i,
    {
        match values[i].as_i8() {
            Ok(nb) => {
                out.push(nb);
            },
            Err(e) => {
                return Err(Error::CoercionError);
            },
        }
        i = i + 1;
    }
    Ok(NullVec::from_nullables(out))
}

/// Cast every scalar of a buffer to `isize`, collecting a nullable vector; a
/// scalar that does not coerce stops the conversion.
fn scalars_to_isize(values: &Vec<Scalar>) -> (r: Result<NullVec<isize>, Error>)
    ensures
        (forall|i: int| 0 <= i < values@.len() ==> cast_isize_model(#[trigger] values@[i]) is Ok)
            == (r is Ok),
        (r matches Ok(nv) && {
            &&& nv.vals().len() == values@.len()
            &&& nv.nulls().len() == values@.len()
            &&& forall|i: int|
                0 <= i < values@.len() ==> (match cast_isize_model(#[trigger] values@[i]) {
                    Ok(n) => nv.vals()[i] == (match entry_model::<isize>(n.model()) {
                        Some(m) => m,
                        None => <isize as crate::traits::NullStorable>::placeholder_model(),
                    }) && nv.nulls()[i] == (entry_model::<isize>(n.model()) is None),
                    Err(_) => true,
                })
        }) || (r matches Err(e) && e is CoercionError),
{
    let n = values.len();
    let mut out: Vec<Nullable<isize>> = Vec::new();
    let mut i: usize = 0;
    while i < n
        invariant
            i <= n,
            n == values@.len(),
            out@.len() == i,
            forall|j: int|
                0 <= j < i ==> (cast_isize_model(#[trigger] values@[j]) matches Ok(nb) && out@[j]
                    == nb),
        decreases n - i,
    {
        match values[i].as_isize() {
            Ok(nb) => {
                out.push(nb);
            },
            Err(e) => {
                return Err(Error::CoercionError);
            },
        }
        i = i + 1;
    }
    Ok(NullVec::from_nullables(out))
}

/// Cast every scalar of a buffer to `u64`, collecting a nullable vector; a
/// scalar that does not coerce stops the conversion.
fn scalars_to_u64(values: &Vec<Scalar>) -> (r: Result<NullVec<u64>, Error>)
    ensures
        (forall|i: int| 0 <= i < values@.len() ==> cast_u64_model(#[trigger] values@[i]) is Ok)
            == (r is Ok),
        (r matches Ok(nv) && {
            &&& nv.vals().len() == values@.len()
            &&& nv.nulls().len() == values@.len()
            &&& forall|i: int|
                0 <= i < values@.len() ==> (match cast_u64_model(#[trigger] values@[i]) {
                    Ok(n) => nv.vals()[i] == (match entry_model::<u64>(n.model()) {
                        Some(m) => m,
                        None => <u64 as crate::traits::NullStorable>::placeholder_model(),
                    }) && nv.nulls()[i] == (entry_model::<u64>(n.model()) is None),
                    Err(_) => true,
                })
        }) || (r matches Err(e) && e is CoercionError),
{
    let n = values.len();
    let mut out: Vec<Nullable<u64>> = Vec::new();
    let mut i: usize = 0;
    while i < n
        invariant
            i <= n,
            n == values@.len(),
            out@.len() == i,
            forall|j: int|
                0 <= j < i ==> (cast_u64_model(#[trigger] values@[j]) matches Ok(nb) && out@[j]
                    == nb),
        decreases n - i,
    {
        match values[i].as_u64() {
            Ok(nb) => {
                out.push(nb);
            },
            Err(e) => {
                return Err(Error::CoercionError);
            },
        }
        i = i + 1;
    }
    Ok(NullVec::from_nullables(out))
}

/// Cast every scalar of a buffer to `u32`, collecting a nullable vector; a
/// scalar that does not coerce stops the conversion.
fn scalars_to_u32(values: &Vec<Scalar>) -> (r: Result<NullVec<u32>, Error>)
    ensures
        (forall|i: int| 0 <= i < values@.len() ==> cast_u32_model(#[trigger] values@[i]) is Ok)
            == (r is Ok),
        (r matches Ok(nv) && {
            &&& nv.vals().len() == values@.len()
            &&& nv.nulls().len() == values@.len()
            &&& forall|i: int|
                0 <= i < values@.len() ==> (match cast_u32_model(#[trigger] values@[i]) {
                    Ok(n) => nv.vals()[i] == (match entry_model::<u32>(n.model()) {
                        Some(m) => m,
                        None => <u32 as crate::traits::NullStorable>::placeholder_model(),
                    }) && nv.nulls()[i] == (entry_model::<u32>(n.model()) is None),
                    Err(_) => true,
                })
        }) || (r matches Err(e) && e is CoercionError),
{
    let n = values.len();
    let mut out: Vec<Nullable<u32>> = Vec::new();
    let mut i: usize = 0;
    while i < n
        invariant
            i <= n,
            n == values@.len(),
            out@.len() == i,
            forall|j: int|
                0 <= j < i ==> (cast_u32_model(#[trigger] values@[j]) matches Ok(nb) && out@[j]
                    == nb),
        decreases n - i,
    {
        match values[i].as_u32() {
            Ok(nb) => {
                out.push(nb);
            },
            Err(e) => {
                return Err(Error::CoercionError);
            },
        }
        i = i + 1;
    }
    Ok(NullVec::from_nullables(out))
}

/// Cast every scalar of a buffer to `u16`, collecting a nullable vector; a
/// scalar that does not coerce stops the conversion.
fn scalars_to_u16(values: &Vec<Scalar>) -> (r: Result<NullVec<u16>, Error>)
    ensures
        (forall|i: int| 0 <= i < values@.len() ==> cast_u16_model(#[trigger] values@[i]) is Ok)
            == (r is Ok),
        (r matches Ok(nv) && {
            &&& nv.vals().len() == values@.len()
            &&& nv.nulls().len() == values@.len()
            &&& forall|i: int|
                0 <= i < values@.len() ==> (match cast_u16_model(#[trigger] values@[i]) {
                    Ok(n) => nv.vals()[i] == (match entry_model::<u16>(n.model()) {
                        Some(m) => m,
                        None => <u16 as crate::traits::NullStorable>::placeholder_model(),
                    }) && nv.nulls()[i] == (entry_model::<u16>(n.model()) is None),
                    Err(_) => true,
                })
        }) || (r matches Err(e) && e is CoercionError),
{
    let n = values.len();
    let mut out: Vec<Nullable<u16>> = Vec::new();
    let mut i: usize = 0;
    while i < n
        invariant
            i <= n,
            n == values@.len(),
            out@.len() == i,
            forall|j: int|
                0 <= j < i ==> (cast_u16_model(#[trigger] values@[j]) matches Ok(nb) && out@[j]
                    == nb),
        decreases n - i,
    {
        match values[i].as_u16() {
            Ok(nb) => {
                out.push(nb);
            },
            Err(e) => {
                return Err(Error::CoercionError);
            },
        }
        i = i + 1;
    }
    Ok(NullVec::from_nullables(out))
}

/// Cast every scalar of a buffer to `u8`, collecting a nullable vector; a
/// scalar that does not coerce stops the conversion.
fn scalars_to_u8(values: &Vec<Scalar>) -> (r: Result<NullVec<u8>, Error>)
    ensures
        (forall|i: int| 0 <= i < values@.len() ==> cast_u8_model(#[trigger] values@[i]) is Ok)
            == (r is Ok),
        (r matches Ok(nv) && {
            &&& nv.vals().len() == values@.len()
            &&& nv.nulls().len() == values@.len()
            &&& forall|i: int|
                0 <= i < values@.len() ==> (match cast_u8_model(#[trigger] values@[i]) {
                    Ok(n) => nv.vals()[i] == (match entry_model::<u8>(n.model()) {
                        Some(m) => m,
                        None => <u8 as crate::traits::NullStorable>::placeholder_model(),
                    }) && nv.nulls()[i] == (entry_model::<u8>(n.model()) is None),
                    Err(_) => true,
                })
        }) || (r matches Err(e) && e is CoercionError),
{
    let n = values.len();
    let mut out: Vec<Nullable<u8>> = Vec::new();
    let mut i: usize = 0;
    while i < n
        invariant
            i <= n,
            n == values@.len(),
            out@.len() == i,
            forall|j: int|
                0 <= j < i ==> (cast_u8_model(#[trigger] values@[j]) matches Ok(nb) && out@[j]
                    == nb),
        decreases n - i,
    {
        match values[i].as_u8() {
            Ok(nb) => {
                out.push(nb);
            },
            Err(e) => {
                return Err(Error::CoercionError);
            },
        }
        i = i + 1;
    }
    Ok(NullVec::from_nullables(out))
}

/// Cast every scalar of a buffer to `usize`, collecting a nullable vector; a
/// scalar that does not coerce stops the conversion.
fn scalars_to_usize(values: &Vec<Scalar>) -> (r: Result<NullVec<usize>, Error>)
    ensures
        (forall|i: int| 0 <= i < values@.len() ==> cast_usize_model(#[trigger] values@[i]) is Ok)
            == (r is Ok),
        (r matches Ok(nv) && {
            &&& nv.vals().len() == values@.len()
            &&& nv.nulls().len() == values@.len()
            &&& forall|i: int|
                0 <= i < values@.len() ==> (match cast_usize_model(#[trigger] values@[i]) {
                    Ok(n) => nv.vals()[i] == (match entry_model::<usize>(n.model()) {
                        Some(m) => m,
                        None => <usize as crate::traits::NullStorable>::placeholder_model(),
                    }) && nv.nulls()[i] == (entry_model::<usize>(n.model()) is None),
                    Err(_) => true,
                })
        }) || (r matches Err(e) && e is CoercionError),
{
    let n = values.len();
    let mut out: Vec<Nullable<usize>> = Vec::new();
    let mut i: usize = 0;
    while i < n
        invariant
            i <= n,
            n == values@.len(),
            out@.len() == i,
            forall|j: int|
                0 <= j < i ==> (cast_usize_model(#[trigger] values@[j]) matches Ok(nb) && out@[j]
                    == nb),
        decreases n - i,
    {
        match values[i].as_usize() {
            Ok(nb) => {
                out.push(nb);
            },
            Err(e) => {
                return Err(Error::CoercionError);
            },
        }
        i = i + 1;
    }
    Ok(NullVec::from_nullables(out))
}

/// Cast every scalar of a buffer to `Float64`, collecting a nullable vector; a
/// scalar that does not coerce stops the conversion.
fn scalars_to_float64(values: &Vec<Scalar>) -> (r: Result<NullVec<Float64>, Error>)
    ensures
        (forall|i: int| 0 <= i < values@.len() ==> cast_float64_model(#[trigger] values@[i]) is Ok)
            == (r is Ok),
        (r matches Ok(nv) && {
            &&& nv.vals().len() == values@.len()
            &&& nv.nulls().len() == values@.len()
            &&& forall|i: int|
                0 <= i < values@.len() ==> (match cast_float64_model(#[trigger] values@[i]) {
                    Ok(n) => nv.vals()[i] == (match entry_model::<Float64>(n.model()) {
                        Some(m) => m,
                        None => <Float64 as crate::traits::NullStorable>::placeholder_model(),
                    }) && nv.nulls()[i] == (entry_model::<Float64>(n.model()) is None),
                    Err(_) => true,
                })
        }) || (r matches Err(e) && e is CoercionError),
{
    let n = values.len();
    let mut out: Vec<Nullable<Float64>> = Vec::new();
    let mut i: usize = 0;
    while i < n
        invariant
            i <= n,
            n == values@.len(),
            out@.len() == i,
            forall|j: int|
                0 <= j < i ==> (cast_float64_model(#[trigger] values@[j]) matches Ok(nb) && out@[j]
                    == nb),
        decreases n - i,
    {
        match values[i].as_float64() {
            Ok(nb) => {
                out.push(nb);
            },
            Err(e) => {
                return Err(Error::CoercionError);
            },
        }
        i = i + 1;
    }
    Ok(NullVec::from_nullables(out))
}

/// Cast every scalar of a buffer to `Float32`, collecting a nullable vector; a
/// scalar that does not coerce stops the conversion.
fn scalars_to_float32(values: &Vec<Scalar>) -> (r: Result<NullVec<Float32>, Error>)
    ensures
        (forall|i: int| 0 <= i < values@.len() ==> cast_float32_model(#[trigger] values@[i]) is Ok)
            == (r is Ok),
        (r matches Ok(nv) && {
            &&& nv.vals().len() == values@.len()
            &&& nv.nulls().len() == values@.len()
            &&& forall|i: int|
                0 <= i < values@.len() ==> (match cast_float32_model(#[trigger] values@[i]) {
                    Ok(n) => nv.vals()[i] == (match entry_model::<Float32>(n.model()) {
                        Some(m) => m,
                        None => <Float32 as crate::traits::NullStorable>::placeholder_model(),
                    }) && nv.nulls()[i] == (entry_model::<Float32>(n.model()) is None),
                    Err(_) => true,
                })
        }) || (r matches Err(e) && e is CoercionError),
{
    let n = values.len();
    let mut out: Vec<Nullable<Float32>> = Vec::new();
    let mut i: usize = 0;
    while i < n
        invariant
            i <= n,
            n == values@.len(),
            out@.len() == i,
            forall|j: int|
                0 <= j < i ==> (cast_float32_model(#[trigger] values@[j]) matches Ok(nb) && out@[j]
                    == nb),
        decreases n - i,
    {
        match values[i].as_float32() {
            Ok(nb) => {
                out.push(nb);
            },
            Err(e) => {
                return Err(Error::CoercionError);
            },
        }
        i = i + 1;
    }
    Ok(NullVec::from_nullables(out))
}

/// Cast every scalar of a buffer to `bool`, collecting a nullable vector; a
/// scalar that does not coerce stops the conversion.
fn scalars_to_bool(values: &Vec<Scalar>) -> (r: Result<NullVec<bool>, Error>)
    ensures
        (forall|i: int| 0 <= i < values@.len() ==> cast_bool_model(#[trigger] values@[i]) is Ok)
            == (r is Ok),
        (r matches Ok(nv) && {
            &&& nv.vals().len() == values@.len()
            &&& nv.nulls().len() == values@.len()
            &&& forall|i: int|
                0 <= i < values@.len() ==> (match cast_bool_model(#[trigger] values@[i]) {
                    Ok(n) => nv.vals()[i] == (match entry_model::<bool>(n.model()) {
                        Some(m) => m,
                        None => <bool as crate::traits::NullStorable>::placeholder_model(),
                    }) && nv.nulls()[i] == (entry_model::<bool>(n.model()) is None),
                    Err(_) => true,
                })
        }) || (r matches Err(e) && e is CoercionError),
{
    let n = values.len();
    let mut out: Vec<Nullable<bool>> = Vec::new();
    let mut i: usize = 0;
    while i < n
        invariant
            i <= n,
            n == values@.len(),
            out@.len() == i,
            forall|j: int|
                0 <= j < i ==> (cast_bool_model(#[trigger] values@[j]) matches Ok(nb) && out@[j]
                    == nb),
        decreases n - i,
    {
        match values[i].as_bool() {
            Ok(nb) => {
                out.push(nb);
            },
            Err(e) => {
                return Err(Error::CoercionError);
            },
        }
        i = i + 1;
    }
    Ok(NullVec::from_nullables(out))
}

/// Collect a buffer of text scalars into a nullable text vector; any scalar
/// of another kind stops the conversion.
fn scalars_to_string(values: &Vec<Scalar>) -> (r: Result<NullVec<String>, Error>)
    ensures
        (forall|i: int|
            0 <= i < values@.len() ==> ((#[trigger] values@[i]) matches Scalar::String(_)
                || values@[i] matches Scalar::Null)) == (r is Ok),
        (r matches Ok(nv) && {
            &&& nv.vals().len() == values@.len()
            &&& nv.nulls().len() == values@.len()
            &&& forall|i: int|
                0 <= i < values@.len() ==> (match #[trigger] values@[i] {
                    Scalar::String(s) => nv.vals()[i] == s@ && nv.nulls()[i] == false,
                    _ => nv.nulls()[i] == true,
                })
        }) || (r matches Err(e) && e is CoercionError),
{
    let n = values.len();
    let mut out: Vec<Nullable<String>> = Vec::new();
    let mut i: usize = 0;
    while i < n
        invariant
            i <= n,
            n == values@.len(),
            out@.len() == i,
            forall|j: int|
                0 <= j < i ==> (match values@[j] {
                    Scalar::String(s) => (#[trigger] out@[j]).model() == Some(s@),
                    _ => out@[j].model() is None,
                }),
            forall|j: int|
                0 <= j < i ==> ((#[trigger] values@[j]) matches Scalar::String(_) || values@[j] matches Scalar::Null),
        decreases n - i,
    {
        match &values[i] {
            Scalar::String(s) => {
                out.push(Nullable::Value(s.clone()));
            },
            Scalar::Null => {
                out.push(Nullable::Null);
            },
            _ => {
                return Err(Error::CoercionError);
            },
        }
        i = i + 1;
    }
    Ok(NullVec::from_nullables(out))
}

/// Build the array for a scalar buffer whose first element is a `i64`.
#[verifier::spinoff_prover]
#[verifier::rlimit(60)]
fn build_i64(values: &Vec<Scalar>) -> (r: Result<Array, Error>)
    requires
        values@.len() > 0,
        values@[0] matches Scalar::i64(_),
    ensures
        Vec::<Scalar>::arr_err(*values) is None ==> (r matches Ok(a) && a.dtype_model()
            == Vec::<Scalar>::arr_kind(*values) && a.scalars() == Vec::<Scalar>::arr_scalars(
            *values,
        )),
        (match Vec::<Scalar>::arr_err(*values) {
            Some(e) => r == Err::<Array, Error>(e),
            None => true,
        }),
{
    match scalars_to_i64(values) {
        Ok(nv) => {
            let a = Array::Int64Array(nv);
            proof {
                if Vec::<Scalar>::arr_err(*values) is None {
                    assert(a.scalars() =~= Vec::<Scalar>::arr_scalars(*values));
                }
            }
            Ok(a)
        },
        Err(e) => Err(e),
    }
}

/// Build the array for a scalar buffer whose first element is a `i32`.
#[verifier::spinoff_prover]
#[verifier::rlimit(60)]
fn build_i32(values: &Vec<Scalar>) -> (r: Result<Array, Error>)
    requires
        values@.len() > 0,
        values@[0] matches Scalar::i32(_),
    ensures
        Vec::<Scalar>::arr_err(*values) is None ==> (r matches Ok(a) && a.dtype_model()
            == Vec::<Scalar>::arr_kind(*values) && a.scalars() == Vec::<Scalar>::arr_scalars(
            *values,
        )),
        (match Vec::<Scalar>::arr_err(*values) {
            Some(e) => r == Err::<Array, Error>(e),
            None => true,
        }),
{
    match scalars_to_i32(values) {
        Ok(nv) => {
            let a = Array::Int32Array(nv);
            proof {
                if Vec::<Scalar>::arr_err(*values) is None {
                    assert(a.scalars() =~= Vec::<Scalar>::arr_scalars(*values));
                }
            }
            Ok(a)
        },
        Err(e) => Err(e),
    }
}

/// Build the array for a scalar buffer whose first element is a `i16`.
#[verifier::spinoff_prover]
#[verifier::rlimit(60)]
fn build_i16(values: &Vec<Scalar>) -> (r: Result<Array, Error>)
    requires
        values@.len() > 0,
        values@[0] matches Scalar::i16(_),
    ensures
        Vec::<Scalar>::arr_err(*values) is None ==> (r matches Ok(a) && a.dtype_model()
            == Vec::<Scalar>::arr_kind(*values) && a.scalars() == Vec::<Scalar>::arr_scalars(
            *values,
        )),
        (match Vec::<Scalar>::arr_err(*values) {
            Some(e) => r == Err::<Array, Error>(e),
            None => true,
        }),
{
    match scalars_to_i16(values) {
        Ok(nv) => {
            let a = Array::Int16Array(nv);
            proof {
                if Vec::<Scalar>::arr_err(*values) is None {
                    assert(a.scalars() =~= Vec::<Scalar>::arr_scalars(*values));
                }
            }
            Ok(a)
        },
        Err(e) => Err(e),
    }
}

/// Build the array for a scalar buffer whose first element is a `i8`.
#[verifier::spinoff_prover]
#[verifier::rlimit(60)]
fn build_i8(values: &Vec<Scalar>) -> (r: Result<Array, Error>)
    requires
        values@.len() > 0,
        values@[0] matches Scalar::i8(_),
    ensures
        Vec::<Scalar>::arr_err(*values) is None ==> (r matches Ok(a) && a.dtype_model()
            == Vec::<Scalar>::arr_kind(*values) && a.scalars() == Vec::<Scalar>::arr_scalars(
            *values,
        )),
        (match Vec::<Scalar>::arr_err(*values) {
            Some(e) => r == Err::<Array, Error>(e),
            None => true,
        }),
{
    match scalars_to_i8(values) {
        Ok(nv) => {
            let a = Array::Int8Array(nv);
            proof {
                if Vec::<Scalar>::arr_err(*values) is None {
                    assert(a.scalars() =~= Vec::<Scalar>::arr_scalars(*values));
                }
            }
            Ok(a)
        },
        Err(e) => Err(e),
    }
}

/// Build the array for a scalar buffer whose first element is a `isize`.
#[verifier::spinoff_prover]
#[verifier::rlimit(60)]
fn build_isize(values: &Vec<Scalar>) -> (r: Result<Array, Error>)
    requires
        values@.len() > 0,
        values@[0] matches Scalar::isize(_),
    ensures
        Vec::<Scalar>::arr_err(*values) is None ==> (r matches Ok(a) && a.dtype_model()
            == Vec::<Scalar>::arr_kind(*values) && a.scalars() == Vec::<Scalar>::arr_scalars(
            *values,
        )),
        (match Vec::<Scalar>::arr_err(*values) {
            Some(e) => r == Err::<Array, Error>(e),
            None => true,
        }),
{
    match scalars_to_isize(values) {
        Ok(nv) => {
            let a = Array::IsizeArray(nv);
            proof {
                if Vec::<Scalar>::arr_err(*values) is None {
                    assert(a.scalars() =~= Vec::<Scalar>::arr_scalars(*values));
                }
            }
            Ok(a)
        },
        Err(e) => Err(e),
    }
}

/// Build the array for a scalar buffer whose first element is a `u64`.
#[verifier::spinoff_prover]
#[verifier::rlimit(60)]
fn build_u64(values: &Vec<Scalar>) -> (r: Result<Array, Error>)
    requires
        values@.len() > 0,
        values@[0] matches Scalar::u64(_),
    ensures
        Vec::<Scalar>::arr_err(*values) is None ==> (r matches Ok(a) && a.dtype_model()
            == Vec::<Scalar>::arr_kind(*values) && a.scalars() == Vec::<Scalar>::arr_scalars(
            *values,
        )),
        (match Vec::<Scalar>::arr_err(*values) {
            Some(e) => r == Err::<Array, Error>(e),
            None => true,
        }),
{
    match scalars_to_u64(values) {
        Ok(nv) => {
            let a = Array::UInt64Array(nv);
            proof {
                if Vec::<Scalar>::arr_err(*values) is None {
                    assert(a.scalars() =~= Vec::<Scalar>::arr_scalars(*values));
                }
            }
            Ok(a)
        },
        Err(e) => Err(e),
    }
}

/// Build the array for a scalar buffer whose first element is a `u32`.
#[verifier::spinoff_prover]
#[verifier::rlimit(60)]
fn build_u32(values: &Vec<Scalar>) -> (r: Result<Array, Error>)
    requires
        values@.len() > 0,
        values@[0] matches Scalar::u32(_),
    ensures
        Vec::<Scalar>::arr_err(*values) is None ==> (r matches Ok(a) && a.dtype_model()
            == Vec::<Scalar>::arr_kind(*values) && a.scalars() == Vec::<Scalar>::arr_scalars(
            *values,
        )),
        (match Vec::<Scalar>::arr_err(*values) {
            Some(e) => r == Err::<Array, Error>(e),
            None => true,
        }),
{
    match scalars_to_u32(values) {
        Ok(nv) => {
            let a = Array::UInt32Array(nv);
            proof {
                if Vec::<Scalar>::arr_err(*values) is None {
                    assert(a.scalars() =~= Vec::<Scalar>::arr_scalars(*values));
                }
            }
            Ok(a)
        },
        Err(e) => Err(e),
    }
}

/// Build the array for a scalar buffer whose first element is a `u16`.
#[verifier::spinoff_prover]
#[verifier::rlimit(60)]
fn build_u16(values: &Vec<Scalar>) -> (r: Result<Array, Error>)
    requires
        values@.len() > 0,
        values@[0] matches Scalar::u16(_),
    ensures
        Vec::<Scalar>::arr_err(*values) is None ==> (r matches Ok(a) && a.dtype_model()
            == Vec::<Scalar>::arr_kind(*values) && a.scalars() == Vec::<Scalar>::arr_scalars(
            *values,
        )),
        (match Vec::<Scalar>::arr_err(*values) {
            Some(e) => r == Err::<Array, Error>(e),
            None => true,
        }),
{
    match scalars_to_u16(values) {
        Ok(nv) => {
            let a = Array::UInt16Array(nv);
            proof {
                if Vec::<Scalar>::arr_err(*values) is None {
                    assert(a.scalars() =~= Vec::<Scalar>::arr_scalars(*values));
                }
            }
            Ok(a)
        },
        Err(e) => Err(e),
    }
}

/// Build the array for a scalar buffer whose first element is a `u8`.
#[verifier::spinoff_prover]
#[verifier::rlimit(60)]
fn build_u8(values: &Vec<Scalar>) -> (r: Result<Array, Error>)
    requires
        values@.len() > 0,
        values@[0] matches Scalar::u8(_),
    ensures
        Vec::<Scalar>::arr_err(*values) is None ==> (r matches Ok(a) && a.dtype_model()
            == Vec::<Scalar>::arr_kind(*values) && a.scalars() == Vec::<Scalar>::arr_scalars(
            *values,
        )),
        (match Vec::<Scalar>::arr_err(*values) {
            Some(e) => r == Err::<Array, Error>(e),
            None => true,
        }),
{
    match scalars_to_u8(values) {
        Ok(nv) => {
            let a = Array::UInt8Array(nv);
            proof {
                if Vec::<Scalar>::arr_err(*values) is None {
                    assert(a.scalars() =~= Vec::<Scalar>::arr_scalars(*values));
                }
            }
            Ok(a)
        },
        Err(e) => Err(e),
    }
}

/// Build the array for a scalar buffer whose first element is a `usize`.
#[verifier::spinoff_prover]
#[verifier::rlimit(60)]
fn build_usize(values: &Vec<Scalar>) -> (r: Result<Array, Error>)
    requires
        values@.len() > 0,
        values@[0] matches Scalar::usize(_),
    ensures
        Vec::<Scalar>::arr_err(*values) is None ==> (r matches Ok(a) && a.dtype_model()
            == Vec::<Scalar>::arr_kind(*values) && a.scalars() == Vec::<Scalar>::arr_scalars(
            *values,
        )),
        (match Vec::<Scalar>::arr_err(*values) {
            Some(e) => r == Err::<Array, Error>(e),
            None => true,
        }),
{
    match scalars_to_usize(values) {
        Ok(nv) => {
            let a = Array::UsizeArray(nv);
            proof {
                if Vec::<Scalar>::arr_err(*values) is None {
                    assert(a.scalars() =~= Vec::<Scalar>::arr_scalars(*values));
                }
            }
            Ok(a)
        },
        Err(e) => Err(e),
    }
}

/// Build the array for a scalar buffer whose first element is a `Float64`.
#[verifier::spinoff_prover]
#[verifier::rlimit(60)]
fn build_float64(values: &Vec<Scalar>) -> (r: Result<Array, Error>)
    requires
        values@.len() > 0,
        values@[0] matches Scalar::Float64(_),
    ensures
        Vec::<Scalar>::arr_err(*values) is None ==> (r matches Ok(a) && a.dtype_model()
            == Vec::<Scalar>::arr_kind(*values) && a.scalars() == Vec::<Scalar>::arr_scalars(
            *values,
        )),
        (match Vec::<Scalar>::arr_err(*values) {
            Some(e) => r == Err::<Array, Error>(e),
            None => true,
        }),
{
    match scalars_to_float64(values) {
        Ok(nv) => {
            let a = Array::Float64Array(nv);
            proof {
                if Vec::<Scalar>::arr_err(*values) is None {
                    assert(a.scalars() =~= Vec::<Scalar>::arr_scalars(*values));
                }
            }
            Ok(a)
        },
        Err(e) => Err(e),
    }
}

/// Build the array for a scalar buffer whose first element is a `Float32`.
#[verifier::spinoff_prover]
#[verifier::rlimit(60)]
fn build_float32(values: &Vec<Scalar>) -> (r: Result<Array, Error>)
    requires
        values@.len() > 0,
        values@[0] matches Scalar::Float32(_),
    ensures
        Vec::<Scalar>::arr_err(*values) is None ==> (r matches Ok(a) && a.dtype_model()
            == Vec::<Scalar>::arr_kind(*values) && a.scalars() == Vec::<Scalar>::arr_scalars(
            *values,
        )),
        (match Vec::<Scalar>::arr_err(*values) {
            Some(e) => r == Err::<Array, Error>(e),
            None => true,
        }),
{
    match scalars_to_float32(values) {
        Ok(nv) => {
            let a = Array::Float32Array(nv);
            proof {
                if Vec::<Scalar>::arr_err(*values) is None {
                    assert(a.scalars() =~= Vec::<Scalar>::arr_scalars(*values));
                }
            }
            Ok(a)
        },
        Err(e) => Err(e),
    }
}

/// Build the array for a scalar buffer whose first element is a `bool`.
#[verifier::spinoff_prover]
#[verifier::rlimit(60)]
fn build_bool(values: &Vec<Scalar>) -> (r: Result<Array, Error>)
    requires
        values@.len() > 0,
        values@[0] matches Scalar::bool(_),
    ensures
        Vec::<Scalar>::arr_err(*values) is None ==> (r matches Ok(a) && a.dtype_model()
            == Vec::<Scalar>::arr_kind(*values) && a.scalars() == Vec::<Scalar>::arr_scalars(
            *values,
        )),
        (match Vec::<Scalar>::arr_err(*values) {
            Some(e) => r == Err::<Array, Error>(e),
            None => true,
        }),
{
    match scalars_to_bool(values) {
        Ok(nv) => {
            let a = Array::BoolArray(nv);
            proof {
                if Vec::<Scalar>::arr_err(*values) is None {
                    assert(a.scalars() =~= Vec::<Scalar>::arr_scalars(*values));
                }
            }
            Ok(a)
        },
        Err(e) => Err(e),
    }
}

/// Build the array for a scalar buffer whose first element is a `String`.
#[verifier::spinoff_prover]
#[verifier::rlimit(60)]
fn build_string(values: &Vec<Scalar>) -> (r: Result<Array, Error>)
    requires
        values@.len() > 0,
        values@[0] matches Scalar::String(_),
    ensures
        Vec::<Scalar>::arr_err(*values) is None ==> (r matches Ok(a) && a.dtype_model()
            == Vec::<Scalar>::arr_kind(*values) && a.scalars() == Vec::<Scalar>::arr_scalars(
            *values,
        )),
        (match Vec::<Scalar>::arr_err(*values) {
            Some(e) => r == Err::<Array, Error>(e),
            None => true,
        }),
{
    match scalars_to_string(values) {
        Ok(nv) => {
            let a = Array::StringArray(nv);
            proof {
                if Vec::<Scalar>::arr_err(*values) is None {
                    assert(a.scalars() =~= Vec::<Scalar>::arr_scalars(*values));
                }
            }
            Ok(a)
        },
        Err(e) => Err(e),
    }
}

impl IntoArray for Vec<Scalar> {
    /// An empty buffer, or one whose first element is `Null`, offers no kind
    /// to infer; otherwise a scalar that does not coerce to the inferred kind
    /// stops the conversion.
    open spec fn arr_err(self) -> Option<Error> {
        if self@.len() == 0 || self@[0] is Null {
            Some(Error::EmptyInputError)
        } else {
            match self@[0] {
            Scalar::i64(_) => if exists|i: int|
                0 <= i < self@.len() && !(cast_i64_model(#[trigger] self@[i]) is Ok) {
                Some(Error::CoercionError)
            } else {
                None
            },
            Scalar::i32(_) => if exists|i: int|
                0 <= i < self@.len() && !(cast_i32_model(#[trigger] self@[i]) is Ok) {
                Some(Error::CoercionError)
            } else {
                None
            },
            Scalar::i16(_) => if exists|i: int|
                0 <= i < self@.len() && !(cast_i16_model(#[trigger] self@[i]) is Ok) {
                Some(Error::CoercionError)
            } else {
                None
            },
            Scalar::i8(_) => if exists|i: int|
                0 <= i < self@.len() && !(cast_i8_model(#[trigger] self@[i]) is Ok) {
                Some(Error::CoercionError)
            } else {
                None
            },
            Scalar::isize(_) => if exists|i: int|
                0 <= i < self@.len() && !(cast_isize_model(#[trigger] self@[i]) is Ok) {
                Some(Error::CoercionError)
            } else {
                None
            },
            Scalar::u64(_) => if exists|i: int|
                0 <= i < self@.len() && !(cast_u64_model(#[trigger] self@[i]) is Ok) {
                Some(Error::CoercionError)
            } else {
                None
            },
            Scalar::u32(_) => if exists|i: int|
                0 <= i < self@.len() && !(cast_u32_model(#[trigger] self@[i]) is Ok) {
                Some(Error::CoercionError)
            } else {
                None
            },
            Scalar::u16(_) => if exists|i: int|
                0 <= i < self@.len() && !(cast_u16_model(#[trigger] self@[i]) is Ok) {
                Some(Error::CoercionError)
            } else {
                None
            },
            Scalar::u8(_) => if exists|i: int|
                0 <= i < self@.len() && !(cast_u8_model(#[trigger] self@[i]) is Ok) {
                Some(Error::CoercionError)
            } else {
                None
            },
            Scalar::usize(_) => if exists|i: int|
                0 <= i < self@.len() && !(cast_usize_model(#[trigger] self@[i]) is Ok) {
                Some(Error::CoercionError)
            } else {
                None
            },
            Scalar::Float64(_) => if exists|i: int|
                0 <= i < self@.len() && !(cast_float64_model(#[trigger] self@[i]) is Ok) {
                Some(Error::CoercionError)
            } else {
                None
            },
            Scalar::Float32(_) => if exists|i: int|
                0 <= i < self@.len() && !(cast_float32_model(#[trigger] self@[i]) is Ok) {
                Some(Error::CoercionError)
            } else {
                None
            },
            Scalar::bool(_) => if exists|i: int|
                0 <= i < self@.len() && !(cast_bool_model(#[trigger] self@[i]) is Ok) {
                Some(Error::CoercionError)
            } else {
                None
            },
            Scalar::String(_) => if exists|i: int|
                0 <= i < self@.len() && !((#[trigger] self@[i]) matches Scalar::String(_)
                    || self@[i] matches Scalar::Null) {
                Some(Error::CoercionError)
            } else {
                None
            },
                Scalar::Null => Some(Error::EmptyInputError),
            }
        }
    }

    open spec fn arr_kind(self) -> Seq<char> {
        match self@[0] {
            Scalar::i64(_) => "i64"@,
            Scalar::i32(_) => "i32"@,
            Scalar::i16(_) => "i16"@,
            Scalar::i8(_) => "i8"@,
            Scalar::isize(_) => "isize"@,
            Scalar::u64(_) => "u64"@,
            Scalar::u32(_) => "u32"@,
            Scalar::u16(_) => "u16"@,
            Scalar::u8(_) => "u8"@,
            Scalar::usize(_) => "usize"@,
            Scalar::Float64(_) => "float64"@,
            Scalar::Float32(_) => "float32"@,
            Scalar::bool(_) => "bool"@,
            Scalar::String(_) => "str"@,
            Scalar::Null => "null"@,
        }
    }

    open spec fn arr_scalars(self) -> Seq<ScalarModel> {
        match self@[0] {
            Scalar::i64(_) => Seq::new(
                self@.len(),
                |i: int|
                    match cast_i64_model(self@[i]) {
                        Ok(n) => match entry_model::<i64>(n.model()) {
                            Some(m) => ScalarModel::i64(m),
                            None => ScalarModel::Null,
                        },
                        Err(_) => ScalarModel::Null,
                    },
            ),
            Scalar::i32(_) => Seq::new(
                self@.len(),
                |i: int|
                    match cast_i32_model(self@[i]) {
                        Ok(n) => match entry_model::<i32>(n.model()) {
                            Some(m) => ScalarModel::i32(m),
                            None => ScalarModel::Null,
                        },
                        Err(_) => ScalarModel::Null,
                    },
            ),
            Scalar::i16(_) => Seq::new(
                self@.len(),
                |i: int|
                    match cast_i16_model(self@[i]) {
                        Ok(n) => match entry_model::<i16>(n.model()) {
                            Some(m) => ScalarModel::i16(m),
                            None => ScalarModel::Null,
                        },
                        Err(_) => ScalarModel::Null,
                    },
            ),
            Scalar::i8(_) => Seq::new(
                self@.len(),
                |i: int|
                    match cast_i8_model(self@[i]) {
                        Ok(n) => match entry_model::<i8>(n.model()) {
                            Some(m) => ScalarModel::i8(m),
                            None => ScalarModel::Null,
                        },
                        Err(_) => ScalarModel::Null,
                    },
            ),
            Scalar::isize(_) => Seq::new(
                self@.len(),
                |i: int|
                    match cast_isize_model(self@[i]) {
                        Ok(n) => match entry_model::<isize>(n.model()) {
                            Some(m) => ScalarModel::isize(m),
                            None => ScalarModel::Null,
                        },
                        Err(_) => ScalarModel::Null,
                    },
            ),
            Scalar::u64(_) => Seq::new(
                self@.len(),
                |i: int|
                    match cast_u64_model(self@[i]) {
                        Ok(n) => match entry_model::<u64>(n.model()) {
                            Some(m) => ScalarModel::u64(m),
                            None => ScalarModel::Null,
                        },
                        Err(_) => ScalarModel::Null,
                    },
            ),
            Scalar::u32(_) => Seq::new(
                self@.len(),
                |i: int|
                    match cast_u32_model(self@[i]) {
                        Ok(n) => match entry_model::<u32>(n.model()) {
                            Some(m) => ScalarModel::u32(m),
                            None => ScalarModel::Null,
                        },
                        Err(_) => ScalarModel::Null,
                    },
            ),
            Scalar::u16(_) => Seq::new(
                self@.len(),
                |i: int|
                    match cast_u16_model(self@[i]) {
                        Ok(n) => match entry_model::<u16>(n.model()) {
                            Some(m) => ScalarModel::u16(m),
                            None => ScalarModel::Null,
                        },
                        Err(_) => ScalarModel::Null,
                    },
            ),
            Scalar::u8(_) => Seq::new(
                self@.len(),
                |i: int|
                    match cast_u8_model(self@[i]) {
                        Ok(n) => match entry_model::<u8>(n.model()) {
                            Some(m) => ScalarModel::u8(m),
                            None => ScalarModel::Null,
                        },
                        Err(_) => ScalarModel::Null,
                    },
            ),
            Scalar::usize(_) => Seq::new(
                self@.len(),
                |i: int|
                    match cast_usize_model(self@[i]) {
                        Ok(n) => match entry_model::<usize>(n.model()) {
                            Some(m) => ScalarModel::usize(m),
                            None => ScalarModel::Null,
                        },
                        Err(_) => ScalarModel::Null,
                    },
            ),
            Scalar::Float64(_) => Seq::new(
                self@.len(),
                |i: int|
                    match cast_float64_model(self@[i]) {
                        Ok(n) => match entry_model::<Float64>(n.model()) {
                            Some(m) => ScalarModel::Float64(m),
                            None => ScalarModel::Null,
                        },
                        Err(_) => ScalarModel::Null,
                    },
            ),
            Scalar::Float32(_) => Seq::new(
                self@.len(),
                |i: int|
                    match cast_float32_model(self@[i]) {
                        Ok(n) => match entry_model::<Float32>(n.model()) {
                            Some(m) => ScalarModel::Float32(m),
                            None => ScalarModel::Null,
                        },
                        Err(_) => ScalarModel::Null,
                    },
            ),
            Scalar::bool(_) => Seq::new(
                self@.len(),
                |i: int|
                    match cast_bool_model(self@[i]) {
                        Ok(n) => match entry_model::<bool>(n.model()) {
                            Some(m) => ScalarModel::bool(m),
                            None => ScalarModel::Null,
                        },
                        Err(_) => ScalarModel::Null,
                    },
            ),
            Scalar::String(_) => Seq::new(
                self@.len(),
                |i: int|
                    match self@[i] {
                        Scalar::String(s) => ScalarModel::Str(s@),
                        _ => ScalarModel::Null,
                    },
            ),
            Scalar::Null => Seq::empty(),
        }
    }

    fn into_array(self) -> (r: Result<Array, Error>)
        ensures
            self.arr_err() is None ==> (r matches Ok(a) && a.dtype_model() == self.arr_kind()
                && a.scalars() == self.arr_scalars()),
            (match self.arr_err() {
                Some(e) => r == Err::<Array, Error>(e),
                None => true,
            }),
    {
        if self.len() == 0 {
            return Err(Error::EmptyInputError);
        }
        let first_null = values_first_is_null(&self);
        if first_null {
            return Err(Error::EmptyInputError);
        }
        match &self[0] {
            Scalar::i64(_) => build_i64(&self),
            Scalar::i32(_) => build_i32(&self),
            Scalar::i16(_) => build_i16(&self),
            Scalar::i8(_) => build_i8(&self),
            Scalar::isize(_) => build_isize(&self),
            Scalar::u64(_) => build_u64(&self),
            Scalar::u32(_) => build_u32(&self),
            Scalar::u16(_) => build_u16(&self),
            Scalar::u8(_) => build_u8(&self),
            Scalar::usize(_) => build_usize(&self),
            Scalar::Float64(_) => build_float64(&self),
            Scalar::Float32(_) => build_float32(&self),
            Scalar::bool(_) => build_bool(&self),
            Scalar::String(_) => build_string(&self),
            Scalar::Null => Err(Error::EmptyInputError),
        }
    }
}


/// Whether the first scalar of a nonempty buffer is `Null`.
fn values_first_is_null(values: &Vec<Scalar>) -> (r: bool)
    requires
        values@.len() > 0,
    ensures
        r == (values@[0] is Null),
{
    values[0].is_null()
}

} // verus!
