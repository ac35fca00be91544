//! The dynamically typed array: a closed tagged union with one nullable
//! vector variant per supported primitive kind. Every operation matches the
//! tag, forwards to the contained vector, and wraps the result back under the
//! same tag.

use vstd::prelude::*;

use crate::algos::indexing::{gather, in_bounds, masked_select};
use crate::error::Error;
use crate::floats::{bits64_of_u64, div_bits64, Float32, Float64};
use crate::generic::scalar_impl::{Scalar, ScalarModel};
use crate::nullable::Nullable;
use crate::nullvec::nullvec_aggregation::{bits_of, max_fold, mean_bits, mean_sq_bits, min_fold, not_null_models, sum_fold, sum_ok};
use crate::nullvec::NullVec;
use crate::traits::{any_flag, neg_flags, NullStorable, NumElem};

verus! {

/// A generic array holding a nullable vector of one primitive kind.
#[derive(Clone, Debug, PartialEq)]
pub enum Array {
    /// A nullable `i64` array.
    Int64Array(NullVec<i64>),
    /// A nullable `i32` array.
    Int32Array(NullVec<i32>),
    /// A nullable `i16` array.
    Int16Array(NullVec<i16>),
    /// A nullable `i8` array.
    Int8Array(NullVec<i8>),
    /// A nullable `isize` array.
    IsizeArray(NullVec<isize>),
    /// A nullable `u64` array.
    UInt64Array(NullVec<u64>),
    /// A nullable `u32` array.
    UInt32Array(NullVec<u32>),
    /// A nullable `u16` array.
    UInt16Array(NullVec<u16>),
    /// A nullable `u8` array.
    UInt8Array(NullVec<u8>),
    /// A nullable `usize` array.
    UsizeArray(NullVec<usize>),
    /// A nullable `Float64` array.
    Float64Array(NullVec<Float64>),
    /// A nullable `Float32` array.
    Float32Array(NullVec<Float32>),
    /// A nullable `bool` array.
    BoolArray(NullVec<bool>),
    /// A nullable `String` array.
    StringArray(NullVec<String>),
}

impl Array {
    /// The logical contents: one scalar model per position, `Null` where the
    /// position is null, the kind's tag on every value.
    pub open spec fn scalars(self) -> Seq<ScalarModel> {
        match self {
            Array::Int64Array(nv) => Seq::new(
                nv.vals().len(),
                |i: int|
                    if nv.nulls()[i] {
                        ScalarModel::Null
                    } else {
                        ScalarModel::i64(nv.vals()[i])
                    },
            ),
            Array::Int32Array(nv) => Seq::new(
                nv.vals().len(),
                |i: int|
                    if nv.nulls()[i] {
                        ScalarModel::Null
                    } else {
                        ScalarModel::i32(nv.vals()[i])
                    },
            ),
            Array::Int16Array(nv) => Seq::new(
                nv.vals().len(),
                |i: int|
                    if nv.nulls()[i] {
                        ScalarModel::Null
                    } else {
                        ScalarModel::i16(nv.vals()[i])
                    },
            ),
            Array::Int8Array(nv) => Seq::new(
                nv.vals().len(),
                |i: int|
                    if nv.nulls()[i] {
                        ScalarModel::Null
                    } else {
                        ScalarModel::i8(nv.vals()[i])
                    },
            ),
            Array::IsizeArray(nv) => Seq::new(
                nv.vals().len(),
                |i: int|
                    if nv.nulls()[i] {
                        ScalarModel::Null
                    } else {
                        ScalarModel::isize(nv.vals()[i])
                    },
            ),
            Array::UInt64Array(nv) => Seq::new(
                nv.vals().len(),
                |i: int|
                    if nv.nulls()[i] {
                        ScalarModel::Null
                    } else {
                        ScalarModel::u64(nv.vals()[i])
                    },
            ),
            Array::UInt32Array(nv) => Seq::new(
                nv.vals().len(),
                |i: int|
                    if nv.nulls()[i] {
                        ScalarModel::Null
                    } else {
                        ScalarModel::u32(nv.vals()[i])
                    },
            ),
            Array::UInt16Array(nv) => Seq::new(
                nv.vals().len(),
                |i: int|
                    if nv.nulls()[i] {
                        ScalarModel::Null
                    } else {
                        ScalarModel::u16(nv.vals()[i])
                    },
            ),
            Array::UInt8Array(nv) => Seq::new(
                nv.vals().len(),
                |i: int|
                    if nv.nulls()[i] {
                        ScalarModel::Null
                    } else {
                        ScalarModel::u8(nv.vals()[i])
                    },
            ),
            Array::UsizeArray(nv) => Seq::new(
                nv.vals().len(),
                |i: int|
                    if nv.nulls()[i] {
                        ScalarModel::Null
                    } else {
                        ScalarModel::usize(nv.vals()[i])
                    },
            ),
            Array::Float64Array(nv) => Seq::new(
                nv.vals().len(),
                |i: int|
                    if nv.nulls()[i] {
                        ScalarModel::Null
                    } else {
                        ScalarModel::Float64(nv.vals()[i])
                    },
            ),
            Array::Float32Array(nv) => Seq::new(
                nv.vals().len(),
                |i: int|
                    if nv.nulls()[i] {
                        ScalarModel::Null
                    } else {
                        ScalarModel::Float32(nv.vals()[i])
                    },
            ),
            Array::BoolArray(nv) => Seq::new(
                nv.vals().len(),
                |i: int|
                    if nv.nulls()[i] {
                        ScalarModel::Null
                    } else {
                        ScalarModel::bool(nv.vals()[i])
                    },
            ),
            Array::StringArray(nv) => Seq::new(
                nv.vals().len(),
                |i: int|
                    if nv.nulls()[i] {
                        ScalarModel::Null
                    } else {
                        ScalarModel::Str(nv.vals()[i])
                    },
            ),
        }
    }

    /// The tag of the contained kind.
    pub open spec fn dtype_model(self) -> Seq<char> {
        match self {
            Array::Int64Array(_) => "i64"@,
            Array::Int32Array(_) => "i32"@,
            Array::Int16Array(_) => "i16"@,
            Array::Int8Array(_) => "i8"@,
            Array::IsizeArray(_) => "isize"@,
            Array::UInt64Array(_) => "u64"@,
            Array::UInt32Array(_) => "u32"@,
            Array::UInt16Array(_) => "u16"@,
            Array::UInt8Array(_) => "u8"@,
            Array::UsizeArray(_) => "usize"@,
            Array::Float64Array(_) => "float64"@,
            Array::Float32Array(_) => "float32"@,
            Array::BoolArray(_) => "bool"@,
            Array::StringArray(_) => "str"@,
        }
    }

    /// Whether the contained kind is numeric.
    pub open spec fn numeric_spec(self) -> bool {
        !(self matches Array::BoolArray(_)) && !(self matches Array::StringArray(_))
    }

    /// The stable per-kind tag string used for introspection.
    pub fn dtype(&self) -> (r: &'static str)
        ensures
            r@ == self.dtype_model(),
    {
        match self {
            Array::Int64Array(_) => "i64",
            Array::Int32Array(_) => "i32",
            Array::Int16Array(_) => "i16",
            Array::Int8Array(_) => "i8",
            Array::IsizeArray(_) => "isize",
            Array::UInt64Array(_) => "u64",
            Array::UInt32Array(_) => "u32",
            Array::UInt16Array(_) => "u16",
            Array::UInt8Array(_) => "u8",
            Array::UsizeArray(_) => "usize",
            Array::Float64Array(_) => "float64",
            Array::Float32Array(_) => "float32",
            Array::BoolArray(_) => "bool",
            Array::StringArray(_) => "str",
        }
    }

    /// Whether the contained kind is numeric: true for every integer and
    /// float kind, false for boolean and text.
    pub fn is_numeric(&self) -> (r: bool)
        ensures
            r == self.numeric_spec(),
    {
        match self {
            Array::Int64Array(_) => true,
            Array::Int32Array(_) => true,
            Array::Int16Array(_) => true,
            Array::Int8Array(_) => true,
            Array::IsizeArray(_) => true,
            Array::UInt64Array(_) => true,
            Array::UInt32Array(_) => true,
            Array::UInt16Array(_) => true,
            Array::UInt8Array(_) => true,
            Array::UsizeArray(_) => true,
            Array::Float64Array(_) => true,
            Array::Float32Array(_) => true,
            Array::BoolArray(_) => false,
            Array::StringArray(_) => false,
        }
    }

    /// The number of elements, null or not.
    pub fn len(&self) -> (r: usize)
        ensures
            r == self.scalars().len(),
    {
        match self {
            Array::Int64Array(nv) => nv.len(),
            Array::Int32Array(nv) => nv.len(),
            Array::Int16Array(nv) => nv.len(),
            Array::Int8Array(nv) => nv.len(),
            Array::IsizeArray(nv) => nv.len(),
            Array::UInt64Array(nv) => nv.len(),
            Array::UInt32Array(nv) => nv.len(),
            Array::UInt16Array(nv) => nv.len(),
            Array::UInt8Array(nv) => nv.len(),
            Array::UsizeArray(nv) => nv.len(),
            Array::Float64Array(nv) => nv.len(),
            Array::Float32Array(nv) => nv.len(),
            Array::BoolArray(nv) => nv.len(),
            Array::StringArray(nv) => nv.len(),
        }
    }

    /// The element at a location already known to be within bounds, as a
    /// scalar; a null position comes out as `Scalar::Null`.
    pub fn iloc_unchecked(&self, location: &usize) -> (r: Scalar)
        requires
            *location < self.scalars().len(),
        ensures
            r.model() == self.scalars()[*location as int],
    {
        match self {
            Array::Int64Array(nv) => match nv.iloc_unchecked(location) {
                Nullable::Value(x) => Scalar::i64(x),
                Nullable::Null => Scalar::Null,
            },
            Array::Int32Array(nv) => match nv.iloc_unchecked(location) {
                Nullable::Value(x) => Scalar::i32(x),
                Nullable::Null => Scalar::Null,
            },
            Array::Int16Array(nv) => match nv.iloc_unchecked(location) {
                Nullable::Value(x) => Scalar::i16(x),
                Nullable::Null => Scalar::Null,
            },
            Array::Int8Array(nv) => match nv.iloc_unchecked(location) {
                Nullable::Value(x) => Scalar::i8(x),
                Nullable::Null => Scalar::Null,
            },
            Array::IsizeArray(nv) => match nv.iloc_unchecked(location) {
                Nullable::Value(x) => Scalar::isize(x),
                Nullable::Null => Scalar::Null,
            },
            Array::UInt64Array(nv) => match nv.iloc_unchecked(location) {
                Nullable::Value(x) => Scalar::u64(x),
                Nullable::Null => Scalar::Null,
            },
            Array::UInt32Array(nv) => match nv.iloc_unchecked(location) {
                Nullable::Value(x) => Scalar::u32(x),
                Nullable::Null => Scalar::Null,
            },
            Array::UInt16Array(nv) => match nv.iloc_unchecked(location) {
                Nullable::Value(x) => Scalar::u16(x),
                Nullable::Null => Scalar::Null,
            },
            Array::UInt8Array(nv) => match nv.iloc_unchecked(location) {
                Nullable::Value(x) => Scalar::u8(x),
                Nullable::Null => Scalar::Null,
            },
            Array::UsizeArray(nv) => match nv.iloc_unchecked(location) {
                Nullable::Value(x) => Scalar::usize(x),
                Nullable::Null => Scalar::Null,
            },
            Array::Float64Array(nv) => match nv.iloc_unchecked(location) {
                Nullable::Value(x) => Scalar::Float64(x),
                Nullable::Null => Scalar::Null,
            },
            Array::Float32Array(nv) => match nv.iloc_unchecked(location) {
                Nullable::Value(x) => Scalar::Float32(x),
                Nullable::Null => Scalar::Null,
            },
            Array::BoolArray(nv) => match nv.iloc_unchecked(location) {
                Nullable::Value(x) => Scalar::bool(x),
                Nullable::Null => Scalar::Null,
            },
            Array::StringArray(nv) => match nv.iloc_unchecked(location) {
                Nullable::Value(x) => Scalar::String(x),
                Nullable::Null => Scalar::Null,
            },
        }
    }

    /// The element at the given location, or a bounds failure.
    pub fn iloc(&self, location: &usize) -> (r: Result<Scalar, Error>)
        ensures
            *location < self.scalars().len() ==> (r matches Ok(s) && s.model()
                == self.scalars()[*location as int]),
            *location >= self.scalars().len() ==> (r matches Err(e) && e is BoundsError),
    {
        if *location < self.len() {
            Ok(self.iloc_unchecked(location))
        } else {
            Err(Error::BoundsError)
        }
    }
}

/// A boolean selection of a positionwise combination is the positionwise
/// combination of the boolean selections.
pub proof fn lemma_masked_select_pointwise<A, B, C>(
    a: Seq<A>,
    b: Seq<B>,
    fs: Seq<bool>,
    g: spec_fn(A, B) -> C,
)
    requires
        a.len() == fs.len(),
        b.len() == fs.len(),
    ensures
        masked_select(Seq::new(a.len(), |i: int| g(a[i], b[i])), fs) == Seq::new(
            masked_select(a, fs).len(),
            |i: int| g(masked_select(a, fs)[i], masked_select(b, fs)[i]),
        ),
    decreases a.len(),
{
    crate::algos::indexing::lemma_masked_select_len_eq(a, b, fs);
    let zipped = Seq::new(a.len(), |i: int| g(a[i], b[i]));
    if a.len() == 0 {
        assert(masked_select(zipped, fs) =~= Seq::new(
            masked_select(a, fs).len(),
            |i: int| g(masked_select(a, fs)[i], masked_select(b, fs)[i]),
        ));
    } else {
        let a1 = a.drop_last();
        let b1 = b.drop_last();
        let f1 = fs.drop_last();
        lemma_masked_select_pointwise(a1, b1, f1, g);
        crate::algos::indexing::lemma_masked_select_len_eq(a1, b1, f1);
        assert(zipped.drop_last() =~= Seq::new(a1.len(), |i: int| g(a1[i], b1[i])));
        assert(masked_select(a, fs) == if fs.last() {
            masked_select(a1, f1).push(a.last())
        } else {
            masked_select(a1, f1)
        });
        assert(masked_select(zipped, fs) =~= Seq::new(
            masked_select(a, fs).len(),
            |i: int| g(masked_select(a, fs)[i], masked_select(b, fs)[i]),
        ));
    }
}

/// Whether two arrays hold the same element kind.
pub open spec fn same_kind(a: Array, b: Array) -> bool {
    match (a, b) {
        (Array::Int64Array(_), Array::Int64Array(_)) => true,
        (Array::Int32Array(_), Array::Int32Array(_)) => true,
        (Array::Int16Array(_), Array::Int16Array(_)) => true,
        (Array::Int8Array(_), Array::Int8Array(_)) => true,
        (Array::IsizeArray(_), Array::IsizeArray(_)) => true,
        (Array::UInt64Array(_), Array::UInt64Array(_)) => true,
        (Array::UInt32Array(_), Array::UInt32Array(_)) => true,
        (Array::UInt16Array(_), Array::UInt16Array(_)) => true,
        (Array::UInt8Array(_), Array::UInt8Array(_)) => true,
        (Array::UsizeArray(_), Array::UsizeArray(_)) => true,
        (Array::Float64Array(_), Array::Float64Array(_)) => true,
        (Array::Float32Array(_), Array::Float32Array(_)) => true,
        (Array::BoolArray(_), Array::BoolArray(_)) => true,
        (Array::StringArray(_), Array::StringArray(_)) => true,
        _ => false,
    }
}

impl Array {
    /// The elements at the given locations, every location already known to
    /// be within bounds; values travel with their null states, under the same
    /// kind tag.
    pub fn ilocs_unchecked(&self, locations: &Vec<usize>) -> (r: Self)
        requires
            in_bounds(locations@, self.scalars().len() as nat),
        ensures
            r.dtype_model() == self.dtype_model(),
            r.scalars() == gather(self.scalars(), locations@),
    {
        match self {
            Array::Int64Array(nv) => {
                let w = nv.ilocs_unchecked(locations);
                let r = Array::Int64Array(w);
                proof {
                    assert(r.scalars() =~= gather(self.scalars(), locations@));
                }
                r
            },
            Array::Int32Array(nv) => {
                let w = nv.ilocs_unchecked(locations);
                let r = Array::Int32Array(w);
                proof {
                    assert(r.scalars() =~= gather(self.scalars(), locations@));
                }
                r
            },
            Array::Int16Array(nv) => {
                let w = nv.ilocs_unchecked(locations);
                let r = Array::Int16Array(w);
                proof {
                    assert(r.scalars() =~= gather(self.scalars(), locations@));
                }
                r
            },
            Array::Int8Array(nv) => {
                let w = nv.ilocs_unchecked(locations);
                let r = Array::Int8Array(w);
                proof {
                    assert(r.scalars() =~= gather(self.scalars(), locations@));
                }
                r
            },
            Array::IsizeArray(nv) => {
                let w = nv.ilocs_unchecked(locations);
                let r = Array::IsizeArray(w);
                proof {
                    assert(r.scalars() =~= gather(self.scalars(), locations@));
                }
                r
            },
            Array::UInt64Array(nv) => {
                let w = nv.ilocs_unchecked(locations);
                let r = Array::UInt64Array(w);
                proof {
                    assert(r.scalars() =~= gather(self.scalars(), locations@));
                }
                r
            },
            Array::UInt32Array(nv) => {
                let w = nv.ilocs_unchecked(locations);
                let r = Array::UInt32Array(w);
                proof {
                    assert(r.scalars() =~= gather(self.scalars(), locations@));
                }
                r
            },
            Array::UInt16Array(nv) => {
                let w = nv.ilocs_unchecked(locations);
                let r = Array::UInt16Array(w);
                proof {
                    assert(r.scalars() =~= gather(self.scalars(), locations@));
                }
                r
            },
            Array::UInt8Array(nv) => {
                let w = nv.ilocs_unchecked(locations);
                let r = Array::UInt8Array(w);
                proof {
                    assert(r.scalars() =~= gather(self.scalars(), locations@));
                }
                r
            },
            Array::UsizeArray(nv) => {
                let w = nv.ilocs_unchecked(locations);
                let r = Array::UsizeArray(w);
                proof {
                    assert(r.scalars() =~= gather(self.scalars(), locations@));
                }
                r
            },
            Array::Float64Array(nv) => {
                let w = nv.ilocs_unchecked(locations);
                let r = Array::Float64Array(w);
                proof {
                    assert(r.scalars() =~= gather(self.scalars(), locations@));
                }
                r
            },
            Array::Float32Array(nv) => {
                let w = nv.ilocs_unchecked(locations);
                let r = Array::Float32Array(w);
                proof {
                    assert(r.scalars() =~= gather(self.scalars(), locations@));
                }
                r
            },
            Array::BoolArray(nv) => {
                let w = nv.ilocs_unchecked(locations);
                let r = Array::BoolArray(w);
                proof {
                    assert(r.scalars() =~= gather(self.scalars(), locations@));
                }
                r
            },
            Array::StringArray(nv) => {
                let w = nv.ilocs_unchecked(locations);
                let r = Array::StringArray(w);
                proof {
                    assert(r.scalars() =~= gather(self.scalars(), locations@));
                }
                r
            },
        }
    }

    /// The elements at the given locations, or a bounds failure if any
    /// location is out of bounds.
    pub fn ilocs(&self, locations: &Vec<usize>) -> (r: Result<Self, Error>)
        ensures
            in_bounds(locations@, self.scalars().len() as nat) ==> (r matches Ok(a)
                && a.dtype_model() == self.dtype_model() && a.scalars() == gather(
                self.scalars(),
                locations@,
            )),
            !in_bounds(locations@, self.scalars().len() as nat) ==> (r matches Err(e)
                && e is BoundsError),
    {
        let n = self.len();
        let mut i: usize = 0;
        while i < locations.len()
            invariant
                i <= locations@.len(),
                n == self.scalars().len(),
                forall|j: int| 0 <= j < i ==> (#[trigger] locations@[j]) < n,
            decreases locations.len() - i,
        {
            if locations[i] >= n {
                return Err(Error::BoundsError);
            }
            i = i + 1;
        }
        Ok(self.ilocs_unchecked(locations))
    }

    /// A permissive gather: an in-bounds location copies the scalar there, an
    /// out-of-bounds one produces `Null`.
    pub fn ilocs_forced(&self, locations: &Vec<usize>) -> (r: Self)
        ensures
            r.dtype_model() == self.dtype_model(),
            r.scalars() == Seq::new(
                locations@.len(),
                |i: int|
                    if locations@[i] < self.scalars().len() {
                        self.scalars()[locations@[i] as int]
                    } else {
                        ScalarModel::Null
                    },
            ),
    {
        match self {
            Array::Int64Array(nv) => {
                let w = nv.ilocs_forced(locations);
                let r = Array::Int64Array(w);
                proof {
                    assert(r.scalars() =~= Seq::new(
                        locations@.len(),
                        |i: int|
                            if locations@[i] < self.scalars().len() {
                                self.scalars()[locations@[i] as int]
                            } else {
                                ScalarModel::Null
                            },
                    ));
                }
                r
            },
            Array::Int32Array(nv) => {
                let w = nv.ilocs_forced(locations);
                let r = Array::Int32Array(w);
                proof {
                    assert(r.scalars() =~= Seq::new(
                        locations@.len(),
                        |i: int|
                            if locations@[i] < self.scalars().len() {
                                self.scalars()[locations@[i] as int]
                            } else {
                                ScalarModel::Null
                            },
                    ));
                }
                r
            },
            Array::Int16Array(nv) => {
                let w = nv.ilocs_forced(locations);
                let r = Array::Int16Array(w);
                proof {
                    assert(r.scalars() =~= Seq::new(
                        locations@.len(),
                        |i: int|
                            if locations@[i] < self.scalars().len() {
                                self.scalars()[locations@[i] as int]
                            } else {
                                ScalarModel::Null
                            },
                    ));
                }
                r
            },
            Array::Int8Array(nv) => {
                let w = nv.ilocs_forced(locations);
                let r = Array::Int8Array(w);
                proof {
                    assert(r.scalars() =~= Seq::new(
                        locations@.len(),
                        |i: int|
                            if locations@[i] < self.scalars().len() {
                                self.scalars()[locations@[i] as int]
                            } else {
                                ScalarModel::Null
                            },
                    ));
                }
                r
            },
            Array::IsizeArray(nv) => {
                let w = nv.ilocs_forced(locations);
                let r = Array::IsizeArray(w);
                proof {
                    assert(r.scalars() =~= Seq::new(
                        locations@.len(),
                        |i: int|
                            if locations@[i] < self.scalars().len() {
                                self.scalars()[locations@[i] as int]
                            } else {
                                ScalarModel::Null
                            },
                    ));
                }
                r
            },
            Array::UInt64Array(nv) => {
                let w = nv.ilocs_forced(locations);
                let r = Array::UInt64Array(w);
                proof {
                    assert(r.scalars() =~= Seq::new(
                        locations@.len(),
                        |i: int|
                            if locations@[i] < self.scalars().len() {
                                self.scalars()[locations@[i] as int]
                            } else {
                                ScalarModel::Null
                            },
                    ));
                }
                r
            },
            Array::UInt32Array(nv) => {
                let w = nv.ilocs_forced(locations);
                let r = Array::UInt32Array(w);
                proof {
                    assert(r.scalars() =~= Seq::new(
                        locations@.len(),
                        |i: int|
                            if locations@[i] < self.scalars().len() {
                                self.scalars()[locations@[i] as int]
                            } else {
                                ScalarModel::Null
                            },
                    ));
                }
                r
            },
            Array::UInt16Array(nv) => {
                let w = nv.ilocs_forced(locations);
                let r = Array::UInt16Array(w);
                proof {
                    assert(r.scalars() =~= Seq::new(
                        locations@.len(),
                        |i: int|
                            if locations@[i] < self.scalars().len() {
                                self.scalars()[locations@[i] as int]
                            } else {
                                ScalarModel::Null
                            },
                    ));
                }
                r
            },
            Array::UInt8Array(nv) => {
                let w = nv.ilocs_forced(locations);
                let r = Array::UInt8Array(w);
                proof {
                    assert(r.scalars() =~= Seq::new(
                        locations@.len(),
                        |i: int|
                            if locations@[i] < self.scalars().len() {
                                self.scalars()[locations@[i] as int]
                            } else {
                                ScalarModel::Null
                            },
                    ));
                }
                r
            },
            Array::UsizeArray(nv) => {
                let w = nv.ilocs_forced(locations);
                let r = Array::UsizeArray(w);
                proof {
                    assert(r.scalars() =~= Seq::new(
                        locations@.len(),
                        |i: int|
                            if locations@[i] < self.scalars().len() {
                                self.scalars()[locations@[i] as int]
                            } else {
                                ScalarModel::Null
                            },
                    ));
                }
                r
            },
            Array::Float64Array(nv) => {
                let w = nv.ilocs_forced(locations);
                let r = Array::Float64Array(w);
                proof {
                    assert(r.scalars() =~= Seq::new(
                        locations@.len(),
                        |i: int|
                            if locations@[i] < self.scalars().len() {
                                self.scalars()[locations@[i] as int]
                            } else {
                                ScalarModel::Null
                            },
                    ));
                }
                r
            },
            Array::Float32Array(nv) => {
                let w = nv.ilocs_forced(locations);
                let r = Array::Float32Array(w);
                proof {
                    assert(r.scalars() =~= Seq::new(
                        locations@.len(),
                        |i: int|
                            if locations@[i] < self.scalars().len() {
                                self.scalars()[locations@[i] as int]
                            } else {
                                ScalarModel::Null
                            },
                    ));
                }
                r
            },
            Array::BoolArray(nv) => {
                let w = nv.ilocs_forced(locations);
                let r = Array::BoolArray(w);
                proof {
                    assert(r.scalars() =~= Seq::new(
                        locations@.len(),
                        |i: int|
                            if locations@[i] < self.scalars().len() {
                                self.scalars()[locations@[i] as int]
                            } else {
                                ScalarModel::Null
                            },
                    ));
                }
                r
            },
            Array::StringArray(nv) => {
                let w = nv.ilocs_forced(locations);
                let r = Array::StringArray(w);
                proof {
                    assert(r.scalars() =~= Seq::new(
                        locations@.len(),
                        |i: int|
                            if locations@[i] < self.scalars().len() {
                                self.scalars()[locations@[i] as int]
                            } else {
                                ScalarModel::Null
                            },
                    ));
                }
                r
            },
        }
    }

    /// Boolean compaction: keep the positions whose flag is set, preserving
    /// order and null states, under the same kind tag. Flags not exactly as
    /// long as the array are refused.
    pub fn blocs(&self, flags: &Vec<bool>) -> (r: Result<Self, Error>)
        ensures
            flags@.len() == self.scalars().len() ==> (r matches Ok(a) && a.dtype_model()
                == self.dtype_model() && a.scalars() == masked_select(self.scalars(), flags@)),
            flags@.len() != self.scalars().len() ==> (r matches Err(e)
                && e is LengthMismatchError),
    {
        if flags.len() != self.len() {
            return Err(Error::LengthMismatchError);
        }
        match self {
            Array::Int64Array(nv) => {
                let w = match nv.blocs(flags) {
                    Ok(w) => w,
                    Err(_) => NullVec::new(Vec::new()),  // cannot happen: the lengths were checked
                };
                let r = Array::Int64Array(w);
                proof {
                    use_type_invariant(nv);
                    let g = |a: <i64 as NullStorable>::Model, b: bool|
                        if b {
                            ScalarModel::Null
                        } else {
                            ScalarModel::i64(a)
                        };
                    let zipped = Seq::new(
                        nv.vals().len(),
                        |i: int| g(nv.vals()[i], nv.nulls()[i]),
                    );
                    lemma_masked_select_pointwise(nv.vals(), nv.nulls(), flags@, g);
                    assert(self.scalars() =~= zipped);
                    assert(r.scalars() =~= Seq::new(
                        masked_select(nv.vals(), flags@).len(),
                        |i: int|
                            g(
                                masked_select(nv.vals(), flags@)[i],
                                masked_select(nv.nulls(), flags@)[i],
                            ),
                    ));
                    assert(r.scalars() == masked_select(self.scalars(), flags@));
                }
                Ok(r)
            },
            Array::Int32Array(nv) => {
                let w = match nv.blocs(flags) {
                    Ok(w) => w,
                    Err(_) => NullVec::new(Vec::new()),  // cannot happen: the lengths were checked
                };
                let r = Array::Int32Array(w);
                proof {
                    use_type_invariant(nv);
                    let g = |a: <i32 as NullStorable>::Model, b: bool|
                        if b {
                            ScalarModel::Null
                        } else {
                            ScalarModel::i32(a)
                        };
                    let zipped = Seq::new(
                        nv.vals().len(),
                        |i: int| g(nv.vals()[i], nv.nulls()[i]),
                    );
                    lemma_masked_select_pointwise(nv.vals(), nv.nulls(), flags@, g);
                    assert(self.scalars() =~= zipped);
                    assert(r.scalars() =~= Seq::new(
                        masked_select(nv.vals(), flags@).len(),
                        |i: int|
                            g(
                                masked_select(nv.vals(), flags@)[i],
                                masked_select(nv.nulls(), flags@)[i],
                            ),
                    ));
                    assert(r.scalars() == masked_select(self.scalars(), flags@));
                }
                Ok(r)
            },
            Array::Int16Array(nv) => {
                let w = match nv.blocs(flags) {
                    Ok(w) => w,
                    Err(_) => NullVec::new(Vec::new()),  // cannot happen: the lengths were checked
                };
                let r = Array::Int16Array(w);
                proof {
                    use_type_invariant(nv);
                    let g = |a: <i16 as NullStorable>::Model, b: bool|
                        if b {
                            ScalarModel::Null
                        } else {
                            ScalarModel::i16(a)
                        };
                    let zipped = Seq::new(
                        nv.vals().len(),
                        |i: int| g(nv.vals()[i], nv.nulls()[i]),
                    );
                    lemma_masked_select_pointwise(nv.vals(), nv.nulls(), flags@, g);
                    assert(self.scalars() =~= zipped);
                    assert(r.scalars() =~= Seq::new(
                        masked_select(nv.vals(), flags@).len(),
                        |i: int|
                            g(
                                masked_select(nv.vals(), flags@)[i],
                                masked_select(nv.nulls(), flags@)[i],
                            ),
                    ));
                    assert(r.scalars() == masked_select(self.scalars(), flags@));
                }
                Ok(r)
            },
            Array::Int8Array(nv) => {
                let w = match nv.blocs(flags) {
                    Ok(w) => w,
                    Err(_) => NullVec::new(Vec::new()),  // cannot happen: the lengths were checked
                };
                let r = Array::Int8Array(w);
                proof {
                    use_type_invariant(nv);
                    let g = |a: <i8 as NullStorable>::Model, b: bool|
                        if b {
                            ScalarModel::Null
                        } else {
                            ScalarModel::i8(a)
                        };
                    let zipped = Seq::new(
                        nv.vals().len(),
                        |i: int| g(nv.vals()[i], nv.nulls()[i]),
                    );
                    lemma_masked_select_pointwise(nv.vals(), nv.nulls(), flags@, g);
                    assert(self.scalars() =~= zipped);
                    assert(r.scalars() =~= Seq::new(
                        masked_select(nv.vals(), flags@).len(),
                        |i: int|
                            g(
                                masked_select(nv.vals(), flags@)[i],
                                masked_select(nv.nulls(), flags@)[i],
                            ),
                    ));
                    assert(r.scalars() == masked_select(self.scalars(), flags@));
                }
                Ok(r)
            },
            Array::IsizeArray(nv) => {
                let w = match nv.blocs(flags) {
                    Ok(w) => w,
                    Err(_) => NullVec::new(Vec::new()),  // cannot happen: the lengths were checked
                };
                let r = Array::IsizeArray(w);
                proof {
                    use_type_invariant(nv);
                    let g = |a: <isize as NullStorable>::Model, b: bool|
                        if b {
                            ScalarModel::Null
                        } else {
                            ScalarModel::isize(a)
                        };
                    let zipped = Seq::new(
                        nv.vals().len(),
                        |i: int| g(nv.vals()[i], nv.nulls()[i]),
                    );
                    lemma_masked_select_pointwise(nv.vals(), nv.nulls(), flags@, g);
                    assert(self.scalars() =~= zipped);
                    assert(r.scalars() =~= Seq::new(
                        masked_select(nv.vals(), flags@).len(),
                        |i: int|
                            g(
                                masked_select(nv.vals(), flags@)[i],
                                masked_select(nv.nulls(), flags@)[i],
                            ),
                    ));
                    assert(r.scalars() == masked_select(self.scalars(), flags@));
                }
                Ok(r)
            },
            Array::UInt64Array(nv) => {
                let w = match nv.blocs(flags) {
                    Ok(w) => w,
                    Err(_) => NullVec::new(Vec::new()),  // cannot happen: the lengths were checked
                };
                let r = Array::UInt64Array(w);
                proof {
                    use_type_invariant(nv);
                    let g = |a: <u64 as NullStorable>::Model, b: bool|
                        if b {
                            ScalarModel::Null
                        } else {
                            ScalarModel::u64(a)
                        };
                    let zipped = Seq::new(
                        nv.vals().len(),
                        |i: int| g(nv.vals()[i], nv.nulls()[i]),
                    );
                    lemma_masked_select_pointwise(nv.vals(), nv.nulls(), flags@, g);
                    assert(self.scalars() =~= zipped);
                    assert(r.scalars() =~= Seq::new(
                        masked_select(nv.vals(), flags@).len(),
                        |i: int|
                            g(
                                masked_select(nv.vals(), flags@)[i],
                                masked_select(nv.nulls(), flags@)[i],
                            ),
                    ));
                    assert(r.scalars() == masked_select(self.scalars(), flags@));
                }
                Ok(r)
            },
            Array::UInt32Array(nv) => {
                let w = match nv.blocs(flags) {
                    Ok(w) => w,
                    Err(_) => NullVec::new(Vec::new()),  // cannot happen: the lengths were checked
                };
                let r = Array::UInt32Array(w);
                proof {
                    use_type_invariant(nv);
                    let g = |a: <u32 as NullStorable>::Model, b: bool|
                        if b {
                            ScalarModel::Null
                        } else {
                            ScalarModel::u32(a)
                        };
                    let zipped = Seq::new(
                        nv.vals().len(),
                        |i: int| g(nv.vals()[i], nv.nulls()[i]),
                    );
                    lemma_masked_select_pointwise(nv.vals(), nv.nulls(), flags@, g);
                    assert(self.scalars() =~= zipped);
                    assert(r.scalars() =~= Seq::new(
                        masked_select(nv.vals(), flags@).len(),
                        |i: int|
                            g(
                                masked_select(nv.vals(), flags@)[i],
                                masked_select(nv.nulls(), flags@)[i],
                            ),
                    ));
                    assert(r.scalars() == masked_select(self.scalars(), flags@));
                }
                Ok(r)
            },
            Array::UInt16Array(nv) => {
                let w = match nv.blocs(flags) {
                    Ok(w) => w,
                    Err(_) => NullVec::new(Vec::new()),  // cannot happen: the lengths were checked
                };
                let r = Array::UInt16Array(w);
                proof {
                    use_type_invariant(nv);
                    let g = |a: <u16 as NullStorable>::Model, b: bool|
                        if b {
                            ScalarModel::Null
                        } else {
                            ScalarModel::u16(a)
                        };
                    let zipped = Seq::new(
                        nv.vals().len(),
                        |i: int| g(nv.vals()[i], nv.nulls()[i]),
                    );
                    lemma_masked_select_pointwise(nv.vals(), nv.nulls(), flags@, g);
                    assert(self.scalars() =~= zipped);
                    assert(r.scalars() =~= Seq::new(
                        masked_select(nv.vals(), flags@).len(),
                        |i: int|
                            g(
                                masked_select(nv.vals(), flags@)[i],
                                masked_select(nv.nulls(), flags@)[i],
                            ),
                    ));
                    assert(r.scalars() == masked_select(self.scalars(), flags@));
                }
                Ok(r)
            },
            Array::UInt8Array(nv) => {
                let w = match nv.blocs(flags) {
                    Ok(w) => w,
                    Err(_) => NullVec::new(Vec::new()),  // cannot happen: the lengths were checked
                };
                let r = Array::UInt8Array(w);
                proof {
                    use_type_invariant(nv);
                    let g = |a: <u8 as NullStorable>::Model, b: bool|
                        if b {
                            ScalarModel::Null
                        } else {
                            ScalarModel::u8(a)
                        };
                    let zipped = Seq::new(
                        nv.vals().len(),
                        |i: int| g(nv.vals()[i], nv.nulls()[i]),
                    );
                    lemma_masked_select_pointwise(nv.vals(), nv.nulls(), flags@, g);
                    assert(self.scalars() =~= zipped);
                    assert(r.scalars() =~= Seq::new(
                        masked_select(nv.vals(), flags@).len(),
                        |i: int|
                            g(
                                masked_select(nv.vals(), flags@)[i],
                                masked_select(nv.nulls(), flags@)[i],
                            ),
                    ));
                    assert(r.scalars() == masked_select(self.scalars(), flags@));
                }
                Ok(r)
            },
            Array::UsizeArray(nv) => {
                let w = match nv.blocs(flags) {
                    Ok(w) => w,
                    Err(_) => NullVec::new(Vec::new()),  // cannot happen: the lengths were checked
                };
                let r = Array::UsizeArray(w);
                proof {
                    use_type_invariant(nv);
                    let g = |a: <usize as NullStorable>::Model, b: bool|
                        if b {
                            ScalarModel::Null
                        } else {
                            ScalarModel::usize(a)
                        };
                    let zipped = Seq::new(
                        nv.vals().len(),
                        |i: int| g(nv.vals()[i], nv.nulls()[i]),
                    );
                    lemma_masked_select_pointwise(nv.vals(), nv.nulls(), flags@, g);
                    assert(self.scalars() =~= zipped);
                    assert(r.scalars() =~= Seq::new(
                        masked_select(nv.vals(), flags@).len(),
                        |i: int|
                            g(
                                masked_select(nv.vals(), flags@)[i],
                                masked_select(nv.nulls(), flags@)[i],
                            ),
                    ));
                    assert(r.scalars() == masked_select(self.scalars(), flags@));
                }
                Ok(r)
            },
            Array::Float64Array(nv) => {
                let w = match nv.blocs(flags) {
                    Ok(w) => w,
                    Err(_) => NullVec::new(Vec::new()),  // cannot happen: the lengths were checked
                };
                let r = Array::Float64Array(w);
                proof {
                    use_type_invariant(nv);
                    let g = |a: <Float64 as NullStorable>::Model, b: bool|
                        if b {
                            ScalarModel::Null
                        } else {
                            ScalarModel::Float64(a)
                        };
                    let zipped = Seq::new(
                        nv.vals().len(),
                        |i: int| g(nv.vals()[i], nv.nulls()[i]),
                    );
                    lemma_masked_select_pointwise(nv.vals(), nv.nulls(), flags@, g);
                    assert(self.scalars() =~= zipped);
                    assert(r.scalars() =~= Seq::new(
                        masked_select(nv.vals(), flags@).len(),
                        |i: int|
                            g(
                                masked_select(nv.vals(), flags@)[i],
                                masked_select(nv.nulls(), flags@)[i],
                            ),
                    ));
                    assert(r.scalars() == masked_select(self.scalars(), flags@));
                }
                Ok(r)
            },
            Array::Float32Array(nv) => {
                let w = match nv.blocs(flags) {
                    Ok(w) => w,
                    Err(_) => NullVec::new(Vec::new()),  // cannot happen: the lengths were checked
                };
                let r = Array::Float32Array(w);
                proof {
                    use_type_invariant(nv);
                    let g = |a: <Float32 as NullStorable>::Model, b: bool|
                        if b {
                            ScalarModel::Null
                        } else {
                            ScalarModel::Float32(a)
                        };
                    let zipped = Seq::new(
                        nv.vals().len(),
                        |i: int| g(nv.vals()[i], nv.nulls()[i]),
                    );
                    lemma_masked_select_pointwise(nv.vals(), nv.nulls(), flags@, g);
                    assert(self.scalars() =~= zipped);
                    assert(r.scalars() =~= Seq::new(
                        masked_select(nv.vals(), flags@).len(),
                        |i: int|
                            g(
                                masked_select(nv.vals(), flags@)[i],
                                masked_select(nv.nulls(), flags@)[i],
                            ),
                    ));
                    assert(r.scalars() == masked_select(self.scalars(), flags@));
                }
                Ok(r)
            },
            Array::BoolArray(nv) => {
                let w = match nv.blocs(flags) {
                    Ok(w) => w,
                    Err(_) => NullVec::new(Vec::new()),  // cannot happen: the lengths were checked
                };
                let r = Array::BoolArray(w);
                proof {
                    use_type_invariant(nv);
                    let g = |a: <bool as NullStorable>::Model, b: bool|
                        if b {
                            ScalarModel::Null
                        } else {
                            ScalarModel::bool(a)
                        };
                    let zipped = Seq::new(
                        nv.vals().len(),
                        |i: int| g(nv.vals()[i], nv.nulls()[i]),
                    );
                    lemma_masked_select_pointwise(nv.vals(), nv.nulls(), flags@, g);
                    assert(self.scalars() =~= zipped);
                    assert(r.scalars() =~= Seq::new(
                        masked_select(nv.vals(), flags@).len(),
                        |i: int|
                            g(
                                masked_select(nv.vals(), flags@)[i],
                                masked_select(nv.nulls(), flags@)[i],
                            ),
                    ));
                    assert(r.scalars() == masked_select(self.scalars(), flags@));
                }
                Ok(r)
            },
            Array::StringArray(nv) => {
                let w = match nv.blocs(flags) {
                    Ok(w) => w,
                    Err(_) => NullVec::new(Vec::new()),  // cannot happen: the lengths were checked
                };
                let r = Array::StringArray(w);
                proof {
                    use_type_invariant(nv);
                    let g = |a: <String as NullStorable>::Model, b: bool|
                        if b {
                            ScalarModel::Null
                        } else {
                            ScalarModel::Str(a)
                        };
                    let zipped = Seq::new(
                        nv.vals().len(),
                        |i: int| g(nv.vals()[i], nv.nulls()[i]),
                    );
                    lemma_masked_select_pointwise(nv.vals(), nv.nulls(), flags@, g);
                    assert(self.scalars() =~= zipped);
                    assert(r.scalars() =~= Seq::new(
                        masked_select(nv.vals(), flags@).len(),
                        |i: int|
                            g(
                                masked_select(nv.vals(), flags@)[i],
                                masked_select(nv.nulls(), flags@)[i],
                            ),
                    ));
                    assert(r.scalars() == masked_select(self.scalars(), flags@));
                }
                Ok(r)
            },
        }
    }

    /// Concatenation of two arrays of the same kind: the other array's
    /// scalars follow this one's, each side's null states unaltered; arrays
    /// of differing kinds are refused.
    pub fn append(&self, other: &Self) -> (r: Result<Self, Error>)
        ensures
            same_kind(*self, *other) ==> (r matches Ok(a) && a.dtype_model()
                == self.dtype_model() && a.scalars() == self.scalars() + other.scalars()),
            !same_kind(*self, *other) ==> (r matches Err(e) && e is TypeMismatchError),
    {
        match (self, other) {
            (Array::Int64Array(l), Array::Int64Array(o)) => {
                proof {
                    use_type_invariant(l);
                    use_type_invariant(o);
                }
                let w = l.append(o);
                let r = Array::Int64Array(w);
                proof {
                    assert(r.scalars() =~= self.scalars() + other.scalars());
                }
                Ok(r)
            },
            (Array::Int32Array(l), Array::Int32Array(o)) => {
                proof {
                    use_type_invariant(l);
                    use_type_invariant(o);
                }
                let w = l.append(o);
                let r = Array::Int32Array(w);
                proof {
                    assert(r.scalars() =~= self.scalars() + other.scalars());
                }
                Ok(r)
            },
            (Array::Int16Array(l), Array::Int16Array(o)) => {
                proof {
                    use_type_invariant(l);
                    use_type_invariant(o);
                }
                let w = l.append(o);
                let r = Array::Int16Array(w);
                proof {
                    assert(r.scalars() =~= self.scalars() + other.scalars());
                }
                Ok(r)
            },
            (Array::Int8Array(l), Array::Int8Array(o)) => {
                proof {
                    use_type_invariant(l);
                    use_type_invariant(o);
                }
                let w = l.append(o);
                let r = Array::Int8Array(w);
                proof {
                    assert(r.scalars() =~= self.scalars() + other.scalars());
                }
                Ok(r)
            },
            (Array::IsizeArray(l), Array::IsizeArray(o)) => {
                proof {
                    use_type_invariant(l);
                    use_type_invariant(o);
                }
                let w = l.append(o);
                let r = Array::IsizeArray(w);
                proof {
                    assert(r.scalars() =~= self.scalars() + other.scalars());
                }
                Ok(r)
            },
            (Array::UInt64Array(l), Array::UInt64Array(o)) => {
                proof {
                    use_type_invariant(l);
                    use_type_invariant(o);
                }
                let w = l.append(o);
                let r = Array::UInt64Array(w);
                proof {
                    assert(r.scalars() =~= self.scalars() + other.scalars());
                }
                Ok(r)
            },
            (Array::UInt32Array(l), Array::UInt32Array(o)) => {
                proof {
                    use_type_invariant(l);
                    use_type_invariant(o);
                }
                let w = l.append(o);
                let r = Array::UInt32Array(w);
                proof {
                    assert(r.scalars() =~= self.scalars() + other.scalars());
                }
                Ok(r)
            },
            (Array::UInt16Array(l), Array::UInt16Array(o)) => {
                proof {
                    use_type_invariant(l);
                    use_type_invariant(o);
                }
                let w = l.append(o);
                let r = Array::UInt16Array(w);
                proof {
                    assert(r.scalars() =~= self.scalars() + other.scalars());
                }
                Ok(r)
            },
            (Array::UInt8Array(l), Array::UInt8Array(o)) => {
                proof {
                    use_type_invariant(l);
                    use_type_invariant(o);
                }
                let w = l.append(o);
                let r = Array::UInt8Array(w);
                proof {
                    assert(r.scalars() =~= self.scalars() + other.scalars());
                }
                Ok(r)
            },
            (Array::UsizeArray(l), Array::UsizeArray(o)) => {
                proof {
                    use_type_invariant(l);
                    use_type_invariant(o);
                }
                let w = l.append(o);
                let r = Array::UsizeArray(w);
                proof {
                    assert(r.scalars() =~= self.scalars() + other.scalars());
                }
                Ok(r)
            },
            (Array::Float64Array(l), Array::Float64Array(o)) => {
                proof {
                    use_type_invariant(l);
                    use_type_invariant(o);
                }
                let w = l.append(o);
                let r = Array::Float64Array(w);
                proof {
                    assert(r.scalars() =~= self.scalars() + other.scalars());
                }
                Ok(r)
            },
            (Array::Float32Array(l), Array::Float32Array(o)) => {
                proof {
                    use_type_invariant(l);
                    use_type_invariant(o);
                }
                let w = l.append(o);
                let r = Array::Float32Array(w);
                proof {
                    assert(r.scalars() =~= self.scalars() + other.scalars());
                }
                Ok(r)
            },
            (Array::BoolArray(l), Array::BoolArray(o)) => {
                proof {
                    use_type_invariant(l);
                    use_type_invariant(o);
                }
                let w = l.append(o);
                let r = Array::BoolArray(w);
                proof {
                    assert(r.scalars() =~= self.scalars() + other.scalars());
                }
                Ok(r)
            },
            (Array::StringArray(l), Array::StringArray(o)) => {
                proof {
                    use_type_invariant(l);
                    use_type_invariant(o);
                }
                let w = l.append(o);
                let r = Array::StringArray(w);
                proof {
                    assert(r.scalars() =~= self.scalars() + other.scalars());
                }
                Ok(r)
            },
            _ => Err(Error::TypeMismatchError),
        }
    }
}

impl Array {
    /// On which arrays the sum's fold stays representable at every step;
    /// boolean and text arrays fail before any arithmetic.
    pub open spec fn sum_req_spec(self) -> bool {
        match self {
            Array::Int64Array(nv) => sum_ok::<i64>(not_null_models(nv)),
            Array::Int32Array(nv) => sum_ok::<i32>(not_null_models(nv)),
            Array::Int16Array(nv) => sum_ok::<i16>(not_null_models(nv)),
            Array::Int8Array(nv) => sum_ok::<i8>(not_null_models(nv)),
            Array::IsizeArray(nv) => sum_ok::<isize>(not_null_models(nv)),
            Array::UInt64Array(nv) => sum_ok::<u64>(not_null_models(nv)),
            Array::UInt32Array(nv) => sum_ok::<u32>(not_null_models(nv)),
            Array::UInt16Array(nv) => sum_ok::<u16>(not_null_models(nv)),
            Array::UInt8Array(nv) => sum_ok::<u8>(not_null_models(nv)),
            Array::UsizeArray(nv) => sum_ok::<usize>(not_null_models(nv)),
            Array::Float64Array(nv) => sum_ok::<Float64>(not_null_models(nv)),
            Array::Float32Array(nv) => sum_ok::<Float32>(not_null_models(nv)),
            _ => true,
        }
    }

    /// The sum of the not-null elements, under the kind's own tag; an
    /// aggregation of a boolean or text array is refused.
    pub fn sum(&self) -> (r: Result<Scalar, Error>)
        requires
            self.sum_req_spec(),
        ensures
            (match *self {
                Array::Int64Array(nv) => r matches Ok(s) && s.model() == (if nv.vals().len() == 0 {
                    ScalarModel::i64(<i64 as NumElem>::zero_model())
                } else if not_null_models(nv).len() == 0 {
                    ScalarModel::Null
                } else {
                    ScalarModel::i64(sum_fold::<i64>(not_null_models(nv)))
                }),
                Array::Int32Array(nv) => r matches Ok(s) && s.model() == (if nv.vals().len() == 0 {
                    ScalarModel::i32(<i32 as NumElem>::zero_model())
                } else if not_null_models(nv).len() == 0 {
                    ScalarModel::Null
                } else {
                    ScalarModel::i32(sum_fold::<i32>(not_null_models(nv)))
                }),
                Array::Int16Array(nv) => r matches Ok(s) && s.model() == (if nv.vals().len() == 0 {
                    ScalarModel::i16(<i16 as NumElem>::zero_model())
                } else if not_null_models(nv).len() == 0 {
                    ScalarModel::Null
                } else {
                    ScalarModel::i16(sum_fold::<i16>(not_null_models(nv)))
                }),
                Array::Int8Array(nv) => r matches Ok(s) && s.model() == (if nv.vals().len() == 0 {
                    ScalarModel::i8(<i8 as NumElem>::zero_model())
                } else if not_null_models(nv).len() == 0 {
                    ScalarModel::Null
                } else {
                    ScalarModel::i8(sum_fold::<i8>(not_null_models(nv)))
                }),
                Array::IsizeArray(nv) => r matches Ok(s) && s.model() == (if nv.vals().len() == 0 {
                    ScalarModel::isize(<isize as NumElem>::zero_model())
                } else if not_null_models(nv).len() == 0 {
                    ScalarModel::Null
                } else {
                    ScalarModel::isize(sum_fold::<isize>(not_null_models(nv)))
                }),
                Array::UInt64Array(nv) => r matches Ok(s) && s.model() == (if nv.vals().len() == 0 {
                    ScalarModel::u64(<u64 as NumElem>::zero_model())
                } else if not_null_models(nv).len() == 0 {
                    ScalarModel::Null
                } else {
                    ScalarModel::u64(sum_fold::<u64>(not_null_models(nv)))
                }),
                Array::UInt32Array(nv) => r matches Ok(s) && s.model() == (if nv.vals().len() == 0 {
                    ScalarModel::u32(<u32 as NumElem>::zero_model())
                } else if not_null_models(nv).len() == 0 {
                    ScalarModel::Null
                } else {
                    ScalarModel::u32(sum_fold::<u32>(not_null_models(nv)))
                }),
                Array::UInt16Array(nv) => r matches Ok(s) && s.model() == (if nv.vals().len() == 0 {
                    ScalarModel::u16(<u16 as NumElem>::zero_model())
                } else if not_null_models(nv).len() == 0 {
                    ScalarModel::Null
                } else {
                    ScalarModel::u16(sum_fold::<u16>(not_null_models(nv)))
                }),
                Array::UInt8Array(nv) => r matches Ok(s) && s.model() == (if nv.vals().len() == 0 {
                    ScalarModel::u8(<u8 as NumElem>::zero_model())
                } else if not_null_models(nv).len() == 0 {
                    ScalarModel::Null
                } else {
                    ScalarModel::u8(sum_fold::<u8>(not_null_models(nv)))
                }),
                Array::UsizeArray(nv) => r matches Ok(s) && s.model() == (if nv.vals().len() == 0 {
                    ScalarModel::usize(<usize as NumElem>::zero_model())
                } else if not_null_models(nv).len() == 0 {
                    ScalarModel::Null
                } else {
                    ScalarModel::usize(sum_fold::<usize>(not_null_models(nv)))
                }),
                Array::Float64Array(nv) => r matches Ok(s) && s.model() == (if nv.vals().len() == 0 {
                    ScalarModel::Float64(<Float64 as NumElem>::zero_model())
                } else if not_null_models(nv).len() == 0 {
                    ScalarModel::Null
                } else {
                    ScalarModel::Float64(sum_fold::<Float64>(not_null_models(nv)))
                }),
                Array::Float32Array(nv) => r matches Ok(s) && s.model() == (if nv.vals().len() == 0 {
                    ScalarModel::Float32(<Float32 as NumElem>::zero_model())
                } else if not_null_models(nv).len() == 0 {
                    ScalarModel::Null
                } else {
                    ScalarModel::Float32(sum_fold::<Float32>(not_null_models(nv)))
                }),
                _ => r matches Err(e) && e is CoercionError,
            }),
    {
        match self {
            Array::Int64Array(nv) => match nv.sum() {
                Nullable::Value(x) => Ok(Scalar::i64(x)),
                Nullable::Null => Ok(Scalar::Null),
            },
            Array::Int32Array(nv) => match nv.sum() {
                Nullable::Value(x) => Ok(Scalar::i32(x)),
                Nullable::Null => Ok(Scalar::Null),
            },
            Array::Int16Array(nv) => match nv.sum() {
                Nullable::Value(x) => Ok(Scalar::i16(x)),
                Nullable::Null => Ok(Scalar::Null),
            },
            Array::Int8Array(nv) => match nv.sum() {
                Nullable::Value(x) => Ok(Scalar::i8(x)),
                Nullable::Null => Ok(Scalar::Null),
            },
            Array::IsizeArray(nv) => match nv.sum() {
                Nullable::Value(x) => Ok(Scalar::isize(x)),
                Nullable::Null => Ok(Scalar::Null),
            },
            Array::UInt64Array(nv) => match nv.sum() {
                Nullable::Value(x) => Ok(Scalar::u64(x)),
                Nullable::Null => Ok(Scalar::Null),
            },
            Array::UInt32Array(nv) => match nv.sum() {
                Nullable::Value(x) => Ok(Scalar::u32(x)),
                Nullable::Null => Ok(Scalar::Null),
            },
            Array::UInt16Array(nv) => match nv.sum() {
                Nullable::Value(x) => Ok(Scalar::u16(x)),
                Nullable::Null => Ok(Scalar::Null),
            },
            Array::UInt8Array(nv) => match nv.sum() {
                Nullable::Value(x) => Ok(Scalar::u8(x)),
                Nullable::Null => Ok(Scalar::Null),
            },
            Array::UsizeArray(nv) => match nv.sum() {
                Nullable::Value(x) => Ok(Scalar::usize(x)),
                Nullable::Null => Ok(Scalar::Null),
            },
            Array::Float64Array(nv) => match nv.sum() {
                Nullable::Value(x) => Ok(Scalar::Float64(x)),
                Nullable::Null => Ok(Scalar::Null),
            },
            Array::Float32Array(nv) => match nv.sum() {
                Nullable::Value(x) => Ok(Scalar::Float32(x)),
                Nullable::Null => Ok(Scalar::Null),
            },
            _ => Err(Error::CoercionError),
        }
    }

    /// The number of not-null elements; refused for boolean and text arrays.
    pub fn count(&self) -> (r: Result<usize, Error>)
        ensures
            (match *self {
                Array::Int64Array(nv) => r matches Ok(c) && c == not_null_models(nv).len(),
                Array::Int32Array(nv) => r matches Ok(c) && c == not_null_models(nv).len(),
                Array::Int16Array(nv) => r matches Ok(c) && c == not_null_models(nv).len(),
                Array::Int8Array(nv) => r matches Ok(c) && c == not_null_models(nv).len(),
                Array::IsizeArray(nv) => r matches Ok(c) && c == not_null_models(nv).len(),
                Array::UInt64Array(nv) => r matches Ok(c) && c == not_null_models(nv).len(),
                Array::UInt32Array(nv) => r matches Ok(c) && c == not_null_models(nv).len(),
                Array::UInt16Array(nv) => r matches Ok(c) && c == not_null_models(nv).len(),
                Array::UInt8Array(nv) => r matches Ok(c) && c == not_null_models(nv).len(),
                Array::UsizeArray(nv) => r matches Ok(c) && c == not_null_models(nv).len(),
                Array::Float64Array(nv) => r matches Ok(c) && c == not_null_models(nv).len(),
                Array::Float32Array(nv) => r matches Ok(c) && c == not_null_models(nv).len(),
                _ => r matches Err(e) && e is CoercionError,
            }),
    {
        match self {
            Array::Int64Array(nv) => Ok(nv.count()),
            Array::Int32Array(nv) => Ok(nv.count()),
            Array::Int16Array(nv) => Ok(nv.count()),
            Array::Int8Array(nv) => Ok(nv.count()),
            Array::IsizeArray(nv) => Ok(nv.count()),
            Array::UInt64Array(nv) => Ok(nv.count()),
            Array::UInt32Array(nv) => Ok(nv.count()),
            Array::UInt16Array(nv) => Ok(nv.count()),
            Array::UInt8Array(nv) => Ok(nv.count()),
            Array::UsizeArray(nv) => Ok(nv.count()),
            Array::Float64Array(nv) => Ok(nv.count()),
            Array::Float32Array(nv) => Ok(nv.count()),
            _ => Err(Error::CoercionError),
        }
    }

    /// The float mean of the not-null elements, coerced through 64-bit floats; refused for boolean and text
    /// arrays.
    pub fn mean(&self) -> (r: Result<Nullable<Float64>, Error>)
        requires
            self.sum_req_spec(),
        ensures
            (match *self {
                Array::Int64Array(nv) => r matches Ok(m) && m.model() == (
                if not_null_models(nv).len() == 0 {
                    None
                } else {
                    Some(Float64 { bits: mean_bits::<i64>(not_null_models(nv)) })
                }),
                Array::Int32Array(nv) => r matches Ok(m) && m.model() == (
                if not_null_models(nv).len() == 0 {
                    None
                } else {
                    Some(Float64 { bits: mean_bits::<i32>(not_null_models(nv)) })
                }),
                Array::Int16Array(nv) => r matches Ok(m) && m.model() == (
                if not_null_models(nv).len() == 0 {
                    None
                } else {
                    Some(Float64 { bits: mean_bits::<i16>(not_null_models(nv)) })
                }),
                Array::Int8Array(nv) => r matches Ok(m) && m.model() == (
                if not_null_models(nv).len() == 0 {
                    None
                } else {
                    Some(Float64 { bits: mean_bits::<i8>(not_null_models(nv)) })
                }),
                Array::IsizeArray(nv) => r matches Ok(m) && m.model() == (
                if not_null_models(nv).len() == 0 {
                    None
                } else {
                    Some(Float64 { bits: mean_bits::<isize>(not_null_models(nv)) })
                }),
                Array::UInt64Array(nv) => r matches Ok(m) && m.model() == (
                if not_null_models(nv).len() == 0 {
                    None
                } else {
                    Some(Float64 { bits: mean_bits::<u64>(not_null_models(nv)) })
                }),
                Array::UInt32Array(nv) => r matches Ok(m) && m.model() == (
                if not_null_models(nv).len() == 0 {
                    None
                } else {
                    Some(Float64 { bits: mean_bits::<u32>(not_null_models(nv)) })
                }),
                Array::UInt16Array(nv) => r matches Ok(m) && m.model() == (
                if not_null_models(nv).len() == 0 {
                    None
                } else {
                    Some(Float64 { bits: mean_bits::<u16>(not_null_models(nv)) })
                }),
                Array::UInt8Array(nv) => r matches Ok(m) && m.model() == (
                if not_null_models(nv).len() == 0 {
                    None
                } else {
                    Some(Float64 { bits: mean_bits::<u8>(not_null_models(nv)) })
                }),
                Array::UsizeArray(nv) => r matches Ok(m) && m.model() == (
                if not_null_models(nv).len() == 0 {
                    None
                } else {
                    Some(Float64 { bits: mean_bits::<usize>(not_null_models(nv)) })
                }),
                Array::Float64Array(nv) => r matches Ok(m) && m.model() == (
                if not_null_models(nv).len() == 0 {
                    None
                } else {
                    Some(Float64 { bits: mean_bits::<Float64>(not_null_models(nv)) })
                }),
                Array::Float32Array(nv) => r matches Ok(m) && m.model() == (
                if not_null_models(nv).len() == 0 {
                    None
                } else {
                    Some(Float64 { bits: mean_bits::<Float32>(not_null_models(nv)) })
                }),
                _ => r matches Err(e) && e is CoercionError,
            }),
    {
        match self {
            Array::Int64Array(nv) => Ok(nv.mean()),
            Array::Int32Array(nv) => Ok(nv.mean()),
            Array::Int16Array(nv) => Ok(nv.mean()),
            Array::Int8Array(nv) => Ok(nv.mean()),
            Array::IsizeArray(nv) => Ok(nv.mean()),
            Array::UInt64Array(nv) => Ok(nv.mean()),
            Array::UInt32Array(nv) => Ok(nv.mean()),
            Array::UInt16Array(nv) => Ok(nv.mean()),
            Array::UInt8Array(nv) => Ok(nv.mean()),
            Array::UsizeArray(nv) => Ok(nv.mean()),
            Array::Float64Array(nv) => Ok(nv.mean()),
            Array::Float32Array(nv) => Ok(nv.mean()),
            _ => Err(Error::CoercionError),
        }
    }

    /// The population variance of the not-null elements, coerced through 64-bit floats; refused for boolean and text
    /// arrays.
    pub fn var(&self) -> (r: Result<Nullable<Float64>, Error>)
        ensures
            (match *self {
                Array::Int64Array(nv) => r matches Ok(m) && m.model() == (
                if not_null_models(nv).len() == 0 {
                    None
                } else {
                    Some(Float64 { bits: div_bits64(mean_sq_bits(bits_of::<i64>(not_null_models(nv))), bits64_of_u64(not_null_models(nv).len() as u64)) })
                }),
                Array::Int32Array(nv) => r matches Ok(m) && m.model() == (
                if not_null_models(nv).len() == 0 {
                    None
                } else {
                    Some(Float64 { bits: div_bits64(mean_sq_bits(bits_of::<i32>(not_null_models(nv))), bits64_of_u64(not_null_models(nv).len() as u64)) })
                }),
                Array::Int16Array(nv) => r matches Ok(m) && m.model() == (
                if not_null_models(nv).len() == 0 {
                    None
                } else {
                    Some(Float64 { bits: div_bits64(mean_sq_bits(bits_of::<i16>(not_null_models(nv))), bits64_of_u64(not_null_models(nv).len() as u64)) })
                }),
                Array::Int8Array(nv) => r matches Ok(m) && m.model() == (
                if not_null_models(nv).len() == 0 {
                    None
                } else {
                    Some(Float64 { bits: div_bits64(mean_sq_bits(bits_of::<i8>(not_null_models(nv))), bits64_of_u64(not_null_models(nv).len() as u64)) })
                }),
                Array::IsizeArray(nv) => r matches Ok(m) && m.model() == (
                if not_null_models(nv).len() == 0 {
                    None
                } else {
                    Some(Float64 { bits: div_bits64(mean_sq_bits(bits_of::<isize>(not_null_models(nv))), bits64_of_u64(not_null_models(nv).len() as u64)) })
                }),
                Array::UInt64Array(nv) => r matches Ok(m) && m.model() == (
                if not_null_models(nv).len() == 0 {
                    None
                } else {
                    Some(Float64 { bits: div_bits64(mean_sq_bits(bits_of::<u64>(not_null_models(nv))), bits64_of_u64(not_null_models(nv).len() as u64)) })
                }),
                Array::UInt32Array(nv) => r matches Ok(m) && m.model() == (
                if not_null_models(nv).len() == 0 {
                    None
                } else {
                    Some(Float64 { bits: div_bits64(mean_sq_bits(bits_of::<u32>(not_null_models(nv))), bits64_of_u64(not_null_models(nv).len() as u64)) })
                }),
                Array::UInt16Array(nv) => r matches Ok(m) && m.model() == (
                if not_null_models(nv).len() == 0 {
                    None
                } else {
                    Some(Float64 { bits: div_bits64(mean_sq_bits(bits_of::<u16>(not_null_models(nv))), bits64_of_u64(not_null_models(nv).len() as u64)) })
                }),
                Array::UInt8Array(nv) => r matches Ok(m) && m.model() == (
                if not_null_models(nv).len() == 0 {
                    None
                } else {
                    Some(Float64 { bits: div_bits64(mean_sq_bits(bits_of::<u8>(not_null_models(nv))), bits64_of_u64(not_null_models(nv).len() as u64)) })
                }),
                Array::UsizeArray(nv) => r matches Ok(m) && m.model() == (
                if not_null_models(nv).len() == 0 {
                    None
                } else {
                    Some(Float64 { bits: div_bits64(mean_sq_bits(bits_of::<usize>(not_null_models(nv))), bits64_of_u64(not_null_models(nv).len() as u64)) })
                }),
                Array::Float64Array(nv) => r matches Ok(m) && m.model() == (
                if not_null_models(nv).len() == 0 {
                    None
                } else {
                    Some(Float64 { bits: div_bits64(mean_sq_bits(bits_of::<Float64>(not_null_models(nv))), bits64_of_u64(not_null_models(nv).len() as u64)) })
                }),
                Array::Float32Array(nv) => r matches Ok(m) && m.model() == (
                if not_null_models(nv).len() == 0 {
                    None
                } else {
                    Some(Float64 { bits: div_bits64(mean_sq_bits(bits_of::<Float32>(not_null_models(nv))), bits64_of_u64(not_null_models(nv).len() as u64)) })
                }),
                _ => r matches Err(e) && e is CoercionError,
            }),
    {
        match self {
            Array::Int64Array(nv) => Ok(nv.var()),
            Array::Int32Array(nv) => Ok(nv.var()),
            Array::Int16Array(nv) => Ok(nv.var()),
            Array::Int8Array(nv) => Ok(nv.var()),
            Array::IsizeArray(nv) => Ok(nv.var()),
            Array::UInt64Array(nv) => Ok(nv.var()),
            Array::UInt32Array(nv) => Ok(nv.var()),
            Array::UInt16Array(nv) => Ok(nv.var()),
            Array::UInt8Array(nv) => Ok(nv.var()),
            Array::UsizeArray(nv) => Ok(nv.var()),
            Array::Float64Array(nv) => Ok(nv.var()),
            Array::Float32Array(nv) => Ok(nv.var()),
            _ => Err(Error::CoercionError),
        }
    }

    /// The unbiased sample variance of the not-null elements, coerced through 64-bit floats; refused for boolean and text
    /// arrays.
    pub fn unbiased_var(&self) -> (r: Result<Nullable<Float64>, Error>)
        ensures
            (match *self {
                Array::Int64Array(nv) => r matches Ok(m) && m.model() == (
                if not_null_models(nv).len() == 0 {
                    None
                } else {
                    Some(Float64 { bits: div_bits64(mean_sq_bits(bits_of::<i64>(not_null_models(nv))), bits64_of_u64((not_null_models(nv).len() - 1) as u64)) })
                }),
                Array::Int32Array(nv) => r matches Ok(m) && m.model() == (
                if not_null_models(nv).len() == 0 {
                    None
                } else {
                    Some(Float64 { bits: div_bits64(mean_sq_bits(bits_of::<i32>(not_null_models(nv))), bits64_of_u64((not_null_models(nv).len() - 1) as u64)) })
                }),
                Array::Int16Array(nv) => r matches Ok(m) && m.model() == (
                if not_null_models(nv).len() == 0 {
                    None
                } else {
                    Some(Float64 { bits: div_bits64(mean_sq_bits(bits_of::<i16>(not_null_models(nv))), bits64_of_u64((not_null_models(nv).len() - 1) as u64)) })
                }),
                Array::Int8Array(nv) => r matches Ok(m) && m.model() == (
                if not_null_models(nv).len() == 0 {
                    None
                } else {
                    Some(Float64 { bits: div_bits64(mean_sq_bits(bits_of::<i8>(not_null_models(nv))), bits64_of_u64((not_null_models(nv).len() - 1) as u64)) })
                }),
                Array::IsizeArray(nv) => r matches Ok(m) && m.model() == (
                if not_null_models(nv).len() == 0 {
                    None
                } else {
                    Some(Float64 { bits: div_bits64(mean_sq_bits(bits_of::<isize>(not_null_models(nv))), bits64_of_u64((not_null_models(nv).len() - 1) as u64)) })
                }),
                Array::UInt64Array(nv) => r matches Ok(m) && m.model() == (
                if not_null_models(nv).len() == 0 {
                    None
                } else {
                    Some(Float64 { bits: div_bits64(mean_sq_bits(bits_of::<u64>(not_null_models(nv))), bits64_of_u64((not_null_models(nv).len() - 1) as u64)) })
                }),
                Array::UInt32Array(nv) => r matches Ok(m) && m.model() == (
                if not_null_models(nv).len() == 0 {
                    None
                } else {
                    Some(Float64 { bits: div_bits64(mean_sq_bits(bits_of::<u32>(not_null_models(nv))), bits64_of_u64((not_null_models(nv).len() - 1) as u64)) })
                }),
                Array::UInt16Array(nv) => r matches Ok(m) && m.model() == (
                if not_null_models(nv).len() == 0 {
                    None
                } else {
                    Some(Float64 { bits: div_bits64(mean_sq_bits(bits_of::<u16>(not_null_models(nv))), bits64_of_u64((not_null_models(nv).len() - 1) as u64)) })
                }),
                Array::UInt8Array(nv) => r matches Ok(m) && m.model() == (
                if not_null_models(nv).len() == 0 {
                    None
                } else {
                    Some(Float64 { bits: div_bits64(mean_sq_bits(bits_of::<u8>(not_null_models(nv))), bits64_of_u64((not_null_models(nv).len() - 1) as u64)) })
                }),
                Array::UsizeArray(nv) => r matches Ok(m) && m.model() == (
                if not_null_models(nv).len() == 0 {
                    None
                } else {
                    Some(Float64 { bits: div_bits64(mean_sq_bits(bits_of::<usize>(not_null_models(nv))), bits64_of_u64((not_null_models(nv).len() - 1) as u64)) })
                }),
                Array::Float64Array(nv) => r matches Ok(m) && m.model() == (
                if not_null_models(nv).len() == 0 {
                    None
                } else {
                    Some(Float64 { bits: div_bits64(mean_sq_bits(bits_of::<Float64>(not_null_models(nv))), bits64_of_u64((not_null_models(nv).len() - 1) as u64)) })
                }),
                Array::Float32Array(nv) => r matches Ok(m) && m.model() == (
                if not_null_models(nv).len() == 0 {
                    None
                } else {
                    Some(Float64 { bits: div_bits64(mean_sq_bits(bits_of::<Float32>(not_null_models(nv))), bits64_of_u64((not_null_models(nv).len() - 1) as u64)) })
                }),
                _ => r matches Err(e) && e is CoercionError,
            }),
    {
        match self {
            Array::Int64Array(nv) => Ok(nv.unbiased_var()),
            Array::Int32Array(nv) => Ok(nv.unbiased_var()),
            Array::Int16Array(nv) => Ok(nv.unbiased_var()),
            Array::Int8Array(nv) => Ok(nv.unbiased_var()),
            Array::IsizeArray(nv) => Ok(nv.unbiased_var()),
            Array::UInt64Array(nv) => Ok(nv.unbiased_var()),
            Array::UInt32Array(nv) => Ok(nv.unbiased_var()),
            Array::UInt16Array(nv) => Ok(nv.unbiased_var()),
            Array::UInt8Array(nv) => Ok(nv.unbiased_var()),
            Array::UsizeArray(nv) => Ok(nv.unbiased_var()),
            Array::Float64Array(nv) => Ok(nv.unbiased_var()),
            Array::Float32Array(nv) => Ok(nv.unbiased_var()),
            _ => Err(Error::CoercionError),
        }
    }

    /// The population standard deviation of the not-null elements, coerced through 64-bit floats; refused for boolean and text
    /// arrays.
    pub fn stdev(&self) -> (r: Result<Nullable<Float64>, Error>)
        ensures
            (match *self {
                Array::Int64Array(nv) => r matches Ok(m) && m.model() == (
                if not_null_models(nv).len() == 0 {
                    None
                } else {
                    Some(Float64 { bits: crate::floats::sqrt::sqrt_bits64(div_bits64(mean_sq_bits(bits_of::<i64>(not_null_models(nv))), bits64_of_u64(not_null_models(nv).len() as u64))) })
                }),
                Array::Int32Array(nv) => r matches Ok(m) && m.model() == (
                if not_null_models(nv).len() == 0 {
                    None
                } else {
                    Some(Float64 { bits: crate::floats::sqrt::sqrt_bits64(div_bits64(mean_sq_bits(bits_of::<i32>(not_null_models(nv))), bits64_of_u64(not_null_models(nv).len() as u64))) })
                }),
                Array::Int16Array(nv) => r matches Ok(m) && m.model() == (
                if not_null_models(nv).len() == 0 {
                    None
                } else {
                    Some(Float64 { bits: crate::floats::sqrt::sqrt_bits64(div_bits64(mean_sq_bits(bits_of::<i16>(not_null_models(nv))), bits64_of_u64(not_null_models(nv).len() as u64))) })
                }),
                Array::Int8Array(nv) => r matches Ok(m) && m.model() == (
                if not_null_models(nv).len() == 0 {
                    None
                } else {
                    Some(Float64 { bits: crate::floats::sqrt::sqrt_bits64(div_bits64(mean_sq_bits(bits_of::<i8>(not_null_models(nv))), bits64_of_u64(not_null_models(nv).len() as u64))) })
                }),
                Array::IsizeArray(nv) => r matches Ok(m) && m.model() == (
                if not_null_models(nv).len() == 0 {
                    None
                } else {
                    Some(Float64 { bits: crate::floats::sqrt::sqrt_bits64(div_bits64(mean_sq_bits(bits_of::<isize>(not_null_models(nv))), bits64_of_u64(not_null_models(nv).len() as u64))) })
                }),
                Array::UInt64Array(nv) => r matches Ok(m) && m.model() == (
                if not_null_models(nv).len() == 0 {
                    None
                } else {
                    Some(Float64 { bits: crate::floats::sqrt::sqrt_bits64(div_bits64(mean_sq_bits(bits_of::<u64>(not_null_models(nv))), bits64_of_u64(not_null_models(nv).len() as u64))) })
                }),
                Array::UInt32Array(nv) => r matches Ok(m) && m.model() == (
                if not_null_models(nv).len() == 0 {
                    None
                } else {
                    Some(Float64 { bits: crate::floats::sqrt::sqrt_bits64(div_bits64(mean_sq_bits(bits_of::<u32>(not_null_models(nv))), bits64_of_u64(not_null_models(nv).len() as u64))) })
                }),
                Array::UInt16Array(nv) => r matches Ok(m) && m.model() == (
                if not_null_models(nv).len() == 0 {
                    None
                } else {
                    Some(Float64 { bits: crate::floats::sqrt::sqrt_bits64(div_bits64(mean_sq_bits(bits_of::<u16>(not_null_models(nv))), bits64_of_u64(not_null_models(nv).len() as u64))) })
                }),
                Array::UInt8Array(nv) => r matches Ok(m) && m.model() == (
                if not_null_models(nv).len() == 0 {
                    None
                } else {
                    Some(Float64 { bits: crate::floats::sqrt::sqrt_bits64(div_bits64(mean_sq_bits(bits_of::<u8>(not_null_models(nv))), bits64_of_u64(not_null_models(nv).len() as u64))) })
                }),
                Array::UsizeArray(nv) => r matches Ok(m) && m.model() == (
                if not_null_models(nv).len() == 0 {
                    None
                } else {
                    Some(Float64 { bits: crate::floats::sqrt::sqrt_bits64(div_bits64(mean_sq_bits(bits_of::<usize>(not_null_models(nv))), bits64_of_u64(not_null_models(nv).len() as u64))) })
                }),
                Array::Float64Array(nv) => r matches Ok(m) && m.model() == (
                if not_null_models(nv).len() == 0 {
                    None
                } else {
                    Some(Float64 { bits: crate::floats::sqrt::sqrt_bits64(div_bits64(mean_sq_bits(bits_of::<Float64>(not_null_models(nv))), bits64_of_u64(not_null_models(nv).len() as u64))) })
                }),
                Array::Float32Array(nv) => r matches Ok(m) && m.model() == (
                if not_null_models(nv).len() == 0 {
                    None
                } else {
                    Some(Float64 { bits: crate::floats::sqrt::sqrt_bits64(div_bits64(mean_sq_bits(bits_of::<Float32>(not_null_models(nv))), bits64_of_u64(not_null_models(nv).len() as u64))) })
                }),
                _ => r matches Err(e) && e is CoercionError,
            }),
    {
        match self {
            Array::Int64Array(nv) => Ok(nv.stdev()),
            Array::Int32Array(nv) => Ok(nv.stdev()),
            Array::Int16Array(nv) => Ok(nv.stdev()),
            Array::Int8Array(nv) => Ok(nv.stdev()),
            Array::IsizeArray(nv) => Ok(nv.stdev()),
            Array::UInt64Array(nv) => Ok(nv.stdev()),
            Array::UInt32Array(nv) => Ok(nv.stdev()),
            Array::UInt16Array(nv) => Ok(nv.stdev()),
            Array::UInt8Array(nv) => Ok(nv.stdev()),
            Array::UsizeArray(nv) => Ok(nv.stdev()),
            Array::Float64Array(nv) => Ok(nv.stdev()),
            Array::Float32Array(nv) => Ok(nv.stdev()),
            _ => Err(Error::CoercionError),
        }
    }

    /// The unbiased sample standard deviation of the not-null elements, coerced through 64-bit floats; refused for boolean and text
    /// arrays.
    pub fn unbiased_stdev(&self) -> (r: Result<Nullable<Float64>, Error>)
        ensures
            (match *self {
                Array::Int64Array(nv) => r matches Ok(m) && m.model() == (
                if not_null_models(nv).len() == 0 {
                    None
                } else {
                    Some(Float64 { bits: crate::floats::sqrt::sqrt_bits64(div_bits64(mean_sq_bits(bits_of::<i64>(not_null_models(nv))), bits64_of_u64((not_null_models(nv).len() - 1) as u64))) })
                }),
                Array::Int32Array(nv) => r matches Ok(m) && m.model() == (
                if not_null_models(nv).len() == 0 {
                    None
                } else {
                    Some(Float64 { bits: crate::floats::sqrt::sqrt_bits64(div_bits64(mean_sq_bits(bits_of::<i32>(not_null_models(nv))), bits64_of_u64((not_null_models(nv).len() - 1) as u64))) })
                }),
                Array::Int16Array(nv) => r matches Ok(m) && m.model() == (
                if not_null_models(nv).len() == 0 {
                    None
                } else {
                    Some(Float64 { bits: crate::floats::sqrt::sqrt_bits64(div_bits64(mean_sq_bits(bits_of::<i16>(not_null_models(nv))), bits64_of_u64((not_null_models(nv).len() - 1) as u64))) })
                }),
                Array::Int8Array(nv) => r matches Ok(m) && m.model() == (
                if not_null_models(nv).len() == 0 {
                    None
                } else {
                    Some(Float64 { bits: crate::floats::sqrt::sqrt_bits64(div_bits64(mean_sq_bits(bits_of::<i8>(not_null_models(nv))), bits64_of_u64((not_null_models(nv).len() - 1) as u64))) })
                }),
                Array::IsizeArray(nv) => r matches Ok(m) && m.model() == (
                if not_null_models(nv).len() == 0 {
                    None
                } else {
                    Some(Float64 { bits: crate::floats::sqrt::sqrt_bits64(div_bits64(mean_sq_bits(bits_of::<isize>(not_null_models(nv))), bits64_of_u64((not_null_models(nv).len() - 1) as u64))) })
                }),
                Array::UInt64Array(nv) => r matches Ok(m) && m.model() == (
                if not_null_models(nv).len() == 0 {
                    None
                } else {
                    Some(Float64 { bits: crate::floats::sqrt::sqrt_bits64(div_bits64(mean_sq_bits(bits_of::<u64>(not_null_models(nv))), bits64_of_u64((not_null_models(nv).len() - 1) as u64))) })
                }),
                Array::UInt32Array(nv) => r matches Ok(m) && m.model() == (
                if not_null_models(nv).len() == 0 {
                    None
                } else {
                    Some(Float64 { bits: crate::floats::sqrt::sqrt_bits64(div_bits64(mean_sq_bits(bits_of::<u32>(not_null_models(nv))), bits64_of_u64((not_null_models(nv).len() - 1) as u64))) })
                }),
                Array::UInt16Array(nv) => r matches Ok(m) && m.model() == (
                if not_null_models(nv).len() == 0 {
                    None
                } else {
                    Some(Float64 { bits: crate::floats::sqrt::sqrt_bits64(div_bits64(mean_sq_bits(bits_of::<u16>(not_null_models(nv))), bits64_of_u64((not_null_models(nv).len() - 1) as u64))) })
                }),
                Array::UInt8Array(nv) => r matches Ok(m) && m.model() == (
                if not_null_models(nv).len() == 0 {
                    None
                } else {
                    Some(Float64 { bits: crate::floats::sqrt::sqrt_bits64(div_bits64(mean_sq_bits(bits_of::<u8>(not_null_models(nv))), bits64_of_u64((not_null_models(nv).len() - 1) as u64))) })
                }),
                Array::UsizeArray(nv) => r matches Ok(m) && m.model() == (
                if not_null_models(nv).len() == 0 {
                    None
                } else {
                    Some(Float64 { bits: crate::floats::sqrt::sqrt_bits64(div_bits64(mean_sq_bits(bits_of::<usize>(not_null_models(nv))), bits64_of_u64((not_null_models(nv).len() - 1) as u64))) })
                }),
                Array::Float64Array(nv) => r matches Ok(m) && m.model() == (
                if not_null_models(nv).len() == 0 {
                    None
                } else {
                    Some(Float64 { bits: crate::floats::sqrt::sqrt_bits64(div_bits64(mean_sq_bits(bits_of::<Float64>(not_null_models(nv))), bits64_of_u64((not_null_models(nv).len() - 1) as u64))) })
                }),
                Array::Float32Array(nv) => r matches Ok(m) && m.model() == (
                if not_null_models(nv).len() == 0 {
                    None
                } else {
                    Some(Float64 { bits: crate::floats::sqrt::sqrt_bits64(div_bits64(mean_sq_bits(bits_of::<Float32>(not_null_models(nv))), bits64_of_u64((not_null_models(nv).len() - 1) as u64))) })
                }),
                _ => r matches Err(e) && e is CoercionError,
            }),
    {
        match self {
            Array::Int64Array(nv) => Ok(nv.unbiased_stdev()),
            Array::Int32Array(nv) => Ok(nv.unbiased_stdev()),
            Array::Int16Array(nv) => Ok(nv.unbiased_stdev()),
            Array::Int8Array(nv) => Ok(nv.unbiased_stdev()),
            Array::IsizeArray(nv) => Ok(nv.unbiased_stdev()),
            Array::UInt64Array(nv) => Ok(nv.unbiased_stdev()),
            Array::UInt32Array(nv) => Ok(nv.unbiased_stdev()),
            Array::UInt16Array(nv) => Ok(nv.unbiased_stdev()),
            Array::UInt8Array(nv) => Ok(nv.unbiased_stdev()),
            Array::UsizeArray(nv) => Ok(nv.unbiased_stdev()),
            Array::Float64Array(nv) => Ok(nv.unbiased_stdev()),
            Array::Float32Array(nv) => Ok(nv.unbiased_stdev()),
            _ => Err(Error::CoercionError),
        }
    }

    /// The least not-null element by the kind's strict order, ties keeping
    /// the earliest; refused for boolean and text arrays.
    pub fn min(&self) -> (r: Result<Scalar, Error>)
        ensures
            (match *self {
                Array::Int64Array(nv) => r matches Ok(s) && s.model() == (
                if not_null_models(nv).len() == 0 {
                    ScalarModel::Null
                } else {
                    ScalarModel::i64(min_fold::<i64>(not_null_models(nv)))
                }),
                Array::Int32Array(nv) => r matches Ok(s) && s.model() == (
                if not_null_models(nv).len() == 0 {
                    ScalarModel::Null
                } else {
                    ScalarModel::i32(min_fold::<i32>(not_null_models(nv)))
                }),
                Array::Int16Array(nv) => r matches Ok(s) && s.model() == (
                if not_null_models(nv).len() == 0 {
                    ScalarModel::Null
                } else {
                    ScalarModel::i16(min_fold::<i16>(not_null_models(nv)))
                }),
                Array::Int8Array(nv) => r matches Ok(s) && s.model() == (
                if not_null_models(nv).len() == 0 {
                    ScalarModel::Null
                } else {
                    ScalarModel::i8(min_fold::<i8>(not_null_models(nv)))
                }),
                Array::IsizeArray(nv) => r matches Ok(s) && s.model() == (
                if not_null_models(nv).len() == 0 {
                    ScalarModel::Null
                } else {
                    ScalarModel::isize(min_fold::<isize>(not_null_models(nv)))
                }),
                Array::UInt64Array(nv) => r matches Ok(s) && s.model() == (
                if not_null_models(nv).len() == 0 {
                    ScalarModel::Null
                } else {
                    ScalarModel::u64(min_fold::<u64>(not_null_models(nv)))
                }),
                Array::UInt32Array(nv) => r matches Ok(s) && s.model() == (
                if not_null_models(nv).len() == 0 {
                    ScalarModel::Null
                } else {
                    ScalarModel::u32(min_fold::<u32>(not_null_models(nv)))
                }),
                Array::UInt16Array(nv) => r matches Ok(s) && s.model() == (
                if not_null_models(nv).len() == 0 {
                    ScalarModel::Null
                } else {
                    ScalarModel::u16(min_fold::<u16>(not_null_models(nv)))
                }),
                Array::UInt8Array(nv) => r matches Ok(s) && s.model() == (
                if not_null_models(nv).len() == 0 {
                    ScalarModel::Null
                } else {
                    ScalarModel::u8(min_fold::<u8>(not_null_models(nv)))
                }),
                Array::UsizeArray(nv) => r matches Ok(s) && s.model() == (
                if not_null_models(nv).len() == 0 {
                    ScalarModel::Null
                } else {
                    ScalarModel::usize(min_fold::<usize>(not_null_models(nv)))
                }),
                Array::Float64Array(nv) => r matches Ok(s) && s.model() == (
                if not_null_models(nv).len() == 0 {
                    ScalarModel::Null
                } else {
                    ScalarModel::Float64(min_fold::<Float64>(not_null_models(nv)))
                }),
                Array::Float32Array(nv) => r matches Ok(s) && s.model() == (
                if not_null_models(nv).len() == 0 {
                    ScalarModel::Null
                } else {
                    ScalarModel::Float32(min_fold::<Float32>(not_null_models(nv)))
                }),
                _ => r matches Err(e) && e is CoercionError,
            }),
    {
        match self {
            Array::Int64Array(nv) => match nv.min() {
                Nullable::Value(x) => Ok(Scalar::i64(x)),
                Nullable::Null => Ok(Scalar::Null),
            },
            Array::Int32Array(nv) => match nv.min() {
                Nullable::Value(x) => Ok(Scalar::i32(x)),
                Nullable::Null => Ok(Scalar::Null),
            },
            Array::Int16Array(nv) => match nv.min() {
                Nullable::Value(x) => Ok(Scalar::i16(x)),
                Nullable::Null => Ok(Scalar::Null),
            },
            Array::Int8Array(nv) => match nv.min() {
                Nullable::Value(x) => Ok(Scalar::i8(x)),
                Nullable::Null => Ok(Scalar::Null),
            },
            Array::IsizeArray(nv) => match nv.min() {
                Nullable::Value(x) => Ok(Scalar::isize(x)),
                Nullable::Null => Ok(Scalar::Null),
            },
            Array::UInt64Array(nv) => match nv.min() {
                Nullable::Value(x) => Ok(Scalar::u64(x)),
                Nullable::Null => Ok(Scalar::Null),
            },
            Array::UInt32Array(nv) => match nv.min() {
                Nullable::Value(x) => Ok(Scalar::u32(x)),
                Nullable::Null => Ok(Scalar::Null),
            },
            Array::UInt16Array(nv) => match nv.min() {
                Nullable::Value(x) => Ok(Scalar::u16(x)),
                Nullable::Null => Ok(Scalar::Null),
            },
            Array::UInt8Array(nv) => match nv.min() {
                Nullable::Value(x) => Ok(Scalar::u8(x)),
                Nullable::Null => Ok(Scalar::Null),
            },
            Array::UsizeArray(nv) => match nv.min() {
                Nullable::Value(x) => Ok(Scalar::usize(x)),
                Nullable::Null => Ok(Scalar::Null),
            },
            Array::Float64Array(nv) => match nv.min() {
                Nullable::Value(x) => Ok(Scalar::Float64(x)),
                Nullable::Null => Ok(Scalar::Null),
            },
            Array::Float32Array(nv) => match nv.min() {
                Nullable::Value(x) => Ok(Scalar::Float32(x)),
                Nullable::Null => Ok(Scalar::Null),
            },
            _ => Err(Error::CoercionError),
        }
    }

    /// The greatest not-null element by the kind's strict order, ties keeping
    /// the earliest; refused for boolean and text arrays.
    pub fn max(&self) -> (r: Result<Scalar, Error>)
        ensures
            (match *self {
                Array::Int64Array(nv) => r matches Ok(s) && s.model() == (
                if not_null_models(nv).len() == 0 {
                    ScalarModel::Null
                } else {
                    ScalarModel::i64(max_fold::<i64>(not_null_models(nv)))
                }),
                Array::Int32Array(nv) => r matches Ok(s) && s.model() == (
                if not_null_models(nv).len() == 0 {
                    ScalarModel::Null
                } else {
                    ScalarModel::i32(max_fold::<i32>(not_null_models(nv)))
                }),
                Array::Int16Array(nv) => r matches Ok(s) && s.model() == (
                if not_null_models(nv).len() == 0 {
                    ScalarModel::Null
                } else {
                    ScalarModel::i16(max_fold::<i16>(not_null_models(nv)))
                }),
                Array::Int8Array(nv) => r matches Ok(s) && s.model() == (
                if not_null_models(nv).len() == 0 {
                    ScalarModel::Null
                } else {
                    ScalarModel::i8(max_fold::<i8>(not_null_models(nv)))
                }),
                Array::IsizeArray(nv) => r matches Ok(s) && s.model() == (
                if not_null_models(nv).len() == 0 {
                    ScalarModel::Null
                } else {
                    ScalarModel::isize(max_fold::<isize>(not_null_models(nv)))
                }),
                Array::UInt64Array(nv) => r matches Ok(s) && s.model() == (
                if not_null_models(nv).len() == 0 {
                    ScalarModel::Null
                } else {
                    ScalarModel::u64(max_fold::<u64>(not_null_models(nv)))
                }),
                Array::UInt32Array(nv) => r matches Ok(s) && s.model() == (
                if not_null_models(nv).len() == 0 {
                    ScalarModel::Null
                } else {
                    ScalarModel::u32(max_fold::<u32>(not_null_models(nv)))
                }),
                Array::UInt16Array(nv) => r matches Ok(s) && s.model() == (
                if not_null_models(nv).len() == 0 {
                    ScalarModel::Null
                } else {
                    ScalarModel::u16(max_fold::<u16>(not_null_models(nv)))
                }),
                Array::UInt8Array(nv) => r matches Ok(s) && s.model() == (
                if not_null_models(nv).len() == 0 {
                    ScalarModel::Null
                } else {
                    ScalarModel::u8(max_fold::<u8>(not_null_models(nv)))
                }),
                Array::UsizeArray(nv) => r matches Ok(s) && s.model() == (
                if not_null_models(nv).len() == 0 {
                    ScalarModel::Null
                } else {
                    ScalarModel::usize(max_fold::<usize>(not_null_models(nv)))
                }),
                Array::Float64Array(nv) => r matches Ok(s) && s.model() == (
                if not_null_models(nv).len() == 0 {
                    ScalarModel::Null
                } else {
                    ScalarModel::Float64(max_fold::<Float64>(not_null_models(nv)))
                }),
                Array::Float32Array(nv) => r matches Ok(s) && s.model() == (
                if not_null_models(nv).len() == 0 {
                    ScalarModel::Null
                } else {
                    ScalarModel::Float32(max_fold::<Float32>(not_null_models(nv)))
                }),
                _ => r matches Err(e) && e is CoercionError,
            }),
    {
        match self {
            Array::Int64Array(nv) => match nv.max() {
                Nullable::Value(x) => Ok(Scalar::i64(x)),
                Nullable::Null => Ok(Scalar::Null),
            },
            Array::Int32Array(nv) => match nv.max() {
                Nullable::Value(x) => Ok(Scalar::i32(x)),
                Nullable::Null => Ok(Scalar::Null),
            },
            Array::Int16Array(nv) => match nv.max() {
                Nullable::Value(x) => Ok(Scalar::i16(x)),
                Nullable::Null => Ok(Scalar::Null),
            },
            Array::Int8Array(nv) => match nv.max() {
                Nullable::Value(x) => Ok(Scalar::i8(x)),
                Nullable::Null => Ok(Scalar::Null),
            },
            Array::IsizeArray(nv) => match nv.max() {
                Nullable::Value(x) => Ok(Scalar::isize(x)),
                Nullable::Null => Ok(Scalar::Null),
            },
            Array::UInt64Array(nv) => match nv.max() {
                Nullable::Value(x) => Ok(Scalar::u64(x)),
                Nullable::Null => Ok(Scalar::Null),
            },
            Array::UInt32Array(nv) => match nv.max() {
                Nullable::Value(x) => Ok(Scalar::u32(x)),
                Nullable::Null => Ok(Scalar::Null),
            },
            Array::UInt16Array(nv) => match nv.max() {
                Nullable::Value(x) => Ok(Scalar::u16(x)),
                Nullable::Null => Ok(Scalar::Null),
            },
            Array::UInt8Array(nv) => match nv.max() {
                Nullable::Value(x) => Ok(Scalar::u8(x)),
                Nullable::Null => Ok(Scalar::Null),
            },
            Array::UsizeArray(nv) => match nv.max() {
                Nullable::Value(x) => Ok(Scalar::usize(x)),
                Nullable::Null => Ok(Scalar::Null),
            },
            Array::Float64Array(nv) => match nv.max() {
                Nullable::Value(x) => Ok(Scalar::Float64(x)),
                Nullable::Null => Ok(Scalar::Null),
            },
            Array::Float32Array(nv) => match nv.max() {
                Nullable::Value(x) => Ok(Scalar::Float32(x)),
                Nullable::Null => Ok(Scalar::Null),
            },
            _ => Err(Error::CoercionError),
        }
    }
}

} // verus!
