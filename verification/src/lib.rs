//! A homogeneous, nullable one-dimensional vector primitive.
//!
//! The central type is [`NullVec`], a value buffer paired with an optional
//! validity mask; [`Nullable`] is the single-value counterpart. `Array` and
//! `Scalar` are dynamically typed wrappers over them, erasing the element
//! kind behind a closed tag.

mod algos;
mod error;
mod floats;
mod generic;
mod nullable;
pub mod nullable_ops;
mod nullvec;
mod traits;

pub use crate::algos::indexing::Indexing;
pub use crate::algos::sort::Ordered;
pub use crate::algos::sort::Sorter;
pub use crate::algos::vec_ops::Elemwise;
pub use crate::error::Error;
pub use crate::floats::Float32;
pub use crate::floats::Float64;
pub use crate::generic::array_impl::Array;
pub use crate::generic::convert::IntoArray;
pub use crate::generic::scalar_impl::Scalar;
pub use crate::generic::scalar_impl::ScalarModel;
pub use crate::nullable::Nullable;
pub use crate::nullable::Nullable::Null;
pub use crate::nullvec::get_new_mask;
pub use crate::nullvec::maybe_null;
pub use crate::nullvec::nullvec_iter::NullVecIntoIter;
pub use crate::nullvec::nullvec_iter::NullVecNotNullIter;
pub use crate::nullvec::nullvec_iter::NullVecRawIter;
pub use crate::nullvec::NullVec;
pub use crate::traits::Append;
pub use crate::traits::BasicAggregation;
pub use crate::traits::BitElem;
pub use crate::traits::CmpElem;
pub use crate::traits::ComparisonAggregation;
pub use crate::traits::NullStorable;
pub use crate::traits::NumElem;
pub use crate::traits::NumericAggregation;
pub use crate::traits::Stringify;
