use vstd::prelude::*;

use crate::traits::NullStorable;

verus! {

/// A single nullable value: either a value of the element kind or `Null`.
///
/// This is the value-level view of one `NullVec` slot, independent of the
/// vector's storage representation.
#[derive(Clone, Debug, PartialEq)]
pub enum Nullable<T: NullStorable> {
    /// A value which is not `Null`.
    Value(T),
    /// `Null`.
    Null,
}

impl<T: NullStorable> Nullable<T> {
    /// The mathematical value: the element's model, or `None` for `Null`.
    pub open spec fn model(self) -> Option<T::Model> {
        match self {
            Nullable::Value(v) => Some(v.model()),
            Nullable::Null => None,
        }
    }

    /// Create a new `Nullable<T>` from `T`.
    ///
    /// A value that the kind regards as null (a float `NaN`) is replaced by
    /// `Null`.
    pub fn new(value: T) -> (r: Self)
        ensures
            r.model() == (if T::model_is_null(value.model()) {
                None::<T::Model>
            } else {
                Some(value.model())
            }),
    {
        if value.is_null() {
            Nullable::Null
        } else {
            Nullable::Value(value)
        }
    }

    /// Whether this is `Null`.
    pub fn is_null(&self) -> (r: bool)
        ensures
            r == (self.model() is None),
    {
        match self {
            Nullable::Null => true,
            Nullable::Value(_) => false,
        }
    }

    /// A copy of this value with the same model.
    pub fn dup(&self) -> (r: Self)
        ensures
            r.model() == self.model(),
    {
        match self {
            Nullable::Null => Nullable::Null,
            Nullable::Value(v) => Nullable::Value(v.dup()),
        }
    }
}

} // verus!
