use vstd::prelude::*;

verus! {

/// The failure conditions of this library.
///
/// Every failure is detected synchronously at the offending call and surfaced
/// as a typed result; none is retried and none is transient.
#[derive(Clone, Copy, Debug, PartialEq, Eq, Structural)]
pub enum Error {
    /// A checked positional access or gather was given an index at or beyond
    /// the length.
    BoundsError,
    /// An elementwise combine, mask merge, or boolean compaction was given
    /// inputs of unequal lengths.
    LengthMismatchError,
    /// A binary operation at the dynamically typed level was given values of
    /// differing element kinds.
    TypeMismatchError,
    /// A scalar conversion was requested to an incompatible kind.
    CoercionError,
    /// An element kind was to be inferred from an empty scalar sequence.
    EmptyInputError,
}

impl Error {
    /// A short text describing the failure.
    pub fn as_text(&self) -> (r: &'static str)
        ensures
            self is BoundsError ==> r@ == "index out of bounds"@,
            self is LengthMismatchError ==> r@ == "inputs must be the same length"@,
            self is TypeMismatchError ==> r@ == "element kinds differ"@,
            self is CoercionError ==> r@ == "unable to coerce to requested kind"@,
            self is EmptyInputError ==> r@ == "unable to infer element kind from empty input"@,
    {
        match self {
            Error::BoundsError => "index out of bounds",
            Error::LengthMismatchError => "inputs must be the same length",
            Error::TypeMismatchError => "element kinds differ",
            Error::CoercionError => "unable to coerce to requested kind",
            Error::EmptyInputError => "unable to infer element kind from empty input",
        }
    }
}

} // verus!
