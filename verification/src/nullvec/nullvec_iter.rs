use vstd::prelude::*;

use super::NullVec;
use crate::nullable::Nullable;
use crate::traits::{models, NullStorable};

verus! {

/// A consuming cursor over a nullable vector, yielding one nullable value per
/// position.
pub struct NullVecIntoIter<T: NullStorable> {
    data: NullVec<T>,
    current: usize,
}

/// A borrowing cursor yielding, per position, the null flag paired with a
/// reference to the stored raw value (meaningless where the flag is set).
pub struct NullVecRawIter<'a, T: NullStorable> {
    data: &'a NullVec<T>,
    current: usize,
}

/// A borrowing cursor yielding references to the not-null values in order.
pub struct NullVecNotNullIter<'a, T: NullStorable> {
    data: &'a NullVec<T>,
    current: usize,
}

impl<T: NullStorable> NullVecIntoIter<T> {
    /// The contents being walked.
    pub closed spec fn vals(self) -> Seq<T::Model> {
        self.data.vals()
    }

    /// The null positions being walked.
    pub closed spec fn nulls(self) -> Seq<bool> {
        self.data.nulls()
    }

    /// The cursor position.
    pub closed spec fn pos(self) -> int {
        self.current as int
    }

    /// The cursor never passes the end.
    #[verifier::type_invariant]
    pub closed spec fn cursor_inv(self) -> bool {
        self.current <= self.data.vals().len()
    }

    /// The next element: the nullable value at the cursor, or nothing once
    /// every position was yielded. The cursor does not move past the end.
    pub fn next(&mut self) -> (r: Option<Nullable<T>>)
        ensures
            old(self).pos() < old(self).vals().len() ==> {
                &&& r matches Some(n) && n.model() == (if old(self).nulls()[old(self).pos()] {
                    None
                } else {
                    Some(old(self).vals()[old(self).pos()])
                })
                &&& final (self).pos() == old(self).pos() + 1
            },
            old(self).pos() >= old(self).vals().len() ==> r is None && final (self).pos() == old(
                self,
            ).pos(),
            final (self).vals() == old(self).vals(),
            final (self).nulls() == old(self).nulls(),
    {
        proof {
            use_type_invariant(&*self);
        }
        if self.current < self.data.len() {
            let n = self.data.iloc_unchecked(&self.current);
            self.current = self.current + 1;
            Some(n)
        } else {
            None
        }
    }

    /// How many elements remain: the lower and upper bound agree.
    pub fn size_hint(&self) -> (r: (usize, Option<usize>))
        ensures
            r.0 == self.vals().len() - self.pos(),
            r.1 == Some(r.0),
    {
        proof {
            use_type_invariant(self);
        }
        let hint = self.data.len() - self.current;
        (hint, Some(hint))
    }
}

impl<T: NullStorable> NullVec<T> {
    /// A consuming cursor over the elements as nullable values.
    pub fn into_iter(self) -> (r: NullVecIntoIter<T>)
        ensures
            r.vals() == self.vals(),
            r.nulls() == self.nulls(),
            r.pos() == 0,
    {
        NullVecIntoIter { data: self, current: 0 }
    }

    /// A borrowing cursor over the raw values: a null flag paired with the
    /// stored value.
    pub fn iter_raw<'s>(&'s self) -> (r: NullVecRawIter<'s, T>)
        ensures
            r.vals() == self.vals(),
            r.nulls() == self.nulls(),
            r.pos() == 0,
    {
        NullVecRawIter { data: self, current: 0 }
    }

    /// A borrowing cursor over the raw values which are not null.
    pub fn iter_not_null<'s>(&'s self) -> (r: NullVecNotNullIter<'s, T>)
        ensures
            r.vals() == self.vals(),
            r.nulls() == self.nulls(),
            r.pos() == 0,
    {
        NullVecNotNullIter { data: self, current: 0 }
    }
}

impl<'a, T: NullStorable> NullVecRawIter<'a, T> {
    /// The contents being walked.
    pub closed spec fn vals(self) -> Seq<T::Model> {
        self.data.vals()
    }

    /// The null positions being walked.
    pub closed spec fn nulls(self) -> Seq<bool> {
        self.data.nulls()
    }

    /// The cursor position.
    pub closed spec fn pos(self) -> int {
        self.current as int
    }

    /// The cursor never passes the end.
    #[verifier::type_invariant]
    pub closed spec fn cursor_inv(self) -> bool {
        self.current <= self.data.vals().len()
    }

    /// The next raw entry: the null flag and a reference to the stored value
    /// at the cursor, or nothing once every position was yielded.
    pub fn next(&mut self) -> (r: Option<(bool, &'a T)>)
        ensures
            old(self).pos() < old(self).vals().len() ==> {
                &&& r matches Some(p) && p.0 == old(self).nulls()[old(self).pos()] && p.1.model()
                    == old(self).vals()[old(self).pos()]
                &&& final (self).pos() == old(self).pos() + 1
            },
            old(self).pos() >= old(self).vals().len() ==> r is None && final (self).pos() == old(
                self,
            ).pos(),
            final (self).vals() == old(self).vals(),
            final (self).nulls() == old(self).nulls(),
    {
        proof {
            use_type_invariant(&*self);
        }
        if self.current < self.data.len() {
            let flag = self.data.flag_at(self.current);
            let v = self.data.ref_at(self.current);
            self.current = self.current + 1;
            Some((flag, v))
        } else {
            None
        }
    }

    /// How many entries remain.
    pub fn size_hint(&self) -> (r: (usize, Option<usize>))
        ensures
            r.0 == self.vals().len() - self.pos(),
            r.1 == Some(r.0),
    {
        proof {
            use_type_invariant(self);
        }
        let hint = self.data.len() - self.current;
        (hint, Some(hint))
    }
}

impl<'a, T: NullStorable> NullVecNotNullIter<'a, T> {
    /// The contents being walked.
    pub closed spec fn vals(self) -> Seq<T::Model> {
        self.data.vals()
    }

    /// The null positions being walked.
    pub closed spec fn nulls(self) -> Seq<bool> {
        self.data.nulls()
    }

    /// The cursor position.
    pub closed spec fn pos(self) -> int {
        self.current as int
    }

    /// The cursor never passes the end.
    #[verifier::type_invariant]
    pub closed spec fn cursor_inv(self) -> bool {
        self.current <= self.data.vals().len()
    }

    /// The next not-null value: a reference to the first not-null value at or
    /// after the cursor, which moves past it; or nothing when only null
    /// positions remain, the cursor stopping at the end.
    pub fn next(&mut self) -> (r: Option<&'a T>)
        ensures
            (match r {
                Some(v) => exists|p: int|
                    {
                        &&& old(self).pos() <= p < old(self).vals().len()
                        &&& !old(self).nulls()[p]
                        &&& v.model() == old(self).vals()[p]
                        &&& final (self).pos() == p + 1
                        &&& forall|j: int| old(self).pos() <= j < p ==> old(self).nulls()[j]
                    },
                None => (forall|j: int|
                    old(self).pos() <= j < old(self).vals().len() ==> old(self).nulls()[j])
                    && final (self).pos() == old(self).vals().len(),
            }),
            final (self).vals() == old(self).vals(),
            final (self).nulls() == old(self).nulls(),
    {
        proof {
            use_type_invariant(&*self);
        }
        let n = self.data.len();
        while self.current < n
            invariant
                self.current <= n,
                n == self.data.vals().len(),
                self.data == old(self).data,
                old(self).pos() <= self.current as int,
                forall|j: int| old(self).pos() <= j < self.current as int ==> self.data.nulls()[j],
            decreases n - self.current,
        {
            if !self.data.flag_at(self.current) {
                let ghost p = self.current as int;
                let v = self.data.ref_at(self.current);
                self.current = self.current + 1;
                proof {
                    assert(old(self).pos() <= p < old(self).vals().len() && !old(self).nulls()[p]
                        && v.model() == old(self).vals()[p]);
                }
                return Some(v);
            }
            self.current = self.current + 1;
        }
        None
    }

    /// How many positions remain; an upper bound on the values still to come.
    pub fn size_hint(&self) -> (r: (usize, Option<usize>))
        ensures
            r.0 == self.vals().len() - self.pos(),
            r.1 == Some(r.0),
    {
        proof {
            use_type_invariant(self);
        }
        let hint = self.data.len() - self.current;
        (hint, Some(hint))
    }
}

} // verus!
