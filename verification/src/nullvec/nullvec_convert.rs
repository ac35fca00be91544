use vstd::prelude::*;

use super::NullVec;
use crate::error::Error;
use crate::nullable::Nullable;
use crate::nullable_ops::folded_opt;
use crate::traits::{any_flag, any_null, models, NullStorable};

verus! {

/// The logical value of a nullable entry, a null-capable value folded in:
/// `Null` and a value the kind regards as null both come out as `None`.
pub open spec fn entry_model<T: NullStorable>(o: Option<T::Model>) -> Option<T::Model> {
    match o {
        Some(m) => folded_opt::<T>(m),
        None => None,
    }
}

impl<T: NullStorable> NullVec<T> {
    /// Build a vector from nullable entries: the mask is derived from which
    /// entries are `Null` (or hold a value the kind regards as null), and
    /// those slots store the placeholder.
    pub fn from_nullables(values: Vec<Nullable<T>>) -> (r: Self)
        ensures
            r.vals().len() == values@.len(),
            r.nulls().len() == values@.len(),
            forall|i: int|
                0 <= i < values@.len() ==> #[trigger] r.vals()[i] == (match entry_model::<T>(
                    values@[i].model(),
                ) {
                    Some(m) => m,
                    None => T::placeholder_model(),
                }),
            forall|i: int|
                0 <= i < values@.len() ==> #[trigger] r.nulls()[i] == (entry_model::<T>(
                    values@[i].model(),
                ) is None),
            r.masked() == any_flag(r.nulls()),
    {
        let ghost tvals = Seq::new(
            values@.len(),
            |i: int|
                match entry_model::<T>(values@[i].model()) {
                    Some(m) => m,
                    None => T::placeholder_model(),
                },
        );
        let ghost tnulls = Seq::new(
            values@.len(),
            |i: int| entry_model::<T>(values@[i].model()) is None,
        );
        let n = values.len();
        let mut data: Vec<T> = Vec::new();
        let mut flags: Vec<bool> = Vec::new();
        let mut i: usize = 0;
        while i < n
            invariant
                i <= n,
                n == values@.len(),
                tvals == Seq::new(
                    values@.len(),
                    |j: int|
                        match entry_model::<T>(values@[j].model()) {
                            Some(m) => m,
                            None => T::placeholder_model(),
                        },
                ),
                tnulls == Seq::new(
                    values@.len(),
                    |j: int| entry_model::<T>(values@[j].model()) is None,
                ),
                data@.len() == i,
                flags@.len() == i,
                models(data@) == tvals.take(i as int),
                flags@ == tnulls.take(i as int),
            decreases n - i,
        {
            let ghost prev = data@;
            match &values[i] {
                Nullable::Value(v) => {
                    if v.is_null() {
                        data.push(T::default_value());
                        flags.push(true);
                    } else {
                        data.push(v.dup());
                        flags.push(false);
                    }
                },
                Nullable::Null => {
                    data.push(T::default_value());
                    flags.push(true);
                },
            }
            proof {
                crate::traits::lemma_models_push(prev, data@.last());
                assert(models(data@) =~= tvals.take(i + 1));
                assert(flags@ =~= tnulls.take(i + 1));
            }
            i = i + 1;
        }
        proof {
            assert(tvals.take(tvals.len() as int) =~= tvals);
            assert(tnulls.take(tnulls.len() as int) =~= tnulls);
            assert(!any_null::<T>(models(data@))) by {
                if any_null::<T>(models(data@)) {
                    let w = choose|w: int|
                        0 <= w < models(data@).len() && T::model_is_null(
                            #[trigger] models(data@)[w],
                        );
                    T::lemma_placeholder_not_null();
                }
            }
        }
        NullVec::assemble(data, flags)
    }

    /// Extract the plain buffer; a vector that currently has a mask is
    /// refused, as a plain buffer cannot represent null.
    pub fn into_vec(self) -> (r: Result<Vec<T>, Error>)
        ensures
            !self.masked() ==> (r matches Ok(v) && models(v@) == self.vals()),
            self.masked() ==> (r matches Err(e) && e is CoercionError),
    {
        match self {
            NullVec { data, mask: Some(_) } => Err(Error::CoercionError),
            NullVec { data, mask: None } => Ok(data),
        }
    }

    /// Extract the contents as nullable entries; this is always possible.
    pub fn into_nullables(&self) -> (r: Vec<Nullable<T>>)
        ensures
            r@.len() == self.vals().len(),
            forall|i: int|
                0 <= i < r@.len() ==> (#[trigger] r@[i]).model() == (if self.nulls()[i] {
                    None
                } else {
                    Some(self.vals()[i])
                }),
    {
        proof {
            use_type_invariant(self);
        }
        let n = self.len();
        let mut out: Vec<Nullable<T>> = Vec::new();
        let mut i: usize = 0;
        while i < n
            invariant
                i <= n,
                self.inv(),
                n == self.vals().len(),
                out@.len() == i,
                forall|j: int|
                    0 <= j < i ==> (#[trigger] out@[j]).model() == (if self.nulls()[j] {
                        None
                    } else {
                        Some(self.vals()[j])
                    }),
            decreases n - i,
        {
            if self.flag_at(i) {
                out.push(Nullable::Null);
            } else {
                out.push(Nullable::Value(self.at_index(i)));
            }
            i = i + 1;
        }
        out
    }
}

} // verus!
