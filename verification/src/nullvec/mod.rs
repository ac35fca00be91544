//! The nullable vector: a value buffer plus an optional validity mask.

pub mod nullvec_aggregation;
pub mod nullvec_convert;
pub mod nullvec_iter;
mod nullvec_impl;
mod nullvec_ops;

use vstd::prelude::*;

use crate::algos::vec_ops::Elemwise;
use crate::error::Error;
use crate::traits::{
    any_flag, any_null, dup_flags, fold_model, fold_models, models, null_flags, or_flags,
    NullStorable,
};

verus! {

/// A homogeneous nullable vector.
///
/// It stores a value buffer and an optional validity mask of the same length.
/// The mask is absent exactly when no element is logically null: an all-false
/// mask is never stored, absence *is* the all-not-null encoding. Where the
/// mask is present and true at a position, the element there is logically
/// null and the stored value carries no meaning of its own; the buffer never
/// stores a value that the kind itself regards as null (a float `NaN`), such
/// values are folded into the mask at construction.
#[derive(Debug, PartialEq)]
pub struct NullVec<T: NullStorable> {
    data: Vec<T>,
    mask: Option<Vec<bool>>,
}

impl<T: NullStorable> Clone for NullVec<T> {
    /// A copy with the same values, null positions and mask presence.
    fn clone(&self) -> (r: Self)
        ensures
            r.vals() == self.vals(),
            r.nulls() == self.nulls(),
            r.masked() == self.masked(),
    {
        proof {
            use_type_invariant(self);
        }
        let data = crate::traits::dup_elems(&self.data);
        let mask = match &self.mask {
            Some(m) => Some(crate::traits::dup_flags(m)),
            None => None,
        };
        let r = NullVec { data, mask };
        proof {
            assert(r.vals() == self.vals());
            assert(r.nulls() =~= self.nulls());
        }
        r
    }
}

impl<T: NullStorable> NullVec<T> {
    /// The models of the stored values, placeholder values included.
    pub closed spec fn vals(self) -> Seq<T::Model> {
        models(self.data@)
    }

    /// Which positions are logically null; all false when the mask is absent.
    pub closed spec fn nulls(self) -> Seq<bool> {
        match self.mask {
            Some(m) => m@,
            None => Seq::new(self.data@.len(), |i: int| false),
        }
    }

    /// Whether a validity mask is stored.
    pub closed spec fn masked(self) -> bool {
        self.mask is Some
    }

    /// The well-formedness invariant: mask and buffer have equal lengths, a
    /// stored mask marks at least one position (an all-false mask is never
    /// stored), and no stored value is one the kind itself regards as null.
    ///
    /// Every value of the type satisfies it; exec code recovers it with
    /// `use_type_invariant`.
    #[verifier::type_invariant]
    pub open spec fn inv(self) -> bool {
        &&& self.nulls().len() == self.vals().len()
        &&& (self.masked() ==> any_flag(self.nulls()))
        &&& !any_null::<T>(self.vals())
    }

    /// Build a vector from a buffer and a full-length flag vector, storing
    /// the mask only if some flag is set.
    pub(crate) fn assemble(data: Vec<T>, flags: Vec<bool>) -> (r: Self)
        requires
            flags@.len() == data@.len(),
            !any_null::<T>(models(data@)),
        ensures
            r.vals() == models(data@),
            r.nulls() == flags@,
            r.masked() == any_flag(flags@),
    {
        let mut has_null = false;
        let mut i: usize = 0;
        while i < flags.len()
            invariant
                i <= flags.len(),
                has_null == any_flag(flags@.take(i as int)),
            decreases flags.len() - i,
        {
            if flags[i] {
                has_null = true;
            }
            proof {
                crate::traits::lemma_any_flag_take_step(flags@, i as int);
            }
            i = i + 1;
        }
        proof {
            crate::traits::lemma_any_flag_take_all(flags@);
        }
        if has_null {
            NullVec { data, mask: Some(flags) }
        } else {
            NullVec { data, mask: None }
        }
    }
}

impl<T: NullStorable> NullVec<T> {
    /// The stored value buffer, placeholder values included.
    pub fn data_ref(&self) -> (r: &Vec<T>)
        ensures
            models(r@) == self.vals(),
            r@.len() == self.vals().len(),
    {
        proof {
            assert(models(self.data@).len() == self.data@.len());
        }
        &self.data
    }

    /// The stored mask, if one is stored at all.
    pub fn mask_ref(&self) -> (r: &Option<Vec<bool>>)
        ensures
            (r matches Some(m)) == self.masked(),
            (match r {
                Some(m) => m@ == self.nulls(),
                None => true,
            }),
    {
        &self.mask
    }

    /// The element value stored at a position, its model preserved.
    pub fn at_index(&self, i: usize) -> (r: T)
        requires
            i < self.vals().len(),
        ensures
            r.model() == self.vals()[i as int],
    {
        proof {
            assert(models(self.data@)[i as int] == self.data@[i as int].model());
        }
        self.data[i].dup()
    }

    /// A reference to the element value stored at a position.
    pub fn ref_at<'s>(&'s self, i: usize) -> (r: &'s T)
        requires
            i < self.vals().len(),
        ensures
            r.model() == self.vals()[i as int],
    {
        proof {
            assert(models(self.data@)[i as int] == self.data@[i as int].model());
        }
        &self.data[i]
    }

    /// Whether the position is logically null.
    pub fn flag_at(&self, i: usize) -> (r: bool)
        requires
            i < self.vals().len(),
        ensures
            r == self.nulls()[i as int],
    {
        proof {
            use_type_invariant(self);
        }
        match &self.mask {
            Some(m) => m[i],
            None => false,
        }
    }
}

/// Split a buffer into folded values and an optional mask.
///
/// For a kind that can fold null, every value the kind regards as null is
/// replaced by the placeholder and recorded in a built mask; if no such value
/// was found (or the kind cannot fold null at all), the mask is absent.
pub fn maybe_null<T: NullStorable>(values: Vec<T>) -> (r: (Vec<T>, Option<Vec<bool>>))
    ensures
        models(r.0@) == fold_models::<T>(models(values@)),
        r.1 is None ==> !any_null::<T>(models(values@)),
        r.1 matches Some(m) ==> m@ == null_flags::<T>(models(values@)) && any_null::<T>(
            models(values@),
        ),
{
    let ghost ms = models(values@);
    if T::has_primitive_null() {
        let mut not_null: Vec<T> = Vec::new();
        let mut mask: Vec<bool> = Vec::new();
        let mut has_null = false;
        let mut i: usize = 0;
        proof {
            assert(models(not_null@) =~= fold_models::<T>(ms.take(0)));
            assert(mask@ =~= null_flags::<T>(ms.take(0)));
        }
        while i < values.len()
            invariant
                i <= values.len(),
                ms == models(values@),
                models(not_null@) == fold_models::<T>(ms.take(i as int)),
                mask@ == null_flags::<T>(ms.take(i as int)),
                has_null == any_null::<T>(ms.take(i as int)),
            decreases values.len() - i,
        {
            let ghost prev = not_null@;
            let v = &values[i];
            proof {
                assert(v.model() == ms[i as int]);
            }
            if v.is_null() {
                not_null.push(T::default_value());
                mask.push(true);
                has_null = true;
            } else {
                not_null.push(v.dup());
                mask.push(false);
            }
            proof {
                let x = not_null@.last();
                assert(not_null@ == prev.push(x));
                assert(x.model() == fold_model::<T>(ms[i as int]));
                crate::traits::lemma_models_push(prev, x);
                crate::traits::lemma_fold_models_take_step::<T>(ms, i as int);
                crate::traits::lemma_null_flags_take_step::<T>(ms, i as int);
                crate::traits::lemma_any_null_take_step::<T>(ms, i as int);
            }
            i = i + 1;
        }
        proof {
            assert(ms.take(ms.len() as int) =~= ms);
        }
        if has_null {
            (not_null, Some(mask))
        } else {
            (not_null, None)
        }
    } else {
        proof {
            assert forall|j: int| 0 <= j < ms.len() implies !T::model_is_null(ms[j]) by {
                T::lemma_no_fold_no_null(ms[j]);
            }
            assert(models(values@) =~= fold_models::<T>(ms));
        }
        (values, None)
    }
}

impl<T: NullStorable> NullVec<T> {
    /// Create a new `NullVec<T>` from a plain buffer.
    ///
    /// A value the kind regards as null (a float `NaN`) is automatically
    /// replaced by the placeholder and recorded as `Null` in the mask; if no
    /// such value occurs, the result carries no mask at all.
    pub fn new(values: Vec<T>) -> (r: Self)
        ensures
            r.vals().len() == values@.len(),
            r.vals() == fold_models::<T>(models(values@)),
            r.nulls() == null_flags::<T>(models(values@)),
            r.masked() == any_null::<T>(models(values@)),
    {
        let ghost ms = models(values@);
        let (not_null, mask) = maybe_null(values);
        proof {
            lemma_folded_not_null::<T>(ms);
        }
        let flags = match mask {
            Some(m) => m,
            None => all_false_flags(not_null.len()),
        };
        proof {
            assert(null_flags::<T>(ms).len() == ms.len());
            assert(models(not_null@).len() == fold_models::<T>(ms).len());
            if !any_null::<T>(ms) {
                crate::traits::lemma_no_null_no_flags::<T>(ms);
            }
            crate::traits::lemma_any_null_flags::<T>(ms);
        }
        NullVec::assemble(not_null, flags)
    }
}

impl<T: NullStorable> NullVec<T> {
    /// Create a new `NullVec<T>` from a buffer and an explicit mask.
    ///
    /// The buffer runs through the same null folding as `new`; the folded
    /// mask and the caller's mask are then combined positionally with logical
    /// OR. The result stores a mask only if the combined mask marks some
    /// position. A caller mask whose length differs from the buffer's is
    /// refused.
    pub fn with_mask(values: Vec<T>, mask: Option<Vec<bool>>) -> (r: Result<Self, Error>)
        ensures
            (match mask {
                Some(m) => m@.len() != values@.len(),
                None => false,
            }) ==> (r matches Err(e) && e is LengthMismatchError),
            (match mask {
                Some(m) => m@.len() == values@.len(),
                None => true,
            }) ==> (r matches Ok(v) && {
                let ms = models(values@);
                let given = match mask {
                    Some(m) => m@,
                    None => Seq::new(values@.len(), |i: int| false),
                };
                &&& v.vals() == fold_models::<T>(ms)
                &&& v.nulls() == or_flags(null_flags::<T>(ms), given)
                &&& v.masked() == any_flag(or_flags(null_flags::<T>(ms), given))
            }),
    {
        let n = values.len();
        if let Some(m) = &mask {
            if m.len() != n {
                return Err(Error::LengthMismatchError);
            }
        }
        let ghost ms = models(values@);
        proof {
            assert(ms.len() == n as int);
        }
        let ghost given = match &mask {
            Some(m) => m@,
            None => Seq::new(values@.len(), |i: int| false),
        };
        let (not_null, null_mask) = maybe_null(values);
        proof {
            lemma_folded_not_null::<T>(ms);
        }
        let new_mask: Vec<bool> = match (null_mask, mask) {
            (Some(lmask), Some(rmask)) => Elemwise::elemwise_oo(lmask, rmask, bool_or),
            (Some(lmask), None) => lmask,
            (None, Some(rmask)) => rmask,
            (None, None) => all_false_flags(n),
        };
        proof {
            if !any_null::<T>(ms) {
                crate::traits::lemma_no_null_no_flags::<T>(ms);
            }
            assert(new_mask@ =~= or_flags(null_flags::<T>(ms), given));
            assert(models(not_null@).len() == not_null@.len());
            assert(fold_models::<T>(ms).len() == ms.len());
            assert(new_mask@.len() == not_null@.len());
        }
        Ok(NullVec::assemble(not_null, new_mask))
    }
}

/// The disjunction of two mask flags.
pub(crate) fn bool_or(x: bool, y: bool) -> (r: bool)
    ensures
        r == (x || y),
{
    x || y
}

/// Combine two optional masks of combinable values with positional OR.
///
/// Masks already known to belong to equally long vectors are merged: two
/// absent masks stay absent, a single mask is kept as it is, and two present
/// masks are OR-ed position by position.
pub fn get_new_mask(x: &Option<Vec<bool>>, y: &Option<Vec<bool>>) -> (r: Option<Vec<bool>>)
    requires
        (match (x, y) {
            (Some(a), Some(b)) => a@.len() == b@.len(),
            _ => true,
        }),
    ensures
        (match (x, y) {
            (Some(a), Some(b)) => r matches Some(m) && m@ == or_flags(a@, b@),
            (Some(a), None) => r matches Some(m) && m@ == a@,
            (None, Some(b)) => r matches Some(m) && m@ == b@,
            (None, None) => r is None,
        }),
    {
    match (x, y) {
        (Some(xmask), Some(ymask)) => {
            let merged = Elemwise::elemwise_rr(xmask, ymask, bool_or);
            proof {
                assert(merged@ =~= or_flags(xmask@, ymask@));
            }
            Some(merged)
        },
        (_, Some(ymask)) => Some(dup_flags(ymask)),
        (Some(xmask), _) => Some(dup_flags(xmask)),
        (None, None) => None,
    }
}

/// A flag vector of the given length with every flag clear.
pub(crate) fn all_false_flags(n: usize) -> (r: Vec<bool>)
    ensures
        r@ == Seq::new(n as nat, |i: int| false),
{
    let mut out: Vec<bool> = Vec::new();
    let mut i: usize = 0;
    while i < n
        invariant
            i <= n,
            out@ == Seq::new(i as nat, |j: int| false),
        decreases n - i,
    {
        out.push(false);
        i = i + 1;
        proof {
            assert(out@ =~= Seq::new(i as nat, |j: int| false));
        }
    }
    out
}

/// Folded models contain no null: every null was replaced by the placeholder.
pub proof fn lemma_folded_not_null<T: NullStorable>(ms: Seq<T::Model>)
    ensures
        !any_null::<T>(fold_models::<T>(ms)),
{
    assert forall|i: int| 0 <= i < fold_models::<T>(ms).len() implies !T::model_is_null(
        fold_models::<T>(ms)[i],
    ) by {
        T::lemma_placeholder_not_null();
    }
}

} // verus!
