use vstd::prelude::*;

use super::NullVec;
use crate::algos::indexing::{
    gather, in_bounds, lemma_gather_not_null, lemma_masked_select_all_kept,
    lemma_masked_select_len_eq, lemma_masked_select_not_null, masked_select, Indexing,
};
use crate::error::Error;
use crate::nullable::Nullable;
use std::string::ToString;
use crate::traits::{
    any_flag, any_null, dup_elems, dup_flags, models, neg_flags, negate_flags, NullStorable,
};

verus! {

impl<T: NullStorable> NullVec<T> {
    /// The number of elements, null or not.
    pub fn len(&self) -> (r: usize)
        ensures
            r == self.vals().len(),
    {
        proof {
            assert(models(self.data@).len() == self.data@.len());
        }
        self.data.len()
    }

    /// Whether any element is logically null; a mask is stored exactly then.
    pub fn has_null(&self) -> (r: bool)
        ensures
            r == self.masked(),
            r == any_flag(self.nulls()),
    {
        proof {
            use_type_invariant(self);
        }
        match &self.mask {
            Some(_) => true,
            None => false,
        }
    }

    /// For every position, whether the element there is `Null`.
    pub fn is_null(&self) -> (r: Vec<bool>)
        ensures
            r@ == self.nulls(),
    {
        proof {
            use_type_invariant(self);
        }
        match &self.mask {
            Some(mask) => dup_flags(mask),
            None => {
                let r = super::all_false_flags(self.data.len());
                proof {
                    assert(r@ =~= self.nulls());
                }
                r
            },
        }
    }

    /// For every position, whether the element there is not `Null`.
    pub fn not_null(&self) -> (r: Vec<bool>)
        ensures
            r@ == neg_flags(self.nulls()),
    {
        let flags = self.is_null();
        negate_flags(&flags)
    }

    /// The values at positions which are not `Null`, order preserved.
    pub fn not_null_values(&self) -> (r: Vec<T>)
        ensures
            models(r@) == masked_select(self.vals(), neg_flags(self.nulls())),
    {
        proof {
            use_type_invariant(self);
        }
        let keep = self.not_null();
        let r = Indexing::blocs(&self.data, &keep);
        match r {
            Ok(values) => values,
            Err(_) => Vec::new(),  // cannot happen: mask and buffer have equal lengths
        }
    }

    /// The same values with every position forced to `Null`; an empty vector
    /// has no position to mark and stays maskless.
    pub fn as_null(&self) -> (r: Self)
        ensures
            r.vals() == self.vals(),
            r.nulls() == Seq::new(self.vals().len(), |i: int| true),
            r.masked() == (self.vals().len() > 0),
    {
        proof {
            use_type_invariant(self);
        }
        let data = dup_elems(&self.data);
        let n = data.len();
        let mut flags: Vec<bool> = Vec::new();
        let mut i: usize = 0;
        while i < n
            invariant
                i <= n,
                flags@ == Seq::new(i as nat, |j: int| true),
            decreases n - i,
        {
            flags.push(true);
            proof {
                assert(flags@ =~= Seq::new((i + 1) as nat, |j: int| true));
            }
            i = i + 1;
        }
        let r = NullVec::assemble(data, flags);
        proof {
            if n > 0 {
                assert(flags@[0]);
            }
        }
        r
    }

    /// The not-`Null` entries alone, compacted; the result has no mask.
    pub fn drop_null(&self) -> (r: Self)
        ensures
            r.vals() == masked_select(self.vals(), neg_flags(self.nulls())),
            r.nulls() == Seq::new(r.vals().len(), |i: int| false),
            !r.masked(),
    {
        proof {
            use_type_invariant(self);
        }
        let new_values = self.not_null_values();
        proof {
            lemma_masked_select_not_null::<T>(self.vals(), neg_flags(self.nulls()));
        }
        let r = NullVec { data: new_values, mask: None::<Vec<bool>> };
        proof {
            assert(r.nulls() =~= Seq::new(r.vals().len(), |i: int| false));
        }
        r
    }

    /// Every `Null` slot replaced by the given not-null value; the result has
    /// no mask.
    pub fn fill_null(&self, value: T) -> (r: Self)
        requires
            !T::model_is_null(value.model()),
        ensures
            r.vals() == Seq::new(
                self.vals().len(),
                |i: int|
                    if self.nulls()[i] {
                        value.model()
                    } else {
                        self.vals()[i]
                    },
            ),
            r.nulls() == Seq::new(self.vals().len(), |i: int| false),
            !r.masked(),
    {
        proof {
            use_type_invariant(self);
        }
        match &self.mask {
            Some(mask) => {
                let n = self.data.len();
                let mut out: Vec<T> = Vec::new();
                let mut i: usize = 0;
                while i < n
                    invariant
                        i <= n,
                        n == self.data@.len(),
                        mask@ == self.nulls(),
                        self.inv(),
                        !T::model_is_null(value.model()),
                        out@.len() == i,
                        forall|j: int|
                            0 <= j < i ==> models(out@)[j] == (if self.nulls()[j] {
                                value.model()
                            } else {
                                self.vals()[j]
                            }),
                    decreases n - i,
                {
                    let ghost prev = out@;
                    if mask[i] {
                        out.push(value.dup());
                    } else {
                        out.push(self.data[i].dup());
                    }
                    proof {
                        crate::traits::lemma_models_push(prev, out@.last());
                    }
                    i = i + 1;
                }
                proof {
                    assert(!any_null::<T>(models(out@))) by {
                        if any_null::<T>(models(out@)) {
                            let w = choose|w: int|
                                0 <= w < models(out@).len() && T::model_is_null(
                                    #[trigger] models(out@)[w],
                                );
                        }
                    }
                }
                let r = NullVec { data: out, mask: None::<Vec<bool>> };
                proof {
                    assert(r.vals() =~= Seq::new(
                        self.vals().len(),
                        |i: int|
                            if self.nulls()[i] {
                                value.model()
                            } else {
                                self.vals()[i]
                            },
                    ));
                    assert(r.nulls() =~= Seq::new(self.vals().len(), |i: int| false));
                }
                r
            },
            None => {
                let r = self.clone();
                proof {
                    assert(r.vals() =~= Seq::new(
                        self.vals().len(),
                        |i: int|
                            if self.nulls()[i] {
                                value.model()
                            } else {
                                self.vals()[i]
                            },
                    ));
                    assert(r.nulls() =~= Seq::new(self.vals().len(), |i: int| false));
                }
                r
            },
        }
    }
}

impl<T: NullStorable> NullVec<T> {
    /// The element at a location already known to be within bounds.
    ///
    /// The caller guarantees the bound; out of it, there is no defined
    /// behaviour to appeal to.
    pub fn iloc_unchecked(&self, location: &usize) -> (r: Nullable<T>)
        requires
            *location < self.vals().len(),
        ensures
            r.model() == (if self.nulls()[*location as int] {
                None::<T::Model>
            } else {
                Some(self.vals()[*location as int])
            }),
    {
        proof {
            use_type_invariant(self);
            assert(models(self.data@)[*location as int] == self.data@[*location as int].model());
        }
        match &self.mask {
            Some(mask) => {
                if mask[*location] {
                    Nullable::Null
                } else {
                    Nullable::Value(self.data[*location].dup())
                }
            },
            None => Nullable::Value(self.data[*location].dup()),
        }
    }

    /// The element at the given location, or a bounds failure.
    pub fn iloc(&self, location: &usize) -> (r: Result<Nullable<T>, Error>)
        ensures
            *location < self.vals().len() ==> (r matches Ok(v) && v.model() == (if self.nulls()[*location as int] {
                None::<T::Model>
            } else {
                Some(self.vals()[*location as int])
            })),
            *location >= self.vals().len() ==> (r matches Err(e) && e is BoundsError),
    {
        if *location < self.len() {
            Ok(self.iloc_unchecked(location))
        } else {
            Err(Error::BoundsError)
        }
    }

    /// The elements at the given locations, in that order, every location
    /// already known to be within bounds.
    ///
    /// Values and null states travel together; the result stores a mask only
    /// if a selected position is null.
    pub fn ilocs_unchecked(&self, locations: &Vec<usize>) -> (r: Self)
        requires
            in_bounds(locations@, self.vals().len() as nat),
        ensures
            r.vals() == gather(self.vals(), locations@),
            r.nulls() == gather(self.nulls(), locations@),
            r.masked() == any_flag(gather(self.nulls(), locations@)),
    {
        proof {
            use_type_invariant(self);
        }
        let new_data = Indexing::reindex_unchecked(&self.data, locations);
        let new_flags: Vec<bool> = match &self.mask {
            Some(mask) => {
                let picked = Indexing::reindex_unchecked(mask, locations);
                proof {
                    lemma_bool_models(picked@);
                    lemma_bool_models(mask@);
                    assert(picked@ =~= gather(self.nulls(), locations@));
                }
                picked
            },
            None => {
                let r = super::all_false_flags(locations.len());
                proof {
                    assert(r@ =~= gather(self.nulls(), locations@));
                }
                r
            },
        };
        proof {
            lemma_gather_not_null::<T>(self.vals(), locations@);
            assert(models(new_data@).len() == new_data@.len());
        }
        NullVec::assemble(new_data, new_flags)
    }

    /// The elements at the given locations, or a bounds failure if any
    /// location is out of bounds.
    pub fn ilocs(&self, locations: &Vec<usize>) -> (r: Result<Self, Error>)
        ensures
            in_bounds(locations@, self.vals().len() as nat) ==> (r matches Ok(v) && {
                &&& v.vals() == gather(self.vals(), locations@)
                &&& v.nulls() == gather(self.nulls(), locations@)
                &&& v.masked() == any_flag(gather(self.nulls(), locations@))
            }),
            !in_bounds(locations@, self.vals().len() as nat) ==> (r matches Err(e)
                && e is BoundsError),
    {
        proof {
            use_type_invariant(self);
        }
        if Indexing::assert_index_boundary(&self.data, locations) {
            Ok(self.ilocs_unchecked(locations))
        } else {
            Err(Error::BoundsError)
        }
    }

    /// A permissive gather: an in-bounds location copies value and null state,
    /// an out-of-bounds one produces a `Null` slot holding the placeholder.
    pub fn ilocs_forced(&self, locations: &Vec<usize>) -> (r: Self)
        ensures
            r.vals() == Seq::new(
                locations@.len(),
                |i: int|
                    if locations@[i] < self.vals().len() {
                        self.vals()[locations@[i] as int]
                    } else {
                        T::placeholder_model()
                    },
            ),
            r.nulls() == Seq::new(
                locations@.len(),
                |i: int| locations@[i] >= self.vals().len() || self.nulls()[locations@[i] as int],
            ),
            r.masked() == any_flag(r.nulls()),
    {
        proof {
            use_type_invariant(self);
        }
        let ghost tvals = Seq::new(
            locations@.len(),
            |i: int|
                if locations@[i] < self.vals().len() {
                    self.vals()[locations@[i] as int]
                } else {
                    T::placeholder_model()
                },
        );
        let ghost tnulls = Seq::new(
            locations@.len(),
            |i: int| locations@[i] >= self.vals().len() || self.nulls()[locations@[i] as int],
        );
        let n = self.len();
        let mut new_data: Vec<T> = Vec::new();
        let mut new_flags: Vec<bool> = Vec::new();
        let mut i: usize = 0;
        while i < locations.len()
            invariant
                i <= locations@.len(),
                self.inv(),
                n == self.vals().len(),
                tvals == Seq::new(
                    locations@.len(),
                    |j: int|
                        if locations@[j] < self.vals().len() {
                            self.vals()[locations@[j] as int]
                        } else {
                            T::placeholder_model()
                        },
                ),
                tnulls == Seq::new(
                    locations@.len(),
                    |j: int| locations@[j] >= self.vals().len() || self.nulls()[locations@[j] as int],
                ),
                new_data@.len() == i,
                new_flags@.len() == i,
                models(new_data@) == tvals.take(i as int),
                new_flags@ == tnulls.take(i as int),
            decreases locations.len() - i,
        {
            let ghost prev = new_data@;
            let loc = locations[i];
            if loc >= n {
                new_data.push(T::default_value());
                new_flags.push(true);
            } else {
                new_data.push(self.data[loc].dup());
                new_flags.push(match &self.mask {
                    Some(mask) => mask[loc],
                    None => false,
                });
            }
            proof {
                crate::traits::lemma_models_push(prev, new_data@.last());
                assert(models(prev).push(new_data@.last().model()) =~= tvals.take(i + 1));
                assert(new_flags@ =~= tnulls.take(i + 1));
            }
            i = i + 1;
        }
        proof {
            assert(tvals.take(tvals.len() as int) =~= tvals);
            assert(tnulls.take(tnulls.len() as int) =~= tnulls);
            assert(!any_null::<T>(models(new_data@))) by {
                if any_null::<T>(models(new_data@)) {
                    let w = choose|w: int|
                        0 <= w < models(new_data@).len() && T::model_is_null(
                            #[trigger] models(new_data@)[w],
                        );
                    T::lemma_placeholder_not_null();
                }
            }
        }
        NullVec::assemble(new_data, new_flags)
    }

    /// Boolean compaction: keep the positions whose flag is set, preserving
    /// order and each kept position's null state. Flags not exactly as long
    /// as the vector are refused.
    pub fn blocs(&self, flags: &Vec<bool>) -> (r: Result<Self, Error>)
        ensures
            flags@.len() == self.vals().len() ==> (r matches Ok(v) && {
                &&& v.vals() == masked_select(self.vals(), flags@)
                &&& v.nulls() == masked_select(self.nulls(), flags@)
                &&& v.masked() == any_flag(masked_select(self.nulls(), flags@))
            }),
            flags@.len() != self.vals().len() ==> (r matches Err(e) && e is LengthMismatchError),
    {
        proof {
            use_type_invariant(self);
        }
        if flags.len() != self.len() {
            return Err(Error::LengthMismatchError);
        }
        let new_data = match Indexing::blocs(&self.data, flags) {
            Ok(values) => values,
            Err(_) => Vec::new(),  // cannot happen: the lengths were checked
        };
        let new_flags: Vec<bool> = match &self.mask {
            Some(mask) => {
                let picked = match Indexing::blocs(mask, flags) {
                    Ok(values) => values,
                    Err(_) => Vec::new(),  // cannot happen: the lengths were checked
                };
                proof {
                    lemma_bool_models(picked@);
                    lemma_bool_models(mask@);
                    assert(masked_select(models(mask@), flags@) =~= masked_select(
                        self.nulls(),
                        flags@,
                    ));
                    assert(picked@.len() == models(picked@).len());
                }
                picked
            },
            None => {
                proof {
                    lemma_masked_select_len_eq(self.vals(), self.nulls(), flags@);
                    lemma_all_false_masked_select(self.nulls(), flags@);
                }
                super::all_false_flags(new_data.len())
            },
        };
        proof {
            lemma_masked_select_len_eq(self.vals(), self.nulls(), flags@);
            lemma_masked_select_not_null::<T>(self.vals(), flags@);
            assert(models(new_data@).len() == new_data@.len());
        }
        Ok(NullVec::assemble(new_data, new_flags))
    }

    /// Concatenation: the other vector's elements follow this one's, each
    /// side's own per-position null state unaltered.
    pub fn append(&self, other: &Self) -> (r: Self)
        ensures
            r.vals() == self.vals() + other.vals(),
            r.nulls() == self.nulls() + other.nulls(),
            r.masked() == any_flag(self.nulls() + other.nulls()),
    {
        proof {
            use_type_invariant(self);
            use_type_invariant(other);
        }
        let new_data = crate::traits::append_elems(&self.data, &other.data);
        let left_flags = self.is_null();
        let right_flags = other.is_null();
        let new_flags = crate::traits::append_flags(&left_flags, &right_flags);
        proof {
            assert(!any_null::<T>(models(new_data@))) by {
                if any_null::<T>(models(new_data@)) {
                    let w = choose|w: int|
                        0 <= w < models(new_data@).len() && T::model_is_null(
                            #[trigger] models(new_data@)[w],
                        );
                    if w < self.vals().len() {
                        assert(self.vals()[w] == models(new_data@)[w]);
                    } else {
                        assert(other.vals()[w - self.vals().len()] == models(new_data@)[w]);
                    }
                }
            }
        }
        NullVec::assemble(new_data, new_flags)
    }
}

/// Boolean sequences are their own models.
pub(crate) proof fn lemma_bool_models(s: Seq<bool>)
    ensures
        models(s) == s,
{
    assert(models(s) =~= s);
}

/// Selecting from an all-clear flag sequence yields all-clear flags.
pub(crate) proof fn lemma_all_false_masked_select(nulls: Seq<bool>, fs: Seq<bool>)
    requires
        forall|i: int| 0 <= i < nulls.len() ==> !(#[trigger] nulls[i]),
    ensures
        forall|i: int|
            0 <= i < masked_select(nulls, fs).len() ==> !(#[trigger] masked_select(nulls, fs)[i]),
        masked_select(nulls, fs) == Seq::new(masked_select(nulls, fs).len(), |i: int| false),
    decreases nulls.len(),
{
    if nulls.len() == 0 || fs.len() == 0 {
        assert(masked_select(nulls, fs) =~= Seq::new(masked_select(nulls, fs).len(), |i: int| false));
    } else {
        assert forall|j: int| 0 <= j < nulls.drop_last().len() implies !(
        #[trigger] nulls.drop_last()[j]) by {
            assert(nulls.drop_last()[j] == nulls[j]);
        }
        lemma_all_false_masked_select(nulls.drop_last(), fs.drop_last());
        assert(masked_select(nulls, fs) =~= Seq::new(masked_select(nulls, fs).len(), |i: int| false));
    }
}

impl<T: NullStorable> crate::traits::Append for NullVec<T> {
    open spec fn append_req(&self, other: &Self) -> bool {
        true
    }

    fn append(&self, other: &Self) -> Self {
        NullVec::append(self, other)
    }
}

impl<T: NullStorable + core::fmt::Display> NullVec<T> {
    /// Render each position as text: a null position becomes the word
    /// `"Null"`, any other position the element's own rendering.
    pub fn into_string_vec(&self) -> (r: Vec<String>)
        ensures
            r@.len() == self.vals().len(),
            forall|i: int|
                0 <= i < r@.len() && self.nulls()[i] ==> (#[trigger] r@[i])@ == "Null"@,
    {
        proof {
            use_type_invariant(self);
        }
        let n = self.len();
        let mut out: Vec<String> = Vec::new();
        let mut i: usize = 0;
        while i < n
            invariant
                i <= n,
                self.inv(),
                n == self.vals().len(),
                out@.len() == i,
                forall|j: int|
                    0 <= j < i && self.nulls()[j] ==> (#[trigger] out@[j])@ == "Null"@,
            decreases n - i,
        {
            if self.flag_at(i) {
                let word = null_word();
                out.push(word);
            } else {
                out.push(self.ref_at(i).to_string());
            }
            i = i + 1;
        }
        out
    }
}

impl<T: NullStorable + core::fmt::Display> crate::traits::Stringify for NullVec<T> {
    fn into_string_vec(&self) -> Vec<String> {
        NullVec::into_string_vec(self)
    }
}

/// The word a null position renders as.
fn null_word() -> (r: String)
    ensures
        r@ == "Null"@,
{
    let s = "Null";
    s.to_owned()
}

/// For a kind that cannot fold null, dropping nulls right after construction
/// is the identity: `new` stores the values unchanged and builds no mask, so
/// the compaction keeps every position.
pub proof fn lemma_drop_null_after_new_identity<T: NullStorable>(
    built: NullVec<T>,
    dropped: NullVec<T>,
    ms: Seq<T::Model>,
)
    requires
        !T::can_fold_null(),
        built.vals() == crate::traits::fold_models::<T>(ms),
        built.nulls() == crate::traits::null_flags::<T>(ms),
        built.masked() == any_null::<T>(ms),
        dropped.vals() == masked_select(built.vals(), neg_flags(built.nulls())),
        !dropped.masked(),
    ensures
        dropped.vals() == ms,
        built.vals() == ms,
        !built.masked(),
{
    assert forall|j: int| 0 <= j < ms.len() implies !T::model_is_null(#[trigger] ms[j]) by {
        T::lemma_no_fold_no_null(ms[j]);
    }
    assert(built.vals() =~= ms);
    assert(neg_flags(built.nulls()) =~= Seq::new(ms.len(), |i: int| true));
    assert forall|j: int|
        0 <= j < neg_flags(built.nulls()).len() implies #[trigger] neg_flags(built.nulls())[j] by {
    }
    lemma_masked_select_all_kept(built.vals(), neg_flags(built.nulls()));
}

} // verus!
