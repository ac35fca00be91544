use vstd::prelude::*;

use crate::error::Error;
use crate::traits::{models, NullStorable};

verus! {

/// Positional selection on plain vectors: bounds checks, gathers and boolean
/// compaction, internally used by the nullable containers.
pub struct Indexing;

/// Whether every location lies below the given length.
pub open spec fn in_bounds(locs: Seq<usize>, n: nat) -> bool {
    forall|i: int| 0 <= i < locs.len() ==> (#[trigger] locs[i]) < n
}

/// The elements of `s` selected by position list `locs`, in `locs` order.
pub open spec fn gather<A>(s: Seq<A>, locs: Seq<usize>) -> Seq<A> {
    Seq::new(locs.len(), |i: int| s[locs[i] as int])
}

/// The elements of `s` at positions whose flag is set, in order.
pub open spec fn masked_select<A>(s: Seq<A>, fs: Seq<bool>) -> Seq<A>
    decreases s.len(),
{
    if s.len() == 0 || fs.len() == 0 {
        Seq::empty()
    } else {
        let rest = masked_select(s.drop_last(), fs.drop_last());
        if fs.last() {
            rest.push(s.last())
        } else {
            rest
        }
    }
}

/// How a boolean selection grows along equally long prefixes.
pub proof fn lemma_masked_select_take_step<A>(s: Seq<A>, fs: Seq<bool>, i: int)
    requires
        0 <= i < s.len(),
        s.len() == fs.len(),
    ensures
        masked_select(s.take(i + 1), fs.take(i + 1)) == (if fs[i] {
            masked_select(s.take(i), fs.take(i)).push(s[i])
        } else {
            masked_select(s.take(i), fs.take(i))
        }),
{
    assert(s.take(i + 1).drop_last() =~= s.take(i));
    assert(fs.take(i + 1).drop_last() =~= fs.take(i));
    assert(s.take(i + 1).last() == s[i]);
    assert(fs.take(i + 1).last() == fs[i]);
}

/// Equally long inputs selected by the same flags keep equal lengths.
pub proof fn lemma_masked_select_len_eq<A, B>(s: Seq<A>, t: Seq<B>, fs: Seq<bool>)
    requires
        s.len() == fs.len(),
        t.len() == fs.len(),
    ensures
        masked_select(s, fs).len() == masked_select(t, fs).len(),
    decreases s.len(),
{
    if s.len() != 0 {
        lemma_masked_select_len_eq(s.drop_last(), t.drop_last(), fs.drop_last());
    }
}

/// Selecting with all flags set keeps the whole sequence.
pub proof fn lemma_masked_select_all_kept<A>(s: Seq<A>, fs: Seq<bool>)
    requires
        s.len() == fs.len(),
        forall|i: int| 0 <= i < fs.len() ==> #[trigger] fs[i],
    ensures
        masked_select(s, fs) == s,
    decreases s.len(),
{
    if s.len() == 0 {
        assert(masked_select(s, fs) =~= s);
    } else {
        lemma_masked_select_all_kept(s.drop_last(), fs.drop_last());
        assert(masked_select(s, fs) =~= s);
    }
}

/// A boolean selection from models without nulls has no nulls either.
pub proof fn lemma_masked_select_not_null<T: NullStorable>(ms: Seq<T::Model>, fs: Seq<bool>)
    requires
        !crate::traits::any_null::<T>(ms),
    ensures
        !crate::traits::any_null::<T>(masked_select(ms, fs)),
    decreases ms.len(),
{
    if ms.len() == 0 || fs.len() == 0 {
    } else {
        assert forall|j: int| 0 <= j < ms.drop_last().len() implies !T::model_is_null(
            #[trigger] ms.drop_last()[j],
        ) by {
            assert(ms.drop_last()[j] == ms[j]);
        }
        lemma_masked_select_not_null::<T>(ms.drop_last(), fs.drop_last());
        if T::model_is_null(ms.last()) {
            assert(crate::traits::any_null::<T>(ms));
        }
    }
}

/// A gather from models without nulls has no nulls either.
pub proof fn lemma_gather_not_null<T: NullStorable>(ms: Seq<T::Model>, locs: Seq<usize>)
    requires
        !crate::traits::any_null::<T>(ms),
        in_bounds(locs, ms.len() as nat),
    ensures
        !crate::traits::any_null::<T>(gather(ms, locs)),
{
    let g = gather(ms, locs);
    if crate::traits::any_null::<T>(g) {
        let w = choose|w: int| 0 <= w < g.len() && T::model_is_null(#[trigger] g[w]);
        assert(T::model_is_null(ms[locs[w] as int]));
    }
}

impl Indexing {
    /// Whether every location is a valid index into `values`.
    pub fn assert_index_boundary<T>(values: &Vec<T>, locs: &Vec<usize>) -> (r: bool)
        ensures
            r == in_bounds(locs@, values@.len()),
    {
        let n = values.len();
        let mut i: usize = 0;
        while i < locs.len()
            invariant
                i <= locs.len(),
                n == values@.len(),
                forall|j: int| 0 <= j < i ==> (#[trigger] locs@[j]) < n,
            decreases locs.len() - i,
        {
            if locs[i] >= n {
                return false;
            }
            i = i + 1;
        }
        true
    }

    /// Reorder values based on the given locations, every location already
    /// known to be within bounds.
    pub fn reindex_unchecked<T: NullStorable>(values: &Vec<T>, locs: &Vec<usize>) -> (r: Vec<T>)
        requires
            in_bounds(locs@, values@.len()),
        ensures
            models(r@) == gather(models(values@), locs@),
    {
        let mut out: Vec<T> = Vec::new();
        let mut i: usize = 0;
        while i < locs.len()
            invariant
                i <= locs.len(),
                in_bounds(locs@, values@.len()),
                out@.len() == i,
                forall|j: int|
                    0 <= j < i ==> models(out@)[j] == models(values@)[locs@[j] as int],
            decreases locs.len() - i,
        {
            let ghost prev = out@;
            out.push(values[locs[i]].dup());
            proof {
                crate::traits::lemma_models_push(prev, out@.last());
            }
            i = i + 1;
        }
        proof {
            assert(models(out@) =~= gather(models(values@), locs@));
        }
        out
    }

    /// Reorder values based on the given locations, failing if any location
    /// is out of bounds.
    pub fn reindex<T: NullStorable>(values: &Vec<T>, locs: &Vec<usize>) -> (r: Result<
        Vec<T>,
        Error,
    >)
        ensures
            in_bounds(locs@, values@.len()) ==> (r matches Ok(out) && models(out@) == gather(
                models(values@),
                locs@,
            )),
            !in_bounds(locs@, values@.len()) ==> (r matches Err(e) && e is BoundsError),
    {
        if Self::assert_index_boundary(values, locs) {
            Ok(Self::reindex_unchecked(values, locs))
        } else {
            Err(Error::BoundsError)
        }
    }

    /// Keep the values whose flag is set, in order, failing if the flags are
    /// not exactly as long as the values.
    pub fn blocs<T: NullStorable>(values: &Vec<T>, flags: &Vec<bool>) -> (r: Result<Vec<T>, Error>)
        ensures
            values@.len() == flags@.len() ==> (r matches Ok(out) && models(out@) == masked_select(
                models(values@),
                flags@,
            )),
            values@.len() != flags@.len() ==> (r matches Err(e) && e is LengthMismatchError),
    {
        if values.len() != flags.len() {
            return Err(Error::LengthMismatchError);
        }
        let ghost ms = models(values@);
        let mut out: Vec<T> = Vec::new();
        let mut i: usize = 0;
        proof {
            assert(models(out@) =~= masked_select(ms.take(0), flags@.take(0)));
        }
        while i < values.len()
            invariant
                i <= values.len(),
                ms == models(values@),
                values@.len() == flags@.len(),
                models(out@) == masked_select(ms.take(i as int), flags@.take(i as int)),
            decreases values.len() - i,
        {
            let ghost prev = out@;
            if flags[i] {
                out.push(values[i].dup());
                proof {
                    crate::traits::lemma_models_push(prev, out@.last());
                }
            }
            proof {
                lemma_masked_select_take_step(ms, flags@, i as int);
            }
            i = i + 1;
        }
        proof {
            assert(ms.take(ms.len() as int) =~= ms);
            assert(flags@.take(flags@.len() as int) =~= flags@);
        }
        Ok(out)
    }
}

} // verus!
