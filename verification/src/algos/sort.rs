use vstd::prelude::*;

use vstd::assert_multisets_equal;
use vstd::string::StrSliceExecFns;
use vstd::pervasive::VecAdditionalExecFns;

verus! {

/// An order on a plain element kind, total and transitive, as sorting needs
/// it; equal-ranking elements are tied apart by their original positions.
pub trait Ordered: Sized + Copy {
    /// The order itself.
    spec fn le_spec(a: Self, b: Self) -> bool;

    /// Any two elements compare one way or the other.
    proof fn lemma_total(a: Self, b: Self)
        ensures
            Self::le_spec(a, b) || Self::le_spec(b, a),
    ;

    /// The order carries over chains.
    proof fn lemma_transitive(a: Self, b: Self, c: Self)
        requires
            Self::le_spec(a, b),
            Self::le_spec(b, c),
        ensures
            Self::le_spec(a, c),
    ;

    /// Whether this element orders at or below the other.
    fn le_cmp(&self, other: &Self) -> (r: bool)
        ensures
            r == Self::le_spec(*self, *other),
    ;
}

impl Ordered for i64 {
    open spec fn le_spec(a: i64, b: i64) -> bool {
        a <= b
    }

    proof fn lemma_total(a: i64, b: i64) {
    }

    proof fn lemma_transitive(a: i64, b: i64, c: i64) {
    }

    fn le_cmp(&self, other: &i64) -> bool {
        *self <= *other
    }
}

impl Ordered for i32 {
    open spec fn le_spec(a: i32, b: i32) -> bool {
        a <= b
    }

    proof fn lemma_total(a: i32, b: i32) {
    }

    proof fn lemma_transitive(a: i32, b: i32, c: i32) {
    }

    fn le_cmp(&self, other: &i32) -> bool {
        *self <= *other
    }
}

impl Ordered for i16 {
    open spec fn le_spec(a: i16, b: i16) -> bool {
        a <= b
    }

    proof fn lemma_total(a: i16, b: i16) {
    }

    proof fn lemma_transitive(a: i16, b: i16, c: i16) {
    }

    fn le_cmp(&self, other: &i16) -> bool {
        *self <= *other
    }
}

impl Ordered for i8 {
    open spec fn le_spec(a: i8, b: i8) -> bool {
        a <= b
    }

    proof fn lemma_total(a: i8, b: i8) {
    }

    proof fn lemma_transitive(a: i8, b: i8, c: i8) {
    }

    fn le_cmp(&self, other: &i8) -> bool {
        *self <= *other
    }
}

impl Ordered for isize {
    open spec fn le_spec(a: isize, b: isize) -> bool {
        a <= b
    }

    proof fn lemma_total(a: isize, b: isize) {
    }

    proof fn lemma_transitive(a: isize, b: isize, c: isize) {
    }

    fn le_cmp(&self, other: &isize) -> bool {
        *self <= *other
    }
}

impl Ordered for u64 {
    open spec fn le_spec(a: u64, b: u64) -> bool {
        a <= b
    }

    proof fn lemma_total(a: u64, b: u64) {
    }

    proof fn lemma_transitive(a: u64, b: u64, c: u64) {
    }

    fn le_cmp(&self, other: &u64) -> bool {
        *self <= *other
    }
}

impl Ordered for u32 {
    open spec fn le_spec(a: u32, b: u32) -> bool {
        a <= b
    }

    proof fn lemma_total(a: u32, b: u32) {
    }

    proof fn lemma_transitive(a: u32, b: u32, c: u32) {
    }

    fn le_cmp(&self, other: &u32) -> bool {
        *self <= *other
    }
}

impl Ordered for u16 {
    open spec fn le_spec(a: u16, b: u16) -> bool {
        a <= b
    }

    proof fn lemma_total(a: u16, b: u16) {
    }

    proof fn lemma_transitive(a: u16, b: u16, c: u16) {
    }

    fn le_cmp(&self, other: &u16) -> bool {
        *self <= *other
    }
}

impl Ordered for u8 {
    open spec fn le_spec(a: u8, b: u8) -> bool {
        a <= b
    }

    proof fn lemma_total(a: u8, b: u8) {
    }

    proof fn lemma_transitive(a: u8, b: u8, c: u8) {
    }

    fn le_cmp(&self, other: &u8) -> bool {
        *self <= *other
    }
}

impl Ordered for usize {
    open spec fn le_spec(a: usize, b: usize) -> bool {
        a <= b
    }

    proof fn lemma_total(a: usize, b: usize) {
    }

    proof fn lemma_transitive(a: usize, b: usize, c: usize) {
    }

    fn le_cmp(&self, other: &usize) -> bool {
        *self <= *other
    }
}

/// The lexicographic order on character sequences, the order `str` carries.
pub open spec fn lex_le_chars(a: Seq<char>, b: Seq<char>) -> bool
    decreases a.len(),
{
    if a.len() == 0 {
        true
    } else if b.len() == 0 {
        false
    } else if (a[0] as u32) == (b[0] as u32) {
        lex_le_chars(a.skip(1), b.skip(1))
    } else {
        (a[0] as u32) < (b[0] as u32)
    }
}

/// The lexicographic order is total.
proof fn lemma_lex_le_total(a: Seq<char>, b: Seq<char>)
    ensures
        lex_le_chars(a, b) || lex_le_chars(b, a),
    decreases a.len(),
{
    if a.len() != 0 && b.len() != 0 && (a[0] as u32) == (b[0] as u32) {
        lemma_lex_le_total(a.skip(1), b.skip(1));
    }
}

/// The lexicographic order carries over chains.
proof fn lemma_lex_le_transitive(a: Seq<char>, b: Seq<char>, c: Seq<char>)
    requires
        lex_le_chars(a, b),
        lex_le_chars(b, c),
    ensures
        lex_le_chars(a, c),
    decreases a.len(),
{
    if a.len() != 0 && b.len() != 0 && c.len() != 0 && (a[0] as u32) == (b[0] as u32) && (b[0]
        as u32) == (c[0] as u32) {
        lemma_lex_le_transitive(a.skip(1), b.skip(1), c.skip(1));
    }
}

impl<'s> Ordered for &'s str {
    open spec fn le_spec(a: &'s str, b: &'s str) -> bool {
        lex_le_chars(a@, b@)
    }

    proof fn lemma_total(a: &'s str, b: &'s str) {
        lemma_lex_le_total(a@, b@);
    }

    proof fn lemma_transitive(a: &'s str, b: &'s str, c: &'s str) {
        lemma_lex_le_transitive(a@, b@, c@);
    }

    fn le_cmp(&self, other: &&'s str) -> (r: bool)
        ensures
            r == Self::le_spec(*self, *other),
    {
        str_lex_le(*self, *other)
    }
}

/// Whether one piece of text orders lexicographically at or below another,
/// decided character by character.
fn str_lex_le(a: &str, b: &str) -> (r: bool)
    ensures
        r == lex_le_chars(a@, b@),
{
    let an = a.unicode_len();
    let bn = b.unicode_len();
    let mut i: usize = 0;
    proof {
        assert(a@.skip(0) =~= a@);
        assert(b@.skip(0) =~= b@);
    }
    while i < an && i < bn
        invariant
            i <= an,
            i <= bn,
            an == a@.len(),
            bn == b@.len(),
            lex_le_chars(a@, b@) == lex_le_chars(a@.skip(i as int), b@.skip(i as int)),
        decreases an - i,
    {
        let ca = a.get_char(i);
        let cb = b.get_char(i);
        if (ca as u32) == (cb as u32) {
            proof {
                assert(a@.skip(i as int).skip(1) =~= a@.skip(i + 1));
                assert(b@.skip(i as int).skip(1) =~= b@.skip(i + 1));
                assert(a@.skip(i as int)[0] == a@[i as int]);
                assert(b@.skip(i as int)[0] == b@[i as int]);
            }
            i = i + 1;
        } else {
            proof {
                assert(a@.skip(i as int)[0] == a@[i as int]);
                assert(b@.skip(i as int)[0] == b@[i as int]);
                assert(a@.skip(i as int).len() > 0 && b@.skip(i as int).len() > 0);
                assert(lex_le_chars(a@.skip(i as int), b@.skip(i as int)) == ((a@[i as int]
                    as u32) < (b@[i as int] as u32)));
            }
            return (ca as u32) < (cb as u32);
        }
    }
    proof {
        if i == an {
            assert(a@.skip(i as int).len() == 0);
        } else {
            assert(b@.skip(i as int).len() == 0);
            assert(a@.skip(i as int).len() > 0);
        }
    }
    an <= bn
}

/// The stable sorting order on keyed pairs: by key, ties by the paired index.
pub open spec fn pair_le<T: Ordered>(a: (T, usize), b: (T, usize)) -> bool {
    if T::le_spec(a.0, b.0) && !T::le_spec(b.0, a.0) {
        true
    } else if T::le_spec(a.0, b.0) && T::le_spec(b.0, a.0) {
        a.1 <= b.1
    } else {
        false
    }
}

/// The pair order is total and transitive, inherited from the key order.
proof fn lemma_pair_le_total<T: Ordered>(a: (T, usize), b: (T, usize))
    ensures
        pair_le(a, b) || pair_le(b, a),
{
    T::lemma_total(a.0, b.0);
}

proof fn lemma_pair_le_transitive<T: Ordered>(a: (T, usize), b: (T, usize), c: (T, usize))
    requires
        pair_le(a, b),
        pair_le(b, c),
    ensures
        pair_le(a, c),
{
    T::lemma_total(a.0, b.0);
    T::lemma_total(b.0, c.0);
    T::lemma_total(a.0, c.0);
    if T::le_spec(a.0, b.0) && T::le_spec(b.0, c.0) {
        T::lemma_transitive(a.0, b.0, c.0);
    }
    if T::le_spec(c.0, a.0) {
        if T::le_spec(a.0, b.0) {
            T::lemma_transitive(c.0, a.0, b.0);
        }
        if T::le_spec(b.0, c.0) {
            T::lemma_transitive(b.0, c.0, a.0);
        }
    }
}

/// Exchanging two positions keeps the multiset of a sequence.
proof fn lemma_swap_multiset<A>(s: Seq<A>, i: int, j: int)
    requires
        0 <= i < j < s.len(),
    ensures
        s.update(i, s[j]).update(j, s[i]).to_multiset() == s.to_multiset(),
{
    broadcast use vstd::seq_lib::to_multiset_update;
    broadcast use vstd::seq_lib::to_multiset_contains;
    broadcast use vstd::multiset::group_multiset_axioms;
    broadcast use vstd::multiset::group_multiset_properties;

    let s1 = s.update(i, s[j]);
    assert(s1[j] == s[j]);
    assert(s.contains(s[i]) && s.contains(s[j]));
    assert(s.to_multiset().count(s[i]) > 0 && s.to_multiset().count(s[j]) > 0);
    assert(s1.to_multiset() == s.to_multiset().insert(s[j]).remove(s[i]));
    assert(s1.update(j, s[i]).to_multiset() == s1.to_multiset().insert(s[i]).remove(s1[j]));
    vstd::assert_multisets_equal!(s1.update(j, s[i]).to_multiset(), s.to_multiset(), x => {
        assert(s.to_multiset().count(s[i]) > 0);
        assert(s.to_multiset().count(s[j]) > 0);
    });
}

/// Sorting algorithms for plain buffers.
pub struct Sorter;

/// Sort the keyed pairs stably: ascending by key, equal keys by index.
fn insertion_sort_pairs<T: Ordered>(pairs: &mut Vec<(T, usize)>)
    ensures
        final (pairs)@.len() == old(pairs)@.len(),
        final (pairs)@.to_multiset() == old(pairs)@.to_multiset(),
        forall|a: int, b: int|
            0 <= a < b < final (pairs)@.len() ==> pair_le(
                #[trigger] final (pairs)@[a],
                #[trigger] final (pairs)@[b],
            ),
{
    let n = pairs.len();
    let mut i: usize = 1;
    while i < n
        invariant
            1 <= i <= n || n == 0,
            n == pairs@.len(),
            pairs@.to_multiset() == old(pairs)@.to_multiset(),
            forall|a: int, b: int|
                0 <= a < b < i ==> pair_le(#[trigger] pairs@[a], #[trigger] pairs@[b]),
        decreases n - i,
    {
        let mut j: usize = i;
        let mut placed = false;
        while j > 0 && !placed
            invariant
                0 <= j <= i < n,
                n == pairs@.len(),
                pairs@.to_multiset() == old(pairs)@.to_multiset(),
                forall|a: int, b: int|
                    0 <= a < b <= i && b != j ==> pair_le(
                        #[trigger] pairs@[a],
                        #[trigger] pairs@[b],
                    ),
                placed ==> forall|a: int, b: int|
                    0 <= a < b <= i ==> pair_le(#[trigger] pairs@[a], #[trigger] pairs@[b]),
            decreases j, (if placed { 0int } else { 1 }),
        {
            let x = pairs[j - 1];
            let y = pairs[j];
            proof {
                lemma_pair_le_total(x, y);
            }
            if Ordered::le_cmp(&x.0, &y.0) && (!Ordered::le_cmp(&y.0, &x.0) || x.1 <= y.1) {
                proof {
                    assert forall|a: int, b: int| 0 <= a < b <= i implies pair_le(
                        #[trigger] pairs@[a],
                        #[trigger] pairs@[b],
                    ) by {
                        if b == j {
                            assert(pair_le(pairs@[j - 1], pairs@[j as int]));
                            if a < j - 1 {
                                assert(pair_le(pairs@[a], pairs@[j - 1]));
                                lemma_pair_le_transitive(
                                    pairs@[a],
                                    pairs@[j - 1],
                                    pairs@[j as int],
                                );
                            }
                        } else {
                            assert(pair_le(pairs@[a], pairs@[b]));
                        }
                    }
                }
                placed = true;
            } else {
                let ghost before = pairs@;
                pairs.set(j - 1, y);
                pairs.set(j, x);
                proof {
                    lemma_swap_multiset(before, j - 1, j as int);
                    assert(pairs@ == before.update(j - 1, before[j as int]).update(
                        j as int,
                        before[j - 1],
                    ));
                    assert forall|a: int, b: int|
                        0 <= a < b <= i && b != j - 1 implies pair_le(
                        #[trigger] pairs@[a],
                        #[trigger] pairs@[b],
                    ) by {
                        if b == j {
                            if a == j - 1 {
                            } else {
                                assert(pair_le(before[a], before[j - 1]));
                            }
                        } else if a == j - 1 {
                            assert(pair_le(before[j as int], before[b]));
                        } else if a == j {
                            assert(pair_le(before[j - 1], before[b]));
                        } else {
                            assert(pair_le(before[a], before[b]));
                        }
                    }
                }
                j = j - 1;
            }
        }
        i = i + 1;
    }
}

impl Sorter {
    /// Sort by values, returning the positions each sorted value came from
    /// together with the sorted values; equal values keep their original
    /// order, earliest position first.
    pub fn argsort<T: Ordered>(values: &Vec<T>) -> (r: (Vec<usize>, Vec<T>))
        ensures
            r.0@.len() == values@.len(),
            r.1@.len() == values@.len(),
            forall|i: int|
                0 <= i < values@.len() ==> (#[trigger] r.0@[i]) < values@.len() && r.1@[i]
                    == values@[r.0@[i] as int],
            forall|i: int, j: int|
                0 <= i < j < values@.len() ==> T::le_spec(#[trigger] r.1@[i], #[trigger] r.1@[j]),
            forall|i: int, j: int|
                0 <= i < j < values@.len() && r.1@[i] == r.1@[j] ==> r.0@[i] <= r.0@[j],
            Seq::new(values@.len(), |i: int| (values@[i], i as usize)).to_multiset() == Seq::new(
                values@.len(),
                |i: int| (r.1@[i], r.0@[i]),
            ).to_multiset(),
    {
        let n = values.len();
        let mut pairs: Vec<(T, usize)> = Vec::new();
        let mut i: usize = 0;
        while i < n
            invariant
                i <= n,
                n == values@.len(),
                pairs@ == Seq::new(i as nat, |k: int| (values@[k], k as usize)),
            decreases n - i,
        {
            pairs.push((values[i], i));
            proof {
                assert(pairs@ =~= Seq::new((i + 1) as nat, |k: int| (values@[k], k as usize)));
            }
            i = i + 1;
        }
        proof {
            assert(pairs@ =~= Seq::new(values@.len(), |k: int| (values@[k], k as usize)));
        }
        insertion_sort_pairs(&mut pairs);
        let ghost sorted_pairs = pairs@;
        let mut indexer: Vec<usize> = Vec::new();
        let mut sorted: Vec<T> = Vec::new();
        let mut k: usize = 0;
        while k < pairs.len()
            invariant
                k <= pairs@.len(),
                pairs@ == sorted_pairs,
                indexer@ == Seq::new(k as nat, |m: int| sorted_pairs[m].1),
                sorted@ == Seq::new(k as nat, |m: int| sorted_pairs[m].0),
            decreases pairs.len() - k,
        {
            let p = pairs[k];
            indexer.push(p.1);
            sorted.push(p.0);
            proof {
                assert(indexer@ =~= Seq::new((k + 1) as nat, |m: int| sorted_pairs[m].1));
                assert(sorted@ =~= Seq::new((k + 1) as nat, |m: int| sorted_pairs[m].0));
            }
            k = k + 1;
        }
        proof {
            broadcast use vstd::seq_lib::to_multiset_len;
            broadcast use vstd::seq_lib::to_multiset_contains;

            assert(sorted_pairs.to_multiset().len() == sorted_pairs.len());
            assert forall|i0: int| 0 <= i0 < sorted_pairs.len() implies (
            #[trigger] sorted_pairs[i0]).1 < values@.len() && sorted_pairs[i0].0
                == values@[sorted_pairs[i0].1 as int] by {
                let orig = Seq::new(values@.len(), |m: int| (values@[m], m as usize));
                assert(sorted_pairs.to_multiset().count(sorted_pairs[i0]) > 0) by {
                    assert(sorted_pairs.contains(sorted_pairs[i0]));
                }
                assert(orig.to_multiset().count(sorted_pairs[i0]) > 0);
                assert(orig.contains(sorted_pairs[i0]));
                let w = choose|w: int| 0 <= w < orig.len() && orig[w] == sorted_pairs[i0];
            }
            assert(Seq::new(values@.len(), |i0: int| (sorted@[i0], indexer@[i0])) =~= sorted_pairs);
        }
        (indexer, sorted)
    }

    /// Sort the values ascending; equal values keep their original order.
    pub fn sort<T: Ordered>(values: &Vec<T>) -> (r: Vec<T>)
        ensures
            r@.len() == values@.len(),
            forall|i: int, j: int|
                0 <= i < j < r@.len() ==> T::le_spec(#[trigger] r@[i], #[trigger] r@[j]),
            exists|ix: Seq<usize>|
                {
                    &&& ix.len() == values@.len()
                    &&& forall|i: int|
                        0 <= i < ix.len() ==> (#[trigger] ix[i]) < values@.len() && r@[i]
                            == values@[ix[i] as int]
                },
    {
        let (indexer, sorted) = Self::argsort(values);
        proof {
            assert(indexer@.len() == values@.len() && forall|i: int|
                0 <= i < indexer@.len() ==> (#[trigger] indexer@[i]) < values@.len() && sorted@[i]
                    == values@[indexer@[i] as int]);
        }
        sorted
    }

    /// Sort values by keys, returning the sorted keys and the values carried
    /// along; equal keys keep their original order.
    pub fn sort_by<T: Ordered, U: Copy>(keys: &Vec<T>, values: &Vec<U>) -> (r: (Vec<T>, Vec<U>))
        requires
            keys@.len() == values@.len(),
        ensures
            r.0@.len() == keys@.len(),
            r.1@.len() == keys@.len(),
            forall|i: int, j: int|
                0 <= i < j < r.0@.len() ==> T::le_spec(#[trigger] r.0@[i], #[trigger] r.0@[j]),
            exists|ix: Seq<usize>|
                {
                    &&& ix.len() == keys@.len()
                    &&& forall|i: int|
                        0 <= i < ix.len() ==> (#[trigger] ix[i]) < keys@.len() && r.0@[i]
                            == keys@[ix[i] as int] && r.1@[i] == values@[ix[i] as int]
                    &&& forall|i: int, j: int|
                        0 <= i < j < ix.len() && r.0@[i] == r.0@[j] ==> ix[i] <= ix[j]
                },
    {
        let (indexer, sorted_keys) = Self::argsort(keys);
        let n = indexer.len();
        let mut sorted_values: Vec<U> = Vec::new();
        let mut i: usize = 0;
        while i < n
            invariant
                i <= n,
                n == indexer@.len(),
                n == keys@.len(),
                keys@.len() == values@.len(),
                forall|j: int|
                    0 <= j < n ==> (#[trigger] indexer@[j]) < keys@.len(),
                sorted_values@ == Seq::new(i as nat, |j: int| values@[indexer@[j] as int]),
            decreases n - i,
        {
            sorted_values.push(values[indexer[i]]);
            proof {
                assert(sorted_values@ =~= Seq::new(
                    (i + 1) as nat,
                    |j: int| values@[indexer@[j] as int],
                ));
            }
            i = i + 1;
        }
        proof {
            let ix = indexer@;
            assert(ix.len() == keys@.len() && (forall|i0: int|
                0 <= i0 < ix.len() ==> (#[trigger] ix[i0]) < keys@.len() && sorted_keys@[i0]
                    == keys@[ix[i0] as int] && sorted_values@[i0] == values@[ix[i0] as int]) && (
            forall|i0: int, j0: int|
                0 <= i0 < j0 < ix.len() && sorted_keys@[i0] == sorted_keys@[j0]
                    ==> ix[i0] <= ix[j0]));
        }
        (sorted_keys, sorted_values)
    }
}

} // verus!
