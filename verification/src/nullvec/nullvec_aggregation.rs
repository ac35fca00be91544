use vstd::prelude::*;

use super::NullVec;
use crate::algos::indexing::masked_select;
use crate::floats::{add_bits64, bits64_of_u64, div_bits64, mul_bits64, sub_bits64, Float64};
use crate::nullable::Nullable;
use crate::traits::{models, neg_flags, CmpElem, NullStorable, NumElem};

verus! {

/// The models of the not-null elements of a vector, in order.
pub open spec fn not_null_models<T: NullStorable>(v: NullVec<T>) -> Seq<T::Model> {
    masked_select(v.vals(), neg_flags(v.nulls()))
}

/// The running sum of a sequence of models, seeded with the kind's zero.
pub open spec fn sum_fold<T: NumElem>(s: Seq<T::Model>) -> T::Model
    decreases s.len(),
{
    if s.len() == 0 {
        T::zero_model()
    } else {
        T::add_spec(sum_fold::<T>(s.drop_last()), s.last())
    }
}

/// Whether every step of the running sum is defined (no overflow).
pub open spec fn sum_ok<T: NumElem>(s: Seq<T::Model>) -> bool
    decreases s.len(),
{
    s.len() == 0 || (sum_ok::<T>(s.drop_last()) && T::add_req(sum_fold::<T>(s.drop_last()), s.last()))
}

/// The running minimum: the first element seeds it, a strictly smaller
/// element replaces it, ties keep the earliest.
pub open spec fn min_fold<T: CmpElem>(s: Seq<T::Model>) -> T::Model
    decreases s.len(),
{
    if s.len() <= 1 {
        s[0]
    } else {
        let m = min_fold::<T>(s.drop_last());
        if T::lt_spec(s.last(), m) {
            s.last()
        } else {
            m
        }
    }
}

/// The running maximum: the first element seeds it, a strictly larger
/// element replaces it, ties keep the earliest.
pub open spec fn max_fold<T: CmpElem>(s: Seq<T::Model>) -> T::Model
    decreases s.len(),
{
    if s.len() <= 1 {
        s[0]
    } else {
        let m = max_fold::<T>(s.drop_last());
        if T::lt_spec(m, s.last()) {
            s.last()
        } else {
            m
        }
    }
}

/// The 64-bit float patterns that a sequence of models coerces to.
pub open spec fn bits_of<T: NumElem>(s: Seq<T::Model>) -> Seq<u64> {
    s.map_values(|m: T::Model| T::bits64_spec(m))
}

/// The left float fold of a sequence of patterns, seeded with plus zero.
pub open spec fn fsum_fold(bs: Seq<u64>) -> u64
    decreases bs.len(),
{
    if bs.len() == 0 {
        0
    } else {
        add_bits64(fsum_fold(bs.drop_last()), bs.last())
    }
}

/// The left float fold of squared deviations from a given pattern.
pub open spec fn sq_dev_fold(bs: Seq<u64>, mean: u64) -> u64
    decreases bs.len(),
{
    if bs.len() == 0 {
        0
    } else {
        add_bits64(
            sq_dev_fold(bs.drop_last(), mean),
            mul_bits64(sub_bits64(bs.last(), mean), sub_bits64(bs.last(), mean)),
        )
    }
}

/// The two-pass sum of squared deviations: pass one takes the float mean of
/// the patterns, pass two folds the squared deviations from it.
pub open spec fn mean_sq_bits(bs: Seq<u64>) -> u64 {
    sq_dev_fold(bs, div_bits64(fsum_fold(bs), bits64_of_u64(bs.len() as u64)))
}

/// The float mean of a kind's summed elements: the sum coerced to a 64-bit
/// pattern, divided by the count.
pub open spec fn mean_bits<T: NumElem>(nn: Seq<T::Model>) -> u64 {
    div_bits64(T::bits64_spec(sum_fold::<T>(nn)), bits64_of_u64(nn.len() as u64))
}

/// How the running sum grows along a prefix.
pub proof fn lemma_sum_fold_take_step<T: NumElem>(s: Seq<T::Model>, i: int)
    requires
        0 <= i < s.len(),
    ensures
        sum_fold::<T>(s.take(i + 1)) == T::add_spec(sum_fold::<T>(s.take(i)), s[i]),
        sum_ok::<T>(s.take(i + 1)) == (sum_ok::<T>(s.take(i)) && T::add_req(
            sum_fold::<T>(s.take(i)),
            s[i],
        )),
{
    assert(s.take(i + 1).drop_last() =~= s.take(i));
    assert(s.take(i + 1).last() == s[i]);
}

/// A defined running sum is defined on every prefix.
pub proof fn lemma_sum_ok_prefix<T: NumElem>(s: Seq<T::Model>, i: int)
    requires
        0 <= i <= s.len(),
        sum_ok::<T>(s),
    ensures
        sum_ok::<T>(s.take(i)),
    decreases s.len() - i,
{
    if i == s.len() {
        assert(s.take(i) =~= s);
    } else {
        lemma_sum_ok_prefix::<T>(s, i + 1);
        lemma_sum_fold_take_step::<T>(s, i);
    }
}

/// How the running minimum and maximum grow along a prefix.
pub proof fn lemma_extrema_take_step<T: CmpElem>(s: Seq<T::Model>, i: int)
    requires
        1 <= i < s.len(),
    ensures
        min_fold::<T>(s.take(i + 1)) == (if T::lt_spec(s[i], min_fold::<T>(s.take(i))) {
            s[i]
        } else {
            min_fold::<T>(s.take(i))
        }),
        max_fold::<T>(s.take(i + 1)) == (if T::lt_spec(max_fold::<T>(s.take(i)), s[i]) {
            s[i]
        } else {
            max_fold::<T>(s.take(i))
        }),
{
    assert(s.take(i + 1).drop_last() =~= s.take(i));
    assert(s.take(i + 1).last() == s[i]);
}

/// How the float folds grow along a prefix of patterns.
pub proof fn lemma_float_folds_take_step(bs: Seq<u64>, mean: u64, i: int)
    requires
        0 <= i < bs.len(),
    ensures
        fsum_fold(bs.take(i + 1)) == add_bits64(fsum_fold(bs.take(i)), bs[i]),
        sq_dev_fold(bs.take(i + 1), mean) == add_bits64(
            sq_dev_fold(bs.take(i), mean),
            mul_bits64(sub_bits64(bs[i], mean), sub_bits64(bs[i], mean)),
        ),
{
    assert(bs.take(i + 1).drop_last() =~= bs.take(i));
    assert(bs.take(i + 1).last() == bs[i]);
}

impl<T: NumElem> NullVec<T> {
    /// The sum of the not-null elements, folded from the kind's zero.
    ///
    /// An empty vector sums to the zero itself — zero is a defined identity,
    /// not "no data" — while a nonempty but all-null vector has no value to
    /// return. Every step of the fold must stay representable.
    pub fn sum(&self) -> (r: Nullable<T>)
        requires
            sum_ok::<T>(not_null_models(*self)),
        ensures
            self.vals().len() == 0 ==> r.model() == Some(T::zero_model()),
            self.vals().len() > 0 && not_null_models(*self).len() == 0 ==> r.model() is None,
            not_null_models(*self).len() > 0 ==> r.model() == Some(
                sum_fold::<T>(not_null_models(*self)),
            ),
    {
        let ghost nn = not_null_models(*self);
        if self.len() == 0 {
            proof {
                assert(nn.len() == 0);
            }
            return Nullable::Value(T::zero());
        }
        let values = self.not_null_values();
        if values.len() == 0 {
            return Nullable::Null;
        }
        let mut acc: T = T::zero();
        let mut i: usize = 0;
        proof {
            assert(models(values@) == nn);
            assert(nn.take(0) =~= Seq::<T::Model>::empty());
        }
        while i < values.len()
            invariant
                i <= values.len(),
                models(values@) == nn,
                values@.len() == nn.len(),
                sum_ok::<T>(nn),
                acc.model() == sum_fold::<T>(nn.take(i as int)),
            decreases values.len() - i,
        {
            proof {
                lemma_sum_ok_prefix::<T>(nn, i + 1);
                lemma_sum_fold_take_step::<T>(nn, i as int);
                assert(values@[i as int].model() == nn[i as int]);
            }
            acc = acc.add_el(values[i].dup());
            i = i + 1;
        }
        proof {
            assert(nn.take(nn.len() as int) =~= nn);
        }
        Nullable::Value(acc)
    }

    /// The float mean of the not-null elements: the sum coerced to a 64-bit
    /// float, divided by the count. No value is left once nulls are dropped —
    /// or nothing was there to begin with — exactly when the result is `Null`.
    pub fn mean(&self) -> (r: Nullable<Float64>)
        requires
            sum_ok::<T>(not_null_models(*self)),
        ensures
            not_null_models(*self).len() == 0 ==> r.model() is None,
            not_null_models(*self).len() > 0 ==> r.model() == Some(
                Float64 { bits: mean_bits::<T>(not_null_models(*self)) },
            ),
    {
        let ghost nn = not_null_models(*self);
        if self.len() == 0 {
            proof {
                assert(nn.len() == 0);
            }
            return Nullable::Null;
        }
        let n = self.count();
        let s = self.sum();
        match s {
            Nullable::Value(v) => {
                let num = v.to_bits64();
                let den = crate::floats::f64_from_u64(n as u64);
                Nullable::Value(Float64 { bits: crate::floats::fdiv64(num, den) })
            },
            Nullable::Null => Nullable::Null,
        }
    }

    /// The population variance of the not-null elements, two-pass: the float
    /// mean first, then the mean of squared deviations from it.
    pub fn var(&self) -> (r: Nullable<Float64>)
        ensures
            not_null_models(*self).len() == 0 ==> r.model() is None,
            not_null_models(*self).len() > 0 ==> r.model() == Some(
                Float64 {
                    bits: div_bits64(
                        mean_sq_bits(bits_of::<T>(not_null_models(*self))),
                        bits64_of_u64(not_null_models(*self).len() as u64),
                    ),
                },
            ),
    {
        let ghost nn = not_null_models(*self);
        let values = self.not_null_values();
        let n = values.len();
        if n == 0 {
            return Nullable::Null;
        }
        let msq = mean_sq_of(&values);
        let den = crate::floats::f64_from_u64(n as u64);
        Nullable::Value(Float64 { bits: crate::floats::fdiv64(msq, den) })
    }

    /// The unbiased sample variance: the same squared deviations, divided by
    /// the count less one. A single not-null element divides by the float
    /// zero, as the two-pass algorithm has it; the division itself is total.
    pub fn unbiased_var(&self) -> (r: Nullable<Float64>)
        ensures
            not_null_models(*self).len() == 0 ==> r.model() is None,
            not_null_models(*self).len() > 0 ==> r.model() == Some(
                Float64 {
                    bits: div_bits64(
                        mean_sq_bits(bits_of::<T>(not_null_models(*self))),
                        bits64_of_u64((not_null_models(*self).len() - 1) as u64),
                    ),
                },
            ),
    {
        let ghost nn = not_null_models(*self);
        let values = self.not_null_values();
        let n = values.len();
        if n == 0 {
            return Nullable::Null;
        }
        let msq = mean_sq_of(&values);
        let den = crate::floats::f64_from_u64((n - 1) as u64);
        Nullable::Value(Float64 { bits: crate::floats::fdiv64(msq, den) })
    }
}

impl<T: NumElem> NullVec<T> {
    /// The population standard deviation: the square root of `var`,
    /// propagating `Null`.
    pub fn stdev(&self) -> (r: Nullable<Float64>)
        ensures
            not_null_models(*self).len() == 0 ==> r.model() is None,
            not_null_models(*self).len() > 0 ==> r.model() == Some(
                Float64 {
                    bits: crate::floats::sqrt::sqrt_bits64(
                        div_bits64(
                            mean_sq_bits(bits_of::<T>(not_null_models(*self))),
                            bits64_of_u64(not_null_models(*self).len() as u64),
                        ),
                    ),
                },
            ),
    {
        match self.var() {
            Nullable::Value(v) => Nullable::Value(v.sqrt()),
            Nullable::Null => Nullable::Null,
        }
    }

    /// The unbiased sample standard deviation: the square root of
    /// `unbiased_var`, propagating `Null`.
    pub fn unbiased_stdev(&self) -> (r: Nullable<Float64>)
        ensures
            not_null_models(*self).len() == 0 ==> r.model() is None,
            not_null_models(*self).len() > 0 ==> r.model() == Some(
                Float64 {
                    bits: crate::floats::sqrt::sqrt_bits64(
                        div_bits64(
                            mean_sq_bits(bits_of::<T>(not_null_models(*self))),
                            bits64_of_u64((not_null_models(*self).len() - 1) as u64),
                        ),
                    ),
                },
            ),
    {
        match self.unbiased_var() {
            Nullable::Value(v) => Nullable::Value(v.sqrt()),
            Nullable::Null => Nullable::Null,
        }
    }
}

/// The two-pass sum of squared deviations of a nonempty buffer, computed over
/// the elements' 64-bit float patterns.
fn mean_sq_of<T: NumElem>(values: &Vec<T>) -> (r: u64)
    requires
        values@.len() > 0,
    ensures
        r == mean_sq_bits(bits_of::<T>(models(values@))),
{
    let ghost bs = bits_of::<T>(models(values@));
    let n = values.len();
    let mut fsum: u64 = 0;
    let mut i: usize = 0;
    proof {
        assert(bs.take(0) =~= Seq::<u64>::empty());
    }
    while i < n
        invariant
            i <= n,
            n == values@.len(),
            bs == bits_of::<T>(models(values@)),
            bs.len() == n,
            fsum == fsum_fold(bs.take(i as int)),
        decreases n - i,
    {
        proof {
            lemma_float_folds_take_step(bs, 0, i as int);
            assert(bs[i as int] == T::bits64_spec(values@[i as int].model()));
        }
        let b = values[i].to_bits64();
        fsum = crate::floats::fadd64(fsum, b);
        i = i + 1;
    }
    proof {
        assert(bs.take(bs.len() as int) =~= bs);
    }
    let mean = crate::floats::fdiv64(fsum, crate::floats::f64_from_u64(n as u64));
    let mut msq: u64 = 0;
    let mut j: usize = 0;
    proof {
        assert(bs.take(0) =~= Seq::<u64>::empty());
    }
    while j < n
        invariant
            j <= n,
            n == values@.len(),
            bs == bits_of::<T>(models(values@)),
            bs.len() == n,
            mean == div_bits64(fsum_fold(bs), bits64_of_u64(bs.len() as u64)),
            msq == sq_dev_fold(bs.take(j as int), mean),
        decreases n - j,
    {
        proof {
            lemma_float_folds_take_step(bs, mean, j as int);
            assert(bs[j as int] == T::bits64_spec(values@[j as int].model()));
        }
        let b = values[j].to_bits64();
        let dev = crate::floats::fsub64(b, mean);
        msq = crate::floats::fadd64(msq, crate::floats::fmul64(dev, dev));
        j = j + 1;
    }
    proof {
        assert(bs.take(bs.len() as int) =~= bs);
    }
    msq
}

impl<T: NumElem> NullVec<T> {
    /// The number of not-null elements.
    pub fn count(&self) -> (r: usize)
        ensures
            r == not_null_models(*self).len(),
    {
        proof {
            use_type_invariant(self);
        }
        let values = self.not_null_values();
        proof {
            assert(models(values@).len() == values@.len());
        }
        values.len()
    }
}

impl<T: CmpElem> NullVec<T> {
    /// The least not-null element by the kind's strict order; the first one
    /// seeds the running extremum and only a strictly smaller element
    /// replaces it, so ties keep the earliest.
    pub fn min(&self) -> (r: Nullable<T>)
        ensures
            not_null_models(*self).len() == 0 ==> r.model() is None,
            not_null_models(*self).len() > 0 ==> r.model() == Some(
                min_fold::<T>(not_null_models(*self)),
            ),
    {
        let ghost nn = not_null_models(*self);
        let values = self.not_null_values();
        if values.len() == 0 {
            return Nullable::Null;
        }
        let mut current: T = values[0].dup();
        let mut i: usize = 1;
        proof {
            assert(models(values@) == nn);
            assert(nn.take(1) =~= seq![nn[0]]);
            assert(current.model() == min_fold::<T>(nn.take(1)));
        }
        while i < values.len()
            invariant
                1 <= i <= values.len(),
                models(values@) == nn,
                values@.len() == nn.len(),
                current.model() == min_fold::<T>(nn.take(i as int)),
            decreases values.len() - i,
        {
            proof {
                lemma_extrema_take_step::<T>(nn, i as int);
                assert(values@[i as int].model() == nn[i as int]);
            }
            let v = &values[i];
            if v.lt_el(&current) {
                current = v.dup();
            }
            i = i + 1;
        }
        proof {
            assert(nn.take(nn.len() as int) =~= nn);
        }
        Nullable::Value(current)
    }

    /// The greatest not-null element by the kind's strict order; ties keep
    /// the earliest.
    pub fn max(&self) -> (r: Nullable<T>)
        ensures
            not_null_models(*self).len() == 0 ==> r.model() is None,
            not_null_models(*self).len() > 0 ==> r.model() == Some(
                max_fold::<T>(not_null_models(*self)),
            ),
    {
        let ghost nn = not_null_models(*self);
        let values = self.not_null_values();
        if values.len() == 0 {
            return Nullable::Null;
        }
        let mut current: T = values[0].dup();
        let mut i: usize = 1;
        proof {
            assert(models(values@) == nn);
            assert(nn.take(1) =~= seq![nn[0]]);
            assert(current.model() == max_fold::<T>(nn.take(1)));
        }
        while i < values.len()
            invariant
                1 <= i <= values.len(),
                models(values@) == nn,
                values@.len() == nn.len(),
                current.model() == max_fold::<T>(nn.take(i as int)),
            decreases values.len() - i,
        {
            proof {
                lemma_extrema_take_step::<T>(nn, i as int);
                assert(values@[i as int].model() == nn[i as int]);
            }
            let v = &values[i];
            if current.lt_el(v) {
                current = v.dup();
            }
            i = i + 1;
        }
        proof {
            assert(nn.take(nn.len() as int) =~= nn);
        }
        Nullable::Value(current)
    }
}

impl<T: NumElem> crate::traits::BasicAggregation for NullVec<T> {
    type Kept = Nullable<T>;

    type Counted = usize;

    open spec fn sum_req(&self) -> bool {
        sum_ok::<T>(not_null_models(*self))
    }

    fn sum(&self) -> Nullable<T> {
        NullVec::sum(self)
    }

    fn count(&self) -> usize {
        NullVec::count(self)
    }
}

impl<T: NumElem> crate::traits::NumericAggregation for NullVec<T> {
    type Coerced = Nullable<Float64>;

    open spec fn mean_req(&self) -> bool {
        sum_ok::<T>(not_null_models(*self))
    }

    fn mean(&self) -> Nullable<Float64> {
        NullVec::mean(self)
    }

    fn var(&self) -> Nullable<Float64> {
        NullVec::var(self)
    }

    fn unbiased_var(&self) -> Nullable<Float64> {
        NullVec::unbiased_var(self)
    }

    fn stdev(&self) -> Nullable<Float64> {
        NullVec::stdev(self)
    }

    fn unbiased_stdev(&self) -> Nullable<Float64> {
        NullVec::unbiased_stdev(self)
    }
}

impl<T: CmpElem> crate::traits::ComparisonAggregation for NullVec<T> {
    type Kept = Nullable<T>;

    fn min(&self) -> Nullable<T> {
        NullVec::min(self)
    }

    fn max(&self) -> Nullable<T> {
        NullVec::max(self)
    }
}

} // verus!
