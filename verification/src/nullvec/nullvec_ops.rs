//! Operator sugar for the nullable vector.
//!
//! The combine semantics lives in the named kernels, whose contracts pin the
//! result's values and null positions; the `core::ops` impls are the thin
//! surface over them.

use vstd::prelude::*;

use super::NullVec;
use crate::nullable::Nullable;
use crate::traits::{any_flag, any_null, fold_model, models, BitElem, NullStorable, NumElem};

verus! {

/// The broadcast add of a vector and a plain value, applied to every stored
/// slot; a result the kind regards as null folds into the mask.
pub fn vadd_prim<T: NumElem>(l: &NullVec<T>, s: T) -> (r: NullVec<T>)
    requires
        forall|i: int| 0 <= i < l.vals().len() ==> T::add_req(#[trigger] l.vals()[i], s.model()),
    ensures
        r.vals().len() == l.vals().len(),
        r.nulls().len() == l.vals().len(),
        forall|i: int|
            0 <= i < r.vals().len() ==> #[trigger] r.vals()[i] == fold_model::<T>(
                T::add_spec(l.vals()[i], s.model()),
            ),
        forall|i: int|
            0 <= i < r.nulls().len() ==> #[trigger] r.nulls()[i] == (l.nulls()[i]
                || T::model_is_null(T::add_spec(l.vals()[i], s.model()))),
        r.masked() == any_flag(r.nulls()),
{
    proof {
        use_type_invariant(l);
    }
    let ghost tvals = Seq::new(
        l.vals().len(),
        |i: int| fold_model::<T>(T::add_spec(l.vals()[i], s.model())),
    );
    let ghost tnulls = Seq::new(
        l.vals().len(),
        |i: int| l.nulls()[i] || T::model_is_null(T::add_spec(l.vals()[i], s.model())),
    );
    let n = l.len();
    let mut data: Vec<T> = Vec::new();
    let mut flags: Vec<bool> = Vec::new();
    let mut i: usize = 0;
    while i < n
        invariant
            i <= n,
            l.inv(),
            n == l.vals().len(),
            tvals == Seq::new(
                l.vals().len(),
                |j: int| fold_model::<T>(T::add_spec(l.vals()[j], s.model())),
            ),
            tnulls == Seq::new(
                l.vals().len(),
                |j: int| l.nulls()[j] || T::model_is_null(T::add_spec(l.vals()[j], s.model())),
            ),
    
        forall|i: int| 0 <= i < l.vals().len() ==> T::add_req(#[trigger] l.vals()[i], s.model()),
            data@.len() == i,
            flags@.len() == i,
            models(data@) == tvals.take(i as int),
            flags@ == tnulls.take(i as int),
        decreases n - i,
    {
        let ghost prev = data@;
        let v = l.at_index(i);
        let was_null = l.flag_at(i);
        let computed = v.add_el(s);
        if computed.is_null() {
            data.push(T::default_value());
            flags.push(true);
        } else {
            data.push(computed);
            flags.push(was_null);
        }
        proof {
            crate::traits::lemma_models_push(prev, data@.last());
            assert(models(data@) =~= tvals.take(i + 1));
            assert(flags@ =~= tnulls.take(i + 1));
        }
        i = i + 1;
    }
    proof {
        assert(tvals.take(tvals.len() as int) =~= tvals);
        assert(tnulls.take(tnulls.len() as int) =~= tnulls);
        assert(!any_null::<T>(models(data@))) by {
            if any_null::<T>(models(data@)) {
                let w = choose|w: int|
                    0 <= w < models(data@).len() && T::model_is_null(#[trigger] models(data@)[w]);
                T::lemma_placeholder_not_null();
            }
        }
    }
    NullVec::assemble(data, flags)
}

/// The broadcast add of a vector and a single nullable value: a `Null`
/// operand turns every position `Null`.
pub fn vadd_nullable<T: NumElem>(l: &NullVec<T>, s: Nullable<T>) -> (r: NullVec<T>)
    requires
        (match s {
            Nullable::Value(v) => forall|i: int|
                0 <= i < l.vals().len() ==> T::add_req(#[trigger] l.vals()[i], v.model()),
            Nullable::Null => true,
        }),
    ensures
        (match s {
            Nullable::Value(v) => {
                &&& r.vals().len() == l.vals().len()
                &&& r.nulls().len() == l.vals().len()
                &&& forall|i: int|
                    0 <= i < r.vals().len() ==> #[trigger] r.vals()[i] == fold_model::<T>(
                        T::add_spec(l.vals()[i], v.model()),
                    )
                &&& forall|i: int|
                    0 <= i < r.nulls().len() ==> #[trigger] r.nulls()[i] == (l.nulls()[i]
                        || T::model_is_null(T::add_spec(l.vals()[i], v.model())))
                &&& r.masked() == any_flag(r.nulls())
            },
            Nullable::Null => {
                &&& r.vals() == l.vals()
                &&& r.nulls() == Seq::new(l.vals().len(), |i: int| true)
                &&& r.masked() == (l.vals().len() > 0)
            },
        }),
{
    match s {
        Nullable::Null => l.as_null(),
        Nullable::Value(v) => vadd_prim(l, v),
    }
}

/// The elementwise add of a vector and an equally long plain buffer.
pub fn vadd_vec<T: NumElem>(l: &NullVec<T>, rhs: &Vec<T>) -> (r: NullVec<T>)
    requires
        rhs@.len() == l.vals().len(),
        forall|i: int| 0 <= i < l.vals().len() ==> T::add_req(#[trigger] l.vals()[i], models(rhs@)[i]),
    ensures
        r.vals().len() == l.vals().len(),
        r.nulls().len() == l.vals().len(),
        forall|i: int|
            0 <= i < r.vals().len() ==> #[trigger] r.vals()[i] == fold_model::<T>(
                T::add_spec(l.vals()[i], models(rhs@)[i]),
            ),
        forall|i: int|
            0 <= i < r.nulls().len() ==> #[trigger] r.nulls()[i] == (l.nulls()[i]
                || T::model_is_null(T::add_spec(l.vals()[i], models(rhs@)[i]))),
        r.masked() == any_flag(r.nulls()),
{
    proof {
        use_type_invariant(l);
    }
    let ghost tvals = Seq::new(
        l.vals().len(),
        |i: int| fold_model::<T>(T::add_spec(l.vals()[i], models(rhs@)[i])),
    );
    let ghost tnulls = Seq::new(
        l.vals().len(),
        |i: int| l.nulls()[i] || T::model_is_null(T::add_spec(l.vals()[i], models(rhs@)[i])),
    );
    let n = l.len();
    let mut data: Vec<T> = Vec::new();
    let mut flags: Vec<bool> = Vec::new();
    let mut i: usize = 0;
    while i < n
        invariant
            i <= n,
            l.inv(),
            n == l.vals().len(),
            rhs@.len() == l.vals().len(),
            tvals == Seq::new(
                l.vals().len(),
                |j: int| fold_model::<T>(T::add_spec(l.vals()[j], models(rhs@)[j])),
            ),
            tnulls == Seq::new(
                l.vals().len(),
                |j: int| l.nulls()[j] || T::model_is_null(
                    T::add_spec(l.vals()[j], models(rhs@)[j]),
                ),
            ),
        forall|i: int| 0 <= i < l.vals().len() ==> T::add_req(#[trigger] l.vals()[i], models(rhs@)[i]),
            data@.len() == i,
            flags@.len() == i,
            models(data@) == tvals.take(i as int),
            flags@ == tnulls.take(i as int),
        decreases n - i,
    {
        let ghost prev = data@;
        proof {
            assert(models(rhs@)[i as int] == rhs@[i as int].model());
        }
        let v = l.at_index(i);
        let was_null = l.flag_at(i);
        let computed = v.add_el(rhs[i]);
        if computed.is_null() {
            data.push(T::default_value());
            flags.push(true);
        } else {
            data.push(computed);
            flags.push(was_null);
        }
        proof {
            crate::traits::lemma_models_push(prev, data@.last());
            assert(models(data@) =~= tvals.take(i + 1));
            assert(flags@ =~= tnulls.take(i + 1));
        }
        i = i + 1;
    }
    proof {
        assert(tvals.take(tvals.len() as int) =~= tvals);
        assert(tnulls.take(tnulls.len() as int) =~= tnulls);
        assert(!any_null::<T>(models(data@))) by {
            if any_null::<T>(models(data@)) {
                let w = choose|w: int|
                    0 <= w < models(data@).len() && T::model_is_null(#[trigger] models(data@)[w]);
                T::lemma_placeholder_not_null();
            }
        }
    }
    NullVec::assemble(data, flags)
}

/// The elementwise add of two equally long vectors: the masks combine with
/// positional OR, and a result the kind regards as null folds in as well.
pub fn vadd_nv<T: NumElem>(l: &NullVec<T>, o: &NullVec<T>) -> (r: NullVec<T>)
    requires
        o.vals().len() == l.vals().len(),
        forall|i: int| 0 <= i < l.vals().len() ==> T::add_req(#[trigger] l.vals()[i], o.vals()[i]),
    ensures
        r.vals().len() == l.vals().len(),
        r.nulls().len() == l.vals().len(),
        forall|i: int|
            0 <= i < r.vals().len() ==> #[trigger] r.vals()[i] == fold_model::<T>(
                T::add_spec(l.vals()[i], o.vals()[i]),
            ),
        forall|i: int|
            0 <= i < r.nulls().len() ==> #[trigger] r.nulls()[i] == (l.nulls()[i] || o.nulls()[i]
                || T::model_is_null(T::add_spec(l.vals()[i], o.vals()[i]))),
        r.masked() == any_flag(r.nulls()),
{
    proof {
        use_type_invariant(l);
        use_type_invariant(o);
    }
    let ghost tvals = Seq::new(
        l.vals().len(),
        |i: int| fold_model::<T>(T::add_spec(l.vals()[i], o.vals()[i])),
    );
    let ghost tnulls = Seq::new(
        l.vals().len(),
        |i: int| l.nulls()[i] || o.nulls()[i] || T::model_is_null(
            T::add_spec(l.vals()[i], o.vals()[i]),
        ),
    );
    let n = l.len();
    let mut data: Vec<T> = Vec::new();
    let mut flags: Vec<bool> = Vec::new();
    let mut i: usize = 0;
    while i < n
        invariant
            i <= n,
            l.inv(),
            o.inv(),
            n == l.vals().len(),
            o.vals().len() == l.vals().len(),
            tvals == Seq::new(
                l.vals().len(),
                |j: int| fold_model::<T>(T::add_spec(l.vals()[j], o.vals()[j])),
            ),
            tnulls == Seq::new(
                l.vals().len(),
                |j: int| l.nulls()[j] || o.nulls()[j] || T::model_is_null(
                    T::add_spec(l.vals()[j], o.vals()[j]),
                ),
            ),
        forall|i: int| 0 <= i < l.vals().len() ==> T::add_req(#[trigger] l.vals()[i], o.vals()[i]),
            data@.len() == i,
            flags@.len() == i,
            models(data@) == tvals.take(i as int),
            flags@ == tnulls.take(i as int),
        decreases n - i,
    {
        let ghost prev = data@;
        let v = l.at_index(i);
        let w = o.at_index(i);
        let was_null = l.flag_at(i) || o.flag_at(i);
        let computed = v.add_el(w);
        if computed.is_null() {
            data.push(T::default_value());
            flags.push(true);
        } else {
            data.push(computed);
            flags.push(was_null);
        }
        proof {
            crate::traits::lemma_models_push(prev, data@.last());
            assert(models(data@) =~= tvals.take(i + 1));
            assert(flags@ =~= tnulls.take(i + 1));
        }
        i = i + 1;
    }
    proof {
        assert(tvals.take(tvals.len() as int) =~= tvals);
        assert(tnulls.take(tnulls.len() as int) =~= tnulls);
        assert(!any_null::<T>(models(data@))) by {
            if any_null::<T>(models(data@)) {
                let w = choose|w: int|
                    0 <= w < models(data@).len() && T::model_is_null(#[trigger] models(data@)[w]);
                T::lemma_placeholder_not_null();
            }
        }
    }
    NullVec::assemble(data, flags)
}

/// The broadcast bitand of a vector and a plain value, applied to every stored
/// slot; a result the kind regards as null folds into the mask.
pub fn vbitand_prim<T: BitElem>(l: &NullVec<T>, s: T) -> (r: NullVec<T>)
    ensures
        r.vals().len() == l.vals().len(),
        r.nulls().len() == l.vals().len(),
        forall|i: int|
            0 <= i < r.vals().len() ==> #[trigger] r.vals()[i] == fold_model::<T>(
                T::bitand_spec(l.vals()[i], s.model()),
            ),
        forall|i: int|
            0 <= i < r.nulls().len() ==> #[trigger] r.nulls()[i] == (l.nulls()[i]
                || T::model_is_null(T::bitand_spec(l.vals()[i], s.model()))),
        r.masked() == any_flag(r.nulls()),
{
    proof {
        use_type_invariant(l);
    }
    let ghost tvals = Seq::new(
        l.vals().len(),
        |i: int| fold_model::<T>(T::bitand_spec(l.vals()[i], s.model())),
    );
    let ghost tnulls = Seq::new(
        l.vals().len(),
        |i: int| l.nulls()[i] || T::model_is_null(T::bitand_spec(l.vals()[i], s.model())),
    );
    let n = l.len();
    let mut data: Vec<T> = Vec::new();
    let mut flags: Vec<bool> = Vec::new();
    let mut i: usize = 0;
    while i < n
        invariant
            i <= n,
            l.inv(),
            n == l.vals().len(),
            tvals == Seq::new(
                l.vals().len(),
                |j: int| fold_model::<T>(T::bitand_spec(l.vals()[j], s.model())),
            ),
            tnulls == Seq::new(
                l.vals().len(),
                |j: int| l.nulls()[j] || T::model_is_null(T::bitand_spec(l.vals()[j], s.model())),
            ),
            data@.len() == i,
            flags@.len() == i,
            models(data@) == tvals.take(i as int),
            flags@ == tnulls.take(i as int),
        decreases n - i,
    {
        let ghost prev = data@;
        let v = l.at_index(i);
        let was_null = l.flag_at(i);
        let computed = v.bitand_el(s);
        if computed.is_null() {
            data.push(T::default_value());
            flags.push(true);
        } else {
            data.push(computed);
            flags.push(was_null);
        }
        proof {
            crate::traits::lemma_models_push(prev, data@.last());
            assert(models(data@) =~= tvals.take(i + 1));
            assert(flags@ =~= tnulls.take(i + 1));
        }
        i = i + 1;
    }
    proof {
        assert(tvals.take(tvals.len() as int) =~= tvals);
        assert(tnulls.take(tnulls.len() as int) =~= tnulls);
        assert(!any_null::<T>(models(data@))) by {
            if any_null::<T>(models(data@)) {
                let w = choose|w: int|
                    0 <= w < models(data@).len() && T::model_is_null(#[trigger] models(data@)[w]);
                T::lemma_placeholder_not_null();
            }
        }
    }
    NullVec::assemble(data, flags)
}

/// The broadcast bitand of a vector and a single nullable value: a `Null`
/// operand turns every position `Null`.
pub fn vbitand_nullable<T: BitElem>(l: &NullVec<T>, s: Nullable<T>) -> (r: NullVec<T>)
    ensures
        (match s {
            Nullable::Value(v) => {
                &&& r.vals().len() == l.vals().len()
                &&& r.nulls().len() == l.vals().len()
                &&& forall|i: int|
                    0 <= i < r.vals().len() ==> #[trigger] r.vals()[i] == fold_model::<T>(
                        T::bitand_spec(l.vals()[i], v.model()),
                    )
                &&& forall|i: int|
                    0 <= i < r.nulls().len() ==> #[trigger] r.nulls()[i] == (l.nulls()[i]
                        || T::model_is_null(T::bitand_spec(l.vals()[i], v.model())))
                &&& r.masked() == any_flag(r.nulls())
            },
            Nullable::Null => {
                &&& r.vals() == l.vals()
                &&& r.nulls() == Seq::new(l.vals().len(), |i: int| true)
                &&& r.masked() == (l.vals().len() > 0)
            },
        }),
{
    match s {
        Nullable::Null => l.as_null(),
        Nullable::Value(v) => vbitand_prim(l, v),
    }
}

/// The elementwise bitand of a vector and an equally long plain buffer.
pub fn vbitand_vec<T: BitElem>(l: &NullVec<T>, rhs: &Vec<T>) -> (r: NullVec<T>)
    requires
        rhs@.len() == l.vals().len(),
    ensures
        r.vals().len() == l.vals().len(),
        r.nulls().len() == l.vals().len(),
        forall|i: int|
            0 <= i < r.vals().len() ==> #[trigger] r.vals()[i] == fold_model::<T>(
                T::bitand_spec(l.vals()[i], models(rhs@)[i]),
            ),
        forall|i: int|
            0 <= i < r.nulls().len() ==> #[trigger] r.nulls()[i] == (l.nulls()[i]
                || T::model_is_null(T::bitand_spec(l.vals()[i], models(rhs@)[i]))),
        r.masked() == any_flag(r.nulls()),
{
    proof {
        use_type_invariant(l);
    }
    let ghost tvals = Seq::new(
        l.vals().len(),
        |i: int| fold_model::<T>(T::bitand_spec(l.vals()[i], models(rhs@)[i])),
    );
    let ghost tnulls = Seq::new(
        l.vals().len(),
        |i: int| l.nulls()[i] || T::model_is_null(T::bitand_spec(l.vals()[i], models(rhs@)[i])),
    );
    let n = l.len();
    let mut data: Vec<T> = Vec::new();
    let mut flags: Vec<bool> = Vec::new();
    let mut i: usize = 0;
    while i < n
        invariant
            i <= n,
            l.inv(),
            n == l.vals().len(),
            rhs@.len() == l.vals().len(),
            tvals == Seq::new(
                l.vals().len(),
                |j: int| fold_model::<T>(T::bitand_spec(l.vals()[j], models(rhs@)[j])),
            ),
            tnulls == Seq::new(
                l.vals().len(),
                |j: int| l.nulls()[j] || T::model_is_null(
                    T::bitand_spec(l.vals()[j], models(rhs@)[j]),
                ),
            ),
            data@.len() == i,
            flags@.len() == i,
            models(data@) == tvals.take(i as int),
            flags@ == tnulls.take(i as int),
        decreases n - i,
    {
        let ghost prev = data@;
        proof {
            assert(models(rhs@)[i as int] == rhs@[i as int].model());
        }
        let v = l.at_index(i);
        let was_null = l.flag_at(i);
        let computed = v.bitand_el(rhs[i]);
        if computed.is_null() {
            data.push(T::default_value());
            flags.push(true);
        } else {
            data.push(computed);
            flags.push(was_null);
        }
        proof {
            crate::traits::lemma_models_push(prev, data@.last());
            assert(models(data@) =~= tvals.take(i + 1));
            assert(flags@ =~= tnulls.take(i + 1));
        }
        i = i + 1;
    }
    proof {
        assert(tvals.take(tvals.len() as int) =~= tvals);
        assert(tnulls.take(tnulls.len() as int) =~= tnulls);
        assert(!any_null::<T>(models(data@))) by {
            if any_null::<T>(models(data@)) {
                let w = choose|w: int|
                    0 <= w < models(data@).len() && T::model_is_null(#[trigger] models(data@)[w]);
                T::lemma_placeholder_not_null();
            }
        }
    }
    NullVec::assemble(data, flags)
}

/// The elementwise bitand of two equally long vectors: the masks combine with
/// positional OR, and a result the kind regards as null folds in as well.
pub fn vbitand_nv<T: BitElem>(l: &NullVec<T>, o: &NullVec<T>) -> (r: NullVec<T>)
    requires
        o.vals().len() == l.vals().len(),
    ensures
        r.vals().len() == l.vals().len(),
        r.nulls().len() == l.vals().len(),
        forall|i: int|
            0 <= i < r.vals().len() ==> #[trigger] r.vals()[i] == fold_model::<T>(
                T::bitand_spec(l.vals()[i], o.vals()[i]),
            ),
        forall|i: int|
            0 <= i < r.nulls().len() ==> #[trigger] r.nulls()[i] == (l.nulls()[i] || o.nulls()[i]
                || T::model_is_null(T::bitand_spec(l.vals()[i], o.vals()[i]))),
        r.masked() == any_flag(r.nulls()),
{
    proof {
        use_type_invariant(l);
        use_type_invariant(o);
    }
    let ghost tvals = Seq::new(
        l.vals().len(),
        |i: int| fold_model::<T>(T::bitand_spec(l.vals()[i], o.vals()[i])),
    );
    let ghost tnulls = Seq::new(
        l.vals().len(),
        |i: int| l.nulls()[i] || o.nulls()[i] || T::model_is_null(
            T::bitand_spec(l.vals()[i], o.vals()[i]),
        ),
    );
    let n = l.len();
    let mut data: Vec<T> = Vec::new();
    let mut flags: Vec<bool> = Vec::new();
    let mut i: usize = 0;
    while i < n
        invariant
            i <= n,
            l.inv(),
            o.inv(),
            n == l.vals().len(),
            o.vals().len() == l.vals().len(),
            tvals == Seq::new(
                l.vals().len(),
                |j: int| fold_model::<T>(T::bitand_spec(l.vals()[j], o.vals()[j])),
            ),
            tnulls == Seq::new(
                l.vals().len(),
                |j: int| l.nulls()[j] || o.nulls()[j] || T::model_is_null(
                    T::bitand_spec(l.vals()[j], o.vals()[j]),
                ),
            ),
            data@.len() == i,
            flags@.len() == i,
            models(data@) == tvals.take(i as int),
            flags@ == tnulls.take(i as int),
        decreases n - i,
    {
        let ghost prev = data@;
        let v = l.at_index(i);
        let w = o.at_index(i);
        let was_null = l.flag_at(i) || o.flag_at(i);
        let computed = v.bitand_el(w);
        if computed.is_null() {
            data.push(T::default_value());
            flags.push(true);
        } else {
            data.push(computed);
            flags.push(was_null);
        }
        proof {
            crate::traits::lemma_models_push(prev, data@.last());
            assert(models(data@) =~= tvals.take(i + 1));
            assert(flags@ =~= tnulls.take(i + 1));
        }
        i = i + 1;
    }
    proof {
        assert(tvals.take(tvals.len() as int) =~= tvals);
        assert(tnulls.take(tnulls.len() as int) =~= tnulls);
        assert(!any_null::<T>(models(data@))) by {
            if any_null::<T>(models(data@)) {
                let w = choose|w: int|
                    0 <= w < models(data@).len() && T::model_is_null(#[trigger] models(data@)[w]);
                T::lemma_placeholder_not_null();
            }
        }
    }
    NullVec::assemble(data, flags)
}

impl<T: NumElem> vstd::std_specs::ops::AddSpecImpl<T> for NullVec<T> {
    open spec fn obeys_add_spec() -> bool {
        false
    }

    open spec fn add_req(self, rhs: T) -> bool {
        forall|i: int| 0 <= i < self.vals().len() ==> T::add_req(#[trigger] self.vals()[i], rhs.model())
    }

    open spec fn add_spec(self, rhs: T) -> NullVec<T> {
        self
    }
}

impl<T: NumElem> core::ops::Add<T> for NullVec<T> {
    type Output = NullVec<T>;

    fn add(self, rhs: T) -> NullVec<T> {
        vadd_prim(&self, rhs)
    }
}

impl<'a, T: NumElem> vstd::std_specs::ops::AddSpecImpl<&'a T> for NullVec<T> {
    open spec fn obeys_add_spec() -> bool {
        false
    }

    open spec fn add_req(self, rhs: &'a T) -> bool {
        forall|i: int| 0 <= i < self.vals().len() ==> T::add_req(#[trigger] self.vals()[i], (*rhs).model())
    }

    open spec fn add_spec(self, rhs: &'a T) -> NullVec<T> {
        self
    }
}

impl<'a, T: NumElem> core::ops::Add<&'a T> for NullVec<T> {
    type Output = NullVec<T>;

    fn add(self, rhs: &'a T) -> NullVec<T> {
        vadd_prim(&self, *rhs)
    }
}

impl<'b, T: NumElem> vstd::std_specs::ops::AddSpecImpl<T> for &'b NullVec<T> {
    open spec fn obeys_add_spec() -> bool {
        false
    }

    open spec fn add_req(self, rhs: T) -> bool {
        forall|i: int| 0 <= i < (*self).vals().len() ==> T::add_req(#[trigger] (*self).vals()[i], rhs.model())
    }

    open spec fn add_spec(self, rhs: T) -> NullVec<T> {
        *self
    }
}

impl<'b, T: NumElem> core::ops::Add<T> for &'b NullVec<T> {
    type Output = NullVec<T>;

    fn add(self, rhs: T) -> NullVec<T> {
        vadd_prim(self, rhs)
    }
}

impl<'a, 'b, T: NumElem> vstd::std_specs::ops::AddSpecImpl<&'a T> for &'b NullVec<T> {
    open spec fn obeys_add_spec() -> bool {
        false
    }

    open spec fn add_req(self, rhs: &'a T) -> bool {
        forall|i: int| 0 <= i < (*self).vals().len() ==> T::add_req(#[trigger] (*self).vals()[i], (*rhs).model())
    }

    open spec fn add_spec(self, rhs: &'a T) -> NullVec<T> {
        *self
    }
}

impl<'a, 'b, T: NumElem> core::ops::Add<&'a T> for &'b NullVec<T> {
    type Output = NullVec<T>;

    fn add(self, rhs: &'a T) -> NullVec<T> {
        vadd_prim(self, *rhs)
    }
}

impl<T: BitElem> vstd::std_specs::ops::BitAndSpecImpl<T> for NullVec<T> {
    open spec fn obeys_bitand_spec() -> bool {
        false
    }

    open spec fn bitand_req(self, rhs: T) -> bool {
        true
    }

    open spec fn bitand_spec(self, rhs: T) -> NullVec<T> {
        self
    }
}

impl<T: BitElem> core::ops::BitAnd<T> for NullVec<T> {
    type Output = NullVec<T>;

    fn bitand(self, rhs: T) -> NullVec<T> {
        vbitand_prim(&self, rhs)
    }
}

impl<T: NumElem> vstd::std_specs::ops::AddSpecImpl<Nullable<T>> for NullVec<T> {
    open spec fn obeys_add_spec() -> bool {
        false
    }

    open spec fn add_req(self, rhs: Nullable<T>) -> bool {
        (match rhs {
            Nullable::Value(vv) => forall|i: int|
                0 <= i < self.vals().len() ==> T::add_req(#[trigger] self.vals()[i], vv.model()),
            Nullable::Null => true,
        })
    }

    open spec fn add_spec(self, rhs: Nullable<T>) -> NullVec<T> {
        self
    }
}

impl<T: NumElem> core::ops::Add<Nullable<T>> for NullVec<T> {
    type Output = NullVec<T>;

    fn add(self, rhs: Nullable<T>) -> NullVec<T> {
        vadd_nullable(&self, rhs)
    }
}

impl<'a, T: NumElem> vstd::std_specs::ops::AddSpecImpl<&'a Nullable<T>> for NullVec<T> {
    open spec fn obeys_add_spec() -> bool {
        false
    }

    open spec fn add_req(self, rhs: &'a Nullable<T>) -> bool {
        (match (*rhs) {
            Nullable::Value(vv) => forall|i: int|
                0 <= i < self.vals().len() ==> T::add_req(#[trigger] self.vals()[i], vv.model()),
            Nullable::Null => true,
        })
    }

    open spec fn add_spec(self, rhs: &'a Nullable<T>) -> NullVec<T> {
        self
    }
}

impl<'a, T: NumElem> core::ops::Add<&'a Nullable<T>> for NullVec<T> {
    type Output = NullVec<T>;

    fn add(self, rhs: &'a Nullable<T>) -> NullVec<T> {
        vadd_nullable(&self, rhs.dup())
    }
}

impl<'b, T: NumElem> vstd::std_specs::ops::AddSpecImpl<Nullable<T>> for &'b NullVec<T> {
    open spec fn obeys_add_spec() -> bool {
        false
    }

    open spec fn add_req(self, rhs: Nullable<T>) -> bool {
        (match rhs {
            Nullable::Value(vv) => forall|i: int|
                0 <= i < (*self).vals().len() ==> T::add_req(#[trigger] (*self).vals()[i], vv.model()),
            Nullable::Null => true,
        })
    }

    open spec fn add_spec(self, rhs: Nullable<T>) -> NullVec<T> {
        *self
    }
}

impl<'b, T: NumElem> core::ops::Add<Nullable<T>> for &'b NullVec<T> {
    type Output = NullVec<T>;

    fn add(self, rhs: Nullable<T>) -> NullVec<T> {
        vadd_nullable(self, rhs)
    }
}

impl<'a, 'b, T: NumElem> vstd::std_specs::ops::AddSpecImpl<&'a Nullable<T>> for &'b NullVec<T> {
    open spec fn obeys_add_spec() -> bool {
        false
    }

    open spec fn add_req(self, rhs: &'a Nullable<T>) -> bool {
        (match (*rhs) {
            Nullable::Value(vv) => forall|i: int|
                0 <= i < (*self).vals().len() ==> T::add_req(#[trigger] (*self).vals()[i], vv.model()),
            Nullable::Null => true,
        })
    }

    open spec fn add_spec(self, rhs: &'a Nullable<T>) -> NullVec<T> {
        *self
    }
}

impl<'a, 'b, T: NumElem> core::ops::Add<&'a Nullable<T>> for &'b NullVec<T> {
    type Output = NullVec<T>;

    fn add(self, rhs: &'a Nullable<T>) -> NullVec<T> {
        vadd_nullable(self, rhs.dup())
    }
}

impl<T: BitElem> vstd::std_specs::ops::BitAndSpecImpl<Nullable<T>> for NullVec<T> {
    open spec fn obeys_bitand_spec() -> bool {
        false
    }

    open spec fn bitand_req(self, rhs: Nullable<T>) -> bool {
        true
    }

    open spec fn bitand_spec(self, rhs: Nullable<T>) -> NullVec<T> {
        self
    }
}

impl<T: BitElem> core::ops::BitAnd<Nullable<T>> for NullVec<T> {
    type Output = NullVec<T>;

    fn bitand(self, rhs: Nullable<T>) -> NullVec<T> {
        vbitand_nullable(&self, rhs)
    }
}

impl<T: NumElem> vstd::std_specs::ops::AddSpecImpl<Vec<T>> for NullVec<T> {
    open spec fn obeys_add_spec() -> bool {
        false
    }

    open spec fn add_req(self, rhs: Vec<T>) -> bool {
        rhs@.len() == self.vals().len() && (forall|i: int|
            0 <= i < self.vals().len() ==> T::add_req(
                #[trigger] self.vals()[i],
                crate::traits::models(rhs@)[i],
            ))
    }

    open spec fn add_spec(self, rhs: Vec<T>) -> NullVec<T> {
        self
    }
}

impl<T: NumElem> core::ops::Add<Vec<T>> for NullVec<T> {
    type Output = NullVec<T>;

    fn add(self, rhs: Vec<T>) -> NullVec<T> {
        vadd_vec(&self, &rhs)
    }
}

impl<'a, T: NumElem> vstd::std_specs::ops::AddSpecImpl<&'a Vec<T>> for NullVec<T> {
    open spec fn obeys_add_spec() -> bool {
        false
    }

    open spec fn add_req(self, rhs: &'a Vec<T>) -> bool {
        rhs@.len() == self.vals().len() && (forall|i: int|
            0 <= i < self.vals().len() ==> T::add_req(
                #[trigger] self.vals()[i],
                crate::traits::models(rhs@)[i],
            ))
    }

    open spec fn add_spec(self, rhs: &'a Vec<T>) -> NullVec<T> {
        self
    }
}

impl<'a, T: NumElem> core::ops::Add<&'a Vec<T>> for NullVec<T> {
    type Output = NullVec<T>;

    fn add(self, rhs: &'a Vec<T>) -> NullVec<T> {
        vadd_vec(&self, rhs)
    }
}

impl<'b, T: NumElem> vstd::std_specs::ops::AddSpecImpl<Vec<T>> for &'b NullVec<T> {
    open spec fn obeys_add_spec() -> bool {
        false
    }

    open spec fn add_req(self, rhs: Vec<T>) -> bool {
        rhs@.len() == (*self).vals().len() && (forall|i: int|
            0 <= i < (*self).vals().len() ==> T::add_req(
                #[trigger] (*self).vals()[i],
                crate::traits::models(rhs@)[i],
            ))
    }

    open spec fn add_spec(self, rhs: Vec<T>) -> NullVec<T> {
        *self
    }
}

impl<'b, T: NumElem> core::ops::Add<Vec<T>> for &'b NullVec<T> {
    type Output = NullVec<T>;

    fn add(self, rhs: Vec<T>) -> NullVec<T> {
        vadd_vec(self, &rhs)
    }
}

impl<'a, 'b, T: NumElem> vstd::std_specs::ops::AddSpecImpl<&'a Vec<T>> for &'b NullVec<T> {
    open spec fn obeys_add_spec() -> bool {
        false
    }

    open spec fn add_req(self, rhs: &'a Vec<T>) -> bool {
        rhs@.len() == (*self).vals().len() && (forall|i: int|
            0 <= i < (*self).vals().len() ==> T::add_req(
                #[trigger] (*self).vals()[i],
                crate::traits::models(rhs@)[i],
            ))
    }

    open spec fn add_spec(self, rhs: &'a Vec<T>) -> NullVec<T> {
        *self
    }
}

impl<'a, 'b, T: NumElem> core::ops::Add<&'a Vec<T>> for &'b NullVec<T> {
    type Output = NullVec<T>;

    fn add(self, rhs: &'a Vec<T>) -> NullVec<T> {
        vadd_vec(self, rhs)
    }
}

impl<T: BitElem> vstd::std_specs::ops::BitAndSpecImpl<Vec<T>> for NullVec<T> {
    open spec fn obeys_bitand_spec() -> bool {
        false
    }

    open spec fn bitand_req(self, rhs: Vec<T>) -> bool {
        rhs@.len() == self.vals().len()
    }

    open spec fn bitand_spec(self, rhs: Vec<T>) -> NullVec<T> {
        self
    }
}

impl<T: BitElem> core::ops::BitAnd<Vec<T>> for NullVec<T> {
    type Output = NullVec<T>;

    fn bitand(self, rhs: Vec<T>) -> NullVec<T> {
        vbitand_vec(&self, &rhs)
    }
}

impl<T: NumElem> vstd::std_specs::ops::AddSpecImpl<NullVec<T>> for NullVec<T> {
    open spec fn obeys_add_spec() -> bool {
        false
    }

    open spec fn add_req(self, rhs: NullVec<T>) -> bool {
        rhs.vals().len() == self.vals().len() && (forall|i: int|
            0 <= i < self.vals().len() ==> T::add_req(#[trigger] self.vals()[i], rhs.vals()[i]))
    }

    open spec fn add_spec(self, rhs: NullVec<T>) -> NullVec<T> {
        self
    }
}

impl<T: NumElem> core::ops::Add<NullVec<T>> for NullVec<T> {
    type Output = NullVec<T>;

    fn add(self, rhs: NullVec<T>) -> NullVec<T> {
        vadd_nv(&self, &rhs)
    }
}

impl<'a, T: NumElem> vstd::std_specs::ops::AddSpecImpl<&'a NullVec<T>> for NullVec<T> {
    open spec fn obeys_add_spec() -> bool {
        false
    }

    open spec fn add_req(self, rhs: &'a NullVec<T>) -> bool {
        rhs.vals().len() == self.vals().len() && (forall|i: int|
            0 <= i < self.vals().len() ==> T::add_req(#[trigger] self.vals()[i], rhs.vals()[i]))
    }

    open spec fn add_spec(self, rhs: &'a NullVec<T>) -> NullVec<T> {
        self
    }
}

impl<'a, T: NumElem> core::ops::Add<&'a NullVec<T>> for NullVec<T> {
    type Output = NullVec<T>;

    fn add(self, rhs: &'a NullVec<T>) -> NullVec<T> {
        vadd_nv(&self, rhs)
    }
}

impl<'b, T: NumElem> vstd::std_specs::ops::AddSpecImpl<NullVec<T>> for &'b NullVec<T> {
    open spec fn obeys_add_spec() -> bool {
        false
    }

    open spec fn add_req(self, rhs: NullVec<T>) -> bool {
        rhs.vals().len() == (*self).vals().len() && (forall|i: int|
            0 <= i < (*self).vals().len() ==> T::add_req(#[trigger] (*self).vals()[i], rhs.vals()[i]))
    }

    open spec fn add_spec(self, rhs: NullVec<T>) -> NullVec<T> {
        *self
    }
}

impl<'b, T: NumElem> core::ops::Add<NullVec<T>> for &'b NullVec<T> {
    type Output = NullVec<T>;

    fn add(self, rhs: NullVec<T>) -> NullVec<T> {
        vadd_nv(self, &rhs)
    }
}

impl<'a, 'b, T: NumElem> vstd::std_specs::ops::AddSpecImpl<&'a NullVec<T>> for &'b NullVec<T> {
    open spec fn obeys_add_spec() -> bool {
        false
    }

    open spec fn add_req(self, rhs: &'a NullVec<T>) -> bool {
        rhs.vals().len() == (*self).vals().len() && (forall|i: int|
            0 <= i < (*self).vals().len() ==> T::add_req(#[trigger] (*self).vals()[i], rhs.vals()[i]))
    }

    open spec fn add_spec(self, rhs: &'a NullVec<T>) -> NullVec<T> {
        *self
    }
}

impl<'a, 'b, T: NumElem> core::ops::Add<&'a NullVec<T>> for &'b NullVec<T> {
    type Output = NullVec<T>;

    fn add(self, rhs: &'a NullVec<T>) -> NullVec<T> {
        vadd_nv(self, rhs)
    }
}

impl<T: BitElem> vstd::std_specs::ops::BitAndSpecImpl<NullVec<T>> for NullVec<T> {
    open spec fn obeys_bitand_spec() -> bool {
        false
    }

    open spec fn bitand_req(self, rhs: NullVec<T>) -> bool {
        rhs.vals().len() == self.vals().len()
    }

    open spec fn bitand_spec(self, rhs: NullVec<T>) -> NullVec<T> {
        self
    }
}

impl<T: BitElem> core::ops::BitAnd<NullVec<T>> for NullVec<T> {
    type Output = NullVec<T>;

    fn bitand(self, rhs: NullVec<T>) -> NullVec<T> {
        vbitand_nv(&self, &rhs)
    }
}

} // verus!
