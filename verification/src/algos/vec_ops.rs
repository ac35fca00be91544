use vstd::prelude::*;

verus! {

/// Broadcast and elementwise combinators for plain vectors, internally used
/// for the `NullVec` operations.
///
/// Each binary combine comes in four ownership shapes, differing only in
/// whether the left and right operand is consumed or borrowed; elements are
/// plain copyable values, so every shape applies the same function
/// positionally.
pub struct Elemwise;

impl Elemwise {
    /// Apply `func(values[i], rhs)` at every position, consuming both
    /// operands.
    pub fn broadcast_oo<T: Copy, V: Copy, R, F: Fn(T, V) -> R>(values: Vec<T>, rhs: V, func: F) -> (r: Vec<R>)
        requires
            forall|i: int| 0 <= i < values@.len() ==> call_requires(func, (values@[i], rhs)),
        ensures
            r@.len() == values@.len(),
            forall|i: int| 0 <= i < r@.len() ==> call_ensures(func, (values@[i], rhs), #[trigger] r@[i]),
    {
        Self::broadcast_rr(&values, &rhs, func)
    }

    /// Apply `func(values[i], *rhs)` at every position, consuming the vector
    /// and borrowing the scalar.
    pub fn broadcast_or<T: Copy, V: Copy, R, F: Fn(T, V) -> R>(values: Vec<T>, rhs: &V, func: F) -> (r: Vec<R>)
        requires
            forall|i: int| 0 <= i < values@.len() ==> call_requires(func, (values@[i], *rhs)),
        ensures
            r@.len() == values@.len(),
            forall|i: int| 0 <= i < r@.len() ==> call_ensures(func, (values@[i], *rhs), #[trigger] r@[i]),
    {
        Self::broadcast_rr(&values, rhs, func)
    }

    /// Apply `func(values[i], rhs)` at every position, borrowing the vector
    /// and consuming the scalar.
    pub fn broadcast_ro<T: Copy, V: Copy, R, F: Fn(T, V) -> R>(values: &Vec<T>, rhs: V, func: F) -> (r: Vec<R>)
        requires
            forall|i: int| 0 <= i < values@.len() ==> call_requires(func, (values@[i], rhs)),
        ensures
            r@.len() == values@.len(),
            forall|i: int| 0 <= i < r@.len() ==> call_ensures(func, (values@[i], rhs), #[trigger] r@[i]),
    {
        Self::broadcast_rr(values, &rhs, func)
    }

    /// Apply `func(values[i], *rhs)` at every position, borrowing both
    /// operands.
    pub fn broadcast_rr<T: Copy, V: Copy, R, F: Fn(T, V) -> R>(values: &Vec<T>, rhs: &V, func: F) -> (r: Vec<R>)
        requires
            forall|i: int| 0 <= i < values@.len() ==> call_requires(func, (values@[i], *rhs)),
        ensures
            r@.len() == values@.len(),
            forall|i: int| 0 <= i < r@.len() ==> call_ensures(func, (values@[i], *rhs), #[trigger] r@[i]),
    {
        let mut out: Vec<R> = Vec::new();
        let mut i: usize = 0;
        while i < values.len()
            invariant
                i <= values.len(),
                out@.len() == i,
                forall|j: int| 0 <= j < values@.len() ==> call_requires(func, (values@[j], *rhs)),
                forall|j: int| 0 <= j < i ==> call_ensures(func, (values@[j], *rhs), #[trigger] out@[j]),
            decreases values.len() - i,
        {
            out.push(func(values[i], *rhs));
            i = i + 1;
        }
        out
    }

    /// Apply `func(values[i], rhs[i])` pairwise, consuming both vectors.
    pub fn elemwise_oo<T: Copy, V: Copy, R, F: Fn(T, V) -> R>(values: Vec<T>, rhs: Vec<V>, func: F) -> (r: Vec<R>)
        requires
            values@.len() == rhs@.len(),
            forall|i: int| 0 <= i < values@.len() ==> call_requires(func, (values@[i], rhs@[i])),
        ensures
            r@.len() == values@.len(),
            forall|i: int|
                0 <= i < r@.len() ==> call_ensures(func, (values@[i], rhs@[i]), #[trigger] r@[i]),
    {
        Self::elemwise_rr(&values, &rhs, func)
    }

    /// Apply `func(values[i], rhs[i])` pairwise, consuming the left vector
    /// and borrowing the right one.
    pub fn elemwise_or<T: Copy, V: Copy, R, F: Fn(T, V) -> R>(values: Vec<T>, rhs: &Vec<V>, func: F) -> (r: Vec<R>)
        requires
            values@.len() == rhs@.len(),
            forall|i: int| 0 <= i < values@.len() ==> call_requires(func, (values@[i], rhs@[i])),
        ensures
            r@.len() == values@.len(),
            forall|i: int|
                0 <= i < r@.len() ==> call_ensures(func, (values@[i], rhs@[i]), #[trigger] r@[i]),
    {
        Self::elemwise_rr(&values, rhs, func)
    }

    /// Apply `func(values[i], rhs[i])` pairwise, borrowing the left vector
    /// and consuming the right one.
    pub fn elemwise_ro<T: Copy, V: Copy, R, F: Fn(T, V) -> R>(values: &Vec<T>, rhs: Vec<V>, func: F) -> (r: Vec<R>)
        requires
            values@.len() == rhs@.len(),
            forall|i: int| 0 <= i < values@.len() ==> call_requires(func, (values@[i], rhs@[i])),
        ensures
            r@.len() == values@.len(),
            forall|i: int|
                0 <= i < r@.len() ==> call_ensures(func, (values@[i], rhs@[i]), #[trigger] r@[i]),
    {
        Self::elemwise_rr(values, &rhs, func)
    }

    /// Apply `func(values[i], rhs[i])` pairwise, borrowing both vectors.
    pub fn elemwise_rr<T: Copy, V: Copy, R, F: Fn(T, V) -> R>(values: &Vec<T>, rhs: &Vec<V>, func: F) -> (r: Vec<R>)
        requires
            values@.len() == rhs@.len(),
            forall|i: int| 0 <= i < values@.len() ==> call_requires(func, (values@[i], rhs@[i])),
        ensures
            r@.len() == values@.len(),
            forall|i: int|
                0 <= i < r@.len() ==> call_ensures(func, (values@[i], rhs@[i]), #[trigger] r@[i]),
    {
        let mut out: Vec<R> = Vec::new();
        let mut i: usize = 0;
        while i < values.len()
            invariant
                i <= values.len(),
                out@.len() == i,
                values@.len() == rhs@.len(),
                forall|j: int| 0 <= j < values@.len() ==> call_requires(func, (values@[j], rhs@[j])),
                forall|j: int| 0 <= j < i ==> call_ensures(func, (values@[j], rhs@[j]), #[trigger] out@[j]),
            decreases values.len() - i,
        {
            out.push(func(values[i], rhs[i]));
            i = i + 1;
        }
        out
    }
}

} // verus!
