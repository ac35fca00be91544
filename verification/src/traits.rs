use vstd::prelude::*;

verus! {

/// Basic trait which must be implemented by primitive types stored in
/// `Nullable` and `NullVec`.
///
/// It is the per-kind null-capability descriptor: it says whether "null" can
/// be folded into an in-band value of the kind (true only for float kinds,
/// where `NaN` stands for null), how to recognise such a value, and which
/// placeholder value fills a slot that is logically null.
///
/// Each element kind also fixes a mathematical `Model` (for plain scalars the
/// value itself, for text its character sequence), and every contract of this
/// library speaks of elements through that model.
pub trait NullStorable: Sized + Clone {
    /// The mathematical value of an element, used by all contracts.
    type Model;

    /// The model of this element.
    spec fn model(self) -> Self::Model;

    /// Whether the kind can fold null into an in-band value.
    spec fn can_fold_null() -> bool;

    /// Which models are regarded as null.
    spec fn model_is_null(m: Self::Model) -> bool;

    /// The model of the placeholder value that fills logically null slots.
    spec fn placeholder_model() -> Self::Model;

    /// A kind that cannot fold null has no null value at all.
    proof fn lemma_no_fold_no_null(m: Self::Model)
        ensures
            !Self::can_fold_null() ==> !Self::model_is_null(m),
    ;

    /// The placeholder itself is never regarded as null.
    proof fn lemma_placeholder_not_null()
        ensures
            !Self::model_is_null(Self::placeholder_model()),
    ;

    /// Whether a primitive value of this kind can be `Null`.
    ///
    /// If this is `false`, `is_null` never returns true.
    fn has_primitive_null() -> (r: bool)
        ensures
            r == Self::can_fold_null(),
    ;

    /// Whether the value should be regarded as null. Must be the inverse of
    /// `is_not_null`.
    fn is_null(&self) -> (r: bool)
        ensures
            r == Self::model_is_null(self.model()),
    ;

    /// Whether the value should be regarded as not null. Must be the inverse
    /// of `is_null`.
    fn is_not_null(&self) -> (r: bool)
        ensures
            r == !Self::model_is_null(self.model()),
    ;

    /// The placeholder value used to fill logically null slots.
    fn default_value() -> (r: Self)
        ensures
            r.model() == Self::placeholder_model(),
    ;

    /// A copy of this element with the same model.
    fn dup(&self) -> (r: Self)
        ensures
            r.model() == self.model(),
    ;
}

/// The models of a sequence of elements.
pub open spec fn models<T: NullStorable>(s: Seq<T>) -> Seq<T::Model> {
    s.map_values(|v: T| v.model())
}

/// A model with null folded to the placeholder.
pub open spec fn fold_model<T: NullStorable>(m: T::Model) -> T::Model {
    if T::model_is_null(m) {
        T::placeholder_model()
    } else {
        m
    }
}

/// A sequence of models with every null folded to the placeholder.
pub open spec fn fold_models<T: NullStorable>(ms: Seq<T::Model>) -> Seq<T::Model> {
    ms.map_values(|m: T::Model| fold_model::<T>(m))
}

/// Which positions of a sequence of models are null.
pub open spec fn null_flags<T: NullStorable>(ms: Seq<T::Model>) -> Seq<bool> {
    ms.map_values(|m: T::Model| T::model_is_null(m))
}

/// Whether any position of a sequence of models is null.
pub open spec fn any_null<T: NullStorable>(ms: Seq<T::Model>) -> bool {
    exists|i: int| 0 <= i < ms.len() && T::model_is_null(#[trigger] ms[i])
}

/// The positionwise disjunction of two equally long flag sequences.
pub open spec fn or_flags(a: Seq<bool>, b: Seq<bool>) -> Seq<bool> {
    Seq::new(a.len(), |i: int| a[i] || b[i])
}

/// Whether any flag of a sequence is set.
pub open spec fn any_flag(fs: Seq<bool>) -> bool {
    exists|i: int| 0 <= i < fs.len() && #[trigger] fs[i]
}

/// The positionwise negation of a flag sequence.
pub open spec fn neg_flags(fs: Seq<bool>) -> Seq<bool> {
    fs.map_values(|b: bool| !b)
}

/// A copy of a flag vector with every flag negated.
pub(crate) fn negate_flags(v: &Vec<bool>) -> (r: Vec<bool>)
    ensures
        r@ == neg_flags(v@),
{
    let mut out: Vec<bool> = Vec::new();
    let mut i: usize = 0;
    while i < v.len()
        invariant
            i <= v.len(),
            out@.len() == i,
            forall|j: int| 0 <= j < i ==> out@[j] == !v@[j],
        decreases v.len() - i,
    {
        out.push(!v[i]);
        i = i + 1;
    }
    proof {
        assert(out@ =~= neg_flags(v@));
    }
    out
}

/// The concatenation of two element vectors, models preserved.
pub(crate) fn append_elems<T: NullStorable>(a: &Vec<T>, b: &Vec<T>) -> (r: Vec<T>)
    ensures
        r@.len() == a@.len() + b@.len(),
        models(r@) == models(a@) + models(b@),
{
    let mut out: Vec<T> = dup_elems(a);
    let mut i: usize = 0;
    while i < b.len()
        invariant
            i <= b.len(),
            out@.len() == a@.len() + i,
            models(out@) == models(a@) + models(b@).take(i as int),
        decreases b.len() - i,
    {
        let ghost prev = out@;
        out.push(b[i].dup());
        proof {
            lemma_models_push(prev, out@.last());
            assert(models(prev).push(b@[i as int].model()) =~= models(a@) + models(b@).take(
                i + 1,
            ));
        }
        i = i + 1;
    }
    proof {
        assert(models(a@) + models(b@).take(b@.len() as int) =~= models(a@) + models(b@));
        assert(models(out@).len() == out@.len());
    }
    out
}

/// The concatenation of two flag vectors.
pub(crate) fn append_flags(a: &Vec<bool>, b: &Vec<bool>) -> (r: Vec<bool>)
    ensures
        r@ == a@ + b@,
{
    let mut out: Vec<bool> = dup_flags(a);
    let mut i: usize = 0;
    while i < b.len()
        invariant
            i <= b.len(),
            out@ == a@ + b@.take(i as int),
        decreases b.len() - i,
    {
        out.push(b[i]);
        proof {
            assert((a@ + b@.take(i as int)).push(b@[i as int]) =~= a@ + b@.take(i + 1));
        }
        i = i + 1;
    }
    proof {
        assert(a@ + b@.take(b@.len() as int) =~= a@ + b@);
    }
    out
}

/// How `any_flag` grows along a prefix, one position at a time.
pub proof fn lemma_any_flag_take_step(fs: Seq<bool>, i: int)
    requires
        0 <= i < fs.len(),
    ensures
        any_flag(fs.take(i + 1)) == (any_flag(fs.take(i)) || fs[i]),
{
    let a = fs.take(i);
    let b = fs.take(i + 1);
    if fs[i] {
        assert(b[i]);
    }
    if any_flag(a) {
        let w = choose|w: int| 0 <= w < a.len() && #[trigger] a[w];
        assert(b[w]);
    }
    if any_flag(b) && !fs[i] && !any_flag(a) {
        let w = choose|w: int| 0 <= w < b.len() && #[trigger] b[w];
        assert(a[w]);
    }
}

/// How `any_flag` relates a whole sequence to its full prefix.
pub proof fn lemma_any_flag_take_all(fs: Seq<bool>)
    ensures
        any_flag(fs.take(fs.len() as int)) == any_flag(fs),
{
    assert(fs.take(fs.len() as int) =~= fs);
}

/// How `any_null` grows along a prefix, one position at a time.
pub proof fn lemma_any_null_take_step<T: NullStorable>(ms: Seq<T::Model>, i: int)
    requires
        0 <= i < ms.len(),
    ensures
        any_null::<T>(ms.take(i + 1)) == (any_null::<T>(ms.take(i)) || T::model_is_null(ms[i])),
{
    let a = ms.take(i);
    let b = ms.take(i + 1);
    if T::model_is_null(ms[i]) {
        assert(T::model_is_null(b[i]));
    }
    if any_null::<T>(a) {
        let w = choose|w: int| 0 <= w < a.len() && T::model_is_null(#[trigger] a[w]);
        assert(T::model_is_null(b[w]));
    }
    if any_null::<T>(b) && !T::model_is_null(ms[i]) && !any_null::<T>(a) {
        let w = choose|w: int| 0 <= w < b.len() && T::model_is_null(#[trigger] b[w]);
        assert(T::model_is_null(a[w]));
    }
}

/// Taking models commutes with appending an element.
pub proof fn lemma_models_push<T: NullStorable>(s: Seq<T>, v: T)
    ensures
        models(s.push(v)) == models(s).push(v.model()),
{
    assert(models(s.push(v)) =~= models(s).push(v.model()));
}

/// How folded models grow along a prefix, one position at a time.
pub proof fn lemma_fold_models_take_step<T: NullStorable>(ms: Seq<T::Model>, i: int)
    requires
        0 <= i < ms.len(),
    ensures
        fold_models::<T>(ms.take(i + 1)) == fold_models::<T>(ms.take(i)).push(
            fold_model::<T>(ms[i]),
        ),
{
    assert(fold_models::<T>(ms.take(i + 1)) =~= fold_models::<T>(ms.take(i)).push(
        fold_model::<T>(ms[i]),
    ));
}

/// How null flags grow along a prefix, one position at a time.
pub proof fn lemma_null_flags_take_step<T: NullStorable>(ms: Seq<T::Model>, i: int)
    requires
        0 <= i < ms.len(),
    ensures
        null_flags::<T>(ms.take(i + 1)) == null_flags::<T>(ms.take(i)).push(
            T::model_is_null(ms[i]),
        ),
{
    assert(null_flags::<T>(ms.take(i + 1)) =~= null_flags::<T>(ms.take(i)).push(
        T::model_is_null(ms[i]),
    ));
}

/// Where no model is null, the null flags are all clear.
pub proof fn lemma_no_null_no_flags<T: NullStorable>(ms: Seq<T::Model>)
    requires
        !any_null::<T>(ms),
    ensures
        null_flags::<T>(ms) == Seq::new(ms.len(), |i: int| false),
{
    assert(null_flags::<T>(ms) =~= Seq::new(ms.len(), |i: int| false));
}

/// A sequence of models is null somewhere exactly where its null flags are
/// set somewhere.
pub proof fn lemma_any_null_flags<T: NullStorable>(ms: Seq<T::Model>)
    ensures
        any_flag(null_flags::<T>(ms)) == any_null::<T>(ms),
{
    let fs = null_flags::<T>(ms);
    if any_flag(fs) {
        let w = choose|w: int| 0 <= w < fs.len() && #[trigger] fs[w];
        assert(T::model_is_null(ms[w]));
    }
    if any_null::<T>(ms) {
        let w = choose|w: int| 0 <= w < ms.len() && T::model_is_null(#[trigger] ms[w]);
        assert(fs[w]);
    }
}

/// A copy of a boolean vector.
pub(crate) fn dup_flags(v: &Vec<bool>) -> (r: Vec<bool>)
    ensures
        r@ == v@,
{
    let mut out: Vec<bool> = Vec::new();
    let mut i: usize = 0;
    while i < v.len()
        invariant
            i <= v.len(),
            out@ == v@.take(i as int),
        decreases v.len() - i,
    {
        out.push(v[i]);
        i = i + 1;
        proof {
            assert(out@ =~= v@.take(i as int));
        }
    }
    proof {
        assert(v@.take(v@.len() as int) =~= v@);
    }
    out
}

/// A copy of a vector of elements, with the models preserved.
pub(crate) fn dup_elems<T: NullStorable>(v: &Vec<T>) -> (r: Vec<T>)
    ensures
        r@.len() == v@.len(),
        models(r@) == models(v@),
{
    let mut out: Vec<T> = Vec::new();
    let mut i: usize = 0;
    while i < v.len()
        invariant
            i <= v.len(),
            out@.len() == i,
            models(out@) == models(v@).take(i as int),
        decreases v.len() - i,
    {
        out.push(v[i].dup());
        i = i + 1;
        proof {
            assert(models(out@) =~= models(v@).take(i as int));
        }
    }
    proof {
        assert(models(v@).take(v@.len() as int) =~= models(v@));
    }
    out
}

impl NullStorable for i64 {
    type Model = i64;

    open spec fn model(self) -> i64 {
        self
    }

    open spec fn can_fold_null() -> bool {
        false
    }

    open spec fn model_is_null(m: i64) -> bool {
        false
    }

    open spec fn placeholder_model() -> i64 {
        0
    }

    proof fn lemma_no_fold_no_null(m: i64) {
    }

    proof fn lemma_placeholder_not_null() {
    }

    fn has_primitive_null() -> bool {
        false
    }

    fn is_null(&self) -> bool {
        false
    }

    fn is_not_null(&self) -> bool {
        true
    }

    fn default_value() -> i64 {
        0
    }

    fn dup(&self) -> i64 {
        *self
    }
}

impl NullStorable for i32 {
    type Model = i32;

    open spec fn model(self) -> i32 {
        self
    }

    open spec fn can_fold_null() -> bool {
        false
    }

    open spec fn model_is_null(m: i32) -> bool {
        false
    }

    open spec fn placeholder_model() -> i32 {
        0
    }

    proof fn lemma_no_fold_no_null(m: i32) {
    }

    proof fn lemma_placeholder_not_null() {
    }

    fn has_primitive_null() -> bool {
        false
    }

    fn is_null(&self) -> bool {
        false
    }

    fn is_not_null(&self) -> bool {
        true
    }

    fn default_value() -> i32 {
        0
    }

    fn dup(&self) -> i32 {
        *self
    }
}

impl NullStorable for i16 {
    type Model = i16;

    open spec fn model(self) -> i16 {
        self
    }

    open spec fn can_fold_null() -> bool {
        false
    }

    open spec fn model_is_null(m: i16) -> bool {
        false
    }

    open spec fn placeholder_model() -> i16 {
        0
    }

    proof fn lemma_no_fold_no_null(m: i16) {
    }

    proof fn lemma_placeholder_not_null() {
    }

    fn has_primitive_null() -> bool {
        false
    }

    fn is_null(&self) -> bool {
        false
    }

    fn is_not_null(&self) -> bool {
        true
    }

    fn default_value() -> i16 {
        0
    }

    fn dup(&self) -> i16 {
        *self
    }
}

impl NullStorable for i8 {
    type Model = i8;

    open spec fn model(self) -> i8 {
        self
    }

    open spec fn can_fold_null() -> bool {
        false
    }

    open spec fn model_is_null(m: i8) -> bool {
        false
    }

    open spec fn placeholder_model() -> i8 {
        0
    }

    proof fn lemma_no_fold_no_null(m: i8) {
    }

    proof fn lemma_placeholder_not_null() {
    }

    fn has_primitive_null() -> bool {
        false
    }

    fn is_null(&self) -> bool {
        false
    }

    fn is_not_null(&self) -> bool {
        true
    }

    fn default_value() -> i8 {
        0
    }

    fn dup(&self) -> i8 {
        *self
    }
}

impl NullStorable for isize {
    type Model = isize;

    open spec fn model(self) -> isize {
        self
    }

    open spec fn can_fold_null() -> bool {
        false
    }

    open spec fn model_is_null(m: isize) -> bool {
        false
    }

    open spec fn placeholder_model() -> isize {
        0
    }

    proof fn lemma_no_fold_no_null(m: isize) {
    }

    proof fn lemma_placeholder_not_null() {
    }

    fn has_primitive_null() -> bool {
        false
    }

    fn is_null(&self) -> bool {
        false
    }

    fn is_not_null(&self) -> bool {
        true
    }

    fn default_value() -> isize {
        0
    }

    fn dup(&self) -> isize {
        *self
    }
}

impl NullStorable for u64 {
    type Model = u64;

    open spec fn model(self) -> u64 {
        self
    }

    open spec fn can_fold_null() -> bool {
        false
    }

    open spec fn model_is_null(m: u64) -> bool {
        false
    }

    open spec fn placeholder_model() -> u64 {
        0
    }

    proof fn lemma_no_fold_no_null(m: u64) {
    }

    proof fn lemma_placeholder_not_null() {
    }

    fn has_primitive_null() -> bool {
        false
    }

    fn is_null(&self) -> bool {
        false
    }

    fn is_not_null(&self) -> bool {
        true
    }

    fn default_value() -> u64 {
        0
    }

    fn dup(&self) -> u64 {
        *self
    }
}

impl NullStorable for u32 {
    type Model = u32;

    open spec fn model(self) -> u32 {
        self
    }

    open spec fn can_fold_null() -> bool {
        false
    }

    open spec fn model_is_null(m: u32) -> bool {
        false
    }

    open spec fn placeholder_model() -> u32 {
        0
    }

    proof fn lemma_no_fold_no_null(m: u32) {
    }

    proof fn lemma_placeholder_not_null() {
    }

    fn has_primitive_null() -> bool {
        false
    }

    fn is_null(&self) -> bool {
        false
    }

    fn is_not_null(&self) -> bool {
        true
    }

    fn default_value() -> u32 {
        0
    }

    fn dup(&self) -> u32 {
        *self
    }
}

impl NullStorable for u16 {
    type Model = u16;

    open spec fn model(self) -> u16 {
        self
    }

    open spec fn can_fold_null() -> bool {
        false
    }

    open spec fn model_is_null(m: u16) -> bool {
        false
    }

    open spec fn placeholder_model() -> u16 {
        0
    }

    proof fn lemma_no_fold_no_null(m: u16) {
    }

    proof fn lemma_placeholder_not_null() {
    }

    fn has_primitive_null() -> bool {
        false
    }

    fn is_null(&self) -> bool {
        false
    }

    fn is_not_null(&self) -> bool {
        true
    }

    fn default_value() -> u16 {
        0
    }

    fn dup(&self) -> u16 {
        *self
    }
}

impl NullStorable for u8 {
    type Model = u8;

    open spec fn model(self) -> u8 {
        self
    }

    open spec fn can_fold_null() -> bool {
        false
    }

    open spec fn model_is_null(m: u8) -> bool {
        false
    }

    open spec fn placeholder_model() -> u8 {
        0
    }

    proof fn lemma_no_fold_no_null(m: u8) {
    }

    proof fn lemma_placeholder_not_null() {
    }

    fn has_primitive_null() -> bool {
        false
    }

    fn is_null(&self) -> bool {
        false
    }

    fn is_not_null(&self) -> bool {
        true
    }

    fn default_value() -> u8 {
        0
    }

    fn dup(&self) -> u8 {
        *self
    }
}

impl NullStorable for usize {
    type Model = usize;

    open spec fn model(self) -> usize {
        self
    }

    open spec fn can_fold_null() -> bool {
        false
    }

    open spec fn model_is_null(m: usize) -> bool {
        false
    }

    open spec fn placeholder_model() -> usize {
        0
    }

    proof fn lemma_no_fold_no_null(m: usize) {
    }

    proof fn lemma_placeholder_not_null() {
    }

    fn has_primitive_null() -> bool {
        false
    }

    fn is_null(&self) -> bool {
        false
    }

    fn is_not_null(&self) -> bool {
        true
    }

    fn default_value() -> usize {
        0
    }

    fn dup(&self) -> usize {
        *self
    }
}

impl NullStorable for bool {
    type Model = bool;

    open spec fn model(self) -> bool {
        self
    }

    open spec fn can_fold_null() -> bool {
        false
    }

    open spec fn model_is_null(m: bool) -> bool {
        false
    }

    open spec fn placeholder_model() -> bool {
        false
    }

    proof fn lemma_no_fold_no_null(m: bool) {
    }

    proof fn lemma_placeholder_not_null() {
    }

    fn has_primitive_null() -> bool {
        false
    }

    fn is_null(&self) -> bool {
        false
    }

    fn is_not_null(&self) -> bool {
        true
    }

    fn default_value() -> bool {
        false
    }

    fn dup(&self) -> bool {
        *self
    }
}

impl NullStorable for String {
    type Model = Seq<char>;

    open spec fn model(self) -> Seq<char> {
        self@
    }

    open spec fn can_fold_null() -> bool {
        false
    }

    open spec fn model_is_null(m: Seq<char>) -> bool {
        false
    }

    open spec fn placeholder_model() -> Seq<char> {
        Seq::empty()
    }

    proof fn lemma_no_fold_no_null(m: Seq<char>) {
    }

    proof fn lemma_placeholder_not_null() {
    }

    fn has_primitive_null() -> bool {
        false
    }

    fn is_null(&self) -> bool {
        false
    }

    fn is_not_null(&self) -> bool {
        true
    }

    fn default_value() -> (r: String)
        ensures
            r.model() == Self::placeholder_model(),
    {
        String::new()
    }

    fn dup(&self) -> (r: String)
        ensures
            r.model() == self.model(),
    {
        self.clone()
    }
}

/// Truncating integer division, as the machine division behaves.
pub open spec fn trunc_div_int(x: int, d: int) -> int {
    if x == 0 {
        0
    } else if x > 0 && d > 0 {
        x / d
    } else if x < 0 && d < 0 {
        (x * -1) / (d * -1)
    } else if x < 0 {
        ((x * -1) / d) * -1
    } else {
        (x / (d * -1)) * -1
    }
}

/// Truncating integer remainder, as the machine remainder behaves.
pub open spec fn trunc_rem_int(x: int, d: int) -> int {
    if x == 0 {
        0
    } else if x > 0 && d > 0 {
        x % d
    } else if x < 0 && d < 0 {
        ((x * -1) % (d * -1)) * -1
    } else if x < 0 {
        ((x * -1) % d) * -1
    } else {
        x % (d * -1)
    }
}


/// The truncating quotient and remainder of machine-representable operands
/// stay in range, divisor zero and the most negative value divided by minus
/// one excluded.
pub proof fn lemma_trunc_div_rem_in_range(x: int, d: int, hi: int)
    requires
        hi > 0,
        -(hi + 1) <= x <= hi,
        -(hi + 1) <= d <= hi,
        d != 0,
        !(x == -(hi + 1) && d == -1),
    ensures
        -(hi + 1) <= trunc_div_int(x, d) <= hi,
        -(hi + 1) <= trunc_rem_int(x, d) <= hi,
{
    broadcast use vstd::arithmetic::div_mod::lemma_div_pos_is_pos;
    broadcast use vstd::arithmetic::div_mod::lemma_div_nonincreasing;
    broadcast use vstd::arithmetic::div_mod::lemma_mod_division_less_than_divisor;
    broadcast use vstd::arithmetic::div_mod::lemma_div_basics_1;

    if x != 0 {
        let n = if x < 0 { x * -1 } else { x };
        let dd = if d < 0 { d * -1 } else { d };
        assert(1 <= n <= hi + 1);
        assert(1 <= dd <= hi + 1);
        let q = n / dd;
        let r = n % dd;
        assert(0 <= q <= n);
        assert(0 <= r < dd);
        if x > 0 || !(d < 0) || q <= hi {
        } else {
            // x < 0 and d < 0 and q > hi: only the excluded operands reach it
            assert(q == hi + 1 && n == hi + 1);
            if dd >= 2 {
                vstd::arithmetic::div_mod::lemma_div_is_ordered_by_denominator(n, 2, dd);
                vstd::arithmetic::div_mod::lemma_div_decreases(n, 2);
                assert(false);
            }
            assert(dd == 1);
            assert(q == n / 1 == n);
            assert(false);
        }
    }
}

/// Arithmetic of an element kind: the zero of its fold, its five binary
/// operations with the inputs on which each is defined, and its coercion to a
/// 64-bit float pattern. Integer kinds compute exactly within their range;
/// float kinds defer to the IEEE operations on their bit patterns.
pub trait NumElem: NullStorable + Copy {
    /// The model of the kind's zero.
    spec fn zero_model() -> Self::Model;

    /// On which operands addition is defined (stays in range).
    spec fn add_req(a: Self::Model, b: Self::Model) -> bool;

    /// The model of the sum.
    spec fn add_spec(a: Self::Model, b: Self::Model) -> Self::Model;

    /// On which operands subtraction is defined.
    spec fn sub_req(a: Self::Model, b: Self::Model) -> bool;

    /// The model of the difference.
    spec fn sub_spec(a: Self::Model, b: Self::Model) -> Self::Model;

    /// On which operands multiplication is defined.
    spec fn mul_req(a: Self::Model, b: Self::Model) -> bool;

    /// The model of the product.
    spec fn mul_spec(a: Self::Model, b: Self::Model) -> Self::Model;

    /// On which operands division is defined.
    spec fn div_req(a: Self::Model, b: Self::Model) -> bool;

    /// The model of the quotient.
    spec fn div_spec(a: Self::Model, b: Self::Model) -> Self::Model;

    /// On which operands the remainder is defined.
    spec fn rem_req(a: Self::Model, b: Self::Model) -> bool;

    /// The model of the remainder.
    spec fn rem_spec(a: Self::Model, b: Self::Model) -> Self::Model;

    /// The 64-bit float pattern a value coerces to.
    spec fn bits64_spec(m: Self::Model) -> u64;

    /// The kind's zero.
    fn zero() -> (r: Self)
        ensures
            r.model() == Self::zero_model(),
    ;

    /// The sum of two elements.
    fn add_el(self, rhs: Self) -> (r: Self)
        requires
            Self::add_req(self.model(), rhs.model()),
        ensures
            r.model() == Self::add_spec(self.model(), rhs.model()),
    ;

    /// The difference of two elements.
    fn sub_el(self, rhs: Self) -> (r: Self)
        requires
            Self::sub_req(self.model(), rhs.model()),
        ensures
            r.model() == Self::sub_spec(self.model(), rhs.model()),
    ;

    /// The product of two elements.
    fn mul_el(self, rhs: Self) -> (r: Self)
        requires
            Self::mul_req(self.model(), rhs.model()),
        ensures
            r.model() == Self::mul_spec(self.model(), rhs.model()),
    ;

    /// The quotient of two elements.
    fn div_el(self, rhs: Self) -> (r: Self)
        requires
            Self::div_req(self.model(), rhs.model()),
        ensures
            r.model() == Self::div_spec(self.model(), rhs.model()),
    ;

    /// The remainder of two elements.
    fn rem_el(self, rhs: Self) -> (r: Self)
        requires
            Self::rem_req(self.model(), rhs.model()),
        ensures
            r.model() == Self::rem_spec(self.model(), rhs.model()),
    ;

    /// The element coerced to a 64-bit float pattern.
    fn to_bits64(&self) -> (r: u64)
        ensures
            r == Self::bits64_spec(self.model()),
    ;
}

/// Strict comparison of an element kind, for the running extrema.
pub trait CmpElem: NullStorable + Copy {
    /// Whether one model is strictly below another.
    spec fn lt_spec(a: Self::Model, b: Self::Model) -> bool;

    /// Whether this element is strictly below the other.
    fn lt_el(&self, rhs: &Self) -> (r: bool)
        ensures
            r == Self::lt_spec(self.model(), rhs.model()),
    ;
}

/// The bitwise operations of an element kind; all three are total.
pub trait BitElem: NullStorable + Copy {
    /// The model of the bitwise conjunction.
    spec fn bitand_spec(a: Self::Model, b: Self::Model) -> Self::Model;

    /// The model of the bitwise disjunction.
    spec fn bitor_spec(a: Self::Model, b: Self::Model) -> Self::Model;

    /// The model of the bitwise exclusive disjunction.
    spec fn bitxor_spec(a: Self::Model, b: Self::Model) -> Self::Model;

    /// The bitwise conjunction of two elements.
    fn bitand_el(self, rhs: Self) -> (r: Self)
        ensures
            r.model() == Self::bitand_spec(self.model(), rhs.model()),
    ;

    /// The bitwise disjunction of two elements.
    fn bitor_el(self, rhs: Self) -> (r: Self)
        ensures
            r.model() == Self::bitor_spec(self.model(), rhs.model()),
    ;

    /// The bitwise exclusive disjunction of two elements.
    fn bitxor_el(self, rhs: Self) -> (r: Self)
        ensures
            r.model() == Self::bitxor_spec(self.model(), rhs.model()),
    ;
}

impl NumElem for i64 {
    open spec fn zero_model() -> i64 {
        0
    }

    open spec fn add_req(a: i64, b: i64) -> bool {
        i64::MIN <= a + b <= i64::MAX
    }

    open spec fn add_spec(a: i64, b: i64) -> i64 {
        (a + b) as i64
    }

    open spec fn sub_req(a: i64, b: i64) -> bool {
        i64::MIN <= a - b <= i64::MAX
    }

    open spec fn sub_spec(a: i64, b: i64) -> i64 {
        (a - b) as i64
    }

    open spec fn mul_req(a: i64, b: i64) -> bool {
        i64::MIN <= a * b <= i64::MAX
    }

    open spec fn mul_spec(a: i64, b: i64) -> i64 {
        (a * b) as i64
    }

    open spec fn div_req(a: i64, b: i64) -> bool {
        b != 0 && !(a == i64::MIN && b == -1)
    }

    open spec fn div_spec(a: i64, b: i64) -> i64 {
        trunc_div_int(a as int, b as int) as i64
    }

    open spec fn rem_req(a: i64, b: i64) -> bool {
        b != 0 && !(a == i64::MIN && b == -1)
    }

    open spec fn rem_spec(a: i64, b: i64) -> i64 {
        trunc_rem_int(a as int, b as int) as i64
    }

    open spec fn bits64_spec(m: i64) -> u64 {
        crate::floats::bits64_of_i64(m as i64)
    }

    fn zero() -> i64 {
        0
    }

    fn add_el(self, rhs: i64) -> i64 {
        self + rhs
    }

    fn sub_el(self, rhs: i64) -> i64 {
        self - rhs
    }

    fn mul_el(self, rhs: i64) -> i64 {
        self * rhs
    }

    fn div_el(self, rhs: i64) -> (r: i64)
        ensures
            r == Self::div_spec(self, rhs),
    {
        proof {
            lemma_trunc_div_rem_in_range(self as int, rhs as int, i64::MAX as int);
        }
        match self.checked_div(rhs) {
            Some(v) => v,
            None => 0,  // unreachable: the divisor is not zero and no overflow is possible
        }
    }

    fn rem_el(self, rhs: i64) -> (r: i64)
        ensures
            r == Self::rem_spec(self, rhs),
    {
        proof {
            lemma_trunc_div_rem_in_range(self as int, rhs as int, i64::MAX as int);
        }
        match self.checked_rem(rhs) {
            Some(v) => v,
            None => 0,  // unreachable: the divisor is not zero and no overflow is possible
        }
    }

    fn to_bits64(&self) -> (r: u64)
        ensures
            r == Self::bits64_spec(*self),
    {
        crate::floats::f64_from_i64(*self as i64)
    }
}

impl CmpElem for i64 {
    open spec fn lt_spec(a: i64, b: i64) -> bool {
        a < b
    }

    fn lt_el(&self, rhs: &i64) -> bool {
        *self < *rhs
    }
}

impl BitElem for i64 {
    open spec fn bitand_spec(a: i64, b: i64) -> i64 {
        a & b
    }

    open spec fn bitor_spec(a: i64, b: i64) -> i64 {
        a | b
    }

    open spec fn bitxor_spec(a: i64, b: i64) -> i64 {
        a ^ b
    }

    fn bitand_el(self, rhs: i64) -> i64 {
        self & rhs
    }

    fn bitor_el(self, rhs: i64) -> i64 {
        self | rhs
    }

    fn bitxor_el(self, rhs: i64) -> i64 {
        self ^ rhs
    }
}

impl NumElem for i32 {
    open spec fn zero_model() -> i32 {
        0
    }

    open spec fn add_req(a: i32, b: i32) -> bool {
        i32::MIN <= a + b <= i32::MAX
    }

    open spec fn add_spec(a: i32, b: i32) -> i32 {
        (a + b) as i32
    }

    open spec fn sub_req(a: i32, b: i32) -> bool {
        i32::MIN <= a - b <= i32::MAX
    }

    open spec fn sub_spec(a: i32, b: i32) -> i32 {
        (a - b) as i32
    }

    open spec fn mul_req(a: i32, b: i32) -> bool {
        i32::MIN <= a * b <= i32::MAX
    }

    open spec fn mul_spec(a: i32, b: i32) -> i32 {
        (a * b) as i32
    }

    open spec fn div_req(a: i32, b: i32) -> bool {
        b != 0 && !(a == i32::MIN && b == -1)
    }

    open spec fn div_spec(a: i32, b: i32) -> i32 {
        trunc_div_int(a as int, b as int) as i32
    }

    open spec fn rem_req(a: i32, b: i32) -> bool {
        b != 0 && !(a == i32::MIN && b == -1)
    }

    open spec fn rem_spec(a: i32, b: i32) -> i32 {
        trunc_rem_int(a as int, b as int) as i32
    }

    open spec fn bits64_spec(m: i32) -> u64 {
        crate::floats::bits64_of_i64(m as i64)
    }

    fn zero() -> i32 {
        0
    }

    fn add_el(self, rhs: i32) -> i32 {
        self + rhs
    }

    fn sub_el(self, rhs: i32) -> i32 {
        self - rhs
    }

    fn mul_el(self, rhs: i32) -> i32 {
        self * rhs
    }

    fn div_el(self, rhs: i32) -> (r: i32)
        ensures
            r == Self::div_spec(self, rhs),
    {
        proof {
            lemma_trunc_div_rem_in_range(self as int, rhs as int, i32::MAX as int);
        }
        match self.checked_div(rhs) {
            Some(v) => v,
            None => 0,  // unreachable: the divisor is not zero and no overflow is possible
        }
    }

    fn rem_el(self, rhs: i32) -> (r: i32)
        ensures
            r == Self::rem_spec(self, rhs),
    {
        proof {
            lemma_trunc_div_rem_in_range(self as int, rhs as int, i32::MAX as int);
        }
        match self.checked_rem(rhs) {
            Some(v) => v,
            None => 0,  // unreachable: the divisor is not zero and no overflow is possible
        }
    }

    fn to_bits64(&self) -> (r: u64)
        ensures
            r == Self::bits64_spec(*self),
    {
        crate::floats::f64_from_i64(*self as i64)
    }
}

impl CmpElem for i32 {
    open spec fn lt_spec(a: i32, b: i32) -> bool {
        a < b
    }

    fn lt_el(&self, rhs: &i32) -> bool {
        *self < *rhs
    }
}

impl BitElem for i32 {
    open spec fn bitand_spec(a: i32, b: i32) -> i32 {
        a & b
    }

    open spec fn bitor_spec(a: i32, b: i32) -> i32 {
        a | b
    }

    open spec fn bitxor_spec(a: i32, b: i32) -> i32 {
        a ^ b
    }

    fn bitand_el(self, rhs: i32) -> i32 {
        self & rhs
    }

    fn bitor_el(self, rhs: i32) -> i32 {
        self | rhs
    }

    fn bitxor_el(self, rhs: i32) -> i32 {
        self ^ rhs
    }
}

impl NumElem for i16 {
    open spec fn zero_model() -> i16 {
        0
    }

    open spec fn add_req(a: i16, b: i16) -> bool {
        i16::MIN <= a + b <= i16::MAX
    }

    open spec fn add_spec(a: i16, b: i16) -> i16 {
        (a + b) as i16
    }

    open spec fn sub_req(a: i16, b: i16) -> bool {
        i16::MIN <= a - b <= i16::MAX
    }

    open spec fn sub_spec(a: i16, b: i16) -> i16 {
        (a - b) as i16
    }

    open spec fn mul_req(a: i16, b: i16) -> bool {
        i16::MIN <= a * b <= i16::MAX
    }

    open spec fn mul_spec(a: i16, b: i16) -> i16 {
        (a * b) as i16
    }

    open spec fn div_req(a: i16, b: i16) -> bool {
        b != 0 && !(a == i16::MIN && b == -1)
    }

    open spec fn div_spec(a: i16, b: i16) -> i16 {
        trunc_div_int(a as int, b as int) as i16
    }

    open spec fn rem_req(a: i16, b: i16) -> bool {
        b != 0 && !(a == i16::MIN && b == -1)
    }

    open spec fn rem_spec(a: i16, b: i16) -> i16 {
        trunc_rem_int(a as int, b as int) as i16
    }

    open spec fn bits64_spec(m: i16) -> u64 {
        crate::floats::bits64_of_i64(m as i64)
    }

    fn zero() -> i16 {
        0
    }

    fn add_el(self, rhs: i16) -> i16 {
        self + rhs
    }

    fn sub_el(self, rhs: i16) -> i16 {
        self - rhs
    }

    fn mul_el(self, rhs: i16) -> i16 {
        self * rhs
    }

    fn div_el(self, rhs: i16) -> (r: i16)
        ensures
            r == Self::div_spec(self, rhs),
    {
        proof {
            lemma_trunc_div_rem_in_range(self as int, rhs as int, i16::MAX as int);
        }
        match self.checked_div(rhs) {
            Some(v) => v,
            None => 0,  // unreachable: the divisor is not zero and no overflow is possible
        }
    }

    fn rem_el(self, rhs: i16) -> (r: i16)
        ensures
            r == Self::rem_spec(self, rhs),
    {
        proof {
            lemma_trunc_div_rem_in_range(self as int, rhs as int, i16::MAX as int);
        }
        match self.checked_rem(rhs) {
            Some(v) => v,
            None => 0,  // unreachable: the divisor is not zero and no overflow is possible
        }
    }

    fn to_bits64(&self) -> (r: u64)
        ensures
            r == Self::bits64_spec(*self),
    {
        crate::floats::f64_from_i64(*self as i64)
    }
}

impl CmpElem for i16 {
    open spec fn lt_spec(a: i16, b: i16) -> bool {
        a < b
    }

    fn lt_el(&self, rhs: &i16) -> bool {
        *self < *rhs
    }
}

impl BitElem for i16 {
    open spec fn bitand_spec(a: i16, b: i16) -> i16 {
        a & b
    }

    open spec fn bitor_spec(a: i16, b: i16) -> i16 {
        a | b
    }

    open spec fn bitxor_spec(a: i16, b: i16) -> i16 {
        a ^ b
    }

    fn bitand_el(self, rhs: i16) -> i16 {
        self & rhs
    }

    fn bitor_el(self, rhs: i16) -> i16 {
        self | rhs
    }

    fn bitxor_el(self, rhs: i16) -> i16 {
        self ^ rhs
    }
}

impl NumElem for i8 {
    open spec fn zero_model() -> i8 {
        0
    }

    open spec fn add_req(a: i8, b: i8) -> bool {
        i8::MIN <= a + b <= i8::MAX
    }

    open spec fn add_spec(a: i8, b: i8) -> i8 {
        (a + b) as i8
    }

    open spec fn sub_req(a: i8, b: i8) -> bool {
        i8::MIN <= a - b <= i8::MAX
    }

    open spec fn sub_spec(a: i8, b: i8) -> i8 {
        (a - b) as i8
    }

    open spec fn mul_req(a: i8, b: i8) -> bool {
        i8::MIN <= a * b <= i8::MAX
    }

    open spec fn mul_spec(a: i8, b: i8) -> i8 {
        (a * b) as i8
    }

    open spec fn div_req(a: i8, b: i8) -> bool {
        b != 0 && !(a == i8::MIN && b == -1)
    }

    open spec fn div_spec(a: i8, b: i8) -> i8 {
        trunc_div_int(a as int, b as int) as i8
    }

    open spec fn rem_req(a: i8, b: i8) -> bool {
        b != 0 && !(a == i8::MIN && b == -1)
    }

    open spec fn rem_spec(a: i8, b: i8) -> i8 {
        trunc_rem_int(a as int, b as int) as i8
    }

    open spec fn bits64_spec(m: i8) -> u64 {
        crate::floats::bits64_of_i64(m as i64)
    }

    fn zero() -> i8 {
        0
    }

    fn add_el(self, rhs: i8) -> i8 {
        self + rhs
    }

    fn sub_el(self, rhs: i8) -> i8 {
        self - rhs
    }

    fn mul_el(self, rhs: i8) -> i8 {
        self * rhs
    }

    fn div_el(self, rhs: i8) -> (r: i8)
        ensures
            r == Self::div_spec(self, rhs),
    {
        proof {
            lemma_trunc_div_rem_in_range(self as int, rhs as int, i8::MAX as int);
        }
        match self.checked_div(rhs) {
            Some(v) => v,
            None => 0,  // unreachable: the divisor is not zero and no overflow is possible
        }
    }

    fn rem_el(self, rhs: i8) -> (r: i8)
        ensures
            r == Self::rem_spec(self, rhs),
    {
        proof {
            lemma_trunc_div_rem_in_range(self as int, rhs as int, i8::MAX as int);
        }
        match self.checked_rem(rhs) {
            Some(v) => v,
            None => 0,  // unreachable: the divisor is not zero and no overflow is possible
        }
    }

    fn to_bits64(&self) -> (r: u64)
        ensures
            r == Self::bits64_spec(*self),
    {
        crate::floats::f64_from_i64(*self as i64)
    }
}

impl CmpElem for i8 {
    open spec fn lt_spec(a: i8, b: i8) -> bool {
        a < b
    }

    fn lt_el(&self, rhs: &i8) -> bool {
        *self < *rhs
    }
}

impl BitElem for i8 {
    open spec fn bitand_spec(a: i8, b: i8) -> i8 {
        a & b
    }

    open spec fn bitor_spec(a: i8, b: i8) -> i8 {
        a | b
    }

    open spec fn bitxor_spec(a: i8, b: i8) -> i8 {
        a ^ b
    }

    fn bitand_el(self, rhs: i8) -> i8 {
        self & rhs
    }

    fn bitor_el(self, rhs: i8) -> i8 {
        self | rhs
    }

    fn bitxor_el(self, rhs: i8) -> i8 {
        self ^ rhs
    }
}

impl NumElem for isize {
    open spec fn zero_model() -> isize {
        0
    }

    open spec fn add_req(a: isize, b: isize) -> bool {
        isize::MIN <= a + b <= isize::MAX
    }

    open spec fn add_spec(a: isize, b: isize) -> isize {
        (a + b) as isize
    }

    open spec fn sub_req(a: isize, b: isize) -> bool {
        isize::MIN <= a - b <= isize::MAX
    }

    open spec fn sub_spec(a: isize, b: isize) -> isize {
        (a - b) as isize
    }

    open spec fn mul_req(a: isize, b: isize) -> bool {
        isize::MIN <= a * b <= isize::MAX
    }

    open spec fn mul_spec(a: isize, b: isize) -> isize {
        (a * b) as isize
    }

    open spec fn div_req(a: isize, b: isize) -> bool {
        b != 0 && !(a == isize::MIN && b == -1)
    }

    open spec fn div_spec(a: isize, b: isize) -> isize {
        trunc_div_int(a as int, b as int) as isize
    }

    open spec fn rem_req(a: isize, b: isize) -> bool {
        b != 0 && !(a == isize::MIN && b == -1)
    }

    open spec fn rem_spec(a: isize, b: isize) -> isize {
        trunc_rem_int(a as int, b as int) as isize
    }

    open spec fn bits64_spec(m: isize) -> u64 {
        crate::floats::bits64_of_i64(m as i64)
    }

    fn zero() -> isize {
        0
    }

    fn add_el(self, rhs: isize) -> isize {
        self + rhs
    }

    fn sub_el(self, rhs: isize) -> isize {
        self - rhs
    }

    fn mul_el(self, rhs: isize) -> isize {
        self * rhs
    }

    fn div_el(self, rhs: isize) -> (r: isize)
        ensures
            r == Self::div_spec(self, rhs),
    {
        proof {
            lemma_trunc_div_rem_in_range(self as int, rhs as int, isize::MAX as int);
        }
        match self.checked_div(rhs) {
            Some(v) => v,
            None => 0,  // unreachable: the divisor is not zero and no overflow is possible
        }
    }

    fn rem_el(self, rhs: isize) -> (r: isize)
        ensures
            r == Self::rem_spec(self, rhs),
    {
        proof {
            lemma_trunc_div_rem_in_range(self as int, rhs as int, isize::MAX as int);
        }
        match self.checked_rem(rhs) {
            Some(v) => v,
            None => 0,  // unreachable: the divisor is not zero and no overflow is possible
        }
    }

    fn to_bits64(&self) -> (r: u64)
        ensures
            r == Self::bits64_spec(*self),
    {
        crate::floats::f64_from_i64(*self as i64)
    }
}

impl CmpElem for isize {
    open spec fn lt_spec(a: isize, b: isize) -> bool {
        a < b
    }

    fn lt_el(&self, rhs: &isize) -> bool {
        *self < *rhs
    }
}

impl BitElem for isize {
    open spec fn bitand_spec(a: isize, b: isize) -> isize {
        a & b
    }

    open spec fn bitor_spec(a: isize, b: isize) -> isize {
        a | b
    }

    open spec fn bitxor_spec(a: isize, b: isize) -> isize {
        a ^ b
    }

    fn bitand_el(self, rhs: isize) -> isize {
        self & rhs
    }

    fn bitor_el(self, rhs: isize) -> isize {
        self | rhs
    }

    fn bitxor_el(self, rhs: isize) -> isize {
        self ^ rhs
    }
}

impl NumElem for u64 {
    open spec fn zero_model() -> u64 {
        0
    }

    open spec fn add_req(a: u64, b: u64) -> bool {
        u64::MIN <= a + b <= u64::MAX
    }

    open spec fn add_spec(a: u64, b: u64) -> u64 {
        (a + b) as u64
    }

    open spec fn sub_req(a: u64, b: u64) -> bool {
        u64::MIN <= a - b <= u64::MAX
    }

    open spec fn sub_spec(a: u64, b: u64) -> u64 {
        (a - b) as u64
    }

    open spec fn mul_req(a: u64, b: u64) -> bool {
        u64::MIN <= a * b <= u64::MAX
    }

    open spec fn mul_spec(a: u64, b: u64) -> u64 {
        (a * b) as u64
    }

    open spec fn div_req(a: u64, b: u64) -> bool {
        b != 0
    }

    open spec fn div_spec(a: u64, b: u64) -> u64 {
        a / b
    }

    open spec fn rem_req(a: u64, b: u64) -> bool {
        b != 0
    }

    open spec fn rem_spec(a: u64, b: u64) -> u64 {
        a % b
    }

    open spec fn bits64_spec(m: u64) -> u64 {
        crate::floats::bits64_of_u64(m as u64)
    }

    fn zero() -> u64 {
        0
    }

    fn add_el(self, rhs: u64) -> u64 {
        self + rhs
    }

    fn sub_el(self, rhs: u64) -> u64 {
        self - rhs
    }

    fn mul_el(self, rhs: u64) -> u64 {
        self * rhs
    }

    fn div_el(self, rhs: u64) -> (r: u64)
        ensures
            r == Self::div_spec(self, rhs),
    {
        self / rhs
    }

    fn rem_el(self, rhs: u64) -> (r: u64)
        ensures
            r == Self::rem_spec(self, rhs),
    {
        self % rhs
    }

    fn to_bits64(&self) -> (r: u64)
        ensures
            r == Self::bits64_spec(*self),
    {
        crate::floats::f64_from_u64(*self as u64)
    }
}

impl CmpElem for u64 {
    open spec fn lt_spec(a: u64, b: u64) -> bool {
        a < b
    }

    fn lt_el(&self, rhs: &u64) -> bool {
        *self < *rhs
    }
}

impl BitElem for u64 {
    open spec fn bitand_spec(a: u64, b: u64) -> u64 {
        a & b
    }

    open spec fn bitor_spec(a: u64, b: u64) -> u64 {
        a | b
    }

    open spec fn bitxor_spec(a: u64, b: u64) -> u64 {
        a ^ b
    }

    fn bitand_el(self, rhs: u64) -> u64 {
        self & rhs
    }

    fn bitor_el(self, rhs: u64) -> u64 {
        self | rhs
    }

    fn bitxor_el(self, rhs: u64) -> u64 {
        self ^ rhs
    }
}

impl NumElem for u32 {
    open spec fn zero_model() -> u32 {
        0
    }

    open spec fn add_req(a: u32, b: u32) -> bool {
        u32::MIN <= a + b <= u32::MAX
    }

    open spec fn add_spec(a: u32, b: u32) -> u32 {
        (a + b) as u32
    }

    open spec fn sub_req(a: u32, b: u32) -> bool {
        u32::MIN <= a - b <= u32::MAX
    }

    open spec fn sub_spec(a: u32, b: u32) -> u32 {
        (a - b) as u32
    }

    open spec fn mul_req(a: u32, b: u32) -> bool {
        u32::MIN <= a * b <= u32::MAX
    }

    open spec fn mul_spec(a: u32, b: u32) -> u32 {
        (a * b) as u32
    }

    open spec fn div_req(a: u32, b: u32) -> bool {
        b != 0
    }

    open spec fn div_spec(a: u32, b: u32) -> u32 {
        a / b
    }

    open spec fn rem_req(a: u32, b: u32) -> bool {
        b != 0
    }

    open spec fn rem_spec(a: u32, b: u32) -> u32 {
        a % b
    }

    open spec fn bits64_spec(m: u32) -> u64 {
        crate::floats::bits64_of_u64(m as u64)
    }

    fn zero() -> u32 {
        0
    }

    fn add_el(self, rhs: u32) -> u32 {
        self + rhs
    }

    fn sub_el(self, rhs: u32) -> u32 {
        self - rhs
    }

    fn mul_el(self, rhs: u32) -> u32 {
        self * rhs
    }

    fn div_el(self, rhs: u32) -> (r: u32)
        ensures
            r == Self::div_spec(self, rhs),
    {
        self / rhs
    }

    fn rem_el(self, rhs: u32) -> (r: u32)
        ensures
            r == Self::rem_spec(self, rhs),
    {
        self % rhs
    }

    fn to_bits64(&self) -> (r: u64)
        ensures
            r == Self::bits64_spec(*self),
    {
        crate::floats::f64_from_u64(*self as u64)
    }
}

impl CmpElem for u32 {
    open spec fn lt_spec(a: u32, b: u32) -> bool {
        a < b
    }

    fn lt_el(&self, rhs: &u32) -> bool {
        *self < *rhs
    }
}

impl BitElem for u32 {
    open spec fn bitand_spec(a: u32, b: u32) -> u32 {
        a & b
    }

    open spec fn bitor_spec(a: u32, b: u32) -> u32 {
        a | b
    }

    open spec fn bitxor_spec(a: u32, b: u32) -> u32 {
        a ^ b
    }

    fn bitand_el(self, rhs: u32) -> u32 {
        self & rhs
    }

    fn bitor_el(self, rhs: u32) -> u32 {
        self | rhs
    }

    fn bitxor_el(self, rhs: u32) -> u32 {
        self ^ rhs
    }
}

impl NumElem for u16 {
    open spec fn zero_model() -> u16 {
        0
    }

    open spec fn add_req(a: u16, b: u16) -> bool {
        u16::MIN <= a + b <= u16::MAX
    }

    open spec fn add_spec(a: u16, b: u16) -> u16 {
        (a + b) as u16
    }

    open spec fn sub_req(a: u16, b: u16) -> bool {
        u16::MIN <= a - b <= u16::MAX
    }

    open spec fn sub_spec(a: u16, b: u16) -> u16 {
        (a - b) as u16
    }

    open spec fn mul_req(a: u16, b: u16) -> bool {
        u16::MIN <= a * b <= u16::MAX
    }

    open spec fn mul_spec(a: u16, b: u16) -> u16 {
        (a * b) as u16
    }

    open spec fn div_req(a: u16, b: u16) -> bool {
        b != 0
    }

    open spec fn div_spec(a: u16, b: u16) -> u16 {
        a / b
    }

    open spec fn rem_req(a: u16, b: u16) -> bool {
        b != 0
    }

    open spec fn rem_spec(a: u16, b: u16) -> u16 {
        a % b
    }

    open spec fn bits64_spec(m: u16) -> u64 {
        crate::floats::bits64_of_u64(m as u64)
    }

    fn zero() -> u16 {
        0
    }

    fn add_el(self, rhs: u16) -> u16 {
        self + rhs
    }

    fn sub_el(self, rhs: u16) -> u16 {
        self - rhs
    }

    fn mul_el(self, rhs: u16) -> u16 {
        self * rhs
    }

    fn div_el(self, rhs: u16) -> (r: u16)
        ensures
            r == Self::div_spec(self, rhs),
    {
        self / rhs
    }

    fn rem_el(self, rhs: u16) -> (r: u16)
        ensures
            r == Self::rem_spec(self, rhs),
    {
        self % rhs
    }

    fn to_bits64(&self) -> (r: u64)
        ensures
            r == Self::bits64_spec(*self),
    {
        crate::floats::f64_from_u64(*self as u64)
    }
}

impl CmpElem for u16 {
    open spec fn lt_spec(a: u16, b: u16) -> bool {
        a < b
    }

    fn lt_el(&self, rhs: &u16) -> bool {
        *self < *rhs
    }
}

impl BitElem for u16 {
    open spec fn bitand_spec(a: u16, b: u16) -> u16 {
        a & b
    }

    open spec fn bitor_spec(a: u16, b: u16) -> u16 {
        a | b
    }

    open spec fn bitxor_spec(a: u16, b: u16) -> u16 {
        a ^ b
    }

    fn bitand_el(self, rhs: u16) -> u16 {
        self & rhs
    }

    fn bitor_el(self, rhs: u16) -> u16 {
        self | rhs
    }

    fn bitxor_el(self, rhs: u16) -> u16 {
        self ^ rhs
    }
}

impl NumElem for u8 {
    open spec fn zero_model() -> u8 {
        0
    }

    open spec fn add_req(a: u8, b: u8) -> bool {
        u8::MIN <= a + b <= u8::MAX
    }

    open spec fn add_spec(a: u8, b: u8) -> u8 {
        (a + b) as u8
    }

    open spec fn sub_req(a: u8, b: u8) -> bool {
        u8::MIN <= a - b <= u8::MAX
    }

    open spec fn sub_spec(a: u8, b: u8) -> u8 {
        (a - b) as u8
    }

    open spec fn mul_req(a: u8, b: u8) -> bool {
        u8::MIN <= a * b <= u8::MAX
    }

    open spec fn mul_spec(a: u8, b: u8) -> u8 {
        (a * b) as u8
    }

    open spec fn div_req(a: u8, b: u8) -> bool {
        b != 0
    }

    open spec fn div_spec(a: u8, b: u8) -> u8 {
        a / b
    }

    open spec fn rem_req(a: u8, b: u8) -> bool {
        b != 0
    }

    open spec fn rem_spec(a: u8, b: u8) -> u8 {
        a % b
    }

    open spec fn bits64_spec(m: u8) -> u64 {
        crate::floats::bits64_of_u64(m as u64)
    }

    fn zero() -> u8 {
        0
    }

    fn add_el(self, rhs: u8) -> u8 {
        self + rhs
    }

    fn sub_el(self, rhs: u8) -> u8 {
        self - rhs
    }

    fn mul_el(self, rhs: u8) -> u8 {
        self * rhs
    }

    fn div_el(self, rhs: u8) -> (r: u8)
        ensures
            r == Self::div_spec(self, rhs),
    {
        self / rhs
    }

    fn rem_el(self, rhs: u8) -> (r: u8)
        ensures
            r == Self::rem_spec(self, rhs),
    {
        self % rhs
    }

    fn to_bits64(&self) -> (r: u64)
        ensures
            r == Self::bits64_spec(*self),
    {
        crate::floats::f64_from_u64(*self as u64)
    }
}

impl CmpElem for u8 {
    open spec fn lt_spec(a: u8, b: u8) -> bool {
        a < b
    }

    fn lt_el(&self, rhs: &u8) -> bool {
        *self < *rhs
    }
}

impl BitElem for u8 {
    open spec fn bitand_spec(a: u8, b: u8) -> u8 {
        a & b
    }

    open spec fn bitor_spec(a: u8, b: u8) -> u8 {
        a | b
    }

    open spec fn bitxor_spec(a: u8, b: u8) -> u8 {
        a ^ b
    }

    fn bitand_el(self, rhs: u8) -> u8 {
        self & rhs
    }

    fn bitor_el(self, rhs: u8) -> u8 {
        self | rhs
    }

    fn bitxor_el(self, rhs: u8) -> u8 {
        self ^ rhs
    }
}

impl NumElem for usize {
    open spec fn zero_model() -> usize {
        0
    }

    open spec fn add_req(a: usize, b: usize) -> bool {
        usize::MIN <= a + b <= usize::MAX
    }

    open spec fn add_spec(a: usize, b: usize) -> usize {
        (a + b) as usize
    }

    open spec fn sub_req(a: usize, b: usize) -> bool {
        usize::MIN <= a - b <= usize::MAX
    }

    open spec fn sub_spec(a: usize, b: usize) -> usize {
        (a - b) as usize
    }

    open spec fn mul_req(a: usize, b: usize) -> bool {
        usize::MIN <= a * b <= usize::MAX
    }

    open spec fn mul_spec(a: usize, b: usize) -> usize {
        (a * b) as usize
    }

    open spec fn div_req(a: usize, b: usize) -> bool {
        b != 0
    }

    open spec fn div_spec(a: usize, b: usize) -> usize {
        a / b
    }

    open spec fn rem_req(a: usize, b: usize) -> bool {
        b != 0
    }

    open spec fn rem_spec(a: usize, b: usize) -> usize {
        a % b
    }

    open spec fn bits64_spec(m: usize) -> u64 {
        crate::floats::bits64_of_u64(m as u64)
    }

    fn zero() -> usize {
        0
    }

    fn add_el(self, rhs: usize) -> usize {
        self + rhs
    }

    fn sub_el(self, rhs: usize) -> usize {
        self - rhs
    }

    fn mul_el(self, rhs: usize) -> usize {
        self * rhs
    }

    fn div_el(self, rhs: usize) -> (r: usize)
        ensures
            r == Self::div_spec(self, rhs),
    {
        self / rhs
    }

    fn rem_el(self, rhs: usize) -> (r: usize)
        ensures
            r == Self::rem_spec(self, rhs),
    {
        self % rhs
    }

    fn to_bits64(&self) -> (r: u64)
        ensures
            r == Self::bits64_spec(*self),
    {
        crate::floats::f64_from_u64(*self as u64)
    }
}

impl CmpElem for usize {
    open spec fn lt_spec(a: usize, b: usize) -> bool {
        a < b
    }

    fn lt_el(&self, rhs: &usize) -> bool {
        *self < *rhs
    }
}

impl BitElem for usize {
    open spec fn bitand_spec(a: usize, b: usize) -> usize {
        a & b
    }

    open spec fn bitor_spec(a: usize, b: usize) -> usize {
        a | b
    }

    open spec fn bitxor_spec(a: usize, b: usize) -> usize {
        a ^ b
    }

    fn bitand_el(self, rhs: usize) -> usize {
        self & rhs
    }

    fn bitor_el(self, rhs: usize) -> usize {
        self | rhs
    }

    fn bitxor_el(self, rhs: usize) -> usize {
        self ^ rhs
    }
}

impl BitElem for bool {
    open spec fn bitand_spec(a: bool, b: bool) -> bool {
        a && b
    }

    open spec fn bitor_spec(a: bool, b: bool) -> bool {
        a || b
    }

    open spec fn bitxor_spec(a: bool, b: bool) -> bool {
        a != b
    }

    fn bitand_el(self, rhs: bool) -> bool {
        self && rhs
    }

    fn bitor_el(self, rhs: bool) -> bool {
        self || rhs
    }

    fn bitxor_el(self, rhs: bool) -> bool {
        self != rhs
    }
}

impl CmpElem for bool {
    open spec fn lt_spec(a: bool, b: bool) -> bool {
        !a && b
    }

    fn lt_el(&self, rhs: &bool) -> bool {
        !*self && *rhs
    }
}

/// Stringify the contents.
pub trait Stringify {
    /// Render each position as text.
    fn into_string_vec(&self) -> Vec<String>;
}

/// Basic aggregation methods.
pub trait BasicAggregation {
    /// The result kind which can keep the element kind.
    type Kept;

    /// The result kind for counting.
    type Counted;

    /// On which values the sum is defined.
    spec fn sum_req(&self) -> bool;

    /// The sum of the contained values.
    fn sum(&self) -> Self::Kept
        requires
            self.sum_req(),
    ;

    /// The count of the contained values.
    fn count(&self) -> Self::Counted;
}

/// Aggregation methods coerced through 64-bit floats, for numeric kinds.
pub trait NumericAggregation {
    /// The coerced result kind.
    type Coerced;

    /// On which values the mean's sum is defined.
    spec fn mean_req(&self) -> bool;

    /// The mean of the contained values.
    fn mean(&self) -> Self::Coerced
        requires
            self.mean_req(),
    ;

    /// The population variance of the contained values.
    fn var(&self) -> Self::Coerced;

    /// The unbiased sample variance of the contained values.
    fn unbiased_var(&self) -> Self::Coerced;

    /// The population standard deviation of the contained values.
    fn stdev(&self) -> Self::Coerced;

    /// The unbiased sample standard deviation of the contained values.
    fn unbiased_stdev(&self) -> Self::Coerced;
}

/// Aggregation methods for comparable kinds.
pub trait ComparisonAggregation {
    /// The result kind which can keep the element kind.
    type Kept;

    /// The least contained value.
    fn min(&self) -> Self::Kept;

    /// The greatest contained value.
    fn max(&self) -> Self::Kept;
}

/// Concatenate along the row.
pub trait Append: Sized {
    /// On which pairs concatenation is defined.
    spec fn append_req(&self, other: &Self) -> bool;

    /// This value followed by the other.
    fn append(&self, other: &Self) -> Self
        requires
            self.append_req(other),
    ;
}

} // verus!
