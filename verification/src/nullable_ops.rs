//! Operator sugar for nullable values.
//!
//! The combine semantics lives in the named helpers, whose contracts pin the
//! result models; the `core::ops` impls are the thin surface over them, with
//! preconditions protecting the element operations.

use vstd::prelude::*;

use crate::nullable::Nullable;
use crate::traits::{BitElem, NullStorable, NumElem};

verus! {

/// A model folded back into the nullable domain: a value the kind regards as
/// null becomes `None`.
pub open spec fn folded_opt<T: NullStorable>(m: T::Model) -> Option<T::Model> {
    if T::model_is_null(m) {
        None
    } else {
        Some(m)
    }
}

/// The broadcast add of a nullable value and a plain value: `Null` stays
/// `Null`, and a null-capable result folds back to `Null`.
pub fn add_prim<T: NumElem>(a: Nullable<T>, b: T) -> (r: Nullable<T>)
    requires
        (match a {
            Nullable::Value(x) => T::add_req(x.model(), b.model()),
            Nullable::Null => true,
        }),
    ensures
        r.model() == (match a.model() {
            Some(x) => folded_opt::<T>(T::add_spec(x, b.model())),
            None => None,
        }),
{
    match a {
        Nullable::Null => Nullable::Null,
        Nullable::Value(x) => Nullable::new(x.add_el(b)),
    }
}

/// The add of two nullable values: `Null` on either side gives `Null`.
pub fn add_nullable<T: NumElem>(a: Nullable<T>, b: Nullable<T>) -> (r: Nullable<T>)
    requires
        (match (a, b) {
            (Nullable::Value(x), Nullable::Value(y)) => T::add_req(x.model(), y.model()),
            _ => true,
        }),
    ensures
        r.model() == (match (a.model(), b.model()) {
            (Some(x), Some(y)) => folded_opt::<T>(T::add_spec(x, y)),
            _ => None,
        }),
{
    match b {
        Nullable::Null => Nullable::Null,
        Nullable::Value(y) => add_prim(a, y),
    }
}

/// The broadcast sub of a nullable value and a plain value: `Null` stays
/// `Null`, and a null-capable result folds back to `Null`.
pub fn sub_prim<T: NumElem>(a: Nullable<T>, b: T) -> (r: Nullable<T>)
    requires
        (match a {
            Nullable::Value(x) => T::sub_req(x.model(), b.model()),
            Nullable::Null => true,
        }),
    ensures
        r.model() == (match a.model() {
            Some(x) => folded_opt::<T>(T::sub_spec(x, b.model())),
            None => None,
        }),
{
    match a {
        Nullable::Null => Nullable::Null,
        Nullable::Value(x) => Nullable::new(x.sub_el(b)),
    }
}

/// The sub of two nullable values: `Null` on either side gives `Null`.
pub fn sub_nullable<T: NumElem>(a: Nullable<T>, b: Nullable<T>) -> (r: Nullable<T>)
    requires
        (match (a, b) {
            (Nullable::Value(x), Nullable::Value(y)) => T::sub_req(x.model(), y.model()),
            _ => true,
        }),
    ensures
        r.model() == (match (a.model(), b.model()) {
            (Some(x), Some(y)) => folded_opt::<T>(T::sub_spec(x, y)),
            _ => None,
        }),
{
    match b {
        Nullable::Null => Nullable::Null,
        Nullable::Value(y) => sub_prim(a, y),
    }
}

/// The broadcast mul of a nullable value and a plain value: `Null` stays
/// `Null`, and a null-capable result folds back to `Null`.
pub fn mul_prim<T: NumElem>(a: Nullable<T>, b: T) -> (r: Nullable<T>)
    requires
        (match a {
            Nullable::Value(x) => T::mul_req(x.model(), b.model()),
            Nullable::Null => true,
        }),
    ensures
        r.model() == (match a.model() {
            Some(x) => folded_opt::<T>(T::mul_spec(x, b.model())),
            None => None,
        }),
{
    match a {
        Nullable::Null => Nullable::Null,
        Nullable::Value(x) => Nullable::new(x.mul_el(b)),
    }
}

/// The mul of two nullable values: `Null` on either side gives `Null`.
pub fn mul_nullable<T: NumElem>(a: Nullable<T>, b: Nullable<T>) -> (r: Nullable<T>)
    requires
        (match (a, b) {
            (Nullable::Value(x), Nullable::Value(y)) => T::mul_req(x.model(), y.model()),
            _ => true,
        }),
    ensures
        r.model() == (match (a.model(), b.model()) {
            (Some(x), Some(y)) => folded_opt::<T>(T::mul_spec(x, y)),
            _ => None,
        }),
{
    match b {
        Nullable::Null => Nullable::Null,
        Nullable::Value(y) => mul_prim(a, y),
    }
}

/// The broadcast div of a nullable value and a plain value: `Null` stays
/// `Null`, and a null-capable result folds back to `Null`.
pub fn div_prim<T: NumElem>(a: Nullable<T>, b: T) -> (r: Nullable<T>)
    requires
        (match a {
            Nullable::Value(x) => T::div_req(x.model(), b.model()),
            Nullable::Null => true,
        }),
    ensures
        r.model() == (match a.model() {
            Some(x) => folded_opt::<T>(T::div_spec(x, b.model())),
            None => None,
        }),
{
    match a {
        Nullable::Null => Nullable::Null,
        Nullable::Value(x) => Nullable::new(x.div_el(b)),
    }
}

/// The div of two nullable values: `Null` on either side gives `Null`.
pub fn div_nullable<T: NumElem>(a: Nullable<T>, b: Nullable<T>) -> (r: Nullable<T>)
    requires
        (match (a, b) {
            (Nullable::Value(x), Nullable::Value(y)) => T::div_req(x.model(), y.model()),
            _ => true,
        }),
    ensures
        r.model() == (match (a.model(), b.model()) {
            (Some(x), Some(y)) => folded_opt::<T>(T::div_spec(x, y)),
            _ => None,
        }),
{
    match b {
        Nullable::Null => Nullable::Null,
        Nullable::Value(y) => div_prim(a, y),
    }
}

/// The broadcast rem of a nullable value and a plain value: `Null` stays
/// `Null`, and a null-capable result folds back to `Null`.
pub fn rem_prim<T: NumElem>(a: Nullable<T>, b: T) -> (r: Nullable<T>)
    requires
        (match a {
            Nullable::Value(x) => T::rem_req(x.model(), b.model()),
            Nullable::Null => true,
        }),
    ensures
        r.model() == (match a.model() {
            Some(x) => folded_opt::<T>(T::rem_spec(x, b.model())),
            None => None,
        }),
{
    match a {
        Nullable::Null => Nullable::Null,
        Nullable::Value(x) => Nullable::new(x.rem_el(b)),
    }
}

/// The rem of two nullable values: `Null` on either side gives `Null`.
pub fn rem_nullable<T: NumElem>(a: Nullable<T>, b: Nullable<T>) -> (r: Nullable<T>)
    requires
        (match (a, b) {
            (Nullable::Value(x), Nullable::Value(y)) => T::rem_req(x.model(), y.model()),
            _ => true,
        }),
    ensures
        r.model() == (match (a.model(), b.model()) {
            (Some(x), Some(y)) => folded_opt::<T>(T::rem_spec(x, y)),
            _ => None,
        }),
{
    match b {
        Nullable::Null => Nullable::Null,
        Nullable::Value(y) => rem_prim(a, y),
    }
}

/// The broadcast bitand of a nullable value and a plain value.
pub fn bitand_prim<T: BitElem>(a: Nullable<T>, b: T) -> (r: Nullable<T>)
    ensures
        r.model() == (match a.model() {
            Some(x) => folded_opt::<T>(T::bitand_spec(x, b.model())),
            None => None,
        }),
{
    match a {
        Nullable::Null => Nullable::Null,
        Nullable::Value(x) => Nullable::new(x.bitand_el(b)),
    }
}

/// The bitand of two nullable values: `Null` on either side gives `Null`.
pub fn bitand_nullable<T: BitElem>(a: Nullable<T>, b: Nullable<T>) -> (r: Nullable<T>)
    ensures
        r.model() == (match (a.model(), b.model()) {
            (Some(x), Some(y)) => folded_opt::<T>(T::bitand_spec(x, y)),
            _ => None,
        }),
{
    match b {
        Nullable::Null => Nullable::Null,
        Nullable::Value(y) => bitand_prim(a, y),
    }
}

/// The broadcast bitor of a nullable value and a plain value.
pub fn bitor_prim<T: BitElem>(a: Nullable<T>, b: T) -> (r: Nullable<T>)
    ensures
        r.model() == (match a.model() {
            Some(x) => folded_opt::<T>(T::bitor_spec(x, b.model())),
            None => None,
        }),
{
    match a {
        Nullable::Null => Nullable::Null,
        Nullable::Value(x) => Nullable::new(x.bitor_el(b)),
    }
}

/// The bitor of two nullable values: `Null` on either side gives `Null`.
pub fn bitor_nullable<T: BitElem>(a: Nullable<T>, b: Nullable<T>) -> (r: Nullable<T>)
    ensures
        r.model() == (match (a.model(), b.model()) {
            (Some(x), Some(y)) => folded_opt::<T>(T::bitor_spec(x, y)),
            _ => None,
        }),
{
    match b {
        Nullable::Null => Nullable::Null,
        Nullable::Value(y) => bitor_prim(a, y),
    }
}

/// The broadcast bitxor of a nullable value and a plain value.
pub fn bitxor_prim<T: BitElem>(a: Nullable<T>, b: T) -> (r: Nullable<T>)
    ensures
        r.model() == (match a.model() {
            Some(x) => folded_opt::<T>(T::bitxor_spec(x, b.model())),
            None => None,
        }),
{
    match a {
        Nullable::Null => Nullable::Null,
        Nullable::Value(x) => Nullable::new(x.bitxor_el(b)),
    }
}

/// The bitxor of two nullable values: `Null` on either side gives `Null`.
pub fn bitxor_nullable<T: BitElem>(a: Nullable<T>, b: Nullable<T>) -> (r: Nullable<T>)
    ensures
        r.model() == (match (a.model(), b.model()) {
            (Some(x), Some(y)) => folded_opt::<T>(T::bitxor_spec(x, y)),
            _ => None,
        }),
{
    match b {
        Nullable::Null => Nullable::Null,
        Nullable::Value(y) => bitxor_prim(a, y),
    }
}

impl<T: NumElem> vstd::std_specs::ops::AddSpecImpl<T> for Nullable<T> {
    open spec fn obeys_add_spec() -> bool {
        false
    }

    open spec fn add_req(self, rhs: T) -> bool {
        (match self {
            Nullable::Value(x) => T::add_req(x.model(), rhs.model()),
            Nullable::Null => true,
        })
    }

    open spec fn add_spec(self, rhs: T) -> Nullable<T> {
        self
    }
}

impl<T: NumElem> core::ops::Add<T> for Nullable<T> {
    type Output = Nullable<T>;

    fn add(self, rhs: T) -> Nullable<T> {
        add_prim(self, rhs)
    }
}

impl<'a, T: NumElem> vstd::std_specs::ops::AddSpecImpl<&'a T> for Nullable<T> {
    open spec fn obeys_add_spec() -> bool {
        false
    }

    open spec fn add_req(self, rhs: &'a T) -> bool {
        (match self {
            Nullable::Value(x) => T::add_req(x.model(), rhs.model()),
            Nullable::Null => true,
        })
    }

    open spec fn add_spec(self, rhs: &'a T) -> Nullable<T> {
        self
    }
}

impl<'a, T: NumElem> core::ops::Add<&'a T> for Nullable<T> {
    type Output = Nullable<T>;

    fn add(self, rhs: &'a T) -> Nullable<T> {
        add_prim(self, *rhs)
    }
}

impl<'b, T: NumElem> vstd::std_specs::ops::AddSpecImpl<T> for &'b Nullable<T> {
    open spec fn obeys_add_spec() -> bool {
        false
    }

    open spec fn add_req(self, rhs: T) -> bool {
        (match (*self) {
            Nullable::Value(x) => T::add_req(x.model(), rhs.model()),
            Nullable::Null => true,
        })
    }

    open spec fn add_spec(self, rhs: T) -> Nullable<T> {
        *self
    }
}

impl<'b, T: NumElem> core::ops::Add<T> for &'b Nullable<T> {
    type Output = Nullable<T>;

    fn add(self, rhs: T) -> Nullable<T> {
        add_prim(self.dup(), rhs)
    }
}

impl<'a, 'b, T: NumElem> vstd::std_specs::ops::AddSpecImpl<&'a T> for &'b Nullable<T> {
    open spec fn obeys_add_spec() -> bool {
        false
    }

    open spec fn add_req(self, rhs: &'a T) -> bool {
        (match (*self) {
            Nullable::Value(x) => T::add_req(x.model(), rhs.model()),
            Nullable::Null => true,
        })
    }

    open spec fn add_spec(self, rhs: &'a T) -> Nullable<T> {
        *self
    }
}

impl<'a, 'b, T: NumElem> core::ops::Add<&'a T> for &'b Nullable<T> {
    type Output = Nullable<T>;

    fn add(self, rhs: &'a T) -> Nullable<T> {
        add_prim(self.dup(), *rhs)
    }
}

impl<T: BitElem> vstd::std_specs::ops::BitAndSpecImpl<T> for Nullable<T> {
    open spec fn obeys_bitand_spec() -> bool {
        false
    }

    open spec fn bitand_req(self, rhs: T) -> bool {
        true
    }

    open spec fn bitand_spec(self, rhs: T) -> Nullable<T> {
        self
    }
}

impl<T: BitElem> core::ops::BitAnd<T> for Nullable<T> {
    type Output = Nullable<T>;

    fn bitand(self, rhs: T) -> Nullable<T> {
        bitand_prim(self, rhs)
    }
}

impl<'a, T: BitElem> vstd::std_specs::ops::BitAndSpecImpl<&'a T> for Nullable<T> {
    open spec fn obeys_bitand_spec() -> bool {
        false
    }

    open spec fn bitand_req(self, rhs: &'a T) -> bool {
        true
    }

    open spec fn bitand_spec(self, rhs: &'a T) -> Nullable<T> {
        self
    }
}

impl<'a, T: BitElem> core::ops::BitAnd<&'a T> for Nullable<T> {
    type Output = Nullable<T>;

    fn bitand(self, rhs: &'a T) -> Nullable<T> {
        bitand_prim(self, *rhs)
    }
}

impl<'b, T: BitElem> vstd::std_specs::ops::BitAndSpecImpl<T> for &'b Nullable<T> {
    open spec fn obeys_bitand_spec() -> bool {
        false
    }

    open spec fn bitand_req(self, rhs: T) -> bool {
        true
    }

    open spec fn bitand_spec(self, rhs: T) -> Nullable<T> {
        *self
    }
}

impl<'b, T: BitElem> core::ops::BitAnd<T> for &'b Nullable<T> {
    type Output = Nullable<T>;

    fn bitand(self, rhs: T) -> Nullable<T> {
        bitand_prim(self.dup(), rhs)
    }
}

impl<'a, 'b, T: BitElem> vstd::std_specs::ops::BitAndSpecImpl<&'a T> for &'b Nullable<T> {
    open spec fn obeys_bitand_spec() -> bool {
        false
    }

    open spec fn bitand_req(self, rhs: &'a T) -> bool {
        true
    }

    open spec fn bitand_spec(self, rhs: &'a T) -> Nullable<T> {
        *self
    }
}

impl<'a, 'b, T: BitElem> core::ops::BitAnd<&'a T> for &'b Nullable<T> {
    type Output = Nullable<T>;

    fn bitand(self, rhs: &'a T) -> Nullable<T> {
        bitand_prim(self.dup(), *rhs)
    }
}

impl<T: NumElem> vstd::std_specs::ops::AddSpecImpl<Nullable<T>> for Nullable<T> {
    open spec fn obeys_add_spec() -> bool {
        false
    }

    open spec fn add_req(self, rhs: Nullable<T>) -> bool {
        (match (self, rhs) {
            (Nullable::Value(x), Nullable::Value(y)) => T::add_req(x.model(), y.model()),
            _ => true,
        })
    }

    open spec fn add_spec(self, rhs: Nullable<T>) -> Nullable<T> {
        self
    }
}

impl<T: NumElem> core::ops::Add<Nullable<T>> for Nullable<T> {
    type Output = Nullable<T>;

    fn add(self, rhs: Nullable<T>) -> Nullable<T> {
        add_nullable(self, rhs)
    }
}

impl<'a, T: NumElem> vstd::std_specs::ops::AddSpecImpl<&'a Nullable<T>> for Nullable<T> {
    open spec fn obeys_add_spec() -> bool {
        false
    }

    open spec fn add_req(self, rhs: &'a Nullable<T>) -> bool {
        (match (self, *rhs) {
            (Nullable::Value(x), Nullable::Value(y)) => T::add_req(x.model(), y.model()),
            _ => true,
        })
    }

    open spec fn add_spec(self, rhs: &'a Nullable<T>) -> Nullable<T> {
        self
    }
}

impl<'a, T: NumElem> core::ops::Add<&'a Nullable<T>> for Nullable<T> {
    type Output = Nullable<T>;

    fn add(self, rhs: &'a Nullable<T>) -> Nullable<T> {
        add_nullable(self, rhs.dup())
    }
}

impl<'b, T: NumElem> vstd::std_specs::ops::AddSpecImpl<Nullable<T>> for &'b Nullable<T> {
    open spec fn obeys_add_spec() -> bool {
        false
    }

    open spec fn add_req(self, rhs: Nullable<T>) -> bool {
        (match (*self, rhs) {
            (Nullable::Value(x), Nullable::Value(y)) => T::add_req(x.model(), y.model()),
            _ => true,
        })
    }

    open spec fn add_spec(self, rhs: Nullable<T>) -> Nullable<T> {
        *self
    }
}

impl<'b, T: NumElem> core::ops::Add<Nullable<T>> for &'b Nullable<T> {
    type Output = Nullable<T>;

    fn add(self, rhs: Nullable<T>) -> Nullable<T> {
        add_nullable(self.dup(), rhs)
    }
}

impl<'a, 'b, T: NumElem> vstd::std_specs::ops::AddSpecImpl<&'a Nullable<T>> for &'b Nullable<T> {
    open spec fn obeys_add_spec() -> bool {
        false
    }

    open spec fn add_req(self, rhs: &'a Nullable<T>) -> bool {
        (match (*self, *rhs) {
            (Nullable::Value(x), Nullable::Value(y)) => T::add_req(x.model(), y.model()),
            _ => true,
        })
    }

    open spec fn add_spec(self, rhs: &'a Nullable<T>) -> Nullable<T> {
        *self
    }
}

impl<'a, 'b, T: NumElem> core::ops::Add<&'a Nullable<T>> for &'b Nullable<T> {
    type Output = Nullable<T>;

    fn add(self, rhs: &'a Nullable<T>) -> Nullable<T> {
        add_nullable(self.dup(), rhs.dup())
    }
}

impl<T: NumElem> vstd::std_specs::ops::SubSpecImpl<Nullable<T>> for Nullable<T> {
    open spec fn obeys_sub_spec() -> bool {
        false
    }

    open spec fn sub_req(self, rhs: Nullable<T>) -> bool {
        (match (self, rhs) {
            (Nullable::Value(x), Nullable::Value(y)) => T::sub_req(x.model(), y.model()),
            _ => true,
        })
    }

    open spec fn sub_spec(self, rhs: Nullable<T>) -> Nullable<T> {
        self
    }
}

impl<T: NumElem> core::ops::Sub<Nullable<T>> for Nullable<T> {
    type Output = Nullable<T>;

    fn sub(self, rhs: Nullable<T>) -> Nullable<T> {
        sub_nullable(self, rhs)
    }
}

impl<T: NumElem> vstd::std_specs::ops::MulSpecImpl<Nullable<T>> for Nullable<T> {
    open spec fn obeys_mul_spec() -> bool {
        false
    }

    open spec fn mul_req(self, rhs: Nullable<T>) -> bool {
        (match (self, rhs) {
            (Nullable::Value(x), Nullable::Value(y)) => T::mul_req(x.model(), y.model()),
            _ => true,
        })
    }

    open spec fn mul_spec(self, rhs: Nullable<T>) -> Nullable<T> {
        self
    }
}

impl<T: NumElem> core::ops::Mul<Nullable<T>> for Nullable<T> {
    type Output = Nullable<T>;

    fn mul(self, rhs: Nullable<T>) -> Nullable<T> {
        mul_nullable(self, rhs)
    }
}

impl<T: NumElem> vstd::std_specs::ops::DivSpecImpl<Nullable<T>> for Nullable<T> {
    open spec fn obeys_div_spec() -> bool {
        false
    }

    open spec fn div_req(self, rhs: Nullable<T>) -> bool {
        (match (self, rhs) {
            (Nullable::Value(x), Nullable::Value(y)) => T::div_req(x.model(), y.model()),
            _ => true,
        })
    }

    open spec fn div_spec(self, rhs: Nullable<T>) -> Nullable<T> {
        self
    }
}

impl<T: NumElem> core::ops::Div<Nullable<T>> for Nullable<T> {
    type Output = Nullable<T>;

    fn div(self, rhs: Nullable<T>) -> Nullable<T> {
        div_nullable(self, rhs)
    }
}

impl<T: NumElem> vstd::std_specs::ops::RemSpecImpl<Nullable<T>> for Nullable<T> {
    open spec fn obeys_rem_spec() -> bool {
        false
    }

    open spec fn rem_req(self, rhs: Nullable<T>) -> bool {
        (match (self, rhs) {
            (Nullable::Value(x), Nullable::Value(y)) => T::rem_req(x.model(), y.model()),
            _ => true,
        })
    }

    open spec fn rem_spec(self, rhs: Nullable<T>) -> Nullable<T> {
        self
    }
}

impl<T: NumElem> core::ops::Rem<Nullable<T>> for Nullable<T> {
    type Output = Nullable<T>;

    fn rem(self, rhs: Nullable<T>) -> Nullable<T> {
        rem_nullable(self, rhs)
    }
}

impl<T: BitElem> vstd::std_specs::ops::BitAndSpecImpl<Nullable<T>> for Nullable<T> {
    open spec fn obeys_bitand_spec() -> bool {
        false
    }

    open spec fn bitand_req(self, rhs: Nullable<T>) -> bool {
        true
    }

    open spec fn bitand_spec(self, rhs: Nullable<T>) -> Nullable<T> {
        self
    }
}

impl<T: BitElem> core::ops::BitAnd<Nullable<T>> for Nullable<T> {
    type Output = Nullable<T>;

    fn bitand(self, rhs: Nullable<T>) -> Nullable<T> {
        bitand_nullable(self, rhs)
    }
}

impl<T: BitElem> vstd::std_specs::ops::BitOrSpecImpl<T> for Nullable<T> {
    open spec fn obeys_bitor_spec() -> bool {
        false
    }

    open spec fn bitor_req(self, rhs: T) -> bool {
        true
    }

    open spec fn bitor_spec(self, rhs: T) -> Nullable<T> {
        self
    }
}

impl<T: BitElem> core::ops::BitOr<T> for Nullable<T> {
    type Output = Nullable<T>;

    fn bitor(self, rhs: T) -> Nullable<T> {
        bitor_prim(self, rhs)
    }
}

impl<T: BitElem> vstd::std_specs::ops::BitOrSpecImpl<Nullable<T>> for Nullable<T> {
    open spec fn obeys_bitor_spec() -> bool {
        false
    }

    open spec fn bitor_req(self, rhs: Nullable<T>) -> bool {
        true
    }

    open spec fn bitor_spec(self, rhs: Nullable<T>) -> Nullable<T> {
        self
    }
}

impl<T: BitElem> core::ops::BitOr<Nullable<T>> for Nullable<T> {
    type Output = Nullable<T>;

    fn bitor(self, rhs: Nullable<T>) -> Nullable<T> {
        bitor_nullable(self, rhs)
    }
}

impl<T: BitElem> vstd::std_specs::ops::BitXorSpecImpl<T> for Nullable<T> {
    open spec fn obeys_bitxor_spec() -> bool {
        false
    }

    open spec fn bitxor_req(self, rhs: T) -> bool {
        true
    }

    open spec fn bitxor_spec(self, rhs: T) -> Nullable<T> {
        self
    }
}

impl<T: BitElem> core::ops::BitXor<T> for Nullable<T> {
    type Output = Nullable<T>;

    fn bitxor(self, rhs: T) -> Nullable<T> {
        bitxor_prim(self, rhs)
    }
}

impl<T: BitElem> vstd::std_specs::ops::BitXorSpecImpl<Nullable<T>> for Nullable<T> {
    open spec fn obeys_bitxor_spec() -> bool {
        false
    }

    open spec fn bitxor_req(self, rhs: Nullable<T>) -> bool {
        true
    }

    open spec fn bitxor_spec(self, rhs: Nullable<T>) -> Nullable<T> {
        self
    }
}

impl<T: BitElem> core::ops::BitXor<Nullable<T>> for Nullable<T> {
    type Output = Nullable<T>;

    fn bitxor(self, rhs: Nullable<T>) -> Nullable<T> {
        bitxor_nullable(self, rhs)
    }
}

} // verus!
