//! Comparing handles by the values they hold.
//!
//! Two handles compare as their values do, whatever blocks they refer to;
//! [`Rcn::ptr_eq`] is the test for one and the same block.

use crate::arena::Arena;
use crate::observing::Weakn;
use crate::owning::Rcn;
use std::cmp::Ordering;
use vstd::prelude::*;
use vstd::std_specs::cmp::PartialEqSpec;
use vstd::std_specs::cmp::PartialOrdSpec;

verus! {

impl<T: PartialEq> Rcn<T> {
    /// Whether the two values are equal, as `T` compares them.
    pub fn eq(&self, other: &Rcn<T>, arena: &Arena<T>) -> (b: bool)
        requires
            arena.wf(),
            arena@.payload(self@) is Some,
            arena@.payload(other@) is Some,
        ensures
            call_ensures(T::eq, (&arena@.payload(self@)->0, &arena@.payload(other@)->0), b),
            T::obeys_eq_spec() ==> b == arena@.payload(self@)->0.eq_spec(&arena@.payload(other@)->0),
    {
        self.deref(arena).eq(other.deref(arena))
    }

    /// Whether the two values differ, as `T` compares them.
    pub fn ne(&self, other: &Rcn<T>, arena: &Arena<T>) -> (b: bool)
        requires
            arena.wf(),
            arena@.payload(self@) is Some,
            arena@.payload(other@) is Some,
        ensures
            call_ensures(T::ne, (&arena@.payload(self@)->0, &arena@.payload(other@)->0), b),
            T::obeys_eq_spec() ==> b == !arena@.payload(self@)->0.eq_spec(
                &arena@.payload(other@)->0,
            ),
    {
        self.deref(arena).ne(other.deref(arena))
    }
}

impl<T: PartialOrd> Rcn<T> {
    /// How the two values are ordered, as `T` orders them.
    pub fn partial_cmp(&self, other: &Rcn<T>, arena: &Arena<T>) -> (o: Option<Ordering>)
        requires
            arena.wf(),
            arena@.payload(self@) is Some,
            arena@.payload(other@) is Some,
        ensures
            call_ensures(
                T::partial_cmp,
                (&arena@.payload(self@)->0, &arena@.payload(other@)->0),
                o,
            ),
            T::obeys_partial_cmp_spec() ==> o == arena@.payload(self@)->0.partial_cmp_spec(
                &arena@.payload(other@)->0,
            ),
    {
        self.deref(arena).partial_cmp(other.deref(arena))
    }

    /// Whether this value is less than the other, as `T` orders them.
    pub fn lt(&self, other: &Rcn<T>, arena: &Arena<T>) -> (b: bool)
        requires
            arena.wf(),
            arena@.payload(self@) is Some,
            arena@.payload(other@) is Some,
        ensures
            call_ensures(T::lt, (&arena@.payload(self@)->0, &arena@.payload(other@)->0), b),
            T::obeys_partial_cmp_spec() ==> (b <==> arena@.payload(self@)->0.partial_cmp_spec(
                &arena@.payload(other@)->0,
            ) == Some(Ordering::Less)),
    {
        self.deref(arena).lt(other.deref(arena))
    }

    /// Whether this value is at most the other, as `T` orders them.
    pub fn le(&self, other: &Rcn<T>, arena: &Arena<T>) -> (b: bool)
        requires
            arena.wf(),
            arena@.payload(self@) is Some,
            arena@.payload(other@) is Some,
        ensures
            call_ensures(T::le, (&arena@.payload(self@)->0, &arena@.payload(other@)->0), b),
            T::obeys_partial_cmp_spec() ==> (b <==> arena@.payload(self@)->0.partial_cmp_spec(
                &arena@.payload(other@)->0,
            ) matches Some(Ordering::Less | Ordering::Equal)),
    {
        self.deref(arena).le(other.deref(arena))
    }

    /// Whether this value is greater than the other, as `T` orders them.
    pub fn gt(&self, other: &Rcn<T>, arena: &Arena<T>) -> (b: bool)
        requires
            arena.wf(),
            arena@.payload(self@) is Some,
            arena@.payload(other@) is Some,
        ensures
            call_ensures(T::gt, (&arena@.payload(self@)->0, &arena@.payload(other@)->0), b),
            T::obeys_partial_cmp_spec() ==> (b <==> arena@.payload(self@)->0.partial_cmp_spec(
                &arena@.payload(other@)->0,
            ) == Some(Ordering::Greater)),
    {
        self.deref(arena).gt(other.deref(arena))
    }

    /// Whether this value is at least the other, as `T` orders them.
    pub fn ge(&self, other: &Rcn<T>, arena: &Arena<T>) -> (b: bool)
        requires
            arena.wf(),
            arena@.payload(self@) is Some,
            arena@.payload(other@) is Some,
        ensures
            call_ensures(T::ge, (&arena@.payload(self@)->0, &arena@.payload(other@)->0), b),
            T::obeys_partial_cmp_spec() ==> (b <==> arena@.payload(self@)->0.partial_cmp_spec(
                &arena@.payload(other@)->0,
            ) matches Some(Ordering::Greater | Ordering::Equal)),
    {
        self.deref(arena).ge(other.deref(arena))
    }
}

impl<T: PartialEq> Weakn<T> {
    /// Whether the two values are equal, as `T` compares them.
    pub fn eq(&self, other: &Weakn<T>, arena: &Arena<T>) -> (b: bool)
        requires
            arena.wf(),
            arena@.payload(self@) is Some,
            arena@.payload(other@) is Some,
        ensures
            call_ensures(T::eq, (&arena@.payload(self@)->0, &arena@.payload(other@)->0), b),
            T::obeys_eq_spec() ==> b == arena@.payload(self@)->0.eq_spec(&arena@.payload(other@)->0),
    {
        self.deref(arena).eq(other.deref(arena))
    }

    /// Whether the two values differ, as `T` compares them.
    pub fn ne(&self, other: &Weakn<T>, arena: &Arena<T>) -> (b: bool)
        requires
            arena.wf(),
            arena@.payload(self@) is Some,
            arena@.payload(other@) is Some,
        ensures
            call_ensures(T::ne, (&arena@.payload(self@)->0, &arena@.payload(other@)->0), b),
            T::obeys_eq_spec() ==> b == !arena@.payload(self@)->0.eq_spec(
                &arena@.payload(other@)->0,
            ),
    {
        self.deref(arena).ne(other.deref(arena))
    }
}

impl<T: PartialOrd> Weakn<T> {
    /// How the two values are ordered, as `T` orders them.
    pub fn partial_cmp(&self, other: &Weakn<T>, arena: &Arena<T>) -> (o: Option<Ordering>)
        requires
            arena.wf(),
            arena@.payload(self@) is Some,
            arena@.payload(other@) is Some,
        ensures
            call_ensures(
                T::partial_cmp,
                (&arena@.payload(self@)->0, &arena@.payload(other@)->0),
                o,
            ),
            T::obeys_partial_cmp_spec() ==> o == arena@.payload(self@)->0.partial_cmp_spec(
                &arena@.payload(other@)->0,
            ),
    {
        self.deref(arena).partial_cmp(other.deref(arena))
    }

    /// Whether this value is less than the other, as `T` orders them.
    pub fn lt(&self, other: &Weakn<T>, arena: &Arena<T>) -> (b: bool)
        requires
            arena.wf(),
            arena@.payload(self@) is Some,
            arena@.payload(other@) is Some,
        ensures
            call_ensures(T::lt, (&arena@.payload(self@)->0, &arena@.payload(other@)->0), b),
            T::obeys_partial_cmp_spec() ==> (b <==> arena@.payload(self@)->0.partial_cmp_spec(
                &arena@.payload(other@)->0,
            ) == Some(Ordering::Less)),
    {
        self.deref(arena).lt(other.deref(arena))
    }

    /// Whether this value is at most the other, as `T` orders them.
    pub fn le(&self, other: &Weakn<T>, arena: &Arena<T>) -> (b: bool)
        requires
            arena.wf(),
            arena@.payload(self@) is Some,
            arena@.payload(other@) is Some,
        ensures
            call_ensures(T::le, (&arena@.payload(self@)->0, &arena@.payload(other@)->0), b),
            T::obeys_partial_cmp_spec() ==> (b <==> arena@.payload(self@)->0.partial_cmp_spec(
                &arena@.payload(other@)->0,
            ) matches Some(Ordering::Less | Ordering::Equal)),
    {
        self.deref(arena).le(other.deref(arena))
    }

    /// Whether this value is greater than the other, as `T` orders them.
    pub fn gt(&self, other: &Weakn<T>, arena: &Arena<T>) -> (b: bool)
        requires
            arena.wf(),
            arena@.payload(self@) is Some,
            arena@.payload(other@) is Some,
        ensures
            call_ensures(T::gt, (&arena@.payload(self@)->0, &arena@.payload(other@)->0), b),
            T::obeys_partial_cmp_spec() ==> (b <==> arena@.payload(self@)->0.partial_cmp_spec(
                &arena@.payload(other@)->0,
            ) == Some(Ordering::Greater)),
    {
        self.deref(arena).gt(other.deref(arena))
    }

    /// Whether this value is at least the other, as `T` orders them.
    pub fn ge(&self, other: &Weakn<T>, arena: &Arena<T>) -> (b: bool)
        requires
            arena.wf(),
            arena@.payload(self@) is Some,
            arena@.payload(other@) is Some,
        ensures
            call_ensures(T::ge, (&arena@.payload(self@)->0, &arena@.payload(other@)->0), b),
            T::obeys_partial_cmp_spec() ==> (b <==> arena@.payload(self@)->0.partial_cmp_spec(
                &arena@.payload(other@)->0,
            ) matches Some(Ordering::Greater | Ordering::Equal)),
    {
        self.deref(arena).ge(other.deref(arena))
    }
}

} // verus!
