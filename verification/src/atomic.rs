//! A typed atomic storage cell for an optionally owned heap value.
//!
//! [`Atomic`] only provides the slot. It never reads, follows or frees what
//! the slot holds: who owns the value behind it, and who frees it and when,
//! is for the caller to settle.

use std::marker::PhantomData;
use std::sync::atomic::AtomicPtr;
use vstd::prelude::*;

verus! {

/// `std::sync::atomic::AtomicPtr`, which the verifier carries through without
/// looking inside.
#[verifier::external_type_specification]
#[verifier::external_body]
#[verifier::reject_recursive_types(T)]
pub struct ExAtomicPtr<T>(AtomicPtr<T>);

/// An atomic slot that holds either nothing or a heap value of type `T`.
#[verifier::reject_recursive_types(T)]
pub struct Atomic<T> {
    /// inner atomic pointer
    inner: AtomicPtr<T>,
    /// the address that `new` put into the slot
    made_with: Ghost<usize>,
    _marker: PhantomData<T>,
}

/// Calls `Box::into_raw` on `value` and `AtomicPtr::new` on the pointer it
/// gives, and returns the slot with the address put into it. The slot takes
/// the value over. A box never lies at the null address, so the address is
/// not 0.
#[verifier::external_body]
fn slot_holding<T>(value: Box<T>) -> (made: (AtomicPtr<T>, usize))
    ensures
        made.1 != 0,
{
    let held = Box::into_raw(value);
    (AtomicPtr::new(held), held as usize)
}

/// Calls `std::ptr::null_mut` and `AtomicPtr::new` on the pointer it gives,
/// and returns the slot with the address put into it. The null pointer is
/// the one with the address 0.
#[verifier::external_body]
fn slot_empty<T>() -> (made: (AtomicPtr<T>, usize))
    ensures
        made.1 == 0,
{
    let held = std::ptr::null_mut::<T>();
    (AtomicPtr::new(held), held as usize)
}

impl<T> Atomic<T> {
    /// The slot itself.
    pub closed spec fn slot(&self) -> AtomicPtr<T> {
        self.inner
    }

    /// The address that `new` put into the slot; 0 is the null address.
    pub closed spec fn made_with(&self) -> usize {
        self.made_with@
    }

    /// Makes a slot. Given a value, the slot takes it over and holds its
    /// address, which is not null; given none, the slot holds the null
    /// address.
    pub fn new(init: Option<Box<T>>) -> (r: Self)
        ensures
            init is None <==> r.made_with() == 0,
    {
        let made = match init {
            Some(value) => slot_holding(value),
            None => slot_empty(),
        };
        Atomic { inner: made.0, made_with: Ghost(made.1), _marker: PhantomData }
    }

    /// Hands out the slot for loads, stores and exchanges by the caller.
    pub fn get_inner(&self) -> (slot: &AtomicPtr<T>)
        ensures
            *slot == self.slot(),
    {
        &self.inner
    }

    /// Hands out the slot for exclusive use: whatever the caller leaves in it
    /// is what this cell then holds.
    pub fn get_inner_mut(&mut self) -> (slot: &mut AtomicPtr<T>)
        ensures
            *slot == old(self).slot(),
            final(self).slot() == *final(slot),
            final(self).made_with() == old(self).made_with(),
    {
        &mut self.inner
    }
}

} // verus!
