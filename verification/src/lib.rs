//! A zero-overhead wrapper that withholds a value from implicit teardown.
//!
//! `Undroppable<T>` owns exactly one `T` and keeps the compiler from ever
//! running `T`'s destructor on its own. The owner must decide explicitly:
//! [`Undroppable::drop`] runs the destructor once, [`Undroppable::forget`]
//! discards the value without running it, and [`Undroppable::into_inner`]
//! hands the value back so its ordinary lifecycle resumes. A wrapper that
//! merely reaches scope-exit leaks its value: teardown never runs behind
//! the owner's back.

use core::mem::ManuallyDrop;
use core::ops::Deref;
use vstd::prelude::*;

verus! {

/// A wrapper that owns one `T` and never lets the compiler run `T`'s
/// destructor implicitly. Teardown happens only through an explicit call
/// of [`Undroppable::drop`].
///
/// The value sits in a `ManuallyDrop`, so a wrapper that reaches scope-exit
/// without one of the explicit consuming operations leaks its value rather
/// than tearing it down.
///
/// Writing through [`Undroppable::deref_mut`] can replace the contained
/// value by ordinary assignment, which runs the old value's own teardown;
/// the wrapper traps only the teardown of the wrapper itself, not in-place
/// replacement of its contents.
#[derive(Clone, Debug, Default, PartialEq, Eq, PartialOrd, Ord, Hash)]
pub struct Undroppable<T> {
    inner: ManuallyDrop<T>,
}

impl<T> View for Undroppable<T> {
    type V = T;

    closed spec fn view(&self) -> T {
        self.inner@
    }
}

/// Relies on `ManuallyDrop`'s `DerefMut`: yields the contained value in
/// place, so the contents afterwards are whatever the caller leaves behind
/// the returned reference.
#[verifier::external_body]
fn manually_drop_deref_mut<T>(m: &mut ManuallyDrop<T>) -> (r: &mut T)
    ensures
        *r == old(m)@,
        final(m)@ == *final(r),
{
    &mut **m
}

impl<T> Undroppable<T> {
    /// Wrap a value; the wrapper now owns it and withholds it from
    /// implicit teardown.
    pub fn new(value: T) -> (r: Self)
        ensures
            r@ == value,
    {
        Undroppable { inner: ManuallyDrop::new(value) }
    }

    /// Run the contained value's teardown logic, exactly once, and consume
    /// the wrapper. The wrapper itself contributes no teardown of its own,
    /// so the contained value's destructor is the only one that runs.
    pub fn drop(this: Self) {
        let Undroppable { inner } = this;
        let _value: T = ManuallyDrop::into_inner(inner);
    }

    /// Discard the wrapper without running the contained value's teardown
    /// logic: the deliberate leak.
    pub fn forget(this: Self)
        no_unwind
    {
        let Undroppable { inner: _ } = this;
    }

    /// Extract the contained value; its ordinary lifecycle resumes with the
    /// caller. The wrapper's shell is discarded without any teardown.
    pub fn into_inner(this: Self) -> (r: T)
        ensures
            r == this@,
    {
        let Undroppable { inner } = this;
        ManuallyDrop::into_inner(inner)
    }

    /// Borrow the contained value.
    pub fn deref(&self) -> (r: &T)
        ensures
            *r == self@,
    {
        self.inner.deref()
    }

    /// Borrow the contained value mutably. The wrapper afterwards holds
    /// whatever the caller leaves behind the returned reference.
    pub fn deref_mut(&mut self) -> (r: &mut T)
        ensures
            *r == old(self)@,
            final(self)@ == *final(r),
    {
        manually_drop_deref_mut(&mut self.inner)
    }
}

/// Law: extracting from a freshly made wrapper hands back exactly the value
/// that was wrapped.
pub fn wrap_then_unwrap<T>(value: T) -> (r: T)
    ensures
        r == value,
{
    Undroppable::into_inner(Undroppable::new(value))
}

/// Law: after a write through the mutable view, extraction hands back the
/// written value.
pub fn write_then_unwrap<T>(value: T, replacement: T) -> (r: T)
    ensures
        r == replacement,
{
    let mut wrapped = Undroppable::new(value);
    let slot = wrapped.deref_mut();
    *slot = replacement;
    Undroppable::into_inner(wrapped)
}

} // verus!
