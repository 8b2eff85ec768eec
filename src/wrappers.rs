//! Accessors around references that the dynamic loader resolved.
//!
//! An importing build has no storage of its own for a shared declaration: it
//! holds a reference to the exporting module's storage, bound when the module
//! is loaded and never reassigned. The two wrappers here stand in for the
//! original declaration at every call site and forward each access to that
//! storage, without locking, retrying or caching anything.
use vstd::prelude::*;

verus! {

/// Wraps a resolved `&'static T`, the form a process-scoped import takes.
///
/// Built only by the importing form of a declaration, from a reference that
/// the loader bound once and never changes.
pub struct TrustedExtern<T: 'static>(pub &'static T);

/// Wraps a resolved `&'static &'static T`, the form a thread-scoped import
/// takes.
///
/// The exporting module publishes a reference to its thread-local accessor,
/// whose address is known only once that module is loaded. The importer's
/// own static can hold only the address of that published reference, so
/// reaching the accessor takes two steps.
pub struct TrustedExternDouble<T: 'static>(pub &'static &'static T);

impl<T> TrustedExtern<T> {
    /// The storage this wrapper forwards to.
    pub open spec fn target(&self) -> &'static T {
        self.0
    }

    /// Returns the wrapped storage itself.
    pub fn get(&self) -> (r: &'static T)
        ensures
            r == self.target(),
    {
        self.0
    }
}

impl<T> TrustedExternDouble<T> {
    /// The storage this wrapper forwards to, past both levels.
    pub open spec fn target(&self) -> &'static T {
        *self.0
    }

    /// Returns the storage behind both levels of reference.
    pub fn get(&self) -> (r: &'static T)
        ensures
            r == self.target(),
    {
        *self.0
    }
}

impl<T> core::ops::Deref for TrustedExtern<T> {
    type Target = T;

    fn deref(&self) -> (r: &T)
        ensures
            r == self.target(),
    {
        self.0
    }
}

impl<T> core::ops::Deref for TrustedExternDouble<T> {
    type Target = T;

    fn deref(&self) -> (r: &T)
        ensures
            r == self.target(),
    {
        *self.0
    }
}

/// Any operation on `T` gives, applied through either wrapper, what it
/// gives applied to the wrapped storage directly.
pub proof fn lemma_wrappers_forward<T, U>(
    single: TrustedExtern<T>,
    double: TrustedExternDouble<T>,
    op: spec_fn(&T) -> U,
)
    ensures
        op(single.target()) == op(single.0),
        op(double.target()) == op(*double.0),
{
}

} // verus!
