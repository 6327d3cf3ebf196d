//! The process-wide shutdown flag: a shared, monotonic boolean.
//!
//! The flag is an atomic read and written with relaxed ordering: setting it
//! does not stop the worker (the terminal envelope does), and a reader may
//! see a set made elsewhere one scheduling quantum late, which is tolerated.
//!
//! Each handle carries a two-part model of what it knows of the flag.
//! `observed` is this lineage's own knowledge: `true` once `set` was called
//! on this handle or on one it was duplicated from.  `exclusive` records
//! that the flag has never been shared: it starts `true`, and duplication —
//! the only way a second handle comes to exist — clears it on both sides,
//! for good.  Together they bound every read: a lineage that set the flag
//! always reads `true`, and a sole handle whose lineage never set it always
//! reads `false`.  A shared handle whose lineage did not set the flag may
//! read either value: another handle may have set it, which is exactly the
//! tolerated staleness.
//!
//! Duplication therefore takes `&mut self`: losing exclusivity is a model
//! change the contracts must see, which a `Clone` through `&self` could not
//! record.

use std::sync::atomic::AtomicBool;
use std::sync::atomic::Ordering;
use std::sync::Arc;
use vstd::prelude::*;

verus! {

/// One handle to the shared shutdown flag.
///
/// The fields stay private: `observed` is `true` only where this module has
/// just performed the store, `exclusive` only on a handle that was never
/// duplicated, and the atomic itself is written nowhere but in
/// [`ShutdownFlag::set`].  The contract of [`ShutdownFlag::is_set`] relies
/// on all three.
pub struct ShutdownFlag {
    inner: Arc<AtomicBool>,
    observed: Ghost<bool>,
    exclusive: Ghost<bool>,
}

impl View for ShutdownFlag {
    type V = bool;

    closed spec fn view(&self) -> bool {
        self.observed@
    }
}

impl ShutdownFlag {
    /// The shared allocation this handle refers to; two handles with the
    /// same one read and set the same flag.
    pub closed spec fn handle(&self) -> Arc<AtomicBool> {
        self.inner
    }

    /// Whether this handle is the only one to its flag: no duplicate was
    /// ever taken from it or from an ancestor.
    pub closed spec fn exclusive(&self) -> bool {
        self.exclusive@
    }

    /// A fresh flag, unset and not yet shared.
    pub fn new() -> (r: ShutdownFlag)
        ensures
            r@ == false,
            r.exclusive(),
    {
        ShutdownFlag {
            inner: Arc::new(AtomicBool::new(false)),
            observed: Ghost(false),
            exclusive: Ghost(true),
        }
    }

    /// Requests shutdown.  Idempotent: the flag is only ever set, never
    /// reset, so a second call changes nothing observable.
    pub fn set(&mut self)
        ensures
            final(self)@ == true,
            final(self).handle() == old(self).handle(),
            final(self).exclusive() == old(self).exclusive(),
    {
        self.inner.store(true, Ordering::Relaxed);
        self.observed = Ghost(true);
    }

    /// A second handle to the same flag, with the same knowledge of it.
    /// Both handles are shared from here on: neither can claim an exclusive
    /// read again.
    pub fn duplicate(&mut self) -> (r: ShutdownFlag)
        ensures
            final(self)@ == old(self)@,
            final(self).handle() == old(self).handle(),
            !final(self).exclusive(),
            r@ == old(self)@,
            r.handle() == old(self).handle(),
            !r.exclusive(),
    {
        let inner = clone_arc_flag(&self.inner);
        self.exclusive = Ghost(false);
        ShutdownFlag { inner, observed: Ghost(self.observed@), exclusive: Ghost(false) }
    }

    /// Non-blocking read of the flag.
    ///
    /// Relies on AtomicBool::load: for one memory location a load ordered
    /// after a store of `true` reads `true`, and nothing ever stores `false`
    /// into this flag after its initialization — so a handle whose lineage
    /// has set the flag reads it as set.  And every store goes through
    /// [`ShutdownFlag::set`] on some handle — so the flag of a sole handle
    /// whose lineage never set it was never stored to at all, and reads
    /// `false`.  Of a shared handle whose lineage did not set the flag,
    /// nothing is promised: any other handle may have set it meanwhile.
    #[verifier::external_body]
    pub fn is_set(&self) -> (r: bool)
        ensures
            self@ ==> r,
            self.exclusive() && !self@ ==> !r,
    {
        self.inner.load(Ordering::Relaxed)
    }
}

/// Relies on Arc::clone: the duplicate is a handle to the same allocation.
#[verifier::external_body]
fn clone_arc_flag(a: &Arc<AtomicBool>) -> (r: Arc<AtomicBool>)
    ensures
        r == *a,
{
    Arc::clone(a)
}

} // verus!
