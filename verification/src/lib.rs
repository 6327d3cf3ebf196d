//! A request/response bridge between externally invoked command handlers and
//! a daemon's single worker thread.
//!
//! The handlers in [`api`] validate their input, build a [`threadmessages`]
//! envelope, enqueue it for the worker and block on a one-shot rendezvous
//! channel for the reply.  The worker's own bookkeeping is out of scope: the
//! bridge only knows the shape of the requests and replies it carries.

use vstd::prelude::*;

pub mod api;
pub mod shutdown;
pub mod status;
pub mod threadmessages;
pub mod txid;

verus! {

/// The version string reported by `getinfo`.
pub open spec fn spec_version() -> Seq<char> {
    "0.0.99"@
}

/// The daemon's build version, a process-wide constant.
pub fn version() -> (r: &'static str)
    ensures
        r@ == spec_version(),
{
    "0.0.99"
}

} // verus!
