//! The envelopes carried from the command handlers to the worker thread, and
//! the channel endpoints they travel on.
//!
//! Each envelope that expects an answer carries the send end of a fresh
//! one-shot rendezvous channel; the handler that built it blocks on the
//! receive end.  The channels themselves are `std::sync::mpsc`, taken on
//! trust: the bridge's contracts never claim how a value travels, only what
//! the handlers do with whatever comes back.

use crate::status::VaultStatus;
use crate::txid::Txid;
use std::sync::mpsc::Receiver;
use std::sync::mpsc::Sender;
use std::sync::mpsc::SyncSender;
use vstd::prelude::*;

verus! {

#[verifier::external_type_specification]
#[verifier::external_body]
#[verifier::reject_recursive_types(T)]
pub struct ExSender<T>(Sender<T>);

#[verifier::external_type_specification]
#[verifier::external_body]
#[verifier::reject_recursive_types(T)]
pub struct ExSyncSender<T>(SyncSender<T>);

#[verifier::external_type_specification]
#[verifier::external_body]
#[verifier::reject_recursive_types(T)]
pub struct ExReceiver<T>(Receiver<T>);

/// Relies on std::sync::mpsc::sync_channel: returns the two endpoints of one
/// bounded channel; with bound 0 every send rendezvouses with a receive.
#[verifier::external_body]
pub(crate) fn sync_channel_pair<T>(bound: usize) -> (SyncSender<T>, Receiver<T>) {
    std::sync::mpsc::sync_channel(bound)
}

/// Relies on std::sync::mpsc::Sender::send: enqueues the value unless every
/// receiver is gone.  Whether the send reached anyone depends on the other
/// side, so only the outcome is handed back.
#[verifier::external_body]
pub(crate) fn send_message<T>(tx: &Sender<T>, msg: T) -> bool {
    tx.send(msg).is_ok()
}

/// Relies on std::sync::mpsc::Receiver::recv: blocks until a value arrives,
/// or until every sender is gone, which comes back as `None`.  What arrives
/// depends on the sending thread, so nothing is claimed of the value.
#[verifier::external_body]
pub(crate) fn recv_message<T>(rx: &Receiver<T>) -> Option<T> {
    rx.recv().ok()
}

/// Relies on std::sync::mpsc::Sender::clone: the duplicate feeds the same
/// queue as the original.
#[verifier::external_body]
pub(crate) fn clone_sender<T>(tx: &Sender<T>) -> (r: Sender<T>)
    ensures
        r == *tx,
{
    tx.clone()
}

/// The worker's answer to `getinfo`.
pub struct GetInfoReply {
    /// Which network the worker is tracking.
    pub network: String,
    /// The current block height.
    pub blockheight: u32,
    /// Chain-sync progress, carried opaquely as the raw bits of the worker's
    /// binary64 value; the bridge never interprets it.
    pub sync_bits: u64,
}

/// The validated `listvaults` filters, as the worker receives them.  The
/// filtering policy itself is the worker's, not the bridge's.
pub struct ListVaultsFilters {
    pub status: Option<VaultStatus>,
    pub txids: Option<Vec<Txid>>,
}

/// One envelope from a command handler.  Variants that expect an answer
/// carry the send end of the caller's one-shot reply channel; the worker
/// uses it exactly once, or drops it when shutting down.
pub enum RpcMessageIn {
    /// Terminal envelope: the worker finishes this message and then stops
    /// draining its queue.
    Shutdown,
    /// Asks for the status triple.
    GetInfo(SyncSender<GetInfoReply>),
    /// Asks for the vaults matching the already-validated filters; the reply
    /// holds one description per matching vault, in the worker's order.
    /// Each description is opaque to the bridge: its shape is the worker's.
    ListVaults(ListVaultsFilters, SyncSender<Vec<String>>),
}

/// Everything the worker's inbound queue carries.
pub enum ThreadMessageIn {
    Rpc(RpcMessageIn),
}

} // verus!
