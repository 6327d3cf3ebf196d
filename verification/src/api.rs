//! The externally invocable command handlers: `stop`, `getinfo` and
//! `listvaults`.
//!
//! Each handler validates its input, builds an envelope, enqueues it for the
//! worker and, when a result is expected, blocks on the reply channel it
//! created for that one call.  Malformed input never reaches the worker: it
//! is rejected here with an invalid-parameter error naming the offending
//! value.  A failed enqueue or a reply channel dropped without a value means
//! the only worker is gone; that comes back as the fatal
//! [`RpcError::WorkerUnreachable`], which the caller must answer by stopping
//! the whole process.

use crate::shutdown::ShutdownFlag;
use crate::spec_version;
use crate::status::VaultStatus;
use crate::threadmessages::clone_sender;
use crate::threadmessages::recv_message;
use crate::threadmessages::send_message;
use crate::threadmessages::sync_channel_pair;
use crate::threadmessages::GetInfoReply;
use crate::threadmessages::ListVaultsFilters;
use crate::threadmessages::RpcMessageIn;
use crate::threadmessages::ThreadMessageIn;
use crate::txid::lemma_from_hex_cases;
use crate::txid::spec_decoded_txid;
use crate::txid::spec_hex_error;
use crate::txid::spec_txid_hex_valid;
use crate::txid::HexError;
use crate::txid::Txid;
use crate::version;
use std::sync::mpsc::Sender;
use vstd::prelude::*;
use vstd::string::StringExecFns;

verus! {

/// What a command handler can report instead of a result.
#[derive(Debug)]
pub enum RpcError {
    /// Invalid parameter: the status filter names no lifecycle state.
    InvalidStatus { value: String },
    /// Invalid parameter: an identifier does not decode, with the decode
    /// failure alongside the offending string.
    InvalidTxid { value: String, reason: HexError },
    /// The worker cannot be reached: the enqueue failed, or the reply
    /// channel was dropped without a value.  Fatal — the caller must stop
    /// the whole process rather than keep serving without its worker.
    WorkerUnreachable,
}

impl RpcError {
    /// The human-readable message for this error, naming the offending
    /// value where there is one.
    pub open spec fn spec_message(self) -> Seq<char> {
        match self {
            RpcError::InvalidStatus { value } => "'"@ + value@ + "' is not a valid vault status"@,
            RpcError::InvalidTxid { value, reason } => "'"@ + value@ + "' is not a valid txid ("@
                + reason.spec_reason() + ")"@,
            RpcError::WorkerUnreachable => "the working thread is unreachable"@,
        }
    }

    /// Renders the error message.
    pub fn message(&self) -> (r: String)
        ensures
            r@ == self.spec_message(),
    {
        match self {
            RpcError::InvalidStatus { value } => "'".to_owned().concat(value.as_str()).concat(
                "' is not a valid vault status",
            ),
            RpcError::InvalidTxid { value, reason } => "'".to_owned().concat(value.as_str()).concat(
                "' is not a valid txid (",
            ).concat(reason.reason()).concat(")"),
            RpcError::WorkerUnreachable => "the working thread is unreachable".to_owned(),
        }
    }
}

/// The per-connection dispatch context: a sender to the worker's inbound
/// queue and the process-wide shutdown flag.
///
/// `sent` is the model of the envelopes this handle has handed to the queue
/// and seen accepted, in order; it is kept by [`JsonRpcMetaData::enqueue`],
/// the one place the context sends, so the handlers' contracts can say what
/// each call enqueues.  The log is per handle: clones feed the same real
/// queue but account for their own sends.
pub struct JsonRpcMetaData {
    pub tx: Sender<ThreadMessageIn>,
    pub shutdown: ShutdownFlag,
    pub sent: Ghost<Seq<ThreadMessageIn>>,
}

impl JsonRpcMetaData {
    /// A fresh context around a sender to the worker's queue, with the
    /// shutdown flag unset, not yet shared, and nothing enqueued yet — so
    /// `is_shutdown` on the fresh context returns `false`.
    pub fn from_tx(tx: Sender<ThreadMessageIn>) -> (r: Self)
        ensures
            r.tx == tx,
            r.shutdown@ == false,
            r.shutdown.exclusive(),
            r.sent@ == Seq::<ThreadMessageIn>::empty(),
    {
        JsonRpcMetaData {
            tx,
            shutdown: ShutdownFlag::new(),
            sent: Ghost(Seq::empty()),
        }
    }

    /// Non-blocking read of the shutdown flag.  Relaxed ordering: a reader
    /// may see a flag freshly set elsewhere one scheduling quantum late,
    /// which is acceptable staleness — but a shutdown this handle's own
    /// lineage requested is always seen, and a context that never shared
    /// its flag reads exactly what its own history says.
    pub fn is_shutdown(&self) -> (r: bool)
        ensures
            self.shutdown@ ==> r,
            self.shutdown.exclusive() && !self.shutdown@ ==> !r,
    {
        self.shutdown.is_set()
    }

    /// Requests shutdown.  Idempotent, and monotonic: the flag is only ever
    /// set, never reset.  Setting it does not itself stop the worker — that
    /// is the Shutdown envelope's job.
    pub fn shutdown(&mut self)
        ensures
            final(self).tx == old(self).tx,
            final(self).shutdown@ == true,
            final(self).shutdown.handle() == old(self).shutdown.handle(),
            final(self).shutdown.exclusive() == old(self).shutdown.exclusive(),
            final(self).sent@ == old(self).sent@,
    {
        self.shutdown.set();
    }

    /// Hands one envelope to the worker's queue and logs it in the model
    /// when the queue accepted it.
    fn enqueue(&mut self, msg: ThreadMessageIn) -> (ok: bool)
        ensures
            final(self).tx == old(self).tx,
            final(self).shutdown == old(self).shutdown,
            ok ==> final(self).sent@ == old(self).sent@.push(msg),
            !ok ==> final(self).sent@ == old(self).sent@,
    {
        let ghost m = msg;
        let ok = send_message(&self.tx, msg);
        if ok {
            self.sent = Ghost(self.sent@.push(m));
        }
        ok
    }
}

impl JsonRpcMetaData {
    /// A second context for another connection: it feeds the same queue and
    /// shares the same flag, with the same model state.  Duplication is the
    /// cheap per-connection copy of the original design; it takes `&mut`
    /// because both contexts give up the exclusive view of the flag.
    pub fn duplicate(&mut self) -> (r: Self)
        ensures
            final(self).tx == old(self).tx,
            final(self).shutdown@ == old(self).shutdown@,
            final(self).shutdown.handle() == old(self).shutdown.handle(),
            final(self).sent@ == old(self).sent@,
            r.tx == old(self).tx,
            r.shutdown@ == old(self).shutdown@,
            r.shutdown.handle() == old(self).shutdown.handle(),
            r.sent@ == old(self).sent@,
    {
        JsonRpcMetaData {
            tx: clone_sender(&self.tx),
            shutdown: self.shutdown.duplicate(),
            sent: Ghost(self.sent@),
        }
    }
}

/// What `getinfo` hands back: the build version combined with the triple
/// the worker replied.
#[derive(Debug)]
pub struct GetInfoResult {
    pub version: String,
    pub network: String,
    pub blockheight: u32,
    /// The worker's sync progress, carried as in
    /// [`GetInfoReply`](crate::threadmessages::GetInfoReply).
    pub sync_bits: u64,
}

/// What `listvaults` hands back: the worker's matching vault descriptions,
/// in the worker's order.
#[derive(Debug)]
pub struct ListVaultsResult {
    pub vaults: Vec<String>,
}

/// Builds the `getinfo` result from whatever triple the worker replied.
pub fn getinfo_result(reply: GetInfoReply) -> (r: GetInfoResult)
    ensures
        r.version@ == spec_version(),
        r.network == reply.network,
        r.blockheight == reply.blockheight,
        r.sync_bits == reply.sync_bits,
{
    GetInfoResult {
        version: version().to_owned(),
        network: reply.network,
        blockheight: reply.blockheight,
        sync_bits: reply.sync_bits,
    }
}

/// Wraps whatever collection the worker replied to `listvaults`.
pub fn list_vaults_result(vaults: Vec<String>) -> (r: ListVaultsResult)
    ensures
        r.vaults == vaults,
{
    ListVaultsResult { vaults }
}

/// The exact outcome of validating the optional status filter: the error
/// `listvaults` reports, or `None` when the filter is admissible.
pub open spec fn spec_status_error(status: Option<String>) -> Option<RpcError> {
    match status {
        None => None,
        Some(s) => match VaultStatus::spec_from_name(s@) {
            Some(_) => None,
            None => Some(RpcError::InvalidStatus { value: s }),
        },
    }
}

/// The position of the first string of `l` at or after `i` that does not
/// spell a transaction identifier, or `l.len()` if every one does.
pub open spec fn first_bad_txid_from(l: Seq<String>, i: int) -> int
    recommends
        0 <= i <= l.len(),
    decreases l.len() - i,
{
    if i >= l.len() {
        i
    } else if !spec_txid_hex_valid(l[i]@) {
        i
    } else {
        first_bad_txid_from(l, i + 1)
    }
}

/// The position of the first string of `l` that does not spell a
/// transaction identifier, or `l.len()` if every one does.
pub open spec fn first_bad_txid(l: Seq<String>) -> int {
    first_bad_txid_from(l, 0)
}

proof fn lemma_first_bad_txid_from(l: Seq<String>, i: int)
    requires
        0 <= i <= l.len(),
    ensures
        i <= first_bad_txid_from(l, i) <= l.len(),
        forall|k: int|
            i <= k < first_bad_txid_from(l, i) ==> spec_txid_hex_valid(#[trigger] l[k]@),
        first_bad_txid_from(l, i) < l.len() ==> !spec_txid_hex_valid(
            l[first_bad_txid_from(l, i)]@,
        ),
    decreases l.len() - i,
{
    if i < l.len() && spec_txid_hex_valid(l[i]@) {
        lemma_first_bad_txid_from(l, i + 1);
    }
}

proof fn lemma_first_bad_txid_at(l: Seq<String>, p: int)
    requires
        0 <= p < l.len(),
        forall|k: int| 0 <= k < p ==> spec_txid_hex_valid(#[trigger] l[k]@),
        !spec_txid_hex_valid(l[p]@),
    ensures
        first_bad_txid(l) == p,
{
    lemma_first_bad_txid_from_at(l, 0, p);
}

proof fn lemma_first_bad_txid_from_at(l: Seq<String>, i: int, p: int)
    requires
        0 <= i <= p < l.len(),
        forall|k: int| i <= k < p ==> spec_txid_hex_valid(#[trigger] l[k]@),
        !spec_txid_hex_valid(l[p]@),
    ensures
        first_bad_txid_from(l, i) == p,
    decreases p - i,
{
    if i < p {
        lemma_first_bad_txid_from_at(l, i + 1, p);
    }
}

/// The exact outcome of validating the optional identifier filter: the
/// error `listvaults` reports — naming the first bad string and its decode
/// failure — or `None` when every identifier decodes.
pub open spec fn spec_txids_error(txids: Option<Vec<String>>) -> Option<RpcError> {
    match txids {
        None => None,
        Some(l) => if first_bad_txid(l@) < l@.len() {
            Some(
                RpcError::InvalidTxid {
                    value: l@[first_bad_txid(l@)],
                    reason: spec_hex_error(l@[first_bad_txid(l@)]@),
                },
            )
        } else {
            None
        },
    }
}

/// Validates the optional status filter exactly as `listvaults` does.
pub fn parse_status_filter(status: Option<String>) -> (r: Result<Option<VaultStatus>, RpcError>)
    ensures
        match spec_status_error(status) {
            Some(e) => r == Err::<Option<VaultStatus>, RpcError>(e),
            None => match status {
                None => r == Ok::<Option<VaultStatus>, RpcError>(None),
                Some(s) => r == Ok::<Option<VaultStatus>, RpcError>(
                    VaultStatus::spec_from_name(s@),
                ),
            },
        },
{
    if status.is_none() {
        return Ok(None);
    }
    let s = status.unwrap();
    match VaultStatus::from_str(s.as_str()) {
        Some(vs) => Ok(Some(vs)),
        None => Err(RpcError::InvalidStatus { value: s }),
    }
}

/// Decodes the optional identifier filter exactly as `listvaults` does.
/// All-or-nothing: the first string that does not decode fails the whole
/// call, and nothing of the list survives.
pub fn parse_txids_filter(txids: Option<Vec<String>>) -> (r: Result<Option<Vec<Txid>>, RpcError>)
    ensures
        match spec_txids_error(txids) {
            Some(e) => r == Err::<Option<Vec<Txid>>, RpcError>(e),
            None => match txids {
                None => r matches Ok(o) && o is None,
                Some(l) => r matches Ok(o) && o matches Some(v) && v@.len() == l@.len() && (
                forall|i: int|
                    0 <= i < v@.len() ==> (#[trigger] v@[i])@ == spec_decoded_txid(l@[i]@)
                        && v@[i].wf()),
            },
        },
{
    if txids.is_none() {
        return Ok(None);
    }
    let l = txids.unwrap();
    let mut out: Vec<Txid> = Vec::new();
    let mut i: usize = 0;
    while i < l.len()
        invariant
            txids == Some(l),
            i <= l@.len(),
            out@.len() == i,
            forall|k: int| 0 <= k < i ==> spec_txid_hex_valid(#[trigger] l@[k]@),
            forall|k: int|
                0 <= k < i ==> (#[trigger] out@[k])@ == spec_decoded_txid(l@[k]@)
                    && out@[k].wf(),
        decreases l@.len() - i,
    {
        match Txid::from_hex(l[i].as_str()) {
            Ok(t) => {
                proof {
                    lemma_from_hex_cases(l@[i as int]@);
                }
                out.push(t);
            },
            Err(e) => {
                proof {
                    lemma_from_hex_cases(l@[i as int]@);
                    lemma_first_bad_txid_at(l@, i as int);
                }
                return Err(RpcError::InvalidTxid { value: l[i].clone(), reason: e });
            },
        }
        i += 1;
    }
    proof {
        lemma_first_bad_txid_from(l@, 0);
    }
    Ok(Some(out))
}

/// Both filters are admissible: nothing for `listvaults` to reject.
pub open spec fn spec_filters_ok(status: Option<String>, txids: Option<Vec<String>>) -> bool {
    spec_status_error(status) is None && spec_txids_error(txids) is None
}

/// The envelope asks for the status triple.
pub open spec fn is_getinfo_envelope(m: ThreadMessageIn) -> bool {
    m matches ThreadMessageIn::Rpc(RpcMessageIn::GetInfo(_))
}

/// `f` holds exactly the decoded forms of the given raw filters: the parsed
/// lifecycle state, and the decoded 32-byte identifiers, element for
/// element — never the raw strings.
pub open spec fn spec_filters_match(
    status: Option<String>,
    txids: Option<Vec<String>>,
    f: ListVaultsFilters,
) -> bool {
    &&& f.status == (match status {
        None => None::<VaultStatus>,
        Some(s) => VaultStatus::spec_from_name(s@),
    })
    &&& (match txids {
        None => f.txids is None,
        Some(l) => f.txids matches Some(v) && v@.len() == l@.len() && (forall|i: int|
            0 <= i < v@.len() ==> (#[trigger] v@[i])@ == spec_decoded_txid(l@[i]@)
                && v@[i].wf()),
    })
}

/// The envelope asks for the vaults matching exactly the decoded filters.
pub open spec fn is_listvaults_envelope(
    m: ThreadMessageIn,
    status: Option<String>,
    txids: Option<Vec<String>>,
) -> bool {
    m matches ThreadMessageIn::Rpc(RpcMessageIn::ListVaults(f, _)) && spec_filters_match(
        status,
        txids,
        f,
    )
}

/// The handlers' receiver-side type; the front end hands each call a
/// dispatch context.
pub struct RpcImpl;

impl RpcImpl {
    /// Sets the shutdown flag, then enqueues exactly one terminal Shutdown
    /// envelope.  Fire-and-forget: the handler does not wait for the worker
    /// to actually finish, so from the caller's point of view it succeeds
    /// whenever the worker could still be reached.
    pub fn stop(&self, meta: &mut JsonRpcMetaData) -> (r: Result<(), RpcError>)
        ensures
            final(meta).tx == old(meta).tx,
            final(meta).shutdown@ == true,
            final(meta).shutdown.handle() == old(meta).shutdown.handle(),
            final(meta).shutdown.exclusive() == old(meta).shutdown.exclusive(),
            r is Ok ==> final(meta).sent@ == old(meta).sent@.push(
                ThreadMessageIn::Rpc(RpcMessageIn::Shutdown),
            ),
            r matches Err(e) ==> e is WorkerUnreachable && final(meta).sent@ == old(meta).sent@,
    {
        meta.shutdown();
        if meta.enqueue(ThreadMessageIn::Rpc(RpcMessageIn::Shutdown)) {
            Ok(())
        } else {
            Err(RpcError::WorkerUnreachable)
        }
    }

    /// Asks the worker for its status triple over a fresh one-shot
    /// rendezvous channel, blocks on the reply, and combines it with the
    /// build version.  Whatever triple comes back is wrapped by
    /// [`getinfo_result`]; a dropped channel is the fatal condition.
    pub fn getinfo(&self, meta: &mut JsonRpcMetaData) -> (r: Result<GetInfoResult, RpcError>)
        ensures
            final(meta).tx == old(meta).tx,
            final(meta).shutdown == old(meta).shutdown,
            final(meta).sent@ == old(meta).sent@ || (final(meta).sent@
                == old(meta).sent@.push(final(meta).sent@.last()) && is_getinfo_envelope(
                final(meta).sent@.last(),
            )),
            r matches Ok(info) ==> final(meta).sent@.len() == old(meta).sent@.len() + 1
                && info.version@ == spec_version(),
            r matches Err(e) ==> e is WorkerUnreachable,
    {
        let (reply_tx, reply_rx) = sync_channel_pair::<GetInfoReply>(0);
        if !meta.enqueue(ThreadMessageIn::Rpc(RpcMessageIn::GetInfo(reply_tx))) {
            return Err(RpcError::WorkerUnreachable);
        }
        match recv_message(&reply_rx) {
            Some(reply) => Ok(getinfo_result(reply)),
            None => Err(RpcError::WorkerUnreachable),
        }
    }

    /// Validates both filters, and only when both are admissible builds the
    /// one envelope — carrying the decoded filters, never the raw strings —
    /// enqueues it, and blocks on the reply.  A rejected filter comes back
    /// as exactly the invalid-parameter error of [`spec_status_error`] or
    /// [`spec_txids_error`], with the context untouched: nothing reaches
    /// the worker.  On success the worker's collection is handed back
    /// unchanged.
    pub fn listvaults(
        &self,
        meta: &mut JsonRpcMetaData,
        status: Option<String>,
        txids: Option<Vec<String>>,
    ) -> (r: Result<ListVaultsResult, RpcError>)
        ensures
            final(meta).tx == old(meta).tx,
            final(meta).shutdown == old(meta).shutdown,
            spec_status_error(status) matches Some(e) ==> r == Err::<ListVaultsResult, RpcError>(
                e,
            ) && *final(meta) == *old(meta),
            spec_status_error(status) is None ==> (spec_txids_error(txids) matches Some(e) ==> r
                == Err::<ListVaultsResult, RpcError>(e) && *final(meta) == *old(meta)),
            spec_filters_ok(status, txids) ==> (final(meta).sent@ == old(meta).sent@ || (final(meta).sent@
                == old(meta).sent@.push(final(meta).sent@.last()) && is_listvaults_envelope(
                final(meta).sent@.last(),
                status,
                txids,
            ))),
            spec_filters_ok(status, txids) ==> (r matches Err(e) ==> e is WorkerUnreachable),
            r is Ok ==> spec_filters_ok(status, txids) && final(meta).sent@.len()
                == old(meta).sent@.len() + 1,
    {
        let status_filter = match parse_status_filter(status) {
            Ok(f) => f,
            Err(e) => {
                return Err(e);
            },
        };
        let txid_filter = match parse_txids_filter(txids) {
            Ok(f) => f,
            Err(e) => {
                return Err(e);
            },
        };
        let (reply_tx, reply_rx) = sync_channel_pair::<Vec<String>>(0);
        let filters = ListVaultsFilters { status: status_filter, txids: txid_filter };
        if !meta.enqueue(ThreadMessageIn::Rpc(RpcMessageIn::ListVaults(filters, reply_tx))) {
            return Err(RpcError::WorkerUnreachable);
        }
        match recv_message(&reply_rx) {
            Some(vaults) => Ok(list_vaults_result(vaults)),
            None => Err(RpcError::WorkerUnreachable),
        }
    }
}

} // verus!
