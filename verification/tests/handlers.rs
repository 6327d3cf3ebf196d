//! The command handlers on the paths that need no live worker: rejection
//! before anything is enqueued, the shutdown sequence, the fatal reaction to
//! a dead queue, and the assembly of results from worker replies.

use revaultd::api::{
    getinfo_result, list_vaults_result, JsonRpcMetaData, RpcError, RpcImpl,
};
use revaultd::status::VaultStatus;
use revaultd::threadmessages::{GetInfoReply, RpcMessageIn, ThreadMessageIn};
use std::sync::mpsc;

#[test]
fn scenario_getinfo_combines_version_and_triple() {
    // The worker replied (network = "testnet", height = 100, sync = 1.0).
    let reply = GetInfoReply {
        network: "testnet".to_string(),
        blockheight: 100,
        sync_bits: 1.0f64.to_bits(),
    };
    let info = getinfo_result(reply);
    assert_eq!(info.version, revaultd::version());
    assert_eq!(info.network, "testnet");
    assert_eq!(info.blockheight, 100);
    assert_eq!(f64::from_bits(info.sync_bits), 1.0);
}

#[test]
fn scenario_listvaults_keeps_the_funded_selection() {
    // A worker holding two "funded" vaults and one "spent" one answers a
    // status = "funded" call with exactly the two funded descriptions; the
    // handler hands the collection back unchanged.
    let worker_vaults = [
        (VaultStatus::Funded, "vault-a"),
        (VaultStatus::Spent, "vault-b"),
        (VaultStatus::Funded, "vault-c"),
    ];
    let want = VaultStatus::from_str("funded").unwrap();
    let selected: Vec<String> = worker_vaults
        .iter()
        .filter(|(st, _)| *st == want)
        .map(|(_, d)| d.to_string())
        .collect();
    let r = list_vaults_result(selected);
    assert_eq!(r.vaults, vec!["vault-a".to_string(), "vault-c".to_string()]);
}

#[test]
fn scenario_bad_status_rejected_before_enqueue() {
    let (tx, rx) = mpsc::channel();
    let mut meta = JsonRpcMetaData::from_tx(tx);
    let e = RpcImpl
        .listvaults(&mut meta, Some("bogus".to_string()), None)
        .unwrap_err();
    match &e {
        RpcError::InvalidStatus { value } => assert_eq!(value, "bogus"),
        _ => panic!("expected the invalid-status variant"),
    }
    assert!(e.message().contains("bogus"));
    assert!(!meta.is_shutdown());
    if rx.try_recv().is_ok() {
        panic!("an envelope was enqueued for a rejected call");
    }
}

#[test]
fn scenario_bad_txid_rejected_before_enqueue() {
    let (tx, rx) = mpsc::channel();
    let mut meta = JsonRpcMetaData::from_tx(tx);
    let e = RpcImpl
        .listvaults(&mut meta, None, Some(vec!["zz".to_string()]))
        .unwrap_err();
    match &e {
        RpcError::InvalidTxid { value, .. } => assert_eq!(value, "zz"),
        _ => panic!("expected the invalid-txid variant"),
    }
    let msg = e.message();
    assert!(msg.contains("zz"));
    assert!(msg.contains("invalid hex string length"));
    assert!(!meta.is_shutdown());
    if rx.try_recv().is_ok() {
        panic!("an envelope was enqueued for a rejected call");
    }
}

#[test]
fn valid_filters_do_not_reach_the_worker_when_rejected_elsewhere() {
    // Status errors win over identifier errors, matching validation order.
    let (tx, rx) = mpsc::channel();
    let mut meta = JsonRpcMetaData::from_tx(tx);
    let e = RpcImpl
        .listvaults(
            &mut meta,
            Some("bogus".to_string()),
            Some(vec!["zz".to_string()]),
        )
        .unwrap_err();
    assert!(matches!(e, RpcError::InvalidStatus { .. }));
    if rx.try_recv().is_ok() {
        panic!("an envelope was enqueued for a rejected call");
    }
}

#[test]
fn scenario_dead_queue_is_fatal() {
    // The worker terminated before the call: every handler reports the
    // fatal condition the caller must answer with process termination.
    let (tx, rx) = mpsc::channel::<ThreadMessageIn>();
    drop(rx);
    let mut meta = JsonRpcMetaData::from_tx(tx);
    let mut m = meta.duplicate();
    let e = RpcImpl.getinfo(&mut m).unwrap_err();
    assert!(matches!(e, RpcError::WorkerUnreachable));
    assert_eq!(e.message(), "the working thread is unreachable");
    let mut m = meta.duplicate();
    let e = RpcImpl.listvaults(&mut m, None, None).unwrap_err();
    assert!(matches!(e, RpcError::WorkerUnreachable));
    let e = RpcImpl.stop(&mut meta).unwrap_err();
    assert!(matches!(e, RpcError::WorkerUnreachable));
}

#[test]
fn stop_sets_the_flag_and_enqueues_the_terminal_envelope() {
    let (tx, rx) = mpsc::channel();
    let mut meta = JsonRpcMetaData::from_tx(tx);
    assert!(!meta.is_shutdown());
    let mut m = meta.duplicate();
    RpcImpl.stop(&mut m).unwrap();
    // The flag is shared: the untouched original handle sees it too.
    assert!(m.is_shutdown());
    assert!(meta.is_shutdown());
    let first = rx.recv().unwrap();
    assert!(matches!(
        first,
        ThreadMessageIn::Rpc(RpcMessageIn::Shutdown)
    ));
    // Exactly one envelope for the one call.
    assert!(rx.try_recv().is_err());
}

#[test]
fn stop_is_idempotent() {
    // A second stop leaves the flag set and only adds another terminal
    // envelope; the worker stops at the first one it drains, so nothing
    // terminates twice.
    let (tx, rx) = mpsc::channel();
    let mut meta = JsonRpcMetaData::from_tx(tx);
    let mut m1 = meta.duplicate();
    RpcImpl.stop(&mut m1).unwrap();
    assert!(meta.is_shutdown());
    let mut m2 = meta.duplicate();
    RpcImpl.stop(&mut m2).unwrap();
    assert!(meta.is_shutdown());
    // One terminal envelope per call, and nothing else: the worker stops at
    // the first, so the second is never drained.
    for _ in 0..2 {
        assert!(matches!(
            rx.recv().unwrap(),
            ThreadMessageIn::Rpc(RpcMessageIn::Shutdown)
        ));
    }
    assert!(rx.try_recv().is_err());
}

#[test]
fn duplicated_contexts_share_flag_and_queue() {
    let (tx, rx) = mpsc::channel();
    let mut meta = JsonRpcMetaData::from_tx(tx);
    let mut dup = meta.duplicate();
    dup.shutdown();
    // The duplicate shares the original's flag ...
    assert!(meta.is_shutdown());
    // ... and feeds the same queue.
    RpcImpl.stop(&mut dup).unwrap();
    assert!(matches!(
        rx.recv().unwrap(),
        ThreadMessageIn::Rpc(RpcMessageIn::Shutdown)
    ));
}
