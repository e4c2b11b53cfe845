use chain_kv::Database;
use chain_kv::NodeConfig;
use chain_kv::QueryNode;
use chain_kv::ReplicationNode;
use chain_kv::Route;
use chain_kv::RpcError;
use chain_kv::SendVerdict;
use chain_kv::StoreVerdict;

fn config(next: Option<&str>, prev: Option<&str>) -> NodeConfig {
    NodeConfig {
        next_addr: next.map(|s| s.to_string()),
        prev_addr: prev.map(|s| s.to_string()),
        bind_addr: "127.0.0.1:50051".to_string(),
        db_path: "chain-db".to_string(),
    }
}

fn node(next: Option<&str>, prev: Option<&str>) -> ReplicationNode {
    let cfg = config(next, prev);
    let db = Database::default(cfg.clone());
    ReplicationNode::default(cfg, db)
}

fn query(n: &ReplicationNode, id: &str, key: &[u8]) -> Result<Vec<u8>, RpcError> {
    let q = QueryNode { node: n.node.clone() };
    q.get(id.to_string(), key.to_vec()).map(|reply| reply.value)
}

#[test]
fn accepted_write_is_readable() {
    let mut tail = node(None, Some("head"));
    let reply = tail
        .update(
            "w1".to_string(),
            b"k".to_vec(),
            b"v".to_vec(),
            StoreVerdict::Persisted,
            SendVerdict::Delivered,
        )
        .unwrap();
    assert_eq!(reply.id, "w1");
    assert_eq!(query(&tail, "q1", b"k"), Ok(b"v".to_vec()));
}

#[test]
fn forwarded_write_is_tracked_until_acknowledged() {
    let mut mid = node(Some("tail"), Some("head"));
    let reply = mid
        .update(
            "w1".to_string(),
            b"k".to_vec(),
            b"v".to_vec(),
            StoreVerdict::Persisted,
            SendVerdict::Delivered,
        )
        .unwrap();
    assert!(!reply.originate_ack);
    assert!(mid.sent_contains(&"w1".to_string()));
    assert!(mid.pending_contains(&"w1".to_string()));

    // An acknowledgment for a different identifier does not retire it.
    mid.handle_ack("w9".to_string(), SendVerdict::Delivered).unwrap();
    assert!(mid.pending_contains(&"w1".to_string()));

    // The matching acknowledgment does.
    mid.handle_ack("w1".to_string(), SendVerdict::Delivered).unwrap();
    assert!(!mid.pending_contains(&"w1".to_string()));
    assert!(mid.sent_contains(&"w1".to_string()));
}

#[test]
fn ack_is_idempotent() {
    let mut mid = node(Some("tail"), Some("head"));
    mid.update(
        "w1".to_string(),
        b"k".to_vec(),
        b"v".to_vec(),
        StoreVerdict::Persisted,
        SendVerdict::Delivered,
    )
    .unwrap();
    let first = mid.handle_ack("w1".to_string(), SendVerdict::Delivered);
    let second = mid.handle_ack("w1".to_string(), SendVerdict::Delivered);
    assert!(first.is_ok());
    assert!(second.is_ok());
    assert!(!mid.pending_contains(&"w1".to_string()));
}

#[test]
fn single_node_chain_never_touches_the_network() {
    // With no successor the transport verdict is irrelevant: the write
    // persists and succeeds even when the transport would be unreachable.
    let mut single = node(None, None);
    let reply = single
        .update(
            "w1".to_string(),
            b"k".to_vec(),
            b"v".to_vec(),
            StoreVerdict::Persisted,
            SendVerdict::Unreachable,
        )
        .unwrap();
    assert!(reply.originate_ack);
    assert_eq!(single.next_route(), Route::Absent);
    assert_eq!(single.prev_route(), Route::Absent);
    assert_eq!(query(&single, "q1", b"k"), Ok(b"v".to_vec()));

    // Or it fails with the storage engine's error, with nothing recorded.
    let mut failing = node(None, None);
    let r = failing.update(
        "w2".to_string(),
        b"k".to_vec(),
        b"v".to_vec(),
        StoreVerdict::Failed,
        SendVerdict::Unreachable,
    );
    assert_eq!(r.unwrap_err(), RpcError::Internal);
    assert_eq!(query(&failing, "q1", b"k"), Err(RpcError::NotFound));
}

#[test]
fn tail_leaves_nothing_pending() {
    let mut tail = node(None, Some("mid"));
    let reply = tail
        .update(
            "w1".to_string(),
            b"k".to_vec(),
            b"v".to_vec(),
            StoreVerdict::Persisted,
            SendVerdict::Delivered,
        )
        .unwrap();
    assert!(reply.originate_ack);
    assert!(!tail.pending_contains(&"w1".to_string()));
    assert!(!tail.sent_contains(&"w1".to_string()));
}

#[test]
fn three_node_chain_write_and_ack_wave() {
    let mut head = node(Some("mid"), None);
    let mut mid = node(Some("tail"), Some("head"));
    let mut tail = node(None, Some("mid"));

    // The write flows forward through the chain.
    let at_head = head
        .update(
            "w1".to_string(),
            b"k".to_vec(),
            b"v".to_vec(),
            StoreVerdict::Persisted,
            SendVerdict::Delivered,
        )
        .unwrap();
    assert_eq!(at_head.id, "w1");
    assert!(!at_head.originate_ack);
    let at_mid = mid
        .update(
            "w1".to_string(),
            b"k".to_vec(),
            b"v".to_vec(),
            StoreVerdict::Persisted,
            SendVerdict::Delivered,
        )
        .unwrap();
    assert!(!at_mid.originate_ack);
    let at_tail = tail
        .update(
            "w1".to_string(),
            b"k".to_vec(),
            b"v".to_vec(),
            StoreVerdict::Persisted,
            SendVerdict::Delivered,
        )
        .unwrap();
    assert!(at_tail.originate_ack);

    // The key is readable on every node.
    assert_eq!(query(&head, "q1", b"k"), Ok(b"v".to_vec()));
    assert_eq!(query(&mid, "q1", b"k"), Ok(b"v".to_vec()));
    assert_eq!(query(&tail, "q1", b"k"), Ok(b"v".to_vec()));

    // The tail originates the acknowledgment wave, which retires the
    // pending entry at every hop on its way back to the head.
    tail.handle_ack("w1".to_string(), SendVerdict::Delivered).unwrap();
    mid.handle_ack("w1".to_string(), SendVerdict::Delivered).unwrap();
    head.handle_ack("w1".to_string(), SendVerdict::Delivered).unwrap();
    assert!(!head.pending_contains(&"w1".to_string()));
    assert!(!mid.pending_contains(&"w1".to_string()));
    assert!(!tail.pending_contains(&"w1".to_string()));
    assert!(head.sent_contains(&"w1".to_string()));
}

#[test]
fn empty_key_is_rejected_without_side_effects() {
    let mut head = node(Some("mid"), None);
    let r = head.update(
        "w2".to_string(),
        b"".to_vec(),
        b"v".to_vec(),
        StoreVerdict::Persisted,
        SendVerdict::Delivered,
    );
    assert_eq!(r.unwrap_err(), RpcError::InvalidArgument);
    assert!(!head.sent_contains(&"w2".to_string()));
    assert!(!head.pending_contains(&"w2".to_string()));
}

#[test]
fn empty_value_is_rejected_without_side_effects() {
    let mut head = node(Some("mid"), None);
    let r = head.update(
        "w2".to_string(),
        b"k".to_vec(),
        b"".to_vec(),
        StoreVerdict::Persisted,
        SendVerdict::Delivered,
    );
    assert_eq!(r.unwrap_err(), RpcError::InvalidArgument);
    assert_eq!(query(&head, "q1", b"k"), Err(RpcError::NotFound));
}

#[test]
fn empty_ack_id_is_rejected() {
    let mut mid = node(Some("tail"), Some("head"));
    let r = mid.handle_ack(String::new(), SendVerdict::Delivered);
    assert_eq!(r.unwrap_err(), RpcError::InvalidArgument);
}

#[test]
fn unreachable_successor_keeps_the_local_write() {
    let mut head = node(Some("mid"), None);
    let r = head.update(
        "w3".to_string(),
        b"k".to_vec(),
        b"v".to_vec(),
        StoreVerdict::Persisted,
        SendVerdict::Unreachable,
    );
    assert_eq!(r.unwrap_err(), RpcError::Internal);
    // Durable locally, but not tracked as replicated.
    assert_eq!(query(&head, "q1", b"k"), Ok(b"v".to_vec()));
    assert!(!head.sent_contains(&"w3".to_string()));
    assert!(!head.pending_contains(&"w3".to_string()));
    // The failed connection is not cached: the next attempt re-establishes.
    assert_eq!(head.next_route(), Route::Dial);
}

#[test]
fn unreachable_predecessor_still_retires_the_pending_entry() {
    let mut mid = node(Some("tail"), Some("head"));
    mid.update(
        "w1".to_string(),
        b"k".to_vec(),
        b"v".to_vec(),
        StoreVerdict::Persisted,
        SendVerdict::Delivered,
    )
    .unwrap();
    let r = mid.handle_ack("w1".to_string(), SendVerdict::Unreachable);
    assert_eq!(r.unwrap_err(), RpcError::Internal);
    assert!(!mid.pending_contains(&"w1".to_string()));
    assert_eq!(mid.prev_route(), Route::Dial);
}

#[test]
fn query_for_a_key_never_written_is_not_found() {
    let single = node(None, None);
    assert_eq!(query(&single, "q1", b"missing"), Err(RpcError::NotFound));
}

#[test]
fn query_with_empty_key_is_rejected() {
    let single = node(None, None);
    assert_eq!(query(&single, "q1", b""), Err(RpcError::InvalidArgument));
}

#[test]
fn ack_twice_in_sequence_succeeds_both_times() {
    let mut mid = node(Some("tail"), Some("head"));
    mid.update(
        "w1".to_string(),
        b"k".to_vec(),
        b"v".to_vec(),
        StoreVerdict::Persisted,
        SendVerdict::Delivered,
    )
    .unwrap();
    let first = mid.handle_ack("w1".to_string(), SendVerdict::Delivered).unwrap();
    let second = mid.handle_ack("w1".to_string(), SendVerdict::Delivered).unwrap();
    assert_eq!(first.id, "w1");
    assert_eq!(second.id, "w1");
}

#[test]
fn connection_is_cached_after_delivery_and_reused() {
    let mut head = node(Some("mid"), None);
    assert_eq!(head.next_route(), Route::Dial);
    head.update(
        "w1".to_string(),
        b"k".to_vec(),
        b"v".to_vec(),
        StoreVerdict::Persisted,
        SendVerdict::Delivered,
    )
    .unwrap();
    assert_eq!(head.next_route(), Route::Reuse);
    assert_eq!(head.next_address(), &Some("mid".to_string()));
    // A later failure invalidates the cached connection.
    let r = head.update(
        "w2".to_string(),
        b"k2".to_vec(),
        b"v2".to_vec(),
        StoreVerdict::Persisted,
        SendVerdict::Unreachable,
    );
    assert!(r.is_err());
    assert_eq!(head.next_route(), Route::Dial);
}

#[test]
fn storage_failure_stops_the_write_before_forwarding() {
    let mut head = node(Some("mid"), None);
    let r = head.update(
        "w1".to_string(),
        b"k".to_vec(),
        b"v".to_vec(),
        StoreVerdict::Failed,
        SendVerdict::Delivered,
    );
    assert_eq!(r.unwrap_err(), RpcError::Internal);
    assert_eq!(query(&head, "q1", b"k"), Err(RpcError::NotFound));
    assert!(!head.sent_contains(&"w1".to_string()));
    assert!(!head.pending_contains(&"w1".to_string()));
}
