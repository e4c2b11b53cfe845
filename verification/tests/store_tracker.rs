use chain_kv::Database;
use chain_kv::Messages;
use chain_kv::NodeConfig;

fn config() -> NodeConfig {
    NodeConfig {
        next_addr: None,
        prev_addr: None,
        bind_addr: "127.0.0.1:50051".to_string(),
        db_path: "chain-db".to_string(),
    }
}

#[test]
fn fresh_database_is_empty() {
    let db = Database::default(config());
    assert_eq!(db.query(&b"k".to_vec()), None);
}

#[test]
fn insert_then_query_returns_value() {
    let mut db = Database::default(config());
    let replaced = db.insert(b"k".to_vec(), b"v".to_vec());
    assert_eq!(replaced, None);
    assert_eq!(db.query(&b"k".to_vec()), Some(b"v".to_vec()));
}

#[test]
fn insert_reports_replaced_value_and_last_write_wins() {
    let mut db = Database::default(config());
    assert_eq!(db.insert(b"k".to_vec(), b"v1".to_vec()), None);
    assert_eq!(db.insert(b"k".to_vec(), b"v2".to_vec()), Some(b"v1".to_vec()));
    assert_eq!(db.query(&b"k".to_vec()), Some(b"v2".to_vec()));
}

#[test]
fn distinct_keys_are_independent() {
    let mut db = Database::default(config());
    db.insert(b"a".to_vec(), b"1".to_vec());
    db.insert(b"b".to_vec(), b"2".to_vec());
    assert_eq!(db.query(&b"a".to_vec()), Some(b"1".to_vec()));
    assert_eq!(db.query(&b"b".to_vec()), Some(b"2".to_vec()));
    assert_eq!(db.query(&b"c".to_vec()), None);
}

#[test]
fn fresh_tracker_is_empty() {
    let m = Messages::default();
    assert!(!m.contains_sent(&"w1".to_string()));
    assert!(!m.contains_pending(&"w1".to_string()));
}

#[test]
fn add_sent_and_pending_are_recorded() {
    let mut m = Messages::default();
    m.add_sent("w1".to_string());
    m.add_pending("w1".to_string());
    assert!(m.contains_sent(&"w1".to_string()));
    assert!(m.contains_pending(&"w1".to_string()));
    assert!(!m.contains_sent(&"w2".to_string()));
}

#[test]
fn repeated_insert_is_a_no_op_beyond_the_first() {
    let mut m = Messages::default();
    m.add_sent("w1".to_string());
    m.add_sent("w1".to_string());
    m.add_pending("w1".to_string());
    m.add_pending("w1".to_string());
    assert!(m.contains_sent(&"w1".to_string()));
    assert!(m.contains_pending(&"w1".to_string()));
    m.remove_pending("w1".to_string());
    assert!(!m.contains_pending(&"w1".to_string()));
}

#[test]
fn remove_pending_retires_only_the_matching_id() {
    let mut m = Messages::default();
    m.add_pending("w1".to_string());
    m.add_pending("w2".to_string());
    m.remove_pending("w1".to_string());
    assert!(!m.contains_pending(&"w1".to_string()));
    assert!(m.contains_pending(&"w2".to_string()));
}

#[test]
fn remove_absent_pending_is_a_no_op() {
    let mut m = Messages::default();
    m.add_pending("w1".to_string());
    m.remove_pending("w9".to_string());
    assert!(m.contains_pending(&"w1".to_string()));
    m.remove_pending("w1".to_string());
    m.remove_pending("w1".to_string());
    assert!(!m.contains_pending(&"w1".to_string()));
}

#[test]
fn snapshots_reflect_the_sets() {
    let mut m = Messages::default();
    m.add_sent("w1".to_string());
    m.add_pending("w1".to_string());
    m.add_pending("w2".to_string());
    let sent = m.sent_snapshot();
    let mut pending = m.pending_snapshot();
    assert_eq!(sent, vec!["w1".to_string()]);
    pending.sort();
    assert_eq!(pending, vec!["w1".to_string(), "w2".to_string()]);
    // Mutating the snapshot leaves the tracker untouched.
    pending.clear();
    assert!(m.contains_pending(&"w1".to_string()));
    assert!(m.contains_pending(&"w2".to_string()));
}

#[test]
fn sent_set_is_append_only_across_ack() {
    let mut m = Messages::default();
    m.add_sent("w1".to_string());
    m.add_pending("w1".to_string());
    m.remove_pending("w1".to_string());
    assert!(m.contains_sent(&"w1".to_string()));
}
