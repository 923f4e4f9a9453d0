use rouchdb::database::Database;
use rouchdb::digest::md5_hex_of;
use rouchdb::documents::{ReplicationLog, ServerInfo};
use rouchdb::replicator::Replicator;

fn replicator() -> Replicator {
    Replicator::new(
        Database::new("http://localhost:5984/source".to_string()),
        Database::new("http://localhost:5984/target".to_string()),
    )
}

fn info(uuid: &str) -> ServerInfo {
    ServerInfo { uuid: uuid.to_string() }
}

fn log(session_id: Option<u128>, seq: Option<&str>) -> ReplicationLog {
    ReplicationLog {
        _id: "_local/1bf51c3933afe7dc78acaa7736abd881".to_string(),
        _rev: None,
        source_last_seq: seq.map(|s| s.to_string()),
        session_id,
    }
}

#[test]
fn md5_hex_of_the_empty_string() {
    assert_eq!(md5_hex_of(""), "d41d8cd98f00b204e9800998ecf8427e");
}

#[test]
fn md5_hex_of_known_strings() {
    assert_eq!(md5_hex_of("abc"), "900150983cd24fb0d6963f7d28e17f72");
    assert_eq!(md5_hex_of("é"), "66ddcd97cfdeabb2f6fb8a999b4bc76f");
}

#[test]
fn md5_hex_is_not_its_argument() {
    let hex = md5_hex_of("900150983cd24fb0d6963f7d28e17f72");
    assert_ne!(hex, "900150983cd24fb0d6963f7d28e17f72");
    assert_eq!(hex.len(), 32);
    assert!(hex.chars().all(|c| c.is_ascii_digit() || ('a'..='f').contains(&c)));
}

#[test]
fn replication_id_is_the_digest_of_both_identifiers() {
    let id = replicator().replication_id(info("source-uuid"), info("target-uuid"));
    assert_eq!(id, "1bf51c3933afe7dc78acaa7736abd881");
    assert_eq!(id, md5_hex_of("source-uuidtarget-uuid"));
}

#[test]
fn replication_id_joins_without_separator() {
    let joined = replicator().replication_id(info("a"), info("b"));
    assert_eq!(joined, "187ef4436122d1cc2f40dc2b92f0eba0");
    let shifted = replicator().replication_id(info("ab"), info(""));
    assert_eq!(shifted, joined);
}

#[test]
fn replication_id_is_the_same_on_every_run() {
    let first = replicator().replication_id(info("a1"), info("b2"));
    let second = replicator().replication_id(info("a1"), info("b2"));
    assert_eq!(first, second);
    assert_eq!(first, "f2e49af795161e14acf9d9245473a368");
}

#[test]
fn replication_id_depends_on_the_order_of_the_ends() {
    let forth = replicator().replication_id(info("a"), info("b"));
    let back = replicator().replication_id(info("b"), info("a"));
    assert_ne!(forth, back);
}

#[test]
fn common_ancestor_of_agreeing_checkpoints() {
    let source = log(Some(7), Some("5-g1"));
    let target = log(Some(7), Some("5-g1"));
    assert_eq!(replicator().common_ancestor(&source, &target), Some("5-g1".to_string()));
}

#[test]
fn common_ancestor_of_different_sessions() {
    let source = log(Some(7), Some("5-g1"));
    let target = log(Some(8), Some("5-g1"));
    assert_eq!(replicator().common_ancestor(&source, &target), None);
}

#[test]
fn common_ancestor_of_different_sequences() {
    let source = log(Some(7), Some("5-g1"));
    let target = log(Some(7), Some("4-g1"));
    assert_eq!(replicator().common_ancestor(&source, &target), None);
}

#[test]
fn common_ancestor_without_sessions() {
    let source = log(None, Some("5-g1"));
    let target = log(None, Some("5-g1"));
    assert_eq!(replicator().common_ancestor(&source, &target), None);
    let source = log(Some(7), Some("5-g1"));
    let target = log(None, Some("5-g1"));
    assert_eq!(replicator().common_ancestor(&source, &target), None);
    let source = log(None, Some("5-g1"));
    let target = log(Some(7), Some("5-g1"));
    assert_eq!(replicator().common_ancestor(&source, &target), None);
}

#[test]
fn common_ancestor_without_sequences() {
    let source = log(Some(7), None);
    let target = log(Some(7), None);
    assert_eq!(replicator().common_ancestor(&source, &target), None);
    let source = log(Some(7), Some("5-g1"));
    let target = log(Some(7), None);
    assert_eq!(replicator().common_ancestor(&source, &target), None);
    let source = log(Some(7), None);
    let target = log(Some(7), Some("5-g1"));
    assert_eq!(replicator().common_ancestor(&source, &target), None);
}

#[test]
fn common_ancestor_of_fresh_checkpoints() {
    let source = ReplicationLog::fresh("abc");
    let target = ReplicationLog::fresh("abc");
    assert_eq!(source._id, "_local/abc");
    assert_eq!(replicator().common_ancestor(&source, &target), None);
}

#[test]
fn advance_records_session_and_sequence() {
    let mut before = log(Some(7), Some("5-g1"));
    before._rev = Some("0-3".to_string());
    let after = before.advance(9, "8-g1".to_string());
    assert_eq!(after._id, "_local/1bf51c3933afe7dc78acaa7736abd881");
    assert_eq!(after._rev, Some("0-3".to_string()));
    assert_eq!(after.session_id, Some(9));
    assert_eq!(after.source_last_seq, Some("8-g1".to_string()));
}
