//! The handle table: content addressing, round trips, and the
//! unknown-handle failure.
use benitoite::handles::{HandleTable, RemoteRef};
use benitoite::GatewayError;

fn reference(cid: &str, uri: &str) -> RemoteRef {
    RemoteRef { cid: cid.to_string(), uri: uri.to_string() }
}

#[test]
fn same_uri_same_handle() {
    let mut table = HandleTable::new();
    let h1 = table.put(reference("cid-a", "at://did:plc:alice/app.bsky.feed.post/1"));
    let h2 = table.put(reference("cid-a", "at://did:plc:alice/app.bsky.feed.post/1"));
    assert_eq!(h1, h2);
}

#[test]
fn same_uri_same_handle_across_tables() {
    let mut t1 = HandleTable::new();
    let mut t2 = HandleTable::new();
    let h1 = t1.put(reference("cid-a", "at://did:plc:alice/app.bsky.feed.post/1"));
    let h2 = t2.put(reference("cid-a", "at://did:plc:alice/app.bsky.feed.post/1"));
    assert_eq!(h1, h2);
}

#[test]
fn distinct_uris_distinct_handles() {
    let mut table = HandleTable::new();
    let h1 = table.put(reference("cid-a", "at://did:plc:alice/app.bsky.feed.post/1"));
    let h2 = table.put(reference("cid-b", "at://did:plc:alice/app.bsky.feed.post/2"));
    assert_ne!(h1, h2);
}

#[test]
fn handle_is_fixed_width_hex() {
    let mut table = HandleTable::new();
    let h = table.put(reference("cid-a", "at://did:plc:alice/app.bsky.feed.post/1"));
    assert_eq!(h.len(), 64);
    assert!(h.chars().all(|c| c.is_ascii_hexdigit() && !c.is_ascii_uppercase()));
}

#[test]
fn put_then_get_round_trip() {
    let mut table = HandleTable::new();
    let h = table.put(reference("cid-a", "at://did:plc:alice/app.bsky.feed.post/1"));
    let got = table.get(&h).expect("the handle was just registered");
    assert_eq!(got.cid, "cid-a");
    assert_eq!(got.uri, "at://did:plc:alice/app.bsky.feed.post/1");
}

#[test]
fn reinsert_overwrites_with_equal_value() {
    let mut table = HandleTable::new();
    let h1 = table.put(reference("cid-a", "at://did:plc:alice/app.bsky.feed.post/1"));
    let h2 = table.put(reference("cid-a", "at://did:plc:alice/app.bsky.feed.post/1"));
    assert_eq!(h1, h2);
    let got = table.get(&h2).expect("still registered");
    assert_eq!(got.cid, "cid-a");
}

#[test]
fn unknown_handle_fails_without_crash() {
    let table = HandleTable::new();
    let stale = "0123456789abcdef0123456789abcdef0123456789abcdef0123456789abcdef".to_string();
    match table.resolve(&stale) {
        Err(GatewayError::UnknownHandle) => (),
        other => panic!("expected UnknownHandle, got {:?}", other),
    }
}

#[test]
fn resolve_returns_registered_reference() {
    let mut table = HandleTable::new();
    let h = table.put(reference("cid-z", "at://did:plc:zoe/app.bsky.feed.post/9"));
    let rr = table.resolve(&h).expect("registered");
    assert_eq!(rr.uri, "at://did:plc:zoe/app.bsky.feed.post/9");
}
