//! The interaction logic: toggle decisions, reply threading, new
//! posts, and text operations behind them.
use benitoite::handles::RemoteRef;
use benitoite::raw::{RawRecord, RawReplyRefs};
use benitoite::session::{
    record_location, FollowAction, RecordKind, Session, ToggleAction, FEED_PAGE_LIMIT,
};
use benitoite::text::{rkey_of, sharpen, split_slash};
use benitoite::GatewayError;

fn session() -> Session {
    Session::new("did:plc:me".to_string(), "me.example".to_string())
}

fn subject() -> RemoteRef {
    RemoteRef {
        cid: "cid-s".to_string(),
        uri: "at://did:plc:a/app.bsky.feed.post/1".to_string(),
    }
}

#[test]
fn sharpen_scenario() {
    assert_eq!(sharpen("Great #news today"), "Great ♯news today");
}

#[test]
fn split_slash_matches_std() {
    let uri = "at://did:plc:a/app.bsky.feed.post/1";
    let parts = split_slash(uri);
    let expected: Vec<String> = uri.split('/').map(|s| s.to_string()).collect();
    assert_eq!(parts, expected);
}

#[test]
fn rkey_is_trailing_segment() {
    assert_eq!(rkey_of("at://did:plc:me/app.bsky.feed.like/3jx2"), "3jx2");
    assert_eq!(rkey_of("no-slashes"), "no-slashes");
    assert_eq!(rkey_of("trailing/"), "");
}

#[test]
fn split_slash_on_empty_string() {
    assert_eq!(split_slash(""), vec![String::new()]);
}

#[test]
fn first_like_creates_annotation() {
    let s = session();
    match s.like(&subject(), &None) {
        ToggleAction::Create { repo, kind, subject } => {
            assert_eq!(repo, "did:plc:me");
            assert_eq!(kind, RecordKind::Like);
            assert_eq!(subject.uri, "at://did:plc:a/app.bsky.feed.post/1");
        },
        other => panic!("expected a creation, got {:?}", other),
    }
}

#[test]
fn like_toggles_back_after_first_toggle() {
    let s = session();
    // First toggle from the never-liked state: create.
    let first = s.like(&subject(), &None);
    assert!(matches!(first, ToggleAction::Create { .. }));
    // The remote assigns the new record a reference; the viewer
    // state now carries it.
    let assigned = "at://did:plc:me/app.bsky.feed.like/3jx2".to_string();
    // Second toggle reads the fresh state: retract exactly that record.
    match s.like(&subject(), &Some(assigned)) {
        ToggleAction::Retract { repo, kind, rkey } => {
            assert_eq!(repo, "did:plc:me");
            assert_eq!(kind, RecordKind::Like);
            assert_eq!(rkey, "3jx2");
        },
        other => panic!("expected a retraction, got {:?}", other),
    }
}

#[test]
fn repost_toggle_uses_repost_kind() {
    let s = session();
    match s.repost(&subject(), &None) {
        ToggleAction::Create { kind, .. } => assert_eq!(kind, RecordKind::Repost),
        other => panic!("expected a creation, got {:?}", other),
    }
    let assigned = "at://did:plc:me/app.bsky.feed.repost/9k".to_string();
    match s.repost(&subject(), &Some(assigned)) {
        ToggleAction::Retract { kind, rkey, .. } => {
            assert_eq!(kind, RecordKind::Repost);
            assert_eq!(rkey, "9k");
        },
        other => panic!("expected a retraction, got {:?}", other),
    }
}

#[test]
fn follow_absent_relationship_creates_record() {
    let s = session();
    match s.follow(&"did:plc:target".to_string(), &None) {
        FollowAction::Follow { repo, subject_did } => {
            assert_eq!(repo, "did:plc:me");
            assert_eq!(subject_did, "did:plc:target");
        },
        other => panic!("expected a follow, got {:?}", other),
    }
}

#[test]
fn follow_existing_relationship_deletes_record() {
    let s = session();
    let existing = "at://did:plc:me/app.bsky.graph.follow/7f".to_string();
    match s.follow(&"did:plc:target".to_string(), &Some(existing)) {
        FollowAction::Unfollow { repo, rkey } => {
            assert_eq!(repo, "did:plc:me");
            assert_eq!(rkey, "7f");
        },
        other => panic!("expected an unfollow, got {:?}", other),
    }
}

#[test]
fn reply_to_rootless_parent_roots_at_parent() {
    let s = session();
    let parent = subject();
    let parent_record = RawRecord::Post { text: "parent".to_string(), reply: None };
    let create = s.reply(&parent, &parent_record, "hello").expect("parent is a post");
    assert_eq!(create.repo, "did:plc:me");
    assert_eq!(create.record.text, "hello");
    let refs = create.record.reply.expect("a reply relationship");
    assert_eq!(refs.parent.uri, parent.uri);
    assert_eq!(refs.root.uri, parent.uri);
    assert_eq!(refs.root.cid, parent.cid);
}

#[test]
fn reply_propagates_existing_root_unchanged() {
    let s = session();
    let parent = subject();
    let root = RemoteRef {
        cid: "cid-root".to_string(),
        uri: "at://did:plc:a/app.bsky.feed.post/0".to_string(),
    };
    let parent_record = RawRecord::Post {
        text: "parent".to_string(),
        reply: Some(RawReplyRefs { root, parent: subject() }),
    };
    let create = s.reply(&parent, &parent_record, "hello").expect("parent is a post");
    let refs = create.record.reply.expect("a reply relationship");
    assert_eq!(refs.root.uri, "at://did:plc:a/app.bsky.feed.post/0");
    assert_eq!(refs.root.cid, "cid-root");
    assert_eq!(refs.parent.uri, parent.uri);
}

#[test]
fn reply_to_unreadable_parent_fails_thread_resolution() {
    let s = session();
    match s.reply(&subject(), &RawRecord::Other, "hello") {
        Err(GatewayError::ThreadResolutionError) => (),
        other => panic!("expected ThreadResolutionError, got {:?}", other),
    }
}

#[test]
fn new_post_has_no_reply_relationship() {
    let s = session();
    let create = s.post("a #fresh post");
    assert_eq!(create.repo, "did:plc:me");
    // The body goes out as written: the display substitution applies
    // to fetched posts, not to outgoing ones.
    assert_eq!(create.record.text, "a #fresh post");
    assert!(create.record.reply.is_none());
}

#[test]
fn record_location_names_repo_and_rkey() {
    let (repo, rkey) = record_location("at://did:plc:a/app.bsky.feed.post/1")
        .expect("three segments");
    assert_eq!(repo, "did:plc:a");
    assert_eq!(rkey, "1");
}

#[test]
fn record_location_rejects_short_uris() {
    assert!(record_location("a/b").is_none());
}

#[test]
fn feed_page_limit_is_fixed() {
    assert_eq!(FEED_PAGE_LIMIT, 10);
}
