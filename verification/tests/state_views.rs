//! The session registry and the request-facing view cores.
use benitoite::session::Session;
use benitoite::state::State;
use benitoite::types::Profile;
use benitoite::raw::RawProfile;
use benitoite::views::{feed, follow, interact, post, profile, reply, ComposeCommand, InteractCommand};

fn session(did: &str, handle: &str) -> Session {
    Session::new(did.to_string(), handle.to_string())
}

#[test]
fn init_registers_under_lowercased_fingerprint() {
    let (state, rejected) = State::init(vec![(
        "AB:CD:EF".to_string(),
        Some(session("did:plc:me", "me.example")),
    )]);
    assert!(rejected.is_empty());
    let s = state.resolve(&"ab:cd:ef".to_string()).expect("registered lowercased");
    assert_eq!(s.handle, "me.example");
    assert!(state.resolve(&"AB:CD:EF".to_string()).is_none());
}

#[test]
fn one_rejected_account_does_not_block_the_others() {
    let (state, rejected) = State::init(vec![
        ("aa".to_string(), Some(session("did:plc:a", "a.example"))),
        ("bb".to_string(), None),
        ("cc".to_string(), Some(session("did:plc:c", "c.example"))),
    ]);
    assert_eq!(rejected, vec!["bb".to_string()]);
    assert!(state.resolve(&"aa".to_string()).is_some());
    assert!(state.resolve(&"bb".to_string()).is_none());
    assert!(state.resolve(&"cc".to_string()).is_some());
}

#[test]
fn duplicate_fingerprint_keeps_the_later_session() {
    let (state, rejected) = State::init(vec![
        ("aa".to_string(), Some(session("did:plc:one", "one.example"))),
        ("aa".to_string(), Some(session("did:plc:two", "two.example"))),
    ]);
    assert!(rejected.is_empty());
    let s = state.resolve(&"aa".to_string()).expect("registered");
    assert_eq!(s.handle, "two.example");
}

#[test]
fn resolve_on_fresh_registry_is_anonymous() {
    let (state, rejected) = State::init(Vec::new());
    assert!(rejected.is_empty());
    assert!(state.resolve(&"anyone".to_string()).is_none());
}

#[test]
fn anonymous_feed_is_empty() {
    let f = feed(None, Vec::new());
    assert!(f.session.is_none());
    assert!(f.posts.is_empty());
}

#[test]
fn authenticated_feed_keeps_posts() {
    let f = feed(Some("me.example".to_string()), Vec::new());
    assert_eq!(f.session.as_deref(), Some("me.example"));
}

#[test]
fn anonymous_profile_view_is_empty() {
    let v = profile(None, None);
    assert!(v.session.is_none());
    assert!(v.profile.is_none());
}

#[test]
fn profile_defaults_follow_the_remote_payload() {
    let raw = RawProfile {
        handle: "alice.example".to_string(),
        display_name: None,
        description: None,
        followers_count: None,
        follows_count: Some(12),
        viewer_following: Some("at://did:plc:me/app.bsky.graph.follow/1".to_string()),
    };
    let p = Profile::assemble(&raw, Vec::new());
    assert_eq!(p.id, "alice.example");
    // An absent display name falls back to the handle; an absent bio
    // to empty; an absent followers count to zero, not a failure.
    assert_eq!(p.name, "alice.example");
    assert_eq!(p.bio, "");
    assert_eq!(p.followers, 0);
    assert_eq!(p.follows, 12);
    assert!(p.following);
}

#[test]
fn follow_redirects_to_target_profile() {
    assert_eq!(follow("alice.example"), "/@alice.example");
}

#[test]
fn compose_prompts_until_input_arrives() {
    assert!(matches!(reply(None), ComposeCommand::Prompt));
    assert!(matches!(post(None), ComposeCommand::Prompt));
    match reply(Some("a reply".to_string())) {
        ComposeCommand::Publish(body) => assert_eq!(body, "a reply"),
        other => panic!("expected a publication, got {:?}", other),
    }
    match post(Some("a post".to_string())) {
        ComposeCommand::Publish(body) => assert_eq!(body, "a post"),
        other => panic!("expected a publication, got {:?}", other),
    }
}

#[test]
fn interact_dispatch() {
    assert_eq!(interact(&None), InteractCommand::Prompt);
    assert_eq!(interact(&Some("l".to_string())), InteractCommand::Like);
    assert_eq!(interact(&Some("r".to_string())), InteractCommand::Repost);
    assert_eq!(interact(&Some("R".to_string())), InteractCommand::ComposeReply);
    assert_eq!(interact(&Some("x".to_string())), InteractCommand::Ignore);
    assert_eq!(interact(&Some("ll".to_string())), InteractCommand::Ignore);
}
