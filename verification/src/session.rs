//! One account's session: feed and profile normalization on the read
//! path, and the toggle logic on the write path. Every toggle is a
//! read-then-write sequence: the caller fetches the current viewer
//! state from the remote service, and the session decides from that
//! state alone whether the next write creates a new annotation record
//! or retracts the existing one.
use vstd::prelude::*;

use crate::handles::{handle_of, HandleTable, RemoteRef, RemoteRefView};
use crate::raw::{RawEntry, RawProfile, RawRecord, RawReplyRefs};
use crate::text::{last_segment, rkey_of, segments, split_slash};
use crate::types::{count_of, entry_ref, normalized, Post, Profile};
use crate::GatewayError;

verus! {

/// The fixed page size of every feed request.
pub const FEED_PAGE_LIMIT: u64 = 10;

/// The kinds of record the interaction logic writes or deletes.
#[derive(Debug, Clone, Copy, PartialEq, Eq, Structural)]
pub enum RecordKind {
    Like,
    Repost,
    Follow,
    Post,
}

/// One authenticated account: its resolved identifier (the repo all
/// its writes go to) and its display handle. The authenticated
/// connection itself lives outside the core; the session holds what
/// the decision logic reads.
#[derive(Debug)]
pub struct Session {
    /// The account's resolved stable identifier.
    pub id: String,
    /// The account's display handle.
    pub handle: String,
}

/// The mathematical value of a `Session`.
pub struct SessionView {
    pub id: Seq<char>,
    pub handle: Seq<char>,
}

impl View for Session {
    type V = SessionView;

    open spec fn view(&self) -> SessionView {
        SessionView { id: self.id@, handle: self.handle@ }
    }
}

/// The write a like or repost toggle decided on.
#[derive(Debug)]
pub enum ToggleAction {
    /// Create an annotation record of `kind` in `repo`, naming
    /// `subject`.
    Create { repo: String, kind: RecordKind, subject: RemoteRef },
    /// Delete the annotation record `rkey` of `kind` from `repo`.
    Retract { repo: String, kind: RecordKind, rkey: String },
}

/// The mathematical value of a `ToggleAction`.
pub enum ToggleActionView {
    Create { repo: Seq<char>, kind: RecordKind, subject: RemoteRefView },
    Retract { repo: Seq<char>, kind: RecordKind, rkey: Seq<char> },
}

impl View for ToggleAction {
    type V = ToggleActionView;

    open spec fn view(&self) -> ToggleActionView {
        match self {
            ToggleAction::Create { repo, kind, subject } => ToggleActionView::Create {
                repo: repo@,
                kind: *kind,
                subject: subject@,
            },
            ToggleAction::Retract { repo, kind, rkey } => ToggleActionView::Retract {
                repo: repo@,
                kind: *kind,
                rkey: rkey@,
            },
        }
    }
}

/// The write a follow toggle decided on.
#[derive(Debug)]
pub enum FollowAction {
    /// Create a follow record in `repo` whose subject is the target
    /// account's identifier.
    Follow { repo: String, subject_did: String },
    /// Delete the follow record `rkey` from `repo`.
    Unfollow { repo: String, rkey: String },
}

/// The mathematical value of a `FollowAction`.
pub enum FollowActionView {
    Follow { repo: Seq<char>, subject_did: Seq<char> },
    Unfollow { repo: Seq<char>, rkey: Seq<char> },
}

impl View for FollowAction {
    type V = FollowActionView;

    open spec fn view(&self) -> FollowActionView {
        match self {
            FollowAction::Follow { repo, subject_did } => FollowActionView::Follow {
                repo: repo@,
                subject_did: subject_did@,
            },
            FollowAction::Unfollow { repo, rkey } => FollowActionView::Unfollow {
                repo: repo@,
                rkey: rkey@,
            },
        }
    }
}

/// A new post record to create: its text and its optional reply
/// relationship. The core attaches nothing else.
#[derive(Debug)]
pub struct NewPost {
    pub text: String,
    pub reply: Option<RawReplyRefs>,
}

/// A record creation the session decided on: the repo to write to
/// and the record to write.
#[derive(Debug)]
pub struct CreatePost {
    pub repo: String,
    pub record: NewPost,
}

/// The view of an optional stored annotation reference.
pub open spec fn opt_view(o: Option<String>) -> Option<Seq<char>> {
    match o {
        Option::Some(s) => Option::Some(s@),
        Option::None => Option::None,
    }
}

/// The toggle decision: an existing annotation is retracted by the
/// record key its stored reference ends in; an absent one is created
/// anew on the subject.
pub open spec fn toggled(
    repo: Seq<char>,
    kind: RecordKind,
    subject: RemoteRefView,
    viewer: Option<Seq<char>>,
) -> ToggleActionView {
    match viewer {
        Option::Some(u) => ToggleActionView::Retract { repo, kind, rkey: last_segment(u) },
        Option::None => ToggleActionView::Create { repo, kind, subject },
    }
}

/// What the remote state becomes when a toggle's write lands, with no
/// concurrent interference: creating an annotation sets the viewer
/// reference to the record the service assigned, deleting it clears
/// the reference.
pub open spec fn applied(a: ToggleActionView, assigned: Seq<char>) -> Option<Seq<char>> {
    match a {
        ToggleActionView::Create { .. } => Option::Some(assigned),
        ToggleActionView::Retract { .. } => Option::None,
    }
}

/// Toggling twice on a never-annotated subject, with no concurrent
/// interference: the first toggle creates the annotation and the
/// state becomes set; the second retracts exactly the record the
/// first one was assigned, and the state ends unset.
pub proof fn lemma_toggle_twice(
    repo: Seq<char>,
    kind: RecordKind,
    subject: RemoteRefView,
    assigned: Seq<char>,
)
    ensures
        ({
            let s0 = Option::<Seq<char>>::None;
            let a1 = toggled(repo, kind, subject, s0);
            let s1 = applied(a1, assigned);
            let a2 = toggled(repo, kind, subject, s1);
            let s2 = applied(a2, assigned);
            &&& a1 matches ToggleActionView::Create { subject: su, .. } && su == subject
            &&& s1 == Option::Some(assigned)
            &&& a2 matches ToggleActionView::Retract { rkey, .. } && rkey == last_segment(assigned)
            &&& s2 is None
        }),
{
}

/// The thread root a reply to `parent` must name: the root the parent
/// record already carries, or the parent itself when it carries none;
/// nothing when the parent record is not a post.
pub open spec fn thread_root(parent_record: RawRecord, parent: RemoteRefView) -> Option<
    RemoteRefView,
> {
    match parent_record {
        RawRecord::Post { reply, .. } => Option::Some(
            match reply {
                Option::Some(rr) => rr.root@,
                Option::None => parent,
            },
        ),
        RawRecord::Other => Option::None,
    }
}

/// A reply whose parent record carries no reply relationship roots
/// the new thread at the parent itself; one whose parent already
/// carries a root propagates that same root unchanged.
pub proof fn lemma_reply_root(
    text: String,
    refs: RawReplyRefs,
    parent: RemoteRefView,
)
    ensures
        thread_root(RawRecord::Post { text, reply: Option::None }, parent) == Option::Some(parent),
        thread_root(RawRecord::Post { text, reply: Option::Some(refs) }, parent) == Option::Some(
            refs.root@,
        ),
{
}

/// Returns the repo identifier and record key a canonical record URI
/// names: its third path segment and its trailing path segment.
/// `None` exactly when the URI has fewer than three segments.
pub fn record_location(uri: &str) -> (r: Option<(String, String)>)
    ensures
        match r {
            Option::Some((repo, rkey)) => segments(uri@).len() >= 3 && repo@ == segments(uri@)[2]
                && rkey@ == last_segment(uri@),
            Option::None => segments(uri@).len() < 3,
        },
{
    let parts = split_slash(uri);
    if parts.len() < 3 {
        return None;
    }
    let repo = parts[2].clone();
    let k: usize = parts.len() - 1;
    let rkey = parts[k].clone();
    Some((repo, rkey))
}

impl Session {
    /// Returns the session for an account whose login the remote
    /// service accepted, from its resolved identifier and its handle.
    pub fn new(id: String, handle: String) -> (s: Session)
        ensures
            s.id == id,
            s.handle == handle,
    {
        Session { id, handle }
    }

    /// Returns a session for the same account.
    pub fn duplicate(&self) -> (s: Session)
        ensures
            s@ == self@,
    {
        Session { id: self.id.clone(), handle: self.handle.clone() }
    }

    /// Normalizes one fetched feed page into display posts, in the
    /// remote's own order, registering every entry in the shared
    /// handle table.
    pub fn feed(&self, entries: &Vec<RawEntry>, table: &mut HandleTable) -> (posts: Vec<Post>)
        requires
            old(table).wf(),
        ensures
            final(table).wf(),
            final(table)@ == registered(old(table)@, entries@),
            posts@.len() == entries@.len(),
            forall|i: int| 0 <= i < entries@.len() ==> posts@[i]@ == normalized(entries@[i]),
    {
        normalize_feed(entries, table)
    }

    /// Assembles the display profile of a target account from its
    /// fetched profile payload and its fetched posts, normalizing the
    /// posts in remote order and registering each in the shared
    /// handle table.
    pub fn profile(&self, raw: &RawProfile, entries: &Vec<RawEntry>, table: &mut HandleTable) -> (p:
        Profile)
        requires
            old(table).wf(),
        ensures
            final(table).wf(),
            final(table)@ == registered(old(table)@, entries@),
            p.id@ == raw.handle@,
            p.name@ == (match raw.display_name {
                Option::Some(n) => n@,
                Option::None => raw.handle@,
            }),
            p.bio@ == (match raw.description {
                Option::Some(b) => b@,
                Option::None => Seq::<char>::empty(),
            }),
            p.followers == count_of(raw.followers_count),
            p.follows == count_of(raw.follows_count),
            p.following == (raw.viewer_following is Some),
            p.posts@.len() == entries@.len(),
            forall|i: int| 0 <= i < entries@.len() ==> p.posts@[i]@ == normalized(entries@[i]),
    {
        let posts = normalize_feed(entries, table);
        Profile::assemble(raw, posts)
    }

    /// Decides a like toggle from the freshly fetched viewer state:
    /// retract the existing like record, or create a new one on the
    /// subject.
    pub fn like(&self, subject: &RemoteRef, viewer_like: &Option<String>) -> (a: ToggleAction)
        ensures
            a@ == toggled(self.id@, RecordKind::Like, subject@, opt_view(*viewer_like)),
    {
        match viewer_like {
            Some(u) => ToggleAction::Retract {
                repo: self.id.clone(),
                kind: RecordKind::Like,
                rkey: rkey_of(u.as_str()),
            },
            None => ToggleAction::Create {
                repo: self.id.clone(),
                kind: RecordKind::Like,
                subject: subject.duplicate(),
            },
        }
    }

    /// Decides a repost toggle from the freshly fetched viewer state:
    /// retract the existing repost record, or create a new one on the
    /// subject.
    pub fn repost(&self, subject: &RemoteRef, viewer_repost: &Option<String>) -> (a: ToggleAction)
        ensures
            a@ == toggled(self.id@, RecordKind::Repost, subject@, opt_view(*viewer_repost)),
    {
        match viewer_repost {
            Some(u) => ToggleAction::Retract {
                repo: self.id.clone(),
                kind: RecordKind::Repost,
                rkey: rkey_of(u.as_str()),
            },
            None => ToggleAction::Create {
                repo: self.id.clone(),
                kind: RecordKind::Repost,
                subject: subject.duplicate(),
            },
        }
    }

    /// Decides a follow toggle from the target's freshly fetched
    /// viewer relationship: delete the existing follow record, or
    /// create a new one naming the target's identifier as subject.
    pub fn follow(&self, target_did: &String, viewer_following: &Option<String>) -> (a:
        FollowAction)
        ensures
            a@ == (match opt_view(*viewer_following) {
                Option::Some(u) => FollowActionView::Unfollow {
                    repo: self.id@,
                    rkey: last_segment(u),
                },
                Option::None => FollowActionView::Follow {
                    repo: self.id@,
                    subject_did: target_did@,
                },
            }),
    {
        match viewer_following {
            Some(u) => FollowAction::Unfollow {
                repo: self.id.clone(),
                rkey: rkey_of(u.as_str()),
            },
            None => FollowAction::Follow {
                repo: self.id.clone(),
                subject_did: target_did.clone(),
            },
        }
    }

    /// Builds the reply to a parent post, from the parent's fetched
    /// record: the new record carries the body as given and a reply
    /// relationship naming the parent and the resolved thread root.
    /// Fails exactly when the parent record cannot be read as a post.
    pub fn reply(&self, parent: &RemoteRef, parent_record: &RawRecord, body: &str) -> (r: Result<
        CreatePost,
        GatewayError,
    >)
        ensures
            match r {
                Ok(c) => {
                    &&& c.repo@ == self.id@
                    &&& c.record.text@ == body@
                    &&& c.record.reply matches Option::Some(rr) && rr.parent@ == parent@
                        && Option::Some(rr.root@) == thread_root(*parent_record, parent@)
                },
                Err(e) => {
                    &&& e == GatewayError::ThreadResolutionError
                    &&& parent_record is Other
                },
            },
    {
        let root = match parent_record {
            RawRecord::Post { reply, .. } => match reply {
                Some(rr) => rr.root.duplicate(),
                None => parent.duplicate(),
            },
            RawRecord::Other => {
                return Err(GatewayError::ThreadResolutionError);
            },
        };
        Ok(
            CreatePost {
                repo: self.id.clone(),
                record: NewPost {
                    text: String::from_str(body),
                    reply: Some(RawReplyRefs { root, parent: parent.duplicate() }),
                },
            },
        )
    }

    /// Builds a new top-level post record: the body as given and no
    /// reply relationship; no other fields are populated.
    pub fn post(&self, body: &str) -> (c: CreatePost)
        ensures
            c.repo@ == self.id@,
            c.record.text@ == body@,
            c.record.reply is None,
    {
        CreatePost {
            repo: self.id.clone(),
            record: NewPost { text: String::from_str(body), reply: None },
        }
    }
}

/// The handle table after a sequence of entries is registered, in
/// order.
pub open spec fn registered(
    m: Map<Seq<char>, RemoteRefView>,
    entries: Seq<RawEntry>,
) -> Map<Seq<char>, RemoteRefView>
    decreases entries.len(),
{
    if entries.len() == 0 {
        m
    } else {
        registered(m, entries.drop_last()).insert(
            handle_of(entries.last().uri@),
            entry_ref(entries.last()),
        )
    }
}

/// Normalizes a fetched page of raw entries into display posts,
/// preserving the remote's order, and registers every entry's remote
/// reference in the shared handle table.
pub fn normalize_feed(entries: &Vec<RawEntry>, table: &mut HandleTable) -> (posts: Vec<Post>)
    requires
        old(table).wf(),
    ensures
        final(table).wf(),
        final(table)@ == registered(old(table)@, entries@),
        posts@.len() == entries@.len(),
        forall|i: int| 0 <= i < entries@.len() ==> posts@[i]@ == normalized(entries@[i]),
{
    let n: usize = entries.len();
    let mut posts: Vec<Post> = Vec::new();
    let mut i: usize = 0;
    while i < n
        invariant
            i <= n,
            n == entries@.len(),
            old(table).wf(),
            table.wf(),
            table@ == registered(old(table)@, entries@.take(i as int)),
            posts@.len() == i,
            forall|j: int| 0 <= j < i ==> posts@[j]@ == normalized(entries@[j]),
        decreases n - i,
    {
        let p = Post::push(&entries[i], table);
        posts.push(p);
        i = i + 1;
        proof {
            assert(entries@.take(i as int).drop_last() =~= entries@.take(i - 1));
        }
    }
    proof {
        assert(entries@.take(n as int) =~= entries@);
    }
    posts
}

} // verus!
