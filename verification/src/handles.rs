//! The shared object handle table: a mapping from short opaque
//! handles to remote record references. A handle is derived from the
//! record's canonical URI by a one-way hash, so the same URI always
//! yields the same handle, and a handle can stand in for the URI
//! within a constrained address space.
use vstd::prelude::*;

use crate::strmap::StrMap;
use crate::GatewayError;

verus! {

/// A precise reference to one remote record: its content id and its
/// canonical URI. Immutable once created.
#[derive(Debug)]
pub struct RemoteRef {
    pub cid: String,
    pub uri: String,
}

/// The mathematical value of a `RemoteRef`.
pub struct RemoteRefView {
    pub cid: Seq<char>,
    pub uri: Seq<char>,
}

impl View for RemoteRef {
    type V = RemoteRefView;

    open spec fn view(&self) -> RemoteRefView {
        RemoteRefView { cid: self.cid@, uri: self.uri@ }
    }
}

impl RemoteRef {
    /// Returns a reference naming the same remote record.
    pub fn duplicate(&self) -> (r: RemoteRef)
        ensures
            r@ == self@,
    {
        RemoteRef { cid: self.cid.clone(), uri: self.uri.clone() }
    }
}

/// The handle derived from a canonical URI: the digest of the URI's
/// bytes, written in fixed-width hexadecimal.
pub uninterp spec fn handle_of(uri: Seq<char>) -> Seq<char>;

/// Relies on blake3::Hasher over the URI's bytes and on the
/// hexadecimal display of blake3::Hash: the digest depends on the
/// input bytes alone, and prints as 64 lowercase hex characters.
#[verifier::external_body]
fn hash_handle(uri: &str) -> (r: String)
    ensures
        r@ == handle_of(uri@),
        r@.len() == 64,
{
    let mut hasher = blake3::Hasher::new();
    hasher.update(uri.as_bytes());
    hasher.finalize().to_string()
}

/// Two equal canonical URIs always derive the same handle: the handle
/// is a function of the URI and of nothing else. (That two distinct
/// URIs derive distinct handles holds only with the improbability of
/// a hash collision, and is not stated.)
pub proof fn lemma_handle_deterministic(u1: Seq<char>, u2: Seq<char>)
    requires
        u1 == u2,
    ensures
        handle_of(u1) == handle_of(u2),
{
}

/// The shared table from handle to remote record reference. Entries
/// are only ever added, never evicted; re-registering a URI overwrites
/// its entry with an equal value.
pub struct HandleTable {
    map: StrMap<RemoteRef>,
}

impl View for HandleTable {
    type V = Map<Seq<char>, RemoteRefView>;

    closed spec fn view(&self) -> Map<Seq<char>, RemoteRefView> {
        self.map@
    }
}

impl HandleTable {
    /// The table's one internal obligation, established by `new` and
    /// preserved by every operation.
    pub closed spec fn wf(&self) -> bool {
        self.map.wf()
    }

    /// Returns the empty table: the state at process start. No handle
    /// from an earlier lifetime resolves in it.
    pub fn new() -> (t: HandleTable)
        ensures
            t.wf(),
            t@ == Map::<Seq<char>, RemoteRefView>::empty(),
    {
        HandleTable { map: StrMap::new() }
    }

    /// Computes the handle for `r`'s canonical URI, stores the
    /// mapping, and returns the handle. Idempotent per URI: an
    /// already-registered URI is overwritten with the equal value.
    pub fn put(&mut self, r: RemoteRef) -> (h: String)
        requires
            old(self).wf(),
        ensures
            final(self).wf(),
            h@ == handle_of(r.uri@),
            final(self)@ == old(self)@.insert(handle_of(r.uri@), r@),
    {
        let h = hash_handle(r.uri.as_str());
        self.map.insert(h.clone(), r);
        h
    }

    /// Looks a handle up: `Some` exactly when the handle was
    /// registered in this table's lifetime.
    pub fn get(&self, h: &String) -> (r: Option<&RemoteRef>)
        requires
            self.wf(),
        ensures
            match r {
                Some(rr) => self@.contains_key(h@) && rr@ == self@[h@],
                None => !self@.contains_key(h@),
            },
    {
        self.map.get(h)
    }

    /// Resolves a handle to the remote reference it stands for, or
    /// reports exactly that it was never observed: `UnknownHandle` if
    /// and only if the table does not hold it.
    pub fn resolve(&self, h: &String) -> (r: Result<RemoteRef, GatewayError>)
        requires
            self.wf(),
        ensures
            match r {
                Ok(rr) => self@.contains_key(h@) && rr@ == self@[h@],
                Err(e) => !self@.contains_key(h@) && e == GatewayError::UnknownHandle,
            },
    {
        match self.get(h) {
            Some(rr) => Ok(rr.duplicate()),
            None => Err(GatewayError::UnknownHandle),
        }
    }
}

/// Registering a reference and then looking its handle up returns
/// that same reference: the put/get round trip over the table's
/// mapping.
pub proof fn lemma_put_get_round_trip(m: Map<Seq<char>, RemoteRefView>, r: RemoteRefView)
    ensures
        m.insert(handle_of(r.uri), r).contains_key(handle_of(r.uri)),
        m.insert(handle_of(r.uri), r)[handle_of(r.uri)] == r,
{
}

/// Registration never evicts: every handle present before a
/// registration is still present after it, for the whole process
/// lifetime — the table only grows.
pub proof fn lemma_no_eviction(m: Map<Seq<char>, RemoteRefView>, r: RemoteRefView, k: Seq<char>)
    requires
        m.contains_key(k),
    ensures
        m.insert(handle_of(r.uri), r).contains_key(k),
{
}

/// No handle resolves in a freshly created table: handles are only
/// valid within the process lifetime that emitted them, and after a
/// restart every lookup reports `UnknownHandle` rather than
/// crashing, as `resolve` ensures for any absent key.
pub proof fn lemma_fresh_table_resolves_nothing(h: Seq<char>)
    ensures
        !Map::<Seq<char>, RemoteRefView>::empty().contains_key(h),
{
}

} // verus!
