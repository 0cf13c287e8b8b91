//! The process-wide state: one session per configured account,
//! registered at startup under the account's lowercased transport
//! fingerprint and never removed or replaced while the process runs.
use vstd::prelude::*;

use crate::session::{Session, SessionView};
use crate::strmap::StrMap;

verus! {

/// The lowercase form of a transport fingerprint.
pub uninterp spec fn lower_of(s: Seq<char>) -> Seq<char>;

/// Relies on str::to_lowercase: the result depends on the characters
/// alone.
#[verifier::external_body]
fn lowercase(s: &str) -> (r: String)
    ensures
        r@ == lower_of(s@),
{
    s.to_lowercase()
}

/// The sessions after a sequence of login outcomes is registered, in
/// order: each authenticated account under its lowercased
/// fingerprint; a rejected account registers nothing.
pub open spec fn registered_sessions(outcomes: Seq<(String, Option<Session>)>) -> Map<
    Seq<char>,
    SessionView,
>
    decreases outcomes.len(),
{
    if outcomes.len() == 0 {
        Map::empty()
    } else {
        let m = registered_sessions(outcomes.drop_last());
        match outcomes.last().1 {
            Option::Some(s) => m.insert(lower_of(outcomes.last().0@), s@),
            Option::None => m,
        }
    }
}

/// The fingerprints of the accounts whose login the remote service
/// rejected, in configuration order.
pub open spec fn rejected_of(outcomes: Seq<(String, Option<Session>)>) -> Seq<Seq<char>>
    decreases outcomes.len(),
{
    if outcomes.len() == 0 {
        Seq::empty()
    } else {
        let r = rejected_of(outcomes.drop_last());
        match outcomes.last().1 {
            Option::Some(_) => r,
            Option::None => r.push(outcomes.last().0@),
        }
    }
}

/// The session registry: the one lookup a request's caller identity
/// goes through.
pub struct State {
    sessions: StrMap<Session>,
}

impl View for State {
    type V = Map<Seq<char>, SessionView>;

    closed spec fn view(&self) -> Map<Seq<char>, SessionView> {
        self.sessions@
    }
}

impl State {
    /// The registry's one internal obligation, established by `init`.
    pub closed spec fn wf(&self) -> bool {
        self.sessions.wf()
    }

    /// Builds the registry from the per-account login outcomes, in
    /// configuration order: every account that authenticated is
    /// registered under its lowercased fingerprint, and the
    /// fingerprints of the accounts the remote service rejected are
    /// reported back distinctly — a rejected account never prevents
    /// the others from registering.
    pub fn init(outcomes: Vec<(String, Option<Session>)>) -> (r: (State, Vec<String>))
        ensures
            r.0.wf(),
            r.0@ == registered_sessions(outcomes@),
            r.1.deep_view() == rejected_of(outcomes@),
    {
        let n: usize = outcomes.len();
        let mut sessions: StrMap<Session> = StrMap::new();
        let mut rejected: Vec<String> = Vec::new();
        let mut i: usize = 0;
        while i < n
            invariant
                i <= n,
                n == outcomes@.len(),
                sessions.wf(),
                sessions@ == registered_sessions(outcomes@.take(i as int)),
                rejected.deep_view() == rejected_of(outcomes@.take(i as int)),
            decreases n - i,
        {
            let (fingerprint, outcome) = &outcomes[i];
            match outcome {
                Some(session) => {
                    let key = lowercase(fingerprint.as_str());
                    sessions.insert(key, session.duplicate());
                },
                None => {
                    rejected.push(fingerprint.clone());
                },
            }
            i = i + 1;
            proof {
                assert(outcomes@.take(i as int).drop_last() =~= outcomes@.take(i - 1));
                assert(rejected.deep_view() =~= rejected_of(outcomes@.take(i as int)));
            }
        }
        proof {
            assert(outcomes@.take(n as int) =~= outcomes@);
        }
        (State { sessions }, rejected)
    }

    /// Resolves a caller fingerprint to its session. Absence means an
    /// anonymous caller: a valid read-only state, not an error.
    pub fn resolve(&self, fingerprint: &String) -> (r: Option<&Session>)
        requires
            self.wf(),
        ensures
            match r {
                Some(s) => self@.contains_key(fingerprint@) && s@ == self@[fingerprint@],
                None => !self@.contains_key(fingerprint@),
            },
    {
        self.sessions.get(fingerprint)
    }
}

} // verus!
