//! The request-facing cores of the gateway's views: what each
//! inbound request resolves to once the transport layer has supplied
//! the caller's session (if any) and the request's input. The
//! transport and the final document rendering stay outside the core.
use vstd::prelude::*;

use crate::types::{Post, Profile};
use vstd::string::StrSliceExecFns;

verus! {

/// The feed document: the caller's session handle, if any, and the
/// posts to render.
#[derive(Debug)]
pub struct Feed {
    pub session: Option<String>,
    pub posts: Vec<Post>,
}

/// The profile document: the caller's session handle, if any, and
/// the profile to render, if the caller could fetch one.
#[derive(Debug)]
pub struct ProfileView {
    pub session: Option<String>,
    pub profile: Option<Profile>,
}

/// What an interaction request's input asks for.
#[derive(Debug, Clone, Copy, PartialEq, Eq, Structural)]
pub enum InteractCommand {
    /// No input yet: ask the caller for one.
    Prompt,
    /// Input `l`: toggle a like.
    Like,
    /// Input `r`: toggle a repost.
    Repost,
    /// Input `R`: go to the reply composer.
    ComposeReply,
    /// Any other input: do nothing.
    Ignore,
}

/// The command an interaction input selects.
pub open spec fn interact_command_of(input: Option<Seq<char>>) -> InteractCommand {
    match input {
        Option::None => InteractCommand::Prompt,
        Option::Some(s) => if s =~= seq!['l'] {
            InteractCommand::Like
        } else if s =~= seq!['r'] {
            InteractCommand::Repost
        } else if s =~= seq!['R'] {
            InteractCommand::ComposeReply
        } else {
            InteractCommand::Ignore
        },
    }
}

/// Builds the feed document for a request: an authenticated caller
/// sees the fetched posts under their session handle; an anonymous
/// caller sees an empty feed — a valid state, not an error.
pub fn feed(session_handle: Option<String>, posts: Vec<Post>) -> (f: Feed)
    ensures
        match session_handle {
            Option::Some(h) => f.session matches Option::Some(s) && s == h && f.posts == posts,
            Option::None => f.session is None && f.posts@.len() == 0,
        },
{
    match session_handle {
        Some(h) => Feed { session: Some(h), posts },
        None => Feed { session: None, posts: Vec::new() },
    }
}

/// Builds the profile document for a request: an authenticated
/// caller sees the fetched profile under their session handle; an
/// anonymous caller sees neither.
pub fn profile(session_handle: Option<String>, fetched: Option<Profile>) -> (v: ProfileView)
    ensures
        match session_handle {
            Option::Some(h) => v.session matches Option::Some(s) && s == h && v.profile == fetched,
            Option::None => v.session is None && v.profile is None,
        },
{
    match session_handle {
        Some(h) => ProfileView { session: Some(h), profile: fetched },
        None => ProfileView { session: None, profile: None },
    }
}

/// Builds the redirect target a follow request ends in: the target
/// account's profile page.
pub fn follow(target: &str) -> (r: String)
    ensures
        r@ == "/@"@ + target@,
{
    let mut r = String::from_str("/@");
    r.append(target);
    r
}

/// What a compose request resolves to: a prompt when the caller has
/// given no input yet, else the body to publish.
#[derive(Debug)]
pub enum ComposeCommand {
    Prompt,
    Publish(String),
}

/// Resolves a reply request: ask for the reply text until the caller
/// supplies it, then publish exactly what was supplied.
pub fn reply(input: Option<String>) -> (c: ComposeCommand)
    ensures
        match input {
            Option::Some(body) => c matches ComposeCommand::Publish(b) && b == body,
            Option::None => c is Prompt,
        },
{
    match input {
        Some(body) => ComposeCommand::Publish(body),
        None => ComposeCommand::Prompt,
    }
}

/// Resolves a post request: ask for the post text until the caller
/// supplies it, then publish exactly what was supplied.
pub fn post(input: Option<String>) -> (c: ComposeCommand)
    ensures
        match input {
            Option::Some(body) => c matches ComposeCommand::Publish(b) && b == body,
            Option::None => c is Prompt,
        },
{
    match input {
        Some(body) => ComposeCommand::Publish(body),
        None => ComposeCommand::Prompt,
    }
}

/// Dispatches an interaction request's input: no input asks for a
/// prompt, `l` toggles a like, `r` a repost, `R` opens the reply
/// composer, and anything else does nothing.
pub fn interact(input: &Option<String>) -> (c: InteractCommand)
    ensures
        c == interact_command_of(
            match *input {
                Option::Some(s) => Option::Some(s@),
                Option::None => Option::None,
            },
        ),
{
    match input {
        None => InteractCommand::Prompt,
        Some(s) => {
            if s.as_str().unicode_len() != 1 {
                return InteractCommand::Ignore;
            }
            let c = s.as_str().get_char(0);
            proof {
                assert(s@ =~= seq![s@[0]]);
            }
            if c == 'l' {
                InteractCommand::Like
            } else if c == 'r' {
                InteractCommand::Repost
            } else if c == 'R' {
                InteractCommand::ComposeReply
            } else {
                InteractCommand::Ignore
            }
        },
    }
}

} // verus!
