//! Core of a text-protocol gateway to a remote social-graph service:
//! a shared handle table that maps short content-addressed handles to
//! remote record references, a normalizer that turns raw timeline
//! entries into canonical display posts, and the per-account session
//! logic that decides which remote records to create or delete.
use vstd::prelude::*;

pub mod config;
pub mod handles;
pub mod raw;
pub mod session;
pub mod state;
pub mod strmap;
pub mod text;
pub mod types;
pub mod views;

verus! {

/// The failure conditions the gateway core distinguishes.
#[derive(Debug, Clone, Copy, PartialEq, Eq, Structural)]
pub enum GatewayError {
    /// The remote service rejected an account's credentials at login.
    AuthError,
    /// A remote call failed in transport or at the service.
    RemoteUnavailable,
    /// A handle was not present in the handle table.
    UnknownHandle,
    /// A reply's parent record could not be read as a post.
    ThreadResolutionError,
}

} // verus!

