//! The process configuration the gateway starts from: where to
//! listen, and the remote accounts to authenticate. Reading and
//! decoding the configuration file is the surrounding program's job;
//! the core holds the decoded values.
use vstd::prelude::*;

verus! {

/// The whole configuration: the listener settings and the configured
/// accounts, each under the transport fingerprint that identifies
/// its caller, in configuration order.
#[derive(Debug)]
pub struct Config {
    pub base: Base,
    pub accounts: Vec<(String, Account)>,
}

/// The listener settings: the bind address and the paths of the
/// certificate and key files.
#[derive(Debug)]
pub struct Base {
    pub bind: String,
    pub cert: String,
    pub key: String,
}

/// One remote account: the service to log into and its credentials.
#[derive(Debug)]
pub struct Account {
    pub pds: String,
    pub username: String,
    pub password: String,
}

} // verus!
