//! The raw remote data as the core reads it: a defensive model of
//! the variant-rich timeline entry and profile payloads the remote
//! social-graph service returns. Every shape the logic does not
//! recognize collapses into an explicit unknown variant instead of
//! failing, so one malformed entry can never abort a whole feed.
use vstd::prelude::*;

use crate::handles::RemoteRef;

verus! {

/// One image of an image embed: its full-size URL and its alt text.
#[derive(Debug)]
pub struct RawImage {
    pub fullsize: String,
    pub alt: String,
}

/// A strong reply relationship stored in a post record: the thread
/// root and the direct parent.
#[derive(Debug)]
pub struct RawReplyRefs {
    pub root: RemoteRef,
    pub parent: RemoteRef,
}

/// A remote record payload, decoded defensively: either a post with
/// its text and optional reply relationship, or something the core
/// does not interpret.
#[derive(Debug)]
pub enum RawRecord {
    Post { text: String, reply: Option<RawReplyRefs> },
    Other,
}

/// The embed attached to a post, one level deep: images, an external
/// link, a video, one quoted record, or a shape the core does not
/// recognize.
#[derive(Debug)]
pub enum RawEmbed {
    Images { images: Vec<RawImage> },
    External { uri: String, description: String },
    Video,
    Record { author_handle: String, value: RawRecord },
    Unknown,
}

/// One raw timeline or author-feed entry, reduced to the fields the
/// display model reads.
#[derive(Debug)]
pub struct RawEntry {
    /// Canonical URI of the post record.
    pub uri: String,
    /// Content id of the post record.
    pub cid: String,
    /// Account handle of the post's author.
    pub author_handle: String,
    /// The post's record payload.
    pub record: RawRecord,
    /// The post's embed, if any.
    pub embed: Option<RawEmbed>,
    pub reply_count: Option<u64>,
    pub repost_count: Option<u64>,
    pub like_count: Option<u64>,
    /// Set when the entry appears because this account reposted it:
    /// the reposting account's handle.
    pub repost_by: Option<String>,
    /// Set when the entry is a reply whose parent is visible: the
    /// parent author's handle.
    pub reply_parent_author: Option<String>,
}

/// A raw profile payload, reduced to the fields the display model
/// reads. Absent counts mean zero, never failure.
#[derive(Debug)]
pub struct RawProfile {
    /// The account's handle.
    pub handle: String,
    pub display_name: Option<String>,
    pub description: Option<String>,
    pub followers_count: Option<u64>,
    pub follows_count: Option<u64>,
    /// When the viewing account follows this one: the canonical URI
    /// of the viewer's follow record.
    pub viewer_following: Option<String>,
}

} // verus!
