//! The canonical display model: one `Post` per raw entry and one
//! `Profile` per account, each normalized from the raw remote
//! payloads, with every display substitution and default pinned down
//! by the normalization spec functions.
use vstd::prelude::*;

use crate::handles::{handle_of, HandleTable, RemoteRef, RemoteRefView};
use crate::raw::{RawEmbed, RawEntry, RawProfile, RawRecord};
use crate::text::{replace_chars, replaced, sharpen, sharpened, unfolded};
use vstd::string::StrSliceExecFns;

verus! {

/// The media attached to a post, reduced to one displayable item.
#[derive(Debug)]
pub enum Media {
    /// Full-size image URL and its display alt text.
    Image((String, String)),
    /// External link URL and its description.
    External((String, String)),
    /// A one-level summary of a quoted post.
    Quote(Quote),
    Video,
}

/// A quoted post, summarized one level deep: author and body only.
#[derive(Debug)]
pub struct Quote {
    pub author: String,
    pub body: String,
}

/// Why a post appears in a feed: as a repost by an account, as a
/// reply to an author's post, or on its own.
#[derive(Debug)]
pub enum PostContext {
    Reply(String),
    Repost(String),
    Plain,
}

/// One canonical display post.
#[derive(Debug)]
pub struct Post {
    /// The opaque handle this post is addressed by.
    pub id: String,
    /// The author's account handle.
    pub username: String,
    /// Body text after display substitution.
    pub body: String,
    pub media: Option<Media>,
    pub replies: u64,
    pub reposts: u64,
    pub likes: u64,
    pub context: PostContext,
}

/// One canonical display profile.
#[derive(Debug)]
pub struct Profile {
    /// The account's handle.
    pub id: String,
    /// Display name; the account handle when the remote gives none.
    pub name: String,
    /// Bio text; empty when the remote gives none.
    pub bio: String,
    pub followers: u64,
    pub follows: u64,
    /// Whether the viewing account follows this one.
    pub following: bool,
    /// The account's own posts, in remote order.
    pub posts: Vec<Post>,
}

/// The mathematical value of a `Media`.
pub enum MediaView {
    Image { url: Seq<char>, alt: Seq<char> },
    External { url: Seq<char>, description: Seq<char> },
    Quote { author: Seq<char>, body: Seq<char> },
    Video,
}

/// The mathematical value of a `PostContext`.
pub enum ContextView {
    Reply(Seq<char>),
    Repost(Seq<char>),
    Plain,
}

/// The mathematical value of a `Post`.
pub struct PostView {
    pub id: Seq<char>,
    pub username: Seq<char>,
    pub body: Seq<char>,
    pub media: Option<MediaView>,
    pub replies: u64,
    pub reposts: u64,
    pub likes: u64,
    pub context: ContextView,
}

impl View for Media {
    type V = MediaView;

    open spec fn view(&self) -> MediaView {
        match self {
            Media::Image((url, alt)) => MediaView::Image { url: url@, alt: alt@ },
            Media::External((url, description)) => MediaView::External {
                url: url@,
                description: description@,
            },
            Media::Quote(q) => MediaView::Quote { author: q.author@, body: q.body@ },
            Media::Video => MediaView::Video,
        }
    }
}

impl View for PostContext {
    type V = ContextView;

    open spec fn view(&self) -> ContextView {
        match self {
            PostContext::Reply(a) => ContextView::Reply(a@),
            PostContext::Repost(a) => ContextView::Repost(a@),
            PostContext::Plain => ContextView::Plain,
        }
    }
}

impl View for Post {
    type V = PostView;

    open spec fn view(&self) -> PostView {
        PostView {
            id: self.id@,
            username: self.username@,
            body: self.body@,
            media: match self.media {
                Some(m) => Some(m@),
                None => None,
            },
            replies: self.replies,
            reposts: self.reposts,
            likes: self.likes,
            context: self.context@,
        }
    }
}

/// The display body of a record: a post's text after the sharp
/// substitution; empty for a payload that is not a post.
pub open spec fn body_of(r: RawRecord) -> Seq<char> {
    match r {
        RawRecord::Post { text, .. } => sharpened(text@),
        RawRecord::Other => Seq::<char>::empty(),
    }
}

/// The body a quoted record is summarized with: its text as stored,
/// or empty for a payload that is not a post.
pub open spec fn quote_body_of(r: RawRecord) -> Seq<char> {
    match r {
        RawRecord::Post { text, .. } => text@,
        RawRecord::Other => Seq::<char>::empty(),
    }
}

/// Alt text as displayed: the literal `Photo` when empty, and every
/// newline replaced by a space otherwise.
pub open spec fn alt_text_of(alt: Seq<char>) -> Seq<char> {
    if alt.len() == 0 {
        "Photo"@
    } else {
        unfolded(alt)
    }
}

/// An image's displayed alt text defaults to the literal `Photo`
/// whenever the remote alt text is empty; otherwise it is the remote
/// alt text with every literal newline replaced by a space.
pub proof fn lemma_alt_text_defaults(alt: Seq<char>)
    ensures
        alt.len() == 0 ==> alt_text_of(alt) == "Photo"@,
        alt.len() > 0 ==> alt_text_of(alt) == replaced(alt, '\n', ' '),
{
}

/// The one displayable media item of an embed: the first image of an
/// image gallery, an external link, a video, a one-level quote
/// summary; no media for an empty gallery or an unrecognized shape.
pub open spec fn media_of(embed: Option<RawEmbed>) -> Option<MediaView> {
    match embed {
        Option::None => Option::None,
        Option::Some(e) => match e {
            RawEmbed::Images { images } => if images@.len() == 0 {
                Option::None
            } else {
                Option::Some(
                    MediaView::Image {
                        url: images@[0].fullsize@,
                        alt: alt_text_of(images@[0].alt@),
                    },
                )
            },
            RawEmbed::External { uri, description } => Option::Some(
                MediaView::External { url: uri@, description: description@ },
            ),
            RawEmbed::Video => Option::Some(MediaView::Video),
            RawEmbed::Record { author_handle, value } => Option::Some(
                MediaView::Quote { author: author_handle@, body: quote_body_of(value) },
            ),
            RawEmbed::Unknown => Option::None,
        },
    }
}

/// The context of an entry: a repost reason takes precedence over a
/// reply parent; with neither, the post stands on its own.
pub open spec fn context_of(repost_by: Option<String>, reply_parent_author: Option<String>) -> ContextView {
    match repost_by {
        Option::Some(by) => ContextView::Repost(by@),
        Option::None => match reply_parent_author {
            Option::Some(a) => ContextView::Reply(a@),
            Option::None => ContextView::Plain,
        },
    }
}

/// An absent remote count reads as zero.
pub open spec fn count_of(c: Option<u64>) -> u64 {
    match c {
        Option::Some(n) => n,
        Option::None => 0,
    }
}

/// The remote reference a raw entry names.
pub open spec fn entry_ref(e: RawEntry) -> RemoteRefView {
    RemoteRefView { cid: e.cid@, uri: e.uri@ }
}

/// The canonical display record of one raw entry.
pub open spec fn normalized(e: RawEntry) -> PostView {
    PostView {
        id: handle_of(e.uri@),
        username: e.author_handle@,
        body: body_of(e.record),
        media: media_of(e.embed),
        replies: count_of(e.reply_count),
        reposts: count_of(e.repost_count),
        likes: count_of(e.like_count),
        context: context_of(e.repost_by, e.reply_parent_author),
    }
}

fn clone_opt_string(s: &Option<String>) -> (r: Option<String>)
    ensures
        r == *s,
{
    match s {
        Some(v) => Some(v.clone()),
        None => None,
    }
}

fn display_alt(alt: &String) -> (r: String)
    ensures
        r@ == alt_text_of(alt@),
{
    if alt.as_str().unicode_len() == 0 {
        let photo = String::from_str("Photo");
        photo
    } else {
        replace_chars(alt.as_str(), '\n', ' ')
    }
}

fn display_media(embed: &Option<RawEmbed>) -> (r: Option<Media>)
    ensures
        (match r {
            Some(m) => Some(m@),
            None => None::<MediaView>,
        }) == media_of(*embed),
{
    match embed {
        None => None,
        Some(e) => match e {
            RawEmbed::Images { images } => {
                if images.len() == 0 {
                    None
                } else {
                    let url = images[0].fullsize.clone();
                    let alt = display_alt(&images[0].alt);
                    Some(Media::Image((url, alt)))
                }
            },
            RawEmbed::External { uri, description } => Some(
                Media::External((uri.clone(), description.clone())),
            ),
            RawEmbed::Video => Some(Media::Video),
            RawEmbed::Record { author_handle, value } => {
                let body = match value {
                    RawRecord::Post { text, .. } => text.clone(),
                    RawRecord::Other => String::new(),
                };
                Some(Media::Quote(Quote { author: author_handle.clone(), body }))
            },
            RawEmbed::Unknown => None,
        },
    }
}

fn count_or_zero(c: &Option<u64>) -> (r: u64)
    ensures
        r == count_of(*c),
{
    match c {
        Some(n) => *n,
        None => 0,
    }
}

impl Post {
    /// Normalizes one raw entry into its canonical display record,
    /// registering the entry's remote reference in the shared handle
    /// table as a side effect of computing its handle. Every field of
    /// the result, and the one new table entry, are fixed by the
    /// normalization spec.
    pub fn push(entry: &RawEntry, table: &mut HandleTable) -> (p: Post)
        requires
            old(table).wf(),
        ensures
            final(table).wf(),
            final(table)@ == old(table)@.insert(handle_of(entry.uri@), entry_ref(*entry)),
            p@ == normalized(*entry),
    {
        let reference = RemoteRef { cid: entry.cid.clone(), uri: entry.uri.clone() };
        let id = table.put(reference);
        let body = match &entry.record {
            RawRecord::Post { text, .. } => sharpen(text.as_str()),
            RawRecord::Other => String::new(),
        };
        let context = match clone_opt_string(&entry.repost_by) {
            Some(by) => PostContext::Repost(by),
            None => match clone_opt_string(&entry.reply_parent_author) {
                Some(a) => PostContext::Reply(a),
                None => PostContext::Plain,
            },
        };
        Post {
            id,
            username: entry.author_handle.clone(),
            body,
            media: display_media(&entry.embed),
            replies: count_or_zero(&entry.reply_count),
            reposts: count_or_zero(&entry.repost_count),
            likes: count_or_zero(&entry.like_count),
            context,
        }
    }
}

impl Profile {
    /// Assembles a display profile from a raw profile payload and the
    /// account's normalized posts: the display name falls back to the
    /// account handle, the bio to empty, absent counts to zero, and
    /// `following` reads the viewer relationship.
    pub fn assemble(raw: &RawProfile, posts: Vec<Post>) -> (p: Profile)
        ensures
            p.id@ == raw.handle@,
            p.name@ == (match raw.display_name {
                Option::Some(n) => n@,
                Option::None => raw.handle@,
            }),
            p.bio@ == (match raw.description {
                Option::Some(b) => b@,
                Option::None => Seq::<char>::empty(),
            }),
            p.followers == count_of(raw.followers_count),
            p.follows == count_of(raw.follows_count),
            p.following == (raw.viewer_following is Some),
            p.posts == posts,
    {
        let name = match &raw.display_name {
            Some(n) => n.clone(),
            None => raw.handle.clone(),
        };
        let bio = match &raw.description {
            Some(b) => b.clone(),
            None => String::new(),
        };
        let following = match &raw.viewer_following {
            Some(_) => true,
            None => false,
        };
        Profile {
            id: raw.handle.clone(),
            name,
            bio,
            followers: count_or_zero(&raw.followers_count),
            follows: count_or_zero(&raw.follows_count),
            following,
            posts,
        }
    }
}

} // verus!
