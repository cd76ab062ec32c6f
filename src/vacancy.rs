use vstd::prelude::*;

verus! {

/// The author of a post.
#[derive(Clone, Debug, PartialEq)]
pub struct Account {
    pub id: String,
    pub acct: String,
    pub avatar: String,
    pub avatar_static: String,
    pub display_name: String,
    /// The author's profile page, whose robots meta tag tells whether the
    /// author's posts may be indexed.
    pub url: String,
    pub username: String,
}

#[derive(Clone, Copy, Debug, PartialEq, Eq)]
pub enum MediaType {
    Image,
    Video,
    Gifv,
    Unknown,
}

/// A media file attached to a post.
#[derive(Clone, Debug, PartialEq)]
pub struct Attachment {
    pub id: String,
    pub media_type: MediaType,
    pub url: String,
    pub remote_url: Option<String>,
    pub preview_url: String,
}

/// A hashtag of a post: its name as the network normalised it, and its page.
#[derive(Clone, Debug, PartialEq)]
pub struct Tag {
    pub url: String,
    pub name: String,
}

/// The preview card of a link in a post.
#[derive(Clone, Debug, PartialEq)]
pub struct Card {
    pub url: String,
    pub title: String,
    pub description: String,
    pub image: Option<String>,
}

/// A post under consideration as a job vacancy.
#[derive(Clone, Debug, PartialEq)]
pub struct Vacancy {
    /// The post's id on the instance it was read from; the index key.
    pub id: String,
    /// The post's canonical identifier.
    pub uri: String,
    /// The post's page, for people.
    pub url: Option<String>,
    pub account: Account,
    /// The post's text, as HTML.
    pub content: String,
    /// When the post was made, in milliseconds since the Unix epoch (UTC).
    pub created_at: i64,
    /// The post that this one replies to, if any.
    pub in_reply_to_id: Option<String>,
    pub media_attachments: Vec<Attachment>,
    pub tags: Vec<Tag>,
    pub card: Option<Card>,
    pub language: Option<String>,
}

} // verus!
