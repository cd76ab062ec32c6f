use vstd::prelude::*;

verus! {

/// An account, as its home server describes it: a person who may be looking
/// for work.
#[derive(Clone, Debug, PartialEq)]
pub struct Candidate {
    pub id: String,
    pub ap_id: String,
    pub username: String,
    pub name: String,
    pub summary: String,
    pub url: String,
    pub tag: Vec<Tag>,
    pub attachment: Vec<Attachment>,
    pub icon: Option<Image>,
    pub image: Option<Image>,
}

/// A hashtag on a profile.
#[derive(Clone, Debug, PartialEq)]
pub struct Tag {
    pub href: String,
    pub name: String,
}

/// A name and value pair of a profile.
#[derive(Clone, Debug, PartialEq)]
pub struct Attachment {
    pub name: String,
    pub value: String,
}

/// A picture of a profile.
#[derive(Clone, Debug, PartialEq)]
pub struct Image {
    pub media_type: String,
    pub url: String,
}

} // verus!
