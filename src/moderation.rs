use vstd::prelude::*;
use crate::classify::{has_indexme_request, regex_search, shares_a_tag, INDEXME_PATTERN};
use crate::may_index::{is_stale_at, stale};
use crate::vacancy::Vacancy;

verus! {

/// A post to send: `status` as a reply to the post `in_reply_to_id`.
#[derive(Clone, Debug, PartialEq)]
pub struct Reply {
    pub status: String,
    pub in_reply_to_id: String,
}

/// What the watchers hand to the moderator, in the order they send it.
#[derive(Debug)]
pub enum Message {
    /// Progress worth logging.
    Generic(String),
    /// A post to moderate for the index.
    Vacancy(Vacancy),
    /// A reply to post as it is.
    NewMessage(Reply),
    /// No message follows: the moderator stops.
    Term,
}

/// Why a post is not indexed.
#[derive(Clone, Copy, Debug, PartialEq, Eq, Structural)]
pub enum Rejection {
    /// The index already holds it.
    Duplicate,
    /// It is too old.
    Stale,
    /// It replies to another post.
    Reply,
    /// Its author's profile forbids indexing.
    NotIndexable,
}

/// The moderator's next step with a post.
#[derive(Clone, Copy, Debug, PartialEq, Eq, Structural)]
pub enum Verdict {
    /// Ask the index whether it holds the post.
    LookUpIndex,
    /// Fetch the author's profile page and read its robots meta tag.
    FetchProfile,
    /// Index the post.
    Accept,
    Reject(Rejection),
}

/// What the moderator has learnt of a post from outside so far.
#[derive(Clone, Copy, Debug, PartialEq, Eq, Structural)]
pub struct Findings {
    /// Whether the index holds the post, once asked.
    pub already_indexed: Option<bool>,
    /// Whether the author's profile allows indexing, once fetched.
    pub may_index: Option<bool>,
}

/// The checks in their order, each asked only when those before it passed:
/// not in the index yet, not stale at `now`, not a reply, allowed by the
/// author.
pub open spec fn verdict(candidate: Vacancy, now: int, findings: Findings) -> Verdict {
    match findings.already_indexed {
        None => Verdict::LookUpIndex,
        Some(true) => Verdict::Reject(Rejection::Duplicate),
        Some(false) => if stale(candidate.created_at as int, now) {
            Verdict::Reject(Rejection::Stale)
        } else if candidate.in_reply_to_id is Some {
            Verdict::Reject(Rejection::Reply)
        } else {
            match findings.may_index {
                None => Verdict::FetchProfile,
                Some(false) => Verdict::Reject(Rejection::NotIndexable),
                Some(true) => Verdict::Accept,
            }
        },
    }
}

/// The next step with `candidate` at time `now` (milliseconds since the Unix
/// epoch), given what is known of it.
pub fn moderation_step(candidate: &Vacancy, now: i64, findings: &Findings) -> (r: Verdict)
    ensures
        r == verdict(*candidate, now as int, *findings),
{
    match findings.already_indexed {
        None => Verdict::LookUpIndex,
        Some(true) => Verdict::Reject(Rejection::Duplicate),
        Some(false) => {
            if is_stale_at(candidate.created_at, now) {
                Verdict::Reject(Rejection::Stale)
            } else if candidate.in_reply_to_id.is_some() {
                Verdict::Reject(Rejection::Reply)
            } else {
                match findings.may_index {
                    None => Verdict::FetchProfile,
                    Some(false) => Verdict::Reject(Rejection::NotIndexable),
                    Some(true) => Verdict::Accept,
                }
            }
        },
    }
}

/// A side effect of accepting a post.
#[derive(Clone, Copy, Debug, PartialEq, Eq, Structural)]
pub enum Effect {
    /// Write the post into the index under its id.
    Upsert,
    /// Mark the post as a favourite.
    Favourite,
}

/// An accepted post is written to the index and then marked as a favourite;
/// nothing is done for any other verdict.
pub open spec fn plan_of(v: Verdict) -> Seq<Effect> {
    if v == Verdict::Accept {
        seq![Effect::Upsert, Effect::Favourite]
    } else {
        Seq::empty()
    }
}

/// The side effects to carry out for a post with verdict `v`.
pub fn dispatch_plan(v: &Verdict) -> (r: Vec<Effect>)
    ensures
        r@ == plan_of(*v),
{
    let mut r: Vec<Effect> = Vec::new();
    if *v == Verdict::Accept {
        r.push(Effect::Upsert);
        r.push(Effect::Favourite);
        assert(r@ =~= seq![Effect::Upsert, Effect::Favourite]);
    } else {
        assert(r@ =~= Seq::<Effect>::empty());
    }
    r
}

/// The answer to a reply that does not ask for indexing.
pub const NOT_UNDERSTOOD: &'static str = "I did not understand the request. Did you include the phrase \"index this\"?";

/// What to do with a notification about a post.
#[derive(Clone, Debug, PartialEq)]
pub enum NotificationAction {
    /// Fetch the post with this id and moderate it.
    ResolveParent(String),
    /// Post this reply.
    Answer(Reply),
    /// Nothing.
    Ignore,
}

/// `r` is what a notification about the post `status_id`, which replies to
/// `parent`, calls for, where `has_request` tells whether it asks for
/// indexing: the post it replies to is fetched and moderated; a request that
/// replies to nothing is let be; any other text gets the not-understood answer.
pub open spec fn answers(
    r: NotificationAction,
    has_request: bool,
    status_id: Seq<char>,
    parent: Option<Seq<char>>,
) -> bool {
    if has_request {
        match parent {
            Some(p) => (r matches NotificationAction::ResolveParent(id) && id@ == p),
            None => r == NotificationAction::Ignore,
        }
    } else {
        (r matches NotificationAction::Answer(reply) && reply.status@ == NOT_UNDERSTOOD@
            && reply.in_reply_to_id@ == status_id)
    }
}

/// The action for a notification about the post `status_id`, which replies
/// to `in_reply_to_id`, where `has_request` tells whether it asks for indexing.
pub fn answer_notification(has_request: bool, status_id: &str, in_reply_to_id: &Option<String>) -> (r:
    NotificationAction)
    ensures
        answers(r, has_request, status_id@, in_reply_to_id.deep_view()),
{
    if has_request {
        match in_reply_to_id {
            Some(parent) => NotificationAction::ResolveParent(parent.clone()),
            None => NotificationAction::Ignore,
        }
    } else {
        NotificationAction::Answer(
            Reply {
                status: String::from_str(NOT_UNDERSTOOD),
                in_reply_to_id: String::from_str(status_id),
            },
        )
    }
}

/// The action for a notification about the post `status_id` with text
/// `content`, which replies to `in_reply_to_id`.
pub fn on_notification(status_id: &str, content: &str, in_reply_to_id: &Option<String>) -> (r:
    NotificationAction)
    ensures
        answers(
            r,
            regex_search(INDEXME_PATTERN@, content@) == Some(true),
            status_id@,
            in_reply_to_id.deep_view(),
        ),
{
    answer_notification(has_indexme_request(content), status_id, in_reply_to_id)
}

/// A post whose hashtags match the job tags, that the index does not hold,
/// that is not stale, not a reply, and whose author allows indexing is
/// accepted, and its dispatch writes it to the index once and marks it as a
/// favourite once. A post that fails any one of the moderator's checks is
/// rejected and calls for no side effect at all.
pub proof fn lemma_moderation_outcome(
    post: Vacancy,
    job_tags: Seq<Seq<char>>,
    now: int,
    indexed: bool,
    allowed: bool,
)
    ensures
        ({
            let v = verdict(post, now, Findings { already_indexed: Some(indexed), may_index: Some(allowed) });
            &&& (post.tags@.len() > 0 && shares_a_tag(post.tags@, job_tags) && !indexed && !stale(
                post.created_at as int,
                now,
            ) && post.in_reply_to_id is None && allowed) ==> v == Verdict::Accept && plan_of(v)
                == seq![Effect::Upsert, Effect::Favourite]
            &&& (indexed || stale(post.created_at as int, now) || post.in_reply_to_id is Some
                || !allowed) ==> v is Reject && plan_of(v) == Seq::<Effect>::empty()
        }),
{
}

/// The checks come in their order: the index is asked first, the author's
/// profile only once the index, the age and the reply checks have passed, and
/// a post rejected before the profile is fetched stays rejected, for the same
/// reason, whatever the profile says.
pub proof fn lemma_check_order(post: Vacancy, now: int, indexed: bool, allowed: Option<bool>, answer: bool)
    ensures
        verdict(post, now, Findings { already_indexed: None, may_index: allowed })
            == Verdict::LookUpIndex,
        ({
            let early = verdict(post, now, Findings { already_indexed: Some(indexed), may_index: None });
            let late = verdict(post, now, Findings { already_indexed: Some(indexed), may_index: Some(answer) });
            &&& early is Reject ==> late == early
            &&& early == Verdict::FetchProfile ==> late == if answer {
                Verdict::Accept
            } else {
                Verdict::Reject(Rejection::NotIndexable)
            }
            &&& early == Verdict::FetchProfile || early is Reject
        }),
{
}

} // verus!
