use vstd::prelude::*;
use crate::classify::word_at;

verus! {

/// The CSS selector of the robots meta tag.
pub const ROBOTS_SELECTOR: &'static str = "meta[name=\"robots\"]";

/// The attribute of the robots meta tag that holds its directives.
pub const CONTENT_ATTRIBUTE: &'static str = "content";

/// What parsing `html` as an HTML fragment and taking the first element that
/// the CSS selector `selector` picks, then its attribute `attr`, gives: `None`
/// when the selector does not parse, `Some(None)` when no element is picked,
/// otherwise `Some(Some(v))` with `v` the attribute's value if it is present.
pub uninterp spec fn first_element_attr(
    html: Seq<char>,
    selector: Seq<char>,
    attr: Seq<char>,
) -> Option<Option<Option<Seq<char>>>>;

/// Relies on scraper: `Html::parse_fragment` parses `html`, `Selector::parse`
/// parses `selector` or fails, `Html::select(..).next()` yields the first
/// picked element in document order, and `Element::attr` the value of its
/// attribute `attr`.
#[verifier::external_body]
fn lookup_first_element_attr(html: &str, selector: &str, attr: &str) -> (r: Option<
    Option<Option<String>>,
>)
    ensures
        r.deep_view() == first_element_attr(html@, selector@, attr@),
{
    let fragment = scraper::Html::parse_fragment(html);
    let selector = match scraper::Selector::parse(selector) {
        Ok(selector) => selector,
        Err(_) => return None,
    };
    match fragment.select(&selector).next() {
        Some(element) => Some(Some(element.value().attr(attr).map(String::from))),
        None => Some(None),
    }
}

/// A character that separates the directives of a robots meta tag.
pub open spec fn separator(c: char) -> bool {
    c == ',' || c == ' ' || ('\t' <= c && c <= '\r')
}

/// `w` stands in `s` at `i` as a whole directive, with a separator or an end
/// of `s` on each side.
pub open spec fn token_at(s: Seq<char>, i: int, w: Seq<char>) -> bool {
    &&& word_at(s, i, w)
    &&& (i == 0 || separator(s[i - 1]))
    &&& (i + w.len() == s.len() || separator(s[i + w.len()]))
}

pub open spec fn noindex() -> Seq<char> {
    seq!['n', 'o', 'i', 'n', 'd', 'e', 'x']
}

pub open spec fn none_directive() -> Seq<char> {
    seq!['n', 'o', 'n', 'e']
}

/// The directives `content` of a robots meta tag forbid indexing: they
/// contain "noindex", or the directive "none".
pub open spec fn forbids_indexing(content: Seq<char>) -> bool {
    (exists|i: int| word_at(content, i, noindex())) || (exists|i: int|
        token_at(content, i, none_directive()))
}

/// Whether the outcome of looking up the robots meta tag's directives lets a
/// page be indexed: only directives that forbid it do not.
pub open spec fn meta_allows(found: Option<Option<Option<Seq<char>>>>) -> bool {
    match found {
        Some(Some(Some(content))) => !forbids_indexing(content),
        _ => true,
    }
}

/// Whether `w` stands in `s` at `i`.
fn occurs_at(s: &str, n: usize, i: usize, w: &str) -> (r: bool)
    requires
        n == s@.len(),
        i <= n,
    ensures
        r == word_at(s@, i as int, w@),
{
    let m = w.unicode_len();
    if m > n - i {
        return false;
    }
    let mut k: usize = 0;
    while k < m
        invariant
            m == w@.len(),
            i + m <= n,
            n == s@.len(),
            k <= m,
            forall|j: int| 0 <= j < k ==> s@[i + j] == w@[j],
        decreases m - k,
    {
        if s.get_char(i + k) != w.get_char(k) {
            assert(s@.subrange(i as int, i + m)[k as int] != w@[k as int]);
            return false;
        }
        k = k + 1;
    }
    assert(s@.subrange(i as int, i + m) =~= w@);
    true
}

fn is_separator(c: char) -> (r: bool)
    ensures
        r == separator(c),
{
    c == ',' || c == ' ' || ('\t' <= c && c <= '\r')
}

/// Whether the directives `content` of a robots meta tag let a page be indexed.
pub fn robots_content_allows(content: &str) -> (r: bool)
    ensures
        r == !forbids_indexing(content@),
{
    let noindex_word = "noindex";
    let none_word = "none";
    proof {
        reveal_strlit("noindex");
        reveal_strlit("none");
        assert(noindex_word@ =~= noindex());
        assert(none_word@ =~= none_directive());
    }
    let n = content.unicode_len();
    let mut i: usize = 0;
    while i < n
        invariant
            i <= n,
            n == content@.len(),
            noindex_word@ == noindex(),
            none_word@ == none_directive(),
            forall|j: int| 0 <= j < i ==> !word_at(content@, j, noindex()),
            forall|j: int| 0 <= j < i ==> !token_at(content@, j, none_directive()),
        decreases n - i,
    {
        if occurs_at(content, n, i, noindex_word) {
            return false;
        }
        if occurs_at(content, n, i, none_word) {
            let before = i == 0 || is_separator(content.get_char(i - 1));
            let after = i + 4 == n || is_separator(content.get_char(i + 4));
            if before && after {
                assert(token_at(content@, i as int, none_directive()));
                return false;
            }
        }
        i = i + 1;
    }
    assert forall|j: int| !word_at(content@, j, noindex()) by {
        if j >= n {
            assert(!word_at(content@, j, noindex()));
        }
    }
    assert forall|j: int| !token_at(content@, j, none_directive()) by {
        if j >= n {
            assert(!word_at(content@, j, none_directive()));
        }
    }
    true
}

/// Whether an HTML page lets its author's posts be indexed, by its robots
/// meta tag: a page without one, or whose tag has no directives, does.
pub fn determine_meta_robots(html: &str) -> (r: bool)
    ensures
        r == meta_allows(first_element_attr(html@, ROBOTS_SELECTOR@, CONTENT_ATTRIBUTE@)),
{
    match lookup_first_element_attr(html, ROBOTS_SELECTOR, CONTENT_ATTRIBUTE) {
        Some(Some(Some(content))) => robots_content_allows(content.as_str()),
        _ => true,
    }
}

/// Whether an author's posts may be indexed, given their profile page:
/// `None` when it could not be fetched, in which case they may.
pub fn may_index(page: Option<&str>) -> (r: bool)
    ensures
        page is None ==> r,
        page matches Some(html) ==> r == meta_allows(
            first_element_attr(html@, ROBOTS_SELECTOR@, CONTENT_ATTRIBUTE@),
        ),
{
    match page {
        Some(html) => determine_meta_robots(html),
        None => true,
    }
}

/// Posts older than this many days are stale.
pub const STALE_AFTER_DAYS: i64 = 62;

/// Milliseconds in a day.
pub const DAY_MILLIS: i64 = 86400000;

/// A post made at `created_at` is stale at `now` (both in milliseconds since
/// the Unix epoch) when more than `STALE_AFTER_DAYS` days lie between them.
pub open spec fn stale(created_at: int, now: int) -> bool {
    now - created_at > STALE_AFTER_DAYS * DAY_MILLIS
}

/// Relies on `chrono::Utc::now` and `DateTime::timestamp_millis`: the time of
/// the call in milliseconds since the Unix epoch. Nothing is known of it.
#[verifier::external_body]
fn now_millis() -> (r: i64) {
    chrono::Utc::now().timestamp_millis()
}

/// Whether a post made at `created_at` is stale at `now`.
pub fn is_stale_at(created_at: i64, now: i64) -> (r: bool)
    ensures
        r == stale(created_at as int, now as int),
{
    (now as i128) - (created_at as i128) > (STALE_AFTER_DAYS as i128) * (DAY_MILLIS as i128)
}

/// Whether a post made at `created_at` is stale now, by the system clock.
pub fn is_stale(created_at: i64) -> (r: bool)
    ensures
        exists|now: i64| r == stale(created_at as int, now as int),
{
    let now = now_millis();
    is_stale_at(created_at, now)
}

/// A post made at the present moment is not stale; one made exactly
/// `STALE_AFTER_DAYS` days ago is not stale yet; one made a second earlier is.
pub proof fn lemma_staleness_boundary(now: int)
    ensures
        !stale(now, now),
        !stale(now - STALE_AFTER_DAYS * DAY_MILLIS, now),
        stale(now - STALE_AFTER_DAYS * DAY_MILLIS - 1000, now),
{
}

} // verus!
