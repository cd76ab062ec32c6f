use vstd::prelude::*;
use crate::job_tags::JobTagsRepository;
use crate::vacancy::Tag;

verus! {

/// Whether `c` is numeric in Unicode's sense (general category Nd, Nl or No).
pub uninterp spec fn numeric_char(c: char) -> bool;

/// Relies on `char::is_numeric`: true for characters of Unicode's number
/// categories; among ASCII characters these are exactly the ten digits.
#[verifier::external_body]
fn is_numeric(c: char) -> (r: bool)
    ensures
        r == numeric_char(c),
        (c as u32) < 128 ==> (r <==> ('0' <= c && c <= '9')),
{
    c.is_numeric()
}

/// The text after the last `/` of `s`, or all of `s` when it has none.
pub open spec fn last_segment(s: Seq<char>) -> Seq<char>
    decreases s.len(),
{
    if s.len() == 0 {
        s
    } else if s.last() == '/' {
        Seq::empty()
    } else {
        last_segment(s.drop_last()).push(s.last())
    }
}

pub open spec fn all_numeric(s: Seq<char>) -> bool {
    forall|j: int| 0 <= j < s.len() ==> #[trigger] numeric_char(s[j])
}

pub open spec fn all_digits(s: Seq<char>) -> bool {
    forall|j: int| 0 <= j < s.len() ==> '0' <= #[trigger] s[j] && s[j] <= '9'
}

/// The status id that a status URL ends with: its last path segment, when
/// every character of it is numeric.
pub fn id_from_uri(uri: String) -> (r: Option<String>)
    ensures
        r is Some <==> all_numeric(last_segment(uri@)),
        r matches Some(id) ==> id@ == last_segment(uri@),
        ascii_text(last_segment(uri@)) ==> (r is Some <==> all_digits(last_segment(uri@))),
{
    let s = uri.as_str();
    let n = s.unicode_len();
    let mut start: usize = 0;
    let mut i: usize = 0;
    while i < n
        invariant
            n == s@.len(),
            start <= i <= n,
            last_segment(s@.take(i as int)) == s@.subrange(start as int, i as int),
        decreases n - i,
    {
        let c = s.get_char(i);
        proof {
            assert(s@.take(i + 1).drop_last() == s@.take(i as int));
            assert(s@.take(i + 1).last() == c);
        }
        if c == '/' {
            start = i + 1;
            assert(s@.subrange(start as int, i + 1) =~= Seq::<char>::empty());
        } else {
            assert(s@.subrange(start as int, i + 1) =~= s@.subrange(start as int, i as int).push(c));
        }
        i = i + 1;
    }
    assert(s@.take(n as int) =~= s@);
    let segment = s.substring_char(start, n);
    let m = n - start;
    let mut j: usize = 0;
    while j < m
        invariant
            m == segment@.len(),
            segment@ == last_segment(uri@),
            j <= m,
            forall|k: int| 0 <= k < j ==> #[trigger] numeric_char(segment@[k]),
            forall|k: int|
                0 <= k < j ==> ((#[trigger] segment@[k]) as u32) < 128 ==> ('0' <= segment@[k]
                    && segment@[k] <= '9'),
        decreases m - j,
    {
        if !is_numeric(segment.get_char(j)) {
            assert(!all_numeric(segment@));
            return None;
        }
        j = j + 1;
    }
    Some(String::from_str(segment))
}

/// The pattern of a request to index: the word "index", at most one
/// whitespace character, the word "this", each end bounded by a character
/// that is not a word character. Words that merely contain the phrase, such
/// as "reindex thistle", do not match it.
pub const INDEXME_PATTERN: &'static str = "\\Windex\\s?this\\W";

/// What compiling `pattern` as a regular expression and searching `haystack`
/// with it gives: `None` when the pattern does not compile, otherwise whether
/// it matches somewhere.
pub uninterp spec fn regex_search(pattern: Seq<char>, haystack: Seq<char>) -> Option<bool>;

pub open spec fn ascii_text(s: Seq<char>) -> bool {
    forall|j: int| 0 <= j < s.len() ==> (#[trigger] s[j] as u32) < 128
}

/// An ASCII word character: a letter, a digit or `_`.
pub open spec fn word_char(c: char) -> bool {
    ('a' <= c && c <= 'z') || ('A' <= c && c <= 'Z') || ('0' <= c && c <= '9') || c == '_'
}

/// An ASCII whitespace character: space, tab, line feed, vertical tab, form
/// feed or carriage return.
pub open spec fn space_char(c: char) -> bool {
    c == ' ' || ('\t' <= c && c <= '\r')
}

pub open spec fn word_at(s: Seq<char>, i: int, w: Seq<char>) -> bool {
    0 <= i && i + w.len() <= s.len() && s.subrange(i, i + w.len()) == w
}

/// `s` holds, from position `i`, a non-word character, "index", at most one
/// whitespace character, "this" and a non-word character.
pub open spec fn indexme_at(s: Seq<char>, i: int) -> bool {
    &&& 0 <= i < s.len()
    &&& !word_char(s[i])
    &&& word_at(s, i + 1, seq!['i', 'n', 'd', 'e', 'x'])
    &&& {
        ||| (word_at(s, i + 6, seq!['t', 'h', 'i', 's']) && i + 10 < s.len() && !word_char(s[i + 10]))
        ||| (i + 6 < s.len() && space_char(s[i + 6]) && word_at(s, i + 7, seq!['t', 'h', 'i', 's'])
            && i + 11 < s.len() && !word_char(s[i + 11]))
    }
}

pub open spec fn has_indexme_phrase(s: Seq<char>) -> bool {
    exists|i: int| indexme_at(s, i)
}

/// Relies on `regex::Regex::new`, which compiles `pattern` or reports an
/// error, and `Regex::is_match`, which tells whether the compiled expression
/// matches anywhere in `haystack`. `INDEXME_PATTERN` compiles; as `\W` and `\s`
/// take their ASCII meaning on ASCII text, on such text it matches exactly
/// where `indexme_at` holds.
#[verifier::external_body]
fn regex_is_match(pattern: &str, haystack: &str) -> (r: Option<bool>)
    ensures
        r == regex_search(pattern@, haystack@),
        pattern@ == INDEXME_PATTERN@ && ascii_text(haystack@) ==> r == Some(
            has_indexme_phrase(haystack@),
        ),
{
    match regex::Regex::new(pattern) {
        Ok(re) => Some(re.is_match(haystack)),
        Err(_) => None,
    }
}

/// Whether a post's content asks for the post it replies to be indexed.
pub fn has_indexme_request(content: &str) -> (r: bool)
    ensures
        r == (regex_search(INDEXME_PATTERN@, content@) == Some(true)),
        ascii_text(content@) ==> (r == has_indexme_phrase(content@)),
{
    match regex_is_match(INDEXME_PATTERN, content) {
        Some(found) => found,
        None => false,
    }
}

/// Whether some tag of `tags` has its name among the `job_tags`.
pub open spec fn shares_a_tag(tags: Seq<Tag>, job_tags: Seq<Seq<char>>) -> bool {
    exists|i: int| 0 <= i < tags.len() && job_tags.contains(#[trigger] tags[i].name@)
}

/// Whether a post with hashtags `tags` is about jobs: it has hashtags, and
/// the name of one of them is among the repository's tags, exactly.
pub fn has_job_related_tags<T: JobTagsRepository>(tags: &[Tag], job_tags_repository: &T) -> (r: bool)
    ensures
        r == (tags@.len() > 0 && shares_a_tag(tags@, job_tags_repository.tag_list())),
{
    if tags.len() == 0 {
        return false;
    }
    let job_tags = job_tags_repository.tags();
    let ghost wanted = job_tags_repository.tag_list();
    let mut i: usize = 0;
    while i < tags.len()
        invariant
            i <= tags@.len(),
            job_tags.deep_view() == wanted,
            wanted == job_tags_repository.tag_list(),
            forall|k: int| 0 <= k < i ==> !wanted.contains(#[trigger] tags@[k].name@),
        decreases tags@.len() - i,
    {
        let name = &tags[i].name;
        let mut j: usize = 0;
        while j < job_tags.len()
            invariant
                i < tags@.len(),
                *name == tags@[i as int].name,
                j <= job_tags@.len(),
                job_tags.deep_view() == wanted,
                wanted == job_tags_repository.tag_list(),
                forall|k: int| 0 <= k < j ==> job_tags@[k]@ != name@,
            decreases job_tags@.len() - j,
        {
            if *name == job_tags[j] {
                assert(job_tags.deep_view()[j as int] == job_tags@[j as int]@);
                assert(wanted[j as int] == name@);
                assert(wanted.contains(tags@[i as int].name@));
                return true;
            }
            j = j + 1;
        }
        proof {
            if wanted.contains(name@) {
                let k = choose|k: int| 0 <= k < wanted.len() && wanted[k] == name@;
                assert(job_tags.deep_view()[k] == job_tags@[k]@);
            }
        }
        i = i + 1;
    }
    false
}

} // verus!
