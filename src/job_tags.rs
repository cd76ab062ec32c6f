use vstd::prelude::*;

verus! {

/// The pieces of `s` between its `'\n'` characters; there is always at least one.
pub open spec fn pieces(s: Seq<char>) -> Seq<Seq<char>>
    decreases s.len(),
{
    if s.len() == 0 {
        seq![Seq::empty()]
    } else {
        let p = pieces(s.drop_last());
        if s.last() == '\n' {
            p.push(Seq::empty())
        } else {
            p.update(p.len() - 1, p.last().push(s.last()))
        }
    }
}

/// A line ended by `"\r\n"` loses its `'\r'`.
pub open spec fn strip_cr(line: Seq<char>) -> Seq<char> {
    if line.len() > 0 && line.last() == '\r' {
        line.drop_last()
    } else {
        line
    }
}

/// The lines of a text: split at each `'\n'`, a `'\r'` just before a `'\n'`
/// dropped, and no empty line after a final `'\n'`.
pub open spec fn lines_of(s: Seq<char>) -> Seq<Seq<char>> {
    let p = pieces(s);
    let ended = p.drop_last().map_values(|l: Seq<char>| strip_cr(l));
    if p.last().len() == 0 {
        ended
    } else {
        ended.push(p.last())
    }
}

pub proof fn lemma_pieces_nonempty(s: Seq<char>)
    ensures
        pieces(s).len() >= 1,
    decreases s.len(),
{
    if s.len() > 0 {
        lemma_pieces_nonempty(s.drop_last());
    }
}

/// `s[from..to]` as a new string, with a `'\r'` at its end removed.
fn line_between(s: &str, from: usize, to: usize) -> (r: String)
    requires
        from <= to <= s@.len(),
    ensures
        r@ == strip_cr(s@.subrange(from as int, to as int)),
{
    if from < to && s.get_char(to - 1) == '\r' {
        let r = String::from_str(s.substring_char(from, to - 1));
        assert(s@.subrange(from as int, to as int).drop_last() =~= s@.subrange(
            from as int,
            to - 1,
        ));
        r
    } else {
        String::from_str(s.substring_char(from, to))
    }
}

/// The tags that a tag file holds: one tag per line, each line a tag.
pub fn tags(contents: &str) -> (r: Vec<String>)
    ensures
        r.deep_view() == lines_of(contents@),
{
    let s = contents;
    let n = s.unicode_len();
    let mut lines: Vec<String> = Vec::new();
    let mut start: usize = 0;
    let mut i: usize = 0;
    proof {
        assert(s@.take(0) =~= Seq::<char>::empty());
        assert(lines.deep_view() =~= pieces(s@.take(0)).drop_last().map_values(
            |l: Seq<char>| strip_cr(l),
        ));
    }
    while i < n
        invariant
            n == s@.len(),
            start <= i <= n,
            pieces(s@.take(i as int)).len() >= 1,
            pieces(s@.take(i as int)).last() == s@.subrange(start as int, i as int),
            lines.deep_view() == pieces(s@.take(i as int)).drop_last().map_values(
                |l: Seq<char>| strip_cr(l),
            ),
        decreases n - i,
    {
        let c = s.get_char(i);
        let ghost before = s@.take(i as int);
        let ghost after = s@.take(i + 1);
        proof {
            assert(after.drop_last() == before);
            assert(after.last() == c);
        }
        if c == '\n' {
            let line = line_between(s, start, i);
            let ghost old_lines = lines.deep_view();
            lines.push(line);
            start = i + 1;
            proof {
                assert(pieces(after) == pieces(before).push(Seq::empty()));
                assert(pieces(after).drop_last() =~= pieces(before));
                assert(pieces(before) =~= pieces(before).drop_last().push(pieces(before).last()));
                assert(lines.deep_view() =~= old_lines.push(line@));
                assert(lines.deep_view() =~= pieces(after).drop_last().map_values(
                    |l: Seq<char>| strip_cr(l),
                ));
                assert(s@.subrange(start as int, i + 1) =~= Seq::<char>::empty());
            }
        } else {
            proof {
                let p = pieces(before);
                assert(pieces(after) == p.update(p.len() - 1, p.last().push(c)));
                assert(pieces(after).drop_last() =~= p.drop_last());
                assert(s@.subrange(start as int, i + 1) =~= s@.subrange(start as int, i as int).push(
                    c,
                ));
            }
        }
        i = i + 1;
    }
    proof {
        assert(s@.take(n as int) =~= s@);
    }
    if start < n {
        let line = String::from_str(s.substring_char(start, n));
        let ghost old_lines = lines.deep_view();
        lines.push(line);
        proof {
            assert(lines.deep_view() =~= old_lines.push(line@));
        }
    } else {
        assert(s@.subrange(start as int, n as int) =~= Seq::<char>::empty());
    }
    lines
}

/// A source of the job-related tags that posts are matched against.
pub trait JobTagsRepository {
    /// The tags, in the order the source holds them.
    spec fn tag_list(&self) -> Seq<Seq<char>>;

    fn tags(&self) -> (r: Vec<String>)
        ensures
            r.deep_view() == self.tag_list(),
    ;
}

/// Tags read from a tag file, one per line.
pub struct JobTagsFileRepository {
    file_name: String,
    tags: Vec<String>,
}

impl JobTagsFileRepository {
    pub closed spec fn file_name_view(&self) -> Seq<char> {
        self.file_name@
    }

    /// The repository of the file `file_name`, whose text is `contents`.
    pub fn new(file_name: String, contents: &str) -> (r: Self)
        ensures
            r.file_name_view() == file_name@,
            r.tag_list() == lines_of(contents@),
    {
        Self { file_name, tags: tags(contents) }
    }

    pub fn file_name(&self) -> (r: &str)
        ensures
            r@ == self.file_name_view(),
    {
        self.file_name.as_str()
    }
}

impl JobTagsRepository for JobTagsFileRepository {
    closed spec fn tag_list(&self) -> Seq<Seq<char>> {
        self.tags.deep_view()
    }

    fn tags(&self) -> (r: Vec<String>) {
        copy_strings(&self.tags)
    }
}

/// Tags held in memory.
pub struct JobTagsMemoryRepository {
    pub tags: Vec<String>,
}

impl JobTagsRepository for JobTagsMemoryRepository {
    open spec fn tag_list(&self) -> Seq<Seq<char>> {
        self.tags.deep_view()
    }

    fn tags(&self) -> (r: Vec<String>) {
        copy_strings(&self.tags)
    }
}

fn copy_strings(v: &Vec<String>) -> (r: Vec<String>)
    ensures
        r.deep_view() == v.deep_view(),
{
    let mut r: Vec<String> = Vec::new();
    let mut i: usize = 0;
    while i < v.len()
        invariant
            i <= v.len(),
            r.deep_view() == v.deep_view().take(i as int),
        decreases v.len() - i,
    {
        let ghost before = r.deep_view();
        r.push(v[i].clone());
        proof {
            assert(r.deep_view() =~= before.push(v[i as int]@));
            assert(v.deep_view().take(i + 1) =~= v.deep_view().take(i as int).push(v[i as int]@));
        }
        i = i + 1;
    }
    assert(v.deep_view().take(v.len() as int) =~= v.deep_view());
    r
}

} // verus!
