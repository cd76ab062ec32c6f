use vstd::prelude::*;
use crate::error::ProcessingError;
use crate::vacancy::Vacancy;

verus! {

/// Where accepted vacancies go: the search index, when writing to it is on.
#[derive(Clone, Debug)]
pub struct SearchIndexPort {
    meilisearch: bool,
}

impl SearchIndexPort {
    pub closed spec fn enabled_view(&self) -> bool {
        self.meilisearch
    }

    pub fn new(meilisearch: bool) -> (r: Self)
        ensures
            r.enabled_view() == meilisearch,
    {
        Self { meilisearch }
    }

    /// Whether a vacancy handed to this port is written into the index.
    pub fn handle_vacancy(&self, vacancy: &Vacancy) -> (r: bool)
        ensures
            r == self.enabled_view(),
    {
        self.meilisearch
    }
}

/// The output of vacancies: to the search index, when that is switched on.
#[derive(Clone, Debug)]
pub struct Output {
    meilisearch: bool,
}

impl Output {
    pub closed spec fn enabled_view(&self) -> bool {
        self.meilisearch
    }

    pub fn new(meilisearch: bool) -> (r: Output)
        ensures
            r.enabled_view() == meilisearch,
    {
        Output { meilisearch }
    }

    /// Whether a vacancy handed to this output is written into the index.
    pub fn handle_vacancy(&self, vacancy: &Vacancy) -> (r: bool)
        ensures
            r == self.enabled_view(),
    {
        self.meilisearch
    }
}

/// No two documents share an id.
pub open spec fn ids_unique(docs: Seq<Vacancy>) -> bool {
    forall|i: int, j: int| 0 <= i < j < docs.len() ==> docs[i].id@ != docs[j].id@
}

/// Some document has the id `id`.
pub open spec fn holds_id(docs: Seq<Vacancy>, id: Seq<char>) -> bool {
    exists|i: int| 0 <= i < docs.len() && (#[trigger] docs[i]).id@ == id
}

/// The documents after writing `doc` keyed by its id: it takes the place of
/// the document with that id, or comes last when there is none.
pub open spec fn upserted(docs: Seq<Vacancy>, doc: Vacancy) -> Seq<Vacancy> {
    if holds_id(docs, doc.id@) {
        let i = choose|i: int| 0 <= i < docs.len() && (#[trigger] docs[i]).id@ == doc.id@;
        docs.update(i, doc)
    } else {
        docs.push(doc)
    }
}

/// Whether `a` and `b` hold the same characters.
fn same_text(a: &str, b: &str) -> (r: bool)
    ensures
        r == (a@ == b@),
{
    let n = a.unicode_len();
    if n != b.unicode_len() {
        return false;
    }
    let mut i: usize = 0;
    while i < n
        invariant
            n == a@.len(),
            n == b@.len(),
            i <= n,
            forall|k: int| 0 <= k < i ==> a@[k] == b@[k],
        decreases n - i,
    {
        if a.get_char(i) != b.get_char(i) {
            return false;
        }
        i = i + 1;
    }
    assert(a@ =~= b@);
    true
}

/// A search index held in memory: documents keyed by their id.
pub struct MemorySearchIndex {
    documents: Vec<Vacancy>,
}

impl View for MemorySearchIndex {
    type V = Seq<Vacancy>;

    closed spec fn view(&self) -> Seq<Vacancy> {
        self.documents@
    }
}

impl MemorySearchIndex {
    pub fn new() -> (r: Self)
        ensures
            r@ == Seq::<Vacancy>::empty(),
    {
        Self { documents: Vec::new() }
    }

    pub fn len(&self) -> (r: usize)
        ensures
            r == self@.len(),
    {
        self.documents.len()
    }

    /// The position of the document with id `id`, if there is one.
    fn position(&self, id: &str) -> (r: Option<usize>)
        requires
            ids_unique(self@),
        ensures
            r is None <==> !holds_id(self@, id@),
            r matches Some(i) ==> i < self@.len() && self@[i as int].id@ == id@,
    {
        let mut i: usize = 0;
        while i < self.documents.len()
            invariant
                i <= self@.len(),
                self@ == self.documents@,
                forall|k: int| 0 <= k < i ==> (#[trigger] self@[k]).id@ != id@,
            decreases self@.len() - i,
        {
            if same_text(self.documents[i].id.as_str(), id) {
                return Some(i);
            }
            i = i + 1;
        }
        None
    }

    /// Whether a document with id `id` is in the index.
    pub fn contains_id(&self, id: &str) -> (r: bool)
        requires
            ids_unique(self@),
        ensures
            r == holds_id(self@, id@),
    {
        self.position(id).is_some()
    }

    /// The document with id `id`, if there is one.
    pub fn get(&self, id: &str) -> (r: Option<&Vacancy>)
        requires
            ids_unique(self@),
        ensures
            r is None <==> !holds_id(self@, id@),
            r matches Some(d) ==> self@.contains(*d) && d.id@ == id@,
    {
        match self.position(id) {
            Some(i) => Some(&self.documents[i]),
            None => None,
        }
    }

    /// Writes `doc` under its id, in place of any document with that id.
    pub fn upsert(&mut self, doc: Vacancy)
        requires
            ids_unique(old(self)@),
        ensures
            final(self)@ == upserted(old(self)@, doc),
            ids_unique(final(self)@),
    {
        let ghost docs = self@;
        match self.position(doc.id.as_str()) {
            Some(i) => {
                proof {
                    let j = choose|j: int| 0 <= j < docs.len() && (#[trigger] docs[j]).id@ == doc.id@;
                    assert(j == i as int);
                }
                self.documents.set(i, doc);
            },
            None => {
                self.documents.push(doc);
            },
        }
    }

    /// Removes the document with id `id`; tells whether there was one.
    pub fn delete(&mut self, id: &str) -> (r: bool)
        requires
            ids_unique(old(self)@),
        ensures
            r == holds_id(old(self)@, id@),
            ids_unique(final(self)@),
            !holds_id(final(self)@, id@),
            forall|d: Vacancy| d.id@ != id@ ==> (old(self)@.contains(d) <==> final(self)@.contains(d)),
    {
        let ghost docs = self@;
        match self.position(id) {
            Some(i) => {
                self.documents.remove(i);
                proof {
                    let after = self@;
                    assert(after == docs.remove(i as int));
                    assert forall|k: int| 0 <= k < after.len() implies (#[trigger] after[k]).id@ != id@ by {
                        if k < i {
                            assert(after[k] == docs[k]);
                        } else {
                            assert(after[k] == docs[k + 1]);
                        }
                    }
                    assert forall|d: Vacancy| d.id@ != id@ implies (docs.contains(d) <==> after.contains(d)) by {
                        if docs.contains(d) {
                            let k = choose|k: int| 0 <= k < docs.len() && docs[k] == d;
                            if k < i {
                                assert(after[k] == d);
                            } else {
                                assert(k != i);
                                assert(after[k - 1] == d);
                            }
                        }
                        if after.contains(d) {
                            let k = choose|k: int| 0 <= k < after.len() && after[k] == d;
                            if k < i {
                                assert(docs[k] == d);
                            } else {
                                assert(docs[k + 1] == d);
                            }
                        }
                    }
                }
                true
            },
            None => false,
        }
    }
}

/// Writing a document twice under one id leaves exactly one document with
/// that id, the one written last, and the second write adds no document.
pub proof fn lemma_upsert_idempotent(docs: Seq<Vacancy>, first: Vacancy, second: Vacancy)
    requires
        ids_unique(docs),
        first.id@ == second.id@,
    ensures
        ids_unique(upserted(upserted(docs, first), second)),
        upserted(upserted(docs, first), second).len() == upserted(docs, first).len(),
        upserted(upserted(docs, first), second).contains(second),
        forall|i: int|
            0 <= i < upserted(upserted(docs, first), second).len() && (#[trigger] upserted(
                upserted(docs, first),
                second,
            )[i]).id@ == second.id@ ==> upserted(upserted(docs, first), second)[i] == second,
{
    lemma_upsert_keeps_ids_unique(docs, first);
    lemma_upsert_keeps_ids_unique(upserted(docs, first), second);
    let once = upserted(docs, first);
    let twice = upserted(once, second);
    if holds_id(docs, first.id@) {
        let i = choose|i: int| 0 <= i < docs.len() && (#[trigger] docs[i]).id@ == first.id@;
        assert(once[i].id@ == second.id@);
    } else {
        assert(once[docs.len() as int].id@ == second.id@);
    }
    assert(holds_id(once, second.id@));
    let j = choose|j: int| 0 <= j < once.len() && (#[trigger] once[j]).id@ == second.id@;
    assert(twice[j] == second);
    assert forall|i: int| 0 <= i < twice.len() && (#[trigger] twice[i]).id@ == second.id@ implies twice[i]
        == second by {
        if i != j {
            assert(twice[i] == once[i]);
        }
    }
}

/// Writing a document keeps the ids unique.
pub proof fn lemma_upsert_keeps_ids_unique(docs: Seq<Vacancy>, doc: Vacancy)
    requires
        ids_unique(docs),
    ensures
        ids_unique(upserted(docs, doc)),
{
    let after = upserted(docs, doc);
    if holds_id(docs, doc.id@) {
        let i = choose|i: int| 0 <= i < docs.len() && (#[trigger] docs[i]).id@ == doc.id@;
        assert forall|a: int, b: int| 0 <= a < b < after.len() implies after[a].id@ != after[b].id@ by {
            if a == i {
                assert(docs[b].id@ != docs[i].id@);
            } else if b == i {
                assert(docs[a].id@ != docs[i].id@);
            }
        }
    } else {
        assert forall|a: int, b: int| 0 <= a < b < after.len() implies after[a].id@ != after[b].id@ by {
            if b == docs.len() {
                assert(docs[a].id@ != doc.id@);
            }
        }
    }
}

/// The search filter that picks the documents whose `url` is `url`.
pub fn url_filter(url: &str) -> (r: String)
    ensures
        r@ == "url = '"@ + url@ + "'"@,
{
    let lead = String::from_str("url = '");
    let with_url = lead.concat(url);
    with_url.concat("'")
}

/// The ids of the documents to delete for a request to remove the post at
/// `url`, given the ids of the documents the search for it found: all of
/// them, or an error when it found none.
pub fn deletion_plan(url: &str, found_ids: Vec<String>) -> (r: Result<Vec<String>, ProcessingError>)
    ensures
        found_ids@.len() == 0 ==> (r matches Err(e) && e.message_view()
            == "could not find a vacancy with url: "@ + url@),
        found_ids@.len() > 0 ==> r == Ok::<Vec<String>, ProcessingError>(found_ids),
{
    if found_ids.len() == 0 {
        let lead = String::from_str("could not find a vacancy with url: ");
        Err(ProcessingError::new(lead.concat(url)))
    } else {
        Ok(found_ids)
    }
}

} // verus!
