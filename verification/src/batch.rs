//! What one batch computes between its requests: the revisions to ask the
//! target about, the revisions to fetch from the source, and the documents to
//! install.

use vstd::prelude::*;
use crate::documents::{
    Changes, ChangesRow, DocsRequest, DocsRequestEntry, DocsResponse, Document, DocumentModel,
    RevsDiff, RevsDiffRequest, RevsModel, RowModel,
};
use crate::text::{lemma_deep_view_push, lemma_deep_view_update, Text};

verus! {

/// The documents of a mapping, in the order of its entries.
pub open spec fn keys(entries: RevsModel) -> Seq<Text> {
    Seq::new(entries.len(), |i: int| entries[i].0)
}

/// A mapping after the revisions of one document were recorded: they take
/// the place of what was recorded for that document before, or come last
/// where nothing was.
pub open spec fn recorded(entries: RevsModel, id: Text, revs: Seq<Text>) -> RevsModel {
    match keys(entries).index_of_first(id) {
        Some(at) => entries.update(at, (id, revs)),
        None => entries.push((id, revs)),
    }
}

/// The mapping from document to revisions that the rows of a changes batch
/// give: each row, in order, records the revisions of its document.
pub open spec fn gathered(rows: Seq<RowModel>) -> RevsModel
    decreases rows.len(),
{
    if rows.len() == 0 {
        Seq::empty()
    } else {
        recorded(gathered(rows.drop_last()), rows.last().id, rows.last().revs)
    }
}

/// Recording a document leaves the documents of a mapping as they were
/// where it was among them, and adds it at the end where it was not; the
/// entry of the document then holds the revisions recorded, and every other
/// entry is as before.
pub proof fn lemma_recorded(entries: RevsModel, id: Text, revs: Seq<Text>)
    ensures
        keys(recorded(entries, id, revs)) == if keys(entries).contains(id) {
            keys(entries)
        } else {
            keys(entries).push(id)
        },
        recorded(entries, id, revs).contains((id, revs)),
        recorded(entries, id, revs).len() >= entries.len(),
        forall|k: int|
            0 <= k < entries.len() && entries[k].0 != id ==> recorded(entries, id, revs)[k]
                == #[trigger] entries[k],
{
    keys(entries).index_of_first_ensures(id);
    let after = recorded(entries, id, revs);
    match keys(entries).index_of_first(id) {
        Some(at) => {
            assert(keys(after) =~= keys(entries));
            assert(after[at] == (id, revs));
        },
        None => {
            assert(keys(after) =~= keys(entries).push(id));
            assert(after[entries.len() as int] == (id, revs));
        },
    }
}

/// No document has two entries in the mapping gathered from a changes batch.
pub proof fn lemma_gathered_is_a_mapping(rows: Seq<RowModel>)
    ensures
        keys(gathered(rows)).no_duplicates(),
    decreases rows.len(),
{
    if rows.len() > 0 {
        lemma_gathered_is_a_mapping(rows.drop_last());
        lemma_recorded(gathered(rows.drop_last()), rows.last().id, rows.last().revs);
    }
}

/// The mapping gathered from a changes batch has an entry for a document if
/// and only if the batch has a row for it.
pub proof fn lemma_gathered_documents(rows: Seq<RowModel>, id: Text)
    ensures
        keys(gathered(rows)).contains(id) <==> exists|i: int|
            0 <= i < rows.len() && (#[trigger] rows[i]).id == id,
    decreases rows.len(),
{
    if rows.len() > 0 {
        let before = rows.drop_last();
        lemma_gathered_documents(before, id);
        lemma_recorded(gathered(before), rows.last().id, rows.last().revs);
        if keys(gathered(rows)).contains(id) {
            if rows.last().id == id {
                assert(rows[rows.len() - 1].id == id);
            } else {
                assert(keys(gathered(before)).contains(id));
                let i = choose|i: int| 0 <= i < before.len() && (#[trigger] before[i]).id == id;
                assert(rows[i].id == id);
            }
        }
        if exists|i: int| 0 <= i < rows.len() && (#[trigger] rows[i]).id == id {
            let i = choose|i: int| 0 <= i < rows.len() && (#[trigger] rows[i]).id == id;
            if i < before.len() {
                assert(before[i].id == id);
                assert(keys(gathered(before)).contains(id));
            }
            if keys(gathered(before)).contains(id) {
                let at = choose|at: int|
                    0 <= at < keys(gathered(before)).len() && keys(gathered(before))[at] == id;
                if keys(gathered(before)).contains(rows.last().id) {
                    assert(keys(gathered(rows))[at] == id);
                } else {
                    assert(keys(gathered(rows))[at] == id);
                }
            } else {
                assert(rows.last().id == id);
                let last = keys(gathered(rows)).len() - 1;
                if keys(gathered(before)).contains(id) {
                } else {
                    assert(keys(gathered(rows))[last] == id);
                }
            }
        }
    } else {
        assert(keys(gathered(rows)) =~= Seq::<Text>::empty());
    }
}

/// The mapping gathered from a changes batch gives each document the
/// revisions of the last row that the batch has for it.
pub proof fn lemma_gathered_keeps_last_row(rows: Seq<RowModel>, i: int)
    requires
        0 <= i < rows.len(),
        forall|j: int| i < j < rows.len() ==> (#[trigger] rows[j]).id != rows[i].id,
    ensures
        gathered(rows).contains((rows[i].id, rows[i].revs)),
    decreases rows.len(),
{
    let before = rows.drop_last();
    lemma_recorded(gathered(before), rows.last().id, rows.last().revs);
    if i < rows.len() - 1 {
        assert forall|j: int| i < j < before.len() implies (#[trigger] before[j]).id
            != before[i].id by {
            assert(before[j] == rows[j]);
        }
        lemma_gathered_keeps_last_row(before, i);
        let entry = (rows[i].id, rows[i].revs);
        let at = choose|at: int| 0 <= at < gathered(before).len() && gathered(before)[at] == entry;
        assert(rows[rows.len() - 1].id != rows[i].id);
        assert(gathered(before)[at].0 != rows.last().id);
        assert(gathered(rows)[at] == entry);
    } else {
        assert(rows.last() == rows[i]);
    }
}

/// Records the revisions of one document in a mapping.
pub fn record(entries: &mut Vec<(String, Vec<String>)>, id: String, revs: Vec<String>)
    ensures
        final(entries).deep_view() == recorded(old(entries).deep_view(), id@, revs.deep_view()),
{
    let ghost before = *entries;
    let ghost model = entries.deep_view();
    let mut at: usize = 0;
    while at < entries.len()
        invariant
            *entries == before,
            before == *old(entries),
            model == before.deep_view(),
            at <= entries.len(),
            forall|j: int| 0 <= j < at ==> keys(model)[j] != id@,
        decreases entries.len() - at,
    {
        proof {
            assert(model[at as int] == before@[at as int].deep_view());
            assert(keys(model)[at as int] == entries@[at as int].0@);
        }
        if entries[at].0 == id {
            entries.set(at, (id, revs));
            proof {
                lemma_deep_view_update(before, *entries, at as int, (id, revs));
                keys(model).index_of_first_ensures(id@);
                assert(keys(model).index_of_first(id@) == Some(at as int));
            }
            return ;
        }
        at += 1;
    }
    proof {
        keys(model).index_of_first_ensures(id@);
        assert(!keys(model).contains(id@));
    }
    entries.push((id, revs));
    proof {
        lemma_deep_view_push(before, *entries, (id, revs));
    }
}

impl RevsDiffRequest {
    /// The question to the target for a changes batch: for each document of
    /// the batch, the revisions of its last row.
    pub fn from_changes(changes: &Changes) -> (request: Self)
        ensures
            request@ == gathered(changes@.rows),
            keys(request@).no_duplicates(),
    {
        proof {
            lemma_gathered_is_a_mapping(changes@.rows);
        }
        let mut body: Vec<(String, Vec<String>)> = Vec::new();
        let mut i: usize = 0;
        while i < changes.results.len()
            invariant
                i <= changes.results.len(),
                body.deep_view() == gathered(changes@.rows.take(i as int)),
            decreases changes.results.len() - i,
        {
            let row = &changes.results[i];
            let revs = row.revs();
            proof {
                let next = changes@.rows.take(i as int + 1);
                assert(next.drop_last() =~= changes@.rows.take(i as int));
                assert(next.last() == row@);
            }
            record(&mut body, row.id.clone(), revs);
            i += 1;
        }
        proof {
            assert(changes@.rows.take(changes.results.len() as int) =~= changes@.rows);
        }
        RevsDiffRequest { body }
    }
}

impl ChangesRow {
    /// The revisions that the row names, in its order.
    pub fn revs(&self) -> (revs: Vec<String>)
        ensures
            revs.deep_view() == self@.revs,
    {
        let mut revs: Vec<String> = Vec::new();
        let mut i: usize = 0;
        while i < self.changes.len()
            invariant
                i <= self.changes.len(),
                revs.deep_view() == self@.revs.take(i as int),
            decreases self.changes.len() - i,
        {
            let ghost before = revs;
            let rev = self.changes[i].rev.clone();
            revs.push(rev);
            proof {
                lemma_deep_view_push(before, revs, rev);
                assert(rev.deep_view() == self@.revs[i as int]);
                assert(revs.deep_view() =~= self@.revs.take(i as int + 1));
            }
            i += 1;
        }
        proof {
            assert(self@.revs.take(self.changes.len() as int) =~= self@.revs);
        }
        revs
    }
}

/// The revisions that one entry of the target's answer asks for, each with
/// its document.
pub open spec fn pairs_of(entry: (Text, Seq<Text>)) -> Seq<(Text, Text)> {
    Seq::new(entry.1.len(), |j: int| (entry.0, entry.1[j]))
}

/// The revisions to fetch from the source: those that the target lacks, in
/// the order of its answer.
pub open spec fn wanted(diff: RevsModel) -> Seq<(Text, Text)> {
    diff.map_values(|entry: (Text, Seq<Text>)| pairs_of(entry)).flatten()
}

impl DocsRequest {
    /// The request to the source for what the target lacks.
    pub fn from_diff(diff: &RevsDiff) -> (request: Self)
        ensures
            request@ == wanted(diff@),
    {
        let mut docs: Vec<DocsRequestEntry> = Vec::new();
        let ghost each = |entry: (Text, Seq<Text>)| pairs_of(entry);
        let mut i: usize = 0;
        while i < diff.body.len()
            invariant
                i <= diff.body.len(),
                each == |entry: (Text, Seq<Text>)| pairs_of(entry),
                docs.deep_view() == diff@.take(i as int).map_values(each).flatten(),
            decreases diff.body.len() - i,
        {
            let id = &diff.body[i].0;
            let missing = &diff.body[i].1.missing;
            let ghost entry = diff@[i as int];
            let ghost done = docs.deep_view();
            assert(entry == (id@, missing.deep_view()));
            let mut j: usize = 0;
            while j < missing.len()
                invariant
                    j <= missing.len(),
                    entry == (id@, missing.deep_view()),
                    docs.deep_view() == done + pairs_of(entry).take(j as int),
                decreases missing.len() - j,
            {
                let ghost before = docs;
                let pair = DocsRequestEntry { id: id.clone(), rev: missing[j].clone() };
                docs.push(pair);
                proof {
                    lemma_deep_view_push(before, docs, pair);
                    assert(pair.deep_view() == pairs_of(entry)[j as int]);
                    assert(docs.deep_view() =~= done + pairs_of(entry).take(j as int + 1));
                }
                j += 1;
            }
            proof {
                assert(pairs_of(entry).take(missing.len() as int) =~= pairs_of(entry));
                let seen = diff@.take(i as int).map_values(each);
                assert(diff@.take(i as int + 1).map_values(each) =~= seen.push(pairs_of(entry)));
                seen.lemma_flatten_push(pairs_of(entry));
            }
            i += 1;
        }
        proof {
            assert(diff@.take(diff.body.len() as int) =~= diff@);
        }
        DocsRequest { docs }
    }
}

/// The documents that the source handed out, in the order of its answer.
pub open spec fn delivered(response: Seq<(Text, Seq<DocumentModel>)>) -> Seq<DocumentModel> {
    response.map_values(|entry: (Text, Seq<DocumentModel>)| entry.1).flatten()
}

impl DocsResponse {
    /// All documents of the answer in one list, each as it came.
    pub fn documents(&self) -> (docs: Vec<Document>)
        ensures
            docs.deep_view() == delivered(self@),
    {
        let mut docs: Vec<Document> = Vec::new();
        let ghost each = |entry: (Text, Seq<DocumentModel>)| entry.1;
        let mut i: usize = 0;
        while i < self.results.len()
            invariant
                i <= self.results.len(),
                each == |entry: (Text, Seq<DocumentModel>)| entry.1,
                docs.deep_view() == self@.take(i as int).map_values(each).flatten(),
            decreases self.results.len() - i,
        {
            let entry = &self.results[i];
            let ghost given = entry.docs.deep_view();
            let ghost done = docs.deep_view();
            assert(self@[i as int].1 == given);
            let mut j: usize = 0;
            while j < entry.docs.len()
                invariant
                    j <= entry.docs.len(),
                    given == entry.docs.deep_view(),
                    docs.deep_view() == done + given.take(j as int),
                decreases entry.docs.len() - j,
            {
                let ghost before = docs;
                let doc = entry.docs[j].ok.clone();
                docs.push(doc);
                proof {
                    lemma_deep_view_push(before, docs, doc);
                    assert(doc.deep_view() == given[j as int]);
                    assert(docs.deep_view() =~= done + given.take(j as int + 1));
                }
                j += 1;
            }
            proof {
                assert(given.take(entry.docs.len() as int) =~= given);
                let seen = self@.take(i as int).map_values(each);
                assert(self@.take(i as int + 1).map_values(each) =~= seen.push(given));
                seen.lemma_flatten_push(given);
            }
            i += 1;
        }
        proof {
            assert(self@.take(self.results.len() as int) =~= self@);
        }
        docs
    }
}

/// The hash of a revision: what follows its first hyphen. A revision
/// without a hyphen has none.
pub open spec fn hash_of(rev: Text) -> Option<Text> {
    match rev.index_of_first('-') {
        Some(at) => Some(rev.subrange(at + 1, rev.len() as int)),
        None => None,
    }
}

/// The hash of a revision with a hyphen is what follows the first one.
pub proof fn lemma_hash_follows_the_first_hyphen(rev: Text, at: int)
    requires
        0 <= at < rev.len(),
        rev[at] == '-',
        forall|j: int| 0 <= j < at ==> rev[j] != '-',
    ensures
        hash_of(rev) == Some(rev.subrange(at + 1, rev.len() as int)),
{
    rev.index_of_first_ensures('-');
}

/// A revision without a hyphen has no hash.
pub proof fn lemma_no_hyphen_no_hash(rev: Text)
    requires
        forall|j: int| 0 <= j < rev.len() ==> rev[j] != '-',
    ensures
        hash_of(rev) is None,
{
    rev.index_of_first_ensures('-');
}

/// The hash of a revision.
pub fn rev_hash(rev: &str) -> (hash: Option<String>)
    ensures
        hash.deep_view() == hash_of(rev@),
{
    let len = rev.unicode_len();
    let mut at: usize = 0;
    while at < len
        invariant
            len == rev@.len(),
            at <= len,
            forall|j: int| 0 <= j < at ==> rev@[j] != '-',
        decreases len - at,
    {
        if rev.get_char(at) == '-' {
            proof {
                lemma_hash_follows_the_first_hyphen(rev@, at as int);
            }
            let tail = rev.substring_char(at + 1, len);
            return Some(String::from_str(tail));
        }
        at += 1;
    }
    proof {
        lemma_no_hyphen_no_hash(rev@);
    }
    None
}

/// Whether a document is the revision that was asked for: it is the document
/// named, and the newest hash of its ancestry is the hash of the revision.
pub open spec fn answers(doc: DocumentModel, wanted: (Text, Text)) -> bool {
    &&& doc.id == wanted.0
    &&& doc.revisions.ids.len() > 0
    &&& hash_of(wanted.1) == Some(doc.revisions.ids[0])
}

/// Whether some document of a list is the revision that was asked for.
pub open spec fn answered(wanted: (Text, Text), docs: Seq<DocumentModel>) -> bool {
    exists|j: int| 0 <= j < docs.len() && answers(#[trigger] docs[j], wanted)
}

/// Whether a list of documents holds every revision that was asked for.
pub open spec fn covers(wanted: Seq<(Text, Text)>, docs: Seq<DocumentModel>) -> bool {
    forall|i: int| 0 <= i < wanted.len() ==> answered(#[trigger] wanted[i], docs)
}

/// Whether some document of a list is the revision that was asked for.
pub fn is_answered(wanted: &DocsRequestEntry, docs: &Vec<Document>) -> (found: bool)
    ensures
        found == answered(wanted@, docs.deep_view()),
{
    let hash = match rev_hash(wanted.rev.as_str()) {
        Some(hash) => hash,
        None => {
            return false;
        },
    };
    let mut j: usize = 0;
    while j < docs.len()
        invariant
            j <= docs.len(),
            hash_of(wanted@.1) == Some(hash@),
            forall|k: int| 0 <= k < j ==> !answers(#[trigger] docs.deep_view()[k], wanted@),
        decreases docs.len() - j,
    {
        let doc = &docs[j];
        let ids = doc.revisions.ids();
        proof {
            assert(docs.deep_view()[j as int] == doc@);
            assert(ids.deep_view().len() == ids.len());
        }
        if doc.id == wanted.id && ids.len() > 0 {
            proof {
                assert(ids.deep_view()[0] == ids[0]@);
            }
            if ids[0] == hash {
                return true;
            }
        }
        j += 1;
    }
    false
}

/// Whether a place in a request is that of the first revision that no
/// document of a list answers.
pub open spec fn is_first_gap(wanted: Seq<(Text, Text)>, docs: Seq<DocumentModel>, at: int) -> bool {
    &&& 0 <= at < wanted.len()
    &&& !answered(wanted[at], docs)
    &&& forall|i: int| 0 <= i < at ==> answered(#[trigger] wanted[i], docs)
}

/// The first revision asked for that no document of a list answers; `None`
/// where the list covers the request.
pub open spec fn first_gap(wanted: Seq<(Text, Text)>, docs: Seq<DocumentModel>) -> Option<
    (Text, Text),
> {
    if covers(wanted, docs) {
        None
    } else {
        Some(wanted[choose|at: int| is_first_gap(wanted, docs, at)])
    }
}

/// The first revision asked for that no document of a list answers; `None`
/// where the list covers the request.
pub fn first_unanswered<'a>(wanted: &'a DocsRequest, docs: &Vec<Document>) -> (gap: Option<
    &'a DocsRequestEntry,
>)
    ensures
        gap.deep_view() == first_gap(wanted@, docs.deep_view()),
{
    let mut i: usize = 0;
    while i < wanted.docs.len()
        invariant
            i <= wanted.docs.len(),
            forall|k: int| 0 <= k < i ==> answered(#[trigger] wanted@[k], docs.deep_view()),
        decreases wanted.docs.len() - i,
    {
        proof {
            assert(wanted@[i as int] == wanted.docs[i as int]@);
        }
        if !is_answered(&wanted.docs[i], docs) {
            proof {
                let found = i as int;
                assert(is_first_gap(wanted@, docs.deep_view(), found));
                let chosen = choose|at: int| is_first_gap(wanted@, docs.deep_view(), at);
                assert(is_first_gap(wanted@, docs.deep_view(), chosen));
                assert(chosen == found) by {
                    if chosen < found {
                        assert(answered(wanted@[chosen], docs.deep_view()));
                    }
                    if found < chosen {
                        assert(answered(wanted@[found], docs.deep_view()));
                    }
                }
            }
            return Some(&wanted.docs[i]);
        }
        i += 1;
    }
    None
}

} // verus!
