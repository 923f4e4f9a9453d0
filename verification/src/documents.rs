//! The documents that travel between the replicator and the two databases,
//! each with the mathematical model that contracts speak of.

use vstd::prelude::*;
use crate::text::{copy_texts, lemma_deep_view_push, Text};

verus! {

/// Identifies a server instance.
#[derive(Debug, PartialEq, Eq)]
pub struct ServerInfo {
    pub uuid: String,
}

impl DeepView for ServerInfo {
    type V = Text;

    open spec fn deep_view(&self) -> Text {
        self.uuid@
    }
}

impl View for ServerInfo {
    type V = Text;

    open spec fn view(&self) -> Text {
        self.deep_view()
    }
}

/// What a database says of itself: its current sequence token.
#[derive(Debug, PartialEq, Eq)]
pub struct DatabaseInfo {
    pub update_seq: String,
}

impl DeepView for DatabaseInfo {
    type V = Text;

    open spec fn deep_view(&self) -> Text {
        self.update_seq@
    }
}

impl View for DatabaseInfo {
    type V = Text;

    open spec fn view(&self) -> Text {
        self.deep_view()
    }
}

/// The checkpoint document that each end keeps of a replication.
#[derive(Debug, PartialEq, Eq)]
pub struct ReplicationLog {
    pub _id: String,
    pub _rev: Option<String>,
    pub source_last_seq: Option<String>,
    pub session_id: Option<u128>,
}

/// The model of a `ReplicationLog`.
pub struct LogModel {
    pub id: Text,
    pub rev: Option<Text>,
    pub source_last_seq: Option<Text>,
    pub session_id: Option<u128>,
}

impl DeepView for ReplicationLog {
    type V = LogModel;

    open spec fn deep_view(&self) -> LogModel {
        LogModel {
            id: self._id@,
            rev: self._rev.deep_view(),
            source_last_seq: self.source_last_seq.deep_view(),
            session_id: self.session_id,
        }
    }
}

impl View for ReplicationLog {
    type V = LogModel;

    open spec fn view(&self) -> LogModel {
        self.deep_view()
    }
}

/// One revision named by a row of the changes feed.
#[derive(Debug, PartialEq, Eq)]
pub struct Change {
    pub rev: String,
}

impl DeepView for Change {
    type V = Text;

    open spec fn deep_view(&self) -> Text {
        self.rev@
    }
}

impl View for Change {
    type V = Text;

    open spec fn view(&self) -> Text {
        self.deep_view()
    }
}

/// One row of the changes feed: a document and its leaf revisions.
#[derive(Debug, PartialEq, Eq)]
pub struct ChangesRow {
    pub seq: String,
    pub id: String,
    pub changes: Vec<Change>,
    pub deleted: bool,
}

/// The model of a `ChangesRow`.
pub struct RowModel {
    pub seq: Text,
    pub id: Text,
    pub revs: Seq<Text>,
    pub deleted: bool,
}

impl DeepView for ChangesRow {
    type V = RowModel;

    open spec fn deep_view(&self) -> RowModel {
        RowModel {
            seq: self.seq@,
            id: self.id@,
            revs: self.changes.deep_view(),
            deleted: self.deleted,
        }
    }
}

impl View for ChangesRow {
    type V = RowModel;

    open spec fn view(&self) -> RowModel {
        self.deep_view()
    }
}

/// One batch of the changes feed, in the order of the source's sequence.
#[derive(Debug, PartialEq, Eq)]
pub struct Changes {
    pub last_seq: String,
    pub results: Vec<ChangesRow>,
}

/// The model of a `Changes` batch.
pub struct ChangesModel {
    pub last_seq: Text,
    pub rows: Seq<RowModel>,
}

impl DeepView for Changes {
    type V = ChangesModel;

    open spec fn deep_view(&self) -> ChangesModel {
        ChangesModel { last_seq: self.last_seq@, rows: self.results.deep_view() }
    }
}

impl View for Changes {
    type V = ChangesModel;

    open spec fn view(&self) -> ChangesModel {
        self.deep_view()
    }
}

/// The model of a mapping from document to revisions, as it is written
/// down: the entries in their order.
pub type RevsModel = Seq<(Text, Seq<Text>)>;

/// The revisions of each document that the target is asked about. The
/// entries are kept in the order in which their documents first came.
#[derive(Debug, PartialEq, Eq)]
pub struct RevsDiffRequest {
    pub body: Vec<(String, Vec<String>)>,
}

impl DeepView for RevsDiffRequest {
    type V = RevsModel;

    open spec fn deep_view(&self) -> RevsModel {
        self.body.deep_view()
    }
}

impl View for RevsDiffRequest {
    type V = RevsModel;

    open spec fn view(&self) -> RevsModel {
        self.deep_view()
    }
}

/// The revisions of one document that the target lacks.
#[derive(Debug, PartialEq, Eq)]
pub struct RevsDiffEntry {
    pub missing: Vec<String>,
}

impl DeepView for RevsDiffEntry {
    type V = Seq<Text>;

    open spec fn deep_view(&self) -> Seq<Text> {
        self.missing.deep_view()
    }
}

impl View for RevsDiffEntry {
    type V = Seq<Text>;

    open spec fn view(&self) -> Seq<Text> {
        self.deep_view()
    }
}

/// The target's answer: for each document that lacks something, what it
/// lacks, in the order of the answer.
#[derive(Debug, PartialEq, Eq)]
pub struct RevsDiff {
    pub body: Vec<(String, RevsDiffEntry)>,
}

impl DeepView for RevsDiff {
    type V = RevsModel;

    open spec fn deep_view(&self) -> RevsModel {
        self.body.deep_view()
    }
}

impl View for RevsDiff {
    type V = RevsModel;

    open spec fn view(&self) -> RevsModel {
        self.deep_view()
    }
}

/// One revision of one document that is asked of the source.
#[derive(Debug, PartialEq, Eq)]
pub struct DocsRequestEntry {
    pub id: String,
    pub rev: String,
}

impl DeepView for DocsRequestEntry {
    type V = (Text, Text);

    open spec fn deep_view(&self) -> (Text, Text) {
        (self.id@, self.rev@)
    }
}

impl View for DocsRequestEntry {
    type V = (Text, Text);

    open spec fn view(&self) -> (Text, Text) {
        self.deep_view()
    }
}

/// The revisions asked of the source, in order.
#[derive(Debug, PartialEq, Eq)]
pub struct DocsRequest {
    pub docs: Vec<DocsRequestEntry>,
}

impl DeepView for DocsRequest {
    type V = Seq<(Text, Text)>;

    open spec fn deep_view(&self) -> Seq<(Text, Text)> {
        self.docs.deep_view()
    }
}

impl View for DocsRequest {
    type V = Seq<(Text, Text)>;

    open spec fn view(&self) -> Seq<(Text, Text)> {
        self.deep_view()
    }
}

/// The ancestry of a document's revision: the generation of the newest
/// revision and the hashes of the revisions, newest first.
#[derive(Debug, PartialEq, Eq)]
pub struct Revisions {
    start: usize,
    ids: Vec<String>,
}

/// The model of `Revisions`.
pub struct RevisionsModel {
    pub start: nat,
    pub ids: Seq<Text>,
}

impl DeepView for Revisions {
    type V = RevisionsModel;

    closed spec fn deep_view(&self) -> RevisionsModel {
        RevisionsModel { start: self.start as nat, ids: self.ids.deep_view() }
    }
}

impl View for Revisions {
    type V = RevisionsModel;

    open spec fn view(&self) -> RevisionsModel {
        self.deep_view()
    }
}

impl Revisions {
    /// An ancestry of the given generation and hashes.
    pub fn new(start: usize, ids: Vec<String>) -> (revisions: Self)
        ensures
            revisions@ == (RevisionsModel { start: start as nat, ids: ids.deep_view() }),
    {
        Revisions { start, ids }
    }

    /// The generation of the newest revision.
    pub fn start(&self) -> (start: usize)
        ensures
            start == self@.start,
    {
        self.start
    }

    /// The hashes of the revisions, newest first.
    pub fn ids(&self) -> (ids: &Vec<String>)
        ensures
            ids.deep_view() == self@.ids,
    {
        &self.ids
    }
}

/// A document as the source hands it out: what the protocol reads of it,
/// and its whole JSON text, which is passed on as it came.
#[derive(Debug, PartialEq, Eq)]
pub struct Document {
    pub id: String,
    pub rev: String,
    pub revisions: Revisions,
    pub content: String,
}

/// The model of a `Document`.
pub struct DocumentModel {
    pub id: Text,
    pub rev: Text,
    pub revisions: RevisionsModel,
    pub content: Text,
}

impl DeepView for Document {
    type V = DocumentModel;

    open spec fn deep_view(&self) -> DocumentModel {
        DocumentModel {
            id: self.id@,
            rev: self.rev@,
            revisions: self.revisions@,
            content: self.content@,
        }
    }
}

impl View for Document {
    type V = DocumentModel;

    open spec fn view(&self) -> DocumentModel {
        self.deep_view()
    }
}

/// One revision that the source handed out.
#[derive(Debug, PartialEq, Eq)]
pub struct DocsResponseDoc {
    pub ok: Document,
}

impl DeepView for DocsResponseDoc {
    type V = DocumentModel;

    open spec fn deep_view(&self) -> DocumentModel {
        self.ok@
    }
}

impl View for DocsResponseDoc {
    type V = DocumentModel;

    open spec fn view(&self) -> DocumentModel {
        self.deep_view()
    }
}

/// The revisions that the source handed out of one document.
#[derive(Debug, PartialEq, Eq)]
pub struct DocsResponseEntry {
    pub id: String,
    pub docs: Vec<DocsResponseDoc>,
}

impl DeepView for DocsResponseEntry {
    type V = (Text, Seq<DocumentModel>);

    open spec fn deep_view(&self) -> (Text, Seq<DocumentModel>) {
        (self.id@, self.docs.deep_view())
    }
}

impl View for DocsResponseEntry {
    type V = (Text, Seq<DocumentModel>);

    open spec fn view(&self) -> (Text, Seq<DocumentModel>) {
        self.deep_view()
    }
}

/// The source's answer to a request for revisions.
#[derive(Debug, PartialEq, Eq)]
pub struct DocsResponse {
    pub results: Vec<DocsResponseEntry>,
}

impl DeepView for DocsResponse {
    type V = Seq<(Text, Seq<DocumentModel>)>;

    open spec fn deep_view(&self) -> Seq<(Text, Seq<DocumentModel>)> {
        self.results.deep_view()
    }
}

impl View for DocsResponse {
    type V = Seq<(Text, Seq<DocumentModel>)>;

    open spec fn view(&self) -> Seq<(Text, Seq<DocumentModel>)> {
        self.deep_view()
    }
}

/// The documents to install on the target. With `new_edits` false the
/// target keeps each document's revision as it is given.
#[derive(Debug, PartialEq, Eq)]
pub struct BulkDocsRequest {
    pub docs: Vec<Document>,
    pub new_edits: bool,
}

/// The model of a `BulkDocsRequest`.
pub struct InstallModel {
    pub docs: Seq<DocumentModel>,
    pub new_edits: bool,
}

impl DeepView for BulkDocsRequest {
    type V = InstallModel;

    open spec fn deep_view(&self) -> InstallModel {
        InstallModel { docs: self.docs.deep_view(), new_edits: self.new_edits }
    }
}

impl View for BulkDocsRequest {
    type V = InstallModel;

    open spec fn view(&self) -> InstallModel {
        self.deep_view()
    }
}

impl Clone for ReplicationLog {
    fn clone(&self) -> (copy: Self)
        ensures
            copy@ == self@,
    {
        ReplicationLog {
            _id: self._id.clone(),
            _rev: match &self._rev {
                Some(rev) => Some(rev.clone()),
                None => None,
            },
            source_last_seq: match &self.source_last_seq {
                Some(seq) => Some(seq.clone()),
                None => None,
            },
            session_id: self.session_id,
        }
    }
}

impl Clone for Revisions {
    fn clone(&self) -> (copy: Self)
        ensures
            copy@ == self@,
    {
        Revisions { start: self.start, ids: copy_texts(&self.ids) }
    }
}

impl Clone for Document {
    fn clone(&self) -> (copy: Self)
        ensures
            copy@ == self@,
    {
        Document {
            id: self.id.clone(),
            rev: self.rev.clone(),
            revisions: self.revisions.clone(),
            content: self.content.clone(),
        }
    }
}

impl Clone for DocsRequestEntry {
    fn clone(&self) -> (copy: Self)
        ensures
            copy@ == self@,
    {
        DocsRequestEntry { id: self.id.clone(), rev: self.rev.clone() }
    }
}

impl Clone for DocsRequest {
    fn clone(&self) -> (copy: Self)
        ensures
            copy@ == self@,
    {
        let mut docs: Vec<DocsRequestEntry> = Vec::new();
        let mut i: usize = 0;
        while i < self.docs.len()
            invariant
                i <= self.docs.len(),
                docs.deep_view() == self.docs.deep_view().take(i as int),
            decreases self.docs.len() - i,
        {
            let ghost before = docs;
            let entry = self.docs[i].clone();
            proof {
                assert(entry.deep_view() == self.docs.deep_view()[i as int]);
            }
            docs.push(entry);
            proof {
                lemma_deep_view_push(before, docs, entry);
                assert(docs.deep_view() =~= self.docs.deep_view().take(i as int + 1));
            }
            i += 1;
        }
        proof {
            assert(self.docs.deep_view().take(self.docs.len() as int) =~= self.docs.deep_view());
        }
        DocsRequest { docs }
    }
}

} // verus!
