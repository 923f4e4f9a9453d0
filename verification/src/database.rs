//! One database of the two: the requests that the protocol makes of it,
//! and the reading of its answers.

use vstd::prelude::*;
use crate::documents::{
    BulkDocsRequest, DocsRequest, InstallModel, LogModel, ReplicationLog, RevsDiffRequest,
    RevsModel,
};
use crate::error::{agrees, Error, ErrorModel};
use crate::locator::{
    append_pair, locate, located, push_segment, root, root_of, with_pair, with_segment,
};
use crate::text::{decimal, decimal_of, split, split_text, Text};

verus! {

/// The most rows that one batch of the changes feed is asked for. A batch
/// with fewer rows is the last one.
pub const CHANGES_LIMIT: u16 = 1000;

/// The method of a request.
#[derive(Debug, Clone, Copy, PartialEq, Eq, Structural)]
pub enum Method {
    Get,
    Put,
    Post,
}

/// What a request carries, to be written as JSON.
#[derive(Debug, PartialEq, Eq)]
pub enum Body {
    Empty,
    Log(ReplicationLog),
    Revs(RevsDiffRequest),
    Docs(DocsRequest),
    Install(BulkDocsRequest),
}

/// The model of a `Body`.
pub enum BodyModel {
    Empty,
    Log(LogModel),
    Revs(RevsModel),
    Docs(Seq<(Text, Text)>),
    Install(InstallModel),
}

impl DeepView for Body {
    type V = BodyModel;

    open spec fn deep_view(&self) -> BodyModel {
        match self {
            Body::Empty => BodyModel::Empty,
            Body::Log(log) => BodyModel::Log(log@),
            Body::Revs(revs) => BodyModel::Revs(revs@),
            Body::Docs(docs) => BodyModel::Docs(docs@),
            Body::Install(install) => BodyModel::Install(install@),
        }
    }
}

impl View for Body {
    type V = BodyModel;

    open spec fn view(&self) -> BodyModel {
        self.deep_view()
    }
}

/// One request of the protocol, ready to be sent.
#[derive(Debug, PartialEq, Eq)]
pub struct Request {
    pub method: Method,
    pub url: String,
    pub body: Body,
}

/// The model of a `Request`.
pub struct RequestModel {
    pub method: Method,
    pub url: Text,
    pub body: BodyModel,
}

impl DeepView for Request {
    type V = RequestModel;

    open spec fn deep_view(&self) -> RequestModel {
        RequestModel { method: self.method, url: self.url@, body: self.body@ }
    }
}

impl View for Request {
    type V = RequestModel;

    open spec fn view(&self) -> RequestModel {
        self.deep_view()
    }
}

/// A base address with the segments of a path appended, in order.
pub open spec fn with_segments(base: Option<Text>, segments: Seq<Text>) -> Option<Text>
    decreases segments.len(),
{
    if segments.len() == 0 {
        base
    } else {
        with_segment(with_segments(base, segments.drop_last()), segments.last())
    }
}

/// The address of a server's root.
pub open spec fn root_address(base: Text) -> Option<Text> {
    root_of(base)
}

/// The address of the database itself.
pub open spec fn database_address(base: Text) -> Option<Text> {
    located(base)
}

/// The address of a document: the base with the parts of the document's
/// name between its slashes appended as segments.
pub open spec fn document_address(base: Text, id: Text) -> Option<Text> {
    with_segments(Some(base), split(id, '/'))
}

/// The name of the checkpoint document of a replication.
pub open spec fn local_id(replication_id: Text) -> Text {
    "_local/"@ + replication_id
}

/// The address of the changes feed: one batch in the normal feed, with all
/// leaf revisions of each document, from after `since` where it is given.
pub open spec fn changes_address(base: Text, since: Option<Text>) -> Option<Text> {
    let feed = with_pair(
        with_pair(
            with_pair(with_segment(Some(base), "_changes"@), "feed"@, "normal"@),
            "style"@,
            "all_docs"@,
        ),
        "limit"@,
        decimal(CHANGES_LIMIT as nat),
    );
    match since {
        Some(seq) => with_pair(feed, "since"@, seq),
        None => feed,
    }
}

/// The limit, as the address of the changes feed spells it.
pub proof fn lemma_limit_in_digits()
    ensures
        decimal(CHANGES_LIMIT as nat) == "1000"@,
{
    reveal_strlit("1000");
    reveal_with_fuel(decimal, 4);
    assert(decimal(CHANGES_LIMIT as nat) =~= "1000"@);
}

/// The address at which a database is asked which revisions it lacks.
pub open spec fn revs_diff_address(base: Text) -> Option<Text> {
    with_segment(Some(base), "_revs_diff"@)
}

/// The address at which revisions are fetched, with their ancestry and their
/// attachments.
pub open spec fn bulk_get_address(base: Text) -> Option<Text> {
    with_pair(
        with_pair(with_segment(Some(base), "_bulk_get"@), "revs"@, "true"@),
        "attachments"@,
        "true"@,
    )
}

/// The address at which documents are installed.
pub open spec fn bulk_docs_address(base: Text) -> Option<Text> {
    with_segment(Some(base), "_bulk_docs"@)
}

/// The request to an address, or the error that the database's address
/// gives none.
pub open spec fn request_to(address: Option<Text>, base: Text, method: Method, body: BodyModel)
    -> Result<RequestModel, ErrorModel> {
    match address {
        Some(url) => Ok(RequestModel { method, url, body }),
        None => Err(ErrorModel::Address(base)),
    }
}

/// Appends the segments of a path to an address, if there is one.
pub fn push_segments(base: Option<String>, segments: &Vec<String>) -> (address: Option<String>)
    ensures
        address.deep_view() == with_segments(base.deep_view(), segments.deep_view()),
{
    let ghost start = base.deep_view();
    let mut address = base;
    let mut i: usize = 0;
    while i < segments.len()
        invariant
            i <= segments.len(),
            address.deep_view() == with_segments(start, segments.deep_view().take(i as int)),
        decreases segments.len() - i,
    {
        proof {
            let next = segments.deep_view().take(i as int + 1);
            assert(next.drop_last() =~= segments.deep_view().take(i as int));
            assert(next.last() == segments[i as int]@);
        }
        address = push_segment(address, segments[i].as_str());
        i += 1;
    }
    proof {
        assert(segments.deep_view().take(segments.len() as int) =~= segments.deep_view());
    }
    address
}

/// A database, known by its address.
#[derive(Debug, PartialEq, Eq)]
pub struct Database {
    url: String,
}

impl DeepView for Database {
    type V = Text;

    closed spec fn deep_view(&self) -> Text {
        self.url@
    }
}

impl View for Database {
    type V = Text;

    open spec fn view(&self) -> Text {
        self.deep_view()
    }
}

impl Database {
    /// The database at an address.
    pub fn new(url: String) -> (database: Self)
        ensures
            database@ == url@,
    {
        Database { url }
    }

    /// The address of the database, as it was given.
    pub fn url(&self) -> (url: &String)
        ensures
            url@ == self@,
    {
        &self.url
    }

    /// Makes the request to an address of the database, where there is
    /// one; where there is none, the database's own address is the error.
    pub fn request(&self, address: Option<String>, method: Method, body: Body) -> (request: Result<
        Request,
        Error,
    >)
        ensures
            agrees(request, request_to(address.deep_view(), self@, method, body@)),
    {
        match address {
            Some(url) => Ok(Request { method, url, body }),
            None => Err(Error::Address(self.url.clone())),
        }
    }

    /// The request for the identity of the server: a GET of its root.
    pub fn server_info_request(&self) -> (request: Result<Request, Error>)
        ensures
            agrees(request, request_to(root_address(self@), self@, Method::Get, BodyModel::Empty)),
    {
        self.request(root(self.url.as_str()), Method::Get, Body::Empty)
    }

    /// The request for what the database says of itself: a GET of its
    /// address.
    pub fn database_info_request(&self) -> (request: Result<Request, Error>)
        ensures
            agrees(
                request,
                request_to(database_address(self@), self@, Method::Get, BodyModel::Empty),
            ),
    {
        self.request(locate(self.url.as_str()), Method::Get, Body::Empty)
    }

    /// The request for the checkpoint of a replication: a GET of its
    /// checkpoint document.
    pub fn replication_log_request(&self, replication_id: &str) -> (request: Result<
        Request,
        Error,
    >)
        ensures
            agrees(
                request,
                request_to(
                    document_address(self@, local_id(replication_id@)),
                    self@,
                    Method::Get,
                    BodyModel::Empty,
                ),
            ),
    {
        let id = ReplicationLog::local_id(replication_id);
        let segments = split_text(id.as_str(), '/');
        let address = push_segments(Some(self.url.clone()), &segments);
        self.request(address, Method::Get, Body::Empty)
    }

    /// The request that saves a checkpoint: a PUT of the document under its
    /// name.
    pub fn save_replication_log_request(&self, log: ReplicationLog) -> (request: Result<
        Request,
        Error,
    >)
        ensures
            agrees(
                request,
                request_to(
                    document_address(self@, log@.id),
                    self@,
                    Method::Put,
                    BodyModel::Log(log@),
                ),
            ),
    {
        let segments = split_text(log._id.as_str(), '/');
        let address = push_segments(Some(self.url.clone()), &segments);
        self.request(address, Method::Put, Body::Log(log))
    }

    /// The request for one batch of the changes feed.
    pub fn changes_request(&self, since: &Option<String>) -> (request: Result<Request, Error>)
        ensures
            agrees(
                request,
                request_to(
                    changes_address(self@, since.deep_view()),
                    self@,
                    Method::Get,
                    BodyModel::Empty,
                ),
            ),
    {
        let feed = push_segment(Some(self.url.clone()), "_changes");
        let feed = append_pair(feed, "feed", "normal");
        let feed = append_pair(feed, "style", "all_docs");
        let feed = append_pair(feed, "limit", decimal_of(CHANGES_LIMIT).as_str());
        let address = match since {
            Some(seq) => append_pair(feed, "since", seq.as_str()),
            None => feed,
        };
        self.request(address, Method::Get, Body::Empty)
    }

    /// The request that asks the database which revisions it lacks.
    pub fn revs_diff_request(&self, revs: RevsDiffRequest) -> (request: Result<Request, Error>)
        ensures
            agrees(
                request,
                request_to(revs_diff_address(self@), self@, Method::Post, BodyModel::Revs(revs@)),
            ),
    {
        let address = push_segment(Some(self.url.clone()), "_revs_diff");
        self.request(address, Method::Post, Body::Revs(revs))
    }

    /// The request that fetches revisions.
    pub fn docs_request(&self, docs: DocsRequest) -> (request: Result<Request, Error>)
        ensures
            agrees(
                request,
                request_to(bulk_get_address(self@), self@, Method::Post, BodyModel::Docs(docs@)),
            ),
    {
        let address = push_segment(Some(self.url.clone()), "_bulk_get");
        let address = append_pair(address, "revs", "true");
        let address = append_pair(address, "attachments", "true");
        self.request(address, Method::Post, Body::Docs(docs))
    }

    /// The request that installs documents.
    pub fn save_docs_request(&self, docs: BulkDocsRequest) -> (request: Result<Request, Error>)
        ensures
            agrees(
                request,
                request_to(
                    bulk_docs_address(self@),
                    self@,
                    Method::Post,
                    BodyModel::Install(docs@),
                ),
            ),
    {
        let address = push_segment(Some(self.url.clone()), "_bulk_docs");
        self.request(address, Method::Post, Body::Install(docs))
    }
}

impl ReplicationLog {
    /// The name of the checkpoint document of a replication.
    pub fn local_id(replication_id: &str) -> (id: String)
        ensures
            id@ == local_id(replication_id@),
    {
        let mut id = String::from_str("_local/");
        id.append(replication_id);
        id
    }

    /// The checkpoint of a replication that has none yet.
    pub fn fresh(replication_id: &str) -> (log: Self)
        ensures
            log@ == fresh_log(replication_id@),
    {
        ReplicationLog {
            _id: ReplicationLog::local_id(replication_id),
            _rev: None,
            source_last_seq: None,
            session_id: None,
        }
    }
}

/// The checkpoint of a replication that has none yet: the name, and nothing
/// else.
pub open spec fn fresh_log(replication_id: Text) -> LogModel {
    LogModel {
        id: local_id(replication_id),
        rev: None,
        source_last_seq: None,
        session_id: None,
    }
}

/// The status of an answer that carries what was asked for.
pub const STATUS_OK: u16 = 200;

/// The status of an answer to a write that was done.
pub const STATUS_CREATED: u16 = 201;

/// The status of an answer that found nothing at the address.
pub const STATUS_NOT_FOUND: u16 = 404;

/// What came of one request: no answer at all, or an answer with its status
/// and body and, where the body could be read as the value that the
/// operation returns, that value.
#[derive(Debug, PartialEq, Eq)]
pub enum Reply<T> {
    Lost(String),
    Answer { status: u16, body: String, value: Option<T> },
}

/// The model of a `Reply`.
pub enum ReplyModel<V> {
    Lost(Text),
    Answer { status: u16, body: Text, value: Option<V> },
}

impl<T: DeepView> DeepView for Reply<T> {
    type V = ReplyModel<T::V>;

    open spec fn deep_view(&self) -> ReplyModel<T::V> {
        match self {
            Reply::Lost(why) => ReplyModel::Lost(why@),
            Reply::Answer { status, body, value } => ReplyModel::Answer {
                status: *status,
                body: body@,
                value: value.deep_view(),
            },
        }
    }
}

/// The value that a reply brings to an operation that expects one status:
/// a lost request is a transport error, another status an upstream error,
/// and a body that could not be read a decode error.
pub open spec fn value_of<V>(reply: ReplyModel<V>, expected: u16) -> Result<V, ErrorModel> {
    match reply {
        ReplyModel::Lost(why) => Err(ErrorModel::Transport(why)),
        ReplyModel::Answer { status, body, value } => if status == expected {
            match value {
                Some(value) => Ok(value),
                None => Err(ErrorModel::Decode(body)),
            }
        } else {
            Err(ErrorModel::Upstream { status, body })
        },
    }
}

/// Whether a reply says that a write was done: it is, where the status is
/// the expected one, whatever the body holds.
pub open spec fn done_of<V>(reply: ReplyModel<V>, expected: u16) -> Result<(), ErrorModel> {
    match reply {
        ReplyModel::Lost(why) => Err(ErrorModel::Transport(why)),
        ReplyModel::Answer { status, body, value } => if status == expected {
            Ok(())
        } else {
            Err(ErrorModel::Upstream { status, body })
        },
    }
}

/// The checkpoint that a reply brings: the document found, or a fresh one
/// where the database has none.
pub open spec fn log_of(reply: ReplyModel<LogModel>, replication_id: Text) -> Result<
    LogModel,
    ErrorModel,
> {
    match reply {
        ReplyModel::Answer { status, body, value } if status == STATUS_NOT_FOUND => Ok(
            fresh_log(replication_id),
        ),
        _ => value_of(reply, STATUS_OK),
    }
}

impl<T: DeepView> Reply<T> {
    /// Reads the value of a reply to an operation that expects one status.
    pub fn value(self, expected: u16) -> (value: Result<T, Error>)
        ensures
            agrees(value, value_of(self.deep_view(), expected)),
    {
        match self {
            Reply::Lost(why) => Err(Error::Transport(why)),
            Reply::Answer { status, body, value } => {
                if status == expected {
                    match value {
                        Some(value) => Ok(value),
                        None => Err(Error::Decode(body)),
                    }
                } else {
                    Err(Error::Upstream { status, body })
                }
            },
        }
    }

    /// Reads the reply to a write.
    pub fn done(self, expected: u16) -> (done: Result<(), Error>)
        ensures
            agrees(done, done_of(self.deep_view(), expected)),
    {
        match self {
            Reply::Lost(why) => Err(Error::Transport(why)),
            Reply::Answer { status, body, value } => {
                if status == expected {
                    Ok(())
                } else {
                    Err(Error::Upstream { status, body })
                }
            },
        }
    }
}

impl Reply<ReplicationLog> {
    /// Reads the reply to the request for a checkpoint.
    pub fn log(self, replication_id: &str) -> (log: Result<ReplicationLog, Error>)
        ensures
            agrees(log, log_of(self.deep_view(), replication_id@)),
    {
        match self {
            Reply::Answer { status, body, value } if status == STATUS_NOT_FOUND => Ok(
                ReplicationLog::fresh(replication_id),
            ),
            reply => reply.value(STATUS_OK),
        }
    }
}

} // verus!
