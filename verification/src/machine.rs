//! A replication run as a machine: its phases, the answers that move it, and
//! the requests that it asks for.
//!
//! The machine performs nothing itself. It names the requests to make; the
//! program around it makes them and hands the replies back.

use vstd::prelude::*;
use crate::database::{Reply, ReplyModel, Request, RequestModel};
use crate::documents::{
    BulkDocsRequest, Changes, ChangesModel, DatabaseInfo, DocsRequest, DocsResponse,
    DocumentModel, InstallModel, LogModel, ReplicationLog, RevsDiff, RevsDiffRequest, RevsModel,
    ServerInfo,
};
use crate::error::{Failure, FailureModel};
use crate::text::Text;

verus! {

/// One batch under way: the replication it belongs to, its session, the
/// checkpoints it found, and the sequence after which it reads the changes
/// feed.
#[derive(Debug, PartialEq, Eq)]
pub struct Batch {
    pub replication_id: String,
    pub session_id: u128,
    pub source_log: ReplicationLog,
    pub target_log: ReplicationLog,
    pub since: Option<String>,
}

/// The model of a `Batch`.
pub struct BatchModel {
    pub replication_id: Text,
    pub session_id: u128,
    pub source_log: LogModel,
    pub target_log: LogModel,
    pub since: Option<Text>,
}

impl DeepView for Batch {
    type V = BatchModel;

    open spec fn deep_view(&self) -> BatchModel {
        BatchModel {
            replication_id: self.replication_id@,
            session_id: self.session_id,
            source_log: self.source_log@,
            target_log: self.target_log@,
            since: self.since.deep_view(),
        }
    }
}

impl View for Batch {
    type V = BatchModel;

    open spec fn view(&self) -> BatchModel {
        self.deep_view()
    }
}

/// Where a run stands: which replies it waits for, and what it has learnt.
#[derive(Debug, PartialEq, Eq)]
pub enum Phase {
    /// Waiting to learn who the servers and databases are.
    Identifying,
    /// Waiting for the checkpoints of both ends. `resume` is the sequence
    /// that the batch before this one reached, where there was one.
    LoadingCheckpoints { replication_id: String, session_id: u128, resume: Option<String> },
    /// Waiting for a batch of the changes feed.
    ReadingChanges { batch: Batch },
    /// Waiting for the target to say what it lacks.
    Comparing { batch: Batch, last_seq: String, rows: usize },
    /// Waiting for the revisions asked of the source.
    Fetching { batch: Batch, last_seq: String, rows: usize, wanted: DocsRequest },
    /// Waiting for the target to acknowledge the documents.
    Installing { batch: Batch, last_seq: String, rows: usize },
    /// Waiting for both ends to acknowledge the new checkpoints.
    SavingCheckpoints {
        replication_id: String,
        since: Option<String>,
        last_seq: String,
        rows: usize,
    },
    /// The source is drained.
    Finished,
    /// The run was given up.
    Failed,
}

/// The model of a `Phase`.
pub enum PhaseModel {
    Identifying,
    LoadingCheckpoints { replication_id: Text, session_id: u128, resume: Option<Text> },
    ReadingChanges { batch: BatchModel },
    Comparing { batch: BatchModel, last_seq: Text, rows: nat },
    Fetching { batch: BatchModel, last_seq: Text, rows: nat, wanted: Seq<(Text, Text)> },
    Installing { batch: BatchModel, last_seq: Text, rows: nat },
    SavingCheckpoints { replication_id: Text, since: Option<Text>, last_seq: Text, rows: nat },
    Finished,
    Failed,
}

impl DeepView for Phase {
    type V = PhaseModel;

    open spec fn deep_view(&self) -> PhaseModel {
        match self {
            Phase::Identifying => PhaseModel::Identifying,
            Phase::LoadingCheckpoints {
                replication_id,
                session_id,
                resume,
            } => PhaseModel::LoadingCheckpoints {
                replication_id: replication_id@,
                session_id: *session_id,
                resume: resume.deep_view(),
            },
            Phase::ReadingChanges { batch } => PhaseModel::ReadingChanges { batch: batch@ },
            Phase::Comparing { batch, last_seq, rows } => PhaseModel::Comparing {
                batch: batch@,
                last_seq: last_seq@,
                rows: *rows as nat,
            },
            Phase::Fetching { batch, last_seq, rows, wanted } => PhaseModel::Fetching {
                batch: batch@,
                last_seq: last_seq@,
                rows: *rows as nat,
                wanted: wanted@,
            },
            Phase::Installing { batch, last_seq, rows } => PhaseModel::Installing {
                batch: batch@,
                last_seq: last_seq@,
                rows: *rows as nat,
            },
            Phase::SavingCheckpoints {
                replication_id,
                since,
                last_seq,
                rows,
            } => PhaseModel::SavingCheckpoints {
                replication_id: replication_id@,
                since: since.deep_view(),
                last_seq: last_seq@,
                rows: *rows as nat,
            },
            Phase::Finished => PhaseModel::Finished,
            Phase::Failed => PhaseModel::Failed,
        }
    }
}

impl View for Phase {
    type V = PhaseModel;

    open spec fn view(&self) -> PhaseModel {
        self.deep_view()
    }
}

/// The replies to the requests of one action, handed in together.
#[derive(Debug, PartialEq, Eq)]
#[allow(inconsistent_fields)]
pub enum Event {
    Identified {
        source_server: Reply<ServerInfo>,
        target_server: Reply<ServerInfo>,
        source_database: Reply<DatabaseInfo>,
        target_database: Reply<DatabaseInfo>,
    },
    Checkpoints { source: Reply<ReplicationLog>, target: Reply<ReplicationLog> },
    Changes(Reply<Changes>),
    Diff(Reply<RevsDiff>),
    Docs(Reply<DocsResponse>),
    Installed(Reply<()>),
    CheckpointsSaved { source: Reply<()>, target: Reply<()> },
}

/// The model of an `Event`.
#[allow(inconsistent_fields)]
pub enum EventModel {
    Identified {
        source_server: ReplyModel<Text>,
        target_server: ReplyModel<Text>,
        source_database: ReplyModel<Text>,
        target_database: ReplyModel<Text>,
    },
    Checkpoints { source: ReplyModel<LogModel>, target: ReplyModel<LogModel> },
    Changes(ReplyModel<ChangesModel>),
    Diff(ReplyModel<RevsModel>),
    Docs(ReplyModel<Seq<(Text, Seq<DocumentModel>)>>),
    Installed(ReplyModel<()>),
    CheckpointsSaved { source: ReplyModel<()>, target: ReplyModel<()> },
}

impl DeepView for Event {
    type V = EventModel;

    open spec fn deep_view(&self) -> EventModel {
        match self {
            Event::Identified {
                source_server,
                target_server,
                source_database,
                target_database,
            } => EventModel::Identified {
                source_server: source_server.deep_view(),
                target_server: target_server.deep_view(),
                source_database: source_database.deep_view(),
                target_database: target_database.deep_view(),
            },
            Event::Checkpoints { source, target } => EventModel::Checkpoints {
                source: source.deep_view(),
                target: target.deep_view(),
            },
            Event::Changes(reply) => EventModel::Changes(reply.deep_view()),
            Event::Diff(reply) => EventModel::Diff(reply.deep_view()),
            Event::Docs(reply) => EventModel::Docs(reply.deep_view()),
            Event::Installed(reply) => EventModel::Installed(reply.deep_view()),
            Event::CheckpointsSaved { source, target } => EventModel::CheckpointsSaved {
                source: source.deep_view(),
                target: target.deep_view(),
            },
        }
    }
}

impl View for Event {
    type V = EventModel;

    open spec fn view(&self) -> EventModel {
        self.deep_view()
    }
}

/// What the run has decided to do next, before any address is built.
#[derive(Debug, PartialEq, Eq)]
#[allow(inconsistent_fields)]
pub enum Intent {
    /// Ask both servers and both databases who they are.
    Identify,
    /// Ask both ends for the checkpoint of the replication.
    LoadCheckpoints { replication_id: String },
    /// Read a batch of the changes feed of the source.
    ReadChanges { since: Option<String> },
    /// Ask the target which of these revisions it lacks.
    Compare { revs: RevsDiffRequest },
    /// Ask the source for these revisions.
    Fetch { wanted: DocsRequest },
    /// Install these documents on the target.
    Install { docs: BulkDocsRequest },
    /// Write these checkpoints, the first to the source and the second to
    /// the target.
    SaveCheckpoints { source: ReplicationLog, target: ReplicationLog },
    /// Nothing is left to do: the run has succeeded.
    Finish,
    /// Give the run up with this failure.
    Fail(Failure),
    /// Give the run up: the event is not one that it waited for.
    Refuse,
}

/// The model of an `Intent`.
#[allow(inconsistent_fields)]
pub enum IntentModel {
    Identify,
    LoadCheckpoints { replication_id: Text },
    ReadChanges { since: Option<Text> },
    Compare { revs: RevsModel },
    Fetch { wanted: Seq<(Text, Text)> },
    Install { docs: InstallModel },
    SaveCheckpoints { source: LogModel, target: LogModel },
    Finish,
    Fail(FailureModel),
    Refuse,
}

impl DeepView for Intent {
    type V = IntentModel;

    open spec fn deep_view(&self) -> IntentModel {
        match self {
            Intent::Identify => IntentModel::Identify,
            Intent::LoadCheckpoints { replication_id } => IntentModel::LoadCheckpoints {
                replication_id: replication_id@,
            },
            Intent::ReadChanges { since } => IntentModel::ReadChanges { since: since.deep_view() },
            Intent::Compare { revs } => IntentModel::Compare { revs: revs@ },
            Intent::Fetch { wanted } => IntentModel::Fetch { wanted: wanted@ },
            Intent::Install { docs } => IntentModel::Install { docs: docs@ },
            Intent::SaveCheckpoints { source, target } => IntentModel::SaveCheckpoints {
                source: source@,
                target: target@,
            },
            Intent::Finish => IntentModel::Finish,
            Intent::Fail(failure) => IntentModel::Fail(failure@),
            Intent::Refuse => IntentModel::Refuse,
        }
    }
}

impl View for Intent {
    type V = IntentModel;

    open spec fn view(&self) -> IntentModel {
        self.deep_view()
    }
}

/// What the run asks to be done next: an intent with the requests that
/// carry it out. An action with several requests asks for all of them at
/// once; its replies are handed in together, as one event.
#[derive(Debug, PartialEq, Eq)]
pub enum Action {
    Identify {
        source_server: Request,
        target_server: Request,
        source_database: Request,
        target_database: Request,
    },
    LoadCheckpoints { source: Request, target: Request },
    ReadChanges(Request),
    Compare(Request),
    Fetch(Request),
    Install(Request),
    SaveCheckpoints { source: Request, target: Request },
    /// Nothing is left to do: the run has succeeded.
    Finish,
    /// Nothing is to be done: the run is given up with this failure.
    Fail(Failure),
    /// Nothing is to be done: the event is not one that the run waited for.
    Refuse,
}

/// The model of an `Action`.
pub enum ActionModel {
    Identify {
        source_server: RequestModel,
        target_server: RequestModel,
        source_database: RequestModel,
        target_database: RequestModel,
    },
    LoadCheckpoints { source: RequestModel, target: RequestModel },
    ReadChanges(RequestModel),
    Compare(RequestModel),
    Fetch(RequestModel),
    Install(RequestModel),
    SaveCheckpoints { source: RequestModel, target: RequestModel },
    Finish,
    Fail(FailureModel),
    Refuse,
}

impl DeepView for Action {
    type V = ActionModel;

    open spec fn deep_view(&self) -> ActionModel {
        match self {
            Action::Identify {
                source_server,
                target_server,
                source_database,
                target_database,
            } => ActionModel::Identify {
                source_server: source_server@,
                target_server: target_server@,
                source_database: source_database@,
                target_database: target_database@,
            },
            Action::LoadCheckpoints { source, target } => ActionModel::LoadCheckpoints {
                source: source@,
                target: target@,
            },
            Action::ReadChanges(request) => ActionModel::ReadChanges(request@),
            Action::Compare(request) => ActionModel::Compare(request@),
            Action::Fetch(request) => ActionModel::Fetch(request@),
            Action::Install(request) => ActionModel::Install(request@),
            Action::SaveCheckpoints { source, target } => ActionModel::SaveCheckpoints {
                source: source@,
                target: target@,
            },
            Action::Finish => ActionModel::Finish,
            Action::Fail(failure) => ActionModel::Fail(failure@),
            Action::Refuse => ActionModel::Refuse,
        }
    }
}

impl View for Action {
    type V = ActionModel;

    open spec fn view(&self) -> ActionModel {
        self.deep_view()
    }
}

} // verus!
