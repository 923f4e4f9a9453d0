//! The steps of a replication run. A step is taken in two parts: what to do
//! next is decided from the phase and the replies it waited for, and what
//! was decided is then addressed to the two databases.

use vstd::prelude::*;
use crate::batch::{delivered, first_gap, first_unanswered, gathered, wanted};
use crate::database::{
    bulk_docs_address, bulk_get_address, changes_address, database_address, document_address,
    done_of, local_id, log_of, request_to, revs_diff_address, root_address, value_of, BodyModel,
    Method, Reply, ReplyModel, CHANGES_LIMIT, STATUS_CREATED, STATUS_OK,
};
use crate::documents::{
    BulkDocsRequest, Changes, ChangesModel, DatabaseInfo, DocsRequest, DocsResponse,
    DocumentModel, InstallModel, LogModel, ReplicationLog, RevsDiff, RevsDiffRequest, RevsModel,
    ServerInfo,
};
use crate::error::{agrees, Error, ErrorModel, Failure, FailureModel, Stage};
use crate::machine::{
    Action, ActionModel, Batch, BatchModel, Event, EventModel, Intent, IntentModel, Phase,
    PhaseModel,
};
use crate::replicator::{advanced, common_ancestor, replication_id, Replicator};
use crate::session::{is_random_uuid, new_session_id};
use crate::text::Text;

verus! {

/// The end of a run that is given up.
pub open spec fn failure(stage: Stage, error: ErrorModel) -> (PhaseModel, IntentModel) {
    (PhaseModel::Failed, IntentModel::Fail(FailureModel { stage, error }))
}

/// The beginning of a run: both servers and both databases are to be asked
/// who they are.
pub open spec fn begun() -> (PhaseModel, IntentModel) {
    (PhaseModel::Identifying, IntentModel::Identify)
}

/// The beginning of a batch: the checkpoints of both ends are to be asked
/// for.
pub open spec fn loading(replication_id: Text, session_id: u128, resume: Option<Text>) -> (
    PhaseModel,
    IntentModel,
) {
    (
        PhaseModel::LoadingCheckpoints { replication_id, session_id, resume },
        IntentModel::LoadCheckpoints { replication_id },
    )
}

/// After the four answers on identity: any failure among them, taken in the
/// order source server, target server, source database, target database,
/// ends the run; else the replication has its identity and its first batch
/// begins.
pub open spec fn after_identified(
    source_server: ReplyModel<Text>,
    target_server: ReplyModel<Text>,
    source_database: ReplyModel<Text>,
    target_database: ReplyModel<Text>,
    session_id: u128,
) -> (PhaseModel, IntentModel) {
    match value_of(source_server, STATUS_OK) {
        Err(error) => failure(Stage::Identify, error),
        Ok(source_uuid) => match value_of(target_server, STATUS_OK) {
            Err(error) => failure(Stage::Identify, error),
            Ok(target_uuid) => match value_of(source_database, STATUS_OK) {
                Err(error) => failure(Stage::Identify, error),
                Ok(_) => match value_of(target_database, STATUS_OK) {
                    Err(error) => failure(Stage::Identify, error),
                    Ok(_) => loading(replication_id(source_uuid, target_uuid), session_id, None),
                },
            },
        },
    }
}

/// The sequence after which a batch reads the changes feed: the one that the
/// batch before it reached, or, for the first batch of a run, the one that
/// the two checkpoints agree on.
pub open spec fn resumption(resume: Option<Text>, source_log: LogModel, target_log: LogModel)
    -> Option<Text> {
    match resume {
        Some(seq) => Some(seq),
        None => common_ancestor(source_log, target_log),
    }
}

/// After the two checkpoints: a failure of either, the source's first, ends
/// the run; else the changes feed is to be read from the point of
/// resumption.
pub open spec fn after_checkpoints(
    replication_id: Text,
    session_id: u128,
    resume: Option<Text>,
    source_reply: ReplyModel<LogModel>,
    target_reply: ReplyModel<LogModel>,
) -> (PhaseModel, IntentModel) {
    match log_of(source_reply, replication_id) {
        Err(error) => failure(Stage::LoadCheckpoints, error),
        Ok(source_log) => match log_of(target_reply, replication_id) {
            Err(error) => failure(Stage::LoadCheckpoints, error),
            Ok(target_log) => {
                let since = resumption(resume, source_log, target_log);
                (
                    PhaseModel::ReadingChanges {
                        batch: BatchModel {
                            replication_id,
                            session_id,
                            source_log,
                            target_log,
                            since,
                        },
                    },
                    IntentModel::ReadChanges { since },
                )
            },
        },
    }
}

/// After a batch of changes: the target is to be asked which of the
/// revisions that the batch names it lacks.
pub open spec fn after_changes(batch: BatchModel, reply: ReplyModel<ChangesModel>) -> (
    PhaseModel,
    IntentModel,
) {
    match value_of(reply, STATUS_OK) {
        Err(error) => failure(Stage::Changes, error),
        Ok(changes) => (
            PhaseModel::Comparing { batch, last_seq: changes.last_seq, rows: changes.rows.len() },
            IntentModel::Compare { revs: gathered(changes.rows) },
        ),
    }
}

/// The writing of the checkpoints of a batch: both ends are to be handed
/// their checkpoint with the session of the batch and the sequence it
/// reached.
pub open spec fn saving(batch: BatchModel, last_seq: Text, rows: nat) -> (PhaseModel, IntentModel) {
    (
        PhaseModel::SavingCheckpoints {
            replication_id: batch.replication_id,
            since: batch.since,
            last_seq,
            rows,
        },
        IntentModel::SaveCheckpoints {
            source: advanced(batch.source_log, batch.session_id, last_seq),
            target: advanced(batch.target_log, batch.session_id, last_seq),
        },
    )
}

/// After the target's answer on what it lacks: where it lacks nothing the
/// checkpoints are to be written; else the revisions are to be asked of the
/// source.
pub open spec fn after_diff(batch: BatchModel, last_seq: Text, rows: nat, reply: ReplyModel<RevsModel>)
    -> (PhaseModel, IntentModel) {
    match value_of(reply, STATUS_OK) {
        Err(error) => failure(Stage::Diff, error),
        Ok(diff) => if wanted(diff).len() == 0 {
            saving(batch, last_seq, rows)
        } else {
            (
                PhaseModel::Fetching { batch, last_seq, rows, wanted: wanted(diff) },
                IntentModel::Fetch { wanted: wanted(diff) },
            )
        },
    }
}

/// The installing of documents: all of them, each as it came, with the
/// order to keep their revisions.
pub open spec fn installing(docs: Seq<DocumentModel>) -> InstallModel {
    InstallModel { docs, new_edits: false }
}

/// After the source's answer with the revisions: a revision asked for and
/// not handed out ends the run; else all documents handed out are to be
/// installed on the target.
pub open spec fn after_docs(
    batch: BatchModel,
    last_seq: Text,
    rows: nat,
    wanted: Seq<(Text, Text)>,
    reply: ReplyModel<Seq<(Text, Seq<DocumentModel>)>>,
) -> (PhaseModel, IntentModel) {
    match value_of(reply, STATUS_OK) {
        Err(error) => failure(Stage::Fetch, error),
        Ok(response) => match first_gap(wanted, delivered(response)) {
            Some(gap) => failure(Stage::Fetch, ErrorModel::Protocol { id: gap.0, rev: gap.1 }),
            None => (
                PhaseModel::Installing { batch, last_seq, rows },
                IntentModel::Install { docs: installing(delivered(response)) },
            ),
        },
    }
}

/// After the target's answer to the installing: once it has acknowledged
/// the documents, and not before, the checkpoints are to be written.
pub open spec fn after_installed(batch: BatchModel, last_seq: Text, rows: nat, reply: ReplyModel<()>)
    -> (PhaseModel, IntentModel) {
    match done_of(reply, STATUS_CREATED) {
        Err(error) => failure(Stage::Install, error),
        Ok(_) => saving(batch, last_seq, rows),
    }
}

/// Whether a batch was the last of its run: it brought fewer rows than a
/// batch is asked for, or it reached no further than where it began.
pub open spec fn drained(since: Option<Text>, last_seq: Text, rows: nat) -> bool {
    rows < CHANGES_LIMIT || since == Some(last_seq)
}

/// After the answers to the writing of the checkpoints: a failure of either,
/// the source's first, ends the run; else the run is finished where the
/// source is drained, and the next batch begins where it is not.
pub open spec fn after_checkpoints_saved(
    replication_id: Text,
    since: Option<Text>,
    last_seq: Text,
    rows: nat,
    source_reply: ReplyModel<()>,
    target_reply: ReplyModel<()>,
    session_id: u128,
) -> (PhaseModel, IntentModel) {
    match done_of(source_reply, STATUS_CREATED) {
        Err(error) => failure(Stage::SaveCheckpoints, error),
        Ok(_) => match done_of(target_reply, STATUS_CREATED) {
            Err(error) => failure(Stage::SaveCheckpoints, error),
            Ok(_) => if drained(since, last_seq, rows) {
                (PhaseModel::Finished, IntentModel::Finish)
            } else {
                loading(replication_id, session_id, Some(last_seq))
            },
        },
    }
}

/// What a run decides on an event: the phase and the intent that follow a
/// phase and the replies it waited for. `session_id` is the session of the
/// batch that the step begins, if it begins one. An event that the phase
/// does not wait for ends the run.
pub open spec fn decided(phase: PhaseModel, event: EventModel, session_id: u128) -> (
    PhaseModel,
    IntentModel,
) {
    match (phase, event) {
        (
            PhaseModel::Identifying,
            EventModel::Identified { source_server, target_server, source_database, target_database },
        ) => after_identified(
            source_server,
            target_server,
            source_database,
            target_database,
            session_id,
        ),
        (
            PhaseModel::LoadingCheckpoints { replication_id, session_id: session, resume },
            EventModel::Checkpoints { source, target },
        ) => after_checkpoints(replication_id, session, resume, source, target),
        (PhaseModel::ReadingChanges { batch }, EventModel::Changes(reply)) => after_changes(
            batch,
            reply,
        ),
        (PhaseModel::Comparing { batch, last_seq, rows }, EventModel::Diff(reply)) => after_diff(
            batch,
            last_seq,
            rows,
            reply,
        ),
        (
            PhaseModel::Fetching { batch, last_seq, rows, wanted },
            EventModel::Docs(reply),
        ) => after_docs(batch, last_seq, rows, wanted, reply),
        (
            PhaseModel::Installing { batch, last_seq, rows },
            EventModel::Installed(reply),
        ) => after_installed(batch, last_seq, rows, reply),
        (
            PhaseModel::SavingCheckpoints { replication_id, since, last_seq, rows },
            EventModel::CheckpointsSaved { source, target },
        ) => after_checkpoints_saved(
            replication_id,
            since,
            last_seq,
            rows,
            source,
            target,
            session_id,
        ),
        _ => (PhaseModel::Failed, IntentModel::Refuse),
    }
}

/// The stage at which the requests of an intent are made.
pub open spec fn stage_of(intent: IntentModel) -> Stage {
    match intent {
        IntentModel::LoadCheckpoints { .. } => Stage::LoadCheckpoints,
        IntentModel::ReadChanges { .. } => Stage::Changes,
        IntentModel::Compare { .. } => Stage::Diff,
        IntentModel::Fetch { .. } => Stage::Fetch,
        IntentModel::Install { .. } => Stage::Install,
        IntentModel::SaveCheckpoints { .. } => Stage::SaveCheckpoints,
        _ => Stage::Identify,
    }
}

/// The action that carries out an intent between `source` and `target`:
/// each request goes to the end and the address that the protocol gives it.
/// Where an address cannot be built, there is no action but the error; of
/// two requests, the source's is built first.
pub open spec fn requests_for(source: Text, target: Text, intent: IntentModel) -> Result<
    ActionModel,
    ErrorModel,
> {
    match intent {
        IntentModel::Identify => match request_to(
            root_address(source),
            source,
            Method::Get,
            BodyModel::Empty,
        ) {
            Err(error) => Err(error),
            Ok(source_server) => match request_to(
                root_address(target),
                target,
                Method::Get,
                BodyModel::Empty,
            ) {
                Err(error) => Err(error),
                Ok(target_server) => match request_to(
                    database_address(source),
                    source,
                    Method::Get,
                    BodyModel::Empty,
                ) {
                    Err(error) => Err(error),
                    Ok(source_database) => match request_to(
                        database_address(target),
                        target,
                        Method::Get,
                        BodyModel::Empty,
                    ) {
                        Err(error) => Err(error),
                        Ok(target_database) => Ok(
                            ActionModel::Identify {
                                source_server,
                                target_server,
                                source_database,
                                target_database,
                            },
                        ),
                    },
                },
            },
        },
        IntentModel::LoadCheckpoints { replication_id } => match request_to(
            document_address(source, local_id(replication_id)),
            source,
            Method::Get,
            BodyModel::Empty,
        ) {
            Err(error) => Err(error),
            Ok(source_request) => match request_to(
                document_address(target, local_id(replication_id)),
                target,
                Method::Get,
                BodyModel::Empty,
            ) {
                Err(error) => Err(error),
                Ok(target_request) => Ok(
                    ActionModel::LoadCheckpoints { source: source_request, target: target_request },
                ),
            },
        },
        IntentModel::ReadChanges { since } => match request_to(
            changes_address(source, since),
            source,
            Method::Get,
            BodyModel::Empty,
        ) {
            Err(error) => Err(error),
            Ok(request) => Ok(ActionModel::ReadChanges(request)),
        },
        IntentModel::Compare { revs } => match request_to(
            revs_diff_address(target),
            target,
            Method::Post,
            BodyModel::Revs(revs),
        ) {
            Err(error) => Err(error),
            Ok(request) => Ok(ActionModel::Compare(request)),
        },
        IntentModel::Fetch { wanted } => match request_to(
            bulk_get_address(source),
            source,
            Method::Post,
            BodyModel::Docs(wanted),
        ) {
            Err(error) => Err(error),
            Ok(request) => Ok(ActionModel::Fetch(request)),
        },
        IntentModel::Install { docs } => match request_to(
            bulk_docs_address(target),
            target,
            Method::Post,
            BodyModel::Install(docs),
        ) {
            Err(error) => Err(error),
            Ok(request) => Ok(ActionModel::Install(request)),
        },
        IntentModel::SaveCheckpoints { source: source_log, target: target_log } => match request_to(
            document_address(source, source_log.id),
            source,
            Method::Put,
            BodyModel::Log(source_log),
        ) {
            Err(error) => Err(error),
            Ok(source_request) => match request_to(
                document_address(target, target_log.id),
                target,
                Method::Put,
                BodyModel::Log(target_log),
            ) {
                Err(error) => Err(error),
                Ok(target_request) => Ok(
                    ActionModel::SaveCheckpoints { source: source_request, target: target_request },
                ),
            },
        },
        IntentModel::Finish => Ok(ActionModel::Finish),
        IntentModel::Fail(failure) => Ok(ActionModel::Fail(failure)),
        IntentModel::Refuse => Ok(ActionModel::Refuse),
    }
}

/// A decision addressed: the phase decided with the action that carries the
/// intent out, or, where an address cannot be built, the end of the run with
/// that failure at the stage of the intent.
pub open spec fn addressed(source: Text, target: Text, decision: (PhaseModel, IntentModel)) -> (
    PhaseModel,
    ActionModel,
) {
    match requests_for(source, target, decision.1) {
        Ok(action) => (decision.0, action),
        Err(error) => (
            PhaseModel::Failed,
            ActionModel::Fail(FailureModel { stage: stage_of(decision.1), error }),
        ),
    }
}

/// The beginning of a run between `source` and `target`.
pub open spec fn start(source: Text, target: Text) -> (PhaseModel, ActionModel) {
    addressed(source, target, begun())
}

/// One step of a run between `source` and `target`: the phase and the
/// action that follow a phase and an event.
pub open spec fn next(
    source: Text,
    target: Text,
    phase: PhaseModel,
    event: EventModel,
    session_id: u128,
) -> (PhaseModel, ActionModel) {
    addressed(source, target, decided(phase, event, session_id))
}

/// Gives a run up.
fn fail(stage: Stage, error: Error) -> (out: (Phase, Intent))
    ensures
        (out.0@, out.1@) == failure(stage, error@),
{
    (Phase::Failed, Intent::Fail(Failure { stage, error }))
}

/// Begins a batch of a replication.
pub fn load(replication_id: String, session_id: u128, resume: Option<String>) -> (out: (
    Phase,
    Intent,
))
    ensures
        (out.0@, out.1@) == loading(replication_id@, session_id, resume.deep_view()),
{
    (
        Phase::LoadingCheckpoints {
            replication_id: replication_id.clone(),
            session_id,
            resume,
        },
        Intent::LoadCheckpoints { replication_id },
    )
}

/// Decides to write the checkpoints of a batch.
fn save(batch: Batch, last_seq: String, rows: usize) -> (out: (Phase, Intent))
    ensures
        (out.0@, out.1@) == saving(batch@, last_seq@, rows as nat),
{
    let Batch { replication_id, session_id, source_log, target_log, since } = batch;
    let source = source_log.advance(session_id, last_seq.clone());
    let target = target_log.advance(session_id, last_seq.clone());
    (
        Phase::SavingCheckpoints { replication_id, since, last_seq, rows },
        Intent::SaveCheckpoints { source, target },
    )
}

impl Intent {
    /// The stage at which the requests of the intent are made.
    pub fn stage(&self) -> (stage: Stage)
        ensures
            stage == stage_of(self@),
    {
        match self {
            Intent::LoadCheckpoints { .. } => Stage::LoadCheckpoints,
            Intent::ReadChanges { .. } => Stage::Changes,
            Intent::Compare { .. } => Stage::Diff,
            Intent::Fetch { .. } => Stage::Fetch,
            Intent::Install { .. } => Stage::Install,
            Intent::SaveCheckpoints { .. } => Stage::SaveCheckpoints,
            _ => Stage::Identify,
        }
    }
}

impl Replicator {
    /// Takes the four answers on identity.
    fn on_identified(
        &self,
        source_server: Reply<ServerInfo>,
        target_server: Reply<ServerInfo>,
        source_database: Reply<DatabaseInfo>,
        target_database: Reply<DatabaseInfo>,
        session_id: u128,
    ) -> (out: (Phase, Intent))
        ensures
            (out.0@, out.1@) == after_identified(
                source_server.deep_view(),
                target_server.deep_view(),
                source_database.deep_view(),
                target_database.deep_view(),
                session_id,
            ),
    {
        let source_info = match source_server.value(STATUS_OK) {
            Ok(info) => info,
            Err(error) => {
                return fail(Stage::Identify, error);
            },
        };
        let target_info = match target_server.value(STATUS_OK) {
            Ok(info) => info,
            Err(error) => {
                return fail(Stage::Identify, error);
            },
        };
        match source_database.value(STATUS_OK) {
            Ok(_) => {},
            Err(error) => {
                return fail(Stage::Identify, error);
            },
        }
        match target_database.value(STATUS_OK) {
            Ok(_) => {},
            Err(error) => {
                return fail(Stage::Identify, error);
            },
        }
        load(self.replication_id(source_info, target_info), session_id, None)
    }

    /// Takes the two checkpoints.
    fn on_checkpoints(
        &self,
        replication_id: String,
        session_id: u128,
        resume: Option<String>,
        source_reply: Reply<ReplicationLog>,
        target_reply: Reply<ReplicationLog>,
    ) -> (out: (Phase, Intent))
        ensures
            (out.0@, out.1@) == after_checkpoints(
                replication_id@,
                session_id,
                resume.deep_view(),
                source_reply.deep_view(),
                target_reply.deep_view(),
            ),
    {
        let source_log = match source_reply.log(replication_id.as_str()) {
            Ok(log) => log,
            Err(error) => {
                return fail(Stage::LoadCheckpoints, error);
            },
        };
        let target_log = match target_reply.log(replication_id.as_str()) {
            Ok(log) => log,
            Err(error) => {
                return fail(Stage::LoadCheckpoints, error);
            },
        };
        let since = match resume {
            Some(seq) => Some(seq),
            None => self.common_ancestor(&source_log, &target_log),
        };
        let asked = match &since {
            Some(seq) => Some(seq.clone()),
            None => None,
        };
        (
            Phase::ReadingChanges {
                batch: Batch { replication_id, session_id, source_log, target_log, since },
            },
            Intent::ReadChanges { since: asked },
        )
    }

    /// Takes a batch of the changes feed.
    fn on_changes(batch: Batch, reply: Reply<Changes>) -> (out: (Phase, Intent))
        ensures
            (out.0@, out.1@) == after_changes(batch@, reply.deep_view()),
    {
        let changes = match reply.value(STATUS_OK) {
            Ok(changes) => changes,
            Err(error) => {
                return fail(Stage::Changes, error);
            },
        };
        let revs = RevsDiffRequest::from_changes(&changes);
        let rows = changes.results.len();
        proof {
            assert(changes@.rows.len() == rows);
        }
        (Phase::Comparing { batch, last_seq: changes.last_seq, rows }, Intent::Compare { revs })
    }

    /// Takes the target's answer on what it lacks.
    fn on_diff(batch: Batch, last_seq: String, rows: usize, reply: Reply<RevsDiff>) -> (out:
        (Phase, Intent))
        ensures
            (out.0@, out.1@) == after_diff(batch@, last_seq@, rows as nat, reply.deep_view()),
    {
        let diff = match reply.value(STATUS_OK) {
            Ok(diff) => diff,
            Err(error) => {
                return fail(Stage::Diff, error);
            },
        };
        let wanted = DocsRequest::from_diff(&diff);
        proof {
            assert(wanted@.len() == wanted.docs.len());
        }
        if wanted.docs.len() == 0 {
            return save(batch, last_seq, rows);
        }
        let asked = wanted.clone();
        (Phase::Fetching { batch, last_seq, rows, wanted }, Intent::Fetch { wanted: asked })
    }

    /// Takes the revisions that the source handed out.
    fn on_docs(
        batch: Batch,
        last_seq: String,
        rows: usize,
        wanted: DocsRequest,
        reply: Reply<DocsResponse>,
    ) -> (out: (Phase, Intent))
        ensures
            (out.0@, out.1@) == after_docs(
                batch@,
                last_seq@,
                rows as nat,
                wanted@,
                reply.deep_view(),
            ),
    {
        let response = match reply.value(STATUS_OK) {
            Ok(response) => response,
            Err(error) => {
                return fail(Stage::Fetch, error);
            },
        };
        let docs = response.documents();
        match first_unanswered(&wanted, &docs) {
            Some(gap) => {
                return fail(
                    Stage::Fetch,
                    Error::Protocol { id: gap.id.clone(), rev: gap.rev.clone() },
                );
            },
            None => {},
        }
        (
            Phase::Installing { batch, last_seq, rows },
            Intent::Install { docs: BulkDocsRequest { docs, new_edits: false } },
        )
    }

    /// Takes the target's answer to the installing.
    fn on_installed(batch: Batch, last_seq: String, rows: usize, reply: Reply<()>) -> (out:
        (Phase, Intent))
        ensures
            (out.0@, out.1@) == after_installed(batch@, last_seq@, rows as nat, reply.deep_view()),
    {
        match reply.done(STATUS_CREATED) {
            Ok(_) => save(batch, last_seq, rows),
            Err(error) => fail(Stage::Install, error),
        }
    }

    /// Takes the answers to the writing of the checkpoints.
    fn on_checkpoints_saved(
        replication_id: String,
        since: Option<String>,
        last_seq: String,
        rows: usize,
        source_reply: Reply<()>,
        target_reply: Reply<()>,
        session_id: u128,
    ) -> (out: (Phase, Intent))
        ensures
            (out.0@, out.1@) == after_checkpoints_saved(
                replication_id@,
                since.deep_view(),
                last_seq@,
                rows as nat,
                source_reply.deep_view(),
                target_reply.deep_view(),
                session_id,
            ),
    {
        match source_reply.done(STATUS_CREATED) {
            Ok(_) => {},
            Err(error) => {
                return fail(Stage::SaveCheckpoints, error);
            },
        }
        match target_reply.done(STATUS_CREATED) {
            Ok(_) => {},
            Err(error) => {
                return fail(Stage::SaveCheckpoints, error);
            },
        }
        let stalled = match &since {
            Some(seq) => *seq == last_seq,
            None => false,
        };
        if rows < CHANGES_LIMIT as usize || stalled {
            (Phase::Finished, Intent::Finish)
        } else {
            load(replication_id, session_id, Some(last_seq))
        }
    }

    /// Decides what follows a phase and the replies it waited for, with the
    /// session identifier given for the batch that may begin.
    pub fn decide(&self, phase: Phase, event: Event, session_id: u128) -> (out: (Phase, Intent))
        ensures
            (out.0@, out.1@) == decided(phase@, event@, session_id),
    {
        match (phase, event) {
            (
                Phase::Identifying,
                Event::Identified { source_server, target_server, source_database, target_database },
            ) => self.on_identified(
                source_server,
                target_server,
                source_database,
                target_database,
                session_id,
            ),
            (
                Phase::LoadingCheckpoints { replication_id, session_id: session, resume },
                Event::Checkpoints { source, target },
            ) => self.on_checkpoints(replication_id, session, resume, source, target),
            (Phase::ReadingChanges { batch }, Event::Changes(reply)) => Self::on_changes(
                batch,
                reply,
            ),
            (Phase::Comparing { batch, last_seq, rows }, Event::Diff(reply)) => Self::on_diff(
                batch,
                last_seq,
                rows,
                reply,
            ),
            (Phase::Fetching { batch, last_seq, rows, wanted }, Event::Docs(reply)) => Self::on_docs(
                batch,
                last_seq,
                rows,
                wanted,
                reply,
            ),
            (
                Phase::Installing { batch, last_seq, rows },
                Event::Installed(reply),
            ) => Self::on_installed(batch, last_seq, rows, reply),
            (
                Phase::SavingCheckpoints { replication_id, since, last_seq, rows },
                Event::CheckpointsSaved { source, target },
            ) => Self::on_checkpoints_saved(
                replication_id,
                since,
                last_seq,
                rows,
                source,
                target,
                session_id,
            ),
            _ => (Phase::Failed, Intent::Refuse),
        }
    }

    /// Builds the requests that carry an intent out.
    pub fn requests(&self, intent: Intent) -> (action: Result<Action, Error>)
        ensures
            agrees(action, requests_for(self.source_model(), self.target_model(), intent@)),
    {
        match intent {
            Intent::Identify => {
                let source_server = self.source().server_info_request()?;
                let target_server = self.target().server_info_request()?;
                let source_database = self.source().database_info_request()?;
                let target_database = self.target().database_info_request()?;
                Ok(
                    Action::Identify {
                        source_server,
                        target_server,
                        source_database,
                        target_database,
                    },
                )
            },
            Intent::LoadCheckpoints { replication_id } => {
                let source = self.source().replication_log_request(replication_id.as_str())?;
                let target = self.target().replication_log_request(replication_id.as_str())?;
                Ok(Action::LoadCheckpoints { source, target })
            },
            Intent::ReadChanges { since } => {
                let request = self.source().changes_request(&since)?;
                Ok(Action::ReadChanges(request))
            },
            Intent::Compare { revs } => {
                let request = self.target().revs_diff_request(revs)?;
                Ok(Action::Compare(request))
            },
            Intent::Fetch { wanted } => {
                let request = self.source().docs_request(wanted)?;
                Ok(Action::Fetch(request))
            },
            Intent::Install { docs } => {
                let request = self.target().save_docs_request(docs)?;
                Ok(Action::Install(request))
            },
            Intent::SaveCheckpoints { source, target } => {
                let source = self.source().save_replication_log_request(source)?;
                let target = self.target().save_replication_log_request(target)?;
                Ok(Action::SaveCheckpoints { source, target })
            },
            Intent::Finish => Ok(Action::Finish),
            Intent::Fail(failure) => Ok(Action::Fail(failure)),
            Intent::Refuse => Ok(Action::Refuse),
        }
    }

    /// Addresses a decision: the phase decided with the requests of the
    /// intent, or the end of the run where an address cannot be built.
    pub fn address(&self, phase: Phase, intent: Intent) -> (out: (Phase, Action))
        ensures
            (out.0@, out.1@) == addressed(
                self.source_model(),
                self.target_model(),
                (phase@, intent@),
            ),
    {
        let stage = intent.stage();
        match self.requests(intent) {
            Ok(action) => (phase, action),
            Err(error) => (Phase::Failed, Action::Fail(Failure { stage, error })),
        }
    }

    /// Begins a run.
    pub fn start(&self) -> (out: (Phase, Action))
        ensures
            (out.0@, out.1@) == start(self.source_model(), self.target_model()),
    {
        self.address(Phase::Identifying, Intent::Identify)
    }

    /// Takes one step of the run with the session identifier given: the
    /// phase and the action that follow `phase` and `event`.
    pub fn step_with(&self, phase: Phase, event: Event, session_id: u128) -> (out: (Phase, Action))
        ensures
            (out.0@, out.1@) == next(
                self.source_model(),
                self.target_model(),
                phase@,
                event@,
                session_id,
            ),
    {
        let (phase, intent) = self.decide(phase, event, session_id);
        self.address(phase, intent)
    }

    /// Takes one step of the run. A step that begins a batch gives it a
    /// session identifier drawn at random.
    pub fn step(&self, phase: Phase, event: Event) -> (out: (Phase, Action))
        ensures
            exists|session_id: u128|
                is_random_uuid(session_id) && (out.0@, out.1@) == #[trigger] next(
                    self.source_model(),
                    self.target_model(),
                    phase@,
                    event@,
                    session_id,
                ),
    {
        let session_id = new_session_id();
        self.step_with(phase, event, session_id)
    }
}

} // verus!
