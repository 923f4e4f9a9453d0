//! What holds of every run of the machine, whatever the two databases
//! answer.

use vstd::prelude::*;
use crate::batch::{covers, delivered, wanted};
use crate::database::{
    bulk_docs_address, bulk_get_address, changes_address, done_of, request_to, value_of,
    BodyModel, Method, RequestModel, STATUS_CREATED, STATUS_OK,
};
use crate::documents::{ChangesModel, DocumentModel, LogModel, RevsModel};
use crate::error::{ErrorModel, Stage};
use crate::machine::{ActionModel, EventModel, IntentModel, PhaseModel};
use crate::step::{addressed, begun, decided, installing, next, requests_for, stage_of, start};
use crate::text::Text;

verus! {

/// Where a run between `source` and `target` stands after the first `n` of
/// its events, and the action that it asked for last. `sessions` holds, for
/// each event, the session identifier drawn for its step.
pub open spec fn state_at(
    source: Text,
    target: Text,
    events: Seq<EventModel>,
    sessions: Seq<u128>,
    n: nat,
) -> (PhaseModel, ActionModel)
    decreases n,
{
    if n == 0 {
        start(source, target)
    } else {
        let before = state_at(source, target, events, sessions, (n - 1) as nat);
        next(source, target, before.0, events[n - 1], sessions[n - 1])
    }
}

/// What a run between `source` and `target` decided on the `n`-th of its
/// events, before the decision was addressed; for `n` zero, how it began.
pub open spec fn decision_at(
    source: Text,
    target: Text,
    events: Seq<EventModel>,
    sessions: Seq<u128>,
    n: nat,
) -> (PhaseModel, IntentModel) {
    if n == 0 {
        begun()
    } else {
        decided(
            state_at(source, target, events, sessions, (n - 1) as nat).0,
            events[n - 1],
            sessions[n - 1],
        )
    }
}

/// Every state of a run is its decision, addressed.
pub proof fn lemma_state_is_decision_addressed(
    source: Text,
    target: Text,
    events: Seq<EventModel>,
    sessions: Seq<u128>,
    n: nat,
)
    ensures
        state_at(source, target, events, sessions, n) == addressed(
            source,
            target,
            decision_at(source, target, events, sessions, n),
        ),
{
}

/// What a phase is entered from and with which intent: each phase of a
/// batch follows the one before it, with the intent that it waits for, and
/// a run is given up at the stage of checkpoint writing if and only if it
/// fails while it waits for the checkpoints to be written.
pub open spec fn follows(before: PhaseModel, decision: (PhaseModel, IntentModel)) -> bool {
    match decision.0 {
        PhaseModel::Identifying => false,
        PhaseModel::LoadingCheckpoints { .. } => {
            &&& before is Identifying || before is SavingCheckpoints
            &&& decision.1 is LoadCheckpoints
        },
        PhaseModel::ReadingChanges { .. } => {
            &&& before is LoadingCheckpoints
            &&& decision.1 is ReadChanges
        },
        PhaseModel::Comparing { .. } => {
            &&& before is ReadingChanges
            &&& decision.1 is Compare
        },
        PhaseModel::Fetching { .. } => {
            &&& before is Comparing
            &&& decision.1 is Fetch
        },
        PhaseModel::Installing { .. } => {
            &&& before is Fetching
            &&& decision.1 is Install
        },
        PhaseModel::SavingCheckpoints { .. } => {
            &&& before is Comparing || before is Installing
            &&& decision.1 is SaveCheckpoints
        },
        PhaseModel::Finished => {
            &&& before is SavingCheckpoints
            &&& decision.1 is Finish
        },
        PhaseModel::Failed => match decision.1 {
            IntentModel::Refuse => true,
            IntentModel::Fail(failure) => {
                &&& before !is Finished
                &&& before !is Failed
                &&& before is SavingCheckpoints <==> failure.stage == Stage::SaveCheckpoints
            },
            _ => false,
        },
    }
}

/// Every decision leads from its phase to one that follows it.
pub proof fn lemma_decision_follows(phase: PhaseModel, event: EventModel, session_id: u128)
    ensures
        follows(phase, decided(phase, event, session_id)),
{
}

/// Whether an action is of the kind of an intent.
pub open spec fn of_kind(action: ActionModel, intent: IntentModel) -> bool {
    match intent {
        IntentModel::Identify => action is Identify,
        IntentModel::LoadCheckpoints { .. } => action is LoadCheckpoints,
        IntentModel::ReadChanges { .. } => action is ReadChanges,
        IntentModel::Compare { .. } => action is Compare,
        IntentModel::Fetch { .. } => action is Fetch,
        IntentModel::Install { .. } => action is Install,
        IntentModel::SaveCheckpoints { .. } => action is SaveCheckpoints,
        IntentModel::Finish => action is Finish,
        IntentModel::Fail(failure) => action == ActionModel::Fail(failure),
        IntentModel::Refuse => action is Refuse,
    }
}

/// A decision addressed keeps its phase and has the action of its intent,
/// or it is the end of the run, given up at the stage of the intent for
/// want of an address.
pub proof fn lemma_addressed(source: Text, target: Text, decision: (PhaseModel, IntentModel))
    ensures
        ({
            let out = addressed(source, target, decision);
            ||| {
                &&& out.0 == decision.0
                &&& of_kind(out.1, decision.1)
                &&& requests_for(source, target, decision.1) == Ok::<ActionModel, ErrorModel>(out.1)
            }
            ||| {
                &&& out.0 is Failed
                &&& out.1 matches ActionModel::Fail(failure)
                &&& failure.stage == stage_of(decision.1)
                &&& failure.error is Address
                &&& !(decision.1 is Finish)
                &&& !(decision.1 is Fail)
                &&& !(decision.1 is Refuse)
            }
        }),
{
}

/// Whether an action, where it writes checkpoints, writes to both ends one
/// and the same session and one and the same sequence.
pub open spec fn agreeing(action: ActionModel) -> bool {
    action matches ActionModel::SaveCheckpoints { source, target } ==> {
        &&& source.method == Method::Put
        &&& target.method == Method::Put
        &&& source.body matches BodyModel::Log(source_log)
        &&& target.body matches BodyModel::Log(target_log)
        &&& source_log.session_id is Some
        &&& source_log.session_id == target_log.session_id
        &&& source_log.source_last_seq is Some
        &&& source_log.source_last_seq == target_log.source_last_seq
    }
}

/// Whatever the replies, a step that writes checkpoints writes the same
/// session and the same sequence to both ends.
pub proof fn lemma_step_writes_agreeing_checkpoints(
    source: Text,
    target: Text,
    phase: PhaseModel,
    event: EventModel,
    session_id: u128,
)
    ensures
        agreeing(next(source, target, phase, event, session_id).1),
{
    let decision = decided(phase, event, session_id);
    lemma_addressed(source, target, decision);
    if decision.1 is SaveCheckpoints {
        lemma_decision_follows(phase, event, session_id);
    }
}

/// In every run, whenever checkpoints are written, both ends are written
/// the same session and the same sequence.
pub proof fn lemma_run_writes_agreeing_checkpoints(
    source: Text,
    target: Text,
    events: Seq<EventModel>,
    sessions: Seq<u128>,
    n: nat,
)
    requires
        sessions.len() == events.len(),
        n <= events.len(),
    ensures
        agreeing(state_at(source, target, events, sessions, n).1),
{
    lemma_addressed(source, target, begun());
    if n > 0 {
        let before = state_at(source, target, events, sessions, (n - 1) as nat);
        lemma_step_writes_agreeing_checkpoints(
            source,
            target,
            before.0,
            events[n - 1],
            sessions[n - 1],
        );
    }
}

/// What the target lacks, where an event is its answer on that.
pub open spec fn diff_in(event: EventModel) -> Option<RevsModel> {
    match event {
        EventModel::Diff(reply) => match value_of(reply, STATUS_OK) {
            Ok(diff) => Some(diff),
            Err(_) => None,
        },
        _ => None,
    }
}

/// What the source handed out, where an event is its answer with
/// revisions.
pub open spec fn docs_in(event: EventModel) -> Option<Seq<(Text, Seq<DocumentModel>)>> {
    match event {
        EventModel::Docs(reply) => match value_of(reply, STATUS_OK) {
            Ok(response) => Some(response),
            Err(_) => None,
        },
        _ => None,
    }
}

/// Whether an event is the target's acknowledgement of the documents
/// installed.
pub open spec fn acknowledged(event: EventModel) -> bool {
    event matches EventModel::Installed(reply) && done_of(reply, STATUS_CREATED) is Ok
}

/// Whether an action asks the source for exactly the revisions given.
pub open spec fn fetches(action: ActionModel, source: Text, wanted: Seq<(Text, Text)>) -> bool {
    action matches ActionModel::Fetch(request) && Ok::<RequestModel, ErrorModel>(
        request,
    ) == request_to(bulk_get_address(source), source, Method::Post, BodyModel::Docs(wanted))
}

/// Whether an action installs on the target exactly the documents given,
/// each as it is, with the order to keep their revisions.
pub open spec fn installs(action: ActionModel, target: Text, docs: Seq<DocumentModel>) -> bool {
    action matches ActionModel::Install(request) && Ok::<RequestModel, ErrorModel>(
        request,
    ) == request_to(
        bulk_docs_address(target),
        target,
        Method::Post,
        BodyModel::Install(installing(docs)),
    )
}

/// A step writes checkpoints only on the target's acknowledgement of the
/// documents, or on its answer that it lacks nothing.
pub proof fn lemma_step_writes_after_installation(
    source: Text,
    target: Text,
    phase: PhaseModel,
    event: EventModel,
    session_id: u128,
)
    requires
        next(source, target, phase, event, session_id).1 is SaveCheckpoints,
    ensures
        match diff_in(event) {
            Some(diff) => phase is Comparing && wanted(diff).len() == 0,
            None => phase is Installing && acknowledged(event),
        },
{
    let decision = decided(phase, event, session_id);
    lemma_addressed(source, target, decision);
    lemma_decision_follows(phase, event, session_id);
}

/// A step installs only what the source has just handed out, all of it, and
/// only where that holds every revision that the run waited for.
pub proof fn lemma_step_installs_what_was_delivered(
    source: Text,
    target: Text,
    phase: PhaseModel,
    event: EventModel,
    session_id: u128,
)
    requires
        next(source, target, phase, event, session_id).0 is Installing,
    ensures
        phase is Fetching,
        docs_in(event) is Some,
        covers(phase->Fetching_wanted, delivered(docs_in(event)->0)),
        installs(
            next(source, target, phase, event, session_id).1,
            target,
            delivered(docs_in(event)->0),
        ),
{
    let decision = decided(phase, event, session_id);
    lemma_addressed(source, target, decision);
    lemma_decision_follows(phase, event, session_id);
}

/// A step goes on to wait for revisions only after the target's answer that
/// it lacks some, and then it asks the source for exactly those.
pub proof fn lemma_step_fetches_what_is_missing(
    source: Text,
    target: Text,
    phase: PhaseModel,
    event: EventModel,
    session_id: u128,
)
    requires
        next(source, target, phase, event, session_id).0 is Fetching,
    ensures
        phase is Comparing,
        diff_in(event) is Some,
        wanted(diff_in(event)->0).len() > 0,
        next(source, target, phase, event, session_id).0->Fetching_wanted == wanted(
            diff_in(event)->0,
        ),
        fetches(next(source, target, phase, event, session_id).1, source, wanted(diff_in(event)->0)),
{
    let decision = decided(phase, event, session_id);
    lemma_addressed(source, target, decision);
    lemma_decision_follows(phase, event, session_id);
}

/// In every run, checkpoints are written only after the batch is installed:
/// either the target has just answered that it lacks nothing, or the last
/// three events were its answer on what it lacks, the source's answer with
/// revisions that cover all of that, and the target's acknowledgement of
/// exactly the documents that the source handed out, installed with the
/// order to keep their revisions.
pub proof fn lemma_checkpoint_follows_installation(
    source: Text,
    target: Text,
    events: Seq<EventModel>,
    sessions: Seq<u128>,
    n: nat,
)
    requires
        sessions.len() == events.len(),
        n <= events.len(),
        state_at(source, target, events, sessions, n).1 is SaveCheckpoints,
    ensures
        n >= 1,
        match diff_in(events[n - 1]) {
            Some(diff) => wanted(diff).len() == 0,
            None => {
                &&& n >= 3
                &&& acknowledged(events[n - 1])
                &&& docs_in(events[n - 2]) is Some
                &&& diff_in(events[n - 3]) is Some
                &&& fetches(
                    state_at(source, target, events, sessions, (n - 2) as nat).1,
                    source,
                    wanted(diff_in(events[n - 3])->0),
                )
                &&& installs(
                    state_at(source, target, events, sessions, (n - 1) as nat).1,
                    target,
                    delivered(docs_in(events[n - 2])->0),
                )
                &&& covers(wanted(diff_in(events[n - 3])->0), delivered(docs_in(events[n - 2])->0))
            },
        },
{
    lemma_addressed(source, target, begun());
    assert(n >= 1);
    let last = state_at(source, target, events, sessions, (n - 1) as nat);
    lemma_step_writes_after_installation(source, target, last.0, events[n - 1], sessions[n - 1]);
    if diff_in(events[n - 1]) is None {
        assert(last.0 is Installing);
        assert(n >= 2);
        let second = state_at(source, target, events, sessions, (n - 2) as nat);
        lemma_step_installs_what_was_delivered(
            source,
            target,
            second.0,
            events[n - 2],
            sessions[n - 2],
        );
        assert(second.0 is Fetching);
        assert(n >= 3);
        let third = state_at(source, target, events, sessions, (n - 3) as nat);
        lemma_step_fetches_what_is_missing(source, target, third.0, events[n - 3], sessions[n - 3]);
    }
}

/// How often the run has written checkpoints since the batch under way
/// began, after the first `n` of its events. A batch begins when the run
/// decides to load the checkpoints.
pub open spec fn writes_in_batch(
    source: Text,
    target: Text,
    events: Seq<EventModel>,
    sessions: Seq<u128>,
    n: nat,
) -> nat
    decreases n,
{
    let earlier = if n == 0 {
        0
    } else {
        writes_in_batch(source, target, events, sessions, (n - 1) as nat)
    };
    if decision_at(source, target, events, sessions, n).1 is LoadCheckpoints {
        0
    } else if state_at(source, target, events, sessions, n).1 is SaveCheckpoints {
        earlier + 1
    } else {
        earlier
    }
}

/// Whether a phase is one of a batch that has not come to write its
/// checkpoints.
pub open spec fn before_checkpoint(phase: PhaseModel) -> bool {
    ||| phase is Identifying
    ||| phase is LoadingCheckpoints
    ||| phase is ReadingChanges
    ||| phase is Comparing
    ||| phase is Fetching
    ||| phase is Installing
}

/// In every run, a batch that has not come to write its checkpoints has
/// written none, and a batch that waits for them to be written has written
/// them once.
pub proof fn lemma_batch_writes_at_its_end(
    source: Text,
    target: Text,
    events: Seq<EventModel>,
    sessions: Seq<u128>,
    n: nat,
)
    requires
        sessions.len() == events.len(),
        n <= events.len(),
    ensures
        before_checkpoint(state_at(source, target, events, sessions, n).0) ==> writes_in_batch(
            source,
            target,
            events,
            sessions,
            n,
        ) == 0,
        state_at(source, target, events, sessions, n).0 is SavingCheckpoints ==> writes_in_batch(
            source,
            target,
            events,
            sessions,
            n,
        ) == 1,
    decreases n,
{
    let decision = decision_at(source, target, events, sessions, n);
    lemma_addressed(source, target, decision);
    if n > 0 {
        let before = state_at(source, target, events, sessions, (n - 1) as nat);
        lemma_batch_writes_at_its_end(source, target, events, sessions, (n - 1) as nat);
        lemma_decision_follows(before.0, events[n - 1], sessions[n - 1]);
    }
}

/// In every run, a batch that fails before the writing of its checkpoints
/// has written none: when the run is given up at any stage but that one, no
/// checkpoint was written since the batch began.
pub proof fn lemma_failed_batch_wrote_nothing(
    source: Text,
    target: Text,
    events: Seq<EventModel>,
    sessions: Seq<u128>,
    n: nat,
)
    requires
        sessions.len() == events.len(),
        n <= events.len(),
        state_at(source, target, events, sessions, n).1 matches ActionModel::Fail(failure)
            && failure.stage != Stage::SaveCheckpoints,
    ensures
        writes_in_batch(source, target, events, sessions, n) == 0,
{
    let decision = decision_at(source, target, events, sessions, n);
    lemma_addressed(source, target, decision);
    if n > 0 {
        let before = state_at(source, target, events, sessions, (n - 1) as nat);
        lemma_batch_writes_at_its_end(source, target, events, sessions, (n - 1) as nat);
        lemma_decision_follows(before.0, events[n - 1], sessions[n - 1]);
        if !(decision.1 is LoadCheckpoints) {
            assert(before_checkpoint(before.0));
        }
    }
}

/// The requests of an action.
pub open spec fn requests_of(action: ActionModel) -> Seq<RequestModel> {
    match action {
        ActionModel::Identify {
            source_server,
            target_server,
            source_database,
            target_database,
        } => seq![source_server, target_server, source_database, target_database],
        ActionModel::LoadCheckpoints { source, target } => seq![source, target],
        ActionModel::ReadChanges(request) => seq![request],
        ActionModel::Compare(request) => seq![request],
        ActionModel::Fetch(request) => seq![request],
        ActionModel::Install(request) => seq![request],
        ActionModel::SaveCheckpoints { source, target } => seq![source, target],
        ActionModel::Finish => seq![],
        ActionModel::Fail(_) => seq![],
        ActionModel::Refuse => seq![],
    }
}

/// Whether each request of an action carries what its kind of action
/// sends: nothing where it reads, the checkpoint where it writes one, and
/// documents to install only where it installs.
pub open spec fn well_laden(action: ActionModel) -> bool {
    match action {
        ActionModel::Identify {
            source_server,
            target_server,
            source_database,
            target_database,
        } => {
            &&& source_server.body is Empty
            &&& target_server.body is Empty
            &&& source_database.body is Empty
            &&& target_database.body is Empty
        },
        ActionModel::LoadCheckpoints { source, target } => {
            &&& source.body is Empty
            &&& target.body is Empty
        },
        ActionModel::ReadChanges(request) => request.body is Empty,
        ActionModel::Compare(request) => request.body is Revs,
        ActionModel::Fetch(request) => request.body is Docs,
        ActionModel::Install(request) => request.body is Install,
        ActionModel::SaveCheckpoints { source, target } => {
            &&& source.body is Log
            &&& target.body is Log
        },
        _ => true,
    }
}

/// Every action that carries an intent out is laden as its kind asks.
pub proof fn lemma_requests_are_well_laden(source: Text, target: Text, intent: IntentModel)
    ensures
        requests_for(source, target, intent) matches Ok(action) ==> well_laden(action),
{
}

/// Every step asks for requests that carry what its kind of action sends,
/// and it installs only as it comes to wait for the acknowledgement.
pub proof fn lemma_step_is_well_laden(
    source: Text,
    target: Text,
    phase: PhaseModel,
    event: EventModel,
    session_id: u128,
)
    ensures
        well_laden(next(source, target, phase, event, session_id).1),
        next(source, target, phase, event, session_id).1 is Install ==> next(
            source,
            target,
            phase,
            event,
            session_id,
        ).0 is Installing,
{
    let decision = decided(phase, event, session_id);
    lemma_decision_follows(phase, event, session_id);
    lemma_addressed(source, target, decision);
    lemma_requests_are_well_laden(source, target, decision.1);
}

/// Whatever the replies, every request of a step that carries documents to
/// install is the request of an installing action: it carries all the
/// documents that the source has just handed out, each as it came, with
/// the order to keep their revisions.
pub proof fn lemma_step_installs_verbatim(
    source: Text,
    target: Text,
    phase: PhaseModel,
    event: EventModel,
    session_id: u128,
    i: int,
)
    requires
        0 <= i < requests_of(next(source, target, phase, event, session_id).1).len(),
        requests_of(next(source, target, phase, event, session_id).1)[i].body is Install,
    ensures
        docs_in(event) is Some,
        installs(
            next(source, target, phase, event, session_id).1,
            target,
            delivered(docs_in(event)->0),
        ),
        requests_of(next(source, target, phase, event, session_id).1)[i].body
            == BodyModel::Install(installing(delivered(docs_in(event)->0))),
{
    let out = next(source, target, phase, event, session_id);
    lemma_step_is_well_laden(source, target, phase, event, session_id);
    assert(out.1 is Install);
    assert(i == 0);
    lemma_step_installs_what_was_delivered(source, target, phase, event, session_id);
}

/// A batch that follows another reads the changes feed from where the one
/// before it ended: after checkpoints are written at a sequence and the
/// source is not drained, the next step that reads changes reads them from
/// after that sequence.
pub proof fn lemma_next_batch_reads_on(
    source: Text,
    target: Text,
    phase: PhaseModel,
    saved: EventModel,
    loaded: EventModel,
    first: u128,
    second: u128,
)
    requires
        phase is SavingCheckpoints,
        next(source, target, phase, saved, first).0 is LoadingCheckpoints,
        next(
            source,
            target,
            next(source, target, phase, saved, first).0,
            loaded,
            second,
        ).1 is ReadChanges,
    ensures
        Ok::<RequestModel, ErrorModel>(
            next(
                source,
                target,
                next(source, target, phase, saved, first).0,
                loaded,
                second,
            ).1->ReadChanges_0,
        ) == request_to(
            changes_address(source, Some(phase->SavingCheckpoints_last_seq)),
            source,
            Method::Get,
            BodyModel::Empty,
        ),
{
    let begun = decided(phase, saved, first);
    lemma_addressed(source, target, begun);
    lemma_decision_follows(phase, saved, first);
    let loading = next(source, target, phase, saved, first).0;
    let read = decided(loading, loaded, second);
    lemma_addressed(source, target, read);
    lemma_decision_follows(loading, loaded, second);
}

/// The revisions that the target lacks are installed or the batch fails:
/// after the target's answer that it lacks some, whatever comes next either
/// ends the run as failed, or installs documents among which each revision
/// that the target lacks has one that answers it.
pub proof fn lemma_missing_revisions_are_installed_or_the_batch_fails(
    source: Text,
    target: Text,
    phase: PhaseModel,
    compared: EventModel,
    fetched: EventModel,
    first: u128,
    second: u128,
)
    requires
        phase is Comparing,
        diff_in(compared) is Some,
        wanted(diff_in(compared)->0).len() > 0,
    ensures
        ({
            let asked = next(source, target, phase, compared, first);
            let got = next(source, target, asked.0, fetched, second);
            if got.1 is Install {
                &&& docs_in(fetched) is Some
                &&& installs(got.1, target, delivered(docs_in(fetched)->0))
                &&& covers(wanted(diff_in(compared)->0), delivered(docs_in(fetched)->0))
            } else {
                &&& got.0 is Failed
                &&& !(asked.1 is SaveCheckpoints)
                &&& !(got.1 is SaveCheckpoints)
            }
        }),
{
    let asked = next(source, target, phase, compared, first);
    let got = next(source, target, asked.0, fetched, second);
    lemma_decision_follows(phase, compared, first);
    lemma_addressed(source, target, decided(phase, compared, first));
    lemma_decision_follows(asked.0, fetched, second);
    lemma_addressed(source, target, decided(asked.0, fetched, second));
    lemma_step_is_well_laden(source, target, asked.0, fetched, second);
    if asked.0 is Fetching {
        lemma_step_fetches_what_is_missing(source, target, phase, compared, first);
    }
    if got.1 is Install {
        lemma_step_installs_what_was_delivered(source, target, asked.0, fetched, second);
    }
}

/// The batch of changes, where an event is the source's answer with one.
pub open spec fn changes_in(event: EventModel) -> Option<ChangesModel> {
    match event {
        EventModel::Changes(reply) => match value_of(reply, STATUS_OK) {
            Ok(changes) => Some(changes),
            Err(_) => None,
        },
        _ => None,
    }
}

/// The sequence that a phase of a batch has reached, once the batch has
/// read its changes.
pub open spec fn reached(phase: PhaseModel) -> Option<Text> {
    match phase {
        PhaseModel::Comparing { last_seq, .. } => Some(last_seq),
        PhaseModel::Fetching { last_seq, .. } => Some(last_seq),
        PhaseModel::Installing { last_seq, .. } => Some(last_seq),
        PhaseModel::SavingCheckpoints { last_seq, .. } => Some(last_seq),
        _ => None,
    }
}

/// The checkpoints that an action writes, the source's first.
pub open spec fn checkpoints_of(action: ActionModel) -> Option<(LogModel, LogModel)> {
    match action {
        ActionModel::SaveCheckpoints { source, target } => match (source.body, target.body) {
            (BodyModel::Log(source_log), BodyModel::Log(target_log)) => Some(
                (source_log, target_log),
            ),
            _ => None,
        },
        _ => None,
    }
}

/// A step that does not read changes keeps the sequence that the batch has
/// reached, a step that reads them reaches the last sequence of what it
/// read, and the checkpoints that a step writes record the sequence
/// reached.
pub proof fn lemma_step_keeps_the_sequence(
    source: Text,
    target: Text,
    phase: PhaseModel,
    event: EventModel,
    session_id: u128,
)
    ensures
        ({
            let out = next(source, target, phase, event, session_id);
            &&& reached(out.0) is Some ==> if phase is ReadingChanges {
                changes_in(event) is Some && reached(out.0) == Some(changes_in(event)->0.last_seq)
            } else {
                reached(out.0) == reached(phase)
            }
            &&& out.1 is SaveCheckpoints ==> {
                &&& reached(out.0) is Some
                &&& checkpoints_of(out.1) matches Some(written)
                &&& (written.0).source_last_seq == reached(out.0)
                &&& (written.1).source_last_seq == reached(out.0)
            }
        }),
{
    let decision = decided(phase, event, session_id);
    lemma_addressed(source, target, decision);
    lemma_decision_follows(phase, event, session_id);
}

/// In every run, the checkpoints written record the last sequence of the
/// batch of changes that was read before them: the batch read two events
/// earlier where the target lacked nothing, and four events earlier where
/// documents were installed.
pub proof fn lemma_checkpoint_records_the_batch(
    source: Text,
    target: Text,
    events: Seq<EventModel>,
    sessions: Seq<u128>,
    n: nat,
)
    requires
        sessions.len() == events.len(),
        n <= events.len(),
        state_at(source, target, events, sessions, n).1 is SaveCheckpoints,
    ensures
        ({
            let back: nat = if diff_in(events[n - 1]) is Some {
                2
            } else {
                4
            };
            &&& n >= back
            &&& changes_in(events[n - back]) matches Some(changes)
            &&& checkpoints_of(state_at(source, target, events, sessions, n).1) matches Some(
                written,
            )
            &&& (written.0).source_last_seq == Some(changes.last_seq)
            &&& (written.1).source_last_seq == Some(changes.last_seq)
        }),
{
    lemma_checkpoint_follows_installation(source, target, events, sessions, n);
    let s1 = state_at(source, target, events, sessions, (n - 1) as nat);
    lemma_step_keeps_the_sequence(source, target, s1.0, events[n - 1], sessions[n - 1]);
    lemma_step_writes_after_installation(source, target, s1.0, events[n - 1], sessions[n - 1]);
    let s2 = state_at(source, target, events, sessions, (n - 2) as nat);
    lemma_step_keeps_the_sequence(source, target, s2.0, events[n - 2], sessions[n - 2]);
    lemma_decision_follows(s2.0, events[n - 2], sessions[n - 2]);
    lemma_addressed(source, target, decided(s2.0, events[n - 2], sessions[n - 2]));
    if diff_in(events[n - 1]) is None {
        let s3 = state_at(source, target, events, sessions, (n - 3) as nat);
        lemma_step_keeps_the_sequence(source, target, s3.0, events[n - 3], sessions[n - 3]);
        lemma_decision_follows(s3.0, events[n - 3], sessions[n - 3]);
        lemma_addressed(source, target, decided(s3.0, events[n - 3], sessions[n - 3]));
        let s4 = state_at(source, target, events, sessions, (n - 4) as nat);
        lemma_step_keeps_the_sequence(source, target, s4.0, events[n - 4], sessions[n - 4]);
        lemma_decision_follows(s4.0, events[n - 4], sessions[n - 4]);
        lemma_addressed(source, target, decided(s4.0, events[n - 4], sessions[n - 4]));
    }
}

} // verus!
