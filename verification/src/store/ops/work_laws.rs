//! What recording a worker's work promises.
//!
//! Each law speaks of one operation by what its caller handed in and what comes out: the event that is
//! appended, the rows that are written and what is answered.
use vstd::prelude::*;
use crate::digest::hex_text;
use crate::domain::artifact::ArtifactView;
use crate::domain::conflict::Conflict;
use crate::domain::fence::{EventSeq, SourceView, Timestamp};
use crate::domain::id::{EventId, ObligationId, TurnId};
use crate::domain::obligation::{
    Applied, ObligationEventView, ObligationMachine, ObligationView, OutcomeView, ReceiptsView,
};
use crate::store::codec::{hex32_round_trips, hex_byte};
use crate::store::error::{MismatchView, StoreError};
use crate::store::event::{row_event, Appended, EventView, LedgerView, RawEvent};
use crate::store::event_kind::{kind_round_trips, EventKind};
use crate::store::grammar::MetaValue;
use crate::store::labels::{
    actor_class_label, obligation_state_named, obligation_state_round_trips, retention_named,
    retention_round_trips, turn_lifecycle_named, turn_lifecycle_round_trips, ActorClass,
    RetentionLabel, TurnLifecycle,
};
use crate::store::load::artifact::{artifact_of, ArtifactRow};
use crate::store::load::obligation::{identity_of, LoadedView, ObligationIdentity};
use crate::store::ops::decide::DecidedView;
use crate::store::ops::replayed::appended_as;
use crate::store::ops::worker::{
    ArtifactInsertView, CancelObligation, FailureRows, ObligationAdvanced, PublishWorkerResult,
    RecordWorkerFailure, RecordWorkerStarted, TurnUpdate,
};
use crate::store::ops::TransitionRows;
use crate::store::replay::{turn_compared, ObligationRecord};

verus! {

// --- The event -------------------------------------------------------------------------------------------

/// Whether an event records something about an obligation's work: it is filed under the obligation, its
/// task and its turn, and observed at an instant, from a source.
pub open spec fn records_work(
    event: EventView,
    id: EventId,
    kind: EventKind,
    source: SourceView,
    at: Timestamp,
    identity: ObligationIdentity,
    obligation: ObligationId,
) -> bool {
    &&& event.event_id == id
    &&& event.kind == kind
    &&& event.source == source
    &&& event.observed_at == at
    &&& event.occurred_at is None
    &&& event.scope.task == Some(identity.task)
    &&& event.scope.turn == identity.turn
    &&& event.scope.obligation == Some(obligation)
    &&& event.scope.project is None
    &&& event.scope.session is None
    &&& event.scope.incarnation is None
}

/// Whether a document holds a field under a key.
pub open spec fn says(event: EventView, key: Seq<char>, value: MetaValue) -> bool {
    event.metadata.contains((key, value))
}

/// What a worker did is recorded under the caller's own source, about the obligation that was named:
/// a start with its incarnation, a failure with its class too, a publication with the run it proved and
/// the artifact it published, and a cancellation with nothing more.
pub proof fn what_a_worker_did_is_recorded_as_it_was_told(
    started: RecordWorkerStarted,
    failed: RecordWorkerFailure,
    published: PublishWorkerResult,
    cancelled: CancelObligation,
    identity: ObligationIdentity,
    run_ref: Seq<char>,
)
    ensures
        started.started_event(identity) matches Ok(event) ==> {
            &&& records_work(
                event,
                started.event,
                EventKind::WorkerStarted,
                started.request.source@,
                started.now,
                identity,
                started.request.obligation,
            )
            &&& says(event, "incarnation"@, MetaValue::Int(started.request.incarnation as int))
        },
        failed.failed_event(identity) matches Ok(event) ==> {
            &&& records_work(
                event,
                failed.event,
                EventKind::WorkerFailed,
                failed.request.source@,
                failed.now,
                identity,
                failed.request.obligation,
            )
            &&& says(event, "incarnation"@, MetaValue::Int(failed.request.incarnation as int))
        },
        published.published_event(identity, run_ref) matches Ok(event) ==> {
            &&& records_work(
                event,
                published.event,
                EventKind::ResultPublished,
                published.request.source@,
                published.now,
                identity,
                published.request.obligation,
            )
            &&& says(event, "incarnation"@, MetaValue::Int(published.request.incarnation as int))
            &&& says(event, "run_ref"@, MetaValue::Text(run_ref))
            &&& says(
                event,
                "artifact_id"@,
                MetaValue::Text(crate::domain::id::canonical_text(published.artifact.value)),
            )
        },
        records_work(
            cancelled.cancelled_event(identity),
            cancelled.event,
            EventKind::ObligationCancelledByUser,
            cancelled.request.source@,
            cancelled.now,
            identity,
            cancelled.request.obligation,
        ),
{
    if let Ok(event) = started.started_event(identity) {
        assert(event.metadata[0].0 == "incarnation"@);
    }
    if let Ok(event) = failed.failed_event(identity) {
        assert(event.metadata[0].0 == "incarnation"@);
    }
    if let Ok(event) = published.published_event(identity, run_ref) {
        assert(event.metadata[0].0 == "incarnation"@);
        assert(event.metadata[1].0 == "run_ref"@);
        assert(event.metadata[2].0 == "artifact_id"@);
    }
}

// --- The transition --------------------------------------------------------------------------------------

/// Whether transition rows move an obligation from one projection to another at an event: both rows
/// carry the new state, version, claim and generation, the event row says where it came from, and the
/// source fact is the one it now stands on.
pub open spec fn writes_the_move(
    rows: TransitionRows,
    before: ObligationView,
    after: ObligationView,
    seq: EventSeq,
    source_seq: EventSeq,
    actor: ActorClass,
) -> bool {
    &&& rows.obligation.obligation_id == after.id
    &&& obligation_state_named(rows.obligation.state@) == Some(after.state)
    &&& rows.obligation.current_version == after.version
    &&& rows.obligation.current_claim_id == after.claim
    &&& rows.obligation.result_artifact_id == after.result_artifact
    &&& rows.obligation.input_request_id == after.input_request
    &&& rows.obligation.incarnation_generation == after.incarnation
    &&& rows.obligation.source_event_seq == source_seq
    &&& rows.obligation.latest_event_seq == seq
    &&& rows.obligation.closed_event_seq == (if after.state.closed() {
        Some(seq as i64)
    } else {
        None
    })
    &&& match after.binding_generation {
        Some(generation) => rows.obligation.current_binding_generation == Some(generation as i64)
            && generation <= i64::MAX,
        None => rows.obligation.current_binding_generation is None,
    }
    &&& rows.event.obligation_id == after.id
    &&& rows.event.obligation_version == after.version
    &&& rows.event.event_seq == seq
    &&& rows.event.from_state is Some && obligation_state_named(rows.event.from_state->0@) == Some(
        before.state,
    )
    &&& obligation_state_named(rows.event.to_state@) == Some(after.state)
    &&& rows.event.actor_class == actor_class_label(actor)
    &&& rows.event.binding_generation == rows.obligation.current_binding_generation
    &&& rows.event.claim_id == after.claim
    &&& rows.retention == after.result_artifact
}

/// Whether every counter of a transition fits its column.
pub open spec fn fits(after: ObligationView, seq: EventSeq, source_seq: EventSeq) -> bool {
    &&& seq <= i64::MAX
    &&& source_seq <= i64::MAX
    &&& after.version <= i64::MAX
    &&& after.incarnation <= i64::MAX
    &&& after.binding_generation is Some ==> after.binding_generation->0 <= i64::MAX
}

/// The rows of a transition are the obligation it leads to, with where it came from and who moved it.
pub proof fn a_transition_writes_the_move(
    before: ObligationView,
    after: ObligationView,
    seq: EventSeq,
    source_seq: EventSeq,
    actor: ActorClass,
    disposition: Option<crate::domain::obligation::Disposition>,
)
    ensures
        crate::store::ops::transition_rows(before, after, seq, source_seq, actor, disposition) matches Ok(
            rows,
        ) ==> writes_the_move(rows, before, after, seq, source_seq, actor),
        crate::store::ops::transition_rows(before, after, seq, source_seq, actor, disposition) is Ok
            <==> fits(after, seq, source_seq),
{
    obligation_state_round_trips(before.state);
    obligation_state_round_trips(after.state);
}

/// Whether an answer reports an obligation as it stands.
pub open spec fn reports(answer: ObligationAdvanced, obligation: ObligationView, duplicate: bool) -> bool {
    &&& answer.obligation == obligation.id
    &&& answer.state == obligation.state
    &&& answer.version == obligation.version
    &&& answer.duplicate == duplicate
}

/// What is left of an obligation by a machine's answer: the next one, or the same for a duplicate.
pub open spec fn left_by(applied: Applied<ObligationView>, before: ObligationView, after: ObligationView) -> bool {
    match applied {
        Applied::Advanced(next) => after == next,
        Applied::Duplicate => after == before,
    }
}

/// A start moves the obligation as the machine says when it hears of a start of that incarnation from
/// that source at that instant; a refusal is the machine's own; and a source the ledger holds already
/// changes nothing.
pub proof fn a_start_moves_the_obligation(
    op: RecordWorkerStarted,
    loaded: LoadedView,
    seq: EventSeq,
    machine: ObligationMachine,
    after: ObligationView,
)
    ensures
        match machine(
            loaded.projection,
            ObligationEventView::WorkerStarted {
                source: op.request.source@,
                incarnation: op.request.incarnation,
                at: op.now,
            },
        ) {
            Err(conflict) => op.committed(loaded, Appended::Inserted(seq), machine) matches Err(e) && e
                == StoreError::Conflict(conflict),
            Ok(applied) => left_by(applied, loaded.projection, after) ==> (op.committed(
                loaded,
                Appended::Inserted(seq),
                machine,
            ) is Ok <==> fits(after, seq, seq)) && (op.committed(
                loaded,
                Appended::Inserted(seq),
                machine,
            ) matches Ok(done) ==> {
                &&& done.rows matches Some(rows)
                &&& writes_the_move(rows, loaded.projection, after, seq, seq, ActorClass::Worker)
                &&& rows.event.disposition is None
                &&& reports(done.output, after, false)
            }),
        },
        op.committed(loaded, Appended::Duplicate(seq), machine) matches Ok(done) && done.rows is None
            && reports(done.output, loaded.projection, true),
{
    a_transition_writes_the_move(loaded.projection, after, seq, seq, ActorClass::Worker, None);
}

/// Whether a turn row ends a turn in a lifecycle, at an event.
pub open spec fn ends_the_turn(
    row: TurnUpdate,
    turn: TurnId,
    lifecycle: TurnLifecycle,
    seq: EventSeq,
) -> bool {
    &&& row.turn_id == turn
    &&& turn_lifecycle_named(row.lifecycle_state@) == Some(lifecycle)
    &&& row.terminal_event_seq == seq
    &&& row.latest_event_seq == seq
}

/// A failure moves the obligation as the machine says when it hears of that failure, and ends its turn
/// as failed; an obligation without a turn ends none.
pub proof fn a_failure_fails_the_turn(
    op: RecordWorkerFailure,
    loaded: LoadedView,
    seq: EventSeq,
    machine: ObligationMachine,
    after: ObligationView,
)
    ensures
        match machine(
            loaded.projection,
            ObligationEventView::WorkerFailed {
                source: op.request.source@,
                incarnation: op.request.incarnation,
                failure: op.request.failure,
                at: op.now,
            },
        ) {
            Err(conflict) => op.committed(loaded, Appended::Inserted(seq), machine) matches Err(e) && e
                == StoreError::Conflict(conflict),
            Ok(applied) => left_by(applied, loaded.projection, after) ==> (op.committed(
                loaded,
                Appended::Inserted(seq),
                machine,
            ) is Ok <==> fits(after, seq, seq)) && (op.committed(
                loaded,
                Appended::Inserted(seq),
                machine,
            ) matches Ok(done) ==> {
                &&& done.rows matches Some(rows)
                &&& writes_the_move(
                    rows.transition,
                    loaded.projection,
                    after,
                    seq,
                    seq,
                    ActorClass::Worker,
                )
                &&& rows.transition.event.disposition is None
                &&& match loaded.identity.turn {
                    Some(turn) => rows.turn is Some && ends_the_turn(
                        rows.turn->0,
                        turn,
                        TurnLifecycle::Failed,
                        seq,
                    ),
                    None => rows.turn is None,
                }
                &&& reports(done.output, after, false)
            }),
        },
        op.committed(loaded, Appended::Duplicate(seq), machine) matches Ok(done) && done.rows is None
            && reports(done.output, loaded.projection, true),
{
    a_transition_writes_the_move(loaded.projection, after, seq, seq, ActorClass::Worker, None);
    turn_lifecycle_round_trips(TurnLifecycle::Failed);
}

/// Whether an artifact row is that of the bytes a publication brought, under the identity it minted.
pub open spec fn records_the_bytes(row: ArtifactInsertView, op: PublishWorkerResult, loaded: LoadedView, seq: EventSeq) -> bool {
    let (storage_ref, digest, byte_len, media_type) = op.request.artifact.parts();
    &&& row.result_artifact_id == op.artifact
    &&& row.task_id == loaded.identity.task
    &&& loaded.identity.turn == Some(row.turn_id)
    &&& row.source_event_seq == seq
    &&& row.storage_ref == storage_ref@
    &&& row.sha256_hex == hex_text(digest@)
    &&& row.byte_len == byte_len
    &&& row.media_type == media_type@
    &&& row.created_at_ms == op.now
    &&& retention_named(row.retention_state@) == Some(RetentionLabel::Eligible)
}

/// A publication completes the turn: it writes the artifact of the bytes that were made durable, ends
/// the turn as completed, and moves the obligation as the machine says when it hears of that result. An
/// obligation without a turn has nothing to publish.
pub proof fn a_publication_completes_the_turn(
    op: PublishWorkerResult,
    loaded: LoadedView,
    run_ref: Seq<char>,
    seq: EventSeq,
    machine: ObligationMachine,
    after: ObligationView,
)
    ensures
        op.committed(loaded, run_ref, Appended::Inserted(seq), machine) matches Ok(done) ==> {
            &&& machine(
                loaded.projection,
                ObligationEventView::ResultPublished {
                    source: op.request.source@,
                    incarnation: op.request.incarnation,
                    run_ref,
                    artifact: op.artifact,
                    at: op.now,
                },
            ) matches Ok(applied)
            &&& left_by(applied, loaded.projection, after) ==> {
                &&& done.0 matches Some((artifact, turn, transition))
                &&& records_the_bytes(artifact, op, loaded, seq)
                &&& turn matches Some(ended)
                &&& loaded.identity.turn == Some(ended.turn_id)
                &&& ends_the_turn(ended, ended.turn_id, TurnLifecycle::Completed, seq)
                &&& writes_the_move(transition, loaded.projection, after, seq, seq, ActorClass::Worker)
                &&& transition.event.disposition is None
                &&& reports(done.1.obligation, after, false)
            }
            &&& done.1.artifact == op.artifact
        },
        op.committed(loaded, run_ref, Appended::Duplicate(seq), machine) matches Ok(done) ==> {
            &&& done.0 is None
            &&& reports(done.1.obligation, loaded.projection, true)
            &&& Some(done.1.artifact) == loaded.projection.result_artifact
        },
        loaded.identity.turn is None ==> op.committed(loaded, run_ref, Appended::Inserted(seq), machine)
            is Err,
{
    a_transition_writes_the_move(loaded.projection, after, seq, seq, ActorClass::Worker, None);
    turn_lifecycle_round_trips(TurnLifecycle::Completed);
    retention_round_trips(RetentionLabel::Eligible);
}

/// A publication whose columns can be stored succeeds wherever the machine accepts it, and the
/// machine's refusal is its answer.
pub proof fn a_publication_fails_as_the_machine_does(
    op: PublishWorkerResult,
    loaded: LoadedView,
    run_ref: Seq<char>,
    seq: EventSeq,
    machine: ObligationMachine,
)
    requires
        loaded.identity.turn is Some,
        seq <= i64::MAX,
        op.request.artifact.parts().2 <= i64::MAX,
    ensures
        machine(
            loaded.projection,
            ObligationEventView::ResultPublished {
                source: op.request.source@,
                incarnation: op.request.incarnation,
                run_ref,
                artifact: op.artifact,
                at: op.now,
            },
        ) matches Err(conflict) ==> (op.committed(
            loaded,
            run_ref,
            Appended::Inserted(seq),
            machine,
        ) matches Err(e) && e == StoreError::Conflict(conflict)),
{
}

/// The receipts decide: a publication goes ahead with the run they prove, and only with that one.
pub proof fn a_publication_names_the_run_that_was_proved(
    op: PublishWorkerResult,
    loaded: LoadedView,
    model: spec_fn(ReceiptsView) -> OutcomeView,
)
    ensures
        op.decided(Ok(loaded), model) matches Ok((run_ref, work, event)) ==> {
            &&& model(op.request.receipts@) == (OutcomeView::ConfirmedCompletion { run_ref })
            &&& work == loaded
            &&& says(event, "run_ref"@, MetaValue::Text(run_ref))
            &&& event.scope.obligation == Some(op.request.obligation)
        },
        model(op.request.receipts@) matches OutcomeView::ConfirmedCompletion { run_ref }
            ==> op.request.incarnation <= i64::MAX ==> op.decided(Ok(loaded), model) is Ok,
{
    if let Ok((run_ref, work, event)) = op.decided(Ok(loaded), model) {
        assert(event.metadata[1].0 == "run_ref"@);
    }
}

/// A cancellation is decided by the machine alone, when it hears of a cancellation from that source at
/// that instant: refused, already so, or an event about that obligation and the move it makes.
pub proof fn a_cancellation_is_the_machines_to_allow(
    op: CancelObligation,
    loaded: LoadedView,
    machine: ObligationMachine,
    seq: EventSeq,
)
    ensures
        match machine(
            loaded.projection,
            ObligationEventView::CancelledByUser { source: op.request.source@, at: op.now },
        ) {
            Err(conflict) => op.decided(Ok(loaded), machine) matches Err(e) && e == StoreError::Conflict(
                conflict,
            ),
            Ok(Applied::Duplicate) => op.decided(Ok(loaded), machine) matches Ok(DecidedView::Settled(answer))
                && reports(answer, loaded.projection, true),
            Ok(Applied::Advanced(after)) => {
                &&& op.decided(Ok(loaded), machine) matches Ok(DecidedView::Appends { event, plan })
                &&& event.source == op.request.source@
                &&& event.scope.obligation == Some(op.request.obligation)
                &&& plan == (loaded, after)
                &&& CancelObligation::committed(
                    loaded.projection,
                    after,
                    Appended::Inserted(seq),
                ) matches Ok(done) ==> {
                    &&& done.rows matches Some(rows)
                    &&& writes_the_move(rows, loaded.projection, after, seq, seq, ActorClass::User)
                    &&& rows.event.disposition is None
                    &&& reports(done.output, after, false)
                }
                &&& CancelObligation::committed(
                    loaded.projection,
                    after,
                    Appended::Duplicate(seq),
                ) matches Ok(done) && done.rows is None && reports(
                    done.output,
                    loaded.projection,
                    true,
                )
            },
        },
{
    if let Ok(Applied::Advanced(after)) = machine(
        loaded.projection,
        ObligationEventView::CancelledByUser { source: op.request.source@, at: op.now },
    ) {
        a_transition_writes_the_move(loaded.projection, after, seq, seq, ActorClass::User, None);
    }
}

// --- The turn and the artifact, read again ---------------------------------------------------------------

/// A turn that a publication ended agrees with the ledger: once its row is overwritten and the event is
/// the last of the obligation's slice, comparing turns finds nothing.
pub proof fn a_completed_turn_agrees_with_the_ledger(
    op: PublishWorkerResult,
    loaded: LoadedView,
    run_ref: Seq<char>,
    event: EventView,
    row: RawEvent,
    seq: EventSeq,
    machine: ObligationMachine,
    rows: (ArtifactInsertView, Option<TurnUpdate>, TransitionRows),
    slice: Seq<LedgerView>,
    record: ObligationRecord,
    label: String,
)
    requires
        op.published_event(loaded.identity, run_ref) == Ok::<EventView, StoreError>(event),
        appended_as(row, event, seq),
        op.committed(loaded, run_ref, Appended::Inserted(seq), machine) matches Ok(done) && done.0 == Some(
            rows,
        ),
        identity_of(record.identity) == Ok::<ObligationIdentity, StoreError>(loaded.identity),
        record.lifecycle == Ok::<String, String>(label),
        rows.1 matches Some(turn) ==> label@ == turn.lifecycle_state@,
    ensures
        rows.1 is Some,
        turn_compared(record, slice.push(row_event(row))) == Ok::<Seq<MismatchView>, StoreError>(
            Seq::empty(),
        ),
{
    turn_lifecycle_round_trips(TurnLifecycle::Completed);
    kind_round_trips(EventKind::ResultPublished);
    assert(slice.push(row_event(row)).last() == row_event(row));
    assert(row_event(row).kind == EventKind::ResultPublished);
}

/// A turn that a failure ended agrees with the ledger.
pub proof fn a_failed_turn_agrees_with_the_ledger(
    op: RecordWorkerFailure,
    loaded: LoadedView,
    event: EventView,
    row: RawEvent,
    seq: EventSeq,
    machine: ObligationMachine,
    rows: FailureRows,
    slice: Seq<LedgerView>,
    record: ObligationRecord,
    label: String,
)
    requires
        op.failed_event(loaded.identity) == Ok::<EventView, StoreError>(event),
        appended_as(row, event, seq),
        op.committed(loaded, Appended::Inserted(seq), machine) matches Ok(done) && done.rows == Some(rows),
        identity_of(record.identity) == Ok::<ObligationIdentity, StoreError>(loaded.identity),
        record.lifecycle == Ok::<String, String>(label),
        rows.turn matches Some(turn) ==> label@ == turn.lifecycle_state@,
    ensures
        loaded.identity.turn is Some <==> rows.turn is Some,
        turn_compared(record, slice.push(row_event(row))) == Ok::<Seq<MismatchView>, StoreError>(
            Seq::empty(),
        ),
{
    turn_lifecycle_round_trips(TurnLifecycle::Failed);
    kind_round_trips(EventKind::WorkerFailed);
    assert(slice.push(row_event(row)).last() == row_event(row));
    assert(row_event(row).kind == EventKind::WorkerFailed);
}

/// Whether a `result_artifacts` row is the one a publication inserted.
pub open spec fn artifact_stored_as(row: ArtifactRow, inserted: ArtifactInsertView) -> bool {
    &&& row.storage_ref@ == inserted.storage_ref
    &&& row.sha256_hex@ == inserted.sha256_hex
    &&& row.byte_len == inserted.byte_len
    &&& row.created_at_ms == inserted.created_at_ms
}

/// A published artifact reads back as the bytes that were made durable: their key, their digest and
/// their length, under the identity the publication answered.
pub proof fn a_published_artifact_reads_back(
    op: PublishWorkerResult,
    loaded: LoadedView,
    run_ref: Seq<char>,
    seq: EventSeq,
    machine: ObligationMachine,
    row: ArtifactRow,
    rule: spec_fn(Seq<char>) -> bool,
)
    requires
        op.committed(loaded, run_ref, Appended::Inserted(seq), machine) matches Ok(done) && done.0 matches Some(
            (inserted, _, _),
        ) && artifact_stored_as(row, inserted),
        rule(op.request.artifact.parts().0@),
    ensures
        ({
            let (storage_ref, digest, byte_len, _) = op.request.artifact.parts();
            let answered = op.committed(loaded, run_ref, Appended::Inserted(seq), machine)->Ok_0.1;
            artifact_of(answered.artifact, Some(row), rule) == Ok::<ArtifactView, StoreError>(
                ArtifactView {
                    id: op.artifact,
                    storage_ref: storage_ref@,
                    digest: digest@,
                    byte_len,
                    created_at: op.now,
                },
            )
        }),
{
    let (_, digest, _, _) = op.request.artifact.parts();
    hex32_round_trips(digest@);
    assert(Seq::new(32, |k: int| hex_byte(hex_text(digest@), k) as u8) =~= digest@);
}

} // verus!
