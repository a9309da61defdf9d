//! What an operation writes, the ledger replays.
//!
//! Every operation does two things in one transaction: it appends an event, and it overwrites the
//! rows that follow from it. The laws here say that the two agree. The row of the appended event
//! decodes, folding it onto the obligation as it stood gives the very projection the operation
//! wrote, and comparing that projection with the overwritten columns finds nothing to report. A row
//! that was inserted beside the ledger reads back as what was inserted.
use vstd::prelude::*;
use crate::domain::binding::BindingEventView;
use crate::domain::claim::{ClaimState, ClaimView, MintedView};
use crate::domain::conflict::Conflict;
use crate::domain::delivery::{DeliveryEventView, DeliveryView, WakeModel, WakeView};
use crate::domain::fence::{BindingGeneration, DeliveryRevision, EventSeq, SourceView, Timestamp};
use crate::domain::health::{
    first_open, first_open_finds, has_open, resolved, HealthCondition, HealthConditionKind,
    HealthConditionState, HealthScope,
};
use crate::domain::id::{
    canonical_text, canonical_text_round_trips, EventId, ExternalAttemptId, ForemanBindingId,
    HealthConditionId, Id, ObligationId, TaskId,
};
use crate::domain::obligation::{
    settled, Applied, Disposition, ObligationEventView, ObligationKind, ObligationModel,
    ObligationState, ObligationView, OutcomeView,
};
use crate::domain::session::{LoadoutDigest, ManagedConfigRef, ResumePolicy, WhitelistDigest};
use crate::store::codec::text_view;
use crate::store::error::{MismatchView, StoreError};
use crate::store::event::{
    an_appended_event_reads_back, optional_text, row_event, row_fault, row_holds, Appended,
    EventView, LedgerView, RawEvent,
};
use crate::store::event_kind::kind_fields;
use crate::store::grammar::{distinct_keys, storable_value, MetaFields};
use crate::store::labels::{
    ambiguity_round_trips, claim_state_round_trips, disposition_round_trips,
    failure_class_round_trips, health_kind_round_trips, obligation_kind_round_trips,
    obligation_state_round_trips, worker_failure_round_trips, write_capability_round_trips,
    ActorClass, ClaimLifecycle,
};
use crate::store::load::binding::{bound_by, BindingRow};
use crate::store::load::delivery::{
    attempt_transition, attempts_folded, wake_of, SourceRow, WakeRow,
};
use crate::store::load::health::{
    folded_health_has_one_open_per_scope, health_folded, health_transition, scope_named,
    HealthTransition,
};
use crate::store::load::loadout::{
    a_recorded_launch_reads_back, launch_of, LaunchRow, ManagedConfigRecord, RecordView,
    SessionLoadoutRecord,
};
use crate::store::load::obligation::{
    advanced_by, completion_receipts, folded, identity_of, IdentityRow, LoadedView,
    ObligationIdentity,
};
use crate::store::ops::bootstrap::{
    BindForeman, BoundRow, ObligationRow, OpenWorkerTurn, OpeningStep, PerStep,
};
use crate::store::ops::claim::{
    claim_origin, claim_recorded, AcknowledgeObligation, ClaimInsertView, ClaimRow, DeliverHandoff,
    MintForemanClaim,
};
use crate::store::ops::delivery::{
    ArmDeliverySend, ClaimPlanView, CreateOrClaimDelivery, DeliveryInsertView, DeliveryOutcome,
    ReconcileAmbiguousDelivery, RecordDeliveryOutcome,
};
use crate::store::ops::health::{RaiseCondition, ResolveCondition};
use crate::store::ops::recovery::RecoverStartup;
use crate::store::ops::session::{
    LoadoutRowView, ManagedConfigView, RecordManagedConfig, ResolveWorkerLoadout,
    ResolveWorkerLoadoutRequest,
};
use crate::store::ops::worker::{
    moved, CancelObligation, PublishWorkerResult, RecordWorkerFailure, RecordWorkerStarted,
};
use crate::store::ops::{transition_rows, ObligationUpdate};
use crate::store::replay::{obligation_compared, StoredObligation};
use crate::store::safe_metadata::{a_listed_document_is_kept_whole, listed, lookup};

verus! {

// --- Reading a document back, field by field ---------------------------------------------------------

/// Each field of a document without repeated keys is what looking its key up finds.
proof fn a_field_is_found(fs: MetaFields, i: int)
    requires
        distinct_keys(fs),
        0 <= i < fs.len(),
    ensures
        lookup(fs, fs[i].0) == Some(fs[i].1),
    decreases fs.len(),
{
    if i > 0 {
        let rest = fs.drop_first();
        assert forall|a: int, b: int| 0 <= a < b < rest.len() implies (#[trigger] rest[a]).0 != (
        #[trigger] rest[b]).0 by {
            assert(rest[a] == fs[a + 1]);
            assert(rest[b] == fs[b + 1]);
        }
        a_field_is_found(rest, i - 1);
        assert(rest[i - 1] == fs[i]);
        assert(fs[0].0 != fs[i].0);
    }
}

/// Whether a row of the ledger holds an event, under the sequence it was given.
pub open spec fn appended_as(row: RawEvent, event: EventView, seq: EventSeq) -> bool {
    &&& seq <= i64::MAX
    &&& row_holds(row, event, seq as i64)
}

/// Whether a token rule allows the three parts of a source identity.
pub open spec fn source_allowed(source: SourceView, rule: spec_fn(Seq<char>) -> bool) -> bool {
    rule(source.0) && rule(source.1) && rule(source.2)
}

/// Whether a document has no key twice, only numbers that can be stored, and only keys its kind lists.
spec fn faithful(event: EventView) -> bool {
    &&& distinct_keys(event.metadata)
    &&& forall|i: int| 0 <= i < event.metadata.len() ==> storable_value((#[trigger] event.metadata[i]).1)
    &&& forall|i: int|
        0 <= i < event.metadata.len() ==> listed(
            kind_fields(event.kind),
            (#[trigger] event.metadata[i]).0,
        )
}

/// A faithful event decodes to itself, and each of its fields is found again.
proof fn a_faithful_event_reads_back(
    row: RawEvent,
    event: EventView,
    seq: EventSeq,
    rule: spec_fn(Seq<char>) -> bool,
)
    requires
        appended_as(row, event, seq),
        source_allowed(event.source, rule),
        faithful(event),
    ensures
        row_fault(row, rule) is None,
        row_event(row) == (LedgerView {
            seq,
            kind: event.kind,
            source: event.source,
            observed_at: event.observed_at,
            scope: event.scope,
            metadata: event.metadata,
        }),
        forall|i: int|
            0 <= i < event.metadata.len() ==> lookup(
                event.metadata,
                (#[trigger] event.metadata[i]).0,
            ) == Some(event.metadata[i].1),
{
    an_appended_event_reads_back(row, event, seq as i64, rule);
    a_listed_document_is_kept_whole(event.metadata, kind_fields(event.kind));
    assert forall|i: int| 0 <= i < event.metadata.len() implies lookup(
        event.metadata,
        (#[trigger] event.metadata[i]).0,
    ) == Some(event.metadata[i].1) by {
        a_field_is_found(event.metadata, i);
    }
}

// --- Folding a row, and comparing what was written ---------------------------------------------------

/// Whether a row decodes, and folding it onto an obligation gives `next`.
pub open spec fn replays_to(
    row: RawEvent,
    loaded: LoadedView,
    next: LoadedView,
    model: ObligationModel,
) -> bool {
    &&& row_fault(row, model.rule) is None
    &&& advanced_by(loaded, row_event(row), model) == Ok::<LoadedView, StoreError>(next)
}

/// An obligation that moved at a sequence, standing on a source fact.
pub open spec fn moved_on(
    loaded: LoadedView,
    after: ObligationView,
    seq: EventSeq,
    source_event_seq: EventSeq,
) -> LoadedView {
    LoadedView { projection: after, latest_event_seq: seq, source_event_seq, ..loaded }
}

/// Whether the columns of an `obligations` row are those a transition overwrote it with.
pub open spec fn stored_as(stored: StoredObligation, update: ObligationUpdate) -> bool {
    &&& stored.state@ == update.state@
    &&& stored.current_version == update.current_version
    &&& text_view(stored.current_claim_id) == optional_text(update.current_claim_id)
    &&& text_view(stored.result_artifact_id) == optional_text(update.result_artifact_id)
    &&& stored.source_event_seq == update.source_event_seq
}

/// Whether a row overwritten with `update` agrees with a replayed obligation in every column.
pub open spec fn agrees(update: ObligationUpdate, replayed: LoadedView) -> bool {
    forall|stored: StoredObligation| #[trigger]
        stored_as(stored, update) ==> obligation_compared(replayed.projection.id, stored, replayed)
            == Ok::<Seq<MismatchView>, StoreError>(Seq::empty())
}

/// The columns a transition overwrites agree with the obligation it leaves.
pub proof fn a_written_transition_agrees(
    before: ObligationView,
    next: LoadedView,
    actor: ActorClass,
    disposition: Option<Disposition>,
)
    ensures
        transition_rows(
            before,
            next.projection,
            next.latest_event_seq,
            next.source_event_seq,
            actor,
            disposition,
        ) matches Ok(rows) ==> agrees(rows.obligation, next),
{
    let found = transition_rows(
        before,
        next.projection,
        next.latest_event_seq,
        next.source_event_seq,
        actor,
        disposition,
    );
    if let Ok(rows) = found {
        assert forall|stored: StoredObligation| #[trigger]
            stored_as(stored, rows.obligation) implies obligation_compared(
            next.projection.id,
            stored,
            next,
        ) == Ok::<Seq<MismatchView>, StoreError>(Seq::empty()) by {
            obligation_state_round_trips(next.projection.state);
            assert(obligation_compared(next.projection.id, stored, next)->Ok_0 =~= Seq::empty());
        }
    }
}

/// Folding one more row extends the fold of a slice.
pub proof fn a_replayed_row_extends_the_fold(
    id: ObligationId,
    identity: ObligationIdentity,
    events: Seq<LedgerView>,
    row: RawEvent,
    loaded: LoadedView,
    next: LoadedView,
    model: ObligationModel,
)
    requires
        folded(id, identity, events, model) == Ok::<LoadedView, StoreError>(loaded),
        replays_to(row, loaded, next, model),
    ensures
        folded(id, identity, events.push(row_event(row)), model) == Ok::<LoadedView, StoreError>(next),
{
    assert(events.len() > 0);
    assert(events.push(row_event(row)).drop_last() =~= events);
}

// --- The work ------------------------------------------------------------------------------------------

/// A recorded start replays: its row gives the obligation the operation wrote, standing on the new
/// source fact, and the columns it overwrote agree with it.
pub proof fn a_recorded_start_replays(
    op: RecordWorkerStarted,
    loaded: LoadedView,
    event: EventView,
    row: RawEvent,
    seq: EventSeq,
    applied: Applied<ObligationView>,
    model: ObligationModel,
)
    requires
        op.started_event(loaded.identity) == Ok::<EventView, StoreError>(event),
        appended_as(row, event, seq),
        source_allowed(op.request.source@, model.rule),
        (model.apply)(loaded.projection, op.transition()) == Ok::<
            Applied<ObligationView>,
            Conflict,
        >(applied),
    ensures
        ({
            let next = moved_on(loaded, settled(applied, loaded.projection), seq, seq);
            &&& replays_to(row, loaded, next, model)
            &&& op.committed(loaded, Appended::Inserted(seq), model.apply) matches Ok(done) ==> {
                &&& done.rows matches Some(rows)
                &&& agrees(rows.obligation, next)
                &&& done.output == moved(next.projection)
            }
        }),
{
    let fs = event.metadata;
    assert(fs.len() == 1);
    assert(kind_fields(event.kind)[0]@ == fs[0].0);
    a_faithful_event_reads_back(row, event, seq, model.rule);
    assert(lookup(fs, fs[0].0) == Some(fs[0].1));
    let next = moved_on(loaded, settled(applied, loaded.projection), seq, seq);
    a_written_transition_agrees(
        loaded.projection,
        next,
        ActorClass::Worker,
        None,
    );
}

/// A recorded failure replays: its row gives the obligation the operation wrote, and the columns it
/// overwrote agree with it.
pub proof fn a_recorded_failure_replays(
    op: RecordWorkerFailure,
    loaded: LoadedView,
    event: EventView,
    row: RawEvent,
    seq: EventSeq,
    applied: Applied<ObligationView>,
    model: ObligationModel,
)
    requires
        op.failed_event(loaded.identity) == Ok::<EventView, StoreError>(event),
        appended_as(row, event, seq),
        source_allowed(op.request.source@, model.rule),
        (model.apply)(loaded.projection, op.transition()) == Ok::<Applied<ObligationView>, Conflict>(
            applied,
        ),
    ensures
        ({
            let next = moved_on(loaded, settled(applied, loaded.projection), seq, seq);
            &&& replays_to(row, loaded, next, model)
            &&& op.committed(loaded, Appended::Inserted(seq), model.apply) matches Ok(done) ==> {
                &&& done.rows matches Some(rows)
                &&& agrees(rows.transition.obligation, next)
                &&& done.output == moved(next.projection)
            }
        }),
{
    let fs = event.metadata;
    reveal_strlit("incarnation");
    reveal_strlit("failure_class");
    assert("incarnation"@.len() == 11 && "failure_class"@.len() == 13);
    assert(fs.len() == 2);
    assert(kind_fields(event.kind)[0]@ == fs[0].0);
    assert(kind_fields(event.kind)[1]@ == fs[1].0);
    a_faithful_event_reads_back(row, event, seq, model.rule);
    assert(lookup(fs, fs[0].0) == Some(fs[0].1));
    assert(lookup(fs, fs[1].0) == Some(fs[1].1));
    worker_failure_round_trips(op.request.failure);
    let next = moved_on(loaded, settled(applied, loaded.projection), seq, seq);
    a_written_transition_agrees(loaded.projection, next, ActorClass::Worker, None);
}

/// A published result replays, where the run it was confirmed for proves itself again: its row gives
/// the obligation the operation wrote, with the artifact it names, and the columns it overwrote agree
/// with it.
pub proof fn a_published_result_replays(
    op: PublishWorkerResult,
    loaded: LoadedView,
    run_ref: Seq<char>,
    event: EventView,
    row: RawEvent,
    seq: EventSeq,
    applied: Applied<ObligationView>,
    model: ObligationModel,
)
    requires
        op.published_event(loaded.identity, run_ref) == Ok::<EventView, StoreError>(event),
        appended_as(row, event, seq),
        source_allowed(op.request.source@, model.rule),
        (model.rule)(run_ref),
        (model.classify)(completion_receipts(run_ref)) == (OutcomeView::ConfirmedCompletion { run_ref }),
        (model.apply)(loaded.projection, op.transition(run_ref)) == Ok::<
            Applied<ObligationView>,
            Conflict,
        >(applied),
    ensures
        ({
            let next = moved_on(loaded, settled(applied, loaded.projection), seq, seq);
            &&& replays_to(row, loaded, next, model)
            &&& op.committed(loaded, run_ref, Appended::Inserted(seq), model.apply) matches Ok(done) ==> {
                &&& done.0 matches Some(rows)
                &&& agrees(rows.2.obligation, next)
                &&& done.1.obligation == moved(next.projection)
            }
        }),
{
    let fs = event.metadata;
    reveal_strlit("incarnation");
    reveal_strlit("run_ref");
    reveal_strlit("artifact_id");
    assert("incarnation"@.len() == 11 && "run_ref"@.len() == 7 && "artifact_id"@.len() == 11);
    assert("incarnation"@[0] != "artifact_id"@[0]);
    assert(fs.len() == 3);
    assert(kind_fields(event.kind)[0]@ == fs[0].0);
    assert(kind_fields(event.kind)[1]@ == fs[1].0);
    assert(kind_fields(event.kind)[2]@ == fs[2].0);
    a_faithful_event_reads_back(row, event, seq, model.rule);
    assert(lookup(fs, fs[0].0) == Some(fs[0].1));
    assert(lookup(fs, fs[1].0) == Some(fs[1].1));
    assert(lookup(fs, fs[2].0) == Some(fs[2].1));
    canonical_text_round_trips(op.artifact);
    let next = moved_on(loaded, settled(applied, loaded.projection), seq, seq);
    a_written_transition_agrees(loaded.projection, next, ActorClass::Worker, None);
}

/// A cancellation replays: its row gives the obligation the operation wrote, and the columns it
/// overwrote agree with it.
pub proof fn a_cancellation_replays(
    op: CancelObligation,
    loaded: LoadedView,
    row: RawEvent,
    seq: EventSeq,
    after: ObligationView,
    model: ObligationModel,
)
    requires
        appended_as(row, op.cancelled_event(loaded.identity), seq),
        source_allowed(op.request.source@, model.rule),
        (model.apply)(loaded.projection, op.transition()) == Ok::<Applied<ObligationView>, Conflict>(
            Applied::Advanced(after),
        ),
    ensures
        ({
            let next = moved_on(loaded, after, seq, seq);
            &&& replays_to(row, loaded, next, model)
            &&& CancelObligation::committed(loaded.projection, after, Appended::Inserted(seq)) matches Ok(
                done,
            ) ==> {
                &&& done.rows matches Some(rows)
                &&& agrees(rows.obligation, next)
                &&& done.output == moved(after)
            }
        }),
{
    let event = op.cancelled_event(loaded.identity);
    a_faithful_event_reads_back(row, event, seq, model.rule);
    a_written_transition_agrees(
        loaded.projection,
        moved_on(loaded, after, seq, seq),
        ActorClass::User,
        None,
    );
}

// --- The claim -----------------------------------------------------------------------------------------

proof fn the_fences_are_found(fs: MetaFields)
    requires
        fs.len() >= 3,
        fs[0].0 == "claim_id"@,
        fs[1].0 == "binding_generation"@,
        fs[2].0 == "expected_version"@,
        fs.len() <= 4,
        fs.len() == 4 ==> fs[3].0 == "disposition"@,
    ensures
        distinct_keys(fs),
{
    reveal_strlit("claim_id");
    reveal_strlit("binding_generation");
    reveal_strlit("expected_version");
    reveal_strlit("disposition");
    assert("claim_id"@.len() == 8);
    assert("binding_generation"@.len() == 18);
    assert("expected_version"@.len() == 16);
    assert("disposition"@.len() == 11);
}

/// A minted claim replays: where the machine claims the obligation as the minting rule did, the row
/// gives the obligation the operation wrote, and the columns it overwrote agree with it.
pub proof fn a_minted_claim_replays(
    op: MintForemanClaim,
    loaded: LoadedView,
    minted: MintedView,
    event: EventView,
    row: RawEvent,
    seq: EventSeq,
    model: ObligationModel,
)
    requires
        op.minted_event(loaded.identity, model.rule) == Ok::<EventView, StoreError>(event),
        appended_as(row, event, seq),
        (model.apply)(
            loaded.projection,
            ObligationEventView::ForemanClaimed {
                claim: op.claim,
                binding_generation: op.request.binding_generation,
                expected_version: op.request.expected_version,
                expected_source: loaded.projection.source,
                at: op.now,
            },
        ) == Ok::<Applied<ObligationView>, Conflict>(Applied::Advanced(minted.obligation)),
    ensures
        ({
            let next = moved_on(loaded, minted.obligation, seq, loaded.source_event_seq);
            &&& replays_to(row, loaded, next, model)
            &&& op.committed(loaded, minted, seq) matches Ok(done) ==> {
                &&& agrees(done.1.obligation, next)
                &&& done.2.obligation == moved(minted.obligation)
            }
        }),
{
    let fs = event.metadata;
    assert(fs.len() == 3);
    the_fences_are_found(fs);
    assert(kind_fields(event.kind)[0]@ == fs[0].0);
    assert(kind_fields(event.kind)[1]@ == fs[1].0);
    assert(kind_fields(event.kind)[2]@ == fs[2].0);
    a_faithful_event_reads_back(row, event, seq, model.rule);
    assert(lookup(fs, fs[0].0) == Some(fs[0].1));
    assert(lookup(fs, fs[1].0) == Some(fs[1].1));
    assert(lookup(fs, fs[2].0) == Some(fs[2].1));
    canonical_text_round_trips(op.claim);
    a_written_transition_agrees(
        loaded.projection,
        moved_on(loaded, minted.obligation, seq, loaded.source_event_seq),
        ActorClass::Foreman,
        None,
    );
}

/// A delivered handoff replays: its row gives the obligation the operation wrote, and the columns it
/// overwrote agree with it.
pub proof fn a_delivered_handoff_replays(
    op: DeliverHandoff,
    loaded: LoadedView,
    after: ObligationView,
    event: EventView,
    row: RawEvent,
    seq: EventSeq,
    model: ObligationModel,
)
    requires
        op.handoff_event(loaded.identity, model.rule) == Ok::<EventView, StoreError>(event),
        appended_as(row, event, seq),
        (model.apply)(loaded.projection, op.transition()) == Ok::<Applied<ObligationView>, Conflict>(
            Applied::Advanced(after),
        ),
    ensures
        ({
            let next = moved_on(loaded, after, seq, loaded.source_event_seq);
            &&& replays_to(row, loaded, next, model)
            &&& DeliverHandoff::committed(loaded, after, seq) matches Ok(done) ==> {
                &&& agrees(done.0.obligation, next)
                &&& done.1 == moved(after)
            }
        }),
{
    let fs = event.metadata;
    assert(fs.len() == 1);
    assert(kind_fields(event.kind)[0]@ == fs[0].0);
    a_faithful_event_reads_back(row, event, seq, model.rule);
    assert(lookup(fs, fs[0].0) == Some(fs[0].1));
    canonical_text_round_trips(op.request.claim);
    a_written_transition_agrees(
        loaded.projection,
        moved_on(loaded, after, seq, loaded.source_event_seq),
        ActorClass::Foreman,
        None,
    );
}

/// An acknowledgement replays: where the machine closes the obligation as the acknowledging rule did,
/// the row gives the obligation the operation wrote, and the columns it overwrote agree with it.
pub proof fn an_acknowledgement_replays(
    op: AcknowledgeObligation,
    loaded: LoadedView,
    after: ObligationView,
    event: EventView,
    row: RawEvent,
    seq: EventSeq,
    model: ObligationModel,
)
    requires
        op.acked_event(loaded.identity, model.rule) == Ok::<EventView, StoreError>(event),
        appended_as(row, event, seq),
        (model.apply)(
            loaded.projection,
            ObligationEventView::ForemanAcked {
                obligation: loaded.projection.id,
                expected_version: op.request.expected_version,
                expected_source: loaded.projection.source,
                binding_generation: op.request.binding_generation,
                claim: op.request.claim,
                disposition: op.request.disposition,
                at: op.now,
            },
        ) == Ok::<Applied<ObligationView>, Conflict>(Applied::Advanced(after)),
    ensures
        ({
            let next = moved_on(loaded, after, seq, loaded.source_event_seq);
            &&& replays_to(row, loaded, next, model)
            &&& op.committed(loaded, after, seq) matches Ok(done) ==> {
                &&& agrees(done.0.transition.obligation, next)
                &&& done.1.obligation == moved(after)
            }
        }),
{
    let fs = event.metadata;
    assert(fs.len() == 4);
    the_fences_are_found(fs);
    assert(kind_fields(event.kind)[0]@ == fs[0].0);
    assert(kind_fields(event.kind)[1]@ == fs[1].0);
    assert(kind_fields(event.kind)[2]@ == fs[2].0);
    assert(kind_fields(event.kind)[3]@ == fs[3].0);
    a_faithful_event_reads_back(row, event, seq, model.rule);
    assert(lookup(fs, fs[0].0) == Some(fs[0].1));
    assert(lookup(fs, fs[1].0) == Some(fs[1].1));
    assert(lookup(fs, fs[2].0) == Some(fs[2].1));
    assert(lookup(fs, fs[3].0) == Some(fs[3].1));
    canonical_text_round_trips(op.request.claim);
    disposition_round_trips(op.request.disposition);
    a_written_transition_agrees(
        loaded.projection,
        moved_on(loaded, after, seq, loaded.source_event_seq),
        ActorClass::Foreman,
        Some(op.request.disposition),
    );
}

// --- The opening of a turn -----------------------------------------------------------------------------

/// Whether the identity columns of an `obligations` row are those an opened turn inserted.
pub open spec fn opened_as(row: IdentityRow, inserted: ObligationRow) -> bool {
    &&& row.task_id@ == canonical_text(inserted.task_id.value)
    &&& text_view(row.turn_id) == optional_text(Some(inserted.turn_id))
    &&& row.obligation_kind@ == inserted.obligation_kind@
    &&& row.priority == inserted.priority
    &&& row.created_event_seq == inserted.created_event_seq
}

/// Whether the projected columns of an `obligations` row are those an opened turn inserted.
pub open spec fn projected_as(stored: StoredObligation, inserted: ObligationRow) -> bool {
    &&& stored.state@ == inserted.state@
    &&& stored.current_version == inserted.current_version
    &&& stored.current_claim_id is None
    &&& stored.result_artifact_id is None
    &&& stored.source_event_seq == inserted.source_event_seq
}

/// An opened turn replays: the row it inserted reads as its identity, the event that created it folds
/// alone to a created worker turn of the first version, and the inserted columns agree with it.
pub proof fn an_opened_turn_replays(
    op: OpenWorkerTurn,
    at: PerStep<i64>,
    event: EventView,
    row: RawEvent,
    stored: StoredObligation,
    identity: IdentityRow,
    model: ObligationModel,
)
    requires
        op.step_event(OpeningStep::Obligation, model.rule) == Ok::<EventView, StoreError>(event),
        at.obligation >= 0,
        row_holds(row, event, at.obligation),
        opened_as(identity, op.rows_at(at).obligation),
        projected_as(stored, op.rows_at(at).obligation),
    ensures
        row_fault(row, model.rule) is None,
        ({
            let seq = at.obligation as u64;
            let known = ObligationIdentity {
                task: op.ids.task,
                turn: Some(op.ids.turn),
                kind: ObligationKind::WorkerTurn,
                priority: op.request.priority,
                created_event_seq: seq,
            };
            let loaded = LoadedView {
                identity: known,
                projection: ObligationView {
                    id: op.ids.obligation,
                    task: op.ids.task,
                    turn: Some(op.ids.turn),
                    kind: ObligationKind::WorkerTurn,
                    state: ObligationState::Created,
                    version: 1,
                    source: event.source,
                    incarnation: 1,
                    binding_generation: None,
                    claim: None,
                    result_artifact: None,
                    input_request: None,
                },
                latest_event_seq: seq,
                source_event_seq: seq,
            };
            &&& identity_of(Some(identity)) == Ok::<ObligationIdentity, StoreError>(known)
            &&& folded(op.ids.obligation, known, seq![row_event(row)], model) == Ok::<
                LoadedView,
                StoreError,
            >(loaded)
            &&& obligation_compared(op.ids.obligation, stored, loaded) == Ok::<
                Seq<MismatchView>,
                StoreError,
            >(Seq::empty())
        }),
{
    let fs = event.metadata;
    reveal_strlit("obligation_kind");
    reveal_strlit("incarnation");
    assert("obligation_kind"@.len() == 15 && "incarnation"@.len() == 11);
    assert(fs.len() == 2);
    assert(kind_fields(event.kind)[0]@ == fs[0].0);
    assert(kind_fields(event.kind)[1]@ == fs[1].0);
    a_faithful_event_reads_back(row, event, at.obligation as u64, model.rule);
    assert(lookup(fs, fs[0].0) == Some(fs[0].1));
    assert(lookup(fs, fs[1].0) == Some(fs[1].1));
    obligation_kind_round_trips(ObligationKind::WorkerTurn);
    obligation_state_round_trips(ObligationState::Created);
    canonical_text_round_trips(op.ids.task);
    canonical_text_round_trips(op.ids.turn);
    let one = seq![row_event(row)];
    assert(one.len() == 1 && one[0] == row_event(row));
    let known = identity_of(Some(identity))->Ok_0;
    let loaded = folded(op.ids.obligation, known, one, model)->Ok_0;
    assert(obligation_compared(op.ids.obligation, stored, loaded)->Ok_0 =~= Seq::empty());
}

// --- The wake --------------------------------------------------------------------------------------------

/// Whether a row decodes, and is read as a transition of one revision's attempt machine.
pub open spec fn read_as(
    row: RawEvent,
    revision: DeliveryRevision,
    conversation: Seq<char>,
    message: Option<Seq<char>>,
    transition: DeliveryEventView,
    rule: spec_fn(Seq<char>) -> bool,
) -> bool {
    &&& row_fault(row, rule) is None
    &&& attempt_transition(row_event(row), revision, conversation, message, rule) == Ok::<
        Option<DeliveryEventView>,
        StoreError,
    >(Some(transition))
}

/// Folding one more row extends the fold of a wake: what the machine answered to the operation is
/// what replaying gives.
pub proof fn a_replayed_row_extends_the_wake(
    pending: DeliveryView,
    events: Seq<LedgerView>,
    row: RawEvent,
    revision: DeliveryRevision,
    conversation: Seq<char>,
    message: Option<Seq<char>>,
    delivery: DeliveryView,
    transition: DeliveryEventView,
    applied: Applied<DeliveryView>,
    model: WakeModel,
)
    requires
        attempts_folded(pending, events, revision, conversation, message, model) == Ok::<
            DeliveryView,
            StoreError,
        >(delivery),
        read_as(row, revision, conversation, message, transition, model.rule),
        (model.apply)(delivery, transition) == Ok::<Applied<DeliveryView>, Conflict>(applied),
    ensures
        attempts_folded(
            pending,
            events.push(row_event(row)),
            revision,
            conversation,
            message,
            model,
        ) == Ok::<DeliveryView, StoreError>(settled(applied, delivery)),
{
    assert(events.push(row_event(row)).drop_last() =~= events);
}

/// A claimed attempt replays as the claim that was asked of the machine.
pub proof fn a_claimed_attempt_replays(
    op: CreateOrClaimDelivery,
    task: TaskId,
    plan: ClaimPlanView,
    event: EventView,
    row: RawEvent,
    seq: EventSeq,
    conversation: Seq<char>,
    message: Option<Seq<char>>,
    rule: spec_fn(Seq<char>) -> bool,
)
    requires
        op.claimed_event(task, plan, rule) == Ok::<EventView, StoreError>(event),
        appended_as(row, event, seq),
    ensures
        read_as(
            row,
            op.request.revision,
            conversation,
            message,
            DeliveryEventView::AttemptClaimed { at: op.now },
            rule,
        ),
{
    let fs = event.metadata;
    reveal_strlit("revision");
    reveal_strlit("attempt_no");
    assert("revision"@.len() == 8 && "attempt_no"@.len() == 10);
    assert(fs.len() == 2);
    assert(kind_fields(event.kind)[0]@ == fs[0].0);
    assert(kind_fields(event.kind)[1]@ == fs[1].0);
    a_faithful_event_reads_back(row, event, seq, rule);
    assert(lookup(fs, fs[0].0) == Some(fs[0].1));
}

/// An armed attempt replays as the arming that was asked of the machine.
pub proof fn an_armed_attempt_replays(
    op: ArmDeliverySend,
    task: TaskId,
    obligation: ObligationId,
    revision: DeliveryRevision,
    event: EventView,
    row: RawEvent,
    seq: EventSeq,
    conversation: Seq<char>,
    message: Option<Seq<char>>,
    rule: spec_fn(Seq<char>) -> bool,
)
    requires
        op.armed_event(task, obligation, revision, rule) == Ok::<EventView, StoreError>(event),
        appended_as(row, event, seq),
    ensures
        read_as(
            row,
            revision,
            conversation,
            message,
            DeliveryEventView::ActivationArmed { attempt: op.request.attempt, at: op.now },
            rule,
        ),
{
    let fs = event.metadata;
    reveal_strlit("revision");
    reveal_strlit("attempt_no");
    assert("revision"@.len() == 8 && "attempt_no"@.len() == 10);
    assert(fs.len() == 2);
    assert(kind_fields(event.kind)[0]@ == fs[0].0);
    assert(kind_fields(event.kind)[1]@ == fs[1].0);
    a_faithful_event_reads_back(row, event, seq, rule);
    assert(lookup(fs, fs[0].0) == Some(fs[0].1));
    assert(lookup(fs, fs[1].0) == Some(fs[1].1));
}

proof fn the_outcome_keys_differ()
    ensures
        "revision"@ != "attempt_no"@,
        "revision"@ != "message_ref"@,
        "revision"@ != "failure_class"@,
        "revision"@ != "evidence_class"@,
        "attempt_no"@ != "message_ref"@,
        "attempt_no"@ != "failure_class"@,
        "attempt_no"@ != "evidence_class"@,
{
    reveal_strlit("revision");
    reveal_strlit("attempt_no");
    reveal_strlit("message_ref");
    reveal_strlit("failure_class");
    reveal_strlit("evidence_class");
    assert("revision"@.len() == 8);
    assert("attempt_no"@.len() == 10);
    assert("message_ref"@.len() == 11);
    assert("failure_class"@.len() == 13);
    assert("evidence_class"@.len() == 14);
}

/// A recorded outcome replays as what was asked of the machine; an acceptance does so with the
/// conversation it was bound to and the message its row keeps.
pub proof fn a_recorded_outcome_replays(
    op: RecordDeliveryOutcome,
    task: TaskId,
    obligation: ObligationId,
    revision: DeliveryRevision,
    wake: WakeView,
    bound: Option<Seq<char>>,
    event: EventView,
    row: RawEvent,
    seq: EventSeq,
    conversation: Seq<char>,
    message: Option<Seq<char>>,
    rule: spec_fn(Seq<char>) -> bool,
)
    requires
        op.outcome_event(task, obligation, revision, rule) == Ok::<EventView, StoreError>(event),
        appended_as(row, event, seq),
        op.request.outcome matches DeliveryOutcome::Accepted { message: seen } ==> {
            &&& rule(seen@)
            &&& message == Some(seen@)
            &&& conversation == (match wake.delivery.accepted_evidence {
                Some(evidence) => evidence.0,
                None => bound->0,
            })
        },
    ensures
        read_as(row, revision, conversation, message, op.transition(wake, bound), rule),
{
    let fs = event.metadata;
    the_outcome_keys_differ();
    assert(fs.len() == 3);
    assert(kind_fields(event.kind)[0]@ == fs[1].0);
    assert(kind_fields(event.kind)[1]@ == fs[2].0);
    assert(kind_fields(event.kind)[2]@ == fs[0].0);
    a_faithful_event_reads_back(row, event, seq, rule);
    assert(lookup(fs, fs[0].0) == Some(fs[0].1));
    assert(lookup(fs, fs[1].0) == Some(fs[1].1));
    assert(lookup(fs, fs[2].0) == Some(fs[2].1));
    match op.request.outcome {
        DeliveryOutcome::Accepted { message: seen } => {},
        DeliveryOutcome::Failed { failure } => {
            failure_class_round_trips(failure);
        },
        DeliveryOutcome::Ambiguous { reason } => {
            ambiguity_round_trips(reason);
        },
    }
}

/// A reconciled delivery replays as the promotion that was asked of the machine, with the bound
/// conversation and the message its row keeps.
pub proof fn a_reconciled_delivery_replays(
    op: ReconcileAmbiguousDelivery,
    task: TaskId,
    obligation: ObligationId,
    revision: DeliveryRevision,
    bound: Seq<char>,
    event: EventView,
    row: RawEvent,
    seq: EventSeq,
    rule: spec_fn(Seq<char>) -> bool,
)
    requires
        op.reconciled_event(task, obligation, revision, rule) == Ok::<EventView, StoreError>(event),
        appended_as(row, event, seq),
        rule(op.request.message@),
    ensures
        read_as(row, revision, bound, Some(op.request.message@), op.transition(bound), rule),
{
    let fs = event.metadata;
    the_outcome_keys_differ();
    assert(fs.len() == 2);
    assert(kind_fields(event.kind)[0]@ == fs[0].0);
    assert(kind_fields(event.kind)[1]@ == fs[1].0);
    a_faithful_event_reads_back(row, event, seq, rule);
    assert(lookup(fs, fs[0].0) == Some(fs[0].1));
}

/// A quarantined wake replays as the quarantine that was asked of the machine.
pub proof fn a_quarantined_wake_replays(
    op: RecoverStartup,
    minted: EventId,
    task: TaskId,
    obligation: ObligationId,
    revision: DeliveryRevision,
    event: EventView,
    row: RawEvent,
    seq: EventSeq,
    conversation: Seq<char>,
    message: Option<Seq<char>>,
    rule: spec_fn(Seq<char>) -> bool,
)
    requires
        op.orphan_event(minted, task, obligation, revision, rule) == Ok::<EventView, StoreError>(event),
        appended_as(row, event, seq),
    ensures
        read_as(
            row,
            revision,
            conversation,
            message,
            DeliveryEventView::OrphanQuarantined { at: op.now },
            rule,
        ),
{
    let fs = event.metadata;
    assert(fs.len() == 1);
    assert(kind_fields(event.kind)[0]@ == fs[0].0);
    a_faithful_event_reads_back(row, event, seq, rule);
    assert(lookup(fs, fs[0].0) == Some(fs[0].1));
}

// --- Health ----------------------------------------------------------------------------------------------

/// A raised condition replays: where none is open for its kind and scope, its row adds exactly one,
/// open since the instant the operation observed.
pub proof fn a_raised_condition_replays(
    op: RaiseCondition,
    events: Seq<LedgerView>,
    conditions: Seq<HealthCondition>,
    event: EventView,
    row: RawEvent,
    seq: EventSeq,
    rule: spec_fn(Seq<char>) -> bool,
)
    requires
        health_folded(events) == Ok::<Seq<HealthCondition>, StoreError>(conditions),
        op.opening_event(conditions, rule) == Ok::<EventView, StoreError>(event),
        op.scope.external_attempt is None,
        appended_as(row, event, seq),
    ensures
        row_fault(row, rule) is None,
        health_folded(events.push(row_event(row))) == Ok::<Seq<HealthCondition>, StoreError>(
            conditions.push(
                HealthCondition {
                    id: Id { value: seq as u128 },
                    kind: op.kind,
                    scope: op.scope,
                    state: HealthConditionState::Open,
                    opened_at: op.now,
                    resolved_at: None,
                },
            ),
        ),
{
    let fs = event.metadata;
    assert(fs.len() == 1);
    assert(kind_fields(event.kind)[0]@ == fs[0].0);
    a_faithful_event_reads_back(row, event, seq, rule);
    assert(lookup(fs, fs[0].0) == Some(fs[0].1));
    health_kind_round_trips(op.kind);
    assert(events.push(row_event(row)).drop_last() =~= events);
    assert(scope_named(row_event(row)) == op.scope);
}

/// A resolved condition replays: its row closes the condition that was open for its kind and scope,
/// at the instant the operation observed, and no other is left open for them.
pub proof fn a_resolved_condition_replays(
    op: ResolveCondition,
    condition: HealthConditionId,
    events: Seq<LedgerView>,
    conditions: Seq<HealthCondition>,
    event: EventView,
    row: RawEvent,
    seq: EventSeq,
    rule: spec_fn(Seq<char>) -> bool,
)
    requires
        health_folded(events) == Ok::<Seq<HealthCondition>, StoreError>(conditions),
        op.resolving_event(condition, conditions, rule) == Ok::<EventView, StoreError>(event),
        op.scope.external_attempt is None,
        appended_as(row, event, seq),
    ensures
        row_fault(row, rule) is None,
        health_folded(events.push(row_event(row))) == Ok::<Seq<HealthCondition>, StoreError>(
            resolved(conditions, op.kind, op.scope, op.now),
        ),
        !has_open(resolved(conditions, op.kind, op.scope, op.now), op.kind, op.scope),
{
    let fs = event.metadata;
    assert(fs.len() == 1);
    assert(kind_fields(event.kind)[0]@ == fs[0].0);
    a_faithful_event_reads_back(row, event, seq, rule);
    assert(lookup(fs, fs[0].0) == Some(fs[0].1));
    health_kind_round_trips(op.kind);
    assert(events.push(row_event(row)).drop_last() =~= events);
    assert(scope_named(row_event(row)) == op.scope);
    first_open_finds(conditions, op.kind, op.scope);
    folded_health_has_one_open_per_scope(events);
    let left = resolved(conditions, op.kind, op.scope, op.now);
    if has_open(left, op.kind, op.scope) {
        let i = choose|i: int| 0 <= i < left.len() && #[trigger] left[i].open_for(op.kind, op.scope);
        let closed = first_open(conditions, op.kind, op.scope);
        assert(i != closed);
        assert(conditions[i].open_for(op.kind, op.scope));
        assert(conditions[closed].kind == conditions[i].kind);
    }
}

/// A quarantined external attempt replays as one condition to reconcile, about that attempt.
pub proof fn a_quarantined_attempt_replays(
    op: RecoverStartup,
    minted: EventId,
    orphan: ExternalAttemptId,
    event: EventView,
    row: RawEvent,
    seq: EventSeq,
    rule: spec_fn(Seq<char>) -> bool,
)
    requires
        op.quarantine_event(minted, orphan, rule) == Ok::<EventView, StoreError>(event),
        appended_as(row, event, seq),
    ensures
        row_fault(row, rule) is None,
        health_transition(row_event(row)) == Ok::<Option<HealthTransition>, StoreError>(
            Some(
                HealthTransition::Raise(
                    HealthConditionKind::ReconciliationRequired,
                    HealthScope::of_attempt(orphan),
                ),
            ),
        ),
{
    let fs = event.metadata;
    reveal_strlit("external_attempt");
    reveal_strlit("ambiguity_reason");
    assert("external_attempt"@[0] != "ambiguity_reason"@[0]);
    assert(kind_fields(event.kind)[0]@ == "external_attempt"@);
    assert(kind_fields(event.kind)[1]@ == "ambiguity_reason"@);
    a_faithful_event_reads_back(row, event, seq, rule);
    assert(lookup(fs, fs[0].0) == Some(fs[0].1));
    canonical_text_round_trips(orphan);
}

// --- Rows that are read back --------------------------------------------------------------------------

/// Whether a `browser_deliveries` row is the one a created revision inserted.
pub open spec fn wake_stored_as(row: WakeRow, inserted: DeliveryInsertView) -> bool {
    &&& row.delivery_key@ == inserted.delivery_key
    &&& row.obligation_id@ == canonical_text(inserted.obligation_id.value)
    &&& row.target_obligation_version == inserted.target_obligation_version
    &&& row.target_source_event_seq == inserted.target_source_event_seq
    &&& row.foreman_binding_id@ == canonical_text(inserted.foreman_binding_id.value)
    &&& row.binding_generation == inserted.binding_generation
    &&& row.delivery_revision == inserted.delivery_revision
    &&& row.attempt_budget == inserted.attempt_budget
    &&& row.accepted_message_ref is None
}

/// A created revision reads back as the wake that was created: the row, the event its target pinned
/// and the conversation of its binding give it again, before any attempt.
pub proof fn a_created_wake_reads_back(
    op: CreateOrClaimDelivery,
    loaded: LoadedView,
    binding: ForemanBindingId,
    inserted: DeliveryInsertView,
    row: WakeRow,
    pinned: SourceRow,
    conversation: Seq<char>,
    model: WakeModel,
)
    requires
        op.request.obligation == loaded.projection.id,
        op.created_row(
            loaded,
            binding,
            (model.derive)(loaded.projection.id, op.request.binding_generation, op.request.revision),
        ) == Ok::<DeliveryInsertView, StoreError>(inserted),
        op.created(loaded.projection, binding, model) is Ok,
        (model.known_id)(op.candidate_delivery_id.hex()),
        wake_stored_as(row, inserted),
        (pinned.namespace@, pinned.event@, pinned.fence@) == loaded.projection.source,
        source_allowed(loaded.projection.source, model.rule),
        (model.rule)(conversation),
    ensures
        wake_of(
            op.candidate_delivery_id.hex(),
            Some(row),
            Some(pinned),
            Some(conversation),
            Seq::empty(),
            model,
        ) == Ok::<(WakeView, EventSeq), StoreError>(
            (op.fresh_wake(loaded.projection, binding, model), loaded.source_event_seq),
        ),
{
    canonical_text_round_trips(op.request.obligation);
    canonical_text_round_trips(binding);
}

/// Whether a `foreman_claims` row is the one a minted claim inserted, observed at an instant.
pub open spec fn claim_stored_as(row: ClaimRow, inserted: ClaimInsertView, observed_at: Timestamp) -> bool {
    &&& row.obligation_id@ == canonical_text(inserted.obligation_id.value)
    &&& row.obligation_version_at_claim == inserted.obligation_version_at_claim
    &&& row.binding_generation == inserted.binding_generation
    &&& row.wake_delivery_id@ == inserted.wake_delivery_id
    &&& row.state@ == inserted.state@
    &&& row.expires_at_ms == inserted.expires_at_ms
    &&& row.observed_at_ms == observed_at
}

/// A minted claim reads back live, with the fences it was minted under.
pub proof fn a_minted_claim_reads_back(
    op: MintForemanClaim,
    loaded: LoadedView,
    minted: MintedView,
    seq: EventSeq,
    row: ClaimRow,
    known_id: spec_fn(Seq<char>) -> bool,
)
    requires
        op.committed(loaded, minted, seq) matches Ok((inserted, _, _)) && claim_stored_as(
            row,
            inserted,
            op.now,
        ),
        known_id(op.request.presented_delivery_id.hex()),
    ensures
        claim_origin(op.request.obligation, op.claim, Some(row), known_id) == Ok::<
            (ObligationId, Seq<char>),
            StoreError,
        >((op.request.obligation, op.request.presented_delivery_id.hex())),
        claim_recorded(op.claim, op.request.obligation, row) == Ok::<ClaimView, StoreError>(
            ClaimView {
                id: op.claim,
                obligation: op.request.obligation,
                version_at_claim: minted.version_at_claim,
                binding_generation: op.request.binding_generation,
                wake_delivery_hex: op.request.presented_delivery_id.hex(),
                state: ClaimState::Live,
                created_at: op.now,
                expires_at: minted.expires_at,
            },
        ),
{
    canonical_text_round_trips(op.request.obligation);
    claim_state_round_trips(ClaimLifecycle::Live);
}

/// Whether a `foreman_bindings` row is the one a binding inserted, still active.
pub open spec fn binding_stored_as(row: BindingRow, inserted: BoundRow) -> bool {
    &&& row.foreman_binding_id@ == canonical_text(inserted.foreman_binding_id.value)
    &&& row.canonical_conversation_id@ == inserted.canonical_conversation_id@
    &&& row.browser_profile_id@ == inserted.browser_profile_id@
    &&& row.connector_abi@ == inserted.connector_abi@
    &&& row.binding_generation == inserted.binding_generation
    &&& row.capability_epoch == inserted.capability_epoch
    &&& row.write_capability_state@ == inserted.write_capability_state@
    &&& row.is_active != 0
}

/// A binding reads back: its row gives the generation it was issued and the very target that was
/// asked of the machine.
pub proof fn a_bound_foreman_reads_back(
    op: BindForeman,
    generation: BindingGeneration,
    seq: EventSeq,
    inserted: BoundRow,
    row: BindingRow,
    rule: spec_fn(Seq<char>) -> bool,
)
    requires
        op.bound_row(generation, seq) == Ok::<BoundRow, StoreError>(inserted),
        binding_stored_as(row, inserted),
        rule(op.request.conversation@),
        rule(op.request.profile@),
        rule(op.request.connector_abi@),
    ensures
        bound_by(row, rule) matches Ok((issued, target)) && issued == generation && op.transition() == (
        BindingEventView::Bound { target, at: op.now }),
{
    canonical_text_round_trips(op.binding);
    write_capability_round_trips(op.request.write_capability);
}

/// Whether a launch row holds the columns of the loadout and the configuration that were inserted.
pub open spec fn launch_stored_as(row: LaunchRow, loadout: LoadoutRowView, config: ManagedConfigView) -> bool {
    &&& row.worker_loadout_id@ == canonical_text(loadout.snapshot.0.value)
    &&& row.digest_hex@ == loadout.snapshot.1
    &&& row.worker_kind@ == loadout.worker_kind
    &&& row.runtime_kind@ == loadout.runtime_kind
    &&& row.role@ == loadout.role
    &&& row.model_policy_id@ == canonical_text(loadout.model_policy.0.value)
    &&& row.model_policy_digest_hex@ == loadout.model_policy.1
    &&& row.capability_profile_id@ == canonical_text(loadout.capability_profile.0.value)
    &&& row.capability_profile_digest_hex@ == loadout.capability_profile.1
    &&& row.delegation_policy_id@ == canonical_text(loadout.delegation_policy.0.value)
    &&& row.delegation_policy_digest_hex@ == loadout.delegation_policy.1
    &&& row.managed_config_artifact_id@ == canonical_text(loadout.managed_config.0.value)
    &&& row.managed_config_digest_hex@ == loadout.managed_config.1
    &&& row.managed_config_byte_len == loadout.managed_config.2
    &&& row.hook_contract_epoch == loadout.hook_contract_epoch
    &&& row.resume_policy@ == loadout.resume_policy@
    &&& row.storage_ref@ == config.storage_ref
    &&& row.sha256_hex@ == config.sha256_hex
    &&& row.byte_len == config.byte_len
}

/// A loadout that was resolved reads back at launch as every part it was resolved from, beside the
/// configuration that was recorded, and derives the digest it was recorded under.
pub proof fn a_resolved_loadout_reads_back(
    op: ResolveWorkerLoadout,
    request: ResolveWorkerLoadoutRequest,
    appended: Appended,
    inserted: LoadoutRowView,
    recording: RecordManagedConfig,
    recorded: Appended,
    config: ManagedConfigView,
    row: LaunchRow,
    rule: spec_fn(Seq<char>) -> bool,
    policies: spec_fn(Seq<char>) -> Option<ResumePolicy>,
    profile_model: WhitelistDigest,
    policy_model: WhitelistDigest,
    loadout_model: LoadoutDigest,
)
    requires
        op.resolves(request, profile_model, policy_model, loadout_model),
        op.loadout_row(appended) == Ok::<Option<LoadoutRowView>, StoreError>(Some(inserted)),
        recording.committed(recorded, None) matches Ok((Some(kept), _, _)) && kept == config,
        recording.artifact == op.spec_of.managed_config.id,
        launch_stored_as(row, inserted, config),
        rule(request.worker_kind@),
        rule(request.runtime_kind@),
        rule(request.role@),
        rule(config.storage_ref),
        policies(request.resume_policy.label@) == Some(request.resume_policy),
    ensures
        ({
            let (storage_ref, digest, byte_len, _) = recording.request.artifact.parts();
            launch_of(row, rule, policies) == Ok::<RecordView, StoreError>(
                RecordView {
                    loadout: op.spec_of@,
                    digest: loadout_model(op.spec_of@),
                    config: (recording.artifact, digest@, byte_len),
                    storage_ref: storage_ref@,
                },
            )
        }),
{
    let (storage_ref, digest, byte_len, _) = recording.request.artifact.parts();
    let record = SessionLoadoutRecord {
        loadout: op.spec_of,
        digest: op.digest,
        config: ManagedConfigRecord {
            reference: ManagedConfigRef { id: recording.artifact, digest, byte_len },
            storage_ref,
        },
    };
    a_recorded_launch_reads_back(row, record, rule, policies);
}

} // verus!
