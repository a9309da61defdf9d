//! Rebuilding an obligation from its ledger slice.
//!
//! A fenced transition reads the ledger, not the row: the state a fence is checked against is
//! folded from the obligation's events by the domain machine. Evidence is re-proved on the way: a
//! published result counts only where the classifier still confirms the completion.
use vstd::prelude::*;
use crate::domain::fence::{EventSeq, SafeToken};
use crate::domain::id::{ObligationId, TaskId, TurnId};
use crate::domain::obligation::{
    or_unchanged, settled, ChildExitStatus, CompletionReceipts, ManagedRunOutcome, Obligation,
    ObligationEvent, ObligationEventView, ObligationKind, ObligationModel, ObligationReply,
    ObligationRules, ObligationView, OutcomeView, ReceiptsView, WorkerOutcome,
};
use crate::store::codec::{id_column, optional_id_column, parse_id, parse_optional_id, text_view};
use crate::store::error::{corrupt, corrupt_row, CorruptReason, StoreError};
use crate::store::event::{parse_seq, LedgerEvent, LedgerView};
use crate::store::event_kind::EventKind;
use crate::store::labels::{
    decode_disposition, decode_obligation_kind, decode_worker_failure, disposition_named,
    obligation_kind_named, worker_failure_named,
};
use crate::store::safe_metadata::{id_field, text_field, token_field, u64_field};

verus! {

/// The identity columns of an `obligations` row, as read.
#[derive(Debug, PartialEq, Eq)]
pub struct IdentityRow {
    pub task_id: String,
    pub turn_id: Option<String>,
    pub obligation_kind: String,
    pub priority: i64,
    pub created_event_seq: i64,
}

/// What is fixed about an obligation when it is created. Fenced state is never read from the row.
#[derive(Debug, Clone, Copy, PartialEq, Eq, Structural)]
pub struct ObligationIdentity {
    pub task: TaskId,
    pub turn: Option<TurnId>,
    pub kind: ObligationKind,
    pub priority: i64,
    pub created_event_seq: EventSeq,
}

/// What the identity columns say.
pub open spec fn identity_of(row: Option<IdentityRow>) -> Result<ObligationIdentity, StoreError> {
    match row {
        None => Err(corrupt("obligations", "obligation_id", CorruptReason::DanglingReference)),
        Some(row) => {
            let turn = optional_id_column(text_view(row.turn_id), "obligations", "turn_id");
            match id_column(row.task_id@, "obligations", "task_id") {
                Err(e) => Err(e),
                Ok(task) => match turn {
                    Err(e) => Err(e),
                    Ok(turn) => match obligation_kind_named(row.obligation_kind@) {
                        None => Err(corrupt("obligations", "obligation_kind", CorruptReason::UnknownLabel)),
                        Some(kind) => if row.created_event_seq < 0 {
                            Err(
                                corrupt(
                                    "obligations",
                                    "created_event_seq",
                                    CorruptReason::IntegerOutOfRange,
                                ),
                            )
                        } else {
                            Ok(
                                ObligationIdentity {
                                    task,
                                    turn,
                                    kind,
                                    priority: row.priority,
                                    created_event_seq: row.created_event_seq as u64,
                                },
                            )
                        },
                    },
                },
            }
        },
    }
}

/// Reads an obligation's identity columns; a missing row is a dangling reference.
pub fn obligation_identity(row: &Option<IdentityRow>) -> (r: Result<ObligationIdentity, StoreError>)
    ensures
        r == identity_of(*row),
{
    match row {
        None => Err(corrupt_row("obligations", "obligation_id", CorruptReason::DanglingReference)),
        Some(row) => {
            let task = parse_id(row.task_id.as_str(), "obligations", "task_id")?;
            let turn = parse_optional_id(&row.turn_id, "obligations", "turn_id")?;
            let kind = decode_obligation_kind(row.obligation_kind.as_str(), "obligations")?;
            let created_event_seq: u64 = parse_seq(
                row.created_event_seq,
                "obligations",
                "created_event_seq",
            )?;
            Ok(ObligationIdentity { task, turn, kind, priority: row.priority, created_event_seq })
        },
    }
}

/// An obligation, folded from its ledger slice.
#[derive(Debug, PartialEq, Eq)]
pub struct LoadedObligation {
    pub identity: ObligationIdentity,
    pub projection: Obligation,
    /// Sequence of the newest event in the slice.
    pub latest_event_seq: EventSeq,
    /// Sequence of the event carrying the source fact the obligation stands on.
    pub source_event_seq: EventSeq,
}

/// A folded obligation on values alone.
#[verifier::ext_equal]
pub struct LoadedView {
    pub identity: ObligationIdentity,
    pub projection: ObligationView,
    pub latest_event_seq: EventSeq,
    pub source_event_seq: EventSeq,
}

impl View for LoadedObligation {
    type V = LoadedView;

    open spec fn view(&self) -> LoadedView {
        LoadedView {
            identity: self.identity,
            projection: self.projection@,
            latest_event_seq: self.latest_event_seq,
            source_event_seq: self.source_event_seq,
        }
    }
}

/// The receipts a published result stands on: a complete successful record, a successful exit.
pub open spec fn completion_receipts(run_ref: Seq<char>) -> ReceiptsView {
    ReceiptsView {
        run_ref,
        final_result_complete: true,
        outcome: ManagedRunOutcome::Success,
        child_exit: ChildExitStatus::Success,
    }
}

/// What re-proving a completion gives: the run it proves, where the classifier confirms it.
pub open spec fn reproved(run_ref: Seq<char>, model: ObligationModel) -> Result<Seq<char>, StoreError> {
    match (model.classify)(completion_receipts(run_ref)) {
        OutcomeView::ConfirmedCompletion { run_ref: confirmed } => Ok(confirmed),
        _ => Err(corrupt("events", "safe_metadata_json", CorruptReason::UnprovableEvidence)),
    }
}

/// Re-proves a confirmed completion from the safe facts the event stands on.
pub fn reprove_completion<C: Fn(&CompletionReceipts) -> WorkerOutcome>(
    run_ref: SafeToken,
    classify: &C,
) -> (r: Result<SafeToken, StoreError>)
    requires
        forall|c: &CompletionReceipts| call_requires(*classify, (c,)),
    ensures
        exists|c: &CompletionReceipts, o: WorkerOutcome|
            #![trigger call_ensures(*classify, (c,), o)]
            {
                &&& c@ == completion_receipts(run_ref@)
                &&& call_ensures(*classify, (c,), o)
                &&& match o {
                    WorkerOutcome::ConfirmedCompletion { run_ref: confirmed } => r == Ok::<
                        SafeToken,
                        StoreError,
                    >(confirmed),
                    _ => r == Err::<SafeToken, StoreError>(
                        corrupt("events", "safe_metadata_json", CorruptReason::UnprovableEvidence),
                    ),
                }
            },
{
    let receipts = CompletionReceipts {
        run_ref,
        final_result_complete: true,
        outcome: ManagedRunOutcome::Success,
        child_exit: ChildExitStatus::Success,
    };
    match classify(&receipts) {
        WorkerOutcome::ConfirmedCompletion { run_ref: confirmed } => Ok(confirmed),
        _ => Err(corrupt_row("events", "safe_metadata_json", CorruptReason::UnprovableEvidence)),
    }
}

/// Whether an event kind carries a new source fact for its obligation.
pub open spec fn changes_source(kind: EventKind) -> bool {
    kind is WorkerStarted || kind is WorkerFailed || kind is ResultPublished
        || kind is ObligationCancelledByUser || kind is ObligationSuperseded
}

/// The transition a ledger event recorded, or nothing for an event that is not one.
pub open spec fn transition_of(
    current: ObligationView,
    event: LedgerView,
    model: ObligationModel,
) -> Result<Option<ObligationEventView>, StoreError> {
    let fs = event.metadata;
    let at = event.observed_at;
    match event.kind {
        EventKind::WorkerStarted => match u64_field(fs, "incarnation"@) {
            Err(e) => Err(e),
            Ok(incarnation) => Ok(
                Some(ObligationEventView::WorkerStarted { source: event.source, incarnation, at }),
            ),
        },
        EventKind::WorkerFailed => match u64_field(fs, "incarnation"@) {
            Err(e) => Err(e),
            Ok(incarnation) => match text_field(fs, "failure_class"@) {
                Err(e) => Err(e),
                Ok(label) => match worker_failure_named(label) {
                    None => Err(corrupt("events", "failure_class", CorruptReason::UnknownLabel)),
                    Some(failure) => Ok(
                        Some(
                            ObligationEventView::WorkerFailed {
                                source: event.source,
                                incarnation,
                                failure,
                                at,
                            },
                        ),
                    ),
                },
            },
        },
        EventKind::ResultPublished => match token_field(fs, "run_ref"@, model.rule) {
            Err(e) => Err(e),
            Ok(run_ref) => match u64_field(fs, "incarnation"@) {
                Err(e) => Err(e),
                Ok(incarnation) => match reproved(run_ref, model) {
                    Err(e) => Err(e),
                    Ok(confirmed) => match id_field(fs, "artifact_id"@) {
                        Err(e) => Err(e),
                        Ok(artifact) => Ok(
                            Some(
                                ObligationEventView::ResultPublished {
                                    source: event.source,
                                    incarnation,
                                    run_ref: confirmed,
                                    artifact,
                                    at,
                                },
                            ),
                        ),
                    },
                },
            },
        },
        EventKind::ForemanClaimMinted => match id_field(fs, "claim_id"@) {
            Err(e) => Err(e),
            Ok(claim) => match u64_field(fs, "binding_generation"@) {
                Err(e) => Err(e),
                Ok(binding_generation) => match u64_field(fs, "expected_version"@) {
                    Err(e) => Err(e),
                    Ok(expected_version) => Ok(
                        Some(
                            ObligationEventView::ForemanClaimed {
                                claim,
                                binding_generation,
                                expected_version,
                                expected_source: current.source,
                                at,
                            },
                        ),
                    ),
                },
            },
        },
        EventKind::ForemanHandoffDelivered => match id_field(fs, "claim_id"@) {
            Err(e) => Err(e),
            Ok(claim) => Ok(Some(ObligationEventView::HandoffDelivered { claim, at })),
        },
        EventKind::ForemanClaimExpired => match id_field(fs, "claim_id"@) {
            Err(e) => Err(e),
            Ok(claim) => Ok(Some(ObligationEventView::ClaimExpired { claim, at })),
        },
        EventKind::ForemanAcked => match u64_field(fs, "expected_version"@) {
            Err(e) => Err(e),
            Ok(expected_version) => match u64_field(fs, "binding_generation"@) {
                Err(e) => Err(e),
                Ok(binding_generation) => match id_field(fs, "claim_id"@) {
                    Err(e) => Err(e),
                    Ok(claim) => match text_field(fs, "disposition"@) {
                        Err(e) => Err(e),
                        Ok(label) => match disposition_named(label) {
                            None => Err(corrupt("events", "disposition", CorruptReason::UnknownLabel)),
                            Some(disposition) => Ok(
                                Some(
                                    ObligationEventView::ForemanAcked {
                                        obligation: current.id,
                                        expected_version,
                                        expected_source: current.source,
                                        binding_generation,
                                        claim,
                                        disposition,
                                        at,
                                    },
                                ),
                            ),
                        },
                    },
                },
            },
        },
        EventKind::ObligationCancelledByUser => Ok(
            Some(ObligationEventView::CancelledByUser { source: event.source, at }),
        ),
        EventKind::ObligationSuperseded => match id_field(fs, "replacement"@) {
            Err(e) => Err(e),
            Ok(replacement) => Ok(
                Some(ObligationEventView::Superseded { source: event.source, replacement, at }),
            ),
        },
        _ => Ok(None),
    }
}

/// An optional transition on values alone, or the failure.
pub open spec fn transition_view(
    r: Result<Option<ObligationEvent>, StoreError>,
) -> Result<Option<ObligationEventView>, StoreError> {
    match r {
        Ok(Some(event)) => Ok(Some(event@)),
        Ok(None) => Ok(None),
        Err(e) => Err(e),
    }
}

/// Translates one ledger event into the obligation transition it recorded.
///
/// A claim or an acknowledgement is replayed with the version fence the caller presented, so the
/// machine compares it against the fold instead of rubber-stamping whatever the fold reached.
pub fn obligation_event<
    A: Fn(&Obligation, &ObligationEvent) -> ObligationReply,
    C: Fn(&CompletionReceipts) -> WorkerOutcome,
    S: Fn(&str) -> bool,
>(current: &Obligation, event: &LedgerEvent, rules: &ObligationRules<A, C, S>) -> (r: Result<
    Option<ObligationEvent>,
    StoreError,
>)
    requires
        rules.total(),
    ensures
        forall|model: ObligationModel| #[trigger]
            rules.follows(model) ==> transition_view(r) == transition_of(current@, event@, model),
{
    let fields = &event.metadata;
    let at: i64 = event.observed_at;
    let translated = match event.kind {
        EventKind::WorkerStarted => {
            let incarnation: u64 = fields.u64("incarnation")?;
            ObligationEvent::WorkerStarted { source: event.source.clone(), incarnation, at }
        },
        EventKind::WorkerFailed => {
            let incarnation: u64 = fields.u64("incarnation")?;
            let failure = decode_worker_failure(fields.label("failure_class")?, "events")?;
            ObligationEvent::WorkerFailed { source: event.source.clone(), incarnation, failure, at }
        },
        EventKind::ResultPublished => {
            let run_ref = fields.token("run_ref", &rules.safe)?;
            let incarnation: u64 = fields.u64("incarnation")?;
            let confirmed = reprove_completion(run_ref, &rules.classify)?;
            let artifact = fields.id("artifact_id")?;
            ObligationEvent::ResultPublished {
                source: event.source.clone(),
                incarnation,
                run_ref: confirmed,
                artifact,
                at,
            }
        },
        EventKind::ForemanClaimMinted => {
            let claim = fields.id("claim_id")?;
            let binding_generation: u64 = fields.u64("binding_generation")?;
            let expected_version: u64 = fields.u64("expected_version")?;
            ObligationEvent::ForemanClaimed {
                claim,
                binding_generation,
                expected_version,
                expected_source: current.source.clone(),
                at,
            }
        },
        EventKind::ForemanHandoffDelivered => {
            let claim = fields.id("claim_id")?;
            ObligationEvent::HandoffDelivered { claim, at }
        },
        EventKind::ForemanClaimExpired => {
            let claim = fields.id("claim_id")?;
            ObligationEvent::ClaimExpired { claim, at }
        },
        EventKind::ForemanAcked => {
            let expected_version: u64 = fields.u64("expected_version")?;
            let binding_generation: u64 = fields.u64("binding_generation")?;
            let claim = fields.id("claim_id")?;
            let disposition = decode_disposition(fields.label("disposition")?, "events")?;
            ObligationEvent::ForemanAcked {
                obligation: current.id,
                expected_version,
                expected_source: current.source.clone(),
                binding_generation,
                claim,
                disposition,
                at,
            }
        },
        EventKind::ObligationCancelledByUser => {
            ObligationEvent::CancelledByUser { source: event.source.clone(), at }
        },
        EventKind::ObligationSuperseded => {
            let replacement = fields.id("replacement")?;
            ObligationEvent::Superseded { source: event.source.clone(), replacement, at }
        },
        _ => return Ok(None),
    };
    Ok(Some(translated))
}

/// The obligation as the first event of its slice leaves it.
pub open spec fn created_from(
    id: ObligationId,
    identity: ObligationIdentity,
    created: LedgerView,
) -> Result<LoadedView, StoreError> {
    if !(created.kind is ObligationCreated) {
        Err(corrupt("events", "kind", CorruptReason::UnprovableEvidence))
    } else {
        match text_field(created.metadata, "obligation_kind"@) {
            Err(e) => Err(e),
            Ok(label) => match obligation_kind_named(label) {
                None => Err(corrupt("events", "obligation_kind", CorruptReason::UnknownLabel)),
                Some(kind) => match u64_field(created.metadata, "incarnation"@) {
                    Err(e) => Err(e),
                    Ok(incarnation) => Ok(
                        LoadedView {
                            identity,
                            projection: ObligationView {
                                id,
                                task: identity.task,
                                turn: identity.turn,
                                kind,
                                state: crate::domain::obligation::ObligationState::Created,
                                version: 1,
                                source: created.source,
                                incarnation,
                                binding_generation: None,
                                claim: None,
                                result_artifact: None,
                                input_request: None,
                            },
                            latest_event_seq: created.seq,
                            source_event_seq: created.seq,
                        },
                    ),
                },
            },
        }
    }
}

/// The obligation after one more event of its slice.
pub open spec fn advanced_by(
    state: LoadedView,
    event: LedgerView,
    model: ObligationModel,
) -> Result<LoadedView, StoreError> {
    match transition_of(state.projection, event, model) {
        Err(e) => Err(e),
        Ok(None) => Ok(LoadedView { latest_event_seq: event.seq, ..state }),
        Ok(Some(domain)) => match (model.apply)(state.projection, domain) {
            Err(conflict) => Err(StoreError::Conflict(conflict)),
            Ok(applied) => Ok(
                LoadedView {
                    projection: settled(applied, state.projection),
                    latest_event_seq: event.seq,
                    source_event_seq: if changes_source(event.kind) {
                        event.seq
                    } else {
                        state.source_event_seq
                    },
                    ..state
                },
            ),
        },
    }
}

/// An obligation folded from its ledger slice, or why it does not fold.
pub open spec fn folded(
    id: ObligationId,
    identity: ObligationIdentity,
    events: Seq<LedgerView>,
    model: ObligationModel,
) -> Result<LoadedView, StoreError>
    decreases events.len(),
{
    if events.len() == 0 {
        Err(corrupt("events", "kind", CorruptReason::DanglingReference))
    } else if events.len() == 1 {
        created_from(id, identity, events[0])
    } else {
        match folded(id, identity, events.drop_last(), model) {
            Err(e) => Err(e),
            Ok(state) => advanced_by(state, events.last(), model),
        }
    }
}

/// A slice of the ledger on values alone.
pub open spec fn ledger_view(events: Seq<LedgerEvent>) -> Seq<LedgerView> {
    events.map_values(|e: LedgerEvent| e@)
}

/// A slice that does not fold stays that way, whatever follows it.
pub proof fn a_fault_stays(
    id: ObligationId,
    identity: ObligationIdentity,
    events: Seq<LedgerView>,
    model: ObligationModel,
    n: int,
)
    requires
        1 <= n <= events.len(),
        folded(id, identity, events.take(n), model) is Err,
    ensures
        folded(id, identity, events, model) == folded(id, identity, events.take(n), model),
    decreases events.len() - n,
{
    if n < events.len() {
        assert(events.take(n + 1).drop_last() =~= events.take(n));
        a_fault_stays(id, identity, events, model, n + 1);
    } else {
        assert(events.take(n) =~= events);
    }
}

/// A folded obligation on values alone, or the failure.
pub open spec fn loaded_view(r: Result<LoadedObligation, StoreError>) -> Result<LoadedView, StoreError> {
    match r {
        Ok(loaded) => Ok(loaded@),
        Err(e) => Err(e),
    }
}

/// Folds a ledger slice into the obligation it leaves.
pub fn fold_obligation<
    A: Fn(&Obligation, &ObligationEvent) -> ObligationReply,
    C: Fn(&CompletionReceipts) -> WorkerOutcome,
    S: Fn(&str) -> bool,
>(
    id: ObligationId,
    identity: ObligationIdentity,
    events: &[LedgerEvent],
    rules: &ObligationRules<A, C, S>,
) -> (r: Result<LoadedObligation, StoreError>)
    requires
        rules.total(),
    ensures
        forall|model: ObligationModel| #[trigger]
            rules.follows(model) ==> loaded_view(r) == folded(id, identity, ledger_view(events@), model),
{
    let ghost all = ledger_view(events@);
    if events.len() == 0 {
        return Err(corrupt_row("events", "kind", CorruptReason::DanglingReference));
    }
    proof {
        assert(all.take(1).len() == 1);
        assert forall|model: ObligationModel| folded(id, identity, all.take(1), model) is Err implies
            #[trigger] folded(id, identity, all, model) == folded(id, identity, all.take(1), model) by {
            a_fault_stays(id, identity, all, model, 1);
        }
        assert(forall|model: ObligationModel|
            #[trigger] folded(id, identity, all.take(1), model) == created_from(id, identity, all[0]));
    }
    let created = &events[0];
    match created.kind {
        EventKind::ObligationCreated => {},
        _ => return Err(corrupt_row("events", "kind", CorruptReason::UnprovableEvidence)),
    }
    let kind = decode_obligation_kind(created.metadata.label("obligation_kind")?, "events")?;
    let incarnation: u64 = created.metadata.u64("incarnation")?;
    let mut projection = Obligation::created(
        id,
        identity.task,
        identity.turn,
        kind,
        created.source.clone(),
        incarnation,
    );
    let mut source_event_seq: u64 = created.seq;
    let mut latest_event_seq: u64 = created.seq;
    let mut i: usize = 1;
    while i < events.len()
        invariant
            1 <= i <= events@.len(),
            rules.total(),
            all == ledger_view(events@),
            forall|model: ObligationModel| #[trigger]
                rules.follows(model) ==> folded(id, identity, all.take(i as int), model) == Ok::<
                    LoadedView,
                    StoreError,
                >(
                    LoadedView {
                        identity,
                        projection: projection@,
                        latest_event_seq,
                        source_event_seq,
                    },
                ),
        decreases events@.len() - i,
    {
        let event = &events[i];
        let ghost before = projection@;
        proof {
            assert(all[i as int] == event@);
            assert(all.take(i + 1).drop_last() =~= all.take(i as int));
            assert(all.take(i + 1).last() == event@);
            assert forall|model: ObligationModel| folded(id, identity, all.take(i + 1), model) is Err implies
                #[trigger] folded(id, identity, all, model) == folded(id, identity, all.take(i + 1), model) by {
                a_fault_stays(id, identity, all, model, i + 1);
            }
        }
        match obligation_event(&projection, event, rules)? {
            None => {
                latest_event_seq = event.seq;
            },
            Some(domain) => {
                let reply = (rules.apply)(&projection, &domain);
                match reply {
                    Err(conflict) => return Err(StoreError::Conflict(conflict)),
                    Ok(applied) => {
                        projection = or_unchanged(applied, projection);
                    },
                }
                let moves = match event.kind {
                    EventKind::WorkerStarted => true,
                    EventKind::WorkerFailed => true,
                    EventKind::ResultPublished => true,
                    EventKind::ObligationCancelledByUser => true,
                    EventKind::ObligationSuperseded => true,
                    _ => false,
                };
                if moves {
                    source_event_seq = event.seq;
                }
                latest_event_seq = event.seq;
            },
        }
        i = i + 1;
    }
    proof {
        assert(all.take(i as int) =~= all);
    }
    Ok(LoadedObligation { identity, projection, latest_event_seq, source_event_seq })
}

/// An event that records no transition advances no version.
pub proof fn other_events_advance_nothing(
    id: ObligationId,
    identity: ObligationIdentity,
    events: Seq<LedgerView>,
    model: ObligationModel,
    event: LedgerView,
)
    requires
        folded(id, identity, events, model) is Ok,
        transition_of(folded(id, identity, events, model)->Ok_0.projection, event, model) == Ok::<
            Option<ObligationEventView>,
            StoreError,
        >(None),
    ensures
        folded(id, identity, events.push(event), model) == Ok::<LoadedView, StoreError>(
            LoadedView {
                latest_event_seq: event.seq,
                ..folded(id, identity, events, model)->Ok_0
            },
        ),
{
    assert(events.len() > 0);
    assert(events.push(event).drop_last() =~= events);
}

} // verus!
