use command_governor::domain::binding::{
    ActiveBinding, BindingEvent, BindingLedger, BindingReply, BindingRules, WriteCapabilityState,
};
use command_governor::domain::claim::{
    AckRequest, ClaimState, ForemanClaim, MintReply, Minted, ResumeRequest,
};
use command_governor::domain::conflict::{Conflict, ConflictKind};
use command_governor::domain::delivery::{
    AcceptedWakeEvidence, AmbiguityReason, Attempt, AttemptState, BrowserWake, Delivery,
    DeliveryEvent, DeliveryId, DeliveryReply, DeliveryState, FailureClass, WakeRules, WakeTarget,
};
use command_governor::domain::fence::{SafeToken, SourceRef};
use command_governor::domain::health::{HealthConditionKind, HealthLedger, HealthScope};
use command_governor::domain::id::{id_text, Id};
use command_governor::domain::obligation::{
    Applied, ChildExitStatus, CompletionReceipts, Disposition, ManagedRunOutcome, Obligation,
    ObligationEvent, ObligationKind, ObligationReply, ObligationRules, ObligationState,
    WorkerFailureClass, WorkerOutcome,
};
use command_governor::store::error::{CorruptReason, StoreError};
use command_governor::store::event::{
    append, collect, event_row, Appended, LedgerEvent, NewEvent, RawEvent,
};
use command_governor::store::load::artifact::{open_obligation, ArtifactRow};
use command_governor::store::load::binding::{bindings, BindingRow};
use command_governor::store::load::delivery::{fold_delivery, wake_by_hex, SourceRow, WakeRow};
use command_governor::store::load::health::{fold_health, open_conditions, ConditionRow};
use command_governor::store::load::obligation::{
    fold_obligation, obligation_identity, IdentityRow, LoadedObligation, ObligationIdentity,
};
use command_governor::store::event_kind::EventKind;
use command_governor::store::ops::bootstrap::{
    BindForeman, BindForemanRequest, OpenWorkerTurn, OpenWorkerTurnRequest, OpenedWorkerTurn,
    OpeningStep, PerStep, ProjectSpec, SessionSpec,
};
use command_governor::store::ops::claim::{
    claim_provenance, rehydrate_claim, AcknowledgeObligation, AcknowledgeRequest, ClaimRow,
    DeliverHandoff, DeliverHandoffRequest, MintClaimRequest, MintForemanClaim,
};
use command_governor::store::ops::decide::Decided;
use command_governor::store::ops::delivery::{
    wake_payload_digest, ArmDeliverySend, ArmDeliverySendRequest, CreateOrClaimDelivery,
    CreateOrClaimDeliveryRequest, DeliveryOutcome, DeliveryStep, ReconcileAmbiguousDelivery,
    ReconcileAmbiguousDeliveryRequest, RecordDeliveryOutcome, RecordDeliveryOutcomeRequest,
};
use command_governor::store::ops::health::{
    RaiseCondition, RaiseForemanUnreachable, RaiseForemanUnreachableRequest,
    RaiseResultArtifactMissing, RecordTerminalEvidenceConflict, ResolveCondition, Resolution,
    ResultArtifactMissingRequest, SessionAttention, SessionHealthRequest,
    TerminalEvidenceConflictRequest,
};
use command_governor::store::ops::worker::{
    CancelObligation, CancelObligationRequest, DurableArtifact, PublishWorkerResult,
    PublishWorkerResultRequest, RecordWorkerFailure, RecordWorkerFailureRequest,
    RecordWorkerStarted, RecordWorkerStartedRequest, Step,
};
use command_governor::store::replay::{
    compare_obligation, obligation_slice, obligations_of, verify, ObligationRecord,
    StoredObligation, StoredProjections,
};

fn safe(text: &str) -> bool {
    !text.is_empty()
        && text.len() <= 128
        && text.chars().all(|c| c.is_ascii_alphanumeric() || "-_.:".contains(c))
}

fn token(text: &str) -> SafeToken {
    SafeToken::new(text, &safe).expect("token")
}

fn id(value: u128) -> Id {
    Id { value }
}

fn source(event: &str) -> SourceRef {
    SourceRef { namespace: token("hook"), event: token(event), fence: token("1") }
}

const TASK: Id = Id { value: 12 };
const TURN: Id = Id { value: 15 };
const WORK: Id = Id { value: 16 };

// --- A small domain ---------------------------------------------------------------------------

fn advance(o: &Obligation, state: ObligationState) -> Obligation {
    let mut next = o.clone();
    next.state = state;
    next.version = o.version + 1;
    next
}

fn apply(o: &Obligation, event: &ObligationEvent) -> ObligationReply {
    if o.state.is_closed() {
        return match event {
            ObligationEvent::ForemanAcked { .. } if o.state == ObligationState::Acknowledged => {
                Ok(Applied::Duplicate)
            }
            _ => Err(Conflict::ObligationClosed { state: o.state }),
        };
    }
    let next = match event {
        ObligationEvent::WorkerStarted { source, .. } => {
            if o.state == ObligationState::Running {
                return Ok(Applied::Duplicate);
            }
            let mut next = advance(o, ObligationState::Running);
            next.source = source.clone();
            next
        }
        ObligationEvent::WorkerFailed { source, .. } => {
            let mut next = advance(o, ObligationState::Failed);
            next.source = source.clone();
            next
        }
        ObligationEvent::ResultPublished { source, artifact, .. } => {
            let mut next = advance(o, ObligationState::CompletedUnprocessed);
            next.source = source.clone();
            next.result_artifact = Some(*artifact);
            next
        }
        ObligationEvent::ForemanClaimed { claim, binding_generation, expected_version, .. } => {
            if *expected_version != o.version {
                return Err(Conflict::Refused { kind: ConflictKind::StaleObligationVersion });
            }
            let mut next = advance(o, ObligationState::ClaimedByForeman);
            next.claim = Some(*claim);
            next.binding_generation = Some(*binding_generation);
            next
        }
        ObligationEvent::HandoffDelivered { .. } => advance(o, ObligationState::Processing),
        ObligationEvent::ClaimExpired { .. } => advance(o, ObligationState::CompletedUnprocessed),
        ObligationEvent::ForemanAcked { .. } => advance(o, ObligationState::Acknowledged),
        ObligationEvent::CancelledByUser { .. } => advance(o, ObligationState::CancelledByUser),
        ObligationEvent::Superseded { .. } => advance(o, ObligationState::Superseded),
    };
    Ok(Applied::Advanced(next))
}

fn classify(receipts: &CompletionReceipts) -> WorkerOutcome {
    if !receipts.final_result_complete {
        return WorkerOutcome::Inconclusive;
    }
    match (receipts.outcome, receipts.child_exit) {
        (ManagedRunOutcome::Success, ChildExitStatus::Success) => {
            WorkerOutcome::ConfirmedCompletion { run_ref: receipts.run_ref.clone() }
        }
        _ => WorkerOutcome::NeedsReconciliation { kind: HealthConditionKind::RuntimeStateConflict },
    }
}

type Machine = fn(&Obligation, &ObligationEvent) -> ObligationReply;
type Classifier = fn(&CompletionReceipts) -> WorkerOutcome;
type Rule = fn(&str) -> bool;

fn rules() -> ObligationRules<Machine, Classifier, Rule> {
    ObligationRules { apply, classify, safe }
}

fn apply_delivery(d: &Delivery, event: &DeliveryEvent) -> DeliveryReply {
    let mut attempts: Vec<Attempt> = d.attempts.clone();
    let mut evidence = d.accepted_evidence.as_ref().map(|e| AcceptedWakeEvidence {
        conversation: e.conversation.clone(),
        message: e.message.clone(),
    });
    let mut state = d.state;
    let mut terminal = d.terminal;
    let last = attempts.len();
    let find = |attempts: &mut Vec<Attempt>, number: u32, to: AttemptState| {
        match attempts.iter_mut().find(|attempt| attempt.number == number) {
            Some(attempt) if attempt.state == to => Ok(false),
            Some(attempt) => {
                attempt.state = to;
                Ok(true)
            }
            None => Err(Conflict::UnknownAttempt { attempt: number }),
        }
    };
    let moved = match event {
        DeliveryEvent::AttemptClaimed { .. } => {
            if last as u32 >= d.attempt_budget {
                return Err(Conflict::Refused { kind: ConflictKind::RetryBudgetExhausted });
            }
            attempts.push(Attempt {
                number: last as u32 + 1,
                state: AttemptState::Claimed,
                failure: None,
                ambiguity: None,
            });
            state = DeliveryState::Claimed;
            true
        }
        DeliveryEvent::ActivationArmed { attempt, .. } => {
            find(&mut attempts, *attempt, AttemptState::ActivationArmed)?
        }
        DeliveryEvent::AttemptAccepted { attempt, evidence: seen, .. } => {
            let moved = find(&mut attempts, *attempt, AttemptState::Accepted)?;
            state = DeliveryState::Accepted;
            terminal = true;
            evidence = Some(AcceptedWakeEvidence {
                conversation: seen.conversation.clone(),
                message: seen.message.clone(),
            });
            moved
        }
        DeliveryEvent::AttemptFailed { attempt, failure, .. } => {
            let moved = find(&mut attempts, *attempt, AttemptState::Failed)?;
            attempts[*attempt as usize - 1].failure = Some(*failure);
            state = DeliveryState::Failed;
            moved
        }
        DeliveryEvent::AttemptAmbiguous { attempt, reason, .. } => {
            let moved = find(&mut attempts, *attempt, AttemptState::Ambiguous)?;
            attempts[*attempt as usize - 1].ambiguity = Some(*reason);
            state = DeliveryState::Ambiguous;
            moved
        }
        DeliveryEvent::OrphanQuarantined { .. } => {
            state = DeliveryState::Ambiguous;
            true
        }
        DeliveryEvent::ReconciledAccepted { evidence: seen, .. } => {
            for attempt in &mut attempts {
                if attempt.state == AttemptState::Ambiguous {
                    attempt.state = AttemptState::Accepted;
                }
            }
            state = DeliveryState::Accepted;
            terminal = true;
            evidence = Some(AcceptedWakeEvidence {
                conversation: seen.conversation.clone(),
                message: seen.message.clone(),
            });
            true
        }
    };
    if !moved {
        return Ok(Applied::Duplicate);
    }
    Ok(Applied::Advanced(Delivery {
        attempt_budget: d.attempt_budget,
        attempts,
        state,
        terminal,
        accepted_evidence: evidence,
    }))
}

fn fresh(attempt_budget: u32) -> Delivery {
    Delivery {
        attempt_budget,
        attempts: Vec::new(),
        state: DeliveryState::Pending,
        terminal: false,
        accepted_evidence: None,
    }
}

fn derive(obligation: Id, generation: u64, revision: u32) -> String {
    format!("{:x}-{generation}-{revision}", obligation.value)
}

fn wake_rules() -> WakeRules<
    fn(&Delivery, &DeliveryEvent) -> DeliveryReply,
    fn(u32) -> Delivery,
    fn(Id, u64, u32) -> String,
    fn(&str) -> bool,
    fn(&BrowserWake) -> bool,
    fn(&str) -> bool,
> {
    WakeRules {
        apply: apply_delivery,
        pending: fresh,
        derive,
        known_id: |text: &str| text.len() == 4,
        rehydrates: |_: &BrowserWake| true,
        safe,
    }
}

// --- A ledger in memory -----------------------------------------------------------------------

struct Ledger {
    rows: Vec<RawEvent>,
}

impl Ledger {
    fn append(&mut self, event: &NewEvent) -> Appended {
        let row = event_row(event);
        let known = self.rows.iter().find(|old| {
            old.source_namespace == row.source_namespace
                && old.source_event_id == row.source_event_id
                && old.source_event_fence == row.source_event_fence
        });
        if let Some(old) = known {
            return Appended::Duplicate(old.seq as u64);
        }
        let seq = self.rows.len() as i64 + 1;
        self.rows.push(RawEvent {
            seq,
            kind: row.kind.to_owned(),
            source_namespace: row.source_namespace,
            source_event_id: row.source_event_id,
            source_event_fence: row.source_event_fence,
            observed_at_ms: row.observed_at_ms,
            project_id: row.project_id,
            task_id: row.task_id,
            session_id: row.session_id,
            session_incarnation_id: row.session_incarnation_id,
            turn_id: row.turn_id,
            obligation_id: row.obligation_id,
            safe_metadata_json: row.safe_metadata_json,
        });
        Appended::Inserted(seq as u64)
    }

    fn events(&self) -> Vec<LedgerEvent> {
        collect(&self.rows, &safe).expect("the ledger decodes")
    }

    fn load(&self) -> LoadedObligation {
        let slice = obligation_slice(&self.events(), WORK);
        fold_obligation(WORK, identity(), &slice, &rules()).expect("the obligation folds")
    }
}

fn identity_row() -> IdentityRow {
    IdentityRow {
        task_id: id_text(TASK),
        turn_id: Some(id_text(TURN)),
        obligation_kind: "worker_turn".to_owned(),
        priority: 5,
        created_event_seq: 6,
    }
}

fn identity() -> ObligationIdentity {
    obligation_identity(&Some(identity_row())).expect("an identity")
}

fn opening() -> OpenWorkerTurn {
    OpenWorkerTurn {
        request: OpenWorkerTurnRequest {
            project: ProjectSpec {
                source_host: token("host"),
                source_repo_id: Some(token("repo")),
                source_repo_display: None,
            },
            source_issue_ref: None,
            session: SessionSpec {
                runtime_kind: token("pty"),
                worker_kind: token("coder"),
                display_name: None,
                runtime_instance_ref: None,
                worker_session_ref: None,
            },
            worker_turn_ref: None,
            priority: 5,
        },
        ids: OpenedWorkerTurn {
            project: id(11),
            task: TASK,
            session: id(13),
            incarnation: id(14),
            turn: TURN,
            obligation: WORK,
        },
        events: PerStep {
            project: id(101),
            task: id(102),
            session: id(103),
            incarnation: id(104),
            turn: id(105),
            obligation: id(106),
        },
        now: 1_000,
    }
}

fn opened() -> Ledger {
    let op = opening();
    let mut ledger = Ledger { rows: Vec::new() };
    let mut seqs = Vec::new();
    for event in &op.events(&safe).expect("the events") {
        seqs.push(ledger.append(event).seq());
    }
    let (rows, ids) = op
        .commit(PerStep {
            project: seqs[0],
            task: seqs[1],
            session: seqs[2],
            incarnation: seqs[3],
            turn: seqs[4],
            obligation: seqs[5],
        })
        .expect("committed");
    assert_eq!(ids, op.ids);
    assert_eq!(rows.obligation.state, "created");
    assert_eq!(rows.obligation.created_event_seq, 6);
    assert_eq!(rows.obligation_event.from_state, None);
    assert_eq!(rows.turn.lifecycle_state, "running");
    assert_eq!(rows.obligation.priority, 5);
    ledger
}

fn start(ledger: &mut Ledger, event: &str) {
    let op = RecordWorkerStarted {
        request: RecordWorkerStartedRequest { obligation: WORK, source: source(event), incarnation: 1 },
        event: id(201),
        now: 2_000,
    };
    let loaded = ledger.load();
    let new = op.event(loaded.identity).unwrap();
    let appended = ledger.append(&new);
    let committed = op.commit(&loaded, appended, &apply).unwrap();
    let rows = committed.rows.expect("a first start writes rows");
    assert_eq!(rows.obligation.state, "running");
    assert_eq!(rows.event.from_state, Some("created"));
    assert_eq!(rows.event.actor_class, "worker");
    assert_eq!(rows.obligation.source_event_seq, rows.obligation.latest_event_seq);
    assert!(!committed.output.duplicate);
    let again = op.commit(&ledger.load(), Appended::Duplicate(appended.seq()), &apply).unwrap();
    assert_eq!(again.rows, None, "a duplicate source changes nothing");
    assert!(again.output.duplicate);
}

fn receipts(ok: bool) -> CompletionReceipts {
    CompletionReceipts {
        run_ref: token("run-1"),
        final_result_complete: true,
        outcome: if ok { ManagedRunOutcome::Success } else { ManagedRunOutcome::Failure },
        child_exit: ChildExitStatus::Success,
    }
}

fn publication(ok: bool) -> PublishWorkerResult {
    PublishWorkerResult {
        request: PublishWorkerResultRequest {
            obligation: WORK,
            source: source("done"),
            incarnation: 1,
            receipts: receipts(ok),
            artifact: DurableArtifact::assert_durable_from_parts(
                token("ra-1"),
                [7; 32],
                99,
                token("text.plain"),
            ),
        },
        artifact: id(300),
        event: id(202),
        now: 3_000,
    }
}

fn publish(ledger: &mut Ledger) {
    let op = publication(true);
    let run = op.confirm(&classify).expect("confirmed");
    let loaded = ledger.load();
    let new = op.event(loaded.identity, &run).unwrap();
    let appended = ledger.append(&new);
    let committed = op.commit(&loaded, &run, appended, &apply).unwrap();
    let rows = committed.rows.expect("rows");
    assert_eq!(rows.artifact.sha256_hex, "07".repeat(32));
    assert_eq!(rows.artifact.byte_len, 99);
    assert_eq!(rows.artifact.retention_state, "eligible", "provisional until the transition");
    assert_eq!(rows.transition.obligation.state, "completed_unprocessed");
    assert_eq!(rows.transition.retention, Some(id(300)));
    assert!(rows.turn.is_some());
    assert_eq!(committed.output.artifact, id(300));
}

fn binding() -> BindingLedger {
    BindingLedger {
        highest: 1,
        active: Some(ActiveBinding { id: id(400), generation: 1, conversation: token("conv-1") }),
    }
}

fn wake() -> BrowserWake {
    let op = scheduling();
    let loaded = {
        let mut ledger = opened();
        start(&mut ledger, "start");
        publish(&mut ledger);
        ledger.load()
    };
    op.plan(None, &loaded, id(400), &wake_rules(), &on_target).expect("planned").wake
}

fn on_target(_wake: &BrowserWake, _obligation: &Obligation) -> Result<(), Conflict> {
    Ok(())
}

fn delivery_id(hex: &str) -> DeliveryId {
    let pairs = (0..hex.len()).step_by(2).map(|at| u8::from_str_radix(&hex[at..at + 2], 16));
    let drawn = DeliveryId { bytes: pairs.map(|byte| byte.expect("hexadecimal")).collect() };
    assert_eq!(drawn.to_hex(), hex);
    drawn
}

fn scheduling() -> CreateOrClaimDelivery {
    CreateOrClaimDelivery {
        request: CreateOrClaimDeliveryRequest {
            obligation: WORK,
            binding_generation: 1,
            expected_version: 2,
            expected_source: source("done"),
            revision: 1,
            attempt_budget: 2,
            wake_protocol: token("wake-1"),
        },
        candidate_delivery_id: delivery_id("abcd"),
        attempt_id: id(500),
        event: id(501),
        now: 4_000,
    }
}

// --- The work ---------------------------------------------------------------------------------

#[test]
fn an_opened_turn_replays_to_created_work() {
    let ledger = opened();
    let loaded = ledger.load();
    assert_eq!(loaded.projection.state, ObligationState::Created);
    assert_eq!(loaded.projection.kind, ObligationKind::WorkerTurn);
    assert_eq!(loaded.identity.task, TASK);
    assert_eq!(loaded.latest_event_seq, 6);
    assert_eq!(obligations_of(&ledger.events()), vec![WORK]);
}

#[test]
fn a_started_worker_replays_as_what_was_written() {
    let mut ledger = opened();
    start(&mut ledger, "start");
    let loaded = ledger.load();
    assert_eq!(loaded.projection.state, ObligationState::Running);
    let stored = StoredObligation {
        state: "running".to_owned(),
        current_version: loaded.projection.version as i64,
        current_claim_id: None,
        result_artifact_id: None,
        source_event_seq: 7,
    };
    assert_eq!(compare_obligation(WORK, &stored, &loaded), Ok(Vec::new()));
    let drifted = StoredObligation { state: "created".to_owned(), ..stored };
    let found = compare_obligation(WORK, &drifted, &loaded).unwrap();
    assert_eq!(found.len(), 1);
    assert_eq!(found[0].column, "state");
    assert_eq!((found[0].stored.as_str(), found[0].replayed.as_str()), ("created", "running"));
}

#[test]
fn a_published_result_pins_its_artifact() {
    let mut ledger = opened();
    start(&mut ledger, "start");
    publish(&mut ledger);
    let loaded = ledger.load();
    assert_eq!(loaded.projection.result_artifact, Some(id(300)));
    let row = ArtifactRow {
        storage_ref: "ra-1".to_owned(),
        sha256_hex: "07".repeat(32),
        byte_len: 99,
        created_at_ms: 3_000,
    };
    let open = open_obligation(WORK, &loaded, &Some(row), Some(1_000), &safe).unwrap();
    assert_eq!(open.created_at, 1_000);
    assert_eq!(open.result_artifact.unwrap().digest, [7; 32]);
    assert!(open_obligation(WORK, &loaded, &None, Some(1_000), &safe).is_err());
}

#[test]
fn contradicting_receipts_publish_nothing() {
    let refused = publication(false).confirm(&classify);
    assert!(refused.is_err(), "{refused:?}");
    let mut ledger = opened();
    start(&mut ledger, "start");
    let conflict = RecordTerminalEvidenceConflict {
        request: TerminalEvidenceConflictRequest { obligation: WORK, receipts: receipts(false) },
        condition: id(600),
        event: id(601),
        now: 5_000,
    };
    assert_eq!(
        conflict.condition(&ledger.load(), &classify).err(),
        Some(StoreError::Conflict(Conflict::IllegalObligationTransition {
            from: ObligationState::Running,
            event: "terminal_evidence_conflict",
        })),
        "there is no published result to contradict"
    );
    publish(&mut ledger);
    let raised = conflict.condition(&ledger.load(), &classify).unwrap();
    assert_eq!(raised.kind, HealthConditionKind::RuntimeStateConflict);
}

#[test]
fn a_failed_worker_ends_its_turn() {
    let mut ledger = opened();
    start(&mut ledger, "start");
    let op = RecordWorkerFailure {
        request: RecordWorkerFailureRequest {
            obligation: WORK,
            source: source("died"),
            incarnation: 1,
            failure: WorkerFailureClass::StructuredError,
        },
        event: id(203),
        now: 3_500,
    };
    let loaded = ledger.load();
    let appended = ledger.append(&op.event(loaded.identity).unwrap());
    let rows = op.commit(&loaded, appended, &apply).unwrap().rows.unwrap();
    assert_eq!(rows.turn.unwrap().lifecycle_state, "failed");
    assert_eq!(rows.transition.obligation.state, "failed");
    assert_eq!(ledger.load().projection.state, ObligationState::Failed);
}

#[test]
fn cancelled_work_is_closed_and_stays_so() {
    let mut ledger = opened();
    let op = CancelObligation {
        request: CancelObligationRequest { obligation: WORK, source: source("stop") },
        event: id(204),
        now: 6_000,
    };
    let before = ledger.load();
    let after = match op.cancel(&before.projection, &apply).unwrap() {
        Step::Moves(after) => after,
        other => panic!("{other:?}"),
    };
    let appended = ledger.append(&op.event(before.identity));
    let committed = CancelObligation::commit(&before.projection, &after, appended).unwrap();
    let rows = committed.rows.unwrap();
    assert_eq!(rows.event.actor_class, "user");
    assert_eq!(rows.obligation.closed_event_seq, Some(7));
    let closed = ledger.load();
    assert_eq!(closed.projection.state, ObligationState::CancelledByUser);
    assert_eq!(
        op.cancel(&closed.projection, &apply),
        Err(StoreError::Conflict(Conflict::ObligationClosed { state: ObligationState::CancelledByUser }))
    );
}

#[test]
fn a_ledger_without_its_first_event_is_corrupt() {
    let reason = |events: &[LedgerEvent]| match fold_obligation(WORK, identity(), events, &rules()) {
        Err(StoreError::Corrupt(value)) => value.reason,
        other => panic!("folded: {other:?}"),
    };
    assert_eq!(reason(&[]), CorruptReason::DanglingReference);
    let mut ledger = opened();
    start(&mut ledger, "start");
    let slice = obligation_slice(&ledger.events(), WORK);
    assert_eq!(reason(&slice[1..]), CorruptReason::UnprovableEvidence);
    assert!(obligation_identity(&None).is_err());
}

#[test]
fn an_opening_appends_its_six_events_in_order() {
    let op = opening();
    let events = op.events(&safe).unwrap();
    let kinds: Vec<EventKind> = events.iter().map(|event| event.kind).collect();
    assert_eq!(
        kinds,
        vec![
            EventKind::ProjectRegistered,
            EventKind::TaskRegistered,
            EventKind::SessionRegistered,
            EventKind::SessionIncarnationStarted,
            EventKind::TurnStarted,
            EventKind::ObligationCreated,
        ]
    );
    assert_eq!(events[1], op.event(OpeningStep::Task, &safe).unwrap());
    let refuse = |_: &str| false;
    assert_eq!(op.events(&refuse).unwrap_err(), op.event(OpeningStep::Project, &refuse).unwrap_err());
}

#[test]
fn a_source_is_appended_once() {
    assert_eq!(append(1, 9), Ok(Appended::Inserted(9)));
    assert_eq!(append(0, 9), Ok(Appended::Duplicate(9)));
    assert!(append(1, -1).is_err());
    let mut ledger = opened();
    start(&mut ledger, "start");
    let mut op = publication(true);
    let run = op.confirm(&classify).unwrap();
    let first = op.event(ledger.load().identity, &run).unwrap();
    assert_eq!(ledger.append(&first), Appended::Inserted(8));
    op.artifact = id(301);
    op.event = id(203);
    let again = op.event(ledger.load().identity, &run).unwrap();
    assert_ne!(first, again);
    assert_eq!(ledger.append(&again), Appended::Duplicate(8));
    assert_eq!(ledger.rows.len(), 8);
}

#[test]
fn a_repeated_publication_answers_with_the_first_artifact() {
    let mut ledger = opened();
    start(&mut ledger, "start");
    publish(&mut ledger);
    let mut again = publication(true);
    again.artifact = id(301);
    let (run, loaded, event) = again.decide(Ok(ledger.load()), &classify).unwrap();
    let appended = ledger.append(&event);
    assert!(appended.is_duplicate());
    let committed = again.commit(&loaded, &run, appended, &apply).unwrap();
    assert!(committed.rows.is_none());
    assert_eq!(committed.output.artifact, id(300));
    assert!(committed.output.obligation.duplicate);
    match publication(false).decide(Ok(loaded), &classify) {
        Err(StoreError::Corrupt(value)) => {
            assert_eq!(value.reason, CorruptReason::UnprovableEvidence);
        }
        other => panic!("unproven receipts were published: {other:?}"),
    }
}

#[test]
fn a_second_claim_takes_the_next_attempt() {
    let mut ledger = opened();
    start(&mut ledger, "start");
    publish(&mut ledger);
    let loaded = ledger.load();
    let op = scheduling();
    let first = op.plan(None, &loaded, id(400), &wake_rules(), &on_target).unwrap();
    let held = BrowserWake { delivery: first.next, ..first.wake };
    let second = op.plan(Some(held), &loaded, id(400), &wake_rules(), &on_target).unwrap();
    assert!(second.insert.is_none());
    let (_, claimed) = op.commit(&second, 20).unwrap();
    assert_eq!((claimed.delivery_id.as_str(), claimed.created), ("abcd", false));
    assert_eq!((first.attempt, claimed.attempt), (1, 2));
}

// --- Replay -----------------------------------------------------------------------------------

fn projections(state: &str) -> StoredProjections {
    let mut ledger = opened();
    start(&mut ledger, "start");
    let loaded = ledger.load();
    StoredProjections {
        events: ledger.events(),
        obligations: vec![ObligationRecord {
            id: WORK,
            identity: Some(identity_row()),
            stored: StoredObligation {
                state: state.to_owned(),
                current_version: loaded.projection.version as i64,
                current_claim_id: None,
                result_artifact_id: None,
                source_event_seq: 7,
            },
            transitions: vec![(6, 1), (7, loaded.projection.version as i64)],
            lifecycle: Ok("running".to_owned()),
        }],
        artifacts: Vec::new(),
        conditions: Vec::new(),
        deliveries: Vec::new(),
        highest: Some(7),
    }
}

#[test]
fn projections_that_agree_are_verified_through_the_head() {
    let verified = verify(&projections("running"), &rules(), &wake_rules());
    match verified {
        Ok(found) => {
            assert_eq!(found.obligations, 1);
            assert_eq!(found.deliveries, 0);
            assert_eq!(found.verified_through, Some(7));
        }
        other => panic!("{other:?}"),
    }
}

#[test]
fn a_drifted_projection_needs_repair() {
    match verify(&projections("failed"), &rules(), &wake_rules()) {
        Err(StoreError::RepairNeeded(repair)) => {
            assert_eq!(repair.mismatches.len(), 1);
            assert_eq!(repair.mismatches[0].table, "obligations");
            assert_eq!(repair.mismatches[0].row, id_text(WORK));
        }
        other => panic!("drift was accepted: {other:?}"),
    }
}

#[test]
fn a_turn_whose_row_is_gone_is_the_engines_failure() {
    let mut stored = projections("running");
    stored.obligations[0].lifecycle = Err("Query returned no rows".to_owned());
    match verify(&stored, &rules(), &wake_rules()) {
        Err(StoreError::Sqlite(words)) => assert_eq!(words, "Query returned no rows"),
        other => panic!("a missing turn was accepted: {other:?}"),
    }
}

#[test]
fn a_transition_that_was_never_recorded_is_reported() {
    let mut stored = projections("running");
    stored.obligations[0].transitions.pop();
    let version = stored.obligations[0].stored.current_version;
    match verify(&stored, &rules(), &wake_rules()) {
        Err(StoreError::RepairNeeded(repair)) => {
            assert_eq!(repair.mismatches.len(), 1);
            assert_eq!(repair.mismatches[0].table, "obligation_events");
            assert_eq!(repair.mismatches[0].stored, "");
            assert_eq!(repair.mismatches[0].replayed, version.to_string());
        }
        other => panic!("a missing transition was accepted: {other:?}"),
    }
}

#[test]
fn an_obligation_of_the_ledger_without_a_record_fails_closed() {
    let mut stored = projections("running");
    stored.obligations.clear();
    match verify(&stored, &rules(), &wake_rules()) {
        Err(StoreError::Corrupt(value)) => {
            assert_eq!((value.table, value.column), ("obligations", "obligation_id"));
            assert_eq!(value.reason, CorruptReason::DanglingReference);
        }
        other => panic!("a missing record was accepted: {other:?}"),
    }
}

// --- The binding ------------------------------------------------------------------------------

fn apply_binding(ledger: &BindingLedger, event: &BindingEvent) -> BindingReply {
    match event {
        BindingEvent::Bound { target, .. } => Ok(Applied::Advanced(BindingLedger {
            highest: ledger.highest + 1,
            active: Some(ActiveBinding {
                id: target.id,
                generation: ledger.highest + 1,
                conversation: target.conversation.clone(),
            }),
        })),
        BindingEvent::Displaced { .. } => {
            Ok(Applied::Advanced(BindingLedger { highest: ledger.highest, active: None }))
        }
    }
}

#[test]
fn a_binding_advances_the_generation_and_replays() {
    let op = BindForeman {
        request: BindForemanRequest {
            provider: token("web"),
            conversation: token("conv-2"),
            conversation_url_ref: token("url-2"),
            profile: token("profile"),
            connector_abi: token("abi-1"),
            capability_epoch: 3,
            write_capability: WriteCapabilityState::Proven,
        },
        binding: id(401),
        event: id(402),
        now: 7_000,
    };
    assert_eq!(op.generation(binding(), &apply_binding), Ok(2));
    let known = |_: &BindingLedger, _: &BindingEvent| -> BindingReply { Ok(Applied::Duplicate) };
    assert_eq!(op.generation(binding(), &known), Ok(1), "a duplicate keeps the active generation");
    let refuse = |_: &BindingLedger, _: &BindingEvent| -> BindingReply {
        Err(Conflict::UnknownDeliveryId)
    };
    assert_eq!(
        op.generation(binding(), &refuse),
        Err(StoreError::Conflict(Conflict::UnknownDeliveryId))
    );
    let (row, bound) = op.commit(2, 8).unwrap();
    assert_eq!(row.binding_generation, 2);
    assert_eq!(row.write_capability_state, "proven");
    assert_eq!((bound.binding, bound.generation), (id(401), 2));
    let stored = |generation: i64, active: i64| BindingRow {
        foreman_binding_id: id_text(id(401)),
        canonical_conversation_id: "conv-2".to_owned(),
        browser_profile_id: "profile".to_owned(),
        connector_abi: "abi-1".to_owned(),
        binding_generation: generation,
        capability_epoch: 3,
        write_capability_state: "proven".to_owned(),
        is_active: active,
    };
    let rules = BindingRules { apply: apply_binding, safe };
    let replayed = bindings(&vec![stored(1, 0), stored(2, 1)], &rules).unwrap();
    assert_eq!(replayed.highest, 2);
    assert!(bindings(&vec![stored(2, 1)], &rules).is_err(), "a generation is missing");
    match bindings(&vec![stored(1, 1), stored(2, 1)], &rules) {
        Err(StoreError::Corrupt(value)) => {
            assert_eq!((value.table, value.column), ("foreman_bindings", "is_active"));
            assert_eq!(value.reason, CorruptReason::UnprovableEvidence);
        }
        other => panic!("two active bindings were accepted: {other:?}"),
    }
}

// --- The wake ---------------------------------------------------------------------------------

#[test]
fn a_wake_is_created_claimed_armed_and_accepted() {
    let op = scheduling();
    let fence = |_: &BindingLedger, _: u64| Ok(());
    assert_eq!(op.binding(&binding(), &fence), Ok(id(400)));
    let mut ledger = opened();
    start(&mut ledger, "start");
    publish(&mut ledger);
    let loaded = ledger.load();
    let plan = op.plan(None, &loaded, id(400), &wake_rules(), &on_target).unwrap();
    let insert = plan.insert.as_ref().expect("a new revision is inserted");
    assert_eq!(insert.delivery_id, "abcd");
    assert_eq!(insert.delivery_key, derive(WORK, 1, 1));
    assert_eq!(
        insert.wake_payload_digest,
        wake_payload_digest(&delivery_id("abcd"), WORK, 1, 1, &token("wake-1"))
    );
    assert_eq!(plan.attempt, 1);
    let seq = ledger.append(&op.event(TASK, &plan, &safe).unwrap()).seq();
    let (rows, claimed) = op.commit(&plan, seq).unwrap();
    assert_eq!(rows.attempt.state, "claimed");
    assert_eq!((claimed.attempt, claimed.created), (1, true));

    let arm = ArmDeliverySend {
        request: ArmDeliverySendRequest {
            delivery_id: delivery_id("abcd"),
            binding_generation: 1,
            attempt: 1,
        },
        event: id(502),
        now: 4_100,
    };
    let claimed_wake = BrowserWake { delivery: plan.next, ..wake() };
    assert_eq!(arm.same_generation(&claimed_wake), Ok(()));
    let armed = match arm.arm(&claimed_wake, &loaded.projection, &on_target, &apply_delivery).unwrap() {
        Applied::Advanced(next) => next,
        Applied::Duplicate => panic!("not armed"),
    };
    assert_eq!(armed.attempts[0].state, AttemptState::ActivationArmed);
    let moved = |_: &BrowserWake, _: &Obligation| {
        Err(Conflict::Refused { kind: ConflictKind::StaleDeliveryTarget })
    };
    assert!(arm.arm(&claimed_wake, &loaded.projection, &moved, &apply_delivery).is_err());
    let event = arm.event(TASK, WORK, 1, &safe).unwrap();
    let seq = ledger.append(&event).seq();
    assert_eq!(arm.commit(seq).unwrap().0.state, "activation_armed");

    let outcome = RecordDeliveryOutcome {
        request: RecordDeliveryOutcomeRequest {
            delivery_id: delivery_id("abcd"),
            attempt: 1,
            outcome: DeliveryOutcome::Accepted { message: token("msg-1") },
        },
        event: id(503),
        resolution_event: id(504),
        now: 4_200,
    };
    let armed_wake = BrowserWake { delivery: armed, ..wake() };
    assert!(outcome.needs_binding(&armed_wake));
    let next = match outcome.observe(&armed_wake, &Some(token("conv-1")), &apply_delivery).unwrap() {
        DeliveryStep::Moves(next) => next,
        other => panic!("{other:?}"),
    };
    let seq = ledger.append(&outcome.event(TASK, WORK, 1, &safe).unwrap()).seq();
    let (rows, state) = outcome.commit(&next, seq).unwrap();
    assert_eq!(state, DeliveryState::Accepted);
    assert!(rows.resolves_unreachable);
    assert_eq!(rows.delivery.accepted_message_ref, Some(token("msg-1")));

    let folded = fold_delivery(
        &obligation_slice(&ledger.events(), WORK),
        1,
        2,
        &token("conv-1"),
        &Some("msg-1".to_owned()),
        &wake_rules(),
    )
    .unwrap();
    assert_eq!(folded, next, "the ledger replays to what was written");
}

#[test]
fn a_found_revision_keeps_its_identity() {
    let mut op = scheduling();
    op.candidate_delivery_id = delivery_id("ffff");
    let mut ledger = opened();
    start(&mut ledger, "start");
    publish(&mut ledger);
    let plan = op.plan(Some(wake()), &ledger.load(), id(400), &wake_rules(), &on_target).unwrap();
    assert_eq!(plan.insert, None);
    assert_eq!(plan.wake.delivery_hex, "abcd");
    let (_, claimed) = op.commit(&plan, 9).unwrap();
    assert_eq!(claimed.delivery_id, "abcd");
    assert!(!claimed.created);
}

#[test]
fn a_failed_attempt_and_an_ambiguous_one_are_told_apart() {
    let claimed = match apply_delivery(&fresh(2), &DeliveryEvent::AttemptClaimed { at: 0 }).unwrap() {
        Applied::Advanced(next) => next,
        Applied::Duplicate => panic!(),
    };
    let record = |outcome| RecordDeliveryOutcome {
        request: RecordDeliveryOutcomeRequest { delivery_id: delivery_id("abcd"), attempt: 1, outcome },
        event: id(503),
        resolution_event: id(504),
        now: 4_200,
    };
    let failed = record(DeliveryOutcome::Failed { failure: FailureClass::TargetNotFound });
    let wake = BrowserWake { delivery: claimed, ..wake() };
    assert!(!failed.needs_binding(&wake));
    match failed.observe(&wake, &None, &apply_delivery).unwrap() {
        DeliveryStep::Moves(next) => {
            let (rows, state) = failed.commit(&next, 9).unwrap();
            assert_eq!(state, DeliveryState::Failed);
            assert!(rows.attempt.failure_class.is_some());
            assert!(!rows.resolves_unreachable);
        }
        other => panic!("{other:?}"),
    }
    let lost = record(DeliveryOutcome::Ambiguous { reason: AmbiguityReason::ObservationLost });
    let ambiguous = match lost.observe(&wake, &None, &apply_delivery).unwrap() {
        DeliveryStep::Moves(next) => next,
        other => panic!("{other:?}"),
    };
    let (rows, _) = lost.commit(&ambiguous, 9).unwrap();
    assert!(rows.attempt.evidence_class.is_some());

    let reconcile = ReconcileAmbiguousDelivery {
        request: ReconcileAmbiguousDeliveryRequest {
            delivery_id: delivery_id("abcd"),
            binding_generation: 1,
            conversation: token("conv-1"),
            message: token("msg-9"),
        },
        event: id(505),
        resolution_event: id(506),
        now: 4_300,
    };
    let wake = BrowserWake { delivery: ambiguous, ..wake };
    let bound = reconcile.conversation(&binding(), &|_: &BindingLedger, _: u64| Ok(())).unwrap();
    assert_eq!(reconcile.check(&wake, &bound), Ok(()));
    assert!(reconcile.check(&wake, &token("conv-2")).is_err(), "another conversation proves nothing");
    match reconcile.promote(&wake, &bound, &apply_delivery).unwrap() {
        DeliveryStep::Moves(next) => {
            let (rows, state) = reconcile.commit(&next, 10).unwrap();
            assert_eq!(state, DeliveryState::Accepted);
            assert_eq!(rows.promoted, vec![1]);
        }
        other => panic!("{other:?}"),
    }
}

#[test]
fn a_stored_wake_is_rehydrated_or_refused() {
    let row = || WakeRow {
        delivery_key: derive(WORK, 1, 1),
        obligation_id: id_text(WORK),
        target_obligation_version: 2,
        target_source_event_seq: 8,
        foreman_binding_id: id_text(id(400)),
        binding_generation: 1,
        delivery_revision: 1,
        attempt_budget: 2,
        accepted_message_ref: None,
    };
    let from = SourceRow { namespace: "hook".to_owned(), event: "done".to_owned(), fence: "1".to_owned() };
    let conversation = Some("conv-1".to_owned());
    let loaded =
        wake_by_hex("abcd", &Some(row()), &Some(from), &conversation, &[], &wake_rules()).unwrap();
    assert_eq!(loaded.wake.target, WakeTarget { obligation: WORK, version: 2, source: source("done") });
    assert_eq!(loaded.target_source_event_seq, 8);
    let from = SourceRow { namespace: "hook".to_owned(), event: "done".to_owned(), fence: "1".to_owned() };
    let mut drifted = row();
    drifted.delivery_key = "other".to_owned();
    assert!(wake_by_hex("abcd", &Some(drifted), &Some(from), &conversation, &[], &wake_rules()).is_err());
    assert!(wake_by_hex("abcd", &None, &None, &conversation, &[], &wake_rules()).is_err());
}

// --- The claim --------------------------------------------------------------------------------

fn mint(
    request: &ResumeRequest,
    _bindings: &BindingLedger,
    _wake: &BrowserWake,
    obligation: &Obligation,
) -> MintReply {
    let event = ObligationEvent::ForemanClaimed {
        claim: request.claim,
        binding_generation: request.binding_generation,
        expected_version: request.expected_version,
        expected_source: request.expected_source.clone(),
        at: request.now,
    };
    match apply(obligation, &event)? {
        Applied::Advanced(next) => Ok(Minted {
            version_at_claim: next.version,
            expires_at: request.now + request.lifetime as i64,
            obligation: next,
        }),
        Applied::Duplicate => Err(Conflict::Refused { kind: ConflictKind::ObligationAlreadyClaimed }),
    }
}

fn acknowledge(
    request: &AckRequest,
    _bindings: &BindingLedger,
    _claim: &ForemanClaim,
    obligation: &Obligation,
) -> ObligationReply {
    apply(obligation, &ObligationEvent::ForemanAcked {
        obligation: request.obligation,
        expected_version: request.expected_version,
        expected_source: request.expected_source.clone(),
        binding_generation: request.binding_generation,
        claim: request.claim,
        disposition: request.disposition,
        at: request.at,
    })
}

#[test]
fn work_is_claimed_handed_over_and_acknowledged() {
    let mut ledger = opened();
    start(&mut ledger, "start");
    publish(&mut ledger);
    let loaded = ledger.load();
    let op = MintForemanClaim {
        request: MintClaimRequest {
            obligation: WORK,
            presented_delivery_id: delivery_id("abcd"),
            binding_generation: 1,
            expected_version: loaded.projection.version,
            expected_source: source("done"),
            lifetime: 60_000,
        },
        claim: id(700),
        event: id(701),
        now: 8_000,
    };
    let minted = op.mint(&binding(), &wake(), &loaded.projection, &mint).unwrap();
    let seq = ledger.append(&op.event(loaded.identity, &safe).unwrap()).seq();
    let (rows, claim) = op.commit(&loaded, &minted, seq).unwrap();
    assert_eq!(rows.claim.expires_at_ms, 68_000);
    assert_eq!(rows.transition.obligation.state, "claimed_by_foreman");
    assert_eq!(rows.transition.event.actor_class, "foreman");
    assert_eq!(claim.claim, id(700));
    let stale = MintForemanClaim {
        request: MintClaimRequest {
            obligation: WORK,
            presented_delivery_id: delivery_id("abcd"),
            binding_generation: 1,
            expected_version: 99,
            expected_source: source("done"),
            lifetime: 1,
        },
        claim: id(702),
        event: id(703),
        now: 8_000,
    };
    assert!(stale.mint(&binding(), &wake(), &loaded.projection, &mint).is_err());

    let hand = DeliverHandoff {
        request: DeliverHandoffRequest { obligation: WORK, claim: id(700) },
        event: id(704),
        now: 8_500,
    };
    let loaded = ledger.load();
    assert_eq!(loaded.projection.claim, Some(id(700)));
    let after = match hand.hand_over(&loaded.projection, &apply).unwrap() {
        Step::Moves(after) => after,
        other => panic!("{other:?}"),
    };
    let seq = ledger.append(&hand.event(loaded.identity, &safe).unwrap()).seq();
    let (rows, _) = DeliverHandoff::commit(&loaded, &after, seq).unwrap();
    assert_eq!(rows.obligation.state, "processing");

    let loaded = ledger.load();
    let ack = AcknowledgeObligation {
        request: AcknowledgeRequest {
            obligation: WORK,
            expected_version: loaded.projection.version,
            expected_source: source("done"),
            binding_generation: 1,
            claim: id(700),
            disposition: Disposition::Accepted,
        },
        event: id(705),
        now: 9_000,
    };
    let held = ForemanClaim {
        id: id(700),
        obligation: WORK,
        version_at_claim: minted.version_at_claim,
        binding_generation: 1,
        wake_delivery_hex: "abcd".to_owned(),
        state: ClaimState::Live,
        created_at: 8_000,
        expires_at: 68_000,
    };
    let after = match ack.acknowledge(&binding(), &held, &loaded.projection, &acknowledge).unwrap() {
        Applied::Advanced(after) => after,
        Applied::Duplicate => panic!("already acknowledged"),
    };
    let seq = ledger.append(&ack.event(loaded.identity, &safe).unwrap()).seq();
    let (rows, done) = ack.commit(&loaded, &after, seq).unwrap();
    assert_eq!(rows.claim.closed_event_seq, seq as i64);
    assert_eq!(rows.transition.obligation.closed_event_seq, Some(seq as i64));
    assert_eq!(rows.transition.event.disposition, Some("accepted"));
    assert!(!done.already_committed);
    assert!(done.obligation.state.is_closed());
    assert_eq!(rows.claim.state, "closed");
    let closed = ledger.load();
    assert_eq!(closed.projection.state, ObligationState::Acknowledged);
    assert!(AcknowledgeObligation::repeated(&closed.projection).already_committed);
}

#[test]
fn a_claim_is_rehydrated_only_for_its_own_work() {
    let row = || ClaimRow {
        obligation_id: id_text(WORK),
        obligation_version_at_claim: 3,
        binding_generation: 1,
        wake_delivery_id: "abcd".to_owned(),
        state: "live".to_owned(),
        expires_at_ms: 68_000,
        observed_at_ms: 8_000,
    };
    let known = |text: &str| text.len() == 4;
    assert_eq!(
        claim_provenance(WORK, id(700), &Some(row()), &known),
        Ok((WORK, "abcd".to_owned()))
    );
    assert_eq!(
        claim_provenance(id(9), id(700), &Some(row()), &known),
        Ok((WORK, "abcd".to_owned())),
        "the row names the work it holds, whoever asks"
    );
    assert_eq!(
        claim_provenance(WORK, id(700), &None, &known),
        Err(StoreError::Conflict(Conflict::StaleClaim { presented: id(700), obligation: WORK }))
    );
    let proven = |_: &ForemanClaim, _: &BrowserWake| true;
    let claim = rehydrate_claim(id(700), WORK, &row(), &wake(), &proven).unwrap();
    assert_eq!((claim.version_at_claim, claim.state), (3, ClaimState::Live));
    assert!(rehydrate_claim(id(700), WORK, &row(), &wake(), &|_: &ForemanClaim, _: &BrowserWake| false).is_err());
}

// --- Health -----------------------------------------------------------------------------------

#[test]
fn a_condition_is_raised_once_and_resolved_once() {
    let loaded = opened().load();
    let op = RaiseForemanUnreachable {
        request: RaiseForemanUnreachableRequest { obligation: WORK },
        condition: id(800),
        event: id(801),
        now: 1,
    };
    let raise = op.condition(&loaded.projection).unwrap();
    assert_eq!(raise.already_open(&None), Ok(None));
    assert!(raise.already_open(&Some(id_text(id(5)))).unwrap().unwrap().duplicate);
    let mut ledger = opened();
    let event = raise.event(&HealthLedger::new(), &safe).unwrap();
    let seq = ledger.append(&event).seq();
    let (row, recorded) = raise.commit(seq).unwrap();
    assert_eq!((row.kind, row.state), ("foreman_unreachable", "open"));
    assert!(!recorded.duplicate);
    let folded = fold_health(&ledger.events()).unwrap();
    assert_eq!(folded.conditions.len(), 1);

    let resolve = ResolveCondition {
        kind: HealthConditionKind::ForemanUnreachable,
        scope: HealthScope::obligation(WORK),
        event: id(802),
        now: 2,
    };
    assert!(matches!(resolve.open_one(&None).unwrap(), Resolution::Nothing(found) if found.duplicate));
    assert_eq!(resolve.open_one(&Some(id_text(id(800)))), Ok(Resolution::Closes(id(800))));
    let event = resolve.event(id(800), &folded, &safe).unwrap();
    let seq = ledger.append(&event).seq();
    let (update, _) = resolve.commit(id(800), seq).unwrap();
    assert_eq!(update.state, "resolved");
    let folded = fold_health(&ledger.events()).unwrap();
    assert_eq!(folded.open_position(HealthConditionKind::ForemanUnreachable, HealthScope::obligation(WORK)), None);
}

#[test]
fn a_missing_artifact_is_raised_only_where_it_is_required() {
    let request = ResultArtifactMissingRequest { obligation: WORK, artifact: id(300) };
    let op = RaiseResultArtifactMissing { request, condition: id(810), event: id(811), now: 1 };
    assert!(op.condition(&opened().load().projection).is_err(), "nothing is pinned yet");
    let mut ledger = opened();
    start(&mut ledger, "start");
    publish(&mut ledger);
    let raised: RaiseCondition = op.condition(&ledger.load().projection).unwrap();
    assert_eq!(raised.kind, HealthConditionKind::ResultArtifactMissing);
}

#[test]
fn a_session_condition_needs_its_session() {
    let request = SessionHealthRequest { session: id(13) };
    let raised =
        request.raise(SessionAttention::LoadoutUnverifiable, true, id(820), id(821), 1).unwrap();
    assert_eq!(raised.kind, HealthConditionKind::LoadoutUnverifiable);
    assert_eq!(raised.scope, HealthScope::session(id(13)));
    assert!(request.raise(SessionAttention::LineageBroken, false, id(820), id(821), 1).is_err());
    assert!(request.resolve(SessionAttention::ManagedConfigMissing, true, id(822), 2).is_ok());
}

#[test]
fn open_conditions_are_read_from_their_rows() {
    let row = ConditionRow {
        kind: "suspected_stall".to_owned(),
        state: "open".to_owned(),
        task_id: None,
        session_id: None,
        turn_id: Some(id_text(TURN)),
        obligation_id: None,
        external_attempt_id: None,
    };
    let found = open_conditions(&vec![row]).unwrap();
    assert_eq!(found[0].kind, HealthConditionKind::SuspectedStall);
    assert_eq!(found[0].scope, HealthScope::turn(TURN));
}

// --- The order of refusals ---------------------------------------------------------------------

fn published() -> LoadedObligation {
    let mut ledger = opened();
    start(&mut ledger, "start");
    publish(&mut ledger);
    ledger.load()
}

fn fenced(_: &BindingLedger, _: u64) -> Result<(), Conflict> {
    Ok(())
}

fn refused(_: &BindingLedger, generation: u64) -> Result<(), Conflict> {
    Err(Conflict::StaleBindingGeneration { presented: generation, active: 9 })
}

fn unknown<T>() -> Result<T, StoreError> {
    Err(StoreError::Conflict(Conflict::UnknownDeliveryId))
}

fn arming() -> ArmDeliverySend {
    ArmDeliverySend {
        request: ArmDeliverySendRequest {
            delivery_id: delivery_id("abcd"),
            binding_generation: 1,
            attempt: 1,
        },
        event: id(502),
        now: 4_100,
    }
}

fn reconciling() -> ReconcileAmbiguousDelivery {
    ReconcileAmbiguousDelivery {
        request: ReconcileAmbiguousDeliveryRequest {
            delivery_id: delivery_id("abcd"),
            binding_generation: 1,
            conversation: token("conv-1"),
            message: token("msg-1"),
        },
        event: id(510),
        resolution_event: id(511),
        now: 5_000,
    }
}

#[test]
fn a_refused_generation_hides_everything_behind_it() {
    let stale = Err(StoreError::Conflict(Conflict::StaleBindingGeneration {
        presented: 1,
        active: 9,
    }));
    let armed =
        arming().decide(Ok(binding()), unknown(), unknown(), &refused, &on_target, &apply_delivery, &safe);
    assert_eq!(armed.map(drop), stale);
    let stale = Err(StoreError::Conflict(Conflict::StaleBindingGeneration {
        presented: 1,
        active: 9,
    }));
    let promoted =
        reconciling().decide(Ok(binding()), unknown(), unknown(), &refused, &apply_delivery, &safe);
    assert_eq!(promoted.map(drop), stale);
}

#[test]
fn an_unknown_wake_is_refused_before_its_work_is_looked_at() {
    let corrupt = || Err(StoreError::Sqlite("never looked at".to_owned()));
    let armed =
        arming().decide(Ok(binding()), unknown(), corrupt(), &fenced, &on_target, &apply_delivery, &safe);
    assert_eq!(armed.map(drop), unknown());
    let promoted =
        reconciling().decide(Ok(binding()), unknown(), corrupt(), &fenced, &apply_delivery, &safe);
    assert_eq!(promoted.map(drop), unknown());
    let broken =
        arming().decide(Ok(binding()), Ok(wake()), corrupt(), &fenced, &on_target, &apply_delivery, &safe);
    assert_eq!(broken.map(drop), Err(StoreError::Sqlite("never looked at".to_owned())));
}

#[test]
fn a_claim_is_decided_once_every_fence_passed() {
    let version = |o: &Obligation, v: u64| {
        if o.version == v {
            Ok(())
        } else {
            Err(Conflict::Refused { kind: ConflictKind::StaleObligationVersion })
        }
    };
    let origin = |_: &Obligation, _: &SourceRef| Ok(());
    let mut op = scheduling();
    op.request.expected_version = published().projection.version;
    let (plan, event) = op
        .decide(
            Ok(binding()),
            Ok(published()),
            Ok(None),
            &fenced,
            &version,
            &origin,
            &on_target,
            &wake_rules(),
        )
        .unwrap();
    assert_eq!(plan.attempt, 1);
    assert_eq!(event.scope.obligation, Some(WORK));
    op.request.expected_version = 99;
    let late = op.decide(
        Ok(binding()),
        Ok(published()),
        unknown(),
        &fenced,
        &version,
        &origin,
        &on_target,
        &wake_rules(),
    );
    assert_eq!(
        late.map(drop),
        Err(StoreError::Conflict(Conflict::Refused { kind: ConflictKind::StaleObligationVersion }))
    );
}

#[test]
fn an_acceptance_reads_the_binding_only_where_it_must() {
    let outcome = |outcome| RecordDeliveryOutcome {
        request: RecordDeliveryOutcomeRequest { delivery_id: delivery_id("abcd"), attempt: 1, outcome },
        event: id(503),
        resolution_event: id(504),
        now: 4_200,
    };
    let plan = scheduling()
        .plan(None, &published(), id(400), &wake_rules(), &on_target)
        .unwrap();
    let mut held = wake();
    held.delivery = match arming().arm(
        &BrowserWake { delivery: plan.next, ..wake() },
        &published().projection,
        &on_target,
        &apply_delivery,
    ) {
        Ok(Applied::Advanced(next)) => next,
        other => panic!("{other:?}"),
    };
    let accepted = outcome(DeliveryOutcome::Accepted { message: token("msg-1") });
    let copy = || BrowserWake {
        delivery: Delivery {
            attempt_budget: held.delivery.attempt_budget,
            attempts: held.delivery.attempts.clone(),
            state: held.delivery.state,
            terminal: held.delivery.terminal,
            accepted_evidence: None,
        },
        ..wake()
    };
    let unread = accepted.decide(Ok(copy()), Ok(published()), unknown(), &fenced, &apply_delivery, &safe);
    assert_eq!(unread.map(drop), unknown());
    match accepted.decide(Ok(copy()), Ok(published()), Ok(binding()), &fenced, &apply_delivery, &safe) {
        Ok(Decided::Appends { plan, .. }) => assert_eq!(plan.state, DeliveryState::Accepted),
        other => panic!("{other:?}"),
    }
    let lost = outcome(DeliveryOutcome::Ambiguous { reason: AmbiguityReason::ObservationLost });
    match lost.decide(Ok(copy()), Ok(published()), unknown(), &fenced, &apply_delivery, &safe) {
        Ok(Decided::Appends { plan, .. }) => assert_eq!(plan.state, DeliveryState::Ambiguous),
        other => panic!("{other:?}"),
    }
}

#[test]
fn work_that_already_moved_appends_nothing() {
    let op = CancelObligation {
        request: CancelObligationRequest { obligation: WORK, source: source("stop") },
        event: id(900),
        now: 9_500,
    };
    let mut ledger = opened();
    let moving = match op.decide(Ok(ledger.load()), &apply) {
        Ok(Decided::Appends { event, plan }) => {
            assert_eq!(plan.after.state, ObligationState::CancelledByUser);
            event
        }
        other => panic!("{other:?}"),
    };
    ledger.append(&moving);
    let again = op.decide(Ok(ledger.load()), &apply);
    assert!(!matches!(again, Ok(Decided::Appends { .. })));
    assert_eq!(op.decide(unknown(), &apply).map(drop), unknown());
}

#[test]
fn receipts_are_arbitrated_before_the_work_is_read() {
    let (run, loaded, event) = publication(true).decide(Ok(published()), &classify).unwrap();
    assert_eq!((run, loaded.projection.id), (token("run-1"), WORK));
    assert_eq!(event.source, source("done"));
    assert!(matches!(
        publication(false).decide(unknown(), &classify),
        Err(StoreError::Corrupt(value)) if value.reason == CorruptReason::UnprovableEvidence
    ));
    assert_eq!(publication(true).decide(unknown(), &classify).map(drop), unknown());
}

#[test]
fn a_repeated_condition_does_not_read_the_ledger() {
    let raise = RaiseCondition {
        condition: id(800),
        kind: HealthConditionKind::ForemanUnreachable,
        scope: HealthScope::obligation(WORK),
        event: id(801),
        now: 1,
    };
    let resolve = ResolveCondition {
        kind: HealthConditionKind::ForemanUnreachable,
        scope: HealthScope::obligation(WORK),
        event: id(802),
        now: 2,
    };
    match raise.decide(Ok(Some(id_text(id(5)))), unknown(), &safe) {
        Ok(Decided::Settled(recorded)) => assert!(recorded.duplicate),
        other => panic!("{other:?}"),
    }
    match resolve.decide(Ok(None), unknown(), &safe) {
        Ok(Decided::Settled(recorded)) => assert!(recorded.duplicate),
        other => panic!("{other:?}"),
    }
    match raise.decide(Ok(None), Ok(HealthLedger::new()), &safe) {
        Ok(Decided::Appends { plan, .. }) => assert_eq!(plan, id(800)),
        other => panic!("{other:?}"),
    }
    assert!(resolve.decide(Ok(Some(id_text(id(5)))), Ok(HealthLedger::new()), &safe).is_err());
}
