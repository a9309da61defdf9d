use command_governor::domain::conflict::{Conflict, ConflictKind};
use command_governor::domain::delivery::{
    Attempt, AttemptState, BrowserWake, Delivery, DeliveryEvent, DeliveryReply, DeliveryState,
    WakeTarget,
};
use command_governor::domain::effect::{
    AttemptReply, DestinationRef, EffectAmbiguityReason, ExternalAttempt, ExternalAttemptEvent,
    ExternalAttemptState, ExternalEffectClass, IdempotencyContract, NoEffectClass,
};
use command_governor::domain::fence::{SafeToken, SourceRef};
use command_governor::domain::id::{id_text, Id};
use command_governor::domain::lease::{
    IncarnationMismatch, LeaseHolderProof, LeaseReply, LeaseState, LeaseStep, ProcessIncarnation,
    ResourceLease, ResourceOwnership,
};
use command_governor::domain::mutation::{
    AdmissionReply, MutationCommand, MutationCommandEvent, MutationCommandStatus,
    MutationDisposition, MutationReply, SafeMutationResult,
};
use command_governor::domain::obligation::{
    Applied, Obligation, ObligationKind, ObligationState,
};
use command_governor::domain::session::{
    ManagedConfigRef, ParentOf, ResumePolicy, SessionRelation, SnapshotRef, WorkerLoadoutSpec,
};
use command_governor::store::error::{CorruptReason, StoreError};
use command_governor::store::event::Appended;
use command_governor::store::event_kind::EventKind;
use command_governor::store::load::loadout::{launch_record, LaunchRow};
use command_governor::store::load::obligation::{LoadedObligation, ObligationIdentity};
use command_governor::store::ops::effect::{
    self, AttemptRow, ExternalOutcome, MarkExternalDispatched, MarkExternalDispatchedRequest,
    RecordExternalIntent, RecordExternalIntentRequest, RecordExternalOutcome,
    RecordExternalOutcomeRequest,
};
use command_governor::store::ops::lease::{
    self, AcquireLease, AcquireLeaseRequest, LeaseHolderRequest, LeaseRow, LeaseWrite, ReleaseLease,
    RenewLease, ResourceRef,
};
use command_governor::store::ops::mutation::{
    self, AckMutationReceipt, AckMutationReceiptRequest, BeginMutation, BeginMutationRequest,
    CommandRow, CompleteMutation, CompleteMutationRequest, MutationAdmission,
};
use command_governor::store::ops::pass::{LiveWake, PassRules, RecoveryAction};
use command_governor::store::ops::recovery::{
    RecoverStartup, RecoverStartupRequest, StartupRecovery, MAX_QUARANTINED_PER_PASS,
};
use command_governor::store::ops::session::{
    read_binding, require_no_lineage_cycle, AuthorizeWorkerSpawn, AuthorizeWorkerSpawnRequest,
    BindSessionLoadout, BindSessionLoadoutRequest, BindingRow, ConfigRow, RecordManagedConfig,
    RecordManagedConfigRequest, RecordSessionLineage, RecordSessionLineageRequest,
    ResolveWorkerLoadout, ResolveWorkerLoadoutRequest, SpawnFacts, StoredEdge, MAX_LINEAGE_DEPTH,
};
use command_governor::store::ops::worker::DurableArtifact;
use command_governor::store::ops::AttemptEvidence;

fn safe(text: &str) -> bool {
    !text.is_empty()
        && text.len() <= 128
        && text.chars().all(|c| c.is_ascii_alphanumeric() || "-_.:".contains(c))
}

fn token(text: &str) -> SafeToken {
    SafeToken::new(text, &safe).expect("token")
}

fn id(value: u128) -> Id {
    Id { value }
}

fn source(event: &str) -> SourceRef {
    SourceRef { namespace: token("hook"), event: token(event), fence: token("1") }
}

fn destination() -> DestinationRef {
    DestinationRef { namespace: token("host"), endpoint: token("spawn"), fence: token("f1") }
}

fn corrupt_reason<T: std::fmt::Debug>(r: Result<T, StoreError>) -> CorruptReason {
    match r {
        Err(StoreError::Corrupt(value)) => value.reason,
        other => panic!("not corrupt: {other:?}"),
    }
}

// --- External effects -------------------------------------------------------------------------

fn copy_class(class: &ExternalEffectClass) -> ExternalEffectClass {
    match class {
        ExternalEffectClass::Read => ExternalEffectClass::Read,
        ExternalEffectClass::NonIdempotentWrite => ExternalEffectClass::NonIdempotentWrite,
        ExternalEffectClass::IdempotentWrite { contract, key } => {
            ExternalEffectClass::IdempotentWrite { contract: *contract, key: key.clone() }
        }
    }
}

fn copy_attempt(a: &ExternalAttempt) -> ExternalAttempt {
    let mut next = ExternalAttempt::record_intent(
        a.id,
        copy_class(&a.class),
        DestinationRef {
            namespace: a.destination.namespace.clone(),
            endpoint: a.destination.endpoint.clone(),
            fence: a.destination.fence.clone(),
        },
        a.source.clone(),
        a.daemon_epoch,
        a.recorded_at,
    );
    next.dispatched_at = a.dispatched_at;
    next
}

fn apply_effect(attempt: &ExternalAttempt, event: &ExternalAttemptEvent) -> AttemptReply {
    if attempt.state != ExternalAttemptState::IntentRecorded {
        return match (attempt.state, event) {
            (ExternalAttemptState::Completed, ExternalAttemptEvent::Completed { .. }) => {
                Ok(Applied::Duplicate)
            }
            _ => Err(Conflict::Refused { kind: ConflictKind::IllegalAttemptTransition }),
        };
    }
    let mut next = copy_attempt(attempt);
    match event {
        ExternalAttemptEvent::CallDispatched { at } => {
            if attempt.dispatched_at.is_some() {
                return Ok(Applied::Duplicate);
            }
            next.dispatched_at = Some(*at);
        }
        ExternalAttemptEvent::Completed { evidence, at } => {
            next.state = ExternalAttemptState::Completed;
            next.outcome = Some(evidence.clone());
            next.finished_at = Some(*at);
        }
        ExternalAttemptEvent::FailedBeforeEffect { proven, at } => {
            next.state = ExternalAttemptState::FailedBeforeEffect;
            next.no_effect = Some(*proven);
            next.finished_at = Some(*at);
        }
        ExternalAttemptEvent::OutcomeUnknown { reason, at } => {
            next.state = ExternalAttemptState::Ambiguous;
            next.ambiguity = Some(*reason);
            next.finished_at = Some(*at);
        }
    }
    Ok(Applied::Advanced(next))
}

fn intent(class: ExternalEffectClass) -> RecordExternalIntent {
    RecordExternalIntent {
        request: RecordExternalIntentRequest {
            class,
            destination: destination(),
            source: source("ask"),
            daemon_epoch: 3,
        },
        attempt: id(900),
        recorded_at: 10,
    }
}

fn intent_row() -> AttemptRow {
    AttemptRow {
        effect_class: "non_idempotent_write".to_owned(),
        idempotency_contract: None,
        idempotency_window_ms: None,
        idempotency_key: None,
        destination_namespace: "host".to_owned(),
        destination_endpoint: "spawn".to_owned(),
        destination_fence: "f1".to_owned(),
        source_namespace: "hook".to_owned(),
        source_event_id: "ask".to_owned(),
        source_event_fence: "1".to_owned(),
        daemon_epoch: 3,
        state: "intent_recorded".to_owned(),
        dispatched: 0,
        completion_ref: None,
        no_effect_class: None,
        ambiguity_reason: None,
        recorded_at_ms: 10,
        dispatched_at_ms: None,
        finished_at_ms: None,
    }
}

#[test]
fn an_intent_is_recorded_before_its_permit() {
    let op = intent(ExternalEffectClass::NonIdempotentWrite);
    let row = op.commit().unwrap();
    assert_eq!(row.state, "intent_recorded");
    assert_eq!(row.class.class, "non_idempotent_write");
    assert_eq!(row.daemon_epoch, 3);
    let granted = op.finish();
    assert_eq!(granted.attempt, id(900));
    assert_eq!(granted.permit.attempt(), id(900));
    let read = effect::read(id(900), &intent_row(), &apply_effect, &safe).unwrap();
    assert_eq!(read.state, ExternalAttemptState::IntentRecorded);
    assert_eq!(read.destination.endpoint, token("spawn"));
}

#[test]
fn a_keyed_write_stores_its_contract() {
    let row = intent(ExternalEffectClass::IdempotentWrite {
        contract: IdempotencyContract::DeduplicatedByKey { window: 5_000 },
        key: token("k-1"),
    })
    .commit()
    .unwrap();
    assert_eq!(row.class.window_ms, Some(5_000));
    assert_eq!(row.class.key.as_deref(), Some("k-1"));
    let unstorable = intent(ExternalEffectClass::IdempotentWrite {
        contract: IdempotencyContract::DeduplicatedByKey { window: u64::MAX },
        key: token("k-1"),
    });
    assert_eq!(corrupt_reason(unstorable.commit()), CorruptReason::IntegerOutOfRange);
}

#[test]
fn a_recorded_effect_outcome_reads_back() {
    let before = effect::read(id(900), &intent_row(), &apply_effect, &safe).unwrap();
    let dispatch = MarkExternalDispatched {
        request: MarkExternalDispatchedRequest { attempt: id(900) },
        now: 20,
    };
    let (update, state) = dispatch.commit(&before, &apply_effect).unwrap();
    assert_eq!(update.unwrap().dispatched_at_ms, Some(20));
    assert_eq!(state, ExternalAttemptState::IntentRecorded);
    let record = |outcome| RecordExternalOutcome {
        request: RecordExternalOutcomeRequest { attempt: id(900), outcome },
        now: 30,
    };
    let done = record(ExternalOutcome::Completed { evidence: AttemptEvidence::new(token("ref-1")) });
    let (update, state) = done.commit(&before, &apply_effect).unwrap();
    let update = update.unwrap();
    assert_eq!((update.state, state), ("completed", ExternalAttemptState::Completed));
    let mut row = intent_row();
    row.state = update.state.to_owned();
    row.completion_ref = update.completion_ref.map(|t| t.text);
    row.finished_at_ms = update.finished_at_ms;
    let read = effect::read(id(900), &row, &apply_effect, &safe).unwrap();
    assert_eq!(read.state, ExternalAttemptState::Completed);
    assert_eq!(read.outcome, Some(token("ref-1")));
    assert_eq!(done.commit(&read, &apply_effect).unwrap().0, None, "a repeat writes nothing");
    let lost = record(ExternalOutcome::Ambiguous { reason: EffectAmbiguityReason::ResponseLost });
    assert_eq!(lost.commit(&before, &apply_effect).unwrap().0.unwrap().ambiguity_reason, Some("response_lost"));
    assert!(lost.commit(&read, &apply_effect).is_err());
    let unsent = record(ExternalOutcome::FailedBeforeEffect { proven: NoEffectClass::NotAttempted });
    assert_eq!(unsent.commit(&before, &apply_effect).unwrap().1, ExternalAttemptState::FailedBeforeEffect);
}

#[test]
fn an_attempt_row_no_history_reaches_is_corrupt() {
    let mut row = intent_row();
    row.state = "completed".to_owned();
    assert_eq!(
        corrupt_reason(effect::read(id(900), &row, &apply_effect, &safe)),
        CorruptReason::UnprovableEvidence,
        "a completed row without an outcome"
    );
    row.state = "nonsense".to_owned();
    assert_eq!(corrupt_reason(effect::read(id(900), &row, &apply_effect, &safe)), CorruptReason::UnknownLabel);
    let mut row = intent_row();
    row.dispatched = 1;
    assert_eq!(corrupt_reason(effect::read(id(900), &row, &apply_effect, &safe)), CorruptReason::MalformedMetadata);
    let mut row = intent_row();
    row.destination_fence = "not safe".to_owned();
    assert_eq!(corrupt_reason(effect::read(id(900), &row, &apply_effect, &safe)), CorruptReason::UnsafeToken);
    assert_eq!(
        effect::require(id(900), None).unwrap_err(),
        StoreError::Conflict(Conflict::ExecuteRequiresDurableIntent { attempt: id(900) })
    );
}

// --- The mutation journal ---------------------------------------------------------------------

fn copy_command(c: &MutationCommand) -> MutationCommand {
    let mut next = MutationCommand::received(
        c.actor,
        c.id,
        c.kind.clone(),
        c.fingerprint,
        c.daemon_epoch,
        c.received_at,
    );
    next.uncertain_at = c.uncertain_at;
    next.status = c.status;
    next
}

fn apply_journal(command: &MutationCommand, event: &MutationCommandEvent) -> MutationReply {
    let mut next = copy_command(command);
    match event {
        MutationCommandEvent::ResultCommitted { result, at } => {
            if command.status == MutationCommandStatus::Completed {
                return Ok(Applied::Duplicate);
            }
            next.status = MutationCommandStatus::Completed;
            next.result = Some(result.clone());
            next.completed_at = Some(*at);
        }
        MutationCommandEvent::MarkedUncertain { at } => {
            if command.status != MutationCommandStatus::Received {
                return Err(Conflict::Refused { kind: ConflictKind::IllegalMutationTransition });
            }
            next.status = MutationCommandStatus::Uncertain;
            next.uncertain_at = Some(*at);
        }
        MutationCommandEvent::ReceiptAcknowledged { at, .. } => {
            if command.status != MutationCommandStatus::Completed {
                return Err(Conflict::Refused { kind: ConflictKind::MutationNotCompleted });
            }
            next.status = MutationCommandStatus::Acked;
            next.acked_at = Some(*at);
            next.completed_at = command.completed_at;
        }
    }
    Ok(Applied::Advanced(next))
}

fn resolve(
    existing: &Option<MutationCommand>,
    actor: Id,
    command: Id,
    fingerprint: &[u8; 32],
) -> AdmissionReply {
    match existing {
        None => Ok(MutationDisposition::NewOperation),
        Some(row) if row.fingerprint != *fingerprint => {
            Err(Conflict::MutationCommandMismatch { actor, command })
        }
        Some(row) => match &row.result {
            Some(result) => Ok(MutationDisposition::RecordedResult(result.clone())),
            None => Err(Conflict::MutationResultUncertain { actor, command }),
        },
    }
}

fn begin(fingerprint: u8) -> BeginMutation {
    BeginMutation {
        request: BeginMutationRequest {
            actor: id(1),
            command: id(2),
            kind: token("publish"),
            fingerprint: [fingerprint; 32],
            daemon_epoch: 4,
        },
        now: 100,
    }
}

fn received_row() -> CommandRow {
    CommandRow {
        fingerprint: "09".repeat(32),
        command_kind: "publish".to_owned(),
        status: "received".to_owned(),
        daemon_epoch: 4,
        created_at_ms: 100,
        safe_result_kind: None,
        safe_result_ref: None,
        safe_result_conflict: None,
        completed_at_ms: None,
        uncertain_at_ms: None,
        acked_at_ms: None,
    }
}

#[test]
fn a_history_the_journal_refuses_is_a_corrupt_row() {
    let mut row = received_row();
    row.acked_at_ms = Some(120);
    row.status = "acked".to_owned();
    match mutation::read(id(1), id(2), &row, &apply_journal, &safe) {
        Err(StoreError::Corrupt(value)) => {
            assert_eq!((value.table, value.column), ("mutation_commands", "status"));
            assert_eq!(value.reason, CorruptReason::UnprovableEvidence);
        }
        other => panic!("an acknowledgement without a result was accepted: {other:?}"),
    }
}

#[test]
fn a_new_operation_is_dispatched_and_its_result_replayed() {
    let (row, admission) = begin(9).commit(&None, &resolve).unwrap();
    let row = row.expect("a fresh row");
    assert_eq!(admission, MutationAdmission::Dispatch);
    assert_eq!(row.fingerprint, "09".repeat(32));
    assert_eq!(row.status, "received");
    let read = mutation::read(id(1), id(2), &received_row(), &apply_journal, &safe).unwrap();
    assert_eq!(read.status, MutationCommandStatus::Received);
    assert_eq!(read.fingerprint, [9; 32]);
    assert_eq!(
        begin(9).commit(&Some(read), &resolve),
        Err(StoreError::Conflict(Conflict::MutationResultUncertain { actor: id(1), command: id(2) }))
    );

    let read = mutation::read(id(1), id(2), &received_row(), &apply_journal, &safe).unwrap();
    let complete = CompleteMutation {
        request: CompleteMutationRequest {
            actor: id(1),
            command: id(2),
            fingerprint: [9; 32],
            result: SafeMutationResult::Applied { reference: Some(token("r-7")) },
        },
        now: 120,
    };
    let (columns, status) = complete.commit(&read, &apply_journal).unwrap();
    let columns = columns.expect("a result row");
    assert_eq!(status, MutationCommandStatus::Completed);
    let mut stored = received_row();
    stored.status = columns.status.to_owned();
    stored.safe_result_kind = Some(columns.result.kind.to_owned());
    stored.safe_result_ref = columns.result.reference.clone();
    stored.completed_at_ms = columns.completed_at_ms;
    let completed = mutation::read(id(1), id(2), &stored, &apply_journal, &safe).unwrap();
    assert_eq!(completed.result, Some(SafeMutationResult::Applied { reference: Some(token("r-7")) }));
    assert_eq!(complete.commit(&completed, &apply_journal).unwrap().0, None);
    let (row, admission) = begin(9).commit(&Some(completed), &resolve).unwrap();
    assert_eq!(row, None, "an exact retry dispatches nothing");
    assert_eq!(
        admission,
        MutationAdmission::Replayed(SafeMutationResult::Applied { reference: Some(token("r-7")) })
    );
}

#[test]
fn another_fingerprint_is_never_answered() {
    let read = mutation::read(id(1), id(2), &received_row(), &apply_journal, &safe).unwrap();
    let mismatch = StoreError::Conflict(Conflict::MutationCommandMismatch { actor: id(1), command: id(2) });
    let complete = CompleteMutation {
        request: CompleteMutationRequest {
            actor: id(1),
            command: id(2),
            fingerprint: [8; 32],
            result: SafeMutationResult::AlreadySatisfied,
        },
        now: 120,
    };
    assert_eq!(complete.commit(&read, &apply_journal).unwrap_err(), mismatch);
    assert_eq!(begin(8).commit(&Some(read), &resolve).unwrap_err(), mismatch);
}

#[test]
fn a_receipt_is_acknowledged_only_once_completed() {
    let ack = AckMutationReceipt {
        request: AckMutationReceiptRequest { actor: id(1), command: id(2) },
        now: 130,
    };
    let received = mutation::read(id(1), id(2), &received_row(), &apply_journal, &safe).unwrap();
    assert!(ack.commit(&received, &apply_journal).is_err());
    let mut stored = received_row();
    stored.status = "completed".to_owned();
    stored.safe_result_kind = Some("already_satisfied".to_owned());
    stored.completed_at_ms = Some(120);
    let completed = mutation::read(id(1), id(2), &stored, &apply_journal, &safe).unwrap();
    let (row, status) = ack.commit(&completed, &apply_journal).unwrap();
    assert_eq!(status, MutationCommandStatus::Acked);
    assert_eq!((row.unwrap().status, row.unwrap().at_ms), ("acked", Some(130)));
    stored.completed_at_ms = None;
    assert_eq!(
        corrupt_reason(mutation::read(id(1), id(2), &stored, &apply_journal, &safe)),
        CorruptReason::UnprovableEvidence
    );
}

// --- Leases -----------------------------------------------------------------------------------

fn resource() -> ResourceRef {
    ResourceRef { namespace: token("browser"), digest: [5; 32] }
}

fn process(start: &str) -> ProcessIncarnation {
    ProcessIncarnation::new(77, token(start))
}

fn copy_lease(lease: &ResourceLease) -> ResourceLease {
    ResourceLease {
        id: lease.id,
        token: lease.token.clone(),
        holder: lease.holder,
        incarnation: lease.incarnation.clone(),
        daemon_epoch: lease.daemon_epoch,
        state: lease.state,
        acquired_at: lease.acquired_at,
        renewed_at: lease.renewed_at,
        expires_at: lease.expires_at,
        released_at: lease.released_at,
    }
}

fn apply_lease(ownership: &ResourceOwnership, step: &LeaseStep) -> LeaseReply {
    let next = |lease: ResourceLease| {
        Ok(Applied::Advanced(ResourceOwnership {
            namespace: ownership.namespace.clone(),
            digest: ownership.digest,
            current: Some(lease),
        }))
    };
    let holding = |holder: &LeaseHolderProof| match &ownership.current {
        None => Err(Conflict::Refused { kind: ConflictKind::NoCurrentLease }),
        Some(lease) if lease.token != holder.token => {
            Err(Conflict::Refused { kind: ConflictKind::StaleLeaseToken })
        }
        Some(lease) if !lease.incarnation.same_as(&holder.incarnation) => {
            Err(Conflict::Refused { kind: ConflictKind::StaleProcessIncarnation })
        }
        Some(lease) => Ok(copy_lease(lease)),
    };
    match step {
        LeaseStep::Acquire { request, id, token, at } => {
            if let Some(lease) = &ownership.current {
                if lease.state == LeaseState::Held && *at < lease.expires_at {
                    return Err(Conflict::Refused { kind: ConflictKind::ResourceAlreadyLeased });
                }
            }
            next(ResourceLease {
                id: *id,
                token: token.clone(),
                holder: request.holder,
                incarnation: request.incarnation.clone(),
                daemon_epoch: request.daemon_epoch,
                state: LeaseState::Held,
                acquired_at: *at,
                renewed_at: *at,
                expires_at: *at + request.ttl as i64,
                released_at: None,
            })
        }
        LeaseStep::Renew { holder, ttl, at } => {
            let mut lease = holding(holder)?;
            lease.renewed_at = *at;
            lease.expires_at = *at + *ttl as i64;
            next(lease)
        }
        LeaseStep::Release { holder, at } => {
            let mut lease = holding(holder)?;
            lease.state = LeaseState::Released;
            lease.released_at = Some(*at);
            next(lease)
        }
    }
}

fn acquire(at: i64) -> AcquireLease {
    AcquireLease {
        request: AcquireLeaseRequest {
            resource: resource(),
            holder: id(31),
            incarnation: process("s1"),
            daemon_epoch: 6,
            ttl: 1_000,
        },
        lease: id(32),
        token: vec![1, 2, 3, 4],
        now: at,
    }
}

fn as_read(write: &LeaseWrite) -> LeaseRow {
    LeaseRow {
        resource_lease_id: id_text(write.resource_lease_id),
        lease_token: write.lease_token.clone(),
        holder_actor_id: id_text(write.holder_actor_id),
        process_slot: write.process_slot,
        process_start_ref: write.process_start_ref.clone(),
        daemon_epoch: write.daemon_epoch,
        state: write.state.to_owned(),
        acquired_at_ms: write.acquired_at_ms,
        renewed_at_ms: write.renewed_at_ms,
        expires_at_ms: write.expires_at_ms,
        released_at_ms: write.released_at_ms,
    }
}

fn holder(bytes: &[u8], start: &str) -> LeaseHolderRequest {
    LeaseHolderRequest {
        resource: resource(),
        holder: LeaseHolderProof {
            token: bytes.to_vec(),
            incarnation: process(start),
            daemon_epoch: 6,
        },
        ttl: 2_000,
    }
}

#[test]
fn a_lease_is_taken_renewed_released_and_read() {
    let unowned = lease::read(&resource(), &None, 4, &apply_lease, &safe).unwrap();
    assert_eq!(unowned.current, None);
    let (row, granted) = acquire(50).commit(unowned, &apply_lease).unwrap();
    assert_eq!(granted.expires_at, 1_050);
    assert_eq!(granted.token, vec![1, 2, 3, 4]);
    assert_eq!(row.resource_digest, "05".repeat(32));
    let held = lease::read(&resource(), &Some(as_read(&row)), 4, &apply_lease, &safe).unwrap();
    assert!(acquire(60).commit(held, &apply_lease).is_err(), "it is held");

    let held = lease::read(&resource(), &Some(as_read(&row)), 4, &apply_lease, &safe).unwrap();
    let renew = RenewLease { request: holder(&[1, 2, 3, 4], "s1"), now: 100 };
    let (renewed, expires_at) = renew.commit(held, &apply_lease).unwrap();
    assert_eq!(expires_at, 2_100);
    let held = lease::read(&resource(), &Some(as_read(&renewed)), 4, &apply_lease, &safe).unwrap();
    assert_eq!(held.current.as_ref().unwrap().expires_at, 2_100);
    let release = ReleaseLease { request: holder(&[1, 2, 3, 4], "s1"), now: 200 };
    let (released, state) = release.commit(held, &apply_lease).unwrap();
    assert_eq!(state, LeaseState::Released);
    let free = lease::read(&resource(), &Some(as_read(&released)), 4, &apply_lease, &safe).unwrap();
    assert_eq!(free.current.unwrap().released_at, Some(200));
}

#[test]
fn a_holder_with_one_wrong_fence_changes_nothing() {
    let unowned = lease::read(&resource(), &None, 4, &apply_lease, &safe).unwrap();
    let (row, _) = acquire(50).commit(unowned, &apply_lease).unwrap();
    for (bytes, start, kind) in [
        (vec![9, 9, 9, 9], "s1", ConflictKind::StaleLeaseToken),
        (vec![1, 2, 3, 4], "s2", ConflictKind::StaleProcessIncarnation),
    ] {
        let held = lease::read(&resource(), &Some(as_read(&row)), 4, &apply_lease, &safe).unwrap();
        let renew = RenewLease { request: holder(&bytes, start), now: 100 };
        assert_eq!(
            renew.commit(held, &apply_lease).unwrap_err(),
            StoreError::Conflict(Conflict::Refused { kind })
        );
    }
    assert_eq!(process("s1").classify(&process("s2")), Some(IncarnationMismatch::SlotReused));
}

#[test]
fn a_lease_row_that_cannot_be_replayed_is_corrupt() {
    let unowned = lease::read(&resource(), &None, 4, &apply_lease, &safe).unwrap();
    let (row, _) = acquire(50).commit(unowned, &apply_lease).unwrap();
    let read = |row: LeaseRow, width: usize| {
        corrupt_reason(lease::read(&resource(), &Some(row), width, &apply_lease, &safe))
    };
    assert_eq!(read(as_read(&row), 5), CorruptReason::MalformedIdentity);
    let mut backwards = as_read(&row);
    backwards.expires_at_ms = 10;
    assert_eq!(read(backwards, 4), CorruptReason::IntegerOutOfRange);
    let mut silent = as_read(&row);
    silent.state = "released".to_owned();
    assert_eq!(read(silent, 4), CorruptReason::MalformedMetadata);
    assert_eq!(lease::elapsed(-1, i64::MAX), Ok(i64::MAX as u64));
    let fixed = |ownership: &ResourceOwnership, step: &LeaseStep| match step {
        LeaseStep::Renew { .. } => Err(Conflict::Refused { kind: ConflictKind::NoCurrentLease }),
        _ => apply_lease(ownership, step),
    };
    assert_eq!(
        corrupt_reason(lease::read(&resource(), &Some(as_read(&row)), 4, &fixed, &safe)),
        CorruptReason::UnprovableEvidence
    );
}

// --- Recovery ---------------------------------------------------------------------------------

fn recovery(minted: usize) -> RecoverStartup {
    RecoverStartup {
        request: RecoverStartupRequest { daemon_epoch: 8 },
        now: 500,
        identities: (0..minted).map(|n| (id(n as u128), id(1_000 + n as u128))).collect(),
    }
}

fn quarantine(delivery: &Delivery, event: &DeliveryEvent) -> DeliveryReply {
    match event {
        DeliveryEvent::OrphanQuarantined { .. } if delivery.state == DeliveryState::Claimed => {
            Ok(Applied::Advanced(Delivery {
                attempt_budget: delivery.attempt_budget,
                attempts: delivery
                    .attempts
                    .iter()
                    .map(|a| Attempt { state: AttemptState::Ambiguous, ..*a })
                    .collect(),
                state: DeliveryState::Ambiguous,
                terminal: false,
                accepted_evidence: None,
            }))
        }
        _ => Ok(Applied::Duplicate),
    }
}

fn wake(state: DeliveryState) -> BrowserWake {
    BrowserWake {
        delivery_hex: "abcd".to_owned(),
        key_hex: "key".to_owned(),
        target: WakeTarget { obligation: id(16), version: 2, source: source("done") },
        binding: id(400),
        binding_generation: 1,
        revision: 1,
        delivery: Delivery {
            attempt_budget: 2,
            attempts: vec![Attempt {
                number: 1,
                state: AttemptState::Claimed,
                failure: None,
                ambiguity: None,
            }],
            state,
            terminal: false,
            accepted_evidence: None,
        },
    }
}

fn work() -> LoadedObligation {
    LoadedObligation {
        identity: ObligationIdentity {
            task: id(12),
            turn: None,
            kind: ObligationKind::WorkerTurn,
            priority: 0,
            created_event_seq: 1,
        },
        projection: Obligation {
            id: id(16),
            task: id(12),
            turn: None,
            kind: ObligationKind::WorkerTurn,
            state: ObligationState::Running,
            version: 2,
            source: source("done"),
            incarnation: 1,
            binding_generation: None,
            claim: None,
            result_artifact: None,
            input_request: None,
        },
        latest_event_seq: 7,
        source_event_seq: 7,
    }
}

fn live(hex: &str, state: DeliveryState) -> LiveWake {
    LiveWake { hex: hex.to_owned(), wake: Ok(wake(state)), loaded: Ok(work()) }
}

fn received() -> MutationCommand {
    mutation::read(id(1), id(2), &received_row(), &apply_journal, &safe).unwrap()
}

fn lost() -> ExternalAttempt {
    effect::read(id(900), &intent_row(), &apply_effect, &safe).unwrap()
}

fn planned(
    op: &RecoverStartup,
    live: Vec<LiveWake>,
    commands: Result<Vec<MutationCommand>, StoreError>,
    orphans: Result<Vec<ExternalAttempt>, StoreError>,
) -> Result<Vec<RecoveryAction>, StoreError> {
    op.plan(
        live,
        commands,
        orphans,
        &PassRules {
            known: |hex: &str| hex.len() == 4,
            deliveries: quarantine,
            journal: apply_journal,
            effects: apply_effect,
            safe,
        },
    )
}

#[test]
fn recovery_quarantines_each_family() {
    let op = recovery(3);
    let actions = planned(
        &op,
        vec![live("abcd", DeliveryState::Claimed), live("dcba", DeliveryState::Accepted)],
        Ok(vec![received()]),
        Ok(vec![lost()]),
    )
    .unwrap();
    assert_eq!(actions.len(), 4);
    match &actions[0] {
        RecoveryAction::Quarantine { hex, next, event } => {
            assert_eq!(hex, "abcd");
            assert_eq!(event.event_id, id(0));
            assert_eq!(event.kind, EventKind::BrowserDeliveryOrphanQuarantined);
            assert_eq!(event.source.fence, token("wake.1.8"));
            let rows = op.wake_rows(next, 40).unwrap();
            assert_eq!(rows.attempts[0].state, "ambiguous");
            assert_eq!(rows.delivery.state, "ambiguous");
        }
        other => panic!("{other:?}"),
    }
    match &actions[1] {
        RecoveryAction::MarkUncertain(row) => {
            assert_eq!((row.status, row.at_ms), ("uncertain", Some(500)));
        }
        other => panic!("{other:?}"),
    }
    match &actions[2] {
        RecoveryAction::Orphan { attempt, terminal, condition, event } => {
            assert_eq!(*attempt, id(900));
            assert_eq!(
                (terminal.state, terminal.ambiguity_reason),
                ("ambiguous", Some("orphaned_by_restart"))
            );
            assert_eq!((event.event_id, *condition), (id(2), id(1_002)));
            assert_eq!(event.kind, EventKind::ExternalAttemptQuarantined);
            let row = op.condition_row(*condition, *attempt, 41).unwrap();
            assert_eq!((row.kind, row.state), ("reconciliation_required", "open"));
        }
        other => panic!("{other:?}"),
    }
    assert_eq!(actions[3], RecoveryAction::RecordEpoch(8));
    assert_eq!(
        RecoverStartup::report(&actions, 1),
        StartupRecovery {
            quarantined_deliveries: 1,
            uncertain_mutations: 1,
            ambiguous_attempts: 1,
            reconciliation_conditions: 1,
        }
    );
}

#[test]
fn a_pass_that_runs_out_of_identities_refuses() {
    let short = StoreError::QuarantineIncomplete { minted: 1 };
    let wakes = || vec![live("abcd", DeliveryState::Accepted)];
    assert_eq!(
        planned(&recovery(1), wakes(), Ok(Vec::new()), Ok(vec![lost()])).unwrap_err(),
        short
    );
    assert_eq!(
        planned(&recovery(1), wakes(), Ok(vec![received()]), Ok(Vec::new())).unwrap().len(),
        2
    );
    let (_, spent) = recovery(1).mint(0).unwrap();
    assert_eq!(recovery(1).mint(spent).unwrap_err(), short);
    assert_eq!(MAX_QUARANTINED_PER_PASS, 256);
}

#[test]
fn a_pass_stops_at_the_first_failure_it_meets() {
    let gone = || StoreError::WriterGone;
    let fails = |live, commands, orphans| planned(&recovery(2), live, commands, orphans).unwrap_err();
    let unread = LiveWake { hex: "abcd".to_owned(), wake: Err(gone()), loaded: Ok(work()) };
    assert_eq!(fails(vec![unread], Ok(Vec::new()), Ok(Vec::new())), gone());
    assert_eq!(fails(Vec::new(), Err(gone()), Ok(vec![lost(), lost(), lost()])), gone());
    assert_eq!(fails(Vec::new(), Ok(Vec::new()), Err(gone())), gone());
    let odd = fails(vec![live("abc", DeliveryState::Claimed)], Err(gone()), Ok(Vec::new()));
    match odd {
        StoreError::Corrupt(value) => {
            assert_eq!((value.table, value.column), ("delivery_attempts", "delivery_id"));
            assert_eq!(value.reason, CorruptReason::MalformedIdentity);
        }
        other => panic!("{other:?}"),
    }
}

// --- Sessions ---------------------------------------------------------------------------------

fn config_ref() -> ManagedConfigRef {
    ManagedConfigRef { id: id(70), digest: [3; 32], byte_len: 12 }
}

fn config_row() -> ConfigRow {
    ConfigRow {
        managed_config_artifact_id: id_text(id(70)),
        digest_hex: "03".repeat(32),
        byte_len: 12,
    }
}

fn loadout_request(names: &[&str]) -> ResolveWorkerLoadoutRequest {
    ResolveWorkerLoadoutRequest {
        loadout: id(71),
        worker_kind: token("coder"),
        runtime_kind: token("pty"),
        role: token("builder"),
        model_policy: SnapshotRef::new(id(72), [4; 32]),
        capability_profile: id(73),
        capabilities: names.iter().map(|n| token(n)).collect(),
        delegation_policy: id(74),
        delegated_roles: vec![token("tester")],
        managed_config: config_ref(),
        hook_contract_epoch: 2,
        resume_policy: ResumePolicy { label: "exact_only" },
    }
}

fn names_digest(_: Id, names: &Vec<SafeToken>) -> [u8; 32] {
    let mut out = [0u8; 32];
    for (at, name) in names.iter().enumerate() {
        out[at % 32] ^= name.text.len() as u8 + at as u8 + name.text.as_bytes()[0];
    }
    out
}

fn spec_digest(spec: &WorkerLoadoutSpec) -> [u8; 32] {
    spec.capability_profile.digest
}

fn resolve_loadout(names: &[&str]) -> ResolveWorkerLoadout {
    ResolveWorkerLoadout::prepare(
        &loadout_request(names),
        [id(80), id(81), id(82), id(83)],
        900,
        &names_digest,
        &names_digest,
        &spec_digest,
    )
}

#[test]
fn a_managed_config_is_recorded_once() {
    let op = RecordManagedConfig {
        request: RecordManagedConfigRequest {
            artifact: DurableArtifact::assert_durable_from_parts(
                token("cfg-1"),
                [3; 32],
                12,
                token("text.toml"),
            ),
            hook_contract_epoch: 2,
        },
        artifact: id(70),
        event: id(84),
        now: 800,
    };
    assert_eq!(op.event(&safe).unwrap().kind, EventKind::ManagedConfigRecorded);
    let done = op.commit(Appended::Inserted(5), &None).unwrap();
    let row = done.rows.unwrap();
    assert_eq!(row.sha256_hex, "03".repeat(32));
    assert_eq!((row.byte_len, row.created_event_seq), (12, 5));
    assert!(!done.output.duplicate);
    let again = op.commit(Appended::Duplicate(5), &Some(config_row())).unwrap();
    assert_eq!(again.rows, None);
    assert!(again.output.duplicate && again.output.reference.same_as(&config_ref()));
}

#[test]
fn a_widened_profile_is_another_snapshot() {
    let narrow = resolve_loadout(&["read", "test"]);
    let wide = resolve_loadout(&["read", "test", "write"]);
    assert_ne!(narrow.digest, wide.digest);
    let reordered = resolve_loadout(&["test", "read", "read"]);
    assert_eq!(narrow.digest, reordered.digest, "a whitelist has no order and no repeats");
    let rows = narrow.commit_capability_profile(Appended::Inserted(6)).unwrap().unwrap();
    assert_eq!(rows.count, 2);
    assert_eq!(rows.entries, vec![token("read"), token("test")]);
    assert_eq!(narrow.commit_capability_profile(Appended::Duplicate(6)), Ok(None));
    let row = narrow.commit_loadout(Appended::Inserted(9)).unwrap().unwrap();
    assert_eq!(row.managed_config_byte_len, 12);
    assert_eq!(row.capability_profile_digest_hex, rows.digest_hex);
    let first = narrow.loadout_event(&safe).unwrap();
    let second = wide.loadout_event(&safe).unwrap();
    assert_ne!(first.source, second.source, "distinct snapshots are distinct facts");
    assert_eq!(narrow.output(Appended::Inserted(9)).fence(), SnapshotRef::new(id(71), narrow.digest));
    assert_eq!(narrow.delegation_policy_event(&safe).unwrap().kind, EventKind::DelegationPolicyRecorded);
    assert_eq!(narrow.commit_delegation_policy(Appended::Inserted(7)).unwrap().unwrap().count, 1);
    assert_eq!(narrow.commit_model_policy(Appended::Inserted(8)).unwrap().unwrap().digest_hex, "04".repeat(32));
}

#[test]
fn a_resolved_loadout_reads_back_at_launch() {
    let op = resolve_loadout(&["test", "read"]);
    let loadout = op.commit_loadout(Appended::Inserted(9)).unwrap().unwrap();
    let row = LaunchRow {
        worker_loadout_id: id_text(loadout.worker_loadout_id),
        digest_hex: loadout.digest_hex,
        worker_kind: loadout.worker_kind.text,
        runtime_kind: loadout.runtime_kind.text,
        role: loadout.role.text,
        model_policy_id: id_text(loadout.model_policy_id),
        model_policy_digest_hex: loadout.model_policy_digest_hex,
        capability_profile_id: id_text(loadout.capability_profile_id),
        capability_profile_digest_hex: loadout.capability_profile_digest_hex,
        delegation_policy_id: id_text(loadout.delegation_policy_id),
        delegation_policy_digest_hex: loadout.delegation_policy_digest_hex,
        managed_config_artifact_id: id_text(loadout.managed_config_artifact_id),
        managed_config_digest_hex: loadout.managed_config_digest_hex,
        managed_config_byte_len: loadout.managed_config_byte_len,
        hook_contract_epoch: loadout.hook_contract_epoch,
        resume_policy: loadout.resume_policy.to_owned(),
        storage_ref: "cfg-1".to_owned(),
        sha256_hex: "03".repeat(32),
        byte_len: 12,
    };
    let policies = |label: &str| {
        (label == "exact_only").then_some(ResumePolicy { label: "exact_only" })
    };
    let read = launch_record(&row, &safe, &policies).unwrap();
    assert_eq!(read.loadout, op.spec_of);
    assert_eq!(read.digest, spec_digest(&read.loadout), "the row derives its own digest");
    assert_eq!(read.config.reference, config_ref());
    assert_eq!(read.config.storage_ref, token("cfg-1"));
}

fn bound(digest: u8) -> BindingRow {
    BindingRow { worker_loadout_id: id_text(id(71)), digest_hex: format!("{digest:02x}").repeat(32) }
}

#[test]
fn a_bound_incarnation_is_never_rebound() {
    let op = BindSessionLoadout {
        request: BindSessionLoadoutRequest {
            session: id(13),
            incarnation: id(14),
            loadout: SnapshotRef::new(id(71), [6; 32]),
        },
        event: id(85),
        now: 950,
    };
    let owner = Some(id_text(id(13)));
    assert_eq!(op.examine(&owner, true, &None), Ok(true), "there is something to bind");
    assert_eq!(op.examine(&owner, true, &Some(bound(6))), Ok(false), "the same snapshot converges");
    assert_eq!(
        op.examine(&owner, true, &Some(bound(7))),
        Err(StoreError::Conflict(Conflict::SessionIncarnationAlreadyBound { incarnation: id(14) }))
    );
    assert!(op.examine(&Some(id_text(id(99))), true, &None).is_err(), "another session owns it");
    assert!(op.examine(&owner, false, &None).is_err(), "the snapshot is not recorded");
    let row = op.commit(Appended::Inserted(11)).unwrap().unwrap();
    assert_eq!(row.digest_hex, "06".repeat(32));
    assert_eq!(op.commit(Appended::Duplicate(11)), Ok(None));
    assert_eq!(read_binding(&Some(bound(6))), Ok(Some(SnapshotRef::new(id(71), [6; 32]))));
    assert_eq!(read_binding(&None), Ok(None));
}

#[test]
fn lineage_stays_acyclic_and_shallow() {
    let op = RecordSessionLineage {
        request: RecordSessionLineageRequest {
            parent_session: id(1),
            child_session: id(2),
            parent_turn: id(15),
            relation: SessionRelation { label: "delegated" },
        },
        event: id(86),
        now: 960,
    };
    let owner = Some(id_text(id(1)));
    let edge = op.examine(&owner, &vec![]).unwrap();
    let relations = |text: &str| match text {
        "delegated" => Some(SessionRelation { label: "delegated" }),
        _ => None,
    };
    let done = op.commit(edge, Appended::Inserted(12), &None, &relations).unwrap();
    assert_eq!(done.rows.unwrap().relation_kind, "delegated");
    let stored = |parent: u128, relation: &str| {
        Some(StoredEdge {
            parent_session_id: id_text(id(parent)),
            child_session_id: id_text(id(2)),
            parent_turn_id: id_text(id(15)),
            relation_kind: relation.to_owned(),
        })
    };
    let repeat = |recorded| op.commit(edge, Appended::Duplicate(12), &recorded, &relations);
    let again = repeat(stored(1, "delegated")).unwrap();
    assert!(again.rows.is_none() && again.output.duplicate);
    let other = repeat(stored(9, "delegated")).unwrap();
    assert!(other.rows.is_none() && !other.output.duplicate);
    assert_eq!(other.output.edge.parent_session, id(9), "the durable edge is reported");
    assert_eq!(corrupt_reason(repeat(stored(1, "adopted"))), CorruptReason::UnknownLabel);
    assert_eq!(corrupt_reason(repeat(None)), CorruptReason::DanglingReference);
    assert_eq!(
        op.examine(&Some(id_text(id(3))), &vec![]).err(),
        Some(StoreError::Conflict(Conflict::ParentTurnNotOwnedByParentSession {
            session: id(1),
            turn: id(15),
        }))
    );
    let circle = vec![ParentOf { child: id(1), parent: id(5) }, ParentOf { child: id(5), parent: id(2) }];
    assert_eq!(
        op.examine(&owner, &circle).err(),
        Some(StoreError::Conflict(Conflict::SessionLineageCycle { parent: id(1), child: id(2) }))
    );
    let deep: Vec<ParentOf> = (100..200u128)
        .map(|n| ParentOf { child: id(n), parent: id(n + 1) })
        .collect();
    assert!(matches!(
        require_no_lineage_cycle(&deep, id(100), id(7)),
        Err(StoreError::Conflict(Conflict::SessionLineageTooDeep { bound: MAX_LINEAGE_DEPTH, .. }))
    ));
}

fn spawn() -> AuthorizeWorkerSpawn {
    AuthorizeWorkerSpawn {
        request: AuthorizeWorkerSpawnRequest {
            session: id(13),
            incarnation: id(14),
            verified_loadout: SnapshotRef::new(id(71), [6; 32]),
            verified_config: config_ref(),
            destination: destination(),
            source: source("spawn"),
            daemon_epoch: 8,
        },
        attempt: id(901),
        recorded_at: 970,
    }
}

fn facts() -> SpawnFacts {
    SpawnFacts {
        binding: Some(bound(6)),
        owner: Some(id_text(id(13))),
        embedded: Some(config_row()),
        recorded: Some(("03".repeat(32), 12)),
    }
}

#[test]
fn a_spawn_runs_only_what_was_verified() {
    let row = spawn().commit(&facts()).unwrap();
    assert_eq!(row.class.class, "non_idempotent_write");
    assert_eq!(row.class.contract, None, "starting a process has no idempotency contract");
    assert_eq!(spawn().finish().permit.attempt(), id(901));

    let unbound = SpawnFacts { binding: None, ..facts() };
    assert_eq!(
        spawn().commit(&unbound).err(),
        Some(StoreError::Conflict(Conflict::NoSessionLoadout { incarnation: id(14) }))
    );
    let other = SpawnFacts { binding: Some(bound(7)), ..facts() };
    assert_eq!(
        spawn().commit(&other).err(),
        Some(StoreError::Conflict(Conflict::LoadoutDigestMismatch { loadout: id(71) }))
    );
    let swapped = SpawnFacts { recorded: Some(("04".repeat(32), 12)), ..facts() };
    assert!(spawn().commit(&swapped).is_err(), "the recorded bytes are not the verified ones");
}
