//! Worker lifecycle transitions, and the terminal publication boundary.
//!
//! A result is published in one transaction after its artifact is durable: the terminal event, the
//! finalised turn, the artifact metadata and exactly one obligation transition. A terminal fact
//! that is already in the ledger gives the obligation and the artifact that are already there.
use vstd::prelude::*;
use crate::digest::hex_text;
use crate::domain::fence::{
    EventSeq, IncarnationGeneration, ObligationVersion, SafeToken, SourceRef, Timestamp,
};
use crate::domain::id::{EventId, ObligationId, ResultArtifactId, TaskId, TurnId};
use crate::domain::obligation::{
    machine_is, machine_total, or_unchanged, settled, Applied, CompletionReceipts, Obligation,
    ObligationEvent, ObligationEventView, ObligationMachine, ObligationReply, ObligationState,
    ObligationView, OutcomeView, ReceiptsView, WorkerFailureClass, WorkerOutcome,
};
use crate::store::codec::{hex32, store_u64, stored_u64};
use crate::store::error::{chain, corrupt, corrupt_row, present, CorruptReason, StoreError};
use crate::store::event::{store_seq, stored_seq, work_scope, Appended, EventScope, EventView, NewEvent};
use crate::store::event_kind::EventKind;
use crate::store::grammar::{MetaFields, MetaValue};
use crate::store::labels::{
    encode_retention, encode_turn_lifecycle, encode_worker_failure, retention_label,
    turn_lifecycle_label, worker_failure_label, ActorClass, RetentionLabel, TurnLifecycle,
};
use crate::store::load::obligation::{LoadedObligation, LoadedView, ObligationIdentity};
use crate::store::ops::{
    ask, asked, event_of, event_view, new_event, record_obligation_transition, transition_rows,
    Committed, TransitionRows,
};
use crate::store::safe_metadata::SafeMetadata;

verus! {

/// Metadata for an artifact whose bytes are already durable on disk.
///
/// The value is the durability claim, so its parts are private and there is one way to build it.
#[derive(Debug, PartialEq, Eq)]
pub struct DurableArtifact {
    storage_ref: SafeToken,
    digest: [u8; 32],
    byte_len: u64,
    media_type: SafeToken,
}

impl DurableArtifact {
    /// Storage key, digest, length and media type.
    pub closed spec fn parts(self) -> (SafeToken, [u8; 32], u64, SafeToken) {
        (self.storage_ref, self.digest, self.byte_len, self.media_type)
    }

    /// Asserts that one artifact's bytes and immutable name are already durable.
    ///
    /// The caller asserts that the crash-safe ordering of writes and syncs completed for exactly
    /// these bytes; nothing here can check that.
    pub fn assert_durable_from_parts(
        storage_ref: SafeToken,
        digest: [u8; 32],
        byte_len: u64,
        media_type: SafeToken,
    ) -> (r: DurableArtifact)
        ensures
            r.parts() == (storage_ref, digest, byte_len, media_type),
    {
        DurableArtifact { storage_ref, digest, byte_len, media_type }
    }

    /// Daemon-allocated opaque storage key. A worker never supplies a path.
    pub fn storage_ref(&self) -> (r: &SafeToken)
        ensures
            *r == self.parts().0,
    {
        &self.storage_ref
    }

    /// Digest of the bytes as written.
    pub fn digest(&self) -> (r: &[u8; 32])
        ensures
            *r == self.parts().1,
    {
        &self.digest
    }

    /// Length of the bytes as written.
    pub fn byte_len(&self) -> (r: u64)
        ensures
            r == self.parts().2,
    {
        self.byte_len
    }

    /// Opaque media type label.
    pub fn media_type(&self) -> (r: &SafeToken)
        ensures
            *r == self.parts().3,
    {
        &self.media_type
    }
}

/// What an obligation transition committed.
#[derive(Debug, Clone, Copy, PartialEq, Eq, Structural)]
pub struct ObligationAdvanced {
    /// Obligation that moved.
    pub obligation: ObligationId,
    /// State it is now in.
    pub state: ObligationState,
    /// Version it is now at.
    pub version: ObligationVersion,
    /// Whether nothing changed and this reports what was already there.
    pub duplicate: bool,
}

/// What is reported of an obligation that moved.
pub open spec fn moved(obligation: ObligationView) -> ObligationAdvanced {
    ObligationAdvanced {
        obligation: obligation.id,
        state: obligation.state,
        version: obligation.version,
        duplicate: false,
    }
}

/// What is reported of an obligation that did not move.
pub open spec fn stayed(obligation: ObligationView) -> ObligationAdvanced {
    ObligationAdvanced { duplicate: true, ..moved(obligation) }
}

/// Reports an obligation that moved.
pub fn advanced(obligation: &Obligation) -> (r: ObligationAdvanced)
    ensures
        r == moved(obligation@),
{
    ObligationAdvanced {
        obligation: obligation.id,
        state: obligation.state,
        version: obligation.version,
        duplicate: false,
    }
}

/// Reports an obligation that did not move.
pub fn unchanged(obligation: &Obligation) -> (r: ObligationAdvanced)
    ensures
        r == stayed(obligation@),
{
    ObligationAdvanced {
        obligation: obligation.id,
        state: obligation.state,
        version: obligation.version,
        duplicate: true,
    }
}

/// The scope of an event about an obligation.
pub open spec fn scope_about(identity: ObligationIdentity, obligation: ObligationId) -> EventScope {
    EventScope::work(identity.task, identity.turn, obligation)
}

/// What a `turns` row is overwritten with when the turn ends.
#[derive(Debug, Clone, Copy, PartialEq, Eq)]
pub struct TurnUpdate {
    pub turn_id: TurnId,
    pub lifecycle_state: &'static str,
    pub terminal_event_seq: i64,
    pub latest_event_seq: i64,
}

/// The row of a turn that ended; nothing where the obligation has no turn.
pub open spec fn turn_ended(turn: Option<TurnId>, lifecycle: TurnLifecycle, seq: EventSeq) -> Result<
    Option<TurnUpdate>,
    StoreError,
> {
    match turn {
        None => Ok(None),
        Some(turn_id) => chain(
            stored_seq(seq),
            |at: i64|
                Ok(
                    Some(
                        TurnUpdate {
                            turn_id,
                            lifecycle_state: turn_lifecycle_label(lifecycle),
                            terminal_event_seq: at,
                            latest_event_seq: at,
                        },
                    ),
                ),
        ),
    }
}

/// Marks a turn terminal.
pub fn finalize_turn(turn: Option<TurnId>, lifecycle: TurnLifecycle, seq: EventSeq) -> (r: Result<
    Option<TurnUpdate>,
    StoreError,
>)
    ensures
        r == turn_ended(turn, lifecycle, seq),
{
    match turn {
        None => Ok(None),
        Some(turn_id) => {
            let at: i64 = store_seq(seq)?;
            Ok(
                Some(
                    TurnUpdate {
                        turn_id,
                        lifecycle_state: encode_turn_lifecycle(lifecycle),
                        terminal_event_seq: at,
                        latest_event_seq: at,
                    },
                ),
            )
        },
    }
}

// --- A worker started ------------------------------------------------------------------------------

/// A verified worker start, or re-attach.
#[derive(Debug, PartialEq, Eq)]
pub struct RecordWorkerStartedRequest {
    /// Obligation the worker turn belongs to.
    pub obligation: ObligationId,
    /// Source fact behind the observation.
    pub source: SourceRef,
    /// Session incarnation the observation came from.
    pub incarnation: IncarnationGeneration,
}

/// Records a verified worker start.
#[derive(Debug, PartialEq, Eq)]
pub struct RecordWorkerStarted {
    pub request: RecordWorkerStartedRequest,
    pub event: EventId,
    pub now: Timestamp,
}

impl RecordWorkerStarted {
    /// The event of the start.
    pub open spec fn started_event(self, identity: ObligationIdentity) -> Result<EventView, StoreError> {
        chain(
            stored_u64(self.request.incarnation, "events", "incarnation"),
            |incarnation: i64|
                Ok(
                    event_of(
                        self.event,
                        EventKind::WorkerStarted,
                        self.request.source@,
                        self.now,
                        scope_about(identity, self.request.obligation),
                        seq![("incarnation"@, MetaValue::Int(incarnation as int))],
                    ),
                ),
        )
    }

    /// Builds the event of the start.
    pub fn event(&self, identity: ObligationIdentity) -> (r: Result<NewEvent, StoreError>)
        ensures
            event_view(r) == self.started_event(identity),
    {
        let incarnation: i64 = store_u64(self.request.incarnation, "events", "incarnation")?;
        let metadata = SafeMetadata::new().integer("incarnation", incarnation);
        proof {
            assert(metadata@ =~= seq![("incarnation"@, MetaValue::Int(incarnation as int))]);
        }
        Ok(
            new_event(
                self.event,
                EventKind::WorkerStarted,
                self.request.source.clone(),
                self.now,
                work_scope(identity.task, identity.turn, self.request.obligation),
                metadata,
            ),
        )
    }

    /// The transition asked of the obligation machine.
    pub open spec fn transition(self) -> ObligationEventView {
        ObligationEventView::WorkerStarted {
            source: self.request.source@,
            incarnation: self.request.incarnation,
            at: self.now,
        }
    }

    /// What recording the start commits.
    pub open spec fn committed(self, loaded: LoadedView, appended: Appended, machine: ObligationMachine) -> Result<
        Committed<TransitionRows, ObligationAdvanced>,
        StoreError,
    > {
        let before = loaded.projection;
        match appended {
            Appended::Duplicate(_) => Ok(Committed { rows: None, output: stayed(before) }),
            Appended::Inserted(seq) => chain(
                asked(machine, before, self.transition()),
                |applied: Applied<ObligationView>|
                    chain(
                        transition_rows(
                            before,
                            settled(applied, before),
                            seq,
                            seq,
                            ActorClass::Worker,
                            None,
                        ),
                        |rows: TransitionRows|
                            Ok(
                                Committed {
                                    rows: Some(rows),
                                    output: moved(settled(applied, before)),
                                },
                            ),
                    ),
            ),
        }
    }

    /// Applies the start, unless its source is already in the ledger.
    pub fn commit<A: Fn(&Obligation, &ObligationEvent) -> ObligationReply>(
        &self,
        loaded: &LoadedObligation,
        appended: Appended,
        apply: &A,
    ) -> (r: Result<Committed<TransitionRows, ObligationAdvanced>, StoreError>)
        requires
            machine_total(*apply),
        ensures
            forall|machine: ObligationMachine| #[trigger]
                machine_is(*apply, machine) ==> r == self.committed(loaded@, appended, machine),
    {
        match appended {
            Appended::Duplicate(_) => {
                Ok(Committed { rows: None, output: unchanged(&loaded.projection) })
            },
            Appended::Inserted(seq) => {
                let before = &loaded.projection;
                let event = ObligationEvent::WorkerStarted {
                    source: self.request.source.clone(),
                    incarnation: self.request.incarnation,
                    at: self.now,
                };
                let applied = ask(apply, before, &event)?;
                let after = or_unchanged(applied, before.clone());
                let rows = record_obligation_transition(
                    before,
                    &after,
                    seq,
                    seq,
                    ActorClass::Worker,
                    None,
                )?;
                Ok(Committed { rows: Some(rows), output: advanced(&after) })
            },
        }
    }
}

// --- A worker failed -------------------------------------------------------------------------------

/// A verified terminal worker failure. Unprocessed work, never a closure.
#[derive(Debug, PartialEq, Eq)]
pub struct RecordWorkerFailureRequest {
    /// Obligation the worker turn belongs to.
    pub obligation: ObligationId,
    /// Source fact behind the observation.
    pub source: SourceRef,
    /// Session incarnation the observation came from.
    pub incarnation: IncarnationGeneration,
    /// Documented failure class.
    pub failure: WorkerFailureClass,
}

/// Records a verified terminal worker failure.
#[derive(Debug, PartialEq, Eq)]
pub struct RecordWorkerFailure {
    pub request: RecordWorkerFailureRequest,
    pub event: EventId,
    pub now: Timestamp,
}

/// The rows of a turn that ended with its obligation's transition.
#[derive(Debug, Clone, Copy, PartialEq, Eq)]
pub struct FailureRows {
    pub turn: Option<TurnUpdate>,
    pub transition: TransitionRows,
}

impl RecordWorkerFailure {
    /// The event of the failure.
    pub open spec fn failed_event(self, identity: ObligationIdentity) -> Result<EventView, StoreError> {
        chain(
            stored_u64(self.request.incarnation, "events", "incarnation"),
            |incarnation: i64|
                Ok(
                    event_of(
                        self.event,
                        EventKind::WorkerFailed,
                        self.request.source@,
                        self.now,
                        scope_about(identity, self.request.obligation),
                        seq![
                            ("incarnation"@, MetaValue::Int(incarnation as int)),
                            (
                                "failure_class"@,
                                MetaValue::Text(worker_failure_label(self.request.failure)@),
                            ),
                        ],
                    ),
                ),
        )
    }

    /// Builds the event of the failure.
    pub fn event(&self, identity: ObligationIdentity) -> (r: Result<NewEvent, StoreError>)
        ensures
            event_view(r) == self.failed_event(identity),
    {
        let incarnation: i64 = store_u64(self.request.incarnation, "events", "incarnation")?;
        let metadata = SafeMetadata::new().integer("incarnation", incarnation).label(
            "failure_class",
            encode_worker_failure(self.request.failure),
        );
        proof {
            assert(metadata@ =~= seq![
                ("incarnation"@, MetaValue::Int(incarnation as int)),
                ("failure_class"@, MetaValue::Text(worker_failure_label(self.request.failure)@)),
            ]);
        }
        Ok(
            new_event(
                self.event,
                EventKind::WorkerFailed,
                self.request.source.clone(),
                self.now,
                work_scope(identity.task, identity.turn, self.request.obligation),
                metadata,
            ),
        )
    }

    /// The transition asked of the obligation machine.
    pub open spec fn transition(self) -> ObligationEventView {
        ObligationEventView::WorkerFailed {
            source: self.request.source@,
            incarnation: self.request.incarnation,
            failure: self.request.failure,
            at: self.now,
        }
    }

    /// What recording the failure commits.
    pub open spec fn committed(self, loaded: LoadedView, appended: Appended, machine: ObligationMachine) -> Result<
        Committed<FailureRows, ObligationAdvanced>,
        StoreError,
    > {
        let before = loaded.projection;
        match appended {
            Appended::Duplicate(_) => Ok(Committed { rows: None, output: stayed(before) }),
            Appended::Inserted(seq) => chain(
                asked(machine, before, self.transition()),
                |applied: Applied<ObligationView>|
                    chain(
                        turn_ended(loaded.identity.turn, TurnLifecycle::Failed, seq),
                        |turn: Option<TurnUpdate>|
                            chain(
                                transition_rows(
                                    before,
                                    settled(applied, before),
                                    seq,
                                    seq,
                                    ActorClass::Worker,
                                    None,
                                ),
                                |transition: TransitionRows|
                                    Ok(
                                        Committed {
                                            rows: Some(FailureRows { turn, transition }),
                                            output: moved(settled(applied, before)),
                                        },
                                    ),
                            ),
                    ),
            ),
        }
    }

    /// Applies the failure, unless its source is already in the ledger.
    pub fn commit<A: Fn(&Obligation, &ObligationEvent) -> ObligationReply>(
        &self,
        loaded: &LoadedObligation,
        appended: Appended,
        apply: &A,
    ) -> (r: Result<Committed<FailureRows, ObligationAdvanced>, StoreError>)
        requires
            machine_total(*apply),
        ensures
            forall|machine: ObligationMachine| #[trigger]
                machine_is(*apply, machine) ==> r == self.committed(loaded@, appended, machine),
    {
        match appended {
            Appended::Duplicate(_) => {
                Ok(Committed { rows: None, output: unchanged(&loaded.projection) })
            },
            Appended::Inserted(seq) => {
                let before = &loaded.projection;
                let event = ObligationEvent::WorkerFailed {
                    source: self.request.source.clone(),
                    incarnation: self.request.incarnation,
                    failure: self.request.failure,
                    at: self.now,
                };
                let applied = ask(apply, before, &event)?;
                let after = or_unchanged(applied, before.clone());
                let turn = finalize_turn(loaded.identity.turn, TurnLifecycle::Failed, seq)?;
                let transition = record_obligation_transition(
                    before,
                    &after,
                    seq,
                    seq,
                    ActorClass::Worker,
                    None,
                )?;
                Ok(
                    Committed {
                        rows: Some(FailureRows { turn, transition }),
                        output: advanced(&after),
                    },
                )
            },
        }
    }
}

// --- A result is published -------------------------------------------------------------------------

/// Publishing a confirmed final result whose artifact is already durable.
#[derive(Debug, PartialEq, Eq)]
pub struct PublishWorkerResultRequest {
    /// Obligation the worker turn belongs to.
    pub obligation: ObligationId,
    /// Source fact behind the terminal observation.
    pub source: SourceRef,
    /// Session incarnation the observation came from.
    pub incarnation: IncarnationGeneration,
    /// The bounded safe receipts. Arbitrated here, not by the caller.
    pub receipts: CompletionReceipts,
    /// The artifact that was already made durable.
    pub artifact: DurableArtifact,
}

/// What a terminal publication committed.
#[derive(Debug, Clone, Copy, PartialEq, Eq, Structural)]
pub struct PublishedResult {
    /// The obligation, completed and still open.
    pub obligation: ObligationAdvanced,
    /// The artifact metadata row, pinned by that open obligation.
    pub artifact: ResultArtifactId,
}

/// The one-transaction worker terminal publication.
#[derive(Debug, PartialEq, Eq)]
pub struct PublishWorkerResult {
    pub request: PublishWorkerResultRequest,
    pub artifact: ResultArtifactId,
    pub event: EventId,
    pub now: Timestamp,
}

/// One `result_artifacts` row, as inserted.
#[derive(Debug, PartialEq, Eq)]
pub struct ArtifactInsert {
    pub result_artifact_id: ResultArtifactId,
    pub task_id: TaskId,
    pub turn_id: TurnId,
    pub source_event_seq: i64,
    pub storage_ref: SafeToken,
    pub sha256_hex: String,
    pub byte_len: i64,
    pub media_type: SafeToken,
    pub created_at_ms: i64,
    /// Provisional: recomputed from the obligations that reference the artifact.
    pub retention_state: &'static str,
}

/// One inserted `result_artifacts` row on values alone.
#[verifier::ext_equal]
pub struct ArtifactInsertView {
    pub result_artifact_id: ResultArtifactId,
    pub task_id: TaskId,
    pub turn_id: TurnId,
    pub source_event_seq: i64,
    pub storage_ref: Seq<char>,
    pub sha256_hex: Seq<char>,
    pub byte_len: i64,
    pub media_type: Seq<char>,
    pub created_at_ms: i64,
    pub retention_state: &'static str,
}

impl View for ArtifactInsert {
    type V = ArtifactInsertView;

    open spec fn view(&self) -> ArtifactInsertView {
        ArtifactInsertView {
            result_artifact_id: self.result_artifact_id,
            task_id: self.task_id,
            turn_id: self.turn_id,
            source_event_seq: self.source_event_seq,
            storage_ref: self.storage_ref@,
            sha256_hex: self.sha256_hex@,
            byte_len: self.byte_len,
            media_type: self.media_type@,
            created_at_ms: self.created_at_ms,
            retention_state: self.retention_state,
        }
    }
}

/// The rows of a publication.
#[derive(Debug, PartialEq, Eq)]
pub struct PublishedRows {
    pub artifact: ArtifactInsert,
    pub turn: Option<TurnUpdate>,
    pub transition: TransitionRows,
}

/// What a publication leaves behind, on values alone.
pub type PublishedView = (
    Option<(ArtifactInsertView, Option<TurnUpdate>, TransitionRows)>,
    PublishedResult,
);

/// What a publication answered, on values alone.
pub open spec fn published_view(
    r: Result<Committed<PublishedRows, PublishedResult>, StoreError>,
) -> Result<PublishedView, StoreError> {
    match r {
        Err(e) => Err(e),
        Ok(done) => Ok(
            (
                match done.rows {
                    None => None,
                    Some(rows) => Some((rows.artifact@, rows.turn, rows.transition)),
                },
                done.output,
            ),
        ),
    }
}

/// Whether an executable classifier concludes as `model` says.
pub open spec fn classifier_is<C: Fn(&CompletionReceipts) -> WorkerOutcome>(
    classify: C,
    model: spec_fn(ReceiptsView) -> OutcomeView,
) -> bool {
    forall|c: &CompletionReceipts, r: WorkerOutcome| #[trigger]
        call_ensures(classify, (c,), r) ==> r@ == model(c@)
}

impl PublishWorkerResult {
    /// The run the receipts prove complete, or a refusal: nothing but a confirmed completion counts.
    pub open spec fn confirmed(self, model: spec_fn(ReceiptsView) -> OutcomeView) -> Result<
        Seq<char>,
        StoreError,
    > {
        match model(self.request.receipts@) {
            OutcomeView::ConfirmedCompletion { run_ref } => Ok(run_ref),
            _ => Err(corrupt("events", "safe_metadata_json", CorruptReason::UnprovableEvidence)),
        }
    }

    /// Arbitrates the receipts, before anything is read.
    pub fn confirm<C: Fn(&CompletionReceipts) -> WorkerOutcome>(&self, classify: &C) -> (r: Result<
        SafeToken,
        StoreError,
    >)
        requires
            forall|c: &CompletionReceipts| call_requires(*classify, (c,)),
        ensures
            forall|model: spec_fn(ReceiptsView) -> OutcomeView| #[trigger]
                classifier_is(*classify, model) ==> (match r {
                    Ok(run_ref) => self.confirmed(model) == Ok::<Seq<char>, StoreError>(run_ref@),
                    Err(e) => self.confirmed(model) == Err::<Seq<char>, StoreError>(e),
                }),
    {
        match classify(&self.request.receipts) {
            WorkerOutcome::ConfirmedCompletion { run_ref } => Ok(run_ref),
            _ => Err(
                corrupt_row("events", "safe_metadata_json", CorruptReason::UnprovableEvidence),
            ),
        }
    }

    /// The event of the publication.
    pub open spec fn published_event(self, identity: ObligationIdentity, run_ref: Seq<char>) -> Result<
        EventView,
        StoreError,
    > {
        chain(
            stored_u64(self.request.incarnation, "events", "incarnation"),
            |incarnation: i64|
                Ok(
                    event_of(
                        self.event,
                        EventKind::ResultPublished,
                        self.request.source@,
                        self.now,
                        scope_about(identity, self.request.obligation),
                        seq![
                            ("incarnation"@, MetaValue::Int(incarnation as int)),
                            ("run_ref"@, MetaValue::Text(run_ref)),
                            (
                                "artifact_id"@,
                                MetaValue::Text(
                                    crate::domain::id::canonical_text(self.artifact.value),
                                ),
                            ),
                        ],
                    ),
                ),
        )
    }

    /// Builds the event of the publication.
    pub fn event(&self, identity: ObligationIdentity, run_ref: &SafeToken) -> (r: Result<
        NewEvent,
        StoreError,
    >)
        ensures
            event_view(r) == self.published_event(identity, run_ref@),
    {
        let incarnation: i64 = store_u64(self.request.incarnation, "events", "incarnation")?;
        let metadata = SafeMetadata::new().integer("incarnation", incarnation).token(
            "run_ref",
            run_ref,
        ).id("artifact_id", self.artifact);
        proof {
            assert(metadata@ =~= seq![
                ("incarnation"@, MetaValue::Int(incarnation as int)),
                ("run_ref"@, MetaValue::Text(run_ref@)),
                (
                    "artifact_id"@,
                    MetaValue::Text(crate::domain::id::canonical_text(self.artifact.value)),
                ),
            ]);
        }
        Ok(
            new_event(
                self.event,
                EventKind::ResultPublished,
                self.request.source.clone(),
                self.now,
                work_scope(identity.task, identity.turn, self.request.obligation),
                metadata,
            ),
        )
    }

    /// The transition asked of the obligation machine.
    pub open spec fn transition(self, run_ref: Seq<char>) -> ObligationEventView {
        ObligationEventView::ResultPublished {
            source: self.request.source@,
            incarnation: self.request.incarnation,
            run_ref,
            artifact: self.artifact,
            at: self.now,
        }
    }

    /// The artifact row of the publication.
    pub open spec fn artifact_row(self, task: TaskId, turn: TurnId, seq: EventSeq) -> Result<
        ArtifactInsertView,
        StoreError,
    > {
        let (storage_ref, digest, byte_len, media_type) = self.request.artifact.parts();
        chain(
            stored_seq(seq),
            |at: i64|
                chain(
                    stored_u64(byte_len, "result_artifacts", "byte_len"),
                    |length: i64|
                        Ok(
                            ArtifactInsertView {
                                result_artifact_id: self.artifact,
                                task_id: task,
                                turn_id: turn,
                                source_event_seq: at,
                                storage_ref: storage_ref@,
                                sha256_hex: hex_text(digest@),
                                byte_len: length,
                                media_type: media_type@,
                                created_at_ms: self.now,
                                retention_state: retention_label(RetentionLabel::Eligible),
                            },
                        ),
                ),
        )
    }

    fn insert_artifact(&self, task: TaskId, turn: TurnId, seq: EventSeq) -> (r: Result<
        ArtifactInsert,
        StoreError,
    >)
        ensures
            match r {
                Ok(row) => self.artifact_row(task, turn, seq) == Ok::<ArtifactInsertView, StoreError>(
                    row@,
                ),
                Err(e) => self.artifact_row(task, turn, seq) == Err::<ArtifactInsertView, StoreError>(e),
            },
    {
        let at: i64 = store_seq(seq)?;
        let length: i64 = store_u64(
            self.request.artifact.byte_len(),
            "result_artifacts",
            "byte_len",
        )?;
        Ok(
            ArtifactInsert {
                result_artifact_id: self.artifact,
                task_id: task,
                turn_id: turn,
                source_event_seq: at,
                storage_ref: self.request.artifact.storage_ref().clone(),
                sha256_hex: hex32(self.request.artifact.digest()),
                byte_len: length,
                media_type: self.request.artifact.media_type().clone(),
                created_at_ms: self.now,
                retention_state: encode_retention(RetentionLabel::Eligible),
            },
        )
    }

    /// What the publication commits.
    ///
    /// A terminal fact that is already in the ledger gives the artifact the obligation already has,
    /// never a second one.
    pub open spec fn committed(
        self,
        loaded: LoadedView,
        run_ref: Seq<char>,
        appended: Appended,
        machine: ObligationMachine,
    ) -> Result<PublishedView, StoreError> {
        let before = loaded.projection;
        match appended {
            Appended::Duplicate(_) => chain(
                present(
                    before.result_artifact,
                    corrupt("obligations", "result_artifact_id", CorruptReason::DanglingReference),
                ),
                |artifact: ResultArtifactId|
                    Ok((None, PublishedResult { obligation: stayed(before), artifact })),
            ),
            Appended::Inserted(seq) => chain(
                present(
                    loaded.identity.turn,
                    corrupt("obligations", "turn_id", CorruptReason::DanglingReference),
                ),
                |turn: TurnId|
                    chain(
                        self.artifact_row(loaded.identity.task, turn, seq),
                        |row: ArtifactInsertView|
                            chain(
                                turn_ended(Some(turn), TurnLifecycle::Completed, seq),
                                |ended: Option<TurnUpdate>|
                                    chain(
                                        asked(machine, before, self.transition(run_ref)),
                                        |applied: Applied<ObligationView>|
                                            chain(
                                                transition_rows(
                                                    before,
                                                    settled(applied, before),
                                                    seq,
                                                    seq,
                                                    ActorClass::Worker,
                                                    None,
                                                ),
                                                |transition: TransitionRows|
                                                    Ok(
                                                        (
                                                            Some((row, ended, transition)),
                                                            PublishedResult {
                                                                obligation: moved(
                                                                    settled(applied, before),
                                                                ),
                                                                artifact: self.artifact,
                                                            },
                                                        ),
                                                    ),
                                            ),
                                    ),
                            ),
                    ),
            ),
        }
    }

    /// Applies the publication, unless its source is already in the ledger.
    pub fn commit<A: Fn(&Obligation, &ObligationEvent) -> ObligationReply>(
        &self,
        loaded: &LoadedObligation,
        run_ref: &SafeToken,
        appended: Appended,
        apply: &A,
    ) -> (r: Result<Committed<PublishedRows, PublishedResult>, StoreError>)
        requires
            machine_total(*apply),
        ensures
            forall|machine: ObligationMachine| #[trigger]
                machine_is(*apply, machine) ==> published_view(r) == self.committed(
                    loaded@,
                    run_ref@,
                    appended,
                    machine,
                ),
    {
        let before = &loaded.projection;
        match appended {
            Appended::Duplicate(_) => match before.result_artifact {
                None => Err(
                    corrupt_row("obligations", "result_artifact_id", CorruptReason::DanglingReference),
                ),
                Some(artifact) => Ok(
                    Committed {
                        rows: None,
                        output: PublishedResult { obligation: unchanged(before), artifact },
                    },
                ),
            },
            Appended::Inserted(seq) => {
                let turn = match loaded.identity.turn {
                    None => return Err(
                        corrupt_row("obligations", "turn_id", CorruptReason::DanglingReference),
                    ),
                    Some(turn) => turn,
                };
                let artifact = self.insert_artifact(loaded.identity.task, turn, seq)?;
                let ended = finalize_turn(Some(turn), TurnLifecycle::Completed, seq)?;
                let event = ObligationEvent::ResultPublished {
                    source: self.request.source.clone(),
                    incarnation: self.request.incarnation,
                    run_ref: run_ref.clone(),
                    artifact: self.artifact,
                    at: self.now,
                };
                let applied = ask(apply, before, &event)?;
                let after = or_unchanged(applied, before.clone());
                let transition = record_obligation_transition(
                    before,
                    &after,
                    seq,
                    seq,
                    ActorClass::Worker,
                    None,
                )?;
                Ok(
                    Committed {
                        rows: Some(PublishedRows { artifact, turn: ended, transition }),
                        output: PublishedResult {
                            obligation: advanced(&after),
                            artifact: self.artifact,
                        },
                    },
                )
            },
        }
    }
}

// --- A user cancels --------------------------------------------------------------------------------

/// Cancelling delegated work on the local user's authority.
#[derive(Debug, PartialEq, Eq)]
pub struct CancelObligationRequest {
    /// Obligation being cancelled.
    pub obligation: ObligationId,
    /// Source fact behind the decision.
    pub source: SourceRef,
}

/// Closes an obligation by user cancellation.
#[derive(Debug, PartialEq, Eq)]
pub struct CancelObligation {
    pub request: CancelObligationRequest,
    pub event: EventId,
    pub now: Timestamp,
}

/// What asking for a transition left to do: nothing, or an event to append and the next obligation.
#[derive(Debug, PartialEq, Eq)]
pub enum Step {
    /// The transition is already accounted for; this is what is reported.
    Settled(ObligationAdvanced),
    /// The obligation moves once its event is appended.
    Moves(Obligation),
}

/// A step on values alone.
pub enum StepView {
    Settled(ObligationAdvanced),
    Moves(ObligationView),
}

impl View for Step {
    type V = StepView;

    open spec fn view(&self) -> StepView {
        match *self {
            Step::Settled(report) => StepView::Settled(report),
            Step::Moves(after) => StepView::Moves(after@),
        }
    }
}

/// What an answer of the machine leaves to do.
pub open spec fn step_of(
    machine: ObligationMachine,
    before: ObligationView,
    event: ObligationEventView,
) -> Result<StepView, StoreError> {
    chain(
        asked(machine, before, event),
        |applied: Applied<ObligationView>|
            Ok(
                match applied {
                    Applied::Duplicate => StepView::Settled(stayed(before)),
                    Applied::Advanced(after) => StepView::Moves(after),
                },
            ),
    )
}

/// A step that was found, on values alone, or the failure.
pub open spec fn step_view(r: Result<Step, StoreError>) -> Result<StepView, StoreError> {
    match r {
        Ok(step) => Ok(step@),
        Err(e) => Err(e),
    }
}

/// Asks for a transition before anything is appended.
pub fn step<A: Fn(&Obligation, &ObligationEvent) -> ObligationReply>(
    before: &Obligation,
    event: &ObligationEvent,
    apply: &A,
) -> (r: Result<Step, StoreError>)
    requires
        machine_total(*apply),
    ensures
        forall|machine: ObligationMachine| #[trigger]
            machine_is(*apply, machine) ==> step_view(r) == step_of(machine, before@, event@),
{
    match ask(apply, before, event)? {
        Applied::Duplicate => Ok(Step::Settled(unchanged(before))),
        Applied::Advanced(after) => Ok(Step::Moves(after)),
    }
}

impl CancelObligation {
    /// The transition asked of the obligation machine.
    pub open spec fn transition(self) -> ObligationEventView {
        ObligationEventView::CancelledByUser { source: self.request.source@, at: self.now }
    }

    /// Asks for the cancellation, before anything is appended.
    pub fn cancel<A: Fn(&Obligation, &ObligationEvent) -> ObligationReply>(
        &self,
        before: &Obligation,
        apply: &A,
    ) -> (r: Result<Step, StoreError>)
        requires
            machine_total(*apply),
        ensures
            forall|machine: ObligationMachine| #[trigger]
                machine_is(*apply, machine) ==> step_view(r) == step_of(
                    machine,
                    before@,
                    self.transition(),
                ),
    {
        let event = ObligationEvent::CancelledByUser {
            source: self.request.source.clone(),
            at: self.now,
        };
        step(before, &event, apply)
    }

    /// The event of the cancellation.
    pub open spec fn cancelled_event(self, identity: ObligationIdentity) -> EventView {
        event_of(
            self.event,
            EventKind::ObligationCancelledByUser,
            self.request.source@,
            self.now,
            scope_about(identity, self.request.obligation),
            MetaFields::empty(),
        )
    }

    /// Builds the event of the cancellation.
    pub fn event(&self, identity: ObligationIdentity) -> (r: NewEvent)
        ensures
            r@ == self.cancelled_event(identity),
    {
        new_event(
            self.event,
            EventKind::ObligationCancelledByUser,
            self.request.source.clone(),
            self.now,
            work_scope(identity.task, identity.turn, self.request.obligation),
            SafeMetadata::new(),
        )
    }

    /// What the cancellation commits.
    pub open spec fn committed(before: ObligationView, after: ObligationView, appended: Appended) -> Result<
        Committed<TransitionRows, ObligationAdvanced>,
        StoreError,
    > {
        match appended {
            Appended::Duplicate(_) => Ok(Committed { rows: None, output: stayed(before) }),
            Appended::Inserted(seq) => chain(
                transition_rows(before, after, seq, seq, ActorClass::User, None),
                |rows: TransitionRows| Ok(Committed { rows: Some(rows), output: moved(after) }),
            ),
        }
    }

    /// Applies the cancellation, unless its source is already in the ledger.
    pub fn commit(before: &Obligation, after: &Obligation, appended: Appended) -> (r: Result<
        Committed<TransitionRows, ObligationAdvanced>,
        StoreError,
    >)
        ensures
            r == Self::committed(before@, after@, appended),
    {
        match appended {
            Appended::Duplicate(_) => Ok(Committed { rows: None, output: unchanged(before) }),
            Appended::Inserted(seq) => {
                let rows = record_obligation_transition(
                    before,
                    after,
                    seq,
                    seq,
                    ActorClass::User,
                    None,
                )?;
                Ok(Committed { rows: Some(rows), output: advanced(after) })
            },
        }
    }
}

// --- Laws --------------------------------------------------------------------------------------------

/// A source identity that is already in the ledger runs no second transition: nothing is written,
/// and what is reported is the obligation as it already stands.
pub proof fn a_duplicate_source_changes_nothing(
    started: RecordWorkerStarted,
    failed: RecordWorkerFailure,
    published: PublishWorkerResult,
    loaded: LoadedView,
    after: ObligationView,
    run_ref: Seq<char>,
    at: EventSeq,
    machine: ObligationMachine,
)
    ensures
        started.committed(loaded, Appended::Duplicate(at), machine) == Ok::<
            Committed<TransitionRows, ObligationAdvanced>,
            StoreError,
        >((Committed { rows: None, output: stayed(loaded.projection) })),
        failed.committed(loaded, Appended::Duplicate(at), machine) == Ok::<
            Committed<FailureRows, ObligationAdvanced>,
            StoreError,
        >((Committed { rows: None, output: stayed(loaded.projection) })),
        published.committed(loaded, run_ref, Appended::Duplicate(at), machine) matches Ok(done) ==> {
            &&& done.0 is None
            &&& done.1.obligation == stayed(loaded.projection)
            &&& Some(done.1.artifact) == loaded.projection.result_artifact
        },
        CancelObligation::committed(loaded.projection, after, Appended::Duplicate(at)) == Ok::<
            Committed<TransitionRows, ObligationAdvanced>,
            StoreError,
        >((Committed { rows: None, output: stayed(loaded.projection) })),
{
}

/// A transition the machine refuses writes nothing: the operation fails with the machine's own
/// conflict, or with a corrupt row it met before asking.
pub proof fn a_refused_transition_writes_nothing(
    started: RecordWorkerStarted,
    failed: RecordWorkerFailure,
    loaded: LoadedView,
    at: EventSeq,
    machine: ObligationMachine,
)
    ensures
        machine(loaded.projection, started.transition()) matches Err(conflict) ==> started.committed(
            loaded,
            Appended::Inserted(at),
            machine,
        ) == Err::<Committed<TransitionRows, ObligationAdvanced>, StoreError>(
            StoreError::Conflict(conflict),
        ),
        machine(loaded.projection, failed.transition()) matches Err(conflict) ==> failed.committed(
            loaded,
            Appended::Inserted(at),
            machine,
        ) == Err::<Committed<FailureRows, ObligationAdvanced>, StoreError>(
            StoreError::Conflict(conflict),
        ),
{
}

} // verus!
