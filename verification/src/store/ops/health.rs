//! Durable health conditions: attention, and never anything more.
//!
//! A condition's identity is its kind and scope: the event's own scope columns are the scope, and
//! its one metadata field is the kind. The row is the fence, the fold is the proof: where they
//! disagree nothing is written.
use vstd::prelude::*;
use crate::domain::conflict::Conflict;
use crate::domain::fence::{rule_is, rule_total, EventSeq, SourceView, Timestamp};
use crate::domain::health::{
    first_open_finds, has_open, HealthCondition, HealthConditionKind, HealthConditionState, HealthLedger, HealthScope,
};
use crate::domain::id::{
    canonical_text, EventId, ExternalAttemptId, HealthConditionId, Id, ObligationId,
    ResultArtifactId, SessionId, TaskId, TurnId,
};
use crate::domain::obligation::{
    CompletionReceipts, Obligation, ObligationView, OutcomeView, ReceiptsView, WorkerOutcome,
};
use crate::store::codec::{optional_id_column, text_view};
use crate::store::error::{chain, corrupt, corrupt_row, present, CorruptReason, StoreError};
use crate::store::event::{store_seq, stored_seq, EventScope, EventView, NewEvent};
use crate::store::event_kind::EventKind;
use crate::store::grammar::MetaValue;
use crate::store::labels::{
    encode_health_kind, encode_health_state, health_kind_label, health_state_label,
};
use crate::store::load::health::open_condition_id;
use crate::store::load::obligation::{LoadedObligation, LoadedView};
use crate::store::ops::worker::classifier_is;
use crate::store::ops::{event_of, event_view, internal_fact, internal_source, new_event};
use crate::store::safe_metadata::SafeMetadata;

verus! {

/// What a health-condition write committed.
#[derive(Debug, Clone, Copy, PartialEq, Eq, Structural)]
pub struct HealthConditionRecorded {
    /// Kind of attention.
    pub kind: HealthConditionKind,
    /// What the condition is about.
    pub scope: HealthScope,
    /// Whether a matching condition was already in that state, so nothing changed.
    pub duplicate: bool,
}

/// The scope columns one health scope occupies on an event.
pub open spec fn scope_columns(scope: HealthScope) -> EventScope {
    EventScope {
        project: None,
        task: scope.task,
        session: scope.session,
        incarnation: None,
        turn: scope.turn,
        obligation: scope.obligation,
    }
}

/// The scope columns one health scope occupies on an event.
pub fn event_scope(scope: HealthScope) -> (r: EventScope)
    ensures
        r == scope_columns(scope),
{
    EventScope {
        project: None,
        task: scope.task,
        session: scope.session,
        incarnation: None,
        turn: scope.turn,
        obligation: scope.obligation,
    }
}

/// The failure where the projection row and the folded ledger disagree.
pub open spec fn disagreeing() -> StoreError {
    corrupt("health_conditions", "state", CorruptReason::UnprovableEvidence)
}

/// The failure where the projection row and the folded ledger disagree.
pub fn disagreement() -> (r: StoreError)
    ensures
        r == disagreeing(),
{
    corrupt_row("health_conditions", "state", CorruptReason::UnprovableEvidence)
}

// --- Raising ---------------------------------------------------------------------------------------

/// Opening one condition.
#[derive(Debug, Clone, Copy, PartialEq, Eq, Structural)]
pub struct RaiseCondition {
    pub condition: HealthConditionId,
    pub kind: HealthConditionKind,
    pub scope: HealthScope,
    pub event: EventId,
    pub now: Timestamp,
}

/// One `health_conditions` row, as inserted.
#[derive(Debug, Clone, Copy, PartialEq, Eq)]
pub struct ConditionInsert {
    pub health_condition_id: HealthConditionId,
    pub kind: &'static str,
    pub state: &'static str,
    pub task_id: Option<TaskId>,
    pub session_id: Option<SessionId>,
    pub turn_id: Option<TurnId>,
    pub obligation_id: Option<ObligationId>,
    pub external_attempt_id: Option<ExternalAttemptId>,
    pub opened_event_seq: i64,
}

/// The event that opens or resolves a condition.
pub open spec fn condition_event(
    event: EventId,
    event_kind: EventKind,
    condition: HealthConditionId,
    label: Seq<char>,
    kind: HealthConditionKind,
    scope: HealthScope,
    now: Timestamp,
    rule: spec_fn(Seq<char>) -> bool,
) -> Result<EventView, StoreError> {
    chain(
        internal_fact(canonical_text(condition.value), label, rule),
        |source: SourceView|
            Ok(
                event_of(
                    event,
                    event_kind,
                    source,
                    now,
                    scope_columns(scope),
                    seq![("health_kind"@, MetaValue::Text(health_kind_label(kind)@))],
                ),
            ),
    )
}

fn build_condition_event<S: Fn(&str) -> bool>(
    event: EventId,
    event_kind: EventKind,
    condition: HealthConditionId,
    label: &'static str,
    kind: HealthConditionKind,
    scope: HealthScope,
    now: Timestamp,
    safe: &S,
) -> (r: Result<NewEvent, StoreError>)
    requires
        rule_total(*safe),
    ensures
        forall|rule: spec_fn(Seq<char>) -> bool| #[trigger]
            rule_is(*safe, rule) ==> event_view(r) == condition_event(
                event,
                event_kind,
                condition,
                label@,
                kind,
                scope,
                now,
                rule,
            ),
{
    let source = internal_source(condition, label, safe)?;
    let metadata = SafeMetadata::new().label("health_kind", encode_health_kind(kind));
    proof {
        assert(metadata@ =~= seq![("health_kind"@, MetaValue::Text(health_kind_label(kind)@))]);
    }
    Ok(new_event(event, event_kind, source, now, event_scope(scope), metadata))
}

impl RaiseCondition {
    /// What is reported.
    pub open spec fn recorded(self, duplicate: bool) -> HealthConditionRecorded {
        HealthConditionRecorded { kind: self.kind, scope: self.scope, duplicate }
    }

    /// Whether an open condition is already there, as the lookup through the unique index found it.
    ///
    /// One condition per kind and scope, not one per timer tick: nothing is appended either.
    pub fn already_open(&self, found: &Option<String>) -> (r: Result<
        Option<HealthConditionRecorded>,
        StoreError,
    >)
        ensures
            r == chain(
                optional_id_column(text_view(*found), "health_conditions", "health_condition_id"),
                |id: Option<Id>|
                    Ok(
                        match id {
                            Some(_) => Some(self.recorded(true)),
                            None => None,
                        },
                    ),
            ),
    {
        match open_condition_id(found)? {
            Some(_) => Ok(
                Some(
                    HealthConditionRecorded { kind: self.kind, scope: self.scope, duplicate: true },
                ),
            ),
            None => Ok(None),
        }
    }

    /// The event that opens the condition, where the folded ledger agrees that none is open.
    pub open spec fn opening_event(
        self,
        conditions: Seq<HealthCondition>,
        rule: spec_fn(Seq<char>) -> bool,
    ) -> Result<EventView, StoreError> {
        if has_open(conditions, self.kind, self.scope) {
            Err(disagreeing())
        } else {
            condition_event(
                self.event,
                EventKind::HealthConditionOpened,
                self.condition,
                "health_condition_opened"@,
                self.kind,
                self.scope,
                self.now,
                rule,
            )
        }
    }

    /// Builds the event that opens the condition.
    pub fn event<S: Fn(&str) -> bool>(&self, ledger: &HealthLedger, safe: &S) -> (r: Result<
        NewEvent,
        StoreError,
    >)
        requires
            rule_total(*safe),
        ensures
            forall|rule: spec_fn(Seq<char>) -> bool| #[trigger]
                rule_is(*safe, rule) ==> event_view(r) == self.opening_event(
                    ledger.conditions@,
                    rule,
                ),
    {
        proof {
            first_open_finds(ledger.conditions@, self.kind, self.scope);
        }
        if ledger.open_position(self.kind, self.scope).is_some() {
            return Err(disagreement());
        }
        build_condition_event(
            self.event,
            EventKind::HealthConditionOpened,
            self.condition,
            "health_condition_opened",
            self.kind,
            self.scope,
            self.now,
            safe,
        )
    }

    /// The row of the condition, and what is reported.
    pub open spec fn committed(self, seq: EventSeq) -> Result<
        (ConditionInsert, HealthConditionRecorded),
        StoreError,
    > {
        chain(
            stored_seq(seq),
            |at: i64|
                Ok(
                    (
                        ConditionInsert {
                            health_condition_id: self.condition,
                            kind: health_kind_label(self.kind),
                            state: health_state_label(HealthConditionState::Open),
                            task_id: self.scope.task,
                            session_id: self.scope.session,
                            turn_id: self.scope.turn,
                            obligation_id: self.scope.obligation,
                            external_attempt_id: self.scope.external_attempt,
                            opened_event_seq: at,
                        },
                        self.recorded(false),
                    ),
                ),
        )
    }

    /// Builds the row of the condition.
    pub fn commit(&self, seq: EventSeq) -> (r: Result<
        (ConditionInsert, HealthConditionRecorded),
        StoreError,
    >)
        ensures
            r == self.committed(seq),
    {
        let at: i64 = store_seq(seq)?;
        Ok(
            (
                ConditionInsert {
                    health_condition_id: self.condition,
                    kind: encode_health_kind(self.kind),
                    state: encode_health_state(HealthConditionState::Open),
                    task_id: self.scope.task,
                    session_id: self.scope.session,
                    turn_id: self.scope.turn,
                    obligation_id: self.scope.obligation,
                    external_attempt_id: self.scope.external_attempt,
                    opened_event_seq: at,
                },
                HealthConditionRecorded { kind: self.kind, scope: self.scope, duplicate: false },
            ),
        )
    }
}

// --- Resolving ---------------------------------------------------------------------------------------

/// Closing one open condition.
#[derive(Debug, Clone, Copy, PartialEq, Eq, Structural)]
pub struct ResolveCondition {
    pub kind: HealthConditionKind,
    pub scope: HealthScope,
    pub event: EventId,
    pub now: Timestamp,
}

/// What a `health_conditions` row is overwritten with when it is resolved.
#[derive(Debug, Clone, Copy, PartialEq, Eq)]
pub struct ConditionUpdate {
    pub health_condition_id: HealthConditionId,
    pub state: &'static str,
    pub resolved_event_seq: i64,
}

/// What a lookup leaves to do: nothing, or a condition to resolve.
#[derive(Debug, Clone, Copy, PartialEq, Eq, Structural)]
pub enum Resolution {
    /// There was nothing to close.
    Nothing(HealthConditionRecorded),
    /// This condition is open.
    Closes(HealthConditionId),
}

impl ResolveCondition {
    /// What is reported.
    pub open spec fn recorded(self, duplicate: bool) -> HealthConditionRecorded {
        HealthConditionRecorded { kind: self.kind, scope: self.scope, duplicate }
    }

    /// The condition to close, as the lookup through the unique index found it.
    pub fn open_one(&self, found: &Option<String>) -> (r: Result<Resolution, StoreError>)
        ensures
            r == chain(
                optional_id_column(text_view(*found), "health_conditions", "health_condition_id"),
                |id: Option<Id>|
                    Ok(
                        match id {
                            Some(condition) => Resolution::Closes(condition),
                            None => Resolution::Nothing(self.recorded(true)),
                        },
                    ),
            ),
    {
        match open_condition_id(found)? {
            Some(condition) => Ok(Resolution::Closes(condition)),
            None => Ok(
                Resolution::Nothing(
                    HealthConditionRecorded { kind: self.kind, scope: self.scope, duplicate: true },
                ),
            ),
        }
    }

    /// The event that resolves the condition, where the folded ledger agrees that it is open.
    pub open spec fn resolving_event(
        self,
        condition: HealthConditionId,
        conditions: Seq<HealthCondition>,
        rule: spec_fn(Seq<char>) -> bool,
    ) -> Result<EventView, StoreError> {
        if !has_open(conditions, self.kind, self.scope) {
            Err(disagreeing())
        } else {
            condition_event(
                self.event,
                EventKind::HealthConditionResolved,
                condition,
                "health_condition_resolved"@,
                self.kind,
                self.scope,
                self.now,
                rule,
            )
        }
    }

    /// Builds the event that resolves the condition.
    pub fn event<S: Fn(&str) -> bool>(
        &self,
        condition: HealthConditionId,
        ledger: &HealthLedger,
        safe: &S,
    ) -> (r: Result<NewEvent, StoreError>)
        requires
            rule_total(*safe),
        ensures
            forall|rule: spec_fn(Seq<char>) -> bool| #[trigger]
                rule_is(*safe, rule) ==> event_view(r) == self.resolving_event(
                    condition,
                    ledger.conditions@,
                    rule,
                ),
    {
        proof {
            first_open_finds(ledger.conditions@, self.kind, self.scope);
        }
        if ledger.open_position(self.kind, self.scope).is_none() {
            return Err(disagreement());
        }
        build_condition_event(
            self.event,
            EventKind::HealthConditionResolved,
            condition,
            "health_condition_resolved",
            self.kind,
            self.scope,
            self.now,
            safe,
        )
    }

    /// The row of the resolution, and what is reported.
    pub open spec fn committed(self, condition: HealthConditionId, seq: EventSeq) -> Result<
        (ConditionUpdate, HealthConditionRecorded),
        StoreError,
    > {
        chain(
            stored_seq(seq),
            |at: i64|
                Ok(
                    (
                        ConditionUpdate {
                            health_condition_id: condition,
                            state: health_state_label(HealthConditionState::Resolved),
                            resolved_event_seq: at,
                        },
                        self.recorded(false),
                    ),
                ),
        )
    }

    /// Builds the row of the resolution.
    pub fn commit(&self, condition: HealthConditionId, seq: EventSeq) -> (r: Result<
        (ConditionUpdate, HealthConditionRecorded),
        StoreError,
    >)
        ensures
            r == self.committed(condition, seq),
    {
        let at: i64 = store_seq(seq)?;
        Ok(
            (
                ConditionUpdate {
                    health_condition_id: condition,
                    state: encode_health_state(HealthConditionState::Resolved),
                    resolved_event_seq: at,
                },
                HealthConditionRecorded { kind: self.kind, scope: self.scope, duplicate: false },
            ),
        )
    }
}

/// What an acceptance resolves: the attention about the foreman's reach.
pub open spec fn acceptance_resolves(obligation: ObligationId, event: EventId, now: Timestamp) -> ResolveCondition {
    ResolveCondition {
        kind: HealthConditionKind::ForemanUnreachable,
        scope: HealthScope::of_obligation(obligation),
        event,
        now,
    }
}

/// The resolution an accepted wake implies: the foreman was reached after all.
pub fn resolve_on_acceptance(obligation: ObligationId, event: EventId, now: Timestamp) -> (r: ResolveCondition)
    ensures
        r == acceptance_resolves(obligation, event, now),
{
    ResolveCondition {
        kind: HealthConditionKind::ForemanUnreachable,
        scope: HealthScope::obligation(obligation),
        event,
        now,
    }
}

// --- What may be raised ------------------------------------------------------------------------------

/// Attention is for work somebody is still owed.
pub open spec fn open_required(obligation: ObligationView) -> Result<(), StoreError> {
    if obligation.state.closed() {
        Err(StoreError::Conflict(Conflict::ObligationClosed { state: obligation.state }))
    } else {
        Ok(())
    }
}

fn require_open(obligation: &Obligation) -> (r: Result<(), StoreError>)
    ensures
        r == open_required(obligation@),
{
    if obligation.state.is_closed() {
        Err(StoreError::Conflict(Conflict::ObligationClosed { state: obligation.state }))
    } else {
        Ok(())
    }
}

/// The condition must be about the artifact the obligation actually requires.
pub open spec fn artifact_required(obligation: ObligationView, artifact: ResultArtifactId) -> Result<
    (),
    StoreError,
> {
    if obligation.result_artifact == Some(artifact) {
        Ok(())
    } else {
        Err(
            StoreError::Conflict(
                Conflict::IllegalObligationTransition {
                    from: obligation.state,
                    event: "result_artifact_missing",
                },
            ),
        )
    }
}

fn require_requires_artifact(obligation: &Obligation, artifact: ResultArtifactId) -> (r: Result<
    (),
    StoreError,
>)
    ensures
        r == artifact_required(obligation@, artifact),
{
    let same: bool = match obligation.result_artifact {
        Some(id) => id.value == artifact.value,
        None => false,
    };
    if same {
        Ok(())
    } else {
        Err(
            StoreError::Conflict(
                Conflict::IllegalObligationTransition {
                    from: obligation.state,
                    event: "result_artifact_missing",
                },
            ),
        )
    }
}

/// The resume budget for one obligation is spent.
#[derive(Debug, Clone, Copy, PartialEq, Eq, Structural)]
pub struct RaiseForemanUnreachableRequest {
    /// Obligation whose automatic wake budget ran out.
    pub obligation: ObligationId,
}

/// Opens `foreman_unreachable` for an obligation whose wake budget is spent.
#[derive(Debug, Clone, Copy, PartialEq, Eq, Structural)]
pub struct RaiseForemanUnreachable {
    pub request: RaiseForemanUnreachableRequest,
    pub condition: HealthConditionId,
    pub event: EventId,
    pub now: Timestamp,
}

impl RaiseForemanUnreachable {
    /// The condition that is raised for an obligation.
    pub open spec fn raises(self, obligation: ObligationView) -> Result<RaiseCondition, StoreError> {
        chain(
            open_required(obligation),
            |_u: ()|
                Ok(
                    RaiseCondition {
                        condition: self.condition,
                        kind: HealthConditionKind::ForemanUnreachable,
                        scope: HealthScope::of_obligation(self.request.obligation),
                        event: self.event,
                        now: self.now,
                    },
                ),
        )
    }

    /// The condition to open, where the obligation is still open.
    pub fn condition(&self, obligation: &Obligation) -> (r: Result<RaiseCondition, StoreError>)
        ensures
            r == self.raises(obligation@),
    {
        require_open(obligation)?;
        Ok(
            RaiseCondition {
                condition: self.condition,
                kind: HealthConditionKind::ForemanUnreachable,
                scope: HealthScope::obligation(self.request.obligation),
                event: self.event,
                now: self.now,
            },
        )
    }
}

/// An artifact an open obligation requires could not be read or verified.
#[derive(Debug, Clone, Copy, PartialEq, Eq, Structural)]
pub struct ResultArtifactMissingRequest {
    /// Obligation that still requires the artifact.
    pub obligation: ObligationId,
    /// The artifact whose bytes could not be proven.
    pub artifact: ResultArtifactId,
}

/// Opens `result_artifact_missing` for an artifact an open obligation pins.
#[derive(Debug, Clone, Copy, PartialEq, Eq, Structural)]
pub struct RaiseResultArtifactMissing {
    pub request: ResultArtifactMissingRequest,
    pub condition: HealthConditionId,
    pub event: EventId,
    pub now: Timestamp,
}

impl RaiseResultArtifactMissing {
    /// The condition that is raised for an obligation.
    pub open spec fn raises(self, obligation: ObligationView) -> Result<RaiseCondition, StoreError> {
        chain(
            open_required(obligation),
            |_u: ()|
                chain(
                    artifact_required(obligation, self.request.artifact),
                    |_u: ()|
                        Ok(
                            RaiseCondition {
                                condition: self.condition,
                                kind: HealthConditionKind::ResultArtifactMissing,
                                scope: HealthScope::of_obligation(self.request.obligation),
                                event: self.event,
                                now: self.now,
                            },
                        ),
                ),
        )
    }

    /// The condition to open, where the obligation is still open and requires the artifact.
    pub fn condition(&self, obligation: &Obligation) -> (r: Result<RaiseCondition, StoreError>)
        ensures
            r == self.raises(obligation@),
    {
        require_open(obligation)?;
        require_requires_artifact(obligation, self.request.artifact)?;
        Ok(
            RaiseCondition {
                condition: self.condition,
                kind: HealthConditionKind::ResultArtifactMissing,
                scope: HealthScope::obligation(self.request.obligation),
                event: self.event,
                now: self.now,
            },
        )
    }
}

/// Closes `result_artifact_missing`: the artifact was read back and verified after all.
#[derive(Debug, Clone, Copy, PartialEq, Eq, Structural)]
pub struct ResolveResultArtifactMissing {
    pub request: ResultArtifactMissingRequest,
    pub event: EventId,
    pub now: Timestamp,
}

impl ResolveResultArtifactMissing {
    /// The condition that is resolved for an obligation.
    pub open spec fn resolves(self, obligation: ObligationView) -> Result<ResolveCondition, StoreError> {
        chain(
            artifact_required(obligation, self.request.artifact),
            |_u: ()|
                Ok(
                    ResolveCondition {
                        kind: HealthConditionKind::ResultArtifactMissing,
                        scope: HealthScope::of_obligation(self.request.obligation),
                        event: self.event,
                        now: self.now,
                    },
                ),
        )
    }

    /// The condition to close. Not fenced on the obligation still being open: an artifact that came
    /// back is good news whatever became of the work.
    pub fn condition(&self, obligation: &Obligation) -> (r: Result<ResolveCondition, StoreError>)
        ensures
            r == self.resolves(obligation@),
    {
        require_requires_artifact(obligation, self.request.artifact)?;
        Ok(
            ResolveCondition {
                kind: HealthConditionKind::ResultArtifactMissing,
                scope: HealthScope::obligation(self.request.obligation),
                event: self.event,
                now: self.now,
            },
        )
    }
}

/// Contradictory terminal evidence for a turn that already has a result.
#[derive(Debug, PartialEq, Eq)]
pub struct TerminalEvidenceConflictRequest {
    /// Obligation whose turn already holds a confirmed terminal result.
    pub obligation: ObligationId,
    /// The bounded safe receipts that contradict it. Arbitrated here.
    pub receipts: CompletionReceipts,
}

/// Records that a turn's terminal evidence contradicts its confirmed result.
#[derive(Debug, PartialEq, Eq)]
pub struct RecordTerminalEvidenceConflict {
    pub request: TerminalEvidenceConflictRequest,
    pub condition: HealthConditionId,
    pub event: EventId,
    pub now: Timestamp,
}

impl RecordTerminalEvidenceConflict {
    /// The refusal where there is nothing to contradict, or nothing contradictory.
    pub open spec fn no_conflict(obligation: ObligationView) -> StoreError {
        StoreError::Conflict(
            Conflict::IllegalObligationTransition {
                from: obligation.state,
                event: "terminal_evidence_conflict",
            },
        )
    }

    /// The condition to open: of the kind the arbitration concluded, about the turn.
    pub open spec fn contradiction(self, loaded: LoadedView, model: spec_fn(ReceiptsView) -> OutcomeView) -> Result<
        RaiseCondition,
        StoreError,
    > {
        if loaded.projection.result_artifact is None {
            Err(Self::no_conflict(loaded.projection))
        } else {
            chain(
                present(
                    loaded.identity.turn,
                    corrupt("obligations", "turn_id", CorruptReason::DanglingReference),
                ),
                |turn: TurnId|
                    match model(self.request.receipts@) {
                        OutcomeView::NeedsReconciliation { kind } => Ok(
                            RaiseCondition {
                                condition: self.condition,
                                kind,
                                scope: HealthScope::of_turn(turn),
                                event: self.event,
                                now: self.now,
                            },
                        ),
                        _ => Err(Self::no_conflict(loaded.projection)),
                    },
            )
        }
    }

    /// Arbitrates the receipts: only contradictory evidence about a published result opens anything.
    pub fn condition<C: Fn(&CompletionReceipts) -> WorkerOutcome>(
        &self,
        loaded: &LoadedObligation,
        classify: &C,
    ) -> (r: Result<RaiseCondition, StoreError>)
        requires
            forall|c: &CompletionReceipts| call_requires(*classify, (c,)),
        ensures
            forall|model: spec_fn(ReceiptsView) -> OutcomeView| #[trigger]
                classifier_is(*classify, model) ==> r == self.contradiction(loaded@, model),
    {
        let refusal = StoreError::Conflict(
            Conflict::IllegalObligationTransition {
                from: loaded.projection.state,
                event: "terminal_evidence_conflict",
            },
        );
        if loaded.projection.result_artifact.is_none() {
            return Err(refusal);
        }
        let turn = match loaded.identity.turn {
            Some(turn) => turn,
            None => {
                return Err(corrupt_row("obligations", "turn_id", CorruptReason::DanglingReference));
            },
        };
        match classify(&self.request.receipts) {
            WorkerOutcome::NeedsReconciliation { kind } => Ok(
                RaiseCondition {
                    condition: self.condition,
                    kind,
                    scope: HealthScope::turn(turn),
                    event: self.event,
                    now: self.now,
                },
            ),
            _ => Err(refusal),
        }
    }
}

// --- Session-scoped attention --------------------------------------------------------------------------

/// A logical session that needs attention before it can be resumed.
#[derive(Debug, Clone, Copy, PartialEq, Eq, Structural)]
pub struct SessionHealthRequest {
    /// Session whose launch state could not be proved.
    pub session: SessionId,
}

/// Which evidence about a session failed.
#[derive(Debug, Clone, Copy, PartialEq, Eq, Structural)]
pub enum SessionAttention {
    /// The launch row will not re-derive its own digest.
    LoadoutUnverifiable,
    /// The configuration bytes are gone, truncated or rewritten.
    ManagedConfigMissing,
    /// The ancestor walk does not terminate.
    LineageBroken,
}

impl SessionAttention {
    /// The kind of condition the evidence opens.
    pub open spec fn opens(self) -> HealthConditionKind {
        match self {
            SessionAttention::LoadoutUnverifiable => HealthConditionKind::LoadoutUnverifiable,
            SessionAttention::ManagedConfigMissing => HealthConditionKind::ManagedConfigMissing,
            SessionAttention::LineageBroken => HealthConditionKind::LineageBroken,
        }
    }

    /// The kind of condition the evidence opens.
    pub fn kind(self) -> (r: HealthConditionKind)
        ensures
            r == self.opens(),
    {
        match self {
            SessionAttention::LoadoutUnverifiable => HealthConditionKind::LoadoutUnverifiable,
            SessionAttention::ManagedConfigMissing => HealthConditionKind::ManagedConfigMissing,
            SessionAttention::LineageBroken => HealthConditionKind::LineageBroken,
        }
    }
}

/// The session must exist before attention can be recorded about it.
pub open spec fn session_required(found: bool) -> Result<(), StoreError> {
    if found {
        Ok(())
    } else {
        Err(corrupt("sessions", "session_id", CorruptReason::DanglingReference))
    }
}

fn require_session(found: bool) -> (r: Result<(), StoreError>)
    ensures
        r == session_required(found),
{
    if found {
        Ok(())
    } else {
        Err(corrupt_row("sessions", "session_id", CorruptReason::DanglingReference))
    }
}

impl SessionHealthRequest {
    /// The condition that is raised for the session.
    pub open spec fn raises(
        self,
        attention: SessionAttention,
        found: bool,
        condition: HealthConditionId,
        event: EventId,
        now: Timestamp,
    ) -> Result<RaiseCondition, StoreError> {
        chain(
            session_required(found),
            |_u: ()|
                Ok(
                    RaiseCondition {
                        condition,
                        kind: attention.opens(),
                        scope: HealthScope::of_session(self.session),
                        event,
                        now,
                    },
                ),
        )
    }

    /// The condition to open for a session that exists.
    pub fn raise(
        &self,
        attention: SessionAttention,
        found: bool,
        condition: HealthConditionId,
        event: EventId,
        now: Timestamp,
    ) -> (r: Result<RaiseCondition, StoreError>)
        ensures
            r == self.raises(attention, found, condition, event, now),
    {
        require_session(found)?;
        Ok(
            RaiseCondition {
                condition,
                kind: attention.kind(),
                scope: HealthScope::session(self.session),
                event,
                now,
            },
        )
    }

    /// The condition that is resolved for the session.
    pub open spec fn resolves(
        self,
        attention: SessionAttention,
        found: bool,
        event: EventId,
        now: Timestamp,
    ) -> Result<ResolveCondition, StoreError> {
        chain(
            session_required(found),
            |_u: ()|
                Ok(
                    ResolveCondition {
                        kind: attention.opens(),
                        scope: HealthScope::of_session(self.session),
                        event,
                        now,
                    },
                ),
        )
    }

    /// The condition to close for a session that exists, after the evidence verified again.
    pub fn resolve(&self, attention: SessionAttention, found: bool, event: EventId, now: Timestamp) -> (r: Result<
        ResolveCondition,
        StoreError,
    >)
        ensures
            r == self.resolves(attention, found, event, now),
    {
        require_session(found)?;
        Ok(
            ResolveCondition {
                kind: attention.kind(),
                scope: HealthScope::session(self.session),
                event,
                now,
            },
        )
    }
}

} // verus!
