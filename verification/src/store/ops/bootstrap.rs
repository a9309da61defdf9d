//! Registering the work structure, and committing a foreman binding.
use vstd::prelude::*;
use crate::domain::binding::{
    BindingEvent, BindingEventView, BindingLedger, BindingReply, BindingView, TargetView,
    VerifiedBindingTarget, WriteCapabilityState,
};
use crate::domain::conflict::Conflict;
use crate::domain::fence::{
    clone_token, rule_is, rule_total, BindingGeneration, EventSeq, SafeToken, SourceView, Timestamp,
};
use crate::domain::id::{
    canonical_text, EventId, ForemanBindingId, Id, ObligationId, ProjectId, SessionId,
    SessionIncarnationId, TaskId, TurnId,
};
use crate::domain::obligation::{or_unchanged, reply_view, settled, Applied, ObligationKind, ObligationState};
use crate::store::codec::{store_u64, stored_u64};
use crate::store::error::{chain, StoreError};
use crate::store::event::{store_seq, stored_seq, EventScope, EventView, NewEvent};
use crate::store::event_kind::{kind_label, EventKind};
use crate::store::grammar::{MetaFields, MetaValue};
use crate::store::labels::{
    actor_class_label, encode_actor_class, encode_obligation_kind, encode_obligation_state,
    encode_turn_lifecycle, encode_write_capability, obligation_kind_label, obligation_state_label,
    turn_lifecycle_label, write_capability_label, ActorClass, TurnLifecycle,
};
use crate::store::ops::{
    event_view, internal_fact, internal_source, ObligationEventRow,
};
use crate::store::safe_metadata::SafeMetadata;

verus! {

/// Source-host provenance for a project. Never repository content.
#[derive(Debug, PartialEq, Eq)]
pub struct ProjectSpec {
    /// Opaque source-host identity.
    pub source_host: SafeToken,
    /// Opaque host-native repository identity.
    pub source_repo_id: Option<SafeToken>,
    /// Opaque host-native repository display reference.
    pub source_repo_display: Option<SafeToken>,
}

/// The worker session a turn runs in.
#[derive(Debug, PartialEq, Eq)]
pub struct SessionSpec {
    /// Opaque runtime class.
    pub runtime_kind: SafeToken,
    /// Opaque worker class.
    pub worker_kind: SafeToken,
    /// Display metadata. Never an identity fence.
    pub display_name: Option<SafeToken>,
    /// Opaque runtime instance reference for this incarnation.
    pub runtime_instance_ref: Option<SafeToken>,
    /// Opaque worker session reference for this incarnation.
    pub worker_session_ref: Option<SafeToken>,
}

/// Everything needed to open one delegated worker turn.
#[derive(Debug, PartialEq, Eq)]
pub struct OpenWorkerTurnRequest {
    /// Project provenance.
    pub project: ProjectSpec,
    /// Opaque source-host issue reference for the task.
    pub source_issue_ref: Option<SafeToken>,
    /// Session and incarnation description.
    pub session: SessionSpec,
    /// Opaque worker-native turn reference.
    pub worker_turn_ref: Option<SafeToken>,
    /// Scheduling priority. Ordering hint only, never a fence.
    pub priority: i64,
}

/// The identities one opened worker turn produced.
#[derive(Debug, Clone, Copy, PartialEq, Eq, Structural)]
pub struct OpenedWorkerTurn {
    /// Registered project.
    pub project: ProjectId,
    /// Registered task.
    pub task: TaskId,
    /// Registered session.
    pub session: SessionId,
    /// Started session incarnation.
    pub incarnation: SessionIncarnationId,
    /// Started turn.
    pub turn: TurnId,
    /// Obligation created in `created`.
    pub obligation: ObligationId,
}

/// The six events that open a turn, in order.
#[derive(Debug, Clone, Copy, PartialEq, Eq, Structural)]
pub enum OpeningStep {
    Project,
    Task,
    Session,
    Incarnation,
    Turn,
    Obligation,
}

/// One value per opening step.
#[derive(Debug, PartialEq, Eq)]
pub struct PerStep<T> {
    pub project: T,
    pub task: T,
    pub session: T,
    pub incarnation: T,
    pub turn: T,
    pub obligation: T,
}

/// Registers a project, task, session, incarnation, turn and obligation.
#[derive(Debug, PartialEq, Eq)]
pub struct OpenWorkerTurn {
    pub request: OpenWorkerTurnRequest,
    pub ids: OpenedWorkerTurn,
    pub events: PerStep<EventId>,
    pub now: Timestamp,
}

/// One `projects` row.
#[derive(Debug, PartialEq, Eq)]
pub struct ProjectRow {
    pub project_id: ProjectId,
    pub source_host: SafeToken,
    pub source_repo_id: Option<SafeToken>,
    pub source_repo_display: Option<SafeToken>,
    pub created_event_seq: i64,
}

/// One `tasks` row.
#[derive(Debug, PartialEq, Eq)]
pub struct TaskRow {
    pub task_id: TaskId,
    pub project_id: ProjectId,
    pub source_issue_ref: Option<SafeToken>,
    pub created_event_seq: i64,
    pub latest_event_seq: i64,
}

/// One `sessions` row.
#[derive(Debug, PartialEq, Eq)]
pub struct SessionRow {
    pub session_id: SessionId,
    pub project_id: ProjectId,
    pub runtime_kind: SafeToken,
    pub worker_kind: SafeToken,
    pub display_name: Option<SafeToken>,
    pub created_event_seq: i64,
}

/// One `session_incarnations` row.
#[derive(Debug, PartialEq, Eq)]
pub struct IncarnationRow {
    pub session_incarnation_id: SessionIncarnationId,
    pub session_id: SessionId,
    pub generation: i64,
    pub runtime_instance_ref: Option<SafeToken>,
    pub worker_session_ref: Option<SafeToken>,
    pub started_event_seq: i64,
}

/// One `turns` row.
#[derive(Debug, PartialEq, Eq)]
pub struct TurnRow {
    pub turn_id: TurnId,
    pub task_id: TaskId,
    pub session_incarnation_id: SessionIncarnationId,
    pub worker_turn_ref: Option<SafeToken>,
    pub turn_generation: i64,
    pub lifecycle_state: &'static str,
    pub started_event_seq: i64,
    pub latest_event_seq: i64,
}

/// One `obligations` row, as first inserted.
#[derive(Debug, PartialEq, Eq)]
pub struct ObligationRow {
    pub obligation_id: ObligationId,
    pub task_id: TaskId,
    pub turn_id: TurnId,
    pub obligation_kind: &'static str,
    pub state: &'static str,
    pub priority: i64,
    pub created_event_seq: i64,
    pub source_event_seq: i64,
    pub current_version: i64,
    pub incarnation_generation: i64,
    pub latest_event_seq: i64,
}

/// Every row an opened turn writes, in foreign-key order.
#[derive(Debug, PartialEq, Eq)]
pub struct OpenedRows {
    pub project: ProjectRow,
    pub task: TaskRow,
    pub session: SessionRow,
    pub incarnation: IncarnationRow,
    pub turn: TurnRow,
    pub obligation: ObligationRow,
    pub obligation_event: ObligationEventRow,
}

/// The steps of an opening, in order.
pub open spec fn opening_order() -> Seq<OpeningStep> {
    seq![
        OpeningStep::Project,
        OpeningStep::Task,
        OpeningStep::Session,
        OpeningStep::Incarnation,
        OpeningStep::Turn,
        OpeningStep::Obligation,
    ]
}

/// Events on values alone, or the failure to build them.
pub open spec fn events_view(r: Result<Vec<NewEvent>, StoreError>) -> Result<Seq<EventView>, StoreError> {
    match r {
        Ok(events) => Ok(Seq::new(events@.len(), |i: int| events@[i]@)),
        Err(e) => Err(e),
    }
}

impl OpenWorkerTurn {
    /// What a step is about: its kind, its subject, and what its event names.
    pub open spec fn step(self, step: OpeningStep) -> (EventKind, Id, EventId, EventScope) {
        let ids = self.ids;
        let scope = EventScope { project: Some(ids.project), ..EventScope::nothing() };
        match step {
            OpeningStep::Project => {
                (EventKind::ProjectRegistered, ids.project, self.events.project, scope)
            },
            OpeningStep::Task => (
                EventKind::TaskRegistered,
                ids.task,
                self.events.task,
                EventScope { task: Some(ids.task), ..scope },
            ),
            OpeningStep::Session => (
                EventKind::SessionRegistered,
                ids.session,
                self.events.session,
                EventScope { session: Some(ids.session), ..scope },
            ),
            OpeningStep::Incarnation => (
                EventKind::SessionIncarnationStarted,
                ids.incarnation,
                self.events.incarnation,
                EventScope { session: Some(ids.session), incarnation: Some(ids.incarnation), ..scope },
            ),
            OpeningStep::Turn => (
                EventKind::TurnStarted,
                ids.turn,
                self.events.turn,
                EventScope {
                    task: Some(ids.task),
                    session: Some(ids.session),
                    incarnation: Some(ids.incarnation),
                    turn: Some(ids.turn),
                    ..scope
                },
            ),
            OpeningStep::Obligation => (
                EventKind::ObligationCreated,
                ids.obligation,
                self.events.obligation,
                EventScope {
                    task: Some(ids.task),
                    turn: Some(ids.turn),
                    obligation: Some(ids.obligation),
                    ..scope
                },
            ),
        }
    }

    /// What the event of a step records beside its scope.
    pub open spec fn step_metadata(step: OpeningStep) -> MetaFields {
        match step {
            OpeningStep::Incarnation => seq![("generation"@, MetaValue::Int(1))],
            OpeningStep::Turn => seq![("turn_generation"@, MetaValue::Int(1))],
            OpeningStep::Obligation => seq![
                ("obligation_kind"@, MetaValue::Text("worker_turn"@)),
                ("incarnation"@, MetaValue::Int(1)),
            ],
            _ => MetaFields::empty(),
        }
    }

    /// The event of a step: an internal fact about its subject, fenced by the label of its kind.
    pub open spec fn step_event(self, step: OpeningStep, rule: spec_fn(Seq<char>) -> bool) -> Result<
        EventView,
        StoreError,
    > {
        let (kind, subject, event_id, scope) = self.step(step);
        chain(
            internal_fact(canonical_text(subject.value), kind_label(kind)@, rule),
            |source: SourceView|
                Ok(
                    EventView {
                        event_id,
                        kind,
                        source,
                        observed_at: self.now,
                        occurred_at: None,
                        scope,
                        metadata: Self::step_metadata(step),
                    },
                ),
        )
    }

    /// Builds the event of a step.
    pub fn event<S: Fn(&str) -> bool>(&self, step: OpeningStep, safe: &S) -> (r: Result<NewEvent, StoreError>)
        requires
            rule_total(*safe),
        ensures
            forall|rule: spec_fn(Seq<char>) -> bool| #[trigger]
                rule_is(*safe, rule) ==> event_view(r) == self.step_event(step, rule),
    {
        let ids = self.ids;
        let mut scope = EventScope {
            project: Some(ids.project),
            task: None,
            session: None,
            incarnation: None,
            turn: None,
            obligation: None,
        };
        let (kind, subject, event_id, metadata) = match step {
            OpeningStep::Project => {
                (EventKind::ProjectRegistered, ids.project, self.events.project, SafeMetadata::new())
            },
            OpeningStep::Task => {
                scope.task = Some(ids.task);
                (EventKind::TaskRegistered, ids.task, self.events.task, SafeMetadata::new())
            },
            OpeningStep::Session => {
                scope.session = Some(ids.session);
                (EventKind::SessionRegistered, ids.session, self.events.session, SafeMetadata::new())
            },
            OpeningStep::Incarnation => {
                scope.session = Some(ids.session);
                scope.incarnation = Some(ids.incarnation);
                (
                    EventKind::SessionIncarnationStarted,
                    ids.incarnation,
                    self.events.incarnation,
                    SafeMetadata::new().integer("generation", 1),
                )
            },
            OpeningStep::Turn => {
                scope.task = Some(ids.task);
                scope.session = Some(ids.session);
                scope.incarnation = Some(ids.incarnation);
                scope.turn = Some(ids.turn);
                (
                    EventKind::TurnStarted,
                    ids.turn,
                    self.events.turn,
                    SafeMetadata::new().integer("turn_generation", 1),
                )
            },
            OpeningStep::Obligation => {
                scope.task = Some(ids.task);
                scope.turn = Some(ids.turn);
                scope.obligation = Some(ids.obligation);
                (
                    EventKind::ObligationCreated,
                    ids.obligation,
                    self.events.obligation,
                    SafeMetadata::new().label(
                        "obligation_kind",
                        encode_obligation_kind(ObligationKind::WorkerTurn),
                    ).integer("incarnation", 1),
                )
            },
        };
        let source = internal_source(subject, kind.label(), safe)?;
        proof {
            assert(metadata@ =~= Self::step_metadata(step));
        }
        Ok(
            NewEvent {
                event_id,
                kind,
                source,
                observed_at: self.now,
                occurred_at: None,
                scope,
                metadata,
            },
        )
    }

    /// The events of the opening, in order: each step's where every one can be built, or the failure
    /// of the first that cannot.
    pub open spec fn are_events(
        self,
        r: Result<Seq<EventView>, StoreError>,
        rule: spec_fn(Seq<char>) -> bool,
    ) -> bool {
        match r {
            Ok(events) => {
                &&& events.len() == opening_order().len()
                &&& forall|k: int|
                    0 <= k < events.len() ==> self.step_event(opening_order()[k], rule) == Ok::<
                        EventView,
                        StoreError,
                    >(#[trigger] events[k])
            },
            Err(e) => exists|k: int|
                0 <= k < opening_order().len() && #[trigger] self.step_event(opening_order()[k], rule)
                    == Err::<EventView, StoreError>(e) && forall|j: int|
                    0 <= j < k ==> (#[trigger] self.step_event(opening_order()[j], rule)) is Ok,
        }
    }

    /// Builds the events of the opening, in the order they are appended.
    pub fn events<S: Fn(&str) -> bool>(&self, safe: &S) -> (r: Result<Vec<NewEvent>, StoreError>)
        requires
            rule_total(*safe),
        ensures
            forall|rule: spec_fn(Seq<char>) -> bool| #[trigger]
                rule_is(*safe, rule) ==> self.are_events(events_view(r), rule),
    {
        let steps = [
            OpeningStep::Project,
            OpeningStep::Task,
            OpeningStep::Session,
            OpeningStep::Incarnation,
            OpeningStep::Turn,
            OpeningStep::Obligation,
        ];
        assert(steps@ =~= opening_order());
        let mut out: Vec<NewEvent> = Vec::new();
        let mut i: usize = 0;
        while i < steps.len()
            invariant
                i <= steps.len(),
                rule_total(*safe),
                steps@ == opening_order(),
                out@.len() == i,
                forall|rule: spec_fn(Seq<char>) -> bool, k: int|
                    #![trigger rule_is(*safe, rule), out@[k]]
                    #![trigger rule_is(*safe, rule), self.step_event(opening_order()[k], rule)]
                    rule_is(*safe, rule) && 0 <= k < i ==> self.step_event(opening_order()[k], rule)
                        == Ok::<EventView, StoreError>(out@[k]@),
            decreases steps.len() - i,
        {
            let step = steps[i];
            match self.event(step, safe) {
                Ok(event) => out.push(event),
                Err(e) => {
                    assert(opening_order()[i as int] == step);
                    return Err(e);
                },
            }
            i = i + 1;
        }
        Ok(out)
    }

    /// The rows an opened turn writes once its six events have their sequences.
    pub open spec fn rows_at(self, at: PerStep<i64>) -> OpenedRows {
        let ids = self.ids;
        let request = self.request;
        OpenedRows {
            project: ProjectRow {
                project_id: ids.project,
                source_host: request.project.source_host,
                source_repo_id: request.project.source_repo_id,
                source_repo_display: request.project.source_repo_display,
                created_event_seq: at.project,
            },
            task: TaskRow {
                task_id: ids.task,
                project_id: ids.project,
                source_issue_ref: request.source_issue_ref,
                created_event_seq: at.task,
                latest_event_seq: at.task,
            },
            session: SessionRow {
                session_id: ids.session,
                project_id: ids.project,
                runtime_kind: request.session.runtime_kind,
                worker_kind: request.session.worker_kind,
                display_name: request.session.display_name,
                created_event_seq: at.session,
            },
            incarnation: IncarnationRow {
                session_incarnation_id: ids.incarnation,
                session_id: ids.session,
                generation: 1,
                runtime_instance_ref: request.session.runtime_instance_ref,
                worker_session_ref: request.session.worker_session_ref,
                started_event_seq: at.incarnation,
            },
            turn: TurnRow {
                turn_id: ids.turn,
                task_id: ids.task,
                session_incarnation_id: ids.incarnation,
                worker_turn_ref: request.worker_turn_ref,
                turn_generation: 1,
                lifecycle_state: turn_lifecycle_label(TurnLifecycle::Running),
                started_event_seq: at.turn,
                latest_event_seq: at.turn,
            },
            obligation: ObligationRow {
                obligation_id: ids.obligation,
                task_id: ids.task,
                turn_id: ids.turn,
                obligation_kind: obligation_kind_label(ObligationKind::WorkerTurn),
                state: obligation_state_label(ObligationState::Created),
                priority: request.priority,
                created_event_seq: at.obligation,
                source_event_seq: at.obligation,
                current_version: 1,
                incarnation_generation: 1,
                latest_event_seq: at.obligation,
            },
            obligation_event: ObligationEventRow {
                obligation_id: ids.obligation,
                obligation_version: 1,
                event_seq: at.obligation,
                from_state: None,
                to_state: obligation_state_label(ObligationState::Created),
                disposition: None,
                actor_class: actor_class_label(ActorClass::Daemon),
                binding_generation: None,
                claim_id: None,
            },
        }
    }

    /// Every sequence in its stored form, or the first that cannot be stored.
    pub open spec fn stored_steps(seqs: PerStep<EventSeq>) -> Result<PerStep<i64>, StoreError> {
        chain(
            stored_seq(seqs.project),
            |project: i64|
                chain(
                    stored_seq(seqs.task),
                    |task: i64|
                        chain(
                            stored_seq(seqs.session),
                            |session: i64|
                                chain(
                                    stored_seq(seqs.incarnation),
                                    |incarnation: i64|
                                        chain(
                                            stored_seq(seqs.turn),
                                            |turn: i64|
                                                chain(
                                                    stored_seq(seqs.obligation),
                                                    |obligation: i64|
                                                        Ok(
                                                            PerStep {
                                                                project,
                                                                task,
                                                                session,
                                                                incarnation,
                                                                turn,
                                                                obligation,
                                                            },
                                                        ),
                                                ),
                                        ),
                                ),
                        ),
                ),
        )
    }

    /// Builds every row, and answers the identities that were opened.
    pub fn commit(&self, seqs: PerStep<EventSeq>) -> (r: Result<(OpenedRows, OpenedWorkerTurn), StoreError>)
        ensures
            r == chain(
                Self::stored_steps(seqs),
                |at: PerStep<i64>| Ok((self.rows_at(at), self.ids)),
            ),
    {
        let project: i64 = store_seq(seqs.project)?;
        let task: i64 = store_seq(seqs.task)?;
        let session: i64 = store_seq(seqs.session)?;
        let incarnation: i64 = store_seq(seqs.incarnation)?;
        let turn: i64 = store_seq(seqs.turn)?;
        let obligation: i64 = store_seq(seqs.obligation)?;
        let ids = self.ids;
        let request = &self.request;
        let rows = OpenedRows {
            project: ProjectRow {
                project_id: ids.project,
                source_host: request.project.source_host.clone(),
                source_repo_id: clone_token(&request.project.source_repo_id),
                source_repo_display: clone_token(&request.project.source_repo_display),
                created_event_seq: project,
            },
            task: TaskRow {
                task_id: ids.task,
                project_id: ids.project,
                source_issue_ref: clone_token(&request.source_issue_ref),
                created_event_seq: task,
                latest_event_seq: task,
            },
            session: SessionRow {
                session_id: ids.session,
                project_id: ids.project,
                runtime_kind: request.session.runtime_kind.clone(),
                worker_kind: request.session.worker_kind.clone(),
                display_name: clone_token(&request.session.display_name),
                created_event_seq: session,
            },
            incarnation: IncarnationRow {
                session_incarnation_id: ids.incarnation,
                session_id: ids.session,
                generation: 1,
                runtime_instance_ref: clone_token(&request.session.runtime_instance_ref),
                worker_session_ref: clone_token(&request.session.worker_session_ref),
                started_event_seq: incarnation,
            },
            turn: TurnRow {
                turn_id: ids.turn,
                task_id: ids.task,
                session_incarnation_id: ids.incarnation,
                worker_turn_ref: clone_token(&request.worker_turn_ref),
                turn_generation: 1,
                lifecycle_state: encode_turn_lifecycle(TurnLifecycle::Running),
                started_event_seq: turn,
                latest_event_seq: turn,
            },
            obligation: ObligationRow {
                obligation_id: ids.obligation,
                task_id: ids.task,
                turn_id: ids.turn,
                obligation_kind: encode_obligation_kind(ObligationKind::WorkerTurn),
                state: encode_obligation_state(ObligationState::Created),
                priority: request.priority,
                created_event_seq: obligation,
                source_event_seq: obligation,
                current_version: 1,
                incarnation_generation: 1,
                latest_event_seq: obligation,
            },
            obligation_event: ObligationEventRow {
                obligation_id: ids.obligation,
                obligation_version: 1,
                event_seq: obligation,
                from_state: None,
                to_state: encode_obligation_state(ObligationState::Created),
                disposition: None,
                actor_class: encode_actor_class(ActorClass::Daemon),
                binding_generation: None,
                claim_id: None,
            },
        };
        Ok((rows, ids))
    }
}

// --- Foreman binding -----------------------------------------------------------------------------

/// A conversation the browser adapter has already verified.
#[derive(Debug, PartialEq, Eq)]
pub struct BindForemanRequest {
    /// Opaque provider label.
    pub provider: SafeToken,
    /// Exact resolved canonical conversation.
    pub conversation: SafeToken,
    /// Opaque canonical conversation URL reference.
    pub conversation_url_ref: SafeToken,
    /// Opaque identity of the dedicated browser profile.
    pub profile: SafeToken,
    /// Opaque connector ABI proven present on the surface.
    pub connector_abi: SafeToken,
    /// Capability epoch observed during verification.
    pub capability_epoch: u64,
    /// Feature-tested write capability.
    pub write_capability: WriteCapabilityState,
}

/// The binding a commit produced.
#[derive(Debug, Clone, Copy, PartialEq, Eq, Structural)]
pub struct BoundForeman {
    /// The new binding record.
    pub binding: ForemanBindingId,
    /// The generation it was issued at.
    pub generation: BindingGeneration,
}

/// Commits a verified binding, superseding every older generation.
#[derive(Debug, PartialEq, Eq)]
pub struct BindForeman {
    pub request: BindForemanRequest,
    pub binding: ForemanBindingId,
    pub event: EventId,
    pub now: Timestamp,
}

/// One `foreman_bindings` row, as inserted. Every row that was active is superseded first, at the
/// same event.
#[derive(Debug, PartialEq, Eq)]
pub struct BoundRow {
    pub foreman_binding_id: ForemanBindingId,
    pub provider: SafeToken,
    pub canonical_conversation_id: SafeToken,
    pub canonical_conversation_url: SafeToken,
    pub browser_profile_id: SafeToken,
    pub binding_generation: i64,
    pub connector_abi: SafeToken,
    pub capability_epoch: i64,
    pub write_capability_state: &'static str,
    pub bound_event_seq: i64,
    pub superseded_event_seq: i64,
}

/// What the binding machine answers, on values alone.
pub type BindingMachine = spec_fn(BindingView, BindingEventView) -> Result<
    Applied<BindingView>,
    Conflict,
>;

/// Whether an executable binding machine answers as `machine` says.
pub open spec fn binding_machine_is<A: Fn(&BindingLedger, &BindingEvent) -> BindingReply>(
    apply: A,
    machine: BindingMachine,
) -> bool {
    forall|l: &BindingLedger, e: &BindingEvent, r: BindingReply| #[trigger]
        call_ensures(apply, (l, e), r) ==> reply_view(r) == machine(l@, e@)
}

/// Whether a machine that accepts an event leaves a binding active: the one it bound, or, where the
/// event was already accounted for, the one the ledger has.
pub open spec fn leaves_active<A: Fn(&BindingLedger, &BindingEvent) -> BindingReply>(
    apply: A,
    ledger: BindingLedger,
    event: BindingEventView,
) -> bool {
    forall|e: &BindingEvent, r: BindingReply| #[trigger]
        call_ensures(apply, (&ledger, e), r) && e@ == event && r is Ok ==> settled(
            r->Ok_0,
            ledger,
        ).active is Some
}

impl BindForeman {
    /// The transition asked of the binding machine.
    pub open spec fn transition(self) -> BindingEventView {
        BindingEventView::Bound {
            target: TargetView {
                id: self.binding,
                conversation: self.request.conversation@,
                profile: self.request.profile@,
                connector_abi: self.request.connector_abi@,
                capability_epoch: self.request.capability_epoch,
                write_capability: self.request.write_capability,
            },
            at: self.now,
        }
    }

    /// The generation the ledger issues for the binding.
    pub open spec fn issued(self, ledger: BindingView, machine: BindingMachine) -> Result<
        BindingGeneration,
        StoreError,
    > {
        match machine(ledger, self.transition()) {
            Err(conflict) => Err(StoreError::Conflict(conflict)),
            Ok(applied) => Ok(settled(applied, ledger).active->0.generation),
        }
    }

    /// The generation the machine issues, or its refusal.
    pub fn generation<A: Fn(&BindingLedger, &BindingEvent) -> BindingReply>(
        &self,
        ledger: BindingLedger,
        apply: &A,
    ) -> (r: Result<BindingGeneration, StoreError>)
        requires
            forall|l: &BindingLedger, e: &BindingEvent| call_requires(*apply, (l, e)),
            leaves_active(*apply, ledger, self.transition()),
        ensures
            forall|machine: BindingMachine| #[trigger]
                binding_machine_is(*apply, machine) ==> r == self.issued(ledger@, machine),
    {
        let event = BindingEvent::Bound {
            target: VerifiedBindingTarget {
                id: self.binding,
                conversation: self.request.conversation.clone(),
                profile: self.request.profile.clone(),
                connector_abi: self.request.connector_abi.clone(),
                capability_epoch: self.request.capability_epoch,
                write_capability: self.request.write_capability,
            },
            at: self.now,
        };
        let reply = apply(&ledger, &event);
        let next = match reply {
            Err(conflict) => return Err(StoreError::Conflict(conflict)),
            Ok(applied) => or_unchanged(applied, ledger),
        };
        match next.active {
            Some(active) => Ok(active.generation),
            None => {
                proof {
                    assert(false);
                }
                Ok(0)
            },
        }
    }

    /// The event of the binding.
    pub open spec fn bound_event(
        self,
        generation: BindingGeneration,
        rule: spec_fn(Seq<char>) -> bool,
    ) -> Result<EventView, StoreError> {
        chain(
            internal_fact(canonical_text(self.binding.value), "foreman_binding_bound"@, rule),
            |source: SourceView|
                chain(
                    stored_u64(generation, "events", "generation"),
                    |issued: i64|
                        chain(
                            stored_u64(self.request.capability_epoch, "events", "capability_epoch"),
                            |epoch: i64|
                                Ok(
                                    EventView {
                                        event_id: self.event,
                                        kind: EventKind::ForemanBindingBound,
                                        source,
                                        observed_at: self.now,
                                        occurred_at: None,
                                        scope: EventScope::nothing(),
                                        metadata: seq![
                                            ("generation"@, MetaValue::Int(issued as int)),
                                            ("capability_epoch"@, MetaValue::Int(epoch as int)),
                                            (
                                                "write_capability"@,
                                                MetaValue::Text(
                                                    write_capability_label(
                                                        self.request.write_capability,
                                                    )@,
                                                ),
                                            ),
                                        ],
                                    },
                                ),
                        ),
                ),
        )
    }

    /// Builds the event of the binding.
    pub fn event<S: Fn(&str) -> bool>(&self, generation: BindingGeneration, safe: &S) -> (r: Result<
        NewEvent,
        StoreError,
    >)
        requires
            rule_total(*safe),
        ensures
            forall|rule: spec_fn(Seq<char>) -> bool| #[trigger]
                rule_is(*safe, rule) ==> event_view(r) == self.bound_event(generation, rule),
    {
        let source = internal_source(self.binding, "foreman_binding_bound", safe)?;
        let issued: i64 = store_u64(generation, "events", "generation")?;
        let epoch: i64 = store_u64(self.request.capability_epoch, "events", "capability_epoch")?;
        let metadata = SafeMetadata::new().integer("generation", issued).integer(
            "capability_epoch",
            epoch,
        ).label("write_capability", encode_write_capability(self.request.write_capability));
        proof {
            assert(metadata@ =~= seq![
                ("generation"@, MetaValue::Int(issued as int)),
                ("capability_epoch"@, MetaValue::Int(epoch as int)),
                (
                    "write_capability"@,
                    MetaValue::Text(write_capability_label(self.request.write_capability)@),
                ),
            ]);
        }
        Ok(
            NewEvent {
                event_id: self.event,
                kind: EventKind::ForemanBindingBound,
                source,
                observed_at: self.now,
                occurred_at: None,
                scope: EventScope::default(),
                metadata,
            },
        )
    }

    /// The row of the binding.
    pub open spec fn bound_row(self, generation: BindingGeneration, seq: EventSeq) -> Result<
        BoundRow,
        StoreError,
    > {
        chain(
            stored_seq(seq),
            |at: i64|
                chain(
                    stored_u64(generation, "foreman_bindings", "binding_generation"),
                    |issued: i64|
                        chain(
                            stored_u64(
                                self.request.capability_epoch,
                                "foreman_bindings",
                                "capability_epoch",
                            ),
                            |epoch: i64|
                                Ok(
                                    BoundRow {
                                        foreman_binding_id: self.binding,
                                        provider: self.request.provider,
                                        canonical_conversation_id: self.request.conversation,
                                        canonical_conversation_url: self.request.conversation_url_ref,
                                        browser_profile_id: self.request.profile,
                                        binding_generation: issued,
                                        connector_abi: self.request.connector_abi,
                                        capability_epoch: epoch,
                                        write_capability_state: write_capability_label(
                                            self.request.write_capability,
                                        ),
                                        bound_event_seq: at,
                                        superseded_event_seq: at,
                                    },
                                ),
                        ),
                ),
        )
    }

    /// The row of the binding, and what is answered.
    pub open spec fn committed(self, generation: BindingGeneration, seq: EventSeq) -> Result<
        (BoundRow, BoundForeman),
        StoreError,
    > {
        chain(
            self.bound_row(generation, seq),
            |row: BoundRow| Ok((row, BoundForeman { binding: self.binding, generation })),
        )
    }

    /// Builds the row of the binding, and answers what was bound.
    pub fn commit(&self, generation: BindingGeneration, seq: EventSeq) -> (r: Result<
        (BoundRow, BoundForeman),
        StoreError,
    >)
        ensures
            r == self.committed(generation, seq),
    {
        let at: i64 = store_seq(seq)?;
        let issued: i64 = store_u64(generation, "foreman_bindings", "binding_generation")?;
        let epoch: i64 = store_u64(
            self.request.capability_epoch,
            "foreman_bindings",
            "capability_epoch",
        )?;
        let row = BoundRow {
            foreman_binding_id: self.binding,
            provider: self.request.provider.clone(),
            canonical_conversation_id: self.request.conversation.clone(),
            canonical_conversation_url: self.request.conversation_url_ref.clone(),
            browser_profile_id: self.request.profile.clone(),
            binding_generation: issued,
            connector_abi: self.request.connector_abi.clone(),
            capability_epoch: epoch,
            write_capability_state: encode_write_capability(self.request.write_capability),
            bound_event_seq: at,
            superseded_event_seq: at,
        };
        Ok((row, BoundForeman { binding: self.binding, generation }))
    }
}

} // verus!
