//! Obligations: delegated work somebody is still owed an answer for.
use vstd::prelude::*;
use crate::domain::conflict::Conflict;
use crate::domain::fence::{
    rule_is, rule_total, BindingGeneration, IncarnationGeneration, ObligationVersion, SafeToken,
    SourceRef, SourceView, Timestamp,
};
use crate::domain::health::HealthConditionKind;
use crate::domain::id::{ClaimId, Id, ObligationId, ResultArtifactId, TaskId, TurnId};

verus! {

/// Lifecycle state of an obligation.
#[derive(Debug, Clone, Copy, PartialEq, Eq, Structural)]
pub enum ObligationState {
    Created,
    Running,
    NeedsInput,
    Failed,
    CompletedUnprocessed,
    ClaimedByForeman,
    Processing,
    Acknowledged,
    CancelledByUser,
    Superseded,
}

impl ObligationState {
    /// Whether nothing is owed any more.
    pub open spec fn closed(self) -> bool {
        self is Acknowledged || self is CancelledByUser || self is Superseded
    }

    /// Whether nothing is owed any more.
    pub fn is_closed(self) -> (r: bool)
        ensures
            r == self.closed(),
    {
        match self {
            ObligationState::Acknowledged => true,
            ObligationState::CancelledByUser => true,
            ObligationState::Superseded => true,
            _ => false,
        }
    }
}

/// What an obligation is about.
#[derive(Debug, Clone, Copy, PartialEq, Eq, Structural)]
pub enum ObligationKind {
    /// One delegated worker turn.
    WorkerTurn,
}

/// The semantic decision that closes an obligation.
#[derive(Debug, Clone, Copy, PartialEq, Eq, Structural)]
pub enum Disposition {
    Accepted,
    RejectedNeedsRework,
    FailureAcknowledged,
    Abandoned,
}

/// Documented class of a worker failure.
#[derive(Debug, Clone, Copy, PartialEq, Eq, Structural)]
pub enum WorkerFailureClass {
    StructuredError,
    StopFailure,
    Interrupted,
}

/// The structured outcome a managed run reported.
#[derive(Debug, Clone, Copy, PartialEq, Eq, Structural)]
pub enum ManagedRunOutcome {
    Success,
    Failure,
}

/// How the managed child ended.
#[derive(Debug, Clone, Copy, PartialEq, Eq, Structural)]
pub enum ChildExitStatus {
    Success,
    Failure,
}

/// The bounded safe receipts about one managed run.
///
/// A conclusion cannot be handed in: the receipts are arbitrated by the domain's classifier.
#[derive(Debug, PartialEq, Eq)]
pub struct CompletionReceipts {
    /// Opaque identity of the exact managed run.
    pub run_ref: SafeToken,
    /// Whether the final structured record was received in full.
    pub final_result_complete: bool,
    /// The structured outcome the run reported.
    pub outcome: ManagedRunOutcome,
    /// How the managed child ended.
    pub child_exit: ChildExitStatus,
}

/// What arbitrating the receipts concluded.
#[derive(Debug, PartialEq, Eq)]
pub enum WorkerOutcome {
    /// The run is proven complete.
    ConfirmedCompletion { run_ref: SafeToken },
    /// The receipts contradict each other; attention of this kind is due.
    NeedsReconciliation { kind: HealthConditionKind },
    /// Anything else: a documented failure, or not enough evidence.
    Inconclusive,
}

/// An obligation as folded from its ledger slice.
#[derive(Debug, PartialEq, Eq)]
pub struct Obligation {
    pub id: ObligationId,
    pub task: TaskId,
    pub turn: Option<TurnId>,
    pub kind: ObligationKind,
    pub state: ObligationState,
    pub version: ObligationVersion,
    pub source: SourceRef,
    pub incarnation: IncarnationGeneration,
    pub binding_generation: Option<BindingGeneration>,
    pub claim: Option<ClaimId>,
    pub result_artifact: Option<ResultArtifactId>,
    pub input_request: Option<Id>,
}

impl Clone for Obligation {
    fn clone(&self) -> (r: Self)
        ensures
            r == *self,
    {
        Obligation {
            id: self.id,
            task: self.task,
            turn: self.turn,
            kind: self.kind,
            state: self.state,
            version: self.version,
            source: self.source.clone(),
            incarnation: self.incarnation,
            binding_generation: self.binding_generation,
            claim: self.claim,
            result_artifact: self.result_artifact,
            input_request: self.input_request,
        }
    }
}

impl Obligation {
    /// An obligation as its creating event leaves it: `created`, at version one.
    pub open spec fn created_spec(
        id: ObligationId,
        task: TaskId,
        turn: Option<TurnId>,
        kind: ObligationKind,
        source: SourceRef,
        incarnation: IncarnationGeneration,
    ) -> Obligation {
        Obligation {
            id,
            task,
            turn,
            kind,
            state: ObligationState::Created,
            version: 1,
            source,
            incarnation,
            binding_generation: None,
            claim: None,
            result_artifact: None,
            input_request: None,
        }
    }

    /// An obligation as its creating event leaves it: `created`, at version one.
    pub fn created(
        id: ObligationId,
        task: TaskId,
        turn: Option<TurnId>,
        kind: ObligationKind,
        source: SourceRef,
        incarnation: IncarnationGeneration,
    ) -> (r: Obligation)
        ensures
            r == Obligation::created_spec(id, task, turn, kind, source, incarnation),
    {
        Obligation {
            id,
            task,
            turn,
            kind,
            state: ObligationState::Created,
            version: 1,
            source,
            incarnation,
            binding_generation: None,
            claim: None,
            result_artifact: None,
            input_request: None,
        }
    }
}

/// One transition asked of the obligation machine.
#[derive(Debug, PartialEq, Eq)]
#[allow(inconsistent_fields)]
pub enum ObligationEvent {
    WorkerStarted { source: SourceRef, incarnation: IncarnationGeneration, at: Timestamp },
    WorkerFailed {
        source: SourceRef,
        incarnation: IncarnationGeneration,
        failure: WorkerFailureClass,
        at: Timestamp,
    },
    ResultPublished {
        source: SourceRef,
        incarnation: IncarnationGeneration,
        run_ref: SafeToken,
        artifact: ResultArtifactId,
        at: Timestamp,
    },
    ForemanClaimed {
        claim: ClaimId,
        binding_generation: BindingGeneration,
        expected_version: ObligationVersion,
        expected_source: SourceRef,
        at: Timestamp,
    },
    HandoffDelivered { claim: ClaimId, at: Timestamp },
    ClaimExpired { claim: ClaimId, at: Timestamp },
    ForemanAcked {
        obligation: ObligationId,
        expected_version: ObligationVersion,
        expected_source: SourceRef,
        binding_generation: BindingGeneration,
        claim: ClaimId,
        disposition: Disposition,
        at: Timestamp,
    },
    CancelledByUser { source: SourceRef, at: Timestamp },
    Superseded { source: SourceRef, replacement: ObligationId, at: Timestamp },
}

/// What a machine made of an event it did not refuse.
#[derive(Debug, PartialEq, Eq)]
pub enum Applied<T> {
    /// The next value.
    Advanced(T),
    /// The event was already accounted for; nothing changes.
    Duplicate,
}

/// The value after an event: the next one, or the current one for a duplicate.
pub open spec fn settled<T>(applied: Applied<T>, current: T) -> T {
    match applied {
        Applied::Advanced(next) => next,
        Applied::Duplicate => current,
    }
}

/// The value after an event: the next one, or the current one for a duplicate.
pub fn or_unchanged<T>(applied: Applied<T>, current: T) -> (r: T)
    ensures
        r == settled(applied, current),
{
    match applied {
        Applied::Advanced(next) => next,
        Applied::Duplicate => current,
    }
}

/// What the obligation machine answers to one event.
pub type ObligationReply = Result<Applied<Obligation>, Conflict>;

// --- On values alone ---------------------------------------------------------------------------

/// An obligation on values alone.
#[verifier::ext_equal]
pub struct ObligationView {
    pub id: ObligationId,
    pub task: TaskId,
    pub turn: Option<TurnId>,
    pub kind: ObligationKind,
    pub state: ObligationState,
    pub version: ObligationVersion,
    pub source: SourceView,
    pub incarnation: IncarnationGeneration,
    pub binding_generation: Option<BindingGeneration>,
    pub claim: Option<ClaimId>,
    pub result_artifact: Option<ResultArtifactId>,
    pub input_request: Option<Id>,
}

impl View for Obligation {
    type V = ObligationView;

    open spec fn view(&self) -> ObligationView {
        ObligationView {
            id: self.id,
            task: self.task,
            turn: self.turn,
            kind: self.kind,
            state: self.state,
            version: self.version,
            source: self.source@,
            incarnation: self.incarnation,
            binding_generation: self.binding_generation,
            claim: self.claim,
            result_artifact: self.result_artifact,
            input_request: self.input_request,
        }
    }
}

/// One transition on values alone.
#[allow(inconsistent_fields)]
pub enum ObligationEventView {
    WorkerStarted { source: SourceView, incarnation: IncarnationGeneration, at: Timestamp },
    WorkerFailed {
        source: SourceView,
        incarnation: IncarnationGeneration,
        failure: WorkerFailureClass,
        at: Timestamp,
    },
    ResultPublished {
        source: SourceView,
        incarnation: IncarnationGeneration,
        run_ref: Seq<char>,
        artifact: ResultArtifactId,
        at: Timestamp,
    },
    ForemanClaimed {
        claim: ClaimId,
        binding_generation: BindingGeneration,
        expected_version: ObligationVersion,
        expected_source: SourceView,
        at: Timestamp,
    },
    HandoffDelivered { claim: ClaimId, at: Timestamp },
    ClaimExpired { claim: ClaimId, at: Timestamp },
    ForemanAcked {
        obligation: ObligationId,
        expected_version: ObligationVersion,
        expected_source: SourceView,
        binding_generation: BindingGeneration,
        claim: ClaimId,
        disposition: Disposition,
        at: Timestamp,
    },
    CancelledByUser { source: SourceView, at: Timestamp },
    Superseded { source: SourceView, replacement: ObligationId, at: Timestamp },
}

impl View for ObligationEvent {
    type V = ObligationEventView;

    open spec fn view(&self) -> ObligationEventView {
        match *self {
            ObligationEvent::WorkerStarted { source, incarnation, at } => {
                ObligationEventView::WorkerStarted { source: source@, incarnation, at }
            },
            ObligationEvent::WorkerFailed { source, incarnation, failure, at } => {
                ObligationEventView::WorkerFailed { source: source@, incarnation, failure, at }
            },
            ObligationEvent::ResultPublished { source, incarnation, run_ref, artifact, at } => {
                ObligationEventView::ResultPublished {
                    source: source@,
                    incarnation,
                    run_ref: run_ref@,
                    artifact,
                    at,
                }
            },
            ObligationEvent::ForemanClaimed {
                claim,
                binding_generation,
                expected_version,
                expected_source,
                at,
            } => ObligationEventView::ForemanClaimed {
                claim,
                binding_generation,
                expected_version,
                expected_source: expected_source@,
                at,
            },
            ObligationEvent::HandoffDelivered { claim, at } => {
                ObligationEventView::HandoffDelivered { claim, at }
            },
            ObligationEvent::ClaimExpired { claim, at } => {
                ObligationEventView::ClaimExpired { claim, at }
            },
            ObligationEvent::ForemanAcked {
                obligation,
                expected_version,
                expected_source,
                binding_generation,
                claim,
                disposition,
                at,
            } => ObligationEventView::ForemanAcked {
                obligation,
                expected_version,
                expected_source: expected_source@,
                binding_generation,
                claim,
                disposition,
                at,
            },
            ObligationEvent::CancelledByUser { source, at } => {
                ObligationEventView::CancelledByUser { source: source@, at }
            },
            ObligationEvent::Superseded { source, replacement, at } => {
                ObligationEventView::Superseded { source: source@, replacement, at }
            },
        }
    }
}

/// What a machine made of an event, on values alone.
pub open spec fn applied_view<T: View>(applied: Applied<T>) -> Applied<T::V> {
    match applied {
        Applied::Advanced(next) => Applied::Advanced(next@),
        Applied::Duplicate => Applied::Duplicate,
    }
}

/// What a machine answered, on values alone.
pub open spec fn reply_view<T: View>(reply: Result<Applied<T>, Conflict>) -> Result<
    Applied<T::V>,
    Conflict,
> {
    match reply {
        Ok(applied) => Ok(applied_view(applied)),
        Err(conflict) => Err(conflict),
    }
}

/// Receipts on values alone.
pub struct ReceiptsView {
    pub run_ref: Seq<char>,
    pub final_result_complete: bool,
    pub outcome: ManagedRunOutcome,
    pub child_exit: ChildExitStatus,
}

impl View for CompletionReceipts {
    type V = ReceiptsView;

    open spec fn view(&self) -> ReceiptsView {
        ReceiptsView {
            run_ref: self.run_ref@,
            final_result_complete: self.final_result_complete,
            outcome: self.outcome,
            child_exit: self.child_exit,
        }
    }
}

/// A conclusion on values alone.
pub enum OutcomeView {
    ConfirmedCompletion { run_ref: Seq<char> },
    NeedsReconciliation { kind: HealthConditionKind },
    Inconclusive,
}

impl View for WorkerOutcome {
    type V = OutcomeView;

    open spec fn view(&self) -> OutcomeView {
        match *self {
            WorkerOutcome::ConfirmedCompletion { run_ref } => {
                OutcomeView::ConfirmedCompletion { run_ref: run_ref@ }
            },
            WorkerOutcome::NeedsReconciliation { kind } => OutcomeView::NeedsReconciliation { kind },
            WorkerOutcome::Inconclusive => OutcomeView::Inconclusive,
        }
    }
}

// --- The domain's rules, as a value ----------------------------------------------------------------

/// The obligation machine, the evidence classifier and the token rule, as the domain supplies them.
pub struct ObligationRules<A, C, S> {
    /// Applies one event to an obligation.
    pub apply: A,
    /// Arbitrates completion receipts.
    pub classify: C,
    /// Whether a text is a redaction-safe token.
    pub safe: S,
}

/// What the obligation machine answers, on values alone.
pub type ObligationMachine = spec_fn(ObligationView, ObligationEventView) -> Result<
    Applied<ObligationView>,
    Conflict,
>;

/// Whether an executable obligation machine can be asked about everything.
pub open spec fn machine_total<A: Fn(&Obligation, &ObligationEvent) -> ObligationReply>(
    apply: A,
) -> bool {
    forall|o: &Obligation, e: &ObligationEvent| call_requires(apply, (o, e))
}

/// Whether an executable obligation machine answers as `machine` says.
pub open spec fn machine_is<A: Fn(&Obligation, &ObligationEvent) -> ObligationReply>(
    apply: A,
    machine: ObligationMachine,
) -> bool {
    forall|o: &Obligation, e: &ObligationEvent, r: ObligationReply| #[trigger]
        call_ensures(apply, (o, e), r) ==> reply_view(r) == machine(o@, e@)
}

/// What the domain's rules answer.
pub struct ObligationModel {
    pub apply: ObligationMachine,
    pub classify: spec_fn(ReceiptsView) -> OutcomeView,
    pub rule: spec_fn(Seq<char>) -> bool,
}

impl<
    A: Fn(&Obligation, &ObligationEvent) -> ObligationReply,
    C: Fn(&CompletionReceipts) -> WorkerOutcome,
    S: Fn(&str) -> bool,
> ObligationRules<A, C, S> {
    /// Whether the rules can be asked about everything.
    pub open spec fn total(self) -> bool {
        &&& machine_total(self.apply)
        &&& forall|c: &CompletionReceipts| call_requires(self.classify, (c,))
        &&& rule_total(self.safe)
    }

    /// Whether the rules answer as the model says.
    pub open spec fn follows(self, model: ObligationModel) -> bool {
        &&& machine_is(self.apply, model.apply)
        &&& forall|c: &CompletionReceipts, r: WorkerOutcome| #[trigger]
            call_ensures(self.classify, (c,), r) ==> r@ == (model.classify)(c@)
        &&& rule_is(self.safe, model.rule)
    }
}

// --- Gates -------------------------------------------------------------------------------------

/// Whether an executable version gate answers as `rule` says.
pub open spec fn version_gate_is<V: Fn(&Obligation, ObligationVersion) -> Result<(), Conflict>>(
    gate: V,
    rule: spec_fn(ObligationView, ObligationVersion) -> Result<(), Conflict>,
) -> bool {
    forall|o: &Obligation, v: ObligationVersion, r: Result<(), Conflict>| #[trigger]
        call_ensures(gate, (o, v), r) ==> r == rule(o@, v)
}

/// Whether an executable source gate answers as `rule` says.
pub open spec fn source_gate_is<Q: Fn(&Obligation, &SourceRef) -> Result<(), Conflict>>(
    gate: Q,
    rule: spec_fn(ObligationView, SourceView) -> Result<(), Conflict>,
) -> bool {
    forall|o: &Obligation, s: &SourceRef, r: Result<(), Conflict>| #[trigger]
        call_ensures(gate, (o, s), r) ==> r == rule(o@, s@)
}

} // verus!
