//! External attempts: consequential effects behind a durable intent.
use vstd::prelude::*;
use crate::domain::conflict::Conflict;
use crate::domain::fence::{
    clone_token, DaemonEpoch, DurationMs, SafeToken, SourceRef, SourceView, Timestamp,
};
use crate::domain::id::ExternalAttemptId;
use crate::domain::obligation::{reply_view, Applied};

verus! {

/// State of one external attempt.
#[derive(Debug, Clone, Copy, PartialEq, Eq, Structural)]
pub enum ExternalAttemptState {
    IntentRecorded,
    Completed,
    FailedBeforeEffect,
    Ambiguous,
}

/// Proof that the effect did not happen.
#[derive(Debug, Clone, Copy, PartialEq, Eq, Structural)]
pub enum NoEffectClass {
    NotAttempted,
    RejectedBeforeDispatch,
    DestinationRefusedWithoutApplying,
    PreconditionRejectedAtDestination,
}

/// Why the fate of an effect was lost.
#[derive(Debug, Clone, Copy, PartialEq, Eq, Structural)]
pub enum EffectAmbiguityReason {
    OrphanedByRestart,
    ResponseLost,
    DeadlineElapsed,
    EvidenceInconclusive,
}

/// The mechanism by which a destination deduplicates.
#[derive(Debug, Clone, Copy, PartialEq, Eq, Structural)]
pub enum IdempotencyContract {
    DeduplicatedByKey { window: DurationMs },
    ConditionalOnDestinationFence,
}

/// How consequential a call is.
#[derive(Debug, PartialEq, Eq)]
pub enum ExternalEffectClass {
    Read,
    NonIdempotentWrite,
    IdempotentWrite { contract: IdempotencyContract, key: SafeToken },
}

impl Clone for ExternalEffectClass {
    fn clone(&self) -> (r: Self)
        ensures
            r == *self,
    {
        match self {
            ExternalEffectClass::Read => ExternalEffectClass::Read,
            ExternalEffectClass::NonIdempotentWrite => ExternalEffectClass::NonIdempotentWrite,
            ExternalEffectClass::IdempotentWrite { contract, key } => {
                ExternalEffectClass::IdempotentWrite { contract: *contract, key: key.clone() }
            },
        }
    }
}

/// Opaque destination of a call.
#[derive(Debug, PartialEq, Eq)]
pub struct DestinationRef {
    pub namespace: SafeToken,
    pub endpoint: SafeToken,
    pub fence: SafeToken,
}

impl Clone for DestinationRef {
    fn clone(&self) -> (r: Self)
        ensures
            r == *self,
    {
        DestinationRef {
            namespace: self.namespace.clone(),
            endpoint: self.endpoint.clone(),
            fence: self.fence.clone(),
        }
    }
}

/// One external attempt.
#[derive(Debug, PartialEq, Eq)]
pub struct ExternalAttempt {
    pub id: ExternalAttemptId,
    pub class: ExternalEffectClass,
    pub destination: DestinationRef,
    pub source: SourceRef,
    pub daemon_epoch: DaemonEpoch,
    pub recorded_at: Timestamp,
    pub state: ExternalAttemptState,
    pub dispatched_at: Option<Timestamp>,
    pub finished_at: Option<Timestamp>,
    pub outcome: Option<SafeToken>,
    pub no_effect: Option<NoEffectClass>,
    pub ambiguity: Option<EffectAmbiguityReason>,
}

impl Clone for ExternalAttempt {
    fn clone(&self) -> (r: Self)
        ensures
            r == *self,
    {
        ExternalAttempt {
            id: self.id,
            class: self.class.clone(),
            destination: self.destination.clone(),
            source: self.source.clone(),
            daemon_epoch: self.daemon_epoch,
            recorded_at: self.recorded_at,
            state: self.state,
            dispatched_at: self.dispatched_at,
            finished_at: self.finished_at,
            outcome: clone_token(&self.outcome),
            no_effect: self.no_effect,
            ambiguity: self.ambiguity,
        }
    }
}

impl ExternalAttempt {
    /// An attempt as its intent leaves it: recorded, not dispatched, no outcome.
    pub open spec fn intent(
        id: ExternalAttemptId,
        class: ExternalEffectClass,
        destination: DestinationRef,
        source: SourceRef,
        daemon_epoch: DaemonEpoch,
        recorded_at: Timestamp,
    ) -> ExternalAttempt {
        ExternalAttempt {
            id,
            class,
            destination,
            source,
            daemon_epoch,
            recorded_at,
            state: ExternalAttemptState::IntentRecorded,
            dispatched_at: None,
            finished_at: None,
            outcome: None,
            no_effect: None,
            ambiguity: None,
        }
    }

    /// An attempt as its intent leaves it: recorded, not dispatched, no outcome.
    pub fn record_intent(
        id: ExternalAttemptId,
        class: ExternalEffectClass,
        destination: DestinationRef,
        source: SourceRef,
        daemon_epoch: DaemonEpoch,
        recorded_at: Timestamp,
    ) -> (r: ExternalAttempt)
        ensures
            r == ExternalAttempt::intent(id, class, destination, source, daemon_epoch, recorded_at),
    {
        ExternalAttempt {
            id,
            class,
            destination,
            source,
            daemon_epoch,
            recorded_at,
            state: ExternalAttemptState::IntentRecorded,
            dispatched_at: None,
            finished_at: None,
            outcome: None,
            no_effect: None,
            ambiguity: None,
        }
    }
}

/// One transition asked of the attempt machine.
#[derive(Debug, PartialEq, Eq)]
#[allow(inconsistent_fields)]
pub enum ExternalAttemptEvent {
    CallDispatched { at: Timestamp },
    Completed { evidence: SafeToken, at: Timestamp },
    FailedBeforeEffect { proven: NoEffectClass, at: Timestamp },
    OutcomeUnknown { reason: EffectAmbiguityReason, at: Timestamp },
}

/// What the attempt machine answers to one event.
pub type AttemptReply = Result<Applied<ExternalAttempt>, Conflict>;

// --- On values alone ---------------------------------------------------------------------------

/// What an effect class says, on values alone.
pub enum EffectClassView {
    Read,
    NonIdempotentWrite,
    IdempotentWrite { contract: IdempotencyContract, key: Seq<char> },
}

impl View for ExternalEffectClass {
    type V = EffectClassView;

    open spec fn view(&self) -> EffectClassView {
        match *self {
            ExternalEffectClass::Read => EffectClassView::Read,
            ExternalEffectClass::NonIdempotentWrite => EffectClassView::NonIdempotentWrite,
            ExternalEffectClass::IdempotentWrite { contract, key } => {
                EffectClassView::IdempotentWrite { contract, key: key@ }
            },
        }
    }
}

/// A destination on values alone: namespace, endpoint, fence.
pub type DestinationView = (Seq<char>, Seq<char>, Seq<char>);

impl View for DestinationRef {
    type V = DestinationView;

    open spec fn view(&self) -> DestinationView {
        (self.namespace@, self.endpoint@, self.fence@)
    }
}

/// One external attempt on values alone.
#[verifier::ext_equal]
pub struct AttemptView {
    pub id: ExternalAttemptId,
    pub class: EffectClassView,
    pub destination: DestinationView,
    pub source: SourceView,
    pub daemon_epoch: DaemonEpoch,
    pub recorded_at: Timestamp,
    pub state: ExternalAttemptState,
    pub dispatched_at: Option<Timestamp>,
    pub finished_at: Option<Timestamp>,
    pub outcome: Option<Seq<char>>,
    pub no_effect: Option<NoEffectClass>,
    pub ambiguity: Option<EffectAmbiguityReason>,
}

impl View for ExternalAttempt {
    type V = AttemptView;

    open spec fn view(&self) -> AttemptView {
        AttemptView {
            id: self.id,
            class: self.class@,
            destination: self.destination@,
            source: self.source@,
            daemon_epoch: self.daemon_epoch,
            recorded_at: self.recorded_at,
            state: self.state,
            dispatched_at: self.dispatched_at,
            finished_at: self.finished_at,
            outcome: match self.outcome {
                Some(token) => Some(token@),
                None => None,
            },
            no_effect: self.no_effect,
            ambiguity: self.ambiguity,
        }
    }
}

/// One transition on values alone.
#[allow(inconsistent_fields)]
pub enum AttemptEventView {
    CallDispatched { at: Timestamp },
    Completed { evidence: Seq<char>, at: Timestamp },
    FailedBeforeEffect { proven: NoEffectClass, at: Timestamp },
    OutcomeUnknown { reason: EffectAmbiguityReason, at: Timestamp },
}

impl View for ExternalAttemptEvent {
    type V = AttemptEventView;

    open spec fn view(&self) -> AttemptEventView {
        match *self {
            ExternalAttemptEvent::CallDispatched { at } => AttemptEventView::CallDispatched { at },
            ExternalAttemptEvent::Completed { evidence, at } => {
                AttemptEventView::Completed { evidence: evidence@, at }
            },
            ExternalAttemptEvent::FailedBeforeEffect { proven, at } => {
                AttemptEventView::FailedBeforeEffect { proven, at }
            },
            ExternalAttemptEvent::OutcomeUnknown { reason, at } => {
                AttemptEventView::OutcomeUnknown { reason, at }
            },
        }
    }
}

// --- The domain's rule, as a value -------------------------------------------------------------

/// What the attempt machine answers, on values alone.
pub type EffectMachine = spec_fn(AttemptView, AttemptEventView) -> Result<
    Applied<AttemptView>,
    Conflict,
>;

/// Whether an executable attempt machine can be asked about everything.
pub open spec fn effects_total<A: Fn(&ExternalAttempt, &ExternalAttemptEvent) -> AttemptReply>(
    apply: A,
) -> bool {
    forall|a: &ExternalAttempt, e: &ExternalAttemptEvent| call_requires(apply, (a, e))
}

/// Whether an executable attempt machine answers as `machine` says.
pub open spec fn effects_are<A: Fn(&ExternalAttempt, &ExternalAttemptEvent) -> AttemptReply>(
    apply: A,
    machine: EffectMachine,
) -> bool {
    forall|a: &ExternalAttempt, e: &ExternalAttemptEvent, r: AttemptReply| #[trigger]
        call_ensures(apply, (a, e), r) ==> reply_view(r) == machine(a@, e@)
}

} // verus!
