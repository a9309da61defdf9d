//! Typed refusals: a fence that did not hold.
use vstd::prelude::*;
use crate::domain::delivery::AttemptState;
use crate::domain::fence::{AttemptNo, BindingGeneration};
use crate::domain::id::{
    ActorId, ClaimId, ExternalAttemptId, ManagedConfigArtifactId, MutationCommandId, ObligationId,
    SessionId, SessionIncarnationId, TurnId, WorkerLoadoutId,
};
use crate::domain::obligation::ObligationState;

verus! {

/// The kind of a refusal, as it is recorded and branched on.
#[derive(Debug, Clone, Copy, PartialEq, Eq, Structural)]
pub enum ConflictKind {
    StaleBindingGeneration,
    UnknownBindingGeneration,
    NoActiveBinding,
    StaleObligationVersion,
    StaleSourceFence,
    StaleClaim,
    NoCurrentClaim,
    ExpiredClaim,
    ObligationAlreadyClaimed,
    UnknownDeliveryId,
    StaleSessionIncarnation,
    StaleDeliveryTarget,
    IllegalObligationTransition,
    ObligationClosed,
    DeliveryRevisionFrozen,
    DeliveryRevisionStillLive,
    DeliveryRevisionSuperseded,
    IllegalDeliveryTransition,
    UnknownAttempt,
    RetryBudgetExhausted,
    RetryAfterAmbiguityFence,
    FailureNotProven,
    ForemanTurnNotQuiescent,
    ConflictingInputAnswer,
    IllegalInputTransition,
    StaleCommandRevision,
    InvalidDisposition,
    ExecuteRequiresDurableIntent,
    IllegalAttemptTransition,
    AttemptAlreadyCompleted,
    AttemptAlreadyDispatched,
    AttemptPermitMismatch,
    EffectNotProvenAbsent,
    RetryRequiresIdempotencyContract,
    MutationResultUncertain,
    MutationCommandMismatch,
    IllegalMutationTransition,
    MutationNotCompleted,
    StaleLeaseToken,
    StaleProcessIncarnation,
    StaleDaemonEpoch,
    ResourceAlreadyLeased,
    NoCurrentLease,
    IllegalLeaseTransition,
}

/// A refusal, with what was presented where the store itself raises it.
#[derive(Debug, Clone, Copy, PartialEq, Eq)]
#[allow(inconsistent_fields)]
pub enum Conflict {
    /// The presented binding generation is not the wake's.
    StaleBindingGeneration { presented: BindingGeneration, active: BindingGeneration },
    /// No delivery carries the presented correlation identity.
    UnknownDeliveryId,
    /// The presented claim is not a claim on the obligation.
    StaleClaim { presented: ClaimId, obligation: ObligationId },
    /// The obligation cannot take the event from where it stands.
    IllegalObligationTransition { from: ObligationState, event: &'static str },
    /// The obligation is closed.
    ObligationClosed { state: ObligationState },
    /// The attempt cannot take the event from where it stands.
    IllegalDeliveryTransition { from: AttemptState, event: &'static str },
    /// The revision has no attempt of that number.
    UnknownAttempt { attempt: AttemptNo },
    /// No durable intent exists for the attempt.
    ExecuteRequiresDurableIntent { attempt: ExternalAttemptId },
    /// The command identity was minted for another operation.
    MutationCommandMismatch { actor: ActorId, command: MutationCommandId },
    /// The fate of the command is not known.
    MutationResultUncertain { actor: ActorId, command: MutationCommandId },
    /// The incarnation is bound to another loadout snapshot.
    SessionIncarnationAlreadyBound { incarnation: SessionIncarnationId },
    /// The edge would close a lineage cycle.
    SessionLineageCycle { parent: SessionId, child: SessionId },
    /// The ancestor walk reached its bound.
    SessionLineageTooDeep { depth: u32, bound: u32 },
    /// The incarnation has no loadout under the presented session.
    NoSessionLoadout { incarnation: SessionIncarnationId },
    /// The presented loadout is not the bound one.
    LoadoutIdentityMismatch { presented: WorkerLoadoutId, expected: WorkerLoadoutId },
    /// The presented digest is not the recorded one.
    LoadoutDigestMismatch { loadout: WorkerLoadoutId },
    /// The configuration recorded is not the one that was verified.
    ManagedConfigUnverifiable { loadout: WorkerLoadoutId, expected: ManagedConfigArtifactId },
    /// The presented turn is not one of the parent session's.
    ParentTurnNotOwnedByParentSession { session: SessionId, turn: TurnId },
    /// A fence the domain machine refused, by its kind.
    Refused { kind: ConflictKind },
}

} // verus!
