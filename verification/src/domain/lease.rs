//! Exclusive ownership of a local resource.
use vstd::prelude::*;
use crate::domain::conflict::Conflict;
use crate::domain::fence::{DaemonEpoch, DurationMs, SafeToken, Timestamp};
use crate::domain::id::{ActorId, ResourceLeaseId};
use crate::domain::obligation::{reply_view, Applied};

verus! {

/// State of a lease.
#[derive(Debug, Clone, Copy, PartialEq, Eq, Structural)]
pub enum LeaseState {
    Held,
    Released,
}

/// One process instance: its number and when it started.
#[derive(Debug, PartialEq, Eq)]
pub struct ProcessIncarnation {
    pub slot: u32,
    pub start: SafeToken,
}

impl Clone for ProcessIncarnation {
    fn clone(&self) -> (r: Self)
        ensures
            r == *self,
    {
        ProcessIncarnation { slot: self.slot, start: self.start.clone() }
    }
}

/// How a recorded process instance differs from the one running now.
#[derive(Debug, Clone, Copy, PartialEq, Eq, Structural)]
pub enum IncarnationMismatch {
    /// The number is the same and the start is not: the number was recycled.
    SlotReused,
    /// The number is another one.
    DifferentSlot,
}

impl ProcessIncarnation {
    /// An instance from its number and its start.
    pub fn new(slot: u32, start: SafeToken) -> (r: ProcessIncarnation)
        ensures
            r@ == (slot, start@),
    {
        ProcessIncarnation { slot, start }
    }

    /// Whether two instances are one: the number and the start are the same.
    pub fn same_as(&self, other: &ProcessIncarnation) -> (r: bool)
        ensures
            r == (self@ == other@),
    {
        self.slot == other.slot && self.start.same_as(&other.start)
    }

    /// How an instance differs from another; nothing where they are one.
    pub fn classify(&self, live: &ProcessIncarnation) -> (r: Option<IncarnationMismatch>)
        ensures
            r == mismatch_of(self@, live@),
    {
        if self.slot != live.slot {
            Some(IncarnationMismatch::DifferentSlot)
        } else if self.start.same_as(&live.start) {
            None
        } else {
            Some(IncarnationMismatch::SlotReused)
        }
    }
}

/// How a recorded instance differs from another; nothing where they are one.
pub open spec fn mismatch_of(recorded: IncarnationView, live: IncarnationView) -> Option<
    IncarnationMismatch,
> {
    if recorded.0 != live.0 {
        Some(IncarnationMismatch::DifferentSlot)
    } else if recorded.1 == live.1 {
        None
    } else {
        Some(IncarnationMismatch::SlotReused)
    }
}

/// The most recent lease on a resource.
#[derive(Debug, PartialEq, Eq)]
pub struct ResourceLease {
    pub id: ResourceLeaseId,
    /// The possession fence.
    pub token: Vec<u8>,
    pub holder: ActorId,
    pub incarnation: ProcessIncarnation,
    pub daemon_epoch: DaemonEpoch,
    pub state: LeaseState,
    pub acquired_at: Timestamp,
    pub renewed_at: Timestamp,
    pub expires_at: Timestamp,
    pub released_at: Option<Timestamp>,
}

/// Who owns a resource, if anybody ever did.
#[derive(Debug, PartialEq, Eq)]
pub struct ResourceOwnership {
    /// Resource-class namespace.
    pub namespace: SafeToken,
    /// Digest of the canonical name.
    pub digest: [u8; 32],
    pub current: Option<ResourceLease>,
}

/// A request to take ownership.
#[derive(Debug, PartialEq, Eq)]
pub struct LeaseRequest {
    pub holder: ActorId,
    pub incarnation: ProcessIncarnation,
    pub daemon_epoch: DaemonEpoch,
    pub ttl: DurationMs,
}

/// The three fences a holder must present. All three are checked.
#[derive(Debug, PartialEq, Eq)]
pub struct LeaseHolderProof {
    /// The possession fence.
    pub token: Vec<u8>,
    pub incarnation: ProcessIncarnation,
    pub daemon_epoch: DaemonEpoch,
}

/// One step asked of the ownership machine.
#[derive(Debug, PartialEq, Eq)]
#[allow(inconsistent_fields)]
pub enum LeaseStep {
    /// Take ownership under a fresh possession token.
    Acquire { request: LeaseRequest, id: ResourceLeaseId, token: Vec<u8>, at: Timestamp },
    /// Extend liveness, as the current holder.
    Renew { holder: LeaseHolderProof, ttl: DurationMs, at: Timestamp },
    /// Give the resource back, as the current holder.
    Release { holder: LeaseHolderProof, at: Timestamp },
}

/// What the ownership machine answers to one step.
pub type LeaseReply = Result<Applied<ResourceOwnership>, Conflict>;

// --- On values alone ---------------------------------------------------------------------------

/// A process instance on values alone.
pub type IncarnationView = (u32, Seq<char>);

impl View for ProcessIncarnation {
    type V = IncarnationView;

    open spec fn view(&self) -> IncarnationView {
        (self.slot, self.start@)
    }
}

/// A lease on values alone.
#[verifier::ext_equal]
pub struct LeaseView {
    pub id: ResourceLeaseId,
    pub token: Seq<u8>,
    pub holder: ActorId,
    pub incarnation: IncarnationView,
    pub daemon_epoch: DaemonEpoch,
    pub state: LeaseState,
    pub acquired_at: Timestamp,
    pub renewed_at: Timestamp,
    pub expires_at: Timestamp,
    pub released_at: Option<Timestamp>,
}

impl View for ResourceLease {
    type V = LeaseView;

    open spec fn view(&self) -> LeaseView {
        LeaseView {
            id: self.id,
            token: self.token@,
            holder: self.holder,
            incarnation: self.incarnation@,
            daemon_epoch: self.daemon_epoch,
            state: self.state,
            acquired_at: self.acquired_at,
            renewed_at: self.renewed_at,
            expires_at: self.expires_at,
            released_at: self.released_at,
        }
    }
}

/// An ownership record on values alone.
#[verifier::ext_equal]
pub struct OwnershipView {
    pub namespace: Seq<char>,
    pub digest: Seq<u8>,
    pub current: Option<LeaseView>,
}

impl View for ResourceOwnership {
    type V = OwnershipView;

    open spec fn view(&self) -> OwnershipView {
        OwnershipView {
            namespace: self.namespace@,
            digest: self.digest@,
            current: match self.current {
                Some(lease) => Some(lease@),
                None => None,
            },
        }
    }
}

/// A holder's fences on values alone.
#[verifier::ext_equal]
pub struct HolderView {
    pub token: Seq<u8>,
    pub incarnation: IncarnationView,
    pub daemon_epoch: DaemonEpoch,
}

impl View for LeaseHolderProof {
    type V = HolderView;

    open spec fn view(&self) -> HolderView {
        HolderView {
            token: self.token@,
            incarnation: self.incarnation@,
            daemon_epoch: self.daemon_epoch,
        }
    }
}

/// One step on values alone.
#[allow(inconsistent_fields)]
pub enum LeaseStepView {
    Acquire {
        holder: ActorId,
        incarnation: IncarnationView,
        daemon_epoch: DaemonEpoch,
        ttl: DurationMs,
        id: ResourceLeaseId,
        token: Seq<u8>,
        at: Timestamp,
    },
    Renew { fences: HolderView, ttl: DurationMs, at: Timestamp },
    Release { fences: HolderView, at: Timestamp },
}

impl View for LeaseStep {
    type V = LeaseStepView;

    open spec fn view(&self) -> LeaseStepView {
        match *self {
            LeaseStep::Acquire { request, id, token, at } => LeaseStepView::Acquire {
                holder: request.holder,
                incarnation: request.incarnation@,
                daemon_epoch: request.daemon_epoch,
                ttl: request.ttl,
                id,
                token: token@,
                at,
            },
            LeaseStep::Renew { holder, ttl, at } => LeaseStepView::Renew { fences: holder@, ttl, at },
            LeaseStep::Release { holder, at } => LeaseStepView::Release { fences: holder@, at },
        }
    }
}

// --- The domain's rule, as a value -------------------------------------------------------------

/// What the ownership machine answers, on values alone.
pub type LeaseMachine = spec_fn(OwnershipView, LeaseStepView) -> Result<
    Applied<OwnershipView>,
    Conflict,
>;

/// Whether an executable ownership machine can be asked about everything, and leaves a current lease
/// behind whatever it lets through.
pub open spec fn leases_total<A: Fn(&ResourceOwnership, &LeaseStep) -> LeaseReply>(apply: A) -> bool {
    &&& forall|o: &ResourceOwnership, s: &LeaseStep| call_requires(apply, (o, s))
    &&& forall|o: &ResourceOwnership, s: &LeaseStep, r: LeaseReply| #[trigger]
        call_ensures(apply, (o, s), r) ==> (match r {
            Ok(Applied::Advanced(next)) => next.current is Some,
            Ok(Applied::Duplicate) => o.current is Some,
            Err(_) => true,
        })
}

/// Whether an executable ownership machine answers as `machine` says.
pub open spec fn leases_are<A: Fn(&ResourceOwnership, &LeaseStep) -> LeaseReply>(
    apply: A,
    machine: LeaseMachine,
) -> bool {
    forall|o: &ResourceOwnership, s: &LeaseStep, r: LeaseReply| #[trigger]
        call_ensures(apply, (o, s), r) ==> reply_view(r) == machine(o@, s@)
}

} // verus!
