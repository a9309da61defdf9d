//! Durable exclusive ownership of a local resource: one row per resource, the most recent lease,
//! kept after release so that a superseded holder can be told why it lost.
use vstd::prelude::*;
use crate::digest::hex_text;
use crate::domain::fence::{rule_is, rule_total, DaemonEpoch, DurationMs, SafeToken, Timestamp};
use crate::domain::id::{ActorId, Id, ResourceLeaseId};
use crate::domain::lease::{
    leases_are, leases_total, HolderView, LeaseHolderProof, LeaseMachine, LeaseReply, LeaseRequest,
    LeaseState, LeaseStep, LeaseStepView, LeaseView, OwnershipView, ProcessIncarnation,
    ResourceLease, ResourceOwnership,
};
use crate::domain::obligation::{or_unchanged, settled};
use crate::store::codec::{
    hex32, id_column, parse_id, parse_token, parse_token_bytes, parse_u32, parse_u64, store_u64,
    stored_u64, token_column, u32_column, u64_column,
};
use crate::store::error::{chain, corrupt, corrupt_row, present, CorruptReason, StoreError};
use crate::store::labels::{
    decode_lease_state, encode_lease_state, lease_state_label, lease_state_named,
};

verus! {

/// The canonical resource a lease is about, as the store addresses it.
#[derive(Debug, PartialEq, Eq)]
pub struct ResourceRef {
    /// Resource-class namespace.
    pub namespace: SafeToken,
    /// Digest of the canonical name. The name itself is never stored.
    pub digest: [u8; 32],
}

impl ResourceRef {
    /// The reference to the resource an ownership record is about.
    pub fn of(ownership: &ResourceOwnership) -> (r: ResourceRef)
        ensures
            r.namespace == ownership.namespace,
            r.digest == ownership.digest,
    {
        ResourceRef { namespace: ownership.namespace.clone(), digest: ownership.digest }
    }

    /// The record of a resource nobody ever owned.
    pub open spec fn unowned_view(self) -> OwnershipView {
        OwnershipView { namespace: self.namespace@, digest: self.digest@, current: None }
    }

    /// The record of a resource nobody ever owned.
    pub fn unowned(&self) -> (r: ResourceOwnership)
        ensures
            r@ == self.unowned_view(),
    {
        ResourceOwnership {
            namespace: self.namespace.clone(),
            digest: self.digest,
            current: None,
        }
    }
}

/// An answer of the ownership machine, a refusal being a store failure.
pub open spec fn leased(machine: LeaseMachine, ownership: OwnershipView, step: LeaseStepView) -> Result<
    OwnershipView,
    StoreError,
> {
    match machine(ownership, step) {
        Ok(applied) => Ok(settled(applied, ownership)),
        Err(conflict) => Err(StoreError::Conflict(conflict)),
    }
}

/// An ownership record that was reached, on values alone, or the failure.
pub open spec fn ownership_view(r: Result<ResourceOwnership, StoreError>) -> Result<
    OwnershipView,
    StoreError,
> {
    match r {
        Ok(ownership) => Ok(ownership@),
        Err(e) => Err(e),
    }
}

fn ask_lease<A: Fn(&ResourceOwnership, &LeaseStep) -> LeaseReply>(
    apply: &A,
    ownership: ResourceOwnership,
    step: &LeaseStep,
) -> (r: Result<ResourceOwnership, StoreError>)
    requires
        leases_total(*apply),
    ensures
        forall|machine: LeaseMachine| #[trigger]
            leases_are(*apply, machine) ==> ownership_view(r) == leased(
                machine,
                ownership@,
                step@,
            ),
        r matches Ok(next) ==> next.current is Some,
{
    match apply(&ownership, step) {
        Ok(applied) => Ok(or_unchanged(applied, ownership)),
        Err(conflict) => Err(StoreError::Conflict(conflict)),
    }
}

/// The failure of a row no legal sequence of transitions reaches.
pub open spec fn unproven() -> StoreError {
    corrupt("resource_leases", "state", CorruptReason::UnprovableEvidence)
}

fn unproven_row() -> (r: StoreError)
    ensures
        r == unproven(),
{
    corrupt_row("resource_leases", "state", CorruptReason::UnprovableEvidence)
}

/// The lease an ownership record holds.
fn current_of(ownership: &ResourceOwnership) -> (r: &ResourceLease)
    requires
        ownership.current is Some,
    ensures
        *r == ownership.current->0,
{
    ownership.current.as_ref().unwrap()
}

// --- The row -----------------------------------------------------------------------------------------

/// One `resource_leases` row, as written: inserted, or overwriting the row of the same resource.
#[derive(Debug, PartialEq, Eq)]
pub struct LeaseWrite {
    pub resource_namespace: String,
    pub resource_digest: String,
    pub resource_lease_id: ResourceLeaseId,
    pub lease_token: Vec<u8>,
    pub holder_actor_id: ActorId,
    pub process_slot: i64,
    pub process_start_ref: String,
    pub daemon_epoch: i64,
    pub state: &'static str,
    pub acquired_at_ms: i64,
    pub renewed_at_ms: i64,
    pub expires_at_ms: i64,
    pub released_at_ms: Option<i64>,
}

/// One written `resource_leases` row on values alone.
#[verifier::ext_equal]
pub struct LeaseWriteView {
    pub resource_namespace: Seq<char>,
    pub resource_digest: Seq<char>,
    pub resource_lease_id: ResourceLeaseId,
    pub lease_token: Seq<u8>,
    pub holder_actor_id: ActorId,
    pub process_slot: i64,
    pub process_start_ref: Seq<char>,
    pub daemon_epoch: i64,
    pub state: &'static str,
    pub acquired_at_ms: i64,
    pub renewed_at_ms: i64,
    pub expires_at_ms: i64,
    pub released_at_ms: Option<i64>,
}

impl View for LeaseWrite {
    type V = LeaseWriteView;

    open spec fn view(&self) -> LeaseWriteView {
        LeaseWriteView {
            resource_namespace: self.resource_namespace@,
            resource_digest: self.resource_digest@,
            resource_lease_id: self.resource_lease_id,
            lease_token: self.lease_token@,
            holder_actor_id: self.holder_actor_id,
            process_slot: self.process_slot,
            process_start_ref: self.process_start_ref@,
            daemon_epoch: self.daemon_epoch,
            state: self.state,
            acquired_at_ms: self.acquired_at_ms,
            renewed_at_ms: self.renewed_at_ms,
            expires_at_ms: self.expires_at_ms,
            released_at_ms: self.released_at_ms,
        }
    }
}

/// The row of a lease on a resource.
pub open spec fn lease_row(resource: ResourceRef, lease: LeaseView) -> Result<LeaseWriteView, StoreError> {
    chain(
        stored_u64(lease.daemon_epoch, "resource_leases", "daemon_epoch"),
        |epoch: i64|
            Ok(
                LeaseWriteView {
                    resource_namespace: resource.namespace@,
                    resource_digest: hex_text(resource.digest@),
                    resource_lease_id: lease.id,
                    lease_token: lease.token,
                    holder_actor_id: lease.holder,
                    process_slot: lease.incarnation.0 as i64,
                    process_start_ref: lease.incarnation.1,
                    daemon_epoch: epoch,
                    state: lease_state_label(lease.state),
                    acquired_at_ms: lease.acquired_at,
                    renewed_at_ms: lease.renewed_at,
                    expires_at_ms: lease.expires_at,
                    released_at_ms: lease.released_at,
                },
            ),
    )
}

fn copy_bytes(bytes: &Vec<u8>) -> (r: Vec<u8>)
    ensures
        r@ == bytes@,
{
    let mut out: Vec<u8> = Vec::new();
    let mut i: usize = 0;
    while i < bytes.len()
        invariant
            i <= bytes@.len(),
            out@ == bytes@.take(i as int),
        decreases bytes@.len() - i,
    {
        out.push(bytes[i]);
        i = i + 1;
    }
    out
}

/// Builds the row of a lease on a resource.
pub fn write(resource: &ResourceRef, lease: &ResourceLease) -> (r: Result<LeaseWrite, StoreError>)
    ensures
        match r {
            Ok(row) => lease_row(*resource, lease@) == Ok::<LeaseWriteView, StoreError>(row@),
            Err(e) => lease_row(*resource, lease@) == Err::<LeaseWriteView, StoreError>(e),
        },
{
    let epoch: i64 = store_u64(lease.daemon_epoch, "resource_leases", "daemon_epoch")?;
    Ok(
        LeaseWrite {
            resource_namespace: resource.namespace.text.clone(),
            resource_digest: hex32(&resource.digest),
            resource_lease_id: lease.id,
            lease_token: copy_bytes(&lease.token),
            holder_actor_id: lease.holder,
            process_slot: lease.incarnation.slot as i64,
            process_start_ref: lease.incarnation.start.text.clone(),
            daemon_epoch: epoch,
            state: encode_lease_state(lease.state),
            acquired_at_ms: lease.acquired_at,
            renewed_at_ms: lease.renewed_at,
            expires_at_ms: lease.expires_at,
            released_at_ms: lease.released_at,
        },
    )
}

/// The row a step leaves, and the lease it is about.
pub open spec fn held(
    resource: ResourceRef,
    ownership: OwnershipView,
    step: LeaseStepView,
    machine: LeaseMachine,
) -> Result<(LeaseWriteView, LeaseView), StoreError> {
    chain(
        leased(machine, ownership, step),
        |next: OwnershipView|
            chain(
                lease_row(resource, next.current->0),
                |row: LeaseWriteView| Ok((row, next.current->0)),
            ),
    )
}

// --- Acquiring ---------------------------------------------------------------------------------------

/// Taking exclusive ownership of a resource.
#[derive(Debug, PartialEq, Eq)]
pub struct AcquireLeaseRequest {
    /// Which resource.
    pub resource: ResourceRef,
    /// Semantic holder asking for it.
    pub holder: ActorId,
    /// Process instance making the request.
    pub incarnation: ProcessIncarnation,
    /// Daemon epoch the request is made under.
    pub daemon_epoch: DaemonEpoch,
    /// How long the lease asserts liveness before it may be taken over.
    pub ttl: DurationMs,
}

/// A granted lease and the token its holder must keep.
#[derive(Debug, PartialEq, Eq)]
pub struct GrantedLease {
    /// Identity of the new lease.
    pub lease: ResourceLeaseId,
    /// The possession fence. Present it to renew or release.
    pub token: Vec<u8>,
    /// Instant the lease stops asserting liveness.
    pub expires_at: Timestamp,
}

/// Acquires a resource under a possession token drawn beforehand.
#[derive(Debug, PartialEq, Eq)]
pub struct AcquireLease {
    pub request: AcquireLeaseRequest,
    pub lease: ResourceLeaseId,
    pub token: Vec<u8>,
    pub now: Timestamp,
}

impl AcquireLease {
    /// The step asked of the ownership machine.
    pub open spec fn step(self) -> LeaseStepView {
        LeaseStepView::Acquire {
            holder: self.request.holder,
            incarnation: self.request.incarnation@,
            daemon_epoch: self.request.daemon_epoch,
            ttl: self.request.ttl,
            id: self.lease,
            token: self.token@,
            at: self.now,
        }
    }

    /// Acquires the resource.
    pub fn commit<A: Fn(&ResourceOwnership, &LeaseStep) -> LeaseReply>(
        &self,
        ownership: ResourceOwnership,
        apply: &A,
    ) -> (r: Result<(LeaseWrite, GrantedLease), StoreError>)
        requires
            leases_total(*apply),
        ensures
            forall|machine: LeaseMachine| #[trigger]
                leases_are(*apply, machine) ==> ({
                    let answer = held(self.request.resource, ownership@, self.step(), machine);
                    match r {
                        Ok((row, granted)) => answer is Ok && answer->Ok_0.0 == row@
                            && answer->Ok_0.1.expires_at == granted.expires_at,
                        Err(e) => answer == Err::<(LeaseWriteView, LeaseView), StoreError>(e),
                    }
                }),
            r matches Ok((_, granted)) ==> granted.lease == self.lease && granted.token@ == self.token@,
    {
        let step = LeaseStep::Acquire {
            request: LeaseRequest {
                holder: self.request.holder,
                incarnation: self.request.incarnation.clone(),
                daemon_epoch: self.request.daemon_epoch,
                ttl: self.request.ttl,
            },
            id: self.lease,
            token: copy_bytes(&self.token),
            at: self.now,
        };
        let next = ask_lease(apply, ownership, &step)?;
        let lease = current_of(&next);
        let row = write(&self.request.resource, lease)?;
        Ok(
            (
                row,
                GrantedLease {
                    lease: self.lease,
                    token: copy_bytes(&self.token),
                    expires_at: lease.expires_at,
                },
            ),
        )
    }
}

// --- Renewing and releasing --------------------------------------------------------------------------

/// Extending or giving up a lease.
#[derive(Debug, PartialEq, Eq)]
pub struct LeaseHolderRequest {
    /// Which resource.
    pub resource: ResourceRef,
    /// The three fences a holder must present. All three are checked.
    pub holder: LeaseHolderProof,
    /// New liveness window, for a renewal.
    pub ttl: DurationMs,
}

fn copy_holder(holder: &LeaseHolderProof) -> (r: LeaseHolderProof)
    ensures
        r@ == holder@,
{
    LeaseHolderProof {
        token: copy_bytes(&holder.token),
        incarnation: holder.incarnation.clone(),
        daemon_epoch: holder.daemon_epoch,
    }
}

/// Extends the current lease's liveness.
#[derive(Debug, PartialEq, Eq)]
pub struct RenewLease {
    pub request: LeaseHolderRequest,
    pub now: Timestamp,
}

impl RenewLease {
    /// The step asked of the ownership machine.
    pub open spec fn step(self) -> LeaseStepView {
        LeaseStepView::Renew { fences: self.request.holder@, ttl: self.request.ttl, at: self.now }
    }

    /// Renews the lease, and answers when it expires.
    pub fn commit<A: Fn(&ResourceOwnership, &LeaseStep) -> LeaseReply>(
        &self,
        ownership: ResourceOwnership,
        apply: &A,
    ) -> (r: Result<(LeaseWrite, Timestamp), StoreError>)
        requires
            leases_total(*apply),
        ensures
            forall|machine: LeaseMachine| #[trigger]
                leases_are(*apply, machine) ==> ({
                    let answer = held(self.request.resource, ownership@, self.step(), machine);
                    match r {
                        Ok((row, expires_at)) => answer is Ok && answer->Ok_0.0 == row@
                            && answer->Ok_0.1.expires_at == expires_at,
                        Err(e) => answer == Err::<(LeaseWriteView, LeaseView), StoreError>(e),
                    }
                }),
    {
        let step = LeaseStep::Renew {
            holder: copy_holder(&self.request.holder),
            ttl: self.request.ttl,
            at: self.now,
        };
        let next = ask_lease(apply, ownership, &step)?;
        let lease = current_of(&next);
        let row = write(&self.request.resource, lease)?;
        Ok((row, lease.expires_at))
    }
}

/// Gives the resource back.
#[derive(Debug, PartialEq, Eq)]
pub struct ReleaseLease {
    pub request: LeaseHolderRequest,
    pub now: Timestamp,
}

impl ReleaseLease {
    /// The step asked of the ownership machine.
    pub open spec fn step(self) -> LeaseStepView {
        LeaseStepView::Release { fences: self.request.holder@, at: self.now }
    }

    /// Releases the lease, and answers its state.
    pub fn commit<A: Fn(&ResourceOwnership, &LeaseStep) -> LeaseReply>(
        &self,
        ownership: ResourceOwnership,
        apply: &A,
    ) -> (r: Result<(LeaseWrite, LeaseState), StoreError>)
        requires
            leases_total(*apply),
        ensures
            forall|machine: LeaseMachine| #[trigger]
                leases_are(*apply, machine) ==> ({
                    let answer = held(self.request.resource, ownership@, self.step(), machine);
                    match r {
                        Ok((row, state)) => answer is Ok && answer->Ok_0.0 == row@
                            && answer->Ok_0.1.state == state,
                        Err(e) => answer == Err::<(LeaseWriteView, LeaseView), StoreError>(e),
                    }
                }),
    {
        let step = LeaseStep::Release { holder: copy_holder(&self.request.holder), at: self.now };
        let next = ask_lease(apply, ownership, &step)?;
        let lease = current_of(&next);
        let row = write(&self.request.resource, lease)?;
        Ok((row, lease.state))
    }
}

// --- Reading the row ---------------------------------------------------------------------------------

/// One `resource_leases` row, as read.
#[derive(Debug, PartialEq, Eq)]
pub struct LeaseRow {
    pub resource_lease_id: String,
    pub lease_token: Vec<u8>,
    pub holder_actor_id: String,
    pub process_slot: i64,
    pub process_start_ref: String,
    pub daemon_epoch: i64,
    pub state: String,
    pub acquired_at_ms: i64,
    pub renewed_at_ms: i64,
    pub expires_at_ms: i64,
    pub released_at_ms: Option<i64>,
}

/// The milliseconds from one instant to another, as far as they fit.
pub open spec fn elapsed_of(from: i64, to: i64) -> Result<u64, StoreError> {
    if to < from {
        Err(corrupt("resource_leases", "expires_at_ms", CorruptReason::IntegerOutOfRange))
    } else if to - from > i64::MAX {
        Ok(i64::MAX as u64)
    } else {
        Ok((to - from) as u64)
    }
}

/// The milliseconds from one instant to another; an instant before the first is a corrupt row.
pub fn elapsed(from: i64, to: i64) -> (r: Result<u64, StoreError>)
    ensures
        r == elapsed_of(from, to),
{
    if to < from {
        return Err(corrupt_row("resource_leases", "expires_at_ms", CorruptReason::IntegerOutOfRange));
    }
    let window: i128 = to as i128 - from as i128;
    if window > i64::MAX as i128 {
        Ok(i64::MAX as u64)
    } else {
        Ok(window as u64)
    }
}

/// The acquisition a row records.
pub open spec fn acquisition_of(row: LeaseRow, width: usize, rule: spec_fn(Seq<char>) -> bool) -> Result<
    LeaseStepView,
    StoreError,
> {
    let t = "resource_leases";
    chain(
        id_column(row.resource_lease_id@, t, "resource_lease_id"),
        |id: Id|
            if row.lease_token@.len() != width {
                Err(corrupt(t, "lease_token", CorruptReason::MalformedIdentity))
            } else {
                chain(
                    id_column(row.holder_actor_id@, t, "holder_actor_id"),
                    |holder: Id|
                        chain(
                            u32_column(row.process_slot, t, "process_slot"),
                            |slot: u32|
                                chain(
                                    token_column(row.process_start_ref@, t, "process_start_ref", rule),
                                    |start: Seq<char>|
                                        chain(
                                            u64_column(row.daemon_epoch, t, "daemon_epoch"),
                                            |daemon_epoch: u64|
                                                Ok(
                                                    LeaseStepView::Acquire {
                                                        holder,
                                                        incarnation: (slot, start),
                                                        daemon_epoch,
                                                        ttl: 0,
                                                        id,
                                                        token: row.lease_token@,
                                                        at: row.acquired_at_ms,
                                                    },
                                                ),
                                        ),
                                ),
                        ),
                )
            },
    )
}

/// The fences of the holder a row records, once its acquisition is granted.
pub open spec fn recorded_holder(token: Seq<u8>, granted: OwnershipView) -> HolderView {
    HolderView {
        token,
        incarnation: granted.current->0.incarnation,
        daemon_epoch: granted.current->0.daemon_epoch,
    }
}

/// A step a row records, taken again; a row that records one the machine refuses is corrupt.
pub open spec fn relived(machine: LeaseMachine, ownership: OwnershipView, step: LeaseStepView) -> Result<
    OwnershipView,
    StoreError,
> {
    match leased(machine, ownership, step) {
        Ok(next) => Ok(next),
        Err(_) => Err(unproven()),
    }
}

fn relive<A: Fn(&ResourceOwnership, &LeaseStep) -> LeaseReply>(
    apply: &A,
    ownership: ResourceOwnership,
    step: &LeaseStep,
) -> (r: Result<ResourceOwnership, StoreError>)
    requires
        leases_total(*apply),
    ensures
        forall|machine: LeaseMachine| #[trigger]
            leases_are(*apply, machine) ==> ownership_view(r) == relived(
                machine,
                ownership@,
                step@,
            ),
        r matches Ok(next) ==> next.current is Some,
{
    match ask_lease(apply, ownership, step) {
        Ok(next) => Ok(next),
        Err(_) => Err(unproven_row()),
    }
}

/// The ownership after the acquisition a row records.
pub open spec fn granted_by(
    resource: ResourceRef,
    row: LeaseRow,
    width: usize,
    machine: LeaseMachine,
    rule: spec_fn(Seq<char>) -> bool,
) -> Result<OwnershipView, StoreError> {
    chain(
        acquisition_of(row, width, rule),
        |step: LeaseStepView| relived(machine, resource.unowned_view(), step),
    )
}

/// The ownership after the renewal a row records: its window runs from the renewal to the expiry.
pub open spec fn renewed_by(granted: OwnershipView, row: LeaseRow, machine: LeaseMachine) -> Result<
    OwnershipView,
    StoreError,
> {
    chain(
        elapsed_of(row.renewed_at_ms, row.expires_at_ms),
        |ttl: u64|
            relived(
                machine,
                granted,
                LeaseStepView::Renew {
                    fences: recorded_holder(row.lease_token@, granted),
                    ttl,
                    at: row.renewed_at_ms,
                },
            ),
    )
}

/// The ownership after the release a row records, where it records one.
pub open spec fn released_by(
    renewed: OwnershipView,
    fences: HolderView,
    row: LeaseRow,
    state: LeaseState,
    machine: LeaseMachine,
) -> Result<OwnershipView, StoreError> {
    match state {
        LeaseState::Held => Ok(renewed),
        LeaseState::Released => chain(
            present(
                row.released_at_ms,
                corrupt("resource_leases", "released_at_ms", CorruptReason::MalformedMetadata),
            ),
            |at: i64| relived(machine, renewed, LeaseStepView::Release { fences, at }),
        ),
    }
}

/// What a row says: acquisition, renewal and release folded through the machine, which must end in
/// the state and at the expiry the row stores.
pub open spec fn ownership_of(
    resource: ResourceRef,
    row: LeaseRow,
    width: usize,
    machine: LeaseMachine,
    rule: spec_fn(Seq<char>) -> bool,
) -> Result<OwnershipView, StoreError> {
    chain(
        granted_by(resource, row, width, machine, rule),
        |granted: OwnershipView|
            chain(
                renewed_by(granted, row, machine),
                |renewed: OwnershipView|
                    match lease_state_named(row.state@) {
                        None => Err(
                            corrupt("resource_leases", "state", CorruptReason::UnknownLabel),
                        ),
                        Some(stored) => chain(
                            released_by(
                                renewed,
                                recorded_holder(row.lease_token@, granted),
                                row,
                                stored,
                                machine,
                            ),
                            |folded: OwnershipView|
                                if folded.current->0.state != stored
                                    || folded.current->0.expires_at != row.expires_at_ms {
                                    Err(unproven())
                                } else {
                                    Ok(folded)
                                },
                        ),
                    },
            ),
    )
}

fn read_acquisition<S: Fn(&str) -> bool>(row: &LeaseRow, width: usize, safe: &S) -> (r: Result<
    LeaseStep,
    StoreError,
>)
    requires
        rule_total(*safe),
    ensures
        forall|rule: spec_fn(Seq<char>) -> bool| #[trigger]
            rule_is(*safe, rule) ==> (match r {
                Ok(step) => acquisition_of(*row, width, rule) == Ok::<LeaseStepView, StoreError>(
                    step@,
                ),
                Err(e) => acquisition_of(*row, width, rule) == Err::<LeaseStepView, StoreError>(e),
            }),
{
    let t = "resource_leases";
    let id = parse_id(row.resource_lease_id.as_str(), t, "resource_lease_id")?;
    let token = parse_token_bytes(&row.lease_token, width, t, "lease_token")?;
    let holder = parse_id(row.holder_actor_id.as_str(), t, "holder_actor_id")?;
    let slot: u32 = parse_u32(row.process_slot, t, "process_slot")?;
    let start = parse_token(row.process_start_ref.as_str(), t, "process_start_ref", safe)?;
    let daemon_epoch: u64 = parse_u64(row.daemon_epoch, t, "daemon_epoch")?;
    Ok(
        LeaseStep::Acquire {
            request: LeaseRequest {
                holder,
                incarnation: ProcessIncarnation { slot, start },
                daemon_epoch,
                ttl: 0,
            },
            id,
            token,
            at: row.acquired_at_ms,
        },
    )
}

fn read_granted<A: Fn(&ResourceOwnership, &LeaseStep) -> LeaseReply, S: Fn(&str) -> bool>(
    resource: &ResourceRef,
    row: &LeaseRow,
    width: usize,
    apply: &A,
    safe: &S,
) -> (r: Result<ResourceOwnership, StoreError>)
    requires
        leases_total(*apply),
        rule_total(*safe),
    ensures
        forall|machine: LeaseMachine, rule: spec_fn(Seq<char>) -> bool|
            #![trigger leases_are(*apply, machine), rule_is(*safe, rule)]
            leases_are(*apply, machine) && rule_is(*safe, rule) ==> ownership_view(r) == granted_by(
                *resource,
                *row,
                width,
                machine,
                rule,
            ),
        r matches Ok(granted) ==> granted.current is Some,
{
    let step = read_acquisition(row, width, safe)?;
    relive(apply, resource.unowned(), &step)
}

fn read_released<A: Fn(&ResourceOwnership, &LeaseStep) -> LeaseReply>(
    renewed: ResourceOwnership,
    holder: LeaseHolderProof,
    row: &LeaseRow,
    state: LeaseState,
    apply: &A,
) -> (r: Result<ResourceOwnership, StoreError>)
    requires
        leases_total(*apply),
        renewed.current is Some,
    ensures
        forall|machine: LeaseMachine| #[trigger]
            leases_are(*apply, machine) ==> ownership_view(r) == released_by(
                renewed@,
                holder@,
                *row,
                state,
                machine,
            ),
        r matches Ok(folded) ==> folded.current is Some,
{
    match state {
        LeaseState::Held => Ok(renewed),
        LeaseState::Released => {
            let at: i64 = match row.released_at_ms {
                Some(at) => at,
                None => {
                    return Err(
                        corrupt_row(
                            "resource_leases",
                            "released_at_ms",
                            CorruptReason::MalformedMetadata,
                        ),
                    );
                },
            };
            let release = LeaseStep::Release { holder, at };
            relive(apply, renewed, &release)
        },
    }
}

/// Reads the ownership record of a resource: unowned when there is no row, and otherwise rebuilt by
/// replaying the transitions the row records. `width` is the width of a possession token.
pub fn read<A: Fn(&ResourceOwnership, &LeaseStep) -> LeaseReply, S: Fn(&str) -> bool>(
    resource: &ResourceRef,
    row: &Option<LeaseRow>,
    width: usize,
    apply: &A,
    safe: &S,
) -> (r: Result<ResourceOwnership, StoreError>)
    requires
        leases_total(*apply),
        rule_total(*safe),
    ensures
        forall|machine: LeaseMachine, rule: spec_fn(Seq<char>) -> bool|
            #![trigger leases_are(*apply, machine), rule_is(*safe, rule)]
            leases_are(*apply, machine) && rule_is(*safe, rule) ==> ownership_view(r) == (match *row {
                None => Ok::<OwnershipView, StoreError>(resource.unowned_view()),
                Some(found) => ownership_of(*resource, found, width, machine, rule),
            }),
{
    let row = match row {
        None => return Ok(resource.unowned()),
        Some(row) => row,
    };
    let granted = read_granted(resource, row, width, apply, safe)?;
    let first = current_of(&granted);
    let holder = LeaseHolderProof {
        token: copy_bytes(&row.lease_token),
        incarnation: first.incarnation.clone(),
        daemon_epoch: first.daemon_epoch,
    };
    assert(holder@ == recorded_holder(row.lease_token@, granted@));
    let ttl: u64 = elapsed(row.renewed_at_ms, row.expires_at_ms)?;
    let renewal = LeaseStep::Renew { holder: copy_holder(&holder), ttl, at: row.renewed_at_ms };
    let renewed = relive(apply, granted, &renewal)?;
    let stored = decode_lease_state(row.state.as_str(), "resource_leases")?;
    let folded = read_released(renewed, holder, row, stored, apply)?;
    let last = current_of(&folded);
    if last.state != stored || last.expires_at != row.expires_at_ms {
        return Err(unproven_row());
    }
    Ok(folded)
}

// --- Laws ------------------------------------------------------------------------------------------------

/// A step the machine refuses writes nothing: the refusal is the answer.
pub proof fn a_refused_holder_changes_nothing(
    resource: ResourceRef,
    ownership: OwnershipView,
    step: LeaseStepView,
    machine: LeaseMachine,
)
    requires
        machine(ownership, step) is Err,
    ensures
        held(resource, ownership, step, machine) == Err::<(LeaseWriteView, LeaseView), StoreError>(
            StoreError::Conflict(machine(ownership, step)->Err_0),
        ),
{
}

/// What is read from a row agrees with the row: its state and its expiry are the stored ones.
pub proof fn a_read_lease_agrees_with_its_row(
    resource: ResourceRef,
    row: LeaseRow,
    width: usize,
    machine: LeaseMachine,
    rule: spec_fn(Seq<char>) -> bool,
)
    ensures
        ownership_of(resource, row, width, machine, rule) matches Ok(ownership) ==> {
            &&& lease_state_named(row.state@) == Some(ownership.current->0.state)
            &&& ownership.current->0.expires_at == row.expires_at_ms
        },
{
}

} // verus!
