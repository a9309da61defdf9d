//! What journalled commands and leases promise.
//!
//! Each law speaks of one operation by what its caller presented and what comes out: what is asked of the
//! domain, what the row is written with, and what reading the row gives back.
use vstd::prelude::*;
use crate::digest::hex_text;
use crate::domain::conflict::Conflict;
use crate::domain::fence::Timestamp;
use crate::domain::id::{canonical_text, canonical_text_round_trips, Id};
use crate::domain::lease::{
    mismatch_of, HolderView, IncarnationMismatch, IncarnationView, LeaseMachine, LeaseState,
    LeaseStepView, LeaseView, OwnershipView,
};
use crate::domain::mutation::{
    AdmissionRule, DispositionView, JournalMachine, MutationCommandStatus, MutationEventView,
    MutationResultView, MutationView,
};
use crate::domain::obligation::Applied;
use crate::store::codec::{
    hex32_round_trips, hex_byte, mutation_result_of, mutation_result_round_trips, text_or_empty,
    text_view,
};
use crate::store::error::StoreError;
use crate::store::labels::{
    lease_state_named, lease_state_round_trips, mutation_status_named, mutation_status_round_trips,
};
use crate::store::ops::lease::{
    acquisition_of, elapsed_of, held, lease_row, ownership_of, AcquireLease, LeaseRow,
    LeaseWriteView, ReleaseLease, RenewLease, ResourceRef,
};
use crate::store::ops::mutation::{
    command_of, no_receipt, receipt_of, uncertain_row, AckMutationReceipt, AdmissionView, BeginMutation,
    CommandRow, CompleteMutation, ResultView, StatusRow,
};

verus! {

// --- Leases ----------------------------------------------------------------------------------------------

/// Whether a row holds a lease on a resource.
pub open spec fn holds_lease(row: LeaseWriteView, resource: ResourceRef, lease: LeaseView) -> bool {
    &&& row.resource_namespace == resource.namespace@
    &&& row.resource_digest == hex_text(resource.digest@)
    &&& row.resource_lease_id == lease.id
    &&& row.lease_token == lease.token
    &&& row.holder_actor_id == lease.holder
    &&& row.process_slot == lease.incarnation.0
    &&& row.process_start_ref == lease.incarnation.1
    &&& row.daemon_epoch == lease.daemon_epoch
    &&& lease_state_named(row.state@) == Some(lease.state)
    &&& row.acquired_at_ms == lease.acquired_at
    &&& row.renewed_at_ms == lease.renewed_at
    &&& row.expires_at_ms == lease.expires_at
    &&& row.released_at_ms == lease.released_at
}

/// A lease is written as it stands, and refused only where its epoch does not fit.
pub proof fn a_lease_is_written_as_it_stands(resource: ResourceRef, lease: LeaseView)
    ensures
        lease_row(resource, lease) is Ok <==> lease.daemon_epoch <= i64::MAX,
        lease_row(resource, lease) matches Ok(row) ==> holds_lease(row, resource, lease),
{
    lease_state_round_trips(lease.state);
}

/// Whether a holder step is answered as the machine answers: its refusal under its own conflict, and
/// otherwise the lease it left, written for the resource that was named.
pub open spec fn answers_as(
    answer: Result<(LeaseWriteView, LeaseView), StoreError>,
    reply: Result<Applied<OwnershipView>, Conflict>,
    ownership: OwnershipView,
    resource: ResourceRef,
) -> bool {
    match reply {
        Err(conflict) => answer == Err::<(LeaseWriteView, LeaseView), StoreError>(
            StoreError::Conflict(conflict),
        ),
        Ok(Applied::Advanced(next)) => answer matches Ok((row, lease)) ==> lease == next.current->0
            && holds_lease(row, resource, lease),
        Ok(Applied::Duplicate) => answer matches Ok((row, lease)) ==> lease == ownership.current->0
            && holds_lease(row, resource, lease),
    }
}

/// Acquiring, renewing and releasing put the caller's own values to the machine: who, in which process
/// and epoch, with which token, for how long and when; and its answer is what comes out.
pub proof fn a_lease_is_the_machines_to_grant(
    acquire: AcquireLease,
    renew: RenewLease,
    release: ReleaseLease,
    ownership: OwnershipView,
    machine: LeaseMachine,
)
    ensures
        answers_as(
            held(acquire.request.resource, ownership, acquire.step(), machine),
            machine(
                ownership,
                LeaseStepView::Acquire {
                    holder: acquire.request.holder,
                    incarnation: (
                        acquire.request.incarnation.slot,
                        acquire.request.incarnation.start@,
                    ),
                    daemon_epoch: acquire.request.daemon_epoch,
                    ttl: acquire.request.ttl,
                    id: acquire.lease,
                    token: acquire.token@,
                    at: acquire.now,
                },
            ),
            ownership,
            acquire.request.resource,
        ),
        answers_as(
            held(renew.request.resource, ownership, renew.step(), machine),
            machine(
                ownership,
                LeaseStepView::Renew {
                    fences: HolderView {
                        token: renew.request.holder.token@,
                        incarnation: (
                            renew.request.holder.incarnation.slot,
                            renew.request.holder.incarnation.start@,
                        ),
                        daemon_epoch: renew.request.holder.daemon_epoch,
                    },
                    ttl: renew.request.ttl,
                    at: renew.now,
                },
            ),
            ownership,
            renew.request.resource,
        ),
        answers_as(
            held(release.request.resource, ownership, release.step(), machine),
            machine(
                ownership,
                LeaseStepView::Release {
                    fences: HolderView {
                        token: release.request.holder.token@,
                        incarnation: (
                            release.request.holder.incarnation.slot,
                            release.request.holder.incarnation.start@,
                        ),
                        daemon_epoch: release.request.holder.daemon_epoch,
                    },
                    at: release.now,
                },
            ),
            ownership,
            release.request.resource,
        ),
{
    lease_state_round_trips(LeaseState::Held);
    lease_state_round_trips(LeaseState::Released);
}

/// Whether a holder's fences are not those of a lease: another token, another process or another epoch.
pub open spec fn is_a_stranger(fences: HolderView, lease: LeaseView) -> bool {
    fences.token != lease.token || fences.incarnation != lease.incarnation || fences.daemon_epoch
        != lease.daemon_epoch
}

/// A machine that heeds a holder's fences: a stranger neither renews nor releases a lease.
pub open spec fn heeds_its_holder(machine: LeaseMachine) -> bool {
    &&& forall|o: OwnershipView, fences: HolderView, ttl: u64, at: Timestamp|
        o.current is Some && is_a_stranger(fences, o.current->0) ==> (#[trigger] machine(
            o,
            LeaseStepView::Renew { fences, ttl, at },
        )) is Err
    &&& forall|o: OwnershipView, fences: HolderView, at: Timestamp|
        o.current is Some && is_a_stranger(fences, o.current->0) ==> (#[trigger] machine(
            o,
            LeaseStepView::Release { fences, at },
        )) is Err
}

/// A stranger neither renews nor releases a lease: every fence that is presented reaches the machine.
pub proof fn a_stranger_holds_nothing(
    renew: RenewLease,
    release: ReleaseLease,
    ownership: OwnershipView,
    lease: LeaseView,
    machine: LeaseMachine,
)
    requires
        heeds_its_holder(machine),
        ownership.current == Some(lease),
    ensures
        renew.request.holder.token@ != lease.token || renew.request.holder.incarnation@
            != lease.incarnation || renew.request.holder.daemon_epoch != lease.daemon_epoch ==> held(
            renew.request.resource,
            ownership,
            renew.step(),
            machine,
        ) is Err,
        release.request.holder.token@ != lease.token || release.request.holder.incarnation@
            != lease.incarnation || release.request.holder.daemon_epoch != lease.daemon_epoch ==> held(
            release.request.resource,
            ownership,
            release.step(),
            machine,
        ) is Err,
{
}

/// Whether a read row holds what a lease write wrote.
pub open spec fn lease_stored_as(row: LeaseRow, written: LeaseWriteView) -> bool {
    &&& row.resource_lease_id@ == canonical_text(written.resource_lease_id.value)
    &&& row.lease_token@ == written.lease_token
    &&& row.holder_actor_id@ == canonical_text(written.holder_actor_id.value)
    &&& row.process_slot == written.process_slot
    &&& row.process_start_ref@ == written.process_start_ref
    &&& row.daemon_epoch == written.daemon_epoch
    &&& row.state@ == written.state@
    &&& row.acquired_at_ms == written.acquired_at_ms
    &&& row.renewed_at_ms == written.renewed_at_ms
    &&& row.expires_at_ms == written.expires_at_ms
    &&& row.released_at_ms == written.released_at_ms
}

/// A lease that was written reads back: the machine is told again of the acquisition by that holder, of
/// the last renewal for what is left, and of the release where there was one, and what it left last is
/// what is read.
pub proof fn a_written_lease_reads_back(
    resource: ResourceRef,
    lease: LeaseView,
    row: LeaseRow,
    width: usize,
    granted: OwnershipView,
    renewed: OwnershipView,
    released: OwnershipView,
    machine: LeaseMachine,
    rule: spec_fn(Seq<char>) -> bool,
)
    requires
        lease_row(resource, lease) matches Ok(written) && lease_stored_as(row, written),
        lease.token.len() == width,
        rule(lease.incarnation.1),
        lease.renewed_at <= lease.expires_at,
        lease.expires_at - lease.renewed_at <= i64::MAX,
        machine(
            OwnershipView { namespace: resource.namespace@, digest: resource.digest@, current: None },
            LeaseStepView::Acquire {
                holder: lease.holder,
                incarnation: lease.incarnation,
                daemon_epoch: lease.daemon_epoch,
                ttl: 0,
                id: lease.id,
                token: lease.token,
                at: lease.acquired_at,
            },
        ) == Ok::<Applied<OwnershipView>, Conflict>(Applied::Advanced(granted)),
        granted.current is Some,
        granted.current->0.incarnation == lease.incarnation,
        granted.current->0.daemon_epoch == lease.daemon_epoch,
        machine(
            granted,
            LeaseStepView::Renew {
                fences: HolderView {
                    token: lease.token,
                    incarnation: lease.incarnation,
                    daemon_epoch: lease.daemon_epoch,
                },
                ttl: (lease.expires_at - lease.renewed_at) as u64,
                at: lease.renewed_at,
            },
        ) == Ok::<Applied<OwnershipView>, Conflict>(Applied::Advanced(renewed)),
        lease.state is Held ==> renewed.current == Some(lease),
        lease.state is Released ==> lease.released_at is Some && machine(
            renewed,
            LeaseStepView::Release {
                fences: HolderView {
                    token: lease.token,
                    incarnation: lease.incarnation,
                    daemon_epoch: lease.daemon_epoch,
                },
                at: lease.released_at->0,
            },
        ) == Ok::<Applied<OwnershipView>, Conflict>(Applied::Advanced(released)) && released.current
            == Some(lease),
    ensures
        ownership_of(resource, row, width, machine, rule) == Ok::<OwnershipView, StoreError>(
            if lease.state is Held {
                renewed
            } else {
                released
            },
        ),
{
    lease_state_round_trips(lease.state);
    canonical_text_round_trips(lease.id);
    canonical_text_round_trips(lease.holder);
}

/// A row is read as the acquisition it records, by the holder, the process and the epoch in its columns;
/// a token of another width is never one.
pub proof fn an_acquisition_is_its_rows_own(
    row: LeaseRow,
    width: usize,
    holder: Id,
    id: Id,
    rule: spec_fn(Seq<char>) -> bool,
)
    requires
        row.resource_lease_id@ == canonical_text(id.value),
        row.holder_actor_id@ == canonical_text(holder.value),
    ensures
        acquisition_of(row, width, rule) matches Ok(step) ==> {
            &&& row.lease_token@.len() == width
            &&& rule(row.process_start_ref@)
            &&& 0 <= row.process_slot <= u32::MAX
            &&& 0 <= row.daemon_epoch
            &&& step == LeaseStepView::Acquire {
                holder,
                incarnation: (row.process_slot as u32, row.process_start_ref@),
                daemon_epoch: row.daemon_epoch as u64,
                ttl: 0,
                id,
                token: row.lease_token@,
                at: row.acquired_at_ms,
            }
        },
        row.lease_token@.len() != width ==> acquisition_of(row, width, rule) is Err,
{
    canonical_text_round_trips(id);
    canonical_text_round_trips(holder);
}

/// The time between two instants is the time that leads from one to the other, no more than a counter
/// holds; there is none where the second comes first.
pub proof fn the_time_between_leads_there(from: i64, to: i64)
    ensures
        elapsed_of(from, to) is Ok <==> from <= to,
        elapsed_of(from, to) matches Ok(elapsed) ==> from + elapsed <= to && elapsed <= i64::MAX && (
        elapsed < i64::MAX ==> from + elapsed == to),
{
}

/// Two incarnations agree exactly where slot and start do; a reused slot has another start, and another
/// slot is another slot whatever its start.
pub proof fn an_incarnation_is_its_slot_and_start(recorded: IncarnationView, live: IncarnationView)
    ensures
        mismatch_of(recorded, live) is None <==> recorded == live,
        mismatch_of(recorded, live) == Some(IncarnationMismatch::SlotReused) <==> recorded.0 == live.0
            && recorded.1 != live.1,
        mismatch_of(recorded, live) == Some(IncarnationMismatch::DifferentSlot) <==> recorded.0 != live.0,
{
}

// --- Commands --------------------------------------------------------------------------------------------

/// A command is admitted as the rule says of the very actor, command and fingerprint that were
/// presented: a recorded result is replayed as it is with nothing written, a new operation is received,
/// and a refusal comes out under its own conflict.
pub proof fn a_command_is_the_rules_to_admit(
    op: BeginMutation,
    existing: Option<MutationView>,
    rule: AdmissionRule,
)
    ensures
        match rule(existing, op.request.actor, op.request.command, op.request.fingerprint@) {
            Err(conflict) => op.admitted(existing, rule) == Err::<Option<AdmissionView>, StoreError>(
                StoreError::Conflict(conflict),
            ),
            Ok(DispositionView::RecordedResult(result)) => op.admitted(existing, rule) == Ok::<
                Option<AdmissionView>,
                StoreError,
            >(Some(AdmissionView::Replayed(result))),
            Ok(DispositionView::NewOperation) => {
                &&& op.admitted(existing, rule) is Ok <==> op.request.daemon_epoch <= i64::MAX
                &&& op.admitted(existing, rule) matches Ok(admitted) ==> {
                    &&& admitted matches Some(AdmissionView::Dispatch(row))
                    &&& row.actor_id == op.request.actor
                    &&& row.command_id == op.request.command
                    &&& row.fingerprint == hex_text(op.request.fingerprint@)
                    &&& row.command_kind == op.request.kind@
                    &&& mutation_status_named(row.status@) == Some(MutationCommandStatus::Received)
                    &&& row.daemon_epoch == op.request.daemon_epoch
                    &&& row.created_at_ms == op.now
                }
            },
        },
{
    mutation_status_round_trips(MutationCommandStatus::Received);
}

/// A command that was never received is answered as uncertain, by its own actor and identity.
pub proof fn an_unreceived_command_is_uncertain(actor: Id, command: Id, other: Id, another: Id)
    ensures
        no_receipt(actor, command) == StoreError::Conflict(
            Conflict::MutationResultUncertain { actor, command },
        ),
        no_receipt(actor, command) == no_receipt(other, another) ==> actor == other && command == another,
{
}

/// Whether result columns hold what became of a command.
pub open spec fn holds_result(
    written: ResultView,
    next: MutationView,
    rule: spec_fn(Seq<char>) -> bool,
) -> bool {
    &&& written.actor_id == next.actor
    &&& written.command_id == next.id
    &&& mutation_status_named(written.status@) == Some(next.status)
    &&& written.completed_at_ms == next.completed_at
    &&& written.uncertain_at_ms == next.uncertain_at
    &&& next.result matches Some(result) && ((result matches MutationResultView::Applied {
        reference: Some(text),
    } ==> rule(text)) ==> mutation_result_of(
        written.result.0,
        written.result.1,
        written.result.2,
        rule,
    ) == Ok::<MutationResultView, StoreError>(result))
}

/// A completion is the machine's to answer, when it hears of that result at that instant, and only from
/// a caller with the same fingerprint: a repeat writes nothing, and what the machine left is written,
/// column by column, and answered.
pub proof fn a_completion_is_the_machines_to_record(
    op: CompleteMutation,
    row: MutationView,
    machine: JournalMachine,
    rule: spec_fn(Seq<char>) -> bool,
)
    requires
        row.fingerprint == op.request.fingerprint@,
    ensures
        match machine(
            row,
            MutationEventView::ResultCommitted { result: op.request.result@, at: op.now },
        ) {
            Err(conflict) => op.committed(row, machine) matches Err(e) && e == StoreError::Conflict(
                conflict,
            ),
            Ok(Applied::Duplicate) => op.committed(row, machine) matches Ok((None, status)) && status
                == row.status,
            Ok(Applied::Advanced(next)) => {
                &&& op.committed(row, machine) is Ok <==> next.result is Some
                &&& op.committed(row, machine) matches Ok((written, status)) ==> {
                    &&& status == next.status
                    &&& written matches Some(columns)
                    &&& holds_result(columns, next, rule)
                }
            },
        },
{
    if let Ok(Applied::Advanced(next)) = machine(
        row,
        MutationEventView::ResultCommitted { result: op.request.result@, at: op.now },
    ) {
        mutation_status_round_trips(next.status);
        if let Some(result) = next.result {
            if result matches MutationResultView::Applied { reference: Some(text) } ==> rule(text) {
                mutation_result_round_trips(result, rule);
            }
        }
    }
}

/// A receipt is acknowledged as the machine says when it hears of it from that actor for that command at
/// that instant; a repeat writes nothing, and what the machine left is written and answered.
pub proof fn an_acknowledged_receipt_is_the_machines(
    op: AckMutationReceipt,
    row: MutationView,
    machine: JournalMachine,
)
    ensures
        match machine(
            row,
            MutationEventView::ReceiptAcknowledged {
                actor: op.request.actor,
                command: op.request.command,
                at: op.now,
            },
        ) {
            Err(conflict) => op.committed(row, machine) matches Err(e) && e == StoreError::Conflict(
                conflict,
            ),
            Ok(Applied::Duplicate) => op.committed(row, machine) matches Ok((None, status)) && status
                == row.status,
            Ok(Applied::Advanced(next)) => op.committed(row, machine) matches Ok((Some(written), status))
                && status == next.status && written.actor_id == op.request.actor && written.command_id
                == op.request.command && mutation_status_named(written.status@) == Some(next.status)
                && written.at_ms == next.acked_at,
        },
{
    if let Ok(Applied::Advanced(next)) = machine(
        row,
        MutationEventView::ReceiptAcknowledged {
            actor: op.request.actor,
            command: op.request.command,
            at: op.now,
        },
    ) {
        mutation_status_round_trips(next.status);
    }
}

/// A command whose fate was lost is marked as the machine says when it hears of it at that instant, for
/// that very actor and command.
pub proof fn a_lost_command_is_marked(row: MutationView, at: Timestamp, machine: JournalMachine)
    ensures
        match machine(row, MutationEventView::MarkedUncertain { at }) {
            Err(conflict) => uncertain_row(row, at, machine) == Err::<StatusRow, StoreError>(
                StoreError::Conflict(conflict),
            ),
            Ok(Applied::Duplicate) => uncertain_row(row, at, machine) matches Ok(written)
                && written.actor_id == row.actor && written.command_id == row.id && mutation_status_named(
                written.status@,
            ) == Some(row.status) && written.at_ms == row.uncertain_at,
            Ok(Applied::Advanced(next)) => uncertain_row(row, at, machine) matches Ok(written)
                && written.actor_id == next.actor && written.command_id == next.id
                && mutation_status_named(written.status@) == Some(next.status) && written.at_ms
                == next.uncertain_at,
        },
{
    mutation_status_round_trips(row.status);
    if let Ok(Applied::Advanced(next)) = machine(row, MutationEventView::MarkedUncertain { at }) {
        mutation_status_round_trips(next.status);
    }
}

/// A command's receipt is its row's own: who sent it, what it was and when it came are the columns, and
/// nothing has become of it yet.
pub proof fn a_receipt_is_its_rows_own(
    actor: Id,
    command: Id,
    row: CommandRow,
    fingerprint: Seq<u8>,
    rule: spec_fn(Seq<char>) -> bool,
)
    requires
        fingerprint.len() == 32,
        row.fingerprint@ == hex_text(fingerprint),
    ensures
        receipt_of(actor, command, row, rule) is Ok <==> rule(row.command_kind@) && row.daemon_epoch >= 0,
        receipt_of(actor, command, row, rule) matches Ok(receipt) ==> {
            &&& receipt.actor == actor
            &&& receipt.id == command
            &&& receipt.kind == row.command_kind@
            &&& receipt.fingerprint == fingerprint
            &&& receipt.daemon_epoch == row.daemon_epoch
            &&& receipt.received_at == row.created_at_ms
            &&& receipt.status is Received
            &&& receipt.result is None
            &&& receipt.completed_at is None
            &&& receipt.uncertain_at is None
            &&& receipt.acked_at is None
        },
{
    hex32_round_trips(fingerprint);
    assert(Seq::new(32, |k: int| hex_byte(row.fingerprint@, k) as u8) =~= fingerprint);
}

/// A command's row is read by telling the machine of what it records, in order: that its fate was lost,
/// its result, and that its receipt was acknowledged, each at the instant the row records. What the
/// machine left last is what is read, and only where the row stores that very status.
pub proof fn a_command_is_read_by_its_history(
    actor: Id,
    command: Id,
    row: CommandRow,
    receipt: MutationView,
    doubted: MutationView,
    completed: MutationView,
    acked: MutationView,
    result: MutationResultView,
    machine: JournalMachine,
    rule: spec_fn(Seq<char>) -> bool,
)
    requires
        receipt_of(actor, command, row, rule) == Ok::<MutationView, StoreError>(receipt),
        row.uncertain_at_ms matches Some(at) ==> machine(
            receipt,
            MutationEventView::MarkedUncertain { at },
        ) == Ok::<Applied<MutationView>, Conflict>(Applied::Advanced(doubted)),
        row.uncertain_at_ms is None ==> doubted == receipt,
        row.completed_at_ms matches Some(at) ==> mutation_result_of(
            text_or_empty(row.safe_result_kind),
            text_view(row.safe_result_ref),
            text_view(row.safe_result_conflict),
            rule,
        ) == Ok::<MutationResultView, StoreError>(result) && machine(
            doubted,
            MutationEventView::ResultCommitted { result, at },
        ) == Ok::<Applied<MutationView>, Conflict>(Applied::Advanced(completed)),
        row.completed_at_ms is None ==> completed == doubted,
        row.acked_at_ms matches Some(at) ==> machine(
            completed,
            MutationEventView::ReceiptAcknowledged { actor, command, at },
        ) == Ok::<Applied<MutationView>, Conflict>(Applied::Advanced(acked)),
        row.acked_at_ms is None ==> acked == completed,
    ensures
        command_of(actor, command, row, machine, rule) is Ok <==> mutation_status_named(row.status@) == Some(
            acked.status,
        ),
        command_of(actor, command, row, machine, rule) matches Ok(read) ==> read == acked,
{
}

} // verus!
