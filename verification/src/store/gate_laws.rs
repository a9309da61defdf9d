//! What opening a database promises: which schema is let in, which migrations still run, which
//! connection is trusted, and which failures stop the daemon.
use vstd::prelude::*;
use crate::domain::conflict::{Conflict, ConflictKind};
use crate::domain::fence::EventSeq;
use crate::domain::id::Id;
use crate::store::error::{conflict_code_of, StoreError};
use crate::store::inspect::{behind, counters_recorded};
use crate::store::labels::{conflict_kind_named, conflict_kind_round_trips};
use crate::store::meta::{
    daemon_epoch_recorded, epoch_advanced, epoch_recorded, watermark_recorded,
};
use crate::store::migrate::{
    agrees, carried, epoch_gate_of, instance_of, is_drift, outstanding, AppliedRow, Migration,
    MigrationReport, SUPPORTED_SCHEMA_EPOCH,
};
use crate::store::open::{is_wal, policy_fault, PolicyReport};
use crate::store::ops::recovery::StartupRecovery;
use crate::store::replay::VerifiedProjections;
use crate::store::startup::{opened_by, OpenOutcome, OpenStore};
use crate::text::int_text;

verus! {

// --- Migrations ------------------------------------------------------------------------------------------

/// A carried migration is the first one of that version, and none is carried that is not there.
pub proof fn a_carried_migration_is_of_that_version(migrations: Seq<Migration>, version: u32)
    ensures
        match carried(migrations, version) {
            Some(found) => found.version == version && migrations.contains(found),
            None => forall|i: int|
                0 <= i < migrations.len() ==> (#[trigger] migrations[i]).version != version,
        },
    decreases migrations.len(),
{
    if migrations.len() > 0 {
        if migrations[0].version == version {
            assert(migrations.contains(migrations[0]));
        } else {
            let rest = migrations.skip(1);
            a_carried_migration_is_of_that_version(rest, version);
            match carried(rest, version) {
                Some(found) => {
                    let k = choose|k: int| 0 <= k < rest.len() && rest[k] == found;
                    assert(migrations[k + 1] == found);
                },
                None => {
                    assert forall|i: int| 0 <= i < migrations.len() implies (
                    #[trigger] migrations[i]).version != version by {
                        if i > 0 {
                            assert(rest[i - 1] == migrations[i]);
                        }
                    }
                },
            }
        }
    }
}

/// A recorded migration either agrees with the one that is carried or is drift, never both: it agrees
/// where one of its version is carried under the very checksum that was recorded, an unknown version is
/// reported as unknown, and another definition as a mismatch of that version and name.
pub proof fn a_recorded_migration_agrees_or_drifts(
    migrations: Seq<Migration>,
    row: AppliedRow,
    version: u32,
    e: StoreError,
)
    ensures
        agrees(migrations, row, version) ==> carried(migrations, version) is Some && carried(
            migrations,
            version,
        )->0.sum() == row.checksum@,
        is_drift(migrations, row, version, e) ==> !agrees(migrations, row, version),
        is_drift(migrations, row, version, e) ==> (e is UnknownAppliedMigration
            <==> carried(migrations, version) is None),
        is_drift(migrations, row, version, e) && carried(migrations, version) is Some
            ==> (e matches StoreError::MigrationChecksumMismatch { version: found, name } && found
            == version && name@ == row.name@),
        is_drift(migrations, row, version, e) && carried(migrations, version) is None ==> e
            == (StoreError::UnknownAppliedMigration { version }),
{
}

/// What is still to run are the migrations that were not verified, each of them, in the order they are
/// carried, and no others.
pub proof fn what_is_outstanding_runs_in_order(migrations: Seq<Migration>, verified: Seq<u32>, m: Migration)
    ensures
        outstanding(migrations.push(m), verified) == if verified.contains(m.version) {
            outstanding(migrations, verified)
        } else {
            outstanding(migrations, verified).push(m)
        },
        outstanding(Seq::empty(), verified).len() == 0,
{
    let fresh = |m: Migration| !verified.contains(m.version);
    assert(migrations.push(m).drop_last() =~= migrations);
    reveal(Seq::filter);
}

/// A database without a schema is let in, one without an epoch too, and one with an epoch exactly where
/// this binary supports it; a malformed epoch is a failure of its own.
pub proof fn a_schema_is_let_in_where_it_is_supported(schema_exists: bool, epoch: Option<Seq<char>>)
    ensures
        !schema_exists ==> epoch_gate_of(schema_exists, epoch) is Ok,
        epoch is None ==> epoch_gate_of(schema_exists, epoch) is Ok,
        schema_exists ==> (epoch_recorded(epoch) matches Err(e) ==> epoch_gate_of(schema_exists, epoch)
            == Err::<(), StoreError>(e)),
        schema_exists ==> (epoch_recorded(epoch) matches Ok(Some(found)) ==> (epoch_gate_of(
            schema_exists,
            epoch,
        ) is Ok <==> found <= SUPPORTED_SCHEMA_EPOCH)),
{
}

/// A database keeps the identity it has, and is given the candidate only where it has none.
pub proof fn an_instance_keeps_its_identity(existing: Seq<char>, candidate: Id, another: Id)
    ensures
        instance_of(None, candidate) == Ok::<Id, StoreError>(candidate),
        instance_of(Some(existing), candidate) == instance_of(Some(existing), another),
        instance_of(Some(existing), candidate) matches Ok(id) ==> crate::domain::id::uuid_value(existing)
            == Some(id.value),
        instance_of(Some(existing), candidate) is Err <==> crate::domain::id::uuid_value(existing) is None,
{
}

// --- The connection --------------------------------------------------------------------------------------

/// A connection is trusted exactly where it enforces foreign keys, writes ahead, syncs fully and waits as
/// long as was configured; otherwise the first of these that fails is named, with what was found.
pub proof fn a_connection_is_trusted_where_every_setting_holds(report: PolicyReport, busy_timeout_ms: u32)
    ensures
        policy_fault(report, busy_timeout_ms) is None <==> (report.foreign_keys && is_wal(
            report.journal_mode@,
        ) && report.synchronous == 2 && report.busy_timeout_ms == busy_timeout_ms),
        policy_fault(report, busy_timeout_ms) matches Some((setting, found, _)) ==> {
            ||| setting@ == "foreign_keys"@ && !report.foreign_keys
            ||| setting@ == "journal_mode"@ && report.foreign_keys && !is_wal(report.journal_mode@)
                && found == report.journal_mode@
            ||| setting@ == "synchronous"@ && report.foreign_keys && is_wal(report.journal_mode@)
                && report.synchronous != 2 && found == int_text(report.synchronous as int)
            ||| setting@ == "busy_timeout"@ && report.foreign_keys && is_wal(report.journal_mode@)
                && report.synchronous == 2 && report.busy_timeout_ms != busy_timeout_ms && found
                == int_text(report.busy_timeout_ms as int)
        },
{
}

/// The write-ahead mode is known by its name in either case, and by nothing else.
pub proof fn the_journal_mode_is_known_by_name(text: Seq<char>)
    ensures
        is_wal(text) <==> text.len() == 3 && (text[0] == 'w' || text[0] == 'W') && (text[1] == 'a'
            || text[1] == 'A') && (text[2] == 'l' || text[2] == 'L'),
{
}

// --- Counters --------------------------------------------------------------------------------------------

/// A ledger is behind exactly where it holds an event past what was verified.
pub proof fn a_ledger_is_behind_past_what_was_verified(head: Option<EventSeq>, verified: Option<EventSeq>)
    ensures
        behind(head, verified) <==> (head is Some && (verified is None || verified->0 < head->0)),
        !behind(head, head),
        !behind(None, verified),
{
}

/// The counters that are read are those that were recorded; a daemon that never started reads as zero,
/// and nothing verified reads as nothing.
pub proof fn counters_read_as_recorded(epoch: Option<Seq<char>>, watermark_text: Option<Seq<char>>)
    ensures
        daemon_epoch_recorded(None) == Ok::<u64, StoreError>(0),
        watermark_recorded(None) == Ok::<Option<EventSeq>, StoreError>(None),
        epoch_recorded(None) == Ok::<Option<u32>, StoreError>(None),
        counters_recorded(epoch, watermark_text) matches Ok((found, verified)) ==> daemon_epoch_recorded(
            epoch,
        ) == Ok::<u64, StoreError>(found) && watermark_recorded(watermark_text) == Ok::<
            Option<EventSeq>,
            StoreError,
        >(verified),
        counters_recorded(epoch, watermark_text) is Ok <==> daemon_epoch_recorded(epoch) is Ok
            && watermark_recorded(watermark_text) is Ok,
        epoch_advanced(None) == Ok::<u64, StoreError>(1),
{
}

// --- Opening ---------------------------------------------------------------------------------------------

/// A store opens step by step, each step keeping what the ones before it found, and a failure of any of
/// them refuses it under that very failure: once all five have succeeded it is ready, and its report is
/// what each of them found.
pub proof fn an_opened_store_reports_what_each_step_found(
    policy: PolicyReport,
    migrations: MigrationReport,
    daemon_epoch: u64,
    watermark: Option<EventSeq>,
    projections: VerifiedProjections,
    recovery: StartupRecovery,
    e: StoreError,
)
    ensures
        ({
            let first = opened_by(OpenStore::ProvePolicy, OpenOutcome::Policy(Ok(policy)));
            let second = opened_by(first, OpenOutcome::Migrated(Ok(migrations)));
            let third = opened_by(second, OpenOutcome::Advanced(Ok((daemon_epoch, watermark))));
            let fourth = opened_by(third, OpenOutcome::Replayed(Ok(projections)));
            let fifth = opened_by(fourth, OpenOutcome::Recovered(Ok(recovery)));
            &&& fifth matches OpenStore::Ready(report) && report.policy == policy && report.migrations
                == migrations && report.daemon_epoch == daemon_epoch
                && report.previously_verified_through == watermark && report.projections == projections
                && report.recovery == recovery
            &&& opened_by(OpenStore::ProvePolicy, OpenOutcome::Policy(Err(e))) == OpenStore::Refused(e)
            &&& opened_by(first, OpenOutcome::Migrated(Err(e))) == OpenStore::Refused(e)
            &&& opened_by(second, OpenOutcome::Advanced(Err(e))) == OpenStore::Refused(e)
            &&& opened_by(third, OpenOutcome::Replayed(Err(e))) == OpenStore::Refused(e)
            &&& opened_by(fourth, OpenOutcome::Recovered(Err(e))) == OpenStore::Refused(e)
            &&& opened_by(first, OpenOutcome::Replayed(Ok(projections))) == first
        }),
{
}

// --- Failures --------------------------------------------------------------------------------------------

/// What a refusal, a lost writer or the engine says is passed on; everything else stops the daemon until
/// someone intervenes.
pub proof fn only_passing_failures_leave_the_daemon_running(e: StoreError)
    ensures
        e.fail_closed() <==> match e {
            StoreError::Conflict(_) => false,
            StoreError::WriterGone => false,
            StoreError::Sqlite(_) => false,
            StoreError::SchemaEpochTooNew { .. } => true,
            StoreError::MigrationChecksumMismatch { .. } => true,
            StoreError::UnknownAppliedMigration { .. } => true,
            StoreError::ConnectionPolicy(_) => true,
            StoreError::Corrupt(_) => true,
            StoreError::RepairNeeded(_) => true,
            StoreError::QuarantineIncomplete { .. } => true,
        },
{
}

/// A refusal's code names its kind, so that a code that was stored says why it was refused.
pub proof fn a_refusals_code_names_its_kind(conflict: Conflict)
    ensures
        match conflict {
            Conflict::StaleBindingGeneration { .. } => conflict_kind_named(conflict_code_of(conflict)@)
                == Some(ConflictKind::StaleBindingGeneration),
            Conflict::UnknownDeliveryId => conflict_kind_named(conflict_code_of(conflict)@) == Some(
                ConflictKind::UnknownDeliveryId,
            ),
            Conflict::StaleClaim { .. } => conflict_kind_named(conflict_code_of(conflict)@) == Some(
                ConflictKind::StaleClaim,
            ),
            Conflict::IllegalObligationTransition { .. } => conflict_kind_named(
                conflict_code_of(conflict)@,
            ) == Some(ConflictKind::IllegalObligationTransition),
            Conflict::ObligationClosed { .. } => conflict_kind_named(conflict_code_of(conflict)@) == Some(
                ConflictKind::ObligationClosed,
            ),
            Conflict::IllegalDeliveryTransition { .. } => conflict_kind_named(conflict_code_of(conflict)@)
                == Some(ConflictKind::IllegalDeliveryTransition),
            Conflict::UnknownAttempt { .. } => conflict_kind_named(conflict_code_of(conflict)@) == Some(
                ConflictKind::UnknownAttempt,
            ),
            Conflict::ExecuteRequiresDurableIntent { .. } => conflict_kind_named(
                conflict_code_of(conflict)@,
            ) == Some(ConflictKind::ExecuteRequiresDurableIntent),
            Conflict::MutationCommandMismatch { .. } => conflict_kind_named(conflict_code_of(conflict)@)
                == Some(ConflictKind::MutationCommandMismatch),
            Conflict::MutationResultUncertain { .. } => conflict_kind_named(conflict_code_of(conflict)@)
                == Some(ConflictKind::MutationResultUncertain),
            Conflict::Refused { kind } => conflict_kind_named(conflict_code_of(conflict)@) == Some(kind),
            _ => true,
        },
{
    match conflict {
        Conflict::StaleBindingGeneration { .. } => {
            conflict_kind_round_trips(ConflictKind::StaleBindingGeneration);
        },
        Conflict::UnknownDeliveryId => {
            conflict_kind_round_trips(ConflictKind::UnknownDeliveryId);
        },
        Conflict::StaleClaim { .. } => {
            conflict_kind_round_trips(ConflictKind::StaleClaim);
        },
        Conflict::IllegalObligationTransition { .. } => {
            conflict_kind_round_trips(ConflictKind::IllegalObligationTransition);
        },
        Conflict::ObligationClosed { .. } => {
            conflict_kind_round_trips(ConflictKind::ObligationClosed);
        },
        Conflict::IllegalDeliveryTransition { .. } => {
            conflict_kind_round_trips(ConflictKind::IllegalDeliveryTransition);
        },
        Conflict::UnknownAttempt { .. } => {
            conflict_kind_round_trips(ConflictKind::UnknownAttempt);
        },
        Conflict::ExecuteRequiresDurableIntent { .. } => {
            conflict_kind_round_trips(ConflictKind::ExecuteRequiresDurableIntent);
        },
        Conflict::MutationCommandMismatch { .. } => {
            conflict_kind_round_trips(ConflictKind::MutationCommandMismatch);
        },
        Conflict::MutationResultUncertain { .. } => {
            conflict_kind_round_trips(ConflictKind::MutationResultUncertain);
        },
        Conflict::Refused { kind } => {
            conflict_kind_round_trips(kind);
        },
        _ => {},
    }
}

} // verus!
