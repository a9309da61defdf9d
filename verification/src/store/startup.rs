//! Opening the store, in the one order that is safe.
//!
//! The connection's policy is proven first; then the schema is gated and migrated, the daemon epoch
//! advances once, every projection is replayed, and every effect whose fate a previous process lost
//! is quarantined. Only then is there a store. A store that cannot prove its own projections does not
//! go on to make external decisions from them.
use vstd::prelude::*;
use crate::domain::fence::{DaemonEpoch, EventSeq};
use crate::store::error::StoreError;
use crate::store::migrate::MigrationReport;
use crate::store::open::PolicyReport;
use crate::store::ops::recovery::StartupRecovery;
use crate::store::replay::VerifiedProjections;

verus! {

/// What opening the store did.
#[derive(Debug, Clone, PartialEq, Eq)]
pub struct StartupReport {
    /// The connection policy, as the engine reports it.
    pub policy: PolicyReport,
    /// Migrations applied or verified.
    pub migrations: MigrationReport,
    /// The epoch this process is running under.
    pub daemon_epoch: DaemonEpoch,
    /// How far the previous process had verified, read before this one ran.
    pub previously_verified_through: Option<EventSeq>,
    /// Projection replay equivalence, proven before anything was scheduled.
    pub projections: VerifiedProjections,
    /// What startup quarantine found.
    pub recovery: StartupRecovery,
}

/// How far opening has come, and what it has proven so far. Each state holds what the earlier steps
/// gave, so none can be entered part-way.
#[derive(Debug, PartialEq, Eq)]
#[allow(inconsistent_fields)]
pub enum OpenStore {
    /// The connection is to be opened and its policy proven.
    ProvePolicy,
    /// The schema epoch is to be gated and outstanding migrations applied.
    Migrate { policy: PolicyReport },
    /// The watermark is to be read and the daemon epoch advanced once.
    AdvanceEpoch { policy: PolicyReport, migrations: MigrationReport },
    /// The projections are to be replayed and compared.
    VerifyProjections {
        policy: PolicyReport,
        migrations: MigrationReport,
        daemon_epoch: DaemonEpoch,
        watermark: Option<EventSeq>,
    },
    /// Lost effects are to be quarantined.
    Recover {
        policy: PolicyReport,
        migrations: MigrationReport,
        daemon_epoch: DaemonEpoch,
        watermark: Option<EventSeq>,
        projections: VerifiedProjections,
    },
    /// The store is open.
    Ready(StartupReport),
    /// A step failed; there is no store.
    Refused(StoreError),
}

/// What one step of opening gave.
#[derive(Debug, PartialEq, Eq)]
pub enum OpenOutcome {
    /// Of opening the connection and proving its policy.
    Policy(Result<PolicyReport, StoreError>),
    /// Of migrating.
    Migrated(Result<MigrationReport, StoreError>),
    /// Of advancing the epoch: the epoch, and the watermark the previous process left.
    Advanced(Result<(DaemonEpoch, Option<EventSeq>), StoreError>),
    /// Of replaying the projections.
    Replayed(Result<VerifiedProjections, StoreError>),
    /// Of quarantining.
    Recovered(Result<StartupRecovery, StoreError>),
}

impl OpenOutcome {
    /// Whether the step succeeded.
    pub open spec fn succeeded(self) -> bool {
        match self {
            OpenOutcome::Policy(r) => r is Ok,
            OpenOutcome::Migrated(r) => r is Ok,
            OpenOutcome::Advanced(r) => r is Ok,
            OpenOutcome::Replayed(r) => r is Ok,
            OpenOutcome::Recovered(r) => r is Ok,
        }
    }

    /// How many steps come before the one the outcome is of.
    pub open spec fn place(self) -> nat {
        match self {
            OpenOutcome::Policy(_) => 0,
            OpenOutcome::Migrated(_) => 1,
            OpenOutcome::Advanced(_) => 2,
            OpenOutcome::Replayed(_) => 3,
            OpenOutcome::Recovered(_) => 4,
        }
    }
}

/// Where opening stands after one more outcome. An outcome of another step changes nothing.
pub open spec fn opened_by(state: OpenStore, outcome: OpenOutcome) -> OpenStore {
    match (state, outcome) {
        (OpenStore::ProvePolicy, OpenOutcome::Policy(r)) => match r {
            Ok(policy) => OpenStore::Migrate { policy },
            Err(e) => OpenStore::Refused(e),
        },
        (OpenStore::Migrate { policy }, OpenOutcome::Migrated(r)) => match r {
            Ok(migrations) => OpenStore::AdvanceEpoch { policy, migrations },
            Err(e) => OpenStore::Refused(e),
        },
        (OpenStore::AdvanceEpoch { policy, migrations }, OpenOutcome::Advanced(r)) => match r {
            Ok(found) => OpenStore::VerifyProjections {
                policy,
                migrations,
                daemon_epoch: found.0,
                watermark: found.1,
            },
            Err(e) => OpenStore::Refused(e),
        },
        (
            OpenStore::VerifyProjections { policy, migrations, daemon_epoch, watermark },
            OpenOutcome::Replayed(r),
        ) => match r {
            Ok(projections) => OpenStore::Recover {
                policy,
                migrations,
                daemon_epoch,
                watermark,
                projections,
            },
            Err(e) => OpenStore::Refused(e),
        },
        (
            OpenStore::Recover { policy, migrations, daemon_epoch, watermark, projections },
            OpenOutcome::Recovered(r),
        ) => match r {
            Ok(recovery) => OpenStore::Ready(
                StartupReport {
                    policy,
                    migrations,
                    daemon_epoch,
                    previously_verified_through: watermark,
                    projections,
                    recovery,
                },
            ),
            Err(e) => OpenStore::Refused(e),
        },
        _ => state,
    }
}

impl OpenStore {
    /// Opening begins with the connection and its policy.
    pub fn start() -> (r: OpenStore)
        ensures
            r == OpenStore::ProvePolicy,
    {
        OpenStore::ProvePolicy
    }

    /// Takes the outcome of the step that is due.
    pub fn advance(self, outcome: OpenOutcome) -> (r: OpenStore)
        ensures
            r == opened_by(self, outcome),
    {
        match (self, outcome) {
            (OpenStore::ProvePolicy, OpenOutcome::Policy(r)) => match r {
                Ok(policy) => OpenStore::Migrate { policy },
                Err(e) => OpenStore::Refused(e),
            },
            (OpenStore::Migrate { policy }, OpenOutcome::Migrated(r)) => match r {
                Ok(migrations) => OpenStore::AdvanceEpoch { policy, migrations },
                Err(e) => OpenStore::Refused(e),
            },
            (OpenStore::AdvanceEpoch { policy, migrations }, OpenOutcome::Advanced(r)) => match r {
                Ok(found) => OpenStore::VerifyProjections {
                    policy,
                    migrations,
                    daemon_epoch: found.0,
                    watermark: found.1,
                },
                Err(e) => OpenStore::Refused(e),
            },
            (
                OpenStore::VerifyProjections { policy, migrations, daemon_epoch, watermark },
                OpenOutcome::Replayed(r),
            ) => match r {
                Ok(projections) => OpenStore::Recover {
                    policy,
                    migrations,
                    daemon_epoch,
                    watermark,
                    projections,
                },
                Err(e) => OpenStore::Refused(e),
            },
            (
                OpenStore::Recover { policy, migrations, daemon_epoch, watermark, projections },
                OpenOutcome::Recovered(r),
            ) => match r {
                Ok(recovery) => OpenStore::Ready(
                    StartupReport {
                        policy,
                        migrations,
                        daemon_epoch,
                        previously_verified_through: watermark,
                        projections,
                        recovery,
                    },
                ),
                Err(e) => OpenStore::Refused(e),
            },
            (state, _) => state,
        }
    }
}

// --- Laws ------------------------------------------------------------------------------------------------

/// Where opening stands after outcomes in turn.
pub open spec fn opened_after(outcomes: Seq<OpenOutcome>) -> OpenStore
    decreases outcomes.len(),
{
    if outcomes.len() == 0 {
        OpenStore::ProvePolicy
    } else {
        opened_by(opened_after(outcomes.drop_last()), outcomes.last())
    }
}

/// How many steps lie behind a state of opening that has not failed.
pub open spec fn depth(state: OpenStore) -> nat {
    match state {
        OpenStore::ProvePolicy => 0,
        OpenStore::Migrate { .. } => 1,
        OpenStore::AdvanceEpoch { .. } => 2,
        OpenStore::VerifyProjections { .. } => 3,
        OpenStore::Recover { .. } => 4,
        OpenStore::Ready(_) => 5,
        OpenStore::Refused(_) => 0,
    }
}

/// Whether the step at a depth succeeded somewhere in a history.
pub open spec fn passed(outcomes: Seq<OpenOutcome>, step: nat) -> bool {
    exists|i: int|
        0 <= i < outcomes.len() && #[trigger] outcomes[i].succeeded() && outcomes[i].place() == step
}

/// No step of opening is due before every earlier one has succeeded; in particular nothing is
/// quarantined, and there is no store, before the projections were proven.
pub proof fn no_step_is_skipped(outcomes: Seq<OpenOutcome>, step: nat)
    requires
        step < depth(opened_after(outcomes)),
    ensures
        passed(outcomes, step),
    decreases outcomes.len(),
{
    if outcomes.len() > 0 {
        let earlier = outcomes.drop_last();
        let before = opened_after(earlier);
        if step < depth(before) {
            no_step_is_skipped(earlier, step);
            let i = choose|i: int|
                0 <= i < earlier.len() && #[trigger] earlier[i].succeeded() && earlier[i].place()
                    == step;
            assert(outcomes[i].succeeded());
        } else {
            assert(outcomes[outcomes.len() - 1].succeeded());
        }
    }
}

/// A refusal is final: whatever comes after it, there is no store.
pub proof fn a_refused_store_stays_refused(e: StoreError, outcome: OpenOutcome)
    ensures
        opened_by(OpenStore::Refused(e), outcome) == OpenStore::Refused(e),
{
}

} // verus!
