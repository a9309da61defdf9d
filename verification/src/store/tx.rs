//! The transaction shape every write goes through: named points, and the seam that interrupts there.
use vstd::prelude::*;
use crate::store::error::StoreError;

verus! {

/// A named point inside a transaction body: either the whole transition commits, or none of it does.
#[derive(Debug, Clone, Copy, PartialEq, Eq, PartialOrd, Ord, Hash, Structural)]
pub enum Failpoint {
    /// The immutable event row has been appended, nothing else has run.
    AfterEventAppend,
    /// Every projection row has been written, `COMMIT` has not run.
    AfterProjectionUpdate,
    /// Immediately before `COMMIT`.
    BeforeCommit,
    /// Immediately before a migration's `schema_migrations` row is written.
    BeforeMigrationRecorded,
    /// The external-effect intent row has been inserted, `COMMIT` has not run.
    AfterIntentInsert,
    /// The mutation-command `received` row has been inserted, `COMMIT` has not run.
    AfterMutationReceived,
    /// The mutation-command safe result has been written, `COMMIT` has not run.
    AfterMutationResult,
}

/// Injectable interruption for the transaction bodies.
pub trait FailpointHook {
    /// Called when `op` reaches `point`: nothing to continue, or the failure that aborts the
    /// transaction.
    fn reached(&self, op: &'static str, point: Failpoint) -> (r: Result<(), StoreError>);
}

/// Announces that a transaction body reached a named point: with no hook installed nothing happens,
/// and with one its answer is the answer.
pub fn reach<H: FailpointHook>(hook: Option<&H>, op: &'static str, point: Failpoint) -> (r: Result<
    (),
    StoreError,
>)
    ensures
        hook is None ==> r == Ok::<(), StoreError>(()),
        hook matches Some(installed) ==> call_ensures(H::reached, (installed, op, point), r),
{
    match hook {
        Some(installed) => installed.reached(op, point),
        None => Ok(()),
    }
}

} // verus!
