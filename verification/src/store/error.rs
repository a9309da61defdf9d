//! Typed, machine-classifiable store failures.
//!
//! Four kinds, told apart without reading a string: a domain conflict, after which nothing
//! changed; a fail-closed state, in which the daemon must refuse orchestration; a corrupt row,
//! which never echoes the offending value; and an operational error of the engine.
use vstd::prelude::*;
use vstd::string::StringExecFns;
use crate::domain::conflict::{Conflict, ConflictKind};
use crate::store::labels::{conflict_kind_label, encode_conflict_kind};
use crate::text::{nat_text, push_nat};

verus! {

/// Result alias for every fallible store operation.
pub type StoreResult<T> = Result<T, StoreError>;

/// Why a stored value could not be rehydrated.
#[derive(Debug, Clone, Copy, PartialEq, Eq, Structural)]
pub enum CorruptReason {
    /// The text is not a canonical opaque identity.
    MalformedIdentity,
    /// The text is outside the redaction-safe token charset.
    UnsafeToken,
    /// The text is not one of the closed set of labels for this column.
    UnknownLabel,
    /// A signed SQLite integer does not fit the domain type.
    IntegerOutOfRange,
    /// The safe-metadata document is not the flat typed object this kind uses.
    MalformedMetadata,
    /// An allowlisted safe-metadata field this event kind requires is absent.
    MissingMetadataField,
    /// A row that a foreign key or projection requires does not exist.
    DanglingReference,
    /// The persisted evidence no longer proves what the recorded event claimed.
    UnprovableEvidence,
}

impl CorruptReason {
    /// What the reason says.
    pub open spec fn words(self) -> &'static str {
        match self {
            CorruptReason::MalformedIdentity => "not a canonical identity",
            CorruptReason::UnsafeToken => "not a redaction-safe token",
            CorruptReason::UnknownLabel => "not a known label for this column",
            CorruptReason::IntegerOutOfRange => "integer out of range for the domain type",
            CorruptReason::MalformedMetadata => "malformed safe metadata document",
            CorruptReason::MissingMetadataField => "required safe metadata field is missing",
            CorruptReason::DanglingReference => "referenced row is missing",
            CorruptReason::UnprovableEvidence => {
                "persisted evidence no longer supports the recorded transition"
            },
        }
    }

    /// What the reason says.
    pub fn message(self) -> (r: &'static str)
        ensures
            r == self.words(),
    {
        match self {
            CorruptReason::MalformedIdentity => "not a canonical identity",
            CorruptReason::UnsafeToken => "not a redaction-safe token",
            CorruptReason::UnknownLabel => "not a known label for this column",
            CorruptReason::IntegerOutOfRange => "integer out of range for the domain type",
            CorruptReason::MalformedMetadata => "malformed safe metadata document",
            CorruptReason::MissingMetadataField => "required safe metadata field is missing",
            CorruptReason::DanglingReference => "referenced row is missing",
            CorruptReason::UnprovableEvidence => {
                "persisted evidence no longer supports the recorded transition"
            },
        }
    }
}

/// A stored value that could not be rehydrated: where it stood and why, never the value.
#[derive(Debug, Clone, Copy, PartialEq, Eq)]
pub struct CorruptValue {
    /// Table the value came from.
    pub table: &'static str,
    /// Column the value came from.
    pub column: &'static str,
    /// Bounded description of what was wrong.
    pub reason: CorruptReason,
}

impl CorruptValue {
    /// Builds a corruption report for one column.
    pub fn new(table: &'static str, column: &'static str, reason: CorruptReason) -> (r: CorruptValue)
        ensures
            r == (CorruptValue { table, column, reason }),
    {
        CorruptValue { table, column, reason }
    }

    /// `table.column: reason`.
    pub open spec fn words(self) -> Seq<char> {
        self.table@ + seq!['.'] + self.column@ + ": "@ + self.reason.words()@
    }

    /// `table.column: reason`.
    pub fn message(&self) -> (r: String)
        ensures
            r@ == self.words(),
    {
        let mut out = self.table.to_owned();
        out.push('.');
        out.append(self.column);
        out.append(": ");
        out.append(self.reason.message());
        proof {
            assert(self.table@.push('.') =~= self.table@ + seq!['.']);
        }
        out
    }
}

/// A pragma the store requires is not in force on the open connection.
#[derive(Debug, PartialEq, Eq)]
pub struct PolicyViolation {
    /// Pragma that was checked.
    pub pragma: &'static str,
    /// Value the engine reported.
    pub observed: String,
    /// Value the store requires.
    pub required: &'static str,
}

impl PolicyViolation {
    /// `PRAGMA pragma is observed, required required`.
    pub open spec fn words(self) -> Seq<char> {
        "PRAGMA "@ + self.pragma@ + " is "@ + self.observed@ + ", required "@ + self.required@
    }

    /// `PRAGMA pragma is observed, required required`.
    pub fn message(&self) -> (r: String)
        ensures
            r@ == self.words(),
    {
        let mut out = "PRAGMA ".to_owned();
        out.append(self.pragma);
        out.append(" is ");
        out.append(self.observed.as_str());
        out.append(", required ");
        out.append(self.required);
        out
    }
}

/// One stored projection field that does not match its replayed value.
///
/// `row` is a non-secret identity of the disagreeing row, never a possession fence.
#[derive(Debug, PartialEq, Eq)]
pub struct ProjectionMismatch {
    /// Projection table that disagrees.
    pub table: &'static str,
    /// Non-secret identity of the disagreeing row.
    pub row: String,
    /// Column that disagrees.
    pub column: &'static str,
    /// What the projection row holds.
    pub stored: String,
    /// What replaying the ledger produces.
    pub replayed: String,
}

/// What a mismatch says, on values alone.
#[verifier::ext_equal]
pub struct MismatchView {
    pub table: Seq<char>,
    pub row: Seq<char>,
    pub column: Seq<char>,
    pub stored: Seq<char>,
    pub replayed: Seq<char>,
}

impl View for ProjectionMismatch {
    type V = MismatchView;

    open spec fn view(&self) -> MismatchView {
        MismatchView {
            table: self.table@,
            row: self.row@,
            column: self.column@,
            stored: self.stored@,
            replayed: self.replayed@,
        }
    }
}

impl ProjectionMismatch {
    /// `table[row].column stored stored but ledger replays to replayed`.
    pub open spec fn words(self) -> Seq<char> {
        self.table@ + "["@ + self.row@ + "]."@ + self.column@ + " stored "@ + self.stored@
            + " but ledger replays to "@ + self.replayed@
    }

    /// `table[row].column stored stored but ledger replays to replayed`.
    pub fn message(&self) -> (r: String)
        ensures
            r@ == self.words(),
    {
        let mut out = self.table.to_owned();
        out.append("[");
        out.append(self.row.as_str());
        out.append("].");
        out.append(self.column);
        out.append(" stored ");
        out.append(self.stored.as_str());
        out.append(" but ledger replays to ");
        out.append(self.replayed.as_str());
        out
    }
}

/// Stored projections disagree with the ledger they are derived from.
#[derive(Debug, PartialEq, Eq)]
pub struct RepairNeeded {
    /// Every disagreement found, in discovery order.
    pub mismatches: Vec<ProjectionMismatch>,
}

impl RepairNeeded {
    /// How many disagreements there are, and the first of them.
    pub open spec fn words(self) -> Seq<char> {
        let head = "projection replay found "@ + nat_text(self.mismatches@.len())
            + " disagreement(s) with the event ledger"@;
        if self.mismatches@.len() > 0 {
            head + "; first: "@ + self.mismatches@[0].words()
        } else {
            head
        }
    }

    /// How many disagreements there are, and the first of them.
    pub fn message(&self) -> (r: String)
        ensures
            r@ == self.words(),
    {
        let mut out = "projection replay found ".to_owned();
        push_nat(&mut out, self.mismatches.len() as u64);
        out.append(" disagreement(s) with the event ledger");
        if self.mismatches.len() > 0 {
            out.append("; first: ");
            out.append(self.mismatches[0].message().as_str());
        }
        out
    }
}

/// A failure from the SQLite authority.
#[derive(Debug, PartialEq, Eq)]
pub enum StoreError {
    /// A domain fence rejected the operation. Nothing was mutated.
    Conflict(Conflict),
    /// The database was written by a newer schema epoch than this binary knows.
    SchemaEpochTooNew {
        /// Epoch recorded in the database.
        found: u32,
        /// Highest epoch this binary implements.
        supported: u32,
    },
    /// An applied migration's recorded checksum is not the one this binary carries.
    MigrationChecksumMismatch {
        /// Migration version that drifted.
        version: u32,
        /// Migration name recorded in the database.
        name: String,
    },
    /// The database records a migration version this binary does not carry.
    UnknownAppliedMigration {
        /// Version recorded in the database.
        version: u32,
    },
    /// A required connection pragma is not actually in force.
    ConnectionPolicy(PolicyViolation),
    /// A persisted value could not be rehydrated into its domain type.
    Corrupt(CorruptValue),
    /// Stored projections disagree with the event ledger.
    RepairNeeded(RepairNeeded),
    /// Startup quarantine found more orphaned effects than it prepared for.
    QuarantineIncomplete {
        /// Identities the pass had minted before it ran out.
        minted: usize,
    },
    /// The writer actor is not running.
    WriterGone,
    /// An operational error from SQLite itself, in the engine's words.
    Sqlite(String),
}

/// A corrupt-row failure.
pub open spec fn corrupt(table: &'static str, column: &'static str, reason: CorruptReason) -> StoreError {
    StoreError::Corrupt(CorruptValue { table, column, reason })
}

/// Carries on with what a step gave, or stops at its failure.
pub open spec fn chain<T, U>(
    r: Result<T, StoreError>,
    next: spec_fn(T) -> Result<U, StoreError>,
) -> Result<U, StoreError> {
    match r {
        Ok(value) => next(value),
        Err(e) => Err(e),
    }
}

/// What is there, or a failure where nothing is.
pub open spec fn present<T>(value: Option<T>, e: StoreError) -> Result<T, StoreError> {
    match value {
        Some(inner) => Ok(inner),
        None => Err(e),
    }
}

/// What a list gives when every item is taken in order and the first failure ends it.
pub open spec fn collected<A, B>(items: Seq<A>, take: spec_fn(A) -> Result<B, StoreError>) -> Result<
    Seq<B>,
    StoreError,
>
    decreases items.len(),
{
    if items.len() == 0 {
        Ok(Seq::empty())
    } else {
        match collected(items.drop_last(), take) {
            Err(e) => Err(e),
            Ok(taken) => match take(items.last()) {
                Err(e) => Err(e),
                Ok(one) => Ok(taken.push(one)),
            },
        }
    }
}

/// A failure among the first items is the failure of the whole list.
pub proof fn collected_fault_stays<A, B>(
    items: Seq<A>,
    take: spec_fn(A) -> Result<B, StoreError>,
    n: int,
)
    requires
        0 <= n <= items.len(),
        collected(items.take(n), take) is Err,
    ensures
        collected(items, take) == collected(items.take(n), take),
    decreases items.len() - n,
{
    if n < items.len() {
        assert(items.take(n + 1).drop_last() =~= items.take(n));
        collected_fault_stays(items, take, n + 1);
    } else {
        assert(items.take(n) =~= items);
    }
}

/// One more item of a list.
pub proof fn collected_one_more<A, B>(
    items: Seq<A>,
    take: spec_fn(A) -> Result<B, StoreError>,
    n: int,
)
    requires
        0 <= n < items.len(),
        collected(items.take(n), take) is Ok,
    ensures
        collected(items.take(n + 1), take) == (match take(items[n]) {
            Err(e) => Err::<Seq<B>, StoreError>(e),
            Ok(one) => Ok(collected(items.take(n), take)->Ok_0.push(one)),
        }),
        take(items[n]) is Err ==> collected(items, take) == Err::<Seq<B>, StoreError>(
            take(items[n])->Err_0,
        ),
{
    assert(items.take(n + 1).drop_last() =~= items.take(n));
    assert(items.take(n + 1).last() == items[n]);
    if take(items[n]) is Err {
        collected_fault_stays(items, take, n + 1);
    }
}

/// A corrupt-row failure.
pub fn corrupt_row(table: &'static str, column: &'static str, reason: CorruptReason) -> (r: StoreError)
    ensures
        r == corrupt(table, column, reason),
{
    StoreError::Corrupt(CorruptValue::new(table, column, reason))
}

/// The stable code of a refusal.
pub open spec fn conflict_code_of(conflict: Conflict) -> &'static str {
    match conflict {
        Conflict::StaleBindingGeneration { .. } => conflict_kind_label(ConflictKind::StaleBindingGeneration),
        Conflict::UnknownDeliveryId => conflict_kind_label(ConflictKind::UnknownDeliveryId),
        Conflict::StaleClaim { .. } => conflict_kind_label(ConflictKind::StaleClaim),
        Conflict::IllegalObligationTransition { .. } => {
            conflict_kind_label(ConflictKind::IllegalObligationTransition)
        },
        Conflict::ObligationClosed { .. } => conflict_kind_label(ConflictKind::ObligationClosed),
        Conflict::IllegalDeliveryTransition { .. } => {
            conflict_kind_label(ConflictKind::IllegalDeliveryTransition)
        },
        Conflict::UnknownAttempt { .. } => conflict_kind_label(ConflictKind::UnknownAttempt),
        Conflict::ExecuteRequiresDurableIntent { .. } => {
            conflict_kind_label(ConflictKind::ExecuteRequiresDurableIntent)
        },
        Conflict::MutationCommandMismatch { .. } => {
            conflict_kind_label(ConflictKind::MutationCommandMismatch)
        },
        Conflict::MutationResultUncertain { .. } => {
            conflict_kind_label(ConflictKind::MutationResultUncertain)
        },
        Conflict::SessionIncarnationAlreadyBound { .. } => "session_incarnation_already_bound",
        Conflict::SessionLineageCycle { .. } => "session_lineage_cycle",
        Conflict::SessionLineageTooDeep { .. } => "session_lineage_too_deep",
        Conflict::NoSessionLoadout { .. } => "no_session_loadout",
        Conflict::LoadoutIdentityMismatch { .. } => "loadout_identity_mismatch",
        Conflict::LoadoutDigestMismatch { .. } => "loadout_digest_mismatch",
        Conflict::ManagedConfigUnverifiable { .. } => "managed_config_unverifiable",
        Conflict::ParentTurnNotOwnedByParentSession { .. } => {
            "parent_turn_not_owned_by_parent_session"
        },
        Conflict::Refused { kind } => conflict_kind_label(kind),
    }
}

impl Conflict {
    /// The stable code of the refusal.
    pub fn code(&self) -> (r: &'static str)
        ensures
            r == conflict_code_of(*self),
    {
        match self {
            Conflict::StaleBindingGeneration { .. } => {
                encode_conflict_kind(ConflictKind::StaleBindingGeneration)
            },
            Conflict::UnknownDeliveryId => encode_conflict_kind(ConflictKind::UnknownDeliveryId),
            Conflict::StaleClaim { .. } => encode_conflict_kind(ConflictKind::StaleClaim),
            Conflict::IllegalObligationTransition { .. } => {
                encode_conflict_kind(ConflictKind::IllegalObligationTransition)
            },
            Conflict::ObligationClosed { .. } => encode_conflict_kind(ConflictKind::ObligationClosed),
            Conflict::IllegalDeliveryTransition { .. } => {
                encode_conflict_kind(ConflictKind::IllegalDeliveryTransition)
            },
            Conflict::UnknownAttempt { .. } => encode_conflict_kind(ConflictKind::UnknownAttempt),
            Conflict::ExecuteRequiresDurableIntent { .. } => {
                encode_conflict_kind(ConflictKind::ExecuteRequiresDurableIntent)
            },
            Conflict::MutationCommandMismatch { .. } => {
                encode_conflict_kind(ConflictKind::MutationCommandMismatch)
            },
            Conflict::MutationResultUncertain { .. } => {
                encode_conflict_kind(ConflictKind::MutationResultUncertain)
            },
            Conflict::SessionIncarnationAlreadyBound { .. } => "session_incarnation_already_bound",
            Conflict::SessionLineageCycle { .. } => "session_lineage_cycle",
            Conflict::SessionLineageTooDeep { .. } => "session_lineage_too_deep",
            Conflict::NoSessionLoadout { .. } => "no_session_loadout",
            Conflict::LoadoutIdentityMismatch { .. } => "loadout_identity_mismatch",
            Conflict::LoadoutDigestMismatch { .. } => "loadout_digest_mismatch",
            Conflict::ManagedConfigUnverifiable { .. } => "managed_config_unverifiable",
            Conflict::ParentTurnNotOwnedByParentSession { .. } => {
                "parent_turn_not_owned_by_parent_session"
            },
            Conflict::Refused { kind } => encode_conflict_kind(*kind),
        }
    }
}

impl StoreError {
    /// The domain conflict, when this failure is one.
    pub fn as_conflict(&self) -> (r: Option<&Conflict>)
        ensures
            match *self {
                StoreError::Conflict(conflict) => r == Some(&conflict),
                _ => r is None,
            },
    {
        match self {
            StoreError::Conflict(conflict) => Some(conflict),
            _ => None,
        }
    }

    /// The stable code of the domain conflict, when this failure is one.
    pub fn conflict_code(&self) -> (r: Option<&'static str>)
        ensures
            match *self {
                StoreError::Conflict(conflict) => r == Some(conflict_code_of(conflict)),
                _ => r is None,
            },
    {
        match self {
            StoreError::Conflict(conflict) => Some(conflict.code()),
            _ => None,
        }
    }

    /// What the failure says; a domain conflict speaks in its own words.
    pub open spec fn words(self, conflict: Seq<char>) -> Seq<char> {
        match self {
            StoreError::Conflict(_) => "domain conflict: "@ + conflict,
            StoreError::SchemaEpochTooNew { found, supported } => {
                "database schema epoch "@ + nat_text(found as nat)
                    + " is newer than the supported epoch "@ + nat_text(supported as nat)
            },
            StoreError::MigrationChecksumMismatch { version, name } => {
                "migration "@ + nat_text(version as nat) + " ("@ + name@
                    + ") was applied with a different definition"@
            },
            StoreError::UnknownAppliedMigration { version } => {
                "database has migration "@ + nat_text(version as nat)
                    + " applied, which this binary does not know"@
            },
            StoreError::ConnectionPolicy(violation) => {
                "connection policy violated: "@ + violation.words()
            },
            StoreError::Corrupt(value) => "corrupt persisted value: "@ + value.words(),
            StoreError::RepairNeeded(repair) => repair.words(),
            StoreError::QuarantineIncomplete { minted } => {
                "startup quarantine prepared "@ + nat_text(minted as nat)
                    + " identities and needed more"@
            },
            StoreError::WriterGone => "store writer actor is not running"@,
            StoreError::Sqlite(engine) => "sqlite: "@ + engine@,
        }
    }

    /// What the failure says; a domain conflict speaks in its own words.
    pub fn message(&self, conflict: &str) -> (r: String)
        ensures
            r@ == self.words(conflict@),
    {
        let mut out = String::new();
        match self {
            StoreError::Conflict(_) => {
                out.append("domain conflict: ");
                out.append(conflict);
            },
            StoreError::SchemaEpochTooNew { found, supported } => {
                out.append("database schema epoch ");
                push_nat(&mut out, *found as u64);
                out.append(" is newer than the supported epoch ");
                push_nat(&mut out, *supported as u64);
            },
            StoreError::MigrationChecksumMismatch { version, name } => {
                out.append("migration ");
                push_nat(&mut out, *version as u64);
                out.append(" (");
                out.append(name.as_str());
                out.append(") was applied with a different definition");
            },
            StoreError::UnknownAppliedMigration { version } => {
                out.append("database has migration ");
                push_nat(&mut out, *version as u64);
                out.append(" applied, which this binary does not know");
            },
            StoreError::ConnectionPolicy(violation) => {
                out.append("connection policy violated: ");
                out.append(violation.message().as_str());
            },
            StoreError::Corrupt(value) => {
                out.append("corrupt persisted value: ");
                out.append(value.message().as_str());
            },
            StoreError::RepairNeeded(repair) => {
                out.append(repair.message().as_str());
            },
            StoreError::QuarantineIncomplete { minted } => {
                out.append("startup quarantine prepared ");
                push_nat(&mut out, *minted as u64);
                out.append(" identities and needed more");
            },
            StoreError::WriterGone => {
                out.append("store writer actor is not running");
            },
            StoreError::Sqlite(engine) => {
                out.append("sqlite: ");
                out.append(engine.as_str());
            },
        }
        assert(out@ =~= self.words(conflict@));
        out
    }

    /// Whether the daemon must refuse orchestration until a human or an upgrade intervenes.
    pub open spec fn fail_closed(self) -> bool {
        !(self is Conflict) && !(self is WriterGone) && !(self is Sqlite)
    }

    /// Whether the daemon must refuse orchestration until a human or an upgrade intervenes.
    pub fn is_fail_closed(&self) -> (r: bool)
        ensures
            r == self.fail_closed(),
    {
        match self {
            StoreError::SchemaEpochTooNew { .. } => true,
            StoreError::MigrationChecksumMismatch { .. } => true,
            StoreError::UnknownAppliedMigration { .. } => true,
            StoreError::ConnectionPolicy(_) => true,
            StoreError::Corrupt(_) => true,
            StoreError::RepairNeeded(_) => true,
            StoreError::QuarantineIncomplete { .. } => true,
            StoreError::Conflict(_) => false,
            StoreError::WriterGone => false,
            StoreError::Sqlite(_) => false,
        }
    }
}

} // verus!
