//! Result artifacts, their retention, and the work that still needs them.
use vstd::prelude::*;
use crate::domain::artifact::{ArtifactView, ResultArtifact};
use crate::domain::fence::{rule_is, rule_total, ObligationVersion, Timestamp};
use crate::domain::id::{Id, ObligationId, ResultArtifactId};
use crate::domain::obligation::{ObligationKind, ObligationState};
use crate::store::codec::{
    hex_byte, id_column, is_hex64, parse_hex32, parse_id, parse_token, parse_u64, token_column, u64_column,
};
use crate::store::error::{
    chain, collected, collected_one_more, corrupt, corrupt_row, CorruptReason, StoreError,
};
use crate::store::labels::RetentionLabel;
use crate::store::load::obligation::{LoadedObligation, LoadedView};

verus! {

// --- Reading artifact rows -----------------------------------------------------------------------

/// One `result_artifacts` row, as read.
#[derive(Debug, PartialEq, Eq)]
pub struct ArtifactRow {
    pub storage_ref: String,
    pub sha256_hex: String,
    pub byte_len: i64,
    pub created_at_ms: i64,
}

/// What an artifact row says about the artifact of that identity.
pub open spec fn artifact_of(
    id: ResultArtifactId,
    row: Option<ArtifactRow>,
    rule: spec_fn(Seq<char>) -> bool,
) -> Result<ArtifactView, StoreError> {
    let t = "result_artifacts";
    match row {
        None => Err(corrupt(t, "result_artifact_id", CorruptReason::DanglingReference)),
        Some(row) => chain(
            token_column(row.storage_ref@, t, "storage_ref", rule),
            |storage_ref: Seq<char>|
                if !is_hex64(row.sha256_hex@) {
                    Err(corrupt(t, "sha256_hex", CorruptReason::MalformedIdentity))
                } else {
                    chain(
                        u64_column(row.byte_len, t, "byte_len"),
                        |byte_len: u64|
                            Ok(
                                ArtifactView {
                                    id,
                                    storage_ref,
                                    digest: Seq::new(
                                        32,
                                        |k: int| hex_byte(row.sha256_hex@, k) as u8,
                                    ),
                                    byte_len,
                                    created_at: row.created_at_ms,
                                },
                            ),
                    )
                },
        ),
    }
}

/// An artifact that was read, on values alone, or the failure.
pub open spec fn artifact_view(r: Result<ResultArtifact, StoreError>) -> Result<ArtifactView, StoreError> {
    match r {
        Ok(artifact) => Ok(artifact@),
        Err(e) => Err(e),
    }
}

/// Reads one committed result-artifact row.
pub fn result_artifact<S: Fn(&str) -> bool>(
    id: ResultArtifactId,
    row: &Option<ArtifactRow>,
    safe: &S,
) -> (r: Result<ResultArtifact, StoreError>)
    requires
        rule_total(*safe),
    ensures
        forall|rule: spec_fn(Seq<char>) -> bool| #[trigger]
            rule_is(*safe, rule) ==> artifact_view(r) == artifact_of(id, *row, rule),
{
    let t = "result_artifacts";
    match row {
        None => Err(corrupt_row(t, "result_artifact_id", CorruptReason::DanglingReference)),
        Some(row) => {
            let storage_ref = parse_token(row.storage_ref.as_str(), t, "storage_ref", safe)?;
            let digest = parse_hex32(row.sha256_hex.as_str(), t, "sha256_hex")?;
            let byte_len: u64 = parse_u64(row.byte_len, t, "byte_len")?;
            proof {
                assert(digest@ =~= Seq::new(32, |k: int| hex_byte(row.sha256_hex@, k) as u8));
            }
            Ok(
                ResultArtifact { id, storage_ref, digest, byte_len, created_at: row.created_at_ms },
            )
        },
    }
}

/// Every identity a column lists, in order, or the first that is malformed.
pub open spec fn ids_listed(rows: Seq<String>, table: &'static str, column: &'static str) -> Result<
    Seq<Id>,
    StoreError,
> {
    collected(rows, |text: String| id_column(text@, table, column))
}

/// Reads a column of identities.
pub fn listed_ids(rows: &Vec<String>, table: &'static str, column: &'static str) -> (r: Result<
    Vec<Id>,
    StoreError,
>)
    ensures
        match r {
            Ok(ids) => ids_listed(rows@, table, column) == Ok::<Seq<Id>, StoreError>(ids@),
            Err(e) => ids_listed(rows@, table, column) == Err::<Seq<Id>, StoreError>(e),
        },
{
    let ghost take = |text: String| id_column(text@, table, column);
    let mut out: Vec<Id> = Vec::new();
    let mut i: usize = 0;
    while i < rows.len()
        invariant
            i <= rows@.len(),
            take == (|text: String| id_column(text@, table, column)),
            collected(rows@.take(i as int), take) == Ok::<Seq<Id>, StoreError>(out@),
        decreases rows@.len() - i,
    {
        proof {
            collected_one_more(rows@, take, i as int);
        }
        let id = parse_id(rows[i].as_str(), table, column)?;
        out.push(id);
        i = i + 1;
    }
    proof {
        assert(rows@.take(i as int) =~= rows@);
    }
    Ok(out)
}

/// Every committed result-artifact row, in order.
pub open spec fn artifacts_of(
    rows: Seq<(ResultArtifactId, Option<ArtifactRow>)>,
    rule: spec_fn(Seq<char>) -> bool,
) -> Result<Seq<ArtifactView>, StoreError> {
    collected(rows, |row: (ResultArtifactId, Option<ArtifactRow>)| artifact_of(row.0, row.1, rule))
}

/// Artifacts on values alone.
pub open spec fn artifact_views(artifacts: Seq<ResultArtifact>) -> Seq<ArtifactView> {
    artifacts.map_values(|artifact: ResultArtifact| artifact@)
}

/// Reads every committed result-artifact row.
pub fn committed_artifacts<S: Fn(&str) -> bool>(
    rows: &Vec<(ResultArtifactId, Option<ArtifactRow>)>,
    safe: &S,
) -> (r: Result<Vec<ResultArtifact>, StoreError>)
    requires
        rule_total(*safe),
    ensures
        forall|rule: spec_fn(Seq<char>) -> bool| #[trigger]
            rule_is(*safe, rule) ==> (match r {
                Ok(artifacts) => artifacts_of(rows@, rule) == Ok::<Seq<ArtifactView>, StoreError>(
                    artifact_views(artifacts@),
                ),
                Err(e) => artifacts_of(rows@, rule) == Err::<Seq<ArtifactView>, StoreError>(e),
            }),
{
    let mut out: Vec<ResultArtifact> = Vec::new();
    let mut i: usize = 0;
    proof {
        assert(artifact_views(out@) =~= Seq::empty());
    }
    while i < rows.len()
        invariant
            i <= rows@.len(),
            rule_total(*safe),
            forall|rule: spec_fn(Seq<char>) -> bool| #[trigger]
                rule_is(*safe, rule) ==> artifacts_of(rows@.take(i as int), rule) == Ok::<
                    Seq<ArtifactView>,
                    StoreError,
                >(artifact_views(out@)),
        decreases rows@.len() - i,
    {
        proof {
            assert forall|rule: spec_fn(Seq<char>) -> bool|
                artifacts_of(rows@.take(i as int), rule) is Ok implies #[trigger] artifacts_of(
                rows@.take(i + 1),
                rule,
            ) == (match artifact_of(rows@[i as int].0, rows@[i as int].1, rule) {
                Err(e) => Err::<Seq<ArtifactView>, StoreError>(e),
                Ok(one) => Ok(artifacts_of(rows@.take(i as int), rule)->Ok_0.push(one)),
            }) && (artifact_of(rows@[i as int].0, rows@[i as int].1, rule) matches Err(e)
                ==> artifacts_of(rows@, rule) == Err::<Seq<ArtifactView>, StoreError>(e)) by {
                collected_one_more(
                    rows@,
                    |row: (ResultArtifactId, Option<ArtifactRow>)| artifact_of(row.0, row.1, rule),
                    i as int,
                );
            }
        }
        let ghost before = out@;
        let row = &rows[i];
        match result_artifact(row.0, &row.1, safe) {
            Ok(artifact) => {
                proof {
                    assert(artifact_views(before.push(artifact)) =~= artifact_views(before).push(
                        artifact@,
                    ));
                    assert forall|rule: spec_fn(Seq<char>) -> bool| #[trigger]
                        rule_is(*safe, rule) implies artifacts_of(rows@.take(i + 1), rule) == Ok::<
                        Seq<ArtifactView>,
                        StoreError,
                    >(artifact_views(before.push(artifact))) by {
                        assert(artifacts_of(rows@.take(i as int), rule) is Ok);
                    }
                }
                out.push(artifact);
            },
            Err(e) => {
                proof {
                    assert forall|rule: spec_fn(Seq<char>) -> bool| #[trigger]
                        rule_is(*safe, rule) implies artifacts_of(rows@, rule) == Err::<
                        Seq<ArtifactView>,
                        StoreError,
                    >(e) by {
                        assert(artifacts_of(rows@.take(i as int), rule) is Ok);
                        assert(artifacts_of(rows@.take(i + 1), rule) is Err);
                    }
                }
                return Err(e);
            },
        }
        i = i + 1;
    }
    proof {
        assert(rows@.take(i as int) =~= rows@);
    }
    Ok(out)
}

// --- Retention ---------------------------------------------------------------------------------

/// What an obligation means for an artifact: which one it references, and whether it is closed.
#[derive(Debug, Clone, Copy, PartialEq, Eq, Structural)]
pub struct ArtifactReference {
    pub result_artifact: Option<ResultArtifactId>,
    pub closed: bool,
}

/// The retention columns of an artifact row.
#[derive(Debug, Clone, Copy, PartialEq, Eq, Structural)]
pub struct Retention {
    pub state: RetentionLabel,
    pub eligible_for_delete_at: Option<Timestamp>,
}

/// Whether some open obligation references an artifact.
pub open spec fn needed(artifact: ResultArtifactId, references: Seq<ArtifactReference>) -> bool {
    exists|i: int|
        0 <= i < references.len() && (#[trigger] references[i]).result_artifact == Some(artifact)
            && !references[i].closed
}

/// The retention of an artifact, derived from the obligations that reference it.
///
/// There is no setter: an artifact is pinned exactly while an open obligation references it, and a
/// pinned artifact has no deletion instant.
pub open spec fn retention_of(
    artifact: ResultArtifactId,
    references: Seq<ArtifactReference>,
    eligible_for_delete_at: Option<Timestamp>,
) -> Retention {
    if needed(artifact, references) {
        Retention { state: RetentionLabel::Pinned, eligible_for_delete_at: None }
    } else {
        Retention { state: RetentionLabel::Eligible, eligible_for_delete_at }
    }
}

/// Recomputes the retention of one artifact.
pub fn refresh_retention(
    artifact: ResultArtifactId,
    references: &Vec<ArtifactReference>,
    eligible_for_delete_at: Option<Timestamp>,
) -> (r: Retention)
    ensures
        r == retention_of(artifact, references@, eligible_for_delete_at),
{
    let mut i: usize = 0;
    while i < references.len()
        invariant
            i <= references@.len(),
            forall|k: int|
                0 <= k < i ==> !((#[trigger] references@[k]).result_artifact == Some(artifact)
                    && !references@[k].closed),
        decreases references@.len() - i,
    {
        let reference = references[i];
        let here: bool = match reference.result_artifact {
            Some(id) => id.value == artifact.value,
            None => false,
        };
        if here && !reference.closed {
            proof {
                assert(references@[i as int].result_artifact == Some(artifact));
            }
            return Retention { state: RetentionLabel::Pinned, eligible_for_delete_at: None };
        }
        i = i + 1;
    }
    Retention { state: RetentionLabel::Eligible, eligible_for_delete_at }
}

/// The retention after a deletion instant is stamped.
///
/// Only what is already released is stamped, and the first release instant stands.
pub open spec fn stamped(retention: Retention, deletable_at: Timestamp) -> Retention {
    if retention.state is Eligible && retention.eligible_for_delete_at is None {
        Retention { eligible_for_delete_at: Some(deletable_at), ..retention }
    } else {
        retention
    }
}

/// Records the earliest instant at which a released artifact may be deleted.
pub fn stamp_deletion_instant(retention: Retention, deletable_at: Timestamp) -> (r: Retention)
    ensures
        r == stamped(retention, deletable_at),
{
    match (retention.state, retention.eligible_for_delete_at) {
        (RetentionLabel::Eligible, None) => {
            Retention { state: retention.state, eligible_for_delete_at: Some(deletable_at) }
        },
        _ => retention,
    }
}

/// An artifact an open obligation needs is pinned and has no deletion instant, whatever is stamped
/// on it; one that no open obligation needs is eligible.
pub proof fn retention_follows_the_open_obligations(
    artifact: ResultArtifactId,
    references: Seq<ArtifactReference>,
    before: Option<Timestamp>,
    at: Timestamp,
)
    ensures
        ({
            let after = stamped(retention_of(artifact, references, before), at);
            &&& after.state is Pinned <==> needed(artifact, references)
            &&& needed(artifact, references) ==> after.eligible_for_delete_at is None
        }),
{
}

/// The first deletion instant stands: a repeated release never moves it.
pub proof fn the_first_deletion_instant_stands(retention: Retention, first: Timestamp, later: Timestamp)
    ensures
        stamped(stamped(retention, first), later) == stamped(retention, first),
{
}

/// An artifact that nothing needs may be deleted from the first instant it was released at: one that was
/// released before keeps that instant, and one that was not gets the one at hand.
pub proof fn a_released_artifact_has_its_deletion_instant(
    artifact: ResultArtifactId,
    references: Seq<ArtifactReference>,
    before: Option<Timestamp>,
    at: Timestamp,
)
    requires
        !needed(artifact, references),
    ensures
        retention_of(artifact, references, before).eligible_for_delete_at == before,
        stamped(retention_of(artifact, references, before), at).eligible_for_delete_at == Some(
            match before {
                Some(first) => first,
                None => at,
            },
        ),
        retention_of(artifact, references.push(ArtifactReference {
            result_artifact: Some(artifact),
            closed: false,
        }), before).state is Pinned,
{
    let more = references.push(ArtifactReference { result_artifact: Some(artifact), closed: false });
    assert(more[references.len() as int].result_artifact == Some(artifact));
}

/// An artifact is its row's own: it is read exactly where the row is there, its reference is a safe token,
/// its digest is well formed and its length is not negative, and it then holds what the row holds.
pub proof fn an_artifact_is_its_rows_own(
    id: ResultArtifactId,
    row: ArtifactRow,
    rule: spec_fn(Seq<char>) -> bool,
)
    ensures
        artifact_of(id, None, rule) == Err::<ArtifactView, StoreError>(
            corrupt("result_artifacts", "result_artifact_id", CorruptReason::DanglingReference),
        ),
        artifact_of(id, Some(row), rule) is Ok <==> rule(row.storage_ref@) && is_hex64(row.sha256_hex@)
            && row.byte_len >= 0,
        rule(row.storage_ref@) && !is_hex64(row.sha256_hex@) ==> artifact_of(id, Some(row), rule)
            == Err::<ArtifactView, StoreError>(
            corrupt("result_artifacts", "sha256_hex", CorruptReason::MalformedIdentity),
        ),
        artifact_of(id, Some(row), rule) matches Ok(artifact) ==> {
            &&& artifact.id == id
            &&& artifact.storage_ref == row.storage_ref@
            &&& artifact.byte_len == row.byte_len
            &&& artifact.created_at == row.created_at_ms
            &&& artifact.digest.len() == 32
        },
{
}

// --- Open work -----------------------------------------------------------------------------------

/// One obligation that still owes somebody something: identities, classes, counters and instants.
#[derive(Debug, PartialEq, Eq)]
pub struct OpenObligation {
    /// Opaque obligation identity.
    pub id: ObligationId,
    /// What the obligation is about.
    pub kind: ObligationKind,
    /// Current lifecycle state, folded from the ledger.
    pub state: ObligationState,
    /// Current compare-and-swap version.
    pub version: ObligationVersion,
    /// When the obligation was created, from its creating event.
    pub created_at: Timestamp,
    /// The artifact this obligation pins, when it has one.
    pub result_artifact: Option<ResultArtifact>,
}

/// Open work on values alone.
#[verifier::ext_equal]
pub struct OpenView {
    pub id: ObligationId,
    pub kind: ObligationKind,
    pub state: ObligationState,
    pub version: ObligationVersion,
    pub created_at: Timestamp,
    pub result_artifact: Option<ArtifactView>,
}

impl View for OpenObligation {
    type V = OpenView;

    open spec fn view(&self) -> OpenView {
        OpenView {
            id: self.id,
            kind: self.kind,
            state: self.state,
            version: self.version,
            created_at: self.created_at,
            result_artifact: match self.result_artifact {
                Some(artifact) => Some(artifact@),
                None => None,
            },
        }
    }
}

/// When the event that created an obligation was observed, as a lookup found it.
pub open spec fn creation_instant(observed_at_ms: Option<i64>) -> Result<Timestamp, StoreError> {
    match observed_at_ms {
        Some(millis) => Ok(millis),
        None => Err(corrupt("obligations", "created_event_seq", CorruptReason::DanglingReference)),
    }
}

/// Reads when the event that created an obligation was observed.
pub fn created_at(observed_at_ms: Option<i64>) -> (r: Result<Timestamp, StoreError>)
    ensures
        r == creation_instant(observed_at_ms),
{
    match observed_at_ms {
        Some(millis) => Ok(millis),
        None => Err(corrupt_row("obligations", "created_event_seq", CorruptReason::DanglingReference)),
    }
}

/// What is reported of an open obligation: its folded state, with the artifact it pins.
///
/// `row` is the artifact row of the identity the folded obligation names, where it names one.
pub open spec fn open_work(
    id: ObligationId,
    loaded: LoadedView,
    row: Option<ArtifactRow>,
    observed_at_ms: Option<i64>,
    rule: spec_fn(Seq<char>) -> bool,
) -> Result<OpenView, StoreError> {
    let artifact = match loaded.projection.result_artifact {
        None => Ok(None),
        Some(artifact) => chain(
            artifact_of(artifact, row, rule),
            |view: ArtifactView| Ok(Some(view)),
        ),
    };
    chain(
        artifact,
        |result_artifact: Option<ArtifactView>|
            chain(
                creation_instant(observed_at_ms),
                |created_at: Timestamp|
                    Ok(
                        OpenView {
                            id,
                            kind: loaded.identity.kind,
                            state: loaded.projection.state,
                            version: loaded.projection.version,
                            created_at,
                            result_artifact,
                        },
                    ),
            ),
    )
}

/// Reports one obligation whose projection row has no closing event.
///
/// The row is only the index of open work: the state comes from the folded ledger slice.
pub fn open_obligation<S: Fn(&str) -> bool>(
    id: ObligationId,
    loaded: &LoadedObligation,
    row: &Option<ArtifactRow>,
    observed_at_ms: Option<i64>,
    safe: &S,
) -> (r: Result<OpenObligation, StoreError>)
    requires
        rule_total(*safe),
    ensures
        forall|rule: spec_fn(Seq<char>) -> bool| #[trigger]
            rule_is(*safe, rule) ==> (match r {
                Ok(open) => open_work(id, loaded@, *row, observed_at_ms, rule) == Ok::<
                    OpenView,
                    StoreError,
                >(open@),
                Err(e) => open_work(id, loaded@, *row, observed_at_ms, rule) == Err::<
                    OpenView,
                    StoreError,
                >(e),
            }),
{
    let artifact = match loaded.projection.result_artifact {
        None => None,
        Some(artifact) => Some(result_artifact(artifact, row, safe)?),
    };
    let created_at: i64 = created_at(observed_at_ms)?;
    Ok(
        OpenObligation {
            id,
            kind: loaded.identity.kind,
            state: loaded.projection.state,
            version: loaded.projection.version,
            created_at,
            result_artifact: artifact,
        },
    )
}

} // verus!
