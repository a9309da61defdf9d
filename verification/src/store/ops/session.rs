//! Immutable worker loadouts, their session bindings, and durable lineage.
//!
//! Snapshots are keyed on identity and digest and never overwritten: an edited role is a second
//! snapshot, and whatever embedded the first one still resolves to it. Starting a worker process is
//! a non-idempotent write with no idempotency contract, so a spawn intent whose fate was lost means
//! that a process may exist, and is never answered by a second permit.
use vstd::prelude::*;
use crate::digest::hex_text;
use crate::domain::conflict::Conflict;
use crate::domain::effect::{DestinationRef, EffectClassView, ExternalEffectClass};
use crate::domain::fence::{
    rule_is, rule_total, DaemonEpoch, EventSeq, SafeToken, SourceRef, SourceView, Timestamp,
};
use crate::domain::id::{
    canonical_text, canonical_text_injective, id_text, CapabilityProfileId, DelegationPolicyId,
    EventId, ExternalAttemptId, Id, ManagedConfigArtifactId, SessionId, SessionIncarnationId,
    TurnId, WorkerLoadoutId,
};
use crate::domain::session::{
    loadout_is, loadout_total, texts, walk_ancestry, walks, whitelist,
    whitelist_is, whitelist_total, Ancestry, ConfigView, LoadoutDigest, LoadoutSpecView,
    ManagedConfigRef, ModelPolicyRef, ParentOf, ResumePolicy, SessionEdge, SessionRelation,
    SnapshotRef, SnapshotView, WhitelistDigest, WorkerLoadoutFence, WorkerLoadoutSpec,
};
use crate::store::codec::{
    hex32, hex32_column, hex_text_injective, id_column, parse_hex32, parse_id, parse_token,
    parse_u64, store_u64, stored_u64, token_column, u64_column,
};
use crate::store::error::{chain, corrupt, corrupt_row, present, CorruptReason, StoreError};
use crate::store::event::{store_seq, stored_seq, Appended, EventScope, EventView, NewEvent};
use crate::store::event_kind::EventKind;
use crate::store::grammar::MetaValue;
use crate::store::ops::effect::{
    grant, insert_intent, intent_row, intent_view, GrantedPermit, IntentRow, IntentView,
};
use crate::store::ops::worker::DurableArtifact;
use crate::store::ops::{
    event_of, event_view, internal_fact, internal_source, internal_source_text, new_event,
    Committed,
};
use crate::store::safe_metadata::SafeMetadata;
use crate::text::{dictionary, join3, same};

verus! {

/// Longest ancestor chain a lineage walk follows before refusing.
///
/// A healthy lineage ends long before this. The bound is for an unhealthy one: a cycle that is
/// already in the table would otherwise never end.
pub const MAX_LINEAGE_DEPTH: u32 = 64;

// --- Shared helpers ----------------------------------------------------------------------------------

/// The source identity of one immutable snapshot, deterministic in identity and digest.
pub open spec fn snapshot_fact(
    id: Id,
    digest: Seq<u8>,
    label: Seq<char>,
    rule: spec_fn(Seq<char>) -> bool,
) -> Result<SourceView, StoreError> {
    internal_fact(canonical_text(id.value) + ":"@ + hex_text(digest), label, rule)
}

fn snapshot_source<S: Fn(&str) -> bool>(id: Id, digest: &[u8; 32], label: &str, safe: &S) -> (r: Result<
    SourceRef,
    StoreError,
>)
    requires
        rule_total(*safe),
    ensures
        forall|rule: spec_fn(Seq<char>) -> bool| #[trigger]
            rule_is(*safe, rule) ==> crate::store::codec::source_view(r) == snapshot_fact(
                id,
                digest@,
                label@,
                rule,
            ),
{
    let text = id_text(id);
    let hex = hex32(digest);
    let subject = join3(text.as_str(), ":", hex.as_str());
    internal_source_text(subject.as_str(), label, safe)
}

/// A digest as a bounded token for event metadata.
pub open spec fn digest_field(digest: Seq<u8>, rule: spec_fn(Seq<char>) -> bool) -> Result<
    Seq<char>,
    StoreError,
> {
    token_column(hex_text(digest), "events", "safe_metadata_json", rule)
}

fn digest_token<S: Fn(&str) -> bool>(digest: &[u8; 32], safe: &S) -> (r: Result<SafeToken, StoreError>)
    requires
        rule_total(*safe),
    ensures
        forall|rule: spec_fn(Seq<char>) -> bool| #[trigger]
            rule_is(*safe, rule) ==> crate::store::codec::token_text(r) == digest_field(
                digest@,
                rule,
            ),
        r matches Ok(token) ==> token@ == hex_text(digest@),
{
    let hex = hex32(digest);
    parse_token(hex.as_str(), "events", "safe_metadata_json", safe)
}

/// The size of a set, as an `INTEGER` column holds it.
pub open spec fn stored_count(len: nat, column: &'static str) -> Result<i64, StoreError> {
    stored_u64(len as u64, "capability_profiles", column)
}

fn count_of(len: usize, column: &'static str) -> (r: Result<i64, StoreError>)
    ensures
        r == stored_count(len as nat, column),
{
    store_u64(len as u64, "capability_profiles", column)
}

/// A configuration reference as two tables hold it.
#[derive(Debug, PartialEq, Eq)]
pub struct ConfigRow {
    pub managed_config_artifact_id: String,
    pub digest_hex: String,
    pub byte_len: i64,
}

/// The configuration a row refers to, its columns named as the table names them.
pub open spec fn config_of(
    row: ConfigRow,
    table: &'static str,
    digest_column: &'static str,
    len_column: &'static str,
) -> Result<ConfigView, StoreError> {
    chain(
        id_column(row.managed_config_artifact_id@, table, "managed_config_artifact_id"),
        |id: Id|
            chain(
                hex32_column(row.digest_hex@, table, digest_column),
                |digest: Seq<u8>|
                    chain(
                        u64_column(row.byte_len, table, len_column),
                        |byte_len: u64| Ok((id, digest, byte_len)),
                    ),
            ),
    )
}

/// A configuration that was read, on values alone, or the failure.
pub open spec fn config_view(r: Result<ManagedConfigRef, StoreError>) -> Result<ConfigView, StoreError> {
    match r {
        Ok(config) => Ok(config@),
        Err(e) => Err(e),
    }
}

fn read_config(
    row: &ConfigRow,
    table: &'static str,
    digest_column: &'static str,
    len_column: &'static str,
) -> (r: Result<ManagedConfigRef, StoreError>)
    ensures
        config_view(r) == config_of(*row, table, digest_column, len_column),
{
    let id = parse_id(
        row.managed_config_artifact_id.as_str(),
        table,
        "managed_config_artifact_id",
    )?;
    let digest = parse_hex32(row.digest_hex.as_str(), table, digest_column)?;
    let byte_len: u64 = parse_u64(row.byte_len, table, len_column)?;
    Ok(ManagedConfigRef { id, digest, byte_len })
}

// --- Managed configuration artifacts -----------------------------------------------------------------

/// A private immutable managed configuration whose bytes are already durable.
#[derive(Debug, PartialEq, Eq)]
pub struct RecordManagedConfigRequest {
    /// The configuration the artifact layer already made durable.
    pub artifact: DurableArtifact,
    /// Hook and configuration contract epoch these bytes implement.
    pub hook_contract_epoch: u64,
}

/// The configuration reference a loadout may now embed.
#[derive(Debug, Clone, Copy, PartialEq, Eq)]
pub struct RecordedManagedConfig {
    /// Identity, digest and exact length of the recorded configuration.
    pub reference: ManagedConfigRef,
    /// Whether the source identity was already in the ledger, so that this call changed nothing.
    pub duplicate: bool,
}

/// Commits one managed-configuration metadata row.
#[derive(Debug, PartialEq, Eq)]
pub struct RecordManagedConfig {
    pub request: RecordManagedConfigRequest,
    pub artifact: ManagedConfigArtifactId,
    pub event: EventId,
    pub now: Timestamp,
}

/// One `managed_config_artifacts` row, as inserted, pinned and with no deletion instant.
#[derive(Debug, PartialEq, Eq)]
pub struct ManagedConfigInsert {
    pub managed_config_artifact_id: ManagedConfigArtifactId,
    pub storage_ref: SafeToken,
    pub sha256_hex: String,
    pub byte_len: i64,
    pub media_type: SafeToken,
    pub hook_contract_epoch: i64,
    pub created_at_ms: i64,
    pub created_event_seq: i64,
}

/// One inserted `managed_config_artifacts` row on values alone.
#[verifier::ext_equal]
pub struct ManagedConfigView {
    pub managed_config_artifact_id: ManagedConfigArtifactId,
    pub storage_ref: Seq<char>,
    pub sha256_hex: Seq<char>,
    pub byte_len: i64,
    pub media_type: Seq<char>,
    pub hook_contract_epoch: i64,
    pub created_at_ms: i64,
    pub created_event_seq: i64,
}

impl View for ManagedConfigInsert {
    type V = ManagedConfigView;

    open spec fn view(&self) -> ManagedConfigView {
        ManagedConfigView {
            managed_config_artifact_id: self.managed_config_artifact_id,
            storage_ref: self.storage_ref@,
            sha256_hex: self.sha256_hex@,
            byte_len: self.byte_len,
            media_type: self.media_type@,
            hook_contract_epoch: self.hook_contract_epoch,
            created_at_ms: self.created_at_ms,
            created_event_seq: self.created_event_seq,
        }
    }
}

/// What recording a configuration leaves behind: the row, the reference, and whether it was there.
pub type RecordedConfigView = (Option<ManagedConfigView>, ConfigView, bool);

/// What recording a configuration answered, on values alone.
pub open spec fn recorded_config_view(
    r: Result<Committed<ManagedConfigInsert, RecordedManagedConfig>, StoreError>,
) -> Result<RecordedConfigView, StoreError> {
    match r {
        Err(e) => Err(e),
        Ok(done) => Ok(
            (
                match done.rows {
                    None => None,
                    Some(row) => Some(row@),
                },
                done.output.reference@,
                done.output.duplicate,
            ),
        ),
    }
}

impl RecordManagedConfig {
    /// The event of the configuration: its source is the storage key, which was allocated once, so
    /// that the same published bytes are recorded once.
    pub open spec fn recorded_event(self, rule: spec_fn(Seq<char>) -> bool) -> Result<
        EventView,
        StoreError,
    > {
        chain(
            internal_fact(self.request.artifact.parts().0@, "managed_config_recorded"@, rule),
            |source: SourceView|
                chain(
                    digest_field(self.request.artifact.parts().1@, rule),
                    |digest: Seq<char>|
                        chain(
                            stored_u64(
                                self.request.hook_contract_epoch,
                                "events",
                                "hook_contract_epoch",
                            ),
                            |epoch: i64|
                                Ok(
                                    event_of(
                                        self.event,
                                        EventKind::ManagedConfigRecorded,
                                        source,
                                        self.now,
                                        EventScope::nothing(),
                                        seq![
                                            (
                                                "managed_config"@,
                                                MetaValue::Text(canonical_text(self.artifact.value)),
                                            ),
                                            ("digest"@, MetaValue::Text(digest)),
                                            ("hook_contract_epoch"@, MetaValue::Int(epoch as int)),
                                        ],
                                    ),
                                ),
                        ),
                ),
        )
    }

    /// Builds the event of the configuration.
    pub fn event<S: Fn(&str) -> bool>(&self, safe: &S) -> (r: Result<NewEvent, StoreError>)
        requires
            rule_total(*safe),
        ensures
            forall|rule: spec_fn(Seq<char>) -> bool| #[trigger]
                rule_is(*safe, rule) ==> event_view(r) == self.recorded_event(rule),
    {
        let source = internal_source_text(
            self.request.artifact.storage_ref().as_str(),
            "managed_config_recorded",
            safe,
        )?;
        let digest = digest_token(self.request.artifact.digest(), safe)?;
        let epoch: i64 = store_u64(
            self.request.hook_contract_epoch,
            "events",
            "hook_contract_epoch",
        )?;
        let metadata = SafeMetadata::new().id("managed_config", self.artifact).token(
            "digest",
            &digest,
        ).integer("hook_contract_epoch", epoch);
        proof {
            assert(metadata@ =~= seq![
                ("managed_config"@, MetaValue::Text(canonical_text(self.artifact.value))),
                ("digest"@, MetaValue::Text(digest@)),
                ("hook_contract_epoch"@, MetaValue::Int(epoch as int)),
            ]);
        }
        Ok(
            new_event(
                self.event,
                EventKind::ManagedConfigRecorded,
                source,
                self.now,
                EventScope::default(),
                metadata,
            ),
        )
    }

    /// What is left behind once the event is in the ledger: the row, or the one already there.
    pub open spec fn committed(self, appended: Appended, existing: Option<ConfigRow>) -> Result<
        RecordedConfigView,
        StoreError,
    > {
        let t = "managed_config_artifacts";
        if appended is Duplicate {
            chain(
                present(existing, corrupt(t, "storage_ref", CorruptReason::DanglingReference)),
                |row: ConfigRow|
                    chain(
                        config_of(row, t, "sha256_hex", "byte_len"),
                        |config: ConfigView| Ok((None::<ManagedConfigView>, config, true)),
                    ),
            )
        } else {
            let (storage_ref, digest, byte_len, media_type) = self.request.artifact.parts();
            chain(
                stored_u64(byte_len, t, "byte_len"),
                |stored_len: i64|
                    chain(
                        stored_u64(self.request.hook_contract_epoch, t, "hook_contract_epoch"),
                        |epoch: i64|
                            chain(
                                stored_seq(appended.at()),
                                |at: i64|
                                    Ok(
                                        (
                                            Some(
                                                ManagedConfigView {
                                                    managed_config_artifact_id: self.artifact,
                                                    storage_ref: storage_ref@,
                                                    sha256_hex: hex_text(digest@),
                                                    byte_len: stored_len,
                                                    media_type: media_type@,
                                                    hook_contract_epoch: epoch,
                                                    created_at_ms: self.now,
                                                    created_event_seq: at,
                                                },
                                            ),
                                            (self.artifact, digest@, byte_len),
                                            false,
                                        ),
                                    ),
                            ),
                    ),
            )
        }
    }

    /// Builds the row, or reports the configuration a duplicate already recorded; `existing` is the
    /// row under the same storage key, if there is one.
    pub fn commit(&self, appended: Appended, existing: &Option<ConfigRow>) -> (r: Result<
        Committed<ManagedConfigInsert, RecordedManagedConfig>,
        StoreError,
    >)
        ensures
            recorded_config_view(r) == self.committed(appended, *existing),
    {
        let t = "managed_config_artifacts";
        if appended.is_duplicate() {
            let row = match existing {
                Some(row) => row,
                None => {
                    return Err(corrupt_row(t, "storage_ref", CorruptReason::DanglingReference));
                },
            };
            let reference = read_config(row, t, "sha256_hex", "byte_len")?;
            return Ok(
                Committed { rows: None, output: RecordedManagedConfig { reference, duplicate: true } },
            );
        }
        let artifact = &self.request.artifact;
        let byte_len: i64 = store_u64(artifact.byte_len(), t, "byte_len")?;
        let epoch: i64 = store_u64(self.request.hook_contract_epoch, t, "hook_contract_epoch")?;
        let at: i64 = store_seq(appended.seq())?;
        Ok(
            Committed {
                rows: Some(
                    ManagedConfigInsert {
                        managed_config_artifact_id: self.artifact,
                        storage_ref: artifact.storage_ref().clone(),
                        sha256_hex: hex32(artifact.digest()),
                        byte_len,
                        media_type: artifact.media_type().clone(),
                        hook_contract_epoch: epoch,
                        created_at_ms: self.now,
                        created_event_seq: at,
                    },
                ),
                output: RecordedManagedConfig {
                    reference: ManagedConfigRef {
                        id: self.artifact,
                        digest: *artifact.digest(),
                        byte_len: artifact.byte_len(),
                    },
                    duplicate: false,
                },
            },
        )
    }
}

// --- Resolved worker loadouts ------------------------------------------------------------------------

/// One fully resolved launch loadout, ready to be written down.
///
/// The whitelists arrive as their contents: the digest is a function of the rows that are written.
#[derive(Debug, PartialEq, Eq)]
pub struct ResolveWorkerLoadoutRequest {
    /// Stable identity of the logical loadout.
    pub loadout: WorkerLoadoutId,
    /// Worker adapter class.
    pub worker_kind: SafeToken,
    /// Runtime adapter class.
    pub runtime_kind: SafeToken,
    /// Semantic role used for policy and analytics.
    pub role: SafeToken,
    /// Immutable model-policy snapshot, resolved elsewhere.
    pub model_policy: ModelPolicyRef,
    /// Stable identity of the capability whitelist.
    pub capability_profile: CapabilityProfileId,
    /// Every explicitly granted capability. An empty list grants nothing.
    pub capabilities: Vec<SafeToken>,
    /// Stable identity of the recursive-delegation whitelist.
    pub delegation_policy: DelegationPolicyId,
    /// Every role this worker may delegate to. An empty list permits none.
    pub delegated_roles: Vec<SafeToken>,
    /// The private immutable managed launch configuration.
    pub managed_config: ManagedConfigRef,
    /// Hook and configuration contract the adapter expects.
    pub hook_contract_epoch: u64,
    /// Resume policy applied to sessions launched under this loadout.
    pub resume_policy: ResumePolicy,
}

/// The immutable snapshot a resolution committed.
#[derive(Debug, Clone, Copy, PartialEq, Eq)]
pub struct ResolvedLoadout {
    /// Stable loadout identity.
    pub loadout: WorkerLoadoutId,
    /// Canonical digest of the resolved contents.
    pub digest: [u8; 32],
    /// Whether this exact snapshot was already recorded.
    pub duplicate: bool,
}

impl ResolvedLoadout {
    /// The exact identity and digest a resume must present.
    pub fn fence(&self) -> (r: WorkerLoadoutFence)
        ensures
            r@ == (self.loadout, self.digest@),
    {
        SnapshotRef::new(self.loadout, self.digest)
    }
}

/// Commits one capability profile, delegation policy, model policy and loadout.
#[derive(Debug, PartialEq, Eq)]
pub struct ResolveWorkerLoadout {
    /// The deduplicated whitelists, which are both what is digested and what is written.
    pub capabilities: Vec<SafeToken>,
    pub delegated_roles: Vec<SafeToken>,
    pub spec_of: WorkerLoadoutSpec,
    pub digest: [u8; 32],
    pub events: [EventId; 4],
    pub now: Timestamp,
}

/// A whitelist row and its entries, as inserted.
#[derive(Debug, PartialEq, Eq)]
pub struct WhitelistRows {
    pub id: Id,
    pub digest_hex: String,
    pub count: i64,
    pub created_event_seq: i64,
    /// One entry row for each name, under the same identity and digest.
    pub entries: Vec<SafeToken>,
}

/// A whitelist row and its entries on values alone.
#[verifier::ext_equal]
pub struct WhitelistView {
    pub id: Id,
    pub digest_hex: Seq<char>,
    pub count: i64,
    pub created_event_seq: i64,
    pub entries: Seq<Seq<char>>,
}

impl View for WhitelistRows {
    type V = WhitelistView;

    open spec fn view(&self) -> WhitelistView {
        WhitelistView {
            id: self.id,
            digest_hex: self.digest_hex@,
            count: self.count,
            created_event_seq: self.created_event_seq,
            entries: texts(self.entries@),
        }
    }
}

/// Rows that were built, on values alone: none for a duplicate.
pub open spec fn rows_view<R: View>(r: Result<Option<R>, StoreError>) -> Result<Option<R::V>, StoreError> {
    match r {
        Err(e) => Err(e),
        Ok(None) => Ok(None),
        Ok(Some(rows)) => Ok(Some(rows@)),
    }
}

/// The rows of a whitelist; none where the snapshot was already recorded.
pub open spec fn whitelist_rows(
    snapshot: SnapshotView,
    names: Seq<Seq<char>>,
    column: &'static str,
    appended: Appended,
) -> Result<Option<WhitelistView>, StoreError> {
    if appended is Duplicate {
        Ok(None)
    } else {
        chain(
            stored_count(names.len(), column),
            |count: i64|
                chain(
                    stored_seq(appended.at()),
                    |at: i64|
                        Ok(
                            Some(
                                WhitelistView {
                                    id: snapshot.0,
                                    digest_hex: hex_text(snapshot.1),
                                    count,
                                    created_event_seq: at,
                                    entries: names,
                                },
                            ),
                        ),
                ),
        )
    }
}

fn clone_tokens(names: &Vec<SafeToken>) -> (r: Vec<SafeToken>)
    ensures
        r@ == names@,
{
    let mut out: Vec<SafeToken> = Vec::new();
    let mut i: usize = 0;
    while i < names.len()
        invariant
            i <= names@.len(),
            out@ == names@.take(i as int),
        decreases names@.len() - i,
    {
        out.push(names[i].clone());
        i = i + 1;
    }
    out
}

fn commit_whitelist(
    snapshot: &SnapshotRef,
    names: &Vec<SafeToken>,
    column: &'static str,
    appended: Appended,
) -> (r: Result<Option<WhitelistRows>, StoreError>)
    ensures
        rows_view(r) == whitelist_rows(snapshot@, texts(names@), column, appended),
{
    if appended.is_duplicate() {
        return Ok(None);
    }
    let count: i64 = count_of(names.len(), column)?;
    let at: i64 = store_seq(appended.seq())?;
    let entries = clone_tokens(names);
    Ok(
        Some(
            WhitelistRows {
                id: snapshot.id,
                digest_hex: hex32(&snapshot.digest),
                count,
                created_event_seq: at,
                entries,
            },
        ),
    )
}

/// One `model_policies` row, as inserted.
#[derive(Debug, PartialEq, Eq)]
pub struct ModelPolicyRow {
    pub model_policy_id: Id,
    pub digest_hex: String,
    pub created_event_seq: i64,
}

/// One inserted `model_policies` row on values alone.
pub type ModelPolicyView = (Id, Seq<char>, i64);

impl View for ModelPolicyRow {
    type V = ModelPolicyView;

    open spec fn view(&self) -> ModelPolicyView {
        (self.model_policy_id, self.digest_hex@, self.created_event_seq)
    }
}

/// One `worker_loadouts` row, as inserted.
#[derive(Debug, PartialEq, Eq)]
pub struct LoadoutRow {
    pub worker_loadout_id: WorkerLoadoutId,
    pub digest_hex: String,
    pub worker_kind: SafeToken,
    pub runtime_kind: SafeToken,
    pub role: SafeToken,
    pub model_policy_id: Id,
    pub model_policy_digest_hex: String,
    pub capability_profile_id: Id,
    pub capability_profile_digest_hex: String,
    pub delegation_policy_id: Id,
    pub delegation_policy_digest_hex: String,
    pub managed_config_artifact_id: Id,
    pub managed_config_digest_hex: String,
    pub managed_config_byte_len: i64,
    pub hook_contract_epoch: i64,
    pub resume_policy: &'static str,
    pub created_event_seq: i64,
}

/// One inserted `worker_loadouts` row on values alone.
#[verifier::ext_equal]
pub struct LoadoutRowView {
    pub snapshot: (Id, Seq<char>),
    pub worker_kind: Seq<char>,
    pub runtime_kind: Seq<char>,
    pub role: Seq<char>,
    pub model_policy: (Id, Seq<char>),
    pub capability_profile: (Id, Seq<char>),
    pub delegation_policy: (Id, Seq<char>),
    pub managed_config: (Id, Seq<char>, i64),
    pub hook_contract_epoch: i64,
    pub resume_policy: &'static str,
    pub created_event_seq: i64,
}

impl View for LoadoutRow {
    type V = LoadoutRowView;

    open spec fn view(&self) -> LoadoutRowView {
        LoadoutRowView {
            snapshot: (self.worker_loadout_id, self.digest_hex@),
            worker_kind: self.worker_kind@,
            runtime_kind: self.runtime_kind@,
            role: self.role@,
            model_policy: (self.model_policy_id, self.model_policy_digest_hex@),
            capability_profile: (self.capability_profile_id, self.capability_profile_digest_hex@),
            delegation_policy: (self.delegation_policy_id, self.delegation_policy_digest_hex@),
            managed_config: (
                self.managed_config_artifact_id,
                self.managed_config_digest_hex@,
                self.managed_config_byte_len,
            ),
            hook_contract_epoch: self.hook_contract_epoch,
            resume_policy: self.resume_policy,
            created_event_seq: self.created_event_seq,
        }
    }
}

/// A snapshot as two columns hold it.
pub open spec fn snapshot_columns(snapshot: SnapshotView) -> (Id, Seq<char>) {
    (snapshot.0, hex_text(snapshot.1))
}

impl ResolveWorkerLoadout {
    /// Whether an operation is what a request resolves to: whitelists with each name once and in
    /// order, and digests derived from exactly these parts.
    pub open spec fn resolves(
        self,
        request: ResolveWorkerLoadoutRequest,
        profile_model: WhitelistDigest,
        policy_model: WhitelistDigest,
        loadout_model: LoadoutDigest,
    ) -> bool {
        let profile = (
            request.capability_profile,
            profile_model(request.capability_profile, texts(self.capabilities@)),
        );
        let policy = (
            request.delegation_policy,
            policy_model(request.delegation_policy, texts(self.delegated_roles@)),
        );
        &&& texts(self.capabilities@) == dictionary(texts(request.capabilities@))
        &&& texts(self.delegated_roles@) == dictionary(texts(request.delegated_roles@))
        &&& self.spec_of@ == (LoadoutSpecView {
            id: request.loadout,
            worker_kind: request.worker_kind@,
            runtime_kind: request.runtime_kind@,
            role: request.role@,
            model_policy: request.model_policy@,
            capability_profile: profile,
            delegation_policy: policy,
            managed_config: request.managed_config@,
            hook_contract_epoch: request.hook_contract_epoch,
            resume_policy: request.resume_policy,
        })
        &&& self.digest@ == loadout_model(self.spec_of@)
    }

    /// Resolves a request. The digests are a function of the parts alone: the caller controls the
    /// identities and never a digest.
    pub fn prepare<
        P: Fn(Id, &Vec<SafeToken>) -> [u8; 32],
        D: Fn(Id, &Vec<SafeToken>) -> [u8; 32],
        L: Fn(&WorkerLoadoutSpec) -> [u8; 32],
    >(
        request: &ResolveWorkerLoadoutRequest,
        events: [EventId; 4],
        now: Timestamp,
        profile_digest: &P,
        policy_digest: &D,
        loadout_digest: &L,
    ) -> (r: ResolveWorkerLoadout)
        requires
            whitelist_total(*profile_digest),
            whitelist_total(*policy_digest),
            loadout_total(*loadout_digest),
        ensures
            r.events == events,
            r.now == now,
            forall|p: WhitelistDigest, d: WhitelistDigest, l: LoadoutDigest|
                #![trigger whitelist_is(*profile_digest, p), whitelist_is(*policy_digest, d), loadout_is(*loadout_digest, l)]
                whitelist_is(*profile_digest, p) && whitelist_is(*policy_digest, d) && loadout_is(
                    *loadout_digest,
                    l,
                ) ==> r.resolves(*request, p, d, l),
    {
        let capabilities = whitelist(&request.capabilities);
        let delegated_roles = whitelist(&request.delegated_roles);
        let profile = SnapshotRef {
            id: request.capability_profile,
            digest: profile_digest(request.capability_profile, &capabilities),
        };
        let policy = SnapshotRef {
            id: request.delegation_policy,
            digest: policy_digest(request.delegation_policy, &delegated_roles),
        };
        let spec_of = WorkerLoadoutSpec {
            id: request.loadout,
            worker_kind: request.worker_kind.clone(),
            runtime_kind: request.runtime_kind.clone(),
            role: request.role.clone(),
            model_policy: request.model_policy,
            capability_profile: profile,
            delegation_policy: policy,
            managed_config: request.managed_config,
            hook_contract_epoch: request.hook_contract_epoch,
            resume_policy: request.resume_policy,
        };
        let digest = loadout_digest(&spec_of);
        ResolveWorkerLoadout { capabilities, delegated_roles, spec_of, digest, events, now }
    }

    /// The event of a whitelist snapshot.
    pub open spec fn whitelist_event_of(
        self,
        index: int,
        kind: EventKind,
        key: &'static str,
        label: &'static str,
        snapshot: SnapshotView,
        len: nat,
        rule: spec_fn(Seq<char>) -> bool,
    ) -> Result<EventView, StoreError> {
        chain(
            snapshot_fact(snapshot.0, snapshot.1, label@, rule),
            |source: SourceView|
                chain(
                    digest_field(snapshot.1, rule),
                    |digest: Seq<char>|
                        chain(
                            stored_count(len, "entry_count"),
                            |count: i64|
                                Ok(
                                    event_of(
                                        self.events@[index],
                                        kind,
                                        source,
                                        self.now,
                                        EventScope::nothing(),
                                        seq![
                                            (
                                                key@,
                                                MetaValue::Text(canonical_text(snapshot.0.value)),
                                            ),
                                            ("digest"@, MetaValue::Text(digest)),
                                            ("entry_count"@, MetaValue::Int(count as int)),
                                        ],
                                    ),
                                ),
                        ),
                ),
        )
    }

    fn whitelist_event<S: Fn(&str) -> bool>(
        &self,
        index: usize,
        kind: EventKind,
        key: &'static str,
        label: &'static str,
        snapshot: &SnapshotRef,
        len: usize,
        safe: &S,
    ) -> (r: Result<NewEvent, StoreError>)
        requires
            rule_total(*safe),
            index < 4,
        ensures
            forall|rule: spec_fn(Seq<char>) -> bool| #[trigger]
                rule_is(*safe, rule) ==> event_view(r) == self.whitelist_event_of(
                    index as int,
                    kind,
                    key,
                    label,
                    snapshot@,
                    len as nat,
                    rule,
                ),
    {
        let source = snapshot_source(snapshot.id, &snapshot.digest, label, safe)?;
        let digest = digest_token(&snapshot.digest, safe)?;
        let count: i64 = count_of(len, "entry_count")?;
        let metadata = SafeMetadata::new().id(key, snapshot.id).token("digest", &digest).integer(
            "entry_count",
            count,
        );
        proof {
            assert(metadata@ =~= seq![
                (key@, MetaValue::Text(canonical_text(snapshot.id.value))),
                ("digest"@, MetaValue::Text(digest@)),
                ("entry_count"@, MetaValue::Int(count as int)),
            ]);
        }
        Ok(
            new_event(
                self.events[index],
                kind,
                source,
                self.now,
                EventScope::default(),
                metadata,
            ),
        )
    }

    /// The event of the capability profile.
    pub open spec fn profile_event(self, rule: spec_fn(Seq<char>) -> bool) -> Result<
        EventView,
        StoreError,
    > {
        self.whitelist_event_of(
            0,
            EventKind::CapabilityProfileRecorded,
            "capability_profile",
            "capability_profile_recorded",
            self.spec_of@.capability_profile,
            self.capabilities@.len(),
            rule,
        )
    }

    /// Builds the event of the capability profile.
    pub fn capability_profile_event<S: Fn(&str) -> bool>(&self, safe: &S) -> (r: Result<
        NewEvent,
        StoreError,
    >)
        requires
            rule_total(*safe),
        ensures
            forall|rule: spec_fn(Seq<char>) -> bool| #[trigger]
                rule_is(*safe, rule) ==> event_view(r) == self.profile_event(rule),
    {
        self.whitelist_event(
            0,
            EventKind::CapabilityProfileRecorded,
            "capability_profile",
            "capability_profile_recorded",
            &self.spec_of.capability_profile,
            self.capabilities.len(),
            safe,
        )
    }

    /// The rows of the capability profile.
    pub open spec fn profile_rows(self, appended: Appended) -> Result<Option<WhitelistView>, StoreError> {
        whitelist_rows(
            self.spec_of@.capability_profile,
            texts(self.capabilities@),
            "capability_count",
            appended,
        )
    }

    /// Builds the rows of the capability profile.
    pub fn commit_capability_profile(&self, appended: Appended) -> (r: Result<
        Option<WhitelistRows>,
        StoreError,
    >)
        ensures
            rows_view(r) == self.profile_rows(appended),
    {
        commit_whitelist(
            &self.spec_of.capability_profile,
            &self.capabilities,
            "capability_count",
            appended,
        )
    }

    /// The event of the delegation policy.
    pub open spec fn policy_event(self, rule: spec_fn(Seq<char>) -> bool) -> Result<
        EventView,
        StoreError,
    > {
        self.whitelist_event_of(
            1,
            EventKind::DelegationPolicyRecorded,
            "delegation_policy",
            "delegation_policy_recorded",
            self.spec_of@.delegation_policy,
            self.delegated_roles@.len(),
            rule,
        )
    }

    /// Builds the event of the delegation policy.
    pub fn delegation_policy_event<S: Fn(&str) -> bool>(&self, safe: &S) -> (r: Result<
        NewEvent,
        StoreError,
    >)
        requires
            rule_total(*safe),
        ensures
            forall|rule: spec_fn(Seq<char>) -> bool| #[trigger]
                rule_is(*safe, rule) ==> event_view(r) == self.policy_event(rule),
    {
        self.whitelist_event(
            1,
            EventKind::DelegationPolicyRecorded,
            "delegation_policy",
            "delegation_policy_recorded",
            &self.spec_of.delegation_policy,
            self.delegated_roles.len(),
            safe,
        )
    }

    /// The rows of the delegation policy.
    pub open spec fn policy_rows(self, appended: Appended) -> Result<Option<WhitelistView>, StoreError> {
        whitelist_rows(
            self.spec_of@.delegation_policy,
            texts(self.delegated_roles@),
            "allowed_role_count",
            appended,
        )
    }

    /// Builds the rows of the delegation policy.
    pub fn commit_delegation_policy(&self, appended: Appended) -> (r: Result<
        Option<WhitelistRows>,
        StoreError,
    >)
        ensures
            rows_view(r) == self.policy_rows(appended),
    {
        commit_whitelist(
            &self.spec_of.delegation_policy,
            &self.delegated_roles,
            "allowed_role_count",
            appended,
        )
    }

    /// The event of the model policy.
    pub open spec fn model_event(self, rule: spec_fn(Seq<char>) -> bool) -> Result<
        EventView,
        StoreError,
    > {
        let snapshot = self.spec_of@.model_policy;
        chain(
            snapshot_fact(snapshot.0, snapshot.1, "model_policy_recorded"@, rule),
            |source: SourceView|
                chain(
                    digest_field(snapshot.1, rule),
                    |digest: Seq<char>|
                        Ok(
                            event_of(
                                self.events@[2],
                                EventKind::ModelPolicyRecorded,
                                source,
                                self.now,
                                EventScope::nothing(),
                                seq![
                                    (
                                        "model_policy"@,
                                        MetaValue::Text(canonical_text(snapshot.0.value)),
                                    ),
                                    ("digest"@, MetaValue::Text(digest)),
                                ],
                            ),
                        ),
                ),
        )
    }

    /// Builds the event of the model policy.
    pub fn model_policy_event<S: Fn(&str) -> bool>(&self, safe: &S) -> (r: Result<NewEvent, StoreError>)
        requires
            rule_total(*safe),
        ensures
            forall|rule: spec_fn(Seq<char>) -> bool| #[trigger]
                rule_is(*safe, rule) ==> event_view(r) == self.model_event(rule),
    {
        let policy = &self.spec_of.model_policy;
        let source = snapshot_source(policy.id, &policy.digest, "model_policy_recorded", safe)?;
        let digest = digest_token(&policy.digest, safe)?;
        let metadata = SafeMetadata::new().id("model_policy", policy.id).token("digest", &digest);
        proof {
            assert(metadata@ =~= seq![
                ("model_policy"@, MetaValue::Text(canonical_text(policy.id.value))),
                ("digest"@, MetaValue::Text(digest@)),
            ]);
        }
        Ok(
            new_event(
                self.events[2],
                EventKind::ModelPolicyRecorded,
                source,
                self.now,
                EventScope::default(),
                metadata,
            ),
        )
    }

    /// The row of the model policy; none where the snapshot was already recorded.
    pub open spec fn model_row(self, appended: Appended) -> Result<Option<ModelPolicyView>, StoreError> {
        let snapshot = self.spec_of@.model_policy;
        if appended is Duplicate {
            Ok(None)
        } else {
            chain(
                stored_seq(appended.at()),
                |at: i64| Ok(Some((snapshot.0, hex_text(snapshot.1), at))),
            )
        }
    }

    /// Builds the row of the model policy.
    pub fn commit_model_policy(&self, appended: Appended) -> (r: Result<
        Option<ModelPolicyRow>,
        StoreError,
    >)
        ensures
            rows_view(r) == self.model_row(appended),
    {
        if appended.is_duplicate() {
            return Ok(None);
        }
        let at: i64 = store_seq(appended.seq())?;
        Ok(
            Some(
                ModelPolicyRow {
                    model_policy_id: self.spec_of.model_policy.id,
                    digest_hex: hex32(&self.spec_of.model_policy.digest),
                    created_event_seq: at,
                },
            ),
        )
    }

    /// The event of the loadout: identities and the digest, and no other copy of its contents.
    pub open spec fn resolved_event(self, rule: spec_fn(Seq<char>) -> bool) -> Result<
        EventView,
        StoreError,
    > {
        let parts = self.spec_of@;
        chain(
            snapshot_fact(parts.id, self.digest@, "worker_loadout_resolved"@, rule),
            |source: SourceView|
                chain(
                    digest_field(self.digest@, rule),
                    |digest: Seq<char>|
                        Ok(
                            event_of(
                                self.events@[3],
                                EventKind::WorkerLoadoutResolved,
                                source,
                                self.now,
                                EventScope::nothing(),
                                seq![
                                    ("loadout_id"@, MetaValue::Text(canonical_text(parts.id.value))),
                                    ("digest"@, MetaValue::Text(digest)),
                                    (
                                        "capability_profile"@,
                                        MetaValue::Text(
                                            canonical_text(parts.capability_profile.0.value),
                                        ),
                                    ),
                                    (
                                        "delegation_policy"@,
                                        MetaValue::Text(
                                            canonical_text(parts.delegation_policy.0.value),
                                        ),
                                    ),
                                    (
                                        "model_policy"@,
                                        MetaValue::Text(canonical_text(parts.model_policy.0.value)),
                                    ),
                                    (
                                        "managed_config"@,
                                        MetaValue::Text(
                                            canonical_text(parts.managed_config.0.value),
                                        ),
                                    ),
                                ],
                            ),
                        ),
                ),
        )
    }

    /// Builds the event of the loadout.
    pub fn loadout_event<S: Fn(&str) -> bool>(&self, safe: &S) -> (r: Result<NewEvent, StoreError>)
        requires
            rule_total(*safe),
        ensures
            forall|rule: spec_fn(Seq<char>) -> bool| #[trigger]
                rule_is(*safe, rule) ==> event_view(r) == self.resolved_event(rule),
    {
        let parts = &self.spec_of;
        let source = snapshot_source(parts.id, &self.digest, "worker_loadout_resolved", safe)?;
        let digest = digest_token(&self.digest, safe)?;
        let metadata = SafeMetadata::new().id("loadout_id", parts.id).token("digest", &digest).id(
            "capability_profile",
            parts.capability_profile.id,
        ).id("delegation_policy", parts.delegation_policy.id).id(
            "model_policy",
            parts.model_policy.id,
        ).id("managed_config", parts.managed_config.id);
        proof {
            assert(metadata@ =~= seq![
                ("loadout_id"@, MetaValue::Text(canonical_text(parts.id.value))),
                ("digest"@, MetaValue::Text(digest@)),
                (
                    "capability_profile"@,
                    MetaValue::Text(canonical_text(parts.capability_profile.id.value)),
                ),
                (
                    "delegation_policy"@,
                    MetaValue::Text(canonical_text(parts.delegation_policy.id.value)),
                ),
                ("model_policy"@, MetaValue::Text(canonical_text(parts.model_policy.id.value))),
                ("managed_config"@, MetaValue::Text(canonical_text(parts.managed_config.id.value))),
            ]);
        }
        Ok(
            new_event(
                self.events[3],
                EventKind::WorkerLoadoutResolved,
                source,
                self.now,
                EventScope::default(),
                metadata,
            ),
        )
    }

    /// The row of the loadout; none where the snapshot was already recorded.
    pub open spec fn loadout_row(self, appended: Appended) -> Result<Option<LoadoutRowView>, StoreError> {
        let t = "worker_loadouts";
        let parts = self.spec_of@;
        if appended is Duplicate {
            Ok(None)
        } else {
            chain(
                stored_u64(parts.managed_config.2, t, "managed_config_byte_len"),
                |byte_len: i64|
                    chain(
                        stored_u64(parts.hook_contract_epoch, t, "hook_contract_epoch"),
                        |epoch: i64|
                            chain(
                                stored_seq(appended.at()),
                                |at: i64|
                                    Ok(
                                        Some(
                                            LoadoutRowView {
                                                snapshot: (parts.id, hex_text(self.digest@)),
                                                worker_kind: parts.worker_kind,
                                                runtime_kind: parts.runtime_kind,
                                                role: parts.role,
                                                model_policy: snapshot_columns(parts.model_policy),
                                                capability_profile: snapshot_columns(
                                                    parts.capability_profile,
                                                ),
                                                delegation_policy: snapshot_columns(
                                                    parts.delegation_policy,
                                                ),
                                                managed_config: (
                                                    parts.managed_config.0,
                                                    hex_text(parts.managed_config.1),
                                                    byte_len,
                                                ),
                                                hook_contract_epoch: epoch,
                                                resume_policy: parts.resume_policy.label,
                                                created_event_seq: at,
                                            },
                                        ),
                                    ),
                            ),
                    ),
            )
        }
    }

    /// Builds the row of the loadout.
    pub fn commit_loadout(&self, appended: Appended) -> (r: Result<Option<LoadoutRow>, StoreError>)
        ensures
            rows_view(r) == self.loadout_row(appended),
    {
        let t = "worker_loadouts";
        if appended.is_duplicate() {
            return Ok(None);
        }
        let parts = &self.spec_of;
        let byte_len: i64 = store_u64(parts.managed_config.byte_len, t, "managed_config_byte_len")?;
        let epoch: i64 = store_u64(parts.hook_contract_epoch, t, "hook_contract_epoch")?;
        let at: i64 = store_seq(appended.seq())?;
        Ok(
            Some(
                LoadoutRow {
                    worker_loadout_id: parts.id,
                    digest_hex: hex32(&self.digest),
                    worker_kind: parts.worker_kind.clone(),
                    runtime_kind: parts.runtime_kind.clone(),
                    role: parts.role.clone(),
                    model_policy_id: parts.model_policy.id,
                    model_policy_digest_hex: hex32(&parts.model_policy.digest),
                    capability_profile_id: parts.capability_profile.id,
                    capability_profile_digest_hex: hex32(&parts.capability_profile.digest),
                    delegation_policy_id: parts.delegation_policy.id,
                    delegation_policy_digest_hex: hex32(&parts.delegation_policy.digest),
                    managed_config_artifact_id: parts.managed_config.id,
                    managed_config_digest_hex: hex32(&parts.managed_config.digest),
                    managed_config_byte_len: byte_len,
                    hook_contract_epoch: epoch,
                    resume_policy: parts.resume_policy.label,
                    created_event_seq: at,
                },
            ),
        )
    }

    /// Whether an answer is about the loadout, as new or as known already.
    pub open spec fn answers(self, answer: ResolvedLoadout, appended: Appended) -> bool {
        &&& answer.loadout == self.spec_of.id
        &&& answer.digest@ == self.digest@
        &&& answer.duplicate == (appended is Duplicate)
    }

    /// What the caller is told, the loadout event having been appended.
    pub fn output(&self, appended: Appended) -> (r: ResolvedLoadout)
        ensures
            self.answers(r, appended),
    {
        ResolvedLoadout {
            loadout: self.spec_of.id,
            digest: self.digest,
            duplicate: appended.is_duplicate(),
        }
    }
}

// --- In-transaction guards -----------------------------------------------------------------------------

/// Whether a turn, whose session the store derived itself, is one of a session's. An unknown turn is
/// answered like somebody else's, so that probing turn identities reveals nothing.
pub open spec fn turn_ownership(
    owner: Option<Seq<char>>,
    session: SessionId,
    turn: TurnId,
) -> Result<(), StoreError> {
    let refused = StoreError::Conflict(
        Conflict::ParentTurnNotOwnedByParentSession { session, turn },
    );
    match owner {
        None => Err(refused),
        Some(text) => chain(
            id_column(text, "session_incarnations", "session_id"),
            |id: Id| if id == session {
                Ok(())
            } else {
                Err(refused)
            },
        ),
    }
}

/// Proves that a parent turn belongs to the parent session; `owner` is the session of the turn's
/// incarnation, if the turn exists.
pub fn require_parent_turn_ownership(owner: &Option<String>, session: SessionId, turn: TurnId) -> (r: Result<
    (),
    StoreError,
>)
    ensures
        r == turn_ownership(crate::store::codec::text_view(*owner), session, turn),
{
    match owner {
        None => Err(
            StoreError::Conflict(Conflict::ParentTurnNotOwnedByParentSession { session, turn }),
        ),
        Some(text) => {
            let id = parse_id(text.as_str(), "session_incarnations", "session_id")?;
            if id.value == session.value {
                Ok(())
            } else {
                Err(
                    StoreError::Conflict(
                        Conflict::ParentTurnNotOwnedByParentSession { session, turn },
                    ),
                )
            }
        },
    }
}

/// What the lineage guard answers to a walk. A walk that stopped at the bound did not finish
/// looking, and is refused as too deep.
pub open spec fn lineage_guard(parent: SessionId, child: SessionId, answer: Ancestry) -> Result<
    (),
    StoreError,
> {
    if answer.meets_child {
        Err(StoreError::Conflict(Conflict::SessionLineageCycle { parent, child }))
    } else if answer.depth >= MAX_LINEAGE_DEPTH {
        Err(
            StoreError::Conflict(
                Conflict::SessionLineageTooDeep { depth: answer.depth, bound: MAX_LINEAGE_DEPTH },
            ),
        )
    } else {
        Ok(())
    }
}

/// Refuses an edge that would close a lineage cycle, at any hop count: the parent's whole ancestor
/// chain is walked, itself first.
pub fn require_no_lineage_cycle(edges: &Vec<ParentOf>, parent: SessionId, child: SessionId) -> (r: Result<
    (),
    StoreError,
>)
    ensures
        exists|answer: Ancestry| #[trigger]
            walks(edges@, parent, child, MAX_LINEAGE_DEPTH, answer) && r == lineage_guard(
                parent,
                child,
                answer,
            ),
{
    let answer = walk_ancestry(edges, parent, child, MAX_LINEAGE_DEPTH);
    if answer.meets_child {
        return Err(StoreError::Conflict(Conflict::SessionLineageCycle { parent, child }));
    }
    if answer.depth >= MAX_LINEAGE_DEPTH {
        return Err(
            StoreError::Conflict(
                Conflict::SessionLineageTooDeep { depth: answer.depth, bound: MAX_LINEAGE_DEPTH },
            ),
        );
    }
    Ok(())
}

/// Whether an incarnation is one of a session's.
pub open spec fn incarnation_ownership(
    owner: Option<Seq<char>>,
    session: SessionId,
    incarnation: SessionIncarnationId,
) -> Result<(), StoreError> {
    let t = "session_incarnations";
    match owner {
        None => Err(corrupt(t, "session_incarnation_id", CorruptReason::DanglingReference)),
        Some(text) => chain(
            id_column(text, t, "session_id"),
            |id: Id| if id == session {
                Ok(())
            } else {
                Err(StoreError::Conflict(Conflict::NoSessionLoadout { incarnation }))
            },
        ),
    }
}

/// Proves that an incarnation is one of the presented session's; `owner` is the session its row
/// names.
pub fn require_incarnation_ownership(
    owner: &Option<String>,
    session: SessionId,
    incarnation: SessionIncarnationId,
) -> (r: Result<(), StoreError>)
    ensures
        r == incarnation_ownership(crate::store::codec::text_view(*owner), session, incarnation),
{
    let t = "session_incarnations";
    match owner {
        None => Err(corrupt_row(t, "session_incarnation_id", CorruptReason::DanglingReference)),
        Some(text) => {
            let id = parse_id(text.as_str(), t, "session_id")?;
            if id.value == session.value {
                Ok(())
            } else {
                Err(StoreError::Conflict(Conflict::NoSessionLoadout { incarnation }))
            }
        },
    }
}

/// One `session_loadouts` row, as read.
#[derive(Debug, PartialEq, Eq)]
pub struct BindingRow {
    pub worker_loadout_id: String,
    pub digest_hex: String,
}

/// The snapshot a binding row names.
pub open spec fn bound_of(row: BindingRow) -> Result<SnapshotView, StoreError> {
    let t = "session_loadouts";
    chain(
        id_column(row.worker_loadout_id@, t, "worker_loadout_id"),
        |id: Id|
            chain(
                hex32_column(row.digest_hex@, t, "digest_hex"),
                |digest: Seq<u8>| Ok((id, digest)),
            ),
    )
}

/// The loadout snapshot one incarnation is bound to, if any.
pub open spec fn binding_of(row: Option<BindingRow>) -> Result<Option<SnapshotView>, StoreError> {
    match row {
        None => Ok(None),
        Some(found) => chain(bound_of(found), |snapshot: SnapshotView| Ok(Some(snapshot))),
    }
}

/// Reads the loadout snapshot one incarnation is bound to, if any.
pub fn read_binding(row: &Option<BindingRow>) -> (r: Result<Option<WorkerLoadoutFence>, StoreError>)
    ensures
        rows_view(r) == binding_of(*row),
{
    let t = "session_loadouts";
    match row {
        None => Ok(None),
        Some(found) => {
            let id = parse_id(found.worker_loadout_id.as_str(), t, "worker_loadout_id")?;
            let digest = parse_hex32(found.digest_hex.as_str(), t, "digest_hex")?;
            Ok(Some(SnapshotRef { id, digest }))
        },
    }
}

// --- Binding a loadout to one session incarnation --------------------------------------------------------

/// The launch snapshot one session incarnation runs under.
#[derive(Debug, Clone, Copy, PartialEq, Eq)]
pub struct BindSessionLoadoutRequest {
    /// Logical session being launched.
    pub session: SessionId,
    /// The incarnation this binding is for. One loadout per incarnation.
    pub incarnation: SessionIncarnationId,
    /// Exact identity and digest of the resolved loadout.
    pub loadout: WorkerLoadoutFence,
}

/// What a binding committed.
#[derive(Debug, Clone, Copy, PartialEq, Eq)]
pub struct BoundSessionLoadout {
    /// The bound session.
    pub session: SessionId,
    /// The bound incarnation.
    pub incarnation: SessionIncarnationId,
    /// The launch snapshot every later resume is fenced against.
    pub loadout: WorkerLoadoutFence,
    /// Whether the identical binding was already recorded.
    pub duplicate: bool,
}

/// Binds one incarnation to one immutable loadout snapshot, forever.
#[derive(Debug, PartialEq, Eq)]
pub struct BindSessionLoadout {
    pub request: BindSessionLoadoutRequest,
    pub event: EventId,
    pub now: Timestamp,
}

/// One `session_loadouts` row, as inserted.
#[derive(Debug, PartialEq, Eq)]
pub struct SessionLoadoutRow {
    pub session_id: SessionId,
    pub session_incarnation_id: SessionIncarnationId,
    pub worker_loadout_id: WorkerLoadoutId,
    pub digest_hex: String,
    pub bound_event_seq: i64,
}

/// One inserted `session_loadouts` row on values alone.
pub type SessionLoadoutView = (SessionId, SessionIncarnationId, WorkerLoadoutId, Seq<char>, i64);

impl View for SessionLoadoutRow {
    type V = SessionLoadoutView;

    open spec fn view(&self) -> SessionLoadoutView {
        (
            self.session_id,
            self.session_incarnation_id,
            self.worker_loadout_id,
            self.digest_hex@,
            self.bound_event_seq,
        )
    }
}

impl BindSessionLoadout {
    /// Whether there is something to bind: the incarnation is the session's, the snapshot is
    /// recorded, and the incarnation is not bound. Bound to the same snapshot is convergence; bound
    /// to another is refused, for a new revision needs a new incarnation.
    pub open spec fn admitted(
        self,
        owner: Option<Seq<char>>,
        snapshot_recorded: bool,
        existing: Option<BindingRow>,
    ) -> Result<bool, StoreError> {
        chain(
            incarnation_ownership(owner, self.request.session, self.request.incarnation),
            |_owned: ()|
                if !snapshot_recorded {
                    Err(
                        StoreError::Conflict(
                            Conflict::LoadoutDigestMismatch { loadout: self.request.loadout.id },
                        ),
                    )
                } else {
                    chain(
                        binding_of(existing),
                        |bound: Option<SnapshotView>|
                            match bound {
                                None => Ok(true),
                                Some(snapshot) => if snapshot == self.request.loadout@ {
                                    Ok(false)
                                } else {
                                    Err(
                                        StoreError::Conflict(
                                            Conflict::SessionIncarnationAlreadyBound {
                                                incarnation: self.request.incarnation,
                                            },
                                        ),
                                    )
                                },
                            },
                    )
                },
        )
    }

    /// Decides whether there is something to bind. `snapshot_recorded` is whether a loadout row has
    /// exactly this identity and digest.
    pub fn examine(&self, owner: &Option<String>, snapshot_recorded: bool, existing: &Option<BindingRow>) -> (r: Result<
        bool,
        StoreError,
    >)
        ensures
            r == self.admitted(crate::store::codec::text_view(*owner), snapshot_recorded, *existing),
    {
        require_incarnation_ownership(owner, self.request.session, self.request.incarnation)?;
        if !snapshot_recorded {
            return Err(
                StoreError::Conflict(
                    Conflict::LoadoutDigestMismatch { loadout: self.request.loadout.id },
                ),
            );
        }
        match read_binding(existing)? {
            None => Ok(true),
            Some(bound) => if bound.same_as(&self.request.loadout) {
                Ok(false)
            } else {
                Err(
                    StoreError::Conflict(
                        Conflict::SessionIncarnationAlreadyBound {
                            incarnation: self.request.incarnation,
                        },
                    ),
                )
            },
        }
    }

    /// The event of the binding.
    pub open spec fn bound_event(self, rule: spec_fn(Seq<char>) -> bool) -> Result<EventView, StoreError> {
        chain(
            internal_fact(
                canonical_text(self.request.incarnation.value),
                "session_loadout_bound"@,
                rule,
            ),
            |source: SourceView|
                chain(
                    digest_field(self.request.loadout@.1, rule),
                    |digest: Seq<char>|
                        Ok(
                            event_of(
                                self.event,
                                EventKind::SessionLoadoutBound,
                                source,
                                self.now,
                                EventScope {
                                    session: Some(self.request.session),
                                    incarnation: Some(self.request.incarnation),
                                    ..EventScope::nothing()
                                },
                                seq![
                                    (
                                        "loadout_id"@,
                                        MetaValue::Text(
                                            canonical_text(self.request.loadout.id.value),
                                        ),
                                    ),
                                    ("digest"@, MetaValue::Text(digest)),
                                ],
                            ),
                        ),
                ),
        )
    }

    /// Builds the event of the binding.
    pub fn event<S: Fn(&str) -> bool>(&self, safe: &S) -> (r: Result<NewEvent, StoreError>)
        requires
            rule_total(*safe),
        ensures
            forall|rule: spec_fn(Seq<char>) -> bool| #[trigger]
                rule_is(*safe, rule) ==> event_view(r) == self.bound_event(rule),
    {
        let source = internal_source(self.request.incarnation, "session_loadout_bound", safe)?;
        let digest = digest_token(&self.request.loadout.digest, safe)?;
        let metadata = SafeMetadata::new().id("loadout_id", self.request.loadout.id).token(
            "digest",
            &digest,
        );
        proof {
            assert(metadata@ =~= seq![
                ("loadout_id"@, MetaValue::Text(canonical_text(self.request.loadout.id.value))),
                ("digest"@, MetaValue::Text(digest@)),
            ]);
        }
        let scope = EventScope {
            project: None,
            task: None,
            session: Some(self.request.session),
            incarnation: Some(self.request.incarnation),
            turn: None,
            obligation: None,
        };
        Ok(
            new_event(
                self.event,
                EventKind::SessionLoadoutBound,
                source,
                self.now,
                scope,
                metadata,
            ),
        )
    }

    /// The row of the binding; none for a duplicate.
    pub open spec fn bound_row(self, appended: Appended) -> Result<Option<SessionLoadoutView>, StoreError> {
        if appended is Duplicate {
            Ok(None)
        } else {
            chain(
                stored_seq(appended.at()),
                |at: i64|
                    Ok(
                        Some(
                            (
                                self.request.session,
                                self.request.incarnation,
                                self.request.loadout.id,
                                hex_text(self.request.loadout@.1),
                                at,
                            ),
                        ),
                    ),
            )
        }
    }

    /// Builds the row of the binding.
    pub fn commit(&self, appended: Appended) -> (r: Result<Option<SessionLoadoutRow>, StoreError>)
        ensures
            rows_view(r) == self.bound_row(appended),
    {
        if appended.is_duplicate() {
            return Ok(None);
        }
        let at: i64 = store_seq(appended.seq())?;
        Ok(
            Some(
                SessionLoadoutRow {
                    session_id: self.request.session,
                    session_incarnation_id: self.request.incarnation,
                    worker_loadout_id: self.request.loadout.id,
                    digest_hex: hex32(&self.request.loadout.digest),
                    bound_event_seq: at,
                },
            ),
        )
    }

    /// Whether an answer is about the binding, as new or as a repeat.
    pub open spec fn answers(self, answer: BoundSessionLoadout, duplicate: bool) -> bool {
        &&& answer.session == self.request.session
        &&& answer.incarnation == self.request.incarnation
        &&& answer.loadout@ == self.request.loadout@
        &&& answer.duplicate == duplicate
    }

    /// What the caller is told.
    pub fn output(&self, duplicate: bool) -> (r: BoundSessionLoadout)
        ensures
            self.answers(r, duplicate),
    {
        BoundSessionLoadout {
            session: self.request.session,
            incarnation: self.request.incarnation,
            loadout: self.request.loadout,
            duplicate,
        }
    }
}

// --- Durable session lineage -----------------------------------------------------------------------------

/// One delegation or fork, as durable provenance.
#[derive(Debug, Clone, Copy, PartialEq, Eq)]
pub struct RecordSessionLineageRequest {
    /// Logical parent session.
    pub parent_session: SessionId,
    /// Logical child session.
    pub child_session: SessionId,
    /// The parent turn that created the delegation or fork. Never trusted: the store derives the
    /// session that owns it.
    pub parent_turn: TurnId,
    /// Semantic child relationship.
    pub relation: SessionRelation,
}

/// What a lineage record committed.
#[derive(Debug, Clone, Copy, PartialEq, Eq)]
pub struct RecordedLineage {
    /// The durable edge.
    pub edge: SessionEdge,
    /// Whether the identical edge was already recorded.
    pub duplicate: bool,
}

/// Records one parent and child edge, cycle-free and ownership-proved.
#[derive(Debug, PartialEq, Eq)]
pub struct RecordSessionLineage {
    pub request: RecordSessionLineageRequest,
    pub event: EventId,
    pub now: Timestamp,
}

/// One `session_edges` row, as inserted.
#[derive(Debug, Clone, Copy, PartialEq, Eq)]
pub struct EdgeRow {
    pub parent_session_id: SessionId,
    pub child_session_id: SessionId,
    pub parent_turn_id: TurnId,
    pub relation_kind: &'static str,
    pub created_event_seq: i64,
}

/// One `session_edges` row, as read.
#[derive(Debug, Clone, PartialEq, Eq)]
pub struct StoredEdge {
    pub parent_session_id: String,
    pub child_session_id: String,
    pub parent_turn_id: String,
    pub relation_kind: String,
}

/// A reader of relation labels can be asked about every text.
pub open spec fn relations_total<R: Fn(&str) -> Option<SessionRelation>>(relations: R) -> bool {
    forall|text: &str| call_requires(relations, (text,))
}

/// A reader of relation labels answers as a model does.
pub open spec fn relations_are<R: Fn(&str) -> Option<SessionRelation>>(
    relations: R,
    model: spec_fn(Seq<char>) -> Option<SessionRelation>,
) -> bool {
    forall|text: &str, r: Option<SessionRelation>| #[trigger]
        call_ensures(relations, (text,), r) ==> r == model(text@)
}

/// Whether two edges are one.
pub open spec fn same_edge(a: SessionEdge, b: SessionEdge) -> bool {
    &&& a.parent_session == b.parent_session
    &&& a.child_session == b.child_session
    &&& a.parent_turn == b.parent_turn
    &&& a.relation.label@ == b.relation.label@
}

/// The edge a row records.
pub open spec fn edge_of(
    row: Option<StoredEdge>,
    model: spec_fn(Seq<char>) -> Option<SessionRelation>,
) -> Result<SessionEdge, StoreError> {
    let t = "session_edges";
    chain(
        present(row, corrupt(t, "child_session_id", CorruptReason::DanglingReference)),
        |row: StoredEdge|
            chain(
                id_column(row.parent_session_id@, t, "parent_session_id"),
                |parent_session: Id|
                    chain(
                        id_column(row.child_session_id@, t, "child_session_id"),
                        |child_session: Id|
                            chain(
                                id_column(row.parent_turn_id@, t, "parent_turn_id"),
                                |parent_turn: Id|
                                    chain(
                                        present(
                                            model(row.relation_kind@),
                                            corrupt(t, "relation_kind", CorruptReason::UnknownLabel),
                                        ),
                                        |relation: SessionRelation|
                                            Ok(
                                                SessionEdge {
                                                    parent_session,
                                                    child_session,
                                                    parent_turn,
                                                    relation,
                                                },
                                            ),
                                    ),
                            ),
                    ),
            ),
    )
}

fn read_edge<R: Fn(&str) -> Option<SessionRelation>>(row: &Option<StoredEdge>, relations: &R) -> (r:
    Result<SessionEdge, StoreError>)
    requires
        relations_total(*relations),
    ensures
        forall|model: spec_fn(Seq<char>) -> Option<SessionRelation>| #[trigger]
            relations_are(*relations, model) ==> r == edge_of(*row, model),
{
    let t = "session_edges";
    let row = match row {
        Some(row) => row,
        None => return Err(corrupt_row(t, "child_session_id", CorruptReason::DanglingReference)),
    };
    let parent_session = parse_id(row.parent_session_id.as_str(), t, "parent_session_id")?;
    let child_session = parse_id(row.child_session_id.as_str(), t, "child_session_id")?;
    let parent_turn = parse_id(row.parent_turn_id.as_str(), t, "parent_turn_id")?;
    match relations(row.relation_kind.as_str()) {
        Some(relation) => Ok(SessionEdge { parent_session, child_session, parent_turn, relation }),
        None => Err(corrupt_row(t, "relation_kind", CorruptReason::UnknownLabel)),
    }
}

/// The row of an edge that is recorded at an event.
pub open spec fn edge_row(edge: SessionEdge, seq: EventSeq) -> Result<EdgeRow, StoreError> {
    chain(
        stored_seq(seq),
        |at: i64|
            Ok(
                EdgeRow {
                    parent_session_id: edge.parent_session,
                    child_session_id: edge.child_session,
                    parent_turn_id: edge.parent_turn,
                    relation_kind: edge.relation.label,
                    created_event_seq: at,
                },
            ),
    )
}

impl RecordSessionLineage {
    /// The edge, once its turn is proved to be the parent's and a walk of the parent's ancestors
    /// found no cycle. Ownership comes first: a caller that presented somebody else's turn asks
    /// about a relationship that does not exist.
    pub open spec fn admitted(self, owner: Option<Seq<char>>, answer: Ancestry) -> Result<
        SessionEdge,
        StoreError,
    > {
        chain(
            turn_ownership(owner, self.request.parent_session, self.request.parent_turn),
            |_owned: ()|
                chain(
                    lineage_guard(self.request.parent_session, self.request.child_session, answer),
                    |_acyclic: ()|
                        if self.request.parent_session == self.request.child_session {
                            Err(
                                StoreError::Conflict(
                                    Conflict::SessionLineageCycle {
                                        parent: self.request.parent_session,
                                        child: self.request.child_session,
                                    },
                                ),
                            )
                        } else {
                            Ok(
                                SessionEdge {
                                    parent_session: self.request.parent_session,
                                    child_session: self.request.child_session,
                                    parent_turn: self.request.parent_turn,
                                    relation: self.request.relation,
                                },
                            )
                        },
                ),
        )
    }

    /// Proves the edge against the recorded lineage.
    pub fn examine(&self, owner: &Option<String>, edges: &Vec<ParentOf>) -> (r: Result<
        SessionEdge,
        StoreError,
    >)
        ensures
            exists|answer: Ancestry| #[trigger]
                walks(
                    edges@,
                    self.request.parent_session,
                    self.request.child_session,
                    MAX_LINEAGE_DEPTH,
                    answer,
                ) && r == self.admitted(crate::store::codec::text_view(*owner), answer),
    {
        proof {
            self.some_walk(edges@);
        }
        require_parent_turn_ownership(owner, self.request.parent_session, self.request.parent_turn)?;
        require_no_lineage_cycle(edges, self.request.parent_session, self.request.child_session)?;
        match SessionEdge::new(
            self.request.parent_session,
            self.request.child_session,
            self.request.parent_turn,
            self.request.relation,
        ) {
            Some(edge) => Ok(edge),
            None => Err(
                StoreError::Conflict(
                    Conflict::SessionLineageCycle {
                        parent: self.request.parent_session,
                        child: self.request.child_session,
                    },
                ),
            ),
        }
    }

    /// The event of the edge. Its session scope is the child, whose provenance it establishes.
    pub open spec fn lineage_event(self, rule: spec_fn(Seq<char>) -> bool) -> Result<
        EventView,
        StoreError,
    > {
        chain(
            internal_fact(
                canonical_text(self.request.child_session.value),
                "session_lineage_recorded"@,
                rule,
            ),
            |source: SourceView|
                Ok(
                    event_of(
                        self.event,
                        EventKind::SessionLineageRecorded,
                        source,
                        self.now,
                        EventScope {
                            session: Some(self.request.child_session),
                            ..EventScope::nothing()
                        },
                        seq![
                            (
                                "parent_session"@,
                                MetaValue::Text(canonical_text(self.request.parent_session.value)),
                            ),
                            (
                                "parent_turn"@,
                                MetaValue::Text(canonical_text(self.request.parent_turn.value)),
                            ),
                            ("relation"@, MetaValue::Text(self.request.relation.label@)),
                        ],
                    ),
                ),
        )
    }

    /// Builds the event of the edge.
    pub fn event<S: Fn(&str) -> bool>(&self, safe: &S) -> (r: Result<NewEvent, StoreError>)
        requires
            rule_total(*safe),
        ensures
            forall|rule: spec_fn(Seq<char>) -> bool| #[trigger]
                rule_is(*safe, rule) ==> event_view(r) == self.lineage_event(rule),
    {
        let source = internal_source(
            self.request.child_session,
            "session_lineage_recorded",
            safe,
        )?;
        let metadata = SafeMetadata::new().id("parent_session", self.request.parent_session).id(
            "parent_turn",
            self.request.parent_turn,
        ).label("relation", self.request.relation.label);
        proof {
            assert(metadata@ =~= seq![
                (
                    "parent_session"@,
                    MetaValue::Text(canonical_text(self.request.parent_session.value)),
                ),
                ("parent_turn"@, MetaValue::Text(canonical_text(self.request.parent_turn.value))),
                ("relation"@, MetaValue::Text(self.request.relation.label@)),
            ]);
        }
        let scope = EventScope {
            project: None,
            task: None,
            session: Some(self.request.child_session),
            incarnation: None,
            turn: None,
            obligation: None,
        };
        Ok(
            new_event(
                self.event,
                EventKind::SessionLineageRecorded,
                source,
                self.now,
                scope,
                metadata,
            ),
        )
    }

    /// Builds the row of the edge. Where the child has a recorded edge already, nothing is written
    /// and the recorded one is reported; it is a duplicate only where it is the same edge.
    pub fn commit<R: Fn(&str) -> Option<SessionRelation>>(
        &self,
        edge: SessionEdge,
        appended: Appended,
        recorded: &Option<StoredEdge>,
        relations: &R,
    ) -> (r: Result<Committed<EdgeRow, RecordedLineage>, StoreError>)
        requires
            relations_total(*relations),
        ensures
            appended is Duplicate ==> forall|model: spec_fn(Seq<char>) -> Option<SessionRelation>|
                #[trigger]
                relations_are(*relations, model) ==> (match r {
                    Err(e) => edge_of(*recorded, model) == Err::<SessionEdge, StoreError>(e),
                    Ok(done) => {
                        &&& done.rows is None
                        &&& edge_of(*recorded, model) == Ok::<SessionEdge, StoreError>(
                            done.output.edge,
                        )
                        &&& done.output.duplicate == same_edge(done.output.edge, edge)
                    },
                }),
            !(appended is Duplicate) ==> (match r {
                Err(e) => edge_row(edge, appended.at()) == Err::<EdgeRow, StoreError>(e),
                Ok(done) => {
                    &&& done.output == (RecordedLineage { edge, duplicate: false })
                    &&& done.rows matches Some(row) && edge_row(edge, appended.at()) == Ok::<
                        EdgeRow,
                        StoreError,
                    >(row)
                },
            }),
    {
        if appended.is_duplicate() {
            let durable = read_edge(recorded, relations)?;
            let duplicate = durable.parent_session == edge.parent_session && durable.child_session
                == edge.child_session && durable.parent_turn == edge.parent_turn && same(
                durable.relation.label,
                edge.relation.label,
            );
            return Ok(Committed { rows: None, output: RecordedLineage { edge: durable, duplicate } });
        }
        let at: i64 = store_seq(appended.seq())?;
        Ok(
            Committed {
                rows: Some(
                    EdgeRow {
                        parent_session_id: edge.parent_session,
                        child_session_id: edge.child_session,
                        parent_turn_id: edge.parent_turn,
                        relation_kind: edge.relation.label,
                        created_event_seq: at,
                    },
                ),
                output: RecordedLineage { edge, duplicate: false },
            },
        )
    }

    /// Every lineage has a walk.
    proof fn some_walk(self, edges: Seq<ParentOf>)
        ensures
            exists|answer: Ancestry| #[trigger]
                walks(
                    edges,
                    self.request.parent_session,
                    self.request.child_session,
                    MAX_LINEAGE_DEPTH,
                    answer,
                ),
    {
        crate::domain::session::a_walk_exists(
            edges,
            self.request.parent_session,
            self.request.child_session,
            MAX_LINEAGE_DEPTH,
        );
    }
}

// --- Spawn authorization ---------------------------------------------------------------------------------

/// A worker process the daemon is about to create or resume.
///
/// The two verified fields carry what was proved outside any transaction: the persisted loadout row
/// re-derived to its digest, and the configuration's bytes read back and hashed again. The operation
/// refuses on any difference from what is recorded.
#[derive(Debug, PartialEq, Eq)]
pub struct AuthorizeWorkerSpawnRequest {
    /// Logical session being launched or resumed.
    pub session: SessionId,
    /// Incarnation whose bound loadout was verified.
    pub incarnation: SessionIncarnationId,
    /// The loadout fence the caller proved again from the persisted row.
    pub verified_loadout: WorkerLoadoutFence,
    /// The configuration reference the caller proved again from the bytes.
    pub verified_config: ManagedConfigRef,
    /// Opaque destination the spawn targets.
    pub destination: DestinationRef,
    /// The source fact that justifies the spawn.
    pub source: SourceRef,
    /// Daemon epoch the intent is recorded under.
    pub daemon_epoch: DaemonEpoch,
}

/// Commits one spawn intent, then surrenders one permit.
#[derive(Debug, PartialEq, Eq)]
pub struct AuthorizeWorkerSpawn {
    pub request: AuthorizeWorkerSpawnRequest,
    pub attempt: ExternalAttemptId,
    pub recorded_at: Timestamp,
}

/// Whether a recorded configuration is the verified one, in every field.
pub open spec fn config_gate(loadout: WorkerLoadoutId, recorded: ConfigView, verified: ConfigView) -> Result<
    (),
    StoreError,
> {
    if recorded == verified {
        Ok(())
    } else {
        Err(
            StoreError::Conflict(
                Conflict::ManagedConfigUnverifiable { loadout, expected: recorded.0 },
            ),
        )
    }
}

/// Requires two configuration references to be identical in every field.
pub fn require_same_config(
    loadout: WorkerLoadoutId,
    recorded: &ManagedConfigRef,
    verified: &ManagedConfigRef,
) -> (r: Result<(), StoreError>)
    ensures
        r == config_gate(loadout, recorded@, verified@),
{
    if recorded.same_as(verified) {
        Ok(())
    } else {
        Err(
            StoreError::Conflict(
                Conflict::ManagedConfigUnverifiable { loadout, expected: recorded.id },
            ),
        )
    }
}

/// What authorising a spawn reads under the write lock.
#[derive(Debug, PartialEq, Eq)]
pub struct SpawnFacts {
    /// The binding of the incarnation, if any.
    pub binding: Option<BindingRow>,
    /// The session the incarnation's row names.
    pub owner: Option<String>,
    /// The configuration the bound loadout row embeds.
    pub embedded: Option<ConfigRow>,
    /// The digest and length the configuration's own row records.
    pub recorded: Option<(String, i64)>,
}

/// The configuration its own row records.
pub open spec fn recorded_config(id: Id, row: Option<(String, i64)>) -> Result<ConfigView, StoreError> {
    let t = "managed_config_artifacts";
    chain(
        present(row, corrupt(t, "managed_config_artifact_id", CorruptReason::DanglingReference)),
        |found: (String, i64)|
            chain(
                hex32_column(found.0@, t, "sha256_hex"),
                |digest: Seq<u8>|
                    chain(
                        u64_column(found.1, t, "byte_len"),
                        |byte_len: u64| Ok((id, digest, byte_len)),
                    ),
            ),
    )
}

fn read_managed_config(id: Id, row: &Option<(String, i64)>) -> (r: Result<ManagedConfigRef, StoreError>)
    ensures
        config_view(r) == recorded_config(id, *row),
{
    let t = "managed_config_artifacts";
    match row {
        None => Err(corrupt_row(t, "managed_config_artifact_id", CorruptReason::DanglingReference)),
        Some(found) => {
            let digest = parse_hex32(found.0.as_str(), t, "sha256_hex")?;
            let byte_len: u64 = parse_u64(found.1, t, "byte_len")?;
            Ok(ManagedConfigRef { id, digest, byte_len })
        },
    }
}

/// The configuration one loadout snapshot embeds.
pub open spec fn embedded_config(row: Option<ConfigRow>) -> Result<ConfigView, StoreError> {
    let t = "worker_loadouts";
    chain(
        present(row, corrupt(t, "worker_loadout_id", CorruptReason::DanglingReference)),
        |found: ConfigRow|
            config_of(found, t, "managed_config_digest_hex", "managed_config_byte_len"),
    )
}

fn read_loadout_config(row: &Option<ConfigRow>) -> (r: Result<ManagedConfigRef, StoreError>)
    ensures
        config_view(r) == embedded_config(*row),
{
    let t = "worker_loadouts";
    match row {
        None => Err(corrupt_row(t, "worker_loadout_id", CorruptReason::DanglingReference)),
        Some(found) => read_config(found, t, "managed_config_digest_hex", "managed_config_byte_len"),
    }
}

impl AuthorizeWorkerSpawn {
    /// The bound snapshot, where it is the verified one.
    pub open spec fn bound(self, facts: SpawnFacts) -> Result<SnapshotView, StoreError> {
        let verified = self.request.verified_loadout@;
        chain(
            binding_of(facts.binding),
            |found: Option<SnapshotView>|
                match found {
                    None => Err(
                        StoreError::Conflict(
                            Conflict::NoSessionLoadout { incarnation: self.request.incarnation },
                        ),
                    ),
                    Some(bound) => chain(
                        incarnation_ownership(
                            crate::store::codec::text_view(facts.owner),
                            self.request.session,
                            self.request.incarnation,
                        ),
                        |_owned: ()|
                            if bound.0 != verified.0 {
                                Err(
                                    StoreError::Conflict(
                                        Conflict::LoadoutIdentityMismatch {
                                            presented: verified.0,
                                            expected: bound.0,
                                        },
                                    ),
                                )
                            } else if bound.1 != verified.1 {
                                Err(
                                    StoreError::Conflict(
                                        Conflict::LoadoutDigestMismatch { loadout: bound.0 },
                                    ),
                                )
                            } else {
                                Ok(bound)
                            },
                    ),
                },
        )
    }

    /// Whether everything recorded is what was verified.
    pub open spec fn proven(self, facts: SpawnFacts) -> Result<(), StoreError> {
        chain(
            self.bound(facts),
            |bound: SnapshotView|
                chain(
                    embedded_config(facts.embedded),
                    |embedded: ConfigView|
                        chain(
                            config_gate(bound.0, embedded, self.request.verified_config@),
                            |_same: ()|
                                chain(
                                    recorded_config(embedded.0, facts.recorded),
                                    |recorded: ConfigView|
                                        config_gate(
                                            bound.0,
                                            recorded,
                                            self.request.verified_config@,
                                        ),
                                ),
                        ),
                ),
        )
    }

    /// The intent row: a non-idempotent write, with no idempotency contract.
    pub open spec fn authorised(self, facts: SpawnFacts) -> Result<IntentView, StoreError> {
        chain(
            self.proven(facts),
            |_proven: ()|
                intent_row(
                    self.attempt,
                    EffectClassView::NonIdempotentWrite,
                    self.request.destination@,
                    self.request.source@,
                    self.request.daemon_epoch,
                    self.recorded_at,
                ),
        )
    }

    fn prove_bound(&self, facts: &SpawnFacts) -> (r: Result<WorkerLoadoutFence, StoreError>)
        ensures
            match r {
                Ok(bound) => self.bound(*facts) == Ok::<SnapshotView, StoreError>(bound@),
                Err(e) => self.bound(*facts) == Err::<SnapshotView, StoreError>(e),
            },
    {
        let bound = match read_binding(&facts.binding)? {
            Some(bound) => bound,
            None => {
                return Err(
                    StoreError::Conflict(
                        Conflict::NoSessionLoadout { incarnation: self.request.incarnation },
                    ),
                );
            },
        };
        require_incarnation_ownership(&facts.owner, self.request.session, self.request.incarnation)?;
        let verified = &self.request.verified_loadout;
        if bound.id.value != verified.id.value {
            return Err(
                StoreError::Conflict(
                    Conflict::LoadoutIdentityMismatch { presented: verified.id, expected: bound.id },
                ),
            );
        }
        if !bound.same_as(verified) {
            return Err(
                StoreError::Conflict(Conflict::LoadoutDigestMismatch { loadout: bound.id }),
            );
        }
        Ok(bound)
    }

    /// Builds the intent row, once everything recorded is byte for byte what was verified.
    pub fn commit(&self, facts: &SpawnFacts) -> (r: Result<IntentRow, StoreError>)
        ensures
            intent_view(r) == self.authorised(*facts),
    {
        let bound = self.prove_bound(facts)?;
        let embedded = read_loadout_config(&facts.embedded)?;
        require_same_config(bound.id, &embedded, &self.request.verified_config)?;
        let recorded = read_managed_config(embedded.id, &facts.recorded)?;
        require_same_config(bound.id, &recorded, &self.request.verified_config)?;
        insert_intent(
            self.attempt,
            &ExternalEffectClass::NonIdempotentWrite,
            &self.request.destination,
            &self.request.source,
            self.request.daemon_epoch,
            self.recorded_at,
        )
    }

    /// Surrenders the permit. Called once the row is committed, and it consumes the operation.
    pub fn finish(self) -> (r: GrantedPermit)
        ensures
            r.attempt == self.attempt,
            r.permit.authorises() == self.attempt,
    {
        grant(self.attempt)
    }
}

// --- Laws ------------------------------------------------------------------------------------------------

/// Each snapshot is one fact: two snapshots are recorded under the same source identity only where
/// identity and digest agree, so editing contents never reaches the row of an earlier snapshot.
pub proof fn distinct_snapshots_are_distinct_facts(
    a: SnapshotView,
    b: SnapshotView,
    label: Seq<char>,
    rule: spec_fn(Seq<char>) -> bool,
)
    requires
        a.1.len() == 32,
        b.1.len() == 32,
        snapshot_fact(a.0, a.1, label, rule) is Ok,
        snapshot_fact(a.0, a.1, label, rule) == snapshot_fact(b.0, b.1, label, rule),
    ensures
        a == b,
{
    let left = canonical_text(a.0.value) + ":"@ + hex_text(a.1);
    let right = canonical_text(b.0.value) + ":"@ + hex_text(b.1);
    reveal_strlit(":");
    assert(left == right);
    assert(left.subrange(0, 36) =~= canonical_text(a.0.value));
    assert(right.subrange(0, 36) =~= canonical_text(b.0.value));
    canonical_text_injective(a.0.value, b.0.value);
    assert(left.subrange(37, left.len() as int) =~= hex_text(a.1));
    assert(right.subrange(37, right.len() as int) =~= hex_text(b.1));
    hex_text_injective(a.1, b.1);
}

/// A bound incarnation is never bound again: whatever is asked, an incarnation that has a snapshot
/// is left as it is, and asking for another snapshot is refused.
pub proof fn a_bound_incarnation_keeps_its_snapshot(
    op: BindSessionLoadout,
    owner: Option<Seq<char>>,
    snapshot_recorded: bool,
    row: BindingRow,
)
    requires
        bound_of(row) is Ok,
    ensures
        op.admitted(owner, snapshot_recorded, Some(row)) != Ok::<bool, StoreError>(true),
        bound_of(row)->Ok_0 != op.request.loadout@ ==> op.admitted(
            owner,
            snapshot_recorded,
            Some(row),
        ) is Err,
{
}

/// A spawn is authorised only for what was verified: the incarnation is the session's, its bound
/// snapshot is the verified one, and the configuration is the verified one in both places that
/// record it.
pub proof fn a_spawn_runs_what_was_verified(op: AuthorizeWorkerSpawn, facts: SpawnFacts)
    requires
        op.authorised(facts) is Ok,
    ensures
        binding_of(facts.binding) == Ok::<Option<SnapshotView>, StoreError>(
            Some(op.request.verified_loadout@),
        ),
        incarnation_ownership(
            crate::store::codec::text_view(facts.owner),
            op.request.session,
            op.request.incarnation,
        ) is Ok,
        embedded_config(facts.embedded) == Ok::<ConfigView, StoreError>(op.request.verified_config@),
        recorded_config(op.request.verified_config.id, facts.recorded) == Ok::<ConfigView, StoreError>(
            op.request.verified_config@,
        ),
{
}

/// A lineage the guard accepts an edge into stays free of cycles.
pub proof fn admitted_lineage_stays_acyclic(
    op: RecordSessionLineage,
    owner: Option<Seq<char>>,
    edges: Seq<ParentOf>,
    answer: Ancestry,
)
    requires
        crate::domain::session::acyclic(edges),
        crate::domain::session::parent_in(edges, op.request.child_session) is None,
        walks(
            edges,
            op.request.parent_session,
            op.request.child_session,
            MAX_LINEAGE_DEPTH,
            answer,
        ),
        op.admitted(owner, answer) is Ok,
    ensures
        crate::domain::session::acyclic(
            edges.push(
                ParentOf { child: op.request.child_session, parent: op.request.parent_session },
            ),
        ),
{
    crate::domain::session::an_accepted_edge_keeps_lineage_acyclic(
        edges,
        ParentOf { child: op.request.child_session, parent: op.request.parent_session },
        MAX_LINEAGE_DEPTH,
        answer,
    );
}

} // verus!
