//! The launch row of an incarnation: the loadout it was bound to and the configuration that embeds.
use vstd::prelude::*;
use crate::domain::fence::{rule_is, rule_total, SafeToken};
use crate::domain::id::{canonical_text, canonical_text_round_trips, Id};
use crate::domain::session::{
    ConfigView, LoadoutSpecView, ManagedConfigRef, ResumePolicy, SnapshotRef, SnapshotView,
    WorkerLoadoutSpec,
};
use crate::digest::hex_text;
use crate::store::codec::{
    hex32_column, hex32_round_trips, hex_byte, id_column, parse_hex32, parse_id, parse_token,
    parse_u64, token_column, u64_column,
};
use crate::store::error::{chain, corrupt, corrupt_row, present, CorruptReason, StoreError};

verus! {

/// A managed configuration's row.
#[derive(Debug, PartialEq, Eq)]
pub struct ManagedConfigRecord {
    /// Identity, digest and length.
    pub reference: ManagedConfigRef,
    /// Where the bytes are.
    pub storage_ref: SafeToken,
}

/// The persisted parts of an incarnation's launch loadout, as recorded and not proven.
#[derive(Debug, PartialEq, Eq)]
pub struct SessionLoadoutRecord {
    /// Everything the digest covers.
    pub loadout: WorkerLoadoutSpec,
    /// The digest that was recorded.
    pub digest: [u8; 32],
    /// The configuration the loadout embeds.
    pub config: ManagedConfigRecord,
}

/// A launch record on values alone.
#[verifier::ext_equal]
pub struct RecordView {
    pub loadout: LoadoutSpecView,
    pub digest: Seq<u8>,
    pub config: ConfigView,
    /// Where the configuration's bytes are.
    pub storage_ref: Seq<char>,
}

impl View for SessionLoadoutRecord {
    type V = RecordView;

    open spec fn view(&self) -> RecordView {
        RecordView {
            loadout: self.loadout@,
            digest: self.digest@,
            config: self.config.reference@,
            storage_ref: self.config.storage_ref@,
        }
    }
}

/// An incarnation's launch row, as it is stored: the columns of its `worker_loadouts` row and those of
/// the `managed_config_artifacts` row that one embeds.
#[derive(Debug, PartialEq, Eq)]
pub struct LaunchRow {
    pub worker_loadout_id: String,
    pub digest_hex: String,
    pub worker_kind: String,
    pub runtime_kind: String,
    pub role: String,
    pub model_policy_id: String,
    pub model_policy_digest_hex: String,
    pub capability_profile_id: String,
    pub capability_profile_digest_hex: String,
    pub delegation_policy_id: String,
    pub delegation_policy_digest_hex: String,
    pub managed_config_artifact_id: String,
    pub managed_config_digest_hex: String,
    pub managed_config_byte_len: i64,
    pub hook_contract_epoch: i64,
    pub resume_policy: String,
    /// Where the configuration's bytes are.
    pub storage_ref: String,
    /// The digest the configuration's own row records.
    pub sha256_hex: String,
    /// The length the configuration's own row records.
    pub byte_len: i64,
}

/// A reader of resume labels can be asked about every text.
pub open spec fn policies_total<P: Fn(&str) -> Option<ResumePolicy>>(policies: P) -> bool {
    forall|text: &str| call_requires(policies, (text,))
}

/// A reader of resume labels answers as a model does.
pub open spec fn policies_are<P: Fn(&str) -> Option<ResumePolicy>>(
    policies: P,
    model: spec_fn(Seq<char>) -> Option<ResumePolicy>,
) -> bool {
    forall|text: &str, r: Option<ResumePolicy>| #[trigger]
        call_ensures(policies, (text,), r) ==> r == model(text@)
}

/// The snapshot two columns of a `worker_loadouts` row name.
pub open spec fn snapshot_of(
    id: Seq<char>,
    digest: Seq<char>,
    id_column_name: &'static str,
    digest_column_name: &'static str,
) -> Result<SnapshotView, StoreError> {
    chain(
        id_column(id, "worker_loadouts", id_column_name),
        |id: Id|
            chain(
                hex32_column(digest, "worker_loadouts", digest_column_name),
                |digest: Seq<u8>| Ok((id, digest)),
            ),
    )
}

fn read_snapshot(
    id: &str,
    digest: &str,
    id_column_name: &'static str,
    digest_column_name: &'static str,
) -> (r: Result<SnapshotRef, StoreError>)
    ensures
        match r {
            Ok(snapshot) => snapshot_of(id@, digest@, id_column_name, digest_column_name)
                == Ok::<SnapshotView, StoreError>(snapshot@),
            Err(e) => snapshot_of(id@, digest@, id_column_name, digest_column_name)
                == Err::<SnapshotView, StoreError>(e),
        },
{
    let id = parse_id(id, "worker_loadouts", id_column_name)?;
    let digest = parse_hex32(digest, "worker_loadouts", digest_column_name)?;
    Ok(SnapshotRef::new(id, digest))
}

/// The configuration a digest column and a length column record of an identity.
pub open spec fn config_of(
    id: Id,
    digest: Seq<char>,
    byte_len: i64,
    table: &'static str,
    digest_column_name: &'static str,
    len_column_name: &'static str,
) -> Result<ConfigView, StoreError> {
    chain(
        hex32_column(digest, table, digest_column_name),
        |digest: Seq<u8>|
            chain(u64_column(byte_len, table, len_column_name), |len: u64| Ok((id, digest, len))),
    )
}

fn read_config(
    id: Id,
    digest: &str,
    byte_len: i64,
    table: &'static str,
    digest_column_name: &'static str,
    len_column_name: &'static str,
) -> (r: Result<ManagedConfigRef, StoreError>)
    ensures
        match r {
            Ok(config) => config_of(id, digest@, byte_len, table, digest_column_name, len_column_name)
                == Ok::<ConfigView, StoreError>(config@),
            Err(e) => config_of(id, digest@, byte_len, table, digest_column_name, len_column_name)
                == Err::<ConfigView, StoreError>(e),
        },
{
    let digest = parse_hex32(digest, table, digest_column_name)?;
    let byte_len = parse_u64(byte_len, table, len_column_name)?;
    Ok(ManagedConfigRef { id, digest, byte_len })
}

/// The three tokens a launch row names a worker by.
pub open spec fn kinds_of(row: LaunchRow, rule: spec_fn(Seq<char>) -> bool) -> Result<
    (Seq<char>, Seq<char>, Seq<char>),
    StoreError,
> {
    let t = "worker_loadouts";
    chain(
        token_column(row.worker_kind@, t, "worker_kind", rule),
        |worker: Seq<char>|
            chain(
                token_column(row.runtime_kind@, t, "runtime_kind", rule),
                |runtime: Seq<char>|
                    chain(
                        token_column(row.role@, t, "role", rule),
                        |role: Seq<char>| Ok((worker, runtime, role)),
                    ),
            ),
    )
}

/// Everything a loadout's digest covers, as a launch row records it.
pub open spec fn loadout_of(
    row: LaunchRow,
    rule: spec_fn(Seq<char>) -> bool,
    policies: spec_fn(Seq<char>) -> Option<ResumePolicy>,
) -> Result<LoadoutSpecView, StoreError> {
    let t = "worker_loadouts";
    chain(
        id_column(row.worker_loadout_id@, t, "worker_loadout_id"),
        |id: Id|
            chain(
                kinds_of(row, rule),
                |kinds: (Seq<char>, Seq<char>, Seq<char>)|
                    chain(
                        snapshot_of(
                            row.model_policy_id@,
                            row.model_policy_digest_hex@,
                            "model_policy_id",
                            "model_policy_digest_hex",
                        ),
                        |model_policy: SnapshotView|
                            chain(
                                snapshot_of(
                                    row.capability_profile_id@,
                                    row.capability_profile_digest_hex@,
                                    "capability_profile_id",
                                    "capability_profile_digest_hex",
                                ),
                                |capability_profile: SnapshotView|
                                    chain(
                                        snapshot_of(
                                            row.delegation_policy_id@,
                                            row.delegation_policy_digest_hex@,
                                            "delegation_policy_id",
                                            "delegation_policy_digest_hex",
                                        ),
                                        |delegation_policy: SnapshotView|
                                            chain(
                                                embedded_of(row),
                                                |managed_config: ConfigView|
                                                    chain(
                                                        policy_of(row, policies),
                                                        |policy: (u64, ResumePolicy)|
                                                            Ok(
                                                                LoadoutSpecView {
                                                                    id,
                                                                    worker_kind: kinds.0,
                                                                    runtime_kind: kinds.1,
                                                                    role: kinds.2,
                                                                    model_policy,
                                                                    capability_profile,
                                                                    delegation_policy,
                                                                    managed_config,
                                                                    hook_contract_epoch: policy.0,
                                                                    resume_policy: policy.1,
                                                                },
                                                            ),
                                                    ),
                                            ),
                                    ),
                            ),
                    ),
            ),
    )
}

/// The configuration a loadout embeds, as its own row records it.
pub open spec fn embedded_of(row: LaunchRow) -> Result<ConfigView, StoreError> {
    let t = "worker_loadouts";
    chain(
        id_column(row.managed_config_artifact_id@, t, "managed_config_artifact_id"),
        |id: Id|
            config_of(
                id,
                row.managed_config_digest_hex@,
                row.managed_config_byte_len,
                t,
                "managed_config_digest_hex",
                "managed_config_byte_len",
            ),
    )
}

/// The hook contract's epoch and the resume policy of a launch row.
pub open spec fn policy_of(
    row: LaunchRow,
    policies: spec_fn(Seq<char>) -> Option<ResumePolicy>,
) -> Result<(u64, ResumePolicy), StoreError> {
    let t = "worker_loadouts";
    chain(
        u64_column(row.hook_contract_epoch, t, "hook_contract_epoch"),
        |epoch: u64|
            chain(
                present(
                    policies(row.resume_policy@),
                    corrupt(t, "resume_policy", CorruptReason::UnknownLabel),
                ),
                |policy: ResumePolicy| Ok((epoch, policy)),
            ),
    )
}

/// The launch record a row holds: each column must be what its type demands, and nothing is proven of
/// them together.
pub open spec fn launch_of(
    row: LaunchRow,
    rule: spec_fn(Seq<char>) -> bool,
    policies: spec_fn(Seq<char>) -> Option<ResumePolicy>,
) -> Result<RecordView, StoreError> {
    let t = "managed_config_artifacts";
    chain(
        loadout_of(row, rule, policies),
        |loadout: LoadoutSpecView|
            chain(
                hex32_column(row.digest_hex@, "worker_loadouts", "digest_hex"),
                |digest: Seq<u8>|
                    chain(
                        config_of(
                            loadout.managed_config.0,
                            row.sha256_hex@,
                            row.byte_len,
                            t,
                            "sha256_hex",
                            "byte_len",
                        ),
                        |config: ConfigView|
                            chain(
                                token_column(row.storage_ref@, t, "storage_ref", rule),
                                |storage_ref: Seq<char>|
                                    Ok(RecordView { loadout, digest, config, storage_ref }),
                            ),
                    ),
            ),
    )
}

/// A launch record on values alone, or the failure.
pub open spec fn record_view(r: Result<SessionLoadoutRecord, StoreError>) -> Result<
    RecordView,
    StoreError,
> {
    match r {
        Ok(record) => Ok(record@),
        Err(e) => Err(e),
    }
}

/// Rehydrates a launch row. `safe` accepts redaction-safe tokens, and `policies` reads a resume
/// label.
pub fn launch_record<S: Fn(&str) -> bool, P: Fn(&str) -> Option<ResumePolicy>>(
    row: &LaunchRow,
    safe: &S,
    policies: &P,
) -> (r: Result<SessionLoadoutRecord, StoreError>)
    requires
        rule_total(*safe),
        policies_total(*policies),
    ensures
        forall|
            rule: spec_fn(Seq<char>) -> bool,
            model: spec_fn(Seq<char>) -> Option<ResumePolicy>,
        | #[trigger]
            rule_is(*safe, rule) && #[trigger] policies_are(*policies, model) ==> record_view(r)
                == launch_of(*row, rule, model),
{
    let t = "worker_loadouts";
    let id = parse_id(row.worker_loadout_id.as_str(), t, "worker_loadout_id")?;
    let worker_kind = parse_token(row.worker_kind.as_str(), t, "worker_kind", safe)?;
    let runtime_kind = parse_token(row.runtime_kind.as_str(), t, "runtime_kind", safe)?;
    let role = parse_token(row.role.as_str(), t, "role", safe)?;
    let model_policy = read_snapshot(
        row.model_policy_id.as_str(),
        row.model_policy_digest_hex.as_str(),
        "model_policy_id",
        "model_policy_digest_hex",
    )?;
    let capability_profile = read_snapshot(
        row.capability_profile_id.as_str(),
        row.capability_profile_digest_hex.as_str(),
        "capability_profile_id",
        "capability_profile_digest_hex",
    )?;
    let delegation_policy = read_snapshot(
        row.delegation_policy_id.as_str(),
        row.delegation_policy_digest_hex.as_str(),
        "delegation_policy_id",
        "delegation_policy_digest_hex",
    )?;
    let config_id = parse_id(
        row.managed_config_artifact_id.as_str(),
        t,
        "managed_config_artifact_id",
    )?;
    let managed_config = read_config(
        config_id,
        row.managed_config_digest_hex.as_str(),
        row.managed_config_byte_len,
        t,
        "managed_config_digest_hex",
        "managed_config_byte_len",
    )?;
    let hook_contract_epoch = parse_u64(row.hook_contract_epoch, t, "hook_contract_epoch")?;
    let resume_policy = match policies(row.resume_policy.as_str()) {
        Some(policy) => policy,
        None => return Err(corrupt_row(t, "resume_policy", CorruptReason::UnknownLabel)),
    };
    let digest = parse_hex32(row.digest_hex.as_str(), t, "digest_hex")?;
    let stored = "managed_config_artifacts";
    let reference = read_config(
        config_id,
        row.sha256_hex.as_str(),
        row.byte_len,
        stored,
        "sha256_hex",
        "byte_len",
    )?;
    let storage_ref = parse_token(row.storage_ref.as_str(), stored, "storage_ref", safe)?;
    Ok(
        SessionLoadoutRecord {
            loadout: WorkerLoadoutSpec {
                id,
                worker_kind,
                runtime_kind,
                role,
                model_policy,
                capability_profile,
                delegation_policy,
                managed_config,
                hook_contract_epoch,
                resume_policy,
            },
            digest,
            config: ManagedConfigRecord { reference, storage_ref },
        },
    )
}

// --- Laws ------------------------------------------------------------------------------------------------

/// Whether a row's columns hold the texts of a launch record.
pub open spec fn records(row: LaunchRow, record: RecordView) -> bool {
    let loadout = record.loadout;
    &&& row.worker_loadout_id@ == canonical_text(loadout.id.value)
    &&& row.digest_hex@ == hex_text(record.digest)
    &&& row.worker_kind@ == loadout.worker_kind
    &&& row.runtime_kind@ == loadout.runtime_kind
    &&& row.role@ == loadout.role
    &&& row.model_policy_id@ == canonical_text(loadout.model_policy.0.value)
    &&& row.model_policy_digest_hex@ == hex_text(loadout.model_policy.1)
    &&& row.capability_profile_id@ == canonical_text(loadout.capability_profile.0.value)
    &&& row.capability_profile_digest_hex@ == hex_text(loadout.capability_profile.1)
    &&& row.delegation_policy_id@ == canonical_text(loadout.delegation_policy.0.value)
    &&& row.delegation_policy_digest_hex@ == hex_text(loadout.delegation_policy.1)
    &&& row.managed_config_artifact_id@ == canonical_text(loadout.managed_config.0.value)
    &&& row.managed_config_digest_hex@ == hex_text(loadout.managed_config.1)
    &&& row.managed_config_byte_len == loadout.managed_config.2
    &&& row.hook_contract_epoch == loadout.hook_contract_epoch
    &&& row.resume_policy@ == loadout.resume_policy.label@
    &&& row.storage_ref@ == record.storage_ref
    &&& row.sha256_hex@ == hex_text(record.config.1)
    &&& row.byte_len == record.config.2
}

/// A digest that is stored as text reads back as the digest.
pub proof fn a_digest_reads_back(bytes: Seq<u8>, table: &'static str, column: &'static str)
    requires
        bytes.len() == 32,
    ensures
        hex32_column(hex_text(bytes), table, column) == Ok::<Seq<u8>, StoreError>(bytes),
{
    hex32_round_trips(bytes);
    assert(Seq::new(32, |k: int| hex_byte(hex_text(bytes), k) as u8) =~= bytes);
}

/// A launch record that was written down is read back as it was: every part of the loadout, its digest
/// and its configuration, so that a digest derived from the row is the one derived when it was bound.
pub proof fn a_recorded_launch_reads_back(
    row: LaunchRow,
    record: SessionLoadoutRecord,
    rule: spec_fn(Seq<char>) -> bool,
    policies: spec_fn(Seq<char>) -> Option<ResumePolicy>,
)
    requires
        records(row, record@),
        record.config.reference.id == record.loadout.managed_config.id,
        rule(record@.loadout.worker_kind),
        rule(record@.loadout.runtime_kind),
        rule(record@.loadout.role),
        rule(record@.storage_ref),
        policies(record@.loadout.resume_policy.label@) == Some(record@.loadout.resume_policy),
    ensures
        launch_of(row, rule, policies) == Ok::<RecordView, StoreError>(record@),
{
    let t = "worker_loadouts";
    let view = record@;
    let loadout = view.loadout;
    canonical_text_round_trips(loadout.id);
    canonical_text_round_trips(loadout.model_policy.0);
    canonical_text_round_trips(loadout.capability_profile.0);
    canonical_text_round_trips(loadout.delegation_policy.0);
    canonical_text_round_trips(loadout.managed_config.0);
    a_digest_reads_back(view.digest, t, "digest_hex");
    a_digest_reads_back(loadout.model_policy.1, t, "model_policy_digest_hex");
    a_digest_reads_back(loadout.capability_profile.1, t, "capability_profile_digest_hex");
    a_digest_reads_back(loadout.delegation_policy.1, t, "delegation_policy_digest_hex");
    a_digest_reads_back(loadout.managed_config.1, t, "managed_config_digest_hex");
    a_digest_reads_back(view.config.1, "managed_config_artifacts", "sha256_hex");
}

} // verus!
