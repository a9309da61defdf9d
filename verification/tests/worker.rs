use command_governor::daemon::error::ArtifactFailure;
use command_governor::daemon::worker::{
    config_missing, loadout_read, observed, unverifiable, verify_config, ConfigStep, LoadoutStep,
    ProvenLoadout, ResumeRefusal, ResumeWorkerRequest,
};
use command_governor::domain::conflict::Conflict;
use command_governor::domain::effect::{DestinationRef, ExternalEffectClass};
use command_governor::domain::fence::{SafeToken, SourceRef};
use command_governor::domain::id::{id_text, Id};
use command_governor::domain::session::{
    ManagedConfigRef, ResumePolicy, SnapshotRef, WorkerLoadoutFence, WorkerLoadoutSpec,
};
use command_governor::store::codec::hex32;
use command_governor::store::error::{corrupt_row, CorruptReason, StoreError};
use command_governor::store::load::loadout::{
    launch_record, LaunchRow, ManagedConfigRecord, SessionLoadoutRecord,
};
use command_governor::store::ops::effect::{
    ExternalExecutionPermit, GrantedPermit, RecordExternalIntent, RecordExternalIntentRequest,
};
use command_governor::daemon::worker::ResumePermit;

/// The SHA-256 digest of "abc".
const ABC: [u8; 32] = [
    0xba, 0x78, 0x16, 0xbf, 0x8f, 0x01, 0xcf, 0xea, 0x41, 0x41, 0x40, 0xde, 0x5d, 0xae, 0x22, 0x23,
    0xb0, 0x03, 0x61, 0xa3, 0x96, 0x17, 0x7a, 0x9c, 0xb4, 0x10, 0xff, 0x61, 0xf2, 0x00, 0x15, 0xad,
];

fn token(text: &str) -> SafeToken {
    SafeToken::new(text, &|_: &str| true).expect("token")
}

fn config() -> ManagedConfigRef {
    ManagedConfigRef { id: Id { value: 3 }, digest: ABC, byte_len: 3 }
}

fn spec() -> WorkerLoadoutSpec {
    let snapshot = SnapshotRef::new(Id { value: 1 }, [1; 32]);
    WorkerLoadoutSpec {
        id: Id { value: 2 },
        worker_kind: token("coder"),
        runtime_kind: token("pty"),
        role: token("builder"),
        model_policy: snapshot,
        capability_profile: snapshot,
        delegation_policy: snapshot,
        managed_config: config(),
        hook_contract_epoch: 1,
        resume_policy: ResumePolicy { label: "resume" },
    }
}

fn digest(_spec: &WorkerLoadoutSpec) -> [u8; 32] {
    [5; 32]
}

fn record(recorded: [u8; 32]) -> SessionLoadoutRecord {
    SessionLoadoutRecord {
        loadout: spec(),
        digest: recorded,
        config: ManagedConfigRecord { reference: config(), storage_ref: token("cfg-1") },
    }
}

fn source() -> SourceRef {
    SourceRef { namespace: token("ns"), event: token("ev"), fence: token("1") }
}

fn destination() -> DestinationRef {
    DestinationRef { namespace: token("host"), endpoint: token("worker"), fence: token("1") }
}

fn request() -> ResumeWorkerRequest {
    ResumeWorkerRequest {
        session: Id { value: 7 },
        incarnation: Id { value: 8 },
        presented: SnapshotRef::new(Id { value: 2 }, [5; 32]),
        destination: destination(),
        source: source(),
        daemon_epoch: 4,
    }
}

fn no_objection(
    _record: &SessionLoadoutRecord,
    _fence: &WorkerLoadoutFence,
    _config: &ManagedConfigRef,
) -> Option<Conflict> {
    None
}

fn proven() -> ProvenLoadout {
    match loadout_read(request(), Ok(Some(record([5; 32]))), &digest) {
        LoadoutStep::ReadConfig(proven) => proven,
        other => panic!("not proven: {other:?}"),
    }
}

fn granted() -> GrantedPermit {
    RecordExternalIntent {
        request: RecordExternalIntentRequest {
            class: ExternalEffectClass::NonIdempotentWrite,
            destination: destination(),
            source: source(),
            daemon_epoch: 4,
        },
        attempt: Id { value: 99 },
        recorded_at: 1,
    }
    .finish()
}

fn launch_row() -> LaunchRow {
    LaunchRow {
        worker_loadout_id: id_text(Id { value: 2 }),
        digest_hex: hex32(&[5; 32]),
        worker_kind: "coder".to_owned(),
        runtime_kind: "pty".to_owned(),
        role: "builder".to_owned(),
        model_policy_id: id_text(Id { value: 1 }),
        model_policy_digest_hex: hex32(&[1; 32]),
        capability_profile_id: id_text(Id { value: 1 }),
        capability_profile_digest_hex: hex32(&[1; 32]),
        delegation_policy_id: id_text(Id { value: 1 }),
        delegation_policy_digest_hex: hex32(&[1; 32]),
        managed_config_artifact_id: id_text(Id { value: 3 }),
        managed_config_digest_hex: hex32(&ABC),
        managed_config_byte_len: 3,
        hook_contract_epoch: 1,
        resume_policy: "resume".to_owned(),
        storage_ref: "cfg-1".to_owned(),
        sha256_hex: hex32(&ABC),
        byte_len: 3,
    }
}

fn launched(row: &LaunchRow) -> Result<SessionLoadoutRecord, StoreError> {
    launch_record(
        row,
        &|text: &str| !text.contains(' '),
        &|label: &str| (label == "resume").then_some(ResumePolicy { label: "resume" }),
    )
}

#[test]
fn a_recorded_launch_row_reads_back() {
    assert_eq!(launched(&launch_row()), Ok(record([5; 32])));
}

#[test]
fn a_launch_row_fails_at_the_column_that_is_not_its_type() {
    let table = "worker_loadouts";
    let cases: Vec<(fn(&mut LaunchRow), &'static str, &'static str, CorruptReason)> = vec![
        (|r| r.worker_loadout_id.pop().map_or((), |_| ()), table, "worker_loadout_id", CorruptReason::MalformedIdentity),
        (|r| r.worker_kind.push(' '), table, "worker_kind", CorruptReason::UnsafeToken),
        (|r| r.runtime_kind.push(' '), table, "runtime_kind", CorruptReason::UnsafeToken),
        (|r| r.role.push(' '), table, "role", CorruptReason::UnsafeToken),
        (|r| r.model_policy_id.clear(), table, "model_policy_id", CorruptReason::MalformedIdentity),
        (|r| r.model_policy_digest_hex.clear(), table, "model_policy_digest_hex", CorruptReason::MalformedIdentity),
        (|r| r.capability_profile_id.clear(), table, "capability_profile_id", CorruptReason::MalformedIdentity),
        (|r| r.delegation_policy_digest_hex.clear(), table, "delegation_policy_digest_hex", CorruptReason::MalformedIdentity),
        (|r| r.managed_config_byte_len = -1, table, "managed_config_byte_len", CorruptReason::IntegerOutOfRange),
        (|r| r.hook_contract_epoch = -1, table, "hook_contract_epoch", CorruptReason::IntegerOutOfRange),
        (|r| r.resume_policy.push('d'), table, "resume_policy", CorruptReason::UnknownLabel),
        (|r| r.digest_hex.push('0'), table, "digest_hex", CorruptReason::MalformedIdentity),
        (|r| r.sha256_hex.clear(), "managed_config_artifacts", "sha256_hex", CorruptReason::MalformedIdentity),
        (|r| r.byte_len = -1, "managed_config_artifacts", "byte_len", CorruptReason::IntegerOutOfRange),
        (|r| r.storage_ref.push(' '), "managed_config_artifacts", "storage_ref", CorruptReason::UnsafeToken),
    ];
    for (spoil, table, column, reason) in cases {
        let mut row = launch_row();
        spoil(&mut row);
        assert_eq!(launched(&row), Err(corrupt_row(table, column, reason)), "{column}");
    }
}

#[test]
fn a_launch_row_must_rederive_its_own_digest() {
    assert_eq!(
        loadout_read(request(), Ok(Some(record([6; 32]))), &digest),
        LoadoutStep::RaiseUnverifiable
    );
    assert_eq!(
        loadout_read(request(), Ok(None), &digest),
        LoadoutStep::Refused(ResumeRefusal::NoLaunchLoadout)
    );
    assert_eq!(
        loadout_read(request(), Err(StoreError::Conflict(Conflict::UnknownDeliveryId)), &digest),
        LoadoutStep::Refused(ResumeRefusal::Refused(Conflict::UnknownDeliveryId))
    );
    assert_eq!(
        loadout_read(request(), Err(StoreError::WriterGone), &digest),
        LoadoutStep::Refused(ResumeRefusal::Store(StoreError::WriterGone))
    );
    assert_eq!(proven().config().storage_ref.as_str(), "cfg-1");
    let found = proven();
    let named = found.readable(&|key: &str| key == "cfg-1").unwrap();
    assert_eq!((named.storage_ref.as_str(), named.reference), ("cfg-1", config()));
    assert_eq!(proven().readable(&|_: &str| false).unwrap_err(), ArtifactFailure::InvalidKey);
}

#[test]
fn a_configuration_is_proven_from_its_bytes_alone() {
    assert_eq!(verify_config(&config(), b"abc"), Ok(config()));
    assert_eq!(verify_config(&config(), b"abd"), Err(ArtifactFailure::Integrity));
    assert_eq!(verify_config(&config(), b"abcd"), Err(ArtifactFailure::Integrity));
    assert_eq!(observed(&config(), &ABC, 4), Err(ArtifactFailure::Integrity));
    assert_eq!(observed(&config(), &[0; 32], 3), Err(ArtifactFailure::Integrity));
    assert_eq!(observed(&config(), &ABC, 3), Ok(config()));
}

#[test]
fn a_resume_needs_the_recorded_bytes_and_no_objection() {
    assert_eq!(
        proven().config_read(Err(ArtifactFailure::Missing), &no_objection),
        ConfigStep::RaiseConfigMissing(ArtifactFailure::Missing)
    );
    assert_eq!(
        proven().config_read(Ok(b"rewritten".to_vec()), &no_objection),
        ConfigStep::RaiseConfigMissing(ArtifactFailure::Integrity)
    );
    let objection = |_: &SessionLoadoutRecord, _: &WorkerLoadoutFence, _: &ManagedConfigRef| {
        Some(Conflict::LoadoutDigestMismatch { loadout: Id { value: 2 } })
    };
    assert_eq!(
        proven().config_read(Ok(b"abc".to_vec()), &objection),
        ConfigStep::Refused(ResumeRefusal::Refused(Conflict::LoadoutDigestMismatch {
            loadout: Id { value: 2 }
        }))
    );
}

#[test]
fn an_authorised_spawn_carries_what_was_proven() {
    let admitted = match proven().config_read(Ok(b"abc".to_vec()), &no_objection) {
        ConfigStep::Authorize(admitted) => admitted,
        other => panic!("not admitted: {other:?}"),
    };
    let asked = admitted.spawn_request();
    assert_eq!(asked.session, Id { value: 7 });
    assert_eq!(asked.incarnation, Id { value: 8 });
    assert_eq!(asked.verified_loadout, SnapshotRef::new(Id { value: 2 }, [5; 32]));
    assert_eq!(asked.verified_config, config());
    assert_eq!(asked.daemon_epoch, 4);
    let authorization =
        admitted.granted(Ok(granted())).unwrap().resolved(Ok(()), Ok(())).unwrap();
    assert_eq!(authorization.attempt(), Id { value: 99 });
    assert_eq!(authorization.fence(), SnapshotRef::new(Id { value: 2 }, [5; 32]));
    let seen = authorization.spawn_with(|permit: ExternalExecutionPermit, resume: ResumePermit| {
        (permit.attempt(), resume.fence().id)
    });
    assert_eq!(seen, (Id { value: 99 }, Id { value: 2 }));
}

#[test]
fn a_store_that_refuses_gives_no_permit() {
    let admitted = || match proven().config_read(Ok(b"abc".to_vec()), &no_objection) {
        ConfigStep::Authorize(admitted) => admitted,
        other => panic!("not admitted: {other:?}"),
    };
    assert_eq!(
        admitted().granted(Err(StoreError::WriterGone)).unwrap_err(),
        ResumeRefusal::Store(StoreError::WriterGone)
    );
    assert_eq!(
        admitted().granted(Ok(granted())).unwrap().resolved(Err(StoreError::WriterGone), Ok(())).unwrap_err(),
        ResumeRefusal::Store(StoreError::WriterGone)
    );
    assert_eq!(
        admitted().granted(Ok(granted())).unwrap().resolved(Ok(()), Err(StoreError::WriterGone)).unwrap_err(),
        ResumeRefusal::Store(StoreError::WriterGone)
    );
    assert_eq!(unverifiable(Ok(())), ResumeRefusal::LoadoutUnverifiable);
    assert_eq!(
        config_missing(Ok(()), ArtifactFailure::Missing),
        ResumeRefusal::ManagedConfigUnreadable(ArtifactFailure::Missing)
    );
    assert_eq!(
        config_missing(Err(StoreError::WriterGone), ArtifactFailure::Missing),
        ResumeRefusal::Store(StoreError::WriterGone)
    );
    assert_eq!(
        ResumeRefusal::NoLaunchLoadout.message(""),
        "session incarnation has no launch loadout to resume"
    );
    assert_eq!(
        ResumeRefusal::Store(StoreError::WriterGone).message("gone"),
        "the durable store refused: gone"
    );
}
