use command_governor::daemon::artifacts::{committed_keys, PinAction, PinCheck, PinnedArtifacts};
use command_governor::daemon::error::{ArtifactFailure, DaemonError, PathDefect, ReclaimedLock};
use command_governor::daemon::ipc::{IpcError, Request};
use command_governor::daemon::layout::{PathClass, PathFacts, StateRoot};
use command_governor::daemon::startup::{
    answer, daemon_doctor_lines, opened_entry, pins_entry, ready_entry, socket_entry,
    starting_entry, status_lines, store_error_class, sweep_entry, verification_failed_entry,
    DaemonConfig, DatabaseFile, OrphanSweep, Outcome, Progress, ReadyReport, Starting, Step,
};
use command_governor::domain::artifact::ResultArtifact;
use command_governor::domain::conflict::Conflict;
use command_governor::domain::fence::SafeToken;
use command_governor::domain::id::{id_text, Id};
use command_governor::domain::lease::ProcessIncarnation;
use command_governor::domain::obligation::{ObligationKind, ObligationState};
use command_governor::store::error::{CorruptReason, StoreError};
use command_governor::store::load::artifact::OpenObligation;
use command_governor::store::migrate::MigrationReport;
use command_governor::store::open::{PolicyReport, StoreConfig, DEFAULT_BUSY_TIMEOUT_MS};
use command_governor::store::ops::health::ResultArtifactMissingRequest;
use command_governor::store::ops::recovery::StartupRecovery;
use command_governor::store::replay::VerifiedProjections;
use command_governor::store::startup::{OpenOutcome, OpenStore, StartupReport};

fn token(text: &str) -> SafeToken {
    SafeToken::new(text, &|_: &str| true).expect("token")
}

fn attention(_state: ObligationState) -> bool {
    false
}

fn policy() -> PolicyReport {
    PolicyReport {
        foreign_keys: true,
        journal_mode: "wal".to_owned(),
        synchronous: 2,
        busy_timeout_ms: 5_000,
    }
}

fn migrations() -> MigrationReport {
    MigrationReport {
        applied: vec![1, 2],
        verified: Vec::new(),
        epoch: 2,
        database_instance_id: Id { value: 5 },
    }
}

fn projections() -> VerifiedProjections {
    VerifiedProjections { obligations: 4, deliveries: 3, verified_through: Some(77) }
}

fn recovery() -> StartupRecovery {
    StartupRecovery {
        quarantined_deliveries: 1,
        uncertain_mutations: 2,
        ambiguous_attempts: 3,
        reconciliation_conditions: 3,
    }
}

fn report() -> StartupReport {
    StartupReport {
        policy: policy(),
        migrations: migrations(),
        daemon_epoch: 9,
        previously_verified_through: Some(70),
        projections: projections(),
        recovery: recovery(),
    }
}

fn me() -> ProcessIncarnation {
    ProcessIncarnation::new(42, token("linux.ab"))
}

fn private_dir() -> PathFacts {
    PathFacts::Found { symlink: false, directory: true, uid: 7, mode: 0o40700 }
}

fn private_file() -> PathFacts {
    PathFacts::Found { symlink: false, directory: false, uid: 7, mode: 0o100600 }
}

fn pass(step: Step) -> Outcome {
    match step {
        Step::PrepareRoot => Outcome::RootPrepared(Ok(())),
        Step::TakeLock => Outcome::Elected(Ok(Some(ReclaimedLock { slot: 1, mismatch: None }))),
        Step::LearnOwner => Outcome::OwnerLearned(Ok(7)),
        Step::PrepareDirectory(_) => Outcome::DirectoryPrepared(Ok(private_dir())),
        Step::LookAtLock => Outcome::LockSeen(private_file()),
        Step::OpenLog => Outcome::LogOpened(true),
        Step::OpenStore => Outcome::StoreOpened(Ok(report())),
        Step::Harden(DatabaseFile::SharedMemory) => Outcome::Hardened(None),
        Step::Harden(_) => Outcome::Hardened(Some(Ok(private_file()))),
        Step::OpenArtifacts => Outcome::ArtifactsOpened(Ok(())),
        Step::VerifyPins => {
            Outcome::PinsVerified(Ok(PinnedArtifacts { verified: 2, unverified: 1 }))
        }
        Step::SweepOrphans => Outcome::Swept(Ok(6)),
        Step::BindSocket => Outcome::Bound(Ok(())),
        Step::LookAtSocket => Outcome::SocketSeen(Some(private_dir()), Some(private_file())),
    }
}

/// Runs startup with every step passing but one, which gives `fault`.
fn run(fault: Option<(Step, Outcome)>) -> (Vec<Step>, Progress) {
    let mut fault = fault;
    let mut steps = Vec::new();
    let mut starting = Starting::new(StateRoot::new("/r"), me());
    loop {
        let step = match starting.progress() {
            Progress::Due(step, _) => *step,
            _ => return (steps, starting.into_progress()),
        };
        steps.push(step);
        let outcome = match fault.take() {
            Some((at, outcome)) if at == step => outcome,
            other => {
                fault = other;
                pass(step)
            }
        };
        starting = starting.advance(outcome);
    }
}

fn refused(step: Step, outcome: Outcome) -> DaemonError {
    match run(Some((step, outcome))) {
        (steps, Progress::Refused(error)) => {
            assert_eq!(steps.last(), Some(&step), "nothing runs after a refusal");
            error
        }
        (_, other) => panic!("not refused: {other:?}"),
    }
}

#[test]
fn startup_runs_every_step_in_order_and_reports_what_it_proved() {
    let (steps, progress) = run(None);
    assert_eq!(steps, vec![
        Step::PrepareRoot,
        Step::TakeLock,
        Step::LearnOwner,
        Step::PrepareDirectory(PathClass::StateRoot),
        Step::PrepareDirectory(PathClass::Artifacts),
        Step::PrepareDirectory(PathClass::Ipc),
        Step::PrepareDirectory(PathClass::Logs),
        Step::LookAtLock,
        Step::OpenLog,
        Step::OpenStore,
        Step::Harden(DatabaseFile::Main),
        Step::Harden(DatabaseFile::WriteAheadLog),
        Step::Harden(DatabaseFile::SharedMemory),
        Step::OpenArtifacts,
        Step::VerifyPins,
        Step::SweepOrphans,
        Step::BindSocket,
        Step::LookAtSocket,
    ]);
    assert_eq!(progress, Progress::Ready(ready()));
}

fn ready() -> ReadyReport {
    ReadyReport {
        daemon_epoch: 9,
        incarnation: me(),
        reclaimed_lock: Some(ReclaimedLock { slot: 1, mismatch: None }),
        schema_epoch: 2,
        migrations_applied: 2,
        projections: projections(),
        recovery: recovery(),
        artifacts_verified: 2,
        artifacts_unverified: 1,
        artifacts_quarantined: 6,
    }
}

#[test]
fn every_failed_step_refuses_and_ends_startup() {
    let bad = PathDefect::Symlink;
    let fs = |class, defect| DaemonError::Filesystem { class, defect };
    assert_eq!(
        refused(Step::PrepareRoot, Outcome::RootPrepared(Err(bad))),
        fs(PathClass::StateRoot, bad)
    );
    assert_eq!(
        refused(Step::TakeLock, Outcome::Elected(Err(DaemonError::AuthorityHeld { slot: 3 }))),
        DaemonError::AuthorityHeld { slot: 3 }
    );
    assert_eq!(
        refused(Step::LearnOwner, Outcome::OwnerLearned(Err(PathDefect::Unreadable))),
        fs(PathClass::StateRoot, PathDefect::Unreadable)
    );
    let ipc = Step::PrepareDirectory(PathClass::Ipc);
    assert_eq!(
        refused(ipc, Outcome::DirectoryPrepared(Err(PathDefect::Uncreatable))),
        fs(PathClass::Ipc, PathDefect::Uncreatable)
    );
    let foreign = PathFacts::Found { symlink: false, directory: true, uid: 8, mode: 0o40700 };
    assert_eq!(
        refused(ipc, Outcome::DirectoryPrepared(Ok(foreign))),
        fs(PathClass::Ipc, PathDefect::ForeignOwner)
    );
    assert_eq!(
        refused(Step::LookAtLock, Outcome::LockSeen(PathFacts::Missing)),
        fs(PathClass::StateRoot, PathDefect::Uncreatable)
    );
    assert_eq!(refused(Step::OpenLog, Outcome::LogOpened(false)), DaemonError::Logging);
    assert_eq!(
        refused(Step::OpenStore, Outcome::StoreOpened(Err(StoreError::WriterGone))),
        DaemonError::Store(StoreError::WriterGone)
    );
    let wide = PathFacts::Found { symlink: false, directory: false, uid: 7, mode: 0o100644 };
    assert_eq!(
        refused(Step::Harden(DatabaseFile::Main), Outcome::Hardened(Some(Ok(wide)))),
        fs(PathClass::StateRoot, PathDefect::GroupOrOtherAccessible)
    );
    assert_eq!(
        refused(Step::OpenArtifacts, Outcome::ArtifactsOpened(Err(ArtifactFailure::Io))),
        DaemonError::Artifacts(ArtifactFailure::Io)
    );
    assert_eq!(
        refused(Step::VerifyPins, Outcome::PinsVerified(Err(StoreError::WriterGone))),
        DaemonError::Store(StoreError::WriterGone)
    );
    assert_eq!(
        refused(Step::SweepOrphans, Outcome::Swept(Err(DaemonError::Artifacts(ArtifactFailure::Io)))),
        DaemonError::Artifacts(ArtifactFailure::Io)
    );
    assert_eq!(
        refused(Step::BindSocket, Outcome::Bound(Err(IpcError::Bind))),
        DaemonError::Ipc(IpcError::Bind)
    );
    assert_eq!(
        refused(Step::LookAtSocket, Outcome::SocketSeen(Some(private_dir()), Some(wide))),
        fs(PathClass::Ipc, PathDefect::GroupOrOtherAccessible)
    );
}

#[test]
fn a_socket_path_that_does_not_fit_is_refused_before_the_store_is_opened() {
    let mut starting = Starting::new(StateRoot::new(&"/x".repeat(60)), me());
    let mut steps = 0;
    loop {
        let step = match starting.progress() {
            Progress::Due(step, _) => *step,
            Progress::Refused(DaemonError::Ipc(IpcError::PathTooLong { len, .. })) => {
                assert_eq!(*len, 131);
                break;
            }
            other => panic!("unexpected: {other:?}"),
        };
        assert_ne!(step, Step::OpenStore);
        steps += 1;
        starting = starting.advance(pass(step));
    }
    assert_eq!(steps, 8);
}

#[test]
fn an_outcome_of_another_step_changes_nothing() {
    let starting = Starting::new(StateRoot::new("/r"), me());
    let starting = starting.advance(Outcome::LogOpened(true));
    match starting.progress() {
        Progress::Due(Step::PrepareRoot, _) => {}
        other => panic!("moved: {other:?}"),
    }
    let refused = starting.advance(Outcome::RootPrepared(Err(PathDefect::Symlink)));
    let still = refused.advance(Outcome::RootPrepared(Ok(())));
    assert!(matches!(still.progress(), Progress::Refused(_)));
}

#[test]
fn a_store_opens_in_order_or_not_at_all() {
    let opened = OpenStore::start()
        .advance(OpenOutcome::Policy(Ok(policy())))
        .advance(OpenOutcome::Migrated(Ok(migrations())))
        .advance(OpenOutcome::Advanced(Ok((9, Some(70)))))
        .advance(OpenOutcome::Replayed(Ok(projections())))
        .advance(OpenOutcome::Recovered(Ok(recovery())));
    assert_eq!(opened, OpenStore::Ready(report()));

    let early = OpenStore::start().advance(OpenOutcome::Recovered(Ok(recovery())));
    assert_eq!(early, OpenStore::ProvePolicy);
    let refused = OpenStore::start().advance(OpenOutcome::Policy(Err(StoreError::WriterGone)));
    assert_eq!(refused.advance(OpenOutcome::Policy(Ok(policy()))), OpenStore::Refused(StoreError::WriterGone));
    let drifted = OpenStore::start()
        .advance(OpenOutcome::Policy(Ok(policy())))
        .advance(OpenOutcome::Migrated(Err(StoreError::UnknownAppliedMigration { version: 9 })));
    assert_eq!(drifted, OpenStore::Refused(StoreError::UnknownAppliedMigration { version: 9 }));
}

fn open(id: u128, artifact: Option<u128>) -> OpenObligation {
    OpenObligation {
        id: Id { value: id },
        kind: ObligationKind::WorkerTurn,
        state: ObligationState::CompletedUnprocessed,
        version: 1,
        created_at: 0,
        result_artifact: artifact.map(|value| ResultArtifact {
            id: Id { value },
            storage_ref: token("ra-1"),
            digest: [0; 32],
            byte_len: 1,
            created_at: 0,
        }),
    }
}

#[test]
fn every_pin_is_read_once_and_counted() {
    let walk = PinCheck::new(&[open(1, Some(10)), open(2, None), open(3, Some(30))]);
    let first = ResultArtifactMissingRequest { obligation: Id { value: 1 }, artifact: Id { value: 10 } };
    let second = ResultArtifactMissingRequest { obligation: Id { value: 3 }, artifact: Id { value: 30 } };
    assert_eq!(walk.pending(), Some(first));
    assert_eq!(walk.artifact(), open(1, Some(10)).result_artifact.as_ref());
    let (walk, action) = walk.answered(Ok(()));
    assert_eq!(action, Some(PinAction::Resolve(first)));
    assert_eq!(walk.pending(), Some(second));
    assert_eq!(walk.artifact(), open(3, Some(30)).result_artifact.as_ref());
    let (walk, action) = walk.answered(Err(ArtifactFailure::Missing));
    assert_eq!(action, Some(PinAction::Raise(second, ArtifactFailure::Missing)));
    assert_eq!(walk.pending(), None);
    assert_eq!(walk.artifact(), None);
    assert_eq!(walk.tally(), PinnedArtifacts { verified: 1, unverified: 1 });
    let (walk, action) = walk.answered(Ok(()));
    assert_eq!(action, None);
    assert_eq!(walk.tally(), PinnedArtifacts { verified: 1, unverified: 1 });
}

fn artifact(key: &str) -> ResultArtifact {
    ResultArtifact {
        id: Id { value: 1 },
        storage_ref: token(key),
        digest: [0; 32],
        byte_len: 1,
        created_at: 0,
    }
}

#[test]
fn the_swept_set_is_complete_or_refused() {
    let valid = |key: &str| key.starts_with("ra-");
    assert_eq!(
        committed_keys(&vec![artifact("ra-b"), artifact("ra-a"), artifact("ra-b")], &valid).unwrap(),
        vec!["ra-a", "ra-b"]
    );
    match committed_keys(&vec![artifact("ra-a"), artifact("zz")], &valid) {
        Err(StoreError::Corrupt(value)) => {
            assert_eq!(value.message(), "result_artifacts.storage_ref: not a canonical identity");
            assert_eq!(value.reason, CorruptReason::MalformedIdentity);
        }
        other => panic!("a reference was dropped: {other:?}"),
    }
}

#[test]
fn the_log_says_what_startup_found() {
    let starting = starting_entry(&me(), true);
    assert_eq!(starting.event, "daemon.starting");
    assert_eq!(starting.fields.as_str(), "slot=42 start=linux.ab reclaimed_lock=true");
    let opened = opened_entry(&report());
    assert_eq!(
        opened.fields.as_str(),
        "daemon_epoch=9 schema_epoch=2 migrations_applied=2 projections.obligations=4 \
         projections.deliveries=3 quarantined_deliveries=1 uncertain_mutations=2 ambiguous_attempts=3"
    );
    let pin = ResultArtifactMissingRequest { obligation: Id { value: 1 }, artifact: Id { value: 2 } };
    assert_eq!(
        verification_failed_entry(pin, ArtifactFailure::Integrity).fields.as_str(),
        format!(
            "obligation={} artifact={} reason=integrity_mismatch",
            id_text(Id { value: 1 }),
            id_text(Id { value: 2 })
        )
    );
    assert!(pins_entry(PinnedArtifacts { verified: 5, unverified: 0 }).is_none());
    let warned = pins_entry(PinnedArtifacts { verified: 5, unverified: 2 }).unwrap();
    assert_eq!(warned.fields.as_str(), "unverified=2 verified=5");
    let sweep = OrphanSweep { quarantined: 1, within_grace: 2, referenced: 3 };
    assert_eq!(
        sweep_entry(sweep).unwrap().fields.as_str(),
        "quarantined=1 within_grace=2 referenced=3"
    );
    assert!(sweep_entry(OrphanSweep { quarantined: 0, within_grace: 2, referenced: 3 }).is_none());
    assert!(socket_entry(Some(private_dir()), Some(private_file()), 7).is_none());
    assert_eq!(
        socket_entry(Some(private_dir()), Some(private_file()), 8).unwrap().fields.as_str(),
        "path=ipc_directory"
    );
    assert_eq!(
        ready_entry(&ready()).fields.as_str(),
        "artifacts_verified=2 artifacts_unverified=1 artifacts_quarantined=6"
    );
}

#[test]
fn a_status_is_exact() {
    let lines = status_lines(&ready(), &Ok(Vec::new()), &Ok(Vec::new()), &attention);
    assert_eq!(&lines[..14], &[
        "daemon.state=running",
        "daemon.slot=42",
        "daemon.epoch=9",
        "store.schema_epoch=2",
        "store.projections.obligations=4",
        "store.projections.deliveries=3",
        "store.projections.verified_through=77",
        "recovery.quarantined_deliveries=1",
        "recovery.uncertain_mutations=2",
        "recovery.ambiguous_attempts=3",
        "artifacts.verified=2",
        "artifacts.unverified=1",
        "artifacts.quarantined=6",
        "obligations.open=0",
    ]);
    assert_eq!(lines.last().unwrap(), "health.open=0");
    let failed: Result<Vec<OpenObligation>, StoreError> = Err(StoreError::WriterGone);
    let broken = status_lines(&ready(), &failed, &Err(StoreError::Sqlite("x".to_owned())), &attention);
    assert_eq!(&broken[13..], &["error class=writer_gone", "error class=sqlite"]);
}

#[test]
fn each_request_has_its_answer() {
    let none: Result<Vec<OpenObligation>, StoreError> = Ok(vec![open(1, None)]);
    let ask = |request| answer(request, &ready(), &none, &Ok(Vec::new()), 5, &attention);
    assert!(ask(Request::Ping).is_empty());
    assert_eq!(ask(Request::Status)[0], "daemon.state=running");
    assert!(ask(Request::Obligations)[0].starts_with("obligation id="));
    assert_eq!(ask(Request::Doctor), daemon_doctor_lines(&ready(), &Ok(Vec::new())));
    assert_eq!(ask(Request::Doctor), vec![
        "daemon.slot=42",
        "daemon.epoch=9",
        "daemon.reclaimed_stale_lock=true",
        "store.schema_epoch=2",
        "store.migrations_applied=2",
        "store.projections.verified_through=77",
        "artifacts.verified=2",
        "artifacts.unverified=1",
        "health.open=0",
    ]);
    let gone: Result<Vec<OpenObligation>, StoreError> = Err(StoreError::WriterGone);
    assert_eq!(
        answer(Request::Obligations, &ready(), &gone, &Ok(Vec::new()), 5, &attention),
        vec!["error class=writer_gone"]
    );
    assert_eq!(
        store_error_class(&StoreError::Conflict(Conflict::UnknownDeliveryId)),
        "conflict"
    );
    assert_eq!(store_error_class(&StoreError::QuarantineIncomplete { minted: 1 }), "quarantine_incomplete");
}

#[test]
fn a_configuration_has_the_default_timeout() {
    let config = DaemonConfig::new(StateRoot::new("/r"));
    assert_eq!(config.busy_timeout_ms, DEFAULT_BUSY_TIMEOUT_MS);
    assert_eq!(config.state_root.path(), "/r");
    let store = StoreConfig::new("/r/db").with_busy_timeout_ms(7);
    assert_eq!((store.database_path.as_str(), store.busy_timeout_ms), ("/r/db", 7));
}

#[test]
fn every_refusal_has_a_code_and_words() {
    let held = DaemonError::AuthorityHeld { slot: 3 };
    assert_eq!(held.code(), "authority_held");
    assert_eq!(
        held.message(""),
        "another daemon already holds authority over this state root (process 3)"
    );
    let fs = DaemonError::Filesystem { class: PathClass::Logs, defect: PathDefect::Symlink };
    assert_eq!(fs.code(), "state_root_invalid");
    assert_eq!(fs.message(""), "the logs directory failed validation: it is a symbolic link");
    let store = DaemonError::Store(StoreError::WriterGone);
    assert_eq!(store.code(), "store_refused");
    assert_eq!(store.message("why"), "the durable store refused to open: why");
    assert_eq!(DaemonError::SignalHandler.code(), "signal_handler_unavailable");
    assert_eq!(
        IpcError::PathTooLong { len: 131, limit: 103 }.message(),
        "the control socket path is 131 bytes, over the 103-byte limit"
    );
}
