//! Startup, in the one order that is safe, and what a running daemon answers.
//!
//! The lock comes first, so that nothing below runs twice against one state root. Then the
//! filesystem is validated, the control socket's path is measured, and the log is opened; then the
//! store is opened, its files are made private, and the artifacts are verified and swept; last comes
//! the socket. No later step begins until the earlier ones have passed, and every failure is a
//! refusal after which nothing is scheduled.
//!
//! An artifact open work pins that cannot be verified is not a refusal: it is damage to one
//! obligation.
use vstd::prelude::*;
use vstd::string::StringExecFns;
use crate::daemon::artifacts::PinnedArtifacts;
use crate::daemon::error::{
    artifact_class, artifact_failure_class, ArtifactFailure, DaemonError, PathDefect, ReclaimedLock,
};
use crate::daemon::ipc::{
    audit, check_socket_path, socket_findings, socket_path_fits, IpcError, Request,
};
use crate::daemon::layout::{
    audit_dir, audit_file, below, path_defect, PathClass, PathFacts, StateRoot, IPC_DIR,
    SOCKET_FILE,
};
use crate::daemon::logging::{counted, flag_text, with_field, Fields, Level};
use crate::daemon::report::{
    attends_is, attends_total, count_line, count_text, health_lines, health_of, lists_oldest_first,
    obligation_lines, obligation_summary_lines, open_views, push_line, push_lines, summary_of,
};
use crate::domain::fence::{DaemonEpoch, EventSeq, Timestamp};
use crate::domain::id::canonical_text;
use crate::domain::lease::ProcessIncarnation;
use crate::domain::obligation::ObligationState;
use crate::store::error::StoreError;
use crate::store::load::artifact::{OpenObligation, OpenView};
use crate::store::load::health::OpenCondition;
use crate::store::open::DEFAULT_BUSY_TIMEOUT_MS;
use crate::store::ops::health::ResultArtifactMissingRequest;
use crate::store::ops::recovery::StartupRecovery;
use crate::store::replay::VerifiedProjections;
use crate::store::startup::StartupReport;
use crate::text::{int_text, join2, string_texts};

verus! {

/// How to bring a daemon up against one state root.
#[derive(Debug, PartialEq, Eq)]
pub struct DaemonConfig {
    /// Where the durable state lives.
    pub state_root: StateRoot,
    /// Bounded SQLite busy timeout, in milliseconds.
    pub busy_timeout_ms: u32,
}

impl DaemonConfig {
    /// The default policy for a state root.
    pub fn new(state_root: StateRoot) -> (r: DaemonConfig)
        ensures
            r.state_root == state_root,
            r.busy_timeout_ms == DEFAULT_BUSY_TIMEOUT_MS,
    {
        DaemonConfig { state_root, busy_timeout_ms: DEFAULT_BUSY_TIMEOUT_MS }
    }
}

/// What startup proved before the daemon agreed to serve.
#[derive(Debug, PartialEq, Eq)]
pub struct ReadyReport {
    /// The epoch this process advanced the database to.
    pub daemon_epoch: DaemonEpoch,
    /// This process's instance, as recorded in the instance lock.
    pub incarnation: ProcessIncarnation,
    /// The stale lock this start reclaimed, if any.
    pub reclaimed_lock: Option<ReclaimedLock>,
    /// Schema epoch after migration.
    pub schema_epoch: u32,
    /// Migrations applied during this open.
    pub migrations_applied: usize,
    /// Projection replay equivalence, proven before anything was scheduled.
    pub projections: VerifiedProjections,
    /// What startup quarantine found.
    pub recovery: StartupRecovery,
    /// Artifacts pinned by an open obligation that verified.
    pub artifacts_verified: usize,
    /// Artifacts pinned by an open obligation that did not verify.
    pub artifacts_unverified: usize,
    /// Unreferenced artifact files moved aside by the orphan sweep.
    pub artifacts_quarantined: usize,
}

// --- The steps -------------------------------------------------------------------------------------------

/// One of the files the engine keeps.
#[derive(Debug, Clone, Copy, PartialEq, Eq, Structural)]
pub enum DatabaseFile {
    Main,
    WriteAheadLog,
    SharedMemory,
}

/// What startup is to do next.
#[derive(Debug, Clone, Copy, PartialEq, Eq, Structural)]
pub enum Step {
    /// Create the root directory, private.
    PrepareRoot,
    /// Elect this process as the root's authority.
    TakeLock,
    /// Learn this process's effective user.
    LearnOwner,
    /// Create one directory, private, and look at it.
    PrepareDirectory(PathClass),
    /// Look at the lock file this process holds.
    LookAtLock,
    /// Open the diagnostics log.
    OpenLog,
    /// Open the store: gate, migrate, advance, replay, quarantine.
    OpenStore,
    /// Force one of the engine's files owner-only, where there is one, and look at it.
    Harden(DatabaseFile),
    /// Open the artifact root.
    OpenArtifacts,
    /// Prove the bytes behind every artifact open work pins.
    VerifyPins,
    /// Set unreferenced artifact files aside.
    SweepOrphans,
    /// Bind the control socket.
    BindSocket,
    /// Look at the socket and its directory.
    LookAtSocket,
}

impl Step {
    /// How many steps come before this one.
    pub open spec fn place(self) -> nat {
        match self {
            Step::PrepareRoot => 0,
            Step::TakeLock => 1,
            Step::LearnOwner => 2,
            Step::PrepareDirectory(PathClass::StateRoot) => 3,
            Step::PrepareDirectory(PathClass::Artifacts) => 4,
            Step::PrepareDirectory(PathClass::Ipc) => 5,
            Step::PrepareDirectory(PathClass::Logs) => 6,
            Step::LookAtLock => 7,
            Step::OpenLog => 8,
            Step::OpenStore => 9,
            Step::Harden(DatabaseFile::Main) => 10,
            Step::Harden(DatabaseFile::WriteAheadLog) => 11,
            Step::Harden(DatabaseFile::SharedMemory) => 12,
            Step::OpenArtifacts => 13,
            Step::VerifyPins => 14,
            Step::SweepOrphans => 15,
            Step::BindSocket => 16,
            Step::LookAtSocket => 17,
        }
    }

    /// The step after this one; nothing after the last.
    pub open spec fn next(self) -> Option<Step> {
        match self {
            Step::PrepareRoot => Some(Step::TakeLock),
            Step::TakeLock => Some(Step::LearnOwner),
            Step::LearnOwner => Some(Step::PrepareDirectory(PathClass::StateRoot)),
            Step::PrepareDirectory(PathClass::StateRoot) => Some(
                Step::PrepareDirectory(PathClass::Artifacts),
            ),
            Step::PrepareDirectory(PathClass::Artifacts) => Some(
                Step::PrepareDirectory(PathClass::Ipc),
            ),
            Step::PrepareDirectory(PathClass::Ipc) => Some(Step::PrepareDirectory(PathClass::Logs)),
            Step::PrepareDirectory(PathClass::Logs) => Some(Step::LookAtLock),
            Step::LookAtLock => Some(Step::OpenLog),
            Step::OpenLog => Some(Step::OpenStore),
            Step::OpenStore => Some(Step::Harden(DatabaseFile::Main)),
            Step::Harden(DatabaseFile::Main) => Some(Step::Harden(DatabaseFile::WriteAheadLog)),
            Step::Harden(DatabaseFile::WriteAheadLog) => Some(
                Step::Harden(DatabaseFile::SharedMemory),
            ),
            Step::Harden(DatabaseFile::SharedMemory) => Some(Step::OpenArtifacts),
            Step::OpenArtifacts => Some(Step::VerifyPins),
            Step::VerifyPins => Some(Step::SweepOrphans),
            Step::SweepOrphans => Some(Step::BindSocket),
            Step::BindSocket => Some(Step::LookAtSocket),
            Step::LookAtSocket => None,
        }
    }

    fn following(self) -> (r: Option<Step>)
        ensures
            r == self.next(),
    {
        match self {
            Step::PrepareRoot => Some(Step::TakeLock),
            Step::TakeLock => Some(Step::LearnOwner),
            Step::LearnOwner => Some(Step::PrepareDirectory(PathClass::StateRoot)),
            Step::PrepareDirectory(PathClass::StateRoot) => Some(
                Step::PrepareDirectory(PathClass::Artifacts),
            ),
            Step::PrepareDirectory(PathClass::Artifacts) => Some(
                Step::PrepareDirectory(PathClass::Ipc),
            ),
            Step::PrepareDirectory(PathClass::Ipc) => Some(Step::PrepareDirectory(PathClass::Logs)),
            Step::PrepareDirectory(PathClass::Logs) => Some(Step::LookAtLock),
            Step::LookAtLock => Some(Step::OpenLog),
            Step::OpenLog => Some(Step::OpenStore),
            Step::OpenStore => Some(Step::Harden(DatabaseFile::Main)),
            Step::Harden(DatabaseFile::Main) => Some(Step::Harden(DatabaseFile::WriteAheadLog)),
            Step::Harden(DatabaseFile::WriteAheadLog) => Some(
                Step::Harden(DatabaseFile::SharedMemory),
            ),
            Step::Harden(DatabaseFile::SharedMemory) => Some(Step::OpenArtifacts),
            Step::OpenArtifacts => Some(Step::VerifyPins),
            Step::VerifyPins => Some(Step::SweepOrphans),
            Step::SweepOrphans => Some(Step::BindSocket),
            Step::BindSocket => Some(Step::LookAtSocket),
            Step::LookAtSocket => None,
        }
    }
}

/// What one step gave.
#[derive(Debug, PartialEq, Eq)]
pub enum Outcome {
    /// Of preparing the root directory.
    RootPrepared(Result<(), PathDefect>),
    /// Of the election: what was reclaimed, or the refusal.
    Elected(Result<Option<ReclaimedLock>, DaemonError>),
    /// Of learning the effective user.
    OwnerLearned(Result<u32, PathDefect>),
    /// Of preparing a directory: what a look at it found.
    DirectoryPrepared(Result<PathFacts, PathDefect>),
    /// Of looking at the lock file.
    LockSeen(PathFacts),
    /// Of opening the log: whether it opened.
    LogOpened(bool),
    /// Of opening the store.
    StoreOpened(Result<StartupReport, StoreError>),
    /// Of hardening a file: nothing where there is none, else what a look at it found.
    Hardened(Option<Result<PathFacts, PathDefect>>),
    /// Of opening the artifact root.
    ArtifactsOpened(Result<(), ArtifactFailure>),
    /// Of verifying the pins.
    PinsVerified(Result<PinnedArtifacts, StoreError>),
    /// Of the sweep: how many files were set aside.
    Swept(Result<usize, DaemonError>),
    /// Of binding the socket.
    Bound(Result<(), IpcError>),
    /// Of looking at the socket's directory and the socket: nothing for a path that leads to nothing,
    /// links followed.
    SocketSeen(Option<PathFacts>, Option<PathFacts>),
}

/// Whether an outcome is one of a step.
pub open spec fn answers(step: Step, outcome: Outcome) -> bool {
    match step {
        Step::PrepareRoot => outcome is RootPrepared,
        Step::TakeLock => outcome is Elected,
        Step::LearnOwner => outcome is OwnerLearned,
        Step::PrepareDirectory(_) => outcome is DirectoryPrepared,
        Step::LookAtLock => outcome is LockSeen,
        Step::OpenLog => outcome is LogOpened,
        Step::OpenStore => outcome is StoreOpened,
        Step::Harden(_) => outcome is Hardened,
        Step::OpenArtifacts => outcome is ArtifactsOpened,
        Step::VerifyPins => outcome is PinsVerified,
        Step::SweepOrphans => outcome is Swept,
        Step::BindSocket => outcome is Bound,
        Step::LookAtSocket => outcome is SocketSeen,
    }
}

/// What startup has gathered.
#[derive(Debug, PartialEq, Eq)]
pub struct Gathered {
    pub root: StateRoot,
    pub incarnation: ProcessIncarnation,
    pub reclaimed: Option<ReclaimedLock>,
    pub owner_uid: u32,
    pub store: Option<StartupReport>,
    pub pinned: PinnedArtifacts,
    pub quarantined: usize,
}

/// The refusal for a defect of a class of path.
pub open spec fn filesystem(class: PathClass, defect: PathDefect) -> DaemonError {
    DaemonError::Filesystem { class, defect }
}

/// What a path check passes on: what was gathered, or the refusal.
pub open spec fn if_private(
    gathered: Gathered,
    class: PathClass,
    checked: Result<(), PathDefect>,
) -> Result<Gathered, DaemonError> {
    match checked {
        Ok(_) => Ok(gathered),
        Err(defect) => Err(filesystem(class, defect)),
    }
}

/// Where the control socket lies below a root.
pub open spec fn socket_of(root: StateRoot) -> Seq<char> {
    below(below(root.root@, IPC_DIR@), SOCKET_FILE@)
}

/// What the outcome of a step proves: what is gathered with it, or the refusal.
pub open spec fn judged(step: Step, gathered: Gathered, outcome: Outcome) -> Result<
    Gathered,
    DaemonError,
> {
    match (step, outcome) {
        (Step::PrepareRoot, Outcome::RootPrepared(r)) => if_private(
            gathered,
            PathClass::StateRoot,
            r,
        ),
        (Step::TakeLock, Outcome::Elected(r)) => match r {
            Ok(reclaimed) => Ok(Gathered { reclaimed, ..gathered }),
            Err(e) => Err(e),
        },
        (Step::LearnOwner, Outcome::OwnerLearned(r)) => match r {
            Ok(owner_uid) => Ok(Gathered { owner_uid, ..gathered }),
            Err(defect) => Err(filesystem(PathClass::StateRoot, defect)),
        },
        (Step::PrepareDirectory(class), Outcome::DirectoryPrepared(r)) => match r {
            Ok(facts) => if_private(
                gathered,
                class,
                path_defect(facts, gathered.owner_uid, true),
            ),
            Err(defect) => Err(filesystem(class, defect)),
        },
        (Step::LookAtLock, Outcome::LockSeen(facts)) => match path_defect(
            facts,
            gathered.owner_uid,
            false,
        ) {
            Err(defect) => Err(filesystem(PathClass::StateRoot, defect)),
            Ok(_) => match socket_path_fits(socket_of(gathered.root)) {
                Ok(_) => Ok(gathered),
                Err(e) => Err(DaemonError::Ipc(e)),
            },
        },
        (Step::OpenLog, Outcome::LogOpened(opened)) => if opened {
            Ok(gathered)
        } else {
            Err(DaemonError::Logging)
        },
        (Step::OpenStore, Outcome::StoreOpened(r)) => match r {
            Ok(report) => Ok(Gathered { store: Some(report), ..gathered }),
            Err(e) => Err(DaemonError::Store(e)),
        },
        (Step::Harden(_), Outcome::Hardened(found)) => match found {
            None => Ok(gathered),
            Some(Err(defect)) => Err(filesystem(PathClass::StateRoot, defect)),
            Some(Ok(facts)) => if_private(
                gathered,
                PathClass::StateRoot,
                path_defect(facts, gathered.owner_uid, false),
            ),
        },
        (Step::OpenArtifacts, Outcome::ArtifactsOpened(r)) => match r {
            Ok(_) => Ok(gathered),
            Err(failure) => Err(DaemonError::Artifacts(failure)),
        },
        (Step::VerifyPins, Outcome::PinsVerified(r)) => match r {
            Ok(pinned) => Ok(Gathered { pinned, ..gathered }),
            Err(e) => Err(DaemonError::Store(e)),
        },
        (Step::SweepOrphans, Outcome::Swept(r)) => match r {
            Ok(quarantined) => Ok(Gathered { quarantined, ..gathered }),
            Err(e) => Err(e),
        },
        (Step::BindSocket, Outcome::Bound(r)) => match r {
            Ok(_) => Ok(gathered),
            Err(e) => Err(DaemonError::Ipc(e)),
        },
        (Step::LookAtSocket, Outcome::SocketSeen(directory, socket)) => {
            let findings = socket_findings(directory, socket, gathered.owner_uid);
            if findings.len() > 0 {
                Err(filesystem(PathClass::Ipc, findings[0].1))
            } else {
                Ok(gathered)
            }
        },
        _ => Ok(gathered),
    }
}

/// What startup proved, once it is done.
pub open spec fn ready_of(gathered: Gathered) -> ReadyReport {
    let store = gathered.store->0;
    ReadyReport {
        daemon_epoch: store.daemon_epoch,
        incarnation: gathered.incarnation,
        reclaimed_lock: gathered.reclaimed,
        schema_epoch: store.migrations.epoch,
        migrations_applied: store.migrations.applied@.len() as usize,
        projections: store.projections,
        recovery: store.recovery,
        artifacts_verified: gathered.pinned.verified,
        artifacts_unverified: gathered.pinned.unverified,
        artifacts_quarantined: gathered.quarantined,
    }
}

/// How far startup has come.
#[derive(Debug, PartialEq, Eq)]
pub enum Progress {
    /// A step is due.
    Due(Step, Gathered),
    /// Every step has passed; the daemon may serve.
    Ready(ReadyReport),
    /// A step failed; nothing is scheduled.
    Refused(DaemonError),
}

/// How far startup has come after one more outcome. An outcome of another step changes nothing.
pub open spec fn advanced(progress: Progress, outcome: Outcome) -> Progress {
    match progress {
        Progress::Due(step, gathered) => if !answers(step, outcome) {
            progress
        } else {
            match judged(step, gathered, outcome) {
                Err(e) => Progress::Refused(e),
                Ok(more) => match step.next() {
                    Some(next) => Progress::Due(next, more),
                    None => Progress::Ready(ready_of(more)),
                },
            }
        },
        _ => progress,
    }
}

/// What startup begins with.
pub open spec fn at_first(root: StateRoot, incarnation: ProcessIncarnation) -> Progress {
    Progress::Due(
        Step::PrepareRoot,
        Gathered {
            root,
            incarnation,
            reclaimed: None,
            owner_uid: 0,
            store: None,
            pinned: PinnedArtifacts { verified: 0, unverified: 0 },
            quarantined: 0,
        },
    )
}

fn same_kind(step: Step, outcome: &Outcome) -> (r: bool)
    ensures
        r == answers(step, *outcome),
{
    match (step, outcome) {
        (Step::PrepareRoot, Outcome::RootPrepared(_)) => true,
        (Step::TakeLock, Outcome::Elected(_)) => true,
        (Step::LearnOwner, Outcome::OwnerLearned(_)) => true,
        (Step::PrepareDirectory(_), Outcome::DirectoryPrepared(_)) => true,
        (Step::LookAtLock, Outcome::LockSeen(_)) => true,
        (Step::OpenLog, Outcome::LogOpened(_)) => true,
        (Step::OpenStore, Outcome::StoreOpened(_)) => true,
        (Step::Harden(_), Outcome::Hardened(_)) => true,
        (Step::OpenArtifacts, Outcome::ArtifactsOpened(_)) => true,
        (Step::VerifyPins, Outcome::PinsVerified(_)) => true,
        (Step::SweepOrphans, Outcome::Swept(_)) => true,
        (Step::BindSocket, Outcome::Bound(_)) => true,
        (Step::LookAtSocket, Outcome::SocketSeen(_, _)) => true,
        _ => false,
    }
}

fn require_private(gathered: Gathered, class: PathClass, checked: Result<(), PathDefect>) -> (r: Result<
    Gathered,
    DaemonError,
>)
    ensures
        r == if_private(gathered, class, checked),
{
    match checked {
        Ok(_) => Ok(gathered),
        Err(defect) => Err(DaemonError::Filesystem { class, defect }),
    }
}

fn require_socket_path(gathered: Gathered) -> (r: Result<Gathered, DaemonError>)
    ensures
        r == (match socket_path_fits(socket_of(gathered.root)) {
            Ok(_) => Ok::<Gathered, DaemonError>(gathered),
            Err(e) => Err(DaemonError::Ipc(e)),
        }),
{
    let path = gathered.root.socket_path();
    match check_socket_path(path.as_str()) {
        Ok(_) => Ok(gathered),
        Err(e) => Err(DaemonError::Ipc(e)),
    }
}

fn judge(step: Step, gathered: Gathered, outcome: Outcome) -> (r: Result<Gathered, DaemonError>)
    ensures
        r == judged(step, gathered, outcome),
{
    match (step, outcome) {
        (Step::PrepareRoot, Outcome::RootPrepared(r)) => require_private(
            gathered,
            PathClass::StateRoot,
            r,
        ),
        (Step::TakeLock, Outcome::Elected(r)) => match r {
            Ok(reclaimed) => Ok(Gathered { reclaimed, ..gathered }),
            Err(e) => Err(e),
        },
        (Step::LearnOwner, Outcome::OwnerLearned(r)) => match r {
            Ok(owner_uid) => Ok(Gathered { owner_uid, ..gathered }),
            Err(defect) => Err(DaemonError::Filesystem { class: PathClass::StateRoot, defect }),
        },
        (Step::PrepareDirectory(class), Outcome::DirectoryPrepared(r)) => match r {
            Ok(facts) => {
                let checked = audit_dir(facts, gathered.owner_uid);
                require_private(gathered, class, checked)
            },
            Err(defect) => Err(DaemonError::Filesystem { class, defect }),
        },
        (Step::LookAtLock, Outcome::LockSeen(facts)) => match audit_file(facts, gathered.owner_uid) {
            Err(defect) => Err(DaemonError::Filesystem { class: PathClass::StateRoot, defect }),
            Ok(_) => require_socket_path(gathered),
        },
        (Step::OpenLog, Outcome::LogOpened(opened)) => {
            if opened {
                Ok(gathered)
            } else {
                Err(DaemonError::Logging)
            }
        },
        (Step::OpenStore, Outcome::StoreOpened(r)) => match r {
            Ok(report) => Ok(Gathered { store: Some(report), ..gathered }),
            Err(e) => Err(DaemonError::Store(e)),
        },
        (Step::Harden(_), Outcome::Hardened(found)) => match found {
            None => Ok(gathered),
            Some(Err(defect)) => Err(
                DaemonError::Filesystem { class: PathClass::StateRoot, defect },
            ),
            Some(Ok(facts)) => {
                let checked = audit_file(facts, gathered.owner_uid);
                require_private(gathered, PathClass::StateRoot, checked)
            },
        },
        (Step::OpenArtifacts, Outcome::ArtifactsOpened(r)) => match r {
            Ok(_) => Ok(gathered),
            Err(failure) => Err(DaemonError::Artifacts(failure)),
        },
        (Step::VerifyPins, Outcome::PinsVerified(r)) => match r {
            Ok(pinned) => Ok(Gathered { pinned, ..gathered }),
            Err(e) => Err(DaemonError::Store(e)),
        },
        (Step::SweepOrphans, Outcome::Swept(r)) => match r {
            Ok(quarantined) => Ok(Gathered { quarantined, ..gathered }),
            Err(e) => Err(e),
        },
        (Step::BindSocket, Outcome::Bound(r)) => match r {
            Ok(_) => Ok(gathered),
            Err(e) => Err(DaemonError::Ipc(e)),
        },
        (Step::LookAtSocket, Outcome::SocketSeen(directory, socket)) => {
            let findings = audit(directory, socket, gathered.owner_uid);
            if findings.len() > 0 {
                Err(DaemonError::Filesystem { class: PathClass::Ipc, defect: findings[0].1 })
            } else {
                Ok(gathered)
            }
        },
        _ => Ok(gathered),
    }
}

/// A daemon on its way up.
#[derive(Debug, PartialEq, Eq)]
pub struct Starting {
    progress: Progress,
}

impl Starting {
    /// How far startup has come.
    pub closed spec fn view(&self) -> Progress {
        self.progress
    }

    #[verifier::type_invariant]
    spec fn well_formed(self) -> bool {
        self.progress matches Progress::Due(step, gathered) ==> (step.place() > 9
            ==> gathered.store is Some)
    }

    /// Startup begins with the root directory.
    pub fn new(root: StateRoot, incarnation: ProcessIncarnation) -> (r: Starting)
        ensures
            r@ == at_first(root, incarnation),
    {
        let gathered = Gathered {
            root,
            incarnation,
            reclaimed: None,
            owner_uid: 0,
            store: None,
            pinned: PinnedArtifacts { verified: 0, unverified: 0 },
            quarantined: 0,
        };
        Starting { progress: Progress::Due(Step::PrepareRoot, gathered) }
    }

    /// How far startup has come.
    pub fn progress(&self) -> (r: &Progress)
        ensures
            *r == self@,
    {
        &self.progress
    }

    /// Gives up how far startup has come.
    pub fn into_progress(self) -> (r: Progress)
        ensures
            r == self@,
    {
        self.progress
    }

    /// Takes the outcome of the step that is due.
    pub fn advance(self, outcome: Outcome) -> (r: Starting)
        ensures
            r@ == advanced(self@, outcome),
    {
        proof {
            use_type_invariant(&self);
        }
        match self.progress {
            Progress::Due(step, gathered) => {
                if !same_kind(step, &outcome) {
                    return Starting { progress: Progress::Due(step, gathered) };
                }
                match judge(step, gathered, outcome) {
                    Err(e) => Starting { progress: Progress::Refused(e) },
                    Ok(more) => match step.following() {
                        Some(next) => Starting { progress: Progress::Due(next, more) },
                        None => Starting { progress: Progress::Ready(report(more)) },
                    },
                }
            },
            Progress::Ready(ready) => Starting { progress: Progress::Ready(ready) },
            Progress::Refused(e) => Starting { progress: Progress::Refused(e) },
        }
    }
}

fn report(gathered: Gathered) -> (r: ReadyReport)
    requires
        gathered.store is Some,
    ensures
        r == ready_of(gathered),
{
    let store = gathered.store.unwrap();
    let migrations_applied: usize = store.migrations.applied.len();
    ReadyReport {
        daemon_epoch: store.daemon_epoch,
        incarnation: gathered.incarnation,
        reclaimed_lock: gathered.reclaimed,
        schema_epoch: store.migrations.epoch,
        migrations_applied,
        projections: store.projections,
        recovery: store.recovery,
        artifacts_verified: gathered.pinned.verified,
        artifacts_unverified: gathered.pinned.unverified,
        artifacts_quarantined: gathered.quarantined,
    }
}

// --- What is logged --------------------------------------------------------------------------------------

/// One record for the diagnostics log.
#[derive(Debug, PartialEq, Eq)]
pub struct LogEntry {
    pub level: Level,
    pub event: &'static str,
    pub fields: Fields,
}

impl LogEntry {
    /// Whether an entry says an event at a level with a payload.
    pub open spec fn says(self, level: Level, event: Seq<char>, fields: Seq<char>) -> bool {
        &&& self.level == level
        &&& self.event@ == event
        &&& self.fields@ == fields
    }
}

/// A counter as a signed one: as far as it fits.
pub open spec fn signed(value: u64) -> int {
    if value <= i64::MAX {
        value as int
    } else {
        i64::MAX as int
    }
}

fn to_i64(value: u64) -> (r: i64)
    ensures
        r == signed(value),
{
    if value <= i64::MAX as u64 {
        value as i64
    } else {
        i64::MAX
    }
}

/// A payload with a counter.
pub open spec fn with_count(fields: Seq<char>, key: Seq<char>, n: usize) -> Seq<char> {
    with_field(fields, key, int_text(counted(n)))
}

/// The entry once the log is open.
pub fn starting_entry(incarnation: &ProcessIncarnation, reclaimed: bool) -> (r: LogEntry)
    ensures
        r.says(
            Level::Info,
            "daemon.starting"@,
            with_field(
                with_field(
                    with_field(Seq::empty(), "slot"@, int_text(incarnation@.0 as int)),
                    "start"@,
                    incarnation@.1,
                ),
                "reclaimed_lock"@,
                flag_text(reclaimed),
            ),
        ),
{
    let fields = Fields::new().integer("slot", incarnation.slot as i64).token(
        "start",
        &incarnation.start,
    ).flag("reclaimed_lock", reclaimed);
    LogEntry { level: Level::Info, event: "daemon.starting", fields }
}

/// The payload of an opened store.
pub open spec fn opened_fields(startup: StartupReport) -> Seq<char> {
    let epochs = with_field(
        with_field(Seq::empty(), "daemon_epoch"@, int_text(signed(startup.daemon_epoch))),
        "schema_epoch"@,
        int_text(startup.migrations.epoch as int),
    );
    let proven = with_count(
        with_count(
            with_count(
                epochs,
                "migrations_applied"@,
                startup.migrations.applied@.len() as usize,
            ),
            "projections.obligations"@,
            startup.projections.obligations,
        ),
        "projections.deliveries"@,
        startup.projections.deliveries,
    );
    with_count(
        with_count(
            with_count(
                proven,
                "quarantined_deliveries"@,
                startup.recovery.quarantined_deliveries,
            ),
            "uncertain_mutations"@,
            startup.recovery.uncertain_mutations,
        ),
        "ambiguous_attempts"@,
        startup.recovery.ambiguous_attempts,
    )
}

/// The entry once the store is open and its files are private.
pub fn opened_entry(startup: &StartupReport) -> (r: LogEntry)
    ensures
        r.says(Level::Info, "store.opened"@, opened_fields(*startup)),
{
    let fields = Fields::new().integer("daemon_epoch", to_i64(startup.daemon_epoch)).integer(
        "schema_epoch",
        startup.migrations.epoch as i64,
    ).count("migrations_applied", startup.migrations.applied.len()).count(
        "projections.obligations",
        startup.projections.obligations,
    ).count("projections.deliveries", startup.projections.deliveries).count(
        "quarantined_deliveries",
        startup.recovery.quarantined_deliveries,
    ).count("uncertain_mutations", startup.recovery.uncertain_mutations).count(
        "ambiguous_attempts",
        startup.recovery.ambiguous_attempts,
    );
    LogEntry { level: Level::Info, event: "store.opened", fields }
}

/// The entry for one artifact that could not be verified.
pub fn verification_failed_entry(pin: ResultArtifactMissingRequest, failure: ArtifactFailure) -> (r: LogEntry)
    ensures
        r.says(
            Level::Error,
            "artifacts.verification_failed"@,
            with_field(
                with_field(
                    with_field(Seq::empty(), "obligation"@, canonical_text(pin.obligation.value)),
                    "artifact"@,
                    canonical_text(pin.artifact.value),
                ),
                "reason"@,
                artifact_class(failure)@,
            ),
        ),
{
    let fields = Fields::new().id("obligation", pin.obligation).id("artifact", pin.artifact).class(
        "reason",
        artifact_failure_class(failure),
    );
    LogEntry { level: Level::Error, event: "artifacts.verification_failed", fields }
}

/// The entry once the pins were read: a warning where one did not verify.
pub fn pins_entry(pinned: PinnedArtifacts) -> (r: Option<LogEntry>)
    ensures
        r is Some <==> pinned.unverified > 0,
        r matches Some(entry) ==> entry.says(
            Level::Warn,
            "artifacts.serving_with_unverified_pins"@,
            with_count(
                with_count(Seq::empty(), "unverified"@, pinned.unverified),
                "verified"@,
                pinned.verified,
            ),
        ),
{
    if pinned.unverified == 0 {
        return None;
    }
    let fields = Fields::new().count("unverified", pinned.unverified).count(
        "verified",
        pinned.verified,
    );
    Some(LogEntry { level: Level::Warn, event: "artifacts.serving_with_unverified_pins", fields })
}

/// What an orphan sweep did.
#[derive(Debug, Clone, Copy, PartialEq, Eq, Structural)]
pub struct OrphanSweep {
    /// Files set aside.
    pub quarantined: usize,
    /// Unreferenced files too young to be set aside.
    pub within_grace: usize,
    /// Files the ledger refers to.
    pub referenced: usize,
}

/// The entry after the sweep: a warning where it set files aside.
pub fn sweep_entry(sweep: OrphanSweep) -> (r: Option<LogEntry>)
    ensures
        r is Some <==> sweep.quarantined > 0,
        r matches Some(entry) ==> entry.says(
            Level::Warn,
            "artifacts.orphans_quarantined"@,
            with_count(
                with_count(
                    with_count(Seq::empty(), "quarantined"@, sweep.quarantined),
                    "within_grace"@,
                    sweep.within_grace,
                ),
                "referenced"@,
                sweep.referenced,
            ),
        ),
{
    if sweep.quarantined == 0 {
        return None;
    }
    let fields = Fields::new().count("quarantined", sweep.quarantined).count(
        "within_grace",
        sweep.within_grace,
    ).count("referenced", sweep.referenced);
    Some(LogEntry { level: Level::Warn, event: "artifacts.orphans_quarantined", fields })
}

/// The entry for a socket that failed its audit: which path, of the first finding.
pub fn socket_entry(
    directory: Option<PathFacts>,
    socket: Option<PathFacts>,
    owner_uid: u32,
) -> (r: Option<LogEntry>)
    ensures
        r is Some <==> socket_findings(directory, socket, owner_uid).len() > 0,
        r matches Some(entry) ==> entry.says(
            Level::Error,
            "ipc.audit_failed"@,
            with_field(
                Seq::empty(),
                "path"@,
                socket_findings(directory, socket, owner_uid)[0].0@,
            ),
        ),
{
    let findings = audit(directory, socket, owner_uid);
    if findings.len() == 0 {
        return None;
    }
    let fields = Fields::new().class("path", findings[0].0);
    Some(LogEntry { level: Level::Error, event: "ipc.audit_failed", fields })
}

/// The entry once the daemon is ready.
pub fn ready_entry(ready: &ReadyReport) -> (r: LogEntry)
    ensures
        r.says(
            Level::Info,
            "daemon.ready"@,
            with_count(
                with_count(
                    with_count(Seq::empty(), "artifacts_verified"@, ready.artifacts_verified),
                    "artifacts_unverified"@,
                    ready.artifacts_unverified,
                ),
                "artifacts_quarantined"@,
                ready.artifacts_quarantined,
            ),
        ),
{
    let fields = Fields::new().count("artifacts_verified", ready.artifacts_verified).count(
        "artifacts_unverified",
        ready.artifacts_unverified,
    ).count("artifacts_quarantined", ready.artifacts_quarantined);
    LogEntry { level: Level::Info, event: "daemon.ready", fields }
}

// --- What is answered ------------------------------------------------------------------------------------

/// A stable class for a store failure, for a reply line.
pub open spec fn store_class(e: StoreError) -> &'static str {
    match e {
        StoreError::Conflict(_) => "conflict",
        StoreError::SchemaEpochTooNew { .. } => "schema_epoch_too_new",
        StoreError::MigrationChecksumMismatch { .. } => "migration_checksum_mismatch",
        StoreError::UnknownAppliedMigration { .. } => "unknown_applied_migration",
        StoreError::ConnectionPolicy(_) => "connection_policy",
        StoreError::Corrupt(_) => "corrupt_value",
        StoreError::RepairNeeded(_) => "repair_needed",
        StoreError::QuarantineIncomplete { .. } => "quarantine_incomplete",
        StoreError::WriterGone => "writer_gone",
        StoreError::Sqlite(_) => "sqlite",
    }
}

/// A stable class for a store failure, for a reply line.
pub fn store_error_class(e: &StoreError) -> (r: &'static str)
    ensures
        r == store_class(*e),
{
    match e {
        StoreError::Conflict(_) => "conflict",
        StoreError::SchemaEpochTooNew { .. } => "schema_epoch_too_new",
        StoreError::MigrationChecksumMismatch { .. } => "migration_checksum_mismatch",
        StoreError::UnknownAppliedMigration { .. } => "unknown_applied_migration",
        StoreError::ConnectionPolicy(_) => "connection_policy",
        StoreError::Corrupt(_) => "corrupt_value",
        StoreError::RepairNeeded(_) => "repair_needed",
        StoreError::QuarantineIncomplete { .. } => "quarantine_incomplete",
        StoreError::WriterGone => "writer_gone",
        StoreError::Sqlite(_) => "sqlite",
    }
}

/// The line in place of what could not be read.
pub open spec fn error_text(e: StoreError) -> Seq<char> {
    "error class="@ + store_class(e)@
}

fn error_line(e: &StoreError) -> (r: String)
    ensures
        r@ == error_text(*e),
{
    join2("error class=", store_error_class(e))
}

/// A sequence as a counter: zero where there is none.
pub open spec fn seq_count(seq: Option<EventSeq>) -> nat {
    match seq {
        Some(found) => found as nat,
        None => 0,
    }
}

/// Reads a sequence as a counter.
pub fn seq_number(seq: Option<EventSeq>) -> (r: u64)
    ensures
        r == seq_count(seq),
{
    match seq {
        Some(found) => found,
        None => 0,
    }
}

/// Open work as it was read, on values alone.
pub open spec fn listed(open: Result<Vec<OpenObligation>, StoreError>) -> Result<
    Seq<OpenView>,
    StoreError,
> {
    match open {
        Ok(rows) => Ok(open_views(rows@)),
        Err(e) => Err(e),
    }
}

/// Open conditions as they were read, on values alone.
pub open spec fn conditions_listed(conditions: Result<Vec<OpenCondition>, StoreError>) -> Result<
    Seq<OpenCondition>,
    StoreError,
> {
    match conditions {
        Ok(rows) => Ok(rows@),
        Err(e) => Err(e),
    }
}

/// The health lines, or the line in place of them.
pub open spec fn health_section(conditions: Result<Seq<OpenCondition>, StoreError>) -> Seq<Seq<char>> {
    match conditions {
        Ok(rows) => health_of(rows),
        Err(e) => seq![error_text(e)],
    }
}

/// The summary lines, or the line in place of them.
pub open spec fn summary_section(
    open: Result<Seq<OpenView>, StoreError>,
    model: spec_fn(ObligationState) -> bool,
) -> Seq<Seq<char>> {
    match open {
        Ok(rows) => summary_of(rows, model),
        Err(e) => seq![error_text(e)],
    }
}

/// What a status says of the daemon itself.
pub open spec fn status_head(ready: ReadyReport) -> Seq<Seq<char>> {
    seq![
        "daemon.state=running"@,
        count_text("daemon.slot"@, ready.incarnation@.0 as nat),
        count_text("daemon.epoch"@, ready.daemon_epoch as nat),
        count_text("store.schema_epoch"@, ready.schema_epoch as nat),
        count_text("store.projections.obligations"@, ready.projections.obligations as nat),
        count_text("store.projections.deliveries"@, ready.projections.deliveries as nat),
        count_text(
            "store.projections.verified_through"@,
            seq_count(ready.projections.verified_through),
        ),
        count_text(
            "recovery.quarantined_deliveries"@,
            ready.recovery.quarantined_deliveries as nat,
        ),
        count_text("recovery.uncertain_mutations"@, ready.recovery.uncertain_mutations as nat),
        count_text("recovery.ambiguous_attempts"@, ready.recovery.ambiguous_attempts as nat),
        count_text("artifacts.verified"@, ready.artifacts_verified as nat),
        count_text("artifacts.unverified"@, ready.artifacts_unverified as nat),
        count_text("artifacts.quarantined"@, ready.artifacts_quarantined as nat),
    ]
}

fn status_head_lines(ready: &ReadyReport) -> (r: Vec<String>)
    ensures
        string_texts(r@) == status_head(*ready),
{
    let mut lines: Vec<String> = Vec::new();
    push_line(&mut lines, "daemon.state=running".to_owned());
    push_line(&mut lines, count_line("daemon.slot", ready.incarnation.slot as u64));
    push_line(&mut lines, count_line("daemon.epoch", ready.daemon_epoch));
    push_line(&mut lines, count_line("store.schema_epoch", ready.schema_epoch as u64));
    push_line(
        &mut lines,
        count_line("store.projections.obligations", ready.projections.obligations as u64),
    );
    push_line(
        &mut lines,
        count_line("store.projections.deliveries", ready.projections.deliveries as u64),
    );
    push_line(
        &mut lines,
        count_line(
            "store.projections.verified_through",
            seq_number(ready.projections.verified_through),
        ),
    );
    push_line(
        &mut lines,
        count_line(
            "recovery.quarantined_deliveries",
            ready.recovery.quarantined_deliveries as u64,
        ),
    );
    push_line(
        &mut lines,
        count_line("recovery.uncertain_mutations", ready.recovery.uncertain_mutations as u64),
    );
    push_line(
        &mut lines,
        count_line("recovery.ambiguous_attempts", ready.recovery.ambiguous_attempts as u64),
    );
    push_line(&mut lines, count_line("artifacts.verified", ready.artifacts_verified as u64));
    push_line(&mut lines, count_line("artifacts.unverified", ready.artifacts_unverified as u64));
    push_line(&mut lines, count_line("artifacts.quarantined", ready.artifacts_quarantined as u64));
    assert(string_texts(lines@) =~= status_head(*ready));
    lines
}

fn push_health(lines: &mut Vec<String>, conditions: &Result<Vec<OpenCondition>, StoreError>)
    ensures
        string_texts(final(lines)@) == string_texts(old(lines)@) + health_section(
            conditions_listed(*conditions),
        ),
{
    match conditions {
        Ok(rows) => {
            let more = health_lines(rows.as_slice());
            push_lines(lines, more);
        },
        Err(e) => {
            let line = error_line(e);
            push_line(lines, line);
            assert(string_texts(old(lines)@).push(line@) =~= string_texts(old(lines)@) + seq![line@]);
        },
    }
}

/// The whole status: the daemon's own numbers, the open work, the open conditions.
pub open spec fn status_of(
    ready: ReadyReport,
    open: Result<Seq<OpenView>, StoreError>,
    conditions: Result<Seq<OpenCondition>, StoreError>,
    model: spec_fn(ObligationState) -> bool,
) -> Seq<Seq<char>> {
    status_head(ready) + summary_section(open, model) + health_section(conditions)
}

/// Renders the status of a running daemon.
pub fn status_lines<A: Fn(ObligationState) -> bool>(
    ready: &ReadyReport,
    open: &Result<Vec<OpenObligation>, StoreError>,
    conditions: &Result<Vec<OpenCondition>, StoreError>,
    attention: &A,
) -> (r: Vec<String>)
    requires
        attends_total(*attention),
    ensures
        forall|model: spec_fn(ObligationState) -> bool| #[trigger]
            attends_is(*attention, model) ==> string_texts(r@) == status_of(
                *ready,
                listed(*open),
                conditions_listed(*conditions),
                model,
            ),
{
    let mut lines = status_head_lines(ready);
    let ghost head = string_texts(lines@);
    match open {
        Ok(rows) => {
            let more = obligation_summary_lines(rows.as_slice(), attention);
            push_lines(&mut lines, more);
        },
        Err(e) => {
            let line = error_line(e);
            push_line(&mut lines, line);
            assert(head.push(line@) =~= head + seq![line@]);
        },
    }
    push_health(&mut lines, conditions);
    lines
}

/// The running authority's half of a diagnosis.
pub open spec fn doctor_of(
    ready: ReadyReport,
    conditions: Result<Seq<OpenCondition>, StoreError>,
) -> Seq<Seq<char>> {
    seq![
        count_text("daemon.slot"@, ready.incarnation@.0 as nat),
        count_text("daemon.epoch"@, ready.daemon_epoch as nat),
        "daemon.reclaimed_stale_lock="@ + flag_text(ready.reclaimed_lock is Some),
        count_text("store.schema_epoch"@, ready.schema_epoch as nat),
        count_text("store.migrations_applied"@, ready.migrations_applied as nat),
        count_text(
            "store.projections.verified_through"@,
            seq_count(ready.projections.verified_through),
        ),
        count_text("artifacts.verified"@, ready.artifacts_verified as nat),
        count_text("artifacts.unverified"@, ready.artifacts_unverified as nat),
    ] + health_section(conditions)
}

/// Renders the running authority's half of a diagnosis.
pub fn daemon_doctor_lines(ready: &ReadyReport, conditions: &Result<Vec<OpenCondition>, StoreError>) -> (r:
    Vec<String>)
    ensures
        string_texts(r@) == doctor_of(*ready, conditions_listed(*conditions)),
{
    let mut lines: Vec<String> = Vec::new();
    push_line(&mut lines, count_line("daemon.slot", ready.incarnation.slot as u64));
    push_line(&mut lines, count_line("daemon.epoch", ready.daemon_epoch));
    let reclaimed = if ready.reclaimed_lock.is_some() {
        join2("daemon.reclaimed_stale_lock=", "true")
    } else {
        join2("daemon.reclaimed_stale_lock=", "false")
    };
    push_line(&mut lines, reclaimed);
    push_line(&mut lines, count_line("store.schema_epoch", ready.schema_epoch as u64));
    push_line(&mut lines, count_line("store.migrations_applied", ready.migrations_applied as u64));
    push_line(
        &mut lines,
        count_line(
            "store.projections.verified_through",
            seq_number(ready.projections.verified_through),
        ),
    );
    push_line(&mut lines, count_line("artifacts.verified", ready.artifacts_verified as u64));
    push_line(&mut lines, count_line("artifacts.unverified", ready.artifacts_unverified as u64));
    let ghost head = string_texts(lines@);
    push_health(&mut lines, conditions);
    assert(string_texts(lines@) =~= doctor_of(*ready, conditions_listed(*conditions)));
    lines
}

/// Whether lines are the open obligations, oldest first, or the line in place of them.
pub open spec fn lists_obligations(
    lines: Seq<Seq<char>>,
    open: Result<Seq<OpenView>, StoreError>,
    now: Timestamp,
) -> bool {
    match open {
        Ok(rows) => lists_oldest_first(lines, rows, now),
        Err(e) => lines == seq![error_text(e)],
    }
}

/// Answers one control request from what the store gave.
pub fn answer<A: Fn(ObligationState) -> bool>(
    request: Request,
    ready: &ReadyReport,
    open: &Result<Vec<OpenObligation>, StoreError>,
    conditions: &Result<Vec<OpenCondition>, StoreError>,
    now: Timestamp,
    attention: &A,
) -> (r: Vec<String>)
    requires
        attends_total(*attention),
    ensures
        request is Ping ==> r@.len() == 0,
        request is Status ==> (forall|model: spec_fn(ObligationState) -> bool| #[trigger]
            attends_is(*attention, model) ==> string_texts(r@) == status_of(
                *ready,
                listed(*open),
                conditions_listed(*conditions),
                model,
            )),
        request is Obligations ==> lists_obligations(string_texts(r@), listed(*open), now),
        request is Doctor ==> string_texts(r@) == doctor_of(*ready, conditions_listed(*conditions)),
{
    match request {
        Request::Ping => Vec::new(),
        Request::Status => status_lines(ready, open, conditions, attention),
        Request::Obligations => match open {
            Ok(rows) => obligation_lines(rows.as_slice(), now),
            Err(e) => {
                let mut lines: Vec<String> = Vec::new();
                push_line(&mut lines, error_line(e));
                assert(string_texts(lines@) =~= seq![error_text(*e)]);
                lines
            },
        },
        Request::Doctor => daemon_doctor_lines(ready, conditions),
    }
}

// --- Laws ------------------------------------------------------------------------------------------------

/// How far startup has come after outcomes in turn.
pub open spec fn progress_after(
    root: StateRoot,
    incarnation: ProcessIncarnation,
    outcomes: Seq<Outcome>,
) -> Progress
    decreases outcomes.len(),
{
    if outcomes.len() == 0 {
        at_first(root, incarnation)
    } else {
        advanced(progress_after(root, incarnation, outcomes.drop_last()), outcomes.last())
    }
}

/// How many steps lie behind: all of them once the daemon is ready.
pub open spec fn behind(progress: Progress) -> nat {
    match progress {
        Progress::Due(step, _) => step.place(),
        Progress::Ready(_) => 18,
        Progress::Refused(_) => 0,
    }
}

/// Whether a step was due at some point of a history, and its outcome passed.
pub open spec fn step_passed(
    root: StateRoot,
    incarnation: ProcessIncarnation,
    outcomes: Seq<Outcome>,
    step: Step,
) -> bool {
    exists|i: int, gathered: Gathered|
        0 <= i < outcomes.len() && progress_after(root, incarnation, outcomes.take(i))
            == Progress::Due(step, gathered) && answers(step, outcomes[i]) && #[trigger] judged(
            step,
            gathered,
            outcomes[i],
        ) is Ok
}

/// No step is due before every earlier one has passed, and a daemon is ready only once all have: the
/// lock is held before anything else is looked at, the filesystem is validated and the socket's path
/// fits before the store is opened, and the socket is bound last.
pub proof fn no_step_begins_early(
    root: StateRoot,
    incarnation: ProcessIncarnation,
    outcomes: Seq<Outcome>,
    step: Step,
)
    requires
        step.place() < behind(progress_after(root, incarnation, outcomes)),
    ensures
        step_passed(root, incarnation, outcomes, step),
    decreases outcomes.len(),
{
    if outcomes.len() > 0 {
        let earlier = outcomes.drop_last();
        let before = progress_after(root, incarnation, earlier);
        if step.place() < behind(before) {
            no_step_begins_early(root, incarnation, earlier, step);
            let (i, gathered) = choose|i: int, gathered: Gathered|
                0 <= i < earlier.len() && progress_after(root, incarnation, earlier.take(i))
                    == Progress::Due(step, gathered) && answers(step, earlier[i]) && #[trigger] judged(
                    step,
                    gathered,
                    earlier[i],
                ) is Ok;
            assert(outcomes.take(i) =~= earlier.take(i));
            assert(judged(step, gathered, outcomes[i]) is Ok);
        } else {
            let last = outcomes.len() - 1;
            assert(outcomes.take(last) =~= earlier);
            match before {
                Progress::Due(due, gathered) => {
                    assert(due == step);
                    assert(judged(step, gathered, outcomes[last]) is Ok);
                },
                _ => {},
            }
        }
    }
}

/// A refusal is final: whatever comes after it, the daemon does not become ready.
pub proof fn a_refused_start_stays_refused(e: DaemonError, outcome: Outcome)
    ensures
        advanced(Progress::Refused(e), outcome) == Progress::Refused(e),
{
}

/// Damage to one obligation does not stop the daemon: startup goes on to the sweep however many
/// pins did not verify.
pub proof fn an_unverified_pin_does_not_refuse(gathered: Gathered, pinned: PinnedArtifacts)
    ensures
        advanced(
            Progress::Due(Step::VerifyPins, gathered),
            Outcome::PinsVerified(Ok(pinned)),
        ) == Progress::Due(Step::SweepOrphans, Gathered { pinned, ..gathered }),
{
}

} // verus!
