//! Authorising a worker process, in the one order that is safe.
//!
//! Outside any transaction the persisted launch row is read and must re-derive its own digest, and
//! the managed configuration's bytes are read and hashed afresh; a comparison of metadata would pass
//! for a file that was rewritten. Only then is the resume admitted, and only then does the store,
//! inside one transaction, check the same facts again and record an intent. Each stage is reached
//! through the one before it and through nothing else.
use vstd::prelude::*;
use vstd::string::StringExecFns;
use crate::daemon::error::ArtifactFailure;
use crate::digest::{same_digest, sha256, sha256_of};
use crate::domain::conflict::Conflict;
use crate::domain::effect::DestinationRef;
use crate::domain::fence::{rule_is, rule_total, DaemonEpoch, SourceRef};
use crate::domain::id::{ExternalAttemptId, SessionId, SessionIncarnationId};
use crate::domain::session::{
    loadout_is, loadout_total, ConfigView, LoadoutDigest, ManagedConfigRef, SnapshotView,
    WorkerLoadoutFence, WorkerLoadoutSpec,
};
use crate::store::error::StoreError;
use crate::store::load::loadout::{ManagedConfigRecord, RecordView, SessionLoadoutRecord};
use crate::store::ops::effect::{ExternalExecutionPermit, GrantedPermit};
use crate::store::ops::session::AuthorizeWorkerSpawnRequest;

verus! {

/// What the daemon is being asked to launch or resume.
#[derive(Debug, PartialEq, Eq)]
pub struct ResumeWorkerRequest {
    /// Logical session being resumed.
    pub session: SessionId,
    /// The incarnation whose bound loadout is being resumed.
    pub incarnation: SessionIncarnationId,
    /// The exact loadout fence the caller claims to be resuming under.
    pub presented: WorkerLoadoutFence,
    /// Opaque destination the spawn targets.
    pub destination: DestinationRef,
    /// The source fact that justifies the spawn.
    pub source: SourceRef,
    /// Daemon epoch the intent is recorded under.
    pub daemon_epoch: DaemonEpoch,
}

/// Why a resume was refused. Every variant means that no process was started and no permit exists.
#[derive(Debug, PartialEq, Eq)]
pub enum ResumeRefusal {
    /// The incarnation has no bound launch loadout.
    NoLaunchLoadout,
    /// The persisted launch row does not re-derive its own digest; a durable condition says so.
    LoadoutUnverifiable,
    /// The configuration's bytes are missing, truncated or rewritten; a durable condition says so.
    ManagedConfigUnreadable(ArtifactFailure),
    /// A fence was rejected: the presented loadout, or the configuration proof.
    Refused(Conflict),
    /// The durable authority refused.
    Store(StoreError),
}

/// The refusal a store failure becomes: a conflict is a rejected fence.
pub open spec fn refusal_of(e: StoreError) -> ResumeRefusal {
    match e {
        StoreError::Conflict(conflict) => ResumeRefusal::Refused(conflict),
        _ => ResumeRefusal::Store(e),
    }
}

impl From<StoreError> for ResumeRefusal {
    fn from(e: StoreError) -> (r: Self) {
        match e {
            StoreError::Conflict(conflict) => ResumeRefusal::Refused(conflict),
            other => ResumeRefusal::Store(other),
        }
    }
}

impl vstd::std_specs::convert::FromSpecImpl<StoreError> for ResumeRefusal {
    open spec fn obeys_from_spec() -> bool {
        true
    }

    open spec fn from_spec(e: StoreError) -> Self {
        refusal_of(e)
    }
}

impl ResumeRefusal {
    /// The refusal in words; `inner` are the words of the failure it wraps.
    pub open spec fn words(self, inner: Seq<char>) -> Seq<char> {
        match self {
            ResumeRefusal::NoLaunchLoadout => {
                "session incarnation has no launch loadout to resume"@
            },
            ResumeRefusal::LoadoutUnverifiable => {
                "the persisted launch loadout failed its own integrity check: "@ + inner
            },
            ResumeRefusal::ManagedConfigUnreadable(_) => {
                "the managed configuration could not be re-proved: "@ + inner
            },
            ResumeRefusal::Refused(_) => "the resume fence was rejected: "@ + inner,
            ResumeRefusal::Store(_) => "the durable store refused: "@ + inner,
        }
    }

    /// The refusal in words; `inner` are the words of the failure it wraps.
    pub fn message(&self, inner: &str) -> (r: String)
        ensures
            r@ == self.words(inner@),
    {
        match self {
            ResumeRefusal::NoLaunchLoadout => {
                "session incarnation has no launch loadout to resume".to_owned()
            },
            ResumeRefusal::LoadoutUnverifiable => {
                let mut out = "the persisted launch loadout failed its own integrity check: ".to_owned();
                out.append(inner);
                out
            },
            ResumeRefusal::ManagedConfigUnreadable(_) => {
                let mut out = "the managed configuration could not be re-proved: ".to_owned();
                out.append(inner);
                out
            },
            ResumeRefusal::Refused(_) => {
                let mut out = "the resume fence was rejected: ".to_owned();
                out.append(inner);
                out
            },
            ResumeRefusal::Store(_) => {
                let mut out = "the durable store refused: ".to_owned();
                out.append(inner);
                out
            },
        }
    }
}

/// Whether a persisted launch row re-derives its own digest.
pub open spec fn rehydrates(record: RecordView, model: LoadoutDigest) -> bool {
    model(record.loadout) == record.digest
}

// --- The launch row --------------------------------------------------------------------------------------

/// A launch row that re-derived its own digest.
#[derive(Debug, PartialEq, Eq)]
pub struct ProvenLoadout {
    request: ResumeWorkerRequest,
    record: SessionLoadoutRecord,
}

/// What follows from reading the launch row.
#[derive(Debug, PartialEq, Eq)]
pub enum LoadoutStep {
    /// Nothing more is done.
    Refused(ResumeRefusal),
    /// The condition is to be raised, and the resume refused.
    RaiseUnverifiable,
    /// The configuration's bytes are to be read.
    ReadConfig(ProvenLoadout),
}

impl ProvenLoadout {
    /// What was asked.
    pub closed spec fn asked(self) -> ResumeWorkerRequest {
        self.request
    }

    /// The row.
    pub closed spec fn row(self) -> RecordView {
        self.record@
    }

    /// The configuration whose bytes are to be read.
    pub fn config(&self) -> (r: &ManagedConfigRecord)
        ensures
            r.reference@ == self.row().config,
            r.storage_ref@ == self.row().storage_ref,
    {
        &self.record.config
    }

    /// The configuration whose bytes are to be read, where the key it is stored under is one; a read
    /// at what is no key fails without a look at the disk.
    pub fn readable<V: Fn(&str) -> bool>(&self, valid: &V) -> (r: Result<
        &ManagedConfigRecord,
        ArtifactFailure,
    >)
        requires
            rule_total(*valid),
        ensures
            forall|keys: spec_fn(Seq<char>) -> bool| #[trigger]
                rule_is(*valid, keys) ==> (r is Ok <==> keys(self.row().storage_ref)),
            match r {
                Ok(config) => config.reference@ == self.row().config && config.storage_ref@
                    == self.row().storage_ref,
                Err(failure) => failure == ArtifactFailure::InvalidKey,
            },
    {
        if valid(self.record.config.storage_ref.as_str()) {
            Ok(self.config())
        } else {
            Err(ArtifactFailure::InvalidKey)
        }
    }
}

/// What a launch record amounts to.
pub enum LaunchVerdict {
    /// The resume is refused.
    Refused(ResumeRefusal),
    /// The record does not prove itself.
    Unverifiable,
    /// The record proves itself.
    Proven,
}

/// What was read of a launch record amounts to, under a digest.
pub open spec fn launch_verdict(
    read: Result<Option<RecordView>, StoreError>,
    model: LoadoutDigest,
) -> LaunchVerdict {
    match read {
        Err(e) => LaunchVerdict::Refused(refusal_of(e)),
        Ok(None) => LaunchVerdict::Refused(ResumeRefusal::NoLaunchLoadout),
        Ok(Some(record)) => if rehydrates(record, model) {
            LaunchVerdict::Proven
        } else {
            LaunchVerdict::Unverifiable
        },
    }
}

/// A launch record that was read, on values alone.
pub open spec fn launch_read(read: Result<Option<SessionLoadoutRecord>, StoreError>) -> Result<
    Option<RecordView>,
    StoreError,
> {
    match read {
        Ok(Some(record)) => Ok(Some(record@)),
        Ok(None) => Ok(None),
        Err(e) => Err(e),
    }
}

/// Takes the launch row as it was read. `digest` derives a loadout's digest.
pub fn loadout_read<D: Fn(&WorkerLoadoutSpec) -> [u8; 32]>(
    request: ResumeWorkerRequest,
    read: Result<Option<SessionLoadoutRecord>, StoreError>,
    digest: &D,
) -> (r: LoadoutStep)
    requires
        loadout_total(*digest),
    ensures
        read matches Err(e) ==> r == LoadoutStep::Refused(refusal_of(e)),
        read matches Ok(None) ==> r == LoadoutStep::Refused(ResumeRefusal::NoLaunchLoadout),
        forall|model: LoadoutDigest| #[trigger]
            loadout_is(*digest, model) ==> (match launch_verdict(launch_read(read), model) {
                LaunchVerdict::Refused(refusal) => r == LoadoutStep::Refused(refusal),
                LaunchVerdict::Unverifiable => r is RaiseUnverifiable,
                LaunchVerdict::Proven => r is ReadConfig,
            }),
        read matches Ok(Some(record)) ==> {
            &&& !(r is Refused)
            &&& forall|model: LoadoutDigest| #[trigger]
                loadout_is(*digest, model) ==> (r is ReadConfig <==> rehydrates(record@, model))
            &&& r matches LoadoutStep::ReadConfig(proven) ==> proven.asked() == request
                && proven.row() == record@
        },
{
    let record = match read {
        Err(e) => return LoadoutStep::Refused(ResumeRefusal::from(e)),
        Ok(None) => return LoadoutStep::Refused(ResumeRefusal::NoLaunchLoadout),
        Ok(Some(record)) => record,
    };
    let derived = digest(&record.loadout);
    if !same_digest(&derived, &record.digest) {
        return LoadoutStep::RaiseUnverifiable;
    }
    LoadoutStep::ReadConfig(ProvenLoadout { request, record })
}

/// What is refused once attention was raised about it, or the failure to raise it.
pub open spec fn once_raised(raised: Result<(), StoreError>, refusal: ResumeRefusal) -> ResumeRefusal {
    match raised {
        Ok(_) => refusal,
        Err(e) => refusal_of(e),
    }
}

/// The refusal after the condition for an unverifiable row was raised, or could not be.
pub fn unverifiable(raised: Result<(), StoreError>) -> (r: ResumeRefusal)
    ensures
        r == once_raised(raised, ResumeRefusal::LoadoutUnverifiable),
{
    match raised {
        Ok(_) => ResumeRefusal::LoadoutUnverifiable,
        Err(e) => ResumeRefusal::from(e),
    }
}

// --- The configuration's bytes ---------------------------------------------------------------------------

/// Whether an observed digest and length are the recorded ones.
pub open spec fn observation_holds(reference: ConfigView, digest: Seq<u8>, len: nat) -> bool {
    digest == reference.1 && len == reference.2
}

/// Proves a configuration from a digest and a length observed now.
pub fn observed(reference: &ManagedConfigRef, digest: &[u8; 32], len: u64) -> (r: Result<
    ManagedConfigRef,
    ArtifactFailure,
>)
    ensures
        r == (if observation_holds(reference@, digest@, len as nat) {
            Ok::<ManagedConfigRef, ArtifactFailure>(*reference)
        } else {
            Err(ArtifactFailure::Integrity)
        }),
{
    if same_digest(digest, &reference.digest) && len == reference.byte_len {
        Ok(*reference)
    } else {
        Err(ArtifactFailure::Integrity)
    }
}

/// Whether bytes are those a reference records: they hash to its digest and are as long.
pub open spec fn proves(reference: ConfigView, bytes: Seq<u8>) -> bool {
    observation_holds(reference, sha256_of(bytes), bytes.len())
}

/// Proves a configuration from the bytes just read, by a fresh digest over them.
pub fn verify_config(reference: &ManagedConfigRef, bytes: &[u8]) -> (r: Result<
    ManagedConfigRef,
    ArtifactFailure,
>)
    ensures
        r == (if proves(reference@, bytes@) {
            Ok::<ManagedConfigRef, ArtifactFailure>(*reference)
        } else {
            Err(ArtifactFailure::Integrity)
        }),
{
    let digest = sha256(bytes);
    observed(reference, &digest, bytes.len() as u64)
}

/// The rule that admits a resume: what it objects to, if anything.
pub type Admission = spec_fn(RecordView, SnapshotView, ConfigView) -> Option<Conflict>;

/// Whether a rule of admission answers for every question.
pub open spec fn admission_total<
    M: Fn(&SessionLoadoutRecord, &WorkerLoadoutFence, &ManagedConfigRef) -> Option<Conflict>,
>(objection: M) -> bool {
    forall|record: &SessionLoadoutRecord, fence: &WorkerLoadoutFence, config: &ManagedConfigRef| #[trigger]
        call_requires(objection, (record, fence, config))
}

/// Whether a rule of admission is a given one.
pub open spec fn admission_is<
    M: Fn(&SessionLoadoutRecord, &WorkerLoadoutFence, &ManagedConfigRef) -> Option<Conflict>,
>(objection: M, model: Admission) -> bool {
    forall|
        record: &SessionLoadoutRecord,
        fence: &WorkerLoadoutFence,
        config: &ManagedConfigRef,
        r: Option<Conflict>,
    | #[trigger]
        call_ensures(objection, (record, fence, config), r) ==> r == model(record@, fence@, config@)
}

/// Permission to resume under one launch snapshot. There is one way to one: admission, after the
/// configuration was proven from its bytes.
#[derive(Debug, PartialEq, Eq)]
pub struct ResumePermit {
    fence: WorkerLoadoutFence,
}

impl ResumePermit {
    /// The snapshot the resume was admitted against.
    pub closed spec fn admitted(self) -> WorkerLoadoutFence {
        self.fence
    }

    /// The snapshot the resume was admitted against.
    pub fn fence(&self) -> (r: WorkerLoadoutFence)
        ensures
            r == self.admitted(),
    {
        self.fence
    }
}

/// A resume that was admitted, with the configuration that was proven.
#[derive(Debug, PartialEq, Eq)]
pub struct AdmittedResume {
    request: ResumeWorkerRequest,
    config: ManagedConfigRef,
    resume: ResumePermit,
}

/// What follows from reading the configuration.
#[derive(Debug, PartialEq, Eq)]
pub enum ConfigStep {
    /// The condition is to be raised, and the resume refused.
    RaiseConfigMissing(ArtifactFailure),
    /// Nothing more is done.
    Refused(ResumeRefusal),
    /// The store is to be asked.
    Authorize(AdmittedResume),
}

/// What reading the configuration decides, on values alone.
pub enum ConfigVerdict {
    Unproven(ArtifactFailure),
    Objected(Conflict),
    Admitted,
}

/// What reading the configuration decides: the bytes must be there and be the recorded ones, and the
/// resume must be admitted.
pub open spec fn config_verdict(
    record: RecordView,
    presented: SnapshotView,
    read: Result<Seq<u8>, ArtifactFailure>,
    model: Admission,
) -> ConfigVerdict {
    match read {
        Err(failure) => ConfigVerdict::Unproven(failure),
        Ok(bytes) => if !proves(record.config, bytes) {
            ConfigVerdict::Unproven(ArtifactFailure::Integrity)
        } else {
            match model(record, presented, record.config) {
                Some(conflict) => ConfigVerdict::Objected(conflict),
                None => ConfigVerdict::Admitted,
            }
        },
    }
}

/// Bytes as they were read, on values alone.
pub open spec fn bytes_read(read: Result<Vec<u8>, ArtifactFailure>) -> Result<Seq<u8>, ArtifactFailure> {
    match read {
        Ok(bytes) => Ok(bytes@),
        Err(failure) => Err(failure),
    }
}

impl ProvenLoadout {
    /// Takes the configuration's bytes as they were read. `objection` says what it objects to in a
    /// resume, if anything.
    pub fn config_read<
        M: Fn(&SessionLoadoutRecord, &WorkerLoadoutFence, &ManagedConfigRef) -> Option<Conflict>,
    >(self, read: Result<Vec<u8>, ArtifactFailure>, objection: &M) -> (r: ConfigStep)
        requires
            admission_total(*objection),
        ensures
            forall|model: Admission| #[trigger]
                admission_is(*objection, model) ==> (match config_verdict(
                    self.row(),
                    self.asked().presented@,
                    bytes_read(read),
                    model,
                ) {
                    ConfigVerdict::Unproven(failure) => r == ConfigStep::RaiseConfigMissing(failure),
                    ConfigVerdict::Objected(conflict) => r == ConfigStep::Refused(
                        ResumeRefusal::Refused(conflict),
                    ),
                    ConfigVerdict::Admitted => r is Authorize,
                }),
            r matches ConfigStep::Authorize(admitted) ==> admitted.asked() == self.asked()
                && admitted.proven() == self.row().config && admitted.permit().admitted()
                == self.asked().presented && bytes_read(read) is Ok && proves(
                self.row().config,
                bytes_read(read)->Ok_0,
            ),
    {
        let bytes = match read {
            Err(failure) => return ConfigStep::RaiseConfigMissing(failure),
            Ok(bytes) => bytes,
        };
        let config = match verify_config(&self.record.config.reference, bytes.as_slice()) {
            Err(failure) => return ConfigStep::RaiseConfigMissing(failure),
            Ok(config) => config,
        };
        match objection(&self.record, &self.request.presented, &config) {
            Some(conflict) => ConfigStep::Refused(ResumeRefusal::Refused(conflict)),
            None => {
                let resume = ResumePermit { fence: self.request.presented };
                ConfigStep::Authorize(AdmittedResume { request: self.request, config, resume })
            },
        }
    }
}

/// The refusal after the condition for an unreadable configuration was raised, or could not be.
pub fn config_missing(raised: Result<(), StoreError>, failure: ArtifactFailure) -> (r: ResumeRefusal)
    ensures
        r == once_raised(raised, ResumeRefusal::ManagedConfigUnreadable(failure)),
{
    match raised {
        Ok(_) => ResumeRefusal::ManagedConfigUnreadable(failure),
        Err(e) => ResumeRefusal::from(e),
    }
}

// --- The intent ------------------------------------------------------------------------------------------

impl AdmittedResume {
    /// What was asked.
    pub closed spec fn asked(self) -> ResumeWorkerRequest {
        self.request
    }

    /// The configuration that was proven.
    pub closed spec fn proven(self) -> ConfigView {
        self.config@
    }

    /// The permission to resume.
    pub closed spec fn permit(self) -> ResumePermit {
        self.resume
    }

    /// What the store is asked to authorise: what was proven, and nothing else.
    pub fn spawn_request(&self) -> (r: AuthorizeWorkerSpawnRequest)
        ensures
            r.session == self.asked().session,
            r.incarnation == self.asked().incarnation,
            r.verified_loadout == self.asked().presented,
            r.verified_config@ == self.proven(),
            r.destination == self.asked().destination,
            r.source == self.asked().source,
            r.daemon_epoch == self.asked().daemon_epoch,
    {
        AuthorizeWorkerSpawnRequest {
            session: self.request.session,
            incarnation: self.request.incarnation,
            verified_loadout: self.request.presented,
            verified_config: self.config,
            destination: self.request.destination.clone(),
            source: self.request.source.clone(),
            daemon_epoch: self.request.daemon_epoch,
        }
    }

    /// Takes what the store granted.
    pub fn granted(self, granted: Result<GrantedPermit, StoreError>) -> (r: Result<
        GrantedResume,
        ResumeRefusal,
    >)
        ensures
            match granted {
                Err(e) => r == Err::<GrantedResume, ResumeRefusal>(refusal_of(e)),
                Ok(permit) => r matches Ok(resume) && resume.permits() == (
                    permit.attempt,
                    permit.permit,
                    self.permit(),
                ),
            },
    {
        match granted {
            Err(e) => Err(ResumeRefusal::from(e)),
            Ok(granted) => Ok(GrantedResume { granted, resume: self.resume }),
        }
    }
}

/// A resume whose intent is committed.
#[derive(Debug, PartialEq, Eq)]
pub struct GrantedResume {
    granted: GrantedPermit,
    resume: ResumePermit,
}

impl GrantedResume {
    /// The attempt and the two permits.
    pub closed spec fn permits(self) -> (ExternalAttemptId, ExternalExecutionPermit, ResumePermit) {
        (self.granted.attempt, self.granted.permit, self.resume)
    }

    /// Takes what resolving the two conditions gave: both proofs held, so an earlier finding about
    /// them is stale.
    pub fn resolved(
        self,
        loadout: Result<(), StoreError>,
        config: Result<(), StoreError>,
    ) -> (r: Result<WorkerSpawnAuthorization, ResumeRefusal>)
        ensures
            match (loadout, config) {
                (Err(e), _) => r == Err::<WorkerSpawnAuthorization, ResumeRefusal>(refusal_of(e)),
                (Ok(_), Err(e)) => r == Err::<WorkerSpawnAuthorization, ResumeRefusal>(
                    refusal_of(e),
                ),
                _ => r matches Ok(authorization) && authorization.permits() == self.permits(),
            },
    {
        if let Err(e) = loadout {
            return Err(ResumeRefusal::from(e));
        }
        if let Err(e) = config {
            return Err(ResumeRefusal::from(e));
        }
        Ok(
            WorkerSpawnAuthorization {
                attempt: self.granted.attempt,
                permit: self.granted.permit,
                resume: self.resume,
            },
        )
    }
}

/// Permission to create exactly one worker process: an intent is committed, and the launch snapshot
/// was proven against bytes the row does not control.
#[derive(Debug, PartialEq, Eq)]
pub struct WorkerSpawnAuthorization {
    attempt: ExternalAttemptId,
    permit: ExternalExecutionPermit,
    resume: ResumePermit,
}

impl WorkerSpawnAuthorization {
    /// The attempt and the two permits.
    pub closed spec fn permits(self) -> (ExternalAttemptId, ExternalExecutionPermit, ResumePermit) {
        (self.attempt, self.permit, self.resume)
    }

    /// The attempt whose intent is durable. An identity, not a capability.
    pub fn attempt(&self) -> (r: ExternalAttemptId)
        ensures
            r == self.permits().0,
    {
        self.attempt
    }

    /// The launch snapshot the resume was admitted against.
    pub fn fence(&self) -> (r: WorkerLoadoutFence)
        ensures
            r == self.permits().2.admitted(),
    {
        self.resume.fence
    }

    /// Hands both permits to a runtime adapter, by value, once. There is no other way to either.
    pub fn spawn_with<T, F: FnOnce(ExternalExecutionPermit, ResumePermit) -> T>(self, adapter: F) -> (r: T)
        requires
            call_requires(adapter, (self.permits().1, self.permits().2)),
        ensures
            call_ensures(adapter, (self.permits().1, self.permits().2), r),
    {
        adapter(self.permit, self.resume)
    }
}

// --- Laws ------------------------------------------------------------------------------------------------

/// A resume is admitted only from bytes that are the recorded ones: a configuration that is missing,
/// shorter, longer or rewritten is never resumed, whatever the row says.
pub proof fn a_resume_needs_the_recorded_bytes(
    record: RecordView,
    presented: SnapshotView,
    read: Result<Seq<u8>, ArtifactFailure>,
    model: Admission,
)
    requires
        config_verdict(record, presented, read, model) is Admitted,
    ensures
        read is Ok,
        sha256_of(read->Ok_0) == record.config.1,
        read->Ok_0.len() == record.config.2,
        model(record, presented, record.config) is None,
{
}

} // verus!
