//! What starting the daemon promises.
//!
//! Who takes the lock, which files are trusted, which step follows which, what refuses a start, and when
//! a worker is resumed.
use vstd::prelude::*;
use crate::daemon::artifacts::{
    pin_action, pins_of, protected, references, PinAction, PinnedArtifacts, PinnedView,
};
use crate::daemon::error::{ArtifactFailure, DaemonError, LockDefect, PathDefect, ReclaimedLock};
use crate::daemon::incarnation::{after_last, ticks_in, trimmed};
use crate::daemon::ipc::{socket_path_fits, IpcError};
use crate::daemon::layout::{
    below, default_root, inside, outcome_of, path_defect, LayoutFacts, PathClass, PathFacts,
    StateRoot,
};
use crate::daemon::lock::{
    a_written_record_reads_back, elected, record_read, record_text, status_of, status_seen, HolderState,
    LockStatus, RecordView, MAX_RECORD_BYTES, NO_START,
};
use crate::daemon::startup::{
    advanced, at_first, socket_of, DatabaseFile, Gathered, Outcome, Progress, Step,
};
use crate::daemon::worker::{
    config_verdict, launch_verdict, observation_holds, once_raised, proves, refusal_of, rehydrates,
    Admission, ConfigVerdict, LaunchVerdict, ResumeRefusal,
};
use crate::digest::sha256_of;
use crate::domain::conflict::Conflict;
use crate::domain::lease::{IncarnationMismatch, IncarnationView, ProcessIncarnation};
use crate::domain::session::{ConfigView, LoadoutDigest, SnapshotView};
use crate::store::error::StoreError;
use crate::store::load::artifact::OpenView;
use crate::store::load::loadout::RecordView as LaunchView;
use crate::store::startup::StartupReport;
use crate::text::{a_dictionary_exists, in_order, is_white, is_word, words};

verus! {

// --- The lock --------------------------------------------------------------------------------------------

/// A lock file is read as the record it holds: an empty one holds none, one that is too large or holds
/// anything else is unreadable, and what a holder wrote is read back.
pub proof fn a_lock_file_reads_as_it_was_written(
    holder: IncarnationView,
    state: HolderState,
    bytes: u64,
    text: Seq<char>,
    rule: spec_fn(Seq<char>) -> bool,
)
    requires
        is_word(holder.1),
        holder.1 != NO_START@,
        rule(holder.1),
        bytes <= MAX_RECORD_BYTES,
    ensures
        record_read(Seq::empty(), bytes, rule) == Ok::<Option<RecordView>, LockDefect>(None),
        record_read(text, (MAX_RECORD_BYTES + 1) as u64, rule) == Err::<Option<RecordView>, LockDefect>(
            LockDefect::Unreadable,
        ),
        record_read(record_text(holder, state), bytes, rule) matches Ok(Some(record)) && record.slot
            == holder.0 && record.state == state,
        record_read(text, bytes, rule) matches Err(defect) ==> defect is Unreadable,
        text.len() > 0 ==> !(record_read(text, bytes, rule) matches Ok(None)),
{
    a_written_record_reads_back(holder, state, rule);
    reveal_strlit("cglock1");
    assert(record_text(holder, state).len() > 0);
}

/// A lock that is free is taken exactly where its last holder is not running: after a clean release or
/// with no record at all it is taken as it is; a held record is reclaimed where its process is gone or
/// another one, and refused where that very process still runs and is not the one that asks.
pub proof fn a_free_lock_is_taken_where_its_holder_is_gone(
    record: RecordView,
    live: Option<IncarnationView>,
    holder: IncarnationView,
)
    ensures
        elected(Ok(None), true, live, holder) == Ok::<Option<ReclaimedLock>, DaemonError>(None),
        record.state is Released ==> elected(Ok(Some(record)), true, live, holder) == Ok::<
            Option<ReclaimedLock>,
            DaemonError,
        >(Some(ReclaimedLock { slot: record.slot, mismatch: None })),
        elected(Ok(Some(record)), true, live, holder) is Err <==> (record.state is Held
            && record.instance() is Some && live == record.instance() && live != Some(holder)),
        elected(Ok(Some(record)), true, live, holder) matches Ok(taken) ==> (taken matches Some(reclaimed)
            && reclaimed.slot == record.slot && (reclaimed.mismatch is Some ==> record.state is Held
            && live is Some && record.instance() is Some && live != record.instance())),
        record.state is Held && record.instance() is Some && live is Some && live->0
            != record.instance()->0 ==> (elected(Ok(Some(record)), true, live, holder) matches Ok(
            Some(reclaimed),
        ) && reclaimed.mismatch == Some(
            if (live->0).0 == record.slot {
                IncarnationMismatch::SlotReused
            } else {
                IncarnationMismatch::DifferentSlot
            },
        )),
        elected(Ok(Some(record)), false, live, holder) == Err::<Option<ReclaimedLock>, DaemonError>(
            DaemonError::AuthorityHeld { slot: record.slot },
        ),
{
}

/// A lock's status says what was found: unreadable where its record is, held by the recorded process
/// where it is not free, and otherwise free, cleanly so unless its last holder never released it.
pub proof fn a_locks_status_says_what_was_found(
    record: Result<Option<RecordView>, LockDefect>,
    free: bool,
    last: RecordView,
)
    ensures
        status_of(record, free) is Unreadable <==> record is Err,
        status_of(record, free) is Held <==> record is Ok && !free,
        status_of(record, free) is Free <==> record is Ok && free,
        !(status_of(record, free) is Absent),
        status_of(Ok(Some(last)), false) == (LockStatus::Held { slot: last.slot }),
        status_of(Ok(Some(last)), true) == (LockStatus::Free {
            slot: Some(last.slot),
            released: last.state is Released,
        }),
        status_of(Ok(None), true) == (LockStatus::Free { slot: None, released: true }),
        status_seen(None, free) is Absent,
        status_seen(Some(record), free) == status_of(record, free),
{
}

// --- The process -----------------------------------------------------------------------------------------

/// What follows the last mark is what follows it: nothing after it is a mark, and everything before it is
/// left out. There is none where there is no mark.
pub proof fn what_follows_the_last_mark(before: Seq<char>, rest: Seq<char>, mark: char)
    requires
        !rest.contains(mark),
    ensures
        after_last(before.push(mark) + rest, mark) == Some(rest),
        after_last(rest, mark) is None,
    decreases rest.len(),
{
    let text = before.push(mark) + rest;
    if rest.len() == 0 {
        assert(text =~= before.push(mark));
        assert(text.last() == mark);
        assert(rest =~= Seq::empty());
    } else {
        let shorter = rest.drop_last();
        assert(rest.contains(rest.last()));
        assert forall|c: char| #[trigger] shorter.contains(c) implies rest.contains(c) by {
            let k = choose|k: int| 0 <= k < shorter.len() && shorter[k] == c;
            assert(rest[k] == c);
        }
        what_follows_the_last_mark(before, shorter, mark);
        assert(text.drop_last() =~= before.push(mark) + shorter);
        assert(text.last() == rest.last());
        assert(shorter.push(rest.last()) =~= rest);
    }
}

/// A process's start is the twentieth word after its name, whatever the name holds; a text without that
/// many words has none.
pub proof fn a_start_is_the_twentieth_word_after_the_name(before: Seq<char>, rest: Seq<char>)
    requires
        !rest.contains(')'),
    ensures
        words(rest).len() > 19 ==> ticks_in(before.push(')') + rest) == Some(words(rest)[19]),
        words(rest).len() <= 19 ==> ticks_in(before.push(')') + rest) is None,
        ticks_in(rest) is None,
{
    what_follows_the_last_mark(before, rest, ')');
}

/// Whether a text is white space throughout.
pub open spec fn all_white(text: Seq<char>) -> bool {
    forall|i: int| 0 <= i < text.len() ==> is_white(#[trigger] text[i])
}

/// Trimming takes white space off both ends and nothing else: what is left neither begins nor ends with
/// any, what was taken off is white throughout, and a text that needs none taken off is left as it is.
pub proof fn trimming_takes_white_space_off_the_ends(text: Seq<char>) -> (ends: (Seq<char>, Seq<char>))
    ensures
        trimmed(text).len() > 0 ==> !is_white(trimmed(text)[0]) && !is_white(trimmed(text).last()),
        text.len() > 0 && !is_white(text[0]) && !is_white(text.last()) ==> trimmed(text) == text,
        text == ends.0 + trimmed(text) + ends.1,
        all_white(ends.0),
        all_white(ends.1),
    decreases text.len(),
{
    let nothing = Seq::<char>::empty();
    if text.len() == 0 {
        assert(text =~= nothing + text + nothing);
        (nothing, nothing)
    } else if is_white(text[0]) {
        let (before, after) = trimming_takes_white_space_off_the_ends(text.skip(1));
        let front = seq![text[0]] + before;
        assert(text =~= seq![text[0]] + text.skip(1));
        assert(text =~= front + trimmed(text) + after);
        assert forall|i: int| 0 <= i < front.len() implies is_white(#[trigger] front[i]) by {
            if i > 0 {
                assert(front[i] == before[i - 1]);
            }
        }
        (front, after)
    } else if is_white(text.last()) {
        let (before, after) = trimming_takes_white_space_off_the_ends(text.drop_last());
        let back = after.push(text.last());
        assert(text =~= text.drop_last().push(text.last()));
        assert(text =~= before + trimmed(text) + back);
        (before, back)
    } else {
        assert(text =~= nothing + text + nothing);
        (nothing, nothing)
    }
}

// --- The state root --------------------------------------------------------------------------------------

/// The state root is the one that was given; without one it lies below the state directory, and without
/// that below the home. There is none where nothing at all is known, and an empty text is nothing.
pub proof fn a_state_root_is_the_first_that_is_known(
    explicit: Option<Seq<char>>,
    xdg: Option<Seq<char>>,
    home: Option<Seq<char>>,
    macos: bool,
)
    ensures
        explicit is Some && explicit->0.len() > 0 ==> default_root(explicit, xdg, home, macos) == explicit,
        !(explicit is Some && explicit->0.len() > 0) && xdg is Some && xdg->0.len() > 0 ==> (default_root(
            explicit,
            xdg,
            home,
            macos,
        ) matches Some(root) && inside(xdg->0, root)),
        !(explicit is Some && explicit->0.len() > 0) && !(xdg is Some && xdg->0.len() > 0)
            && home is Some && home->0.len() > 0 ==> default_root(explicit, xdg, home, macos) is Some,
        default_root(explicit, xdg, home, macos) is None <==> !(explicit is Some && explicit->0.len() > 0)
            && !(xdg is Some && xdg->0.len() > 0) && !(home is Some && home->0.len() > 0),
{
    reveal_strlit("command-governor");
    assert("command-governor"@.len() > 0 && "command-governor"@[0] != '/');
}

/// The directories of a state root are its own and apart from one another.
pub proof fn a_state_roots_directories_are_apart(root: StateRoot, a: PathClass, b: PathClass)
    ensures
        root.directory_of(PathClass::StateRoot) == root.root@,
        !(a is StateRoot) ==> inside(root.root@, root.directory_of(a)),
        root.directory_of(a) == root.directory_of(b) ==> a == b,
{
    reveal_strlit("artifacts");
    reveal_strlit("ipc");
    reveal_strlit("logs");
    reveal_strlit("/");
    assert("artifacts"@.len() == 9 && "artifacts"@[0] != '/');
    assert("ipc"@.len() == 3 && "ipc"@[0] != '/');
    assert("logs"@.len() == 4 && "logs"@[0] != '/');
    assert(below(root.root@, "artifacts"@).len() >= root.root@.len() + 9);
    assert(below(root.root@, "logs"@).len() <= root.root@.len() + 5);
    assert(below(root.root@, "logs"@).len() == below(root.root@, "ipc"@).len() + 1);
    assert(below(root.root@, "ipc"@).len() > root.root@.len());
}

/// A path passes exactly where it is there, is no link, is a directory where one is wanted and no
/// directory where none is, belongs to the owner, and is closed to everyone else; each fault has its own
/// name.
pub proof fn a_path_passes_where_it_is_private(facts: PathFacts, owner_uid: u32, as_directory: bool)
    ensures
        path_defect(facts, owner_uid, as_directory) is Ok <==> (facts matches PathFacts::Found {
            symlink,
            directory,
            uid,
            mode,
        } && !symlink && directory == as_directory && uid == owner_uid && mode % 64 == 0),
        path_defect(PathFacts::Missing, owner_uid, as_directory) == Err::<(), PathDefect>(
            PathDefect::Uncreatable,
        ),
        path_defect(PathFacts::Unreadable, owner_uid, as_directory) == Err::<(), PathDefect>(
            PathDefect::Unreadable,
        ),
        facts matches PathFacts::Found { symlink, directory, uid, mode } ==> {
            &&& symlink <==> path_defect(facts, owner_uid, as_directory) == Err::<(), PathDefect>(
                PathDefect::Symlink,
            )
            &&& !symlink && directory != as_directory <==> path_defect(facts, owner_uid, as_directory)
                == Err::<(), PathDefect>(PathDefect::NotADirectory)
            &&& !symlink && directory == as_directory && uid != owner_uid <==> path_defect(
                facts,
                owner_uid,
                as_directory,
            ) == Err::<(), PathDefect>(PathDefect::ForeignOwner)
        },
{
}

/// An audit is of the class it names: it reports the fault of that class's own directory, or none.
pub proof fn an_audit_is_of_its_own_directory(facts: LayoutFacts, owner_uid: u32, class: PathClass)
    ensures
        outcome_of(facts, owner_uid, class).class == class,
        outcome_of(facts, owner_uid, class).defect is None <==> path_defect(
            match class {
                PathClass::StateRoot => facts.state_root,
                PathClass::Artifacts => facts.artifacts,
                PathClass::Ipc => facts.ipc,
                PathClass::Logs => facts.logs,
            },
            owner_uid,
            true,
        ) is Ok,
        outcome_of(facts, owner_uid, class).defect matches Some(defect) ==> path_defect(
            facts.found(class),
            owner_uid,
            true,
        ) == Err::<(), PathDefect>(defect),
{
}

// --- The steps -------------------------------------------------------------------------------------------

/// A start begins with nothing gathered, and an outcome that does not answer the step that is due changes
/// nothing.
pub proof fn a_start_waits_for_its_answer(
    root: StateRoot,
    incarnation: ProcessIncarnation,
    gathered: Gathered,
    opened: bool,
)
    ensures
        at_first(root, incarnation) matches Progress::Due(step, first) && step is PrepareRoot && first.root
            == root && first.incarnation == incarnation && first.reclaimed is None && first.store is None
            && first.pinned.verified == 0 && first.pinned.unverified == 0 && first.quarantined == 0,
        advanced(Progress::Due(Step::PrepareRoot, gathered), Outcome::LogOpened(opened)) == Progress::Due(
            Step::PrepareRoot,
            gathered,
        ),
        advanced(Progress::Due(Step::TakeLock, gathered), Outcome::LogOpened(opened)) == Progress::Due(
            Step::TakeLock,
            gathered,
        ),
        advanced(Progress::Due(Step::OpenStore, gathered), Outcome::LogOpened(opened)) == Progress::Due(
            Step::OpenStore,
            gathered,
        ),
{
}

/// The lock is taken before anything is opened, and whoever does not get it does not start: the refusal
/// is the election's own.
pub proof fn a_start_needs_the_lock(gathered: Gathered, e: DaemonError, taken: Option<ReclaimedLock>)
    ensures
        advanced(Progress::Due(Step::TakeLock, gathered), Outcome::Elected(Err(e))) == Progress::Refused(e),
        advanced(Progress::Due(Step::TakeLock, gathered), Outcome::Elected(Ok(taken))) == Progress::Due(
            Step::LearnOwner,
            Gathered { reclaimed: taken, ..gathered },
        ),
{
}

/// Every directory of the root is private to the owner that was learned, or the start is refused for that
/// very directory; so is the lock file, and the socket's path has to fit.
pub proof fn a_start_needs_private_directories(
    gathered: Gathered,
    class: PathClass,
    facts: PathFacts,
    defect: PathDefect,
    owner_uid: u32,
)
    ensures
        advanced(Progress::Due(Step::PrepareRoot, gathered), Outcome::RootPrepared(Err(defect)))
            == Progress::Refused(DaemonError::Filesystem { class: PathClass::StateRoot, defect }),
        advanced(Progress::Due(Step::PrepareRoot, gathered), Outcome::RootPrepared(Ok(())))
            == Progress::Due(Step::TakeLock, gathered),
        advanced(Progress::Due(Step::LearnOwner, gathered), Outcome::OwnerLearned(Err(defect)))
            == Progress::Refused(DaemonError::Filesystem { class: PathClass::StateRoot, defect }),
        advanced(Progress::Due(Step::LearnOwner, gathered), Outcome::OwnerLearned(Ok(owner_uid)))
            == Progress::Due(
            Step::PrepareDirectory(PathClass::StateRoot),
            Gathered { owner_uid, ..gathered },
        ),
        advanced(
            Progress::Due(Step::PrepareDirectory(class), gathered),
            Outcome::DirectoryPrepared(Err(defect)),
        ) == Progress::Refused(DaemonError::Filesystem { class, defect }),
        path_defect(facts, gathered.owner_uid, true) matches Err(found) ==> advanced(
            Progress::Due(Step::PrepareDirectory(class), gathered),
            Outcome::DirectoryPrepared(Ok(facts)),
        ) == Progress::Refused(DaemonError::Filesystem { class, defect: found }),
        path_defect(facts, gathered.owner_uid, true) is Ok ==> (advanced(
            Progress::Due(Step::PrepareDirectory(class), gathered),
            Outcome::DirectoryPrepared(Ok(facts)),
        ) matches Progress::Due(next, kept) && kept == gathered && next == (match class {
            PathClass::StateRoot => Step::PrepareDirectory(PathClass::Artifacts),
            PathClass::Artifacts => Step::PrepareDirectory(PathClass::Ipc),
            PathClass::Ipc => Step::PrepareDirectory(PathClass::Logs),
            PathClass::Logs => Step::LookAtLock,
        })),
        path_defect(facts, gathered.owner_uid, false) matches Err(found) ==> advanced(
            Progress::Due(Step::LookAtLock, gathered),
            Outcome::LockSeen(facts),
        ) == Progress::Refused(
            DaemonError::Filesystem { class: PathClass::StateRoot, defect: found },
        ),
        path_defect(facts, gathered.owner_uid, false) is Ok ==> (match socket_path_fits(
            socket_of(gathered.root),
        ) {
            Ok(_) => advanced(Progress::Due(Step::LookAtLock, gathered), Outcome::LockSeen(facts))
                == Progress::Due(Step::OpenLog, gathered),
            Err(e) => advanced(Progress::Due(Step::LookAtLock, gathered), Outcome::LockSeen(facts))
                == Progress::Refused(DaemonError::Ipc(e)),
        }),
{
}

/// A store that does not open refuses the start with its own failure, and so do a log, artifacts, pins, a
/// sweep and a socket that fail; what each of them gave is kept.
pub proof fn a_start_needs_every_part_to_open(
    gathered: Gathered,
    report: StartupReport,
    e: StoreError,
    failure: ArtifactFailure,
    refused: DaemonError,
    unbound: IpcError,
    pinned: PinnedArtifacts,
    quarantined: usize,
)
    ensures
        advanced(Progress::Due(Step::OpenLog, gathered), Outcome::LogOpened(false)) == Progress::Refused(
            DaemonError::Logging,
        ),
        advanced(Progress::Due(Step::OpenLog, gathered), Outcome::LogOpened(true)) == Progress::Due(
            Step::OpenStore,
            gathered,
        ),
        advanced(Progress::Due(Step::OpenStore, gathered), Outcome::StoreOpened(Err(e)))
            == Progress::Refused(DaemonError::Store(e)),
        advanced(Progress::Due(Step::OpenStore, gathered), Outcome::StoreOpened(Ok(report)))
            == Progress::Due(
            Step::Harden(DatabaseFile::Main),
            Gathered { store: Some(report), ..gathered },
        ),
        advanced(Progress::Due(Step::OpenArtifacts, gathered), Outcome::ArtifactsOpened(Err(failure)))
            == Progress::Refused(DaemonError::Artifacts(failure)),
        advanced(Progress::Due(Step::OpenArtifacts, gathered), Outcome::ArtifactsOpened(Ok(())))
            == Progress::Due(Step::VerifyPins, gathered),
        advanced(Progress::Due(Step::VerifyPins, gathered), Outcome::PinsVerified(Err(e)))
            == Progress::Refused(DaemonError::Store(e)),
        advanced(Progress::Due(Step::VerifyPins, gathered), Outcome::PinsVerified(Ok(pinned)))
            == Progress::Due(Step::SweepOrphans, Gathered { pinned, ..gathered }),
        advanced(Progress::Due(Step::SweepOrphans, gathered), Outcome::Swept(Err(refused)))
            == Progress::Refused(refused),
        advanced(Progress::Due(Step::SweepOrphans, gathered), Outcome::Swept(Ok(quarantined)))
            == Progress::Due(Step::BindSocket, Gathered { quarantined, ..gathered }),
        advanced(Progress::Due(Step::BindSocket, gathered), Outcome::Bound(Err(unbound)))
            == Progress::Refused(DaemonError::Ipc(unbound)),
        advanced(Progress::Due(Step::BindSocket, gathered), Outcome::Bound(Ok(()))) == Progress::Due(
            Step::LookAtSocket,
            gathered,
        ),
{
}

/// The database's files are private wherever they are there, each of the three in turn, or the start is
/// refused for the state root.
pub proof fn a_start_needs_private_database_files(
    gathered: Gathered,
    file: DatabaseFile,
    facts: PathFacts,
    defect: PathDefect,
)
    ensures
        advanced(Progress::Due(Step::Harden(file), gathered), Outcome::Hardened(Some(Err(defect))))
            == Progress::Refused(DaemonError::Filesystem { class: PathClass::StateRoot, defect }),
        path_defect(facts, gathered.owner_uid, false) matches Err(found) ==> advanced(
            Progress::Due(Step::Harden(file), gathered),
            Outcome::Hardened(Some(Ok(facts))),
        ) == Progress::Refused(
            DaemonError::Filesystem { class: PathClass::StateRoot, defect: found },
        ),
        path_defect(facts, gathered.owner_uid, false) is Ok ==> advanced(
            Progress::Due(Step::Harden(file), gathered),
            Outcome::Hardened(Some(Ok(facts))),
        ) == advanced(Progress::Due(Step::Harden(file), gathered), Outcome::Hardened(None)),
        advanced(Progress::Due(Step::Harden(file), gathered), Outcome::Hardened(None)) == Progress::Due(
            match file {
                DatabaseFile::Main => Step::Harden(DatabaseFile::WriteAheadLog),
                DatabaseFile::WriteAheadLog => Step::Harden(DatabaseFile::SharedMemory),
                DatabaseFile::SharedMemory => Step::OpenArtifacts,
            },
            gathered,
        ),
{
}

/// A daemon is ready once its socket and the directory it lies in are private, and not before; and what
/// it reports is what was gathered on the way.
pub proof fn a_ready_daemon_reports_what_was_gathered(
    gathered: Gathered,
    directory: PathFacts,
    socket: PathFacts,
    store: StartupReport,
)
    requires
        gathered.store == Some(store),
        store.migrations.applied@.len() <= usize::MAX,
    ensures
        path_defect(directory, gathered.owner_uid, true) matches Err(defect) ==> advanced(
            Progress::Due(Step::LookAtSocket, gathered),
            Outcome::SocketSeen(Some(directory), Some(socket)),
        ) == Progress::Refused(DaemonError::Filesystem { class: PathClass::Ipc, defect }),
        path_defect(directory, gathered.owner_uid, true) is Ok ==> (path_defect(
            socket,
            gathered.owner_uid,
            false,
        ) matches Err(defect) ==> advanced(
            Progress::Due(Step::LookAtSocket, gathered),
            Outcome::SocketSeen(Some(directory), Some(socket)),
        ) == Progress::Refused(DaemonError::Filesystem { class: PathClass::Ipc, defect })),
        path_defect(directory, gathered.owner_uid, true) is Ok && path_defect(
            socket,
            gathered.owner_uid,
            false,
        ) is Ok ==> (advanced(
            Progress::Due(Step::LookAtSocket, gathered),
            Outcome::SocketSeen(Some(directory), Some(socket)),
        ) matches Progress::Ready(report) && report.daemon_epoch == store.daemon_epoch
            && report.incarnation == gathered.incarnation && report.reclaimed_lock == gathered.reclaimed
            && report.schema_epoch == store.migrations.epoch && report.migrations_applied
            == store.migrations.applied@.len() && report.projections == store.projections
            && report.recovery == store.recovery && report.artifacts_verified
            == gathered.pinned.verified && report.artifacts_unverified == gathered.pinned.unverified
            && report.artifacts_quarantined == gathered.quarantined),
{
}

// --- Artifacts -------------------------------------------------------------------------------------------

/// Every open obligation with a result has its pin, about that obligation and that artifact, in the order
/// they are listed, and one without has none.
pub proof fn every_result_is_pinned(rows: Seq<OpenView>, row: OpenView)
    ensures
        pins_of(Seq::empty()).len() == 0,
        match row.result_artifact {
            Some(artifact) => {
                let pins = pins_of(rows.push(row));
                &&& pins.len() == pins_of(rows).len() + 1
                &&& pins.drop_last() == pins_of(rows)
                &&& pins.last().request.obligation == row.id
                &&& pins.last().request.artifact == artifact.id
                &&& pins.last().artifact == artifact
            },
            None => pins_of(rows.push(row)) == pins_of(rows),
        },
{
    assert(rows.push(row).drop_last() =~= rows);
    if let Some(artifact) = row.result_artifact {
        assert(pins_of(rows.push(row)).drop_last() =~= pins_of(rows));
    }
}

/// A pin that reads is resolved and one that does not is raised, with why.
pub proof fn a_pin_is_raised_where_it_does_not_read(pin: PinnedView, failure: ArtifactFailure)
    ensures
        pin_action(pin.request, Ok(())) == PinAction::Resolve(pin.request),
        pin_action(pin.request, Err(failure)) == PinAction::Raise(pin.request, failure),
{
}

/// What is protected from the sweep is what is referenced, each once and in order; nothing is swept where
/// a reference is no storage key.
pub proof fn what_is_protected_is_what_is_referenced(
    artifacts: Seq<crate::domain::artifact::ArtifactView>,
    rule: spec_fn(Seq<char>) -> bool,
    name: Seq<char>,
)
    ensures
        protected(artifacts, rule) is Ok <==> forall|i: int|
            0 <= i < artifacts.len() ==> rule((#[trigger] artifacts[i]).storage_ref),
        protected(artifacts, rule) matches Ok(kept) ==> in_order(kept) && (kept.contains(name) <==> exists|
            i: int,
        |
            0 <= i < artifacts.len() && (#[trigger] artifacts[i]).storage_ref == name),
{
    let refs = references(artifacts);
    a_dictionary_exists(refs);
    assert(refs.contains(name) <==> exists|i: int|
        0 <= i < artifacts.len() && (#[trigger] artifacts[i]).storage_ref == name) by {
        if refs.contains(name) {
            let k = choose|k: int| 0 <= k < refs.len() && refs[k] == name;
            assert(artifacts[k].storage_ref == name);
        }
        if exists|i: int| 0 <= i < artifacts.len() && (#[trigger] artifacts[i]).storage_ref == name {
            let i = choose|i: int|
                0 <= i < artifacts.len() && (#[trigger] artifacts[i]).storage_ref == name;
            assert(refs[i] == name);
        }
    }
}

// --- Resuming a worker -----------------------------------------------------------------------------------

/// A worker is resumed exactly where its configuration was read, is the recorded one byte for byte, and
/// nothing objects to the loadout that was presented; each refusal says which of these failed.
pub proof fn a_worker_is_resumed_where_nothing_objects(
    record: LaunchView,
    presented: SnapshotView,
    bytes: Seq<u8>,
    failure: ArtifactFailure,
    model: Admission,
)
    ensures
        config_verdict(record, presented, Err(failure), model) == ConfigVerdict::Unproven(failure),
        sha256_of(bytes) != record.config.1 || bytes.len() != record.config.2 ==> config_verdict(
            record,
            presented,
            Ok(bytes),
            model,
        ) == ConfigVerdict::Unproven(ArtifactFailure::Integrity),
        sha256_of(bytes) == record.config.1 && bytes.len() == record.config.2 ==> config_verdict(
            record,
            presented,
            Ok(bytes),
            model,
        ) == match model(record, presented, record.config) {
            Some(conflict) => ConfigVerdict::Objected(conflict),
            None => ConfigVerdict::Admitted,
        },
{
}

/// An observation holds exactly where digest and length are the recorded ones, and a launch rehydrates
/// exactly where its digest is that of the loadout it records.
pub proof fn an_observation_holds_of_the_recorded_bytes(
    reference: ConfigView,
    digest: Seq<u8>,
    len: nat,
    bytes: Seq<u8>,
    record: LaunchView,
    model: LoadoutDigest,
)
    ensures
        observation_holds(reference, digest, len) <==> digest == reference.1 && len == reference.2,
        proves(reference, bytes) <==> sha256_of(bytes) == reference.1 && bytes.len() == reference.2,
        rehydrates(record, model) <==> record.digest == model(record.loadout),
{
}

/// A launch is refused where it could not be read or was never recorded, is unverifiable where its digest
/// is not that of the loadout it records, and is proven otherwise; and what is refused is what attention
/// was raised about, unless raising it failed.
pub proof fn a_launch_is_proven_by_its_own_digest(
    record: LaunchView,
    e: StoreError,
    refusal: ResumeRefusal,
    model: LoadoutDigest,
)
    ensures
        launch_verdict(Err(e), model) == LaunchVerdict::Refused(refusal_of(e)),
        launch_verdict(Ok(None), model) == LaunchVerdict::Refused(ResumeRefusal::NoLaunchLoadout),
        launch_verdict(Ok(Some(record)), model) is Proven <==> model(record.loadout) == record.digest,
        launch_verdict(Ok(Some(record)), model) is Unverifiable <==> model(record.loadout)
            != record.digest,
        once_raised(Ok(()), refusal) == refusal,
        once_raised(Err(e), refusal) == refusal_of(e),
{
}

/// A conflict refuses a resume as itself, and any other failure is the store's.
pub proof fn a_refused_resume_says_why(e: StoreError, conflict: Conflict)
    ensures
        refusal_of(StoreError::Conflict(conflict)) == ResumeRefusal::Refused(conflict),
        !(e is Conflict) ==> refusal_of(e) == ResumeRefusal::Store(e),
{
}

} // verus!
