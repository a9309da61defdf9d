use command_governor::daemon::doctor::{diagnose, ArtifactLayout, DoctorFacts, StoreLook, TRUST_MODEL};
use command_governor::daemon::error::{DaemonError, LockDefect, PathDefect};
use command_governor::daemon::incarnation::{
    bsd_start_text, current, digest_hex, for_slot, linux_start_ticks, start_ref, trim, Platform,
    START_UNAVAILABLE,
};
use command_governor::daemon::ipc::{
    answer, audit, check_socket_path, daemon_answering, parse_request, read_reply, request_line,
    IpcError, Request, MAX_SOCKET_PATH_LEN,
};
use command_governor::daemon::layout::{
    audit_dir, audit_file, LayoutFacts, PathClass, PathFacts, StateRoot,
};
use command_governor::daemon::lock::{
    inspect, parse_record, read_record, record_line, HolderState, InstanceLock, LockRecord,
    LockStatus,
};
use command_governor::daemon::logging::{record_line as log_line, rotates, Fields, Level, ROTATE_AT_BYTES};
use command_governor::daemon::ports::{OsRandom, SystemClock, Uuidv7Ids, Uuidv7Keys};
use command_governor::domain::fence::SafeToken;
use command_governor::domain::id::{id_text, Id};
use command_governor::domain::lease::{IncarnationMismatch, ProcessIncarnation};
use command_governor::domain::obligation::ObligationState;
use command_governor::store::error::StoreError;

fn safe(text: &str) -> bool {
    !text.is_empty()
        && text.len() <= 128
        && text.chars().all(|c| c.is_ascii_alphanumeric() || "-_.:".contains(c))
}

fn token(text: &str) -> SafeToken {
    SafeToken::new(text, &safe).expect("fixture token")
}

fn incarnation_of(slot: u32, start: &str) -> ProcessIncarnation {
    ProcessIncarnation::new(slot, token(start))
}

const STAT: &str = "4242 (a name) with ) S 1 4242 4242 0 -1 4194560 1 0 0 0 1 2 0 0 20 0 1 0 987654 1 2";

fn me() -> ProcessIncarnation {
    let raw = linux_start_ticks(STAT);
    let start = start_ref(Platform::Linux, raw.as_deref(), &safe);
    current(4242, start, &safe).expect("the placeholder is a token")
}

fn staged(holder: &ProcessIncarnation, state: HolderState) -> Result<Option<LockRecord>, LockDefect> {
    read_whole(&record_line(holder, state))
}

fn read_whole(text: &str) -> Result<Option<LockRecord>, LockDefect> {
    read_record(text, text.len() as u64, &safe)
}

// --- The instance -----------------------------------------------------------------------------

#[test]
fn our_own_incarnation_names_our_own_process_number() {
    assert_eq!(me().slot, 4242);
}

#[test]
fn our_own_incarnation_is_rederivable_from_the_process_number() {
    let raw = linux_start_ticks(STAT);
    let start = start_ref(Platform::Linux, raw.as_deref(), &safe);
    let rederived = for_slot(4242, start).expect("our own process is running");
    assert_eq!(rederived, me());
}

#[test]
fn a_process_number_that_resolves_to_nothing_has_no_incarnation() {
    let impossible = u32::from(u16::MAX) * 4 + 3;
    assert_eq!(for_slot(impossible, start_ref(Platform::Linux, None, &safe)), None);
}

#[test]
fn the_start_identity_is_a_bounded_opaque_token() {
    let me = me();
    let text = me.start.as_str();
    assert!(!text.is_empty());
    assert!(text.len() <= 32, "start identity should stay short: {text}");
    assert!(SafeToken::new(text, &safe).is_some());
}

#[test]
fn a_recycled_process_number_is_a_different_incarnation() {
    let first = incarnation_of(4242, "macos.aaaaaaaaaaaaaaaa");
    let second = incarnation_of(4242, "macos.bbbbbbbbbbbbbbbb");
    assert_ne!(first, second);
    assert_eq!(first.classify(&second), Some(IncarnationMismatch::SlotReused));
}

#[test]
fn the_start_time_is_the_twenty_second_field() {
    assert_eq!(linux_start_ticks(STAT).as_deref(), Some("987654"));
    assert_eq!(linux_start_ticks("4242 no name at all"), None);
    assert_eq!(linux_start_ticks("4242 (short) S 1 2 3"), None);
}

#[test]
fn a_listing_that_failed_or_is_blank_says_nothing() {
    assert_eq!(bsd_start_text(true, "  Mon Jan  1 00:00:00 2024 \n").as_deref(), Some("Mon Jan  1 00:00:00 2024"));
    assert_eq!(bsd_start_text(true, " \n\t"), None);
    assert_eq!(bsd_start_text(false, "Mon Jan  1 00:00:00 2024"), None);
    assert_eq!(trim("\u{3000}x y\u{a0}"), "x y");
}

#[test]
fn a_start_identity_is_a_tag_and_the_head_of_a_digest() {
    // The SHA-256 digest of "abc" begins ba7816bf 8f01cfea.
    assert_eq!(digest_hex("abc"), "ba7816bf8f01cfea");
    let identity = start_ref(Platform::Macos, Some("abc"), &safe).unwrap();
    assert_eq!(identity.as_str(), "macos.ba7816bf8f01cfea");
    assert_eq!(start_ref(Platform::Unknown, Some("abc"), &|_: &str| false), None);
}

#[test]
fn without_a_start_the_placeholder_stands() {
    let unknown = current(7, None, &safe).unwrap();
    assert_eq!(unknown.start.as_str(), START_UNAVAILABLE);
    assert_eq!(current(7, None, &|_: &str| false), None);
}

// --- The socket -------------------------------------------------------------------------------

#[test]
fn every_verb_round_trips_through_its_wire_form() {
    for request in [Request::Ping, Request::Status, Request::Obligations, Request::Doctor] {
        assert_eq!(Request::parse(request.verb()), Some(request));
    }
    assert_eq!(Request::parse("acknowledge"), None);
}

#[test]
fn a_request_with_arguments_or_a_wrong_marker_is_refused() {
    assert_eq!(parse_request("cg1 status\n"), Some(Request::Status));
    assert_eq!(parse_request("cg1 status extra\n"), None);
    assert_eq!(parse_request("cg2 status\n"), None);
    assert_eq!(parse_request("status\n"), None);
    assert_eq!(parse_request(""), None);
}

#[test]
fn an_overlong_socket_path_is_refused_rather_than_truncated() {
    let long = "/".repeat(MAX_SOCKET_PATH_LEN + 1);
    match check_socket_path(&long) {
        Err(IpcError::PathTooLong { len, limit }) => {
            assert_eq!(len, MAX_SOCKET_PATH_LEN + 1);
            assert_eq!(limit, MAX_SOCKET_PATH_LEN);
        }
        other => panic!("an overlong path was accepted: {other:?}"),
    }
    assert_eq!(check_socket_path(&"/".repeat(MAX_SOCKET_PATH_LEN)), Ok(()));
    // The limit is in bytes: two bytes for each of these.
    assert!(check_socket_path(&"é".repeat(52)).is_err());
}

#[test]
fn a_round_trip_carries_the_handler_lines() {
    let handled = |request: Request| match request {
        Request::Status => vec!["daemon.state=running".to_owned()],
        Request::Ping => Vec::new(),
        _ => vec!["check name=x result=ok".to_owned()],
    };
    let exchange = |request: Request| {
        let read = parse_request(&request_line(request));
        read_reply(&answer(read.map(handled)))
    };
    assert_eq!(exchange(Request::Status).expect("status"), vec!["daemon.state=running"]);
    assert_eq!(exchange(Request::Ping).expect("ping"), Vec::<String>::new());
    assert_eq!(exchange(Request::Doctor).expect("doctor"), vec!["check name=x result=ok"]);
}

#[test]
fn a_request_that_is_not_understood_is_refused_with_a_code() {
    let reply = read_reply(&answer(None));
    match &reply {
        Err(IpcError::Refused { code }) => assert_eq!(code, "unknown_request"),
        other => panic!("expected a refusal, got {other:?}"),
    }
    assert!(!daemon_answering(&reply));
    assert_eq!(read_reply(&Vec::new()), Err(IpcError::Unreadable));
}

#[test]
fn the_socket_and_its_directory_are_owner_only() {
    let directory = PathFacts::Found { symlink: false, directory: true, uid: 501, mode: 0o40700 };
    let socket = PathFacts::Found { symlink: false, directory: false, uid: 501, mode: 0o140600 };
    assert!(audit(Some(directory), Some(socket), 501).is_empty());
    assert_eq!(
        audit(Some(directory), Some(socket), 502),
        vec![
            ("ipc_directory", PathDefect::ForeignOwner),
            ("control_socket", PathDefect::ForeignOwner),
        ]
    );
    let widened = PathFacts::Found { symlink: false, directory: false, uid: 501, mode: 0o140666 };
    assert_eq!(
        audit(Some(directory), Some(widened), 501),
        vec![("control_socket", PathDefect::GroupOrOtherAccessible)]
    );
    assert!(audit(None, None, 501).is_empty());
    assert_eq!(
        audit(Some(PathFacts::Missing), None, 501),
        vec![("ipc_directory", PathDefect::Uncreatable)]
    );
}

#[test]
fn a_client_with_no_daemon_gets_not_running() {
    let reply: Result<Vec<String>, IpcError> = Err(IpcError::NotRunning);
    assert!(!daemon_answering(&reply));
    assert_eq!(
        IpcError::NotRunning.message(),
        "no daemon is listening on this state root's control socket"
    );
}

// --- The layout -------------------------------------------------------------------------------

#[test]
fn every_path_stays_inside_the_root() {
    let root = StateRoot::new("/tmp/cg-test-root");
    for path in [
        root.database_path(),
        root.lock_path(),
        root.artifact_root(),
        root.ipc_root(),
        root.socket_path(),
        root.log_root(),
    ] {
        assert!(path.starts_with(root.path()), "{path} escaped the state root");
    }
    assert_eq!(root.socket_path(), "/tmp/cg-test-root/ipc/d.sock");
    assert_eq!(StateRoot::new("/").lock_path(), "/daemon.lock");
}

fn directory(uid: u32, mode: u32) -> PathFacts {
    PathFacts::Found { symlink: false, directory: true, uid, mode }
}

#[test]
fn a_group_readable_directory_is_refused() {
    assert_eq!(audit_dir(directory(501, 0o40700), 501), Ok(()));
    assert_eq!(
        audit_dir(directory(501, 0o40750), 501),
        Err(PathDefect::GroupOrOtherAccessible)
    );
}

#[test]
fn a_symlinked_directory_is_refused_rather_than_followed() {
    let link = PathFacts::Found { symlink: true, directory: false, uid: 501, mode: 0o120777 };
    assert_eq!(audit_dir(link, 501), Err(PathDefect::Symlink));
}

#[test]
fn a_foreign_owner_is_refused() {
    assert_eq!(audit_dir(directory(501, 0o40700), 502), Err(PathDefect::ForeignOwner));
}

#[test]
fn a_missing_directory_is_reported_rather_than_created() {
    assert_eq!(audit_dir(PathFacts::Missing, 0), Err(PathDefect::Uncreatable));
}

#[test]
fn a_file_is_no_directory_and_unread_metadata_is_a_defect() {
    let file = PathFacts::Found { symlink: false, directory: false, uid: 1, mode: 0o100600 };
    assert_eq!(audit_dir(file, 1), Err(PathDefect::NotADirectory));
    assert_eq!(audit_file(file, 1), Ok(()));
    assert_eq!(audit_file(PathFacts::Unreadable, 1), Err(PathDefect::Unreadable));
}

#[test]
fn the_default_location_prefers_what_is_explicit() {
    let found = |e, x, h, mac| StateRoot::default_location(e, x, h, mac).map(|root| root.root);
    assert_eq!(found(Some("/a"), Some("/b"), Some("/c"), false).as_deref(), Some("/a"));
    assert_eq!(found(Some(""), Some("/b"), Some("/c"), false).as_deref(), Some("/b/command-governor"));
    assert_eq!(
        found(None, None, Some("/c"), false).as_deref(),
        Some("/c/.local/state/command-governor")
    );
    assert_eq!(
        found(None, None, Some("/c"), true).as_deref(),
        Some("/c/Library/Application Support/command-governor")
    );
    assert_eq!(found(None, Some(""), None, true), None);
}

#[test]
fn the_engines_files_stand_beside_the_database() {
    assert_eq!(StateRoot::new("/r").database_files(), vec![
        "/r/governor.sqlite3",
        "/r/governor.sqlite3-wal",
        "/r/governor.sqlite3-shm"
    ]);
}

// --- The lock ---------------------------------------------------------------------------------

#[test]
fn a_record_round_trips_through_the_file() {
    let holder = me();
    let lock = InstanceLock::acquire("daemon.lock", holder.clone(), &Ok(None), true, &None)
        .expect("first acquisition");
    assert_eq!(lock.holder(), &holder);
    assert!(lock.reclaimed().is_none());
    let record = staged(&holder, HolderState::Held).expect("readable").expect("a record");
    assert_eq!(record.slot, holder.slot);
    assert_eq!(record.state, HolderState::Held);
    assert_eq!(record.incarnation(), Some(holder));
}

#[test]
fn a_second_acquisition_in_this_process_fails_closed() {
    let first = me();
    match InstanceLock::acquire("l", me(), &staged(&first, HolderState::Held), false, &None) {
        Err(DaemonError::AuthorityHeld { slot }) => assert_eq!(slot, first.slot),
        other => panic!("a second authority was handed out: {other:?}"),
    }
    match InstanceLock::acquire("l", me(), &Ok(None), false, &None) {
        Err(DaemonError::AuthorityHeld { slot }) => assert_eq!(slot, 0),
        other => panic!("a second authority was handed out: {other:?}"),
    }
}

#[test]
fn inspect_sees_a_held_lock_without_taking_it() {
    assert_eq!(inspect(&None, true), LockStatus::Absent);
    let held = Some(staged(&me(), HolderState::Held));
    assert!(inspect(&held, false).daemon_running());
    assert!(inspect(&held, false).daemon_running(), "probing must not consume");
    assert_eq!(inspect(&held, true), LockStatus::Free { slot: Some(4242), released: false });
    let lock = InstanceLock::acquire("l", me(), &Ok(None), true, &None).expect("acquired");
    let released = Some(read_whole(&lock.release()));
    match inspect(&released, true) {
        LockStatus::Free { released, .. } => assert!(released),
        other => panic!("expected a released lock, got {other:?}"),
    }
}

#[test]
fn a_clean_release_lets_the_next_start_in_without_a_liveness_probe() {
    let holder = me();
    let released = InstanceLock::acquire("l", holder.clone(), &Ok(None), true, &None)
        .expect("acquired")
        .release();
    let previous = read_whole(&released);
    let again = InstanceLock::acquire("l", holder.clone(), &previous, true, &Some(holder))
        .expect("reacquired");
    assert!(again.reclaimed().is_some());
}

#[test]
fn a_dead_holders_lock_is_reclaimed_and_reported() {
    let dead = incarnation_of(u32::from(u16::MAX) * 4 + 3, "linux.deadbeefdeadbeef");
    let lock = InstanceLock::acquire("l", me(), &staged(&dead, HolderState::Held), true, &None)
        .expect("reclaimed");
    let reclaimed = lock.reclaimed().expect("the reclaim must be reported");
    assert_eq!(reclaimed.slot, dead.slot);
    assert_eq!(reclaimed.mismatch, None);
}

#[test]
fn a_live_holder_that_did_not_release_is_not_displaced() {
    let alive = me();
    let other = incarnation_of(alive.slot.wrapping_add(1), "linux.0000000000000000");
    let previous = staged(&alive, HolderState::Held);
    match InstanceLock::acquire("l", other, &previous, true, &Some(alive.clone())) {
        Err(DaemonError::LockHolderStillAlive { slot }) => assert_eq!(slot, alive.slot),
        other => panic!("a live holder was displaced: {other:?}"),
    }
}

#[test]
fn a_recycled_process_number_is_reclaimed_with_the_mismatch_named() {
    let alive = me();
    let recycled = incarnation_of(alive.slot, "linux.ffffffffffffffff");
    let previous = staged(&recycled, HolderState::Held);
    let lock = InstanceLock::acquire("l", alive.clone(), &previous, true, &Some(alive))
        .expect("reclaimed");
    let reclaimed = lock.reclaimed().expect("reported");
    assert_eq!(reclaimed.slot, recycled.slot);
    assert_eq!(reclaimed.mismatch, Some(IncarnationMismatch::SlotReused));
}

#[test]
fn an_unreadable_lock_file_is_refused_rather_than_overwritten() {
    let previous = read_whole("this is not a lock record\n");
    match InstanceLock::acquire("l", me(), &previous, true, &None) {
        Err(DaemonError::Lock { reason: LockDefect::Unreadable }) => {}
        other => panic!("an unknown lock file was not refused: {other:?}"),
    }
    assert_eq!(inspect(&Some(previous), true), LockStatus::Unreadable);
    assert_eq!(read_whole(""), Ok(None), "a file that was just created");
    assert_eq!(read_whole(" \n"), Err(LockDefect::Unreadable));
    let line = record_line(&me(), HolderState::Released);
    assert!(read_record(&line, 512, &safe).is_ok());
    assert_eq!(read_record(&line, 513, &safe), Err(LockDefect::Unreadable));
}

#[test]
fn a_record_without_a_start_identity_still_parses() {
    let record = parse_record("cglock1 slot=42 start=- state=held\n", &safe).expect("parsed");
    assert_eq!(record.slot, 42);
    assert_eq!(record.start, None);
    assert_eq!(record.incarnation(), None);
}

#[test]
fn a_record_with_an_unknown_field_or_marker_is_refused() {
    assert_eq!(parse_record("cglock1 slot=42 wat=1 state=held\n", &safe), None);
    assert_eq!(parse_record("otherlock slot=42 state=held\n", &safe), None);
    assert_eq!(parse_record("cglock1 slot=42\n", &safe), None);
    assert_eq!(parse_record("", &safe), None);
}

#[test]
fn a_record_is_one_exact_line() {
    assert_eq!(
        record_line(&incarnation_of(7, "linux.ab"), HolderState::Released),
        "cglock1 slot=7 start=linux.ab state=released\n"
    );
    assert_eq!(
        record_line(&incarnation_of(7, START_UNAVAILABLE), HolderState::Held),
        "cglock1 slot=7 start=- state=held\n"
    );
    // Of two fields of one name the later stands.
    let record = parse_record("cglock1 slot=1 slot=2 state=held", &safe).unwrap();
    assert_eq!(record.slot, 2);
    assert_eq!(parse_record("cglock1 slot=4294967296 state=held", &safe), None);
    assert_eq!(LockStatus::Free { slot: None, released: true }.code(), "free_after_clean_release");
}

// --- The log ----------------------------------------------------------------------------------

#[test]
fn a_record_renders_classes_counts_flags_and_identities() {
    let id = Id { value: 7 };
    let fields = Fields::new()
        .class("phase", "ready")
        .count("open_obligations", 3)
        .flag("reclaimed_lock", false)
        .id("obligation", id);
    assert_eq!(
        log_line(1_700_000_000_000, Level::Info, "daemon.ready", &fields),
        format!(
            "1700000000000 info daemon.ready phase=ready open_obligations=3 reclaimed_lock=false obligation={}\n",
            id_text(id)
        )
    );
    assert_eq!(log_line(-1, Level::Error, "x", &Fields::new()), "-1 error x\n");
}

#[test]
fn an_oversized_log_is_rotated_once_rather_than_growing_without_bound() {
    assert!(rotates(ROTATE_AT_BYTES));
    assert!(!rotates(ROTATE_AT_BYTES - 1));
    assert!(!rotates(0));
}

// --- The ports --------------------------------------------------------------------------------

fn now() -> i64 {
    let since = std::time::SystemTime::now().duration_since(std::time::UNIX_EPOCH);
    SystemClock.instant(since.ok().map(|d| d.as_millis()))
}

#[test]
fn the_clock_reports_a_plausible_present() {
    const AFTER: i64 = 1_577_836_800_000;
    assert!(now() > AFTER);
    assert_eq!(SystemClock.instant(None), 0);
    assert_eq!(SystemClock.instant(Some(u128::MAX)), i64::MAX);
    assert_eq!(SystemClock.instant(Some(12)), 12);
}

#[test]
fn the_clock_never_moves_backwards_within_one_read_pair() {
    let first = now();
    let second = now();
    assert!(second - first < 60_000);
}

#[test]
fn entropy_fills_the_whole_buffer_and_does_not_repeat() {
    let mut rng = OsRandom;
    let mut seen = std::collections::BTreeSet::new();
    for _ in 0..32 {
        let mut buffer = vec![0_u8; 24];
        rng.fill_bytes(&mut buffer).expect("entropy");
        assert_eq!(buffer.len(), 24);
        assert!(buffer.iter().any(|byte| *byte != 0), "all-zero draw");
        assert!(seen.insert(buffer), "the CSPRNG repeated a 192-bit draw");
    }
    let mut nothing = Vec::new();
    assert_eq!(rng.fill_bytes(&mut nothing), Ok(()));
}

#[test]
fn identities_are_distinct_and_version_seven() {
    let mut ids = Uuidv7Ids;
    let first = ids.next_uuid();
    let second = ids.next_uuid();
    assert_ne!(first, second);
    assert_eq!(uuid::Uuid::from_u128(first.value).get_version_num(), 7);
    assert_eq!(id_text(first).as_bytes()[14], b'7');
}

#[test]
fn artifact_keys_are_distinct_single_components() {
    let mut keys = Uuidv7Keys;
    let first = keys.next_key(&safe).expect("a key");
    let second = keys.next_key(&safe).expect("a key");
    assert_ne!(first, second);
    for key in [&first, &second] {
        let text = key.as_str();
        assert!(!text.contains('/'), "{text} is not a single component");
        assert!(text.starts_with("ra-"));
        assert_eq!(text.len(), 35);
    }
    let known = Uuidv7Keys::key_of(0x0123_4567_89ab_cdef_0123_4567_89ab_cdef, &safe).unwrap();
    assert_eq!(known.as_str(), "ra-0123456789abcdef0123456789abcdef");
}

// --- The doctor -------------------------------------------------------------------------------

fn attention(state: ObligationState) -> bool {
    matches!(
        state,
        ObligationState::NeedsInput | ObligationState::Failed | ObligationState::CompletedUnprocessed
    )
}

fn bare() -> DoctorFacts {
    DoctorFacts {
        lock: LockStatus::Absent,
        owner_uid: Some(501),
        layout: LayoutFacts {
            state_root: directory(501, 0o40700),
            artifacts: PathFacts::Missing,
            ipc: PathFacts::Missing,
            logs: PathFacts::Missing,
        },
        artifacts: None,
        ipc: None,
        socket: None,
        files: vec![None, None, None],
        store: StoreLook::Absent,
        daemon: Vec::new(),
    }
}

#[test]
fn a_bare_directory_is_diagnosed_rather_than_initialised() {
    let diagnosis = diagnose(StateRoot::new("/tmp/bare"), bare(), 0, &attention);
    let lines = diagnosis.lines();
    assert!(lines.contains(&"doctor.daemon_running=false".to_owned()));
    assert!(lines.iter().any(|line| line.contains("name=database result=absent")));
    assert!(lines.iter().any(|line| line.contains("name=instance_lock result=absent")), "{lines:#?}");
    assert!(diagnosis.healthy());
    assert_eq!(lines[0], "doctor.state_root=/tmp/bare");
}

#[test]
fn a_nonexistent_state_root_fails_legibly() {
    let mut facts = bare();
    facts.owner_uid = None;
    facts.layout.state_root = PathFacts::Missing;
    let diagnosis = diagnose(StateRoot::new("/tmp/nowhere"), facts, 0, &attention);
    assert!(!diagnosis.healthy());
    assert!(diagnosis.lines().contains(&"doctor.result=unhealthy".to_owned()));
    assert!(diagnosis
        .lines()
        .contains(&"check name=state_root_writable result=not_writable_by_this_user".to_owned()));
    assert!(diagnosis.lines().contains(&"check name=state_root_layout result=not_checked".to_owned()));
}

#[test]
fn a_corrupt_database_file_is_reported_rather_than_repaired() {
    let mut facts = bare();
    facts.store = StoreLook::Unreadable(StoreError::Sqlite("file is not a database".to_owned()));
    let diagnosis = diagnose(StateRoot::new("/tmp/broken"), facts, 0, &attention);
    assert!(!diagnosis.healthy());
    assert!(diagnosis
        .lines()
        .contains(&"check name=database result=unreadable_needs_owner_recovery".to_owned()));
}

#[test]
fn the_trust_model_is_always_reported_and_never_claims_containment() {
    let lines = diagnose(StateRoot::new("/tmp/x"), bare(), 0, &attention).lines();
    assert!(lines.contains(&format!("trust.model={TRUST_MODEL}")));
    assert!(lines.contains(&"trust.same_user_containment=false".to_owned()));
    assert!(lines.contains(&"trust.protects_from_other_os_users=true".to_owned()));
    assert!(lines.contains(&"trust.ipc_peer_credential_check=false".to_owned()));
}

#[test]
fn a_daemon_that_holds_the_lock_and_does_not_answer_is_a_failure() {
    let mut facts = bare();
    facts.lock = LockStatus::Held { slot: 9 };
    let silent = diagnose(StateRoot::new("/r"), facts, 0, &attention);
    assert!(silent.lines().contains(&"check name=instance_lock result=held detail=slot_9".to_owned()));
    assert!(silent
        .lines()
        .contains(&"check name=daemon_reachable result=socket_did_not_answer".to_owned()));
    assert!(!silent.healthy());

    let mut facts = bare();
    facts.lock = LockStatus::Held { slot: 9 };
    facts.daemon = vec!["daemon.slot=9".to_owned()];
    let live = diagnose(StateRoot::new("/r"), facts, 0, &attention);
    assert!(live.lines().contains(&"live.daemon.slot=9".to_owned()));
    assert!(live.healthy());
}

#[test]
fn an_artifact_root_and_private_files_are_checked() {
    let mut facts = bare();
    facts.artifacts = Some(ArtifactLayout {
        objects: directory(501, 0o40700),
        incoming: PathFacts::Missing,
        quarantine: directory(501, 0o40755),
        held: Some(2),
    });
    facts.files = vec![
        Some(PathFacts::Found { symlink: false, directory: false, uid: 501, mode: 0o100644 }),
        None,
        Some(PathFacts::Found { symlink: false, directory: false, uid: 501, mode: 0o100600 }),
    ];
    let lines = diagnose(StateRoot::new("/r"), facts, 0, &attention).lines();
    for line in [
        "check name=artifact_objects_layout result=ok",
        "check name=artifact_incoming_layout result=absent",
        "check name=artifact_quarantine_layout result=group_or_other_accessible",
        "check name=artifact_quarantine result=holds_evidence detail=entries_2",
        "check name=database_file_private result=group_or_other_accessible",
    ] {
        assert!(lines.contains(&line.to_owned()), "{line} in {lines:#?}");
    }
    assert_eq!(lines.iter().filter(|line| line.contains("database_file_private")).count(), 1);
}

#[test]
fn every_path_class_has_its_code() {
    let codes: Vec<&str> = PathClass::all().iter().map(|class| class.code()).collect();
    assert_eq!(codes, vec!["state_root", "artifacts", "ipc", "logs"]);
}
