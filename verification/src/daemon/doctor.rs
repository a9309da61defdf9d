//! State-root diagnosis that never takes authority: every check is a look, and nothing is repaired.
//!
//! What was looked at comes in as facts. The report states the trust model in data: owner-only modes
//! protect from other users of the machine, and contain nothing of the same user.
use vstd::prelude::*;
use vstd::string::StringExecFns;
use crate::daemon::error::PathDefect;
use crate::daemon::ipc::{audit, check_socket_path, socket_findings, socket_path_fits};
use crate::daemon::layout::{
    audit_dir, audit_file, path_defect, LayoutFacts, PathClass, PathFacts, StateRoot,
};
use crate::daemon::lock::LockStatus;
use crate::daemon::logging::flag_text;
use crate::daemon::report::{
    attends_is, attends_total, count_line, count_of_kind, count_text, lists_oldest_first,
    obligation_lines, of_kind, open_views, overview, push_line, push_lines, summarise,
};
use crate::daemon::startup::{seq_count, seq_number, socket_of};
use crate::domain::fence::Timestamp;
use crate::domain::health::HealthConditionKind;
use crate::domain::obligation::ObligationState;
use crate::store::error::StoreError;
use crate::store::inspect::{behind, ReadOnlyDiagnosis};
use crate::text::{join2, nat_text, push_nat, string_texts};

verus! {

/// The administrative trust root.
pub const TRUST_MODEL: &'static str = "os_user_account";

/// One named check and what it found.
#[derive(Debug, PartialEq, Eq)]
pub struct Check {
    /// Stable check name.
    pub name: &'static str,
    /// Stable result code.
    pub result: &'static str,
    /// Optional bounded detail: a class or a counter, never content.
    pub detail: Option<String>,
    /// Whether this check passed.
    pub healthy: bool,
}

/// A check on values alone.
#[verifier::ext_equal]
pub struct CheckView {
    pub name: Seq<char>,
    pub result: Seq<char>,
    pub detail: Option<Seq<char>>,
    pub healthy: bool,
}

impl View for Check {
    type V = CheckView;

    open spec fn view(&self) -> CheckView {
        CheckView {
            name: self.name@,
            result: self.result@,
            detail: match self.detail {
                Some(text) => Some(text@),
                None => None,
            },
            healthy: self.healthy,
        }
    }
}

/// A check that passed.
pub open spec fn passed(name: &'static str) -> CheckView {
    CheckView { name: name@, result: "ok"@, detail: None, healthy: true }
}

/// A check that found something that is no fault.
pub open spec fn noted(name: &'static str, result: &'static str) -> CheckView {
    CheckView { name: name@, result: result@, detail: None, healthy: true }
}

/// A check that failed.
pub open spec fn failed(name: &'static str, result: &'static str) -> CheckView {
    CheckView { name: name@, result: result@, detail: None, healthy: false }
}

/// A check with a detail.
pub open spec fn detailed(check: CheckView, detail: Seq<char>) -> CheckView {
    CheckView { detail: Some(detail), ..check }
}

impl Check {
    fn ok(name: &'static str) -> (r: Check)
        ensures
            r@ == passed(name),
    {
        Check { name, result: "ok", detail: None, healthy: true }
    }

    fn with(self, detail: String) -> (r: Check)
        ensures
            r@ == detailed(self@, detail@),
    {
        Check { name: self.name, result: self.result, detail: Some(detail), healthy: self.healthy }
    }

    fn note(name: &'static str, result: &'static str) -> (r: Check)
        ensures
            r@ == noted(name, result),
    {
        Check { name, result, detail: None, healthy: true }
    }

    fn fail(name: &'static str, result: &'static str) -> (r: Check)
        ensures
            r@ == failed(name, result),
    {
        Check { name, result, detail: None, healthy: false }
    }
}

/// Checks on values alone.
pub open spec fn check_views(checks: Seq<Check>) -> Seq<CheckView> {
    Seq::new(checks.len(), |i: int| checks[i]@)
}

fn push_check(checks: &mut Vec<Check>, check: Check)
    ensures
        check_views(final(checks)@) == check_views(old(checks)@).push(check@),
{
    checks.push(check);
    assert(check_views(checks@) =~= check_views(old(checks)@).push(check@));
}

fn push_checks(checks: &mut Vec<Check>, more: Vec<Check>)
    ensures
        check_views(final(checks)@) == check_views(old(checks)@) + check_views(more@),
{
    let mut rest = more;
    checks.append(&mut rest);
    assert(check_views(checks@) =~= check_views(old(checks)@) + check_views(more@));
}

// --- Names -----------------------------------------------------------------------------------------------

/// The name of the check of a directory.
pub open spec fn class_check(class: PathClass) -> &'static str {
    match class {
        PathClass::StateRoot => "state_root_layout",
        PathClass::Artifacts => "artifact_root_layout",
        PathClass::Ipc => "ipc_directory_layout",
        PathClass::Logs => "log_directory_layout",
    }
}

fn class_check_name(class: PathClass) -> (r: &'static str)
    ensures
        r == class_check(class),
{
    match class {
        PathClass::StateRoot => "state_root_layout",
        PathClass::Artifacts => "artifact_root_layout",
        PathClass::Ipc => "ipc_directory_layout",
        PathClass::Logs => "log_directory_layout",
    }
}

/// The result code of a path's defect.
pub open spec fn defect_word(defect: PathDefect) -> &'static str {
    match defect {
        PathDefect::Uncreatable => "missing_or_uncreatable",
        PathDefect::NotADirectory => "not_a_directory",
        PathDefect::Symlink => "symlink",
        PathDefect::ForeignOwner => "foreign_owner",
        PathDefect::GroupOrOtherAccessible => "group_or_other_accessible",
        PathDefect::Unreadable => "metadata_unreadable",
    }
}

fn defect_code(defect: PathDefect) -> (r: &'static str)
    ensures
        r == defect_word(defect),
{
    match defect {
        PathDefect::Uncreatable => "missing_or_uncreatable",
        PathDefect::NotADirectory => "not_a_directory",
        PathDefect::Symlink => "symlink",
        PathDefect::ForeignOwner => "foreign_owner",
        PathDefect::GroupOrOtherAccessible => "group_or_other_accessible",
        PathDefect::Unreadable => "metadata_unreadable",
    }
}

/// The result code of a store failure. An engine failure may be a log that was not checkpointed: its
/// owner must recover it, not a diagnosis.
pub open spec fn store_word(e: StoreError) -> &'static str {
    match e {
        StoreError::Conflict(_) => "conflict",
        StoreError::SchemaEpochTooNew { .. } => "schema_epoch_too_new",
        StoreError::MigrationChecksumMismatch { .. } => "migration_checksum_mismatch",
        StoreError::UnknownAppliedMigration { .. } => "unknown_applied_migration",
        StoreError::ConnectionPolicy(_) => "connection_policy",
        StoreError::Corrupt(_) => "corrupt_value",
        StoreError::RepairNeeded(_) => "repair_needed",
        StoreError::QuarantineIncomplete { .. } => "quarantine_incomplete",
        StoreError::WriterGone => "writer_gone",
        StoreError::Sqlite(_) => "unreadable_needs_owner_recovery",
    }
}

fn store_error_code(e: &StoreError) -> (r: &'static str)
    ensures
        r == store_word(*e),
{
    match e {
        StoreError::Conflict(_) => "conflict",
        StoreError::SchemaEpochTooNew { .. } => "schema_epoch_too_new",
        StoreError::MigrationChecksumMismatch { .. } => "migration_checksum_mismatch",
        StoreError::UnknownAppliedMigration { .. } => "unknown_applied_migration",
        StoreError::ConnectionPolicy(_) => "connection_policy",
        StoreError::Corrupt(_) => "corrupt_value",
        StoreError::RepairNeeded(_) => "repair_needed",
        StoreError::QuarantineIncomplete { .. } => "quarantine_incomplete",
        StoreError::WriterGone => "writer_gone",
        StoreError::Sqlite(_) => "unreadable_needs_owner_recovery",
    }
}

/// A text with a number behind it.
pub open spec fn numbered(text: Seq<char>, n: nat) -> Seq<char> {
    text + nat_text(n)
}

fn number(text: &str, n: u64) -> (r: String)
    ensures
        r@ == numbered(text@, n as nat),
{
    let mut out = text.to_owned();
    push_nat(&mut out, n);
    out
}

// --- The lock and the layout -----------------------------------------------------------------------------

/// What the instance lock's status says.
pub open spec fn lock_checked(status: LockStatus) -> CheckView {
    match status {
        LockStatus::Absent => noted("instance_lock", "absent"),
        LockStatus::Held { slot } => detailed(
            noted("instance_lock", "held"),
            numbered("slot_"@, slot as nat),
        ),
        LockStatus::Free { slot, released } => if released {
            noted("instance_lock", "free_after_clean_release")
        } else {
            detailed(
                noted("instance_lock", "free_after_unclean_exit"),
                match slot {
                    Some(last) => numbered("slot_"@, last as nat),
                    None => "slot_unknown"@,
                },
            )
        },
        LockStatus::Unreadable => failed("instance_lock", "unreadable_record"),
    }
}

fn lock_check(status: LockStatus) -> (r: Check)
    ensures
        r@ == lock_checked(status),
{
    match status {
        LockStatus::Absent => Check::note("instance_lock", "absent"),
        LockStatus::Held { slot } => Check::note("instance_lock", "held").with(
            number("slot_", slot as u64),
        ),
        LockStatus::Free { slot, released } => {
            if released {
                Check::note("instance_lock", "free_after_clean_release")
            } else {
                let detail = match slot {
                    Some(last) => number("slot_", last as u64),
                    None => "slot_unknown".to_owned(),
                };
                Check::note("instance_lock", "free_after_unclean_exit").with(detail)
            }
        },
        LockStatus::Unreadable => Check::fail("instance_lock", "unreadable_record"),
    }
}

/// What a directory's facts say under a check's name: that it is not there is no fault.
pub open spec fn directory_checked(name: &'static str, facts: PathFacts, uid: u32) -> CheckView {
    match path_defect(facts, uid, true) {
        Ok(_) => passed(name),
        Err(defect) => if facts is Missing {
            noted(name, "absent")
        } else {
            failed(name, defect_word(defect))
        },
    }
}

fn directory_check(name: &'static str, facts: PathFacts, uid: u32) -> (r: Check)
    ensures
        r@ == directory_checked(name, facts, uid),
{
    let missing = match facts {
        PathFacts::Missing => true,
        _ => false,
    };
    match audit_dir(facts, uid) {
        Ok(_) => Check::ok(name),
        Err(defect) => {
            if missing {
                Check::note(name, "absent")
            } else {
                Check::fail(name, defect_code(defect))
            }
        },
    }
}

/// What is known of one of the layout's directories.
pub open spec fn layout_checked(facts: LayoutFacts, owner: Option<u32>, class: PathClass) -> CheckView {
    match owner {
        None => noted(class_check(class), "not_checked"),
        Some(uid) => directory_checked(class_check(class), facts.found(class), uid),
    }
}

fn layout_check(facts: &LayoutFacts, owner: Option<u32>, class: PathClass) -> (r: Check)
    ensures
        r@ == layout_checked(*facts, owner, class),
{
    match owner {
        None => Check::note(class_check_name(class), "not_checked"),
        Some(uid) => directory_check(class_check_name(class), facts.of(class), uid),
    }
}

/// What a look at the artifact root's own directories found.
#[derive(Debug, Clone, Copy, PartialEq, Eq, Structural)]
pub struct ArtifactLayout {
    pub objects: PathFacts,
    pub incoming: PathFacts,
    pub quarantine: PathFacts,
    /// How many names the quarantine holds, where it could be listed.
    pub held: Option<usize>,
}

/// What the artifact root's layout says: nothing where there is no such root, or where this process
/// could not learn its own user. What was set aside is evidence an operator should see.
pub open spec fn artifacts_checked(layout: Option<ArtifactLayout>, owner: Option<u32>) -> Seq<CheckView> {
    match (layout, owner) {
        (Some(found), Some(uid)) => {
            let checks = seq![
                directory_checked("artifact_objects_layout", found.objects, uid),
                directory_checked("artifact_incoming_layout", found.incoming, uid),
                directory_checked("artifact_quarantine_layout", found.quarantine, uid),
            ];
            if found.held matches Some(n) && n > 0 {
                checks.push(
                    detailed(
                        noted("artifact_quarantine", "holds_evidence"),
                        numbered("entries_"@, found.held->0 as nat),
                    ),
                )
            } else {
                checks
            }
        },
        _ => Seq::empty(),
    }
}

fn artifact_layout_checks(layout: &Option<ArtifactLayout>, owner: Option<u32>) -> (r: Vec<Check>)
    ensures
        check_views(r@) == artifacts_checked(*layout, owner),
{
    let mut checks: Vec<Check> = Vec::new();
    if let (Some(found), Some(uid)) = (layout, owner) {
        push_check(&mut checks, directory_check("artifact_objects_layout", found.objects, uid));
        push_check(&mut checks, directory_check("artifact_incoming_layout", found.incoming, uid));
        push_check(&mut checks, directory_check("artifact_quarantine_layout", found.quarantine, uid));
        if let Some(held) = found.held {
            if held > 0 {
                let detail = number("entries_", held as u64);
                push_check(
                    &mut checks,
                    Check::note("artifact_quarantine", "holds_evidence").with(detail),
                );
            }
        }
    }
    assert(check_views(checks@) =~= artifacts_checked(*layout, owner));
    checks
}

// --- The socket and the engine's files -------------------------------------------------------------------

/// Whether the control socket's path fits an address.
pub open spec fn socket_path_checked(root: StateRoot) -> CheckView {
    if socket_path_fits(socket_of(root)) is Ok {
        passed("control_socket_path")
    } else {
        failed("control_socket_path", "path_too_long_for_socket_address")
    }
}

fn socket_path_check(root: &StateRoot) -> (r: Check)
    ensures
        r@ == socket_path_checked(*root),
{
    let path = root.socket_path();
    match check_socket_path(path.as_str()) {
        Ok(_) => Check::ok("control_socket_path"),
        Err(_) => Check::fail("control_socket_path", "path_too_long_for_socket_address"),
    }
}

/// What the socket's facts say: the first thing wrong, or whether there is one.
pub open spec fn socket_checked(
    directory: Option<PathFacts>,
    socket: Option<PathFacts>,
    owner: Option<u32>,
) -> CheckView {
    match owner {
        None => noted("control_socket", "not_checked"),
        Some(uid) => {
            let findings = socket_findings(directory, socket, uid);
            if findings.len() > 0 {
                failed(findings[0].0, defect_word(findings[0].1))
            } else if socket is None {
                noted("control_socket", "absent")
            } else {
                passed("control_socket")
            }
        },
    }
}

fn socket_check(
    directory: Option<PathFacts>,
    socket: Option<PathFacts>,
    owner: Option<u32>,
) -> (r: Check)
    ensures
        r@ == socket_checked(directory, socket, owner),
{
    let uid: u32 = match owner {
        None => return Check::note("control_socket", "not_checked"),
        Some(uid) => uid,
    };
    let findings = audit(directory, socket, uid);
    if findings.len() > 0 {
        return Check::fail(findings[0].0, defect_code(findings[0].1));
    }
    match socket {
        None => Check::note("control_socket", "absent"),
        Some(_) => Check::ok("control_socket"),
    }
}

/// What the facts of the engine's files say: one failure for each that is not private.
pub open spec fn files_checked(files: Seq<Option<PathFacts>>, uid: u32) -> Seq<CheckView>
    decreases files.len(),
{
    if files.len() == 0 {
        Seq::empty()
    } else {
        let rest = files_checked(files.drop_last(), uid);
        match files.last() {
            Some(facts) => match path_defect(facts, uid, false) {
                Err(defect) => rest.push(failed("database_file_private", defect_word(defect))),
                Ok(_) => rest,
            },
            None => rest,
        }
    }
}

fn database_file_checks(files: &Vec<Option<PathFacts>>, uid: u32) -> (r: Vec<Check>)
    ensures
        check_views(r@) == files_checked(files@, uid),
{
    let mut checks: Vec<Check> = Vec::new();
    let mut i: usize = 0;
    assert(files@.take(0) =~= Seq::<Option<PathFacts>>::empty());
    assert(check_views(checks@) =~= Seq::<CheckView>::empty());
    while i < files.len()
        invariant
            i <= files@.len(),
            check_views(checks@) == files_checked(files@.take(i as int), uid),
        decreases files@.len() - i,
    {
        proof {
            let next = files@.take(i + 1);
            assert(next.drop_last() =~= files@.take(i as int));
            assert(next.last() == files@[i as int]);
        }
        if let Some(facts) = files[i] {
            if let Err(defect) = audit_file(facts, uid) {
                push_check(&mut checks, Check::fail("database_file_private", defect_code(defect)));
            }
        }
        i = i + 1;
    }
    assert(files@.take(i as int) =~= files@);
    checks
}

// --- The store -------------------------------------------------------------------------------------------

/// What a read-only look at the database found.
#[derive(Debug, PartialEq, Eq)]
pub enum StoreLook {
    /// There is no database file.
    Absent,
    /// The file could not be read as one.
    Unreadable(StoreError),
    /// What it says.
    Read(ReadOnlyDiagnosis),
}

/// An epoch as a counter: zero where none is recorded.
pub open spec fn epoch_count(epoch: Option<u32>) -> nat {
    match epoch {
        Some(found) => found as nat,
        None => 0,
    }
}

/// What the schema epoch says.
pub open spec fn schema_checked(diagnosis: ReadOnlyDiagnosis) -> CheckView {
    if diagnosis.schema_epoch matches Some(found) && found > diagnosis.supported_schema_epoch {
        detailed(
            failed("schema_epoch", "newer_than_this_binary"),
            numbered("found_"@, epoch_count(diagnosis.schema_epoch)) + numbered(
                "_supported_"@,
                diagnosis.supported_schema_epoch as nat,
            ),
        )
    } else {
        detailed(
            passed("schema_epoch"),
            numbered("epoch_"@, epoch_count(diagnosis.schema_epoch)),
        )
    }
}

/// What the watermark says. It is what a previous authoritative open proved, and no verification.
pub open spec fn replay_checked(diagnosis: ReadOnlyDiagnosis) -> CheckView {
    detailed(
        noted(
            "projection_replay",
            if behind(diagnosis.ledger_head, diagnosis.verified_through) {
                "not_verified_since_last_events"
            } else {
                "verified_through_ledger_head"
            },
        ),
        numbered("verified_"@, seq_count(diagnosis.verified_through)) + numbered(
            "_of_"@,
            seq_count(diagnosis.ledger_head),
        ),
    )
}

/// How many obligations miss their artifact.
pub open spec fn pinned_missing(diagnosis: ReadOnlyDiagnosis) -> nat {
    of_kind(diagnosis.open_conditions@, HealthConditionKind::ResultArtifactMissing)
}

/// What a readable database says, as checks.
pub open spec fn diagnosis_checked(diagnosis: ReadOnlyDiagnosis) -> Seq<CheckView> {
    if !diagnosis.schema_present {
        seq![noted("database", "no_schema_yet")]
    } else {
        let checks = seq![
            passed("database"),
            schema_checked(diagnosis),
            replay_checked(diagnosis),
            detailed(
                passed("result_artifacts"),
                numbered("committed_"@, diagnosis.committed_artifacts as nat),
            ),
        ];
        if pinned_missing(diagnosis) > 0 {
            checks.push(
                detailed(
                    failed("pinned_artifacts", "result_artifact_missing"),
                    numbered("obligations_"@, pinned_missing(diagnosis)),
                ),
            )
        } else {
            checks
        }
    }
}

fn epoch_number(epoch: Option<u32>) -> (r: u32)
    ensures
        r == epoch_count(epoch),
{
    match epoch {
        Some(found) => found,
        None => 0,
    }
}

fn checks_for(diagnosis: &ReadOnlyDiagnosis) -> (r: Vec<Check>)
    ensures
        check_views(r@) == diagnosis_checked(*diagnosis),
{
    let mut checks: Vec<Check> = Vec::new();
    if !diagnosis.schema_present {
        push_check(&mut checks, Check::note("database", "no_schema_yet"));
        assert(check_views(checks@) =~= diagnosis_checked(*diagnosis));
        return checks;
    }
    push_check(&mut checks, Check::ok("database"));
    if diagnosis.schema_too_new() {
        let mut detail = number("found_", epoch_number(diagnosis.schema_epoch) as u64);
        let supported = number("_supported_", diagnosis.supported_schema_epoch as u64);
        detail.append(supported.as_str());
        push_check(
            &mut checks,
            Check::fail("schema_epoch", "newer_than_this_binary").with(detail),
        );
    } else {
        let detail = number("epoch_", epoch_number(diagnosis.schema_epoch) as u64);
        push_check(&mut checks, Check::ok("schema_epoch").with(detail));
    }
    let result = if diagnosis.replay_behind() {
        "not_verified_since_last_events"
    } else {
        "verified_through_ledger_head"
    };
    let mut through = number("verified_", seq_number(diagnosis.verified_through));
    let head = number("_of_", seq_number(diagnosis.ledger_head));
    through.append(head.as_str());
    push_check(&mut checks, Check::note("projection_replay", result).with(through));
    let committed = number("committed_", diagnosis.committed_artifacts as u64);
    push_check(&mut checks, Check::ok("result_artifacts").with(committed));
    let missing: usize = count_of_kind(
        diagnosis.open_conditions.as_slice(),
        HealthConditionKind::ResultArtifactMissing,
    );
    if missing > 0 {
        let detail = number("obligations_", missing as u64);
        push_check(
            &mut checks,
            Check::fail("pinned_artifacts", "result_artifact_missing").with(detail),
        );
    }
    assert(check_views(checks@) =~= diagnosis_checked(*diagnosis));
    checks
}

/// What a readable database says in its first lines.
pub open spec fn summary_head(
    diagnosis: ReadOnlyDiagnosis,
    model: spec_fn(ObligationState) -> bool,
) -> Seq<Seq<char>> {
    seq![
        count_text("store.daemon_epoch"@, diagnosis.daemon_epoch as nat),
        count_text("store.ledger_head"@, seq_count(diagnosis.ledger_head)),
    ] + overview(
        open_views(diagnosis.open_obligations@),
        diagnosis.open_conditions@,
        model,
    )
}

/// Whether lines are what a readable database says: counters and counts, then the open obligations,
/// oldest first.
pub open spec fn summarises(
    lines: Seq<Seq<char>>,
    diagnosis: ReadOnlyDiagnosis,
    now: Timestamp,
    model: spec_fn(ObligationState) -> bool,
) -> bool {
    let head = summary_head(diagnosis, model);
    &&& head.len() <= lines.len()
    &&& lines.take(head.len() as int) == head
    &&& lists_oldest_first(
        lines.skip(head.len() as int),
        open_views(diagnosis.open_obligations@),
        now,
    )
}

fn summary_for<A: Fn(ObligationState) -> bool>(
    diagnosis: &ReadOnlyDiagnosis,
    now: Timestamp,
    attention: &A,
) -> (r: Vec<String>)
    requires
        attends_total(*attention),
    ensures
        forall|model: spec_fn(ObligationState) -> bool| #[trigger]
            attends_is(*attention, model) ==> summarises(string_texts(r@), *diagnosis, now, model),
{
    let mut lines: Vec<String> = Vec::new();
    push_line(&mut lines, count_line("store.daemon_epoch", diagnosis.daemon_epoch));
    push_line(&mut lines, count_line("store.ledger_head", seq_number(diagnosis.ledger_head)));
    let ghost counters = string_texts(lines@);
    assert(counters =~= seq![
        count_text("store.daemon_epoch"@, diagnosis.daemon_epoch as nat),
        count_text("store.ledger_head"@, seq_count(diagnosis.ledger_head)),
    ]);
    let more = summarise(
        diagnosis.open_obligations.as_slice(),
        diagnosis.open_conditions.as_slice(),
        attention,
    );
    push_lines(&mut lines, more);
    let ghost head = string_texts(lines@);
    let open = obligation_lines(diagnosis.open_obligations.as_slice(), now);
    let ghost tail = string_texts(open@);
    push_lines(&mut lines, open);
    assert((head + tail).take(head.len() as int) =~= head);
    assert((head + tail).skip(head.len() as int) =~= tail);
    lines
}

// --- The diagnosis ---------------------------------------------------------------------------------------

/// Everything that was looked at.
#[derive(Debug, PartialEq, Eq)]
pub struct DoctorFacts {
    /// What the instance lock says.
    pub lock: LockStatus,
    /// This process's effective user, where it could be learned by writing below the root.
    pub owner_uid: Option<u32>,
    /// The directories.
    pub layout: LayoutFacts,
    /// The artifact root's own directories, where there is such a root.
    pub artifacts: Option<ArtifactLayout>,
    /// The socket's directory, where its path leads to something, links followed.
    pub ipc: Option<PathFacts>,
    /// The control socket, where its path leads to something, links followed.
    pub socket: Option<PathFacts>,
    /// The engine's files; nothing for one that is not there.
    pub files: Vec<Option<PathFacts>>,
    /// The database.
    pub store: StoreLook,
    /// What the running daemon answered; nothing where it was not asked or did not.
    pub daemon: Vec<String>,
}

/// Everything a read-only look at a state root found.
#[derive(Debug, PartialEq, Eq)]
pub struct Diagnosis {
    /// The state root that was examined.
    pub state_root: StateRoot,
    /// What the instance lock says.
    pub lock: LockStatus,
    /// The named checks, in the order they ran.
    pub checks: Vec<Check>,
    /// Aggregate lines about open work, when the database could be read.
    pub summary: Vec<String>,
    /// The running daemon's own half of the report, when one answered.
    pub daemon: Vec<String>,
}

/// What the store's part of a look says, as checks.
pub open spec fn store_checked(look: StoreLook) -> Seq<CheckView> {
    match look {
        StoreLook::Absent => seq![noted("database", "absent")],
        StoreLook::Unreadable(e) => seq![failed("database", store_word(e))],
        StoreLook::Read(diagnosis) => diagnosis_checked(diagnosis),
    }
}

/// The checks of the root and its layout.
pub open spec fn layout_part(facts: DoctorFacts) -> Seq<CheckView> {
    seq![
        lock_checked(facts.lock),
        if facts.owner_uid is Some {
            passed("state_root_writable")
        } else {
            failed("state_root_writable", "not_writable_by_this_user")
        },
        layout_checked(facts.layout, facts.owner_uid, PathClass::StateRoot),
        layout_checked(facts.layout, facts.owner_uid, PathClass::Artifacts),
        layout_checked(facts.layout, facts.owner_uid, PathClass::Ipc),
        layout_checked(facts.layout, facts.owner_uid, PathClass::Logs),
    ] + artifacts_checked(facts.artifacts, facts.owner_uid)
}

/// The checks of the socket and the engine's files.
pub open spec fn file_part(root: StateRoot, facts: DoctorFacts) -> Seq<CheckView> {
    seq![
        socket_path_checked(root),
        socket_checked(facts.ipc, facts.socket, facts.owner_uid),
    ] + (match facts.owner_uid {
        Some(uid) => files_checked(facts.files@, uid),
        None => Seq::empty(),
    })
}

/// Every check, in the order they run. A daemon that holds the lock and does not answer is a failure.
pub open spec fn all_checked(root: StateRoot, facts: DoctorFacts) -> Seq<CheckView> {
    let checks = layout_part(facts) + file_part(root, facts) + store_checked(facts.store);
    if facts.lock is Held && facts.daemon@.len() == 0 {
        checks.push(failed("daemon_reachable", "socket_did_not_answer"))
    } else {
        checks
    }
}

fn layout_checks(facts: &DoctorFacts) -> (r: Vec<Check>)
    ensures
        check_views(r@) == layout_part(*facts),
{
    let mut checks: Vec<Check> = Vec::new();
    push_check(&mut checks, lock_check(facts.lock));
    if facts.owner_uid.is_some() {
        push_check(&mut checks, Check::ok("state_root_writable"));
    } else {
        push_check(
            &mut checks,
            Check::fail("state_root_writable", "not_writable_by_this_user"),
        );
    }
    push_check(&mut checks, layout_check(&facts.layout, facts.owner_uid, PathClass::StateRoot));
    push_check(&mut checks, layout_check(&facts.layout, facts.owner_uid, PathClass::Artifacts));
    push_check(&mut checks, layout_check(&facts.layout, facts.owner_uid, PathClass::Ipc));
    push_check(&mut checks, layout_check(&facts.layout, facts.owner_uid, PathClass::Logs));
    let more = artifact_layout_checks(&facts.artifacts, facts.owner_uid);
    push_checks(&mut checks, more);
    assert(check_views(checks@) =~= layout_part(*facts));
    checks
}

fn file_checks(root: &StateRoot, facts: &DoctorFacts) -> (r: Vec<Check>)
    ensures
        check_views(r@) == file_part(*root, *facts),
{
    let mut checks: Vec<Check> = Vec::new();
    push_check(&mut checks, socket_path_check(root));
    push_check(&mut checks, socket_check(facts.ipc, facts.socket, facts.owner_uid));
    if let Some(uid) = facts.owner_uid {
        let more = database_file_checks(&facts.files, uid);
        push_checks(&mut checks, more);
    }
    assert(check_views(checks@) =~= file_part(*root, *facts));
    checks
}

fn inspect_store<A: Fn(ObligationState) -> bool>(look: &StoreLook, now: Timestamp, attention: &A) -> (r: (
    Vec<Check>,
    Vec<String>,
))
    requires
        attends_total(*attention),
    ensures
        check_views(r.0@) == store_checked(*look),
        !(look is Read) ==> r.1@.len() == 0,
        *look matches StoreLook::Read(diagnosis) ==> (forall|
            model: spec_fn(ObligationState) -> bool,
        | #[trigger]
            attends_is(*attention, model) ==> summarises(
                string_texts(r.1@),
                diagnosis,
                now,
                model,
            )),
{
    match look {
        StoreLook::Absent => {
            let mut checks: Vec<Check> = Vec::new();
            push_check(&mut checks, Check::note("database", "absent"));
            assert(check_views(checks@) =~= store_checked(*look));
            (checks, Vec::new())
        },
        StoreLook::Unreadable(e) => {
            let mut checks: Vec<Check> = Vec::new();
            push_check(&mut checks, Check::fail("database", store_error_code(e)));
            assert(check_views(checks@) =~= store_checked(*look));
            (checks, Vec::new())
        },
        StoreLook::Read(diagnosis) => {
            let checks = checks_for(diagnosis);
            let lines = summary_for(diagnosis, now, attention);
            (checks, lines)
        },
    }
}

/// Diagnoses a state root from what was looked at.
pub fn diagnose<A: Fn(ObligationState) -> bool>(
    root: StateRoot,
    facts: DoctorFacts,
    now: Timestamp,
    attention: &A,
) -> (r: Diagnosis)
    requires
        attends_total(*attention),
    ensures
        r.state_root == root,
        r.lock == facts.lock,
        check_views(r.checks@) == all_checked(root, facts),
        !(facts.store is Read) ==> r.summary@.len() == 0,
        facts.store matches StoreLook::Read(diagnosis) ==> (forall|
            model: spec_fn(ObligationState) -> bool,
        | #[trigger]
            attends_is(*attention, model) ==> summarises(
                string_texts(r.summary@),
                diagnosis,
                now,
                model,
            )),
        r.daemon@ == (if facts.lock is Held {
            facts.daemon@
        } else {
            Seq::empty()
        }),
{
    let mut checks = layout_checks(&facts);
    let files = file_checks(&root, &facts);
    push_checks(&mut checks, files);
    let (store_checks, summary) = inspect_store(&facts.store, now, attention);
    push_checks(&mut checks, store_checks);
    let lock = facts.lock;
    let running = lock.daemon_running();
    if running && facts.daemon.len() == 0 {
        push_check(&mut checks, Check::fail("daemon_reachable", "socket_did_not_answer"));
    }
    assert(check_views(checks@) =~= all_checked(root, facts));
    let daemon = if running {
        facts.daemon
    } else {
        Vec::new()
    };
    Diagnosis { state_root: root, lock, checks, summary, daemon }
}

/// Whether every check passed.
pub open spec fn all_healthy(checks: Seq<CheckView>) -> bool {
    forall|i: int| 0 <= i < checks.len() ==> (#[trigger] checks[i]).healthy
}

/// The line of one check.
pub open spec fn check_text(check: CheckView) -> Seq<char> {
    let plain = "check name="@ + check.name + " result="@ + check.result;
    match check.detail {
        Some(detail) => plain + " detail="@ + detail,
        None => plain,
    }
}

fn check_line(check: &Check) -> (r: String)
    ensures
        r@ == check_text(check@),
{
    let mut out = "check name=".to_owned();
    out.append(check.name);
    out.append(" result=");
    out.append(check.result);
    if let Some(detail) = &check.detail {
        out.append(" detail=");
        out.append(detail.as_str());
    }
    out
}

/// The lines of checks.
pub open spec fn check_texts(checks: Seq<CheckView>) -> Seq<Seq<char>> {
    Seq::new(checks.len(), |i: int| check_text(checks[i]))
}

/// The lines of the running daemon, told apart by a prefix.
pub open spec fn live_texts(lines: Seq<Seq<char>>) -> Seq<Seq<char>> {
    Seq::new(lines.len(), |i: int| "live."@ + lines[i])
}

/// The trust model, the same every time.
pub open spec fn trust_texts() -> Seq<Seq<char>> {
    seq![
        "trust.model="@ + TRUST_MODEL@,
        "trust.owner_only_file_modes=true"@,
        "trust.protects_from_other_os_users=true"@,
        "trust.same_user_containment=false"@,
        "trust.ipc_peer_credential_check=false"@,
        "trust.ipc_boundary=owner_only_directory_mode"@,
    ]
}

/// The last word of a diagnosis.
pub open spec fn result_text(healthy: bool) -> Seq<char> {
    if healthy {
        "doctor.result=healthy"@
    } else {
        "doctor.result=unhealthy"@
    }
}

impl Diagnosis {
    /// The whole diagnosis in lines.
    pub open spec fn texts(self) -> Seq<Seq<char>> {
        let head = seq![
            "doctor.state_root="@ + self.state_root.root@,
            "doctor.daemon_running="@ + flag_text(self.lock is Held),
        ];
        head + check_texts(check_views(self.checks@)) + string_texts(self.summary@) + live_texts(
            string_texts(self.daemon@),
        ) + trust_texts() + seq![result_text(all_healthy(check_views(self.checks@)))]
    }

    /// Whether every check passed.
    pub fn healthy(&self) -> (r: bool)
        ensures
            r == all_healthy(check_views(self.checks@)),
    {
        let mut i: usize = 0;
        while i < self.checks.len()
            invariant
                i <= self.checks@.len(),
                forall|k: int| 0 <= k < i ==> (#[trigger] check_views(self.checks@)[k]).healthy,
            decreases self.checks@.len() - i,
        {
            if !self.checks[i].healthy {
                assert(!check_views(self.checks@)[i as int].healthy);
                return false;
            }
            i = i + 1;
        }
        true
    }

    /// The whole diagnosis, as stable greppable lines.
    pub fn lines(&self) -> (r: Vec<String>)
        ensures
            string_texts(r@) == self.texts(),
    {
        let mut lines: Vec<String> = Vec::new();
        push_line(&mut lines, join2("doctor.state_root=", self.state_root.path()));
        let running = if self.lock.daemon_running() {
            join2("doctor.daemon_running=", "true")
        } else {
            join2("doctor.daemon_running=", "false")
        };
        push_line(&mut lines, running);
        let ghost head = string_texts(lines@);
        assert(head =~= seq![
            "doctor.state_root="@ + self.state_root.root@,
            "doctor.daemon_running="@ + flag_text(self.lock is Held),
        ]);
        push_check_lines(&mut lines, &self.checks);
        push_copies(&mut lines, &self.summary);
        push_live_lines(&mut lines, &self.daemon);
        let ghost body = string_texts(lines@);
        push_line(&mut lines, join2("trust.model=", TRUST_MODEL));
        push_line(&mut lines, "trust.owner_only_file_modes=true".to_owned());
        push_line(&mut lines, "trust.protects_from_other_os_users=true".to_owned());
        push_line(&mut lines, "trust.same_user_containment=false".to_owned());
        push_line(&mut lines, "trust.ipc_peer_credential_check=false".to_owned());
        push_line(&mut lines, "trust.ipc_boundary=owner_only_directory_mode".to_owned());
        assert(string_texts(lines@) =~= body + trust_texts());
        if self.healthy() {
            push_line(&mut lines, "doctor.result=healthy".to_owned());
        } else {
            push_line(&mut lines, "doctor.result=unhealthy".to_owned());
        }
        assert(string_texts(lines@) =~= self.texts());
        lines
    }
}

fn push_check_lines(lines: &mut Vec<String>, checks: &Vec<Check>)
    ensures
        string_texts(final(lines)@) == string_texts(old(lines)@) + check_texts(
            check_views(checks@),
        ),
{
    let ghost before = string_texts(lines@);
    let ghost all = check_texts(check_views(checks@));
    let mut i: usize = 0;
    assert(before + all.take(0) =~= before);
    while i < checks.len()
        invariant
            all == check_texts(check_views(checks@)),
            i <= checks@.len(),
            string_texts(lines@) == before + all.take(i as int),
        decreases checks@.len() - i,
    {
        let line = check_line(&checks[i]);
        push_line(lines, line);
        assert(before + all.take(i + 1) =~= (before + all.take(i as int)).push(all[i as int]));
        i = i + 1;
    }
    assert(all.take(i as int) =~= all);
}

fn push_copies(lines: &mut Vec<String>, more: &Vec<String>)
    ensures
        string_texts(final(lines)@) == string_texts(old(lines)@) + string_texts(more@),
{
    let ghost before = string_texts(lines@);
    let ghost all = string_texts(more@);
    let mut i: usize = 0;
    assert(before + all.take(0) =~= before);
    while i < more.len()
        invariant
            all == string_texts(more@),
            i <= more@.len(),
            string_texts(lines@) == before + all.take(i as int),
        decreases more@.len() - i,
    {
        push_line(lines, more[i].clone());
        assert(before + all.take(i + 1) =~= (before + all.take(i as int)).push(all[i as int]));
        i = i + 1;
    }
    assert(all.take(i as int) =~= all);
}

fn push_live_lines(lines: &mut Vec<String>, more: &Vec<String>)
    ensures
        string_texts(final(lines)@) == string_texts(old(lines)@) + live_texts(
            string_texts(more@),
        ),
{
    let ghost before = string_texts(lines@);
    let ghost all = live_texts(string_texts(more@));
    let mut i: usize = 0;
    assert(before + all.take(0) =~= before);
    while i < more.len()
        invariant
            all == live_texts(string_texts(more@)),
            i <= more@.len(),
            string_texts(lines@) == before + all.take(i as int),
        decreases more@.len() - i,
    {
        push_line(lines, join2("live.", more[i].as_str()));
        assert(before + all.take(i + 1) =~= (before + all.take(i as int)).push(all[i as int]));
        i = i + 1;
    }
    assert(all.take(i as int) =~= all);
}

// --- Laws ------------------------------------------------------------------------------------------------

/// The trust model is reported every time, and it never claims containment of the same user.
pub proof fn the_trust_model_is_always_reported(diagnosis: Diagnosis, i: int)
    requires
        0 <= i < trust_texts().len(),
    ensures
        diagnosis.texts().contains(trust_texts()[i]),
        trust_texts().contains("trust.same_user_containment=false"@),
{
    let all = diagnosis.texts();
    let at = all.len() - 1 - trust_texts().len() + i;
    assert(all[at] == trust_texts()[i]);
    assert(trust_texts()[3] == "trust.same_user_containment=false"@);
}

/// A state root this process cannot write below is never healthy.
pub proof fn an_unwritable_root_is_unhealthy(root: StateRoot, facts: DoctorFacts)
    requires
        facts.owner_uid is None,
    ensures
        !all_healthy(all_checked(root, facts)),
{
    assert(all_checked(root, facts)[1] == failed(
        "state_root_writable",
        "not_writable_by_this_user",
    ));
}

/// A database that cannot be read is never healthy.
pub proof fn an_unreadable_database_is_unhealthy(root: StateRoot, facts: DoctorFacts)
    requires
        facts.store is Unreadable,
    ensures
        !all_healthy(all_checked(root, facts)),
{
    let at = (layout_part(facts) + file_part(root, facts)).len() as int;
    assert(all_checked(root, facts)[at] == store_checked(facts.store)[0]);
}

} // verus!
