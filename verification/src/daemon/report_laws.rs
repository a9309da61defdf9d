//! What the daemon's reports promise: that they count what there is, name what they list, and call a
//! state root healthy exactly where it is.
use vstd::prelude::*;
use crate::daemon::doctor::{
    all_checked, all_healthy, artifacts_checked, check_text, check_views, class_check,
    defect_word, diagnosis_checked, file_part, files_checked, layout_checked, layout_part, lock_checked, pinned_missing,
    replay_checked, result_text, socket_checked, socket_path_checked, store_checked, store_word, ArtifactLayout,
    CheckView, Diagnosis, DoctorFacts, StoreLook,
};
use crate::daemon::error::{artifact_class, refusal_code, ArtifactFailure, DaemonError, PathDefect};
use crate::daemon::ipc::{socket_findings, socket_path_fits};
use crate::daemon::layout::{path_defect, LayoutFacts, PathClass, PathFacts, StateRoot};
use crate::daemon::logging::{line_text, with_field, Level};
use crate::daemon::ports::instant_of;
use crate::daemon::report::{
    age_of, attended, condition_text, count_text, health_of, in_state, kind_lines, kinds_in_order,
    obligation_text, of_kind, scope_text, state_lines, state_word, states_in_order, summary_of,
    every_kind_is_counted_in_order, every_state_has_its_own_label,
};
use crate::daemon::startup::{seq_count, signed, socket_of, status_head, store_class, ReadyReport};
use crate::domain::fence::Timestamp;
use crate::domain::health::{HealthConditionKind, HealthScope};
use crate::domain::id::{canonical_text, Id};
use crate::domain::obligation::ObligationState;
use crate::store::error::StoreError;
use crate::store::inspect::{behind, ReadOnlyDiagnosis};
use crate::store::labels::{
    health_kind_label, obligation_state_label, obligation_state_named, obligation_state_round_trips,
};
use crate::store::load::artifact::OpenView;
use crate::store::load::health::OpenCondition;
use crate::text::{int_text, nat_text};

verus! {

// --- Counting --------------------------------------------------------------------------------------------

/// A count is how many there are: each obligation in that state counts once, and each condition of that
/// kind, and nothing else does.
pub proof fn a_report_counts_each_once(
    rows: Seq<OpenView>,
    row: OpenView,
    state: ObligationState,
    model: spec_fn(ObligationState) -> bool,
    conditions: Seq<OpenCondition>,
    condition: OpenCondition,
    kind: HealthConditionKind,
)
    ensures
        in_state(Seq::empty(), state) == 0,
        in_state(rows.push(row), state) == in_state(rows, state) + if row.state == state {
            1nat
        } else {
            0nat
        },
        attended(Seq::empty(), model) == 0,
        attended(rows.push(row), model) == attended(rows, model) + if model(row.state) {
            1nat
        } else {
            0nat
        },
        of_kind(Seq::empty(), kind) == 0,
        of_kind(conditions.push(condition), kind) == of_kind(conditions, kind) + if condition.kind == kind {
            1nat
        } else {
            0nat
        },
{
    assert(rows.push(row).drop_last() =~= rows);
    assert(conditions.push(condition).drop_last() =~= conditions);
}

proof fn a_state_has_its_line(rows: Seq<OpenView>, states: Seq<ObligationState>, state: ObligationState)
    requires
        states.contains(state),
        !state.closed() || in_state(rows, state) > 0,
    ensures
        state_lines(rows, states).contains(
            count_text("obligations.state."@ + state_word(state)@, in_state(rows, state)),
        ),
    decreases states.len(),
{
    let lines = state_lines(rows, states);
    let rest = state_lines(rows, states.drop_last());
    let line = count_text("obligations.state."@ + state_word(state)@, in_state(rows, state));
    if states.last() == state {
        assert(lines.last() == line);
        assert(lines.contains(lines.last()));
    } else {
        let k = choose|k: int| 0 <= k < states.len() && states[k] == state;
        assert(states.drop_last()[k] == state);
        a_state_has_its_line(rows, states.drop_last(), state);
        let i = choose|i: int| 0 <= i < rest.len() && rest[i] == line;
        assert(lines[i] == line);
    }
}

/// A closed state that occurs is reported too, with its count.
pub proof fn a_closed_state_is_reported_where_it_occurs(
    rows: Seq<OpenView>,
    model: spec_fn(ObligationState) -> bool,
    state: ObligationState,
)
    requires
        in_state(rows, state) > 0,
    ensures
        summary_of(rows, model).contains(
            count_text("obligations.state."@ + state_word(state)@, in_state(rows, state)),
        ),
        summary_of(rows, model).contains(count_text("obligations.open"@, rows.len())),
        summary_of(rows, model).contains(count_text("obligations.attention"@, attended(rows, model))),
{
    every_state_has_its_own_label();
    a_state_has_its_line(rows, states_in_order(), state);
    let lines = state_lines(rows, states_in_order());
    let line = count_text("obligations.state."@ + state_word(state)@, in_state(rows, state));
    let k = choose|k: int| 0 <= k < lines.len() && lines[k] == line;
    let all = summary_of(rows, model);
    assert(all[k + 2] == line);
    assert(all[0] == count_text("obligations.open"@, rows.len()));
    assert(all[1] == count_text("obligations.attention"@, attended(rows, model)));
}

proof fn a_kind_has_its_line(
    conditions: Seq<OpenCondition>,
    kinds: Seq<HealthConditionKind>,
    kind: HealthConditionKind,
)
    requires
        kinds.contains(kind),
        of_kind(conditions, kind) > 0,
    ensures
        kind_lines(conditions, kinds).contains(
            count_text("health.kind."@ + health_kind_label(kind)@, of_kind(conditions, kind)),
        ),
    decreases kinds.len(),
{
    let lines = kind_lines(conditions, kinds);
    let rest = kind_lines(conditions, kinds.drop_last());
    let line = count_text("health.kind."@ + health_kind_label(kind)@, of_kind(conditions, kind));
    if kinds.last() == kind {
        assert(lines.last() == line);
        assert(lines.contains(lines.last()));
    } else {
        let k = choose|k: int| 0 <= k < kinds.len() && kinds[k] == kind;
        assert(kinds.drop_last()[k] == kind);
        a_kind_has_its_line(conditions, kinds.drop_last(), kind);
        let i = choose|i: int| 0 <= i < rest.len() && rest[i] == line;
        assert(lines[i] == line);
    }
}

/// A health report says how many conditions are open, how many there are of each kind that occurs, and
/// lists each of them.
pub proof fn a_health_report_lists_every_condition(
    conditions: Seq<OpenCondition>,
    i: int,
    kind: HealthConditionKind,
)
    requires
        0 <= i < conditions.len(),
        of_kind(conditions, kind) > 0,
    ensures
        health_of(conditions).contains(count_text("health.open"@, conditions.len())),
        health_of(conditions).contains(
            count_text("health.kind."@ + health_kind_label(kind)@, of_kind(conditions, kind)),
        ),
        health_of(conditions).contains(condition_text(conditions[i])),
{
    every_kind_is_counted_in_order();
    a_kind_has_its_line(conditions, kinds_in_order(), kind);
    let all = health_of(conditions);
    let lines = kind_lines(conditions, kinds_in_order());
    let line = count_text("health.kind."@ + health_kind_label(kind)@, of_kind(conditions, kind));
    let k = choose|k: int| 0 <= k < lines.len() && lines[k] == line;
    assert(all[0] == count_text("health.open"@, conditions.len()));
    assert(all[1 + k] == line);
    assert(all[1 + lines.len() + i] == condition_text(conditions[i]));
}

/// An age is the time that has passed, never negative and never more than a counter holds.
pub proof fn an_age_is_the_time_that_has_passed(now: Timestamp, then: Timestamp)
    ensures
        now <= then ==> age_of(now, then) == 0,
        now > then ==> then + age_of(now, then) <= now && age_of(now, then) <= i64::MAX && (age_of(
            now,
            then,
        ) < i64::MAX ==> then + age_of(now, then) == now),
{
}

// --- Lines -----------------------------------------------------------------------------------------------

/// Whether a text holds a piece.
pub open spec fn holds_piece(text: Seq<char>, piece: Seq<char>) -> bool {
    exists|from: int|
        0 <= from && from + piece.len() <= text.len() && #[trigger] text.subrange(
            from,
            from + piece.len(),
        ) == piece
}

proof fn a_joined_piece_is_held(before: Seq<char>, piece: Seq<char>, after: Seq<char>)
    ensures
        holds_piece(before + piece + after, piece),
{
    let text = before + piece + after;
    assert(text.subrange(before.len() as int, (before.len() + piece.len()) as int) =~= piece);
}

/// An obligation's line names it, its state, its version, its age and its artifact.
pub proof fn an_obligations_line_says_how_it_stands(row: OpenView, now: Timestamp)
    ensures
        holds_piece(obligation_text(row, now), "obligation id="@ + canonical_text(row.id.value)),
        holds_piece(obligation_text(row, now), " state="@ + state_word(row.state)@),
        holds_piece(obligation_text(row, now), " version="@ + nat_text(row.version as nat)),
        holds_piece(obligation_text(row, now), " age_ms="@ + nat_text(age_of(now, row.created_at))),
        row.result_artifact matches Some(artifact) ==> holds_piece(
            obligation_text(row, now),
            " artifact="@ + canonical_text(artifact.id.value),
        ),
        row.result_artifact is None ==> holds_piece(obligation_text(row, now), " artifact="@ + "none"@),
{
    let text = obligation_text(row, now);
    let id = "obligation id="@ + canonical_text(row.id.value);
    let kind = " kind="@ + crate::daemon::report::kind_word(row.kind)@;
    let state = " state="@ + state_word(row.state)@;
    let version = " version="@ + nat_text(row.version as nat);
    let age = " age_ms="@ + nat_text(age_of(now, row.created_at));
    let artifact = " artifact="@ + (match row.result_artifact {
        Some(artifact) => canonical_text(artifact.id.value),
        None => "none"@,
    });
    let nothing = Seq::<char>::empty();
    assert(text =~= nothing + id + (kind + state + version + age + artifact));
    a_joined_piece_is_held(nothing, id, kind + state + version + age + artifact);
    assert(text =~= (id + kind) + state + (version + age + artifact));
    a_joined_piece_is_held(id + kind, state, version + age + artifact);
    assert(text =~= (id + kind + state) + version + (age + artifact));
    a_joined_piece_is_held(id + kind + state, version, age + artifact);
    assert(text =~= (id + kind + state + version) + age + artifact);
    a_joined_piece_is_held(id + kind + state + version, age, artifact);
    assert(text =~= (id + kind + state + version + age) + artifact + nothing);
    a_joined_piece_is_held(id + kind + state + version + age, artifact, nothing);
}

/// A condition's line names its kind and what it is about.
pub proof fn a_conditions_line_says_what_it_is_about(condition: OpenCondition, id: Id)
    ensures
        holds_piece(condition_text(condition), "health kind="@ + health_kind_label(condition.kind)@),
        holds_piece(condition_text(condition), scope_text(condition.scope)),
        condition.scope == HealthScope::of_obligation(id) ==> scope_text(condition.scope)
            == "scope.obligation="@ + canonical_text(id.value),
        condition.scope == HealthScope::of_turn(id) ==> scope_text(condition.scope) == "scope.turn="@
            + canonical_text(id.value),
        condition.scope == HealthScope::of_attempt(id) ==> scope_text(condition.scope)
            == "scope.external_attempt="@ + canonical_text(id.value),
        condition.scope == HealthScope::nothing() ==> scope_text(condition.scope) == "scope=global"@,
{
    let head = "health kind="@ + health_kind_label(condition.kind)@;
    let scope = scope_text(condition.scope);
    let nothing = Seq::<char>::empty();
    assert(condition_text(condition) =~= nothing + head + (" "@ + scope));
    a_joined_piece_is_held(nothing, head, " "@ + scope);
    assert(condition_text(condition) =~= (head + " "@) + scope + nothing);
    a_joined_piece_is_held(head + " "@, scope, nothing);
    reveal_strlit("scope.obligation=");
    reveal_strlit("scope.turn=");
    reveal_strlit("scope.external_attempt=");
    reveal_strlit("scope.obligation");
    reveal_strlit("scope.turn");
    reveal_strlit("scope.external_attempt");
    reveal_strlit("=");
    assert("scope.obligation="@ =~= "scope.obligation"@ + "="@);
    assert("scope.turn="@ =~= "scope.turn"@ + "="@);
    assert("scope.external_attempt="@ =~= "scope.external_attempt"@ + "="@);
}

/// A log line says when, how grave and what, in that order, with its fields, and ends where it ends.
pub proof fn a_log_line_says_when_and_what(
    at: Timestamp,
    level: Level,
    event: Seq<char>,
    fields: Seq<char>,
    key: Seq<char>,
    value: Seq<char>,
)
    ensures
        holds_piece(line_text(at, level, event, fields), int_text(at as int) + " "@ + level.word()@),
        holds_piece(line_text(at, level, event, fields), level.word()@ + " "@ + event),
        fields.len() > 0 ==> holds_piece(line_text(at, level, event, fields), fields),
        line_text(at, level, event, fields).last() == '\n',
        holds_piece(with_field(fields, key, value), key + "="@ + value),
        holds_piece(with_field(fields, key, value), fields),
        fields.len() > 0 ==> fields.is_prefix_of(with_field(fields, key, value)),
{
    reveal_strlit("\n");
    let line = line_text(at, level, event, fields);
    let stamp = int_text(at as int) + " "@ + level.word()@;
    let what = level.word()@ + " "@ + event;
    let tail = if fields.len() == 0 {
        "\n"@
    } else {
        " "@ + fields + "\n"@
    };
    let nothing = Seq::<char>::empty();
    assert(line =~= nothing + stamp + (" "@ + event + tail));
    a_joined_piece_is_held(nothing, stamp, " "@ + event + tail);
    assert(line =~= (int_text(at as int) + " "@) + what + tail);
    a_joined_piece_is_held(int_text(at as int) + " "@, what, tail);
    if fields.len() > 0 {
        assert(line =~= (stamp + " "@ + event + " "@) + fields + "\n"@);
        a_joined_piece_is_held(stamp + " "@ + event + " "@, fields, "\n"@);
        assert(with_field(fields, key, value) =~= nothing + fields + (" "@ + key + "="@ + value));
        a_joined_piece_is_held(nothing, fields, " "@ + key + "="@ + value);
        assert(with_field(fields, key, value) =~= (fields + " "@) + (key + "="@ + value) + nothing);
        a_joined_piece_is_held(fields + " "@, key + "="@ + value, nothing);
    } else {
        assert(with_field(fields, key, value) =~= nothing + (key + "="@ + value) + nothing);
        a_joined_piece_is_held(nothing, key + "="@ + value, nothing);
        assert(with_field(fields, key, value).subrange(0, 0) =~= fields);
    }
}

/// An instant is the time since the epoch, as far as a counter holds it; before the epoch it is zero.
pub proof fn an_instant_is_the_time_since_the_epoch(millis: u128, epoch: u64)
    ensures
        instant_of(None) == 0,
        millis <= i64::MAX ==> instant_of(Some(millis)) == millis,
        millis > i64::MAX ==> instant_of(Some(millis)) == i64::MAX,
        epoch <= i64::MAX ==> signed(epoch) == epoch,
        epoch > i64::MAX ==> signed(epoch) == i64::MAX,
{
}

// --- The running daemon ----------------------------------------------------------------------------------

/// What a running daemon says of itself is what it reported when it was ready, figure by figure.
pub proof fn a_status_says_what_was_reported(ready: ReadyReport)
    ensures
        status_head(ready).contains(count_text("daemon.slot"@, ready.incarnation.slot as nat)),
        status_head(ready).contains(count_text("daemon.epoch"@, ready.daemon_epoch as nat)),
        status_head(ready).contains(count_text("store.schema_epoch"@, ready.schema_epoch as nat)),
        status_head(ready).contains(
            count_text("store.projections.obligations"@, ready.projections.obligations as nat),
        ),
        status_head(ready).contains(
            count_text("store.projections.deliveries"@, ready.projections.deliveries as nat),
        ),
        status_head(ready).contains(
            count_text(
                "recovery.quarantined_deliveries"@,
                ready.recovery.quarantined_deliveries as nat,
            ),
        ),
        status_head(ready).contains(
            count_text("recovery.uncertain_mutations"@, ready.recovery.uncertain_mutations as nat),
        ),
        status_head(ready).contains(
            count_text("recovery.ambiguous_attempts"@, ready.recovery.ambiguous_attempts as nat),
        ),
        status_head(ready).contains(count_text("artifacts.verified"@, ready.artifacts_verified as nat)),
        status_head(ready).contains(
            count_text("artifacts.unverified"@, ready.artifacts_unverified as nat),
        ),
        status_head(ready).contains(
            count_text("artifacts.quarantined"@, ready.artifacts_quarantined as nat),
        ),
{
    let head = status_head(ready);
    assert(head[1] == count_text("daemon.slot"@, ready.incarnation.slot as nat));
    assert(head[2] == count_text("daemon.epoch"@, ready.daemon_epoch as nat));
    assert(head[3] == count_text("store.schema_epoch"@, ready.schema_epoch as nat));
    assert(head[4] == count_text(
        "store.projections.obligations"@,
        ready.projections.obligations as nat,
    ));
    assert(head[5] == count_text("store.projections.deliveries"@, ready.projections.deliveries as nat));
    assert(head[7] == count_text(
        "recovery.quarantined_deliveries"@,
        ready.recovery.quarantined_deliveries as nat,
    ));
    assert(head[8] == count_text(
        "recovery.uncertain_mutations"@,
        ready.recovery.uncertain_mutations as nat,
    ));
    assert(head[9] == count_text(
        "recovery.ambiguous_attempts"@,
        ready.recovery.ambiguous_attempts as nat,
    ));
    assert(head[10] == count_text("artifacts.verified"@, ready.artifacts_verified as nat));
    assert(head[11] == count_text("artifacts.unverified"@, ready.artifacts_unverified as nat));
    assert(head[12] == count_text("artifacts.quarantined"@, ready.artifacts_quarantined as nat));
}

// --- The doctor ------------------------------------------------------------------------------------------

/// Whether a directory is as it should be: not there yet, or private to the owner.
pub open spec fn sound_directory(facts: PathFacts, uid: u32) -> bool {
    facts is Missing || path_defect(facts, uid, true) is Ok
}

/// Whether a layout is sound: every directory of the root is.
pub open spec fn sound_layout(facts: LayoutFacts, uid: u32) -> bool {
    &&& sound_directory(facts.state_root, uid)
    &&& sound_directory(facts.artifacts, uid)
    &&& sound_directory(facts.ipc, uid)
    &&& sound_directory(facts.logs, uid)
}

/// Whether the artifact directories are sound, where they were looked at.
pub open spec fn sound_artifacts(layout: Option<ArtifactLayout>, uid: u32) -> bool {
    layout matches Some(found) ==> sound_directory(found.objects, uid) && sound_directory(
        found.incoming,
        uid,
    ) && sound_directory(found.quarantine, uid)
}

/// Whether a store is sound: not there yet, or readable with a schema this binary supports and no pinned
/// artifact missing.
pub open spec fn sound_store(look: StoreLook) -> bool {
    match look {
        StoreLook::Absent => true,
        StoreLook::Unreadable(_) => false,
        StoreLook::Read(diagnosis) => diagnosis.schema_present ==> {
            &&& diagnosis.schema_epoch matches Some(found) ==> found <= diagnosis.supported_schema_epoch
            &&& of_kind(diagnosis.open_conditions@, HealthConditionKind::ResultArtifactMissing) == 0
        },
    }
}

/// Whether every database file that is there is private to the owner.
pub open spec fn sound_files(files: Seq<Option<PathFacts>>, uid: u32) -> bool {
    forall|i: int|
        0 <= i < files.len() && (#[trigger] files[i]) is Some ==> path_defect(files[i]->0, uid, false) is Ok
}

proof fn files_are_healthy_where_sound(files: Seq<Option<PathFacts>>, uid: u32)
    ensures
        all_healthy(files_checked(files, uid)) <==> sound_files(files, uid),
    decreases files.len(),
{
    if files.len() > 0 {
        let rest = files.drop_last();
        let n = files.len() - 1;
        files_are_healthy_where_sound(rest, uid);
        let before = files_checked(rest, uid);
        let after = files_checked(files, uid);
        if all_healthy(after) {
            assert forall|i: int| 0 <= i < before.len() implies (#[trigger] before[i]).healthy by {
                assert(after[i] == before[i]);
            }
            assert forall|i: int|
                0 <= i < files.len() && (#[trigger] files[i]) is Some implies path_defect(
                files[i]->0,
                uid,
                false,
            ) is Ok by {
                if i < n {
                    assert(rest[i] == files[i]);
                } else if path_defect(files[n]->0, uid, false) is Err {
                    assert(after.last() == after[before.len() as int]);
                    assert(!after[before.len() as int].healthy);
                }
            }
        }
        if sound_files(files, uid) {
            assert forall|i: int| 0 <= i < rest.len() && (#[trigger] rest[i]) is Some implies path_defect(
                rest[i]->0,
                uid,
                false,
            ) is Ok by {
                assert(files[i] == rest[i]);
            }
            assert(after == before) by {
                assert(files[n] is Some ==> path_defect(files[n]->0, uid, false) is Ok);
            }
        }
    }
}

proof fn joined_checks_are_healthy_together(a: Seq<CheckView>, b: Seq<CheckView>)
    ensures
        all_healthy(a + b) <==> all_healthy(a) && all_healthy(b),
{
    let both = a + b;
    if all_healthy(both) {
        assert forall|i: int| 0 <= i < a.len() implies (#[trigger] a[i]).healthy by {
            assert(both[i] == a[i]);
        }
        assert forall|i: int| 0 <= i < b.len() implies (#[trigger] b[i]).healthy by {
            assert(both[a.len() + i] == b[i]);
        }
    }
    if all_healthy(a) && all_healthy(b) {
        assert forall|i: int| 0 <= i < both.len() implies (#[trigger] both[i]).healthy by {
            if i >= a.len() {
                assert(both[i] == b[i - a.len()]);
            }
        }
    }
}

proof fn layout_is_healthy_where_sound(facts: DoctorFacts, uid: u32)
    requires
        facts.owner_uid == Some(uid),
    ensures
        all_healthy(layout_part(facts)) <==> !(facts.lock is Unreadable) && sound_layout(
            facts.layout,
            uid,
        ) && sound_artifacts(facts.artifacts, uid),
{
    let head = seq![
        lock_checked(facts.lock),
        crate::daemon::doctor::passed("state_root_writable"),
        layout_checked(facts.layout, facts.owner_uid, PathClass::StateRoot),
        layout_checked(facts.layout, facts.owner_uid, PathClass::Artifacts),
        layout_checked(facts.layout, facts.owner_uid, PathClass::Ipc),
        layout_checked(facts.layout, facts.owner_uid, PathClass::Logs),
    ];
    let tail = artifacts_checked(facts.artifacts, facts.owner_uid);
    assert(layout_part(facts) =~= head + tail);
    joined_checks_are_healthy_together(head, tail);
    if all_healthy(head) {
        assert(head[0].healthy && head[2].healthy && head[3].healthy && head[4].healthy
            && head[5].healthy);
    }
    if let Some(found) = facts.artifacts {
        if all_healthy(tail) {
            assert(tail[0].healthy && tail[1].healthy && tail[2].healthy);
        }
        if sound_artifacts(facts.artifacts, uid) {
            assert forall|i: int| 0 <= i < tail.len() implies (#[trigger] tail[i]).healthy by {
                assert(i == 0 || i == 1 || i == 2 || i == 3);
            }
        }
    }
}

proof fn store_is_healthy_where_sound(look: StoreLook)
    ensures
        all_healthy(store_checked(look)) <==> sound_store(look),
{
    let checks = store_checked(look);
    match look {
        StoreLook::Absent => {},
        StoreLook::Unreadable(_) => {
            assert(!checks[0].healthy);
        },
        StoreLook::Read(diagnosis) => {
            if diagnosis.schema_present {
                if all_healthy(checks) {
                    assert(checks[1].healthy);
                    if pinned_missing(diagnosis) > 0 {
                        assert(!checks[4].healthy);
                    }
                }
                if sound_store(look) {
                    assert forall|i: int| 0 <= i < checks.len() implies (#[trigger] checks[i]).healthy by {
                        assert(i == 0 || i == 1 || i == 2 || i == 3);
                    }
                }
            }
        },
    }
}

/// A state root is healthy exactly where its owner can write it, its lock can be read, every directory
/// and file of it that is there is private, its socket's path fits, its store is sound, and a daemon that
/// holds it answers.
pub proof fn a_root_is_healthy_where_everything_is_sound(root: StateRoot, facts: DoctorFacts)
    ensures
        all_healthy(all_checked(root, facts)) <==> {
            &&& facts.owner_uid is Some
            &&& !(facts.lock is Unreadable)
            &&& sound_layout(facts.layout, facts.owner_uid->0)
            &&& sound_artifacts(facts.artifacts, facts.owner_uid->0)
            &&& socket_path_fits(socket_of(root)) is Ok
            &&& facts.ipc matches Some(found) ==> path_defect(found, facts.owner_uid->0, true) is Ok
            &&& facts.socket matches Some(found) ==> path_defect(found, facts.owner_uid->0, false) is Ok
            &&& sound_files(facts.files@, facts.owner_uid->0)
            &&& sound_store(facts.store)
            &&& facts.lock is Held ==> facts.daemon@.len() > 0
        },
{
    let layout = layout_part(facts);
    let files = file_part(root, facts);
    let store = store_checked(facts.store);
    let before = layout + files + store;
    joined_checks_are_healthy_together(layout, files);
    joined_checks_are_healthy_together(layout + files, store);
    store_is_healthy_where_sound(facts.store);
    let all = all_checked(root, facts);
    if facts.lock is Held && facts.daemon@.len() == 0 {
        assert(all[before.len() as int] == all.last());
        assert(!all[before.len() as int].healthy);
    } else {
        assert(all == before);
    }
    match facts.owner_uid {
        None => {
            assert(!layout[1].healthy);
        },
        Some(uid) => {
            layout_is_healthy_where_sound(facts, uid);
            files_are_healthy_where_sound(facts.files@, uid);
            let head = seq![
                socket_path_checked(root),
                socket_checked(facts.ipc, facts.socket, facts.owner_uid),
            ];
            assert(files =~= head + files_checked(facts.files@, uid));
            joined_checks_are_healthy_together(head, files_checked(facts.files@, uid));
            if all_healthy(head) {
                assert(head[0].healthy && head[1].healthy);
            }
            let findings = socket_findings(facts.ipc, facts.socket, uid);
            assert(findings.len() > 0 <==> (facts.ipc is Some && path_defect(facts.ipc->0, uid, true) is Err)
                || (facts.socket is Some && path_defect(facts.socket->0, uid, false) is Err));
        },
    }
}

/// A diagnosis ends with what it comes to: healthy where every check is, and unhealthy where one is not.
pub proof fn a_diagnosis_ends_with_its_result(diagnosis: Diagnosis)
    ensures
        diagnosis.texts().last() == result_text(all_healthy(check_views(diagnosis.checks@))),
        result_text(true) != result_text(false),
{
    reveal_strlit("doctor.result=healthy");
    reveal_strlit("doctor.result=unhealthy");
    assert("doctor.result=healthy"@.len() == 21);
    assert("doctor.result=unhealthy"@.len() == 23);
}

/// A check's line says what was looked at, what was found, and the detail where there is one.
pub proof fn a_checks_line_says_what_was_found(check: CheckView)
    ensures
        holds_piece(check_text(check), "check name="@ + check.name + " result="@ + check.result),
        check.detail matches Some(detail) ==> holds_piece(check_text(check), " detail="@ + detail),
{
    let plain = "check name="@ + check.name + " result="@ + check.result;
    let nothing = Seq::<char>::empty();
    match check.detail {
        Some(detail) => {
            let tail = " detail="@ + detail;
            assert(check_text(check) =~= nothing + plain + tail);
            a_joined_piece_is_held(nothing, plain, tail);
            assert(check_text(check) =~= plain + tail + nothing);
            a_joined_piece_is_held(plain, tail, nothing);
        },
        None => {
            assert(check_text(check) =~= nothing + plain + nothing);
            a_joined_piece_is_held(nothing, plain, nothing);
        },
    }
}

/// A replay is reported as verified exactly where the ledger holds nothing past what was verified.
pub proof fn a_replay_is_reported_as_it_stands(diagnosis: ReadOnlyDiagnosis)
    ensures
        behind(diagnosis.ledger_head, diagnosis.verified_through) ==> replay_checked(diagnosis).result
            == "not_verified_since_last_events"@,
        !behind(diagnosis.ledger_head, diagnosis.verified_through) ==> replay_checked(diagnosis).result
            == "verified_through_ledger_head"@,
        replay_checked(diagnosis).detail matches Some(detail) && detail == "verified_"@ + nat_text(
            seq_count(diagnosis.verified_through),
        ) + ("_of_"@ + nat_text(seq_count(diagnosis.ledger_head))),
        diagnosis_checked(diagnosis).len() > 0,
{
}

// --- Codes -----------------------------------------------------------------------------------------------

/// A report names a state as the store does: the word of a line is the label of the row.
pub proof fn a_state_is_reported_by_its_label(state: ObligationState)
    ensures
        state_word(state)@ == obligation_state_label(state)@,
        obligation_state_named(state_word(state)@) == Some(state),
{
    obligation_state_round_trips(state);
}

/// A store failure has one class, which no other kind of failure has; a diagnosis names it by the same
/// class, but for an engine failure, which it sends to the owner.
pub proof fn a_store_failure_has_its_own_class(a: StoreError, b: StoreError)
    ensures
        a !is Sqlite ==> store_word(a)@ == store_class(a)@,
        store_class(a)@ == store_class(b)@ ==> {
            &&& a is Conflict <==> b is Conflict
            &&& a is SchemaEpochTooNew <==> b is SchemaEpochTooNew
            &&& a is MigrationChecksumMismatch <==> b is MigrationChecksumMismatch
            &&& a is UnknownAppliedMigration <==> b is UnknownAppliedMigration
            &&& a is ConnectionPolicy <==> b is ConnectionPolicy
            &&& a is Corrupt <==> b is Corrupt
            &&& a is RepairNeeded <==> b is RepairNeeded
            &&& a is QuarantineIncomplete <==> b is QuarantineIncomplete
            &&& a is WriterGone <==> b is WriterGone
            &&& a is Sqlite <==> b is Sqlite
        },
        store_word(a)@ == store_word(b)@ ==> (a is Sqlite <==> b is Sqlite),
{
    reveal_strlit("conflict");
    reveal_strlit("schema_epoch_too_new");
    reveal_strlit("migration_checksum_mismatch");
    reveal_strlit("unknown_applied_migration");
    reveal_strlit("connection_policy");
    reveal_strlit("corrupt_value");
    reveal_strlit("repair_needed");
    reveal_strlit("quarantine_incomplete");
    reveal_strlit("writer_gone");
    reveal_strlit("sqlite");
    reveal_strlit("unreadable_needs_owner_recovery");
    assert("conflict"@.len() == 8);
    assert("schema_epoch_too_new"@.len() == 20);
    assert("migration_checksum_mismatch"@.len() == 27);
    assert("unknown_applied_migration"@.len() == 25);
    assert("connection_policy"@.len() == 17);
    assert("corrupt_value"@.len() == 13);
    assert("repair_needed"@.len() == 13);
    assert("quarantine_incomplete"@.len() == 21);
    assert("writer_gone"@.len() == 11);
    assert("sqlite"@.len() == 6);
    assert("unreadable_needs_owner_recovery"@.len() == 31);
    assert("corrupt_value"@[0] != "repair_needed"@[0]);
}

/// A refusal has one code, which no other kind of refusal has.
pub proof fn a_refusal_has_its_own_code(a: DaemonError, b: DaemonError)
    ensures
        refusal_code(a)@ == refusal_code(b)@ ==> {
            &&& a is AuthorityHeld <==> b is AuthorityHeld
            &&& a is LockHolderStillAlive <==> b is LockHolderStillAlive
            &&& a is Lock <==> b is Lock
            &&& a is Filesystem <==> b is Filesystem
            &&& a is Store <==> b is Store
            &&& a is Artifacts <==> b is Artifacts
            &&& a is Ipc <==> b is Ipc
            &&& a is Logging <==> b is Logging
            &&& a is SignalHandler <==> b is SignalHandler
        },
{
    reveal_strlit("authority_held");
    reveal_strlit("lock_holder_still_alive");
    reveal_strlit("lock_unavailable");
    reveal_strlit("state_root_invalid");
    reveal_strlit("store_refused");
    reveal_strlit("artifact_root_refused");
    reveal_strlit("ipc_unavailable");
    reveal_strlit("logging_unavailable");
    reveal_strlit("signal_handler_unavailable");
    assert("authority_held"@.len() == 14);
    assert("lock_holder_still_alive"@.len() == 23);
    assert("lock_unavailable"@.len() == 16);
    assert("state_root_invalid"@.len() == 18);
    assert("store_refused"@.len() == 13);
    assert("artifact_root_refused"@.len() == 21);
    assert("ipc_unavailable"@.len() == 15);
    assert("logging_unavailable"@.len() == 19);
    assert("signal_handler_unavailable"@.len() == 26);
}

/// What is wrong with a path, with an artifact or in which directory has its own word.
pub proof fn a_defect_has_its_own_word(
    a: PathDefect,
    b: PathDefect,
    c: ArtifactFailure,
    d: ArtifactFailure,
    e: PathClass,
    f: PathClass,
)
    ensures
        defect_word(a)@ == defect_word(b)@ ==> a == b,
        artifact_class(c)@ == artifact_class(d)@ ==> c == d,
        class_check(e)@ == class_check(f)@ ==> e == f,
{
    reveal_strlit("missing_or_uncreatable");
    reveal_strlit("not_a_directory");
    reveal_strlit("symlink");
    reveal_strlit("foreign_owner");
    reveal_strlit("group_or_other_accessible");
    reveal_strlit("metadata_unreadable");
    reveal_strlit("missing");
    reveal_strlit("integrity_mismatch");
    reveal_strlit("too_large");
    reveal_strlit("unsafe_path");
    reveal_strlit("invalid_key");
    reveal_strlit("io");
    reveal_strlit("state_root_layout");
    reveal_strlit("artifact_root_layout");
    reveal_strlit("ipc_directory_layout");
    reveal_strlit("log_directory_layout");
    assert("missing_or_uncreatable"@.len() == 22);
    assert("not_a_directory"@.len() == 15);
    assert("symlink"@.len() == 7);
    assert("foreign_owner"@.len() == 13);
    assert("group_or_other_accessible"@.len() == 25);
    assert("metadata_unreadable"@.len() == 19);
    assert("missing"@.len() == 7);
    assert("integrity_mismatch"@.len() == 18);
    assert("too_large"@.len() == 9);
    assert("unsafe_path"@.len() == 11);
    assert("invalid_key"@.len() == 11);
    assert("io"@.len() == 2);
    assert("state_root_layout"@.len() == 17);
    assert("artifact_root_layout"@.len() == 20);
    assert("ipc_directory_layout"@.len() == 20);
    assert("log_directory_layout"@.len() == 20);
    assert("unsafe_path"@[0] != "invalid_key"@[0]);
    assert("artifact_root_layout"@[0] != "ipc_directory_layout"@[0]);
    assert("artifact_root_layout"@[0] != "log_directory_layout"@[0]);
    assert("ipc_directory_layout"@[0] != "log_directory_layout"@[0]);
}

} // verus!
