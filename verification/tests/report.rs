use command_governor::daemon::report::{
    health_lines, kind_code, obligation_lines, obligation_summary_lines, state_code, summarise,
};
use command_governor::domain::artifact::ResultArtifact;
use command_governor::domain::fence::SafeToken;
use command_governor::domain::health::{HealthConditionKind, HealthScope};
use command_governor::domain::id::{id_text, Id};
use command_governor::domain::obligation::{ObligationKind, ObligationState};
use command_governor::store::load::artifact::OpenObligation;
use command_governor::store::load::health::OpenCondition;

const ALL_STATES: [ObligationState; 10] = [
    ObligationState::Created,
    ObligationState::Running,
    ObligationState::NeedsInput,
    ObligationState::Failed,
    ObligationState::CompletedUnprocessed,
    ObligationState::ClaimedByForeman,
    ObligationState::Processing,
    ObligationState::Acknowledged,
    ObligationState::CancelledByUser,
    ObligationState::Superseded,
];

fn attention(state: ObligationState) -> bool {
    matches!(
        state,
        ObligationState::NeedsInput | ObligationState::Failed | ObligationState::CompletedUnprocessed
    )
}

fn obligation(state: ObligationState, created_ms: i64, with_artifact: bool) -> OpenObligation {
    let id = Id { value: u128::try_from(created_ms).unwrap_or(1) };
    OpenObligation {
        id,
        kind: ObligationKind::WorkerTurn,
        state,
        version: 3,
        created_at: created_ms,
        result_artifact: with_artifact.then(|| ResultArtifact {
            id: Id { value: 9 },
            storage_ref: SafeToken::new("ra-000000000000", &|_: &str| true).expect("token"),
            digest: [0; 32],
            byte_len: 12,
            created_at: created_ms,
        }),
    }
}

#[test]
fn every_lifecycle_state_has_a_distinct_label() {
    let mut codes: Vec<&str> = ALL_STATES.iter().map(|state| state_code(*state)).collect();
    let total = codes.len();
    codes.sort_unstable();
    codes.dedup();
    assert_eq!(codes.len(), total);
    assert_eq!(kind_code(ObligationKind::WorkerTurn), "worker_turn");
}

#[test]
fn an_obligation_line_carries_only_identities_classes_and_counters() {
    let lines = obligation_lines(
        &[obligation(ObligationState::CompletedUnprocessed, 1_000, true)],
        5_000,
    );
    assert_eq!(lines.len(), 1);
    let line = &lines[0];
    assert!(line.contains("kind=worker_turn"));
    assert!(line.contains("state=completed_unprocessed"));
    assert!(line.contains("version=3"));
    assert!(line.contains("age_ms=4000"));
    for field in line.split_whitespace().skip(1) {
        let (_, value) = field.split_once('=').expect("every field is key=value");
        assert!(
            !value.contains('/') && !value.is_empty(),
            "a value must not look like a path: {value}"
        );
    }
    assert_eq!(
        line,
        &format!(
            "obligation id={} kind=worker_turn state=completed_unprocessed version=3 age_ms=4000 artifact={}",
            id_text(Id { value: 1_000 }),
            id_text(Id { value: 9 })
        )
    );
}

#[test]
fn obligation_lines_are_oldest_first() {
    let lines = obligation_lines(
        &[
            obligation(ObligationState::Running, 3_000, false),
            obligation(ObligationState::Created, 1_000, false),
        ],
        9_000,
    );
    assert!(lines[0].contains("age_ms=8000"));
    assert!(lines[1].contains("age_ms=6000"));
}

#[test]
fn rows_of_one_age_keep_their_order_and_ages_are_bounded() {
    let mut first = obligation(ObligationState::Running, 5, false);
    first.version = 1;
    let mut second = obligation(ObligationState::Running, 5, false);
    second.version = 2;
    let lines = obligation_lines(&[obligation(ObligationState::Created, 7, false), first, second], 6);
    assert!(lines[0].contains("version=1 age_ms=1"));
    assert!(lines[1].contains("version=2 age_ms=1"));
    assert!(lines[2].contains("age_ms=0"), "what lies ahead has no age");
    let old = obligation_lines(&[obligation(ObligationState::Created, i64::MIN, false)], i64::MAX);
    assert!(old[0].contains("age_ms=9223372036854775807 artifact=none"));
}

#[test]
fn a_summary_reports_zero_rather_than_omitting_a_state() {
    let lines =
        obligation_summary_lines(&[obligation(ObligationState::Failed, 1, false)], &attention);
    assert!(lines.contains(&"obligations.open=1".to_owned()));
    assert!(lines.contains(&"obligations.attention=1".to_owned()));
    assert!(lines.contains(&"obligations.state.failed=1".to_owned()));
    assert!(lines.contains(&"obligations.state.running=0".to_owned()));
    assert!(
        !lines.iter().any(|line| line.starts_with("obligations.state.acknowledged")),
        "a closed state is not open work"
    );
}

#[test]
fn a_summary_is_exact_and_in_the_order_of_the_labels() {
    let rows = [
        obligation(ObligationState::Superseded, 1, false),
        obligation(ObligationState::Running, 2, false),
        obligation(ObligationState::Running, 3, false),
    ];
    assert_eq!(obligation_summary_lines(&rows, &attention), vec![
        "obligations.open=3",
        "obligations.attention=0",
        "obligations.state.claimed_by_foreman=0",
        "obligations.state.completed_unprocessed=0",
        "obligations.state.created=0",
        "obligations.state.failed=0",
        "obligations.state.needs_input=0",
        "obligations.state.processing=0",
        "obligations.state.running=2",
        "obligations.state.superseded=1",
    ]);
}

fn scope() -> HealthScope {
    HealthScope { task: None, session: None, turn: None, obligation: None, external_attempt: None }
}

#[test]
fn health_lines_name_the_kind_and_the_scope_and_nothing_else() {
    let obligation_id = Id { value: 42 };
    let lines = health_lines(&[OpenCondition {
        kind: HealthConditionKind::ResultArtifactMissing,
        scope: HealthScope { obligation: Some(obligation_id), ..scope() },
    }]);
    assert!(lines.contains(&"health.open=1".to_owned()));
    assert!(lines.contains(&"health.kind.result_artifact_missing=1".to_owned()));
    assert!(lines.iter().any(|line| {
        line == &format!(
            "health kind=result_artifact_missing scope.obligation={}",
            id_text(obligation_id)
        )
    }));
}

#[test]
fn no_open_conditions_still_reports_the_count() {
    assert_eq!(health_lines(&[]), vec!["health.open=0".to_owned()]);
}

#[test]
fn kinds_are_counted_in_the_order_of_their_labels() {
    let one = |kind| OpenCondition { kind, scope: scope() };
    let lines = health_lines(&[
        one(HealthConditionKind::SuspectedStall),
        one(HealthConditionKind::ForemanUnreachable),
        one(HealthConditionKind::SuspectedStall),
    ]);
    assert_eq!(lines, vec![
        "health.open=3",
        "health.kind.foreman_unreachable=1",
        "health.kind.suspected_stall=2",
        "health kind=suspected_stall scope=global",
        "health kind=foreman_unreachable scope=global",
        "health kind=suspected_stall scope=global",
    ]);
    let full = OpenCondition {
        kind: HealthConditionKind::RuntimeStateConflict,
        scope: HealthScope {
            task: Some(Id { value: 1 }),
            session: None,
            turn: Some(Id { value: 2 }),
            obligation: Some(Id { value: 3 }),
            external_attempt: Some(Id { value: 4 }),
        },
    };
    assert_eq!(
        health_lines(&[full])[2],
        format!(
            "health kind=runtime_state_conflict scope.task={} scope.turn={} scope.obligation={} scope.external_attempt={}",
            id_text(Id { value: 1 }),
            id_text(Id { value: 2 }),
            id_text(Id { value: 3 }),
            id_text(Id { value: 4 })
        )
    );
}

#[test]
fn an_overview_is_the_summary_and_then_the_health() {
    let lines = summarise(&[], &[], &attention);
    assert_eq!(lines[0], "obligations.open=0");
    assert_eq!(lines.last().unwrap(), "health.open=0");
    assert_eq!(lines.len(), 10);
}
