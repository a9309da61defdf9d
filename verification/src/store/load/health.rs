//! Rebuilding the health ledger from the durable event log.
use vstd::prelude::*;
use crate::domain::health::{
    one_open_per_scope, raised, resolved, transitions_keep_one_open, HealthCondition,
    HealthConditionKind, HealthConditionState, HealthLedger, HealthScope,
};
use crate::domain::id::{HealthConditionId, Id};
use crate::store::codec::{optional_id_column, parse_optional_id, text_view};
use crate::store::error::{chain, corrupt, CorruptReason, StoreError};
use crate::store::event::{LedgerEvent, LedgerView};
use crate::store::event_kind::EventKind;
use crate::store::labels::{
    decode_health_kind, decode_health_state, health_kind_named, health_state_named,
};
use crate::store::load::obligation::ledger_view;
use crate::store::safe_metadata::{id_field, text_field};

verus! {

/// One transition a ledger event records against the health ledger.
#[derive(Debug, Clone, Copy, PartialEq, Eq, Structural)]
pub enum HealthTransition {
    /// Open a condition, deduplicated on kind and scope.
    Raise(HealthConditionKind, HealthScope),
    /// Close the open condition for kind and scope, if there is one.
    Resolve(HealthConditionKind, HealthScope),
}

/// The health scope an event's own scope columns describe: exactly those, never more.
pub open spec fn scope_named(event: LedgerView) -> HealthScope {
    HealthScope {
        task: event.scope.task,
        session: event.scope.session,
        turn: event.scope.turn,
        obligation: event.scope.obligation,
        external_attempt: None,
    }
}

/// The kind an event's metadata names.
pub open spec fn kind_in(event: LedgerView) -> Result<HealthConditionKind, StoreError> {
    chain(
        text_field(event.metadata, "health_kind"@),
        |label: Seq<char>|
            match health_kind_named(label) {
                Some(kind) => Ok(kind),
                None => Err(corrupt("events", "kind", CorruptReason::UnknownLabel)),
            },
    )
}

/// The health transition a ledger event recorded, or nothing, which is the rule.
pub open spec fn health_transition(event: LedgerView) -> Result<Option<HealthTransition>, StoreError> {
    match event.kind {
        EventKind::ExternalAttemptQuarantined => chain(
            id_field(event.metadata, "external_attempt"@),
            |id: Id|
                Ok(
                    Some(
                        HealthTransition::Raise(
                            HealthConditionKind::ReconciliationRequired,
                            HealthScope::of_attempt(id),
                        ),
                    ),
                ),
        ),
        EventKind::HealthConditionOpened => chain(
            kind_in(event),
            |kind: HealthConditionKind| Ok(Some(HealthTransition::Raise(kind, scope_named(event)))),
        ),
        EventKind::HealthConditionResolved => chain(
            kind_in(event),
            |kind: HealthConditionKind| Ok(Some(HealthTransition::Resolve(kind, scope_named(event)))),
        ),
        _ => Ok(None),
    }
}

/// Translates one ledger event into the health transition it recorded.
pub fn health_event(event: &LedgerEvent) -> (r: Result<Option<HealthTransition>, StoreError>)
    ensures
        r == health_transition(event@),
{
    let scope = HealthScope {
        task: event.scope.task,
        session: event.scope.session,
        turn: event.scope.turn,
        obligation: event.scope.obligation,
        external_attempt: None,
    };
    match event.kind {
        EventKind::ExternalAttemptQuarantined => {
            let id = event.metadata.id("external_attempt")?;
            Ok(
                Some(
                    HealthTransition::Raise(
                        HealthConditionKind::ReconciliationRequired,
                        HealthScope::external_attempt(id),
                    ),
                ),
            )
        },
        EventKind::HealthConditionOpened => {
            let kind = decode_health_kind(event.metadata.label("health_kind")?, "events")?;
            Ok(Some(HealthTransition::Raise(kind, scope)))
        },
        EventKind::HealthConditionResolved => {
            let kind = decode_health_kind(event.metadata.label("health_kind")?, "events")?;
            Ok(Some(HealthTransition::Resolve(kind, scope)))
        },
        _ => Ok(None),
    }
}

/// The conditions after one transition observed with an event.
pub open spec fn conditions_after(
    conditions: Seq<HealthCondition>,
    transition: Option<HealthTransition>,
    event: LedgerView,
) -> Seq<HealthCondition> {
    match transition {
        Some(HealthTransition::Raise(kind, scope)) => raised(
            conditions,
            Id { value: event.seq as u128 },
            kind,
            scope,
            event.observed_at,
        ),
        Some(HealthTransition::Resolve(kind, scope)) => resolved(
            conditions,
            kind,
            scope,
            event.observed_at,
        ),
        None => conditions,
    }
}

/// The conditions folded from a slice of the ledger, or why it does not fold.
///
/// The identity of a raised condition is derived from the sequence of its event: nothing branches
/// on it, and only the writer ever knew the minted one.
pub open spec fn health_folded(events: Seq<LedgerView>) -> Result<Seq<HealthCondition>, StoreError>
    decreases events.len(),
{
    if events.len() == 0 {
        Ok(seq![])
    } else {
        match health_folded(events.drop_last()) {
            Err(e) => Err(e),
            Ok(conditions) => match health_transition(events.last()) {
                Err(e) => Err(e),
                Ok(transition) => Ok(conditions_after(conditions, transition, events.last())),
            },
        }
    }
}

proof fn health_fault_stays(events: Seq<LedgerView>, n: int)
    requires
        0 <= n <= events.len(),
        health_folded(events.take(n)) is Err,
    ensures
        health_folded(events) == health_folded(events.take(n)),
    decreases events.len() - n,
{
    if n < events.len() {
        assert(events.take(n + 1).drop_last() =~= events.take(n));
        health_fault_stays(events, n + 1);
    } else {
        assert(events.take(n) =~= events);
    }
}

/// Folds the health ledger from a slice of the event log.
pub fn fold_health(events: &[LedgerEvent]) -> (r: Result<HealthLedger, StoreError>)
    ensures
        match r {
            Ok(ledger) => health_folded(ledger_view(events@)) == Ok::<Seq<HealthCondition>, StoreError>(
                ledger.conditions@,
            ),
            Err(e) => health_folded(ledger_view(events@)) == Err::<Seq<HealthCondition>, StoreError>(e),
        },
{
    let ghost all = ledger_view(events@);
    let mut ledger = HealthLedger::new();
    let mut i: usize = 0;
    while i < events.len()
        invariant
            i <= events@.len(),
            all == ledger_view(events@),
            health_folded(all.take(i as int)) == Ok::<Seq<HealthCondition>, StoreError>(ledger.conditions@),
        decreases events@.len() - i,
    {
        let event = &events[i];
        proof {
            assert(all[i as int] == event@);
            assert(all.take(i + 1).drop_last() =~= all.take(i as int));
            assert(all.take(i + 1).last() == event@);
            if health_folded(all.take(i + 1)) is Err {
                health_fault_stays(all, i + 1);
            }
        }
        match health_event(event)? {
            Some(HealthTransition::Raise(kind, scope)) => {
                let id = Id { value: event.seq as u128 };
                let duplicate: bool = ledger.raise(id, kind, scope, event.observed_at);
            },
            Some(HealthTransition::Resolve(kind, scope)) => {
                let duplicate: bool = ledger.resolve(kind, scope, event.observed_at);
            },
            None => {},
        }
        i = i + 1;
    }
    proof {
        assert(all.take(i as int) =~= all);
    }
    Ok(ledger)
}

/// A folded health ledger never has two conditions open for one kind and scope.
pub proof fn folded_health_has_one_open_per_scope(events: Seq<LedgerView>)
    ensures
        health_folded(events) matches Ok(conditions) ==> one_open_per_scope(conditions),
    decreases events.len(),
{
    if events.len() > 0 {
        folded_health_has_one_open_per_scope(events.drop_last());
        match health_folded(events.drop_last()) {
            Ok(conditions) => match health_transition(events.last()) {
                Ok(Some(HealthTransition::Raise(kind, scope))) => {
                    transitions_keep_one_open(
                        conditions,
                        Id { value: events.last().seq as u128 },
                        kind,
                        scope,
                        events.last().observed_at,
                    );
                },
                Ok(Some(HealthTransition::Resolve(kind, scope))) => {
                    transitions_keep_one_open(
                        conditions,
                        Id { value: events.last().seq as u128 },
                        kind,
                        scope,
                        events.last().observed_at,
                    );
                },
                _ => {},
            },
            Err(e) => {},
        }
    }
}

/// One condition currently demanding attention.
#[derive(Debug, Clone, Copy, PartialEq, Eq, Structural)]
pub struct OpenCondition {
    /// What kind of attention.
    pub kind: HealthConditionKind,
    /// What the condition is about.
    pub scope: HealthScope,
}

/// One `health_conditions` row, as read.
#[derive(Debug, PartialEq, Eq)]
pub struct ConditionRow {
    pub kind: String,
    pub state: String,
    pub task_id: Option<String>,
    pub session_id: Option<String>,
    pub turn_id: Option<String>,
    pub obligation_id: Option<String>,
    pub external_attempt_id: Option<String>,
}

/// The scope a condition row records.
pub open spec fn row_scope(row: ConditionRow) -> Result<HealthScope, StoreError> {
    let t = "health_conditions";
    chain(
        optional_id_column(text_view(row.task_id), t, "task_id"),
        |task: Option<Id>|
            chain(
                optional_id_column(text_view(row.session_id), t, "session_id"),
                |session: Option<Id>|
                    chain(
                        optional_id_column(text_view(row.turn_id), t, "turn_id"),
                        |turn: Option<Id>|
                            chain(
                                optional_id_column(text_view(row.obligation_id), t, "obligation_id"),
                                |obligation: Option<Id>|
                                    chain(
                                        optional_id_column(
                                            text_view(row.external_attempt_id),
                                            t,
                                            "external_attempt_id",
                                        ),
                                        |external_attempt: Option<Id>|
                                            Ok(
                                                HealthScope {
                                                    task,
                                                    session,
                                                    turn,
                                                    obligation,
                                                    external_attempt,
                                                },
                                            ),
                                    ),
                            ),
                    ),
            ),
    )
}

/// Reads the scope a condition row records.
pub fn condition_scope(row: &ConditionRow) -> (r: Result<HealthScope, StoreError>)
    ensures
        r == row_scope(*row),
{
    let t = "health_conditions";
    let task = parse_optional_id(&row.task_id, t, "task_id")?;
    let session = parse_optional_id(&row.session_id, t, "session_id")?;
    let turn = parse_optional_id(&row.turn_id, t, "turn_id")?;
    let obligation = parse_optional_id(&row.obligation_id, t, "obligation_id")?;
    let external_attempt = parse_optional_id(&row.external_attempt_id, t, "external_attempt_id")?;
    Ok(HealthScope { task, session, turn, obligation, external_attempt })
}

/// What one row says where open conditions are listed: the condition, or nothing if it is not open.
pub open spec fn open_row(row: ConditionRow) -> Result<Option<OpenCondition>, StoreError> {
    match health_state_named(row.state@) {
        None => Err(corrupt("health_conditions", "state", CorruptReason::UnknownLabel)),
        Some(HealthConditionState::Resolved) => Ok(None),
        Some(HealthConditionState::Open) => match health_kind_named(row.kind@) {
            None => Err(corrupt("health_conditions", "kind", CorruptReason::UnknownLabel)),
            Some(kind) => chain(
                row_scope(row),
                |scope: HealthScope| Ok(Some(OpenCondition { kind, scope })),
            ),
        },
    }
}

/// The open conditions a list of rows records, in order, or the first thing wrong with a row.
pub open spec fn open_listed(rows: Seq<ConditionRow>) -> Result<Seq<OpenCondition>, StoreError>
    decreases rows.len(),
{
    if rows.len() == 0 {
        Ok(seq![])
    } else {
        match open_listed(rows.drop_last()) {
            Err(e) => Err(e),
            Ok(listed) => match open_row(rows.last()) {
                Err(e) => Err(e),
                Ok(Some(condition)) => Ok(listed.push(condition)),
                Ok(None) => Ok(listed),
            },
        }
    }
}

proof fn open_fault_stays(rows: Seq<ConditionRow>, n: int)
    requires
        0 <= n <= rows.len(),
        open_listed(rows.take(n)) is Err,
    ensures
        open_listed(rows) == open_listed(rows.take(n)),
    decreases rows.len() - n,
{
    if n < rows.len() {
        assert(rows.take(n + 1).drop_last() =~= rows.take(n));
        open_fault_stays(rows, n + 1);
    } else {
        assert(rows.take(n) =~= rows);
    }
}

/// Reads every open health condition. A label is decoded, never trusted.
pub fn open_conditions(rows: &Vec<ConditionRow>) -> (r: Result<Vec<OpenCondition>, StoreError>)
    ensures
        match r {
            Ok(listed) => open_listed(rows@) == Ok::<Seq<OpenCondition>, StoreError>(listed@),
            Err(e) => open_listed(rows@) == Err::<Seq<OpenCondition>, StoreError>(e),
        },
{
    let mut out: Vec<OpenCondition> = Vec::new();
    let mut i: usize = 0;
    while i < rows.len()
        invariant
            i <= rows@.len(),
            open_listed(rows@.take(i as int)) == Ok::<Seq<OpenCondition>, StoreError>(out@),
        decreases rows@.len() - i,
    {
        let row = &rows[i];
        proof {
            assert(rows@.take(i + 1).drop_last() =~= rows@.take(i as int));
            assert(rows@.take(i + 1).last() == rows@[i as int]);
            if open_listed(rows@.take(i + 1)) is Err {
                open_fault_stays(rows@, i + 1);
            }
        }
        match decode_health_state(row.state.as_str(), "health_conditions")? {
            HealthConditionState::Open => {
                let kind = decode_health_kind(row.kind.as_str(), "health_conditions")?;
                let scope = condition_scope(row)?;
                out.push(OpenCondition { kind, scope });
            },
            HealthConditionState::Resolved => {},
        }
        i = i + 1;
    }
    proof {
        assert(rows@.take(i as int) =~= rows@);
    }
    Ok(out)
}

/// The identity of the one open condition a lookup found, if it found one.
pub fn open_condition_id(found: &Option<String>) -> (r: Result<Option<HealthConditionId>, StoreError>)
    ensures
        r == optional_id_column(text_view(*found), "health_conditions", "health_condition_id"),
{
    parse_optional_id(found, "health_conditions", "health_condition_id")
}

} // verus!
