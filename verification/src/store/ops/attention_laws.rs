//! What raising attention and recovering at startup promise.
//!
//! Each law speaks of one operation by what its caller handed in and what comes out: what is raised or
//! resolved and about what, the event that is appended, what the rows say, and what a restart makes of
//! work whose fate was lost.
use vstd::prelude::*;
use crate::domain::conflict::Conflict;
use crate::domain::delivery::{Attempt, DeliveryEventView, DeliveryMachine, WakeView};
use crate::domain::effect::{AttemptEventView, AttemptView, EffectAmbiguityReason, EffectMachine};
use crate::domain::fence::{EventSeq, Timestamp};
use crate::domain::health::{
    has_open, HealthCondition, HealthConditionKind, HealthConditionState, HealthScope,
};
use crate::domain::id::{
    canonical_text, canonical_text_injective, canonical_text_round_trips, EventId,
    ExternalAttemptId, HealthConditionId, Id, ObligationId,
};
use crate::domain::obligation::{Applied, ObligationView, OutcomeView, ReceiptsView};
use crate::store::codec::text_view;
use crate::store::error::{corrupt, CorruptReason, StoreError};
use crate::store::event::EventView;
use crate::store::event_kind::EventKind;
use crate::store::grammar::MetaValue;
use crate::store::labels::{
    ambiguity_named, ambiguity_round_trips, attempt_state_named, attempt_state_round_trips,
    effect_ambiguity_named, effect_ambiguity_round_trips, health_kind_named,
    health_kind_round_trips, health_state_named, health_state_round_trips,
};
use crate::store::load::health::{open_row, ConditionRow, OpenCondition};
use crate::store::load::obligation::LoadedView;
use crate::store::ops::decide::{read_view, DecidedView};
use crate::store::ops::delivery_laws::records_delivery;
use crate::store::ops::effect_laws::{says_what_became, terminal_columns_say_what_became};
use crate::store::ops::health::{
    acceptance_resolves, ConditionInsert, HealthConditionRecorded, RaiseCondition,
    RaiseForemanUnreachable, RaiseResultArtifactMissing, RecordTerminalEvidenceConflict,
    ResolveCondition, ResolveResultArtifactMissing, SessionAttention, SessionHealthRequest,
};
use crate::store::ops::pass::{counted, ActionView, LiveWake, PartView};
use crate::store::ops::recovery::{orphaned_row, RecoverStartup};
use crate::store::ops::work_laws::says;
use crate::text::{nat_text, nat_text_denotes};

verus! {

// --- What is raised --------------------------------------------------------------------------------------

/// Whether a condition is about one obligation and nothing else.
pub open spec fn about_obligation(scope: HealthScope, obligation: ObligationId) -> bool {
    &&& scope.obligation == Some(obligation)
    &&& scope.task is None
    &&& scope.session is None
    &&& scope.turn is None
    &&& scope.external_attempt is None
}

/// Whether a condition is about one session and nothing else.
pub open spec fn about_session(scope: HealthScope, session: Id) -> bool {
    &&& scope.session == Some(session)
    &&& scope.task is None
    &&& scope.turn is None
    &&& scope.obligation is None
    &&& scope.external_attempt is None
}

/// An unreachable foreman is raised about the obligation that was named, exactly where that is still
/// open, and an acceptance resolves that very attention.
pub proof fn an_unreachable_foreman_is_about_open_work(
    op: RaiseForemanUnreachable,
    obligation: ObligationView,
    event: EventId,
    now: Timestamp,
)
    ensures
        op.raises(obligation) is Ok <==> !obligation.state.closed(),
        obligation.state.closed() ==> op.raises(obligation) == Err::<RaiseCondition, StoreError>(
            StoreError::Conflict(Conflict::ObligationClosed { state: obligation.state }),
        ),
        op.raises(obligation) matches Ok(raised) ==> {
            &&& raised.condition == op.condition
            &&& raised.kind is ForemanUnreachable
            &&& about_obligation(raised.scope, op.request.obligation)
            &&& raised.event == op.event
            &&& raised.now == op.now
            &&& ({
                let resolved = acceptance_resolves(op.request.obligation, event, now);
                &&& resolved.kind == raised.kind
                &&& resolved.scope == raised.scope
                &&& resolved.event == event
                &&& resolved.now == now
            })
        },
{
}

/// A missing artifact is raised about the obligation that requires it, exactly where that is open and
/// requires that very artifact; and it is resolved, open or not, only by that very artifact.
pub proof fn a_missing_artifact_is_about_what_requires_it(
    raise: RaiseResultArtifactMissing,
    resolve: ResolveResultArtifactMissing,
    obligation: ObligationView,
)
    ensures
        raise.raises(obligation) is Ok <==> (!obligation.state.closed() && obligation.result_artifact
            == Some(raise.request.artifact)),
        resolve.resolves(obligation) is Ok <==> obligation.result_artifact == Some(
            resolve.request.artifact,
        ),
        raise.raises(obligation) matches Ok(raised) ==> {
            &&& raised.condition == raise.condition
            &&& raised.kind is ResultArtifactMissing
            &&& about_obligation(raised.scope, raise.request.obligation)
            &&& raised.event == raise.event
            &&& raised.now == raise.now
        },
        resolve.resolves(obligation) matches Ok(resolved) ==> {
            &&& resolved.kind is ResultArtifactMissing
            &&& about_obligation(resolved.scope, resolve.request.obligation)
            &&& resolved.event == resolve.event
            &&& resolved.now == resolve.now
        },
{
}

/// Contradicting evidence is raised about the obligation's turn, under the kind the classifier gives,
/// exactly where a result was published and the classifier asks for reconciliation.
pub proof fn contradicting_evidence_is_about_the_turn(
    op: RecordTerminalEvidenceConflict,
    loaded: LoadedView,
    model: spec_fn(ReceiptsView) -> OutcomeView,
)
    ensures
        op.contradiction(loaded, model) is Ok <==> (loaded.projection.result_artifact is Some
            && loaded.identity.turn is Some && model(op.request.receipts@) is NeedsReconciliation),
        op.contradiction(loaded, model) matches Ok(raised) ==> {
            &&& model(op.request.receipts@) matches OutcomeView::NeedsReconciliation { kind }
            &&& raised.kind == kind
            &&& raised.condition == op.condition
            &&& raised.scope.turn == loaded.identity.turn
            &&& raised.scope.obligation is None
            &&& raised.scope.task is None
            &&& raised.scope.session is None
            &&& raised.scope.external_attempt is None
            &&& raised.event == op.event
            &&& raised.now == op.now
        },
{
}

/// A session's attention is raised and resolved about that session, under one kind for each attention,
/// and only where the session is known.
pub proof fn attention_is_about_its_session(
    op: SessionHealthRequest,
    attention: SessionAttention,
    other: SessionAttention,
    found: bool,
    condition: HealthConditionId,
    event: EventId,
    now: Timestamp,
)
    ensures
        op.raises(attention, found, condition, event, now) is Ok <==> found,
        op.resolves(attention, found, event, now) is Ok <==> found,
        op.raises(attention, found, condition, event, now) matches Ok(raised) ==> {
            &&& raised.condition == condition
            &&& about_session(raised.scope, op.session)
            &&& raised.event == event
            &&& raised.now == now
            &&& op.resolves(attention, found, event, now) matches Ok(resolved) && resolved.kind
                == raised.kind && resolved.scope == raised.scope && resolved.event == event
                && resolved.now == now
            &&& raised.kind is LoadoutUnverifiable <==> attention is LoadoutUnverifiable
            &&& raised.kind is ManagedConfigMissing <==> attention is ManagedConfigMissing
            &&& raised.kind is LineageBroken <==> attention is LineageBroken
        },
        attention.opens() == other.opens() ==> attention == other,
{
}

// --- Recording it ----------------------------------------------------------------------------------------

/// Whether an event records a condition: about what it is about, under its kind.
pub open spec fn records_condition(
    event: EventView,
    id: EventId,
    at: Timestamp,
    kind: HealthConditionKind,
    scope: HealthScope,
) -> bool {
    &&& event.event_id == id
    &&& event.observed_at == at
    &&& event.occurred_at is None
    &&& event.scope.task == scope.task
    &&& event.scope.session == scope.session
    &&& event.scope.turn == scope.turn
    &&& event.scope.obligation == scope.obligation
    &&& event.scope.project is None
    &&& event.scope.incarnation is None
    &&& exists|label: Seq<char>| #[trigger]
        says(event, "health_kind"@, MetaValue::Text(label)) && health_kind_named(label) == Some(kind)
}

/// A condition that stands open in the rows is not raised again, and one that stands open nowhere is not
/// resolved: both are answered as repeats, with nothing appended. Otherwise the event opens or
/// resolves the condition about what was asked, and where rows and ledger disagree nothing is appended.
pub proof fn a_condition_is_raised_once_and_resolved_once(
    raise: RaiseCondition,
    resolve: ResolveCondition,
    open: Id,
    conditions: Seq<HealthCondition>,
    safe: spec_fn(Seq<char>) -> bool,
)
    ensures
        raise.decided(Ok(Some(canonical_text(open.value))), Ok(conditions), safe) matches Ok(
            DecidedView::Settled(answer),
        ) && answer.duplicate && answer.kind == raise.kind && answer.scope == raise.scope,
        raise.decided(Ok(None), Ok(conditions), safe) matches Ok(decided) ==> {
            &&& decided matches DecidedView::Appends { event, plan }
            &&& plan == raise.condition
            &&& event.kind is HealthConditionOpened
            &&& records_condition(event, raise.event, raise.now, raise.kind, raise.scope)
            &&& !has_open(conditions, raise.kind, raise.scope)
        },
        has_open(conditions, raise.kind, raise.scope) ==> raise.decided(Ok(None), Ok(conditions), safe)
            is Err,
        resolve.decided(Ok(None), Ok(conditions), safe) matches Ok(DecidedView::Settled(answer))
            && answer.duplicate && answer.kind == resolve.kind && answer.scope == resolve.scope,
        resolve.decided(Ok(Some(canonical_text(open.value))), Ok(conditions), safe) matches Ok(decided)
            ==> {
            &&& decided matches DecidedView::Appends { event, plan }
            &&& plan == open
            &&& event.kind is HealthConditionResolved
            &&& records_condition(event, resolve.event, resolve.now, resolve.kind, resolve.scope)
            &&& has_open(conditions, resolve.kind, resolve.scope)
        },
        !has_open(conditions, resolve.kind, resolve.scope) ==> resolve.decided(
            Ok(Some(canonical_text(open.value))),
            Ok(conditions),
            safe,
        ) is Err,
{
    canonical_text_round_trips(open);
    health_kind_round_trips(raise.kind);
    health_kind_round_trips(resolve.kind);
    if let Ok(DecidedView::Appends { event, plan }) = raise.decided(Ok(None), Ok(conditions), safe) {
        assert(event.metadata[0].0 == "health_kind"@);
        let label = crate::store::labels::health_kind_label(raise.kind)@;
        assert(says(event, "health_kind"@, MetaValue::Text(label)));
    }
    if let Ok(DecidedView::Appends { event, plan }) = resolve.decided(
        Ok(Some(canonical_text(open.value))),
        Ok(conditions),
        safe,
    ) {
        assert(event.metadata[0].0 == "health_kind"@);
        let label = crate::store::labels::health_kind_label(resolve.kind)@;
        assert(says(event, "health_kind"@, MetaValue::Text(label)));
    }
}

/// Opening and resolving are two facts, and two conditions' facts are never one.
pub proof fn conditions_are_told_apart(
    raise: RaiseCondition,
    again: RaiseCondition,
    resolve: ResolveCondition,
    condition: HealthConditionId,
    another: HealthConditionId,
    conditions: Seq<HealthCondition>,
    safe: spec_fn(Seq<char>) -> bool,
)
    ensures
        raise.opening_event(conditions, safe) matches Ok(a) ==> (again.opening_event(conditions, safe) matches Ok(
            b,
        ) ==> (a.source == b.source <==> raise.condition == again.condition)),
        resolve.resolving_event(condition, conditions, safe) matches Ok(a) ==> (resolve.resolving_event(
            another,
            conditions,
            safe,
        ) matches Ok(b) ==> (a.source == b.source <==> condition == another)),
        raise.opening_event(conditions, safe) matches Ok(a) ==> (resolve.resolving_event(
            condition,
            conditions,
            safe,
        ) matches Ok(b) ==> a.source != b.source),
{
    if canonical_text(raise.condition.value) == canonical_text(again.condition.value) {
        canonical_text_injective(raise.condition.value, again.condition.value);
    }
    if canonical_text(condition.value) == canonical_text(another.value) {
        canonical_text_injective(condition.value, another.value);
    }
    reveal_strlit("health_condition_opened");
    reveal_strlit("health_condition_resolved");
    assert("health_condition_opened"@.len() == 23);
    assert("health_condition_resolved"@.len() == 25);
}

/// Whether a read row holds a condition that was inserted.
pub open spec fn condition_stored_as(row: ConditionRow, written: ConditionInsert) -> bool {
    &&& row.kind@ == written.kind@
    &&& row.state@ == written.state@
    &&& text_view(row.task_id) == id_text(written.task_id)
    &&& text_view(row.session_id) == id_text(written.session_id)
    &&& text_view(row.turn_id) == id_text(written.turn_id)
    &&& text_view(row.obligation_id) == id_text(written.obligation_id)
    &&& text_view(row.external_attempt_id) == id_text(written.external_attempt_id)
}

/// The text of an identity, where there is one.
pub open spec fn id_text(id: Option<Id>) -> Option<Seq<char>> {
    match id {
        Some(id) => Some(canonical_text(id.value)),
        None => None,
    }
}

proof fn an_optional_id_reads_back(id: Option<Id>)
    ensures
        id matches Some(it) ==> crate::domain::id::id_named(canonical_text(it.value)) == Some(it),
{
    if let Some(it) = id {
        canonical_text_round_trips(it);
    }
}

/// A raised condition reads back as open, of its kind and about what it was raised about; once its row
/// is overwritten with a resolution it is open no more.
pub proof fn a_raised_condition_reads_back(
    raise: RaiseCondition,
    resolve: ResolveCondition,
    seq: EventSeq,
    later: EventSeq,
    row: ConditionRow,
    closed: ConditionRow,
)
    requires
        raise.committed(seq) matches Ok((written, _)) && condition_stored_as(row, written),
        resolve.committed(raise.condition, later) matches Ok((update, _)) && closed.state@ == update.state@,
    ensures
        open_row(row) == Ok::<Option<OpenCondition>, StoreError>(
            Some(OpenCondition { kind: raise.kind, scope: raise.scope }),
        ),
        open_row(closed) == Ok::<Option<OpenCondition>, StoreError>(None),
        raise.committed(seq)->Ok_0.0.health_condition_id == raise.condition,
        raise.committed(seq)->Ok_0.0.opened_event_seq == seq,
        resolve.committed(raise.condition, later)->Ok_0.0.health_condition_id == raise.condition,
        resolve.committed(raise.condition, later)->Ok_0.0.resolved_event_seq == later,
        raise.committed(seq)->Ok_0.1 == (HealthConditionRecorded {
            kind: raise.kind,
            scope: raise.scope,
            duplicate: false,
        }),
        resolve.committed(raise.condition, later)->Ok_0.1 == (HealthConditionRecorded {
            kind: resolve.kind,
            scope: resolve.scope,
            duplicate: false,
        }),
{
    health_state_round_trips(HealthConditionState::Open);
    health_state_round_trips(HealthConditionState::Resolved);
    health_kind_round_trips(raise.kind);
    an_optional_id_reads_back(raise.scope.task);
    an_optional_id_reads_back(raise.scope.session);
    an_optional_id_reads_back(raise.scope.turn);
    an_optional_id_reads_back(raise.scope.obligation);
    an_optional_id_reads_back(raise.scope.external_attempt);
}

// --- Recovering ------------------------------------------------------------------------------------------

/// An identity is spent once: each prepared one is handed out in turn, and none is when they run out.
pub proof fn an_identity_is_spent_once(op: RecoverStartup, spent: usize)
    requires
        op.identities@.len() <= usize::MAX,
    ensures
        op.next_identity(spent) is Ok <==> spent < op.identities@.len(),
        op.next_identity(spent) matches Ok((minted, next)) ==> {
            &&& minted == op.identities@[spent as int]
            &&& next == spent + 1
        },
        op.next_identity(spent) matches Err(e) ==> e is QuarantineIncomplete,
{
}

/// A live wake is quarantined as the machine says when it hears at that instant that it was orphaned; a
/// wake that is quarantined already needs nothing, a refusal or an unread row is its own failure, and the
/// event is about the wake's obligation and revision.
pub proof fn a_live_wake_is_quarantined(
    op: RecoverStartup,
    spent: usize,
    live: LiveWake,
    wake: WakeView,
    known: spec_fn(Seq<char>) -> bool,
    machine: DeliveryMachine,
    safe: spec_fn(Seq<char>) -> bool,
)
    requires
        spent < op.identities@.len() <= usize::MAX,
        known(live.hex@),
        read_view(live.wake) == Ok::<WakeView, StoreError>(wake),
    ensures
        match machine(wake.delivery, DeliveryEventView::OrphanQuarantined { at: op.now }) {
            Err(conflict) => op.wake_decided(spent, live, known, machine, safe) == Err::<
                PartView,
                StoreError,
            >(StoreError::Conflict(conflict)),
            Ok(Applied::Duplicate) => op.wake_decided(spent, live, known, machine, safe) matches Ok(
                (actions, _),
            ) && actions.len() == 0,
            Ok(Applied::Advanced(next)) => op.wake_decided(spent, live, known, machine, safe) matches Ok(
                (actions, after),
            ) ==> {
                &&& after == spent + 1
                &&& actions.len() == 1
                &&& actions[0] matches ActionView::Quarantine { hex, next: left, event }
                &&& hex == live.hex@
                &&& left == next
                &&& read_view(live.loaded) matches Ok(work)
                &&& records_delivery(
                    event,
                    op.identities@[spent as int].0,
                    EventKind::BrowserDeliveryOrphanQuarantined,
                    op.now,
                    work.identity.task,
                    work.projection.id,
                )
                &&& says(event, "revision"@, MetaValue::Int(wake.revision as int))
            },
        },
{
    if let Ok((actions, _)) = op.wake_decided(spent, live, known, machine, safe) {
        if actions.len() == 1 {
            if let ActionView::Quarantine { hex, next, event } = actions[0] {
                assert(event.metadata[0].0 == "revision"@);
            }
        }
    }
}

/// A live wake that cannot be told is not quarantined: one whose identity is malformed, one that does not
/// load, and one whose obligation does not load stop the pass, each with its own failure.
pub proof fn a_wake_that_cannot_be_told_stops_the_pass(
    op: RecoverStartup,
    spent: usize,
    live: LiveWake,
    known: spec_fn(Seq<char>) -> bool,
    machine: DeliveryMachine,
    safe: spec_fn(Seq<char>) -> bool,
    e: StoreError,
)
    requires
        spent < op.identities@.len() <= usize::MAX,
    ensures
        !known(live.hex@) ==> op.wake_decided(spent, live, known, machine, safe) == Err::<
            PartView,
            StoreError,
        >(corrupt("delivery_attempts", "delivery_id", CorruptReason::MalformedIdentity)),
        known(live.hex@) && read_view(live.wake) == Err::<WakeView, StoreError>(e) ==> op.wake_decided(
            spent,
            live,
            known,
            machine,
            safe,
        ) == Err::<PartView, StoreError>(e),
        known(live.hex@) && live.wake is Ok && (machine(
            read_view(live.wake)->Ok_0.delivery,
            DeliveryEventView::OrphanQuarantined { at: op.now },
        ) matches Ok(Applied::Advanced(_))) && read_view(live.loaded) == Err::<LoadedView, StoreError>(e)
            ==> op.wake_decided(spent, live, known, machine, safe) == Err::<PartView, StoreError>(e),
{
}

/// A quarantined attempt's row says what the machine left of it: its number, its state and why it is
/// ambiguous, at the event and the instant of the pass.
pub proof fn an_orphaned_attempt_is_written_as_left(attempt: Attempt, at: i64, now: Timestamp)
    ensures
        ({
            let row = orphaned_row(attempt, at, now);
            &&& row.attempt_no == attempt.number
            &&& attempt_state_named(row.state@) == Some(attempt.state)
            &&& row.terminal_event_seq == at
            &&& row.finished_at_ms == now
            &&& match attempt.ambiguity {
                Some(reason) => row.evidence_class is Some && ambiguity_named(row.evidence_class->0@)
                    == Some(reason),
                None => row.evidence_class is None,
            }
        }),
{
    attempt_state_round_trips(attempt.state);
    if let Some(reason) = attempt.ambiguity {
        ambiguity_round_trips(reason);
    }
}

/// An unresolved attempt is closed as the machine says when it hears at that instant that a restart lost
/// its fate; the terminal columns say what the machine left, the attention is minted for it, and the
/// event names the attempt and that reason.
pub proof fn an_unresolved_attempt_is_closed_as_lost(
    op: RecoverStartup,
    spent: usize,
    orphan: AttemptView,
    machine: EffectMachine,
    safe: spec_fn(Seq<char>) -> bool,
    left: AttemptView,
)
    requires
        spent < op.identities@.len() <= usize::MAX,
        match machine(
            orphan,
            AttemptEventView::OutcomeUnknown {
                reason: EffectAmbiguityReason::OrphanedByRestart,
                at: op.now,
            },
        ) {
            Ok(Applied::Advanced(next)) => left == next,
            Ok(Applied::Duplicate) => left == orphan,
            Err(_) => false,
        },
    ensures
        op.attempt_decided(spent, orphan, machine, safe) matches Ok((actions, after)) ==> {
            &&& after == spent + 1
            &&& actions.len() == 1
            &&& actions[0] matches ActionView::Orphan { attempt, terminal, condition, event }
            &&& attempt == orphan.id
            &&& says_what_became(terminal, orphan.id, left)
            &&& condition == op.identities@[spent as int].1
            &&& event.event_id == op.identities@[spent as int].0
            &&& event.kind is ExternalAttemptQuarantined
            &&& event.observed_at == op.now
            &&& event.scope.obligation is None && event.scope.task is None && event.scope.turn is None
            &&& says(event, "external_attempt"@, MetaValue::Text(canonical_text(orphan.id.value)))
            &&& exists|label: Seq<char>| #[trigger]
                says(event, "ambiguity_reason"@, MetaValue::Text(label)) && effect_ambiguity_named(label)
                    == Some(EffectAmbiguityReason::OrphanedByRestart)
        },
{
    terminal_columns_say_what_became(orphan.id, left);
    effect_ambiguity_round_trips(EffectAmbiguityReason::OrphanedByRestart);
    if let Ok((actions, _)) = op.attempt_decided(spent, orphan, machine, safe) {
        if let ActionView::Orphan { attempt, terminal, condition, event } = actions[0] {
            assert(event.metadata[0].0 == "external_attempt"@);
            assert(event.metadata[1].0 == "ambiguity_reason"@);
            let label = crate::store::labels::effect_ambiguity_label(
                EffectAmbiguityReason::OrphanedByRestart,
            )@;
            assert(says(event, "ambiguity_reason"@, MetaValue::Text(label)));
        }
    }
}

/// A refusal to close an attempt is the machine's own, and nothing is laid out.
pub proof fn a_refused_closing_is_the_machines(
    op: RecoverStartup,
    spent: usize,
    orphan: AttemptView,
    machine: EffectMachine,
    safe: spec_fn(Seq<char>) -> bool,
    conflict: Conflict,
)
    requires
        spent < op.identities@.len() <= usize::MAX,
        machine(
            orphan,
            AttemptEventView::OutcomeUnknown {
                reason: EffectAmbiguityReason::OrphanedByRestart,
                at: op.now,
            },
        ) == Err::<Applied<AttemptView>, Conflict>(conflict),
    ensures
        op.attempt_decided(spent, orphan, machine, safe) == Err::<PartView, StoreError>(
            StoreError::Conflict(conflict),
        ),
{
}

/// The attention of a closed attempt is open, asks for reconciliation, and is about that attempt.
pub proof fn a_closed_attempt_asks_for_reconciliation(
    condition: HealthConditionId,
    orphan: ExternalAttemptId,
    seq: EventSeq,
)
    ensures
        RecoverStartup::reconciliation(condition, orphan, seq) is Ok <==> seq <= i64::MAX,
        RecoverStartup::reconciliation(condition, orphan, seq) matches Ok(row) ==> {
            &&& row.health_condition_id == condition
            &&& health_kind_named(row.kind@) == Some(HealthConditionKind::ReconciliationRequired)
            &&& health_state_named(row.state@) == Some(HealthConditionState::Open)
            &&& row.external_attempt_id == orphan
            &&& row.opened_event_seq == seq
        },
{
    health_kind_round_trips(HealthConditionKind::ReconciliationRequired);
    health_state_round_trips(HealthConditionState::Open);
}

/// A pass that runs again under another epoch appends facts of its own, and two wakes or two attempts of
/// one pass are two facts.
pub proof fn recovered_facts_are_told_apart(
    op: RecoverStartup,
    other: RecoverStartup,
    event: EventId,
    orphan: ExternalAttemptId,
    another: ExternalAttemptId,
    safe: spec_fn(Seq<char>) -> bool,
)
    ensures
        op.quarantine_event(event, orphan, safe) matches Ok(a) ==> (other.quarantine_event(
            event,
            another,
            safe,
        ) matches Ok(b) ==> (a.source == b.source <==> (orphan == another && op.request.daemon_epoch
            == other.request.daemon_epoch))),
{
    if canonical_text(orphan.value) == canonical_text(another.value) {
        canonical_text_injective(orphan.value, another.value);
    }
    let label = "external_attempt"@;
    let m = op.request.daemon_epoch as nat;
    let n = other.request.daemon_epoch as nat;
    if label + "."@ + nat_text(m) == label + "."@ + nat_text(n) {
        let left = label + "."@ + nat_text(m);
        let right = label + "."@ + nat_text(n);
        assert(left.skip((label + "."@).len() as int) =~= nat_text(m));
        assert(right.skip((label + "."@).len() as int) =~= nat_text(n));
        nat_text_denotes(m);
        nat_text_denotes(n);
    }
}

/// What is counted of a list is how many of its actions are of the kind: one more for each that is, and
/// none for any that is not.
pub proof fn a_count_counts_each_once(actions: Seq<ActionView>, action: ActionView, kind: spec_fn(ActionView) -> bool)
    ensures
        counted(Seq::empty(), kind) == 0,
        counted(actions.push(action), kind) == counted(actions, kind) + if kind(action) {
            1nat
        } else {
            0nat
        },
        counted(actions, kind) <= actions.len(),
    decreases actions.len(),
{
    assert(actions.push(action).drop_last() =~= actions);
    if actions.len() > 0 {
        a_count_counts_each_once(actions.drop_last(), actions.last(), kind);
    }
}

} // verus!
