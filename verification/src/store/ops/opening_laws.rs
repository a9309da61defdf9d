//! What opening a worker's turn and binding a foreman promise.
use vstd::prelude::*;
use crate::domain::binding::{BindingEventView, BindingView, TargetView};
use crate::domain::conflict::Conflict;
use crate::domain::fence::{BindingGeneration, EventSeq};
use crate::domain::id::{canonical_text, canonical_text_injective, Id};
use crate::domain::obligation::{Applied, ObligationKind, ObligationState};
use crate::store::error::StoreError;
use crate::store::event_kind::kind_round_trips;
use crate::store::grammar::MetaValue;
use crate::store::labels::{
    actor_class_label, obligation_kind_named, obligation_kind_round_trips, obligation_state_named,
    obligation_state_round_trips, turn_lifecycle_named, turn_lifecycle_round_trips,
    write_capability_named, write_capability_round_trips, ActorClass, TurnLifecycle,
};
use crate::store::ops::bootstrap::{
    opening_order, BindForeman, BindingMachine, OpenWorkerTurn, OpeningStep, PerStep,
};
use crate::store::ops::work_laws::says;

verus! {

/// Which identity a step registers.
pub open spec fn registers(op: OpenWorkerTurn, step: OpeningStep) -> Id {
    match step {
        OpeningStep::Project => op.ids.project,
        OpeningStep::Task => op.ids.task,
        OpeningStep::Session => op.ids.session,
        OpeningStep::Incarnation => op.ids.incarnation,
        OpeningStep::Turn => op.ids.turn,
        OpeningStep::Obligation => op.ids.obligation,
    }
}

/// What each step of opening a turn is recorded as: under its own kind and its own event identity, about
/// what it registers and what that belongs to.
pub proof fn an_opening_is_recorded_step_by_step(op: OpenWorkerTurn, safe: spec_fn(Seq<char>) -> bool)
    ensures
        op.step_event(OpeningStep::Project, safe) matches Ok(event) ==> event.kind is ProjectRegistered
            && event.event_id == op.events.project && event.scope.project == Some(op.ids.project)
            && event.scope.task is None && event.scope.session is None && event.scope.incarnation is None
            && event.scope.turn is None && event.scope.obligation is None,
        op.step_event(OpeningStep::Task, safe) matches Ok(event) ==> event.kind is TaskRegistered
            && event.event_id == op.events.task && event.scope.project == Some(op.ids.project)
            && event.scope.task == Some(op.ids.task) && event.scope.session is None
            && event.scope.incarnation is None && event.scope.turn is None
            && event.scope.obligation is None,
        op.step_event(OpeningStep::Session, safe) matches Ok(event) ==> event.kind is SessionRegistered
            && event.event_id == op.events.session && event.scope.project == Some(op.ids.project)
            && event.scope.session == Some(op.ids.session) && event.scope.task is None
            && event.scope.incarnation is None && event.scope.turn is None
            && event.scope.obligation is None,
        op.step_event(OpeningStep::Incarnation, safe) matches Ok(event)
            ==> event.kind is SessionIncarnationStarted && event.event_id == op.events.incarnation
            && event.scope.project == Some(op.ids.project) && event.scope.session == Some(op.ids.session)
            && event.scope.incarnation == Some(op.ids.incarnation) && event.scope.task is None
            && event.scope.turn is None && event.scope.obligation is None && says(
            event,
            "generation"@,
            MetaValue::Int(1),
        ),
        op.step_event(OpeningStep::Turn, safe) matches Ok(event) ==> event.kind is TurnStarted
            && event.event_id == op.events.turn && event.scope.project == Some(op.ids.project)
            && event.scope.task == Some(op.ids.task) && event.scope.session == Some(op.ids.session)
            && event.scope.incarnation == Some(op.ids.incarnation) && event.scope.turn == Some(
            op.ids.turn,
        ) && event.scope.obligation is None && says(event, "turn_generation"@, MetaValue::Int(1)),
        op.step_event(OpeningStep::Obligation, safe) matches Ok(event) ==> event.kind is ObligationCreated
            && event.event_id == op.events.obligation && event.scope.project == Some(op.ids.project)
            && event.scope.task == Some(op.ids.task) && event.scope.turn == Some(op.ids.turn)
            && event.scope.obligation == Some(op.ids.obligation) && event.scope.session is None
            && event.scope.incarnation is None && says(event, "incarnation"@, MetaValue::Int(1)),
        forall|step: OpeningStep|
            (#[trigger] op.step_event(step, safe)) matches Ok(event) ==> event.observed_at == op.now
                && event.occurred_at is None,
{
    if let Ok(event) = op.step_event(OpeningStep::Incarnation, safe) {
        assert(event.metadata[0].0 == "generation"@);
    }
    if let Ok(event) = op.step_event(OpeningStep::Turn, safe) {
        assert(event.metadata[0].0 == "turn_generation"@);
    }
    if let Ok(event) = op.step_event(OpeningStep::Obligation, safe) {
        assert(event.metadata[1].0 == "incarnation"@);
    }
}

/// The steps of one opening are distinct facts, and the same step of two openings is one fact only where
/// both register the same identity.
pub proof fn opening_steps_are_distinct_facts(
    one: OpenWorkerTurn,
    other: OpenWorkerTurn,
    step: OpeningStep,
    another: OpeningStep,
    safe: spec_fn(Seq<char>) -> bool,
)
    ensures
        one.step_event(step, safe) matches Ok(a) ==> (other.step_event(another, safe) matches Ok(b) ==> (
        a.source == b.source <==> (step == another && registers(one, step) == registers(other, step)))),
{
    let (kind, subject, _, _) = one.step(step);
    let (second, object, _, _) = other.step(another);
    kind_round_trips(kind);
    kind_round_trips(second);
    if canonical_text(subject.value) == canonical_text(object.value) {
        canonical_text_injective(subject.value, object.value);
    }
}

/// Where a step stands in the opening.
pub open spec fn place(step: OpeningStep) -> int {
    match step {
        OpeningStep::Project => 0,
        OpeningStep::Task => 1,
        OpeningStep::Session => 2,
        OpeningStep::Incarnation => 3,
        OpeningStep::Turn => 4,
        OpeningStep::Obligation => 5,
    }
}

/// An opening registers before it refers: each step stands once in the order, and nothing that a step is
/// about is registered later than the step itself.
pub proof fn an_opening_registers_before_it_refers(
    op: OpenWorkerTurn,
    k: int,
    safe: spec_fn(Seq<char>) -> bool,
)
    requires
        0 <= k < opening_order().len(),
    ensures
        opening_order().len() == 6,
        place(opening_order()[k]) == k,
        op.step_event(opening_order()[k], safe) matches Ok(event) ==> {
            &&& event.scope.project is Some
            &&& event.scope.task is Some ==> k >= 1
            &&& event.scope.session is Some ==> k >= 2
            &&& event.scope.incarnation is Some ==> k >= 3
            &&& event.scope.turn is Some ==> k >= 4
            &&& event.scope.obligation is Some ==> k >= 5
        },
{
    assert(k == 0 || k == 1 || k == 2 || k == 3 || k == 4 || k == 5);
}

/// The rows of an opening are linked as they were asked for: the task and the session are the project's,
/// the incarnation is the session's, the turn is the task's and the incarnation's, the obligation is the
/// task's and the turn's; each row stands at its own event and holds the request's own values.
pub proof fn an_opened_turn_is_linked(op: OpenWorkerTurn, at: PerStep<i64>)
    ensures
        ({
            let rows = op.rows_at(at);
            &&& rows.project.project_id == op.ids.project
            &&& rows.project.source_host == op.request.project.source_host
            &&& rows.project.source_repo_id == op.request.project.source_repo_id
            &&& rows.project.source_repo_display == op.request.project.source_repo_display
            &&& rows.project.created_event_seq == at.project
            &&& rows.task.task_id == op.ids.task
            &&& rows.task.project_id == rows.project.project_id
            &&& rows.task.source_issue_ref == op.request.source_issue_ref
            &&& rows.task.created_event_seq == at.task
            &&& rows.task.latest_event_seq == at.task
            &&& rows.session.session_id == op.ids.session
            &&& rows.session.project_id == rows.project.project_id
            &&& rows.session.runtime_kind == op.request.session.runtime_kind
            &&& rows.session.worker_kind == op.request.session.worker_kind
            &&& rows.session.display_name == op.request.session.display_name
            &&& rows.session.created_event_seq == at.session
            &&& rows.incarnation.session_incarnation_id == op.ids.incarnation
            &&& rows.incarnation.session_id == rows.session.session_id
            &&& rows.incarnation.generation == 1
            &&& rows.incarnation.runtime_instance_ref == op.request.session.runtime_instance_ref
            &&& rows.incarnation.worker_session_ref == op.request.session.worker_session_ref
            &&& rows.incarnation.started_event_seq == at.incarnation
        }),
{
}

/// The turn of an opening runs, the first of its task and incarnation, and its obligation is a worker's
/// turn, just created, at version one and without anything it could be claimed or closed by.
pub proof fn an_opened_turn_runs(op: OpenWorkerTurn, at: PerStep<i64>)
    ensures
        ({
            let rows = op.rows_at(at);
            &&& rows.turn.turn_id == op.ids.turn
            &&& rows.turn.task_id == rows.task.task_id
            &&& rows.turn.session_incarnation_id == rows.incarnation.session_incarnation_id
            &&& rows.turn.worker_turn_ref == op.request.worker_turn_ref
            &&& rows.turn.turn_generation == 1
            &&& turn_lifecycle_named(rows.turn.lifecycle_state@) == Some(TurnLifecycle::Running)
            &&& rows.turn.started_event_seq == at.turn
            &&& rows.turn.latest_event_seq == at.turn
            &&& rows.obligation.obligation_id == op.ids.obligation
            &&& rows.obligation.task_id == rows.task.task_id
            &&& rows.obligation.turn_id == rows.turn.turn_id
            &&& obligation_kind_named(rows.obligation.obligation_kind@) == Some(ObligationKind::WorkerTurn)
            &&& obligation_state_named(rows.obligation.state@) == Some(ObligationState::Created)
            &&& rows.obligation.priority == op.request.priority
            &&& rows.obligation.created_event_seq == at.obligation
            &&& rows.obligation.source_event_seq == at.obligation
            &&& rows.obligation.latest_event_seq == at.obligation
            &&& rows.obligation.current_version == 1
            &&& rows.obligation.incarnation_generation == rows.incarnation.generation
            &&& rows.obligation_event.obligation_id == op.ids.obligation
            &&& rows.obligation_event.obligation_version == 1
            &&& rows.obligation_event.event_seq == at.obligation
            &&& rows.obligation_event.from_state is None
            &&& obligation_state_named(rows.obligation_event.to_state@) == Some(ObligationState::Created)
            &&& rows.obligation_event.disposition is None
            &&& rows.obligation_event.actor_class == actor_class_label(ActorClass::Daemon)
            &&& rows.obligation_event.binding_generation is None
            &&& rows.obligation_event.claim_id is None
        }),
{
    turn_lifecycle_round_trips(TurnLifecycle::Running);
    obligation_kind_round_trips(ObligationKind::WorkerTurn);
    obligation_state_round_trips(ObligationState::Created);
}

/// The events of an opening are stored at their own positions, and refused only where one does not fit.
pub proof fn opening_positions_are_stored(seqs: PerStep<EventSeq>)
    ensures
        OpenWorkerTurn::stored_steps(seqs) is Ok <==> seqs.project <= i64::MAX && seqs.task <= i64::MAX
            && seqs.session <= i64::MAX && seqs.incarnation <= i64::MAX && seqs.turn <= i64::MAX
            && seqs.obligation <= i64::MAX,
        OpenWorkerTurn::stored_steps(seqs) matches Ok(at) ==> at.project == seqs.project && at.task
            == seqs.task && at.session == seqs.session && at.incarnation == seqs.incarnation && at.turn
            == seqs.turn && at.obligation == seqs.obligation,
{
}

// --- The foreman -----------------------------------------------------------------------------------------

/// A foreman is bound as the ledger says when it hears of that very target at that instant: its refusal
/// comes out under its own conflict, and otherwise the generation it issued.
pub proof fn a_foreman_is_the_ledgers_to_bind(
    op: BindForeman,
    ledger: BindingView,
    machine: BindingMachine,
    target: TargetView,
)
    requires
        target.id == op.binding,
        target.conversation == op.request.conversation@,
        target.profile == op.request.profile@,
        target.connector_abi == op.request.connector_abi@,
        target.capability_epoch == op.request.capability_epoch,
        target.write_capability == op.request.write_capability,
    ensures
        match machine(ledger, BindingEventView::Bound { target, at: op.now }) {
            Err(conflict) => op.issued(ledger, machine) == Err::<BindingGeneration, StoreError>(
                StoreError::Conflict(conflict),
            ),
            Ok(Applied::Advanced(next)) => next.active is Some ==> op.issued(ledger, machine) == Ok::<
                BindingGeneration,
                StoreError,
            >(next.active->0.generation),
            Ok(Applied::Duplicate) => ledger.active is Some ==> op.issued(ledger, machine) == Ok::<
                BindingGeneration,
                StoreError,
            >(ledger.active->0.generation),
        },
{
    assert(op.transition() == (BindingEventView::Bound { target, at: op.now }));
}

/// A binding is recorded with its generation, its epoch and what it may write, about no work at all; two
/// bindings are never one fact.
pub proof fn a_binding_is_recorded_with_its_generation(
    op: BindForeman,
    other: BindForeman,
    generation: BindingGeneration,
    issued: BindingGeneration,
    safe: spec_fn(Seq<char>) -> bool,
)
    ensures
        op.bound_event(generation, safe) matches Ok(event) ==> {
            &&& event.event_id == op.event
            &&& event.kind is ForemanBindingBound
            &&& event.observed_at == op.now
            &&& event.occurred_at is None
            &&& event.scope.project is None && event.scope.task is None && event.scope.session is None
            &&& event.scope.incarnation is None && event.scope.turn is None
                && event.scope.obligation is None
            &&& says(event, "generation"@, MetaValue::Int(generation as int))
            &&& says(event, "capability_epoch"@, MetaValue::Int(op.request.capability_epoch as int))
            &&& exists|label: Seq<char>| #[trigger]
                says(event, "write_capability"@, MetaValue::Text(label)) && write_capability_named(label)
                    == Some(op.request.write_capability)
        },
        op.bound_event(generation, safe) matches Ok(a) ==> (other.bound_event(issued, safe) matches Ok(b)
            ==> (a.source == b.source <==> op.binding == other.binding)),
{
    write_capability_round_trips(op.request.write_capability);
    if let Ok(event) = op.bound_event(generation, safe) {
        assert(event.metadata[0].0 == "generation"@);
        assert(event.metadata[1].0 == "capability_epoch"@);
        assert(event.metadata[2].0 == "write_capability"@);
        let label = crate::store::labels::write_capability_label(op.request.write_capability)@;
        assert(says(event, "write_capability"@, MetaValue::Text(label)));
    }
    if canonical_text(op.binding.value) == canonical_text(other.binding.value) {
        canonical_text_injective(op.binding.value, other.binding.value);
    }
}

/// A binding's row is the binding: what was asked for, under the issued generation; and the event that
/// binds it is the one that supersedes the binding before it.
pub proof fn a_bound_row_is_the_binding(op: BindForeman, generation: BindingGeneration, seq: EventSeq)
    ensures
        op.bound_row(generation, seq) is Ok <==> (seq <= i64::MAX && generation <= i64::MAX
            && op.request.capability_epoch <= i64::MAX),
        op.bound_row(generation, seq) matches Ok(row) ==> {
            &&& row.foreman_binding_id == op.binding
            &&& row.provider == op.request.provider
            &&& row.canonical_conversation_id == op.request.conversation
            &&& row.canonical_conversation_url == op.request.conversation_url_ref
            &&& row.browser_profile_id == op.request.profile
            &&& row.connector_abi == op.request.connector_abi
            &&& row.binding_generation == generation
            &&& row.capability_epoch == op.request.capability_epoch
            &&& write_capability_named(row.write_capability_state@) == Some(op.request.write_capability)
            &&& row.bound_event_seq == seq
            &&& row.superseded_event_seq == row.bound_event_seq
            &&& op.committed(generation, seq) matches Ok((written, answer)) && written == row
                && answer.binding == op.binding && answer.generation == generation
        },
{
    write_capability_round_trips(op.request.write_capability);
}

} // verus!
