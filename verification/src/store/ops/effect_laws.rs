//! What recording an external effect promises.
//!
//! Each law speaks of what a caller handed in and what comes out: what is asked of the attempt machine,
//! what the row is overwritten with, and what reading the row gives back.
use vstd::prelude::*;
use crate::domain::conflict::Conflict;
use crate::domain::effect::{
    AttemptEventView, AttemptView, DestinationView, EffectClassView, EffectMachine,
    ExternalAttemptState,
};
use crate::domain::fence::{DaemonEpoch, SourceView, Timestamp};
use crate::domain::id::ExternalAttemptId;
use crate::domain::obligation::Applied;
use crate::store::codec::{text_or_empty, window_unstorable};
use crate::store::error::StoreError;
use crate::store::labels::{
    attempt_effect_state_named, attempt_effect_state_round_trips, effect_ambiguity_named,
    effect_ambiguity_round_trips, no_effect_named, no_effect_round_trips,
};
use crate::store::ops::effect::{
    attempt_of, intent_of, intent_row, no_intent, same_intent, terminal_row, AttemptRow, DispatchUpdate,
    ExternalOutcome, MarkExternalDispatched, RecordExternalOutcome, TerminalView,
};

verus! {

// --- The intent ------------------------------------------------------------------------------------------

/// An intent is written as it was handed in, as an intent, and is refused only where a counter does not
/// fit its column.
pub proof fn an_intent_is_written_as_handed_in(
    attempt: ExternalAttemptId,
    class: EffectClassView,
    destination: DestinationView,
    source: SourceView,
    epoch: DaemonEpoch,
    at: Timestamp,
)
    ensures
        intent_row(attempt, class, destination, source, epoch, at) is Ok <==> (!window_unstorable(class)
            && epoch <= i64::MAX),
        intent_row(attempt, class, destination, source, epoch, at) matches Ok(row) ==> {
            &&& row.external_attempt_id == attempt
            &&& row.destination == destination
            &&& row.source == source
            &&& row.daemon_epoch == epoch
            &&& row.recorded_at_ms == at
            &&& attempt_effect_state_named(row.state@) == Some(ExternalAttemptState::IntentRecorded)
        },
{
    attempt_effect_state_round_trips(ExternalAttemptState::IntentRecorded);
}

/// An attempt that was never recorded is refused as one that needs a durable intent, by its own identity.
pub proof fn an_unrecorded_attempt_needs_an_intent(attempt: ExternalAttemptId, another: ExternalAttemptId)
    ensures
        no_intent(attempt) == StoreError::Conflict(
            Conflict::ExecuteRequiresDurableIntent { attempt },
        ),
        no_intent(attempt) == no_intent(another) ==> attempt == another,
{
}

// --- Dispatch --------------------------------------------------------------------------------------------

/// A dispatch is the machine's to answer, when it hears that the call is dispatched at that instant: a
/// refusal comes out under its own conflict, a repeat writes nothing, and what it left is written and
/// answered for the attempt that was named.
pub proof fn a_dispatch_is_the_machines_to_allow(
    op: MarkExternalDispatched,
    attempt: AttemptView,
    machine: EffectMachine,
)
    ensures
        match machine(attempt, AttemptEventView::CallDispatched { at: op.now }) {
            Err(conflict) => op.committed(attempt, machine) matches Err(e) && e
                == StoreError::Conflict(conflict),
            Ok(Applied::Duplicate) => op.committed(attempt, machine) matches Ok((None, state)) && state
                == attempt.state,
            Ok(Applied::Advanced(next)) => op.committed(attempt, machine) matches Ok(
                (Some(row), state),
            ) && row.external_attempt_id == op.request.attempt && row.dispatched_at_ms
                == next.dispatched_at && state == next.state,
        },
{
}

/// Whether a machine records a dispatch: an attempt that advances was dispatched at that instant, and
/// nothing else about it changed.
pub open spec fn dispatch_is_recorded(machine: EffectMachine) -> bool {
    forall|attempt: AttemptView, at: Timestamp|
        (#[trigger] machine(attempt, AttemptEventView::CallDispatched { at })) matches Ok(
            Applied::Advanced(next),
        ) ==> next == (AttemptView { dispatched_at: Some(at), ..attempt })
}

/// A committed dispatch reads back: the row of an intent, overwritten with what the dispatch committed,
/// gives the attempt the machine left, dispatched at that very instant.
pub proof fn a_committed_dispatch_reads_back(
    op: MarkExternalDispatched,
    before: AttemptRow,
    after: AttemptRow,
    attempt: AttemptView,
    next: AttemptView,
    written: DispatchUpdate,
    state: ExternalAttemptState,
    machine: EffectMachine,
    rule: spec_fn(Seq<char>) -> bool,
)
    requires
        dispatch_is_recorded(machine),
        before.dispatched == 0,
        before.finished_at_ms is None,
        attempt_of(op.request.attempt, before, machine, rule) == Ok::<AttemptView, StoreError>(attempt),
        machine(attempt, AttemptEventView::CallDispatched { at: op.now }) == Ok::<
            Applied<AttemptView>,
            Conflict,
        >(Applied::Advanced(next)),
        op.committed(attempt, machine) == Ok::<
            (Option<DispatchUpdate>, ExternalAttemptState),
            StoreError,
        >((Some(written), state)),
        same_intent(before, after),
        after.state@ == before.state@,
        after.finished_at_ms is None,
        after.dispatched != 0,
        after.dispatched_at_ms == written.dispatched_at_ms,
    ensures
        attempt_of(op.request.attempt, after, machine, rule) == Ok::<AttemptView, StoreError>(next),
        next.dispatched_at == Some(op.now),
        attempt.dispatched_at is None,
        written.dispatched_at_ms == Some(op.now),
{
    assert(intent_of(op.request.attempt, after, rule) == intent_of(op.request.attempt, before, rule));
}

/// Reading a row that records a dispatch reads a dispatched attempt, at the instant the row records, and
/// reading one that records none, with no outcome either, reads an attempt that was never dispatched. A
/// dispatch without an instant is never read.
pub proof fn a_row_reads_as_dispatched_where_it_says_so(
    id: ExternalAttemptId,
    row: AttemptRow,
    machine: EffectMachine,
    rule: spec_fn(Seq<char>) -> bool,
)
    requires
        forall|attempt: AttemptView, at: Timestamp|
            attempt.dispatched_at is None ==> (
            (#[trigger] machine(attempt, AttemptEventView::CallDispatched { at })) matches Ok(applied)
                ==> (applied matches Applied::Advanced(next) && next.dispatched_at == Some(at))),
        row.finished_at_ms is None,
    ensures
        attempt_of(id, row, machine, rule) matches Ok(read) ==> {
            &&& row.dispatched != 0 ==> row.dispatched_at_ms is Some && read.dispatched_at
                == row.dispatched_at_ms
            &&& row.dispatched == 0 ==> read.dispatched_at is None
        },
{
}

/// A row that the machine never reaches is not read: a dispatch it refuses, or an outcome it refuses, is
/// that refusal.
pub proof fn an_impossible_history_is_not_read(
    id: ExternalAttemptId,
    row: AttemptRow,
    intent: AttemptView,
    at: Timestamp,
    conflict: Conflict,
    machine: EffectMachine,
    rule: spec_fn(Seq<char>) -> bool,
)
    requires
        attempt_effect_state_named(row.state@) is Some,
        intent_of(id, row, rule) == Ok::<AttemptView, StoreError>(intent),
        row.dispatched != 0,
        row.dispatched_at_ms == Some(at),
        machine(intent, AttemptEventView::CallDispatched { at }) == Err::<Applied<AttemptView>, Conflict>(
            conflict,
        ),
    ensures
        attempt_of(id, row, machine, rule) == Err::<AttemptView, StoreError>(
            StoreError::Conflict(conflict),
        ),
{
}

/// What is read is the intent that was recorded: who, where, why and when are the row's own columns,
/// before anything became of it.
pub proof fn an_intent_is_its_rows_own(
    id: ExternalAttemptId,
    row: AttemptRow,
    rule: spec_fn(Seq<char>) -> bool,
)
    ensures
        intent_of(id, row, rule) matches Ok(intent) ==> {
            &&& intent.id == id
            &&& intent.destination.0 == row.destination_namespace@
            &&& intent.destination.1 == row.destination_endpoint@
            &&& intent.destination.2 == row.destination_fence@
            &&& rule(row.destination_namespace@)
            &&& rule(row.destination_endpoint@)
            &&& rule(row.destination_fence@)
            &&& intent.source.0 == row.source_namespace@
            &&& intent.source.1 == row.source_event_id@
            &&& intent.source.2 == row.source_event_fence@
            &&& intent.daemon_epoch == row.daemon_epoch
            &&& intent.recorded_at == row.recorded_at_ms
            &&& intent.state is IntentRecorded
            &&& intent.dispatched_at is None
            &&& intent.finished_at is None
            &&& intent.outcome is None
            &&& intent.no_effect is None
            &&& intent.ambiguity is None
        },
{
}

// --- Outcome ---------------------------------------------------------------------------------------------

/// Whether the terminal columns say what became of an attempt.
pub open spec fn says_what_became(row: TerminalView, id: ExternalAttemptId, next: AttemptView) -> bool {
    &&& row.external_attempt_id == id
    &&& attempt_effect_state_named(row.state@) == Some(next.state)
    &&& row.completion_ref == next.outcome
    &&& match next.no_effect {
        Some(class) => row.no_effect_class is Some && no_effect_named(row.no_effect_class->0@) == Some(
            class,
        ),
        None => row.no_effect_class is None,
    }
    &&& match next.ambiguity {
        Some(reason) => row.ambiguity_reason is Some && effect_ambiguity_named(row.ambiguity_reason->0@)
            == Some(reason),
        None => row.ambiguity_reason is None,
    }
    &&& row.finished_at_ms == next.finished_at
}

/// Whether an event tells the machine of exactly the outcome that was observed, at an instant.
pub open spec fn tells_of(told: AttemptEventView, op: RecordExternalOutcome) -> bool {
    match op.request.outcome {
        ExternalOutcome::Completed { evidence } => {
            &&& told matches AttemptEventView::Completed { evidence: seen, at }
            &&& seen == evidence.reference@
            &&& at == op.now
        },
        ExternalOutcome::FailedBeforeEffect { proven } => {
            &&& told matches AttemptEventView::FailedBeforeEffect { proven: seen, at }
            &&& seen == proven
            &&& at == op.now
        },
        ExternalOutcome::Ambiguous { reason } => {
            &&& told matches AttemptEventView::OutcomeUnknown { reason: seen, at }
            &&& seen == reason
            &&& at == op.now
        },
    }
}

/// An outcome is the machine's to answer, when it hears of exactly what was observed: a refusal comes
/// out under its own conflict, a repeat writes nothing, and what the machine left is written, column by
/// column, and answered.
pub proof fn an_outcome_is_written_as_the_machine_left_it(
    op: RecordExternalOutcome,
    attempt: AttemptView,
    machine: EffectMachine,
    told: AttemptEventView,
)
    requires
        tells_of(told, op),
    ensures
        match machine(attempt, told) {
            Err(conflict) => op.committed(attempt, machine) matches Err(e) && e
                == StoreError::Conflict(conflict),
            Ok(Applied::Duplicate) => op.committed(attempt, machine) matches Ok((None, state)) && state
                == attempt.state,
            Ok(Applied::Advanced(next)) => op.committed(attempt, machine) matches Ok(
                (Some(row), state),
            ) && says_what_became(row, op.request.attempt, next) && state == next.state,
        },
{
    if let Ok(Applied::Advanced(next)) = machine(attempt, told) {
        terminal_columns_say_what_became(op.request.attempt, next);
    }
}

/// The terminal columns of an attempt say what became of it, whatever that is.
pub proof fn terminal_columns_say_what_became(id: ExternalAttemptId, next: AttemptView)
    ensures
        says_what_became(terminal_row(id, next), id, next),
{
    attempt_effect_state_round_trips(next.state);
    if let Some(class) = next.no_effect {
        no_effect_round_trips(class);
    }
    if let Some(reason) = next.ambiguity {
        effect_ambiguity_round_trips(reason);
    }
}

/// A finished row is read by telling the machine of the outcome its columns record, at the instant they
/// record: a completion with its reference, a proven failure with its class, an ambiguity with its
/// reason.
pub proof fn a_finished_row_is_read_by_its_outcome(
    id: ExternalAttemptId,
    row: AttemptRow,
    intent: AttemptView,
    at: Timestamp,
    told: AttemptEventView,
    next: AttemptView,
    machine: EffectMachine,
    rule: spec_fn(Seq<char>) -> bool,
)
    requires
        row.dispatched == 0,
        row.finished_at_ms == Some(at),
        intent_of(id, row, rule) == Ok::<AttemptView, StoreError>(intent),
        match told {
            AttemptEventView::CallDispatched { .. } => false,
            AttemptEventView::Completed { evidence, at: when } => {
                &&& attempt_effect_state_named(row.state@) == Some(ExternalAttemptState::Completed)
                &&& text_or_empty(row.completion_ref) == evidence
                &&& rule(evidence)
                &&& when == at
            },
            AttemptEventView::FailedBeforeEffect { proven, at: when } => {
                &&& attempt_effect_state_named(row.state@) == Some(
                    ExternalAttemptState::FailedBeforeEffect,
                )
                &&& no_effect_named(text_or_empty(row.no_effect_class)) == Some(proven)
                &&& when == at
            },
            AttemptEventView::OutcomeUnknown { reason, at: when } => {
                &&& attempt_effect_state_named(row.state@) == Some(ExternalAttemptState::Ambiguous)
                &&& effect_ambiguity_named(text_or_empty(row.ambiguity_reason)) == Some(reason)
                &&& when == at
            },
        },
    ensures
        machine(intent, told) matches Err(conflict) ==> attempt_of(id, row, machine, rule) == Err::<
            AttemptView,
            StoreError,
        >(StoreError::Conflict(conflict)),
        machine(intent, told) == Ok::<Applied<AttemptView>, Conflict>(Applied::Advanced(next)) ==> (
        attempt_of(id, row, machine, rule) == Ok::<AttemptView, StoreError>(next)
            <==> attempt_effect_state_named(row.state@) == Some(next.state)),
{
}

} // verus!
