//! The durable-intent protocol for consequential external effects.
//!
//! One intent row is committed first; only then is one permit surrendered, by value and once. An
//! attempt whose fate was lost is ambiguous, and ambiguous is terminal: a retry is a new attempt.
use vstd::prelude::*;
use crate::domain::conflict::Conflict;
use crate::domain::effect::{
    effects_are, effects_total, AttemptEventView, AttemptReply, AttemptView, DestinationRef,
    DestinationView, EffectAmbiguityReason, EffectClassView, EffectMachine, ExternalAttempt,
    ExternalAttemptEvent, ExternalAttemptState, ExternalEffectClass, NoEffectClass,
};
use crate::domain::fence::{
    clone_token, rule_is, rule_total, DaemonEpoch, SafeToken, SourceRef, SourceView, Timestamp,
};
use crate::domain::id::ExternalAttemptId;
use crate::domain::obligation::{applied_view, or_unchanged, settled, Applied};
use crate::store::codec::{
    decode_effect_class, effect_class_columns, effect_class_of, effect_class_round_trips,
    encode_effect_class, int_view, label_view, or_empty, parse_source, parse_token, parse_u64,
    source_columns, store_u64, stored_u64, text_or_empty, text_view, token_column, u64_column,
    window_unstorable, StoredEffectClass,
};
use crate::store::error::{chain, corrupt, corrupt_row, present, CorruptReason, StoreError};
use crate::store::labels::{
    attempt_effect_state_label, attempt_effect_state_named, attempt_effect_state_round_trips,
    decode_attempt_effect_state, decode_effect_ambiguity, decode_no_effect,
    effect_ambiguity_label, effect_ambiguity_named, effect_ambiguity_round_trips,
    encode_attempt_effect_state, encode_effect_ambiguity, encode_no_effect, no_effect_label,
    no_effect_named, no_effect_round_trips,
};
use crate::store::ops::AttemptEvidence;

verus! {

/// An answer of the attempt machine, a refusal being a store failure.
pub open spec fn effected(machine: EffectMachine, attempt: AttemptView, event: AttemptEventView) -> Result<
    Applied<AttemptView>,
    StoreError,
> {
    match machine(attempt, event) {
        Ok(applied) => Ok(applied),
        Err(conflict) => Err(StoreError::Conflict(conflict)),
    }
}

/// An answer of the attempt machine on values alone.
pub open spec fn effected_view(r: Result<Applied<ExternalAttempt>, StoreError>) -> Result<
    Applied<AttemptView>,
    StoreError,
> {
    match r {
        Ok(applied) => Ok(applied_view(applied)),
        Err(e) => Err(e),
    }
}

/// Asks the attempt machine.
pub fn ask_effect<A: Fn(&ExternalAttempt, &ExternalAttemptEvent) -> AttemptReply>(
    apply: &A,
    attempt: &ExternalAttempt,
    event: &ExternalAttemptEvent,
) -> (r: Result<Applied<ExternalAttempt>, StoreError>)
    requires
        effects_total(*apply),
    ensures
        forall|machine: EffectMachine| #[trigger]
            effects_are(*apply, machine) ==> effected_view(r) == effected(
                machine,
                attempt@,
                event@,
            ),
{
    match apply(attempt, event) {
        Ok(applied) => Ok(applied),
        Err(conflict) => Err(StoreError::Conflict(conflict)),
    }
}

// --- Recording an intent -----------------------------------------------------------------------------

/// A consequential external effect the daemon is about to perform.
#[derive(Debug, PartialEq, Eq)]
pub struct RecordExternalIntentRequest {
    /// How consequential the call is, with its exact idempotency key.
    pub class: ExternalEffectClass,
    /// Opaque destination the call targets.
    pub destination: DestinationRef,
    /// The source fact that justifies the effect.
    pub source: SourceRef,
    /// Daemon epoch the intent is recorded under.
    pub daemon_epoch: DaemonEpoch,
}

/// Permission to perform exactly one consequential external call. Neither cloned nor copied.
#[derive(Debug, PartialEq, Eq)]
pub struct ExternalExecutionPermit {
    attempt: ExternalAttemptId,
}

impl ExternalExecutionPermit {
    /// The attempt the permit is for.
    pub closed spec fn authorises(self) -> ExternalAttemptId {
        self.attempt
    }

    /// The attempt the permit is for.
    pub fn attempt(&self) -> (r: ExternalAttemptId)
        ensures
            r == self.authorises(),
    {
        self.attempt
    }
}

/// A durable intent and the single-use capability it authorises.
#[derive(Debug, PartialEq, Eq)]
pub struct GrantedPermit {
    /// The attempt whose intent is now durable.
    pub attempt: ExternalAttemptId,
    /// Permission to perform exactly one consequential external call.
    pub permit: ExternalExecutionPermit,
}

/// Commits one intent row, then surrenders one permit.
#[derive(Debug, PartialEq, Eq)]
pub struct RecordExternalIntent {
    pub request: RecordExternalIntentRequest,
    pub attempt: ExternalAttemptId,
    pub recorded_at: Timestamp,
}

/// One `external_attempts` row, as inserted: a plain insert, so an attempt identity is never reused.
#[derive(Debug, PartialEq, Eq)]
pub struct IntentRow {
    pub external_attempt_id: ExternalAttemptId,
    pub class: StoredEffectClass,
    pub destination: DestinationRef,
    pub source: SourceRef,
    pub daemon_epoch: i64,
    pub state: &'static str,
    pub recorded_at_ms: i64,
}

/// One inserted `external_attempts` row on values alone.
#[verifier::ext_equal]
pub struct IntentView {
    pub external_attempt_id: ExternalAttemptId,
    pub class: (Seq<char>, Option<Seq<char>>, Option<int>, Option<Seq<char>>),
    pub destination: DestinationView,
    pub source: SourceView,
    pub daemon_epoch: i64,
    pub state: &'static str,
    pub recorded_at_ms: i64,
}

impl View for IntentRow {
    type V = IntentView;

    open spec fn view(&self) -> IntentView {
        IntentView {
            external_attempt_id: self.external_attempt_id,
            class: (
                self.class.class@,
                label_view(self.class.contract),
                int_view(self.class.window_ms),
                text_view(self.class.key),
            ),
            destination: self.destination@,
            source: self.source@,
            daemon_epoch: self.daemon_epoch,
            state: self.state,
            recorded_at_ms: self.recorded_at_ms,
        }
    }
}

/// The intent row that must commit before any consequential call.
pub open spec fn intent_row(
    attempt: ExternalAttemptId,
    class: EffectClassView,
    destination: DestinationView,
    source: SourceView,
    daemon_epoch: DaemonEpoch,
    recorded_at: Timestamp,
) -> Result<IntentView, StoreError> {
    if window_unstorable(class) {
        Err(corrupt("external_attempts", "idempotency_window_ms", CorruptReason::IntegerOutOfRange))
    } else {
        chain(
            stored_u64(daemon_epoch, "external_attempts", "daemon_epoch"),
            |epoch: i64|
                Ok(
                    IntentView {
                        external_attempt_id: attempt,
                        class: effect_class_columns(class),
                        destination,
                        source,
                        daemon_epoch: epoch,
                        state: attempt_effect_state_label(ExternalAttemptState::IntentRecorded),
                        recorded_at_ms: recorded_at,
                    },
                ),
        )
    }
}

/// An intent row that was built, on values alone, or the failure.
pub open spec fn intent_view(r: Result<IntentRow, StoreError>) -> Result<IntentView, StoreError> {
    match r {
        Ok(row) => Ok(row@),
        Err(e) => Err(e),
    }
}

/// Builds the one intent row that must commit before any consequential call.
pub fn insert_intent(
    attempt: ExternalAttemptId,
    class: &ExternalEffectClass,
    destination: &DestinationRef,
    source: &SourceRef,
    daemon_epoch: DaemonEpoch,
    recorded_at: Timestamp,
) -> (r: Result<IntentRow, StoreError>)
    ensures
        intent_view(r) == intent_row(
            attempt,
            class@,
            destination@,
            source@,
            daemon_epoch,
            recorded_at,
        ),
{
    let encoded = encode_effect_class(class)?;
    let epoch: i64 = store_u64(daemon_epoch, "external_attempts", "daemon_epoch")?;
    Ok(
        IntentRow {
            external_attempt_id: attempt,
            class: encoded,
            destination: destination.clone(),
            source: source.clone(),
            daemon_epoch: epoch,
            state: encode_attempt_effect_state(ExternalAttemptState::IntentRecorded),
            recorded_at_ms: recorded_at,
        },
    )
}

/// Turns a freshly committed intent into the single permit it authorises.
pub(crate) fn grant(attempt: ExternalAttemptId) -> (r: GrantedPermit)
    ensures
        r.attempt == attempt,
        r.permit.authorises() == attempt,
{
    GrantedPermit { attempt, permit: ExternalExecutionPermit { attempt } }
}

impl RecordExternalIntent {
    /// Builds the intent row.
    pub fn commit(&self) -> (r: Result<IntentRow, StoreError>)
        ensures
            intent_view(r) == intent_row(
                self.attempt,
                self.request.class@,
                self.request.destination@,
                self.request.source@,
                self.request.daemon_epoch,
                self.recorded_at,
            ),
    {
        insert_intent(
            self.attempt,
            &self.request.class,
            &self.request.destination,
            &self.request.source,
            self.request.daemon_epoch,
            self.recorded_at,
        )
    }

    /// Surrenders the permit. Called once the row is committed, and it consumes the operation: one
    /// durable intent authorises one call.
    pub fn finish(self) -> (r: GrantedPermit)
        ensures
            r.attempt == self.attempt,
            r.permit.authorises() == self.attempt,
    {
        grant(self.attempt)
    }
}

// --- Reading an attempt ------------------------------------------------------------------------------

/// One `external_attempts` row, as read.
#[derive(Debug, PartialEq, Eq)]
pub struct AttemptRow {
    pub effect_class: String,
    pub idempotency_contract: Option<String>,
    pub idempotency_window_ms: Option<i64>,
    pub idempotency_key: Option<String>,
    pub destination_namespace: String,
    pub destination_endpoint: String,
    pub destination_fence: String,
    pub source_namespace: String,
    pub source_event_id: String,
    pub source_event_fence: String,
    pub daemon_epoch: i64,
    pub state: String,
    pub dispatched: i64,
    pub completion_ref: Option<String>,
    pub no_effect_class: Option<String>,
    pub ambiguity_reason: Option<String>,
    pub recorded_at_ms: i64,
    pub dispatched_at_ms: Option<i64>,
    pub finished_at_ms: Option<i64>,
}

/// The destination columns of a row.
pub open spec fn destination_columns(row: AttemptRow, rule: spec_fn(Seq<char>) -> bool) -> Result<
    DestinationView,
    StoreError,
> {
    let t = "external_attempts";
    chain(
        token_column(row.destination_namespace@, t, "destination_namespace", rule),
        |namespace: Seq<char>|
            chain(
                token_column(row.destination_endpoint@, t, "destination_endpoint", rule),
                |endpoint: Seq<char>|
                    chain(
                        token_column(row.destination_fence@, t, "destination_fence", rule),
                        |fence: Seq<char>| Ok((namespace, endpoint, fence)),
                    ),
            ),
    )
}

fn read_destination<S: Fn(&str) -> bool>(row: &AttemptRow, safe: &S) -> (r: Result<
    DestinationRef,
    StoreError,
>)
    requires
        rule_total(*safe),
    ensures
        forall|rule: spec_fn(Seq<char>) -> bool| #[trigger]
            rule_is(*safe, rule) ==> (match r {
                Ok(destination) => destination_columns(*row, rule) == Ok::<
                    DestinationView,
                    StoreError,
                >(destination@),
                Err(e) => destination_columns(*row, rule) == Err::<DestinationView, StoreError>(e),
            }),
{
    let t = "external_attempts";
    let namespace = parse_token(row.destination_namespace.as_str(), t, "destination_namespace", safe)?;
    let endpoint = parse_token(row.destination_endpoint.as_str(), t, "destination_endpoint", safe)?;
    let fence = parse_token(row.destination_fence.as_str(), t, "destination_fence", safe)?;
    Ok(DestinationRef { namespace, endpoint, fence })
}

/// The attempt as its recorded intent left it.
pub open spec fn intent_of(
    attempt: ExternalAttemptId,
    row: AttemptRow,
    rule: spec_fn(Seq<char>) -> bool,
) -> Result<AttemptView, StoreError> {
    chain(
        effect_class_of(
            row.effect_class@,
            text_view(row.idempotency_contract),
            int_view(row.idempotency_window_ms),
            text_view(row.idempotency_key),
            rule,
        ),
        |class: EffectClassView|
            chain(
                destination_columns(row, rule),
                |destination: DestinationView|
                    chain(
                        source_columns(
                            row.source_namespace@,
                            row.source_event_id@,
                            row.source_event_fence@,
                            rule,
                        ),
                        |source: SourceView|
                            chain(
                                u64_column(row.daemon_epoch, "external_attempts", "daemon_epoch"),
                                |daemon_epoch: u64|
                                    Ok(
                                        AttemptView {
                                            id: attempt,
                                            class,
                                            destination,
                                            source,
                                            daemon_epoch,
                                            recorded_at: row.recorded_at_ms,
                                            state: ExternalAttemptState::IntentRecorded,
                                            dispatched_at: None,
                                            finished_at: None,
                                            outcome: None,
                                            no_effect: None,
                                            ambiguity: None,
                                        },
                                    ),
                            ),
                    ),
            ),
    )
}

/// The attempt after its dispatch fence, where the row records one.
pub open spec fn dispatch_folded(intent: AttemptView, row: AttemptRow, machine: EffectMachine) -> Result<
    AttemptView,
    StoreError,
> {
    if row.dispatched == 0 {
        Ok(intent)
    } else {
        chain(
            present(
                row.dispatched_at_ms,
                corrupt("external_attempts", "dispatched_at_ms", CorruptReason::MalformedMetadata),
            ),
            |at: i64|
                chain(
                    effected(machine, intent, AttemptEventView::CallDispatched { at }),
                    |applied: Applied<AttemptView>| Ok(settled(applied, intent)),
                ),
        )
    }
}

/// The outcome a finished row records, as its stored state says.
pub open spec fn outcome_event(
    row: AttemptRow,
    state: ExternalAttemptState,
    at: Timestamp,
    rule: spec_fn(Seq<char>) -> bool,
) -> Result<AttemptEventView, StoreError> {
    let t = "external_attempts";
    match state {
        ExternalAttemptState::Completed => chain(
            token_column(text_or_empty(row.completion_ref), t, "completion_ref", rule),
            |evidence: Seq<char>| Ok(AttemptEventView::Completed { evidence, at }),
        ),
        ExternalAttemptState::FailedBeforeEffect => match no_effect_named(
            text_or_empty(row.no_effect_class),
        ) {
            Some(proven) => Ok(AttemptEventView::FailedBeforeEffect { proven, at }),
            None => Err(corrupt(t, "no_effect_class", CorruptReason::UnknownLabel)),
        },
        ExternalAttemptState::Ambiguous => match effect_ambiguity_named(
            text_or_empty(row.ambiguity_reason),
        ) {
            Some(reason) => Ok(AttemptEventView::OutcomeUnknown { reason, at }),
            None => Err(corrupt(t, "ambiguity_reason", CorruptReason::UnknownLabel)),
        },
        ExternalAttemptState::IntentRecorded => {
            Err(corrupt(t, "state", CorruptReason::UnprovableEvidence))
        },
    }
}

/// The attempt after its outcome, where the row records one.
pub open spec fn outcome_folded(
    dispatched: AttemptView,
    row: AttemptRow,
    state: ExternalAttemptState,
    machine: EffectMachine,
    rule: spec_fn(Seq<char>) -> bool,
) -> Result<AttemptView, StoreError> {
    match row.finished_at_ms {
        None => Ok(dispatched),
        Some(at) => chain(
            outcome_event(row, state, at, rule),
            |event: AttemptEventView|
                chain(
                    effected(machine, dispatched, event),
                    |applied: Applied<AttemptView>| Ok(settled(applied, dispatched)),
                ),
        ),
    }
}

/// What a row says: its own recorded history folded through the machine, which must end in the state
/// the row stores. A row no legal sequence of transitions reaches is corrupt.
pub open spec fn attempt_of(
    attempt: ExternalAttemptId,
    row: AttemptRow,
    machine: EffectMachine,
    rule: spec_fn(Seq<char>) -> bool,
) -> Result<AttemptView, StoreError> {
    match attempt_effect_state_named(row.state@) {
        None => Err(corrupt("external_attempts", "state", CorruptReason::UnknownLabel)),
        Some(stored) => chain(
            intent_of(attempt, row, rule),
            |intent: AttemptView|
                chain(
                    dispatch_folded(intent, row, machine),
                    |dispatched: AttemptView|
                        chain(
                            outcome_folded(dispatched, row, stored, machine, rule),
                            |folded: AttemptView|
                                if folded.state != stored {
                                    Err(
                                        corrupt(
                                            "external_attempts",
                                            "state",
                                            CorruptReason::UnprovableEvidence,
                                        ),
                                    )
                                } else {
                                    Ok(folded)
                                },
                        ),
                ),
        ),
    }
}

/// An attempt that was read, on values alone, or the failure.
pub open spec fn attempt_view(r: Result<ExternalAttempt, StoreError>) -> Result<AttemptView, StoreError> {
    match r {
        Ok(attempt) => Ok(attempt@),
        Err(e) => Err(e),
    }
}

fn read_intent<S: Fn(&str) -> bool>(attempt: ExternalAttemptId, row: &AttemptRow, safe: &S) -> (r: Result<
    ExternalAttempt,
    StoreError,
>)
    requires
        rule_total(*safe),
    ensures
        forall|rule: spec_fn(Seq<char>) -> bool| #[trigger]
            rule_is(*safe, rule) ==> attempt_view(r) == intent_of(attempt, *row, rule),
{
    let class = decode_effect_class(
        row.effect_class.as_str(),
        &row.idempotency_contract,
        row.idempotency_window_ms,
        &row.idempotency_key,
        safe,
    )?;
    let destination = read_destination(row, safe)?;
    let source = parse_source(
        row.source_namespace.as_str(),
        row.source_event_id.as_str(),
        row.source_event_fence.as_str(),
        safe,
    )?;
    let daemon_epoch: u64 = parse_u64(row.daemon_epoch, "external_attempts", "daemon_epoch")?;
    Ok(
        ExternalAttempt::record_intent(
            attempt,
            class,
            destination,
            source,
            daemon_epoch,
            row.recorded_at_ms,
        ),
    )
}

fn read_outcome<S: Fn(&str) -> bool>(
    row: &AttemptRow,
    state: ExternalAttemptState,
    at: Timestamp,
    safe: &S,
) -> (r: Result<ExternalAttemptEvent, StoreError>)
    requires
        rule_total(*safe),
    ensures
        forall|rule: spec_fn(Seq<char>) -> bool| #[trigger]
            rule_is(*safe, rule) ==> (match r {
                Ok(event) => outcome_event(*row, state, at, rule) == Ok::<
                    AttemptEventView,
                    StoreError,
                >(event@),
                Err(e) => outcome_event(*row, state, at, rule) == Err::<AttemptEventView, StoreError>(
                    e,
                ),
            }),
{
    let t = "external_attempts";
    match state {
        ExternalAttemptState::Completed => {
            let evidence = parse_token(or_empty(&row.completion_ref), t, "completion_ref", safe)?;
            Ok(ExternalAttemptEvent::Completed { evidence, at })
        },
        ExternalAttemptState::FailedBeforeEffect => {
            let proven = decode_no_effect(or_empty(&row.no_effect_class), t)?;
            Ok(ExternalAttemptEvent::FailedBeforeEffect { proven, at })
        },
        ExternalAttemptState::Ambiguous => {
            let reason = decode_effect_ambiguity(or_empty(&row.ambiguity_reason), t)?;
            Ok(ExternalAttemptEvent::OutcomeUnknown { reason, at })
        },
        ExternalAttemptState::IntentRecorded => {
            Err(corrupt_row(t, "state", CorruptReason::UnprovableEvidence))
        },
    }
}

/// Reads and re-proves one attempt row. Reading offers no permit.
pub fn read<
    A: Fn(&ExternalAttempt, &ExternalAttemptEvent) -> AttemptReply,
    S: Fn(&str) -> bool,
>(attempt: ExternalAttemptId, row: &AttemptRow, apply: &A, safe: &S) -> (r: Result<
    ExternalAttempt,
    StoreError,
>)
    requires
        effects_total(*apply),
        rule_total(*safe),
    ensures
        forall|machine: EffectMachine, rule: spec_fn(Seq<char>) -> bool|
            #![trigger effects_are(*apply, machine), rule_is(*safe, rule)]
            effects_are(*apply, machine) && rule_is(*safe, rule) ==> attempt_view(r) == attempt_of(
                attempt,
                *row,
                machine,
                rule,
            ),
{
    let t = "external_attempts";
    let stored = decode_attempt_effect_state(row.state.as_str(), t)?;
    let intent = read_intent(attempt, row, safe)?;
    let dispatched = if row.dispatched != 0 {
        let at: i64 = match row.dispatched_at_ms {
            Some(at) => at,
            None => {
                return Err(corrupt_row(t, "dispatched_at_ms", CorruptReason::MalformedMetadata));
            },
        };
        let event = ExternalAttemptEvent::CallDispatched { at };
        let applied = ask_effect(apply, &intent, &event)?;
        or_unchanged(applied, intent)
    } else {
        intent
    };
    let folded = match row.finished_at_ms {
        None => dispatched,
        Some(at) => {
            let event = read_outcome(row, stored, at, safe)?;
            let applied = ask_effect(apply, &dispatched, &event)?;
            or_unchanged(applied, dispatched)
        },
    };
    if folded.state != stored {
        return Err(corrupt_row(t, "state", CorruptReason::UnprovableEvidence));
    }
    Ok(folded)
}

/// What is answered about an attempt nobody recorded.
pub open spec fn no_intent(attempt: ExternalAttemptId) -> StoreError {
    StoreError::Conflict(Conflict::ExecuteRequiresDurableIntent { attempt })
}

/// Requires that an attempt exists: from the caller's side there is no durable intent for an
/// unknown one, and that answer forbids the same things.
pub fn require(attempt: ExternalAttemptId, found: Option<ExternalAttempt>) -> (r: Result<
    ExternalAttempt,
    StoreError,
>)
    ensures
        r == present(found, no_intent(attempt)),
{
    match found {
        Some(read) => Ok(read),
        None => Err(StoreError::Conflict(Conflict::ExecuteRequiresDurableIntent { attempt })),
    }
}

/// Resolves an attempt without offering a permit: the decision is the domain's, asked with nothing
/// freshly committed.
pub fn resolve<R, D: Fn(&ExternalAttempt) -> Result<R, Conflict>>(
    attempt: ExternalAttemptId,
    found: Option<ExternalAttempt>,
    decide: &D,
) -> (r: Result<R, StoreError>)
    requires
        forall|a: &ExternalAttempt| call_requires(*decide, (a,)),
    ensures
        match found {
            None => r == Err::<R, StoreError>(no_intent(attempt)),
            Some(read) => match r {
                Ok(decision) => call_ensures(*decide, (&read,), Ok::<R, Conflict>(decision)),
                Err(e) => e is Conflict && call_ensures(
                    *decide,
                    (&read,),
                    Err::<R, Conflict>(e->Conflict_0),
                ),
            },
        },
{
    let read = require(attempt, found)?;
    match decide(&read) {
        Ok(decision) => Ok(decision),
        Err(conflict) => Err(StoreError::Conflict(conflict)),
    }
}

/// The epoch bound below which an unproven attempt is orphaned.
pub fn unresolved_before(epoch: DaemonEpoch) -> (r: Result<i64, StoreError>)
    ensures
        r == stored_u64(epoch, "external_attempts", "daemon_epoch"),
{
    store_u64(epoch, "external_attempts", "daemon_epoch")
}

// --- Dispatch and outcome ----------------------------------------------------------------------------

/// Committing the dispatch fence immediately before the adapter issues a call.
#[derive(Debug, Clone, Copy, PartialEq, Eq, Structural)]
pub struct MarkExternalDispatchedRequest {
    /// The attempt about to be dispatched.
    pub attempt: ExternalAttemptId,
}

/// Commits the dispatch fence. A crash after this is ambiguous, never success.
#[derive(Debug, Clone, Copy, PartialEq, Eq, Structural)]
pub struct MarkExternalDispatched {
    pub request: MarkExternalDispatchedRequest,
    pub now: Timestamp,
}

/// What an `external_attempts` row is overwritten with at dispatch.
#[derive(Debug, Clone, Copy, PartialEq, Eq, Structural)]
pub struct DispatchUpdate {
    pub external_attempt_id: ExternalAttemptId,
    pub dispatched_at_ms: Option<i64>,
}

impl MarkExternalDispatched {
    /// What the dispatch fence commits: a row and the next state, or the state as it stands.
    pub open spec fn committed(self, attempt: AttemptView, machine: EffectMachine) -> Result<
        (Option<DispatchUpdate>, ExternalAttemptState),
        StoreError,
    > {
        chain(
            effected(machine, attempt, AttemptEventView::CallDispatched { at: self.now }),
            |applied: Applied<AttemptView>|
                Ok(
                    match applied {
                        Applied::Duplicate => (None, attempt.state),
                        Applied::Advanced(next) => (
                            Some(
                                DispatchUpdate {
                                    external_attempt_id: self.request.attempt,
                                    dispatched_at_ms: next.dispatched_at,
                                },
                            ),
                            next.state,
                        ),
                    },
                ),
        )
    }

    /// Commits the dispatch fence of an attempt.
    pub fn commit<A: Fn(&ExternalAttempt, &ExternalAttemptEvent) -> AttemptReply>(
        &self,
        attempt: &ExternalAttempt,
        apply: &A,
    ) -> (r: Result<(Option<DispatchUpdate>, ExternalAttemptState), StoreError>)
        requires
            effects_total(*apply),
        ensures
            forall|machine: EffectMachine| #[trigger]
                effects_are(*apply, machine) ==> r == self.committed(attempt@, machine),
    {
        let event = ExternalAttemptEvent::CallDispatched { at: self.now };
        match ask_effect(apply, attempt, &event)? {
            Applied::Duplicate => Ok((None, attempt.state)),
            Applied::Advanced(next) => Ok(
                (
                    Some(
                        DispatchUpdate {
                            external_attempt_id: self.request.attempt,
                            dispatched_at_ms: next.dispatched_at,
                        },
                    ),
                    next.state,
                ),
            ),
        }
    }
}

/// What an adapter learned about a dispatched call.
#[derive(Debug, PartialEq, Eq)]
pub enum ExternalOutcome {
    /// Exact evidence proves the effect landed.
    Completed {
        /// The opaque reference the destination returned.
        evidence: AttemptEvidence,
    },
    /// Proof establishes the effect did not happen.
    FailedBeforeEffect {
        /// The proof class.
        proven: NoEffectClass,
    },
    /// The fate of the effect is unknown. Terminal, and never retried automatically.
    Ambiguous {
        /// Why the fate was lost.
        reason: EffectAmbiguityReason,
    },
}

/// Recording what became of a dispatched external call.
#[derive(Debug, PartialEq, Eq)]
pub struct RecordExternalOutcomeRequest {
    /// Attempt whose fate is being recorded.
    pub attempt: ExternalAttemptId,
    /// What was learned.
    pub outcome: ExternalOutcome,
}

/// Records an attempt's terminal state.
#[derive(Debug, PartialEq, Eq)]
pub struct RecordExternalOutcome {
    pub request: RecordExternalOutcomeRequest,
    pub now: Timestamp,
}

/// What an `external_attempts` row is overwritten with when its fate is recorded.
#[derive(Debug, PartialEq, Eq)]
pub struct TerminalUpdate {
    pub external_attempt_id: ExternalAttemptId,
    pub state: &'static str,
    pub completion_ref: Option<SafeToken>,
    pub no_effect_class: Option<&'static str>,
    pub ambiguity_reason: Option<&'static str>,
    pub finished_at_ms: Option<i64>,
}

/// A terminal row on values alone.
#[verifier::ext_equal]
pub struct TerminalView {
    pub external_attempt_id: ExternalAttemptId,
    pub state: &'static str,
    pub completion_ref: Option<Seq<char>>,
    pub no_effect_class: Option<&'static str>,
    pub ambiguity_reason: Option<&'static str>,
    pub finished_at_ms: Option<i64>,
}

impl View for TerminalUpdate {
    type V = TerminalView;

    open spec fn view(&self) -> TerminalView {
        TerminalView {
            external_attempt_id: self.external_attempt_id,
            state: self.state,
            completion_ref: match self.completion_ref {
                Some(token) => Some(token@),
                None => None,
            },
            no_effect_class: self.no_effect_class,
            ambiguity_reason: self.ambiguity_reason,
            finished_at_ms: self.finished_at_ms,
        }
    }
}

/// The terminal columns of an attempt.
pub open spec fn terminal_row(attempt: ExternalAttemptId, next: AttemptView) -> TerminalView {
    TerminalView {
        external_attempt_id: attempt,
        state: attempt_effect_state_label(next.state),
        completion_ref: next.outcome,
        no_effect_class: match next.no_effect {
            Some(class) => Some(no_effect_label(class)),
            None => None,
        },
        ambiguity_reason: match next.ambiguity {
            Some(reason) => Some(effect_ambiguity_label(reason)),
            None => None,
        },
        finished_at_ms: next.finished_at,
    }
}

/// Builds an attempt's terminal columns.
pub fn write_terminal(attempt: ExternalAttemptId, next: &ExternalAttempt) -> (r: TerminalUpdate)
    ensures
        r@ == terminal_row(attempt, next@),
{
    TerminalUpdate {
        external_attempt_id: attempt,
        state: encode_attempt_effect_state(next.state),
        completion_ref: clone_token(&next.outcome),
        no_effect_class: match next.no_effect {
            Some(class) => Some(encode_no_effect(class)),
            None => None,
        },
        ambiguity_reason: match next.ambiguity {
            Some(reason) => Some(encode_effect_ambiguity(reason)),
            None => None,
        },
        finished_at_ms: next.finished_at,
    }
}

/// What recording an outcome commits, on values alone.
pub type OutcomeView = (Option<TerminalView>, ExternalAttemptState);

/// What recording an outcome answered, on values alone.
pub open spec fn outcome_view(
    r: Result<(Option<TerminalUpdate>, ExternalAttemptState), StoreError>,
) -> Result<OutcomeView, StoreError> {
    match r {
        Err(e) => Err(e),
        Ok((row, state)) => Ok(
            (
                match row {
                    Some(update) => Some(update@),
                    None => None,
                },
                state,
            ),
        ),
    }
}

impl RecordExternalOutcome {
    /// The transition asked of the attempt machine.
    pub open spec fn transition(self) -> AttemptEventView {
        match self.request.outcome {
            ExternalOutcome::Completed { evidence } => AttemptEventView::Completed {
                evidence: evidence.reference@,
                at: self.now,
            },
            ExternalOutcome::FailedBeforeEffect { proven } => {
                AttemptEventView::FailedBeforeEffect { proven, at: self.now }
            },
            ExternalOutcome::Ambiguous { reason } => {
                AttemptEventView::OutcomeUnknown { reason, at: self.now }
            },
        }
    }

    /// What the outcome commits: a terminal row and the next state, or the state as it stands.
    pub open spec fn committed(self, attempt: AttemptView, machine: EffectMachine) -> Result<
        OutcomeView,
        StoreError,
    > {
        chain(
            effected(machine, attempt, self.transition()),
            |applied: Applied<AttemptView>|
                Ok(
                    match applied {
                        Applied::Duplicate => (None, attempt.state),
                        Applied::Advanced(next) => (
                            Some(terminal_row(self.request.attempt, next)),
                            next.state,
                        ),
                    },
                ),
        )
    }

    /// Records what became of an attempt.
    pub fn commit<A: Fn(&ExternalAttempt, &ExternalAttemptEvent) -> AttemptReply>(
        &self,
        attempt: &ExternalAttempt,
        apply: &A,
    ) -> (r: Result<(Option<TerminalUpdate>, ExternalAttemptState), StoreError>)
        requires
            effects_total(*apply),
        ensures
            forall|machine: EffectMachine| #[trigger]
                effects_are(*apply, machine) ==> outcome_view(r) == self.committed(attempt@, machine),
    {
        let event = match &self.request.outcome {
            ExternalOutcome::Completed { evidence } => ExternalAttemptEvent::Completed {
                evidence: evidence.as_token().clone(),
                at: self.now,
            },
            ExternalOutcome::FailedBeforeEffect { proven } => {
                ExternalAttemptEvent::FailedBeforeEffect { proven: *proven, at: self.now }
            },
            ExternalOutcome::Ambiguous { reason } => {
                ExternalAttemptEvent::OutcomeUnknown { reason: *reason, at: self.now }
            },
        };
        match ask_effect(apply, attempt, &event)? {
            Applied::Duplicate => Ok((None, attempt.state)),
            Applied::Advanced(next) => Ok(
                (Some(write_terminal(self.request.attempt, &next)), next.state),
            ),
        }
    }
}

// --- Laws --------------------------------------------------------------------------------------------

/// A row that is read stands where it says it stands: a finished row never reads as a mere intent.
pub proof fn a_row_reads_as_the_state_it_stores(
    attempt: ExternalAttemptId,
    row: AttemptRow,
    machine: EffectMachine,
    rule: spec_fn(Seq<char>) -> bool,
)
    ensures
        attempt_of(attempt, row, machine, rule) matches Ok(read) ==> {
            &&& attempt_effect_state_named(row.state@) == Some(read.state)
            &&& row.finished_at_ms is Some ==> read.state != ExternalAttemptState::IntentRecorded
        },
{
}

/// An intent that was recorded reads back as that intent, whatever the machine: nothing was
/// dispatched and nothing is known.
pub proof fn a_recorded_intent_reads_back(
    attempt: ExternalAttemptId,
    class: EffectClassView,
    destination: DestinationView,
    source: SourceView,
    epoch: DaemonEpoch,
    at: Timestamp,
    row: AttemptRow,
    machine: EffectMachine,
    rule: spec_fn(Seq<char>) -> bool,
)
    requires
        class matches EffectClassView::IdempotentWrite { key, .. } ==> rule(key),
        rule(destination.0) && rule(destination.1) && rule(destination.2),
        rule(source.0) && rule(source.1) && rule(source.2),
        intent_row(attempt, class, destination, source, epoch, at) matches Ok(written) && {
            &&& (
                row.effect_class@,
                text_view(row.idempotency_contract),
                int_view(row.idempotency_window_ms),
                text_view(row.idempotency_key),
            ) == written.class
            &&& (
                row.destination_namespace@,
                row.destination_endpoint@,
                row.destination_fence@,
            ) == written.destination
            &&& (row.source_namespace@, row.source_event_id@, row.source_event_fence@)
                == written.source
            &&& row.daemon_epoch == written.daemon_epoch
            &&& row.state@ == written.state@
            &&& row.recorded_at_ms == written.recorded_at_ms
            &&& row.dispatched == 0
            &&& row.finished_at_ms is None
        },
    ensures
        attempt_of(attempt, row, machine, rule) == Ok::<AttemptView, StoreError>(
            AttemptView {
                id: attempt,
                class,
                destination,
                source,
                daemon_epoch: epoch,
                recorded_at: at,
                state: ExternalAttemptState::IntentRecorded,
                dispatched_at: None,
                finished_at: None,
                outcome: None,
                no_effect: None,
                ambiguity: None,
            },
        ),
{
    attempt_effect_state_round_trips(ExternalAttemptState::IntentRecorded);
    effect_class_round_trips(class, rule);
}

/// Whether two rows hold the same intent: every column the intent wrote is the same.
pub open spec fn same_intent(a: AttemptRow, b: AttemptRow) -> bool {
    &&& a.effect_class@ == b.effect_class@
    &&& text_view(a.idempotency_contract) == text_view(b.idempotency_contract)
    &&& a.idempotency_window_ms == b.idempotency_window_ms
    &&& text_view(a.idempotency_key) == text_view(b.idempotency_key)
    &&& a.destination_namespace@ == b.destination_namespace@
    &&& a.destination_endpoint@ == b.destination_endpoint@
    &&& a.destination_fence@ == b.destination_fence@
    &&& a.source_namespace@ == b.source_namespace@
    &&& a.source_event_id@ == b.source_event_id@
    &&& a.source_event_fence@ == b.source_event_fence@
    &&& a.daemon_epoch == b.daemon_epoch
    &&& a.recorded_at_ms == b.recorded_at_ms
}

/// Whether the terminal columns of a row are those an outcome overwrote.
pub open spec fn finished_as(row: AttemptRow, written: TerminalView) -> bool {
    &&& row.state@ == written.state@
    &&& text_view(row.completion_ref) == written.completion_ref
    &&& text_view(row.no_effect_class) == label_view(written.no_effect_class)
    &&& text_view(row.ambiguity_reason) == label_view(written.ambiguity_reason)
    &&& row.finished_at_ms == written.finished_at_ms
}

/// What the machine leaves when it takes an outcome: a state that says which outcome it was, its
/// instant, and its evidence.
pub open spec fn tells(next: AttemptView, event: AttemptEventView) -> bool {
    match event {
        AttemptEventView::CallDispatched { .. } => false,
        AttemptEventView::Completed { evidence, at } => {
            &&& next.state == ExternalAttemptState::Completed
            &&& next.outcome == Some(evidence)
            &&& next.finished_at == Some(at)
        },
        AttemptEventView::FailedBeforeEffect { proven, at } => {
            &&& next.state == ExternalAttemptState::FailedBeforeEffect
            &&& next.no_effect == Some(proven)
            &&& next.finished_at == Some(at)
        },
        AttemptEventView::OutcomeUnknown { reason, at } => {
            &&& next.state == ExternalAttemptState::Ambiguous
            &&& next.ambiguity == Some(reason)
            &&& next.finished_at == Some(at)
        },
    }
}

/// An outcome that was recorded reads back: an attempt that was unfinished, its row overwritten with
/// the terminal columns, folds to the attempt the machine left when it took the outcome.
pub proof fn a_recorded_outcome_reads_back(
    op: RecordExternalOutcome,
    before: AttemptRow,
    after: AttemptRow,
    attempt: AttemptView,
    next: AttemptView,
    machine: EffectMachine,
    rule: spec_fn(Seq<char>) -> bool,
)
    requires
        attempt_of(op.request.attempt, before, machine, rule) == Ok::<AttemptView, StoreError>(attempt),
        before.finished_at_ms is None,
        machine(attempt, op.transition()) == Ok::<Applied<AttemptView>, Conflict>(
            Applied::Advanced(next),
        ),
        tells(next, op.transition()),
        op.request.outcome matches ExternalOutcome::Completed { evidence } ==> rule(
            evidence.reference@,
        ),
        same_intent(before, after),
        after.dispatched == before.dispatched,
        after.dispatched_at_ms == before.dispatched_at_ms,
        op.committed(attempt, machine) matches Ok((Some(written), _)) && finished_as(after, written),
    ensures
        attempt_of(op.request.attempt, after, machine, rule) == Ok::<AttemptView, StoreError>(next),
{
    attempt_effect_state_round_trips(next.state);
    assert(intent_of(op.request.attempt, after, rule) == intent_of(op.request.attempt, before, rule));
    match op.request.outcome {
        ExternalOutcome::Completed { evidence } => {},
        ExternalOutcome::FailedBeforeEffect { proven } => {
            no_effect_round_trips(proven);
        },
        ExternalOutcome::Ambiguous { reason } => {
            effect_ambiguity_round_trips(reason);
        },
    }
}

} // verus!
