//! The durable write operations, one module per transaction boundary.
//!
//! Each operation is split the same way: identities and the instant are gathered before the
//! transaction begins; inside it, what was read is compared and turned into one event and the rows
//! that follow from it; and a source identity that is already in the ledger writes nothing.
pub mod attention_laws;
pub mod bootstrap;
pub mod claim;
pub mod claim_laws;
pub mod decide;
pub mod delivery;
pub mod delivery_laws;
pub mod effect;
pub mod effect_laws;
pub mod health;
pub mod journal_laws;
pub mod lease;
pub mod mutation;
pub mod opening_laws;
pub mod pass;
pub mod recovery;
pub mod replayed;
pub mod session;
pub mod session_laws;
pub mod work_laws;
pub mod worker;

use vstd::prelude::*;
use crate::domain::conflict::Conflict;
use crate::domain::fence::{
    rule_is, rule_total, EventSeq, SafeToken, SourceRef, SourceView, Timestamp,
};
use crate::domain::id::{canonical_text, id_text, ClaimId, EventId, Id, ObligationId, ResultArtifactId};
use crate::domain::obligation::{
    applied_view, machine_is, machine_total, Applied, Disposition, Obligation, ObligationEvent,
    ObligationEventView, ObligationMachine, ObligationReply, ObligationView,
};
use crate::store::codec::{parse_source, source_columns, source_view, store_u64, stored_u64};
use crate::store::error::{chain, StoreError};
use crate::store::event::{store_seq, stored_seq, EventScope, EventView, NewEvent};
use crate::store::event_kind::EventKind;
use crate::store::grammar::MetaFields;
use crate::store::labels::{
    actor_class_label, disposition_label, encode_actor_class, encode_disposition,
    encode_obligation_state, obligation_state_label, ActorClass,
};
use crate::store::safe_metadata::SafeMetadata;
use crate::text::{join3, nat_string, nat_text};

verus! {

/// Bounded completion evidence for a generic external attempt: one opaque reference the
/// destination handed back.
#[derive(Debug, PartialEq, Eq)]
pub struct AttemptEvidence {
    /// The reference.
    pub reference: SafeToken,
}

impl AttemptEvidence {
    /// Records the opaque reference the destination returned.
    pub fn new(reference: SafeToken) -> (r: AttemptEvidence)
        ensures
            r.reference == reference,
    {
        AttemptEvidence { reference }
    }

    /// The reference, for persistence and diagnostics.
    pub fn as_token(&self) -> (r: &SafeToken)
        ensures
            *r == self.reference,
    {
        &self.reference
    }
}

/// Namespace for source identities the store mints for its own facts.
pub const INTERNAL_NAMESPACE: &'static str = "cg.internal";

/// Namespace for source identities startup recovery mints.
pub const RECOVERY_NAMESPACE: &'static str = "cg.recovery";

/// The source identity of an internal fact about a subject.
pub open spec fn internal_fact(subject: Seq<char>, label: Seq<char>, rule: spec_fn(Seq<char>) -> bool) -> Result<
    SourceView,
    StoreError,
> {
    source_columns(INTERNAL_NAMESPACE@, subject, label, rule)
}

/// Builds the source identity for an internal fact about a subject that is already rendered.
///
/// Deterministic in subject and label, so a repeated internal write converges on the ledger row
/// that is already there.
pub fn internal_source_text<S: Fn(&str) -> bool>(subject: &str, label: &str, safe: &S) -> (r: Result<
    SourceRef,
    StoreError,
>)
    requires
        rule_total(*safe),
    ensures
        forall|rule: spec_fn(Seq<char>) -> bool| #[trigger]
            rule_is(*safe, rule) ==> source_view(r) == internal_fact(subject@, label@, rule),
{
    parse_source(INTERNAL_NAMESPACE, subject, label, safe)
}

/// Builds the source identity for an internal fact about `subject`.
pub fn internal_source<S: Fn(&str) -> bool>(subject: Id, label: &str, safe: &S) -> (r: Result<
    SourceRef,
    StoreError,
>)
    requires
        rule_total(*safe),
    ensures
        forall|rule: spec_fn(Seq<char>) -> bool| #[trigger]
            rule_is(*safe, rule) ==> source_view(r) == internal_fact(
                canonical_text(subject.value),
                label@,
                rule,
            ),
{
    let text = id_text(subject);
    internal_source_text(text.as_str(), label, safe)
}

/// The source identity of a recovery finding about a subject: its fence names the daemon epoch.
pub open spec fn recovery_fact(
    subject: Id,
    label: Seq<char>,
    epoch: u64,
    rule: spec_fn(Seq<char>) -> bool,
) -> Result<SourceView, StoreError> {
    source_columns(
        RECOVERY_NAMESPACE@,
        canonical_text(subject.value),
        label + "."@ + nat_text(epoch as nat),
        rule,
    )
}

/// Builds the source identity for a recovery finding about `subject`.
///
/// The fence is the daemon epoch, so recovery repeated within one epoch converges while a new
/// lifetime records a new finding.
pub fn recovery_source<S: Fn(&str) -> bool>(subject: Id, label: &str, epoch: u64, safe: &S) -> (r: Result<
    SourceRef,
    StoreError,
>)
    requires
        rule_total(*safe),
    ensures
        forall|rule: spec_fn(Seq<char>) -> bool| #[trigger]
            rule_is(*safe, rule) ==> source_view(r) == recovery_fact(subject, label@, epoch, rule),
{
    let text = id_text(subject);
    let number = nat_string(epoch);
    let fence = join3(label, ".", number.as_str());
    parse_source(RECOVERY_NAMESPACE, text.as_str(), fence.as_str(), safe)
}

/// An event that was built, on values alone, or the failure.
pub open spec fn event_view(r: Result<NewEvent, StoreError>) -> Result<EventView, StoreError> {
    match r {
        Ok(event) => Ok(event@),
        Err(e) => Err(e),
    }
}

/// An event that is about to be appended, on values alone.
pub open spec fn event_of(
    event_id: EventId,
    kind: EventKind,
    source: SourceView,
    now: Timestamp,
    scope: EventScope,
    metadata: MetaFields,
) -> EventView {
    EventView { event_id, kind, source, observed_at: now, occurred_at: None, scope, metadata }
}

/// An event that is about to be appended.
pub fn new_event(
    event_id: EventId,
    kind: EventKind,
    source: SourceRef,
    now: Timestamp,
    scope: EventScope,
    metadata: SafeMetadata,
) -> (r: NewEvent)
    ensures
        r@ == event_of(event_id, kind, source@, now, scope, metadata@),
{
    NewEvent { event_id, kind, source, observed_at: now, occurred_at: None, scope, metadata }
}

/// What the obligation machine answers, a refusal being a store failure.
pub open spec fn asked(
    machine: ObligationMachine,
    obligation: ObligationView,
    event: ObligationEventView,
) -> Result<Applied<ObligationView>, StoreError> {
    match machine(obligation, event) {
        Ok(applied) => Ok(applied),
        Err(conflict) => Err(StoreError::Conflict(conflict)),
    }
}

/// An answer of the obligation machine on values alone.
pub open spec fn asked_view(r: Result<Applied<Obligation>, StoreError>) -> Result<
    Applied<ObligationView>,
    StoreError,
> {
    match r {
        Ok(applied) => Ok(applied_view(applied)),
        Err(e) => Err(e),
    }
}

/// Asks the obligation machine.
pub fn ask<A: Fn(&Obligation, &ObligationEvent) -> ObligationReply>(
    apply: &A,
    obligation: &Obligation,
    event: &ObligationEvent,
) -> (r: Result<Applied<Obligation>, StoreError>)
    requires
        machine_total(*apply),
    ensures
        forall|machine: ObligationMachine| #[trigger]
            machine_is(*apply, machine) ==> asked_view(r) == asked(machine, obligation@, event@),
{
    match apply(obligation, event) {
        Ok(applied) => Ok(applied),
        Err(conflict) => Err(StoreError::Conflict(conflict)),
    }
}

/// A gate's answer, a refusal being a store failure.
pub open spec fn gated(answer: Result<(), Conflict>) -> Result<(), StoreError> {
    match answer {
        Ok(()) => Ok(()),
        Err(conflict) => Err(StoreError::Conflict(conflict)),
    }
}

/// Turns a gate's refusal into a store failure.
pub fn gate(answer: Result<(), Conflict>) -> (r: Result<(), StoreError>)
    ensures
        r == gated(answer),
{
    match answer {
        Ok(()) => Ok(()),
        Err(conflict) => Err(StoreError::Conflict(conflict)),
    }
}

/// What an operation leaves behind: the rows to write, if any, and what it answers.
#[derive(Debug, PartialEq, Eq)]
pub struct Committed<R, O> {
    /// The projection rows; nothing where nothing may change.
    pub rows: Option<R>,
    /// What the caller is told.
    pub output: O,
}

// --- The materialised copy of an obligation transition -------------------------------------------

/// What an `obligations` row is overwritten with.
#[derive(Debug, Clone, Copy, PartialEq, Eq)]
pub struct ObligationUpdate {
    pub obligation_id: ObligationId,
    pub state: &'static str,
    pub current_version: i64,
    pub current_binding_generation: Option<i64>,
    pub current_claim_id: Option<ClaimId>,
    pub result_artifact_id: Option<ResultArtifactId>,
    pub input_request_id: Option<Id>,
    pub incarnation_generation: i64,
    pub source_event_seq: i64,
    pub latest_event_seq: i64,
    /// Recorded only where the row has no closing event yet.
    pub closed_event_seq: Option<i64>,
}

/// One immutable `obligation_events` row.
#[derive(Debug, Clone, Copy, PartialEq, Eq)]
pub struct ObligationEventRow {
    pub obligation_id: ObligationId,
    pub obligation_version: i64,
    pub event_seq: i64,
    pub from_state: Option<&'static str>,
    pub to_state: &'static str,
    pub disposition: Option<&'static str>,
    pub actor_class: &'static str,
    pub binding_generation: Option<i64>,
    pub claim_id: Option<ClaimId>,
}

/// The rows of one obligation transition, always written together.
#[derive(Debug, Clone, Copy, PartialEq, Eq)]
pub struct TransitionRows {
    pub obligation: ObligationUpdate,
    pub event: ObligationEventRow,
    /// The artifact whose retention has to be recomputed.
    pub retention: Option<ResultArtifactId>,
}

/// What storing an optional counter gives.
pub open spec fn stored_optional_u64(
    value: Option<u64>,
    table: &'static str,
    column: &'static str,
) -> Result<Option<i64>, StoreError> {
    match value {
        None => Ok(None),
        Some(inner) => chain(stored_u64(inner, table, column), |stored: i64| Ok(Some(stored))),
    }
}

/// Widens an optional counter for storage.
pub fn store_optional_u64(value: Option<u64>, table: &'static str, column: &'static str) -> (r: Result<
    Option<i64>,
    StoreError,
>)
    ensures
        r == stored_optional_u64(value, table, column),
{
    match value {
        None => Ok(None),
        Some(inner) => Ok(Some(store_u64(inner, table, column)?)),
    }
}

/// The label of an optional disposition.
pub open spec fn optional_disposition_label(disposition: Option<Disposition>) -> Option<&'static str> {
    match disposition {
        Some(value) => Some(disposition_label(value)),
        None => None,
    }
}

/// The rows of the transition from `before` to `after`. Every field comes from `after`.
pub open spec fn transition_rows(
    before: ObligationView,
    after: ObligationView,
    seq: EventSeq,
    source_event_seq: EventSeq,
    actor: ActorClass,
    disposition: Option<Disposition>,
) -> Result<TransitionRows, StoreError> {
    let t = "obligations";
    chain(
        stored_seq(seq),
        |at: i64|
            chain(
                stored_u64(after.version, t, "current_version"),
                |version: i64|
                    chain(
                        stored_optional_u64(
                            after.binding_generation,
                            t,
                            "current_binding_generation",
                        ),
                        |generation: Option<i64>|
                            chain(
                                stored_u64(after.incarnation, t, "incarnation_generation"),
                                |incarnation: i64|
                                    chain(
                                        stored_seq(source_event_seq),
                                        |source_at: i64|
                                            Ok(
                                                TransitionRows {
                                                    obligation: ObligationUpdate {
                                                        obligation_id: after.id,
                                                        state: obligation_state_label(after.state),
                                                        current_version: version,
                                                        current_binding_generation: generation,
                                                        current_claim_id: after.claim,
                                                        result_artifact_id: after.result_artifact,
                                                        input_request_id: after.input_request,
                                                        incarnation_generation: incarnation,
                                                        source_event_seq: source_at,
                                                        latest_event_seq: at,
                                                        closed_event_seq: if after.state.closed() {
                                                            Some(at)
                                                        } else {
                                                            None
                                                        },
                                                    },
                                                    event: ObligationEventRow {
                                                        obligation_id: after.id,
                                                        obligation_version: version,
                                                        event_seq: at,
                                                        from_state: Some(
                                                            obligation_state_label(before.state),
                                                        ),
                                                        to_state: obligation_state_label(after.state),
                                                        disposition: optional_disposition_label(
                                                            disposition,
                                                        ),
                                                        actor_class: actor_class_label(actor),
                                                        binding_generation: generation,
                                                        claim_id: after.claim,
                                                    },
                                                    retention: after.result_artifact,
                                                },
                                            ),
                                    ),
                            ),
                    ),
            ),
    )
}

/// Builds the materialised copy of an obligation transition.
pub fn record_obligation_transition(
    before: &Obligation,
    after: &Obligation,
    seq: EventSeq,
    source_event_seq: EventSeq,
    actor: ActorClass,
    disposition: Option<Disposition>,
) -> (r: Result<TransitionRows, StoreError>)
    ensures
        r == transition_rows(before@, after@, seq, source_event_seq, actor, disposition),
{
    let t = "obligations";
    let at: i64 = store_seq(seq)?;
    let version: i64 = store_u64(after.version, t, "current_version")?;
    let generation = store_optional_u64(after.binding_generation, t, "current_binding_generation")?;
    let incarnation: i64 = store_u64(after.incarnation, t, "incarnation_generation")?;
    let source_at: i64 = store_seq(source_event_seq)?;
    Ok(
        TransitionRows {
            obligation: ObligationUpdate {
                obligation_id: after.id,
                state: encode_obligation_state(after.state),
                current_version: version,
                current_binding_generation: generation,
                current_claim_id: after.claim,
                result_artifact_id: after.result_artifact,
                input_request_id: after.input_request,
                incarnation_generation: incarnation,
                source_event_seq: source_at,
                latest_event_seq: at,
                closed_event_seq: if after.state.is_closed() {
                    Some(at)
                } else {
                    None
                },
            },
            event: ObligationEventRow {
                obligation_id: after.id,
                obligation_version: version,
                event_seq: at,
                from_state: Some(encode_obligation_state(before.state)),
                to_state: encode_obligation_state(after.state),
                disposition: match disposition {
                    Some(value) => Some(encode_disposition(value)),
                    None => None,
                },
                actor_class: encode_actor_class(actor),
                binding_generation: generation,
                claim_id: after.claim,
            },
            retention: after.result_artifact,
        },
    )
}

/// The two rows of a transition agree: same obligation, version, state, claim and event; a closing
/// event is recorded exactly when the new state is closed; and the artifact the obligation
/// references has its retention recomputed.
pub proof fn transition_rows_agree(
    before: ObligationView,
    after: ObligationView,
    seq: EventSeq,
    source_event_seq: EventSeq,
    actor: ActorClass,
    disposition: Option<Disposition>,
)
    ensures
        transition_rows(before, after, seq, source_event_seq, actor, disposition) matches Ok(rows) ==> {
            &&& rows.obligation.obligation_id == after.id
            &&& rows.event.obligation_id == after.id
            &&& rows.obligation.current_version == rows.event.obligation_version == after.version
            &&& rows.obligation.state == rows.event.to_state
            &&& rows.obligation.current_claim_id == rows.event.claim_id
            &&& rows.obligation.latest_event_seq == rows.event.event_seq == seq
            &&& (rows.obligation.closed_event_seq is Some <==> after.state.closed())
            &&& rows.retention == rows.obligation.result_artifact_id
        },
{
}

} // verus!
