//! Rebuilding a wake revision from its row and its attempt events.
use vstd::prelude::*;
use crate::domain::conflict::Conflict;
use crate::domain::delivery::{
    AcceptedWakeEvidence, BrowserWake, Delivery, DeliveryEvent, DeliveryEventView, DeliveryReply,
    DeliveryView, WakeModel, WakeRules, WakeTarget, WakeView,
};
use crate::domain::fence::{
    rule_is, rule_total, BindingGeneration, DeliveryRevision, EventSeq, SafeToken, SourceView,
};
use crate::domain::id::ObligationId;
use crate::domain::obligation::{or_unchanged, settled};
use crate::store::codec::{
    id_column, parse_id, parse_source, parse_token, parse_u32, parse_u64, rederive_delivery_key,
    source_columns, text_view, token_column, u32_column, u64_column,
};
use crate::store::error::{chain, corrupt, corrupt_row, present, CorruptReason, StoreError};
use crate::store::event::{parse_seq, LedgerEvent, LedgerView};
use crate::store::event_kind::EventKind;
use crate::store::labels::{ambiguity_named, decode_ambiguity, decode_failure_class, failure_class_named};
use crate::store::load::obligation::ledger_view;
use crate::store::safe_metadata::{text_field, u32_field};

verus! {

/// Whether an event kind belongs to the attempt machine of a wake.
pub open spec fn is_delivery_kind(kind: EventKind) -> bool {
    kind is BrowserDeliveryAttemptClaimed || kind is BrowserDeliveryActivationArmed
        || kind is BrowserDeliveryAccepted || kind is BrowserDeliveryFailed
        || kind is BrowserDeliveryAmbiguous || kind is BrowserDeliveryOrphanQuarantined
        || kind is BrowserDeliveryReconciled
}

/// The exact evidence an acceptance stands on: the bound conversation, and the recorded message.
pub open spec fn recorded_evidence(
    conversation: Seq<char>,
    message: Option<Seq<char>>,
    rule: spec_fn(Seq<char>) -> bool,
) -> Result<(Seq<char>, Seq<char>), StoreError> {
    chain(
        present(message, corrupt("browser_deliveries", "accepted_message_ref", CorruptReason::DanglingReference)),
        |text: Seq<char>|
            chain(
                token_column(text, "browser_deliveries", "accepted_message_ref", rule),
                |token: Seq<char>| Ok((conversation, token)),
            ),
    )
}

/// The attempt transition a ledger event recorded for one revision, or nothing.
pub open spec fn attempt_transition(
    event: LedgerView,
    revision: DeliveryRevision,
    conversation: Seq<char>,
    message: Option<Seq<char>>,
    rule: spec_fn(Seq<char>) -> bool,
) -> Result<Option<DeliveryEventView>, StoreError> {
    let fs = event.metadata;
    let at = event.observed_at;
    let no_message = message is None && (event.kind is BrowserDeliveryAccepted);
    if !is_delivery_kind(event.kind) {
        Ok(None)
    } else {
        chain(
            u32_field(fs, "revision"@),
            |found: u32|
                if found != revision {
                    Ok(None)
                } else if no_message {
                    Err(
                        corrupt(
                            "browser_deliveries",
                            "accepted_message_ref",
                            CorruptReason::DanglingReference,
                        ),
                    )
                } else {
                    match event.kind {
                        EventKind::BrowserDeliveryAttemptClaimed => Ok(
                            Some(DeliveryEventView::AttemptClaimed { at }),
                        ),
                        EventKind::BrowserDeliveryActivationArmed => chain(
                            u32_field(fs, "attempt_no"@),
                            |attempt: u32|
                                Ok(Some(DeliveryEventView::ActivationArmed { attempt, at })),
                        ),
                        EventKind::BrowserDeliveryAccepted => chain(
                            u32_field(fs, "attempt_no"@),
                            |attempt: u32|
                                chain(
                                    recorded_evidence(conversation, message, rule),
                                    |evidence: (Seq<char>, Seq<char>)|
                                        Ok(
                                            Some(
                                                DeliveryEventView::AttemptAccepted {
                                                    attempt,
                                                    evidence,
                                                    at,
                                                },
                                            ),
                                        ),
                                ),
                        ),
                        EventKind::BrowserDeliveryFailed => chain(
                            u32_field(fs, "attempt_no"@),
                            |attempt: u32|
                                chain(
                                    text_field(fs, "failure_class"@),
                                    |label: Seq<char>|
                                        match failure_class_named(label) {
                                            Some(failure) => Ok(
                                                Some(
                                                    DeliveryEventView::AttemptFailed {
                                                        attempt,
                                                        failure,
                                                        at,
                                                    },
                                                ),
                                            ),
                                            None => Err(
                                                corrupt(
                                                    "delivery_attempts",
                                                    "failure_class",
                                                    CorruptReason::UnknownLabel,
                                                ),
                                            ),
                                        },
                                ),
                        ),
                        EventKind::BrowserDeliveryAmbiguous => chain(
                            u32_field(fs, "attempt_no"@),
                            |attempt: u32|
                                chain(
                                    text_field(fs, "evidence_class"@),
                                    |label: Seq<char>|
                                        match ambiguity_named(label) {
                                            Some(reason) => Ok(
                                                Some(
                                                    DeliveryEventView::AttemptAmbiguous {
                                                        attempt,
                                                        reason,
                                                        at,
                                                    },
                                                ),
                                            ),
                                            None => Err(
                                                corrupt(
                                                    "delivery_attempts",
                                                    "evidence_class",
                                                    CorruptReason::UnknownLabel,
                                                ),
                                            ),
                                        },
                                ),
                        ),
                        EventKind::BrowserDeliveryOrphanQuarantined => Ok(
                            Some(DeliveryEventView::OrphanQuarantined { at }),
                        ),
                        _ => chain(
                            recorded_evidence(conversation, message, rule),
                            |evidence: (Seq<char>, Seq<char>)|
                                Ok(Some(DeliveryEventView::ReconciledAccepted { evidence, at })),
                        ),
                    }
                },
        )
    }
}

/// An optional attempt transition on values alone, or the failure.
pub open spec fn attempt_transition_view(
    r: Result<Option<DeliveryEvent>, StoreError>,
) -> Result<Option<DeliveryEventView>, StoreError> {
    match r {
        Ok(Some(event)) => Ok(Some(event@)),
        Ok(None) => Ok(None),
        Err(e) => Err(e),
    }
}

fn wake_evidence<S: Fn(&str) -> bool>(
    conversation: &SafeToken,
    message: &Option<String>,
    safe: &S,
) -> (r: Result<AcceptedWakeEvidence, StoreError>)
    requires
        rule_total(*safe),
    ensures
        forall|rule: spec_fn(Seq<char>) -> bool| #[trigger]
            rule_is(*safe, rule) ==> (match r {
                Ok(evidence) => recorded_evidence(conversation@, text_view(*message), rule) == Ok::<
                    (Seq<char>, Seq<char>),
                    StoreError,
                >(evidence@),
                Err(e) => recorded_evidence(conversation@, text_view(*message), rule) == Err::<
                    (Seq<char>, Seq<char>),
                    StoreError,
                >(e),
            }),
{
    match message {
        None => Err(corrupt_row("browser_deliveries", "accepted_message_ref", CorruptReason::DanglingReference)),
        Some(text) => {
            let message = parse_token(text.as_str(), "browser_deliveries", "accepted_message_ref", safe)?;
            Ok(AcceptedWakeEvidence { conversation: conversation.clone(), message })
        },
    }
}

/// Translates one ledger event into the attempt transition it recorded for one revision.
///
/// The conversation half of an acceptance is the delivery's bound one, never the recorder's to
/// assert.
pub fn delivery_event<S: Fn(&str) -> bool>(
    event: &LedgerEvent,
    revision: DeliveryRevision,
    conversation: &SafeToken,
    accepted_message: &Option<String>,
    safe: &S,
) -> (r: Result<Option<DeliveryEvent>, StoreError>)
    requires
        rule_total(*safe),
    ensures
        forall|rule: spec_fn(Seq<char>) -> bool| #[trigger]
            rule_is(*safe, rule) ==> attempt_transition_view(r) == attempt_transition(
                event@,
                revision,
                conversation@,
                text_view(*accepted_message),
                rule,
            ),
{
    let fields = &event.metadata;
    let at: i64 = event.observed_at;
    let is_delivery: bool = match event.kind {
        EventKind::BrowserDeliveryAttemptClaimed => true,
        EventKind::BrowserDeliveryActivationArmed => true,
        EventKind::BrowserDeliveryAccepted => true,
        EventKind::BrowserDeliveryFailed => true,
        EventKind::BrowserDeliveryAmbiguous => true,
        EventKind::BrowserDeliveryOrphanQuarantined => true,
        EventKind::BrowserDeliveryReconciled => true,
        _ => false,
    };
    if !is_delivery {
        return Ok(None);
    }
    let found: u32 = fields.u32("revision")?;
    if found != revision {
        return Ok(None);
    }
    let translated = match event.kind {
        EventKind::BrowserDeliveryAttemptClaimed => DeliveryEvent::AttemptClaimed { at },
        EventKind::BrowserDeliveryActivationArmed => {
            let attempt: u32 = fields.u32("attempt_no")?;
            DeliveryEvent::ActivationArmed { attempt, at }
        },
        EventKind::BrowserDeliveryAccepted => {
            if accepted_message.is_none() {
                return Err(
                    corrupt_row("browser_deliveries", "accepted_message_ref", CorruptReason::DanglingReference),
                );
            }
            let attempt: u32 = fields.u32("attempt_no")?;
            let evidence = wake_evidence(conversation, accepted_message, safe)?;
            DeliveryEvent::AttemptAccepted { attempt, evidence, at }
        },
        EventKind::BrowserDeliveryFailed => {
            let attempt: u32 = fields.u32("attempt_no")?;
            let failure = decode_failure_class(fields.label("failure_class")?, "delivery_attempts")?;
            DeliveryEvent::AttemptFailed { attempt, failure, at }
        },
        EventKind::BrowserDeliveryAmbiguous => {
            let attempt: u32 = fields.u32("attempt_no")?;
            let reason = decode_ambiguity(fields.label("evidence_class")?, "delivery_attempts")?;
            DeliveryEvent::AttemptAmbiguous { attempt, reason, at }
        },
        EventKind::BrowserDeliveryOrphanQuarantined => DeliveryEvent::OrphanQuarantined { at },
        _ => {
            let evidence = wake_evidence(conversation, accepted_message, safe)?;
            DeliveryEvent::ReconciledAccepted { evidence, at }
        },
    };
    Ok(Some(translated))
}

/// One revision's attempt machine folded from a ledger slice, or why it does not fold.
pub open spec fn attempts_folded(
    pending: DeliveryView,
    events: Seq<LedgerView>,
    revision: DeliveryRevision,
    conversation: Seq<char>,
    message: Option<Seq<char>>,
    model: WakeModel,
) -> Result<DeliveryView, StoreError>
    decreases events.len(),
{
    if events.len() == 0 {
        Ok(pending)
    } else {
        match attempts_folded(pending, events.drop_last(), revision, conversation, message, model) {
            Err(e) => Err(e),
            Ok(state) => match attempt_transition(events.last(), revision, conversation, message, model.rule) {
                Err(e) => Err(e),
                Ok(None) => Ok(state),
                Ok(Some(domain)) => match (model.apply)(state, domain) {
                    Err(conflict) => Err(StoreError::Conflict(conflict)),
                    Ok(applied) => Ok(settled(applied, state)),
                },
            },
        }
    }
}

proof fn attempts_fault_stays(
    pending: DeliveryView,
    events: Seq<LedgerView>,
    revision: DeliveryRevision,
    conversation: Seq<char>,
    message: Option<Seq<char>>,
    model: WakeModel,
    n: int,
)
    requires
        0 <= n <= events.len(),
        attempts_folded(pending, events.take(n), revision, conversation, message, model) is Err,
    ensures
        attempts_folded(pending, events, revision, conversation, message, model) == attempts_folded(
            pending,
            events.take(n),
            revision,
            conversation,
            message,
            model,
        ),
    decreases events.len() - n,
{
    if n < events.len() {
        assert(events.take(n + 1).drop_last() =~= events.take(n));
        attempts_fault_stays(pending, events, revision, conversation, message, model, n + 1);
    } else {
        assert(events.take(n) =~= events);
    }
}

/// An attempt machine on values alone, or the failure.
pub open spec fn attempts_view(r: Result<Delivery, StoreError>) -> Result<DeliveryView, StoreError> {
    match r {
        Ok(delivery) => Ok(delivery@),
        Err(e) => Err(e),
    }
}

/// Folds one revision's attempt machine from the obligation's ledger slice.
pub fn fold_delivery<
    A: Fn(&Delivery, &DeliveryEvent) -> DeliveryReply,
    P: Fn(u32) -> Delivery,
    K: Fn(ObligationId, BindingGeneration, DeliveryRevision) -> String,
    I: Fn(&str) -> bool,
    H: Fn(&BrowserWake) -> bool,
    S: Fn(&str) -> bool,
>(
    events: &[LedgerEvent],
    revision: DeliveryRevision,
    attempt_budget: u32,
    conversation: &SafeToken,
    accepted_message: &Option<String>,
    rules: &WakeRules<A, P, K, I, H, S>,
) -> (r: Result<Delivery, StoreError>)
    requires
        rules.total(),
    ensures
        forall|model: WakeModel| #[trigger]
            rules.follows(model) ==> attempts_view(r) == attempts_folded(
                (model.pending)(attempt_budget),
                ledger_view(events@),
                revision,
                conversation@,
                text_view(*accepted_message),
                model,
            ),
{
    let ghost all = ledger_view(events@);
    let ghost message = text_view(*accepted_message);
    let mut delivery = (rules.pending)(attempt_budget);
    let ghost start = delivery@;
    let mut i: usize = 0;
    while i < events.len()
        invariant
            i <= events@.len(),
            rules.total(),
            all == ledger_view(events@),
            message == text_view(*accepted_message),
            forall|model: WakeModel| #[trigger] rules.follows(model) ==> start == (model.pending)(attempt_budget),
            forall|model: WakeModel| #[trigger]
                rules.follows(model) ==> attempts_folded(
                    start,
                    all.take(i as int),
                    revision,
                    conversation@,
                    message,
                    model,
                ) == Ok::<DeliveryView, StoreError>(delivery@),
        decreases events@.len() - i,
    {
        let event = &events[i];
        proof {
            assert(all[i as int] == event@);
            assert(all.take(i + 1).drop_last() =~= all.take(i as int));
            assert(all.take(i + 1).last() == event@);
            assert forall|model: WakeModel|
                attempts_folded(start, all.take(i + 1), revision, conversation@, message, model) is Err implies
                #[trigger] attempts_folded(start, all, revision, conversation@, message, model)
                == attempts_folded(start, all.take(i + 1), revision, conversation@, message, model) by {
                attempts_fault_stays(start, all, revision, conversation@, message, model, i + 1);
            }
        }
        match delivery_event(event, revision, conversation, accepted_message, &rules.safe)? {
            None => {},
            Some(domain) => {
                let reply = (rules.apply)(&delivery, &domain);
                match reply {
                    Err(conflict) => return Err(StoreError::Conflict(conflict)),
                    Ok(applied) => {
                        delivery = or_unchanged(applied, delivery);
                    },
                }
            },
        }
        i = i + 1;
    }
    proof {
        assert(all.take(i as int) =~= all);
    }
    Ok(delivery)
}

/// The `browser_deliveries` columns one wake is rebuilt from.
#[derive(Debug, PartialEq, Eq)]
pub struct WakeRow {
    pub delivery_key: String,
    pub obligation_id: String,
    pub target_obligation_version: i64,
    pub target_source_event_seq: i64,
    pub foreman_binding_id: String,
    pub binding_generation: i64,
    pub delivery_revision: i64,
    pub attempt_budget: i64,
    pub accepted_message_ref: Option<String>,
}

/// The source identity columns of an `events` row, as read.
#[derive(Debug, PartialEq, Eq)]
pub struct SourceRow {
    pub namespace: String,
    pub event: String,
    pub fence: String,
}

/// A wake revision, folded from its row plus its attempt events.
#[derive(Debug, PartialEq, Eq)]
pub struct LoadedWake {
    pub wake: BrowserWake,
    /// Sequence of the event that established the wake's target snapshot.
    pub target_source_event_seq: EventSeq,
}

/// The source identity a wake's target event carries.
pub open spec fn target_source(
    row: Option<SourceRow>,
    rule: spec_fn(Seq<char>) -> bool,
) -> Result<SourceView, StoreError> {
    match row {
        None => Err(corrupt("events", "seq", CorruptReason::DanglingReference)),
        Some(row) => source_columns(row.namespace@, row.event@, row.fence@, rule),
    }
}

/// The conversation a wake's binding names.
pub open spec fn bound_conversation(
    text: Option<Seq<char>>,
    rule: spec_fn(Seq<char>) -> bool,
) -> Result<Seq<char>, StoreError> {
    match text {
        None => Err(corrupt("foreman_bindings", "foreman_binding_id", CorruptReason::DanglingReference)),
        Some(text) => token_column(text, "foreman_bindings", "canonical_conversation_id", rule),
    }
}

/// What a wake row and what it refers to say, once everything they name decodes.
pub open spec fn wake_assembled(
    delivery_hex: Seq<char>,
    row: WakeRow,
    source: SourceView,
    delivery: DeliveryView,
    obligation: ObligationId,
    generation: BindingGeneration,
    revision: DeliveryRevision,
    model: WakeModel,
) -> Result<WakeView, StoreError> {
    let key = (model.derive)(obligation, generation, revision);
    if !(model.known_id)(delivery_hex) {
        Err(corrupt("browser_deliveries", "delivery_id", CorruptReason::MalformedIdentity))
    } else if row.delivery_key@ != key {
        Err(corrupt("browser_deliveries", "delivery_key", CorruptReason::MalformedIdentity))
    } else {
        chain(
            u64_column(row.target_obligation_version, "browser_deliveries", "target_obligation_version"),
            |version: u64|
                chain(
                    id_column(row.foreman_binding_id@, "browser_deliveries", "foreman_binding_id"),
                    |binding: crate::domain::id::Id|
                        {
                            let wake = WakeView {
                                delivery_hex,
                                key_hex: key,
                                obligation,
                                version,
                                source,
                                binding,
                                binding_generation: generation,
                                revision,
                                delivery,
                            };
                            if (model.rehydrates)(wake) {
                                Ok(wake)
                            } else {
                                Err(
                                    corrupt(
                                        "browser_deliveries",
                                        "delivery_key",
                                        CorruptReason::MalformedIdentity,
                                    ),
                                )
                            }
                        },
                ),
        )
    }
}

/// A wake rebuilt from its row, the row's target event, its binding's conversation and the
/// obligation's slice.
pub open spec fn wake_of(
    delivery_hex: Seq<char>,
    row: Option<WakeRow>,
    source_row: Option<SourceRow>,
    conversation: Option<Seq<char>>,
    events: Seq<LedgerView>,
    model: WakeModel,
) -> Result<(WakeView, EventSeq), StoreError> {
    match row {
        None => Err(corrupt("browser_deliveries", "delivery_id", CorruptReason::DanglingReference)),
        Some(row) => chain(
            id_column(row.obligation_id@, "browser_deliveries", "obligation_id"),
            |obligation: crate::domain::id::Id|
                chain(
                    u64_column(row.binding_generation, "browser_deliveries", "binding_generation"),
                    |generation: u64|
                        chain(
                            u32_column(row.delivery_revision, "browser_deliveries", "delivery_revision"),
                            |revision: u32|
                                chain(
                                    u64_column(
                                        row.target_source_event_seq,
                                        "browser_deliveries",
                                        "target_source_event_seq",
                                    ),
                                    |seq: u64|
                                        chain(
                                            target_source(source_row, model.rule),
                                            |source: SourceView|
                                                chain(
                                                    bound_conversation(conversation, model.rule),
                                                    |conversation: Seq<char>|
                                                        chain(
                                                            u32_column(
                                                                row.attempt_budget,
                                                                "browser_deliveries",
                                                                "attempt_budget",
                                                            ),
                                                            |budget: u32|
                                                                chain(
                                                                    attempts_folded(
                                                                        (model.pending)(budget),
                                                                        events,
                                                                        revision,
                                                                        conversation,
                                                                        text_view(row.accepted_message_ref),
                                                                        model,
                                                                    ),
                                                                    |delivery: DeliveryView|
                                                                        chain(
                                                                            wake_assembled(
                                                                                delivery_hex,
                                                                                row,
                                                                                source,
                                                                                delivery,
                                                                                obligation,
                                                                                generation,
                                                                                revision,
                                                                                model,
                                                                            ),
                                                                            |wake: WakeView| Ok((wake, seq)),
                                                                        ),
                                                                ),
                                                        ),
                                                ),
                                        ),
                                ),
                        ),
                ),
        ),
    }
}

/// A loaded wake on values alone, or the failure.
pub open spec fn wake_view(r: Result<LoadedWake, StoreError>) -> Result<(WakeView, EventSeq), StoreError> {
    match r {
        Ok(loaded) => Ok((loaded.wake@, loaded.target_source_event_seq)),
        Err(e) => Err(e),
    }
}

/// Rebuilds one wake revision from what its row refers to.
///
/// The target snapshot's source is read back from the ledger event the delivery pinned, the
/// conversation from the binding, and the deterministic key is derived anew: a row that was
/// edited fails closed.
pub fn wake_by_hex<
    A: Fn(&Delivery, &DeliveryEvent) -> DeliveryReply,
    P: Fn(u32) -> Delivery,
    K: Fn(ObligationId, BindingGeneration, DeliveryRevision) -> String,
    I: Fn(&str) -> bool,
    H: Fn(&BrowserWake) -> bool,
    S: Fn(&str) -> bool,
>(
    delivery_hex: &str,
    row: &Option<WakeRow>,
    source_row: &Option<SourceRow>,
    conversation: &Option<String>,
    events: &[LedgerEvent],
    rules: &WakeRules<A, P, K, I, H, S>,
) -> (r: Result<LoadedWake, StoreError>)
    requires
        rules.total(),
    ensures
        forall|model: WakeModel| #[trigger]
            rules.follows(model) ==> wake_view(r) == wake_of(
                delivery_hex@,
                *row,
                *source_row,
                text_view(*conversation),
                ledger_view(events@),
                model,
            ),
{
    let row = match row {
        Some(row) => row,
        None => return Err(corrupt_row("browser_deliveries", "delivery_id", CorruptReason::DanglingReference)),
    };
    let obligation = parse_id(row.obligation_id.as_str(), "browser_deliveries", "obligation_id")?;
    let generation: u64 = parse_u64(row.binding_generation, "browser_deliveries", "binding_generation")?;
    let revision: u32 = parse_u32(row.delivery_revision, "browser_deliveries", "delivery_revision")?;
    let target_source_event_seq: u64 = parse_seq(
        row.target_source_event_seq,
        "browser_deliveries",
        "target_source_event_seq",
    )?;
    let source = match source_row {
        Some(found) => parse_source(
            found.namespace.as_str(),
            found.event.as_str(),
            found.fence.as_str(),
            &rules.safe,
        )?,
        None => return Err(corrupt_row("events", "seq", CorruptReason::DanglingReference)),
    };
    let conversation = match conversation {
        Some(text) => parse_token(
            text.as_str(),
            "foreman_bindings",
            "canonical_conversation_id",
            &rules.safe,
        )?,
        None => {
            return Err(corrupt_row("foreman_bindings", "foreman_binding_id", CorruptReason::DanglingReference));
        },
    };
    let budget: u32 = parse_u32(row.attempt_budget, "browser_deliveries", "attempt_budget")?;
    let delivery = fold_delivery(events, revision, budget, &conversation, &row.accepted_message_ref, rules)?;
    if !(rules.known_id)(delivery_hex) {
        return Err(corrupt_row("browser_deliveries", "delivery_id", CorruptReason::MalformedIdentity));
    }
    let derived = (rules.derive)(obligation, generation, revision);
    let key_hex = rederive_delivery_key(row.delivery_key.as_str(), derived.as_str())?;
    let version: u64 = parse_u64(
        row.target_obligation_version,
        "browser_deliveries",
        "target_obligation_version",
    )?;
    let binding = parse_id(row.foreman_binding_id.as_str(), "browser_deliveries", "foreman_binding_id")?;
    let wake = BrowserWake {
        delivery_hex: delivery_hex.to_owned(),
        key_hex,
        target: WakeTarget { obligation, version, source },
        binding,
        binding_generation: generation,
        revision,
        delivery,
    };
    if (rules.rehydrates)(&wake) {
        Ok(LoadedWake { wake, target_source_event_seq })
    } else {
        Err(corrupt_row("browser_deliveries", "delivery_key", CorruptReason::MalformedIdentity))
    }
}

/// A wake that is asked for by its delivery has to be known.
pub open spec fn wake_required(found: bool) -> Result<(), StoreError> {
    if found {
        Ok(())
    } else {
        Err(StoreError::Conflict(Conflict::UnknownDeliveryId))
    }
}

/// Whether a wake may be loaded by its correlation identity.
///
/// An unknown identity gets one undifferentiated refusal, so probing reveals nothing.
pub fn wake_by_delivery_id(found: bool) -> (r: Result<(), StoreError>)
    ensures
        r == wake_required(found),
{
    if found {
        Ok(())
    } else {
        Err(StoreError::Conflict(Conflict::UnknownDeliveryId))
    }
}

} // verus!
