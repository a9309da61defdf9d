//! What rebuilding from the ledger promises.
//!
//! Each law speaks of what was recorded and what is rebuilt from it: which move an event tells the domain
//! of, what a row says of what it is about, and what is left untouched.
use vstd::prelude::*;
use crate::domain::binding::{BindingEventView, BindingModel, BindingView, TargetView};
use crate::domain::conflict::Conflict;
use crate::domain::delivery::{DeliveryEventView, DeliveryView, WakeModel};
use crate::domain::fence::DeliveryRevision;
use crate::domain::id::{canonical_text, canonical_text_round_trips, Id, ObligationId};
use crate::domain::obligation::{
    Applied, ObligationEventView, ObligationModel, ObligationView, OutcomeView,
};
use crate::store::codec::text_view;
use crate::store::error::{collected, StoreError};
use crate::store::event::LedgerView;
use crate::store::event_kind::EventKind;
use crate::store::grammar::{MetaFields, MetaValue};
use crate::store::labels::{
    ambiguity_named, disposition_named, failure_class_named, obligation_kind_named,
    worker_failure_named, write_capability_named,
};
use crate::store::load::artifact::{artifact_of, artifacts_of, ids_listed, open_work, ArtifactRow};
use crate::store::load::binding::{bindings_replayed, bound_by, row_replayed, BindingRow};
use crate::store::load::delivery::{
    attempt_transition, attempts_folded, wake_of, wake_required, SourceRow, WakeRow,
};
use crate::store::load::health::{open_listed, open_row, ConditionRow, OpenCondition};
use crate::store::load::obligation::{
    advanced_by, completion_receipts, folded, identity_of, transition_of, IdentityRow, LoadedView,
    ObligationIdentity,
};
use crate::store::safe_metadata::{
    id_field, lookup, text_field, token_field, u32_field, u64_field,
};

verus! {

// --- Fields ----------------------------------------------------------------------------------------------

/// A field is found where the document says so: what is found under a key stands in the document under
/// that key, and a key that stands nowhere is not found.
pub proof fn a_field_that_is_found_stands_in_the_document(fs: MetaFields, key: Seq<char>)
    ensures
        match lookup(fs, key) {
            Some(value) => fs.contains((key, value)),
            None => forall|i: int| 0 <= i < fs.len() ==> (#[trigger] fs[i]).0 != key,
        },
    decreases fs.len(),
{
    if fs.len() > 0 {
        if fs[0].0 == key {
            assert(fs.contains(fs[0]));
            assert(fs[0] == (key, fs[0].1));
        }
        a_field_that_is_found_stands_in_the_document(fs.drop_first(), key);
        let rest = fs.drop_first();
        match lookup(rest, key) {
            Some(value) => {
                let k = choose|k: int| 0 <= k < rest.len() && rest[k] == (key, value);
                assert(fs[k + 1] == (key, value));
            },
            None => {
                assert forall|i: int| 1 <= i < fs.len() implies (#[trigger] fs[i]).0 != key by {
                    assert(rest[i - 1] == fs[i]);
                }
            },
        }
    }
}

/// A typed field is the value that is found: a text as a text, a counter as the number it is, and
/// nothing else as either.
pub proof fn a_typed_field_is_the_value_found(fs: MetaFields, key: Seq<char>)
    ensures
        text_field(fs, key) matches Ok(text) ==> lookup(fs, key) == Some(MetaValue::Text(text)),
        u64_field(fs, key) matches Ok(n) ==> lookup(fs, key) == Some(MetaValue::Int(n as int)),
        u32_field(fs, key) matches Ok(n) ==> lookup(fs, key) == Some(MetaValue::Int(n as int)),
        lookup(fs, key) matches Some(MetaValue::Text(text)) ==> text_field(fs, key) == Ok::<
            Seq<char>,
            StoreError,
        >(text),
        lookup(fs, key) matches Some(MetaValue::Int(n)) ==> (0 <= n <= u32::MAX ==> u64_field(fs, key)
            == Ok::<u64, StoreError>(n as u64) && u32_field(fs, key) == Ok::<u32, StoreError>(n as u32)),
        lookup(fs, key) is None ==> text_field(fs, key) is Err && u64_field(fs, key) is Err && u32_field(
            fs,
            key,
        ) is Err && id_field(fs, key) is Err,
{
}

/// An identity field is the identity whose text is found.
pub proof fn an_identity_field_is_the_identity_written(fs: MetaFields, key: Seq<char>, id: Id)
    requires
        lookup(fs, key) == Some(MetaValue::Text(canonical_text(id.value))),
    ensures
        id_field(fs, key) == Ok::<Id, StoreError>(id),
{
    canonical_text_round_trips(id);
}

// --- Obligations -----------------------------------------------------------------------------------------

/// Whether an event of a kind moves an obligation.
pub open spec fn moves_an_obligation(kind: EventKind) -> bool {
    kind is WorkerStarted || kind is WorkerFailed || kind is ResultPublished
        || kind is ForemanClaimMinted || kind is ForemanHandoffDelivered || kind is ForemanClaimExpired
        || kind is ForemanAcked || kind is ObligationCancelledByUser || kind is ObligationSuperseded
}

/// Whether a move is what an event records: of its kind, at its instant, from its own source where it has
/// one, and with each of its values as the document says.
pub open spec fn tells_what_is_recorded(
    told: ObligationEventView,
    current: ObligationView,
    event: LedgerView,
) -> bool {
    let fs = event.metadata;
    match told {
        ObligationEventView::WorkerStarted { source, incarnation, at } => event.kind is WorkerStarted
            && source == event.source && at == event.observed_at && lookup(fs, "incarnation"@) == Some(
            MetaValue::Int(incarnation as int),
        ),
        ObligationEventView::WorkerFailed { source, incarnation, failure, at } => event.kind is WorkerFailed
            && source == event.source && at == event.observed_at && lookup(fs, "incarnation"@) == Some(
            MetaValue::Int(incarnation as int),
        ) && (lookup(fs, "failure_class"@) matches Some(MetaValue::Text(label)) && worker_failure_named(
            label,
        ) == Some(failure)),
        ObligationEventView::ResultPublished { source, incarnation, run_ref, artifact, at } => {
            event.kind is ResultPublished && source == event.source && at == event.observed_at && lookup(
                fs,
                "incarnation"@,
            ) == Some(MetaValue::Int(incarnation as int)) && id_field(fs, "artifact_id"@) == Ok::<
                Id,
                StoreError,
            >(artifact)
        },
        ObligationEventView::ForemanClaimed {
            claim,
            binding_generation,
            expected_version,
            expected_source,
            at,
        } => event.kind is ForemanClaimMinted && expected_source == current.source && at
            == event.observed_at && id_field(fs, "claim_id"@) == Ok::<Id, StoreError>(claim) && lookup(
            fs,
            "binding_generation"@,
        ) == Some(MetaValue::Int(binding_generation as int)) && lookup(fs, "expected_version"@) == Some(
            MetaValue::Int(expected_version as int),
        ),
        ObligationEventView::HandoffDelivered { claim, at } => event.kind is ForemanHandoffDelivered && at
            == event.observed_at && id_field(fs, "claim_id"@) == Ok::<Id, StoreError>(claim),
        ObligationEventView::ClaimExpired { claim, at } => event.kind is ForemanClaimExpired && at
            == event.observed_at && id_field(fs, "claim_id"@) == Ok::<Id, StoreError>(claim),
        ObligationEventView::ForemanAcked {
            obligation,
            expected_version,
            expected_source,
            binding_generation,
            claim,
            disposition,
            at,
        } => event.kind is ForemanAcked && obligation == current.id && expected_source == current.source
            && at == event.observed_at && id_field(fs, "claim_id"@) == Ok::<Id, StoreError>(claim)
            && lookup(fs, "binding_generation"@) == Some(MetaValue::Int(binding_generation as int))
            && lookup(fs, "expected_version"@) == Some(MetaValue::Int(expected_version as int)) && (
        lookup(fs, "disposition"@) matches Some(MetaValue::Text(label)) && disposition_named(label)
            == Some(disposition)),
        ObligationEventView::CancelledByUser { source, at } => event.kind is ObligationCancelledByUser
            && source == event.source && at == event.observed_at,
        ObligationEventView::Superseded { source, replacement, at } => event.kind is ObligationSuperseded
            && source == event.source && at == event.observed_at && id_field(fs, "replacement"@) == Ok::<
            Id,
            StoreError,
        >(replacement),
    }
}

/// An event that is replayed tells the machine of the very move it records, and only events that move an
/// obligation tell it of any.
pub proof fn a_replayed_event_tells_what_it_records(
    current: ObligationView,
    event: LedgerView,
    model: ObligationModel,
)
    ensures
        transition_of(current, event, model) matches Ok(Some(told)) ==> tells_what_is_recorded(
            told,
            current,
            event,
        ),
        transition_of(current, event, model) matches Ok(None) ==> !moves_an_obligation(event.kind),
        !moves_an_obligation(event.kind) ==> transition_of(current, event, model) == Ok::<
            Option<ObligationEventView>,
            StoreError,
        >(None),
        event.kind is ObligationCancelledByUser ==> transition_of(current, event, model) is Ok,
{
}

/// A publication is replayed only where its run proves itself again: a run that exited well with its
/// final result complete has to classify as confirmed, and the run that is then told is the one that was
/// confirmed.
pub proof fn a_replayed_publication_is_proved_again(
    current: ObligationView,
    event: LedgerView,
    model: ObligationModel,
    run_ref: Seq<char>,
)
    requires
        event.kind is ResultPublished,
        token_field(event.metadata, "run_ref"@, model.rule) == Ok::<Seq<char>, StoreError>(run_ref),
    ensures
        ({
            let receipts = completion_receipts(run_ref);
            &&& receipts.run_ref == run_ref
            &&& receipts.final_result_complete
            &&& receipts.outcome is Success
            &&& receipts.child_exit is Success
            &&& match (model.classify)(receipts) {
                OutcomeView::ConfirmedCompletion { run_ref: confirmed } => transition_of(
                    current,
                    event,
                    model,
                ) matches Ok(Some(told)) ==> (told matches ObligationEventView::ResultPublished {
                    run_ref: found,
                    ..
                } && found == confirmed),
                _ => transition_of(current, event, model) is Err,
            }
        }),
{
}

/// An obligation begins as its first event says: just created at version one, from that event's source,
/// with no claim, no result and no request; an obligation that begins with anything else is not read.
pub proof fn an_obligation_begins_with_its_creation(
    id: ObligationId,
    identity: ObligationIdentity,
    first: LedgerView,
    model: ObligationModel,
)
    ensures
        folded(id, identity, Seq::empty(), model) is Err,
        !(first.kind is ObligationCreated) ==> folded(id, identity, seq![first], model) is Err,
        folded(id, identity, seq![first], model) matches Ok(loaded) ==> {
            &&& first.kind is ObligationCreated
            &&& loaded.identity == identity
            &&& loaded.projection.id == id
            &&& loaded.projection.task == identity.task
            &&& loaded.projection.turn == identity.turn
            &&& loaded.projection.state is Created
            &&& loaded.projection.version == 1
            &&& loaded.projection.source == first.source
            &&& lookup(first.metadata, "incarnation"@) == Some(
                MetaValue::Int(loaded.projection.incarnation as int),
            )
            &&& lookup(first.metadata, "obligation_kind"@) matches Some(MetaValue::Text(label))
                && obligation_kind_named(label) == Some(loaded.projection.kind)
            &&& loaded.projection.binding_generation is None
            &&& loaded.projection.claim is None
            &&& loaded.projection.result_artifact is None
            &&& loaded.projection.input_request is None
            &&& loaded.latest_event_seq == first.seq
            &&& loaded.source_event_seq == first.seq
        },
{
}

/// Each further event leaves the obligation as the machine says of the move it tells of, at that event's
/// position; and only a worker's own facts, a cancellation and a supersession become its source fact.
pub proof fn an_obligation_advances_by_its_events(
    state: LoadedView,
    event: LedgerView,
    model: ObligationModel,
)
    ensures
        advanced_by(state, event, model) matches Ok(after) ==> {
            &&& after.identity == state.identity
            &&& after.latest_event_seq == event.seq
            &&& event.kind is WorkerStarted || event.kind is WorkerFailed || event.kind is ResultPublished
                || event.kind is ObligationCancelledByUser || event.kind is ObligationSuperseded
                ==> after.source_event_seq == event.seq
            &&& !(event.kind is WorkerStarted || event.kind is WorkerFailed
                || event.kind is ResultPublished || event.kind is ObligationCancelledByUser
                || event.kind is ObligationSuperseded) ==> after.source_event_seq
                == state.source_event_seq
            &&& match transition_of(state.projection, event, model) {
                Ok(Some(told)) => match (model.apply)(state.projection, told) {
                    Ok(Applied::Advanced(next)) => after.projection == next,
                    Ok(Applied::Duplicate) => after.projection == state.projection,
                    Err(_) => false,
                },
                Ok(None) => after.projection == state.projection,
                Err(_) => false,
            }
        },
{
}

/// An obligation's identity is its row's: whose task and turn it is, its kind, its priority and where it
/// was created.
pub proof fn an_identity_is_its_rows_own(row: IdentityRow, task: Id, turn: Option<Id>)
    requires
        row.task_id@ == canonical_text(task.value),
        text_view(row.turn_id) == crate::store::event::optional_text(turn),
    ensures
        identity_of(None) is Err,
        identity_of(Some(row)) is Ok <==> obligation_kind_named(row.obligation_kind@) is Some
            && row.created_event_seq >= 0,
        identity_of(Some(row)) matches Ok(identity) ==> {
            &&& identity.task == task
            &&& identity.turn == turn
            &&& Some(identity.kind) == obligation_kind_named(row.obligation_kind@)
            &&& identity.priority == row.priority
            &&& identity.created_event_seq == row.created_event_seq
        },
{
    canonical_text_round_trips(task);
    if let Some(it) = turn {
        canonical_text_round_trips(it);
    }
}

// --- Deliveries ------------------------------------------------------------------------------------------

/// Whether a delivery event is what a ledger event records of a revision: of its kind, at its instant,
/// about the attempt the document names, and with its evidence.
pub open spec fn tells_what_became(
    told: DeliveryEventView,
    event: LedgerView,
    conversation: Seq<char>,
    message: Option<Seq<char>>,
) -> bool {
    let fs = event.metadata;
    match told {
        DeliveryEventView::AttemptClaimed { at } => event.kind is BrowserDeliveryAttemptClaimed && at
            == event.observed_at,
        DeliveryEventView::ActivationArmed { attempt, at } => event.kind is BrowserDeliveryActivationArmed
            && at == event.observed_at && lookup(fs, "attempt_no"@) == Some(
            MetaValue::Int(attempt as int),
        ),
        DeliveryEventView::AttemptAccepted { attempt, evidence, at } => {
            event.kind is BrowserDeliveryAccepted && at == event.observed_at && lookup(fs, "attempt_no"@)
                == Some(MetaValue::Int(attempt as int)) && evidence.0 == conversation && Some(evidence.1)
                == message
        },
        DeliveryEventView::AttemptFailed { attempt, failure, at } => event.kind is BrowserDeliveryFailed
            && at == event.observed_at && lookup(fs, "attempt_no"@) == Some(
            MetaValue::Int(attempt as int),
        ) && (lookup(fs, "failure_class"@) matches Some(MetaValue::Text(label)) && failure_class_named(
            label,
        ) == Some(failure)),
        DeliveryEventView::AttemptAmbiguous { attempt, reason, at } => {
            event.kind is BrowserDeliveryAmbiguous && at == event.observed_at && lookup(fs, "attempt_no"@)
                == Some(MetaValue::Int(attempt as int)) && (lookup(fs, "evidence_class"@) matches Some(
                MetaValue::Text(label),
            ) && ambiguity_named(label) == Some(reason))
        },
        DeliveryEventView::OrphanQuarantined { at } => event.kind is BrowserDeliveryOrphanQuarantined && at
            == event.observed_at,
        DeliveryEventView::ReconciledAccepted { evidence, at } => event.kind is BrowserDeliveryReconciled
            && at == event.observed_at && evidence.0 == conversation && Some(evidence.1) == message,
    }
}

/// An event that is replayed for a revision tells the machine what became of that revision and of no
/// other: an event about another revision, or about no delivery, tells it nothing.
pub proof fn a_replayed_delivery_event_is_its_revisions(
    event: LedgerView,
    revision: DeliveryRevision,
    another: DeliveryRevision,
    conversation: Seq<char>,
    message: Option<Seq<char>>,
    rule: spec_fn(Seq<char>) -> bool,
)
    ensures
        attempt_transition(event, revision, conversation, message, rule) matches Ok(Some(told)) ==> {
            &&& tells_what_became(told, event, conversation, message)
            &&& lookup(event.metadata, "revision"@) == Some(MetaValue::Int(revision as int))
            &&& another != revision ==> attempt_transition(event, another, conversation, message, rule)
                == Ok::<Option<DeliveryEventView>, StoreError>(None)
        },
        attempt_transition(event, revision, conversation, message, rule) matches Ok(None) ==> {
            ||| !(event.kind is BrowserDeliveryAttemptClaimed || event.kind is BrowserDeliveryActivationArmed
                || event.kind is BrowserDeliveryAccepted || event.kind is BrowserDeliveryFailed
                || event.kind is BrowserDeliveryAmbiguous
                || event.kind is BrowserDeliveryOrphanQuarantined
                || event.kind is BrowserDeliveryReconciled)
            ||| lookup(event.metadata, "revision"@) != Some(MetaValue::Int(revision as int))
        },
        event.kind is BrowserDeliveryAccepted && message is None && lookup(event.metadata, "revision"@)
            == Some(MetaValue::Int(revision as int)) ==> attempt_transition(
            event,
            revision,
            conversation,
            message,
            rule,
        ) is Err,
{
}

/// Each further event leaves the delivery as the machine says of what it tells, and one that tells it
/// nothing leaves it as it was; a refusal is the machine's own.
pub proof fn a_delivery_advances_by_its_events(
    pending: DeliveryView,
    events: Seq<LedgerView>,
    event: LedgerView,
    revision: DeliveryRevision,
    conversation: Seq<char>,
    message: Option<Seq<char>>,
    state: DeliveryView,
    model: WakeModel,
)
    requires
        attempts_folded(pending, events, revision, conversation, message, model) == Ok::<
            DeliveryView,
            StoreError,
        >(state),
    ensures
        attempts_folded(pending, Seq::empty(), revision, conversation, message, model) == Ok::<
            DeliveryView,
            StoreError,
        >(pending),
        match attempt_transition(event, revision, conversation, message, model.rule) {
            Err(e) => attempts_folded(
                pending,
                events.push(event),
                revision,
                conversation,
                message,
                model,
            ) == Err::<DeliveryView, StoreError>(e),
            Ok(None) => attempts_folded(
                pending,
                events.push(event),
                revision,
                conversation,
                message,
                model,
            ) == Ok::<DeliveryView, StoreError>(state),
            Ok(Some(told)) => match (model.apply)(state, told) {
                Err(conflict) => attempts_folded(
                    pending,
                    events.push(event),
                    revision,
                    conversation,
                    message,
                    model,
                ) == Err::<DeliveryView, StoreError>(StoreError::Conflict(conflict)),
                Ok(Applied::Duplicate) => attempts_folded(
                    pending,
                    events.push(event),
                    revision,
                    conversation,
                    message,
                    model,
                ) == Ok::<DeliveryView, StoreError>(state),
                Ok(Applied::Advanced(next)) => attempts_folded(
                    pending,
                    events.push(event),
                    revision,
                    conversation,
                    message,
                    model,
                ) == Ok::<DeliveryView, StoreError>(next),
            },
        },
{
    assert(events.push(event).drop_last() =~= events);
}

/// A wake that is read is what its row says: for that obligation, version, generation, revision and
/// binding, under the key these derive, against the source of the event it was scheduled on, and with the
/// attempts the ledger holds of it from a fresh budget on. A key that is not the derived one is refused.
pub proof fn a_wake_is_its_rows_own(
    delivery_hex: Seq<char>,
    row: WakeRow,
    source_row: SourceRow,
    conversation: Seq<char>,
    events: Seq<LedgerView>,
    model: WakeModel,
    obligation: Id,
    binding: Id,
)
    requires
        row.obligation_id@ == canonical_text(obligation.value),
        row.foreman_binding_id@ == canonical_text(binding.value),
    ensures
        wake_of(delivery_hex, None, Some(source_row), Some(conversation), events, model) is Err,
        wake_of(delivery_hex, Some(row), Some(source_row), Some(conversation), events, model) matches Ok(
            (wake, seq),
        ) ==> {
            &&& wake.delivery_hex == delivery_hex
            &&& (model.known_id)(delivery_hex)
            &&& wake.obligation == obligation
            &&& wake.binding == binding
            &&& wake.version == row.target_obligation_version
            &&& wake.binding_generation == row.binding_generation
            &&& wake.revision == row.delivery_revision
            &&& wake.key_hex == row.delivery_key@
            &&& wake.key_hex == (model.derive)(obligation, wake.binding_generation, wake.revision)
            &&& wake.source == (source_row.namespace@, source_row.event@, source_row.fence@)
            &&& (model.rule)(conversation)
            &&& (model.rehydrates)(wake)
            &&& seq == row.target_source_event_seq
            &&& 0 <= row.attempt_budget <= u32::MAX
            &&& attempts_folded(
                (model.pending)(row.attempt_budget as u32),
                events,
                wake.revision,
                conversation,
                text_view(row.accepted_message_ref),
                model,
            ) == Ok::<DeliveryView, StoreError>(wake.delivery)
        },
{
    canonical_text_round_trips(obligation);
    canonical_text_round_trips(binding);
}

/// A delivery that nobody created is unknown, and a known one is let through.
pub proof fn an_uncreated_delivery_is_unknown(found: bool)
    ensures
        wake_required(found) is Ok <==> found,
        !found ==> wake_required(found) == Err::<(), StoreError>(
            StoreError::Conflict(Conflict::UnknownDeliveryId),
        ),
{
}

// --- Bindings --------------------------------------------------------------------------------------------

/// A binding that is read is what its row says, under the generation it was bound.
pub proof fn a_binding_is_its_rows_own(row: BindingRow, id: Id, rule: spec_fn(Seq<char>) -> bool)
    requires
        row.foreman_binding_id@ == canonical_text(id.value),
    ensures
        bound_by(row, rule) matches Ok((generation, target)) ==> {
            &&& generation == row.binding_generation
            &&& target.id == id
            &&& target.conversation == row.canonical_conversation_id@
            &&& target.profile == row.browser_profile_id@
            &&& target.connector_abi == row.connector_abi@
            &&& target.capability_epoch == row.capability_epoch
            &&& Some(target.write_capability) == write_capability_named(row.write_capability_state@)
            &&& rule(target.conversation) && rule(target.profile) && rule(target.connector_abi)
        },
{
    canonical_text_round_trips(id);
}

/// A row is replayed by telling the ledger of that binding and, where the row is no longer active, of its
/// displacement; a row that would bind over an active one, or that the ledger numbers otherwise, is not
/// read.
pub proof fn a_binding_row_is_replayed_as_it_happened(
    ledger: BindingView,
    row: BindingRow,
    model: BindingModel,
    generation: u64,
    target: TargetView,
    bound: BindingView,
    displaced: BindingView,
)
    requires
        bound_by(row, model.rule) == Ok::<(u64, TargetView), StoreError>((generation, target)),
        (model.apply)(ledger, BindingEventView::Bound { target, at: 0 }) == Ok::<
            Applied<BindingView>,
            Conflict,
        >(Applied::Advanced(bound)),
        row.is_active == 0 ==> (model.apply)(bound, BindingEventView::Displaced { generation, at: 0 })
            == Ok::<Applied<BindingView>, Conflict>(Applied::Advanced(displaced)),
    ensures
        ledger.active is Some ==> row_replayed(ledger, row, model) is Err,
        !(bound.active is Some && bound.active->0.generation == generation) ==> row_replayed(
            ledger,
            row,
            model,
        ) is Err,
        ledger.active is None && bound.active is Some && bound.active->0.generation == generation
            ==> row_replayed(ledger, row, model) == Ok::<BindingView, StoreError>(
            if row.is_active == 0 {
                displaced
            } else {
                bound
            },
        ),
        bindings_replayed(Seq::empty(), model) == Ok::<BindingView, StoreError>(
            BindingView { highest: 0, active: None },
        ),
{
}

// --- Lists -----------------------------------------------------------------------------------------------

/// What is collected is what each item gives, in order; and it is not collected where one gives nothing.
pub proof fn what_is_collected_is_each_items<A, B>(items: Seq<A>, take: spec_fn(A) -> Result<B, StoreError>)
    ensures
        collected(items, take) is Ok <==> forall|i: int|
            0 <= i < items.len() ==> (#[trigger] take(items[i])) is Ok,
        collected(items, take) matches Ok(list) ==> list.len() == items.len() && forall|i: int|
            0 <= i < items.len() ==> take(#[trigger] items[i]) == Ok::<B, StoreError>(list[i]),
    decreases items.len(),
{
    if items.len() > 0 {
        let rest = items.drop_last();
        let n = items.len() - 1;
        what_is_collected_is_each_items(rest, take);
        if collected(items, take) is Ok {
            let list = collected(items, take)->Ok_0;
            let front = collected(rest, take)->Ok_0;
            assert forall|i: int| 0 <= i < items.len() implies take(#[trigger] items[i]) == Ok::<
                B,
                StoreError,
            >(list[i]) by {
                if i < n {
                    assert(rest[i] == items[i]);
                    assert(list[i] == front[i]);
                }
            }
        } else {
            if forall|i: int| 0 <= i < items.len() ==> (#[trigger] take(items[i])) is Ok {
                assert forall|i: int| 0 <= i < rest.len() implies (#[trigger] take(rest[i])) is Ok by {
                    assert(rest[i] == items[i]);
                    assert(take(items[i]) is Ok);
                }
                assert(take(items[n]) is Ok);
            }
        }
    }
}

/// The identities of a list of rows are theirs, in order, and the artifacts of a list of rows are each
/// read from its own row.
pub proof fn a_list_is_read_row_by_row(
    texts: Seq<String>,
    table: &'static str,
    column: &'static str,
    rows: Seq<(Id, Option<ArtifactRow>)>,
    rule: spec_fn(Seq<char>) -> bool,
    i: int,
    id: Id,
)
    requires
        0 <= i,
        i < texts.len() ==> texts[i]@ == canonical_text(id.value),
    ensures
        ids_listed(texts, table, column) matches Ok(ids) ==> ids.len() == texts.len() && (i < texts.len()
            ==> ids[i] == id),
        artifacts_of(rows, rule) matches Ok(artifacts) ==> artifacts.len() == rows.len() && (i < rows.len()
            ==> artifact_of(rows[i].0, rows[i].1, rule) == Ok::<
            crate::domain::artifact::ArtifactView,
            StoreError,
        >(artifacts[i])),
{
    canonical_text_round_trips(id);
    what_is_collected_is_each_items(
        texts,
        |text: String| crate::store::codec::id_column(text@, table, column),
    );
    what_is_collected_is_each_items(
        rows,
        |row: (Id, Option<ArtifactRow>)| artifact_of(row.0, row.1, rule),
    );
    if i < texts.len() {
        let take = |text: String| crate::store::codec::id_column(text@, table, column);
        assert(take(texts[i]) == Ok::<Id, StoreError>(id));
    }
    if i < rows.len() {
        let take = |row: (Id, Option<ArtifactRow>)| artifact_of(row.0, row.1, rule);
        assert(take(rows[i]) == artifact_of(rows[i].0, rows[i].1, rule));
    }
}

/// The open conditions that are listed are those of the rows that are open: a row that is open is listed,
/// last of all, and a resolved one is passed over.
pub proof fn open_conditions_are_listed_in_order(
    rows: Seq<ConditionRow>,
    row: ConditionRow,
    listed: Seq<OpenCondition>,
)
    requires
        open_listed(rows) == Ok::<Seq<OpenCondition>, StoreError>(listed),
    ensures
        open_listed(Seq::empty()) == Ok::<Seq<OpenCondition>, StoreError>(Seq::empty()),
        match open_row(row) {
            Err(e) => open_listed(rows.push(row)) == Err::<Seq<OpenCondition>, StoreError>(e),
            Ok(None) => open_listed(rows.push(row)) == Ok::<Seq<OpenCondition>, StoreError>(listed),
            Ok(Some(condition)) => open_listed(rows.push(row)) == Ok::<Seq<OpenCondition>, StoreError>(
                listed.push(condition),
            ),
        },
{
    assert(rows.push(row).drop_last() =~= rows);
}

/// Open work is listed as it stands: its kind, state and version, when it was created, and its result
/// where it has one, read from that result's own row.
pub proof fn open_work_is_listed_as_it_stands(
    id: ObligationId,
    loaded: LoadedView,
    row: Option<ArtifactRow>,
    observed_at_ms: Option<i64>,
    rule: spec_fn(Seq<char>) -> bool,
)
    ensures
        observed_at_ms is None ==> open_work(id, loaded, row, observed_at_ms, rule) is Err,
        open_work(id, loaded, row, observed_at_ms, rule) matches Ok(open) ==> {
            &&& open.id == id
            &&& open.kind == loaded.identity.kind
            &&& open.state == loaded.projection.state
            &&& open.version == loaded.projection.version
            &&& Some(open.created_at) == observed_at_ms
            &&& match loaded.projection.result_artifact {
                None => open.result_artifact is None,
                Some(artifact) => open.result_artifact is Some && artifact_of(artifact, row, rule) == Ok::<
                    crate::domain::artifact::ArtifactView,
                    StoreError,
                >(open.result_artifact->0),
            }
        },
        observed_at_ms is Some && loaded.projection.result_artifact is None ==> open_work(
            id,
            loaded,
            row,
            observed_at_ms,
            rule,
        ) is Ok,
{
}

} // verus!
