//! What a verification that succeeds has established.
//!
//! The comparison of the rows with the ledger answers a list of disagreements. The laws here say, of
//! each table, what an empty list means for the stored columns themselves, and that a column which
//! holds anything else is on the list.
use vstd::prelude::*;
use crate::domain::delivery::{Attempt, WakeModel, WakeView};
use crate::domain::fence::EventSeq;
use crate::domain::health::{
    HealthCondition, HealthConditionKind, HealthConditionState, HealthScope,
};
use crate::domain::id::{
    canonical_text, canonical_text_injective, canonical_text_round_trips, id_named, nibble, nibble_at, Id,
    ObligationId,
};
use crate::domain::obligation::{ObligationModel, ObligationState};
use crate::digest::hex_char_value;
use crate::store::codec::{text_or_empty, text_view};
use crate::store::error::{collected, corrupt, CorruptReason, MismatchView, StoreError};
use crate::store::event::{optional_text, LedgerView};
use crate::store::labels::{
    attempt_state_label, attempt_state_named, attempt_state_round_trips, delivery_state_label,
    delivery_state_named, delivery_state_round_trips, health_kind_label, health_kind_named,
    health_kind_round_trips, health_state_label, health_state_named, health_state_round_trips,
    obligation_state_named, obligation_state_round_trips, retention_named, retention_round_trips,
    turn_lifecycle_named, turn_lifecycle_round_trips, RetentionLabel, TurnLifecycle,
};
use crate::store::load::artifact::ArtifactReference;
use crate::store::load::delivery::wake_of;
use crate::store::load::health::health_folded;
use crate::store::load::obligation::{
    folded, identity_of, ledger_view, LoadedView, ObligationIdentity,
};
use crate::store::replay::{
    a_list_agrees_where_every_item_does, about, answers, artifact_comparer, artifact_compared,
    attempt_comparer, attempt_compared, attempt_reader, attempts_compared, condition_reader,
    delivery_comparer, delivery_compared, differs, disagreements, folded_keys, gathered,
    id_or_empty, ids_of, key_comparer, key_of, key_part, label_at, obligation_compared, occurrences,
    record_comparer, record_of, reference_of, referrer, replayed_lifecycle, retention_compared,
    slice_of, step_comparer, step_compared, steps, stored_key, stored_wake, the_list_is_complete,
    transition_reader, transitions_compared, turn_comparer, turn_compared, version_at,
    ObligationRecord, StoredArtifact, StoredCondition, StoredDelivery, StoredObligation,
    StoredProjections, VerifiedProjections, MISSING,
};
use crate::text::{a_dictionary_exists, dictionary, int_text, int_text_injective, nat_text, nat_text_denotes};

verus! {

/// A disagreement about one field names the table, the row and the column, and shows what is stored
/// beside what the ledger gives.
pub proof fn a_disagreement_names_its_field(
    table: &'static str,
    row: Seq<char>,
    column: &'static str,
    stored: Seq<char>,
    replayed: Seq<char>,
)
    requires
        stored != replayed,
    ensures
        ({
            let found = differs(table, row, column, stored, replayed);
            &&& found.len() == 1
            &&& found[0].table == table@
            &&& found[0].row == row
            &&& found[0].column == column@
            &&& found[0].stored == stored
            &&& found[0].replayed == replayed
        }),
{
}

// --- The slice of an obligation --------------------------------------------------------------------------

/// The slice of an obligation is its events and no others: one that is about it is there, and what is
/// there is about it and in the ledger.
pub proof fn a_slice_is_the_events_about_its_obligation(events: Seq<LedgerView>, id: ObligationId)
    ensures
        forall|i: int|
            0 <= i < events.len() && (#[trigger] events[i]).scope.obligation == Some(id) ==> slice_of(
                events,
                id,
            ).contains(events[i]),
        forall|k: int|
            0 <= k < slice_of(events, id).len() ==> (#[trigger] slice_of(events, id)[k]).scope.obligation
                == Some(id) && events.contains(slice_of(events, id)[k]),
    decreases events.len(),
{
    if events.len() > 0 {
        let rest = events.drop_last();
        let less = slice_of(rest, id);
        let more = slice_of(events, id);
        a_slice_is_the_events_about_its_obligation(rest, id);
        assert forall|i: int|
            0 <= i < events.len() && (#[trigger] events[i]).scope.obligation == Some(id) implies more.contains(
            events[i],
        ) by {
            if i < rest.len() {
                assert(rest[i] == events[i]);
                assert(less.contains(rest[i]));
                let k = choose|k: int| 0 <= k < less.len() && less[k] == rest[i];
                assert(more[k] == events[i]);
            } else {
                assert(more[more.len() - 1] == events[i]);
            }
        }
        assert forall|k: int| 0 <= k < more.len() implies (#[trigger] more[k]).scope.obligation == Some(
            id,
        ) && events.contains(more[k]) by {
            if k < less.len() {
                assert(more[k] == less[k]);
                assert(rest.contains(less[k]));
                let i = choose|i: int| 0 <= i < rest.len() && rest[i] == less[k];
                assert(events[i] == more[k]);
            } else {
                assert(events[events.len() - 1] == more[k]);
            }
        }
    }
}

/// An event that is appended about an obligation is the last of its slice, and of no other's.
pub proof fn an_appended_event_joins_one_slice(
    events: Seq<LedgerView>,
    event: LedgerView,
    id: ObligationId,
)
    ensures
        event.scope.obligation == Some(id) ==> slice_of(events.push(event), id) == slice_of(
            events,
            id,
        ).push(event),
        event.scope.obligation != Some(id) ==> slice_of(events.push(event), id) == slice_of(events, id),
{
    assert(events.push(event).drop_last() =~= events);
}

// --- Obligations -----------------------------------------------------------------------------------------

/// Whether a column holds an optional identity: its canonical text, or nothing.
pub open spec fn holds_id(column: Option<String>, id: Option<Id>) -> bool {
    match id {
        Some(inner) => column is Some && column->0@ == canonical_text(inner.value),
        None => column is Some ==> column->0@.len() == 0,
    }
}

/// Whether the columns of an `obligations` row are the obligation its events fold to.
pub open spec fn row_is(stored: StoredObligation, replayed: LoadedView) -> bool {
    &&& obligation_state_named(stored.state@) == Some(replayed.projection.state)
    &&& stored.current_version == replayed.projection.version
    &&& holds_id(stored.current_claim_id, replayed.projection.claim)
    &&& holds_id(stored.result_artifact_id, replayed.projection.result_artifact)
    &&& stored.source_event_seq == replayed.source_event_seq
}

proof fn an_id_column_agrees(column: Option<String>, id: Option<Id>)
    ensures
        text_or_empty(column) == id_or_empty(id) <==> holds_id(column, id),
{
    match id {
        Some(inner) => {
            assert(canonical_text(inner.value).len() == 36);
        },
        None => {
            if let Some(text) = column {
                if text@.len() == 0 {
                    assert(text@ =~= Seq::<char>::empty());
                }
            }
        },
    }
}

proof fn a_number_column_agrees(stored: i64, replayed: u64)
    ensures
        int_text(stored as int) == nat_text(replayed as nat) <==> stored == replayed,
{
    assert(int_text(replayed as int) == nat_text(replayed as nat));
    if int_text(stored as int) == int_text(replayed as int) {
        int_text_injective(stored as int, replayed as int);
    }
}

/// Comparing an obligation row finds nothing exactly where every column is what its events fold to.
pub proof fn an_obligation_row_passes_where_it_is_the_fold(
    id: ObligationId,
    stored: StoredObligation,
    replayed: LoadedView,
)
    ensures
        obligation_compared(id, stored, replayed) matches Ok(found) ==> (found.len() == 0 <==> row_is(
            stored,
            replayed,
        )),
        obligation_compared(id, stored, replayed) is Ok <==> obligation_state_named(stored.state@) is Some,
{
    if let Some(state) = obligation_state_named(stored.state@) {
        obligation_state_round_trips(state);
        obligation_state_round_trips(replayed.projection.state);
        a_number_column_agrees(stored.current_version, replayed.projection.version);
        a_number_column_agrees(stored.source_event_seq, replayed.source_event_seq);
        an_id_column_agrees(stored.current_claim_id, replayed.projection.claim);
        an_id_column_agrees(stored.result_artifact_id, replayed.projection.result_artifact);
    }
}

// --- Transitions -----------------------------------------------------------------------------------------

proof fn a_version_is_recorded(recorded: Seq<(EventSeq, u64)>, seq: EventSeq)
    ensures
        version_at(recorded, seq) matches Some(version) ==> recorded.contains((seq, version)),
        (exists|i: int| 0 <= i < recorded.len() && (#[trigger] recorded[i]).0 == seq) ==> version_at(
            recorded,
            seq,
        ) is Some,
    decreases recorded.len(),
{
    if recorded.len() > 0 {
        let rest = recorded.drop_last();
        a_version_is_recorded(rest, seq);
        assert(recorded[recorded.len() - 1] == recorded.last());
        if let Some(version) = version_at(rest, seq) {
            let k = choose|k: int| 0 <= k < rest.len() && rest[k] == (seq, version);
            assert(recorded[k] == (seq, version));
        }
        if exists|i: int| 0 <= i < recorded.len() && (#[trigger] recorded[i]).0 == seq {
            let i = choose|i: int| 0 <= i < recorded.len() && (#[trigger] recorded[i]).0 == seq;
            if i < rest.len() {
                assert(rest[i].0 == seq);
            }
        }
    }
}

proof fn a_read_transition_is_stored(rows: Seq<(i64, i64)>, recorded: Seq<(EventSeq, u64)>)
    requires
        collected(rows, transition_reader()) == Ok::<Seq<(EventSeq, u64)>, StoreError>(recorded),
    ensures
        recorded.len() == rows.len(),
        forall|i: int|
            0 <= i < rows.len() ==> (#[trigger] rows[i]).0 == recorded[i].0 && rows[i].1 == recorded[i].1,
    decreases rows.len(),
{
    if rows.len() > 0 {
        let rest = rows.drop_last();
        let taken = collected(rest, transition_reader())->Ok_0;
        a_read_transition_is_stored(rest, taken);
        assert forall|i: int| 0 <= i < rows.len() implies (#[trigger] rows[i]).0 == recorded[i].0
            && rows[i].1 == recorded[i].1 by {
            if i < rest.len() {
                assert(rest[i] == rows[i]);
                assert(recorded[i] == taken[i]);
            }
        }
    }
}

/// Where the transitions of an obligation pass, each event that creates it or moves its version has a
/// recorded transition of that very sequence and version.
pub proof fn every_move_has_its_transition(
    record: ObligationRecord,
    identity: ObligationIdentity,
    slice: Seq<LedgerView>,
    model: ObligationModel,
    step: int,
    before: LoadedView,
    after: LoadedView,
)
    requires
        identity_of(record.identity) == Ok::<ObligationIdentity, StoreError>(identity),
        transitions_compared(record, slice, model) matches Ok(found) && found.len() == 0,
        1 <= step <= slice.len(),
        folded(record.id, identity, slice.take(step), model) == Ok::<LoadedView, StoreError>(after),
        step > 1 ==> folded(record.id, identity, slice.take(step - 1), model) == Ok::<
            LoadedView,
            StoreError,
        >(before) && before.projection.version != after.projection.version,
    ensures
        exists|i: int|
            0 <= i < record.transitions@.len() && (#[trigger] record.transitions@[i]).0 == slice[step
                - 1].seq && record.transitions@[i].1 == after.projection.version,
{
    let rows = record.transitions@;
    let recorded = collected(rows, transition_reader())->Ok_0;
    let comparer = step_comparer(record.id, identity, slice, recorded, model);
    let all = steps(slice.len());
    a_list_agrees_where_every_item_does(all, comparer);
    assert(all[step - 1] == step);
    assert(comparer(all[step - 1]) matches Ok(found) && found.len() == 0);
    assert(step_compared(record.id, identity, slice, recorded, model, step) matches Ok(found)
        && found.len() == 0);
    let seq = slice[step - 1].seq;
    a_version_is_recorded(recorded, seq);
    a_read_transition_is_stored(rows, recorded);
    nat_text_denotes(after.projection.version as nat);
    match version_at(recorded, seq) {
        None => {
            assert(differs(
                "obligation_events",
                canonical_text(record.id.value) + "@"@ + nat_text(seq as nat),
                "obligation_version",
                Seq::empty(),
                nat_text(after.projection.version as nat),
            ).len() == 1);
            assert(false);
        },
        Some(version) => {
            nat_text_denotes(version as nat);
            let i = choose|i: int| 0 <= i < recorded.len() && recorded[i] == (seq, version);
            assert(rows[i].0 == recorded[i].0);
        },
    }
}

// --- Turns -----------------------------------------------------------------------------------------------

/// Whether an event ends a turn.
pub open spec fn ends_a_turn(event: LedgerView) -> bool {
    event.kind is ResultPublished || event.kind is WorkerFailed
}

/// Whether a lifecycle is the one a slice leaves its turn in: running while nothing ended it, and
/// otherwise as its last ending says.
pub open spec fn lifecycle_is(slice: Seq<LedgerView>, lifecycle: TurnLifecycle) -> bool {
    let last = |i: int|
        0 <= i < slice.len() && ends_a_turn(slice[i]) && forall|j: int|
            i < j < slice.len() ==> !ends_a_turn(#[trigger] slice[j]);
    match lifecycle {
        TurnLifecycle::Running => forall|i: int|
            0 <= i < slice.len() ==> !ends_a_turn(#[trigger] slice[i]),
        TurnLifecycle::Completed => exists|i: int| #[trigger] last(i) && slice[i].kind is ResultPublished,
        TurnLifecycle::Failed => exists|i: int| #[trigger] last(i) && slice[i].kind is WorkerFailed,
    }
}

/// A turn is completed by a published result, failed by a failed worker, and running until then.
pub proof fn a_turn_ends_as_its_last_ending_says(slice: Seq<LedgerView>)
    ensures
        lifecycle_is(slice, replayed_lifecycle(slice)),
    decreases slice.len(),
{
    let found = replayed_lifecycle(slice);
    let last = |i: int|
        0 <= i < slice.len() && ends_a_turn(slice[i]) && forall|j: int|
            i < j < slice.len() ==> !ends_a_turn(#[trigger] slice[j]);
    if slice.len() > 0 {
        let n = slice.len() - 1;
        let rest = slice.drop_last();
        if ends_a_turn(slice[n]) {
            assert(last(n));
        } else {
            a_turn_ends_as_its_last_ending_says(rest);
            let earlier = |i: int|
                0 <= i < rest.len() && ends_a_turn(rest[i]) && forall|j: int|
                    i < j < rest.len() ==> !ends_a_turn(#[trigger] rest[j]);
            match found {
                TurnLifecycle::Running => {
                    assert forall|i: int| 0 <= i < slice.len() implies !ends_a_turn(
                        #[trigger] slice[i],
                    ) by {
                        if i < n {
                            assert(rest[i] == slice[i]);
                        }
                    }
                },
                TurnLifecycle::Completed => {
                    let i = choose|i: int| #[trigger] earlier(i) && rest[i].kind is ResultPublished;
                    assert(slice[i] == rest[i]);
                    assert forall|j: int| i < j < slice.len() implies !ends_a_turn(
                        #[trigger] slice[j],
                    ) by {
                        if j < n {
                            assert(rest[j] == slice[j]);
                        }
                    }
                    assert(last(i));
                },
                TurnLifecycle::Failed => {
                    let i = choose|i: int| #[trigger] earlier(i) && rest[i].kind is WorkerFailed;
                    assert(slice[i] == rest[i]);
                    assert forall|j: int| i < j < slice.len() implies !ends_a_turn(
                        #[trigger] slice[j],
                    ) by {
                        if j < n {
                            assert(rest[j] == slice[j]);
                        }
                    }
                    assert(last(i));
                },
            }
        }
    }
}

/// Comparing a turn finds nothing exactly where its row holds the lifecycle its obligation's events
/// leave it in; an obligation without a turn has nothing to compare.
pub proof fn a_turn_passes_where_its_row_is_the_ledgers(
    record: ObligationRecord,
    identity: ObligationIdentity,
    slice: Seq<LedgerView>,
)
    requires
        identity_of(record.identity) == Ok::<ObligationIdentity, StoreError>(identity),
    ensures
        turn_compared(record, slice) matches Ok(found) ==> (found.len() == 0 <==> (identity.turn is None
            || (record.lifecycle matches Ok(label) && turn_lifecycle_named(label@) == Some(
            replayed_lifecycle(slice),
        )))),
{
    turn_lifecycle_round_trips(replayed_lifecycle(slice));
    if let Ok(label) = record.lifecycle {
        if let Some(stored) = turn_lifecycle_named(label@) {
            turn_lifecycle_round_trips(stored);
        }
    }
}

// --- Artifacts -------------------------------------------------------------------------------------------

/// Comparing an artifact finds nothing exactly where its row says pinned while an open obligation
/// references it, and eligible otherwise.
pub proof fn an_artifact_passes_where_it_is_pinned_by_need(
    stored: StoredArtifact,
    id: Id,
    references: Seq<ArtifactReference>,
    rule: spec_fn(Seq<char>) -> bool,
)
    requires
        stored.result_artifact_id@ == canonical_text(id.value),
    ensures
        artifact_compared(stored, references, rule) matches Ok(found) ==> (found.len() == 0
            <==> retention_named(stored.retention_state@) == Some(
            if exists|i: int|
                0 <= i < references.len() && (#[trigger] references[i]).result_artifact == Some(id)
                    && !references[i].closed {
                RetentionLabel::Pinned
            } else {
                RetentionLabel::Eligible
            },
        )),
{
    crate::domain::id::canonical_text_round_trips(id);
    retention_round_trips(RetentionLabel::Pinned);
    retention_round_trips(RetentionLabel::Eligible);
    if let Some(label) = retention_named(stored.retention_state@) {
        retention_round_trips(label);
    }
}

proof fn every_item_is_taken<A, B>(items: Seq<A>, take: spec_fn(A) -> Result<B, StoreError>)
    requires
        collected(items, take) is Ok,
    ensures
        collected(items, take)->Ok_0.len() == items.len(),
        forall|i: int|
            0 <= i < items.len() ==> (#[trigger] take(items[i])) == Ok::<B, StoreError>(
                collected(items, take)->Ok_0[i],
            ),
    decreases items.len(),
{
    if items.len() > 0 {
        let rest = items.drop_last();
        every_item_is_taken(rest, take);
        let taken = collected(items, take)->Ok_0;
        assert forall|i: int| 0 <= i < items.len() implies (#[trigger] take(items[i])) == Ok::<
            B,
            StoreError,
        >(taken[i]) by {
            if i < rest.len() {
                assert(rest[i] == items[i]);
                assert(take(rest[i]) == Ok::<B, StoreError>(collected(rest, take)->Ok_0[i]));
            }
        }
    }
}

/// An obligation is compared by its own record, the first that names it; one that no record names is a
/// dangling reference.
pub proof fn a_record_is_its_obligations_own(records: Seq<ObligationRecord>, id: ObligationId)
    ensures
        record_of(records, id) is Ok <==> exists|i: int|
            0 <= i < records.len() && (#[trigger] records[i]).id == id,
        record_of(records, id) matches Ok(record) ==> record.id == id && exists|i: int|
            0 <= i < records.len() && #[trigger] records[i] == record && forall|k: int|
                0 <= k < i ==> (#[trigger] records[k]).id != id,
        record_of(records, id) is Err ==> record_of(records, id) == Err::<ObligationRecord, StoreError>(
            corrupt("obligations", "obligation_id", CorruptReason::DanglingReference),
        ),
    decreases records.len(),
{
    if records.len() > 0 {
        if records[0].id != id {
            let rest = records.drop_first();
            a_record_is_its_obligations_own(rest, id);
            if record_of(rest, id) is Ok {
                let at = choose|at: int|
                    0 <= at < rest.len() && #[trigger] rest[at] == record_of(rest, id)->Ok_0
                        && forall|k: int| 0 <= k < at ==> (#[trigger] rest[k]).id != id;
                assert(records[at + 1] == rest[at]);
                assert forall|k: int| 0 <= k < at + 1 implies (#[trigger] records[k]).id != id by {
                    if k > 0 {
                        assert(rest[k - 1] == records[k]);
                    }
                }
            } else {
                assert forall|i: int| 0 <= i < records.len() implies (#[trigger] records[i]).id
                    != id by {
                    if i > 0 {
                        assert(rest[i - 1] == records[i]);
                    }
                }
            }
        } else {
            assert(records[0] == record_of(records, id)->Ok_0);
        }
    }
}

/// A wake revision is folded from the events of its own obligation: one appended about another
/// obligation, or about none, leaves it as it was.
pub proof fn another_obligations_event_leaves_a_wake(
    events: Seq<LedgerView>,
    event: LedgerView,
    stored: StoredDelivery,
    model: WakeModel,
)
    requires
        stored.row matches Some(row) ==> (event.scope.obligation matches Some(other)
            ==> id_named(row.obligation_id@) != Some(other)),
    ensures
        stored_wake(events.push(event), stored, model) == stored_wake(events, stored, model),
{
    if let Some(row) = stored.row {
        if let Some(id) = id_named(row.obligation_id@) {
            an_appended_event_joins_one_slice(events, event, id);
        }
    }
}

/// A wake revision is folded from every event about its obligation, in the ledger's order, and from no
/// other.
pub proof fn a_wake_is_folded_from_its_obligations_events(
    events: Seq<LedgerView>,
    stored: StoredDelivery,
    model: WakeModel,
    id: ObligationId,
    wake: WakeView,
    source: EventSeq,
)
    requires
        stored.row matches Some(row) && row.obligation_id@ == canonical_text(id.value),
        (model.known_id)(stored.delivery_id@),
        wake_of(
            stored.delivery_id@,
            stored.row,
            stored.source,
            text_view(stored.conversation),
            slice_of(events, id),
            model,
        ) == Ok::<(WakeView, EventSeq), StoreError>((wake, source)),
    ensures
        stored_wake(events, stored, model) == Ok::<WakeView, StoreError>(wake),
{
    canonical_text_round_trips(id);
}

/// Whether some obligation of a ledger folds to one that is open and references an artifact.
pub open spec fn still_needed(
    events: Seq<LedgerView>,
    records: Seq<ObligationRecord>,
    model: ObligationModel,
    artifact: Id,
) -> bool {
    exists|id: ObligationId| #[trigger]
        about(events, id) && ({
            &&& record_of(records, id) matches Ok(record)
            &&& identity_of(record.identity) matches Ok(identity)
            &&& folded(record.id, identity, slice_of(events, id), model) matches Ok(loaded)
            &&& loaded.projection.result_artifact == Some(artifact)
            &&& !loaded.projection.state.closed()
        })
}

/// A verified store pins what is needed: an artifact's row says pinned while some obligation of the
/// ledger is open and references it, and eligible otherwise.
pub proof fn a_verified_store_pins_what_is_needed(
    stored: StoredProjections,
    model: ObligationModel,
    wakes: WakeModel,
    r: Result<VerifiedProjections, StoreError>,
    i: int,
    id: Id,
)
    requires
        answers(r, disagreements(stored, model, wakes), stored),
        r is Ok,
        0 <= i < stored.artifacts@.len(),
        stored.artifacts@[i].result_artifact_id@ == canonical_text(id.value),
    ensures
        retention_named(stored.artifacts@[i].retention_state@) == Some(
            if still_needed(ledger_view(stored.events@), stored.obligations@, model, id) {
                RetentionLabel::Pinned
            } else {
                RetentionLabel::Eligible
            },
        ),
{
    nothing_was_found(stored, model, wakes, r);
    let events = ledger_view(stored.events@);
    let records = stored.obligations@;
    let ids = ids_of(events);
    let take = referrer(events, records, model);
    let references = collected(ids, take)->Ok_0;
    let comparer = artifact_comparer(references, model.rule);
    the_list_is_complete(events);
    every_item_is_taken(ids, take);
    a_list_agrees_where_every_item_does(stored.artifacts@, comparer);
    assert(comparer(stored.artifacts@[i]) matches Ok(none) && none.len() == 0);
    an_artifact_passes_where_it_is_pinned_by_need(stored.artifacts@[i], id, references, model.rule);
    if exists|k: int|
        0 <= k < references.len() && (#[trigger] references[k]).result_artifact == Some(id)
            && !references[k].closed {
        let k = choose|k: int|
            0 <= k < references.len() && (#[trigger] references[k]).result_artifact == Some(id)
                && !references[k].closed;
        assert(take(ids[k]) == Ok::<ArtifactReference, StoreError>(references[k]));
        assert(ids.contains(ids[k]));
        assert(about(events, ids[k]));
    }
    if still_needed(events, records, model, id) {
        let owner = choose|owner: ObligationId| #[trigger]
            about(events, owner) && ({
                &&& record_of(records, owner) matches Ok(record)
                &&& identity_of(record.identity) matches Ok(identity)
                &&& folded(record.id, identity, slice_of(events, owner), model) matches Ok(loaded)
                &&& loaded.projection.result_artifact == Some(id)
                &&& !loaded.projection.state.closed()
            });
        assert(ids.contains(owner));
        let k = choose|k: int| 0 <= k < ids.len() && ids[k] == owner;
        assert(take(ids[k]) == Ok::<ArtifactReference, StoreError>(references[k]));
        assert(references[k].result_artifact == Some(id) && !references[k].closed);
    }
}

/// What an obligation means for artifacts is its own artifact, held until it is closed.
pub proof fn a_reference_is_the_obligations_own(loaded: LoadedView)
    ensures
        reference_of(loaded).result_artifact == loaded.projection.result_artifact,
        reference_of(loaded).closed <==> (loaded.projection.state == ObligationState::Acknowledged
            || loaded.projection.state == ObligationState::CancelledByUser || loaded.projection.state
            == ObligationState::Superseded),
{
}

// --- Deliveries ------------------------------------------------------------------------------------------

/// Whether attempt rows hold an attempt: the last row of its number names its state.
pub open spec fn attempt_row_is(rows: Seq<(i64, String)>, attempt: Attempt) -> bool {
    exists|i: int|
        {
            &&& 0 <= i < rows.len()
            &&& (#[trigger] rows[i]).0 == attempt.number
            &&& attempt_state_named(rows[i].1@) == Some(attempt.state)
            &&& forall|j: int| i < j < rows.len() ==> (#[trigger] rows[j]).0 != attempt.number
        }
}

proof fn a_label_is_the_last_row(read: Seq<(u32, Seq<char>)>, number: u32)
    ensures
        match label_at(read, number) {
            Some(label) => exists|i: int|
                {
                    &&& 0 <= i < read.len()
                    &&& (#[trigger] read[i]).0 == number
                    &&& read[i].1 == label
                    &&& forall|j: int| i < j < read.len() ==> (#[trigger] read[j]).0 != number
                },
            None => forall|i: int| 0 <= i < read.len() ==> (#[trigger] read[i]).0 != number,
        },
    decreases read.len(),
{
    if read.len() > 0 {
        let n = read.len() - 1;
        let rest = read.drop_last();
        if read[n].0 != number {
            a_label_is_the_last_row(rest, number);
            match label_at(rest, number) {
                Some(label) => {
                    let i = choose|i: int|
                        {
                            &&& 0 <= i < rest.len()
                            &&& (#[trigger] rest[i]).0 == number
                            &&& rest[i].1 == label
                            &&& forall|j: int| i < j < rest.len() ==> (#[trigger] rest[j]).0 != number
                        };
                    assert(read[i] == rest[i]);
                    assert forall|j: int| i < j < read.len() implies (#[trigger] read[j]).0 != number by {
                        if j < n {
                            assert(read[j] == rest[j]);
                        }
                    }
                },
                None => {
                    assert forall|i: int| 0 <= i < read.len() implies (#[trigger] read[i]).0 != number by {
                        if i < n {
                            assert(read[i] == rest[i]);
                        }
                    }
                },
            }
        }
    }
}

proof fn a_read_attempt_is_stored(rows: Seq<(i64, String)>, read: Seq<(u32, Seq<char>)>)
    requires
        collected(rows, attempt_reader()) == Ok::<Seq<(u32, Seq<char>)>, StoreError>(read),
    ensures
        read.len() == rows.len(),
        forall|i: int|
            0 <= i < rows.len() ==> (#[trigger] rows[i]).0 == read[i].0 && rows[i].1@ == read[i].1,
    decreases rows.len(),
{
    if rows.len() > 0 {
        let rest = rows.drop_last();
        let taken = collected(rest, attempt_reader())->Ok_0;
        a_read_attempt_is_stored(rest, taken);
        assert forall|i: int| 0 <= i < rows.len() implies (#[trigger] rows[i]).0 == read[i].0
            && rows[i].1@ == read[i].1 by {
            if i < rest.len() {
                assert(rest[i] == rows[i]);
                assert(read[i] == taken[i]);
            }
        }
    }
}

proof fn an_attempt_passes_where_its_row_is(
    key_hex: Seq<char>,
    rows: Seq<(i64, String)>,
    read: Seq<(u32, Seq<char>)>,
    attempt: Attempt,
)
    requires
        collected(rows, attempt_reader()) == Ok::<Seq<(u32, Seq<char>)>, StoreError>(read),
        attempt_compared(key_hex, read, attempt) is Ok,
    ensures
        attempt_compared(key_hex, read, attempt)->Ok_0.len() == 0 <==> attempt_row_is(rows, attempt),
{
    a_read_attempt_is_stored(rows, read);
    a_label_is_the_last_row(read, attempt.number);
    attempt_state_round_trips(attempt.state);
    match label_at(read, attempt.number) {
        None => {
            reveal_strlit("<missing>");
            reveal_strlit("claimed");
            reveal_strlit("activation_armed");
            reveal_strlit("accepted");
            reveal_strlit("failed");
            reveal_strlit("ambiguous");
            assert(MISSING@[0] == '<');
            assert(attempt_state_label(attempt.state)@[0] != '<');
            assert(MISSING@ != attempt_state_label(attempt.state)@);
            if attempt_row_is(rows, attempt) {
                let i = choose|i: int|
                    0 <= i < rows.len() && (#[trigger] rows[i]).0 == attempt.number
                        && attempt_state_named(rows[i].1@) == Some(attempt.state);
                assert(read[i].0 == attempt.number);
            }
        },
        Some(label) => {
            let i = choose|i: int|
                {
                    &&& 0 <= i < read.len()
                    &&& (#[trigger] read[i]).0 == attempt.number
                    &&& read[i].1 == label
                    &&& forall|j: int| i < j < read.len() ==> (#[trigger] read[j]).0 != attempt.number
                };
            assert(rows[i].0 == attempt.number && rows[i].1@ == label);
            assert forall|j: int| i < j < rows.len() implies (#[trigger] rows[j]).0 != attempt.number by {
                assert(read[j].0 != attempt.number);
            }
            let state = attempt_state_named(label)->0;
            attempt_state_round_trips(state);
            if attempt_row_is(rows, attempt) {
                let k = choose|k: int|
                    {
                        &&& 0 <= k < rows.len()
                        &&& (#[trigger] rows[k]).0 == attempt.number
                        &&& attempt_state_named(rows[k].1@) == Some(attempt.state)
                        &&& forall|j: int| k < j < rows.len() ==> (#[trigger] rows[j]).0 != attempt.number
                    };
                assert(!(k < i)) by {
                    assert(rows[i].0 == attempt.number);
                }
                assert(!(i < k)) by {
                    assert(rows[k].0 == attempt.number);
                }
                assert(i == k);
            }
        },
    }
}

/// Comparing the attempts of a revision finds nothing exactly where each of them has a row that names
/// its state.
pub proof fn attempts_pass_where_their_rows_are(rows: Seq<(i64, String)>, wake: WakeView)
    ensures
        attempts_compared(rows, wake) matches Ok(found) ==> (found.len() == 0 <==> forall|i: int|
            0 <= i < wake.delivery.attempts.len() ==> attempt_row_is(
                rows,
                #[trigger] wake.delivery.attempts[i],
            )),
{
    if attempts_compared(rows, wake) is Ok {
        let read = collected(rows, attempt_reader())->Ok_0;
        let attempts = wake.delivery.attempts;
        let comparer = attempt_comparer(wake.key_hex, read);
        a_list_agrees_where_every_item_does(attempts, comparer);
        every_item_is_compared(attempts, comparer);
        assert forall|i: int| 0 <= i < attempts.len() implies (comparer(
            #[trigger] attempts[i],
        )->Ok_0.len() == 0 <==> attempt_row_is(rows, attempts[i])) by {
            assert(comparer(attempts[i]) is Ok);
            an_attempt_passes_where_its_row_is(wake.key_hex, rows, read, attempts[i]);
        }
        if forall|i: int| 0 <= i < attempts.len() ==> attempt_row_is(rows, #[trigger] attempts[i]) {
            assert forall|i: int| 0 <= i < attempts.len() implies (#[trigger] comparer(
                attempts[i],
            ) matches Ok(found) && found.len() == 0) by {
                assert(attempt_row_is(rows, attempts[i]));
            }
        }
        if attempts_compared(rows, wake)->Ok_0.len() == 0 {
            assert forall|i: int| 0 <= i < attempts.len() implies attempt_row_is(
                rows,
                #[trigger] attempts[i],
            ) by {
                assert(comparer(attempts[i]) matches Ok(found) && found.len() == 0);
            }
        }
    }
}

/// A comparison that answers compared every item.
proof fn every_item_is_compared<A>(
    items: Seq<A>,
    compare: spec_fn(A) -> Result<Seq<MismatchView>, StoreError>,
)
    requires
        gathered(items, compare) is Ok,
    ensures
        forall|i: int| 0 <= i < items.len() ==> (#[trigger] compare(items[i])) is Ok,
    decreases items.len(),
{
    if items.len() > 0 {
        let rest = items.drop_last();
        every_item_is_compared(rest, compare);
        assert forall|i: int| 0 <= i < items.len() implies (#[trigger] compare(items[i])) is Ok by {
            if i < rest.len() {
                assert(rest[i] == items[i]);
                assert(compare(rest[i]) is Ok);
            }
        }
    }
}

/// Comparing a wake revision finds nothing exactly where its row names the state its events fold to
/// and each folded attempt has a row that names its state. A row in any other state is reported with
/// both states.
pub proof fn a_delivery_passes_where_its_rows_are_the_fold(
    events: Seq<LedgerView>,
    stored: StoredDelivery,
    model: WakeModel,
    wake: WakeView,
)
    requires
        stored_wake(events, stored, model) == Ok::<WakeView, StoreError>(wake),
    ensures
        delivery_compared(events, stored, model) matches Ok(found) ==> {
            &&& found.len() == 0 <==> (delivery_state_named(stored.state@) == Some(wake.delivery.state)
                && forall|i: int|
                0 <= i < wake.delivery.attempts.len() ==> attempt_row_is(
                    stored.attempts@,
                    #[trigger] wake.delivery.attempts[i],
                ))
            &&& delivery_state_named(stored.state@) != Some(wake.delivery.state) ==> found.contains(
                MismatchView {
                    table: "browser_deliveries"@,
                    row: wake.key_hex,
                    column: "state"@,
                    stored: stored.state@,
                    replayed: delivery_state_label(wake.delivery.state)@,
                },
            )
        },
{
    attempts_pass_where_their_rows_are(stored.attempts@, wake);
    delivery_state_round_trips(wake.delivery.state);
    if delivery_compared(events, stored, model) is Ok {
        let found = delivery_compared(events, stored, model)->Ok_0;
        let state = delivery_state_named(stored.state@)->0;
        delivery_state_round_trips(state);
        assert(delivery_state_label(state)@ == stored.state@);
        let first = differs(
            "browser_deliveries",
            wake.key_hex,
            "state",
            delivery_state_label(state)@,
            delivery_state_label(wake.delivery.state)@,
        );
        let more = attempts_compared(stored.attempts@, wake)->Ok_0;
        if state != wake.delivery.state {
            assert(delivery_state_label(state)@ != delivery_state_label(wake.delivery.state)@);
            assert(found[0] == first[0]);
        }
    }
}

// --- Conditions ------------------------------------------------------------------------------------------

/// Whether a text holds no bar, the separator of a condition's key.
spec fn barless(text: Seq<char>) -> bool {
    forall|i: int| 0 <= i < text.len() ==> #[trigger] text[i] != '|'
}

proof fn a_part_is_one(a: Seq<char>, left: Seq<char>, b: Seq<char>, right: Seq<char>)
    requires
        barless(a),
        barless(b),
        a + seq!['|'] + left == b + seq!['|'] + right,
    ensures
        a == b,
        left == right,
{
    let whole = a + seq!['|'] + left;
    let other = b + seq!['|'] + right;
    assert(whole[a.len() as int] == '|');
    assert(other[b.len() as int] == '|');
    if a.len() < b.len() {
        assert(other[a.len() as int] == b[a.len() as int]);
    }
    if b.len() < a.len() {
        assert(whole[b.len() as int] == a[b.len() as int]);
    }
    assert(a =~= whole.take(a.len() as int));
    assert(b =~= other.take(a.len() as int));
    assert(left =~= whole.skip(a.len() as int + 1));
    assert(right =~= other.skip(a.len() as int + 1));
}

proof fn a_part_has_no_bar(id: Option<Id>)
    ensures
        barless(key_part(id)),
{
    reveal_strlit("-");
    if let Some(inner) = id {
        let text = canonical_text(inner.value);
        assert forall|i: int| 0 <= i < text.len() implies #[trigger] text[i] != '|' by {
            let d = nibble(inner.value, nibble_at(i));
            assert(0 <= d < 16);
            hex_char_value(d);
        }
    }
}

proof fn a_part_names_its_identity(a: Option<Id>, b: Option<Id>)
    requires
        key_part(a) == key_part(b),
    ensures
        a == b,
{
    reveal_strlit("-");
    if a is Some && b is Some {
        canonical_text_injective(a->0.value, b->0.value);
    } else if a is Some {
        assert(canonical_text(a->0.value).len() == 36);
    } else if b is Some {
        assert(canonical_text(b->0.value).len() == 36);
    }
}

proof fn a_kind_has_no_bar(kind: HealthConditionKind)
    ensures
        barless(health_kind_label(kind)@),
{
    reveal_strlit("suspected_stall");
    reveal_strlit("foreman_unreachable");
    reveal_strlit("mcp_write_capability_missing");
    reveal_strlit("browser_binding_displaced");
    reveal_strlit("result_artifact_missing");
    reveal_strlit("projection_mismatch");
    reveal_strlit("runtime_state_conflict");
    reveal_strlit("input_detail_unavailable");
    reveal_strlit("worker_defer_shape_unsupported");
    reveal_strlit("reconciliation_required");
    reveal_strlit("loadout_unverifiable");
    reveal_strlit("managed_config_missing");
    reveal_strlit("lineage_broken");
}

proof fn a_key_is_its_parts(kind: HealthConditionKind, scope: HealthScope, state: HealthConditionState)
    ensures
        key_of(kind, scope, state) == health_kind_label(kind)@ + seq!['|'] + (key_part(scope.task) + seq![
            '|',
        ] + (key_part(scope.turn) + seq!['|'] + (key_part(scope.obligation) + seq!['|'] + (key_part(
            scope.external_attempt,
        ) + seq!['|'] + health_state_label(state)@)))),
{
    reveal_strlit("|");
    assert("|"@ =~= seq!['|']);
    assert(key_of(kind, scope, state) =~= health_kind_label(kind)@ + seq!['|'] + (key_part(scope.task)
        + seq!['|'] + (key_part(scope.turn) + seq!['|'] + (key_part(scope.obligation) + seq!['|'] + (
    key_part(scope.external_attempt) + seq!['|'] + health_state_label(state)@)))));
}

/// A key names one condition: its kind, each part of the scope that is recorded, and its state.
pub proof fn a_key_names_one_condition(
    a_kind: HealthConditionKind,
    a_scope: HealthScope,
    a_state: HealthConditionState,
    b_kind: HealthConditionKind,
    b_scope: HealthScope,
    b_state: HealthConditionState,
)
    requires
        key_of(a_kind, a_scope, a_state) == key_of(b_kind, b_scope, b_state),
    ensures
        a_kind == b_kind,
        a_scope.task == b_scope.task,
        a_scope.turn == b_scope.turn,
        a_scope.obligation == b_scope.obligation,
        a_scope.external_attempt == b_scope.external_attempt,
        a_state == b_state,
{
    a_key_is_its_parts(a_kind, a_scope, a_state);
    a_key_is_its_parts(b_kind, b_scope, b_state);
    a_kind_has_no_bar(a_kind);
    a_kind_has_no_bar(b_kind);
    a_part_has_no_bar(a_scope.task);
    a_part_has_no_bar(b_scope.task);
    a_part_has_no_bar(a_scope.turn);
    a_part_has_no_bar(b_scope.turn);
    a_part_has_no_bar(a_scope.obligation);
    a_part_has_no_bar(b_scope.obligation);
    a_part_has_no_bar(a_scope.external_attempt);
    a_part_has_no_bar(b_scope.external_attempt);
    let bar = seq!['|'];
    let a4 = key_part(a_scope.external_attempt) + bar + health_state_label(a_state)@;
    let b4 = key_part(b_scope.external_attempt) + bar + health_state_label(b_state)@;
    let a3 = key_part(a_scope.obligation) + bar + a4;
    let b3 = key_part(b_scope.obligation) + bar + b4;
    let a2 = key_part(a_scope.turn) + bar + a3;
    let b2 = key_part(b_scope.turn) + bar + b3;
    let a1 = key_part(a_scope.task) + bar + a2;
    let b1 = key_part(b_scope.task) + bar + b2;
    a_part_is_one(health_kind_label(a_kind)@, a1, health_kind_label(b_kind)@, b1);
    a_part_is_one(key_part(a_scope.task), a2, key_part(b_scope.task), b2);
    a_part_is_one(key_part(a_scope.turn), a3, key_part(b_scope.turn), b3);
    a_part_is_one(key_part(a_scope.obligation), a4, key_part(b_scope.obligation), b4);
    a_part_is_one(
        key_part(a_scope.external_attempt),
        health_state_label(a_state)@,
        key_part(b_scope.external_attempt),
        health_state_label(b_state)@,
    );
    health_kind_round_trips(a_kind);
    health_kind_round_trips(b_kind);
    health_state_round_trips(a_state);
    health_state_round_trips(b_state);
    a_part_names_its_identity(a_scope.task, b_scope.task);
    a_part_names_its_identity(a_scope.turn, b_scope.turn);
    a_part_names_its_identity(a_scope.obligation, b_scope.obligation);
    a_part_names_its_identity(a_scope.external_attempt, b_scope.external_attempt);
}

/// A row is keyed by the condition it records: its kind, its scope and its state.
pub proof fn a_stored_condition_has_the_key_of_what_it_records(
    row: StoredCondition,
    kind: HealthConditionKind,
    scope: HealthScope,
    state: HealthConditionState,
)
    requires
        health_kind_named(row.kind@) == Some(kind),
        health_state_named(row.state@) == Some(state),
        text_view(row.task_id) == optional_text(scope.task),
        text_view(row.turn_id) == optional_text(scope.turn),
        text_view(row.obligation_id) == optional_text(scope.obligation),
        text_view(row.external_attempt_id) == optional_text(scope.external_attempt),
    ensures
        stored_key(row) == Ok::<Seq<char>, StoreError>(key_of(kind, scope, state)),
{
    if let Some(id) = scope.task {
        canonical_text_round_trips(id);
    }
    if let Some(id) = scope.turn {
        canonical_text_round_trips(id);
    }
    if let Some(id) = scope.obligation {
        canonical_text_round_trips(id);
    }
    if let Some(id) = scope.external_attempt {
        canonical_text_round_trips(id);
    }
}

/// How often a text occurs is how many positions hold it.
pub proof fn occurrences_count_positions(names: Seq<Seq<char>>, name: Seq<char>)
    ensures
        occurrences(names, name) == names.to_multiset().count(name),
    decreases names.len(),
{
    broadcast use vstd::seq_lib::group_to_multiset_ensures;

    if names.len() > 0 {
        let rest = names.drop_last();
        occurrences_count_positions(rest, name);
        assert(names =~= rest.push(names.last()));
    }
}

/// A verified store records exactly the conditions its ledger folds to: of every kind, scope and state
/// there are as many rows as there are folded conditions.
pub proof fn a_verified_store_has_its_ledgers_conditions(
    stored: StoredProjections,
    model: ObligationModel,
    wakes: WakeModel,
    r: Result<VerifiedProjections, StoreError>,
)
    requires
        answers(r, disagreements(stored, model, wakes), stored),
        r is Ok,
    ensures
        health_folded(ledger_view(stored.events@)) matches Ok(conditions) && collected(
            stored.conditions@,
            condition_reader(),
        ) matches Ok(keys) && keys.to_multiset() == folded_keys(conditions).to_multiset(),
{
    broadcast use vstd::seq_lib::group_to_multiset_ensures;

    nothing_was_found(stored, model, wakes, r);
    let events = ledger_view(stored.events@);
    let conditions = health_folded(events)->Ok_0;
    let keys = collected(stored.conditions@, condition_reader())->Ok_0;
    let replayed = folded_keys(conditions);
    let all = dictionary(keys + replayed);
    let comparer = key_comparer(keys, replayed);
    a_dictionary_exists(keys + replayed);
    a_list_agrees_where_every_item_does(all, comparer);
    assert forall|key: Seq<char>| keys.to_multiset().count(key) == replayed.to_multiset().count(key) by {
        occurrences_count_positions(keys, key);
        occurrences_count_positions(replayed, key);
        if (keys + replayed).contains(key) {
            assert(all.contains(key));
            let at = choose|at: int| 0 <= at < all.len() && all[at] == key;
            assert(comparer(all[at]) matches Ok(none) && none.len() == 0);
            nat_text_denotes(occurrences(keys, key));
            nat_text_denotes(occurrences(replayed, key));
        } else {
            assert(!keys.contains(key)) by {
                if keys.contains(key) {
                    let k = choose|k: int| 0 <= k < keys.len() && keys[k] == key;
                    assert((keys + replayed)[k] == key);
                }
            }
            assert(!replayed.contains(key)) by {
                if replayed.contains(key) {
                    let k = choose|k: int| 0 <= k < replayed.len() && replayed[k] == key;
                    assert((keys + replayed)[keys.len() + k] == key);
                }
            }
        }
    }
    assert(keys.to_multiset() =~= replayed.to_multiset());
}

/// A folded condition is keyed by its own kind, scope and state.
pub proof fn a_folded_condition_has_its_own_key(conditions: Seq<HealthCondition>, i: int)
    requires
        0 <= i < conditions.len(),
    ensures
        folded_keys(conditions).len() == conditions.len(),
        folded_keys(conditions)[i] == key_of(
            conditions[i].kind,
            conditions[i].scope,
            conditions[i].state,
        ),
{
}

/// A verification that succeeds says how far it went and how much it compared; one that finds
/// disagreements reports each of them.
pub proof fn a_verification_answers_what_it_compared(
    stored: StoredProjections,
    model: ObligationModel,
    wakes: WakeModel,
    r: Result<VerifiedProjections, StoreError>,
)
    requires
        answers(r, disagreements(stored, model, wakes), stored),
    ensures
        r matches Ok(done) ==> {
            &&& done.deliveries == stored.deliveries@.len() as usize
            &&& done.obligations == ids_of(ledger_view(stored.events@)).len() as usize
            &&& done.verified_through is None <==> stored.highest is None
            &&& stored.highest matches Some(head) ==> done.verified_through == Some(head as u64)
                && head >= 0
        },
        disagreements(stored, model, wakes) matches Ok(found) ==> {
            &&& found.len() > 0 ==> (r matches Err(StoreError::RepairNeeded(needed))
                && needed.mismatches@.len() == found.len() && forall|k: int|
                0 <= k < found.len() ==> #[trigger] needed.mismatches@[k]@ == found[k])
            &&& found.len() == 0 && (stored.highest matches Some(head) ==> head >= 0) ==> r is Ok
        },
{
}

// --- The whole store -------------------------------------------------------------------------------------

/// What a verification that answers has found nothing wrong with: every table was compared and none
/// disagreed.
proof fn nothing_was_found(
    stored: StoredProjections,
    model: ObligationModel,
    wakes: WakeModel,
    r: Result<VerifiedProjections, StoreError>,
)
    requires
        answers(r, disagreements(stored, model, wakes), stored),
        r is Ok,
    ensures
        ({
            let events = ledger_view(stored.events@);
            let records = stored.obligations@;
            &&& gathered(ids_of(events), record_comparer(events, records, model)) matches Ok(a) && a.len()
                == 0
            &&& gathered(ids_of(events), turn_comparer(events, records)) matches Ok(b) && b.len() == 0
            &&& retention_compared(events, records, stored.artifacts@, model) matches Ok(c) && c.len()
                == 0
            &&& crate::store::replay::health_compared(events, stored.conditions@) matches Ok(d)
                && d.len() == 0
            &&& gathered(stored.deliveries@, delivery_comparer(events, wakes)) matches Ok(e) && e.len()
                == 0
        }),
{
}

/// A verified store holds what its ledger says. Every obligation of the ledger has a record whose
/// columns are what all of its events fold to, and a turn row in the lifecycle they leave it in; every
/// wake revision's row names the state its events fold to, and every folded attempt has a row that
/// names its state.
pub proof fn a_verified_store_is_what_its_ledger_says(
    stored: StoredProjections,
    model: ObligationModel,
    wakes: WakeModel,
    r: Result<VerifiedProjections, StoreError>,
)
    requires
        answers(r, disagreements(stored, model, wakes), stored),
        r is Ok,
    ensures
        forall|id: ObligationId| #[trigger]
            about(ledger_view(stored.events@), id) ==> ({
                let slice = slice_of(ledger_view(stored.events@), id);
                &&& record_of(stored.obligations@, id) matches Ok(record)
                &&& identity_of(record.identity) matches Ok(identity)
                &&& folded(record.id, identity, slice, model) matches Ok(loaded)
                &&& row_is(record.stored, loaded)
                &&& identity.turn is Some ==> (record.lifecycle matches Ok(label)
                    && turn_lifecycle_named(label@) matches Some(lifecycle) && lifecycle_is(
                    slice,
                    lifecycle,
                ))
            }),
        forall|i: int|
            0 <= i < stored.deliveries@.len() ==> ({
                let delivery = #[trigger] stored.deliveries@[i];
                &&& stored_wake(ledger_view(stored.events@), delivery, wakes) matches Ok(wake)
                &&& delivery_state_named(delivery.state@) == Some(wake.delivery.state)
                &&& forall|k: int|
                    0 <= k < wake.delivery.attempts.len() ==> attempt_row_is(
                        delivery.attempts@,
                        #[trigger] wake.delivery.attempts[k],
                    )
            }),
{
    let events = ledger_view(stored.events@);
    let records = stored.obligations@;
    nothing_was_found(stored, model, wakes, r);
    the_list_is_complete(events);
    let ids = ids_of(events);
    let rows = record_comparer(events, records, model);
    let turns = turn_comparer(events, records);
    let revisions = delivery_comparer(events, wakes);
    a_list_agrees_where_every_item_does(ids, rows);
    a_list_agrees_where_every_item_does(ids, turns);
    a_list_agrees_where_every_item_does(stored.deliveries@, revisions);
    assert forall|id: ObligationId| #[trigger] about(events, id) implies ({
        let slice = slice_of(events, id);
        &&& record_of(records, id) matches Ok(record)
        &&& identity_of(record.identity) matches Ok(identity)
        &&& folded(record.id, identity, slice, model) matches Ok(loaded)
        &&& row_is(record.stored, loaded)
        &&& identity.turn is Some ==> (record.lifecycle matches Ok(label) && turn_lifecycle_named(
            label@,
        ) matches Some(lifecycle) && lifecycle_is(slice, lifecycle))
    }) by {
        assert(ids.contains(id));
        let at = choose|at: int| 0 <= at < ids.len() && ids[at] == id;
        assert(rows(ids[at]) matches Ok(none) && none.len() == 0);
        assert(turns(ids[at]) matches Ok(none) && none.len() == 0);
        let slice = slice_of(events, id);
        let record = record_of(records, id)->Ok_0;
        let identity = identity_of(record.identity)->Ok_0;
        let loaded = folded(record.id, identity, slice, model)->Ok_0;
        an_obligation_row_passes_where_it_is_the_fold(record.id, record.stored, loaded);
        a_turn_passes_where_its_row_is_the_ledgers(record, identity, slice);
        a_turn_ends_as_its_last_ending_says(slice);
    }
    assert forall|i: int| 0 <= i < stored.deliveries@.len() implies ({
        let delivery = #[trigger] stored.deliveries@[i];
        &&& stored_wake(events, delivery, wakes) matches Ok(wake)
        &&& delivery_state_named(delivery.state@) == Some(wake.delivery.state)
        &&& forall|k: int|
            0 <= k < wake.delivery.attempts.len() ==> attempt_row_is(
                delivery.attempts@,
                #[trigger] wake.delivery.attempts[k],
            )
    }) by {
        let delivery = stored.deliveries@[i];
        assert(revisions(stored.deliveries@[i]) matches Ok(none) && none.len() == 0);
        let wake = stored_wake(events, delivery, wakes)->Ok_0;
        a_delivery_passes_where_its_rows_are_the_fold(events, delivery, wakes, wake);
    }
}

} // verus!
