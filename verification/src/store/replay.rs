//! Projection replay equivalence: every projection rebuilt from the ledger and compared with the
//! rows, and every disagreement reported.
//!
//! The mutation journal, external attempts and leases are not derived from the ledger; their rows
//! are re-proved whenever they are read.
use vstd::prelude::*;
use crate::domain::conflict::Conflict;
use crate::domain::delivery::{
    Attempt, BrowserWake, Delivery, DeliveryEvent, DeliveryReply, WakeModel, WakeRules, WakeView,
};
use crate::domain::fence::{BindingGeneration, DeliveryRevision, EventSeq};
use crate::domain::health::{HealthCondition, HealthConditionKind, HealthConditionState, HealthScope};
use crate::domain::id::{canonical_text, id_named, id_of_text, id_text, Id, ObligationId};
use crate::domain::obligation::{
    CompletionReceipts, Obligation, ObligationEvent, ObligationModel, ObligationReply,
    ObligationRules, WorkerOutcome,
};
use crate::store::codec::{
    id_column, optional_id_column, or_empty, parse_id, parse_optional_id, parse_u32, parse_u64,
    text_or_empty, text_view, u32_column, u64_column,
};
use crate::store::error::{
    chain, collected, collected_one_more, corrupt, corrupt_row, CorruptReason, MismatchView,
    ProjectionMismatch, RepairNeeded, StoreError,
};
use crate::store::event::{highest_seq, parse_seq, LedgerEvent, LedgerView};
use crate::store::event_kind::EventKind;
use crate::store::labels::{
    attempt_state_label, attempt_state_named, decode_attempt_state, decode_delivery_state,
    decode_health_kind, decode_health_state, decode_obligation_state, decode_retention,
    decode_turn_lifecycle, delivery_state_label, delivery_state_named, encode_attempt_state,
    encode_delivery_state, encode_health_kind, encode_health_state, encode_obligation_state,
    encode_retention, encode_turn_lifecycle, health_kind_label, health_kind_named,
    health_state_label, health_state_named, obligation_state_label, obligation_state_named,
    retention_label, retention_named, turn_lifecycle_label, turn_lifecycle_named, TurnLifecycle,
};
use crate::store::load::artifact::{
    artifact_of, refresh_retention, result_artifact, retention_of, ArtifactReference, ArtifactRow,
};
use crate::store::load::delivery::{wake_by_hex, wake_of, SourceRow, WakeRow};
use crate::store::load::health::{fold_health, health_folded};
use crate::store::load::obligation::{
    fold_obligation, folded, identity_of, ledger_view, obligation_identity, IdentityRow,
    LoadedObligation, LoadedView, ObligationIdentity,
};
use crate::text::{
    dictionary, int_string, int_text, join3, nat_string, nat_text, nat_text_denotes, same,
    sorted_set, string_texts,
};

verus! {

/// The outcome of a successful replay verification.
#[derive(Debug, Clone, Copy, PartialEq, Eq, Structural)]
pub struct VerifiedProjections {
    /// Obligations rebuilt and compared.
    pub obligations: usize,
    /// Wake revisions rebuilt and compared.
    pub deliveries: usize,
    /// Highest ledger sequence covered, recorded as the watermark.
    pub verified_through: Option<EventSeq>,
}

// --- Collecting disagreements --------------------------------------------------------------------------

/// Disagreements on values alone.
pub open spec fn views(mismatches: Seq<ProjectionMismatch>) -> Seq<MismatchView> {
    Seq::new(mismatches.len(), |i: int| mismatches[i]@)
}

/// What was compared, on values alone, or the failure.
pub open spec fn compared_view(r: Result<Vec<ProjectionMismatch>, StoreError>) -> Result<
    Seq<MismatchView>,
    StoreError,
> {
    match r {
        Ok(mismatches) => Ok(views(mismatches@)),
        Err(e) => Err(e),
    }
}

/// One field compared: nothing where it agrees.
pub open spec fn differs(
    table: &'static str,
    row: Seq<char>,
    column: &'static str,
    stored: Seq<char>,
    replayed: Seq<char>,
) -> Seq<MismatchView> {
    if stored == replayed {
        Seq::empty()
    } else {
        seq![MismatchView { table: table@, row, column: column@, stored, replayed }]
    }
}

/// Compares one field, and records a disagreement.
fn record(
    mismatches: &mut Vec<ProjectionMismatch>,
    table: &'static str,
    row: &str,
    column: &'static str,
    stored: &str,
    replayed: &str,
)
    ensures
        views(final(mismatches)@) == views(old(mismatches)@) + differs(
            table,
            row@,
            column,
            stored@,
            replayed@,
        ),
{
    if !same(stored, replayed) {
        mismatches.push(
            ProjectionMismatch {
                table,
                row: row.to_owned(),
                column,
                stored: stored.to_owned(),
                replayed: replayed.to_owned(),
            },
        );
        assert(views(mismatches@) =~= views(old(mismatches)@) + differs(
            table,
            row@,
            column,
            stored@,
            replayed@,
        ));
    } else {
        assert(views(mismatches@) =~= views(old(mismatches)@) + differs(
            table,
            row@,
            column,
            stored@,
            replayed@,
        ));
    }
}

/// What comparing every item of a list finds, in order; the first failure ends it.
pub open spec fn gathered<A>(
    items: Seq<A>,
    compare: spec_fn(A) -> Result<Seq<MismatchView>, StoreError>,
) -> Result<Seq<MismatchView>, StoreError>
    decreases items.len(),
{
    if items.len() == 0 {
        Ok(Seq::empty())
    } else {
        match gathered(items.drop_last(), compare) {
            Err(e) => Err(e),
            Ok(found) => match compare(items.last()) {
                Err(e) => Err(e),
                Ok(more) => Ok(found + more),
            },
        }
    }
}

proof fn gathered_fault_stays<A>(
    items: Seq<A>,
    compare: spec_fn(A) -> Result<Seq<MismatchView>, StoreError>,
    n: int,
)
    requires
        0 <= n <= items.len(),
        gathered(items.take(n), compare) is Err,
    ensures
        gathered(items, compare) == gathered(items.take(n), compare),
    decreases items.len() - n,
{
    if n < items.len() {
        assert(items.take(n + 1).drop_last() =~= items.take(n));
        gathered_fault_stays(items, compare, n + 1);
    } else {
        assert(items.take(n) =~= items);
    }
}

proof fn gathered_one_more<A>(
    items: Seq<A>,
    compare: spec_fn(A) -> Result<Seq<MismatchView>, StoreError>,
    n: int,
)
    requires
        0 <= n < items.len(),
        gathered(items.take(n), compare) is Ok,
    ensures
        gathered(items.take(n + 1), compare) == (match compare(items[n]) {
            Err(e) => Err::<Seq<MismatchView>, StoreError>(e),
            Ok(more) => Ok(gathered(items.take(n), compare)->Ok_0 + more),
        }),
        compare(items[n]) is Err ==> gathered(items, compare) == Err::<
            Seq<MismatchView>,
            StoreError,
        >(compare(items[n])->Err_0),
{
    assert(items.take(n + 1).drop_last() =~= items.take(n));
    assert(items.take(n + 1).last() == items[n]);
    if compare(items[n]) is Err {
        gathered_fault_stays(items, compare, n + 1);
    }
}

/// Appends further disagreements.
fn extend(mismatches: &mut Vec<ProjectionMismatch>, more: Vec<ProjectionMismatch>)
    ensures
        views(final(mismatches)@) == views(old(mismatches)@) + views(more@),
{
    let ghost added = more@;
    let mut rest = more;
    mismatches.append(&mut rest);
    assert(views(mismatches@) =~= views(old(mismatches)@) + views(added));
}

// --- The obligations of the ledger ---------------------------------------------------------------------

/// The events of one obligation, in ledger order.
pub open spec fn slice_of(events: Seq<LedgerView>, id: ObligationId) -> Seq<LedgerView>
    decreases events.len(),
{
    if events.len() == 0 {
        Seq::empty()
    } else {
        let before = slice_of(events.drop_last(), id);
        if events.last().scope.obligation == Some(id) {
            before.push(events.last())
        } else {
            before
        }
    }
}

/// Cuts the events of one obligation out of the ledger.
pub fn obligation_slice(events: &Vec<LedgerEvent>, id: ObligationId) -> (r: Vec<LedgerEvent>)
    ensures
        ledger_view(r@) == slice_of(ledger_view(events@), id),
{
    let ghost all = ledger_view(events@);
    let mut out: Vec<LedgerEvent> = Vec::new();
    let mut i: usize = 0;
    assert(all.take(0) =~= Seq::<LedgerView>::empty());
    assert(ledger_view(out@) =~= Seq::<LedgerView>::empty());
    while i < events.len()
        invariant
            i <= events@.len(),
            all == ledger_view(events@),
            ledger_view(out@) == slice_of(all.take(i as int), id),
        decreases events@.len() - i,
    {
        let event = &events[i];
        let ghost before = out@;
        proof {
            assert(all.take(i + 1).drop_last() =~= all.take(i as int));
            assert(all.take(i + 1).last() == event@);
        }
        let about = match event.scope.obligation {
            Some(found) => found.value == id.value,
            None => false,
        };
        if about {
            out.push(event.clone());
            assert(ledger_view(out@) =~= ledger_view(before).push(event@));
        }
        i = i + 1;
    }
    assert(all.take(i as int) =~= all);
    out
}

/// Whether identities stand in strictly increasing order.
pub open spec fn increasing(ids: Seq<ObligationId>) -> bool {
    forall|i: int, j: int| 0 <= i < j < ids.len() ==> #[trigger] ids[i].value < #[trigger] ids[j].value
}

/// Whether some event is about an obligation.
pub open spec fn about(events: Seq<LedgerView>, id: ObligationId) -> bool {
    exists|i: int| 0 <= i < events.len() && (#[trigger] events[i]).scope.obligation == Some(id)
}

/// Whether a list holds the obligations a ledger speaks of, each once, in the order of their
/// identities.
pub open spec fn lists(ids: Seq<ObligationId>, events: Seq<LedgerView>) -> bool {
    &&& increasing(ids)
    &&& forall|id: ObligationId| #[trigger] ids.contains(id) <==> about(events, id)
}

/// The obligations a ledger speaks of, each once, in the order of their identities.
pub open spec fn ids_of(events: Seq<LedgerView>) -> Seq<ObligationId> {
    choose|ids: Seq<ObligationId>| lists(ids, events)
}

proof fn one_list(a: Seq<ObligationId>, b: Seq<ObligationId>)
    requires
        increasing(a),
        increasing(b),
        forall|id: ObligationId| #[trigger] a.contains(id) <==> b.contains(id),
    ensures
        a == b,
    decreases a.len(),
{
    if a.len() == 0 {
        if b.len() > 0 {
            assert(b.contains(b[0]));
            assert(a.contains(b[0]));
        }
    } else {
        assert(a.contains(a[0]));
        assert(b.len() > 0);
        let m = a.len() - 1;
        let n = b.len() - 1;
        assert(a.contains(a[m]));
        assert(b.contains(b[n]));
        assert(a.contains(b[n]));
        let i = choose|i: int| 0 <= i < b.len() && b[i] == a[m];
        let j = choose|j: int| 0 <= j < a.len() && a[j] == b[n];
        assert(b[i].value <= b[n].value);
        assert(a[j].value <= a[m].value);
        assert(a[m] == b[n]);
        let rest_a = a.drop_last();
        let rest_b = b.drop_last();
        assert forall|id: ObligationId| #[trigger] rest_a.contains(id) <==> rest_b.contains(id) by {
            if rest_a.contains(id) {
                let k = choose|k: int| 0 <= k < rest_a.len() && rest_a[k] == id;
                assert(a[k] == id && a[k].value < a[m].value);
                assert(a.contains(id));
                let l = choose|l: int| 0 <= l < b.len() && b[l] == id;
                assert(rest_b[l] == id);
            }
            if rest_b.contains(id) {
                let k = choose|k: int| 0 <= k < rest_b.len() && rest_b[k] == id;
                assert(b[k] == id && b[k].value < b[n].value);
                assert(b.contains(id));
                assert(a.contains(id));
                let l = choose|l: int| 0 <= l < a.len() && a[l] == id;
                assert(rest_a[l] == id);
            }
        }
        one_list(rest_a, rest_b);
        assert(a =~= rest_a.push(a[m]));
        assert(b =~= rest_b.push(b[n]));
    }
}

proof fn place(ids: Seq<ObligationId>, id: ObligationId) -> (p: int)
    requires
        increasing(ids),
        !ids.contains(id),
    ensures
        0 <= p <= ids.len(),
        forall|k: int| 0 <= k < p ==> (#[trigger] ids[k]).value < id.value,
        forall|k: int| p <= k < ids.len() ==> (#[trigger] ids[k]).value > id.value,
    decreases ids.len(),
{
    if ids.len() == 0 {
        0
    } else {
        let n = ids.len() - 1;
        assert(ids.contains(ids[n]));
        if ids[n].value < id.value {
            assert forall|k: int| 0 <= k < ids.len() implies (#[trigger] ids[k]).value < id.value by {
                if k < n {
                    assert(ids[k].value < ids[n].value);
                }
            }
            ids.len() as int
        } else {
            assert(ids[n].value != id.value) by {
                assert(ids[n] != id);
            }
            let rest = ids.drop_last();
            assert forall|k: int| 0 <= k < rest.len() implies rest[k] != id by {
                assert(ids.contains(ids[k]));
            }
            let p = place(rest, id);
            assert forall|k: int| p <= k < ids.len() implies (#[trigger] ids[k]).value > id.value by {
                if k < n {
                    assert(rest[k] == ids[k]);
                }
            }
            assert forall|k: int| 0 <= k < p implies (#[trigger] ids[k]).value < id.value by {
                assert(rest[k] == ids[k]);
            }
            p
        }
    }
}

proof fn inserted_in_place(ids: Seq<ObligationId>, p: int, id: ObligationId)
    requires
        increasing(ids),
        0 <= p <= ids.len(),
        forall|k: int| 0 <= k < p ==> (#[trigger] ids[k]).value < id.value,
        forall|k: int| p <= k < ids.len() ==> (#[trigger] ids[k]).value > id.value,
    ensures
        increasing(ids.insert(p, id)),
        forall|other: ObligationId| #[trigger]
            ids.insert(p, id).contains(other) <==> ids.contains(other) || other == id,
{
    let more = ids.insert(p, id);
    assert forall|a: int, b: int| 0 <= a < b < more.len() implies #[trigger] more[a].value
        < #[trigger] more[b].value by {
        if a < p && b > p {
            assert(ids[a].value < ids[b - 1].value);
        } else if a < p && b < p {
            assert(ids[a].value < ids[b].value);
        } else if a > p {
            assert(ids[a - 1].value < ids[b - 1].value);
        }
    }
    assert forall|other: ObligationId| #[trigger] more.contains(other) <==> ids.contains(other)
        || other == id by {
        assert(more[p] == id);
        if ids.contains(other) {
            let k = choose|k: int| 0 <= k < ids.len() && ids[k] == other;
            if k < p {
                assert(more[k] == other);
            } else {
                assert(more[k + 1] == other);
            }
        }
        if more.contains(other) && other != id {
            let k = choose|k: int| 0 <= k < more.len() && more[k] == other;
            if k < p {
                assert(ids[k] == other);
            } else {
                assert(ids[k - 1] == other);
            }
        }
    }
}

/// Every ledger has its list: an obligation is on it exactly where some event is about it.
pub proof fn the_list_is_complete(events: Seq<LedgerView>)
    ensures
        lists(ids_of(events), events),
    decreases events.len(),
{
    let ids = if events.len() == 0 {
        Seq::<ObligationId>::empty()
    } else {
        let less = events.drop_last();
        the_list_is_complete(less);
        let before = ids_of(less);
        let n = events.len() - 1;
        assert(events.take(n) =~= less);
        assert(events.take(n + 1) =~= events);
        assert forall|id: ObligationId| #[trigger] about(events, id) <==> about(less, id)
            || events[n].scope.obligation == Some(id) by {
            one_more_about(events, n, id);
        }
        match events[n].scope.obligation {
            None => before,
            Some(id) => if before.contains(id) {
                before
            } else {
                let p = place(before, id);
                inserted_in_place(before, p, id);
                before.insert(p, id)
            },
        }
    };
    assert(lists(ids, events));
}

/// Lists the obligations the ledger speaks of, each once, in the order of their identities.
pub fn obligations_of(events: &Vec<LedgerEvent>) -> (r: Vec<ObligationId>)
    ensures
        lists(r@, ledger_view(events@)),
        r@ == ids_of(ledger_view(events@)),
{
    let ghost all = ledger_view(events@);
    let mut out: Vec<ObligationId> = Vec::new();
    let mut i: usize = 0;
    while i < events.len()
        invariant
            i <= events@.len(),
            all == ledger_view(events@),
            increasing(out@),
            forall|id: ObligationId| #[trigger]
                out@.contains(id) <==> about(all.take(i as int), id),
        decreases events@.len() - i,
    {
        let event = &events[i];
        let ghost before = out@;
        assert(all[i as int] == event@);
        match event.scope.obligation {
            None => {
                assert forall|id: ObligationId| #[trigger] out@.contains(id) <==> about(
                    all.take(i + 1),
                    id,
                ) by {
                    one_more_about(all, i as int, id);
                }
            },
            Some(id) => {
                let mut at: usize = 0;
                while at < out.len() && out[at].value < id.value
                    invariant
                        at <= out@.len(),
                        out@ == before,
                        forall|k: int| 0 <= k < at ==> (#[trigger] out@[k]).value < id.value,
                    decreases out@.len() - at,
                {
                    at = at + 1;
                }
                let known = at < out.len() && out[at].value == id.value;
                if !known {
                    proof {
                        let p = at as int;
                        assert forall|k: int| p <= k < before.len() implies (#[trigger] before[k]).value
                            > id.value by {
                            if k > p {
                                assert(before[p].value < before[k].value);
                            }
                        }
                        inserted_in_place(before, p, id);
                    }
                    out.insert(at, id);
                }
                proof {
                    assert forall|other: ObligationId| #[trigger] out@.contains(other) <==> about(
                        all.take(i + 1),
                        other,
                    ) by {
                        one_more_about(all, i as int, other);
                        assert(before.contains(other) <==> about(all.take(i as int), other));
                        if known {
                            assert(out@[at as int] == id);
                        }
                    }
                }
            },
        }
        i = i + 1;
    }
    assert(all.take(i as int) =~= all);
    proof {
        assert(lists(out@, all));
        one_list(out@, ids_of(all));
    }
    out
}

proof fn one_more_about(events: Seq<LedgerView>, n: int, id: ObligationId)
    requires
        0 <= n < events.len(),
    ensures
        about(events.take(n + 1), id) <==> about(events.take(n), id)
            || events[n].scope.obligation == Some(id),
{
    let more = events.take(n + 1);
    let less = events.take(n);
    if about(more, id) {
        let i = choose|i: int| 0 <= i < more.len() && (#[trigger] more[i]).scope.obligation == Some(id);
        if i < n {
            assert(less[i].scope.obligation == Some(id));
        }
    }
    if about(less, id) {
        let i = choose|i: int| 0 <= i < less.len() && (#[trigger] less[i]).scope.obligation == Some(id);
        assert(more[i].scope.obligation == Some(id));
    }
    if events[n].scope.obligation == Some(id) {
        assert(more[n].scope.obligation == Some(id));
    }
}

// --- One obligation ------------------------------------------------------------------------------------

/// The projection columns of an `obligations` row, as read.
#[derive(Debug, PartialEq, Eq)]
pub struct StoredObligation {
    pub state: String,
    pub current_version: i64,
    pub current_claim_id: Option<String>,
    pub result_artifact_id: Option<String>,
    pub source_event_seq: i64,
}

/// Everything that is recorded of one obligation beside the ledger.
#[derive(Debug, PartialEq, Eq)]
pub struct ObligationRecord {
    pub id: ObligationId,
    pub identity: Option<IdentityRow>,
    pub stored: StoredObligation,
    /// Sequence and version of each recorded transition, in version order.
    pub transitions: Vec<(i64, i64)>,
    /// The lifecycle of the obligation's turn, or the engine's words where its row could not be
    /// read; not looked at where the obligation has no turn.
    pub lifecycle: Result<String, String>,
}

/// What is recorded of an obligation: the first record of its identity.
pub open spec fn record_of(records: Seq<ObligationRecord>, id: ObligationId) -> Result<
    ObligationRecord,
    StoreError,
>
    decreases records.len(),
{
    if records.len() == 0 {
        Err(corrupt("obligations", "obligation_id", CorruptReason::DanglingReference))
    } else if records[0].id == id {
        Ok(records[0])
    } else {
        record_of(records.drop_first(), id)
    }
}

fn find_record(records: &Vec<ObligationRecord>, id: ObligationId) -> (r: Result<
    &ObligationRecord,
    StoreError,
>)
    ensures
        match r {
            Ok(record) => record_of(records@, id) == Ok::<ObligationRecord, StoreError>(*record)
                && record.id == id,
            Err(e) => record_of(records@, id) == Err::<ObligationRecord, StoreError>(e),
        },
{
    let mut i: usize = 0;
    assert(records@.skip(0) =~= records@);
    while i < records.len()
        invariant
            i <= records@.len(),
            record_of(records@, id) == record_of(records@.skip(i as int), id),
        decreases records@.len() - i,
    {
        assert(records@.skip(i as int)[0] == records@[i as int]);
        assert(records@.skip(i as int).drop_first() =~= records@.skip(i + 1));
        if records[i].id.value == id.value {
            return Ok(&records[i]);
        }
        i = i + 1;
    }
    Err(corrupt_row("obligations", "obligation_id", CorruptReason::DanglingReference))
}

/// The text of an optional identity; empty where there is none.
pub open spec fn id_or_empty(id: Option<Id>) -> Seq<char> {
    match id {
        Some(inner) => canonical_text(inner.value),
        None => Seq::empty(),
    }
}

fn optional_text(id: Option<Id>) -> (r: String)
    ensures
        r@ == id_or_empty(id),
{
    match id {
        Some(inner) => id_text(inner),
        None => String::new(),
    }
}

/// Where an obligation row disagrees with its replay.
pub open spec fn obligation_compared(id: ObligationId, stored: StoredObligation, replayed: LoadedView) -> Result<
    Seq<MismatchView>,
    StoreError,
> {
    let t = "obligations";
    let row = canonical_text(id.value);
    match obligation_state_named(stored.state@) {
        None => Err(corrupt(t, "state", CorruptReason::UnknownLabel)),
        Some(state) => Ok(
            differs(
                t,
                row,
                "state",
                obligation_state_label(state)@,
                obligation_state_label(replayed.projection.state)@,
            ) + differs(
                t,
                row,
                "current_version",
                int_text(stored.current_version as int),
                nat_text(replayed.projection.version as nat),
            ) + differs(
                t,
                row,
                "current_claim_id",
                text_or_empty(stored.current_claim_id),
                id_or_empty(replayed.projection.claim),
            ) + differs(
                t,
                row,
                "result_artifact_id",
                text_or_empty(stored.result_artifact_id),
                id_or_empty(replayed.projection.result_artifact),
            ) + differs(
                t,
                row,
                "source_event_seq",
                int_text(stored.source_event_seq as int),
                nat_text(replayed.source_event_seq as nat),
            ),
        ),
    }
}

/// Compares one obligation row with its replay, field by field.
pub fn compare_obligation(id: ObligationId, stored: &StoredObligation, replayed: &LoadedObligation) -> (r: Result<
    Vec<ProjectionMismatch>,
    StoreError,
>)
    ensures
        compared_view(r) == obligation_compared(id, *stored, replayed@),
{
    let t = "obligations";
    let mut out: Vec<ProjectionMismatch> = Vec::new();
    let row = id_text(id);
    let state = decode_obligation_state(stored.state.as_str(), t)?;
    let projection = &replayed.projection;
    assert(views(out@) =~= Seq::<MismatchView>::empty());
    record(
        &mut out,
        t,
        row.as_str(),
        "state",
        encode_obligation_state(state),
        encode_obligation_state(projection.state),
    );
    assert(views(out@) =~= differs(
        t,
        row@,
        "state",
        obligation_state_label(state)@,
        obligation_state_label(projection.state)@,
    ));
    let stored_version = int_string(stored.current_version);
    let version = nat_string(projection.version);
    record(
        &mut out,
        t,
        row.as_str(),
        "current_version",
        stored_version.as_str(),
        version.as_str(),
    );
    let claim = optional_text(projection.claim);
    record(
        &mut out,
        t,
        row.as_str(),
        "current_claim_id",
        or_empty(&stored.current_claim_id),
        claim.as_str(),
    );
    let artifact = optional_text(projection.result_artifact);
    record(
        &mut out,
        t,
        row.as_str(),
        "result_artifact_id",
        or_empty(&stored.result_artifact_id),
        artifact.as_str(),
    );
    let stored_seq = int_string(stored.source_event_seq);
    let seq = nat_string(replayed.source_event_seq);
    record(&mut out, t, row.as_str(), "source_event_seq", stored_seq.as_str(), seq.as_str());
    Ok(out)
}

// --- The transitions of one obligation -----------------------------------------------------------------

/// One recorded transition: sequence and version.
pub open spec fn transition_columns(row: (i64, i64)) -> Result<(EventSeq, u64), StoreError> {
    let t = "obligation_events";
    chain(
        u64_column(row.0, t, "event_seq"),
        |seq: u64|
            chain(u64_column(row.1, t, "obligation_version"), |version: u64| Ok((seq, version))),
    )
}

/// How a recorded transition reads.
pub open spec fn transition_reader() -> spec_fn((i64, i64)) -> Result<(EventSeq, u64), StoreError> {
    |row: (i64, i64)| transition_columns(row)
}

fn read_transitions(rows: &Vec<(i64, i64)>) -> (r: Result<Vec<(EventSeq, u64)>, StoreError>)
    ensures
        match r {
            Ok(read) => collected(rows@, transition_reader()) == Ok::<Seq<(EventSeq, u64)>, StoreError>(
                read@,
            ),
            Err(e) => collected(rows@, transition_reader()) == Err::<
                Seq<(EventSeq, u64)>,
                StoreError,
            >(e),
        },
{
    let t = "obligation_events";
    let mut out: Vec<(EventSeq, u64)> = Vec::new();
    let mut i: usize = 0;
    assert(rows@.take(0) =~= Seq::<(i64, i64)>::empty());
    while i < rows.len()
        invariant
            t == "obligation_events",
            i <= rows@.len(),
            collected(rows@.take(i as int), transition_reader()) == Ok::<
                Seq<(EventSeq, u64)>,
                StoreError,
            >(out@),
        decreases rows@.len() - i,
    {
        proof {
            collected_one_more(rows@, transition_reader(), i as int);
        }
        let (stored_seq, stored_version) = rows[i];
        let seq: u64 = parse_seq(stored_seq, t, "event_seq")?;
        let version: u64 = parse_u64(stored_version, t, "obligation_version")?;
        out.push((seq, version));
        i = i + 1;
    }
    assert(rows@.take(i as int) =~= rows@);
    Ok(out)
}

/// The version recorded for an event; the last one where several are.
pub open spec fn version_at(recorded: Seq<(EventSeq, u64)>, seq: EventSeq) -> Option<u64>
    decreases recorded.len(),
{
    if recorded.len() == 0 {
        None
    } else if recorded.last().0 == seq {
        Some(recorded.last().1)
    } else {
        version_at(recorded.drop_last(), seq)
    }
}

fn find_version(recorded: &Vec<(EventSeq, u64)>, seq: EventSeq) -> (r: Option<u64>)
    ensures
        r == version_at(recorded@, seq),
{
    let mut n: usize = recorded.len();
    assert(recorded@.take(n as int) =~= recorded@);
    while n > 0
        invariant
            n <= recorded@.len(),
            version_at(recorded@, seq) == version_at(recorded@.take(n as int), seq),
        decreases n,
    {
        let (at, version) = recorded[n - 1];
        assert(recorded@.take(n as int).drop_last() =~= recorded@.take(n - 1));
        assert(recorded@.take(n as int).last() == recorded@[n - 1]);
        if at == seq {
            return Some(version);
        }
        n = n - 1;
    }
    None
}

/// Whether a step of a fold is a transition: it creates the obligation, or moves its version.
pub open spec fn step_moves(
    id: ObligationId,
    identity: ObligationIdentity,
    slice: Seq<LedgerView>,
    model: ObligationModel,
    step: int,
    version: u64,
) -> Result<bool, StoreError> {
    if step <= 1 {
        Ok(true)
    } else {
        chain(
            folded(id, identity, slice.take(step - 1), model),
            |before: LoadedView| Ok(before.projection.version != version),
        )
    }
}

/// Where the version after one step of a fold disagrees with the recorded transition; a transition
/// that is not recorded disagrees too, with nothing stored.
pub open spec fn step_compared(
    id: ObligationId,
    identity: ObligationIdentity,
    slice: Seq<LedgerView>,
    recorded: Seq<(EventSeq, u64)>,
    model: ObligationModel,
    step: int,
) -> Result<Seq<MismatchView>, StoreError> {
    chain(
        folded(id, identity, slice.take(step), model),
        |loaded: LoadedView|
            {
                let seq = slice[step - 1].seq;
                match version_at(recorded, seq) {
                    None => chain(
                        step_moves(id, identity, slice, model, step, loaded.projection.version),
                        |moves: bool|
                            Ok(
                                if moves {
                                    differs(
                                        "obligation_events",
                                        canonical_text(id.value) + "@"@ + nat_text(seq as nat),
                                        "obligation_version",
                                        Seq::empty(),
                                        nat_text(loaded.projection.version as nat),
                                    )
                                } else {
                                    Seq::empty()
                                },
                            ),
                    ),
                    Some(expected) => Ok(
                        differs(
                            "obligation_events",
                            canonical_text(id.value) + "@"@ + nat_text(seq as nat),
                            "obligation_version",
                            nat_text(expected as nat),
                            nat_text(loaded.projection.version as nat),
                        ),
                    ),
                }
            },
    )
}

/// How one step is compared.
pub open spec fn step_comparer(
    id: ObligationId,
    identity: ObligationIdentity,
    slice: Seq<LedgerView>,
    recorded: Seq<(EventSeq, u64)>,
    model: ObligationModel,
) -> spec_fn(int) -> Result<Seq<MismatchView>, StoreError> {
    |step: int| step_compared(id, identity, slice, recorded, model, step)
}

/// The steps of a fold: after its first event, after its second, and so on.
pub open spec fn steps(n: nat) -> Seq<int> {
    Seq::new(n, |i: int| i + 1)
}

/// Where the folded versions disagree with the recorded transitions.
pub open spec fn transitions_compared(
    record: ObligationRecord,
    slice: Seq<LedgerView>,
    model: ObligationModel,
) -> Result<Seq<MismatchView>, StoreError> {
    chain(
        collected(record.transitions@, transition_reader()),
        |recorded: Seq<(EventSeq, u64)>|
            chain(
                identity_of(record.identity),
                |identity: ObligationIdentity|
                    gathered(
                        steps(slice.len()),
                        step_comparer(record.id, identity, slice, recorded, model),
                    ),
            ),
    )
}

fn check_moves<
    A: Fn(&Obligation, &ObligationEvent) -> ObligationReply,
    C: Fn(&CompletionReceipts) -> WorkerOutcome,
    S: Fn(&str) -> bool,
>(
    id: ObligationId,
    identity: ObligationIdentity,
    slice: &Vec<LedgerEvent>,
    step: usize,
    version: u64,
    rules: &ObligationRules<A, C, S>,
) -> (r: Result<bool, StoreError>)
    requires
        rules.total(),
        1 <= step <= slice@.len(),
    ensures
        forall|model: ObligationModel| #[trigger]
            rules.follows(model) ==> r == step_moves(
                id,
                identity,
                ledger_view(slice@),
                model,
                step as int,
                version,
            ),
{
    if step == 1 {
        return Ok(true);
    }
    let prefix = &slice.as_slice()[0..step - 1];
    assert(ledger_view(prefix@) =~= ledger_view(slice@).take(step - 1));
    let before = fold_obligation(id, identity, prefix, rules)?;
    Ok(before.projection.version != version)
}

fn compare_step<
    A: Fn(&Obligation, &ObligationEvent) -> ObligationReply,
    C: Fn(&CompletionReceipts) -> WorkerOutcome,
    S: Fn(&str) -> bool,
>(
    id: ObligationId,
    identity: ObligationIdentity,
    slice: &Vec<LedgerEvent>,
    recorded: &Vec<(EventSeq, u64)>,
    step: usize,
    rules: &ObligationRules<A, C, S>,
) -> (r: Result<Vec<ProjectionMismatch>, StoreError>)
    requires
        rules.total(),
        1 <= step <= slice@.len(),
    ensures
        forall|model: ObligationModel| #[trigger]
            rules.follows(model) ==> compared_view(r) == step_compared(
                id,
                identity,
                ledger_view(slice@),
                recorded@,
                model,
                step as int,
            ),
{
    let prefix = &slice.as_slice()[0..step];
    assert(ledger_view(prefix@) =~= ledger_view(slice@).take(step as int));
    let loaded = fold_obligation(id, identity, prefix, rules)?;
    let seq: u64 = slice[step - 1].seq;
    let stored = match find_version(recorded, seq) {
        None => {
            if !check_moves(id, identity, slice, step, loaded.projection.version, rules)? {
                let none: Vec<ProjectionMismatch> = Vec::new();
                assert(views(none@) =~= Seq::<MismatchView>::empty());
                return Ok(none);
            }
            String::new()
        },
        Some(expected) => nat_string(expected),
    };
    let mut out: Vec<ProjectionMismatch> = Vec::new();
    let named = id_text(id);
    let at = nat_string(seq);
    let row = join3(named.as_str(), "@", at.as_str());
    let version = nat_string(loaded.projection.version);
    record_one(
        &mut out,
        "obligation_events",
        row.as_str(),
        "obligation_version",
        stored.as_str(),
        version.as_str(),
    );
    Ok(out)
}

fn record_one(
    mismatches: &mut Vec<ProjectionMismatch>,
    table: &'static str,
    row: &str,
    column: &'static str,
    stored: &str,
    replayed: &str,
)
    requires
        old(mismatches)@.len() == 0,
    ensures
        views(final(mismatches)@) == differs(table, row@, column, stored@, replayed@),
{
    record(mismatches, table, row, column, stored, replayed);
    assert(views(old(mismatches)@) =~= Seq::<MismatchView>::empty());
    assert(views(mismatches@) =~= differs(table, row@, column, stored@, replayed@));
}

/// Checks a fold against the immutable ledger of transitions: the version after each step, and that
/// no transition is missing.
pub fn compare_transitions<
    A: Fn(&Obligation, &ObligationEvent) -> ObligationReply,
    C: Fn(&CompletionReceipts) -> WorkerOutcome,
    S: Fn(&str) -> bool,
>(
    record: &ObligationRecord,
    slice: &Vec<LedgerEvent>,
    rules: &ObligationRules<A, C, S>,
) -> (r: Result<Vec<ProjectionMismatch>, StoreError>)
    requires
        rules.total(),
    ensures
        forall|model: ObligationModel| #[trigger]
            rules.follows(model) ==> compared_view(r) == transitions_compared(
                *record,
                ledger_view(slice@),
                model,
            ),
{
    let recorded = read_transitions(&record.transitions)?;
    let identity = obligation_identity(&record.identity)?;
    let ghost cut = ledger_view(slice@);
    let ghost all = steps(slice@.len());
    let mut out: Vec<ProjectionMismatch> = Vec::new();
    let mut i: usize = 0;
    assert(all.take(0) =~= Seq::<int>::empty());
    assert(views(out@) =~= Seq::<MismatchView>::empty());
    while i < slice.len()
        invariant
            rules.total(),
            i <= slice@.len(),
            cut == ledger_view(slice@),
            all == steps(slice@.len()),
            collected(record.transitions@, transition_reader()) == Ok::<
                Seq<(EventSeq, u64)>,
                StoreError,
            >(recorded@),
            identity_of(record.identity) == Ok::<ObligationIdentity, StoreError>(identity),
            forall|model: ObligationModel| #[trigger]
                rules.follows(model) ==> gathered(
                    all.take(i as int),
                    step_comparer(record.id, identity, cut, recorded@, model),
                ) == Ok::<Seq<MismatchView>, StoreError>(views(out@)),
        decreases slice@.len() - i,
    {
        let ghost before = views(out@);
        let found = compare_step(record.id, identity, slice, &recorded, i + 1, rules);
        proof {
            assert forall|model: ObligationModel| #[trigger] rules.follows(model) implies ({
                let comparer = step_comparer(record.id, identity, cut, recorded@, model);
                &&& compared_view(found) == comparer(all[i as int])
                &&& found is Err ==> gathered(all, comparer) == compared_view(found)
                &&& found is Ok ==> gathered(all.take(i + 1), comparer) == Ok::<
                    Seq<MismatchView>,
                    StoreError,
                >(before + compared_view(found)->Ok_0)
            }) by {
                gathered_one_more(
                    all,
                    step_comparer(record.id, identity, cut, recorded@, model),
                    i as int,
                );
            }
        }
        let more = found?;
        extend(&mut out, more);
        i = i + 1;
    }
    assert(all.take(i as int) =~= all);
    Ok(out)
}

// --- All obligations -----------------------------------------------------------------------------------

/// Where one obligation disagrees with its replay: its row first, then its transitions.
pub open spec fn record_compared(
    record: ObligationRecord,
    slice: Seq<LedgerView>,
    model: ObligationModel,
) -> Result<Seq<MismatchView>, StoreError> {
    chain(
        identity_of(record.identity),
        |identity: ObligationIdentity|
            chain(
                folded(record.id, identity, slice, model),
                |replayed: LoadedView|
                    chain(
                        obligation_compared(record.id, record.stored, replayed),
                        |rows: Seq<MismatchView>|
                            chain(
                                transitions_compared(record, slice, model),
                                |more: Seq<MismatchView>| Ok(rows + more),
                            ),
                    ),
            ),
    )
}

/// How one obligation of the ledger is compared: its own record with its own slice.
pub open spec fn record_comparer(
    events: Seq<LedgerView>,
    records: Seq<ObligationRecord>,
    model: ObligationModel,
) -> spec_fn(ObligationId) -> Result<Seq<MismatchView>, StoreError> {
    |id: ObligationId|
        chain(
            record_of(records, id),
            |record: ObligationRecord| record_compared(record, slice_of(events, id), model),
        )
}

fn compare_record<
    A: Fn(&Obligation, &ObligationEvent) -> ObligationReply,
    C: Fn(&CompletionReceipts) -> WorkerOutcome,
    S: Fn(&str) -> bool,
>(
    events: &Vec<LedgerEvent>,
    records: &Vec<ObligationRecord>,
    id: ObligationId,
    rules: &ObligationRules<A, C, S>,
) -> (r: Result<Vec<ProjectionMismatch>, StoreError>)
    requires
        rules.total(),
    ensures
        forall|model: ObligationModel| #[trigger]
            rules.follows(model) ==> compared_view(r) == record_comparer(
                ledger_view(events@),
                records@,
                model,
            )(id),
{
    let record = find_record(records, id)?;
    let slice = obligation_slice(events, id);
    let identity = obligation_identity(&record.identity)?;
    let replayed = fold_obligation(record.id, identity, slice.as_slice(), rules)?;
    let mut out = compare_obligation(record.id, &record.stored, &replayed)?;
    let more = compare_transitions(record, &slice, rules)?;
    extend(&mut out, more);
    Ok(out)
}

/// Compares every obligation of the ledger with its replay.
pub fn compare_obligations<
    A: Fn(&Obligation, &ObligationEvent) -> ObligationReply,
    C: Fn(&CompletionReceipts) -> WorkerOutcome,
    S: Fn(&str) -> bool,
>(
    events: &Vec<LedgerEvent>,
    records: &Vec<ObligationRecord>,
    rules: &ObligationRules<A, C, S>,
) -> (r: Result<Vec<ProjectionMismatch>, StoreError>)
    requires
        rules.total(),
    ensures
        forall|model: ObligationModel| #[trigger]
            rules.follows(model) ==> compared_view(r) == gathered(
                ids_of(ledger_view(events@)),
                record_comparer(ledger_view(events@), records@, model),
            ),
{
    let ids = obligations_of(events);
    let ghost all = ledger_view(events@);
    let mut out: Vec<ProjectionMismatch> = Vec::new();
    let mut i: usize = 0;
    assert(ids@.take(0) =~= Seq::<ObligationId>::empty());
    assert(views(out@) =~= Seq::<MismatchView>::empty());
    while i < ids.len()
        invariant
            rules.total(),
            i <= ids@.len(),
            all == ledger_view(events@),
            ids@ == ids_of(all),
            forall|model: ObligationModel| #[trigger]
                rules.follows(model) ==> gathered(ids@.take(i as int), record_comparer(all, records@, model))
                    == Ok::<Seq<MismatchView>, StoreError>(views(out@)),
        decreases ids@.len() - i,
    {
        let ghost before = views(out@);
        let found = compare_record(events, records, ids[i], rules);
        proof {
            assert forall|model: ObligationModel| #[trigger] rules.follows(model) implies ({
                let comparer = record_comparer(all, records@, model);
                &&& compared_view(found) == comparer(ids@[i as int])
                &&& found is Err ==> gathered(ids@, comparer) == compared_view(found)
                &&& found is Ok ==> gathered(ids@.take(i + 1), comparer) == Ok::<
                    Seq<MismatchView>,
                    StoreError,
                >(before + compared_view(found)->Ok_0)
            }) by {
                gathered_one_more(ids@, record_comparer(all, records@, model), i as int);
            }
        }
        let more = found?;
        extend(&mut out, more);
        i = i + 1;
    }
    assert(ids@.take(i as int) =~= ids@);
    Ok(out)
}

// --- Turns ---------------------------------------------------------------------------------------------

/// The lifecycle a slice leaves its turn in: the last terminal event counts.
pub open spec fn replayed_lifecycle(slice: Seq<LedgerView>) -> TurnLifecycle
    decreases slice.len(),
{
    if slice.len() == 0 {
        TurnLifecycle::Running
    } else {
        match slice.last().kind {
            EventKind::ResultPublished => TurnLifecycle::Completed,
            EventKind::WorkerFailed => TurnLifecycle::Failed,
            _ => replayed_lifecycle(slice.drop_last()),
        }
    }
}

/// Derives the lifecycle a slice leaves its turn in.
pub fn replay_lifecycle(events: &Vec<LedgerEvent>) -> (r: TurnLifecycle)
    ensures
        r == replayed_lifecycle(ledger_view(events@)),
{
    let ghost all = ledger_view(events@);
    let mut n: usize = events.len();
    assert(all.take(n as int) =~= all);
    while n > 0
        invariant
            n <= events@.len(),
            all == ledger_view(events@),
            replayed_lifecycle(all) == replayed_lifecycle(all.take(n as int)),
        decreases n,
    {
        assert(all.take(n as int).drop_last() =~= all.take(n - 1));
        assert(all.take(n as int).last() == events@[n - 1]@);
        match events[n - 1].kind {
            EventKind::ResultPublished => return TurnLifecycle::Completed,
            EventKind::WorkerFailed => return TurnLifecycle::Failed,
            _ => {},
        }
        n = n - 1;
    }
    TurnLifecycle::Running
}

/// Where a turn's lifecycle disagrees with the terminal event of its obligation.
pub open spec fn turn_compared(record: ObligationRecord, slice: Seq<LedgerView>) -> Result<
    Seq<MismatchView>,
    StoreError,
> {
    chain(
        identity_of(record.identity),
        |identity: ObligationIdentity|
            match identity.turn {
                None => Ok(Seq::empty()),
                Some(turn) => match record.lifecycle {
                    Err(words) => Err(StoreError::Sqlite(words)),
                    Ok(label) => match turn_lifecycle_named(label@) {
                        None => Err(
                            corrupt("turns", "lifecycle_state", CorruptReason::UnknownLabel),
                        ),
                        Some(stored) => Ok(
                            differs(
                                "turns",
                                canonical_text(turn.value),
                                "lifecycle_state",
                                turn_lifecycle_label(stored)@,
                                turn_lifecycle_label(replayed_lifecycle(slice))@,
                            ),
                        ),
                    },
                },
            },
    )
}

/// How the turn of one obligation of the ledger is compared.
pub open spec fn turn_comparer(events: Seq<LedgerView>, records: Seq<ObligationRecord>) -> spec_fn(
    ObligationId,
) -> Result<Seq<MismatchView>, StoreError> {
    |id: ObligationId|
        chain(
            record_of(records, id),
            |record: ObligationRecord| turn_compared(record, slice_of(events, id)),
        )
}

fn compare_turn(events: &Vec<LedgerEvent>, records: &Vec<ObligationRecord>, id: ObligationId) -> (r: Result<
    Vec<ProjectionMismatch>,
    StoreError,
>)
    ensures
        compared_view(r) == turn_comparer(ledger_view(events@), records@)(id),
{
    let record = find_record(records, id)?;
    let slice = obligation_slice(events, id);
    let identity = obligation_identity(&record.identity)?;
    let mut out: Vec<ProjectionMismatch> = Vec::new();
    assert(views(out@) =~= Seq::<MismatchView>::empty());
    match identity.turn {
        None => {},
        Some(turn) => {
            let stored = match &record.lifecycle {
                Err(words) => return Err(StoreError::Sqlite(words.clone())),
                Ok(label) => decode_turn_lifecycle(label.as_str(), "turns")?,
            };
            let replayed = replay_lifecycle(&slice);
            let row = id_text(turn);
            record_one(
                &mut out,
                "turns",
                row.as_str(),
                "lifecycle_state",
                encode_turn_lifecycle(stored),
                encode_turn_lifecycle(replayed),
            );
        },
    }
    Ok(out)
}

/// Checks each turn's lifecycle against the terminal event its obligation holds.
pub fn compare_turns(events: &Vec<LedgerEvent>, records: &Vec<ObligationRecord>) -> (r: Result<
    Vec<ProjectionMismatch>,
    StoreError,
>)
    ensures
        compared_view(r) == gathered(
            ids_of(ledger_view(events@)),
            turn_comparer(ledger_view(events@), records@),
        ),
{
    let ids = obligations_of(events);
    let ghost all = ledger_view(events@);
    let mut out: Vec<ProjectionMismatch> = Vec::new();
    let mut i: usize = 0;
    assert(ids@.take(0) =~= Seq::<ObligationId>::empty());
    assert(views(out@) =~= Seq::<MismatchView>::empty());
    while i < ids.len()
        invariant
            i <= ids@.len(),
            all == ledger_view(events@),
            ids@ == ids_of(all),
            gathered(ids@.take(i as int), turn_comparer(all, records@)) == Ok::<
                Seq<MismatchView>,
                StoreError,
            >(views(out@)),
        decreases ids@.len() - i,
    {
        proof {
            gathered_one_more(ids@, turn_comparer(all, records@), i as int);
        }
        let more = compare_turn(events, records, ids[i])?;
        extend(&mut out, more);
        i = i + 1;
    }
    assert(ids@.take(i as int) =~= ids@);
    Ok(out)
}

// --- Retention -----------------------------------------------------------------------------------------

/// One `result_artifacts` row with its retention, as read.
#[derive(Debug, PartialEq, Eq)]
pub struct StoredArtifact {
    pub result_artifact_id: String,
    pub row: Option<ArtifactRow>,
    pub retention_state: String,
}

/// What a folded obligation means for artifacts.
pub open spec fn reference_of(loaded: LoadedView) -> ArtifactReference {
    ArtifactReference {
        result_artifact: loaded.projection.result_artifact,
        closed: loaded.projection.state.closed(),
    }
}

/// What one obligation means for artifacts, once folded.
pub open spec fn record_reference(
    record: ObligationRecord,
    slice: Seq<LedgerView>,
    model: ObligationModel,
) -> Result<ArtifactReference, StoreError> {
    chain(
        identity_of(record.identity),
        |identity: ObligationIdentity|
            chain(
                folded(record.id, identity, slice, model),
                |loaded: LoadedView| Ok(reference_of(loaded)),
            ),
    )
}

/// How an obligation of the ledger is asked what it means for artifacts.
pub open spec fn referrer(
    events: Seq<LedgerView>,
    records: Seq<ObligationRecord>,
    model: ObligationModel,
) -> spec_fn(ObligationId) -> Result<ArtifactReference, StoreError> {
    |id: ObligationId|
        chain(
            record_of(records, id),
            |record: ObligationRecord| record_reference(record, slice_of(events, id), model),
        )
}

fn fold_reference<
    A: Fn(&Obligation, &ObligationEvent) -> ObligationReply,
    C: Fn(&CompletionReceipts) -> WorkerOutcome,
    S: Fn(&str) -> bool,
>(
    events: &Vec<LedgerEvent>,
    records: &Vec<ObligationRecord>,
    id: ObligationId,
    rules: &ObligationRules<A, C, S>,
) -> (r: Result<ArtifactReference, StoreError>)
    requires
        rules.total(),
    ensures
        forall|model: ObligationModel| #[trigger]
            rules.follows(model) ==> r == referrer(ledger_view(events@), records@, model)(id),
{
    let record = find_record(records, id)?;
    let slice = obligation_slice(events, id);
    let identity = obligation_identity(&record.identity)?;
    let loaded = fold_obligation(record.id, identity, slice.as_slice(), rules)?;
    Ok(
        ArtifactReference {
            result_artifact: loaded.projection.result_artifact,
            closed: loaded.projection.state.is_closed(),
        },
    )
}

fn fold_references<
    A: Fn(&Obligation, &ObligationEvent) -> ObligationReply,
    C: Fn(&CompletionReceipts) -> WorkerOutcome,
    S: Fn(&str) -> bool,
>(
    events: &Vec<LedgerEvent>,
    records: &Vec<ObligationRecord>,
    rules: &ObligationRules<A, C, S>,
) -> (r: Result<Vec<ArtifactReference>, StoreError>)
    requires
        rules.total(),
    ensures
        forall|model: ObligationModel| #[trigger]
            rules.follows(model) ==> (match r {
                Ok(references) => collected(
                    ids_of(ledger_view(events@)),
                    referrer(ledger_view(events@), records@, model),
                ) == Ok::<
                    Seq<ArtifactReference>,
                    StoreError,
                >(references@),
                Err(e) => collected(
                    ids_of(ledger_view(events@)),
                    referrer(ledger_view(events@), records@, model),
                ) == Err::<
                    Seq<ArtifactReference>,
                    StoreError,
                >(e),
            }),
{
    let ids = obligations_of(events);
    let ghost all = ledger_view(events@);
    let mut out: Vec<ArtifactReference> = Vec::new();
    let mut i: usize = 0;
    assert(ids@.take(0) =~= Seq::<ObligationId>::empty());
    while i < ids.len()
        invariant
            rules.total(),
            i <= ids@.len(),
            all == ledger_view(events@),
            ids@ == ids_of(all),
            forall|model: ObligationModel| #[trigger]
                rules.follows(model) ==> collected(ids@.take(i as int), referrer(all, records@, model)) == Ok::<
                    Seq<ArtifactReference>,
                    StoreError,
                >(out@),
        decreases ids@.len() - i,
    {
        let found = fold_reference(events, records, ids[i], rules);
        proof {
            assert forall|model: ObligationModel| #[trigger] rules.follows(model) implies ({
                &&& found == referrer(all, records@, model)(ids@[i as int])
                &&& found is Err ==> collected(ids@, referrer(all, records@, model)) == Err::<
                    Seq<ArtifactReference>,
                    StoreError,
                >(found->Err_0)
                &&& found is Ok ==> collected(ids@.take(i + 1), referrer(all, records@, model)) == Ok::<
                    Seq<ArtifactReference>,
                    StoreError,
                >(out@.push(found->Ok_0))
            }) by {
                collected_one_more(ids@, referrer(all, records@, model), i as int);
            }
        }
        let reference = found?;
        out.push(reference);
        i = i + 1;
    }
    assert(ids@.take(i as int) =~= ids@);
    Ok(out)
}

/// Where an artifact's retention disagrees with the obligations that pin it.
pub open spec fn artifact_compared(
    stored: StoredArtifact,
    references: Seq<ArtifactReference>,
    rule: spec_fn(Seq<char>) -> bool,
) -> Result<Seq<MismatchView>, StoreError> {
    let t = "result_artifacts";
    chain(
        id_column(stored.result_artifact_id@, t, "result_artifact_id"),
        |id: Id|
            chain(
                artifact_of(id, stored.row, rule),
                |_artifact: crate::domain::artifact::ArtifactView|
                    match retention_named(stored.retention_state@) {
                        None => Err(corrupt(t, "retention_state", CorruptReason::UnknownLabel)),
                        Some(label) => Ok(
                            differs(
                                t,
                                stored.result_artifact_id@,
                                "retention_state",
                                retention_label(label)@,
                                retention_label(retention_of(id, references, None).state)@,
                            ),
                        ),
                    },
            ),
    )
}

/// How one artifact is compared.
pub open spec fn artifact_comparer(
    references: Seq<ArtifactReference>,
    rule: spec_fn(Seq<char>) -> bool,
) -> spec_fn(StoredArtifact) -> Result<Seq<MismatchView>, StoreError> {
    |stored: StoredArtifact| artifact_compared(stored, references, rule)
}

fn compare_artifact<S: Fn(&str) -> bool>(
    stored: &StoredArtifact,
    references: &Vec<ArtifactReference>,
    safe: &S,
) -> (r: Result<Vec<ProjectionMismatch>, StoreError>)
    requires
        crate::domain::fence::rule_total(*safe),
    ensures
        forall|rule: spec_fn(Seq<char>) -> bool| #[trigger]
            crate::domain::fence::rule_is(*safe, rule) ==> compared_view(r) == artifact_compared(
                *stored,
                references@,
                rule,
            ),
{
    let t = "result_artifacts";
    let id = parse_id(stored.result_artifact_id.as_str(), t, "result_artifact_id")?;
    let artifact = result_artifact(id, &stored.row, safe)?;
    let replayed = refresh_retention(artifact.id, references, None);
    let label = decode_retention(stored.retention_state.as_str(), t)?;
    let mut out: Vec<ProjectionMismatch> = Vec::new();
    record_one(
        &mut out,
        t,
        stored.result_artifact_id.as_str(),
        "retention_state",
        encode_retention(label),
        encode_retention(replayed.state),
    );
    Ok(out)
}

/// Where artifact retention disagrees with the folded obligations.
pub open spec fn retention_compared(
    events: Seq<LedgerView>,
    records: Seq<ObligationRecord>,
    artifacts: Seq<StoredArtifact>,
    model: ObligationModel,
) -> Result<Seq<MismatchView>, StoreError> {
    chain(
        collected(ids_of(events), referrer(events, records, model)),
        |references: Seq<ArtifactReference>|
            gathered(artifacts, artifact_comparer(references, model.rule)),
    )
}

/// Checks artifact retention against the obligations that actually pin it: an artifact an open
/// obligation still needs cannot be marked releasable.
pub fn compare_retention<
    A: Fn(&Obligation, &ObligationEvent) -> ObligationReply,
    C: Fn(&CompletionReceipts) -> WorkerOutcome,
    S: Fn(&str) -> bool,
>(
    events: &Vec<LedgerEvent>,
    records: &Vec<ObligationRecord>,
    artifacts: &Vec<StoredArtifact>,
    rules: &ObligationRules<A, C, S>,
) -> (r: Result<Vec<ProjectionMismatch>, StoreError>)
    requires
        rules.total(),
    ensures
        forall|model: ObligationModel| #[trigger]
            rules.follows(model) ==> compared_view(r) == retention_compared(
                ledger_view(events@),
                records@,
                artifacts@,
                model,
            ),
{
    let references = fold_references(events, records, rules)?;
    let mut out: Vec<ProjectionMismatch> = Vec::new();
    let mut i: usize = 0;
    assert(artifacts@.take(0) =~= Seq::<StoredArtifact>::empty());
    assert(views(out@) =~= Seq::<MismatchView>::empty());
    while i < artifacts.len()
        invariant
            rules.total(),
            i <= artifacts@.len(),
            forall|model: ObligationModel| #[trigger]
                rules.follows(model) ==> collected(
                    ids_of(ledger_view(events@)),
                    referrer(ledger_view(events@), records@, model),
                ) == Ok::<
                    Seq<ArtifactReference>,
                    StoreError,
                >(references@),
            forall|model: ObligationModel| #[trigger]
                rules.follows(model) ==> gathered(
                    artifacts@.take(i as int),
                    artifact_comparer(references@, model.rule),
                ) == Ok::<Seq<MismatchView>, StoreError>(views(out@)),
        decreases artifacts@.len() - i,
    {
        let ghost before = views(out@);
        let found = compare_artifact(&artifacts[i], &references, &rules.safe);
        proof {
            assert forall|model: ObligationModel| #[trigger] rules.follows(model) implies ({
                let comparer = artifact_comparer(references@, model.rule);
                &&& compared_view(found) == comparer(artifacts@[i as int])
                &&& found is Err ==> gathered(artifacts@, comparer) == compared_view(found)
                &&& found is Ok ==> gathered(artifacts@.take(i + 1), comparer) == Ok::<
                    Seq<MismatchView>,
                    StoreError,
                >(before + compared_view(found)->Ok_0)
            }) by {
                gathered_one_more(artifacts@, artifact_comparer(references@, model.rule), i as int);
            }
        }
        let more = found?;
        extend(&mut out, more);
        i = i + 1;
    }
    assert(artifacts@.take(i as int) =~= artifacts@);
    Ok(out)
}

// --- Health --------------------------------------------------------------------------------------------

/// One `health_conditions` row, as the comparison reads it.
#[derive(Debug, PartialEq, Eq)]
pub struct StoredCondition {
    pub kind: String,
    pub state: String,
    pub task_id: Option<String>,
    pub turn_id: Option<String>,
    pub obligation_id: Option<String>,
    pub external_attempt_id: Option<String>,
}

/// One part of a condition's key: an identity, or a dash.
pub open spec fn key_part(id: Option<Id>) -> Seq<char> {
    match id {
        Some(inner) => canonical_text(inner.value),
        None => "-"@,
    }
}

/// The comparable identity of one condition: kind, scope and state. Its own identity was minted and
/// nothing branches on it.
pub open spec fn key_of(kind: HealthConditionKind, scope: HealthScope, state: HealthConditionState) -> Seq<
    char,
> {
    health_kind_label(kind)@ + "|"@ + key_part(scope.task) + "|"@ + key_part(scope.turn) + "|"@
        + key_part(scope.obligation) + "|"@ + key_part(scope.external_attempt) + "|"@
        + health_state_label(state)@
}

fn part_text(id: Option<Id>) -> (r: String)
    ensures
        r@ == key_part(id),
{
    match id {
        Some(inner) => id_text(inner),
        None => "-".to_owned(),
    }
}

/// The comparable identity of one condition.
pub fn condition_key(kind: HealthConditionKind, scope: HealthScope, state: HealthConditionState) -> (r: String)
    ensures
        r@ == key_of(kind, scope, state),
{
    let task = part_text(scope.task);
    let turn = part_text(scope.turn);
    let obligation = part_text(scope.obligation);
    let attempt = part_text(scope.external_attempt);
    let first = join3(encode_health_kind(kind), "|", task.as_str());
    let second = join3(first.as_str(), "|", turn.as_str());
    let third = join3(second.as_str(), "|", obligation.as_str());
    let fourth = join3(third.as_str(), "|", attempt.as_str());
    join3(fourth.as_str(), "|", encode_health_state(state))
}

/// The key of a stored condition. Labels are decoded: an unknown one is a corrupt row rather than a
/// disagreement.
pub open spec fn stored_key(row: StoredCondition) -> Result<Seq<char>, StoreError> {
    let t = "health_conditions";
    chain(
        optional_id_column(text_view(row.task_id), t, "task_id"),
        |task: Option<Id>|
            chain(
                optional_id_column(text_view(row.turn_id), t, "turn_id"),
                |turn: Option<Id>|
                    chain(
                        optional_id_column(text_view(row.obligation_id), t, "obligation_id"),
                        |obligation: Option<Id>|
                            chain(
                                optional_id_column(
                                    text_view(row.external_attempt_id),
                                    t,
                                    "external_attempt_id",
                                ),
                                |external_attempt: Option<Id>|
                                    match health_kind_named(row.kind@) {
                                        None => Err(
                                            corrupt(t, "kind", CorruptReason::UnknownLabel),
                                        ),
                                        Some(kind) => match health_state_named(row.state@) {
                                            None => Err(
                                                corrupt(t, "state", CorruptReason::UnknownLabel),
                                            ),
                                            Some(state) => Ok(
                                                key_of(
                                                    kind,
                                                    HealthScope {
                                                        task,
                                                        session: None,
                                                        turn,
                                                        obligation,
                                                        external_attempt,
                                                    },
                                                    state,
                                                ),
                                            ),
                                        },
                                    },
                            ),
                    ),
            ),
    )
}

/// How a stored condition is keyed.
pub open spec fn condition_reader() -> spec_fn(StoredCondition) -> Result<Seq<char>, StoreError> {
    |row: StoredCondition| stored_key(row)
}

fn read_key(row: &StoredCondition) -> (r: Result<String, StoreError>)
    ensures
        match r {
            Ok(key) => stored_key(*row) == Ok::<Seq<char>, StoreError>(key@),
            Err(e) => stored_key(*row) == Err::<Seq<char>, StoreError>(e),
        },
{
    let t = "health_conditions";
    let task = parse_optional_id(&row.task_id, t, "task_id")?;
    let turn = parse_optional_id(&row.turn_id, t, "turn_id")?;
    let obligation = parse_optional_id(&row.obligation_id, t, "obligation_id")?;
    let external_attempt = parse_optional_id(&row.external_attempt_id, t, "external_attempt_id")?;
    let kind = decode_health_kind(row.kind.as_str(), t)?;
    let state = decode_health_state(row.state.as_str(), t)?;
    let scope = HealthScope { task, session: None, turn, obligation, external_attempt };
    Ok(condition_key(kind, scope, state))
}

fn read_keys(rows: &Vec<StoredCondition>) -> (r: Result<Vec<String>, StoreError>)
    ensures
        match r {
            Ok(keys) => collected(rows@, condition_reader()) == Ok::<Seq<Seq<char>>, StoreError>(
                string_texts(keys@),
            ),
            Err(e) => collected(rows@, condition_reader()) == Err::<Seq<Seq<char>>, StoreError>(e),
        },
{
    let mut out: Vec<String> = Vec::new();
    let mut i: usize = 0;
    assert(rows@.take(0) =~= Seq::<StoredCondition>::empty());
    assert(string_texts(out@) =~= Seq::<Seq<char>>::empty());
    while i < rows.len()
        invariant
            i <= rows@.len(),
            collected(rows@.take(i as int), condition_reader()) == Ok::<Seq<Seq<char>>, StoreError>(
                string_texts(out@),
            ),
        decreases rows@.len() - i,
    {
        let ghost before = out@;
        proof {
            collected_one_more(rows@, condition_reader(), i as int);
        }
        let key = read_key(&rows[i])?;
        let ghost text = key@;
        out.push(key);
        assert(string_texts(out@) =~= string_texts(before).push(text));
        i = i + 1;
    }
    assert(rows@.take(i as int) =~= rows@);
    Ok(out)
}

/// The keys of folded conditions.
pub open spec fn folded_keys(conditions: Seq<HealthCondition>) -> Seq<Seq<char>> {
    Seq::new(
        conditions.len(),
        |i: int| key_of(conditions[i].kind, conditions[i].scope, conditions[i].state),
    )
}

fn keys_of(conditions: &Vec<HealthCondition>) -> (r: Vec<String>)
    ensures
        string_texts(r@) == folded_keys(conditions@),
{
    let mut out: Vec<String> = Vec::new();
    let mut i: usize = 0;
    while i < conditions.len()
        invariant
            i <= conditions@.len(),
            out@.len() == i,
            forall|k: int|
                0 <= k < i ==> #[trigger] out@[k]@ == key_of(
                    conditions@[k].kind,
                    conditions@[k].scope,
                    conditions@[k].state,
                ),
        decreases conditions@.len() - i,
    {
        let condition = conditions[i];
        out.push(condition_key(condition.kind, condition.scope, condition.state));
        i = i + 1;
    }
    assert(string_texts(out@) =~= folded_keys(conditions@));
    out
}

/// How often a text occurs in a list.
pub open spec fn occurrences(names: Seq<Seq<char>>, name: Seq<char>) -> nat
    decreases names.len(),
{
    if names.len() == 0 {
        0
    } else {
        occurrences(names.drop_last(), name) + if names.last() == name {
            1nat
        } else {
            0nat
        }
    }
}

fn count_of(names: &Vec<String>, name: &str) -> (r: u64)
    ensures
        r == occurrences(string_texts(names@), name@),
{
    let ghost all = string_texts(names@);
    let mut count: u64 = 0;
    let mut i: usize = 0;
    assert(all.take(0) =~= Seq::<Seq<char>>::empty());
    while i < names.len()
        invariant
            i <= names@.len(),
            all == string_texts(names@),
            count == occurrences(all.take(i as int), name@),
            count <= i,
        decreases names@.len() - i,
    {
        proof {
            assert(all.take(i + 1).drop_last() =~= all.take(i as int));
            assert(all.take(i + 1).last() == names@[i as int]@);
        }
        if same(names[i].as_str(), name) {
            count = count + 1;
        }
        i = i + 1;
    }
    assert(all.take(i as int) =~= all);
    count
}

/// Where the number of conditions of one key disagrees.
pub open spec fn key_compared(stored: Seq<Seq<char>>, replayed: Seq<Seq<char>>, key: Seq<char>) -> Result<
    Seq<MismatchView>,
    StoreError,
> {
    Ok(
        differs(
            "health_conditions",
            key,
            "state",
            nat_text(occurrences(stored, key)),
            nat_text(occurrences(replayed, key)),
        ),
    )
}

/// How one key is compared.
pub open spec fn key_comparer(stored: Seq<Seq<char>>, replayed: Seq<Seq<char>>) -> spec_fn(
    Seq<char>,
) -> Result<Seq<MismatchView>, StoreError> {
    |key: Seq<char>| key_compared(stored, replayed, key)
}

/// Where the health conditions disagree with the ledger: kind, scope and state, and how many hold
/// it, key by key in order.
pub open spec fn health_compared(events: Seq<LedgerView>, rows: Seq<StoredCondition>) -> Result<
    Seq<MismatchView>,
    StoreError,
> {
    chain(
        health_folded(events),
        |conditions: Seq<HealthCondition>|
            chain(
                collected(rows, condition_reader()),
                |stored: Seq<Seq<char>>|
                    gathered(
                        dictionary(stored + folded_keys(conditions)),
                        key_comparer(stored, folded_keys(conditions)),
                    ),
            ),
    )
}

fn joined(a: &Vec<String>, b: &Vec<String>) -> (r: Vec<String>)
    ensures
        string_texts(r@) == string_texts(a@) + string_texts(b@),
{
    let mut out: Vec<String> = Vec::new();
    let mut i: usize = 0;
    while i < a.len()
        invariant
            i <= a@.len(),
            out@.len() == i,
            forall|k: int| 0 <= k < i ==> #[trigger] out@[k]@ == a@[k]@,
        decreases a@.len() - i,
    {
        out.push(a[i].clone());
        i = i + 1;
    }
    let mut j: usize = 0;
    while j < b.len()
        invariant
            j <= b@.len(),
            out@.len() == a@.len() + j,
            forall|k: int| 0 <= k < a@.len() ==> #[trigger] out@[k]@ == a@[k]@,
            forall|k: int| a@.len() <= k < a@.len() + j ==> #[trigger] out@[k]@ == b@[k - a@.len()]@,
        decreases b@.len() - j,
    {
        out.push(b[j].clone());
        j = j + 1;
    }
    assert(string_texts(out@) =~= string_texts(a@) + string_texts(b@));
    out
}

/// Checks the recorded conditions against the folded health ledger.
pub fn compare_health(events: &Vec<LedgerEvent>, rows: &Vec<StoredCondition>) -> (r: Result<
    Vec<ProjectionMismatch>,
    StoreError,
>)
    ensures
        compared_view(r) == health_compared(ledger_view(events@), rows@),
{
    let ledger = fold_health(events.as_slice())?;
    let replayed = keys_of(&ledger.conditions);
    let stored = read_keys(rows)?;
    let all = joined(&stored, &replayed);
    let keys = sorted_set(&all);
    let ghost names = string_texts(keys@);
    let ghost comparer = key_comparer(string_texts(stored@), string_texts(replayed@));
    let mut out: Vec<ProjectionMismatch> = Vec::new();
    let mut i: usize = 0;
    assert(names.take(0) =~= Seq::<Seq<char>>::empty());
    assert(views(out@) =~= Seq::<MismatchView>::empty());
    while i < keys.len()
        invariant
            i <= keys@.len(),
            names == string_texts(keys@),
            comparer == key_comparer(string_texts(stored@), string_texts(replayed@)),
            gathered(names.take(i as int), comparer) == Ok::<Seq<MismatchView>, StoreError>(
                views(out@),
            ),
        decreases keys@.len() - i,
    {
        proof {
            gathered_one_more(names, comparer, i as int);
            assert(names[i as int] == keys@[i as int]@);
        }
        let left = nat_string(count_of(&stored, keys[i].as_str()));
        let right = nat_string(count_of(&replayed, keys[i].as_str()));
        record(
            &mut out,
            "health_conditions",
            keys[i].as_str(),
            "state",
            left.as_str(),
            right.as_str(),
        );
        i = i + 1;
    }
    assert(names.take(i as int) =~= names);
    Ok(out)
}

// --- Deliveries ----------------------------------------------------------------------------------------

/// Everything that is recorded of one wake revision.
#[derive(Debug, PartialEq, Eq)]
pub struct StoredDelivery {
    /// Addresses the rows, and is never shown.
    pub delivery_id: String,
    pub state: String,
    pub row: Option<WakeRow>,
    pub source: Option<SourceRow>,
    pub conversation: Option<String>,
    /// Number and state of each attempt row, in order.
    pub attempts: Vec<(i64, String)>,
}

/// The events of the obligation a wake row names.
pub open spec fn wake_slice(events: Seq<LedgerView>, row: Option<WakeRow>) -> Seq<LedgerView> {
    match row {
        None => Seq::empty(),
        Some(row) => match id_named(row.obligation_id@) {
            None => Seq::empty(),
            Some(id) => slice_of(events, id),
        },
    }
}

fn slice_for(events: &Vec<LedgerEvent>, row: &Option<WakeRow>) -> (r: Vec<LedgerEvent>)
    ensures
        ledger_view(r@) == wake_slice(ledger_view(events@), *row),
{
    let none: Vec<LedgerEvent> = Vec::new();
    assert(ledger_view(none@) =~= Seq::<LedgerView>::empty());
    match row {
        None => none,
        Some(row) => match id_of_text(row.obligation_id.as_str()) {
            None => none,
            Some(id) => obligation_slice(events, id),
        },
    }
}

/// The wake of a listed delivery.
pub open spec fn stored_wake(events: Seq<LedgerView>, stored: StoredDelivery, model: WakeModel) -> Result<
    WakeView,
    StoreError,
> {
    if !(model.known_id)(stored.delivery_id@) {
        Err(corrupt("browser_deliveries", "delivery_id", CorruptReason::MalformedIdentity))
    } else if stored.row is None {
        Err(StoreError::Conflict(Conflict::UnknownDeliveryId))
    } else {
        chain(
            wake_of(
                stored.delivery_id@,
                stored.row,
                stored.source,
                text_view(stored.conversation),
                wake_slice(events, stored.row),
                model,
            ),
            |loaded: (WakeView, EventSeq)| Ok(loaded.0),
        )
    }
}

fn load_wake<
    A: Fn(&Delivery, &DeliveryEvent) -> DeliveryReply,
    P: Fn(u32) -> Delivery,
    K: Fn(ObligationId, BindingGeneration, DeliveryRevision) -> String,
    I: Fn(&str) -> bool,
    H: Fn(&BrowserWake) -> bool,
    S: Fn(&str) -> bool,
>(
    events: &Vec<LedgerEvent>,
    stored: &StoredDelivery,
    rules: &WakeRules<A, P, K, I, H, S>,
) -> (r: Result<BrowserWake, StoreError>)
    requires
        rules.total(),
    ensures
        forall|model: WakeModel| #[trigger]
            rules.follows(model) ==> (match r {
                Ok(wake) => stored_wake(ledger_view(events@), *stored, model) == Ok::<WakeView, StoreError>(wake@),
                Err(e) => stored_wake(ledger_view(events@), *stored, model) == Err::<WakeView, StoreError>(e),
            }),
{
    if !(rules.known_id)(stored.delivery_id.as_str()) {
        return Err(
            corrupt_row("browser_deliveries", "delivery_id", CorruptReason::MalformedIdentity),
        );
    }
    if stored.row.is_none() {
        return Err(StoreError::Conflict(Conflict::UnknownDeliveryId));
    }
    let slice = slice_for(events, &stored.row);
    let loaded = wake_by_hex(
        stored.delivery_id.as_str(),
        &stored.row,
        &stored.source,
        &stored.conversation,
        slice.as_slice(),
        rules,
    )?;
    Ok(loaded.wake)
}

/// One attempt row: number and label.
pub open spec fn attempt_columns(row: (i64, String)) -> Result<(u32, Seq<char>), StoreError> {
    chain(
        u32_column(row.0, "delivery_attempts", "attempt_no"),
        |number: u32| Ok((number, row.1@)),
    )
}

/// How an attempt row reads.
pub open spec fn attempt_reader() -> spec_fn((i64, String)) -> Result<(u32, Seq<char>), StoreError> {
    |row: (i64, String)| attempt_columns(row)
}

/// The label recorded for an attempt; the last one where several are.
pub open spec fn label_at(rows: Seq<(u32, Seq<char>)>, number: u32) -> Option<Seq<char>>
    decreases rows.len(),
{
    if rows.len() == 0 {
        None
    } else if rows.last().0 == number {
        Some(rows.last().1)
    } else {
        label_at(rows.drop_last(), number)
    }
}

/// What is shown for an attempt that has no row.
pub const MISSING: &'static str = "<missing>";

/// What the row of an attempt holds, as its canonical label.
pub open spec fn shown_label(rows: Seq<(u32, Seq<char>)>, number: u32) -> Result<Seq<char>, StoreError> {
    match label_at(rows, number) {
        None => Ok(MISSING@),
        Some(text) => match attempt_state_named(text) {
            None => Err(corrupt("delivery_attempts", "state", CorruptReason::UnknownLabel)),
            Some(state) => Ok(attempt_state_label(state)@),
        },
    }
}

/// Where an attempt row disagrees with the folded attempt.
pub open spec fn attempt_compared(key_hex: Seq<char>, rows: Seq<(u32, Seq<char>)>, attempt: Attempt) -> Result<
    Seq<MismatchView>,
    StoreError,
> {
    chain(
        shown_label(rows, attempt.number),
        |found: Seq<char>|
            Ok(
                differs(
                    "delivery_attempts",
                    key_hex + "#"@ + nat_text(attempt.number as nat),
                    "state",
                    found,
                    attempt_state_label(attempt.state)@,
                ),
            ),
    )
}

/// How one attempt is compared.
pub open spec fn attempt_comparer(key_hex: Seq<char>, rows: Seq<(u32, Seq<char>)>) -> spec_fn(
    Attempt,
) -> Result<Seq<MismatchView>, StoreError> {
    |attempt: Attempt| attempt_compared(key_hex, rows, attempt)
}

/// Where the attempt rows of a revision disagree with the folded attempts.
pub open spec fn attempts_compared(rows: Seq<(i64, String)>, wake: WakeView) -> Result<
    Seq<MismatchView>,
    StoreError,
> {
    chain(
        collected(rows, attempt_reader()),
        |read: Seq<(u32, Seq<char>)>|
            gathered(wake.delivery.attempts, attempt_comparer(wake.key_hex, read)),
    )
}

/// Attempt rows on values alone.
pub open spec fn attempt_labels(rows: Seq<(u32, String)>) -> Seq<(u32, Seq<char>)> {
    Seq::new(rows.len(), |i: int| (rows[i].0, rows[i].1@))
}

fn read_attempts(rows: &Vec<(i64, String)>) -> (r: Result<Vec<(u32, String)>, StoreError>)
    ensures
        match r {
            Ok(read) => collected(rows@, attempt_reader()) == Ok::<Seq<(u32, Seq<char>)>, StoreError>(
                attempt_labels(read@),
            ),
            Err(e) => collected(rows@, attempt_reader()) == Err::<
                Seq<(u32, Seq<char>)>,
                StoreError,
            >(e),
        },
{
    let mut out: Vec<(u32, String)> = Vec::new();
    let mut i: usize = 0;
    assert(rows@.take(0) =~= Seq::<(i64, String)>::empty());
    assert(attempt_labels(out@) =~= Seq::<(u32, Seq<char>)>::empty());
    while i < rows.len()
        invariant
            i <= rows@.len(),
            collected(rows@.take(i as int), attempt_reader()) == Ok::<
                Seq<(u32, Seq<char>)>,
                StoreError,
            >(attempt_labels(out@)),
        decreases rows@.len() - i,
    {
        let ghost before = out@;
        proof {
            collected_one_more(rows@, attempt_reader(), i as int);
        }
        let row = &rows[i];
        let number: u32 = parse_u32(row.0, "delivery_attempts", "attempt_no")?;
        out.push((number, row.1.clone()));
        assert(attempt_labels(out@) =~= attempt_labels(before).push((number, row.1@)));
        i = i + 1;
    }
    assert(rows@.take(i as int) =~= rows@);
    Ok(out)
}

fn show_label(rows: &Vec<(u32, String)>, number: u32) -> (r: Result<&'static str, StoreError>)
    ensures
        match r {
            Ok(label) => shown_label(attempt_labels(rows@), number) == Ok::<Seq<char>, StoreError>(
                label@,
            ),
            Err(e) => shown_label(attempt_labels(rows@), number) == Err::<Seq<char>, StoreError>(e),
        },
{
    let ghost all = attempt_labels(rows@);
    let mut n: usize = rows.len();
    assert(all.take(n as int) =~= all);
    while n > 0
        invariant
            n <= rows@.len(),
            all == attempt_labels(rows@),
            label_at(all, number) == label_at(all.take(n as int), number),
        decreases n,
    {
        let row = &rows[n - 1];
        assert(all.take(n as int).drop_last() =~= all.take(n - 1));
        assert(all.take(n as int).last() == (row.0, row.1@));
        if row.0 == number {
            let state = decode_attempt_state(row.1.as_str(), "delivery_attempts")?;
            return Ok(encode_attempt_state(state));
        }
        n = n - 1;
    }
    Ok(MISSING)
}

/// Compares the attempt rows of one revision with the attempts its fold produces. A disagreement is
/// named by the delivery key, which is no secret, and never by the correlation identity.
pub fn compare_attempts(rows: &Vec<(i64, String)>, wake: &BrowserWake) -> (r: Result<
    Vec<ProjectionMismatch>,
    StoreError,
>)
    ensures
        compared_view(r) == attempts_compared(rows@, wake@),
{
    let read = read_attempts(rows)?;
    let attempts = &wake.delivery.attempts;
    let ghost comparer = attempt_comparer(wake.key_hex@, attempt_labels(read@));
    let mut out: Vec<ProjectionMismatch> = Vec::new();
    let mut i: usize = 0;
    assert(attempts@.take(0) =~= Seq::<Attempt>::empty());
    assert(views(out@) =~= Seq::<MismatchView>::empty());
    while i < attempts.len()
        invariant
            i <= attempts@.len(),
            *attempts == wake.delivery.attempts,
            collected(rows@, attempt_reader()) == Ok::<Seq<(u32, Seq<char>)>, StoreError>(
                attempt_labels(read@),
            ),
            comparer == attempt_comparer(wake.key_hex@, attempt_labels(read@)),
            gathered(attempts@.take(i as int), comparer) == Ok::<Seq<MismatchView>, StoreError>(
                views(out@),
            ),
        decreases attempts@.len() - i,
    {
        proof {
            gathered_one_more(attempts@, comparer, i as int);
        }
        let attempt = attempts[i];
        let found = show_label(&read, attempt.number)?;
        let number = nat_string(attempt.number as u64);
        let row = join3(wake.key_hex.as_str(), "#", number.as_str());
        record(
            &mut out,
            "delivery_attempts",
            row.as_str(),
            "state",
            found,
            encode_attempt_state(attempt.state),
        );
        i = i + 1;
    }
    assert(attempts@.take(i as int) =~= attempts@);
    Ok(out)
}

/// Where one wake revision disagrees with its replay: its row first, then its attempts.
pub open spec fn delivery_compared(events: Seq<LedgerView>, stored: StoredDelivery, model: WakeModel) -> Result<
    Seq<MismatchView>,
    StoreError,
> {
    let t = "browser_deliveries";
    chain(
        stored_wake(events, stored, model),
        |wake: WakeView|
            match delivery_state_named(stored.state@) {
                None => Err(corrupt(t, "state", CorruptReason::UnknownLabel)),
                Some(state) => chain(
                    attempts_compared(stored.attempts@, wake),
                    |more: Seq<MismatchView>|
                        Ok(
                            differs(
                                t,
                                wake.key_hex,
                                "state",
                                delivery_state_label(state)@,
                                delivery_state_label(wake.delivery.state)@,
                            ) + more,
                        ),
                ),
            },
    )
}

/// How one wake revision is compared.
pub open spec fn delivery_comparer(events: Seq<LedgerView>, model: WakeModel) -> spec_fn(
    StoredDelivery,
) -> Result<Seq<MismatchView>, StoreError> {
    |stored: StoredDelivery| delivery_compared(events, stored, model)
}

fn compare_delivery<
    A: Fn(&Delivery, &DeliveryEvent) -> DeliveryReply,
    P: Fn(u32) -> Delivery,
    K: Fn(ObligationId, BindingGeneration, DeliveryRevision) -> String,
    I: Fn(&str) -> bool,
    H: Fn(&BrowserWake) -> bool,
    S: Fn(&str) -> bool,
>(
    events: &Vec<LedgerEvent>,
    stored: &StoredDelivery,
    rules: &WakeRules<A, P, K, I, H, S>,
) -> (r: Result<Vec<ProjectionMismatch>, StoreError>)
    requires
        rules.total(),
    ensures
        forall|model: WakeModel| #[trigger]
            rules.follows(model) ==> compared_view(r) == delivery_compared(
                ledger_view(events@),
                *stored,
                model,
            ),
{
    let wake = load_wake(events, stored, rules)?;
    let state = decode_delivery_state(stored.state.as_str(), "browser_deliveries")?;
    let mut out: Vec<ProjectionMismatch> = Vec::new();
    record_one(
        &mut out,
        "browser_deliveries",
        wake.key_hex.as_str(),
        "state",
        encode_delivery_state(state),
        encode_delivery_state(wake.delivery.state),
    );
    let more = compare_attempts(&stored.attempts, &wake)?;
    extend(&mut out, more);
    Ok(out)
}

/// Compares every wake revision with its replay.
pub fn compare_deliveries<
    A: Fn(&Delivery, &DeliveryEvent) -> DeliveryReply,
    P: Fn(u32) -> Delivery,
    K: Fn(ObligationId, BindingGeneration, DeliveryRevision) -> String,
    I: Fn(&str) -> bool,
    H: Fn(&BrowserWake) -> bool,
    S: Fn(&str) -> bool,
>(
    events: &Vec<LedgerEvent>,
    deliveries: &Vec<StoredDelivery>,
    rules: &WakeRules<A, P, K, I, H, S>,
) -> (r: Result<Vec<ProjectionMismatch>, StoreError>)
    requires
        rules.total(),
    ensures
        forall|model: WakeModel| #[trigger]
            rules.follows(model) ==> compared_view(r) == gathered(
                deliveries@,
                delivery_comparer(ledger_view(events@), model),
            ),
{
    let mut out: Vec<ProjectionMismatch> = Vec::new();
    let mut i: usize = 0;
    assert(deliveries@.take(0) =~= Seq::<StoredDelivery>::empty());
    assert(views(out@) =~= Seq::<MismatchView>::empty());
    while i < deliveries.len()
        invariant
            rules.total(),
            i <= deliveries@.len(),
            forall|model: WakeModel| #[trigger]
                rules.follows(model) ==> gathered(
                    deliveries@.take(i as int),
                    delivery_comparer(ledger_view(events@), model),
                ) == Ok::<Seq<MismatchView>, StoreError>(views(out@)),
        decreases deliveries@.len() - i,
    {
        let ghost before = views(out@);
        let found = compare_delivery(events, &deliveries[i], rules);
        proof {
            assert forall|model: WakeModel| #[trigger] rules.follows(model) implies ({
                let comparer = delivery_comparer(ledger_view(events@), model);
                &&& compared_view(found) == comparer(deliveries@[i as int])
                &&& found is Err ==> gathered(deliveries@, comparer) == compared_view(found)
                &&& found is Ok ==> gathered(deliveries@.take(i + 1), comparer) == Ok::<
                    Seq<MismatchView>,
                    StoreError,
                >(before + compared_view(found)->Ok_0)
            }) by {
                gathered_one_more(deliveries@, delivery_comparer(ledger_view(events@), model), i as int);
            }
        }
        let more = found?;
        extend(&mut out, more);
        i = i + 1;
    }
    assert(deliveries@.take(i as int) =~= deliveries@);
    Ok(out)
}

// --- The whole verification ----------------------------------------------------------------------------

/// Everything a verification compares the ledger with.
#[derive(Debug, PartialEq, Eq)]
pub struct StoredProjections {
    /// The whole ledger, in order.
    pub events: Vec<LedgerEvent>,
    /// What is recorded of each obligation.
    pub obligations: Vec<ObligationRecord>,
    pub artifacts: Vec<StoredArtifact>,
    pub conditions: Vec<StoredCondition>,
    pub deliveries: Vec<StoredDelivery>,
    /// The highest sequence the ledger holds.
    pub highest: Option<i64>,
}

/// Every disagreement there is, in the order the tables are compared.
pub open spec fn disagreements(
    stored: StoredProjections,
    model: ObligationModel,
    wakes: WakeModel,
) -> Result<Seq<MismatchView>, StoreError> {
    let events = ledger_view(stored.events@);
    let records = stored.obligations@;
    chain(
        gathered(ids_of(events), record_comparer(events, records, model)),
        |first: Seq<MismatchView>|
            chain(
                gathered(ids_of(events), turn_comparer(events, records)),
                |second: Seq<MismatchView>|
                    chain(
                        retention_compared(events, records, stored.artifacts@, model),
                        |third: Seq<MismatchView>|
                            chain(
                                health_compared(events, stored.conditions@),
                                |fourth: Seq<MismatchView>|
                                    chain(
                                        gathered(stored.deliveries@, delivery_comparer(events, wakes)),
                                        |fifth: Seq<MismatchView>|
                                            Ok(first + second + third + fourth + fifth),
                                    ),
                            ),
                    ),
            ),
    )
}

/// The watermark of a verification that found nothing.
pub open spec fn watermark(highest: Option<i64>) -> Result<Option<EventSeq>, StoreError> {
    match highest {
        None => Ok(None),
        Some(seq) => chain(u64_column(seq, "events", "seq"), |found: u64| Ok(Some(found))),
    }
}

/// Whether a verification answers what the comparison found: a failure to fold is that failure, any
/// disagreement needs repair and all of them are reported, and only without one is there a
/// watermark.
pub open spec fn answers(
    r: Result<VerifiedProjections, StoreError>,
    found: Result<Seq<MismatchView>, StoreError>,
    stored: StoredProjections,
) -> bool {
    match found {
        Err(e) => r == Err::<VerifiedProjections, StoreError>(e),
        Ok(mismatches) => if mismatches.len() > 0 {
            r matches Err(StoreError::RepairNeeded(needed)) && views(needed.mismatches@) == mismatches
        } else {
            match watermark(stored.highest) {
                Err(e) => r == Err::<VerifiedProjections, StoreError>(e),
                Ok(verified_through) => r == Ok::<VerifiedProjections, StoreError>(
                    VerifiedProjections {
                        obligations: ids_of(ledger_view(stored.events@)).len() as usize,
                        deliveries: stored.deliveries@.len() as usize,
                        verified_through,
                    },
                ),
            }
        },
    }
}

/// Rebuilds every projection from the ledger and compares it with the rows.
///
/// The ledger alone says which obligations there are and which events are whose: one without a
/// record is a dangling reference, never one that goes unnoticed.
pub fn verify<
    A: Fn(&Obligation, &ObligationEvent) -> ObligationReply,
    C: Fn(&CompletionReceipts) -> WorkerOutcome,
    S: Fn(&str) -> bool,
    B: Fn(&Delivery, &DeliveryEvent) -> DeliveryReply,
    P: Fn(u32) -> Delivery,
    K: Fn(ObligationId, BindingGeneration, DeliveryRevision) -> String,
    I: Fn(&str) -> bool,
    H: Fn(&BrowserWake) -> bool,
    T: Fn(&str) -> bool,
>(
    stored: &StoredProjections,
    rules: &ObligationRules<A, C, S>,
    wakes: &WakeRules<B, P, K, I, H, T>,
) -> (r: Result<VerifiedProjections, StoreError>)
    requires
        rules.total(),
        wakes.total(),
    ensures
        forall|model: ObligationModel, wake_model: WakeModel|
            #![trigger rules.follows(model), wakes.follows(wake_model)]
            rules.follows(model) && wakes.follows(wake_model) ==> answers(
                r,
                disagreements(*stored, model, wake_model),
                *stored,
            ),
{
    let mut mismatches = compare_obligations(&stored.events, &stored.obligations, rules)?;
    let turns = compare_turns(&stored.events, &stored.obligations)?;
    extend(&mut mismatches, turns);
    let retention = compare_retention(
        &stored.events,
        &stored.obligations,
        &stored.artifacts,
        rules,
    )?;
    extend(&mut mismatches, retention);
    let health = compare_health(&stored.events, &stored.conditions)?;
    extend(&mut mismatches, health);
    let deliveries = compare_deliveries(&stored.events, &stored.deliveries, wakes)?;
    extend(&mut mismatches, deliveries);
    if mismatches.len() > 0 {
        return Err(StoreError::RepairNeeded(RepairNeeded { mismatches }));
    }
    let verified_through = highest_seq(stored.highest)?;
    Ok(
        VerifiedProjections {
            obligations: obligations_of(&stored.events).len(),
            deliveries: stored.deliveries.len(),
            verified_through,
        },
    )
}

// --- Laws ------------------------------------------------------------------------------------------------

/// A field that agrees with its replay is never reported, and one that does not always is: the report
/// of one field is empty exactly where the stored text is the replayed one.
pub proof fn agreement_is_silent(
    table: &'static str,
    row: Seq<char>,
    column: &'static str,
    stored: Seq<char>,
    replayed: Seq<char>,
)
    ensures
        differs(table, row, column, stored, replayed).len() == 0 <==> stored == replayed,
{
}

/// What comparing a list finds is nothing exactly where every item agrees.
pub proof fn a_list_agrees_where_every_item_does<A>(
    items: Seq<A>,
    compare: spec_fn(A) -> Result<Seq<MismatchView>, StoreError>,
)
    requires
        gathered(items, compare) is Ok,
    ensures
        gathered(items, compare)->Ok_0.len() == 0 <==> forall|i: int|
            0 <= i < items.len() ==> (#[trigger] compare(items[i]) matches Ok(found) && found.len()
                == 0),
    decreases items.len(),
{
    if items.len() > 0 {
        let rest = items.drop_last();
        a_list_agrees_where_every_item_does(rest, compare);
        let n = items.len() - 1;
        assert(items[n] == items.last());
        if gathered(items, compare)->Ok_0.len() == 0 {
            assert forall|i: int| 0 <= i < items.len() implies (#[trigger] compare(items[i]) matches Ok(
                found,
            ) && found.len() == 0) by {
                if i < n {
                    assert(rest[i] == items[i]);
                    assert(compare(rest[i]) matches Ok(found) && found.len() == 0);
                }
            }
        } else {
            if compare(items[n]) matches Ok(found) && found.len() == 0 {
                let bad = choose|i: int|
                    0 <= i < rest.len() && !(#[trigger] compare(rest[i]) matches Ok(found)
                        && found.len() == 0);
                assert(items[bad] == rest[bad]);
                assert(!(compare(items[bad]) matches Ok(found) && found.len() == 0));
            }
        }
    }
}

/// Verification fails closed: an obligation row whose state is not the replayed one leaves no
/// watermark, whatever else is stored.
pub proof fn a_drifted_state_needs_repair(
    stored: StoredProjections,
    model: ObligationModel,
    wakes: WakeModel,
    r: Result<VerifiedProjections, StoreError>,
    id: ObligationId,
    record: ObligationRecord,
)
    requires
        about(ledger_view(stored.events@), id),
        record_of(stored.obligations@, id) == Ok::<ObligationRecord, StoreError>(record),
        answers(r, disagreements(stored, model, wakes), stored),
        ({
            let identity = identity_of(record.identity);
            let slice = slice_of(ledger_view(stored.events@), id);
            &&& identity is Ok
            &&& folded(record.id, identity->Ok_0, slice, model) matches Ok(loaded)
            &&& obligation_state_named(record.stored.state@) matches Some(state)
            &&& obligation_state_label(state)@ != obligation_state_label(loaded.projection.state)@
        }),
    ensures
        r is Err,
{
    if r is Ok {
        a_verified_ledger_leaves_nothing_out(stored, model, wakes, r, id);
    }
}

/// A verification that succeeds compared every obligation the ledger speaks of, with all of its
/// events: each has a record, and the record agrees with the whole slice.
pub proof fn a_verified_ledger_leaves_nothing_out(
    stored: StoredProjections,
    model: ObligationModel,
    wakes: WakeModel,
    r: Result<VerifiedProjections, StoreError>,
    id: ObligationId,
)
    requires
        about(ledger_view(stored.events@), id),
        answers(r, disagreements(stored, model, wakes), stored),
        r is Ok,
    ensures
        record_of(stored.obligations@, id) matches Ok(record) && record_compared(
            record,
            slice_of(ledger_view(stored.events@), id),
            model,
        ) == Ok::<Seq<MismatchView>, StoreError>(Seq::empty()),
{
    let events = ledger_view(stored.events@);
    let ids = ids_of(events);
    the_list_is_complete(events);
    assert(ids.contains(id));
    let comparer = record_comparer(events, stored.obligations@, model);
    assert(gathered(ids, comparer) is Ok && gathered(ids, comparer)->Ok_0.len() == 0);
    a_list_agrees_where_every_item_does(ids, comparer);
    let at = choose|at: int| 0 <= at < ids.len() && ids[at] == id;
    assert(comparer(ids[at]) matches Ok(none) && none.len() == 0);
    let record = record_of(stored.obligations@, id)->Ok_0;
    assert(record_compared(record, slice_of(events, id), model)->Ok_0 =~= Seq::empty());
}

/// A missing transition cannot hide: where a step of the fold creates the obligation or moves its
/// version and no transition is recorded for its event, the step is reported.
pub proof fn a_missing_transition_is_reported(
    id: ObligationId,
    identity: ObligationIdentity,
    slice: Seq<LedgerView>,
    recorded: Seq<(EventSeq, u64)>,
    model: ObligationModel,
    step: int,
)
    requires
        1 <= step <= slice.len(),
        folded(id, identity, slice.take(step), model) is Ok,
        step > 1 ==> (folded(id, identity, slice.take(step - 1), model) matches Ok(before)
            && before.projection.version != folded(
            id,
            identity,
            slice.take(step),
            model,
        )->Ok_0.projection.version),
        forall|i: int| 0 <= i < recorded.len() ==> (#[trigger] recorded[i]).0 != slice[step - 1].seq,
    ensures
        step_compared(id, identity, slice, recorded, model, step) matches Ok(found) && found.len() == 1
            && found[0].table == "obligation_events"@,
{
    unrecorded(recorded, slice[step - 1].seq);
    let version = folded(id, identity, slice.take(step), model)->Ok_0.projection.version;
    nat_text_denotes(version as nat);
}

proof fn unrecorded(recorded: Seq<(EventSeq, u64)>, seq: EventSeq)
    requires
        forall|i: int| 0 <= i < recorded.len() ==> (#[trigger] recorded[i]).0 != seq,
    ensures
        version_at(recorded, seq) is None,
    decreases recorded.len(),
{
    if recorded.len() > 0 {
        let rest = recorded.drop_last();
        assert forall|i: int| 0 <= i < rest.len() implies (#[trigger] rest[i]).0 != seq by {
            assert(rest[i] == recorded[i]);
        }
        assert(recorded.last() == recorded[recorded.len() - 1]);
        unrecorded(rest, seq);
    }
}

} // verus!
