//! Rebuilding the binding ledger from its projection rows.
use vstd::prelude::*;
use crate::domain::binding::{
    BindingEvent, BindingEventView, BindingLedger, BindingModel, BindingReply, BindingRules,
    BindingView, TargetView, VerifiedBindingTarget,
};
use crate::domain::fence::{rule_is, rule_total, BindingGeneration};
use crate::domain::id::Id;
use crate::domain::obligation::{or_unchanged, settled, Applied};
use crate::store::codec::{
    id_column, parse_id, parse_token, parse_u64, token_column, u64_column,
};
use crate::store::error::{chain, corrupt, corrupt_row, CorruptReason, StoreError};
use crate::store::labels::{decode_write_capability, write_capability_named};

verus! {

/// One `foreman_bindings` row, as read.
#[derive(Debug, PartialEq, Eq)]
pub struct BindingRow {
    pub foreman_binding_id: String,
    pub canonical_conversation_id: String,
    pub browser_profile_id: String,
    pub connector_abi: String,
    pub binding_generation: i64,
    pub capability_epoch: i64,
    pub write_capability_state: String,
    pub is_active: i64,
}

/// The generation and the target a row records.
pub open spec fn bound_by(row: BindingRow, rule: spec_fn(Seq<char>) -> bool) -> Result<
    (BindingGeneration, TargetView),
    StoreError,
> {
    let t = "foreman_bindings";
    chain(
        u64_column(row.binding_generation, t, "binding_generation"),
        |generation: u64|
            chain(
                id_column(row.foreman_binding_id@, t, "foreman_binding_id"),
                |id: Id|
                    chain(
                        token_column(row.canonical_conversation_id@, t, "canonical_conversation_id", rule),
                        |conversation: Seq<char>|
                            chain(
                                token_column(row.browser_profile_id@, t, "browser_profile_id", rule),
                                |profile: Seq<char>|
                                    chain(
                                        token_column(row.connector_abi@, t, "connector_abi", rule),
                                        |connector_abi: Seq<char>|
                                            chain(
                                                u64_column(row.capability_epoch, t, "capability_epoch"),
                                                |capability_epoch: u64|
                                                    match write_capability_named(
                                                        row.write_capability_state@,
                                                    ) {
                                                        None => Err(
                                                            corrupt(
                                                                t,
                                                                "write_capability_state",
                                                                CorruptReason::UnknownLabel,
                                                            ),
                                                        ),
                                                        Some(write_capability) => Ok(
                                                            (
                                                                generation,
                                                                TargetView {
                                                                    id,
                                                                    conversation,
                                                                    profile,
                                                                    connector_abi,
                                                                    capability_epoch,
                                                                    write_capability,
                                                                },
                                                            ),
                                                        ),
                                                    },
                                            ),
                                    ),
                            ),
                    ),
            ),
    )
}

fn read_target<S: Fn(&str) -> bool>(row: &BindingRow, safe: &S) -> (r: Result<
    (BindingGeneration, VerifiedBindingTarget),
    StoreError,
>)
    requires
        rule_total(*safe),
    ensures
        forall|rule: spec_fn(Seq<char>) -> bool| #[trigger]
            rule_is(*safe, rule) ==> (match r {
                Ok((generation, target)) => bound_by(*row, rule) == Ok::<
                    (BindingGeneration, TargetView),
                    StoreError,
                >((generation, target@)),
                Err(e) => bound_by(*row, rule) == Err::<(BindingGeneration, TargetView), StoreError>(e),
            }),
{
    let t = "foreman_bindings";
    let generation: u64 = parse_u64(row.binding_generation, t, "binding_generation")?;
    let id = parse_id(row.foreman_binding_id.as_str(), t, "foreman_binding_id")?;
    let conversation = parse_token(
        row.canonical_conversation_id.as_str(),
        t,
        "canonical_conversation_id",
        safe,
    )?;
    let profile = parse_token(row.browser_profile_id.as_str(), t, "browser_profile_id", safe)?;
    let connector_abi = parse_token(row.connector_abi.as_str(), t, "connector_abi", safe)?;
    let capability_epoch: u64 = parse_u64(row.capability_epoch, t, "capability_epoch")?;
    let write_capability = decode_write_capability(row.write_capability_state.as_str(), t)?;
    Ok(
        (
            generation,
            VerifiedBindingTarget {
                id,
                conversation,
                profile,
                connector_abi,
                capability_epoch,
                write_capability,
            },
        ),
    )
}

/// The ledger after one more event the machine accepts, or its refusal.
pub open spec fn bound_step(
    ledger: BindingView,
    event: BindingEventView,
    model: BindingModel,
) -> Result<BindingView, StoreError> {
    match (model.apply)(ledger, event) {
        Err(conflict) => Err(StoreError::Conflict(conflict)),
        Ok(applied) => Ok(settled(applied, ledger)),
    }
}

/// The ledger after replaying one row.
///
/// A row that follows an active one is refused: binding it would have superseded that one. The
/// generation the machine assigns must be the one the row records; a row that is no longer active
/// displaces what it bound.
pub open spec fn row_replayed(ledger: BindingView, row: BindingRow, model: BindingModel) -> Result<
    BindingView,
    StoreError,
> {
    chain(
        bound_by(row, model.rule),
        |read: (BindingGeneration, TargetView)|
            chain(
                if ledger.active is Some {
                    Err(corrupt("foreman_bindings", "is_active", CorruptReason::UnprovableEvidence))
                } else {
                    bound_step(ledger, BindingEventView::Bound { target: read.1, at: 0 }, model)
                },
                |bound: BindingView|
                    if !(bound.active matches Some(active) && active.generation == read.0) {
                        Err(
                            corrupt(
                                "foreman_bindings",
                                "binding_generation",
                                CorruptReason::UnprovableEvidence,
                            ),
                        )
                    } else if row.is_active == 0 {
                        bound_step(
                            bound,
                            BindingEventView::Displaced { generation: read.0, at: 0 },
                            model,
                        )
                    } else {
                        Ok(bound)
                    },
            ),
    )
}

/// The ledger before any binding.
pub open spec fn unbound() -> BindingView {
    BindingView { highest: 0, active: None }
}

/// The ledger replayed from its rows, in generation order.
pub open spec fn bindings_replayed(rows: Seq<BindingRow>, model: BindingModel) -> Result<
    BindingView,
    StoreError,
>
    decreases rows.len(),
{
    if rows.len() == 0 {
        Ok(unbound())
    } else {
        match bindings_replayed(rows.drop_last(), model) {
            Err(e) => Err(e),
            Ok(ledger) => row_replayed(ledger, rows.last(), model),
        }
    }
}

proof fn replay_fault_stays(rows: Seq<BindingRow>, model: BindingModel, n: int)
    requires
        0 <= n <= rows.len(),
        bindings_replayed(rows.take(n), model) is Err,
    ensures
        bindings_replayed(rows, model) == bindings_replayed(rows.take(n), model),
    decreases rows.len() - n,
{
    if n < rows.len() {
        assert(rows.take(n + 1).drop_last() =~= rows.take(n));
        replay_fault_stays(rows, model, n + 1);
    } else {
        assert(rows.take(n) =~= rows);
    }
}

/// A binding ledger on values alone, or the failure.
pub open spec fn bindings_view(r: Result<BindingLedger, StoreError>) -> Result<BindingView, StoreError> {
    match r {
        Ok(ledger) => Ok(ledger@),
        Err(e) => Err(e),
    }
}

fn replay_row<A: Fn(&BindingLedger, &BindingEvent) -> BindingReply, S: Fn(&str) -> bool>(
    ledger: BindingLedger,
    row: &BindingRow,
    rules: &BindingRules<A, S>,
) -> (r: Result<BindingLedger, StoreError>)
    requires
        rules.total(),
    ensures
        forall|model: BindingModel| #[trigger]
            rules.follows(model) ==> bindings_view(r) == row_replayed(ledger@, *row, model),
{
    let (generation, target) = read_target(row, &rules.safe)?;
    if ledger.active.is_some() {
        return Err(corrupt_row("foreman_bindings", "is_active", CorruptReason::UnprovableEvidence));
    }
    let event = BindingEvent::Bound { target, at: 0 };
    let reply = (rules.apply)(&ledger, &event);
    let bound = match reply {
        Err(conflict) => return Err(StoreError::Conflict(conflict)),
        Ok(applied) => or_unchanged(applied, ledger),
    };
    let proven: bool = match &bound.active {
        Some(active) => active.generation == generation,
        None => false,
    };
    if !proven {
        return Err(corrupt_row("foreman_bindings", "binding_generation", CorruptReason::UnprovableEvidence));
    }
    if row.is_active == 0 {
        let event = BindingEvent::Displaced { generation, at: 0 };
        let reply = (rules.apply)(&bound, &event);
        match reply {
            Err(conflict) => Err(StoreError::Conflict(conflict)),
            Ok(applied) => Ok(or_unchanged(applied, bound)),
        }
    } else {
        Ok(bound)
    }
}

/// Folds the binding ledger from its projection rows, in generation order.
pub fn bindings<A: Fn(&BindingLedger, &BindingEvent) -> BindingReply, S: Fn(&str) -> bool>(
    rows: &Vec<BindingRow>,
    rules: &BindingRules<A, S>,
) -> (r: Result<BindingLedger, StoreError>)
    requires
        rules.total(),
    ensures
        forall|model: BindingModel| #[trigger]
            rules.follows(model) ==> bindings_view(r) == bindings_replayed(rows@, model),
{
    let mut ledger = BindingLedger { highest: 0, active: None };
    let mut i: usize = 0;
    while i < rows.len()
        invariant
            i <= rows@.len(),
            rules.total(),
            forall|model: BindingModel| #[trigger]
                rules.follows(model) ==> bindings_replayed(rows@.take(i as int), model) == Ok::<
                    BindingView,
                    StoreError,
                >(ledger@),
        decreases rows@.len() - i,
    {
        proof {
            assert(rows@.take(i + 1).drop_last() =~= rows@.take(i as int));
            assert(rows@.take(i + 1).last() == rows@[i as int]);
            assert forall|model: BindingModel| bindings_replayed(rows@.take(i + 1), model) is Err implies
                #[trigger] bindings_replayed(rows@, model) == bindings_replayed(rows@.take(i + 1), model) by {
                replay_fault_stays(rows@, model, i + 1);
            }
        }
        ledger = replay_row(ledger, &rows[i], rules)?;
        i = i + 1;
    }
    proof {
        assert(rows@.take(i as int) =~= rows@);
    }
    Ok(ledger)
}

/// Whether a machine issues each new binding the generation after the highest, and displaces
/// without issuing.
pub open spec fn issues_in_order(model: BindingModel) -> bool {
    &&& forall|l: BindingView, target: TargetView, at: i64|
        ((#[trigger] (model.apply)(l, BindingEventView::Bound { target, at })) matches Ok(
            Applied::Advanced(next),
        ) ==> next.highest == l.highest + 1 && (next.active matches Some(active) ==> active.generation
            == next.highest))
    &&& forall|l: BindingView, target: TargetView, at: i64|
        !((#[trigger] (model.apply)(l, BindingEventView::Bound { target, at })) matches Ok(
            Applied::Duplicate,
        ))
    &&& forall|l: BindingView, generation: BindingGeneration, at: i64|
        ((#[trigger] (model.apply)(l, BindingEventView::Displaced { generation, at })) matches Ok(
            Applied::Advanced(next),
        ) ==> next.highest == l.highest)
}

/// Rows that replay have no gap: under a machine that issues generations in order, the rows are
/// those of generations one, two, three and so on.
pub proof fn replayed_generations_have_no_gap(rows: Seq<BindingRow>, model: BindingModel)
    requires
        issues_in_order(model),
        bindings_replayed(rows, model) is Ok,
    ensures
        bindings_replayed(rows, model)->Ok_0.highest == rows.len(),
        forall|i: int| 0 <= i < rows.len() ==> (#[trigger] rows[i]).binding_generation == i + 1,
    decreases rows.len(),
{
    if rows.len() > 0 {
        let init = rows.drop_last();
        replayed_generations_have_no_gap(init, model);
        let ledger = bindings_replayed(init, model)->Ok_0;
        let row = rows.last();
        let read = bound_by(row, model.rule)->Ok_0;
        let event = BindingEventView::Bound { target: read.1, at: 0 };
        let bound = bound_step(ledger, event, model)->Ok_0;
        assert((model.apply)(ledger, event) is Ok);
        assert(bound.highest == ledger.highest + 1);
        assert(read.0 == row.binding_generation);
        if row.is_active == 0 {
            assert((model.apply)(bound, BindingEventView::Displaced { generation: read.0, at: 0 }) is Ok);
        }
        assert forall|i: int| 0 <= i < rows.len() implies (#[trigger] rows[i]).binding_generation == i
            + 1 by {
            if i < init.len() {
                assert(init[i] == rows[i]);
            }
        }
    }
}

/// Rows that replay have at most one active row, and it is the last: whatever the machine answers,
/// a second active row never folds into a ledger.
pub proof fn only_the_last_row_is_active(rows: Seq<BindingRow>, model: BindingModel)
    requires
        bindings_replayed(rows, model) is Ok,
    ensures
        forall|i: int| 0 <= i < rows.len() - 1 ==> (#[trigger] rows[i]).is_active == 0,
    decreases rows.len(),
{
    if rows.len() > 1 {
        let init = rows.drop_last();
        only_the_last_row_is_active(init, model);
        assert(init.last() == rows[rows.len() - 2]);
        assert forall|i: int| 0 <= i < rows.len() - 1 implies (#[trigger] rows[i]).is_active == 0 by {
            if i < init.len() - 1 {
                assert(init[i] == rows[i]);
            }
        }
    }
}

} // verus!
