//! Daemon state as stable, greppable, safe lines: the socket's payload and what the command line
//! prints.
//!
//! Every line is `key=value` pairs separated by single spaces. A value is an opaque identity, a
//! class, a counter, a duration in milliseconds or a flag; never a title, a path or content.
use vstd::prelude::*;
use vstd::string::StringExecFns;
use crate::domain::fence::Timestamp;
use crate::domain::health::{HealthConditionKind, HealthScope};
use crate::domain::id::{canonical_text, id_text, Id};
use crate::domain::obligation::{ObligationKind, ObligationState};
use crate::store::labels::{encode_health_kind, health_kind_label};
use crate::store::load::artifact::{OpenObligation, OpenView};
use crate::store::load::health::OpenCondition;
use crate::text::{decided_at, in_order, nat_text, neighbours_in_order, push_nat, string_texts};

verus! {

// --- Labels ----------------------------------------------------------------------------------------------

/// The wire label of one obligation lifecycle state.
pub open spec fn state_word(state: ObligationState) -> &'static str {
    match state {
        ObligationState::Created => "created",
        ObligationState::Running => "running",
        ObligationState::NeedsInput => "needs_input",
        ObligationState::Failed => "failed",
        ObligationState::CompletedUnprocessed => "completed_unprocessed",
        ObligationState::ClaimedByForeman => "claimed_by_foreman",
        ObligationState::Processing => "processing",
        ObligationState::Acknowledged => "acknowledged",
        ObligationState::CancelledByUser => "cancelled_by_user",
        ObligationState::Superseded => "superseded",
    }
}

/// The wire label of one obligation lifecycle state.
pub fn state_code(state: ObligationState) -> (r: &'static str)
    ensures
        r == state_word(state),
{
    match state {
        ObligationState::Created => "created",
        ObligationState::Running => "running",
        ObligationState::NeedsInput => "needs_input",
        ObligationState::Failed => "failed",
        ObligationState::CompletedUnprocessed => "completed_unprocessed",
        ObligationState::ClaimedByForeman => "claimed_by_foreman",
        ObligationState::Processing => "processing",
        ObligationState::Acknowledged => "acknowledged",
        ObligationState::CancelledByUser => "cancelled_by_user",
        ObligationState::Superseded => "superseded",
    }
}

/// The wire label of one obligation kind.
pub open spec fn kind_word(kind: ObligationKind) -> &'static str {
    match kind {
        ObligationKind::WorkerTurn => "worker_turn",
    }
}

/// The wire label of one obligation kind.
pub fn kind_code(kind: ObligationKind) -> (r: &'static str)
    ensures
        r == kind_word(kind),
{
    match kind {
        ObligationKind::WorkerTurn => "worker_turn",
    }
}

/// Every lifecycle state, in the order of the labels.
pub open spec fn states_in_order() -> Seq<ObligationState> {
    seq![
        ObligationState::Acknowledged,
        ObligationState::CancelledByUser,
        ObligationState::ClaimedByForeman,
        ObligationState::CompletedUnprocessed,
        ObligationState::Created,
        ObligationState::Failed,
        ObligationState::NeedsInput,
        ObligationState::Processing,
        ObligationState::Running,
        ObligationState::Superseded,
    ]
}

fn all_states() -> (r: Vec<ObligationState>)
    ensures
        r@ == states_in_order(),
{
    let mut out: Vec<ObligationState> = Vec::new();
    out.push(ObligationState::Acknowledged);
    out.push(ObligationState::CancelledByUser);
    out.push(ObligationState::ClaimedByForeman);
    out.push(ObligationState::CompletedUnprocessed);
    out.push(ObligationState::Created);
    out.push(ObligationState::Failed);
    out.push(ObligationState::NeedsInput);
    out.push(ObligationState::Processing);
    out.push(ObligationState::Running);
    out.push(ObligationState::Superseded);
    assert(out@ =~= states_in_order());
    out
}

/// Every attention class, in the order of the labels.
pub open spec fn kinds_in_order() -> Seq<HealthConditionKind> {
    seq![
        HealthConditionKind::BrowserBindingDisplaced,
        HealthConditionKind::ForemanUnreachable,
        HealthConditionKind::InputDetailUnavailable,
        HealthConditionKind::LineageBroken,
        HealthConditionKind::LoadoutUnverifiable,
        HealthConditionKind::ManagedConfigMissing,
        HealthConditionKind::McpWriteCapabilityMissing,
        HealthConditionKind::ProjectionMismatch,
        HealthConditionKind::ReconciliationRequired,
        HealthConditionKind::ResultArtifactMissing,
        HealthConditionKind::RuntimeStateConflict,
        HealthConditionKind::SuspectedStall,
        HealthConditionKind::WorkerDeferShapeUnsupported,
    ]
}

fn all_health_kinds() -> (r: Vec<HealthConditionKind>)
    ensures
        r@ == kinds_in_order(),
{
    let mut out: Vec<HealthConditionKind> = Vec::new();
    out.push(HealthConditionKind::BrowserBindingDisplaced);
    out.push(HealthConditionKind::ForemanUnreachable);
    out.push(HealthConditionKind::InputDetailUnavailable);
    out.push(HealthConditionKind::LineageBroken);
    out.push(HealthConditionKind::LoadoutUnverifiable);
    out.push(HealthConditionKind::ManagedConfigMissing);
    out.push(HealthConditionKind::McpWriteCapabilityMissing);
    out.push(HealthConditionKind::ProjectionMismatch);
    out.push(HealthConditionKind::ReconciliationRequired);
    out.push(HealthConditionKind::ResultArtifactMissing);
    out.push(HealthConditionKind::RuntimeStateConflict);
    out.push(HealthConditionKind::SuspectedStall);
    out.push(HealthConditionKind::WorkerDeferShapeUnsupported);
    assert(out@ =~= kinds_in_order());
    out
}

// --- Lines -----------------------------------------------------------------------------------------------

/// A line of one counter.
pub open spec fn count_text(key: Seq<char>, n: nat) -> Seq<char> {
    key + "="@ + nat_text(n)
}

/// Renders a line of one counter.
pub fn count_line(key: &str, n: u64) -> (r: String)
    ensures
        r@ == count_text(key@, n as nat),
{
    let mut out = key.to_owned();
    out.append("=");
    push_nat(&mut out, n);
    out
}

proof fn a_pushed_line(lines: Seq<String>, line: String)
    ensures
        string_texts(lines.push(line)) == string_texts(lines).push(line@),
{
    assert(string_texts(lines.push(line)) =~= string_texts(lines).push(line@));
}

/// Adds a line to a list of lines.
pub fn push_line(lines: &mut Vec<String>, line: String)
    ensures
        string_texts(final(lines)@) == string_texts(old(lines)@).push(line@),
{
    proof {
        a_pushed_line(lines@, line);
    }
    lines.push(line);
}

/// Adds lines to a list of lines.
pub fn push_lines(lines: &mut Vec<String>, more: Vec<String>)
    ensures
        string_texts(final(lines)@) == string_texts(old(lines)@) + string_texts(more@),
{
    let mut rest = more;
    lines.append(&mut rest);
    assert(string_texts(lines@) =~= string_texts(old(lines)@) + string_texts(more@));
}

// --- Obligations -----------------------------------------------------------------------------------------

/// Open work on values alone.
pub open spec fn open_views(rows: Seq<OpenObligation>) -> Seq<OpenView> {
    Seq::new(rows.len(), |i: int| rows[i]@)
}

/// How long ago something was: nothing where it lies ahead, and as much as a duration holds.
pub open spec fn age_of(now: Timestamp, then: Timestamp) -> nat {
    if now <= then {
        0
    } else if now - then <= i64::MAX {
        (now - then) as nat
    } else {
        i64::MAX as nat
    }
}

fn age_ms(now: Timestamp, created: Timestamp) -> (r: u64)
    ensures
        r == age_of(now, created),
{
    let age: i128 = now as i128 - created as i128;
    if age <= 0 {
        0
    } else if age <= i64::MAX as i128 {
        age as u64
    } else {
        i64::MAX as u64
    }
}

/// The line of one open obligation: identity, class, fence, age.
pub open spec fn obligation_text(row: OpenView, now: Timestamp) -> Seq<char> {
    "obligation id="@ + canonical_text(row.id.value) + " kind="@ + kind_word(row.kind)@ + " state="@
        + state_word(row.state)@ + " version="@ + nat_text(row.version as nat) + " age_ms="@
        + nat_text(age_of(now, row.created_at)) + " artifact="@ + (match row.result_artifact {
        Some(artifact) => canonical_text(artifact.id.value),
        None => "none"@,
    })
}

fn obligation_line(row: &OpenObligation, now: Timestamp) -> (r: String)
    ensures
        r@ == obligation_text(row@, now),
{
    let mut out = "obligation id=".to_owned();
    let id = id_text(row.id);
    out.append(id.as_str());
    out.append(" kind=");
    out.append(kind_code(row.kind));
    out.append(" state=");
    out.append(state_code(row.state));
    out.append(" version=");
    push_nat(&mut out, row.version);
    out.append(" age_ms=");
    push_nat(&mut out, age_ms(now, row.created_at));
    out.append(" artifact=");
    match &row.result_artifact {
        Some(artifact) => {
            let pinned = id_text(artifact.id);
            out.append(pinned.as_str());
        },
        None => {
            out.append("none");
        },
    }
    out
}

/// Whether one row comes before another: it is older, or as old and earlier in the list.
pub open spec fn older(rows: Seq<OpenView>, a: int, b: int) -> bool {
    rows[a].created_at < rows[b].created_at || (rows[a].created_at == rows[b].created_at && a < b)
}

/// Whether an order takes up every row once, oldest first.
pub open spec fn age_order(rows: Seq<OpenView>, order: Seq<int>) -> bool {
    &&& order.len() == rows.len()
    &&& forall|i: int| 0 <= i < order.len() ==> 0 <= #[trigger] order[i] < rows.len()
    &&& forall|k: int| 0 <= k < rows.len() ==> #[trigger] order.contains(k)
    &&& forall|i: int, j: int|
        0 <= i < j < order.len() ==> older(rows, #[trigger] order[i], #[trigger] order[j])
}

/// The lines of rows in an order.
pub open spec fn lines_in(rows: Seq<OpenView>, order: Seq<int>, now: Timestamp) -> Seq<Seq<char>> {
    Seq::new(order.len(), |i: int| obligation_text(rows[order[i]], now))
}

/// The indices of a list, as integers.
pub open spec fn indices(list: Seq<usize>) -> Seq<int> {
    Seq::new(list.len(), |i: int| list[i] as int)
}

/// Orders rows by age, oldest first; rows of one age keep their order.
fn by_age(rows: &[OpenObligation]) -> (r: Vec<usize>)
    ensures
        age_order(open_views(rows@), indices(r@)),
{
    let ghost views = open_views(rows@);
    let mut order: Vec<usize> = Vec::new();
    let mut n: usize = 0;
    while n < rows.len()
        invariant
            views == open_views(rows@),
            n <= rows@.len(),
            order@.len() == n,
            forall|i: int| 0 <= i < n ==> #[trigger] order@[i] < n,
            forall|k: int| 0 <= k < n ==> #[trigger] indices(order@).contains(k),
            forall|i: int, j: int|
                0 <= i < j < n ==> older(
                    views,
                    #[trigger] order@[i] as int,
                    #[trigger] order@[j] as int,
                ),
        decreases rows@.len() - n,
    {
        let mut p: usize = n;
        while p > 0 && rows[order[p - 1]].created_at > rows[n].created_at
            invariant
                views == open_views(rows@),
                n < rows@.len(),
                p <= n,
                order@.len() == n,
                forall|i: int| 0 <= i < n ==> #[trigger] order@[i] < n,
                forall|i: int| p <= i < n ==> older(views, n as int, #[trigger] order@[i] as int),
            decreases p,
        {
            assert(views[order@[p - 1] as int] == rows@[order@[p - 1] as int]@);
            assert(views[n as int] == rows@[n as int]@);
            p = p - 1;
        }
        let ghost before = order@;
        proof {
            assert(views[n as int] == rows@[n as int]@);
            assert forall|i: int| 0 <= i < p implies older(
                views,
                #[trigger] before[i] as int,
                n as int,
            ) by {
                assert(views[before[i] as int] == rows@[before[i] as int]@);
                assert(views[before[p - 1] as int] == rows@[before[p - 1] as int]@);
                if i < p - 1 {
                    assert(older(views, before[i] as int, before[p - 1] as int));
                }
            }
        }
        order.insert(p, n);
        proof {
            assert(order@ == before.insert(p as int, n));
            assert forall|i: int| 0 <= i < n + 1 implies #[trigger] order@[i] < n + 1 by {
                if i < p {
                    assert(order@[i] == before[i]);
                } else if i > p {
                    assert(order@[i] == before[i - 1]);
                }
            }
            assert forall|k: int| 0 <= k < n + 1 implies #[trigger] indices(order@).contains(k) by {
                if k == n {
                    assert(indices(order@)[p as int] == k);
                } else {
                    assert(indices(before).contains(k));
                    let at = choose|i: int| 0 <= i < before.len() && indices(before)[i] == k;
                    if at < p {
                        assert(indices(order@)[at] == k);
                    } else {
                        assert(indices(order@)[at + 1] == k);
                    }
                }
            }
            assert forall|i: int, j: int| 0 <= i < j < n + 1 implies older(
                views,
                #[trigger] order@[i] as int,
                #[trigger] order@[j] as int,
            ) by {
                if j < p {
                    assert(order@[i] == before[i] && order@[j] == before[j]);
                } else if j == p {
                    assert(order@[i] == before[i]);
                } else if i < p {
                    assert(order@[i] == before[i] && order@[j] == before[j - 1]);
                } else if i == p {
                    assert(order@[j] == before[j - 1]);
                } else {
                    assert(order@[i] == before[i - 1] && order@[j] == before[j - 1]);
                }
            }
        }
        n = n + 1;
    }
    proof {
        let found = indices(order@);
        assert forall|i: int| 0 <= i < found.len() implies 0 <= #[trigger] found[i] < views.len() by {
            assert(order@[i] < n);
        }
        assert forall|i: int, j: int| 0 <= i < j < found.len() implies older(
            views,
            #[trigger] found[i],
            #[trigger] found[j],
        ) by {
            assert(older(views, order@[i] as int, order@[j] as int));
        }
    }
    order
}

/// Whether lines are those of the rows, one each, the oldest first.
pub open spec fn lists_oldest_first(lines: Seq<Seq<char>>, rows: Seq<OpenView>, now: Timestamp) -> bool {
    exists|order: Seq<int>| #[trigger] age_order(rows, order) && lines == lines_in(rows, order, now)
}

/// One line per open obligation, the oldest first.
pub fn obligation_lines(obligations: &[OpenObligation], now: Timestamp) -> (r: Vec<String>)
    ensures
        lists_oldest_first(string_texts(r@), open_views(obligations@), now),
{
    let ghost views = open_views(obligations@);
    let order = by_age(obligations);
    let ghost found = indices(order@);
    let mut lines: Vec<String> = Vec::new();
    let mut i: usize = 0;
    assert(string_texts(lines@) =~= lines_in(views, found, now).take(0));
    while i < order.len()
        invariant
            views == open_views(obligations@),
            found == indices(order@),
            age_order(views, found),
            i <= order@.len(),
            string_texts(lines@) == lines_in(views, found, now).take(i as int),
        decreases order@.len() - i,
    {
        proof {
            assert(0 <= found[i as int] < views.len());
        }
        let at: usize = order[i];
        let line = obligation_line(&obligations[at], now);
        push_line(&mut lines, line);
        assert(string_texts(lines@) =~= lines_in(views, found, now).take(i + 1));
        i = i + 1;
    }
    assert(lines_in(views, found, now).take(i as int) =~= lines_in(views, found, now));
    assert(age_order(views, found) && string_texts(lines@) == lines_in(views, found, now));
    lines
}

/// Whether a rule of attention answers for every state.
pub open spec fn attends_total<A: Fn(ObligationState) -> bool>(attention: A) -> bool {
    forall|state: ObligationState| #[trigger] call_requires(attention, (state,))
}

/// Whether a rule of attention is a given one.
pub open spec fn attends_is<A: Fn(ObligationState) -> bool>(
    attention: A,
    model: spec_fn(ObligationState) -> bool,
) -> bool {
    forall|state: ObligationState, r: bool| #[trigger]
        call_ensures(attention, (state,), r) ==> r == model(state)
}

/// How many rows are in a state.
pub open spec fn in_state(rows: Seq<OpenView>, state: ObligationState) -> nat
    decreases rows.len(),
{
    if rows.len() == 0 {
        0
    } else if rows.last().state == state {
        in_state(rows.drop_last(), state) + 1
    } else {
        in_state(rows.drop_last(), state)
    }
}

/// How many rows are waiting for the foreman.
pub open spec fn attended(rows: Seq<OpenView>, model: spec_fn(ObligationState) -> bool) -> nat
    decreases rows.len(),
{
    if rows.len() == 0 {
        0
    } else if model(rows.last().state) {
        attended(rows.drop_last(), model) + 1
    } else {
        attended(rows.drop_last(), model)
    }
}

/// The lines of the counts by state: every open state, a zero too, and a closed one only where there
/// is such a row.
pub open spec fn state_lines(rows: Seq<OpenView>, states: Seq<ObligationState>) -> Seq<Seq<char>>
    decreases states.len(),
{
    if states.len() == 0 {
        Seq::empty()
    } else {
        let rest = state_lines(rows, states.drop_last());
        let state = states.last();
        let n = in_state(rows, state);
        if !state.closed() || n > 0 {
            rest.push(count_text("obligations.state."@ + state_word(state)@, n))
        } else {
            rest
        }
    }
}

/// Aggregate counts over the open obligations: how many there are, how many wait for the foreman,
/// and how many are in each state.
pub open spec fn summary_of(rows: Seq<OpenView>, model: spec_fn(ObligationState) -> bool) -> Seq<Seq<char>> {
    seq![
        count_text("obligations.open"@, rows.len()),
        count_text("obligations.attention"@, attended(rows, model)),
    ] + state_lines(rows, states_in_order())
}

fn count_in_state(rows: &[OpenObligation], state: ObligationState) -> (r: usize)
    ensures
        r == in_state(open_views(rows@), state),
{
    let ghost views = open_views(rows@);
    let mut n: usize = 0;
    let mut i: usize = 0;
    assert(views.take(0) =~= Seq::<OpenView>::empty());
    while i < rows.len()
        invariant
            views == open_views(rows@),
            n <= i <= rows@.len(),
            n == in_state(views.take(i as int), state),
        decreases rows@.len() - i,
    {
        proof {
            let next = views.take(i + 1);
            assert(next.drop_last() =~= views.take(i as int));
            assert(next.last() == rows@[i as int]@);
        }
        if rows[i].state == state {
            n = n + 1;
        }
        i = i + 1;
    }
    assert(views.take(i as int) =~= views);
    n
}

fn count_attended<A: Fn(ObligationState) -> bool>(rows: &[OpenObligation], attention: &A) -> (r: usize)
    requires
        attends_total(*attention),
    ensures
        forall|model: spec_fn(ObligationState) -> bool| #[trigger]
            attends_is(*attention, model) ==> r == attended(open_views(rows@), model),
{
    let ghost views = open_views(rows@);
    let mut n: usize = 0;
    let mut i: usize = 0;
    assert(views.take(0) =~= Seq::<OpenView>::empty());
    while i < rows.len()
        invariant
            attends_total(*attention),
            views == open_views(rows@),
            n <= i <= rows@.len(),
            forall|model: spec_fn(ObligationState) -> bool| #[trigger]
                attends_is(*attention, model) ==> n == attended(views.take(i as int), model),
        decreases rows@.len() - i,
    {
        proof {
            let next = views.take(i + 1);
            assert(next.drop_last() =~= views.take(i as int));
            assert(next.last() == rows@[i as int]@);
        }
        if attention(rows[i].state) {
            n = n + 1;
        }
        i = i + 1;
    }
    assert(views.take(i as int) =~= views);
    n
}

/// Aggregate counts over the open obligations. `attention` says which states wait for the foreman.
pub fn obligation_summary_lines<A: Fn(ObligationState) -> bool>(
    obligations: &[OpenObligation],
    attention: &A,
) -> (r: Vec<String>)
    requires
        attends_total(*attention),
    ensures
        forall|model: spec_fn(ObligationState) -> bool| #[trigger]
            attends_is(*attention, model) ==> string_texts(r@) == summary_of(
                open_views(obligations@),
                model,
            ),
{
    let ghost views = open_views(obligations@);
    let mut lines: Vec<String> = Vec::new();
    push_line(&mut lines, count_line("obligations.open", obligations.len() as u64));
    let waiting: usize = count_attended(obligations, attention);
    push_line(&mut lines, count_line("obligations.attention", waiting as u64));
    let ghost head = string_texts(lines@);
    let states = all_states();
    let mut i: usize = 0;
    assert(states@.take(0) =~= Seq::<ObligationState>::empty());
    assert(head + Seq::<Seq<char>>::empty() =~= head);
    while i < states.len()
        invariant
            views == open_views(obligations@),
            i <= states@.len(),
            string_texts(lines@) == head + state_lines(views, states@.take(i as int)),
        decreases states@.len() - i,
    {
        let state = states[i];
        proof {
            let next = states@.take(i + 1);
            assert(next.drop_last() =~= states@.take(i as int));
            assert(next.last() == state);
        }
        let ghost so_far = state_lines(views, states@.take(i as int));
        let n: usize = count_in_state(obligations, state);
        if !state.is_closed() || n > 0 {
            let mut key = "obligations.state.".to_owned();
            key.append(state_code(state));
            let line = count_line(key.as_str(), n as u64);
            push_line(&mut lines, line);
            assert((head + so_far).push(line@) =~= head + so_far.push(line@));
        }
        i = i + 1;
    }
    assert(states@.take(i as int) =~= states_in_order());
    assert forall|model: spec_fn(ObligationState) -> bool| #[trigger]
        attends_is(*attention, model) implies string_texts(lines@) == summary_of(views, model) by {
        assert(head =~= seq![
            count_text("obligations.open"@, views.len()),
            count_text("obligations.attention"@, attended(views, model)),
        ]);
    }
    lines
}

// --- Health ----------------------------------------------------------------------------------------------

/// How many conditions are of a kind.
pub open spec fn of_kind(conditions: Seq<OpenCondition>, kind: HealthConditionKind) -> nat
    decreases conditions.len(),
{
    if conditions.len() == 0 {
        0
    } else if conditions.last().kind == kind {
        of_kind(conditions.drop_last(), kind) + 1
    } else {
        of_kind(conditions.drop_last(), kind)
    }
}

/// Counts the conditions of a kind.
pub fn count_of_kind(conditions: &[OpenCondition], kind: HealthConditionKind) -> (r: usize)
    ensures
        r == of_kind(conditions@, kind),
{
    let mut n: usize = 0;
    let mut i: usize = 0;
    assert(conditions@.take(0) =~= Seq::<OpenCondition>::empty());
    while i < conditions.len()
        invariant
            n <= i <= conditions@.len(),
            n == of_kind(conditions@.take(i as int), kind),
        decreases conditions@.len() - i,
    {
        proof {
            let next = conditions@.take(i + 1);
            assert(next.drop_last() =~= conditions@.take(i as int));
            assert(next.last() == conditions@[i as int]);
        }
        if conditions[i].kind == kind {
            n = n + 1;
        }
        i = i + 1;
    }
    assert(conditions@.take(i as int) =~= conditions@);
    n
}

/// The lines of the counts by kind, of the kinds there are.
pub open spec fn kind_lines(conditions: Seq<OpenCondition>, kinds: Seq<HealthConditionKind>) -> Seq<Seq<char>>
    decreases kinds.len(),
{
    if kinds.len() == 0 {
        Seq::empty()
    } else {
        let rest = kind_lines(conditions, kinds.drop_last());
        let n = of_kind(conditions, kinds.last());
        if n > 0 {
            rest.push(count_text("health.kind."@ + health_kind_label(kinds.last())@, n))
        } else {
            rest
        }
    }
}

/// A list of fields with one more, if there is one.
pub open spec fn with_part(fields: Seq<char>, key: Seq<char>, id: Option<Id>) -> Seq<char> {
    match id {
        None => fields,
        Some(found) => if fields.len() == 0 {
            key + "="@ + canonical_text(found.value)
        } else {
            fields + " "@ + key + "="@ + canonical_text(found.value)
        },
    }
}

fn push_part(fields: &mut String, key: &str, id: Option<Id>)
    ensures
        final(fields)@ == with_part(old(fields)@, key@, id),
{
    if let Some(found) = id {
        if !fields.as_str().is_empty() {
            fields.append(" ");
        }
        fields.append(key);
        fields.append("=");
        let text = id_text(found);
        fields.append(text.as_str());
        assert(fields@ =~= with_part(old(fields)@, key@, id));
    }
}

/// What a scope says: the identities it names, or that it names none.
pub open spec fn scope_text(scope: HealthScope) -> Seq<char> {
    let task = with_part(Seq::empty(), "scope.task"@, scope.task);
    let turn = with_part(task, "scope.turn"@, scope.turn);
    let obligation = with_part(turn, "scope.obligation"@, scope.obligation);
    let fields = with_part(obligation, "scope.external_attempt"@, scope.external_attempt);
    if fields.len() == 0 {
        "scope=global"@
    } else {
        fields
    }
}

fn scope_fields(scope: HealthScope) -> (r: String)
    ensures
        r@ == scope_text(scope),
{
    let mut fields = String::new();
    push_part(&mut fields, "scope.task", scope.task);
    push_part(&mut fields, "scope.turn", scope.turn);
    push_part(&mut fields, "scope.obligation", scope.obligation);
    push_part(&mut fields, "scope.external_attempt", scope.external_attempt);
    if fields.as_str().is_empty() {
        return "scope=global".to_owned();
    }
    fields
}

/// The line of one condition.
pub open spec fn condition_text(condition: OpenCondition) -> Seq<char> {
    "health kind="@ + health_kind_label(condition.kind)@ + " "@ + scope_text(condition.scope)
}

/// The lines of the conditions, one each.
pub open spec fn condition_lines(conditions: Seq<OpenCondition>) -> Seq<Seq<char>> {
    Seq::new(conditions.len(), |i: int| condition_text(conditions[i]))
}

/// The lines of the open health conditions: how many, how many of each kind there is, and one line
/// for each.
pub open spec fn health_of(conditions: Seq<OpenCondition>) -> Seq<Seq<char>> {
    seq![count_text("health.open"@, conditions.len())] + kind_lines(conditions, kinds_in_order())
        + condition_lines(conditions)
}

/// Renders the open health conditions.
pub fn health_lines(conditions: &[OpenCondition]) -> (r: Vec<String>)
    ensures
        string_texts(r@) == health_of(conditions@),
{
    let mut lines: Vec<String> = Vec::new();
    push_line(&mut lines, count_line("health.open", conditions.len() as u64));
    let ghost head = string_texts(lines@);
    assert(head =~= seq![count_text("health.open"@, conditions@.len())]);
    let kinds = all_health_kinds();
    let mut i: usize = 0;
    assert(kinds@.take(0) =~= Seq::<HealthConditionKind>::empty());
    assert(head + Seq::<Seq<char>>::empty() =~= head);
    while i < kinds.len()
        invariant
            i <= kinds@.len(),
            string_texts(lines@) == head + kind_lines(conditions@, kinds@.take(i as int)),
        decreases kinds@.len() - i,
    {
        let kind = kinds[i];
        proof {
            let next = kinds@.take(i + 1);
            assert(next.drop_last() =~= kinds@.take(i as int));
            assert(next.last() == kind);
        }
        let ghost so_far = kind_lines(conditions@, kinds@.take(i as int));
        let n: usize = count_of_kind(conditions, kind);
        if n > 0 {
            let mut key = "health.kind.".to_owned();
            key.append(encode_health_kind(kind));
            let line = count_line(key.as_str(), n as u64);
            push_line(&mut lines, line);
            assert((head + so_far).push(line@) =~= head + so_far.push(line@));
        }
        i = i + 1;
    }
    assert(kinds@.take(i as int) =~= kinds_in_order());
    let ghost counted = string_texts(lines@);
    let mut k: usize = 0;
    assert(counted + condition_lines(conditions@).take(0) =~= counted);
    while k < conditions.len()
        invariant
            k <= conditions@.len(),
            string_texts(lines@) == counted + condition_lines(conditions@).take(k as int),
        decreases conditions@.len() - k,
    {
        let mut line = "health kind=".to_owned();
        line.append(encode_health_kind(conditions[k].kind));
        line.append(" ");
        let scope = scope_fields(conditions[k].scope);
        line.append(scope.as_str());
        push_line(&mut lines, line);
        assert(counted + condition_lines(conditions@).take(k + 1) =~= (counted + condition_lines(
            conditions@,
        ).take(k as int)).push(condition_text(conditions@[k as int])));
        k = k + 1;
    }
    assert(condition_lines(conditions@).take(k as int) =~= condition_lines(conditions@));
    lines
}

/// Counts over open work and open conditions, as a diagnosis without a daemon renders them.
pub open spec fn overview(
    rows: Seq<OpenView>,
    conditions: Seq<OpenCondition>,
    model: spec_fn(ObligationState) -> bool,
) -> Seq<Seq<char>> {
    summary_of(rows, model) + health_of(conditions)
}

/// Renders counts over open work and open conditions.
pub fn summarise<A: Fn(ObligationState) -> bool>(
    obligations: &[OpenObligation],
    conditions: &[OpenCondition],
    attention: &A,
) -> (r: Vec<String>)
    requires
        attends_total(*attention),
    ensures
        forall|model: spec_fn(ObligationState) -> bool| #[trigger]
            attends_is(*attention, model) ==> string_texts(r@) == overview(
                open_views(obligations@),
                conditions@,
                model,
            ),
{
    let mut lines = obligation_summary_lines(obligations, attention);
    let more = health_lines(conditions);
    push_lines(&mut lines, more);
    lines
}

// --- Laws ------------------------------------------------------------------------------------------------

/// Oldest first is one order: what the lines are is fixed by the rows and the instant.
pub proof fn the_age_order_is_one(rows: Seq<OpenView>, a: Seq<int>, b: Seq<int>)
    requires
        age_order(rows, a),
        age_order(rows, b),
    ensures
        a == b,
{
    assert forall|i: int| 0 <= i < a.len() implies a[i] == b[i] by {
        same_place(rows, a, b, i);
    }
    assert(a =~= b);
}

proof fn same_place(rows: Seq<OpenView>, a: Seq<int>, b: Seq<int>, i: int)
    requires
        age_order(rows, a),
        age_order(rows, b),
        0 <= i < a.len(),
    ensures
        a[i] == b[i],
    decreases i,
{
    assert forall|j: int| 0 <= j < i implies a[j] == b[j] by {
        same_place(rows, a, b, j);
    }
    assert(0 <= a[i] < rows.len());
    assert(0 <= b[i] < rows.len());
    assert(b.contains(a[i]));
    let j = choose|j: int| 0 <= j < b.len() && b[j] == a[i];
    assert(a.contains(b[i]));
    let k = choose|k: int| 0 <= k < a.len() && a[k] == b[i];
    if j < i {
        assert(a[j] == b[j]);
        assert(older(rows, a[j], a[i]));
    } else if k < i {
        assert(a[k] == b[k]);
        assert(older(rows, b[k], b[i]));
    } else if j > i && k > i {
        assert(older(rows, b[i], b[j]));
        assert(older(rows, a[i], a[k]));
    }
}

/// Every lifecycle state has a label of its own, and the counts stand in the order of the labels.
pub proof fn every_state_has_its_own_label()
    ensures
        in_order(Seq::new(states_in_order().len(), |i: int| state_word(states_in_order()[i])@)),
        forall|state: ObligationState| #[trigger] states_in_order().contains(state),
        forall|a: ObligationState, b: ObligationState|
            state_word(a)@ == state_word(b)@ ==> a == b,
{
    reveal_strlit("acknowledged");
    reveal_strlit("cancelled_by_user");
    reveal_strlit("claimed_by_foreman");
    reveal_strlit("completed_unprocessed");
    reveal_strlit("created");
    reveal_strlit("failed");
    reveal_strlit("needs_input");
    reveal_strlit("processing");
    reveal_strlit("running");
    reveal_strlit("superseded");
    let states = states_in_order();
    let names = Seq::new(states.len(), |i: int| state_word(states[i])@);
    decided_at("acknowledged"@, "cancelled_by_user"@, 0);
    decided_at("cancelled_by_user"@, "claimed_by_foreman"@, 1);
    decided_at("claimed_by_foreman"@, "completed_unprocessed"@, 1);
    decided_at("completed_unprocessed"@, "created"@, 1);
    decided_at("created"@, "failed"@, 0);
    decided_at("failed"@, "needs_input"@, 0);
    decided_at("needs_input"@, "processing"@, 0);
    decided_at("processing"@, "running"@, 0);
    decided_at("running"@, "superseded"@, 0);
    neighbours_in_order(names);
    assert forall|state: ObligationState| #[trigger] states.contains(state) by {
        let at: int = match state {
            ObligationState::Acknowledged => 0,
            ObligationState::CancelledByUser => 1,
            ObligationState::ClaimedByForeman => 2,
            ObligationState::CompletedUnprocessed => 3,
            ObligationState::Created => 4,
            ObligationState::Failed => 5,
            ObligationState::NeedsInput => 6,
            ObligationState::Processing => 7,
            ObligationState::Running => 8,
            ObligationState::Superseded => 9,
        };
        assert(states[at] == state);
    }
    assert forall|a: ObligationState, b: ObligationState| state_word(a)@ == state_word(b)@ implies a == b by {
        let i = choose|i: int| 0 <= i < states.len() && states[i] == a;
        let j = choose|j: int| 0 <= j < states.len() && states[j] == b;
        assert(states.contains(a) && states.contains(b));
        assert(names[i] == names[j]);
        crate::text::dictionary_order_is_total(names[i], names[j]);
        if i < j {
            assert(crate::text::text_before(names[i], names[j]));
        } else if j < i {
            assert(crate::text::text_before(names[j], names[i]));
        }
    }
}

/// The counts of conditions stand in the order of the labels, and every kind is among them.
pub proof fn every_kind_is_counted_in_order()
    ensures
        in_order(Seq::new(kinds_in_order().len(), |i: int| health_kind_label(kinds_in_order()[i])@)),
        forall|kind: HealthConditionKind| #[trigger] kinds_in_order().contains(kind),
{
    reveal_strlit("browser_binding_displaced");
    reveal_strlit("foreman_unreachable");
    reveal_strlit("input_detail_unavailable");
    reveal_strlit("lineage_broken");
    reveal_strlit("loadout_unverifiable");
    reveal_strlit("managed_config_missing");
    reveal_strlit("mcp_write_capability_missing");
    reveal_strlit("projection_mismatch");
    reveal_strlit("reconciliation_required");
    reveal_strlit("result_artifact_missing");
    reveal_strlit("runtime_state_conflict");
    reveal_strlit("suspected_stall");
    reveal_strlit("worker_defer_shape_unsupported");
    let kinds = kinds_in_order();
    let names = Seq::new(kinds.len(), |i: int| health_kind_label(kinds[i])@);
    decided_at("browser_binding_displaced"@, "foreman_unreachable"@, 0);
    decided_at("foreman_unreachable"@, "input_detail_unavailable"@, 0);
    decided_at("input_detail_unavailable"@, "lineage_broken"@, 0);
    decided_at("lineage_broken"@, "loadout_unverifiable"@, 1);
    decided_at("loadout_unverifiable"@, "managed_config_missing"@, 0);
    decided_at("managed_config_missing"@, "mcp_write_capability_missing"@, 1);
    decided_at("mcp_write_capability_missing"@, "projection_mismatch"@, 0);
    decided_at("projection_mismatch"@, "reconciliation_required"@, 0);
    decided_at("reconciliation_required"@, "result_artifact_missing"@, 2);
    decided_at("result_artifact_missing"@, "runtime_state_conflict"@, 1);
    decided_at("runtime_state_conflict"@, "suspected_stall"@, 0);
    decided_at("suspected_stall"@, "worker_defer_shape_unsupported"@, 0);
    neighbours_in_order(names);
    assert forall|kind: HealthConditionKind| #[trigger] kinds.contains(kind) by {
        let at: int = match kind {
            HealthConditionKind::BrowserBindingDisplaced => 0,
            HealthConditionKind::ForemanUnreachable => 1,
            HealthConditionKind::InputDetailUnavailable => 2,
            HealthConditionKind::LineageBroken => 3,
            HealthConditionKind::LoadoutUnverifiable => 4,
            HealthConditionKind::ManagedConfigMissing => 5,
            HealthConditionKind::McpWriteCapabilityMissing => 6,
            HealthConditionKind::ProjectionMismatch => 7,
            HealthConditionKind::ReconciliationRequired => 8,
            HealthConditionKind::ResultArtifactMissing => 9,
            HealthConditionKind::RuntimeStateConflict => 10,
            HealthConditionKind::SuspectedStall => 11,
            HealthConditionKind::WorkerDeferShapeUnsupported => 12,
        };
        assert(kinds[at] == kind);
    }
}

/// A summary reports every open state, at zero too: a missing key and a zero are different facts.
pub proof fn every_open_state_is_reported(
    rows: Seq<OpenView>,
    model: spec_fn(ObligationState) -> bool,
    state: ObligationState,
)
    requires
        !state.closed(),
    ensures
        summary_of(rows, model).contains(
            count_text("obligations.state."@ + state_word(state)@, in_state(rows, state)),
        ),
{
    every_state_has_its_own_label();
    let states = states_in_order();
    assert(states.contains(state));
    let at = choose|i: int| 0 <= i < states.len() && states[i] == state;
    let line = count_text("obligations.state."@ + state_word(state)@, in_state(rows, state));
    reported(rows, states, at);
    let tail = state_lines(rows, states);
    let k = choose|k: int| 0 <= k < tail.len() && tail[k] == line;
    assert(summary_of(rows, model)[k + 2] == line);
}

proof fn reported(rows: Seq<OpenView>, states: Seq<ObligationState>, at: int)
    requires
        0 <= at < states.len(),
        !states[at].closed(),
    ensures
        state_lines(rows, states).contains(
            count_text("obligations.state."@ + state_word(states[at])@, in_state(rows, states[at])),
        ),
    decreases states.len(),
{
    let line = count_text("obligations.state."@ + state_word(states[at])@, in_state(rows, states[at]));
    let rest = state_lines(rows, states.drop_last());
    if at == states.len() - 1 {
        assert(rest.push(line).last() == line);
        assert(state_lines(rows, states) == rest.push(line));
        assert(rest.push(line)[rest.len() as int] == line);
    } else {
        reported(rows, states.drop_last(), at);
        let k = choose|k: int| 0 <= k < rest.len() && rest[k] == line;
        assert(state_lines(rows, states)[k] == line);
    }
}

} // verus!
