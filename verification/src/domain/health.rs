//! Health conditions: attention, and never anything more.
use vstd::prelude::*;
use crate::domain::fence::Timestamp;
use crate::domain::id::{
    ExternalAttemptId, HealthConditionId, ObligationId, SessionId, TaskId, TurnId,
};

verus! {

/// What kind of attention.
#[derive(Debug, Clone, Copy, PartialEq, Eq, Structural)]
pub enum HealthConditionKind {
    SuspectedStall,
    ForemanUnreachable,
    McpWriteCapabilityMissing,
    BrowserBindingDisplaced,
    ResultArtifactMissing,
    ProjectionMismatch,
    RuntimeStateConflict,
    InputDetailUnavailable,
    WorkerDeferShapeUnsupported,
    ReconciliationRequired,
    LoadoutUnverifiable,
    ManagedConfigMissing,
    LineageBroken,
}

/// Whether a condition still asks for attention.
#[derive(Debug, Clone, Copy, PartialEq, Eq, Structural)]
pub enum HealthConditionState {
    Open,
    Resolved,
}

/// What a condition is about. Every part is an opaque identity or nothing.
#[derive(Debug, Clone, Copy, PartialEq, Eq, Structural)]
pub struct HealthScope {
    pub task: Option<TaskId>,
    pub session: Option<SessionId>,
    pub turn: Option<TurnId>,
    pub obligation: Option<ObligationId>,
    pub external_attempt: Option<ExternalAttemptId>,
}

impl HealthScope {
    /// A scope naming nothing.
    pub open spec fn nothing() -> HealthScope {
        HealthScope { task: None, session: None, turn: None, obligation: None, external_attempt: None }
    }

    /// A scope naming one obligation.
    pub open spec fn of_obligation(id: ObligationId) -> HealthScope {
        HealthScope { obligation: Some(id), ..HealthScope::nothing() }
    }

    /// A scope naming one turn.
    pub open spec fn of_turn(id: TurnId) -> HealthScope {
        HealthScope { turn: Some(id), ..HealthScope::nothing() }
    }

    /// A scope naming one session.
    pub open spec fn of_session(id: SessionId) -> HealthScope {
        HealthScope { session: Some(id), ..HealthScope::nothing() }
    }

    /// A scope naming one external attempt.
    pub open spec fn of_attempt(id: ExternalAttemptId) -> HealthScope {
        HealthScope { external_attempt: Some(id), ..HealthScope::nothing() }
    }

    /// A scope naming one obligation.
    pub fn obligation(id: ObligationId) -> (r: HealthScope)
        ensures
            r == HealthScope::of_obligation(id),
    {
        HealthScope { task: None, session: None, turn: None, obligation: Some(id), external_attempt: None }
    }

    /// A scope naming one turn.
    pub fn turn(id: TurnId) -> (r: HealthScope)
        ensures
            r == HealthScope::of_turn(id),
    {
        HealthScope { task: None, session: None, turn: Some(id), obligation: None, external_attempt: None }
    }

    /// A scope naming one session.
    pub fn session(id: SessionId) -> (r: HealthScope)
        ensures
            r == HealthScope::of_session(id),
    {
        HealthScope { task: None, session: Some(id), turn: None, obligation: None, external_attempt: None }
    }

    /// A scope naming one external attempt.
    pub fn external_attempt(id: ExternalAttemptId) -> (r: HealthScope)
        ensures
            r == HealthScope::of_attempt(id),
    {
        HealthScope { task: None, session: None, turn: None, obligation: None, external_attempt: Some(id) }
    }
}

/// One condition, open or resolved.
#[derive(Debug, Clone, Copy, PartialEq, Eq, Structural)]
pub struct HealthCondition {
    pub id: HealthConditionId,
    pub kind: HealthConditionKind,
    pub scope: HealthScope,
    pub state: HealthConditionState,
    pub opened_at: Timestamp,
    pub resolved_at: Option<Timestamp>,
}

impl HealthCondition {
    /// Whether this is the open condition for `(kind, scope)`.
    pub open spec fn open_for(self, kind: HealthConditionKind, scope: HealthScope) -> bool {
        self.state is Open && self.kind == kind && self.scope == scope
    }
}

/// Every condition ever opened, in the order they were opened.
#[derive(Debug, PartialEq, Eq)]
pub struct HealthLedger {
    pub conditions: Vec<HealthCondition>,
}

/// The index of the first open condition for `(kind, scope)`, or the length when there is none.
pub open spec fn first_open(
    conditions: Seq<HealthCondition>,
    kind: HealthConditionKind,
    scope: HealthScope,
) -> int
    decreases conditions.len(),
{
    if conditions.len() == 0 {
        0
    } else if conditions[0].open_for(kind, scope) {
        0
    } else {
        1 + first_open(conditions.drop_first(), kind, scope)
    }
}

/// Whether some condition is open for `(kind, scope)`.
pub open spec fn has_open(
    conditions: Seq<HealthCondition>,
    kind: HealthConditionKind,
    scope: HealthScope,
) -> bool {
    exists|i: int| 0 <= i < conditions.len() && #[trigger] conditions[i].open_for(kind, scope)
}

/// The conditions after raising `(kind, scope)`: one more, unless one is open already.
pub open spec fn raised(
    conditions: Seq<HealthCondition>,
    id: HealthConditionId,
    kind: HealthConditionKind,
    scope: HealthScope,
    at: Timestamp,
) -> Seq<HealthCondition> {
    if has_open(conditions, kind, scope) {
        conditions
    } else {
        conditions.push(
            HealthCondition {
                id,
                kind,
                scope,
                state: HealthConditionState::Open,
                opened_at: at,
                resolved_at: None,
            },
        )
    }
}

/// The conditions after resolving `(kind, scope)`: the open one is closed, if there is one.
pub open spec fn resolved(
    conditions: Seq<HealthCondition>,
    kind: HealthConditionKind,
    scope: HealthScope,
    at: Timestamp,
) -> Seq<HealthCondition> {
    let i = first_open(conditions, kind, scope);
    if i < conditions.len() {
        conditions.update(
            i,
            HealthCondition {
                state: HealthConditionState::Resolved,
                resolved_at: Some(at),
                ..conditions[i]
            },
        )
    } else {
        conditions
    }
}

/// At most one condition is open for any `(kind, scope)`.
pub open spec fn one_open_per_scope(conditions: Seq<HealthCondition>) -> bool {
    forall|i: int, j: int|
        0 <= i < j < conditions.len() && conditions[i].state is Open && conditions[j].state is Open
            ==> !(#[trigger] conditions[i].kind == #[trigger] conditions[j].kind
            && conditions[i].scope == conditions[j].scope)
}

/// `first_open` finds the first open condition, if there is one.
pub proof fn first_open_finds(
    conditions: Seq<HealthCondition>,
    kind: HealthConditionKind,
    scope: HealthScope,
)
    ensures
        0 <= first_open(conditions, kind, scope) <= conditions.len(),
        first_open(conditions, kind, scope) < conditions.len() <==> has_open(conditions, kind, scope),
        first_open(conditions, kind, scope) < conditions.len() ==> conditions[first_open(
            conditions,
            kind,
            scope,
        )].open_for(kind, scope),
        forall|k: int|
            0 <= k < first_open(conditions, kind, scope) ==> !#[trigger] conditions[k].open_for(
                kind,
                scope,
            ),
    decreases conditions.len(),
{
    if conditions.len() > 0 && !conditions[0].open_for(kind, scope) {
        let rest = conditions.drop_first();
        first_open_finds(rest, kind, scope);
        let f = first_open(rest, kind, scope);
        assert forall|k: int| 0 <= k < 1 + f implies !#[trigger] conditions[k].open_for(kind, scope) by {
            if k > 0 {
                assert(conditions[k] == rest[k - 1]);
            }
        }
        if f < rest.len() {
            assert(conditions[f + 1] == rest[f]);
        }
        if has_open(conditions, kind, scope) {
            let i = choose|i: int|
                0 <= i < conditions.len() && #[trigger] conditions[i].open_for(kind, scope);
            assert(rest[i - 1] == conditions[i]);
        }
    }
}

/// Raising and resolving keep at most one open condition per `(kind, scope)`.
pub proof fn transitions_keep_one_open(
    conditions: Seq<HealthCondition>,
    id: HealthConditionId,
    kind: HealthConditionKind,
    scope: HealthScope,
    at: Timestamp,
)
    requires
        one_open_per_scope(conditions),
    ensures
        one_open_per_scope(raised(conditions, id, kind, scope, at)),
        one_open_per_scope(resolved(conditions, kind, scope, at)),
        has_open(raised(conditions, id, kind, scope, at), kind, scope),
        !has_open(resolved(conditions, kind, scope, at), kind, scope),
{
    first_open_finds(conditions, kind, scope);
    let up = raised(conditions, id, kind, scope, at);
    if !has_open(conditions, kind, scope) {
        assert(up[conditions.len() as int].open_for(kind, scope));
        assert forall|i: int, j: int|
            0 <= i < j < up.len() && up[i].state is Open && up[j].state is Open implies !(
        #[trigger] up[i].kind == #[trigger] up[j].kind && up[i].scope == up[j].scope) by {
            if j == conditions.len() {
                assert(!conditions[i].open_for(kind, scope));
            } else {
                assert(conditions[i].kind == up[i].kind && conditions[j].kind == up[j].kind);
            }
        }
    }
    let down = resolved(conditions, kind, scope, at);
    let f = first_open(conditions, kind, scope);
    assert forall|i: int| 0 <= i < down.len() implies !#[trigger] down[i].open_for(kind, scope) by {
        if f < conditions.len() && i != f {
            assert(down[i] == conditions[i]);
            if down[i].open_for(kind, scope) {
                assert(conditions[f].open_for(kind, scope));
                if i < f {
                    assert(conditions[i].kind == conditions[f].kind);
                } else {
                    assert(conditions[f].kind == conditions[i].kind);
                }
            }
        }
    }
    assert forall|i: int, j: int|
        0 <= i < j < down.len() && down[i].state is Open && down[j].state is Open implies !(
    #[trigger] down[i].kind == #[trigger] down[j].kind && down[i].scope == down[j].scope) by {
        assert(conditions[i].kind == down[i].kind && conditions[j].kind == down[j].kind);
    }
}

/// Raising a condition opens it once: where none is open for the scope the ledger gains exactly one, as
/// it was raised, and where one is open nothing changes.
pub proof fn a_raise_opens_one_condition(
    conditions: Seq<HealthCondition>,
    id: HealthConditionId,
    kind: HealthConditionKind,
    scope: HealthScope,
    at: Timestamp,
)
    ensures
        ({
            let left = raised(conditions, id, kind, scope, at);
            &&& has_open(conditions, kind, scope) ==> left == conditions
            &&& !has_open(conditions, kind, scope) ==> {
                &&& left.len() == conditions.len() + 1
                &&& left.drop_last() =~= conditions
                &&& left.last().open_for(kind, scope)
                &&& left.last().id == id
                &&& left.last().opened_at == at
                &&& left.last().resolved_at is None
            }
        }),
{
}

/// Resolving a condition closes it and touches no other: the open one keeps its identity and the instant
/// it was opened at and gains the instant it was resolved at.
pub proof fn a_resolution_closes_one_condition(
    conditions: Seq<HealthCondition>,
    kind: HealthConditionKind,
    scope: HealthScope,
    at: Timestamp,
)
    requires
        one_open_per_scope(conditions),
    ensures
        ({
            let left = resolved(conditions, kind, scope, at);
            &&& left.len() == conditions.len()
            &&& !has_open(conditions, kind, scope) ==> left == conditions
            &&& forall|i: int|
                0 <= i < conditions.len() ==> ({
                    let before = #[trigger] conditions[i];
                    if before.open_for(kind, scope) {
                        &&& left[i].state is Resolved
                        &&& left[i].resolved_at == Some(at)
                        &&& left[i].id == before.id
                        &&& left[i].kind == before.kind
                        &&& left[i].scope == before.scope
                        &&& left[i].opened_at == before.opened_at
                    } else {
                        left[i] == before
                    }
                })
        }),
{
    first_open_finds(conditions, kind, scope);
    let found = first_open(conditions, kind, scope);
    assert forall|i: int| 0 <= i < conditions.len() && i != found implies !(
    #[trigger] conditions[i]).open_for(kind, scope) by {
        if conditions[i].open_for(kind, scope) {
            assert(conditions[found].kind == conditions[i].kind);
        }
    }
}

impl HealthLedger {
    /// An empty ledger.
    pub fn new() -> (r: HealthLedger)
        ensures
            r.conditions@ == Seq::<HealthCondition>::empty(),
    {
        HealthLedger { conditions: Vec::new() }
    }

    /// The position of the open condition for `(kind, scope)`, if there is one.
    pub fn open_position(&self, kind: HealthConditionKind, scope: HealthScope) -> (r: Option<usize>)
        ensures
            match r {
                Some(i) => i < self.conditions@.len() && i == first_open(self.conditions@, kind, scope),
                None => !has_open(self.conditions@, kind, scope),
            },
    {
        let mut i: usize = 0;
        while i < self.conditions.len()
            invariant
                i <= self.conditions@.len(),
                forall|k: int| 0 <= k < i ==> !#[trigger] self.conditions@[k].open_for(kind, scope),
            decreases self.conditions@.len() - i,
        {
            let c: HealthCondition = self.conditions[i];
            if c.state == HealthConditionState::Open && c.kind == kind && c.scope == scope {
                proof {
                    first_open_finds(self.conditions@, kind, scope);
                    assert(self.conditions@[i as int].open_for(kind, scope));
                }
                return Some(i);
            }
            i = i + 1;
        }
        None
    }

    /// Opens a condition, deduplicated on `(kind, scope)`. Answers whether one was open already.
    pub fn raise(
        &mut self,
        id: HealthConditionId,
        kind: HealthConditionKind,
        scope: HealthScope,
        at: Timestamp,
    ) -> (duplicate: bool)
        ensures
            duplicate == has_open(old(self).conditions@, kind, scope),
            final(self).conditions@ == raised(old(self).conditions@, id, kind, scope, at),
    {
        match self.open_position(kind, scope) {
            Some(i) => {
                proof {
                    first_open_finds(self.conditions@, kind, scope);
                }
                true
            },
            None => {
                self.conditions.push(
                    HealthCondition {
                        id,
                        kind,
                        scope,
                        state: HealthConditionState::Open,
                        opened_at: at,
                        resolved_at: None,
                    },
                );
                false
            },
        }
    }

    /// Closes the open condition for `(kind, scope)`. Answers whether there was nothing to close.
    pub fn resolve(
        &mut self,
        kind: HealthConditionKind,
        scope: HealthScope,
        at: Timestamp,
    ) -> (duplicate: bool)
        ensures
            duplicate == !has_open(old(self).conditions@, kind, scope),
            final(self).conditions@ == resolved(old(self).conditions@, kind, scope, at),
    {
        proof {
            first_open_finds(self.conditions@, kind, scope);
        }
        match self.open_position(kind, scope) {
            Some(i) => {
                let before: HealthCondition = self.conditions[i];
                self.conditions.set(
                    i,
                    HealthCondition {
                        id: before.id,
                        kind: before.kind,
                        scope: before.scope,
                        state: HealthConditionState::Resolved,
                        opened_at: before.opened_at,
                        resolved_at: Some(at),
                    },
                );
                false
            },
            None => true,
        }
    }
}

} // verus!
