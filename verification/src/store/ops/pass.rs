//! The whole startup quarantine: every live wake, then every unresolved command, then every
//! unresolved external attempt, then the epoch the pass ran under.
//!
//! What the pass works on is read under one write lock, and quarantining one effect does not change
//! what is read of another. So the reads are handed over as they came out, each with its own
//! failure, and the pass is laid out as the list of everything that is to be done, in order.
use vstd::prelude::*;
use crate::domain::delivery::{
    attempts_are, attempts_total, BrowserWake, Delivery, DeliveryEvent, DeliveryEventView,
    DeliveryMachine, DeliveryReply, DeliveryView, WakeView,
};
use crate::domain::effect::{
    effects_are, effects_total, AttemptReply, AttemptView, EffectMachine, ExternalAttempt,
    ExternalAttemptEvent,
};
use crate::domain::fence::{rule_is, rule_total};
use crate::domain::id::{EventId, ExternalAttemptId, HealthConditionId};
use crate::domain::mutation::{
    journal_is, journal_total, JournalMachine, MutationCommand, MutationCommandEvent,
    MutationReply,
};
use crate::domain::obligation::Applied;
use crate::store::codec::stored_u64;
use crate::store::error::{chain, corrupt, corrupt_row, CorruptReason, StoreError};
use crate::store::event::{EventView, NewEvent};
use crate::store::load::obligation::{LoadedObligation, LoadedView};
use crate::store::ops::decide::read_view;
use crate::store::ops::delivery::attempted;
use crate::store::ops::effect::{terminal_row, TerminalUpdate, TerminalView};
use crate::store::ops::mutation::{mark_uncertain, uncertain_row, StatusRow};
use crate::store::ops::recovery::{RecoverStartup, StartupRecovery};

verus! {

/// One delivery with an attempt that still owns an external effect: its listed identity, its wake,
/// and the obligation the wake targets, which is not looked at where the wake could not be read or
/// is quarantined already.
#[derive(Debug, PartialEq, Eq)]
pub struct LiveWake {
    pub hex: String,
    pub wake: Result<BrowserWake, StoreError>,
    pub loaded: Result<LoadedObligation, StoreError>,
}

/// One thing a pass does.
#[derive(Debug, PartialEq, Eq)]
pub enum RecoveryAction {
    /// Append the event, and write the rows of the quarantined wake.
    Quarantine {
        hex: String,
        next: Delivery,
        event: NewEvent,
    },
    /// Overwrite the command's row.
    MarkUncertain(StatusRow),
    /// Overwrite the attempt's row, append the event, and open the condition unless one is open.
    Orphan {
        attempt: ExternalAttemptId,
        terminal: TerminalUpdate,
        condition: HealthConditionId,
        event: NewEvent,
    },
    /// Record the epoch.
    RecordEpoch(i64),
}

/// One thing a pass does, on values alone.
pub enum ActionView {
    Quarantine { hex: Seq<char>, next: DeliveryView, event: EventView },
    MarkUncertain(StatusRow),
    Orphan {
        attempt: ExternalAttemptId,
        terminal: TerminalView,
        condition: HealthConditionId,
        event: EventView,
    },
    RecordEpoch(i64),
}

impl View for RecoveryAction {
    type V = ActionView;

    open spec fn view(&self) -> ActionView {
        match *self {
            RecoveryAction::Quarantine { hex, next, event } => ActionView::Quarantine {
                hex: hex@,
                next: next@,
                event: event@,
            },
            RecoveryAction::MarkUncertain(row) => ActionView::MarkUncertain(row),
            RecoveryAction::Orphan { attempt, terminal, condition, event } => ActionView::Orphan {
                attempt,
                terminal: terminal@,
                condition,
                event: event@,
            },
            RecoveryAction::RecordEpoch(epoch) => ActionView::RecordEpoch(epoch),
        }
    }
}

/// Actions on values alone.
pub open spec fn actions_view(actions: Seq<RecoveryAction>) -> Seq<ActionView> {
    Seq::new(actions.len(), |i: int| actions[i]@)
}

/// How many actions are of a kind.
pub open spec fn counted(actions: Seq<ActionView>, kind: spec_fn(ActionView) -> bool) -> nat
    decreases actions.len(),
{
    if actions.len() == 0 {
        0
    } else {
        counted(actions.drop_last(), kind) + if kind(actions.last()) {
            1nat
        } else {
            0
        }
    }
}

/// An action writes this quarantine.
pub open spec fn quarantines(action: ActionView, delivery: Seq<char>, state: DeliveryView) -> bool {
    match action {
        ActionView::Quarantine { hex, next, .. } => hex == delivery && next == state,
        _ => false,
    }
}

/// The action that writes a command's row.
pub open spec fn marked(row: Result<StatusRow, StoreError>) -> Result<ActionView, StoreError> {
    match row {
        Ok(row) => Ok(ActionView::MarkUncertain(row)),
        Err(e) => Err(e),
    }
}

/// What part of a pass comes to: its actions, and how many identities are handed out by then.
pub type PartView = (Seq<ActionView>, usize);

/// A part that follows on actions that are settled already.
pub open spec fn following(before: Seq<ActionView>, part: Result<PartView, StoreError>) -> Result<
    PartView,
    StoreError,
> {
    match part {
        Ok(p) => Ok((before + p.0, p.1)),
        Err(e) => Err(e),
    }
}

proof fn following_nothing()
    ensures
        forall|part: Result<PartView, StoreError>| #[trigger]
            following(Seq::empty(), part) == part,
{
    assert forall|part: Result<PartView, StoreError>| #[trigger]
        following(Seq::empty(), part) == part by {
        if let Ok(p) = part {
            assert(Seq::<ActionView>::empty() + p.0 =~= p.0);
        }
    }
}

proof fn following_twice(a: Seq<ActionView>, b: Seq<ActionView>)
    ensures
        forall|part: Result<PartView, StoreError>| #[trigger]
            following(a, following(b, part)) == following(a + b, part),
{
    assert forall|part: Result<PartView, StoreError>| #[trigger]
        following(a, following(b, part)) == following(a + b, part) by {
        if let Ok(p) = part {
            assert(a + (b + p.0) =~= (a + b) + p.0);
        }
    }
}

/// The rules of the domain a pass goes by.
#[derive(Debug)]
pub struct PassRules<I, A, J, E, S> {
    /// Which texts are delivery identities.
    pub known: I,
    pub deliveries: A,
    pub journal: J,
    pub effects: E,
    /// Which texts are safe tokens.
    pub safe: S,
}

/// The rules on values alone.
pub struct PassModel {
    pub known: spec_fn(Seq<char>) -> bool,
    pub deliveries: DeliveryMachine,
    pub journal: JournalMachine,
    pub effects: EffectMachine,
    pub safe: spec_fn(Seq<char>) -> bool,
}

impl<
    I: Fn(&str) -> bool,
    A: Fn(&Delivery, &DeliveryEvent) -> DeliveryReply,
    J: Fn(&MutationCommand, &MutationCommandEvent) -> MutationReply,
    E: Fn(&ExternalAttempt, &ExternalAttemptEvent) -> AttemptReply,
    S: Fn(&str) -> bool,
> PassRules<I, A, J, E, S> {
    /// Every rule answers whatever it is asked.
    pub open spec fn total(self) -> bool {
        &&& rule_total(self.known)
        &&& attempts_total(self.deliveries)
        &&& journal_total(self.journal)
        &&& effects_total(self.effects)
        &&& rule_total(self.safe)
    }

    /// The rules are those of a model.
    pub open spec fn are(self, model: PassModel) -> bool {
        &&& rule_is(self.known, model.known)
        &&& attempts_are(self.deliveries, model.deliveries)
        &&& journal_is(self.journal, model.journal)
        &&& effects_are(self.effects, model.effects)
        &&& rule_is(self.safe, model.safe)
    }
}

impl RecoverStartup {
    // --- Wakes ---------------------------------------------------------------------------------

    /// What one live wake comes to: an action, or none where the wake is quarantined already. The
    /// identities are handed out either way, and before the wake is looked at.
    pub open spec fn wake_decided(
        self,
        spent: usize,
        live: LiveWake,
        known: spec_fn(Seq<char>) -> bool,
        machine: DeliveryMachine,
        safe: spec_fn(Seq<char>) -> bool,
    ) -> Result<PartView, StoreError> {
        chain(
            self.next_identity(spent),
            |minted: ((EventId, HealthConditionId), usize)|
                if !known(live.hex@) {
                    Err(corrupt("delivery_attempts", "delivery_id", CorruptReason::MalformedIdentity))
                } else {
                    chain(
                        read_view(live.wake),
                        |held: WakeView|
                            chain(
                                attempted(
                                    machine,
                                    held.delivery,
                                    DeliveryEventView::OrphanQuarantined { at: self.now },
                                ),
                                |applied: Applied<DeliveryView>|
                                    match applied {
                                        Applied::Duplicate => Ok((Seq::empty(), minted.1)),
                                        Applied::Advanced(next) => chain(
                                            read_view(live.loaded),
                                            |work: LoadedView|
                                                chain(
                                                    self.orphan_event(
                                                        minted.0.0,
                                                        work.identity.task,
                                                        work.projection.id,
                                                        held.revision,
                                                        safe,
                                                    ),
                                                    |event: EventView|
                                                        Ok(
                                                            (
                                                                seq![
                                                                    ActionView::Quarantine {
                                                                        hex: live.hex@,
                                                                        next,
                                                                        event,
                                                                    },
                                                                ],
                                                                minted.1,
                                                            ),
                                                        ),
                                                ),
                                        ),
                                    },
                            ),
                    )
                },
        )
    }

    fn decide_wake<
        I: Fn(&str) -> bool,
        A: Fn(&Delivery, &DeliveryEvent) -> DeliveryReply,
        S: Fn(&str) -> bool,
    >(&self, spent: usize, live: LiveWake, known: &I, apply: &A, safe: &S) -> (r: Result<
        (Option<RecoveryAction>, usize),
        StoreError,
    >)
        requires
            rule_total(*known),
            attempts_total(*apply),
            rule_total(*safe),
        ensures
            forall|
                ids: spec_fn(Seq<char>) -> bool,
                machine: DeliveryMachine,
                tokens: spec_fn(Seq<char>) -> bool,
            |
                #![trigger rule_is(*known, ids), attempts_are(*apply, machine), rule_is(*safe, tokens)]
                rule_is(*known, ids) && attempts_are(*apply, machine) && rule_is(*safe, tokens) ==> ({
                    let decided = self.wake_decided(spent, live, ids, machine, tokens);
                    match r {
                        Ok((Some(action), end)) => decided == Ok::<PartView, StoreError>(
                            (seq![action@], end),
                        ),
                        Ok((None, end)) => decided == Ok::<PartView, StoreError>((Seq::empty(), end)),
                        Err(e) => decided == Err::<PartView, StoreError>(e),
                    }
                }),
    {
        let ((event, _condition), end) = self.mint(spent)?;
        let LiveWake { hex, wake, loaded } = live;
        if !known(hex.as_str()) {
            return Err(
                corrupt_row("delivery_attempts", "delivery_id", CorruptReason::MalformedIdentity),
            );
        }
        let held = wake?;
        match self.orphan(&held, apply)? {
            None => Ok((None, end)),
            Some(next) => {
                let work = loaded?;
                let event = self.wake_event(
                    event,
                    work.identity.task,
                    work.projection.id,
                    held.revision,
                    safe,
                )?;
                Ok((Some(RecoveryAction::Quarantine { hex, next, event }), end))
            },
        }
    }

    /// What every live wake comes to, in order; the first failure ends it.
    pub open spec fn wakes_planned(
        self,
        spent: usize,
        live: Seq<LiveWake>,
        known: spec_fn(Seq<char>) -> bool,
        machine: DeliveryMachine,
        safe: spec_fn(Seq<char>) -> bool,
    ) -> Result<PartView, StoreError>
        decreases live.len(),
    {
        if live.len() == 0 {
            Ok((Seq::empty(), spent))
        } else {
            match self.wake_decided(spent, live[0], known, machine, safe) {
                Err(e) => Err(e),
                Ok(first) => following(
                    first.0,
                    self.wakes_planned(first.1, live.drop_first(), known, machine, safe),
                ),
            }
        }
    }

    // --- Commands ------------------------------------------------------------------------------

    /// What every unresolved command comes to, in order. No identity is handed out for one.
    pub open spec fn commands_planned(
        self,
        spent: usize,
        commands: Seq<MutationCommand>,
        machine: JournalMachine,
    ) -> Result<PartView, StoreError>
        decreases commands.len(),
    {
        if commands.len() == 0 {
            Ok((Seq::empty(), spent))
        } else {
            match uncertain_row(commands[0]@, self.now, machine) {
                Err(e) => Err(e),
                Ok(row) => following(
                    seq![ActionView::MarkUncertain(row)],
                    self.commands_planned(spent, commands.drop_first(), machine),
                ),
            }
        }
    }

    // --- Attempts ------------------------------------------------------------------------------

    /// What one unresolved attempt comes to.
    pub open spec fn attempt_decided(
        self,
        spent: usize,
        orphan: AttemptView,
        machine: EffectMachine,
        safe: spec_fn(Seq<char>) -> bool,
    ) -> Result<PartView, StoreError> {
        chain(
            self.next_identity(spent),
            |minted: ((EventId, HealthConditionId), usize)|
                chain(
                    self.lost(orphan, machine),
                    |next: AttemptView|
                        chain(
                            self.quarantine_event(minted.0.0, orphan.id, safe),
                            |event: EventView|
                                Ok(
                                    (
                                        seq![
                                            ActionView::Orphan {
                                                attempt: orphan.id,
                                                terminal: terminal_row(orphan.id, next),
                                                condition: minted.0.1,
                                                event,
                                            },
                                        ],
                                        minted.1,
                                    ),
                                ),
                        ),
                ),
        )
    }

    fn decide_attempt<
        E: Fn(&ExternalAttempt, &ExternalAttemptEvent) -> AttemptReply,
        S: Fn(&str) -> bool,
    >(&self, spent: usize, orphan: &ExternalAttempt, apply: &E, safe: &S) -> (r: Result<
        (RecoveryAction, usize),
        StoreError,
    >)
        requires
            effects_total(*apply),
            rule_total(*safe),
        ensures
            forall|machine: EffectMachine, tokens: spec_fn(Seq<char>) -> bool|
                #![trigger effects_are(*apply, machine), rule_is(*safe, tokens)]
                effects_are(*apply, machine) && rule_is(*safe, tokens) ==> ({
                    let decided = self.attempt_decided(spent, orphan@, machine, tokens);
                    match r {
                        Ok((action, end)) => decided == Ok::<PartView, StoreError>(
                            (seq![action@], end),
                        ),
                        Err(e) => decided == Err::<PartView, StoreError>(e),
                    }
                }),
    {
        let ((event, condition), end) = self.mint(spent)?;
        let terminal = self.attempt_row(orphan, apply)?;
        let event = self.attempt_event(event, orphan.id, safe)?;
        Ok((RecoveryAction::Orphan { attempt: orphan.id, terminal, condition, event }, end))
    }

    /// What every unresolved attempt comes to, in order.
    pub open spec fn attempts_planned(
        self,
        spent: usize,
        orphans: Seq<ExternalAttempt>,
        machine: EffectMachine,
        safe: spec_fn(Seq<char>) -> bool,
    ) -> Result<PartView, StoreError>
        decreases orphans.len(),
    {
        if orphans.len() == 0 {
            Ok((Seq::empty(), spent))
        } else {
            match self.attempt_decided(spent, orphans[0]@, machine, safe) {
                Err(e) => Err(e),
                Ok(first) => following(
                    first.0,
                    self.attempts_planned(first.1, orphans.drop_first(), machine, safe),
                ),
            }
        }
    }

    // --- The pass ------------------------------------------------------------------------------

    /// Everything the pass does, in order: wakes, commands, attempts, and the epoch last. The first
    /// failure is the answer, and a list is looked at only where everything before it passed.
    pub open spec fn planned(
        self,
        live: Seq<LiveWake>,
        commands: Result<Seq<MutationCommand>, StoreError>,
        orphans: Result<Seq<ExternalAttempt>, StoreError>,
        rules: PassModel,
    ) -> Result<Seq<ActionView>, StoreError> {
        chain(
            self.wakes_planned(0, live, rules.known, rules.deliveries, rules.safe),
            |wakes: PartView|
                chain(
                    commands,
                    |rows: Seq<MutationCommand>|
                        chain(
                            self.commands_planned(wakes.1, rows, rules.journal),
                            |uncertain: PartView|
                                chain(
                                    orphans,
                                    |attempts: Seq<ExternalAttempt>|
                                        chain(
                                            self.attempts_planned(
                                                uncertain.1,
                                                attempts,
                                                rules.effects,
                                                rules.safe,
                                            ),
                                            |lost: PartView|
                                                chain(
                                                    stored_u64(
                                                        self.request.daemon_epoch,
                                                        "meta",
                                                        "daemon_epoch",
                                                    ),
                                                    |epoch: i64|
                                                        Ok(
                                                            wakes.0 + uncertain.0 + lost.0 + seq![
                                                                ActionView::RecordEpoch(epoch),
                                                            ],
                                                        ),
                                                ),
                                        ),
                                ),
                        ),
                ),
        )
    }

    fn plan_wakes<
        I: Fn(&str) -> bool,
        A: Fn(&Delivery, &DeliveryEvent) -> DeliveryReply,
        S: Fn(&str) -> bool,
    >(&self, live: Vec<LiveWake>, known: &I, apply: &A, safe: &S) -> (r: Result<
        (Vec<RecoveryAction>, usize),
        StoreError,
    >)
        requires
            rule_total(*known),
            attempts_total(*apply),
            rule_total(*safe),
        ensures
            forall|
                ids: spec_fn(Seq<char>) -> bool,
                machine: DeliveryMachine,
                tokens: spec_fn(Seq<char>) -> bool,
            |
                #![trigger rule_is(*known, ids), attempts_are(*apply, machine), rule_is(*safe, tokens)]
                rule_is(*known, ids) && attempts_are(*apply, machine) && rule_is(*safe, tokens) ==> ({
                    let planned = self.wakes_planned(0, live@, ids, machine, tokens);
                    match r {
                        Ok((actions, end)) => planned == Ok::<PartView, StoreError>(
                            (actions_view(actions@), end),
                        ),
                        Err(e) => planned == Err::<PartView, StoreError>(e),
                    }
                }),
    {
        let ghost all = live@;
        let mut rest = live;
        let mut out: Vec<RecoveryAction> = Vec::new();
        let mut spent: usize = 0;
        proof {
            following_nothing();
        }
        assert(actions_view(out@) =~= Seq::<ActionView>::empty());
        while rest.len() > 0
            invariant
                all == live@,
                rule_total(*known),
                attempts_total(*apply),
                rule_total(*safe),
                forall|
                    ids: spec_fn(Seq<char>) -> bool,
                    machine: DeliveryMachine,
                    tokens: spec_fn(Seq<char>) -> bool,
                |
                    #![trigger rule_is(*known, ids), attempts_are(*apply, machine), rule_is(*safe, tokens)]
                    rule_is(*known, ids) && attempts_are(*apply, machine) && rule_is(*safe, tokens)
                        ==> self.wakes_planned(0, all, ids, machine, tokens) == following(
                        actions_view(out@),
                        self.wakes_planned(spent, rest@, ids, machine, tokens),
                    ),
            decreases rest@.len(),
        {
            let ghost before = rest@;
            let ghost done = actions_view(out@);
            let first = rest.remove(0);
            assert(rest@ =~= before.drop_first());
            let (found, end) = self.decide_wake(spent, first, known, apply, safe)?;
            spent = end;
            match found {
                None => {
                    proof {
                        following_twice(done, Seq::empty());
                    }
                    assert(done + Seq::<ActionView>::empty() =~= done);
                },
                Some(action) => {
                    out.push(action);
                    proof {
                        following_twice(done, seq![action@]);
                    }
                    assert(actions_view(out@) =~= done + seq![action@]);
                },
            }
        }
        assert(actions_view(out@) + Seq::<ActionView>::empty() =~= actions_view(out@));
        Ok((out, spent))
    }

    fn plan_commands<J: Fn(&MutationCommand, &MutationCommandEvent) -> MutationReply>(
        &self,
        commands: &Vec<MutationCommand>,
        apply: &J,
        out: &mut Vec<RecoveryAction>,
    ) -> (r: Result<(), StoreError>)
        requires
            journal_total(*apply),
        ensures
            forall|machine: JournalMachine, spent: usize|
                #![trigger journal_is(*apply, machine), self.commands_planned(spent, commands@, machine)]
                journal_is(*apply, machine) ==> ({
                    let planned = self.commands_planned(spent, commands@, machine);
                    match r {
                        Ok(_) => planned is Ok && planned->Ok_0.1 == spent && actions_view(final(out)@)
                            == actions_view(old(out)@) + planned->Ok_0.0,
                        Err(e) => planned == Err::<PartView, StoreError>(e),
                    }
                }),
    {
        let ghost given = actions_view(out@);
        let ghost mut done: Seq<ActionView> = Seq::empty();
        let mut i: usize = 0;
        proof {
            following_nothing();
        }
        assert(commands@.skip(0) =~= commands@);
        assert(given + done =~= given);
        while i < commands.len()
            invariant
                journal_total(*apply),
                i <= commands.len(),
                actions_view(out@) == given + done,
                forall|machine: JournalMachine, spent: usize|
                    #![trigger journal_is(*apply, machine), self.commands_planned(spent, commands@, machine)]
                    journal_is(*apply, machine) ==> self.commands_planned(spent, commands@, machine)
                        == following(
                        done,
                        self.commands_planned(spent, commands@.skip(i as int), machine),
                    ),
            decreases commands.len() - i,
        {
            let row = mark_uncertain(&commands[i], self.now, apply)?;
            let ghost before = out@;
            out.push(RecoveryAction::MarkUncertain(row));
            proof {
                let one = seq![ActionView::MarkUncertain(row)];
                following_twice(done, one);
                assert(commands@.skip(i as int).drop_first() =~= commands@.skip(i + 1));
                assert(actions_view(out@) =~= actions_view(before) + one);
                assert((given + done) + one =~= given + (done + one));
                done = done + one;
            }
            i = i + 1;
        }
        assert(done + Seq::<ActionView>::empty() =~= done);
        Ok(())
    }

    fn plan_attempts<
        E: Fn(&ExternalAttempt, &ExternalAttemptEvent) -> AttemptReply,
        S: Fn(&str) -> bool,
    >(
        &self,
        first: usize,
        orphans: &Vec<ExternalAttempt>,
        apply: &E,
        safe: &S,
        out: &mut Vec<RecoveryAction>,
    ) -> (r: Result<(), StoreError>)
        requires
            effects_total(*apply),
            rule_total(*safe),
        ensures
            forall|machine: EffectMachine, tokens: spec_fn(Seq<char>) -> bool|
                #![trigger effects_are(*apply, machine), rule_is(*safe, tokens)]
                effects_are(*apply, machine) && rule_is(*safe, tokens) ==> ({
                    let planned = self.attempts_planned(first, orphans@, machine, tokens);
                    match r {
                        Ok(_) => planned is Ok && actions_view(final(out)@) == actions_view(old(out)@)
                            + planned->Ok_0.0,
                        Err(e) => planned == Err::<PartView, StoreError>(e),
                    }
                }),
    {
        let ghost given = actions_view(out@);
        let ghost mut done: Seq<ActionView> = Seq::empty();
        let mut spent: usize = first;
        let mut i: usize = 0;
        proof {
            following_nothing();
        }
        assert(orphans@.skip(0) =~= orphans@);
        assert(given + done =~= given);
        while i < orphans.len()
            invariant
                effects_total(*apply),
                rule_total(*safe),
                i <= orphans.len(),
                actions_view(out@) == given + done,
                forall|machine: EffectMachine, tokens: spec_fn(Seq<char>) -> bool|
                    #![trigger effects_are(*apply, machine), rule_is(*safe, tokens)]
                    effects_are(*apply, machine) && rule_is(*safe, tokens) ==> self.attempts_planned(
                        first,
                        orphans@,
                        machine,
                        tokens,
                    ) == following(
                        done,
                        self.attempts_planned(spent, orphans@.skip(i as int), machine, tokens),
                    ),
            decreases orphans.len() - i,
        {
            let (action, end) = self.decide_attempt(spent, &orphans[i], apply, safe)?;
            let ghost before = out@;
            let ghost one = seq![action@];
            out.push(action);
            spent = end;
            proof {
                following_twice(done, one);
                assert(orphans@.skip(i as int).drop_first() =~= orphans@.skip(i + 1));
                assert(actions_view(out@) =~= actions_view(before) + one);
                assert((given + done) + one =~= given + (done + one));
                done = done + one;
            }
            i = i + 1;
        }
        assert(done + Seq::<ActionView>::empty() =~= done);
        Ok(())
    }

    /// Lays out the whole pass.
    pub fn plan<
        I: Fn(&str) -> bool,
        A: Fn(&Delivery, &DeliveryEvent) -> DeliveryReply,
        J: Fn(&MutationCommand, &MutationCommandEvent) -> MutationReply,
        E: Fn(&ExternalAttempt, &ExternalAttemptEvent) -> AttemptReply,
        S: Fn(&str) -> bool,
    >(
        &self,
        live: Vec<LiveWake>,
        commands: Result<Vec<MutationCommand>, StoreError>,
        orphans: Result<Vec<ExternalAttempt>, StoreError>,
        rules: &PassRules<I, A, J, E, S>,
    ) -> (r: Result<Vec<RecoveryAction>, StoreError>)
        requires
            rules.total(),
        ensures
            forall|model: PassModel| #[trigger]
                rules.are(model) ==> ({
                    let planned = self.planned(
                        live@,
                        read_view(commands),
                        read_view(orphans),
                        model,
                    );
                    match r {
                        Ok(actions) => planned == Ok::<Seq<ActionView>, StoreError>(
                            actions_view(actions@),
                        ),
                        Err(e) => planned == Err::<Seq<ActionView>, StoreError>(e),
                    }
                }),
    {
        let (mut out, spent) = self.plan_wakes(live, &rules.known, &rules.deliveries, &rules.safe)?;
        let commands = commands?;
        let ghost wakes = actions_view(out@);
        self.plan_commands(&commands, &rules.journal, &mut out)?;
        let orphans = orphans?;
        self.plan_attempts(spent, &orphans, &rules.effects, &rules.safe, &mut out)?;
        let epoch = self.recorded_epoch()?;
        let ghost before = out@;
        out.push(RecoveryAction::RecordEpoch(epoch));
        assert(actions_view(out@) =~= actions_view(before) + seq![ActionView::RecordEpoch(epoch)]);
        Ok(out)
    }

    /// What a pass reports once it is done, given how many conditions were newly opened.
    pub fn report(actions: &Vec<RecoveryAction>, opened: usize) -> (r: StartupRecovery)
        ensures
            r.quarantined_deliveries == counted(
                actions_view(actions@),
                |a: ActionView| a is Quarantine,
            ),
            r.uncertain_mutations == counted(
                actions_view(actions@),
                |a: ActionView| a is MarkUncertain,
            ),
            r.ambiguous_attempts == counted(actions_view(actions@), |a: ActionView| a is Orphan),
            r.reconciliation_conditions == opened,
    {
        let ghost all = actions_view(actions@);
        let ghost wakes = |a: ActionView| a is Quarantine;
        let ghost commands = |a: ActionView| a is MarkUncertain;
        let ghost attempts = |a: ActionView| a is Orphan;
        let mut report = StartupRecovery {
            quarantined_deliveries: 0,
            uncertain_mutations: 0,
            ambiguous_attempts: 0,
            reconciliation_conditions: opened,
        };
        let mut i: usize = 0;
        while i < actions.len()
            invariant
                i <= actions.len(),
                all == actions_view(actions@),
                wakes == (|a: ActionView| a is Quarantine),
                commands == (|a: ActionView| a is MarkUncertain),
                attempts == (|a: ActionView| a is Orphan),
                report.quarantined_deliveries == counted(all.take(i as int), wakes),
                report.uncertain_mutations == counted(all.take(i as int), commands),
                report.ambiguous_attempts == counted(all.take(i as int), attempts),
                report.reconciliation_conditions == opened,
                report.quarantined_deliveries <= i,
                report.uncertain_mutations <= i,
                report.ambiguous_attempts <= i,
            decreases actions.len() - i,
        {
            proof {
                assert(all.take(i + 1).drop_last() =~= all.take(i as int));
                assert(all.take(i + 1).last() == actions@[i as int]@);
            }
            match &actions[i] {
                RecoveryAction::Quarantine { .. } => {
                    report.quarantined_deliveries = report.quarantined_deliveries + 1;
                },
                RecoveryAction::MarkUncertain(_) => {
                    report.uncertain_mutations = report.uncertain_mutations + 1;
                },
                RecoveryAction::Orphan { .. } => {
                    report.ambiguous_attempts = report.ambiguous_attempts + 1;
                },
                RecoveryAction::RecordEpoch(_) => {},
            }
            i = i + 1;
        }
        assert(all.take(actions@.len() as int) =~= all);
        report
    }

    // --- Laws ----------------------------------------------------------------------------------

    /// A live wake is dealt with by a pass: it is quarantined already, or one of the actions writes
    /// the quarantine the machine answers with.
    pub open spec fn wake_treated(
        self,
        live: LiveWake,
        machine: DeliveryMachine,
        actions: Seq<ActionView>,
    ) -> bool {
        &&& live.wake is Ok
        &&& match attempted(
            machine,
            live.wake->Ok_0@.delivery,
            DeliveryEventView::OrphanQuarantined { at: self.now },
        ) {
            Err(_) => false,
            Ok(Applied::Duplicate) => true,
            Ok(Applied::Advanced(next)) => exists|k: int|
                0 <= k < actions.len() && #[trigger] quarantines(actions[k], live.hex@, next),
        }
    }

    /// An attempt is dealt with by an action: its row is overwritten with the fate the machine gives
    /// a lost one.
    pub open spec fn attempt_treated(
        self,
        orphan: ExternalAttempt,
        machine: EffectMachine,
        action: ActionView,
    ) -> bool {
        &&& self.lost(orphan@, machine) is Ok
        &&& match action {
            ActionView::Orphan { attempt, terminal, .. } => attempt == orphan@.id && terminal
                == terminal_row(orphan@.id, self.lost(orphan@, machine)->Ok_0),
            _ => false,
        }
    }

    proof fn wakes_are_treated(
        self,
        spent: usize,
        live: Seq<LiveWake>,
        known: spec_fn(Seq<char>) -> bool,
        machine: DeliveryMachine,
        safe: spec_fn(Seq<char>) -> bool,
    )
        requires
            self.wakes_planned(spent, live, known, machine, safe) is Ok,
            spent <= self.identities@.len(),
        ensures
            ({
                let (actions, end) = self.wakes_planned(spent, live, known, machine, safe)->Ok_0;
                &&& end == spent + live.len()
                &&& end <= self.identities@.len()
                &&& forall|k: int|
                    0 <= k < actions.len() ==> (#[trigger] actions[k]) is Quarantine
                &&& forall|i: int|
                    0 <= i < live.len() ==> self.wake_treated(#[trigger] live[i], machine, actions)
            }),
        decreases live.len(),
    {
        let (actions, end) = self.wakes_planned(spent, live, known, machine, safe)->Ok_0;
        assert(self.identities@.len() == self.identities.len());
        if live.len() > 0 {
            let first = self.wake_decided(spent, live[0], known, machine, safe)->Ok_0;
            let rest = live.drop_first();
            self.wakes_are_treated(first.1, rest, known, machine, safe);
            let (later, _) = self.wakes_planned(first.1, rest, known, machine, safe)->Ok_0;
            assert(actions == first.0 + later);
            assert forall|i: int| 0 <= i < live.len() implies self.wake_treated(
                #[trigger] live[i],
                machine,
                actions,
            ) by {
                let asked = attempted(
                    machine,
                    live[i].wake->Ok_0@.delivery,
                    DeliveryEventView::OrphanQuarantined { at: self.now },
                );
                if i == 0 {
                    if let Ok(Applied::Advanced(next)) = asked {
                        assert(quarantines(first.0[0], live[0].hex@, next));
                        assert(actions[0] == first.0[0]);
                    }
                } else {
                    assert(live[i] == rest[i - 1]);
                    if let Ok(Applied::Advanced(next)) = asked {
                        let k = choose|k: int|
                            0 <= k < later.len() && #[trigger] quarantines(
                                later[k],
                                rest[i - 1].hex@,
                                next,
                            );
                        assert(actions[first.0.len() + k] == later[k]);
                    }
                }
            }
        }
    }

    proof fn commands_are_treated(
        self,
        spent: usize,
        commands: Seq<MutationCommand>,
        machine: JournalMachine,
    )
        requires
            self.commands_planned(spent, commands, machine) is Ok,
        ensures
            ({
                let (actions, end) = self.commands_planned(spent, commands, machine)->Ok_0;
                &&& end == spent
                &&& actions.len() == commands.len()
                &&& forall|i: int|
                    0 <= i < commands.len() ==> Ok::<ActionView, StoreError>(#[trigger] actions[i])
                        == marked(uncertain_row(commands[i]@, self.now, machine))
            }),
        decreases commands.len(),
    {
        if commands.len() > 0 {
            let rest = commands.drop_first();
            self.commands_are_treated(spent, rest, machine);
            let (actions, _) = self.commands_planned(spent, commands, machine)->Ok_0;
            let (later, _) = self.commands_planned(spent, rest, machine)->Ok_0;
            assert forall|i: int| 0 <= i < commands.len() implies Ok::<ActionView, StoreError>(
                #[trigger] actions[i],
            ) == marked(uncertain_row(commands[i]@, self.now, machine)) by {
                if i > 0 {
                    assert(actions[i] == later[i - 1]);
                    assert(commands[i] == rest[i - 1]);
                }
            }
        }
    }

    proof fn attempts_are_treated(
        self,
        spent: usize,
        orphans: Seq<ExternalAttempt>,
        machine: EffectMachine,
        safe: spec_fn(Seq<char>) -> bool,
    )
        requires
            self.attempts_planned(spent, orphans, machine, safe) is Ok,
            spent <= self.identities@.len(),
        ensures
            ({
                let (actions, end) = self.attempts_planned(spent, orphans, machine, safe)->Ok_0;
                &&& end == spent + orphans.len()
                &&& end <= self.identities@.len()
                &&& actions.len() == orphans.len()
                &&& forall|i: int|
                    0 <= i < orphans.len() ==> self.attempt_treated(
                        orphans[i],
                        machine,
                        #[trigger] actions[i],
                    )
            }),
        decreases orphans.len(),
    {
        assert(self.identities@.len() == self.identities.len());
        if orphans.len() > 0 {
            let first = self.attempt_decided(spent, orphans[0]@, machine, safe)->Ok_0;
            let rest = orphans.drop_first();
            self.attempts_are_treated(first.1, rest, machine, safe);
            let (actions, _) = self.attempts_planned(spent, orphans, machine, safe)->Ok_0;
            let (later, _) = self.attempts_planned(first.1, rest, machine, safe)->Ok_0;
            assert forall|i: int| 0 <= i < orphans.len() implies self.attempt_treated(
                orphans[i],
                machine,
                #[trigger] actions[i],
            ) by {
                if i > 0 {
                    assert(actions[i] == later[i - 1]);
                    assert(orphans[i] == rest[i - 1]);
                }
            }
        }
    }

    /// A pass that is laid out leaves nothing out and keeps its order: first the quarantines, one
    /// for each live wake that is not quarantined already; then each unresolved command marked, in
    /// the order they were listed; then each unresolved attempt closed, in the order they were
    /// listed; and the epoch last. It had identities enough for every wake and every attempt.
    pub proof fn a_planned_pass_treats_everything(
        self,
        live: Seq<LiveWake>,
        commands: Result<Seq<MutationCommand>, StoreError>,
        orphans: Result<Seq<ExternalAttempt>, StoreError>,
        rules: PassModel,
    )
        requires
            self.planned(live, commands, orphans, rules) is Ok,
        ensures
            commands is Ok,
            orphans is Ok,
            live.len() + orphans->Ok_0.len() <= self.identities@.len(),
            ({
                let actions = self.planned(live, commands, orphans, rules)->Ok_0;
                let rows = commands->Ok_0;
                let attempts = orphans->Ok_0;
                let wakes = actions.len() - 1 - attempts.len() - rows.len();
                &&& wakes >= 0
                &&& forall|k: int| 0 <= k < wakes ==> (#[trigger] actions[k]) is Quarantine
                &&& forall|i: int|
                    0 <= i < live.len() ==> self.wake_treated(
                        #[trigger] live[i],
                        rules.deliveries,
                        actions.take(wakes),
                    )
                &&& forall|i: int|
                    0 <= i < rows.len() ==> Ok::<ActionView, StoreError>(
                        #[trigger] actions[wakes + i],
                    ) == marked(uncertain_row(rows[i]@, self.now, rules.journal))
                &&& forall|i: int|
                    0 <= i < attempts.len() ==> self.attempt_treated(
                        attempts[i],
                        rules.effects,
                        #[trigger] actions[wakes + rows.len() + i],
                    )
                &&& actions.last() == ActionView::RecordEpoch(self.request.daemon_epoch as i64)
            }),
    {
        let first = self.wakes_planned(0, live, rules.known, rules.deliveries, rules.safe)->Ok_0;
        let rows = commands->Ok_0;
        let second = self.commands_planned(first.1, rows, rules.journal)->Ok_0;
        let attempts = orphans->Ok_0;
        let third = self.attempts_planned(second.1, attempts, rules.effects, rules.safe)->Ok_0;
        self.wakes_are_treated(0, live, rules.known, rules.deliveries, rules.safe);
        self.commands_are_treated(first.1, rows, rules.journal);
        self.attempts_are_treated(second.1, attempts, rules.effects, rules.safe);
        let actions = self.planned(live, commands, orphans, rules)->Ok_0;
        let wakes = first.0.len() as int;
        assert(actions.take(wakes) =~= first.0);
        assert forall|i: int| 0 <= i < rows.len() implies Ok::<ActionView, StoreError>(
            #[trigger] actions[wakes + i],
        ) == marked(uncertain_row(rows[i]@, self.now, rules.journal)) by {
            assert(actions[wakes + i] == second.0[i]);
        }
        assert forall|i: int| 0 <= i < attempts.len() implies self.attempt_treated(
            attempts[i],
            rules.effects,
            #[trigger] actions[wakes + rows.len() + i],
        ) by {
            assert(actions[wakes + rows.len() + i] == third.0[i]);
        }
    }

    /// A pass that needs more identities than it prepared does nothing at all.
    pub proof fn a_pass_that_runs_short_is_refused(
        self,
        live: Seq<LiveWake>,
        commands: Result<Seq<MutationCommand>, StoreError>,
        orphans: Seq<ExternalAttempt>,
        rules: PassModel,
    )
        requires
            live.len() + orphans.len() > self.identities@.len(),
        ensures
            self.planned(live, commands, Ok(orphans), rules) is Err,
    {
        if self.planned(live, commands, Ok(orphans), rules) is Ok {
            self.a_planned_pass_treats_everything(live, commands, Ok(orphans), rules);
        }
    }

    /// A live wake fails a pass for nothing but the want of an identity: it is read and accepted
    /// whichever one it is handed.
    pub open spec fn wake_folds(self, live: LiveWake, rules: PassModel) -> bool {
        forall|spent: usize|
            self.next_identity(spent) is Ok ==> (#[trigger] self.wake_decided(
                spent,
                live,
                rules.known,
                rules.deliveries,
                rules.safe,
            )) is Ok
    }

    /// An unresolved attempt fails a pass for nothing but the want of an identity.
    pub open spec fn attempt_folds(self, orphan: ExternalAttempt, rules: PassModel) -> bool {
        forall|spent: usize|
            self.next_identity(spent) is Ok ==> (#[trigger] self.attempt_decided(
                spent,
                orphan@,
                rules.effects,
                rules.safe,
            )) is Ok
    }

    /// The failure of a pass that prepared too few identities.
    pub open spec fn incomplete(self) -> StoreError {
        StoreError::QuarantineIncomplete { minted: self.identities@.len() as usize }
    }

    proof fn wakes_fold(self, spent: usize, live: Seq<LiveWake>, rules: PassModel)
        requires
            spent <= self.identities@.len(),
            forall|i: int| 0 <= i < live.len() ==> self.wake_folds(#[trigger] live[i], rules),
        ensures
            ({
                let planned = self.wakes_planned(
                    spent,
                    live,
                    rules.known,
                    rules.deliveries,
                    rules.safe,
                );
                if spent + live.len() > self.identities@.len() {
                    planned == Err::<PartView, StoreError>(self.incomplete())
                } else {
                    planned is Ok
                }
            }),
        decreases live.len(),
    {
        assert(self.identities@.len() == self.identities.len());
        if live.len() > 0 {
            assert(self.wake_folds(live[0], rules));
            let decided = self.wake_decided(
                spent,
                live[0],
                rules.known,
                rules.deliveries,
                rules.safe,
            );
            if let Ok(first) = decided {
                let rest = live.drop_first();
                assert forall|i: int| 0 <= i < rest.len() implies self.wake_folds(
                    #[trigger] rest[i],
                    rules,
                ) by {
                    assert(rest[i] == live[i + 1]);
                }
                self.wakes_fold(first.1, rest, rules);
            }
        }
    }

    proof fn commands_fold(self, spent: usize, commands: Seq<MutationCommand>, machine: JournalMachine)
        requires
            forall|i: int|
                0 <= i < commands.len() ==> uncertain_row(
                    (#[trigger] commands[i])@,
                    self.now,
                    machine,
                ) is Ok,
        ensures
            self.commands_planned(spent, commands, machine) is Ok,
        decreases commands.len(),
    {
        if commands.len() > 0 {
            let rest = commands.drop_first();
            assert forall|i: int| 0 <= i < rest.len() implies uncertain_row(
                (#[trigger] rest[i])@,
                self.now,
                machine,
            ) is Ok by {
                assert(rest[i] == commands[i + 1]);
            }
            assert(uncertain_row(commands[0]@, self.now, machine) is Ok);
            self.commands_fold(spent, rest, machine);
        }
    }

    proof fn attempts_fold(self, spent: usize, orphans: Seq<ExternalAttempt>, rules: PassModel)
        requires
            spent <= self.identities@.len(),
            forall|i: int| 0 <= i < orphans.len() ==> self.attempt_folds(#[trigger] orphans[i], rules),
        ensures
            ({
                let planned = self.attempts_planned(spent, orphans, rules.effects, rules.safe);
                if spent + orphans.len() > self.identities@.len() {
                    planned == Err::<PartView, StoreError>(self.incomplete())
                } else {
                    planned is Ok
                }
            }),
        decreases orphans.len(),
    {
        assert(self.identities@.len() == self.identities.len());
        if orphans.len() > 0 {
            assert(self.attempt_folds(orphans[0], rules));
            let decided = self.attempt_decided(spent, orphans[0]@, rules.effects, rules.safe);
            if let Ok(first) = decided {
                let rest = orphans.drop_first();
                assert forall|i: int| 0 <= i < rest.len() implies self.attempt_folds(
                    #[trigger] rest[i],
                    rules,
                ) by {
                    assert(rest[i] == orphans[i + 1]);
                }
                self.attempts_fold(first.1, rest, rules);
            }
        }
    }

    /// Where every row folds, identities decide: with fewer than one for each live wake and each
    /// unresolved attempt the pass fails as incomplete, naming how many it had minted; with enough it
    /// is laid out, so long as its epoch can be stored.
    pub proof fn identities_decide_a_pass(
        self,
        live: Seq<LiveWake>,
        commands: Seq<MutationCommand>,
        orphans: Seq<ExternalAttempt>,
        rules: PassModel,
    )
        requires
            forall|i: int| 0 <= i < live.len() ==> self.wake_folds(#[trigger] live[i], rules),
            forall|i: int|
                0 <= i < commands.len() ==> uncertain_row(
                    (#[trigger] commands[i])@,
                    self.now,
                    rules.journal,
                ) is Ok,
            forall|i: int| 0 <= i < orphans.len() ==> self.attempt_folds(#[trigger] orphans[i], rules),
        ensures
            ({
                let planned = self.planned(live, Ok(commands), Ok(orphans), rules);
                if live.len() + orphans.len() > self.identities@.len() {
                    planned == Err::<Seq<ActionView>, StoreError>(self.incomplete())
                } else {
                    planned is Ok <==> stored_u64(
                        self.request.daemon_epoch,
                        "meta",
                        "daemon_epoch",
                    ) is Ok
                }
            }),
    {
        self.wakes_fold(0, live, rules);
        let wakes = self.wakes_planned(0, live, rules.known, rules.deliveries, rules.safe);
        if let Ok(first) = wakes {
            self.wakes_are_treated(0, live, rules.known, rules.deliveries, rules.safe);
            self.commands_fold(first.1, commands, rules.journal);
            self.commands_are_treated(first.1, commands, rules.journal);
            self.attempts_fold(first.1, orphans, rules);
        }
    }
}

} // verus!
