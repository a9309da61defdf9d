//! Startup quarantine, before any new external I/O.
//!
//! Effects whose fate a previous process lost are quarantined in one transaction: a live browser
//! attempt becomes ambiguous, a received mutation becomes uncertain, an unproven external attempt
//! becomes ambiguous and opens its own attention record. Nothing is dispatched, retried or resolved.
use vstd::prelude::*;
use crate::domain::delivery::{
    attempts_are, attempts_total, Attempt, BrowserWake, Delivery, DeliveryEvent,
    DeliveryEventView, DeliveryMachine, DeliveryReply, DeliveryView,
};
use crate::domain::effect::{
    effects_are, effects_total, AttemptEventView, AttemptReply, AttemptView,
    EffectAmbiguityReason, EffectMachine, ExternalAttempt, ExternalAttemptEvent,
};
use crate::domain::fence::{
    rule_is, rule_total, DaemonEpoch, DeliveryRevision, EventSeq, SourceView, Timestamp,
};
use crate::domain::health::{HealthConditionKind, HealthConditionState};
use crate::domain::id::{
    canonical_text, EventId, ExternalAttemptId, HealthConditionId, ObligationId, TaskId,
};
use crate::domain::obligation::{or_unchanged, settled, Applied};
use crate::store::codec::{store_u64, stored_u64};
use crate::store::error::{chain, StoreError};
use crate::store::event::{store_seq, stored_seq, EventScope, EventView, NewEvent};
use crate::store::event_kind::EventKind;
use crate::store::grammar::MetaValue;
use crate::store::labels::{
    attempt_state_label, effect_ambiguity_label, encode_attempt_state, encode_effect_ambiguity,
    encode_health_kind, encode_health_state, health_kind_label, health_state_label,
};
use crate::store::ops::delivery::{
    attempt, attempted, delivery_row, delivery_scope, encode_optional_ambiguity,
    optional_ambiguity_label, scope_of_delivery, set_delivery_state, DeliveryUpdate,
};
use crate::store::ops::effect::{ask_effect, effected, terminal_row, write_terminal, TerminalUpdate};
use crate::store::ops::{event_of, event_view, new_event, recovery_fact, recovery_source};
use crate::store::safe_metadata::SafeMetadata;
use crate::text::{join3, nat_string, nat_text};

verus! {

/// How many quarantine identities one recovery pass prepares.
pub const MAX_QUARANTINED_PER_PASS: usize = 256;

/// Running startup quarantine under a freshly advanced daemon epoch.
#[derive(Debug, Clone, Copy, PartialEq, Eq, Structural)]
pub struct RecoverStartupRequest {
    /// The epoch this process is running under.
    pub daemon_epoch: DaemonEpoch,
}

/// What startup recovery found and quarantined.
#[derive(Debug, Clone, Copy, PartialEq, Eq, Structural)]
pub struct StartupRecovery {
    /// Wake revisions whose live attempts became `ambiguous`.
    pub quarantined_deliveries: usize,
    /// Mutation identities that became `uncertain`.
    pub uncertain_mutations: usize,
    /// External attempts that became `ambiguous`.
    pub ambiguous_attempts: usize,
    /// `reconciliation_required` conditions opened for those attempts.
    pub reconciliation_conditions: usize,
}

impl StartupRecovery {
    /// A report of nothing.
    pub open spec fn nothing() -> StartupRecovery {
        StartupRecovery {
            quarantined_deliveries: 0,
            uncertain_mutations: 0,
            ambiguous_attempts: 0,
            reconciliation_conditions: 0,
        }
    }
}

impl Default for StartupRecovery {
    fn default() -> (r: StartupRecovery)
        ensures
            r == StartupRecovery::nothing(),
    {
        StartupRecovery {
            quarantined_deliveries: 0,
            uncertain_mutations: 0,
            ambiguous_attempts: 0,
            reconciliation_conditions: 0,
        }
    }
}

/// Quarantines every effect whose fate a previous process lost.
#[derive(Debug, PartialEq, Eq)]
pub struct RecoverStartup {
    pub request: RecoverStartupRequest,
    pub now: Timestamp,
    /// Minted up front; unused ones are discarded.
    pub identities: Vec<(EventId, HealthConditionId)>,
}

/// What the attempts of a quarantined delivery are overwritten with; each row changes only from a
/// live state.
#[derive(Debug, Clone, Copy, PartialEq, Eq)]
pub struct OrphanedAttempt {
    pub attempt_no: i64,
    pub state: &'static str,
    pub terminal_event_seq: i64,
    pub finished_at_ms: i64,
    pub evidence_class: Option<&'static str>,
}

/// The rows of a quarantined delivery.
#[derive(Debug, PartialEq, Eq)]
pub struct QuarantinedRows {
    pub attempts: Vec<OrphanedAttempt>,
    pub delivery: DeliveryUpdate,
}

/// The row of one orphaned attempt.
pub open spec fn orphaned_row(attempt: Attempt, at: i64, now: Timestamp) -> OrphanedAttempt {
    OrphanedAttempt {
        attempt_no: attempt.number as i64,
        state: attempt_state_label(attempt.state),
        terminal_event_seq: at,
        finished_at_ms: now,
        evidence_class: optional_ambiguity_label(attempt.ambiguity),
    }
}

/// One `health_conditions` row for an orphaned attempt, inserted unless one is open already.
#[derive(Debug, Clone, Copy, PartialEq, Eq)]
pub struct ReconciliationRow {
    pub health_condition_id: HealthConditionId,
    pub kind: &'static str,
    pub state: &'static str,
    pub external_attempt_id: ExternalAttemptId,
    pub opened_event_seq: i64,
}

impl RecoverStartup {
    /// The identities a pass hands out next, and how many it has then handed out. A pass that needs
    /// more than it prepared is refused as a whole: an effect left live still carries a permit, so a
    /// partial success is never reported.
    pub open spec fn next_identity(self, spent: usize) -> Result<
        ((EventId, HealthConditionId), usize),
        StoreError,
    > {
        if spent < self.identities@.len() {
            Ok((self.identities@[spent as int], (spent + 1) as usize))
        } else {
            Err(StoreError::QuarantineIncomplete { minted: self.identities@.len() as usize })
        }
    }

    /// Hands out the next identities of a pass.
    pub fn mint(&self, spent: usize) -> (r: Result<((EventId, HealthConditionId), usize), StoreError>)
        ensures
            r == self.next_identity(spent),
    {
        if spent < self.identities.len() {
            Ok((self.identities[spent], spent + 1))
        } else {
            Err(StoreError::QuarantineIncomplete { minted: self.identities.len() })
        }
    }

    // --- Browser wakes -------------------------------------------------------------------------

    /// Asks the attempt machine to quarantine a wake; nothing is left to do where it already is.
    pub fn orphan<A: Fn(&Delivery, &DeliveryEvent) -> DeliveryReply>(
        &self,
        wake: &BrowserWake,
        apply: &A,
    ) -> (r: Result<Option<Delivery>, StoreError>)
        requires
            attempts_total(*apply),
        ensures
            forall|machine: DeliveryMachine| #[trigger]
                attempts_are(*apply, machine) ==> ({
                    let answer = attempted(
                        machine,
                        wake@.delivery,
                        DeliveryEventView::OrphanQuarantined { at: self.now },
                    );
                    match r {
                        Err(e) => answer == Err::<Applied<DeliveryView>, StoreError>(e),
                        Ok(None) => answer == Ok::<Applied<DeliveryView>, StoreError>(
                            Applied::Duplicate,
                        ),
                        Ok(Some(next)) => answer == Ok::<Applied<DeliveryView>, StoreError>(
                            Applied::Advanced(next@),
                        ),
                    }
                }),
    {
        let event = DeliveryEvent::OrphanQuarantined { at: self.now };
        match attempt(apply, &wake.delivery, &event)? {
            Applied::Duplicate => Ok(None),
            Applied::Advanced(next) => Ok(Some(next)),
        }
    }

    /// The event of a quarantined wake.
    pub open spec fn orphan_event(
        self,
        event: EventId,
        task: TaskId,
        obligation: ObligationId,
        revision: DeliveryRevision,
        rule: spec_fn(Seq<char>) -> bool,
    ) -> Result<EventView, StoreError> {
        chain(
            recovery_fact(
                obligation,
                "wake"@ + "."@ + nat_text(revision as nat),
                self.request.daemon_epoch,
                rule,
            ),
            |source: SourceView|
                Ok(
                    event_of(
                        event,
                        EventKind::BrowserDeliveryOrphanQuarantined,
                        source,
                        self.now,
                        delivery_scope(task, obligation),
                        seq![("revision"@, MetaValue::Int(revision as int))],
                    ),
                ),
        )
    }

    /// Builds the event of a quarantined wake.
    pub fn wake_event<S: Fn(&str) -> bool>(
        &self,
        event: EventId,
        task: TaskId,
        obligation: ObligationId,
        revision: DeliveryRevision,
        safe: &S,
    ) -> (r: Result<NewEvent, StoreError>)
        requires
            rule_total(*safe),
        ensures
            forall|rule: spec_fn(Seq<char>) -> bool| #[trigger]
                rule_is(*safe, rule) ==> event_view(r) == self.orphan_event(
                    event,
                    task,
                    obligation,
                    revision,
                    rule,
                ),
    {
        let number = nat_string(revision as u64);
        let label = join3("wake", ".", number.as_str());
        let source = recovery_source(obligation, label.as_str(), self.request.daemon_epoch, safe)?;
        let metadata = SafeMetadata::new().integer("revision", revision as i64);
        proof {
            assert(metadata@ =~= seq![("revision"@, MetaValue::Int(revision as int))]);
        }
        Ok(
            new_event(
                event,
                EventKind::BrowserDeliveryOrphanQuarantined,
                source,
                self.now,
                scope_of_delivery(task, obligation),
                metadata,
            ),
        )
    }

    /// Builds the rows of a quarantined wake.
    pub fn wake_rows(&self, next: &Delivery, seq: EventSeq) -> (r: Result<QuarantinedRows, StoreError>)
        ensures
            match r {
                Ok(rows) => {
                    &&& stored_seq(seq) is Ok
                    &&& rows.attempts@.len() == next@.attempts.len()
                    &&& forall|i: int|
                        0 <= i < next@.attempts.len() ==> #[trigger] rows.attempts@[i]
                            == orphaned_row(next@.attempts[i], stored_seq(seq)->Ok_0, self.now)
                    &&& delivery_row(next@, None, Some(seq)) == Ok::<DeliveryUpdate, StoreError>(
                        rows.delivery,
                    )
                },
                Err(e) => stored_seq(seq) == Err::<i64, StoreError>(e),
            },
    {
        let at: i64 = store_seq(seq)?;
        let mut attempts: Vec<OrphanedAttempt> = Vec::new();
        let mut i: usize = 0;
        while i < next.attempts.len()
            invariant
                i <= next.attempts@.len(),
                attempts@.len() == i,
                forall|k: int|
                    0 <= k < i ==> #[trigger] attempts@[k] == orphaned_row(
                        next.attempts@[k],
                        at,
                        self.now,
                    ),
            decreases next.attempts@.len() - i,
        {
            let orphan = next.attempts[i];
            attempts.push(
                OrphanedAttempt {
                    attempt_no: orphan.number as i64,
                    state: encode_attempt_state(orphan.state),
                    terminal_event_seq: at,
                    finished_at_ms: self.now,
                    evidence_class: encode_optional_ambiguity(orphan.ambiguity),
                },
            );
            i = i + 1;
        }
        let delivery = set_delivery_state(next, None, Some(seq))?;
        Ok(QuarantinedRows { attempts, delivery })
    }

    // --- External attempts ---------------------------------------------------------------------

    /// The attempt once its fate is recorded as lost.
    pub open spec fn lost(self, attempt: AttemptView, machine: EffectMachine) -> Result<
        AttemptView,
        StoreError,
    > {
        chain(
            effected(
                machine,
                attempt,
                AttemptEventView::OutcomeUnknown {
                    reason: EffectAmbiguityReason::OrphanedByRestart,
                    at: self.now,
                },
            ),
            |applied: Applied<AttemptView>| Ok(settled(applied, attempt)),
        )
    }

    /// Builds the terminal row of an attempt whose fate was lost.
    pub fn attempt_row<A: Fn(&ExternalAttempt, &ExternalAttemptEvent) -> AttemptReply>(
        &self,
        orphan: &ExternalAttempt,
        apply: &A,
    ) -> (r: Result<TerminalUpdate, StoreError>)
        requires
            effects_total(*apply),
        ensures
            forall|machine: EffectMachine| #[trigger]
                effects_are(*apply, machine) ==> (match r {
                    Ok(row) => self.lost(orphan@, machine) is Ok && row@ == terminal_row(
                        orphan.id,
                        self.lost(orphan@, machine)->Ok_0,
                    ),
                    Err(e) => self.lost(orphan@, machine) == Err::<AttemptView, StoreError>(e),
                }),
    {
        let event = ExternalAttemptEvent::OutcomeUnknown {
            reason: EffectAmbiguityReason::OrphanedByRestart,
            at: self.now,
        };
        let applied = ask_effect(apply, orphan, &event)?;
        let next = or_unchanged(applied, orphan.clone());
        Ok(write_terminal(orphan.id, &next))
    }

    /// The event of a quarantined attempt.
    pub open spec fn quarantine_event(
        self,
        event: EventId,
        orphan: ExternalAttemptId,
        rule: spec_fn(Seq<char>) -> bool,
    ) -> Result<EventView, StoreError> {
        chain(
            recovery_fact(orphan, "external_attempt"@, self.request.daemon_epoch, rule),
            |source: SourceView|
                Ok(
                    event_of(
                        event,
                        EventKind::ExternalAttemptQuarantined,
                        source,
                        self.now,
                        EventScope::nothing(),
                        seq![
                            (
                                "external_attempt"@,
                                MetaValue::Text(canonical_text(orphan.value)),
                            ),
                            (
                                "ambiguity_reason"@,
                                MetaValue::Text(
                                    effect_ambiguity_label(
                                        EffectAmbiguityReason::OrphanedByRestart,
                                    )@,
                                ),
                            ),
                        ],
                    ),
                ),
        )
    }

    /// Builds the event of a quarantined attempt.
    pub fn attempt_event<S: Fn(&str) -> bool>(
        &self,
        event: EventId,
        orphan: ExternalAttemptId,
        safe: &S,
    ) -> (r: Result<NewEvent, StoreError>)
        requires
            rule_total(*safe),
        ensures
            forall|rule: spec_fn(Seq<char>) -> bool| #[trigger]
                rule_is(*safe, rule) ==> event_view(r) == self.quarantine_event(
                    event,
                    orphan,
                    rule,
                ),
    {
        let source = recovery_source(
            orphan,
            "external_attempt",
            self.request.daemon_epoch,
            safe,
        )?;
        let metadata = SafeMetadata::new().id("external_attempt", orphan).label(
            "ambiguity_reason",
            encode_effect_ambiguity(EffectAmbiguityReason::OrphanedByRestart),
        );
        proof {
            assert(metadata@ =~= seq![
                ("external_attempt"@, MetaValue::Text(canonical_text(orphan.value))),
                (
                    "ambiguity_reason"@,
                    MetaValue::Text(
                        effect_ambiguity_label(EffectAmbiguityReason::OrphanedByRestart)@,
                    ),
                ),
            ]);
        }
        Ok(
            new_event(
                event,
                EventKind::ExternalAttemptQuarantined,
                source,
                self.now,
                EventScope::default(),
                metadata,
            ),
        )
    }

    /// The row of the condition that an orphaned attempt raises.
    pub open spec fn reconciliation(
        condition: HealthConditionId,
        orphan: ExternalAttemptId,
        seq: EventSeq,
    ) -> Result<ReconciliationRow, StoreError> {
        chain(
            stored_seq(seq),
            |at: i64|
                Ok(
                    ReconciliationRow {
                        health_condition_id: condition,
                        kind: health_kind_label(HealthConditionKind::ReconciliationRequired),
                        state: health_state_label(HealthConditionState::Open),
                        external_attempt_id: orphan,
                        opened_event_seq: at,
                    },
                ),
        )
    }

    /// Builds the attention row of a quarantined attempt.
    pub fn condition_row(
        &self,
        condition: HealthConditionId,
        orphan: ExternalAttemptId,
        seq: EventSeq,
    ) -> (r: Result<ReconciliationRow, StoreError>)
        ensures
            r == Self::reconciliation(condition, orphan, seq),
    {
        let at: i64 = store_seq(seq)?;
        Ok(
            ReconciliationRow {
                health_condition_id: condition,
                kind: encode_health_kind(HealthConditionKind::ReconciliationRequired),
                state: encode_health_state(HealthConditionState::Open),
                external_attempt_id: orphan,
                opened_event_seq: at,
            },
        )
    }

    /// The epoch the pass records last, so that a reader can tell which it ran under.
    pub fn recorded_epoch(&self) -> (r: Result<i64, StoreError>)
        ensures
            r == stored_u64(self.request.daemon_epoch, "meta", "daemon_epoch"),
    {
        store_u64(self.request.daemon_epoch, "meta", "daemon_epoch")
    }
}

} // verus!
