//! Claim minting, handoff, and the fenced acknowledgement.
//!
//! Both fenced boundaries delegate their rule to the domain: this module supplies the state the
//! fences are checked against and persists the answer. A stale fence is a typed conflict, and
//! nothing is written.
use vstd::prelude::*;
use crate::domain::binding::{BindingLedger, BindingView};
use crate::domain::claim::{
    ack_is, mint_is, provenance_is, AckRequest, AckRule, AckView, ClaimState, ClaimView,
    ForemanClaim, MintReply, MintRule, Minted, MintedView, ResumeRequest, ResumeView,
};
use crate::domain::conflict::Conflict;
use crate::domain::delivery::{BrowserWake, DeliveryId, WakeView};
use crate::domain::fence::{
    rule_is, rule_total, BindingGeneration, DurationMs, EventSeq, ObligationVersion, SourceRef,
    SourceView, Timestamp,
};
use crate::domain::id::{canonical_text, ClaimId, EventId, ObligationId};
use crate::domain::obligation::{
    machine_is, machine_total, Applied, Disposition, Obligation, ObligationEvent,
    ObligationEventView, ObligationMachine, ObligationReply, ObligationView,
};
use crate::store::codec::{id_column, parse_id, parse_u64, store_u64, stored_u64, u64_column};
use crate::store::error::{chain, corrupt, corrupt_row, CorruptReason, StoreError};
use crate::store::event::{store_seq, stored_seq, work_scope, EventView, NewEvent};
use crate::store::event_kind::EventKind;
use crate::store::grammar::{MetaFields, MetaValue};
use crate::store::labels::{
    claim_state_label, claim_state_named, decode_claim_state, disposition_label,
    encode_claim_state, encode_disposition, ActorClass, ClaimLifecycle,
};
use crate::store::load::obligation::{LoadedObligation, LoadedView, ObligationIdentity};
use crate::store::ops::worker::{
    advanced, moved, scope_about, stayed, step, step_of, step_view, unchanged, ObligationAdvanced,
    Step,
};
use crate::store::ops::{
    asked_view, event_of, event_view, internal_fact, internal_source, new_event,
    record_obligation_transition, transition_rows, TransitionRows,
};
use crate::store::safe_metadata::SafeMetadata;

verus! {

// --- Minting -----------------------------------------------------------------------------------------

/// The fences a resume presents.
#[derive(Debug, PartialEq, Eq)]
pub struct MintClaimRequest {
    /// Obligation the caller wants to claim.
    pub obligation: ObligationId,
    /// The random correlation identity from the accepted browser wake.
    pub presented_delivery_id: DeliveryId,
    /// Binding generation the caller believes is current.
    pub binding_generation: BindingGeneration,
    /// Obligation version the caller believes is current.
    pub expected_version: ObligationVersion,
    /// Source fact the caller believes is current.
    pub expected_source: SourceRef,
    /// How long the claim authorises mutations for.
    pub lifetime: DurationMs,
}

/// The claim a resume minted.
#[derive(Debug, Clone, Copy, PartialEq, Eq, Structural)]
pub struct MintedClaim {
    /// The new claim.
    pub claim: ClaimId,
    /// Instant it stops authorising mutations.
    pub expires_at: Timestamp,
    /// The obligation, now claimed.
    pub obligation: ObligationAdvanced,
}

/// Mints one claim from an accepted current-generation wake.
#[derive(Debug, PartialEq, Eq)]
pub struct MintForemanClaim {
    pub request: MintClaimRequest,
    pub claim: ClaimId,
    pub event: EventId,
    pub now: Timestamp,
}

/// One `foreman_claims` row, as inserted.
#[derive(Debug, PartialEq, Eq)]
pub struct ClaimInsert {
    pub claim_id: ClaimId,
    pub obligation_id: ObligationId,
    pub obligation_version_at_claim: i64,
    pub binding_generation: i64,
    pub wake_delivery_id: String,
    pub state: &'static str,
    pub created_event_seq: i64,
    pub expires_at_ms: i64,
}

/// One inserted `foreman_claims` row on values alone.
#[verifier::ext_equal]
pub struct ClaimInsertView {
    pub claim_id: ClaimId,
    pub obligation_id: ObligationId,
    pub obligation_version_at_claim: i64,
    pub binding_generation: i64,
    pub wake_delivery_id: Seq<char>,
    pub state: &'static str,
    pub created_event_seq: i64,
    pub expires_at_ms: i64,
}

impl View for ClaimInsert {
    type V = ClaimInsertView;

    open spec fn view(&self) -> ClaimInsertView {
        ClaimInsertView {
            claim_id: self.claim_id,
            obligation_id: self.obligation_id,
            obligation_version_at_claim: self.obligation_version_at_claim,
            binding_generation: self.binding_generation,
            wake_delivery_id: self.wake_delivery_id@,
            state: self.state,
            created_event_seq: self.created_event_seq,
            expires_at_ms: self.expires_at_ms,
        }
    }
}

/// The rows of a minted claim.
#[derive(Debug, PartialEq, Eq)]
pub struct MintedRows {
    pub claim: ClaimInsert,
    pub transition: TransitionRows,
}

/// What the fenced events of a claim record: the claim, the generation and the version.
pub open spec fn fence_metadata(claim: ClaimId, generation: i64, version: i64) -> MetaFields {
    seq![
        ("claim_id"@, MetaValue::Text(canonical_text(claim.value))),
        ("binding_generation"@, MetaValue::Int(generation as int)),
        ("expected_version"@, MetaValue::Int(version as int)),
    ]
}

impl MintForemanClaim {
    /// What is asked of the minting rule.
    pub open spec fn question(self) -> ResumeView {
        ResumeView {
            obligation: self.request.obligation,
            presented_delivery_hex: self.request.presented_delivery_id.hex(),
            binding_generation: self.request.binding_generation,
            expected_version: self.request.expected_version,
            expected_source: self.request.expected_source@,
            claim: self.claim,
            now: self.now,
            lifetime: self.request.lifetime,
        }
    }

    /// What the minting rule answers, a refusal being a store failure.
    pub open spec fn minted(
        self,
        bindings: BindingView,
        wake: WakeView,
        obligation: ObligationView,
        rule: MintRule,
    ) -> Result<MintedView, StoreError> {
        match rule(self.question(), bindings, wake, obligation) {
            Ok(minted) => Ok(minted),
            Err(conflict) => Err(StoreError::Conflict(conflict)),
        }
    }

    /// Asks the minting rule, before anything is appended.
    pub fn mint<M: Fn(&ResumeRequest, &BindingLedger, &BrowserWake, &Obligation) -> MintReply>(
        &self,
        bindings: &BindingLedger,
        wake: &BrowserWake,
        obligation: &Obligation,
        mint: &M,
    ) -> (r: Result<Minted, StoreError>)
        requires
            forall|q: &ResumeRequest, b: &BindingLedger, w: &BrowserWake, o: &Obligation|
                call_requires(*mint, (q, b, w, o)),
        ensures
            forall|rule: MintRule| #[trigger]
                mint_is(*mint, rule) ==> (match r {
                    Ok(minted) => self.minted(bindings@, wake@, obligation@, rule) == Ok::<
                        MintedView,
                        StoreError,
                    >(minted@),
                    Err(e) => self.minted(bindings@, wake@, obligation@, rule) == Err::<
                        MintedView,
                        StoreError,
                    >(e),
                }),
    {
        let question = ResumeRequest {
            obligation: self.request.obligation,
            presented_delivery_hex: self.request.presented_delivery_id.to_hex(),
            binding_generation: self.request.binding_generation,
            expected_version: self.request.expected_version,
            expected_source: self.request.expected_source.clone(),
            claim: self.claim,
            now: self.now,
            lifetime: self.request.lifetime,
        };
        match mint(&question, bindings, wake, obligation) {
            Ok(minted) => Ok(minted),
            Err(conflict) => Err(StoreError::Conflict(conflict)),
        }
    }

    /// The event of the claim.
    pub open spec fn minted_event(
        self,
        identity: ObligationIdentity,
        rule: spec_fn(Seq<char>) -> bool,
    ) -> Result<EventView, StoreError> {
        chain(
            internal_fact(canonical_text(self.claim.value), "foreman_claim_minted"@, rule),
            |source: SourceView|
                chain(
                    stored_u64(self.request.binding_generation, "events", "binding_generation"),
                    |generation: i64|
                        chain(
                            stored_u64(self.request.expected_version, "events", "expected_version"),
                            |version: i64|
                                Ok(
                                    event_of(
                                        self.event,
                                        EventKind::ForemanClaimMinted,
                                        source,
                                        self.now,
                                        scope_about(identity, self.request.obligation),
                                        fence_metadata(self.claim, generation, version),
                                    ),
                                ),
                        ),
                ),
        )
    }

    /// Builds the event of the claim.
    pub fn event<S: Fn(&str) -> bool>(&self, identity: ObligationIdentity, safe: &S) -> (r: Result<
        NewEvent,
        StoreError,
    >)
        requires
            rule_total(*safe),
        ensures
            forall|rule: spec_fn(Seq<char>) -> bool| #[trigger]
                rule_is(*safe, rule) ==> event_view(r) == self.minted_event(identity, rule),
    {
        let source = internal_source(self.claim, "foreman_claim_minted", safe)?;
        let generation: i64 = store_u64(
            self.request.binding_generation,
            "events",
            "binding_generation",
        )?;
        let version: i64 = store_u64(self.request.expected_version, "events", "expected_version")?;
        let metadata = SafeMetadata::new().id("claim_id", self.claim).integer(
            "binding_generation",
            generation,
        ).integer("expected_version", version);
        proof {
            assert(metadata@ =~= fence_metadata(self.claim, generation, version));
        }
        Ok(
            new_event(
                self.event,
                EventKind::ForemanClaimMinted,
                source,
                self.now,
                work_scope(identity.task, identity.turn, self.request.obligation),
                metadata,
            ),
        )
    }

    /// The rows of the claim, and what is answered.
    pub open spec fn committed(self, loaded: LoadedView, minted: MintedView, seq: EventSeq) -> Result<
        (ClaimInsertView, TransitionRows, MintedClaim),
        StoreError,
    > {
        chain(
            stored_u64(minted.version_at_claim, "foreman_claims", "obligation_version_at_claim"),
            |version: i64|
                chain(
                    stored_u64(
                        self.request.binding_generation,
                        "foreman_claims",
                        "binding_generation",
                    ),
                    |generation: i64|
                        chain(
                            stored_seq(seq),
                            |at: i64|
                                chain(
                                    transition_rows(
                                        loaded.projection,
                                        minted.obligation,
                                        seq,
                                        loaded.source_event_seq,
                                        ActorClass::Foreman,
                                        None,
                                    ),
                                    |transition: TransitionRows|
                                        Ok(
                                            (
                                                ClaimInsertView {
                                                    claim_id: self.claim,
                                                    obligation_id: self.request.obligation,
                                                    obligation_version_at_claim: version,
                                                    binding_generation: generation,
                                                    wake_delivery_id: self.request.presented_delivery_id.hex(),
                                                    state: claim_state_label(ClaimLifecycle::Live),
                                                    created_event_seq: at,
                                                    expires_at_ms: minted.expires_at,
                                                },
                                                transition,
                                                MintedClaim {
                                                    claim: self.claim,
                                                    expires_at: minted.expires_at,
                                                    obligation: moved(minted.obligation),
                                                },
                                            ),
                                        ),
                                ),
                        ),
                ),
        )
    }

    /// Builds the rows of the claim.
    pub fn commit(&self, loaded: &LoadedObligation, minted: &Minted, seq: EventSeq) -> (r: Result<
        (MintedRows, MintedClaim),
        StoreError,
    >)
        ensures
            match r {
                Ok((rows, output)) => self.committed(loaded@, minted@, seq) == Ok::<
                    (ClaimInsertView, TransitionRows, MintedClaim),
                    StoreError,
                >((rows.claim@, rows.transition, output)),
                Err(e) => self.committed(loaded@, minted@, seq) == Err::<
                    (ClaimInsertView, TransitionRows, MintedClaim),
                    StoreError,
                >(e),
            },
    {
        let version: i64 = store_u64(
            minted.version_at_claim,
            "foreman_claims",
            "obligation_version_at_claim",
        )?;
        let generation: i64 = store_u64(
            self.request.binding_generation,
            "foreman_claims",
            "binding_generation",
        )?;
        let at: i64 = store_seq(seq)?;
        let transition = record_obligation_transition(
            &loaded.projection,
            &minted.obligation,
            seq,
            loaded.source_event_seq,
            ActorClass::Foreman,
            None,
        )?;
        let claim = ClaimInsert {
            claim_id: self.claim,
            obligation_id: self.request.obligation,
            obligation_version_at_claim: version,
            binding_generation: generation,
            wake_delivery_id: self.request.presented_delivery_id.to_hex(),
            state: encode_claim_state(ClaimLifecycle::Live),
            created_event_seq: at,
            expires_at_ms: minted.expires_at,
        };
        Ok(
            (
                MintedRows { claim, transition },
                MintedClaim {
                    claim: self.claim,
                    expires_at: minted.expires_at,
                    obligation: advanced(&minted.obligation),
                },
            ),
        )
    }
}

// --- Handoff -----------------------------------------------------------------------------------------

/// Recording that the result or input request reached the claiming foreman.
#[derive(Debug, Clone, Copy, PartialEq, Eq, Structural)]
pub struct DeliverHandoffRequest {
    /// Obligation being handed over.
    pub obligation: ObligationId,
    /// Claim the handoff belongs to.
    pub claim: ClaimId,
}

/// Moves a claimed obligation to `processing`.
#[derive(Debug, Clone, Copy, PartialEq, Eq, Structural)]
pub struct DeliverHandoff {
    pub request: DeliverHandoffRequest,
    pub event: EventId,
    pub now: Timestamp,
}

impl DeliverHandoff {
    /// The transition asked of the obligation machine.
    pub open spec fn transition(self) -> ObligationEventView {
        ObligationEventView::HandoffDelivered { claim: self.request.claim, at: self.now }
    }

    /// Asks for the handoff, before anything is appended.
    pub fn hand_over<A: Fn(&Obligation, &ObligationEvent) -> ObligationReply>(
        &self,
        before: &Obligation,
        apply: &A,
    ) -> (r: Result<Step, StoreError>)
        requires
            machine_total(*apply),
        ensures
            forall|machine: ObligationMachine| #[trigger]
                machine_is(*apply, machine) ==> step_view(r) == step_of(
                    machine,
                    before@,
                    self.transition(),
                ),
    {
        let event = ObligationEvent::HandoffDelivered { claim: self.request.claim, at: self.now };
        step(before, &event, apply)
    }

    /// The event of the handoff.
    pub open spec fn handoff_event(
        self,
        identity: ObligationIdentity,
        rule: spec_fn(Seq<char>) -> bool,
    ) -> Result<EventView, StoreError> {
        chain(
            internal_fact(canonical_text(self.request.claim.value), "foreman_handoff_delivered"@, rule),
            |source: SourceView|
                Ok(
                    event_of(
                        self.event,
                        EventKind::ForemanHandoffDelivered,
                        source,
                        self.now,
                        scope_about(identity, self.request.obligation),
                        seq![
                            (
                                "claim_id"@,
                                MetaValue::Text(canonical_text(self.request.claim.value)),
                            ),
                        ],
                    ),
                ),
        )
    }

    /// Builds the event of the handoff.
    pub fn event<S: Fn(&str) -> bool>(&self, identity: ObligationIdentity, safe: &S) -> (r: Result<
        NewEvent,
        StoreError,
    >)
        requires
            rule_total(*safe),
        ensures
            forall|rule: spec_fn(Seq<char>) -> bool| #[trigger]
                rule_is(*safe, rule) ==> event_view(r) == self.handoff_event(identity, rule),
    {
        let source = internal_source(self.request.claim, "foreman_handoff_delivered", safe)?;
        let metadata = SafeMetadata::new().id("claim_id", self.request.claim);
        proof {
            assert(metadata@ =~= seq![
                ("claim_id"@, MetaValue::Text(canonical_text(self.request.claim.value))),
            ]);
        }
        Ok(
            new_event(
                self.event,
                EventKind::ForemanHandoffDelivered,
                source,
                self.now,
                work_scope(identity.task, identity.turn, self.request.obligation),
                metadata,
            ),
        )
    }

    /// The rows of the handoff, and what is answered.
    pub open spec fn committed(loaded: LoadedView, after: ObligationView, seq: EventSeq) -> Result<
        (TransitionRows, ObligationAdvanced),
        StoreError,
    > {
        chain(
            transition_rows(
                loaded.projection,
                after,
                seq,
                loaded.source_event_seq,
                ActorClass::Foreman,
                None,
            ),
            |rows: TransitionRows| Ok((rows, moved(after))),
        )
    }

    /// Builds the rows of the handoff.
    pub fn commit(loaded: &LoadedObligation, after: &Obligation, seq: EventSeq) -> (r: Result<
        (TransitionRows, ObligationAdvanced),
        StoreError,
    >)
        ensures
            r == Self::committed(loaded@, after@, seq),
    {
        let rows = record_obligation_transition(
            &loaded.projection,
            after,
            seq,
            loaded.source_event_seq,
            ActorClass::Foreman,
            None,
        )?;
        Ok((rows, advanced(after)))
    }
}

// --- Acknowledgement -----------------------------------------------------------------------------------

/// The fences a semantic acknowledgement must present. Every field is checked.
#[derive(Debug, PartialEq, Eq)]
pub struct AcknowledgeRequest {
    /// Obligation being closed.
    pub obligation: ObligationId,
    /// Exact current obligation version.
    pub expected_version: ObligationVersion,
    /// Exact current source fact.
    pub expected_source: SourceRef,
    /// Current binding generation.
    pub binding_generation: BindingGeneration,
    /// Current foreman claim.
    pub claim: ClaimId,
    /// Semantic decision.
    pub disposition: Disposition,
}

/// What an acknowledgement did.
#[derive(Debug, Clone, Copy, PartialEq, Eq, Structural)]
pub struct Acknowledged {
    /// The obligation, now closed.
    pub obligation: ObligationAdvanced,
    /// Whether this was an exact repeat of one that already committed.
    pub already_committed: bool,
}

/// Closes an obligation with a fully fenced disposition.
#[derive(Debug, PartialEq, Eq)]
pub struct AcknowledgeObligation {
    pub request: AcknowledgeRequest,
    pub event: EventId,
    pub now: Timestamp,
}

/// What a `foreman_claims` row is overwritten with when the claim closes.
#[derive(Debug, Clone, Copy, PartialEq, Eq)]
pub struct ClaimUpdate {
    pub claim_id: ClaimId,
    pub state: &'static str,
    pub closed_event_seq: i64,
}

/// The rows of an acknowledgement.
#[derive(Debug, Clone, Copy, PartialEq, Eq)]
pub struct AcknowledgedRows {
    pub claim: ClaimUpdate,
    pub transition: TransitionRows,
}

impl AcknowledgeObligation {
    /// What is asked of the acknowledging rule.
    pub open spec fn question(self) -> AckView {
        AckView {
            obligation: self.request.obligation,
            expected_version: self.request.expected_version,
            expected_source: self.request.expected_source@,
            binding_generation: self.request.binding_generation,
            claim: self.request.claim,
            disposition: self.request.disposition,
            at: self.now,
        }
    }

    /// What the acknowledging rule answers, a refusal being a store failure.
    pub open spec fn answered(
        self,
        bindings: BindingView,
        claim: ClaimView,
        obligation: ObligationView,
        rule: AckRule,
    ) -> Result<Applied<ObligationView>, StoreError> {
        match rule(self.question(), bindings, claim, obligation) {
            Ok(applied) => Ok(applied),
            Err(conflict) => Err(StoreError::Conflict(conflict)),
        }
    }

    /// Asks the acknowledging rule, before anything is appended.
    pub fn acknowledge<K: Fn(&AckRequest, &BindingLedger, &ForemanClaim, &Obligation) -> ObligationReply>(
        &self,
        bindings: &BindingLedger,
        claim: &ForemanClaim,
        obligation: &Obligation,
        acknowledge: &K,
    ) -> (r: Result<Applied<Obligation>, StoreError>)
        requires
            forall|q: &AckRequest, b: &BindingLedger, c: &ForemanClaim, o: &Obligation|
                call_requires(*acknowledge, (q, b, c, o)),
        ensures
            forall|rule: AckRule| #[trigger]
                ack_is(*acknowledge, rule) ==> asked_view(r) == self.answered(
                    bindings@,
                    claim@,
                    obligation@,
                    rule,
                ),
    {
        let question = AckRequest {
            obligation: self.request.obligation,
            expected_version: self.request.expected_version,
            expected_source: self.request.expected_source.clone(),
            binding_generation: self.request.binding_generation,
            claim: self.request.claim,
            disposition: self.request.disposition,
            at: self.now,
        };
        match acknowledge(&question, bindings, claim, obligation) {
            Ok(applied) => Ok(applied),
            Err(conflict) => Err(StoreError::Conflict(conflict)),
        }
    }

    /// What is answered to an exact repeat of an acknowledgement that already committed.
    pub fn repeated(obligation: &Obligation) -> (r: Acknowledged)
        ensures
            r == (Acknowledged { obligation: stayed(obligation@), already_committed: true }),
    {
        Acknowledged { obligation: unchanged(obligation), already_committed: true }
    }

    /// The event of the acknowledgement.
    pub open spec fn acked_event(
        self,
        identity: ObligationIdentity,
        rule: spec_fn(Seq<char>) -> bool,
    ) -> Result<EventView, StoreError> {
        chain(
            internal_fact(canonical_text(self.request.claim.value), "foreman_acked"@, rule),
            |source: SourceView|
                chain(
                    stored_u64(self.request.binding_generation, "events", "binding_generation"),
                    |generation: i64|
                        chain(
                            stored_u64(self.request.expected_version, "events", "expected_version"),
                            |version: i64|
                                Ok(
                                    event_of(
                                        self.event,
                                        EventKind::ForemanAcked,
                                        source,
                                        self.now,
                                        scope_about(identity, self.request.obligation),
                                        fence_metadata(self.request.claim, generation, version).push(
                                            (
                                                "disposition"@,
                                                MetaValue::Text(
                                                    disposition_label(self.request.disposition)@,
                                                ),
                                            ),
                                        ),
                                    ),
                                ),
                        ),
                ),
        )
    }

    /// Builds the event of the acknowledgement.
    pub fn event<S: Fn(&str) -> bool>(&self, identity: ObligationIdentity, safe: &S) -> (r: Result<
        NewEvent,
        StoreError,
    >)
        requires
            rule_total(*safe),
        ensures
            forall|rule: spec_fn(Seq<char>) -> bool| #[trigger]
                rule_is(*safe, rule) ==> event_view(r) == self.acked_event(identity, rule),
    {
        let source = internal_source(self.request.claim, "foreman_acked", safe)?;
        let generation: i64 = store_u64(
            self.request.binding_generation,
            "events",
            "binding_generation",
        )?;
        let version: i64 = store_u64(self.request.expected_version, "events", "expected_version")?;
        let fences = SafeMetadata::new().id("claim_id", self.request.claim).integer(
            "binding_generation",
            generation,
        ).integer("expected_version", version);
        proof {
            assert(fences@ =~= fence_metadata(self.request.claim, generation, version));
        }
        let metadata = fences.label("disposition", encode_disposition(self.request.disposition));
        Ok(
            new_event(
                self.event,
                EventKind::ForemanAcked,
                source,
                self.now,
                work_scope(identity.task, identity.turn, self.request.obligation),
                metadata,
            ),
        )
    }

    /// The rows of the acknowledgement, and what is answered.
    pub open spec fn committed(self, loaded: LoadedView, after: ObligationView, seq: EventSeq) -> Result<
        (AcknowledgedRows, Acknowledged),
        StoreError,
    > {
        chain(
            stored_seq(seq),
            |at: i64|
                chain(
                    transition_rows(
                        loaded.projection,
                        after,
                        seq,
                        loaded.source_event_seq,
                        ActorClass::Foreman,
                        Some(self.request.disposition),
                    ),
                    |transition: TransitionRows|
                        Ok(
                            (
                                AcknowledgedRows {
                                    claim: ClaimUpdate {
                                        claim_id: self.request.claim,
                                        state: claim_state_label(ClaimLifecycle::Closed),
                                        closed_event_seq: at,
                                    },
                                    transition,
                                },
                                Acknowledged { obligation: moved(after), already_committed: false },
                            ),
                        ),
                ),
        )
    }

    /// Builds the rows of the acknowledgement.
    pub fn commit(&self, loaded: &LoadedObligation, after: &Obligation, seq: EventSeq) -> (r: Result<
        (AcknowledgedRows, Acknowledged),
        StoreError,
    >)
        ensures
            r == self.committed(loaded@, after@, seq),
    {
        let at: i64 = store_seq(seq)?;
        let transition = record_obligation_transition(
            &loaded.projection,
            after,
            seq,
            loaded.source_event_seq,
            ActorClass::Foreman,
            Some(self.request.disposition),
        )?;
        Ok(
            (
                AcknowledgedRows {
                    claim: ClaimUpdate {
                        claim_id: self.request.claim,
                        state: encode_claim_state(ClaimLifecycle::Closed),
                        closed_event_seq: at,
                    },
                    transition,
                },
                Acknowledged { obligation: advanced(after), already_committed: false },
            ),
        )
    }
}

// --- Rebuilding a claim --------------------------------------------------------------------------------

/// One `foreman_claims` row, as read, with the instant its event was observed.
#[derive(Debug, PartialEq, Eq)]
pub struct ClaimRow {
    pub obligation_id: String,
    pub obligation_version_at_claim: i64,
    pub binding_generation: i64,
    pub wake_delivery_id: String,
    pub state: String,
    pub expires_at_ms: i64,
    pub observed_at_ms: i64,
}

/// Whose claim a row is, and which wake it was minted from.
pub open spec fn claim_origin(
    obligation: ObligationId,
    claim: ClaimId,
    row: Option<ClaimRow>,
    known_id: spec_fn(Seq<char>) -> bool,
) -> Result<(ObligationId, Seq<char>), StoreError> {
    match row {
        None => Err(StoreError::Conflict(Conflict::StaleClaim { presented: claim, obligation })),
        Some(row) => chain(
            id_column(row.obligation_id@, "foreman_claims", "obligation_id"),
            |held: ObligationId|
                if known_id(row.wake_delivery_id@) {
                    Ok((held, row.wake_delivery_id@))
                } else {
                    Err(
                        corrupt(
                            "foreman_claims",
                            "wake_delivery_id",
                            CorruptReason::MalformedIdentity,
                        ),
                    )
                },
        ),
    }
}

/// Finds whose claim a row is, and which wake has to be read to prove it.
pub fn claim_provenance<I: Fn(&str) -> bool>(
    obligation: ObligationId,
    claim: ClaimId,
    row: &Option<ClaimRow>,
    known_id: &I,
) -> (r: Result<(ObligationId, String), StoreError>)
    requires
        rule_total(*known_id),
    ensures
        forall|rule: spec_fn(Seq<char>) -> bool| #[trigger]
            rule_is(*known_id, rule) ==> (match r {
                Ok((held, hex)) => claim_origin(obligation, claim, *row, rule) == Ok::<
                    (ObligationId, Seq<char>),
                    StoreError,
                >((held, hex@)),
                Err(e) => claim_origin(obligation, claim, *row, rule) == Err::<
                    (ObligationId, Seq<char>),
                    StoreError,
                >(e),
            }),
{
    match row {
        None => Err(StoreError::Conflict(Conflict::StaleClaim { presented: claim, obligation })),
        Some(row) => {
            let held = parse_id(row.obligation_id.as_str(), "foreman_claims", "obligation_id")?;
            if known_id(row.wake_delivery_id.as_str()) {
                Ok((held, row.wake_delivery_id.clone()))
            } else {
                Err(
                    corrupt_row(
                        "foreman_claims",
                        "wake_delivery_id",
                        CorruptReason::MalformedIdentity,
                    ),
                )
            }
        },
    }
}

/// The claim a row records for an obligation.
pub open spec fn claim_recorded(claim: ClaimId, held: ObligationId, row: ClaimRow) -> Result<
    ClaimView,
    StoreError,
> {
    let t = "foreman_claims";
    chain(
        u64_column(row.obligation_version_at_claim, t, "obligation_version_at_claim"),
        |version_at_claim: u64|
            chain(
                u64_column(row.binding_generation, t, "binding_generation"),
                |binding_generation: u64|
                    match claim_state_named(row.state@) {
                        None => Err(corrupt(t, "state", CorruptReason::UnknownLabel)),
                        Some(lifecycle) => Ok(
                            ClaimView {
                                id: claim,
                                obligation: held,
                                version_at_claim,
                                binding_generation,
                                wake_delivery_hex: row.wake_delivery_id@,
                                state: match lifecycle {
                                    ClaimLifecycle::Live => ClaimState::Live,
                                    ClaimLifecycle::Expired => ClaimState::Expired,
                                    ClaimLifecycle::Closed => ClaimState::Closed,
                                },
                                created_at: row.observed_at_ms,
                                expires_at: row.expires_at_ms,
                            },
                        ),
                    },
            ),
    )
}

/// A persisted claim, re-proved against the wake that minted it.
pub open spec fn claim_proven(
    claim: ClaimId,
    held: ObligationId,
    row: ClaimRow,
    wake: WakeView,
    proven: spec_fn(ClaimView, WakeView) -> bool,
) -> Result<ClaimView, StoreError> {
    chain(
        claim_recorded(claim, held, row),
        |view: ClaimView|
            if proven(view, wake) {
                Ok(view)
            } else {
                Err(corrupt("foreman_claims", "wake_delivery_id", CorruptReason::UnprovableEvidence))
            },
    )
}

/// Rebuilds a persisted claim: a row whose provenance no longer checks out authorises nothing.
pub fn rehydrate_claim<H: Fn(&ForemanClaim, &BrowserWake) -> bool>(
    claim: ClaimId,
    held: ObligationId,
    row: &ClaimRow,
    wake: &BrowserWake,
    proven: &H,
) -> (r: Result<ForemanClaim, StoreError>)
    requires
        forall|c: &ForemanClaim, w: &BrowserWake| call_requires(*proven, (c, w)),
    ensures
        forall|rule: spec_fn(ClaimView, WakeView) -> bool| #[trigger]
            provenance_is(*proven, rule) ==> (match r {
                Ok(rebuilt) => claim_proven(claim, held, *row, wake@, rule) == Ok::<
                    ClaimView,
                    StoreError,
                >(rebuilt@),
                Err(e) => claim_proven(claim, held, *row, wake@, rule) == Err::<
                    ClaimView,
                    StoreError,
                >(e),
            }),
{
    let t = "foreman_claims";
    let version_at_claim: u64 = parse_u64(
        row.obligation_version_at_claim,
        t,
        "obligation_version_at_claim",
    )?;
    let binding_generation: u64 = parse_u64(row.binding_generation, t, "binding_generation")?;
    let state = match decode_claim_state(row.state.as_str(), t)? {
        ClaimLifecycle::Live => ClaimState::Live,
        ClaimLifecycle::Expired => ClaimState::Expired,
        ClaimLifecycle::Closed => ClaimState::Closed,
    };
    let rebuilt = ForemanClaim {
        id: claim,
        obligation: held,
        version_at_claim,
        binding_generation,
        wake_delivery_hex: row.wake_delivery_id.clone(),
        state,
        created_at: row.observed_at_ms,
        expires_at: row.expires_at_ms,
    };
    if proven(&rebuilt, wake) {
        Ok(rebuilt)
    } else {
        Err(corrupt_row(t, "wake_delivery_id", CorruptReason::UnprovableEvidence))
    }
}

// --- Laws --------------------------------------------------------------------------------------------

/// An acknowledgement keeps the source fact the obligation stood on, closes its claim at the same
/// event, and records its disposition with the transition.
pub proof fn an_acknowledgement_closes_claim_and_work_together(
    op: AcknowledgeObligation,
    loaded: LoadedView,
    after: ObligationView,
    seq: EventSeq,
)
    ensures
        op.committed(loaded, after, seq) matches Ok((rows, output)) ==> {
            &&& rows.claim.claim_id == op.request.claim
            &&& rows.claim.closed_event_seq == rows.transition.event.event_seq == seq
            &&& rows.transition.obligation.source_event_seq == loaded.source_event_seq
            &&& rows.transition.event.disposition == Some(disposition_label(op.request.disposition))
            &&& !output.already_committed
            &&& after.state.closed() ==> rows.transition.obligation.closed_event_seq == Some(
                rows.claim.closed_event_seq,
            )
        },
{
}

} // verus!
