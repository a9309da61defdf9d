//! Browser wake delivery: create and claim, arm the send, record the outcome, reconcile.
//!
//! The ordering rules keep a wake from being sent twice: an attempt is claimed before any browser
//! I/O, the send is armed immediately before it, the outcome records exactly what was observed.
//! The deterministic key makes duplicate scheduling converge on one row; the random correlation
//! identity of a revision is drawn once and kept for its whole life.
use vstd::prelude::*;
use vstd::string::StringSliceAdditionalSpecFns;
use vstd::utf8::encode_utf8;
use crate::digest::{be_bytes, framed, hex_text, push_be, push_frame, sha256, sha256_of};
use crate::domain::binding::{fence_is, fence_total, BindingLedger, BindingView, FenceRule};
use crate::domain::conflict::Conflict;
use crate::domain::delivery::{
    attempts_are, attempts_total, claims_leave_an_attempt, target_is, AcceptedWakeEvidence,
    AmbiguityReason, Attempt, AttemptState, BrowserWake, Delivery, DeliveryEvent,
    DeliveryEventView, DeliveryId, DeliveryMachine, DeliveryReply, DeliveryState, DeliveryView,
    FailureClass, TargetRule, WakeModel, WakeRules, WakeTarget, WakeView,
};
use crate::domain::fence::{
    rule_is, rule_total, AttemptNo, BindingGeneration, DeliveryRevision, EventSeq,
    ObligationVersion, SafeToken, SourceRef, SourceView, Timestamp,
};
use crate::domain::id::{DeliveryAttemptId, EventId, ForemanBindingId, ObligationId, TaskId};
use crate::domain::obligation::{
    applied_view, source_gate_is, version_gate_is, Applied, Obligation, ObligationView,
};
use crate::store::codec::{hex32, store_u64, stored_u64};
use crate::store::error::{chain, corrupt, corrupt_row, CorruptReason, StoreError};
use crate::store::event::{store_seq, stored_seq, EventScope, EventView, NewEvent};
use crate::store::event_kind::{kind_label, EventKind};
use crate::store::grammar::MetaValue;
use crate::store::labels::{
    ambiguity_label, attempt_state_label, delivery_state_label, encode_ambiguity,
    encode_attempt_state, encode_delivery_state, encode_failure_class, failure_class_label,
};
use crate::store::load::obligation::{LoadedObligation, LoadedView};
use crate::store::ops::{
    event_of, event_view, gate, gated, internal_fact, internal_source_text, new_event,
};
use crate::store::safe_metadata::SafeMetadata;
use crate::text::{join3, nat_string, nat_text};

verus! {

/// Domain-separation label for the stored wake payload digest.
pub const WAKE_PAYLOAD_DOMAIN: &'static str = "command-governor/wake-payload/v1";

// --- The payload digest --------------------------------------------------------------------------------

/// The fields the payload digest covers, in order.
pub open spec fn payload_fields(
    delivery_id: Seq<u8>,
    obligation: ObligationId,
    generation: BindingGeneration,
    revision: DeliveryRevision,
    protocol: Seq<char>,
) -> Seq<Seq<u8>> {
    seq![
        encode_utf8(WAKE_PAYLOAD_DOMAIN@),
        delivery_id,
        be_bytes(obligation.value as nat, 16),
        be_bytes(generation as nat, 8),
        be_bytes(revision as nat, 4),
        encode_utf8(protocol),
    ]
}

/// The digest of the payload a revision will carry, in hexadecimal.
pub open spec fn payload_digest(
    delivery_id: Seq<u8>,
    obligation: ObligationId,
    generation: BindingGeneration,
    revision: DeliveryRevision,
    protocol: Seq<char>,
) -> Seq<char> {
    hex_text(sha256_of(framed(payload_fields(delivery_id, obligation, generation, revision, protocol))))
}

/// Computes the digest of the payload a revision will carry.
///
/// Deterministic in the correlation identity that was drawn and the scheduling tuple, so no caller
/// can put anything else in the column.
pub fn wake_payload_digest(
    delivery_id: &DeliveryId,
    obligation: ObligationId,
    generation: BindingGeneration,
    revision: DeliveryRevision,
    protocol: &SafeToken,
) -> (r: String)
    ensures
        r@ == payload_digest(delivery_id.bytes@, obligation, generation, revision, protocol@),
{
    let ghost fields = payload_fields(delivery_id.bytes@, obligation, generation, revision, protocol@);
    let mut message: Vec<u8> = Vec::new();
    push_frame(&mut message, WAKE_PAYLOAD_DOMAIN.as_bytes());
    push_frame(&mut message, delivery_id.bytes.as_slice());
    let mut number: Vec<u8> = Vec::new();
    push_be(&mut number, obligation.value, 16);
    push_frame(&mut message, number.as_slice());
    let mut number: Vec<u8> = Vec::new();
    push_be(&mut number, generation as u128, 8);
    push_frame(&mut message, number.as_slice());
    let mut number: Vec<u8> = Vec::new();
    push_be(&mut number, revision as u128, 4);
    push_frame(&mut message, number.as_slice());
    push_frame(&mut message, protocol.as_str().as_bytes());
    proof {
        reveal_with_fuel(framed, 7);
        assert(fields.drop_last() =~= fields.take(5));
        assert(fields.take(5).drop_last() =~= fields.take(4));
        assert(fields.take(4).drop_last() =~= fields.take(3));
        assert(fields.take(3).drop_last() =~= fields.take(2));
        assert(fields.take(2).drop_last() =~= fields.take(1));
        assert(fields.take(1).drop_last() =~= fields.take(0));
        assert(message@ =~= framed(fields));
    }
    hex32(&sha256(message.as_slice()))
}

// --- Shared ----------------------------------------------------------------------------------------------

/// The scope of an event about a delivery: the task and the obligation.
pub open spec fn delivery_scope(task: TaskId, obligation: ObligationId) -> EventScope {
    EventScope { task: Some(task), obligation: Some(obligation), ..EventScope::nothing() }
}

/// The scope of an event about a delivery.
pub fn scope_of_delivery(task: TaskId, obligation: ObligationId) -> (r: EventScope)
    ensures
        r == delivery_scope(task, obligation),
{
    EventScope {
        project: None,
        task: Some(task),
        session: None,
        incarnation: None,
        turn: None,
        obligation: Some(obligation),
    }
}

/// An answer of the attempt machine, a refusal being a store failure.
pub open spec fn attempted(machine: DeliveryMachine, delivery: DeliveryView, event: DeliveryEventView) -> Result<
    Applied<DeliveryView>,
    StoreError,
> {
    match machine(delivery, event) {
        Ok(applied) => Ok(applied),
        Err(conflict) => Err(StoreError::Conflict(conflict)),
    }
}

/// An answer of the attempt machine on values alone.
pub open spec fn attempted_view(r: Result<Applied<Delivery>, StoreError>) -> Result<
    Applied<DeliveryView>,
    StoreError,
> {
    match r {
        Ok(applied) => Ok(applied_view(applied)),
        Err(e) => Err(e),
    }
}

/// Asks the attempt machine.
pub fn attempt<A: Fn(&Delivery, &DeliveryEvent) -> DeliveryReply>(
    apply: &A,
    delivery: &Delivery,
    event: &DeliveryEvent,
) -> (r: Result<Applied<Delivery>, StoreError>)
    requires
        attempts_total(*apply),
    ensures
        forall|machine: DeliveryMachine| #[trigger]
            attempts_are(*apply, machine) ==> attempted_view(r) == attempted(
                machine,
                delivery@,
                event@,
            ),
        claims_leave_an_attempt(*apply) && event is AttemptClaimed ==> (r matches Ok(
            Applied::Advanced(next),
        ) ==> next.attempts@.len() > 0),
{
    match apply(delivery, event) {
        Ok(applied) => Ok(applied),
        Err(conflict) => Err(StoreError::Conflict(conflict)),
    }
}

/// What the `browser_deliveries` row of a delivery is overwritten with.
#[derive(Debug, PartialEq, Eq)]
pub struct DeliveryUpdate {
    pub state: &'static str,
    /// Kept as it was where there is none.
    pub accepted_message_ref: Option<SafeToken>,
    /// Recorded only where none is recorded yet.
    pub accepted_event_seq: Option<i64>,
    /// Recorded only where none is recorded yet.
    pub terminal_event_seq: Option<i64>,
}

/// The aggregate projection of a delivery: a terminal sequence only in a terminal state, an
/// accepted one only in the accepted state.
pub open spec fn delivery_row(
    delivery: DeliveryView,
    accepted_message: Option<SafeToken>,
    terminal_seq: Option<EventSeq>,
) -> Result<DeliveryUpdate, StoreError> {
    let terminal = match terminal_seq {
        Some(seq) => if delivery.terminal {
            chain(stored_seq(seq), |at: i64| Ok(Some(at)))
        } else {
            Ok(None)
        },
        None => Ok(None),
    };
    chain(
        terminal,
        |at: Option<i64>|
            Ok(
                DeliveryUpdate {
                    state: delivery_state_label(delivery.state),
                    accepted_message_ref: accepted_message,
                    accepted_event_seq: if delivery.state is Accepted {
                        at
                    } else {
                        None
                    },
                    terminal_event_seq: at,
                },
            ),
    )
}

/// Builds the aggregate projection of a delivery.
pub fn set_delivery_state(
    delivery: &Delivery,
    accepted_message: Option<SafeToken>,
    terminal_seq: Option<EventSeq>,
) -> (r: Result<DeliveryUpdate, StoreError>)
    ensures
        r == delivery_row(delivery@, accepted_message, terminal_seq),
{
    let terminal = match terminal_seq {
        Some(seq) => if delivery.terminal {
            Some(store_seq(seq)?)
        } else {
            None
        },
        None => None,
    };
    let accepted = match delivery.state {
        DeliveryState::Accepted => terminal,
        _ => None,
    };
    Ok(
        DeliveryUpdate {
            state: encode_delivery_state(delivery.state),
            accepted_message_ref: accepted_message,
            accepted_event_seq: accepted,
            terminal_event_seq: terminal,
        },
    )
}

/// The refusal of a generation that is not the wake's.
pub open spec fn generation_required(presented: BindingGeneration, wake: WakeView) -> Result<
    (),
    StoreError,
> {
    if wake.binding_generation != presented {
        Err(
            StoreError::Conflict(
                Conflict::StaleBindingGeneration { presented, active: wake.binding_generation },
            ),
        )
    } else {
        Ok(())
    }
}

fn require_generation(presented: BindingGeneration, wake: &BrowserWake) -> (r: Result<(), StoreError>)
    ensures
        r == generation_required(presented, wake@),
{
    if wake.binding_generation != presented {
        Err(
            StoreError::Conflict(
                Conflict::StaleBindingGeneration { presented, active: wake.binding_generation },
            ),
        )
    } else {
        Ok(())
    }
}

/// The conversation of the binding a generation fences, read from the binding itself.
pub open spec fn fenced_conversation(
    bindings: BindingView,
    generation: BindingGeneration,
    rule: FenceRule,
) -> Result<Seq<char>, StoreError> {
    chain(
        gated(rule(bindings, generation)),
        |_u: ()| Ok(bindings.active->0.conversation),
    )
}

/// Reads the conversation of the binding a generation fences.
pub fn binding_conversation<F: Fn(&BindingLedger, BindingGeneration) -> Result<(), Conflict>>(
    bindings: &BindingLedger,
    generation: BindingGeneration,
    fence: &F,
) -> (r: Result<SafeToken, StoreError>)
    requires
        fence_total(*fence),
    ensures
        forall|rule: FenceRule| #[trigger]
            fence_is(*fence, rule) ==> (match r {
                Ok(conversation) => fenced_conversation(bindings@, generation, rule) == Ok::<
                    Seq<char>,
                    StoreError,
                >(conversation@),
                Err(e) => fenced_conversation(bindings@, generation, rule) == Err::<
                    Seq<char>,
                    StoreError,
                >(e),
            }),
{
    gate(fence(bindings, generation))?;
    match &bindings.active {
        Some(active) => Ok(active.conversation.clone()),
        None => {
            proof {
                assert(false);
            }
            Err(StoreError::Conflict(Conflict::UnknownDeliveryId))
        },
    }
}

// --- Creating and claiming -------------------------------------------------------------------------------

/// Scheduling one browser wake revision and claiming an attempt on it.
#[derive(Debug, PartialEq, Eq)]
pub struct CreateOrClaimDeliveryRequest {
    /// Obligation the wake is about.
    pub obligation: ObligationId,
    /// Binding generation the caller believes is current.
    pub binding_generation: BindingGeneration,
    /// Obligation version the caller believes is current.
    pub expected_version: ObligationVersion,
    /// Source fact the caller believes is current.
    pub expected_source: SourceRef,
    /// Revision within the obligation and binding generation.
    pub revision: DeliveryRevision,
    /// Bounded attempt budget for the revision.
    pub attempt_budget: u32,
    /// Opaque wake protocol label.
    pub wake_protocol: SafeToken,
}

/// The wake an adapter may now act on.
#[derive(Debug, PartialEq, Eq)]
pub struct ClaimedDelivery {
    /// The persisted form of the correlation identity carried in the wake.
    pub delivery_id: String,
    /// Revision this claim belongs to.
    pub revision: DeliveryRevision,
    /// Attempt number the claim created.
    pub attempt: AttemptNo,
    /// Whether this call created the revision, as opposed to finding it.
    pub created: bool,
}

/// Creates or finds a wake revision and claims an attempt, before any I/O.
#[derive(Debug, PartialEq, Eq)]
pub struct CreateOrClaimDelivery {
    pub request: CreateOrClaimDeliveryRequest,
    /// Drawn unconditionally beforehand; discarded where the row already exists.
    pub candidate_delivery_id: DeliveryId,
    pub attempt_id: DeliveryAttemptId,
    pub event: EventId,
    pub now: Timestamp,
}

/// One `browser_deliveries` row, as inserted.
#[derive(Debug, PartialEq, Eq)]
pub struct DeliveryInsert {
    pub delivery_id: String,
    pub delivery_key: String,
    pub obligation_id: ObligationId,
    pub target_obligation_version: i64,
    pub target_source_event_seq: i64,
    pub foreman_binding_id: ForemanBindingId,
    pub binding_generation: i64,
    pub delivery_revision: i64,
    pub attempt_budget: i64,
    pub wake_protocol: String,
    pub wake_payload_digest: String,
    pub state: &'static str,
}

/// One inserted `browser_deliveries` row on values alone.
#[verifier::ext_equal]
pub struct DeliveryInsertView {
    pub delivery_id: Seq<char>,
    pub delivery_key: Seq<char>,
    pub obligation_id: ObligationId,
    pub target_obligation_version: i64,
    pub target_source_event_seq: i64,
    pub foreman_binding_id: ForemanBindingId,
    pub binding_generation: i64,
    pub delivery_revision: i64,
    pub attempt_budget: i64,
    pub wake_protocol: Seq<char>,
    pub wake_payload_digest: Seq<char>,
    pub state: &'static str,
}

impl View for DeliveryInsert {
    type V = DeliveryInsertView;

    open spec fn view(&self) -> DeliveryInsertView {
        DeliveryInsertView {
            delivery_id: self.delivery_id@,
            delivery_key: self.delivery_key@,
            obligation_id: self.obligation_id,
            target_obligation_version: self.target_obligation_version,
            target_source_event_seq: self.target_source_event_seq,
            foreman_binding_id: self.foreman_binding_id,
            binding_generation: self.binding_generation,
            delivery_revision: self.delivery_revision,
            attempt_budget: self.attempt_budget,
            wake_protocol: self.wake_protocol@,
            wake_payload_digest: self.wake_payload_digest@,
            state: self.state,
        }
    }
}

/// What claiming decided: the wake, its row where it is new, the machine after the claim, and the
/// attempt the claim created.
#[derive(Debug, PartialEq, Eq)]
pub struct ClaimPlan {
    pub wake: BrowserWake,
    pub insert: Option<DeliveryInsert>,
    pub next: Delivery,
    pub attempt: AttemptNo,
}

/// What claiming decided, on values alone.
#[verifier::ext_equal]
pub struct ClaimPlanView {
    pub wake: WakeView,
    pub insert: Option<DeliveryInsertView>,
    pub next: DeliveryView,
    pub attempt: AttemptNo,
}

impl View for ClaimPlan {
    type V = ClaimPlanView;

    open spec fn view(&self) -> ClaimPlanView {
        ClaimPlanView {
            wake: self.wake@,
            insert: match self.insert {
                Some(row) => Some(row@),
                None => None,
            },
            next: self.next@,
            attempt: self.attempt,
        }
    }
}

/// One `delivery_attempts` row of the claimed delivery, as inserted.
#[derive(Debug, Clone, Copy, PartialEq, Eq)]
pub struct AttemptInsert {
    pub delivery_attempt_id: DeliveryAttemptId,
    pub attempt_no: i64,
    pub state: &'static str,
    pub claimed_event_seq: i64,
    pub started_at_ms: i64,
}

/// The rows of a claim. The delivery they belong to is the claimed one.
#[derive(Debug, PartialEq, Eq)]
pub struct ClaimedRows {
    pub attempt: AttemptInsert,
    pub delivery: DeliveryUpdate,
}

impl CreateOrClaimDelivery {
    /// The binding the presented generation fences.
    pub open spec fn fenced_binding(self, bindings: BindingView, rule: FenceRule) -> Result<
        ForemanBindingId,
        StoreError,
    > {
        chain(
            gated(rule(bindings, self.request.binding_generation)),
            |_u: ()| Ok(bindings.active->0.id),
        )
    }

    /// Checks the generation fence, before the obligation is read.
    pub fn binding<F: Fn(&BindingLedger, BindingGeneration) -> Result<(), Conflict>>(
        &self,
        bindings: &BindingLedger,
        fence: &F,
    ) -> (r: Result<ForemanBindingId, StoreError>)
        requires
            fence_total(*fence),
        ensures
            forall|rule: FenceRule| #[trigger]
                fence_is(*fence, rule) ==> r == self.fenced_binding(bindings@, rule),
    {
        gate(fence(bindings, self.request.binding_generation))?;
        match &bindings.active {
            Some(active) => Ok(active.id),
            None => {
                proof {
                    assert(false);
                }
                Err(StoreError::Conflict(Conflict::UnknownDeliveryId))
            },
        }
    }

    /// Checks the version fence, then the source fence.
    pub fn current<
        V: Fn(&Obligation, ObligationVersion) -> Result<(), Conflict>,
        Q: Fn(&Obligation, &SourceRef) -> Result<(), Conflict>,
    >(&self, obligation: &Obligation, version: &V, source: &Q) -> (r: Result<(), StoreError>)
        requires
            forall|o: &Obligation, v: ObligationVersion| call_requires(*version, (o, v)),
            forall|o: &Obligation, s: &SourceRef| call_requires(*source, (o, s)),
        ensures
            forall|
                version_rule: spec_fn(ObligationView, ObligationVersion) -> Result<(), Conflict>,
                source_rule: spec_fn(ObligationView, SourceView) -> Result<(), Conflict>,
            |
                #![trigger version_gate_is(*version, version_rule), source_gate_is(*source, source_rule)]
                version_gate_is(*version, version_rule) && source_gate_is(*source, source_rule) ==> r
                    == chain(
                    gated(version_rule(obligation@, self.request.expected_version)),
                    |_u: ()| gated(source_rule(obligation@, self.request.expected_source@)),
                ),
    {
        gate(version(obligation, self.request.expected_version))?;
        gate(source(obligation, &self.request.expected_source))
    }

    /// The deterministic key the revision is looked up by.
    pub fn key<K: Fn(ObligationId, BindingGeneration, DeliveryRevision) -> String>(&self, derive: &K) -> (r: String)
        requires
            forall|o: ObligationId, g: BindingGeneration, v: DeliveryRevision|
                call_requires(*derive, (o, g, v)),
        ensures
            call_ensures(
                *derive,
                (self.request.obligation, self.request.binding_generation, self.request.revision),
                r,
            ),
    {
        derive(self.request.obligation, self.request.binding_generation, self.request.revision)
    }

    /// The revision as it is created: the drawn identity, the obligation as it stands, and a fresh
    /// attempt machine.
    pub open spec fn fresh_wake(self, obligation: ObligationView, binding: ForemanBindingId, model: WakeModel) -> WakeView {
        WakeView {
            delivery_hex: self.candidate_delivery_id.hex(),
            key_hex: (model.derive)(
                obligation.id,
                self.request.binding_generation,
                self.request.revision,
            ),
            obligation: obligation.id,
            version: obligation.version,
            source: obligation.source,
            binding,
            binding_generation: self.request.binding_generation,
            revision: self.request.revision,
            delivery: (model.pending)(self.request.attempt_budget),
        }
    }

    /// The revision as it is created, where it rehydrates like any other.
    pub open spec fn created(self, obligation: ObligationView, binding: ForemanBindingId, model: WakeModel) -> Result<
        WakeView,
        StoreError,
    > {
        let wake = self.fresh_wake(obligation, binding, model);
        if (model.rehydrates)(wake) {
            Ok(wake)
        } else {
            Err(corrupt("browser_deliveries", "delivery_key", CorruptReason::MalformedIdentity))
        }
    }

    /// Builds the revision around the identity that was drawn.
    pub fn create_at_revision<
        A: Fn(&Delivery, &DeliveryEvent) -> DeliveryReply,
        P: Fn(u32) -> Delivery,
        K: Fn(ObligationId, BindingGeneration, DeliveryRevision) -> String,
        I: Fn(&str) -> bool,
        H: Fn(&BrowserWake) -> bool,
        S: Fn(&str) -> bool,
    >(
        &self,
        obligation: &Obligation,
        binding: ForemanBindingId,
        rules: &WakeRules<A, P, K, I, H, S>,
    ) -> (r: Result<BrowserWake, StoreError>)
        requires
            rules.total(),
        ensures
            forall|model: WakeModel| #[trigger]
                rules.follows(model) ==> (match r {
                    Ok(wake) => self.created(obligation@, binding, model) == Ok::<
                        WakeView,
                        StoreError,
                    >(wake@),
                    Err(e) => self.created(obligation@, binding, model) == Err::<
                        WakeView,
                        StoreError,
                    >(e),
                }),
    {
        let wake = BrowserWake {
            delivery_hex: self.candidate_delivery_id.to_hex(),
            key_hex: (rules.derive)(
                obligation.id,
                self.request.binding_generation,
                self.request.revision,
            ),
            target: WakeTarget {
                obligation: obligation.id,
                version: obligation.version,
                source: obligation.source.clone(),
            },
            binding,
            binding_generation: self.request.binding_generation,
            revision: self.request.revision,
            delivery: (rules.pending)(self.request.attempt_budget),
        };
        if (rules.rehydrates)(&wake) {
            Ok(wake)
        } else {
            Err(corrupt_row("browser_deliveries", "delivery_key", CorruptReason::MalformedIdentity))
        }
    }

    /// The row of a revision that is created.
    pub open spec fn created_row(self, loaded: LoadedView, binding: ForemanBindingId, key: Seq<char>) -> Result<
        DeliveryInsertView,
        StoreError,
    > {
        let t = "browser_deliveries";
        chain(
            stored_u64(loaded.projection.version, t, "target_obligation_version"),
            |version: i64|
                chain(
                    stored_seq(loaded.source_event_seq),
                    |source_at: i64|
                        chain(
                            stored_u64(self.request.binding_generation, t, "binding_generation"),
                            |generation: i64|
                                Ok(
                                    DeliveryInsertView {
                                        delivery_id: self.candidate_delivery_id.hex(),
                                        delivery_key: key,
                                        obligation_id: self.request.obligation,
                                        target_obligation_version: version,
                                        target_source_event_seq: source_at,
                                        foreman_binding_id: binding,
                                        binding_generation: generation,
                                        delivery_revision: self.request.revision as i64,
                                        attempt_budget: self.request.attempt_budget as i64,
                                        wake_protocol: self.request.wake_protocol@,
                                        wake_payload_digest: payload_digest(
                                            self.candidate_delivery_id.bytes@,
                                            self.request.obligation,
                                            self.request.binding_generation,
                                            self.request.revision,
                                            self.request.wake_protocol@,
                                        ),
                                        state: delivery_state_label(DeliveryState::Pending),
                                    },
                                ),
                        ),
                ),
        )
    }

    fn insert(&self, loaded: &LoadedObligation, binding: ForemanBindingId, key: &str) -> (r: Result<
        DeliveryInsert,
        StoreError,
    >)
        ensures
            match r {
                Ok(row) => self.created_row(loaded@, binding, key@) == Ok::<
                    DeliveryInsertView,
                    StoreError,
                >(row@),
                Err(e) => self.created_row(loaded@, binding, key@) == Err::<
                    DeliveryInsertView,
                    StoreError,
                >(e),
            },
    {
        let t = "browser_deliveries";
        let version: i64 = store_u64(loaded.projection.version, t, "target_obligation_version")?;
        let source_at: i64 = store_seq(loaded.source_event_seq)?;
        let generation: i64 = store_u64(self.request.binding_generation, t, "binding_generation")?;
        let digest = wake_payload_digest(
            &self.candidate_delivery_id,
            self.request.obligation,
            self.request.binding_generation,
            self.request.revision,
            &self.request.wake_protocol,
        );
        Ok(
            DeliveryInsert {
                delivery_id: self.candidate_delivery_id.to_hex(),
                delivery_key: key.to_owned(),
                obligation_id: self.request.obligation,
                target_obligation_version: version,
                target_source_event_seq: source_at,
                foreman_binding_id: binding,
                binding_generation: generation,
                delivery_revision: self.request.revision as i64,
                attempt_budget: self.request.attempt_budget as i64,
                wake_protocol: self.request.wake_protocol.text.clone(),
                wake_payload_digest: digest,
                state: encode_delivery_state(DeliveryState::Pending),
            },
        )
    }

    /// The wake that is claimed, and its row where it is new.
    ///
    /// A revision the key finds keeps the identity it was created with.
    pub open spec fn scheduled(
        self,
        found: Option<WakeView>,
        loaded: LoadedView,
        binding: ForemanBindingId,
        model: WakeModel,
    ) -> Result<(WakeView, Option<DeliveryInsertView>), StoreError> {
        match found {
            Some(wake) => Ok((wake, None)),
            None => chain(
                self.created(loaded.projection, binding, model),
                |wake: WakeView|
                    chain(
                        self.created_row(
                            loaded,
                            binding,
                            (model.derive)(
                                self.request.obligation,
                                self.request.binding_generation,
                                self.request.revision,
                            ),
                        ),
                        |row: DeliveryInsertView| Ok((wake, Some(row))),
                    ),
            ),
        }
    }

    /// The claim on a wake whose target is still current.
    pub open spec fn claimed(
        self,
        wake: WakeView,
        insert: Option<DeliveryInsertView>,
        obligation: ObligationView,
        target: TargetRule,
        machine: DeliveryMachine,
    ) -> Result<ClaimPlanView, StoreError> {
        chain(
            gated(target(wake, obligation)),
            |_u: ()|
                chain(
                    attempted(
                        machine,
                        wake.delivery,
                        DeliveryEventView::AttemptClaimed { at: self.now },
                    ),
                    |applied: Applied<DeliveryView>|
                        match applied {
                            Applied::Duplicate => Err(
                                StoreError::Conflict(
                                    Conflict::IllegalDeliveryTransition {
                                        from: AttemptState::Claimed,
                                        event: "attempt_claimed",
                                    },
                                ),
                            ),
                            Applied::Advanced(next) => Ok(
                                ClaimPlanView {
                                    wake,
                                    insert,
                                    next,
                                    attempt: next.attempts.last().number,
                                },
                            ),
                        },
                ),
        )
    }

    /// Decides the claim.
    ///
    /// The wake's own snapshot must still be current: a revision found by key was scheduled against
    /// a state the obligation may since have left.
    pub fn plan<
        A: Fn(&Delivery, &DeliveryEvent) -> DeliveryReply,
        P: Fn(u32) -> Delivery,
        K: Fn(ObligationId, BindingGeneration, DeliveryRevision) -> String,
        I: Fn(&str) -> bool,
        H: Fn(&BrowserWake) -> bool,
        S: Fn(&str) -> bool,
        T: Fn(&BrowserWake, &Obligation) -> Result<(), Conflict>,
    >(
        &self,
        found: Option<BrowserWake>,
        loaded: &LoadedObligation,
        binding: ForemanBindingId,
        rules: &WakeRules<A, P, K, I, H, S>,
        target: &T,
    ) -> (r: Result<ClaimPlan, StoreError>)
        requires
            rules.total(),
            claims_leave_an_attempt(rules.apply),
            forall|w: &BrowserWake, o: &Obligation| call_requires(*target, (w, o)),
        ensures
            forall|model: WakeModel, target_rule: TargetRule|
                #![trigger rules.follows(model), target_is(*target, target_rule)]
                rules.follows(model) && target_is(*target, target_rule) ==> ({
                    let found_view = match found {
                        Some(wake) => Some(wake@),
                        None => None,
                    };
                    let planned = chain(
                        self.scheduled(found_view, loaded@, binding, model),
                        |s: (WakeView, Option<DeliveryInsertView>)|
                            self.claimed(s.0, s.1, loaded@.projection, target_rule, model.apply),
                    );
                    match r {
                        Ok(plan) => planned == Ok::<ClaimPlanView, StoreError>(plan@),
                        Err(e) => planned == Err::<ClaimPlanView, StoreError>(e),
                    }
                }),
    {
        let (wake, insert) = match found {
            Some(wake) => (wake, None),
            None => {
                let wake = self.create_at_revision(&loaded.projection, binding, rules)?;
                let key = self.key(&rules.derive);
                let row = self.insert(loaded, binding, key.as_str())?;
                (wake, Some(row))
            },
        };
        gate(target(&wake, &loaded.projection))?;
        let event = DeliveryEvent::AttemptClaimed { at: self.now };
        match attempt(&rules.apply, &wake.delivery, &event)? {
            Applied::Duplicate => Err(
                StoreError::Conflict(
                    Conflict::IllegalDeliveryTransition {
                        from: AttemptState::Claimed,
                        event: "attempt_claimed",
                    },
                ),
            ),
            Applied::Advanced(next) => {
                let number: u32 = next.attempts[next.attempts.len() - 1].number;
                Ok(ClaimPlan { wake, insert, next, attempt: number })
            },
        }
    }

    /// The event of the claim.
    pub open spec fn claimed_event(
        self,
        task: TaskId,
        plan: ClaimPlanView,
        rule: spec_fn(Seq<char>) -> bool,
    ) -> Result<EventView, StoreError> {
        chain(
            internal_fact(
                plan.wake.delivery_hex,
                "claimed"@ + "."@ + nat_text(plan.attempt as nat),
                rule,
            ),
            |source: SourceView|
                Ok(
                    event_of(
                        self.event,
                        EventKind::BrowserDeliveryAttemptClaimed,
                        source,
                        self.now,
                        delivery_scope(task, self.request.obligation),
                        seq![
                            ("revision"@, MetaValue::Int(self.request.revision as int)),
                            ("attempt_no"@, MetaValue::Int(plan.attempt as int)),
                        ],
                    ),
                ),
        )
    }

    /// Builds the event of the claim.
    pub fn event<S: Fn(&str) -> bool>(&self, task: TaskId, plan: &ClaimPlan, safe: &S) -> (r: Result<
        NewEvent,
        StoreError,
    >)
        requires
            rule_total(*safe),
        ensures
            forall|rule: spec_fn(Seq<char>) -> bool| #[trigger]
                rule_is(*safe, rule) ==> event_view(r) == self.claimed_event(task, plan@, rule),
    {
        let number = nat_string(plan.attempt as u64);
        let fence = join3("claimed", ".", number.as_str());
        let source = internal_source_text(plan.wake.delivery_hex.as_str(), fence.as_str(), safe)?;
        let metadata = SafeMetadata::new().integer("revision", self.request.revision as i64).integer(
            "attempt_no",
            plan.attempt as i64,
        );
        proof {
            assert(metadata@ =~= seq![
                ("revision"@, MetaValue::Int(self.request.revision as int)),
                ("attempt_no"@, MetaValue::Int(plan.attempt as int)),
            ]);
        }
        Ok(
            new_event(
                self.event,
                EventKind::BrowserDeliveryAttemptClaimed,
                source,
                self.now,
                scope_of_delivery(task, self.request.obligation),
                metadata,
            ),
        )
    }

    /// The rows of the claim.
    pub open spec fn claimed_rows(self, plan: ClaimPlanView, seq: EventSeq) -> Result<
        (AttemptInsert, DeliveryUpdate),
        StoreError,
    > {
        chain(
            stored_seq(seq),
            |at: i64|
                chain(
                    delivery_row(plan.next, None, None),
                    |row: DeliveryUpdate|
                        Ok(
                            (
                                AttemptInsert {
                                    delivery_attempt_id: self.attempt_id,
                                    attempt_no: plan.attempt as i64,
                                    state: attempt_state_label(AttemptState::Claimed),
                                    claimed_event_seq: at,
                                    started_at_ms: self.now,
                                },
                                row,
                            ),
                        ),
                ),
        )
    }

    /// Builds the rows of the claim, and answers what was claimed.
    pub fn commit(&self, plan: &ClaimPlan, seq: EventSeq) -> (r: Result<
        (ClaimedRows, ClaimedDelivery),
        StoreError,
    >)
        ensures
            match r {
                Ok((rows, claimed)) => {
                    &&& self.claimed_rows(plan@, seq) == Ok::<
                        (AttemptInsert, DeliveryUpdate),
                        StoreError,
                    >((rows.attempt, rows.delivery))
                    &&& claimed.delivery_id@ == plan@.wake.delivery_hex
                    &&& claimed.revision == self.request.revision
                    &&& claimed.attempt == plan.attempt
                    &&& claimed.created == (plan.insert is Some)
                },
                Err(e) => self.claimed_rows(plan@, seq) == Err::<
                    (AttemptInsert, DeliveryUpdate),
                    StoreError,
                >(e),
            },
    {
        let at: i64 = store_seq(seq)?;
        let delivery = set_delivery_state(&plan.next, None, None)?;
        Ok(
            (
                ClaimedRows {
                    attempt: AttemptInsert {
                        delivery_attempt_id: self.attempt_id,
                        attempt_no: plan.attempt as i64,
                        state: encode_attempt_state(AttemptState::Claimed),
                        claimed_event_seq: at,
                        started_at_ms: self.now,
                    },
                    delivery,
                },
                ClaimedDelivery {
                    delivery_id: plan.wake.delivery_hex.clone(),
                    revision: self.request.revision,
                    attempt: plan.attempt,
                    created: plan.insert.is_some(),
                },
            ),
        )
    }
}

// --- Arming ------------------------------------------------------------------------------------------------

/// Arming the send fence immediately before the exact send.
#[derive(Debug, PartialEq, Eq)]
pub struct ArmDeliverySendRequest {
    /// The wake being armed.
    pub delivery_id: DeliveryId,
    /// Binding generation the caller believes is current.
    pub binding_generation: BindingGeneration,
    /// Attempt the caller holds an I/O permit for.
    pub attempt: AttemptNo,
}

/// Arms the send fence. A crash after this commit is recovered as ambiguous.
#[derive(Debug, PartialEq, Eq)]
pub struct ArmDeliverySend {
    pub request: ArmDeliverySendRequest,
    pub event: EventId,
    pub now: Timestamp,
}

/// What the armed attempt's `delivery_attempts` row is overwritten with.
#[derive(Debug, Clone, Copy, PartialEq, Eq)]
pub struct ArmedUpdate {
    pub attempt_no: i64,
    pub state: &'static str,
    pub activation_armed_event_seq: i64,
}

impl ArmDeliverySend {
    /// Checks the generation fence, before the wake is read.
    pub fn fenced<F: Fn(&BindingLedger, BindingGeneration) -> Result<(), Conflict>>(
        &self,
        bindings: &BindingLedger,
        fence: &F,
    ) -> (r: Result<(), StoreError>)
        requires
            fence_total(*fence),
        ensures
            forall|rule: FenceRule| #[trigger]
                fence_is(*fence, rule) ==> r == gated(
                    rule(bindings@, self.request.binding_generation),
                ),
    {
        gate(fence(bindings, self.request.binding_generation))
    }

    /// Checks that the wake was created under the presented generation, before the obligation is read.
    pub fn same_generation(&self, wake: &BrowserWake) -> (r: Result<(), StoreError>)
        ensures
            r == generation_required(self.request.binding_generation, wake@),
    {
        require_generation(self.request.binding_generation, wake)
    }

    /// What arming comes to: the machine once armed, or nothing where it already is.
    pub open spec fn armed(
        self,
        wake: WakeView,
        obligation: ObligationView,
        target: TargetRule,
        machine: DeliveryMachine,
    ) -> Result<Applied<DeliveryView>, StoreError> {
        chain(
            gated(target(wake, obligation)),
            |_u: ()|
                attempted(
                    machine,
                    wake.delivery,
                    DeliveryEventView::ActivationArmed { attempt: self.request.attempt, at: self.now },
                ),
        )
    }

    /// Arms the attempt, re-verifying the target immediately before the send.
    pub fn arm<
        T: Fn(&BrowserWake, &Obligation) -> Result<(), Conflict>,
        A: Fn(&Delivery, &DeliveryEvent) -> DeliveryReply,
    >(&self, wake: &BrowserWake, obligation: &Obligation, target: &T, apply: &A) -> (r: Result<
        Applied<Delivery>,
        StoreError,
    >)
        requires
            forall|w: &BrowserWake, o: &Obligation| call_requires(*target, (w, o)),
            attempts_total(*apply),
        ensures
            forall|target_rule: TargetRule, machine: DeliveryMachine|
                #![trigger target_is(*target, target_rule), attempts_are(*apply, machine)]
                target_is(*target, target_rule) && attempts_are(*apply, machine) ==> attempted_view(r)
                    == self.armed(wake@, obligation@, target_rule, machine),
    {
        gate(target(wake, obligation))?;
        let event = DeliveryEvent::ActivationArmed { attempt: self.request.attempt, at: self.now };
        attempt(apply, &wake.delivery, &event)
    }

    /// The event of the arming.
    pub open spec fn armed_event(
        self,
        task: TaskId,
        obligation: ObligationId,
        revision: DeliveryRevision,
        rule: spec_fn(Seq<char>) -> bool,
    ) -> Result<EventView, StoreError> {
        chain(
            internal_fact(
                self.request.delivery_id.hex(),
                "armed"@ + "."@ + nat_text(self.request.attempt as nat),
                rule,
            ),
            |source: SourceView|
                Ok(
                    event_of(
                        self.event,
                        EventKind::BrowserDeliveryActivationArmed,
                        source,
                        self.now,
                        delivery_scope(task, obligation),
                        seq![
                            ("revision"@, MetaValue::Int(revision as int)),
                            ("attempt_no"@, MetaValue::Int(self.request.attempt as int)),
                        ],
                    ),
                ),
        )
    }

    /// Builds the event of the arming.
    pub fn event<S: Fn(&str) -> bool>(
        &self,
        task: TaskId,
        obligation: ObligationId,
        revision: DeliveryRevision,
        safe: &S,
    ) -> (r: Result<NewEvent, StoreError>)
        requires
            rule_total(*safe),
        ensures
            forall|rule: spec_fn(Seq<char>) -> bool| #[trigger]
                rule_is(*safe, rule) ==> event_view(r) == self.armed_event(
                    task,
                    obligation,
                    revision,
                    rule,
                ),
    {
        let number = nat_string(self.request.attempt as u64);
        let fence = join3("armed", ".", number.as_str());
        let hex = self.request.delivery_id.to_hex();
        let source = internal_source_text(
            hex.as_str(),
            fence.as_str(),
            safe,
        )?;
        let metadata = SafeMetadata::new().integer("revision", revision as i64).integer(
            "attempt_no",
            self.request.attempt as i64,
        );
        proof {
            assert(metadata@ =~= seq![
                ("revision"@, MetaValue::Int(revision as int)),
                ("attempt_no"@, MetaValue::Int(self.request.attempt as int)),
            ]);
        }
        Ok(
            new_event(
                self.event,
                EventKind::BrowserDeliveryActivationArmed,
                source,
                self.now,
                scope_of_delivery(task, obligation),
                metadata,
            ),
        )
    }

    /// The row of the arming, and the attempt that is answered.
    pub open spec fn armed_row(self, seq: EventSeq) -> Result<(ArmedUpdate, AttemptNo), StoreError> {
        chain(
            stored_seq(seq),
            |at: i64|
                Ok(
                    (
                        ArmedUpdate {
                            attempt_no: self.request.attempt as i64,
                            state: attempt_state_label(AttemptState::ActivationArmed),
                            activation_armed_event_seq: at,
                        },
                        self.request.attempt,
                    ),
                ),
        )
    }

    /// Builds the row of the arming, and answers the attempt.
    pub fn commit(&self, seq: EventSeq) -> (r: Result<(ArmedUpdate, AttemptNo), StoreError>)
        ensures
            r == self.armed_row(seq),
    {
        let at: i64 = store_seq(seq)?;
        Ok(
            (
                ArmedUpdate {
                    attempt_no: self.request.attempt as i64,
                    state: encode_attempt_state(AttemptState::ActivationArmed),
                    activation_armed_event_seq: at,
                },
                self.request.attempt,
            ),
        )
    }
}

// --- The outcome ---------------------------------------------------------------------------------------------

/// What an adapter observed after the send.
#[derive(Debug, PartialEq, Eq)]
pub enum DeliveryOutcome {
    /// Exact evidence binding the wake to a provider user message.
    Accepted {
        /// Opaque provider-native identity of the submitted user message.
        message: SafeToken,
    },
    /// Proven not to have submitted anything.
    Failed {
        /// The proven pre-submit class.
        failure: FailureClass,
    },
    /// The outcome could not be determined.
    Ambiguous {
        /// Why the outcome was lost.
        reason: AmbiguityReason,
    },
}

/// Recording what an attempt actually did.
#[derive(Debug, PartialEq, Eq)]
pub struct RecordDeliveryOutcomeRequest {
    /// The wake the attempt belongs to.
    pub delivery_id: DeliveryId,
    /// Attempt whose outcome is being recorded.
    pub attempt: AttemptNo,
    /// What was observed.
    pub outcome: DeliveryOutcome,
}

/// Records an attempt's outcome and freezes the revision when it must be.
#[derive(Debug, PartialEq, Eq)]
pub struct RecordDeliveryOutcome {
    pub request: RecordDeliveryOutcomeRequest,
    pub event: EventId,
    /// Minted for the resolution an acceptance implies.
    pub resolution_event: EventId,
    pub now: Timestamp,
}

/// What observing an outcome left to do.
#[derive(Debug, PartialEq, Eq)]
pub enum DeliveryStep {
    /// The outcome is already accounted for; this is the state that is reported.
    Settled(DeliveryState),
    /// The machine moves once its event is appended.
    Moves(Delivery),
}

/// A step on values alone.
pub enum DeliveryStepView {
    Settled(DeliveryState),
    Moves(DeliveryView),
}

/// A step that was found, on values alone, or the failure.
pub open spec fn delivery_step_view(r: Result<DeliveryStep, StoreError>) -> Result<
    DeliveryStepView,
    StoreError,
> {
    match r {
        Ok(DeliveryStep::Settled(state)) => Ok(DeliveryStepView::Settled(state)),
        Ok(DeliveryStep::Moves(next)) => Ok(DeliveryStepView::Moves(next@)),
        Err(e) => Err(e),
    }
}

/// What an answer of the attempt machine leaves to do.
pub open spec fn delivery_step_of(
    machine: DeliveryMachine,
    delivery: DeliveryView,
    event: DeliveryEventView,
) -> Result<DeliveryStepView, StoreError> {
    chain(
        attempted(machine, delivery, event),
        |applied: Applied<DeliveryView>|
            Ok(
                match applied {
                    Applied::Duplicate => DeliveryStepView::Settled(delivery.state),
                    Applied::Advanced(next) => DeliveryStepView::Moves(next),
                },
            ),
    )
}

fn delivery_step<A: Fn(&Delivery, &DeliveryEvent) -> DeliveryReply>(
    apply: &A,
    delivery: &Delivery,
    event: &DeliveryEvent,
) -> (r: Result<DeliveryStep, StoreError>)
    requires
        attempts_total(*apply),
    ensures
        forall|machine: DeliveryMachine| #[trigger]
            attempts_are(*apply, machine) ==> delivery_step_view(r) == delivery_step_of(
                machine,
                delivery@,
                event@,
            ),
{
    match attempt(apply, delivery, event)? {
        Applied::Duplicate => Ok(DeliveryStep::Settled(delivery.state)),
        Applied::Advanced(next) => Ok(DeliveryStep::Moves(next)),
    }
}

/// What the terminal attempt's `delivery_attempts` row is overwritten with.
#[derive(Debug, Clone, Copy, PartialEq, Eq)]
pub struct AttemptOutcome {
    pub attempt_no: i64,
    pub state: &'static str,
    pub terminal_event_seq: i64,
    pub finished_at_ms: i64,
    pub failure_class: Option<&'static str>,
    pub evidence_class: Option<&'static str>,
}

/// The rows of an outcome, and whether an acceptance resolves the attention about the foreman.
#[derive(Debug, PartialEq, Eq)]
pub struct OutcomeRows {
    pub attempt: AttemptOutcome,
    pub delivery: DeliveryUpdate,
    pub resolves_unreachable: bool,
}

/// The label of an optional failure class.
pub open spec fn optional_failure_label(failure: Option<FailureClass>) -> Option<&'static str> {
    match failure {
        Some(class) => Some(failure_class_label(class)),
        None => None,
    }
}

/// The label of an optional ambiguity.
pub open spec fn optional_ambiguity_label(reason: Option<AmbiguityReason>) -> Option<&'static str> {
    match reason {
        Some(class) => Some(ambiguity_label(class)),
        None => None,
    }
}

/// The label of an optional ambiguity.
pub fn encode_optional_ambiguity(reason: Option<AmbiguityReason>) -> (r: Option<&'static str>)
    ensures
        r == optional_ambiguity_label(reason),
{
    match reason {
        Some(class) => Some(encode_ambiguity(class)),
        None => None,
    }
}

/// The first attempt of a number.
pub open spec fn attempt_numbered(attempts: Seq<Attempt>, number: AttemptNo) -> Option<Attempt>
    decreases attempts.len(),
{
    if attempts.len() == 0 {
        None
    } else if attempts[0].number == number {
        Some(attempts[0])
    } else {
        attempt_numbered(attempts.drop_first(), number)
    }
}

fn find_attempt(attempts: &Vec<Attempt>, number: AttemptNo) -> (r: Option<Attempt>)
    ensures
        r == attempt_numbered(attempts@, number),
{
    let mut i: usize = 0;
    proof {
        assert(attempts@.skip(0) =~= attempts@);
    }
    while i < attempts.len()
        invariant
            i <= attempts@.len(),
            attempt_numbered(attempts@, number) == attempt_numbered(attempts@.skip(i as int), number),
        decreases attempts@.len() - i,
    {
        let candidate = attempts[i];
        proof {
            assert(attempts@.skip(i as int)[0] == candidate);
            assert(attempts@.skip(i as int).drop_first() =~= attempts@.skip(i + 1));
        }
        if candidate.number == number {
            return Some(candidate);
        }
        i = i + 1;
    }
    None
}

impl RecordDeliveryOutcome {
    /// Whether the bound conversation has to be read: the outcome is an acceptance, and the wake
    /// carries no evidence yet.
    pub open spec fn needs_conversation(self, wake: WakeView) -> bool {
        self.request.outcome is Accepted && wake.delivery.accepted_evidence is None
    }

    /// Whether the bound conversation has to be read.
    pub fn needs_binding(&self, wake: &BrowserWake) -> (r: bool)
        ensures
            r == self.needs_conversation(wake@),
    {
        let accepted: bool = match self.request.outcome {
            DeliveryOutcome::Accepted { .. } => true,
            _ => false,
        };
        accepted && wake.delivery.accepted_evidence.is_none()
    }

    /// The kind of event the outcome is.
    pub open spec fn kind(self) -> EventKind {
        match self.request.outcome {
            DeliveryOutcome::Accepted { .. } => EventKind::BrowserDeliveryAccepted,
            DeliveryOutcome::Failed { .. } => EventKind::BrowserDeliveryFailed,
            DeliveryOutcome::Ambiguous { .. } => EventKind::BrowserDeliveryAmbiguous,
        }
    }

    /// The transition asked of the attempt machine.
    ///
    /// The conversation half of the evidence is the wake's own or the bound surface's, never the
    /// adapter's to assert.
    pub open spec fn transition(self, wake: WakeView, bound: Option<Seq<char>>) -> DeliveryEventView {
        match self.request.outcome {
            DeliveryOutcome::Accepted { message } => DeliveryEventView::AttemptAccepted {
                attempt: self.request.attempt,
                evidence: (
                    match wake.delivery.accepted_evidence {
                        Some(evidence) => evidence.0,
                        None => bound->0,
                    },
                    message@,
                ),
                at: self.now,
            },
            DeliveryOutcome::Failed { failure } => DeliveryEventView::AttemptFailed {
                attempt: self.request.attempt,
                failure,
                at: self.now,
            },
            DeliveryOutcome::Ambiguous { reason } => DeliveryEventView::AttemptAmbiguous {
                attempt: self.request.attempt,
                reason,
                at: self.now,
            },
        }
    }

    /// Asks the attempt machine about the outcome.
    pub fn observe<A: Fn(&Delivery, &DeliveryEvent) -> DeliveryReply>(
        &self,
        wake: &BrowserWake,
        bound: &Option<SafeToken>,
        apply: &A,
    ) -> (r: Result<DeliveryStep, StoreError>)
        requires
            attempts_total(*apply),
            self.needs_conversation(wake@) ==> bound is Some,
        ensures
            forall|machine: DeliveryMachine| #[trigger]
                attempts_are(*apply, machine) ==> delivery_step_view(r) == delivery_step_of(
                    machine,
                    wake@.delivery,
                    self.transition(
                        wake@,
                        match *bound {
                            Some(token) => Some(token@),
                            None => None,
                        },
                    ),
                ),
    {
        let event = match &self.request.outcome {
            DeliveryOutcome::Accepted { message } => {
                let conversation = match &wake.delivery.accepted_evidence {
                    Some(evidence) => evidence.conversation.clone(),
                    None => match bound {
                        Some(token) => token.clone(),
                        None => {
                            proof {
                                assert(false);
                            }
                            message.clone()
                        },
                    },
                };
                DeliveryEvent::AttemptAccepted {
                    attempt: self.request.attempt,
                    evidence: AcceptedWakeEvidence { conversation, message: message.clone() },
                    at: self.now,
                }
            },
            DeliveryOutcome::Failed { failure } => DeliveryEvent::AttemptFailed {
                attempt: self.request.attempt,
                failure: *failure,
                at: self.now,
            },
            DeliveryOutcome::Ambiguous { reason } => DeliveryEvent::AttemptAmbiguous {
                attempt: self.request.attempt,
                reason: *reason,
                at: self.now,
            },
        };
        delivery_step(apply, &wake.delivery, &event)
    }

    /// What the event of the outcome records first.
    pub open spec fn evidence_field(self) -> (Seq<char>, MetaValue) {
        match self.request.outcome {
            DeliveryOutcome::Accepted { message } => ("message_ref"@, MetaValue::Text(message@)),
            DeliveryOutcome::Failed { failure } => {
                ("failure_class"@, MetaValue::Text(failure_class_label(failure)@))
            },
            DeliveryOutcome::Ambiguous { reason } => {
                ("evidence_class"@, MetaValue::Text(ambiguity_label(reason)@))
            },
        }
    }

    /// The event of the outcome.
    pub open spec fn outcome_event(
        self,
        task: TaskId,
        obligation: ObligationId,
        revision: DeliveryRevision,
        rule: spec_fn(Seq<char>) -> bool,
    ) -> Result<EventView, StoreError> {
        chain(
            internal_fact(
                self.request.delivery_id.hex(),
                kind_label(self.kind())@ + "."@ + nat_text(self.request.attempt as nat),
                rule,
            ),
            |source: SourceView|
                Ok(
                    event_of(
                        self.event,
                        self.kind(),
                        source,
                        self.now,
                        delivery_scope(task, obligation),
                        seq![
                            self.evidence_field(),
                            ("revision"@, MetaValue::Int(revision as int)),
                            ("attempt_no"@, MetaValue::Int(self.request.attempt as int)),
                        ],
                    ),
                ),
        )
    }

    /// Builds the event of the outcome.
    pub fn event<S: Fn(&str) -> bool>(
        &self,
        task: TaskId,
        obligation: ObligationId,
        revision: DeliveryRevision,
        safe: &S,
    ) -> (r: Result<NewEvent, StoreError>)
        requires
            rule_total(*safe),
        ensures
            forall|rule: spec_fn(Seq<char>) -> bool| #[trigger]
                rule_is(*safe, rule) ==> event_view(r) == self.outcome_event(
                    task,
                    obligation,
                    revision,
                    rule,
                ),
    {
        let (kind, evidence) = match &self.request.outcome {
            DeliveryOutcome::Accepted { message } => (
                EventKind::BrowserDeliveryAccepted,
                SafeMetadata::new().token("message_ref", message),
            ),
            DeliveryOutcome::Failed { failure } => (
                EventKind::BrowserDeliveryFailed,
                SafeMetadata::new().label("failure_class", encode_failure_class(*failure)),
            ),
            DeliveryOutcome::Ambiguous { reason } => (
                EventKind::BrowserDeliveryAmbiguous,
                SafeMetadata::new().label("evidence_class", encode_ambiguity(*reason)),
            ),
        };
        let number = nat_string(self.request.attempt as u64);
        let fence = join3(kind.label(), ".", number.as_str());
        let hex = self.request.delivery_id.to_hex();
        let source = internal_source_text(
            hex.as_str(),
            fence.as_str(),
            safe,
        )?;
        let metadata = evidence.integer("revision", revision as i64).integer(
            "attempt_no",
            self.request.attempt as i64,
        );
        proof {
            assert(metadata@ =~= seq![
                self.evidence_field(),
                ("revision"@, MetaValue::Int(revision as int)),
                ("attempt_no"@, MetaValue::Int(self.request.attempt as int)),
            ]);
        }
        Ok(
            new_event(
                self.event,
                kind,
                source,
                self.now,
                scope_of_delivery(task, obligation),
                metadata,
            ),
        )
    }

    /// The message an acceptance records.
    pub open spec fn accepted_message(self) -> Option<SafeToken> {
        match self.request.outcome {
            DeliveryOutcome::Accepted { message } => Some(message),
            _ => None,
        }
    }

    /// The rows of the outcome, and the state that is reported.
    pub open spec fn committed(self, next: DeliveryView, seq: EventSeq) -> Result<
        (OutcomeRows, DeliveryState),
        StoreError,
    > {
        match attempt_numbered(next.attempts, self.request.attempt) {
            None => Err(
                StoreError::Conflict(Conflict::UnknownAttempt { attempt: self.request.attempt }),
            ),
            Some(attempt) => chain(
                stored_seq(seq),
                |at: i64|
                    chain(
                        delivery_row(next, self.accepted_message(), Some(seq)),
                        |row: DeliveryUpdate|
                            Ok(
                                (
                                    OutcomeRows {
                                        attempt: AttemptOutcome {
                                            attempt_no: self.request.attempt as i64,
                                            state: attempt_state_label(attempt.state),
                                            terminal_event_seq: at,
                                            finished_at_ms: self.now,
                                            failure_class: optional_failure_label(attempt.failure),
                                            evidence_class: optional_ambiguity_label(
                                                attempt.ambiguity,
                                            ),
                                        },
                                        delivery: row,
                                        resolves_unreachable: self.request.outcome is Accepted,
                                    },
                                    next.state,
                                ),
                            ),
                    ),
            ),
        }
    }

    /// Builds the rows of the outcome.
    pub fn commit(&self, next: &Delivery, seq: EventSeq) -> (r: Result<
        (OutcomeRows, DeliveryState),
        StoreError,
    >)
        ensures
            r == self.committed(next@, seq),
    {
        let found = match find_attempt(&next.attempts, self.request.attempt) {
            None => return Err(
                StoreError::Conflict(Conflict::UnknownAttempt { attempt: self.request.attempt }),
            ),
            Some(found) => found,
        };
        let at: i64 = store_seq(seq)?;
        let (message, accepted) = match &self.request.outcome {
            DeliveryOutcome::Accepted { message } => (Some(message.clone()), true),
            _ => (None, false),
        };
        let delivery = set_delivery_state(next, message, Some(seq))?;
        Ok(
            (
                OutcomeRows {
                    attempt: AttemptOutcome {
                        attempt_no: self.request.attempt as i64,
                        state: encode_attempt_state(found.state),
                        terminal_event_seq: at,
                        finished_at_ms: self.now,
                        failure_class: match found.failure {
                            Some(class) => Some(encode_failure_class(class)),
                            None => None,
                        },
                        evidence_class: encode_optional_ambiguity(found.ambiguity),
                    },
                    delivery,
                    resolves_unreachable: accepted,
                },
                next.state,
            ),
        )
    }
}

// --- Reconciliation ------------------------------------------------------------------------------------------

/// Exact later evidence that an ambiguous revision did in fact submit. Every field is a fence.
#[derive(Debug, PartialEq, Eq)]
pub struct ReconcileAmbiguousDeliveryRequest {
    /// The random correlation identity of the ambiguous revision.
    pub delivery_id: DeliveryId,
    /// Binding generation the evidence was observed under. Must be current.
    pub binding_generation: BindingGeneration,
    /// Conversation the message was observed in. Must be the bound one.
    pub conversation: SafeToken,
    /// Provider-native identity of the user message that was found.
    pub message: SafeToken,
}

/// Promotes an ambiguous revision to accepted on exact evidence. No send.
#[derive(Debug, PartialEq, Eq)]
pub struct ReconcileAmbiguousDelivery {
    pub request: ReconcileAmbiguousDeliveryRequest,
    pub event: EventId,
    /// Minted for the resolution an acceptance implies.
    pub resolution_event: EventId,
    pub now: Timestamp,
}

/// The rows of a reconciliation.
#[derive(Debug, PartialEq, Eq)]
pub struct ReconciledRows {
    /// Attempts the machine holds as accepted; each row changes only from `ambiguous`.
    pub promoted: Vec<i64>,
    pub state: &'static str,
    pub finished_at_ms: i64,
    pub delivery: DeliveryUpdate,
}

/// The rows of a reconciliation on values alone, with the state that is answered.
#[verifier::ext_equal]
pub struct PromotedView {
    pub promoted: Seq<i64>,
    pub state: &'static str,
    pub finished_at_ms: i64,
    pub delivery: DeliveryUpdate,
    pub answer: DeliveryState,
}

/// The numbers of the attempts a machine holds as accepted, in order.
pub open spec fn accepted_numbers(attempts: Seq<Attempt>) -> Seq<i64>
    decreases attempts.len(),
{
    if attempts.len() == 0 {
        Seq::empty()
    } else {
        let before = accepted_numbers(attempts.drop_last());
        if attempts.last().state is Accepted {
            before.push(attempts.last().number as i64)
        } else {
            before
        }
    }
}

impl ReconcileAmbiguousDelivery {
    /// The bound conversation, where the generation is current, before the wake is read.
    pub fn conversation<F: Fn(&BindingLedger, BindingGeneration) -> Result<(), Conflict>>(
        &self,
        bindings: &BindingLedger,
        fence: &F,
    ) -> (r: Result<SafeToken, StoreError>)
        requires
            fence_total(*fence),
        ensures
            forall|rule: FenceRule| #[trigger]
                fence_is(*fence, rule) ==> (match r {
                    Ok(conversation) => fenced_conversation(
                        bindings@,
                        self.request.binding_generation,
                        rule,
                    ) == Ok::<Seq<char>, StoreError>(conversation@),
                    Err(e) => fenced_conversation(bindings@, self.request.binding_generation, rule)
                        == Err::<Seq<char>, StoreError>(e),
                }),
    {
        binding_conversation(bindings, self.request.binding_generation, fence)
    }

    /// What must hold of the wake: it was created under the presented generation, and the presented
    /// conversation is the bound one.
    ///
    /// A wrong conversation is refused exactly as an unknown identity is.
    pub open spec fn named(self, wake: WakeView, bound: Seq<char>) -> Result<(), StoreError> {
        chain(
            generation_required(self.request.binding_generation, wake),
            |_u: ()|
                if bound != self.request.conversation@ {
                    Err(StoreError::Conflict(Conflict::UnknownDeliveryId))
                } else {
                    Ok(())
                },
        )
    }

    /// Checks what must hold of the wake, before the obligation is read.
    pub fn check(&self, wake: &BrowserWake, bound: &SafeToken) -> (r: Result<(), StoreError>)
        ensures
            r == self.named(wake@, bound@),
    {
        require_generation(self.request.binding_generation, wake)?;
        if bound.same_as(&self.request.conversation) {
            Ok(())
        } else {
            Err(StoreError::Conflict(Conflict::UnknownDeliveryId))
        }
    }

    /// The transition asked of the attempt machine; the conversation is the binding's own.
    pub open spec fn transition(self, bound: Seq<char>) -> DeliveryEventView {
        DeliveryEventView::ReconciledAccepted {
            evidence: (bound, self.request.message@),
            at: self.now,
        }
    }

    /// Asks the attempt machine about the promotion.
    pub fn promote<A: Fn(&Delivery, &DeliveryEvent) -> DeliveryReply>(
        &self,
        wake: &BrowserWake,
        bound: &SafeToken,
        apply: &A,
    ) -> (r: Result<DeliveryStep, StoreError>)
        requires
            attempts_total(*apply),
        ensures
            forall|machine: DeliveryMachine| #[trigger]
                attempts_are(*apply, machine) ==> delivery_step_view(r) == delivery_step_of(
                    machine,
                    wake@.delivery,
                    self.transition(bound@),
                ),
    {
        let event = DeliveryEvent::ReconciledAccepted {
            evidence: AcceptedWakeEvidence {
                conversation: bound.clone(),
                message: self.request.message.clone(),
            },
            at: self.now,
        };
        delivery_step(apply, &wake.delivery, &event)
    }

    /// The event of the promotion.
    pub open spec fn reconciled_event(
        self,
        task: TaskId,
        obligation: ObligationId,
        revision: DeliveryRevision,
        rule: spec_fn(Seq<char>) -> bool,
    ) -> Result<EventView, StoreError> {
        chain(
            internal_fact(
                self.request.delivery_id.hex(),
                "reconciled"@ + "."@ + nat_text(revision as nat),
                rule,
            ),
            |source: SourceView|
                Ok(
                    event_of(
                        self.event,
                        EventKind::BrowserDeliveryReconciled,
                        source,
                        self.now,
                        delivery_scope(task, obligation),
                        seq![
                            ("revision"@, MetaValue::Int(revision as int)),
                            ("message_ref"@, MetaValue::Text(self.request.message@)),
                        ],
                    ),
                ),
        )
    }

    /// Builds the event of the promotion.
    pub fn event<S: Fn(&str) -> bool>(
        &self,
        task: TaskId,
        obligation: ObligationId,
        revision: DeliveryRevision,
        safe: &S,
    ) -> (r: Result<NewEvent, StoreError>)
        requires
            rule_total(*safe),
        ensures
            forall|rule: spec_fn(Seq<char>) -> bool| #[trigger]
                rule_is(*safe, rule) ==> event_view(r) == self.reconciled_event(
                    task,
                    obligation,
                    revision,
                    rule,
                ),
    {
        let number = nat_string(revision as u64);
        let fence = join3("reconciled", ".", number.as_str());
        let hex = self.request.delivery_id.to_hex();
        let source = internal_source_text(
            hex.as_str(),
            fence.as_str(),
            safe,
        )?;
        let metadata = SafeMetadata::new().integer("revision", revision as i64).token(
            "message_ref",
            &self.request.message,
        );
        proof {
            assert(metadata@ =~= seq![
                ("revision"@, MetaValue::Int(revision as int)),
                ("message_ref"@, MetaValue::Text(self.request.message@)),
            ]);
        }
        Ok(
            new_event(
                self.event,
                EventKind::BrowserDeliveryReconciled,
                source,
                self.now,
                scope_of_delivery(task, obligation),
                metadata,
            ),
        )
    }

    /// The rows of the promotion, and the state that is answered.
    pub open spec fn promoted(self, next: DeliveryView, seq: EventSeq) -> Result<
        PromotedView,
        StoreError,
    > {
        chain(
            delivery_row(next, Some(self.request.message), Some(seq)),
            |delivery: DeliveryUpdate|
                Ok(
                    PromotedView {
                        promoted: accepted_numbers(next.attempts),
                        state: attempt_state_label(AttemptState::Accepted),
                        finished_at_ms: self.now,
                        delivery,
                        answer: next.state,
                    },
                ),
        )
    }

    /// Builds the rows of the promotion, and answers the state.
    pub fn commit(&self, next: &Delivery, seq: EventSeq) -> (r: Result<
        (ReconciledRows, DeliveryState),
        StoreError,
    >)
        ensures
            match r {
                Ok((rows, state)) => self.promoted(next@, seq) == Ok::<PromotedView, StoreError>(
                    PromotedView {
                        promoted: rows.promoted@,
                        state: rows.state,
                        finished_at_ms: rows.finished_at_ms,
                        delivery: rows.delivery,
                        answer: state,
                    },
                ),
                Err(e) => self.promoted(next@, seq) == Err::<PromotedView, StoreError>(e),
            },
    {
        let mut promoted: Vec<i64> = Vec::new();
        let mut i: usize = 0;
        while i < next.attempts.len()
            invariant
                i <= next.attempts@.len(),
                promoted@ == accepted_numbers(next.attempts@.take(i as int)),
            decreases next.attempts@.len() - i,
        {
            let candidate = next.attempts[i];
            proof {
                assert(next.attempts@.take(i + 1).drop_last() =~= next.attempts@.take(i as int));
                assert(next.attempts@.take(i + 1).last() == candidate);
            }
            match candidate.state {
                AttemptState::Accepted => {
                    promoted.push(candidate.number as i64);
                },
                _ => {},
            }
            i = i + 1;
        }
        proof {
            assert(next.attempts@.take(i as int) =~= next.attempts@);
        }
        let delivery = set_delivery_state(next, Some(self.request.message.clone()), Some(seq))?;
        Ok(
            (
                ReconciledRows {
                    promoted,
                    state: encode_attempt_state(AttemptState::Accepted),
                    finished_at_ms: self.now,
                    delivery,
                },
                next.state,
            ),
        )
    }
}

// --- Laws ------------------------------------------------------------------------------------------------------

/// Duplicate scheduling converges: a revision the key finds keeps the identity it was created with,
/// inserts no second row, and discards the identity that was drawn.
pub proof fn a_found_revision_keeps_its_identity(
    op: CreateOrClaimDelivery,
    found: WakeView,
    loaded: LoadedView,
    binding: ForemanBindingId,
    target: TargetRule,
    model: WakeModel,
)
    ensures
        op.scheduled(Some(found), loaded, binding, model) == Ok::<
            (WakeView, Option<DeliveryInsertView>),
            StoreError,
        >((found, None)),
        op.claimed(found, None, loaded.projection, target, model.apply) matches Ok(plan) ==> plan.wake
            == found && plan.insert is None,
{
}

/// A wake whose target moved on is never claimed and never armed: the target's refusal is the answer.
pub proof fn a_stale_target_is_never_sent(
    claim: CreateOrClaimDelivery,
    arm: ArmDeliverySend,
    wake: WakeView,
    insert: Option<DeliveryInsertView>,
    obligation: ObligationView,
    target: TargetRule,
    machine: DeliveryMachine,
)
    requires
        target(wake, obligation) is Err,
    ensures
        claim.claimed(wake, insert, obligation, target, machine) == Err::<ClaimPlanView, StoreError>(
            StoreError::Conflict(target(wake, obligation)->Err_0),
        ),
        arm.armed(wake, obligation, target, machine) == Err::<Applied<DeliveryView>, StoreError>(
            StoreError::Conflict(target(wake, obligation)->Err_0),
        ),
{
}

/// Probing learns nothing: a wrong conversation is refused exactly as an unknown identity is.
pub proof fn refusals_are_undifferentiated(op: ReconcileAmbiguousDelivery, wake: WakeView, bound: Seq<char>)
    requires
        wake.binding_generation == op.request.binding_generation,
        bound != op.request.conversation@,
    ensures
        op.named(wake, bound) == Err::<(), StoreError>(
            StoreError::Conflict(Conflict::UnknownDeliveryId),
        ),
{
}

/// A delivery row carries an accepted sequence only where it carries a terminal one, and only in
/// the accepted state.
pub proof fn accepted_rows_are_terminal(
    delivery: DeliveryView,
    message: Option<SafeToken>,
    seq: Option<EventSeq>,
)
    ensures
        delivery_row(delivery, message, seq) matches Ok(row) ==> {
            &&& row.accepted_event_seq is Some ==> delivery.state is Accepted
                && row.accepted_event_seq == row.terminal_event_seq
            &&& row.terminal_event_seq is Some ==> delivery.terminal
        },
{
}

} // verus!
