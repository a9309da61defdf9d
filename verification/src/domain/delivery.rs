//! Browser wakes and their attempts.
use vstd::prelude::*;
use crate::digest::{hex_string, hex_text};
use crate::domain::conflict::Conflict;
use crate::domain::fence::{
    rule_is, rule_total, AttemptNo, BindingGeneration, DeliveryRevision, ObligationVersion,
    SafeToken, SourceRef, SourceView, Timestamp,
};
use crate::domain::id::{ForemanBindingId, ObligationId};
use crate::domain::obligation::{reply_view, Applied, Obligation, ObligationView};

verus! {

/// Aggregate state of one wake revision.
#[derive(Debug, Clone, Copy, PartialEq, Eq, Structural)]
pub enum DeliveryState {
    Pending,
    Claimed,
    Accepted,
    Failed,
    Ambiguous,
}

/// State of one attempt.
#[derive(Debug, Clone, Copy, PartialEq, Eq, Structural)]
pub enum AttemptState {
    Claimed,
    ActivationArmed,
    Accepted,
    Failed,
    Ambiguous,
}

/// Proof that nothing was submitted.
#[derive(Debug, Clone, Copy, PartialEq, Eq, Structural)]
pub enum FailureClass {
    TargetNotFound,
    StaleTarget,
    WrongConversation,
    AppNotSelected,
    ComposerNotReady,
    NavigationBlocked,
    ActivationRefused,
    TransportRejectedBeforeSend,
}

/// Why the outcome of an attempt was lost.
#[derive(Debug, Clone, Copy, PartialEq, Eq, Structural)]
pub enum AmbiguityReason {
    OrphanedByRestart,
    ObservationLost,
    EvidenceInconclusive,
    ActivationTimedOut,
}

/// One attempt of a revision.
#[derive(Debug, Clone, Copy, PartialEq, Eq, Structural)]
pub struct Attempt {
    pub number: AttemptNo,
    pub state: AttemptState,
    pub failure: Option<FailureClass>,
    pub ambiguity: Option<AmbiguityReason>,
}

/// Exact evidence binding a wake to a provider message.
#[derive(Debug, PartialEq, Eq)]
pub struct AcceptedWakeEvidence {
    pub conversation: SafeToken,
    pub message: SafeToken,
}

/// The attempt machine of one revision.
#[derive(Debug, PartialEq, Eq)]
pub struct Delivery {
    pub attempt_budget: u32,
    pub attempts: Vec<Attempt>,
    pub state: DeliveryState,
    /// Whether the machine counts the state as terminal.
    pub terminal: bool,
    pub accepted_evidence: Option<AcceptedWakeEvidence>,
}

/// One transition asked of the attempt machine.
#[derive(Debug, PartialEq, Eq)]
#[allow(inconsistent_fields)]
pub enum DeliveryEvent {
    AttemptClaimed { at: Timestamp },
    ActivationArmed { attempt: AttemptNo, at: Timestamp },
    AttemptAccepted { attempt: AttemptNo, evidence: AcceptedWakeEvidence, at: Timestamp },
    AttemptFailed { attempt: AttemptNo, failure: FailureClass, at: Timestamp },
    AttemptAmbiguous { attempt: AttemptNo, reason: AmbiguityReason, at: Timestamp },
    OrphanQuarantined { at: Timestamp },
    ReconciledAccepted { evidence: AcceptedWakeEvidence, at: Timestamp },
}

/// What the attempt machine answers to one event.
pub type DeliveryReply = Result<Applied<Delivery>, Conflict>;

/// The random correlation identity of a wake: a possession fence, never shown.
#[derive(Debug, PartialEq, Eq)]
pub struct DeliveryId {
    /// The bytes that were drawn.
    pub bytes: Vec<u8>,
}

impl DeliveryId {
    /// The persisted hexadecimal form.
    pub open spec fn hex(self) -> Seq<char> {
        hex_text(self.bytes@)
    }

    /// The persisted hexadecimal form.
    pub fn to_hex(&self) -> (r: String)
        ensures
            r@ == self.hex(),
    {
        hex_string(self.bytes.as_slice())
    }
}

/// The obligation snapshot a wake was scheduled against.
#[derive(Debug, PartialEq, Eq)]
pub struct WakeTarget {
    pub obligation: ObligationId,
    pub version: ObligationVersion,
    pub source: SourceRef,
}

/// One wake revision.
#[derive(Debug, PartialEq, Eq)]
pub struct BrowserWake {
    /// The persisted hexadecimal form of the correlation identity.
    pub delivery_hex: String,
    /// The deterministic key, in hexadecimal. Not a secret.
    pub key_hex: String,
    pub target: WakeTarget,
    pub binding: ForemanBindingId,
    pub binding_generation: BindingGeneration,
    pub revision: DeliveryRevision,
    pub delivery: Delivery,
}

// --- On values alone ---------------------------------------------------------------------------

/// Evidence on values alone: conversation and message.
pub type EvidenceView = (Seq<char>, Seq<char>);

impl View for AcceptedWakeEvidence {
    type V = EvidenceView;

    open spec fn view(&self) -> EvidenceView {
        (self.conversation@, self.message@)
    }
}

/// An attempt machine on values alone.
#[verifier::ext_equal]
pub struct DeliveryView {
    pub attempt_budget: u32,
    pub attempts: Seq<Attempt>,
    pub state: DeliveryState,
    pub terminal: bool,
    pub accepted_evidence: Option<EvidenceView>,
}

impl View for Delivery {
    type V = DeliveryView;

    open spec fn view(&self) -> DeliveryView {
        DeliveryView {
            attempt_budget: self.attempt_budget,
            attempts: self.attempts@,
            state: self.state,
            terminal: self.terminal,
            accepted_evidence: match self.accepted_evidence {
                Some(evidence) => Some(evidence@),
                None => None,
            },
        }
    }
}

/// One transition on values alone.
#[allow(inconsistent_fields)]
pub enum DeliveryEventView {
    AttemptClaimed { at: Timestamp },
    ActivationArmed { attempt: AttemptNo, at: Timestamp },
    AttemptAccepted { attempt: AttemptNo, evidence: EvidenceView, at: Timestamp },
    AttemptFailed { attempt: AttemptNo, failure: FailureClass, at: Timestamp },
    AttemptAmbiguous { attempt: AttemptNo, reason: AmbiguityReason, at: Timestamp },
    OrphanQuarantined { at: Timestamp },
    ReconciledAccepted { evidence: EvidenceView, at: Timestamp },
}

impl View for DeliveryEvent {
    type V = DeliveryEventView;

    open spec fn view(&self) -> DeliveryEventView {
        match *self {
            DeliveryEvent::AttemptClaimed { at } => DeliveryEventView::AttemptClaimed { at },
            DeliveryEvent::ActivationArmed { attempt, at } => {
                DeliveryEventView::ActivationArmed { attempt, at }
            },
            DeliveryEvent::AttemptAccepted { attempt, evidence, at } => {
                DeliveryEventView::AttemptAccepted { attempt, evidence: evidence@, at }
            },
            DeliveryEvent::AttemptFailed { attempt, failure, at } => {
                DeliveryEventView::AttemptFailed { attempt, failure, at }
            },
            DeliveryEvent::AttemptAmbiguous { attempt, reason, at } => {
                DeliveryEventView::AttemptAmbiguous { attempt, reason, at }
            },
            DeliveryEvent::OrphanQuarantined { at } => DeliveryEventView::OrphanQuarantined { at },
            DeliveryEvent::ReconciledAccepted { evidence, at } => {
                DeliveryEventView::ReconciledAccepted { evidence: evidence@, at }
            },
        }
    }
}

/// A wake revision on values alone.
#[verifier::ext_equal]
pub struct WakeView {
    pub delivery_hex: Seq<char>,
    pub key_hex: Seq<char>,
    pub obligation: ObligationId,
    pub version: ObligationVersion,
    pub source: SourceView,
    pub binding: ForemanBindingId,
    pub binding_generation: BindingGeneration,
    pub revision: DeliveryRevision,
    pub delivery: DeliveryView,
}

impl View for BrowserWake {
    type V = WakeView;

    open spec fn view(&self) -> WakeView {
        WakeView {
            delivery_hex: self.delivery_hex@,
            key_hex: self.key_hex@,
            obligation: self.target.obligation,
            version: self.target.version,
            source: self.target.source@,
            binding: self.binding,
            binding_generation: self.binding_generation,
            revision: self.revision,
            delivery: self.delivery@,
        }
    }
}

// --- The domain's rules, as a value ----------------------------------------------------------------

/// The attempt machine and what surrounds it, as the domain supplies them.
pub struct WakeRules<A, P, K, I, H, S> {
    /// Applies one event to an attempt machine.
    pub apply: A,
    /// A fresh attempt machine with a budget.
    pub pending: P,
    /// The deterministic key of a scheduling tuple, in hexadecimal.
    pub derive: K,
    /// Whether a text is the persisted form of a correlation identity.
    pub known_id: I,
    /// Whether a persisted wake can be rehydrated.
    pub rehydrates: H,
    /// Whether a text is a redaction-safe token.
    pub safe: S,
}

/// What the domain's rules answer.
pub struct WakeModel {
    pub apply: DeliveryMachine,
    pub pending: spec_fn(u32) -> DeliveryView,
    pub derive: spec_fn(ObligationId, BindingGeneration, DeliveryRevision) -> Seq<char>,
    pub known_id: spec_fn(Seq<char>) -> bool,
    pub rehydrates: spec_fn(WakeView) -> bool,
    pub rule: spec_fn(Seq<char>) -> bool,
}

impl<
    A: Fn(&Delivery, &DeliveryEvent) -> DeliveryReply,
    P: Fn(u32) -> Delivery,
    K: Fn(ObligationId, BindingGeneration, DeliveryRevision) -> String,
    I: Fn(&str) -> bool,
    H: Fn(&BrowserWake) -> bool,
    S: Fn(&str) -> bool,
> WakeRules<A, P, K, I, H, S> {
    /// Whether the rules can be asked about everything.
    pub open spec fn total(self) -> bool {
        &&& attempts_total(self.apply)
        &&& forall|b: u32| call_requires(self.pending, (b,))
        &&& forall|o: ObligationId, g: BindingGeneration, v: DeliveryRevision|
            call_requires(self.derive, (o, g, v))
        &&& forall|t: &str| call_requires(self.known_id, (t,))
        &&& forall|w: &BrowserWake| call_requires(self.rehydrates, (w,))
        &&& rule_total(self.safe)
    }

    /// Whether the rules answer as the model says.
    pub open spec fn follows(self, model: WakeModel) -> bool {
        &&& attempts_are(self.apply, model.apply)
        &&& forall|b: u32, r: Delivery| #[trigger]
            call_ensures(self.pending, (b,), r) ==> r@ == (model.pending)(b)
        &&& forall|o: ObligationId, g: BindingGeneration, v: DeliveryRevision, r: String| #[trigger]
            call_ensures(self.derive, (o, g, v), r) ==> r@ == (model.derive)(o, g, v)
        &&& forall|t: &str, r: bool| #[trigger]
            call_ensures(self.known_id, (t,), r) ==> r == (model.known_id)(t@)
        &&& forall|w: &BrowserWake, r: bool| #[trigger]
            call_ensures(self.rehydrates, (w,), r) ==> r == (model.rehydrates)(w@)
        &&& rule_is(self.safe, model.rule)
    }
}

// --- Gates -------------------------------------------------------------------------------------

/// What the attempt machine answers, on values alone.
pub type DeliveryMachine = spec_fn(DeliveryView, DeliveryEventView) -> Result<
    Applied<DeliveryView>,
    Conflict,
>;

/// Whether an executable attempt machine can be asked about everything.
pub open spec fn attempts_total<A: Fn(&Delivery, &DeliveryEvent) -> DeliveryReply>(apply: A) -> bool {
    forall|d: &Delivery, e: &DeliveryEvent| call_requires(apply, (d, e))
}

/// Whether an executable attempt machine answers as `machine` says.
pub open spec fn attempts_are<A: Fn(&Delivery, &DeliveryEvent) -> DeliveryReply>(
    apply: A,
    machine: DeliveryMachine,
) -> bool {
    forall|d: &Delivery, e: &DeliveryEvent, r: DeliveryReply| #[trigger]
        call_ensures(apply, (d, e), r) ==> reply_view(r) == machine(d@, e@)
}

/// Whether claiming an attempt always leaves one behind.
pub open spec fn claims_leave_an_attempt<A: Fn(&Delivery, &DeliveryEvent) -> DeliveryReply>(
    apply: A,
) -> bool {
    forall|d: &Delivery, e: &DeliveryEvent, r: DeliveryReply| #[trigger]
        call_ensures(apply, (d, e), r) ==> (e is AttemptClaimed ==> (r matches Ok(
            Applied::Advanced(next),
        ) ==> next.attempts@.len() > 0))
}

/// What the target gate answers, on values alone: the wake's snapshot is current, or why not.
pub type TargetRule = spec_fn(WakeView, ObligationView) -> Result<(), Conflict>;

/// Whether an executable target gate answers as `rule` says.
pub open spec fn target_is<T: Fn(&BrowserWake, &Obligation) -> Result<(), Conflict>>(
    gate: T,
    rule: TargetRule,
) -> bool {
    forall|w: &BrowserWake, o: &Obligation, r: Result<(), Conflict>| #[trigger]
        call_ensures(gate, (w, o), r) ==> r == rule(w@, o@)
}

} // verus!
