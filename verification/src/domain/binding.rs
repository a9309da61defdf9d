//! The foreman binding: which conversation the daemon may wake.
use vstd::prelude::*;
use crate::domain::conflict::Conflict;
use crate::domain::fence::{rule_is, rule_total, BindingGeneration, SafeToken, Timestamp};
use crate::domain::id::ForemanBindingId;
use crate::domain::obligation::{reply_view, Applied};

verus! {

/// Feature-tested write capability of the bound surface.
#[derive(Debug, Clone, Copy, PartialEq, Eq, Structural)]
pub enum WriteCapabilityState {
    Unknown,
    Proven,
    ReadFetchOnlyUnsupported,
    Lost,
    BlockedByConfirmation,
}

/// A conversation the browser adapter verified.
#[derive(Debug, PartialEq, Eq)]
pub struct VerifiedBindingTarget {
    pub id: ForemanBindingId,
    pub conversation: SafeToken,
    pub profile: SafeToken,
    pub connector_abi: SafeToken,
    pub capability_epoch: u64,
    pub write_capability: WriteCapabilityState,
}

/// The binding that is currently active.
#[derive(Debug, PartialEq, Eq)]
pub struct ActiveBinding {
    pub id: ForemanBindingId,
    pub generation: BindingGeneration,
    pub conversation: SafeToken,
}

/// What the binding ledger says.
#[derive(Debug, PartialEq, Eq)]
pub struct BindingLedger {
    /// Highest generation ever issued; zero before the first.
    pub highest: BindingGeneration,
    /// The active binding, if there is one.
    pub active: Option<ActiveBinding>,
}

/// One transition asked of the binding machine.
#[derive(Debug, PartialEq, Eq)]
#[allow(inconsistent_fields)]
pub enum BindingEvent {
    Bound { target: VerifiedBindingTarget, at: Timestamp },
    Displaced { generation: BindingGeneration, at: Timestamp },
}

/// What the binding machine answers to one event.
pub type BindingReply = Result<Applied<BindingLedger>, Conflict>;

// --- On values alone ---------------------------------------------------------------------------

/// A binding target on values alone.
#[verifier::ext_equal]
pub struct TargetView {
    pub id: ForemanBindingId,
    pub conversation: Seq<char>,
    pub profile: Seq<char>,
    pub connector_abi: Seq<char>,
    pub capability_epoch: u64,
    pub write_capability: WriteCapabilityState,
}

impl View for VerifiedBindingTarget {
    type V = TargetView;

    open spec fn view(&self) -> TargetView {
        TargetView {
            id: self.id,
            conversation: self.conversation@,
            profile: self.profile@,
            connector_abi: self.connector_abi@,
            capability_epoch: self.capability_epoch,
            write_capability: self.write_capability,
        }
    }
}

/// An active binding on values alone.
#[verifier::ext_equal]
pub struct ActiveView {
    pub id: ForemanBindingId,
    pub generation: BindingGeneration,
    pub conversation: Seq<char>,
}

impl View for ActiveBinding {
    type V = ActiveView;

    open spec fn view(&self) -> ActiveView {
        ActiveView { id: self.id, generation: self.generation, conversation: self.conversation@ }
    }
}

/// A binding ledger on values alone.
#[verifier::ext_equal]
pub struct BindingView {
    pub highest: BindingGeneration,
    pub active: Option<ActiveView>,
}

impl View for BindingLedger {
    type V = BindingView;

    open spec fn view(&self) -> BindingView {
        BindingView {
            highest: self.highest,
            active: match self.active {
                Some(active) => Some(active@),
                None => None,
            },
        }
    }
}

/// One transition on values alone.
#[allow(inconsistent_fields)]
pub enum BindingEventView {
    Bound { target: TargetView, at: Timestamp },
    Displaced { generation: BindingGeneration, at: Timestamp },
}

impl View for BindingEvent {
    type V = BindingEventView;

    open spec fn view(&self) -> BindingEventView {
        match *self {
            BindingEvent::Bound { target, at } => BindingEventView::Bound { target: target@, at },
            BindingEvent::Displaced { generation, at } => {
                BindingEventView::Displaced { generation, at }
            },
        }
    }
}

// --- The domain's rules, as a value ----------------------------------------------------------------

/// The binding machine and the token rule, as the domain supplies them.
pub struct BindingRules<A, S> {
    /// Applies one event to the binding ledger.
    pub apply: A,
    /// Whether a text is a redaction-safe token.
    pub safe: S,
}

/// What the domain's rules answer.
pub struct BindingModel {
    pub apply: spec_fn(BindingView, BindingEventView) -> Result<Applied<BindingView>, Conflict>,
    pub rule: spec_fn(Seq<char>) -> bool,
}

impl<A: Fn(&BindingLedger, &BindingEvent) -> BindingReply, S: Fn(&str) -> bool> BindingRules<A, S> {
    /// Whether the rules can be asked about everything.
    pub open spec fn total(self) -> bool {
        &&& forall|l: &BindingLedger, e: &BindingEvent| call_requires(self.apply, (l, e))
        &&& rule_total(self.safe)
    }

    /// Whether the rules answer as the model says.
    pub open spec fn follows(self, model: BindingModel) -> bool {
        &&& forall|l: &BindingLedger, e: &BindingEvent, r: BindingReply| #[trigger]
            call_ensures(self.apply, (l, e), r) ==> reply_view(r) == (model.apply)(l@, e@)
        &&& rule_is(self.safe, model.rule)
    }
}

// --- Gates -------------------------------------------------------------------------------------

/// What the generation gate answers, on values alone: the presented generation is current, or why not.
pub type FenceRule = spec_fn(BindingView, BindingGeneration) -> Result<(), Conflict>;

/// Whether an executable generation gate can be asked about everything, and lets nothing through
/// while no binding is active.
pub open spec fn fence_total<F: Fn(&BindingLedger, BindingGeneration) -> Result<(), Conflict>>(
    fence: F,
) -> bool {
    &&& forall|l: &BindingLedger, g: BindingGeneration| call_requires(fence, (l, g))
    &&& forall|l: &BindingLedger, g: BindingGeneration, r: Result<(), Conflict>| #[trigger]
        call_ensures(fence, (l, g), r) ==> (r is Ok ==> l.active is Some)
}

/// Whether an executable generation gate answers as `rule` says.
pub open spec fn fence_is<F: Fn(&BindingLedger, BindingGeneration) -> Result<(), Conflict>>(
    fence: F,
    rule: FenceRule,
) -> bool {
    forall|l: &BindingLedger, g: BindingGeneration, r: Result<(), Conflict>| #[trigger]
        call_ensures(fence, (l, g), r) ==> r == rule(l@, g)
}

} // verus!
