//! Foreman claims: the authority to process one obligation for a while.
use vstd::prelude::*;
use crate::domain::binding::{BindingLedger, BindingView};
use crate::domain::conflict::Conflict;
use crate::domain::delivery::{BrowserWake, WakeView};
use crate::domain::fence::{
    BindingGeneration, DurationMs, ObligationVersion, SourceRef, SourceView, Timestamp,
};
use crate::domain::id::{ClaimId, ObligationId};
use crate::domain::obligation::{
    reply_view, Applied, Disposition, Obligation, ObligationReply, ObligationView,
};

verus! {

/// Whether a claim still authorises anything.
#[derive(Debug, Clone, Copy, PartialEq, Eq, Structural)]
pub enum ClaimState {
    Live,
    Expired,
    Closed,
}

/// A claim as it was persisted.
#[derive(Debug, PartialEq, Eq)]
pub struct ForemanClaim {
    pub id: ClaimId,
    pub obligation: ObligationId,
    pub version_at_claim: ObligationVersion,
    pub binding_generation: BindingGeneration,
    /// The persisted hexadecimal form of the correlation identity the claim was minted from.
    pub wake_delivery_hex: String,
    pub state: ClaimState,
    pub created_at: Timestamp,
    pub expires_at: Timestamp,
}

/// A claim on values alone.
#[verifier::ext_equal]
pub struct ClaimView {
    pub id: ClaimId,
    pub obligation: ObligationId,
    pub version_at_claim: ObligationVersion,
    pub binding_generation: BindingGeneration,
    pub wake_delivery_hex: Seq<char>,
    pub state: ClaimState,
    pub created_at: Timestamp,
    pub expires_at: Timestamp,
}

impl View for ForemanClaim {
    type V = ClaimView;

    open spec fn view(&self) -> ClaimView {
        ClaimView {
            id: self.id,
            obligation: self.obligation,
            version_at_claim: self.version_at_claim,
            binding_generation: self.binding_generation,
            wake_delivery_hex: self.wake_delivery_hex@,
            state: self.state,
            created_at: self.created_at,
            expires_at: self.expires_at,
        }
    }
}

/// What resuming asks for: the fences the caller presents, and the claim it would get.
#[derive(Debug, PartialEq, Eq)]
pub struct ResumeRequest {
    pub obligation: ObligationId,
    /// The persisted hexadecimal form of the presented correlation identity.
    pub presented_delivery_hex: String,
    pub binding_generation: BindingGeneration,
    pub expected_version: ObligationVersion,
    pub expected_source: SourceRef,
    pub claim: ClaimId,
    pub now: Timestamp,
    pub lifetime: DurationMs,
}

/// What resuming asks for, on values alone.
#[verifier::ext_equal]
pub struct ResumeView {
    pub obligation: ObligationId,
    pub presented_delivery_hex: Seq<char>,
    pub binding_generation: BindingGeneration,
    pub expected_version: ObligationVersion,
    pub expected_source: SourceView,
    pub claim: ClaimId,
    pub now: Timestamp,
    pub lifetime: DurationMs,
}

impl View for ResumeRequest {
    type V = ResumeView;

    open spec fn view(&self) -> ResumeView {
        ResumeView {
            obligation: self.obligation,
            presented_delivery_hex: self.presented_delivery_hex@,
            binding_generation: self.binding_generation,
            expected_version: self.expected_version,
            expected_source: self.expected_source@,
            claim: self.claim,
            now: self.now,
            lifetime: self.lifetime,
        }
    }
}

/// What the domain mints: the claim's version and expiry, and the obligation it moves.
#[derive(Debug, PartialEq, Eq)]
pub struct Minted {
    pub version_at_claim: ObligationVersion,
    pub expires_at: Timestamp,
    pub obligation: Obligation,
}

/// What the domain mints, on values alone.
#[verifier::ext_equal]
pub struct MintedView {
    pub version_at_claim: ObligationVersion,
    pub expires_at: Timestamp,
    pub obligation: ObligationView,
}

impl View for Minted {
    type V = MintedView;

    open spec fn view(&self) -> MintedView {
        MintedView {
            version_at_claim: self.version_at_claim,
            expires_at: self.expires_at,
            obligation: self.obligation@,
        }
    }
}

/// What the domain answers to a request for a claim.
pub type MintReply = Result<Minted, Conflict>;

/// An answer to a request for a claim, on values alone.
pub open spec fn mint_view(reply: MintReply) -> Result<MintedView, Conflict> {
    match reply {
        Ok(minted) => Ok(minted@),
        Err(conflict) => Err(conflict),
    }
}

/// What the minting rule answers, on values alone.
pub type MintRule = spec_fn(ResumeView, BindingView, WakeView, ObligationView) -> Result<
    MintedView,
    Conflict,
>;

/// Whether an executable minting rule answers as `rule` says.
pub open spec fn mint_is<
    M: Fn(&ResumeRequest, &BindingLedger, &BrowserWake, &Obligation) -> MintReply,
>(mint: M, rule: MintRule) -> bool {
    forall|q: &ResumeRequest, b: &BindingLedger, w: &BrowserWake, o: &Obligation, r: MintReply| #[trigger]
        call_ensures(mint, (q, b, w, o), r) ==> mint_view(r) == rule(q@, b@, w@, o@)
}

/// The fences a semantic acknowledgement presents.
#[derive(Debug, PartialEq, Eq)]
pub struct AckRequest {
    pub obligation: ObligationId,
    pub expected_version: ObligationVersion,
    pub expected_source: SourceRef,
    pub binding_generation: BindingGeneration,
    pub claim: ClaimId,
    pub disposition: Disposition,
    pub at: Timestamp,
}

/// The fences of an acknowledgement on values alone.
#[verifier::ext_equal]
pub struct AckView {
    pub obligation: ObligationId,
    pub expected_version: ObligationVersion,
    pub expected_source: SourceView,
    pub binding_generation: BindingGeneration,
    pub claim: ClaimId,
    pub disposition: Disposition,
    pub at: Timestamp,
}

impl View for AckRequest {
    type V = AckView;

    open spec fn view(&self) -> AckView {
        AckView {
            obligation: self.obligation,
            expected_version: self.expected_version,
            expected_source: self.expected_source@,
            binding_generation: self.binding_generation,
            claim: self.claim,
            disposition: self.disposition,
            at: self.at,
        }
    }
}

/// What the acknowledging rule answers, on values alone: the closed obligation, or that an exact
/// repeat was already committed.
pub type AckRule = spec_fn(AckView, BindingView, ClaimView, ObligationView) -> Result<
    Applied<ObligationView>,
    Conflict,
>;

/// Whether an executable acknowledging rule answers as `rule` says.
pub open spec fn ack_is<
    K: Fn(&AckRequest, &BindingLedger, &ForemanClaim, &Obligation) -> ObligationReply,
>(acknowledge: K, rule: AckRule) -> bool {
    forall|
        q: &AckRequest,
        b: &BindingLedger,
        c: &ForemanClaim,
        o: &Obligation,
        r: ObligationReply,
    | #[trigger]
        call_ensures(acknowledge, (q, b, c, o), r) ==> reply_view(r) == rule(q@, b@, c@, o@)
}

/// Whether an executable provenance check answers as `rule` says.
pub open spec fn provenance_is<H: Fn(&ForemanClaim, &BrowserWake) -> bool>(
    proven: H,
    rule: spec_fn(ClaimView, WakeView) -> bool,
) -> bool {
    forall|c: &ForemanClaim, w: &BrowserWake, r: bool| #[trigger]
        call_ensures(proven, (c, w), r) ==> r == rule(c@, w@)
}

} // verus!
