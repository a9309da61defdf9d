//! What claiming, handing over and acknowledging promise.
//!
//! Each law speaks of one operation by the fences its caller presented and what comes out: what is asked
//! of the domain's rule, the event that is appended, and what the rows of the claim and of the
//! obligation say afterwards.
use vstd::prelude::*;
use crate::domain::binding::BindingView;
use crate::domain::claim::{
    AckRule, AckView, ClaimState, ClaimView, MintRule, MintedView, ResumeView,
};
use crate::domain::conflict::Conflict;
use crate::domain::delivery::WakeView;
use crate::domain::fence::EventSeq;
use crate::domain::id::{
    canonical_text, canonical_text_injective, canonical_text_round_trips, ClaimId, ObligationId,
};
use crate::domain::obligation::{
    Applied, ObligationEventView, ObligationMachine, ObligationView,
};
use crate::store::error::StoreError;
use crate::store::event::EventView;
use crate::store::event_kind::EventKind;
use crate::store::grammar::MetaValue;
use crate::store::labels::{
    claim_state_named, claim_state_round_trips, disposition_named, disposition_round_trips,
    ActorClass, ClaimLifecycle,
};
use crate::store::load::obligation::{LoadedView, ObligationIdentity};
use crate::store::ops::claim::{
    claim_origin, claim_proven, claim_recorded, AcknowledgeObligation, ClaimInsertView, ClaimRow,
    DeliverHandoff, MintForemanClaim,
};
use crate::store::ops::decide::DecidedView;
use crate::store::ops::work_laws::{
    a_transition_writes_the_move, fits, records_work, reports, says, writes_the_move,
};

verus! {

// --- Minting ---------------------------------------------------------------------------------------------

/// A rule that refuses a caller who believes in another source than the obligation stands on.
pub open spec fn refuses_another_source(rule: MintRule) -> bool {
    forall|q: ResumeView, b: BindingView, w: WakeView, o: ObligationView|
        q.expected_source != o.source ==> (#[trigger] rule(q, b, w, o)) is Err
}

/// A rule that refuses a caller who believes in another version of the obligation.
pub open spec fn refuses_another_version(rule: MintRule) -> bool {
    forall|q: ResumeView, b: BindingView, w: WakeView, o: ObligationView|
        q.expected_version != o.version ==> (#[trigger] rule(q, b, w, o)) is Err
}

/// A rule that refuses a caller of another generation than the wake was created under.
pub open spec fn refuses_another_generation(rule: MintRule) -> bool {
    forall|q: ResumeView, b: BindingView, w: WakeView, o: ObligationView|
        q.binding_generation != w.binding_generation ==> (#[trigger] rule(q, b, w, o)) is Err
}

/// A rule that refuses a caller who presents another delivery than the wake's.
pub open spec fn refuses_another_delivery(rule: MintRule) -> bool {
    forall|q: ResumeView, b: BindingView, w: WakeView, o: ObligationView|
        q.presented_delivery_hex != w.delivery_hex ==> (#[trigger] rule(q, b, w, o)) is Err
}

/// A rule that refuses a caller who names another obligation.
pub open spec fn refuses_another_obligation(rule: MintRule) -> bool {
    forall|q: ResumeView, b: BindingView, w: WakeView, o: ObligationView|
        q.obligation != o.id ==> (#[trigger] rule(q, b, w, o)) is Err
}

/// Every fence the caller presents reaches the minting rule: whichever of them a rule heeds, a caller
/// whose own value is stale mints nothing, whatever else agrees.
pub proof fn a_stale_fence_mints_nothing(
    op: MintForemanClaim,
    bindings: BindingView,
    loaded: LoadedView,
    wake: WakeView,
    rule: MintRule,
    safe: spec_fn(Seq<char>) -> bool,
)
    ensures
        refuses_another_source(rule) && op.request.expected_source@ != loaded.projection.source
            ==> op.decided(Ok(bindings), Ok(loaded), Ok(wake), rule, safe) is Err && op.minted(
            bindings,
            wake,
            loaded.projection,
            rule,
        ) is Err,
        refuses_another_version(rule) && op.request.expected_version != loaded.projection.version
            ==> op.decided(Ok(bindings), Ok(loaded), Ok(wake), rule, safe) is Err && op.minted(
            bindings,
            wake,
            loaded.projection,
            rule,
        ) is Err,
        refuses_another_generation(rule) && op.request.binding_generation != wake.binding_generation
            ==> op.decided(Ok(bindings), Ok(loaded), Ok(wake), rule, safe) is Err && op.minted(
            bindings,
            wake,
            loaded.projection,
            rule,
        ) is Err,
        refuses_another_delivery(rule) && op.request.presented_delivery_id.hex() != wake.delivery_hex
            ==> op.decided(Ok(bindings), Ok(loaded), Ok(wake), rule, safe) is Err && op.minted(
            bindings,
            wake,
            loaded.projection,
            rule,
        ) is Err,
        refuses_another_obligation(rule) && op.request.obligation != loaded.projection.id
            ==> op.decided(Ok(bindings), Ok(loaded), Ok(wake), rule, safe) is Err && op.minted(
            bindings,
            wake,
            loaded.projection,
            rule,
        ) is Err,
{
}

/// Whether a question puts a caller's own values to the minting rule.
pub open spec fn asks_to_mint(q: ResumeView, op: MintForemanClaim) -> bool {
    &&& q.obligation == op.request.obligation
    &&& q.presented_delivery_hex == op.request.presented_delivery_id.hex()
    &&& q.binding_generation == op.request.binding_generation
    &&& q.expected_version == op.request.expected_version
    &&& q.expected_source == op.request.expected_source@
    &&& q.claim == op.claim
    &&& q.now == op.now
    &&& q.lifetime == op.request.lifetime
}

/// Minting is the rule's to answer: what it says of the caller's own values, the bindings, the wake and
/// the obligation as they were read is what comes out, a refusal under its own conflict; and what it
/// minted is what is planned, with an event about that obligation that names the claim and its fences.
pub proof fn a_claim_is_the_rules_to_mint(
    op: MintForemanClaim,
    bindings: BindingView,
    loaded: LoadedView,
    wake: WakeView,
    rule: MintRule,
    safe: spec_fn(Seq<char>) -> bool,
    q: ResumeView,
)
    requires
        asks_to_mint(q, op),
    ensures
        rule(q, bindings, wake, loaded.projection) matches Err(conflict) ==> op.decided(
            Ok(bindings),
            Ok(loaded),
            Ok(wake),
            rule,
            safe,
        ) == Err::<(LoadedView, MintedView, EventView), StoreError>(StoreError::Conflict(conflict)),
        op.decided(Ok(bindings), Ok(loaded), Ok(wake), rule, safe) matches Ok((work, minted, event))
            ==> {
            &&& rule(q, bindings, wake, loaded.projection) == Ok::<MintedView, Conflict>(minted)
            &&& work == loaded
            &&& records_work(
                event,
                op.event,
                EventKind::ForemanClaimMinted,
                event.source,
                op.now,
                loaded.identity,
                op.request.obligation,
            )
            &&& says(event, "claim_id"@, MetaValue::Text(canonical_text(op.claim.value)))
            &&& says(
                event,
                "binding_generation"@,
                MetaValue::Int(op.request.binding_generation as int),
            )
            &&& says(event, "expected_version"@, MetaValue::Int(op.request.expected_version as int))
        },
{
    assert(q == op.question());
    if let Ok((work, minted, event)) = op.decided(Ok(bindings), Ok(loaded), Ok(wake), rule, safe) {
        assert(event.metadata[0].0 == "claim_id"@);
        assert(event.metadata[1].0 == "binding_generation"@);
        assert(event.metadata[2].0 == "expected_version"@);
    }
}

/// Whether a read row holds what a claim insert wrote, at the instant its event was observed.
pub open spec fn claim_stored_as(row: ClaimRow, written: ClaimInsertView, at: i64) -> bool {
    &&& row.obligation_id@ == canonical_text(written.obligation_id.value)
    &&& row.obligation_version_at_claim == written.obligation_version_at_claim
    &&& row.binding_generation == written.binding_generation
    &&& row.wake_delivery_id@ == written.wake_delivery_id
    &&& row.state@ == written.state@
    &&& row.expires_at_ms == written.expires_at_ms
    &&& row.observed_at_ms == at
}

/// A minted claim reads back: its row is found as a claim on the obligation that was named, from the
/// wake that was presented, and rebuilds to a live claim of the presented generation at the minted
/// version, created when it was minted and lasting as long as the rule said. The obligation moves as
/// the rule said, and the answer says so.
pub proof fn a_minted_claim_is_found_live(
    op: MintForemanClaim,
    loaded: LoadedView,
    minted: MintedView,
    seq: EventSeq,
    row: ClaimRow,
    known_id: spec_fn(Seq<char>) -> bool,
)
    requires
        op.committed(loaded, minted, seq) matches Ok((written, _, _)) && claim_stored_as(
            row,
            written,
            op.now,
        ),
        known_id(op.request.presented_delivery_id.hex()),
    ensures
        claim_origin(op.request.obligation, op.claim, Some(row), known_id) == Ok::<
            (ObligationId, Seq<char>),
            StoreError,
        >((op.request.obligation, op.request.presented_delivery_id.hex())),
        claim_recorded(op.claim, op.request.obligation, row) matches Ok(claim) && {
            &&& claim.id == op.claim
            &&& claim.obligation == op.request.obligation
            &&& claim.version_at_claim == minted.version_at_claim
            &&& claim.binding_generation == op.request.binding_generation
            &&& claim.wake_delivery_hex == op.request.presented_delivery_id.hex()
            &&& claim.state == ClaimState::Live
            &&& claim.created_at == op.now
            &&& claim.expires_at == minted.expires_at
        },
{
    claim_state_round_trips(ClaimLifecycle::Live);
    canonical_text_round_trips(op.request.obligation);
}

/// A mint writes its claim at its event, moves the obligation as the rule said with its source fact
/// kept, and answers the claim, its end and the obligation.
pub proof fn a_mint_moves_the_obligation(
    op: MintForemanClaim,
    loaded: LoadedView,
    minted: MintedView,
    seq: EventSeq,
)
    ensures
        op.committed(loaded, minted, seq) is Ok <==> (minted.version_at_claim <= i64::MAX
            && op.request.binding_generation <= i64::MAX && fits(
            minted.obligation,
            seq,
            loaded.source_event_seq,
        )),
        op.committed(loaded, minted, seq) matches Ok((claim, rows, answer)) ==> {
            &&& claim.claim_id == op.claim
            &&& claim.created_event_seq == seq
            &&& writes_the_move(
                rows,
                loaded.projection,
                minted.obligation,
                seq,
                loaded.source_event_seq,
                ActorClass::Foreman,
            )
            &&& rows.event.disposition is None
            &&& answer.claim == op.claim
            &&& answer.expires_at == minted.expires_at
            &&& reports(answer.obligation, minted.obligation, false)
        },
{
    a_transition_writes_the_move(
        loaded.projection,
        minted.obligation,
        seq,
        loaded.source_event_seq,
        ActorClass::Foreman,
        None,
    );
}

// --- Handoff ---------------------------------------------------------------------------------------------

/// A handoff is the machine's to answer, when it hears that the presented claim's handoff was delivered
/// at that instant; it is recorded about the obligation that was named, with the claim; and what the
/// machine left is written and answered.
pub proof fn a_handoff_is_the_machines_to_allow(
    op: DeliverHandoff,
    loaded: LoadedView,
    machine: ObligationMachine,
    safe: spec_fn(Seq<char>) -> bool,
)
    ensures
        match machine(
            loaded.projection,
            ObligationEventView::HandoffDelivered { claim: op.request.claim, at: op.now },
        ) {
            Err(conflict) => op.decided(Ok(loaded), machine, safe) matches Err(e) && e
                == StoreError::Conflict(conflict),
            Ok(Applied::Duplicate) => op.decided(Ok(loaded), machine, safe) matches Ok(
                DecidedView::Settled(answer),
            ) && reports(answer, loaded.projection, true),
            Ok(Applied::Advanced(after)) => op.decided(Ok(loaded), machine, safe) matches Ok(decided)
                ==> {
                &&& decided matches DecidedView::Appends { event, plan }
                &&& plan == (loaded, after)
                &&& records_work(
                    event,
                    op.event,
                    EventKind::ForemanHandoffDelivered,
                    event.source,
                    op.now,
                    loaded.identity,
                    op.request.obligation,
                )
                &&& says(event, "claim_id"@, MetaValue::Text(canonical_text(op.request.claim.value)))
            },
        },
{
    if let Ok(DecidedView::Appends { event, plan }) = op.decided(Ok(loaded), machine, safe) {
        assert(event.metadata[0].0 == "claim_id"@);
    }
}

/// What a handoff writes is the obligation the machine left, by the foreman, its source fact kept.
pub proof fn a_handoff_moves_the_obligation(loaded: LoadedView, after: ObligationView, seq: EventSeq)
    ensures
        DeliverHandoff::committed(loaded, after, seq) is Ok <==> fits(after, seq, loaded.source_event_seq),
        DeliverHandoff::committed(loaded, after, seq) matches Ok((rows, answer)) ==> {
            &&& writes_the_move(
                rows,
                loaded.projection,
                after,
                seq,
                loaded.source_event_seq,
                ActorClass::Foreman,
            )
            &&& rows.event.disposition is None
            &&& reports(answer, after, false)
        },
{
    a_transition_writes_the_move(
        loaded.projection,
        after,
        seq,
        loaded.source_event_seq,
        ActorClass::Foreman,
        None,
    );
}

// --- Acknowledgement -------------------------------------------------------------------------------------

/// A rule that refuses an acknowledgement unless every fence it presents is the current one.
pub open spec fn refuses_a_stale_acknowledgement(rule: AckRule, stale: spec_fn(AckView, ClaimView, ObligationView) -> bool) -> bool {
    forall|q: AckView, b: BindingView, c: ClaimView, o: ObligationView|
        stale(q, c, o) ==> (#[trigger] rule(q, b, c, o)) is Err
}

/// Every fence the caller presents reaches the acknowledging rule: whichever of them a rule heeds, a
/// caller whose own value is stale acknowledges nothing, whatever else agrees.
pub proof fn a_stale_fence_acknowledges_nothing(
    op: AcknowledgeObligation,
    bindings: BindingView,
    loaded: LoadedView,
    claim: ClaimView,
    rule: AckRule,
    safe: spec_fn(Seq<char>) -> bool,
)
    ensures
        refuses_a_stale_acknowledgement(
            rule,
            |q: AckView, c: ClaimView, o: ObligationView| q.expected_source != o.source,
        ) && op.request.expected_source@ != loaded.projection.source ==> op.decided(
            Ok(bindings),
            Ok(loaded),
            Ok(claim),
            rule,
            safe,
        ) is Err,
        refuses_a_stale_acknowledgement(
            rule,
            |q: AckView, c: ClaimView, o: ObligationView| q.expected_version != o.version,
        ) && op.request.expected_version != loaded.projection.version ==> op.decided(
            Ok(bindings),
            Ok(loaded),
            Ok(claim),
            rule,
            safe,
        ) is Err,
        refuses_a_stale_acknowledgement(
            rule,
            |q: AckView, c: ClaimView, o: ObligationView| q.binding_generation != c.binding_generation,
        ) && op.request.binding_generation != claim.binding_generation ==> op.decided(
            Ok(bindings),
            Ok(loaded),
            Ok(claim),
            rule,
            safe,
        ) is Err,
        refuses_a_stale_acknowledgement(
            rule,
            |q: AckView, c: ClaimView, o: ObligationView| q.claim != c.id,
        ) && op.request.claim != claim.id ==> op.decided(
            Ok(bindings),
            Ok(loaded),
            Ok(claim),
            rule,
            safe,
        ) is Err,
        refuses_a_stale_acknowledgement(
            rule,
            |q: AckView, c: ClaimView, o: ObligationView| q.obligation != o.id,
        ) && op.request.obligation != loaded.projection.id ==> op.decided(
            Ok(bindings),
            Ok(loaded),
            Ok(claim),
            rule,
            safe,
        ) is Err,
        refuses_a_stale_acknowledgement(
            rule,
            |q: AckView, c: ClaimView, o: ObligationView| q.at > c.expires_at,
        ) && op.now > claim.expires_at ==> op.decided(
            Ok(bindings),
            Ok(loaded),
            Ok(claim),
            rule,
            safe,
        ) is Err,
{
}

/// Whether a question puts a caller's own values to the acknowledging rule.
pub open spec fn asks_to_acknowledge(q: AckView, op: AcknowledgeObligation) -> bool {
    &&& q.obligation == op.request.obligation
    &&& q.expected_version == op.request.expected_version
    &&& q.expected_source == op.request.expected_source@
    &&& q.binding_generation == op.request.binding_generation
    &&& q.claim == op.request.claim
    &&& q.disposition == op.request.disposition
    &&& q.at == op.now
}

/// An acknowledgement is the rule's to answer: a refusal comes out under its own conflict, an exact
/// repeat is answered as already committed with nothing appended, and what the rule left is planned,
/// with an event about that obligation that names the claim, its fences and the disposition.
pub proof fn an_acknowledgement_is_the_rules_to_answer(
    op: AcknowledgeObligation,
    bindings: BindingView,
    loaded: LoadedView,
    claim: ClaimView,
    rule: AckRule,
    safe: spec_fn(Seq<char>) -> bool,
    q: AckView,
)
    requires
        asks_to_acknowledge(q, op),
    ensures
        match rule(q, bindings, claim, loaded.projection) {
            Err(conflict) => op.decided(Ok(bindings), Ok(loaded), Ok(claim), rule, safe) matches Err(e)
                && e == StoreError::Conflict(conflict),
            Ok(Applied::Duplicate) => op.decided(
                Ok(bindings),
                Ok(loaded),
                Ok(claim),
                rule,
                safe,
            ) matches Ok(DecidedView::Settled(answer)) && answer.already_committed && reports(
                answer.obligation,
                loaded.projection,
                true,
            ),
            Ok(Applied::Advanced(after)) => op.decided(
                Ok(bindings),
                Ok(loaded),
                Ok(claim),
                rule,
                safe,
            ) matches Ok(decided) ==> {
                &&& decided matches DecidedView::Appends { event, plan }
                &&& plan == (loaded, after)
                &&& records_work(
                    event,
                    op.event,
                    EventKind::ForemanAcked,
                    event.source,
                    op.now,
                    loaded.identity,
                    op.request.obligation,
                )
                &&& says(event, "claim_id"@, MetaValue::Text(canonical_text(op.request.claim.value)))
                &&& says(
                    event,
                    "binding_generation"@,
                    MetaValue::Int(op.request.binding_generation as int),
                )
                &&& says(
                    event,
                    "expected_version"@,
                    MetaValue::Int(op.request.expected_version as int),
                )
                &&& exists|label: Seq<char>| #[trigger]
                    says(event, "disposition"@, MetaValue::Text(label)) && disposition_named(label)
                        == Some(op.request.disposition)
            },
        },
{
    assert(q == op.question());
    disposition_round_trips(op.request.disposition);
    if let Ok(DecidedView::Appends { event, plan }) = op.decided(
        Ok(bindings),
        Ok(loaded),
        Ok(claim),
        rule,
        safe,
    ) {
        assert(event.metadata[0].0 == "claim_id"@);
        assert(event.metadata[1].0 == "binding_generation"@);
        assert(event.metadata[2].0 == "expected_version"@);
        assert(event.metadata[3].0 == "disposition"@);
        let label = crate::store::labels::disposition_label(op.request.disposition)@;
        assert(says(event, "disposition"@, MetaValue::Text(label)));
    }
}

/// An acknowledgement moves the obligation as the rule said, records the disposition that was decided,
/// keeps the source fact, and is no repeat.
pub proof fn an_acknowledgement_moves_the_obligation(
    op: AcknowledgeObligation,
    loaded: LoadedView,
    after: ObligationView,
    seq: EventSeq,
)
    ensures
        op.committed(loaded, after, seq) is Ok <==> fits(after, seq, loaded.source_event_seq),
        op.committed(loaded, after, seq) matches Ok((rows, answer)) ==> {
            &&& writes_the_move(
                rows.transition,
                loaded.projection,
                after,
                seq,
                loaded.source_event_seq,
                ActorClass::Foreman,
            )
            &&& rows.transition.event.disposition is Some && disposition_named(
                rows.transition.event.disposition->0@,
            ) == Some(op.request.disposition)
            &&& rows.claim.claim_id == op.request.claim
            &&& claim_state_named(rows.claim.state@) == Some(ClaimLifecycle::Closed)
            &&& rows.claim.closed_event_seq == seq
            &&& !answer.already_committed
            &&& reports(answer.obligation, after, false)
        },
{
    disposition_round_trips(op.request.disposition);
    claim_state_round_trips(ClaimLifecycle::Closed);
    a_transition_writes_the_move(
        loaded.projection,
        after,
        seq,
        loaded.source_event_seq,
        ActorClass::Foreman,
        Some(op.request.disposition),
    );
}

/// A claim that was acknowledged reads back as closed, and as the same claim in everything else.
pub proof fn an_acknowledged_claim_reads_back_as_closed(
    op: AcknowledgeObligation,
    loaded: LoadedView,
    after: ObligationView,
    seq: EventSeq,
    held: ObligationId,
    before: ClaimRow,
    row: ClaimRow,
    claim: ClaimView,
)
    requires
        claim_recorded(op.request.claim, held, before) == Ok::<ClaimView, StoreError>(claim),
        op.committed(loaded, after, seq) matches Ok((rows, _)) && row.state@ == rows.claim.state@,
        row.obligation_version_at_claim == before.obligation_version_at_claim,
        row.binding_generation == before.binding_generation,
        row.wake_delivery_id@ == before.wake_delivery_id@,
        row.expires_at_ms == before.expires_at_ms,
        row.observed_at_ms == before.observed_at_ms,
    ensures
        claim_recorded(op.request.claim, held, row) == Ok::<ClaimView, StoreError>(
            ClaimView { state: ClaimState::Closed, ..claim },
        ),
{
    claim_state_round_trips(ClaimLifecycle::Closed);
}

/// A claim that is read is the one its row names: each state reads as itself, an unknown row is stale,
/// and a claim whose wake does not prove it authorises nothing.
pub proof fn a_claim_is_what_its_row_says(
    obligation: ObligationId,
    claim: ClaimId,
    held: ObligationId,
    row: ClaimRow,
    wake: WakeView,
    lifecycle: ClaimLifecycle,
    proven: spec_fn(ClaimView, WakeView) -> bool,
    known_id: spec_fn(Seq<char>) -> bool,
)
    requires
        claim_state_named(row.state@) == Some(lifecycle),
    ensures
        claim_proven(claim, held, row, wake, proven) matches Ok(read) ==> {
            &&& proven(read, wake)
            &&& read.id == claim
            &&& read.obligation == held
            &&& read.version_at_claim == row.obligation_version_at_claim
            &&& read.binding_generation == row.binding_generation
            &&& read.wake_delivery_hex == row.wake_delivery_id@
            &&& read.created_at == row.observed_at_ms
            &&& read.expires_at == row.expires_at_ms
            &&& read.state is Live <==> lifecycle is Live
            &&& read.state is Expired <==> lifecycle is Expired
            &&& read.state is Closed <==> lifecycle is Closed
        },
        claim_origin(obligation, claim, None, known_id) == Err::<(ObligationId, Seq<char>), StoreError>(
            StoreError::Conflict(Conflict::StaleClaim { presented: claim, obligation }),
        ),
        claim_origin(obligation, claim, Some(row), known_id) matches Ok((_, hex)) ==> known_id(hex)
            && hex == row.wake_delivery_id@,
{
}

// --- Distinct facts --------------------------------------------------------------------------------------

/// A claim is minted, handed over and acknowledged once each: two claims' facts are never one, and what
/// happened to one claim is three facts.
pub proof fn what_happens_to_claims_are_distinct_facts(
    mint: MintForemanClaim,
    other: MintForemanClaim,
    handoff: DeliverHandoff,
    another: DeliverHandoff,
    ack: AcknowledgeObligation,
    later: AcknowledgeObligation,
    identity: ObligationIdentity,
    safe: spec_fn(Seq<char>) -> bool,
)
    ensures
        mint.minted_event(identity, safe) matches Ok(a) ==> (other.minted_event(identity, safe) matches Ok(
            b,
        ) ==> (a.source == b.source <==> mint.claim == other.claim)),
        handoff.handoff_event(identity, safe) matches Ok(a) ==> (another.handoff_event(identity, safe) matches Ok(
            b,
        ) ==> (a.source == b.source <==> handoff.request.claim == another.request.claim)),
        ack.acked_event(identity, safe) matches Ok(a) ==> (later.acked_event(identity, safe) matches Ok(b)
            ==> (a.source == b.source <==> ack.request.claim == later.request.claim)),
        mint.minted_event(identity, safe) matches Ok(a) ==> (handoff.handoff_event(identity, safe) matches Ok(
            b,
        ) ==> a.source != b.source),
        mint.minted_event(identity, safe) matches Ok(a) ==> (ack.acked_event(identity, safe) matches Ok(b)
            ==> a.source != b.source),
        handoff.handoff_event(identity, safe) matches Ok(a) ==> (ack.acked_event(identity, safe) matches Ok(
            b,
        ) ==> a.source != b.source),
{
    if canonical_text(mint.claim.value) == canonical_text(other.claim.value) {
        canonical_text_injective(mint.claim.value, other.claim.value);
    }
    if canonical_text(handoff.request.claim.value) == canonical_text(another.request.claim.value) {
        canonical_text_injective(handoff.request.claim.value, another.request.claim.value);
    }
    if canonical_text(ack.request.claim.value) == canonical_text(later.request.claim.value) {
        canonical_text_injective(ack.request.claim.value, later.request.claim.value);
    }
    reveal_strlit("foreman_claim_minted");
    reveal_strlit("foreman_handoff_delivered");
    reveal_strlit("foreman_acked");
    assert("foreman_claim_minted"@.len() == 20);
    assert("foreman_handoff_delivered"@.len() == 25);
    assert("foreman_acked"@.len() == 13);
}

} // verus!
