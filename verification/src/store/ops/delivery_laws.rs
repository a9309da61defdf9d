//! What delivering a wake promises.
//!
//! Each law speaks of one operation by what its caller presented and what comes out: what is asked of
//! the attempt machine, the event that is appended, and what the rows of the delivery and of its
//! attempts say afterwards.
use vstd::arithmetic::power::pow;
use vstd::prelude::*;
use vstd::utf8::{encode_utf8, encode_utf8_decode_utf8, is_ascii_chars_encode_utf8};
use crate::digest::{
    be_bytes_injective, be_bytes_len, framed, framing_is_unambiguous, hex_text, sha256_of,
};
use crate::domain::binding::{BindingView, FenceRule};
use crate::domain::conflict::Conflict;
use crate::domain::delivery::{
    Attempt, AttemptState, DeliveryEventView, DeliveryMachine, DeliveryState, DeliveryView,
    TargetRule, WakeModel, WakeView,
};
use crate::domain::fence::{
    AttemptNo, BindingGeneration, DeliveryRevision, EventSeq, ObligationVersion, SourceView,
    Timestamp,
};
use crate::domain::id::{EventId, ForemanBindingId, ObligationId, TaskId};
use crate::domain::obligation::{Applied, ObligationView};
use crate::store::error::{MismatchView, StoreError};
use crate::store::event::EventView;
use crate::store::event_kind::EventKind;
use crate::store::grammar::MetaValue;
use crate::store::labels::{
    ambiguity_named, ambiguity_round_trips, attempt_state_named, attempt_state_round_trips,
    delivery_state_named, delivery_state_round_trips, failure_class_named,
    failure_class_round_trips,
};
use crate::store::load::obligation::LoadedView;
use crate::store::ops::decide::DecidedView;
use crate::store::ops::delivery::{
    accepted_numbers, attempt_numbered, payload_digest, payload_fields, ArmDeliverySend,
    ClaimPlanView, CreateOrClaimDelivery, DeliveryOutcome, DeliveryUpdate,
    ReconcileAmbiguousDelivery, RecordDeliveryOutcome, WAKE_PAYLOAD_DOMAIN,
};
use crate::store::ops::work_laws::says;
use crate::store::replay::attempt_compared;
use crate::text::{nat_text, nat_text_denotes};

verus! {

// --- The event -------------------------------------------------------------------------------------------

/// Whether an event records something about a delivery of an obligation: it is filed under the
/// obligation and its task and under nothing else, and observed at an instant.
pub open spec fn records_delivery(
    event: EventView,
    id: EventId,
    kind: EventKind,
    at: Timestamp,
    task: TaskId,
    obligation: ObligationId,
) -> bool {
    &&& event.event_id == id
    &&& event.kind == kind
    &&& event.observed_at == at
    &&& event.occurred_at is None
    &&& event.scope.task == Some(task)
    &&& event.scope.obligation == Some(obligation)
    &&& event.scope.turn is None
    &&& event.scope.project is None
    &&& event.scope.session is None
    &&& event.scope.incarnation is None
}

/// Whether an event names one attempt of one revision.
pub open spec fn names_attempt(event: EventView, revision: DeliveryRevision, attempt: AttemptNo) -> bool {
    &&& says(event, "revision"@, MetaValue::Int(revision as int))
    &&& says(event, "attempt_no"@, MetaValue::Int(attempt as int))
}

/// A claim, an arming, an outcome and a promotion are each recorded about the obligation the wake is
/// for, with the revision, and with the attempt where there is one; an outcome's kind is the outcome
/// that was observed.
pub proof fn what_became_of_a_wake_is_recorded(
    claim: CreateOrClaimDelivery,
    arm: ArmDeliverySend,
    outcome: RecordDeliveryOutcome,
    reconcile: ReconcileAmbiguousDelivery,
    plan: ClaimPlanView,
    task: TaskId,
    obligation: ObligationId,
    revision: DeliveryRevision,
    rule: spec_fn(Seq<char>) -> bool,
)
    ensures
        claim.claimed_event(task, plan, rule) matches Ok(event) ==> {
            &&& records_delivery(
                event,
                claim.event,
                EventKind::BrowserDeliveryAttemptClaimed,
                claim.now,
                task,
                claim.request.obligation,
            )
            &&& names_attempt(event, claim.request.revision, plan.attempt)
        },
        arm.armed_event(task, obligation, revision, rule) matches Ok(event) ==> {
            &&& records_delivery(
                event,
                arm.event,
                EventKind::BrowserDeliveryActivationArmed,
                arm.now,
                task,
                obligation,
            )
            &&& names_attempt(event, revision, arm.request.attempt)
        },
        outcome.outcome_event(task, obligation, revision, rule) matches Ok(event) ==> {
            &&& records_delivery(
                event,
                outcome.event,
                match outcome.request.outcome {
                    DeliveryOutcome::Accepted { .. } => EventKind::BrowserDeliveryAccepted,
                    DeliveryOutcome::Failed { .. } => EventKind::BrowserDeliveryFailed,
                    DeliveryOutcome::Ambiguous { .. } => EventKind::BrowserDeliveryAmbiguous,
                },
                outcome.now,
                task,
                obligation,
            )
            &&& names_attempt(event, revision, outcome.request.attempt)
            &&& outcome.request.outcome matches DeliveryOutcome::Accepted { message } ==> says(
                event,
                "message_ref"@,
                MetaValue::Text(message@),
            )
        },
        reconcile.reconciled_event(task, obligation, revision, rule) matches Ok(event) ==> {
            &&& records_delivery(
                event,
                reconcile.event,
                EventKind::BrowserDeliveryReconciled,
                reconcile.now,
                task,
                obligation,
            )
            &&& says(event, "revision"@, MetaValue::Int(revision as int))
            &&& says(event, "message_ref"@, MetaValue::Text(reconcile.request.message@))
        },
{
    if let Ok(event) = claim.claimed_event(task, plan, rule) {
        assert(event.metadata[0].0 == "revision"@);
        assert(event.metadata[1].0 == "attempt_no"@);
    }
    if let Ok(event) = arm.armed_event(task, obligation, revision, rule) {
        assert(event.metadata[0].0 == "revision"@);
        assert(event.metadata[1].0 == "attempt_no"@);
    }
    if let Ok(event) = outcome.outcome_event(task, obligation, revision, rule) {
        assert(event.metadata[0] == outcome.evidence_field());
        assert(event.metadata[1].0 == "revision"@);
        assert(event.metadata[2].0 == "attempt_no"@);
    }
    if let Ok(event) = reconcile.reconciled_event(task, obligation, revision, rule) {
        assert(event.metadata[0].0 == "revision"@);
        assert(event.metadata[1].0 == "message_ref"@);
    }
}

proof fn a_numbered_fence_is_its_number(label: Seq<char>, a: nat, b: nat)
    requires
        label + "."@ + nat_text(a) == label + "."@ + nat_text(b),
    ensures
        a == b,
{
    let left = label + "."@ + nat_text(a);
    let right = label + "."@ + nat_text(b);
    reveal_strlit(".");
    assert(left.skip((label + "."@).len() as int) =~= nat_text(a));
    assert(right.skip((label + "."@).len() as int) =~= nat_text(b));
    nat_text_denotes(a);
    nat_text_denotes(b);
}

/// Two claims of one delivery are one fact only where they are of one attempt, and facts about two
/// deliveries are never one: no attempt's event is taken for another's.
pub proof fn distinct_attempts_are_distinct_facts(
    first: CreateOrClaimDelivery,
    second: CreateOrClaimDelivery,
    one: ClaimPlanView,
    other: ClaimPlanView,
    arm: ArmDeliverySend,
    rearm: ArmDeliverySend,
    task: TaskId,
    obligation: ObligationId,
    revision: DeliveryRevision,
    rule: spec_fn(Seq<char>) -> bool,
)
    ensures
        first.claimed_event(task, one, rule) matches Ok(a) ==> (second.claimed_event(task, other, rule) matches Ok(
            b,
        ) ==> (a.source == b.source <==> (one.wake.delivery_hex == other.wake.delivery_hex && one.attempt
            == other.attempt))),
        arm.armed_event(task, obligation, revision, rule) matches Ok(a) ==> (rearm.armed_event(
            task,
            obligation,
            revision,
            rule,
        ) matches Ok(b) ==> (a.source == b.source <==> (arm.request.delivery_id.hex()
            == rearm.request.delivery_id.hex() && arm.request.attempt == rearm.request.attempt))),
{
    if "claimed"@ + "."@ + nat_text(one.attempt as nat) == "claimed"@ + "."@ + nat_text(
        other.attempt as nat,
    ) {
        a_numbered_fence_is_its_number("claimed"@, one.attempt as nat, other.attempt as nat);
    }
    if "armed"@ + "."@ + nat_text(arm.request.attempt as nat) == "armed"@ + "."@ + nat_text(
        rearm.request.attempt as nat,
    ) {
        a_numbered_fence_is_its_number(
            "armed"@,
            arm.request.attempt as nat,
            rearm.request.attempt as nat,
        );
    }
}

/// Outcomes of one attempt are distinct facts where they differ in kind, and outcomes of two attempts,
/// or promotions of two revisions, always are.
pub proof fn distinct_outcomes_are_distinct_facts(
    first: RecordDeliveryOutcome,
    second: RecordDeliveryOutcome,
    one: ReconcileAmbiguousDelivery,
    other: ReconcileAmbiguousDelivery,
    task: TaskId,
    obligation: ObligationId,
    revision: DeliveryRevision,
    later: DeliveryRevision,
    rule: spec_fn(Seq<char>) -> bool,
)
    requires
        first.request.attempt != second.request.attempt,
        first.kind() == second.kind(),
    ensures
        first.outcome_event(task, obligation, revision, rule) matches Ok(a) ==> (second.outcome_event(
            task,
            obligation,
            revision,
            rule,
        ) matches Ok(b) ==> a.source != b.source),
        one.reconciled_event(task, obligation, revision, rule) matches Ok(a) ==> (other.reconciled_event(
            task,
            obligation,
            later,
            rule,
        ) matches Ok(b) ==> (a.source == b.source ==> revision == later
            && one.request.delivery_id.hex() == other.request.delivery_id.hex())),
{
    let label = crate::store::event_kind::kind_label(first.kind())@;
    if label + "."@ + nat_text(first.request.attempt as nat) == label + "."@ + nat_text(
        second.request.attempt as nat,
    ) {
        a_numbered_fence_is_its_number(
            label,
            first.request.attempt as nat,
            second.request.attempt as nat,
        );
    }
    if "reconciled"@ + "."@ + nat_text(revision as nat) == "reconciled"@ + "."@ + nat_text(
        later as nat,
    ) {
        a_numbered_fence_is_its_number("reconciled"@, revision as nat, later as nat);
    }
}

// --- What is asked of the attempt machine ----------------------------------------------------------------

/// The bindings rule of a caller that presents a generation refuses any other.
pub open spec fn refuses_other_generations(fence: FenceRule, current: BindingGeneration) -> bool {
    forall|bindings: BindingView, presented: BindingGeneration|
        presented != current ==> (#[trigger] fence(bindings, presented)) is Err
}

/// A caller whose generation, version or source is stale claims nothing: each fence is asked about the
/// value that was presented.
pub proof fn a_stale_claim_is_refused(
    op: CreateOrClaimDelivery,
    bindings: BindingView,
    loaded: LoadedView,
    found: Option<WakeView>,
    fence: FenceRule,
    version: spec_fn(ObligationView, ObligationVersion) -> Result<(), Conflict>,
    source: spec_fn(ObligationView, SourceView) -> Result<(), Conflict>,
    target: TargetRule,
    model: WakeModel,
    current: BindingGeneration,
)
    requires
        refuses_other_generations(fence, current),
        forall|o: ObligationView, v: ObligationVersion| v != o.version ==> (#[trigger] version(o, v)) is Err,
        forall|o: ObligationView, s: SourceView| s != o.source ==> (#[trigger] source(o, s)) is Err,
        op.request.binding_generation != current || op.request.expected_version
            != loaded.projection.version || op.request.expected_source@ != loaded.projection.source,
    ensures
        op.decided(
            Ok(bindings),
            Ok(loaded),
            Ok(found),
            fence,
            version,
            source,
            target,
            model,
        ) is Err,
{
    assert(op.request.binding_generation != current ==> fence(
        bindings,
        op.request.binding_generation,
    ) is Err);
    assert(op.request.expected_version != loaded.projection.version ==> version(
        loaded.projection,
        op.request.expected_version,
    ) is Err);
    assert(op.request.expected_source@ != loaded.projection.source ==> source(
        loaded.projection,
        op.request.expected_source@,
    ) is Err);
}

/// A claim that goes ahead was let through by every fence and by the target of the wake itself, and
/// claims what the machine leaves when it hears of a claim at that instant: the wake that was found, or
/// the one that is created where none was.
pub proof fn a_claim_takes_what_the_machine_gives(
    op: CreateOrClaimDelivery,
    bindings: BindingView,
    loaded: LoadedView,
    found: Option<WakeView>,
    fence: FenceRule,
    version: spec_fn(ObligationView, ObligationVersion) -> Result<(), Conflict>,
    source: spec_fn(ObligationView, SourceView) -> Result<(), Conflict>,
    target: TargetRule,
    model: WakeModel,
)
    ensures
        op.decided(
            Ok(bindings),
            Ok(loaded),
            Ok(found),
            fence,
            version,
            source,
            target,
            model,
        ) matches Ok((plan, event)) ==> {
            &&& fence(bindings, op.request.binding_generation) is Ok
            &&& version(loaded.projection, op.request.expected_version) is Ok
            &&& source(loaded.projection, op.request.expected_source@) is Ok
            &&& target(plan.wake, loaded.projection) is Ok
            &&& (model.apply)(plan.wake.delivery, DeliveryEventView::AttemptClaimed { at: op.now })
                == Ok::<Applied<DeliveryView>, Conflict>(Applied::Advanced(plan.next))
            &&& plan.attempt == plan.next.attempts.last().number
            &&& found matches Some(wake) ==> plan.wake == wake && plan.insert is None
            &&& found is None ==> {
                &&& plan.insert is Some
                &&& bindings.active is Some ==> plan.wake.binding == bindings.active->0.id
                &&& plan.wake.delivery_hex == op.candidate_delivery_id.hex()
                &&& plan.wake.obligation == loaded.projection.id
                &&& plan.wake.version == loaded.projection.version
                &&& plan.wake.source == loaded.projection.source
                &&& plan.wake.binding_generation == op.request.binding_generation
                &&& plan.wake.revision == op.request.revision
                &&& plan.wake.delivery == (model.pending)(op.request.attempt_budget)
                &&& plan.wake.key_hex == (model.derive)(
                    loaded.projection.id,
                    op.request.binding_generation,
                    op.request.revision,
                )
            }
            &&& names_attempt(event, op.request.revision, plan.attempt)
        },
{
    if let Ok((plan, event)) = op.decided(
        Ok(bindings),
        Ok(loaded),
        Ok(found),
        fence,
        version,
        source,
        target,
        model,
    ) {
        assert(event.metadata[0].0 == "revision"@);
        assert(event.metadata[1].0 == "attempt_no"@);
    }
}

/// A created revision's row is the wake it creates: its identity and key, the obligation it is for with
/// the version and the source it was scheduled against, the binding and its generation, the revision,
/// the budget and the protocol that were asked for, and no attempt yet.
pub proof fn a_created_row_is_the_wake(
    op: CreateOrClaimDelivery,
    loaded: LoadedView,
    binding: ForemanBindingId,
    key: Seq<char>,
)
    ensures
        op.created_row(loaded, binding, key) matches Ok(row) ==> {
            &&& row.delivery_id == op.candidate_delivery_id.hex()
            &&& row.delivery_key == key
            &&& row.obligation_id == op.request.obligation
            &&& row.target_obligation_version == loaded.projection.version
            &&& row.target_source_event_seq == loaded.source_event_seq
            &&& row.foreman_binding_id == binding
            &&& row.binding_generation == op.request.binding_generation
            &&& row.delivery_revision == op.request.revision
            &&& row.attempt_budget == op.request.attempt_budget
            &&& row.wake_protocol == op.request.wake_protocol@
            &&& row.wake_payload_digest == payload_digest(
                op.candidate_delivery_id.bytes@,
                op.request.obligation,
                op.request.binding_generation,
                op.request.revision,
                op.request.wake_protocol@,
            )
            &&& delivery_state_named(row.state@) == Some(DeliveryState::Pending)
        },
{
    delivery_state_round_trips(DeliveryState::Pending);
}

proof fn counters_fit_their_widths()
    ensures
        pow(256, 4) == u32::MAX + 1,
        pow(256, 8) == u64::MAX + 1,
        pow(256, 16) == u128::MAX + 1,
{
    reveal(pow);
    assert(pow(256, 0) == 1);
    assert(pow(256, 1) == 256);
    assert(pow(256, 2) == 0x1_0000);
    assert(pow(256, 3) == 0x100_0000);
    assert(pow(256, 4) == 0x1_0000_0000);
    assert(pow(256, 5) == 0x100_0000_0000);
    assert(pow(256, 6) == 0x1_0000_0000_0000);
    assert(pow(256, 7) == 0x100_0000_0000_0000);
    assert(pow(256, 8) == 0x1_0000_0000_0000_0000);
    assert(pow(256, 9) == 0x100_0000_0000_0000_0000);
    assert(pow(256, 10) == 0x1_0000_0000_0000_0000_0000);
    assert(pow(256, 11) == 0x100_0000_0000_0000_0000_0000);
    assert(pow(256, 12) == 0x1_0000_0000_0000_0000_0000_0000);
    assert(pow(256, 13) == 0x100_0000_0000_0000_0000_0000_0000);
    assert(pow(256, 14) == 0x1_0000_0000_0000_0000_0000_0000_0000);
    assert(pow(256, 15) == 0x100_0000_0000_0000_0000_0000_0000_0000);
    assert(pow(256, 16) == 0x1_0000_0000_0000_0000_0000_0000_0000_0000);
}

/// A payload digest is taken of everything that tells a wake apart: two wakes that differ in their
/// identity, obligation, generation, revision or protocol are framed as different bytes.
pub proof fn a_payload_tells_its_wake_apart(
    id: Seq<u8>,
    obligation: ObligationId,
    generation: BindingGeneration,
    revision: DeliveryRevision,
    protocol: Seq<char>,
    other_id: Seq<u8>,
    other_obligation: ObligationId,
    other_generation: BindingGeneration,
    other_revision: DeliveryRevision,
    other_protocol: Seq<char>,
)
    requires
        framed(payload_fields(id, obligation, generation, revision, protocol)) == framed(
            payload_fields(
                other_id,
                other_obligation,
                other_generation,
                other_revision,
                other_protocol,
            ),
        ),
        id.len() == 32,
        other_id.len() == 32,
        encode_utf8(protocol).len() <= u32::MAX,
        encode_utf8(other_protocol).len() <= u32::MAX,
    ensures
        id == other_id,
        obligation == other_obligation,
        generation == other_generation,
        revision == other_revision,
        protocol == other_protocol,
        payload_digest(id, obligation, generation, revision, protocol) == hex_text(
            sha256_of(framed(payload_fields(id, obligation, generation, revision, protocol))),
        ),
{
    let a = payload_fields(id, obligation, generation, revision, protocol);
    let b = payload_fields(
        other_id,
        other_obligation,
        other_generation,
        other_revision,
        other_protocol,
    );
    be_bytes_len(obligation.value as nat, 16);
    be_bytes_len(other_obligation.value as nat, 16);
    be_bytes_len(generation as nat, 8);
    be_bytes_len(other_generation as nat, 8);
    be_bytes_len(revision as nat, 4);
    be_bytes_len(other_revision as nat, 4);
    counters_fit_their_widths();
    reveal_strlit("command-governor/wake-payload/v1");
    is_ascii_chars_encode_utf8(WAKE_PAYLOAD_DOMAIN@);
    assert forall|i: int| 0 <= i < a.len() implies (#[trigger] a[i]).len() < pow(256, 8) by {
        assert(i == 0 || i == 1 || i == 2 || i == 3 || i == 4 || i == 5);
    }
    assert forall|i: int| 0 <= i < b.len() implies (#[trigger] b[i]).len() < pow(256, 8) by {
        assert(i == 0 || i == 1 || i == 2 || i == 3 || i == 4 || i == 5);
    }
    framing_is_unambiguous(a, b);
    assert(a[1] == b[1] && a[2] == b[2] && a[3] == b[3] && a[4] == b[4] && a[5] == b[5]);
    be_bytes_injective(obligation.value as nat, other_obligation.value as nat, 16);
    be_bytes_injective(generation as nat, other_generation as nat, 8);
    be_bytes_injective(revision as nat, other_revision as nat, 4);
    encode_utf8_decode_utf8(protocol);
    encode_utf8_decode_utf8(other_protocol);
}

/// An arming is let through by the generation that was presented, by the generation the wake was
/// created under and by the wake's own target; then it is the machine's to answer, when it hears that
/// the presented attempt is armed at that instant.
pub proof fn an_arming_is_fenced_and_then_asked(
    op: ArmDeliverySend,
    bindings: BindingView,
    wake: WakeView,
    loaded: LoadedView,
    fence: FenceRule,
    target: TargetRule,
    machine: DeliveryMachine,
    safe: spec_fn(Seq<char>) -> bool,
)
    ensures
        op.decided(Ok(bindings), Ok(wake), Ok(loaded), fence, target, machine, safe) matches Ok(answer)
            ==> {
            &&& fence(bindings, op.request.binding_generation) is Ok
            &&& wake.binding_generation == op.request.binding_generation
            &&& target(wake, loaded.projection) is Ok
            &&& machine(
                wake.delivery,
                DeliveryEventView::ActivationArmed { attempt: op.request.attempt, at: op.now },
            ) matches Ok(applied)
            &&& answer is None <==> applied is Duplicate
            &&& answer matches Some(event) ==> event.kind == EventKind::BrowserDeliveryActivationArmed
                && names_attempt(event, wake.revision, op.request.attempt) && event.scope.obligation
                == Some(loaded.projection.id)
        },
        wake.binding_generation != op.request.binding_generation ==> op.decided(
            Ok(bindings),
            Ok(wake),
            Ok(loaded),
            fence,
            target,
            machine,
            safe,
        ) is Err,
{
    if let Ok(Some(event)) = op.decided(
        Ok(bindings),
        Ok(wake),
        Ok(loaded),
        fence,
        target,
        machine,
        safe,
    ) {
        assert(event.metadata[0].0 == "revision"@);
        assert(event.metadata[1].0 == "attempt_no"@);
    }
}

/// An outcome is the machine's to answer, when it hears of exactly what was observed of that attempt: an
/// acceptance with the message that was seen and the conversation the wake already carries or, failing
/// that, the one bound to its generation; a failure with its class; an ambiguity with its reason.
pub proof fn an_outcome_is_told_as_it_was_observed(
    op: RecordDeliveryOutcome,
    wake: WakeView,
    loaded: LoadedView,
    bindings: BindingView,
    fence: FenceRule,
    machine: DeliveryMachine,
    safe: spec_fn(Seq<char>) -> bool,
    told: DeliveryEventView,
)
    requires
        match op.request.outcome {
            DeliveryOutcome::Accepted { message } => {
                &&& told matches DeliveryEventView::AttemptAccepted { attempt, evidence, at }
                &&& attempt == op.request.attempt
                &&& at == op.now
                &&& evidence.1 == message@
                &&& wake.delivery.accepted_evidence matches Some(known) ==> evidence.0 == known.0
                &&& wake.delivery.accepted_evidence is None ==> {
                    &&& fence(bindings, wake.binding_generation) is Ok
                    &&& bindings.active is Some
                    &&& evidence.0 == bindings.active->0.conversation
                }
            },
            DeliveryOutcome::Failed { failure } => told == (DeliveryEventView::AttemptFailed {
                attempt: op.request.attempt,
                failure,
                at: op.now,
            }),
            DeliveryOutcome::Ambiguous { reason } => told == (DeliveryEventView::AttemptAmbiguous {
                attempt: op.request.attempt,
                reason,
                at: op.now,
            }),
        },
    ensures
        match machine(wake.delivery, told) {
            Err(conflict) => op.decided(Ok(wake), Ok(loaded), Ok(bindings), fence, machine, safe) matches Err(
                e,
            ) && e == StoreError::Conflict(conflict),
            Ok(Applied::Duplicate) => op.decided(
                Ok(wake),
                Ok(loaded),
                Ok(bindings),
                fence,
                machine,
                safe,
            ) matches Ok(DecidedView::Settled(state)) && state == wake.delivery.state,
            Ok(Applied::Advanced(next)) => op.decided(
                Ok(wake),
                Ok(loaded),
                Ok(bindings),
                fence,
                machine,
                safe,
            ) matches Ok(decided) ==> (decided matches DecidedView::Appends { event, plan } && plan == next
                && event.scope.obligation == Some(loaded.projection.id) && names_attempt(
                event,
                wake.revision,
                op.request.attempt,
            )),
        },
{
    if let Ok(DecidedView::Appends { event, plan }) = op.decided(
        Ok(wake),
        Ok(loaded),
        Ok(bindings),
        fence,
        machine,
        safe,
    ) {
        assert(event.metadata[1].0 == "revision"@);
        assert(event.metadata[2].0 == "attempt_no"@);
    }
}

/// An acceptance that would need the bound conversation is refused with the generation: what a stale
/// surface saw accepts nothing.
pub proof fn an_acceptance_needs_the_wakes_own_generation(
    op: RecordDeliveryOutcome,
    wake: WakeView,
    loaded: LoadedView,
    bindings: BindingView,
    fence: FenceRule,
    machine: DeliveryMachine,
    safe: spec_fn(Seq<char>) -> bool,
)
    requires
        op.request.outcome is Accepted,
        wake.delivery.accepted_evidence is None,
        fence(bindings, wake.binding_generation) is Err,
    ensures
        op.decided(Ok(wake), Ok(loaded), Ok(bindings), fence, machine, safe) is Err,
{
}

/// A promotion needs the generation that was presented to be current and to be the wake's own, and the
/// conversation that was presented to be the bound one; then it is the machine's to answer, when it
/// hears that this message was found in the bound conversation.
pub proof fn a_promotion_is_fenced_and_then_asked(
    op: ReconcileAmbiguousDelivery,
    bindings: BindingView,
    wake: WakeView,
    loaded: LoadedView,
    fence: FenceRule,
    machine: DeliveryMachine,
    safe: spec_fn(Seq<char>) -> bool,
)
    requires
        bindings.active is Some,
    ensures
        op.decided(Ok(bindings), Ok(wake), Ok(loaded), fence, machine, safe) matches Ok(decided) ==> {
            &&& fence(bindings, op.request.binding_generation) is Ok
            &&& wake.binding_generation == op.request.binding_generation
            &&& bindings.active->0.conversation == op.request.conversation@
            &&& machine(
                wake.delivery,
                DeliveryEventView::ReconciledAccepted {
                    evidence: (op.request.conversation@, op.request.message@),
                    at: op.now,
                },
            ) matches Ok(applied)
            &&& match applied {
                Applied::Duplicate => decided matches DecidedView::Settled(state) && state
                    == wake.delivery.state,
                Applied::Advanced(next) => decided matches DecidedView::Appends { event, plan } && plan
                    == next && event.kind == EventKind::BrowserDeliveryReconciled
                    && event.scope.obligation == Some(loaded.projection.id),
            }
        },
{
}

// --- The rows --------------------------------------------------------------------------------------------

/// Whether the rows of a delivery say what the machine left: the state, an accepted message only where
/// one was seen, and the event only where the state is terminal.
pub open spec fn row_says(
    row: DeliveryUpdate,
    next: DeliveryView,
    message: Option<Seq<char>>,
    terminal: Option<EventSeq>,
) -> bool {
    &&& delivery_state_named(row.state@) == Some(next.state)
    &&& match message {
        Some(seen) => row.accepted_message_ref is Some && row.accepted_message_ref->0@ == seen,
        None => row.accepted_message_ref is None,
    }
    &&& row.terminal_event_seq == (if next.terminal && terminal is Some {
        Some(terminal->0 as i64)
    } else {
        None
    })
    &&& row.accepted_event_seq == (if next.state is Accepted {
        row.terminal_event_seq
    } else {
        None
    })
}

/// Whether an attempt row says what the machine holds of that attempt, so that comparing it with the
/// replay finds nothing.
pub open spec fn attempt_says(number: i64, label: Seq<char>, attempt: Attempt) -> bool {
    &&& number == attempt.number
    &&& attempt_state_named(label) == Some(attempt.state)
}

/// An attempt row that says what the machine holds is silent when it is compared.
pub proof fn an_attempt_that_says_so_is_silent(
    key_hex: Seq<char>,
    rows: Seq<(u32, Seq<char>)>,
    number: i64,
    label: Seq<char>,
    attempt: Attempt,
)
    requires
        attempt_says(number, label, attempt),
        rows.len() > 0,
        rows.last() == (attempt.number, label),
    ensures
        attempt_compared(key_hex, rows, attempt) == Ok::<Seq<MismatchView>, StoreError>(Seq::empty()),
{
    attempt_state_round_trips(attempt.state);
}

/// A claim writes the attempt it took: its number, as claimed, at the event and the instant of the
/// claim; and the delivery in the state the machine left.
pub proof fn a_claim_writes_its_attempt(op: CreateOrClaimDelivery, plan: ClaimPlanView, seq: EventSeq)
    ensures
        op.claimed_rows(plan, seq) is Ok <==> seq <= i64::MAX,
        op.claimed_rows(plan, seq) matches Ok((attempt, delivery)) ==> {
            &&& attempt.delivery_attempt_id == op.attempt_id
            &&& attempt.attempt_no == plan.attempt
            &&& attempt_state_named(attempt.state@) == Some(AttemptState::Claimed)
            &&& attempt.claimed_event_seq == seq
            &&& attempt.started_at_ms == op.now
            &&& row_says(delivery, plan.next, None, None)
        },
{
    attempt_state_round_trips(AttemptState::Claimed);
    delivery_state_round_trips(plan.next.state);
}

/// An arming writes the presented attempt as armed, at its event.
pub proof fn an_arming_writes_its_attempt(op: ArmDeliverySend, seq: EventSeq)
    ensures
        op.armed_row(seq) is Ok <==> seq <= i64::MAX,
        op.armed_row(seq) matches Ok((row, attempt)) ==> {
            &&& row.attempt_no == op.request.attempt
            &&& attempt_state_named(row.state@) == Some(AttemptState::ActivationArmed)
            &&& row.activation_armed_event_seq == seq
            &&& attempt == op.request.attempt
        },
{
    attempt_state_round_trips(AttemptState::ActivationArmed);
}

proof fn a_numbered_attempt_is_there(attempts: Seq<Attempt>, number: AttemptNo)
    ensures
        match attempt_numbered(attempts, number) {
            Some(found) => attempts.contains(found) && found.number == number,
            None => forall|i: int| 0 <= i < attempts.len() ==> (#[trigger] attempts[i]).number != number,
        },
    decreases attempts.len(),
{
    if attempts.len() > 0 {
        if attempts[0].number != number {
            let rest = attempts.drop_first();
            a_numbered_attempt_is_there(rest, number);
            match attempt_numbered(attempts, number) {
                Some(found) => {
                    let k = choose|k: int| 0 <= k < rest.len() && rest[k] == found;
                    assert(attempts[k + 1] == found);
                },
                None => {
                    assert forall|i: int| 0 <= i < attempts.len() implies (#[trigger] attempts[i]).number
                        != number by {
                        if i > 0 {
                            assert(rest[i - 1] == attempts[i]);
                        }
                    }
                },
            }
        }
    }
}

/// An outcome writes the attempt as the machine left it: its row has the number that was presented, the
/// state, the failure and the ambiguity of the machine's attempt of that number, at the event and the
/// instant of the outcome. The delivery's row names the machine's state, and only an acceptance records
/// a message or clears the attention about the foreman. The state that is answered is the machine's.
pub proof fn an_outcome_writes_what_the_machine_left(
    op: RecordDeliveryOutcome,
    next: DeliveryView,
    seq: EventSeq,
)
    ensures
        op.committed(next, seq) matches Ok((rows, state)) ==> {
            &&& exists|attempt: Attempt|
                {
                    &&& #[trigger] next.attempts.contains(attempt)
                    &&& attempt.number == op.request.attempt
                    &&& attempt_says(rows.attempt.attempt_no, rows.attempt.state@, attempt)
                    &&& match attempt.failure {
                        Some(class) => rows.attempt.failure_class is Some && failure_class_named(
                            rows.attempt.failure_class->0@,
                        ) == Some(class),
                        None => rows.attempt.failure_class is None,
                    }
                    &&& match attempt.ambiguity {
                        Some(reason) => rows.attempt.evidence_class is Some && ambiguity_named(
                            rows.attempt.evidence_class->0@,
                        ) == Some(reason),
                        None => rows.attempt.evidence_class is None,
                    }
                }
            &&& rows.attempt.terminal_event_seq == seq
            &&& rows.attempt.finished_at_ms == op.now
            &&& row_says(
                rows.delivery,
                next,
                match op.request.outcome {
                    DeliveryOutcome::Accepted { message } => Some(message@),
                    _ => None,
                },
                Some(seq),
            )
            &&& rows.resolves_unreachable <==> op.request.outcome is Accepted
            &&& state == next.state
        },
        (forall|i: int| 0 <= i < next.attempts.len() ==> (#[trigger] next.attempts[i]).number
            != op.request.attempt) ==> op.committed(next, seq) is Err,
{
    a_numbered_attempt_is_there(next.attempts, op.request.attempt);
    delivery_state_round_trips(next.state);
    if let Some(attempt) = attempt_numbered(next.attempts, op.request.attempt) {
        attempt_state_round_trips(attempt.state);
        if let Some(class) = attempt.failure {
            failure_class_round_trips(class);
        }
        if let Some(reason) = attempt.ambiguity {
            ambiguity_round_trips(reason);
        }
        assert(next.attempts.contains(attempt));
        if forall|i: int| 0 <= i < next.attempts.len() ==> (#[trigger] next.attempts[i]).number
            != op.request.attempt {
            let k = choose|k: int| 0 <= k < next.attempts.len() && next.attempts[k] == attempt;
            assert(next.attempts[k].number != op.request.attempt);
        }
    }
}

/// A machine that takes a send for accepted only on an acceptance: any other outcome leaves its attempt
/// in another state.
pub open spec fn accepts_on_acceptance_alone(machine: DeliveryMachine) -> bool {
    forall|delivery: DeliveryView, told: DeliveryEventView|
        (#[trigger] machine(delivery, told)) matches Ok(Applied::Advanced(next)) ==> {
            &&& told matches DeliveryEventView::AttemptFailed { attempt, .. } ==> forall|i: int|
                0 <= i < next.attempts.len() && (#[trigger] next.attempts[i]).number == attempt
                    ==> !(next.attempts[i].state is Accepted)
            &&& told matches DeliveryEventView::AttemptAmbiguous { attempt, .. } ==> forall|i: int|
                0 <= i < next.attempts.len() && (#[trigger] next.attempts[i]).number == attempt
                    ==> !(next.attempts[i].state is Accepted)
        }
}

/// Nothing but an acceptance makes an attempt's row say accepted: a failed or an ambiguous send never
/// does, whatever the rest of the delivery holds.
pub proof fn only_an_acceptance_writes_accepted(
    op: RecordDeliveryOutcome,
    wake: WakeView,
    loaded: LoadedView,
    bindings: BindingView,
    fence: FenceRule,
    machine: DeliveryMachine,
    safe: spec_fn(Seq<char>) -> bool,
    seq: EventSeq,
)
    requires
        accepts_on_acceptance_alone(machine),
        !(op.request.outcome is Accepted),
    ensures
        op.decided(Ok(wake), Ok(loaded), Ok(bindings), fence, machine, safe) matches Ok(decided) ==> (
        decided matches DecidedView::Appends { event, plan } ==> (op.committed(plan, seq) matches Ok(
            (rows, _),
        ) ==> attempt_state_named(rows.attempt.state@) != Some(AttemptState::Accepted))),
{
    if let Ok(DecidedView::Appends { event, plan }) = op.decided(
        Ok(wake),
        Ok(loaded),
        Ok(bindings),
        fence,
        machine,
        safe,
    ) {
        let told = match op.request.outcome {
            DeliveryOutcome::Failed { failure } => DeliveryEventView::AttemptFailed {
                attempt: op.request.attempt,
                failure,
                at: op.now,
            },
            DeliveryOutcome::Ambiguous { reason } => DeliveryEventView::AttemptAmbiguous {
                attempt: op.request.attempt,
                reason,
                at: op.now,
            },
            _ => arbitrary(),
        };
        assert(machine(wake.delivery, told) == Ok::<Applied<DeliveryView>, Conflict>(
            Applied::Advanced(plan),
        ));
        an_outcome_writes_what_the_machine_left(op, plan, seq);
        if op.committed(plan, seq) is Ok {
            let rows = op.committed(plan, seq)->Ok_0.0;
            let attempt = choose|attempt: Attempt|
                #[trigger] plan.attempts.contains(attempt) && attempt.number == op.request.attempt
                    && attempt_says(rows.attempt.attempt_no, rows.attempt.state@, attempt);
            let i = choose|i: int| 0 <= i < plan.attempts.len() && plan.attempts[i] == attempt;
            assert(plan.attempts[i].number == op.request.attempt);
        }
    }
}

/// A promotion promotes exactly the attempts the machine holds as accepted, in order, and none of the
/// others.
pub proof fn a_promotion_promotes_what_is_accepted(attempts: Seq<Attempt>)
    ensures
        forall|number: i64| #[trigger]
            accepted_numbers(attempts).contains(number) <==> exists|i: int|
                0 <= i < attempts.len() && (#[trigger] attempts[i]).state is Accepted
                    && attempts[i].number as i64 == number,
    decreases attempts.len(),
{
    if attempts.len() > 0 {
        let rest = attempts.drop_last();
        let n = attempts.len() - 1;
        a_promotion_promotes_what_is_accepted(rest);
        let less = accepted_numbers(rest);
        let more = accepted_numbers(attempts);
        assert forall|number: i64| #[trigger] more.contains(number) <==> exists|i: int|
            0 <= i < attempts.len() && (#[trigger] attempts[i]).state is Accepted && attempts[i].number as i64
                == number by {
            if less.contains(number) {
                let i = choose|i: int|
                    0 <= i < rest.len() && (#[trigger] rest[i]).state is Accepted && rest[i].number as i64
                        == number;
                assert(attempts[i] == rest[i]);
                let k = choose|k: int| 0 <= k < less.len() && less[k] == number;
                assert(more[k] == number);
            }
            if more.contains(number) {
                let k = choose|k: int| 0 <= k < more.len() && more[k] == number;
                if k < less.len() {
                    assert(less[k] == number);
                    assert(less.contains(number));
                } else {
                    assert(attempts[n].state is Accepted && attempts[n].number as i64 == number);
                }
            }
            if exists|i: int|
                0 <= i < attempts.len() && (#[trigger] attempts[i]).state is Accepted
                    && attempts[i].number as i64 == number {
                let i = choose|i: int|
                    0 <= i < attempts.len() && (#[trigger] attempts[i]).state is Accepted
                        && attempts[i].number as i64 == number;
                if i < n {
                    assert(rest[i] == attempts[i]);
                    assert(less.contains(number));
                } else {
                    assert(more[less.len() as int] == number);
                }
            }
        }
    }
}

/// A promotion writes the accepted attempts and the delivery as the machine left them, with the message
/// that was found, at its event and its instant.
pub proof fn a_promotion_writes_what_the_machine_left(
    op: ReconcileAmbiguousDelivery,
    next: DeliveryView,
    seq: EventSeq,
)
    ensures
        op.promoted(next, seq) matches Ok(rows) ==> {
            &&& forall|number: i64| #[trigger]
                rows.promoted.contains(number) <==> exists|i: int|
                    0 <= i < next.attempts.len() && (#[trigger] next.attempts[i]).state is Accepted
                        && next.attempts[i].number as i64 == number
            &&& attempt_state_named(rows.state@) == Some(AttemptState::Accepted)
            &&& rows.finished_at_ms == op.now
            &&& row_says(rows.delivery, next, Some(op.request.message@), Some(seq))
            &&& rows.answer == next.state
        },
{
    a_promotion_promotes_what_is_accepted(next.attempts);
    attempt_state_round_trips(AttemptState::Accepted);
    delivery_state_round_trips(next.state);
}

} // verus!
