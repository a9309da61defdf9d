//! What each fenced operation decides from what it read, before anything is appended.
//!
//! Everything an operation reads is read under one write lock, and no read changes what another
//! finds. So the reads are handed over as they came out, each with its own failure, and the order
//! in which fences, reads and rules are consulted is fixed here: the first refusal is the answer,
//! and a read is looked at only where everything before it passed.
use vstd::prelude::*;
use crate::domain::binding::{fence_is, fence_total, BindingLedger, BindingView, FenceRule};
use crate::domain::claim::{
    ack_is, mint_is, AckRequest, AckRule, AckView, ClaimView, ForemanClaim, MintReply, MintRule, Minted,
    MintedView, ResumeRequest,
};
use crate::domain::conflict::Conflict;
use crate::domain::delivery::{
    attempts_are, attempts_total, claims_leave_an_attempt, target_is, BrowserWake, Delivery,
    DeliveryEvent, DeliveryEventView, DeliveryMachine, DeliveryReply, DeliveryState, DeliveryView,
    TargetRule, WakeModel, WakeRules, WakeView,
};
use crate::domain::fence::{
    rule_is, rule_total, BindingGeneration, DeliveryRevision, EventSeq, ObligationVersion,
    SafeToken, SourceRef, SourceView, Timestamp,
};
use crate::domain::health::{HealthCondition, HealthLedger};
use crate::domain::id::{
    canonical_text, canonical_text_round_trips, ForemanBindingId, HealthConditionId, Id,
    ObligationId,
};
use crate::domain::obligation::{
    machine_is, machine_total, source_gate_is, version_gate_is, Applied, CompletionReceipts,
    Obligation, ObligationEvent, ObligationMachine, ObligationReply, ObligationView, OutcomeView,
    ReceiptsView, WorkerOutcome,
};
use crate::store::codec::{optional_id_column, text_view};
use crate::store::error::{chain, corrupt, CorruptReason, StoreError};
use crate::store::event::{
    a_second_append_is_a_duplicate, holds_source, ledger_append, one_row_per_source, EventView,
    LedgerRow, NewEvent,
};
use crate::store::labels::{claim_state_label, ClaimLifecycle};
use crate::store::load::obligation::{LoadedObligation, LoadedView};
use crate::store::ops::claim::{
    an_acknowledgement_closes_claim_and_work_together, AcknowledgeObligation, Acknowledged, DeliverHandoff, MintForemanClaim,
};
use crate::store::ops::delivery::{
    binding_conversation, delivery_step_of, fenced_conversation,
    generation_required, ArmDeliverySend, ClaimPlan, ClaimPlanView, CreateOrClaimDelivery,
    DeliveryInsertView, DeliveryStep, DeliveryStepView, ReconcileAmbiguousDelivery,
    RecordDeliveryOutcome,
};
use crate::store::ops::gated;
use crate::store::ops::health::{
    HealthConditionRecorded, RaiseCondition, Resolution, ResolveCondition,
};
use crate::store::ops::worker::{
    classifier_is, stayed, step_of, CancelObligation, ObligationAdvanced, PublishWorkerResult,
    PublishedResult, Step, StepView,
};

verus! {

/// A read on values alone, or its failure.
pub open spec fn read_view<T: View>(r: Result<T, StoreError>) -> Result<T::V, StoreError> {
    match r {
        Ok(value) => Ok(value@),
        Err(e) => Err(e),
    }
}

/// A lookup on values alone, or its failure.
pub open spec fn found_view<T: View>(r: Result<Option<T>, StoreError>) -> Result<
    Option<T::V>,
    StoreError,
> {
    match r {
        Ok(Some(value)) => Ok(Some(value@)),
        Ok(None) => Ok(None),
        Err(e) => Err(e),
    }
}

/// What an operation decided.
#[derive(Debug, PartialEq, Eq)]
pub enum Decided<O, P> {
    /// Nothing is left to do; this is what is reported.
    Settled(O),
    /// The event is to be appended, and what follows from it written.
    Appends {
        event: NewEvent,
        plan: P,
    },
}

/// What an operation decided, on values alone.
pub enum DecidedView<O, P> {
    Settled(O),
    Appends { event: EventView, plan: P },
}

/// A decision on values alone, or the failure.
pub open spec fn decided_view<O, P: View>(r: Result<Decided<O, P>, StoreError>) -> Result<
    DecidedView<O, P::V>,
    StoreError,
> {
    match r {
        Ok(Decided::Settled(output)) => Ok(DecidedView::Settled(output)),
        Ok(Decided::Appends { event, plan }) => Ok(
            DecidedView::Appends { event: event@, plan: plan@ },
        ),
        Err(e) => Err(e),
    }
}

/// An obligation that is about to move, and where to.
#[derive(Debug, PartialEq, Eq)]
pub struct Move {
    pub loaded: LoadedObligation,
    pub after: Obligation,
}

impl View for Move {
    type V = (LoadedView, ObligationView);

    open spec fn view(&self) -> (LoadedView, ObligationView) {
        (self.loaded@, self.after@)
    }
}

// --- Worker evidence -----------------------------------------------------------------------------

impl PublishWorkerResult {
    /// The confirmed run, the obligation, and the event to append: the receipts are arbitrated
    /// before the obligation is read.
    pub open spec fn decided(
        self,
        loaded: Result<LoadedView, StoreError>,
        model: spec_fn(ReceiptsView) -> OutcomeView,
    ) -> Result<(Seq<char>, LoadedView, EventView), StoreError> {
        chain(
            self.confirmed(model),
            |run_ref: Seq<char>|
                chain(
                    loaded,
                    |work: LoadedView|
                        chain(
                            self.published_event(work.identity, run_ref),
                            |event: EventView| Ok((run_ref, work, event)),
                        ),
                ),
        )
    }

    /// Decides the publication.
    pub fn decide<C: Fn(&CompletionReceipts) -> WorkerOutcome>(
        &self,
        loaded: Result<LoadedObligation, StoreError>,
        classify: &C,
    ) -> (r: Result<(SafeToken, LoadedObligation, NewEvent), StoreError>)
        requires
            forall|c: &CompletionReceipts| call_requires(*classify, (c,)),
        ensures
            forall|model: spec_fn(ReceiptsView) -> OutcomeView| #[trigger]
                classifier_is(*classify, model) ==> (match r {
                    Ok((run_ref, work, event)) => self.decided(read_view(loaded), model) == Ok::<
                        (Seq<char>, LoadedView, EventView),
                        StoreError,
                    >((run_ref@, work@, event@)),
                    Err(e) => self.decided(read_view(loaded), model) == Err::<
                        (Seq<char>, LoadedView, EventView),
                        StoreError,
                    >(e),
                }),
    {
        let run_ref = self.confirm(classify)?;
        let work = loaded?;
        let event = self.event(work.identity, &run_ref)?;
        Ok((run_ref, work, event))
    }
}

/// What a step of the obligation machine leaves to append.
pub open spec fn stepped(
    work: LoadedView,
    step: Result<StepView, StoreError>,
    event: Result<EventView, StoreError>,
) -> Result<DecidedView<ObligationAdvanced, (LoadedView, ObligationView)>, StoreError> {
    chain(
        step,
        |found: StepView|
            match found {
                StepView::Settled(output) => Ok(DecidedView::Settled(output)),
                StepView::Moves(after) => chain(
                    event,
                    |event: EventView| Ok(DecidedView::Appends { event, plan: (work, after) }),
                ),
            },
    )
}

impl CancelObligation {
    /// The cancellation, or that the obligation already stands where it would put it.
    pub open spec fn decided(
        self,
        loaded: Result<LoadedView, StoreError>,
        machine: ObligationMachine,
    ) -> Result<DecidedView<ObligationAdvanced, (LoadedView, ObligationView)>, StoreError> {
        chain(
            loaded,
            |work: LoadedView|
                stepped(
                    work,
                    step_of(machine, work.projection, self.transition()),
                    Ok(self.cancelled_event(work.identity)),
                ),
        )
    }

    /// Decides the cancellation.
    pub fn decide<A: Fn(&Obligation, &ObligationEvent) -> ObligationReply>(
        &self,
        loaded: Result<LoadedObligation, StoreError>,
        apply: &A,
    ) -> (r: Result<Decided<ObligationAdvanced, Move>, StoreError>)
        requires
            machine_total(*apply),
        ensures
            forall|machine: ObligationMachine| #[trigger]
                machine_is(*apply, machine) ==> decided_view(r) == self.decided(
                    read_view(loaded),
                    machine,
                ),
    {
        let loaded = loaded?;
        match self.cancel(&loaded.projection, apply)? {
            Step::Settled(output) => Ok(Decided::Settled(output)),
            Step::Moves(after) => {
                let event = self.event(loaded.identity);
                Ok(Decided::Appends { event, plan: Move { loaded, after } })
            },
        }
    }
}

// --- Claims --------------------------------------------------------------------------------------

impl MintForemanClaim {
    /// The obligation, the claim as the rule minted it, and the event to append.
    pub open spec fn decided(
        self,
        bindings: Result<BindingView, StoreError>,
        loaded: Result<LoadedView, StoreError>,
        wake: Result<WakeView, StoreError>,
        rule: MintRule,
        safe: spec_fn(Seq<char>) -> bool,
    ) -> Result<(LoadedView, MintedView, EventView), StoreError> {
        chain(
            bindings,
            |bound: BindingView|
                chain(
                    loaded,
                    |work: LoadedView|
                        chain(
                            wake,
                            |presented: WakeView|
                                chain(
                                    self.minted(bound, presented, work.projection, rule),
                                    |minted: MintedView|
                                        chain(
                                            self.minted_event(work.identity, safe),
                                            |event: EventView| Ok((work, minted, event)),
                                        ),
                                ),
                        ),
                ),
        )
    }

    /// Decides the claim.
    pub fn decide<
        M: Fn(&ResumeRequest, &BindingLedger, &BrowserWake, &Obligation) -> MintReply,
        S: Fn(&str) -> bool,
    >(
        &self,
        bindings: Result<BindingLedger, StoreError>,
        loaded: Result<LoadedObligation, StoreError>,
        wake: Result<BrowserWake, StoreError>,
        mint: &M,
        safe: &S,
    ) -> (r: Result<(LoadedObligation, Minted, NewEvent), StoreError>)
        requires
            forall|q: &ResumeRequest, b: &BindingLedger, w: &BrowserWake, o: &Obligation|
                call_requires(*mint, (q, b, w, o)),
            rule_total(*safe),
        ensures
            forall|rule: MintRule, tokens: spec_fn(Seq<char>) -> bool|
                #![trigger mint_is(*mint, rule), rule_is(*safe, tokens)]
                mint_is(*mint, rule) && rule_is(*safe, tokens) ==> ({
                    let decided = self.decided(
                        read_view(bindings),
                        read_view(loaded),
                        read_view(wake),
                        rule,
                        tokens,
                    );
                    match r {
                        Ok((work, minted, event)) => decided == Ok::<
                            (LoadedView, MintedView, EventView),
                            StoreError,
                        >((work@, minted@, event@)),
                        Err(e) => decided == Err::<(LoadedView, MintedView, EventView), StoreError>(e),
                    }
                }),
    {
        let bound = bindings?;
        let work = loaded?;
        let presented = wake?;
        let minted = self.mint(&bound, &presented, &work.projection, mint)?;
        let event = self.event(work.identity, safe)?;
        Ok((work, minted, event))
    }
}

impl DeliverHandoff {
    /// The handoff, or that it was already delivered.
    pub open spec fn decided(
        self,
        loaded: Result<LoadedView, StoreError>,
        machine: ObligationMachine,
        safe: spec_fn(Seq<char>) -> bool,
    ) -> Result<DecidedView<ObligationAdvanced, (LoadedView, ObligationView)>, StoreError> {
        chain(
            loaded,
            |work: LoadedView|
                stepped(
                    work,
                    step_of(machine, work.projection, self.transition()),
                    self.handoff_event(work.identity, safe),
                ),
        )
    }

    /// Decides the handoff.
    pub fn decide<
        A: Fn(&Obligation, &ObligationEvent) -> ObligationReply,
        S: Fn(&str) -> bool,
    >(&self, loaded: Result<LoadedObligation, StoreError>, apply: &A, safe: &S) -> (r: Result<
        Decided<ObligationAdvanced, Move>,
        StoreError,
    >)
        requires
            machine_total(*apply),
            rule_total(*safe),
        ensures
            forall|machine: ObligationMachine, tokens: spec_fn(Seq<char>) -> bool|
                #![trigger machine_is(*apply, machine), rule_is(*safe, tokens)]
                machine_is(*apply, machine) && rule_is(*safe, tokens) ==> decided_view(r)
                    == self.decided(read_view(loaded), machine, tokens),
    {
        let loaded = loaded?;
        match self.hand_over(&loaded.projection, apply)? {
            Step::Settled(output) => Ok(Decided::Settled(output)),
            Step::Moves(after) => {
                let event = self.event(loaded.identity, safe)?;
                Ok(Decided::Appends { event, plan: Move { loaded, after } })
            },
        }
    }
}

impl AcknowledgeObligation {
    /// The acknowledgement, or that exactly this one already committed.
    pub open spec fn decided(
        self,
        bindings: Result<BindingView, StoreError>,
        loaded: Result<LoadedView, StoreError>,
        claim: Result<ClaimView, StoreError>,
        rule: AckRule,
        safe: spec_fn(Seq<char>) -> bool,
    ) -> Result<DecidedView<Acknowledged, (LoadedView, ObligationView)>, StoreError> {
        chain(
            bindings,
            |bound: BindingView|
                chain(
                    loaded,
                    |work: LoadedView|
                        chain(
                            claim,
                            |held: ClaimView|
                                chain(
                                    self.answered(bound, held, work.projection, rule),
                                    |applied: Applied<ObligationView>|
                                        match applied {
                                            Applied::Duplicate => Ok(
                                                DecidedView::Settled(
                                                    Acknowledged {
                                                        obligation: stayed(work.projection),
                                                        already_committed: true,
                                                    },
                                                ),
                                            ),
                                            Applied::Advanced(after) => chain(
                                                self.acked_event(work.identity, safe),
                                                |event: EventView|
                                                    Ok(
                                                        DecidedView::Appends {
                                                            event,
                                                            plan: (work, after),
                                                        },
                                                    ),
                                            ),
                                        },
                                ),
                        ),
                ),
        )
    }

    /// Decides the acknowledgement.
    pub fn decide<
        K: Fn(&AckRequest, &BindingLedger, &ForemanClaim, &Obligation) -> ObligationReply,
        S: Fn(&str) -> bool,
    >(
        &self,
        bindings: Result<BindingLedger, StoreError>,
        loaded: Result<LoadedObligation, StoreError>,
        claim: Result<ForemanClaim, StoreError>,
        acknowledge: &K,
        safe: &S,
    ) -> (r: Result<Decided<Acknowledged, Move>, StoreError>)
        requires
            forall|q: &AckRequest, b: &BindingLedger, c: &ForemanClaim, o: &Obligation|
                call_requires(*acknowledge, (q, b, c, o)),
            rule_total(*safe),
        ensures
            forall|rule: AckRule, tokens: spec_fn(Seq<char>) -> bool|
                #![trigger ack_is(*acknowledge, rule), rule_is(*safe, tokens)]
                ack_is(*acknowledge, rule) && rule_is(*safe, tokens) ==> decided_view(r)
                    == self.decided(
                    read_view(bindings),
                    read_view(loaded),
                    read_view(claim),
                    rule,
                    tokens,
                ),
    {
        let bound = bindings?;
        let loaded = loaded?;
        let held = claim?;
        match self.acknowledge(&bound, &held, &loaded.projection, acknowledge)? {
            Applied::Duplicate => Ok(Decided::Settled(Self::repeated(&loaded.projection))),
            Applied::Advanced(after) => {
                let event = self.event(loaded.identity, safe)?;
                Ok(Decided::Appends { event, plan: Move { loaded, after } })
            },
        }
    }
}

// --- Wakes ---------------------------------------------------------------------------------------

impl CreateOrClaimDelivery {
    /// The claim and the event to append: the generation, then the obligation's version and source,
    /// then the wake the key finds, then that wake's own target, then its attempt machine.
    pub open spec fn decided(
        self,
        bindings: Result<BindingView, StoreError>,
        loaded: Result<LoadedView, StoreError>,
        found: Result<Option<WakeView>, StoreError>,
        fence: FenceRule,
        version: spec_fn(ObligationView, ObligationVersion) -> Result<(), Conflict>,
        source: spec_fn(ObligationView, SourceView) -> Result<(), Conflict>,
        target: TargetRule,
        model: WakeModel,
    ) -> Result<(ClaimPlanView, EventView), StoreError> {
        chain(
            bindings,
            |bound: BindingView|
                chain(
                    self.fenced_binding(bound, fence),
                    |binding: ForemanBindingId|
                        chain(
                            loaded,
                            |work: LoadedView|
                                chain(
                                    self.fresh(work.projection, version, source),
                                    |_u: ()|
                                        chain(
                                            found,
                                            |wake: Option<WakeView>|
                                                self.planned(wake, work, binding, target, model),
                                        ),
                                ),
                        ),
                ),
        )
    }

    /// The version fence, then the source fence.
    pub open spec fn fresh(
        self,
        obligation: ObligationView,
        version: spec_fn(ObligationView, ObligationVersion) -> Result<(), Conflict>,
        source: spec_fn(ObligationView, SourceView) -> Result<(), Conflict>,
    ) -> Result<(), StoreError> {
        chain(
            gated(version(obligation, self.request.expected_version)),
            |_u: ()| gated(source(obligation, self.request.expected_source@)),
        )
    }

    /// The claim of a wake that was looked up, and its event.
    pub open spec fn planned(
        self,
        found: Option<WakeView>,
        work: LoadedView,
        binding: ForemanBindingId,
        target: TargetRule,
        model: WakeModel,
    ) -> Result<(ClaimPlanView, EventView), StoreError> {
        chain(
            chain(
                self.scheduled(found, work, binding, model),
                |s: (WakeView, Option<DeliveryInsertView>)|
                    self.claimed(s.0, s.1, work.projection, target, model.apply),
            ),
            |plan: ClaimPlanView|
                chain(
                    self.claimed_event(work.identity.task, plan, model.rule),
                    |event: EventView| Ok((plan, event)),
                ),
        )
    }

    /// Decides the claim.
    pub fn decide<
        A: Fn(&Delivery, &DeliveryEvent) -> DeliveryReply,
        P: Fn(u32) -> Delivery,
        K: Fn(ObligationId, BindingGeneration, DeliveryRevision) -> String,
        I: Fn(&str) -> bool,
        H: Fn(&BrowserWake) -> bool,
        S: Fn(&str) -> bool,
        F: Fn(&BindingLedger, BindingGeneration) -> Result<(), Conflict>,
        V: Fn(&Obligation, ObligationVersion) -> Result<(), Conflict>,
        Q: Fn(&Obligation, &SourceRef) -> Result<(), Conflict>,
        T: Fn(&BrowserWake, &Obligation) -> Result<(), Conflict>,
    >(
        &self,
        bindings: Result<BindingLedger, StoreError>,
        loaded: Result<LoadedObligation, StoreError>,
        found: Result<Option<BrowserWake>, StoreError>,
        fence: &F,
        version: &V,
        source: &Q,
        target: &T,
        rules: &WakeRules<A, P, K, I, H, S>,
    ) -> (r: Result<(ClaimPlan, NewEvent), StoreError>)
        requires
            rules.total(),
            claims_leave_an_attempt(rules.apply),
            fence_total(*fence),
            forall|o: &Obligation, v: ObligationVersion| call_requires(*version, (o, v)),
            forall|o: &Obligation, s: &SourceRef| call_requires(*source, (o, s)),
            forall|w: &BrowserWake, o: &Obligation| call_requires(*target, (w, o)),
        ensures
            forall|
                fence_rule: FenceRule,
                version_rule: spec_fn(ObligationView, ObligationVersion) -> Result<(), Conflict>,
                source_rule: spec_fn(ObligationView, SourceView) -> Result<(), Conflict>,
                target_rule: TargetRule,
                model: WakeModel,
            |
                #![trigger fence_is(*fence, fence_rule), version_gate_is(*version, version_rule), source_gate_is(*source, source_rule), target_is(*target, target_rule), rules.follows(model)]
                fence_is(*fence, fence_rule) && version_gate_is(*version, version_rule)
                    && source_gate_is(*source, source_rule) && target_is(*target, target_rule)
                    && rules.follows(model) ==> ({
                    let decided = self.decided(
                        read_view(bindings),
                        read_view(loaded),
                        found_view(found),
                        fence_rule,
                        version_rule,
                        source_rule,
                        target_rule,
                        model,
                    );
                    match r {
                        Ok((plan, event)) => decided == Ok::<(ClaimPlanView, EventView), StoreError>(
                            (plan@, event@),
                        ),
                        Err(e) => decided == Err::<(ClaimPlanView, EventView), StoreError>(e),
                    }
                }),
    {
        let bound = bindings?;
        let binding = self.binding(&bound, fence)?;
        let work = loaded?;
        self.current(&work.projection, version, source)?;
        let wake = found?;
        let plan = self.plan(wake, &work, binding, rules, target)?;
        let event = self.event(work.identity.task, &plan, &rules.safe)?;
        Ok((plan, event))
    }
}

impl ArmDeliverySend {
    /// The event to append, or nothing where the attempt is armed already: the generation, then
    /// the wake, then the generation it was created under, then its target, then its machine.
    pub open spec fn decided(
        self,
        bindings: Result<BindingView, StoreError>,
        wake: Result<WakeView, StoreError>,
        loaded: Result<LoadedView, StoreError>,
        fence: FenceRule,
        target: TargetRule,
        machine: DeliveryMachine,
        safe: spec_fn(Seq<char>) -> bool,
    ) -> Result<Option<EventView>, StoreError> {
        chain(
            bindings,
            |bound: BindingView|
                chain(
                    gated(fence(bound, self.request.binding_generation)),
                    |_u: ()|
                        chain(
                            wake,
                            |held: WakeView|
                                chain(
                                    generation_required(self.request.binding_generation, held),
                                    |_v: ()|
                                        chain(
                                            loaded,
                                            |work: LoadedView|
                                                self.to_append(held, work, target, machine, safe),
                                        ),
                                ),
                        ),
                ),
        )
    }

    /// The event of arming a wake, where it is not armed already.
    pub open spec fn to_append(
        self,
        wake: WakeView,
        work: LoadedView,
        target: TargetRule,
        machine: DeliveryMachine,
        safe: spec_fn(Seq<char>) -> bool,
    ) -> Result<Option<EventView>, StoreError> {
        chain(
            self.armed(wake, work.projection, target, machine),
            |applied: Applied<DeliveryView>|
                match applied {
                    Applied::Duplicate => Ok(None),
                    Applied::Advanced(_) => chain(
                        self.armed_event(
                            work.identity.task,
                            work.projection.id,
                            wake.revision,
                            safe,
                        ),
                        |event: EventView| Ok(Some(event)),
                    ),
                },
        )
    }

    /// Decides the arming. The obligation is the one the wake targets; where the wake could not be
    /// read it is not looked at.
    pub fn decide<
        F: Fn(&BindingLedger, BindingGeneration) -> Result<(), Conflict>,
        T: Fn(&BrowserWake, &Obligation) -> Result<(), Conflict>,
        A: Fn(&Delivery, &DeliveryEvent) -> DeliveryReply,
        S: Fn(&str) -> bool,
    >(
        &self,
        bindings: Result<BindingLedger, StoreError>,
        wake: Result<BrowserWake, StoreError>,
        loaded: Result<LoadedObligation, StoreError>,
        fence: &F,
        target: &T,
        apply: &A,
        safe: &S,
    ) -> (r: Result<Option<NewEvent>, StoreError>)
        requires
            fence_total(*fence),
            forall|w: &BrowserWake, o: &Obligation| call_requires(*target, (w, o)),
            attempts_total(*apply),
            rule_total(*safe),
        ensures
            forall|
                fence_rule: FenceRule,
                target_rule: TargetRule,
                machine: DeliveryMachine,
                tokens: spec_fn(Seq<char>) -> bool,
            |
                #![trigger fence_is(*fence, fence_rule), target_is(*target, target_rule), attempts_are(*apply, machine), rule_is(*safe, tokens)]
                fence_is(*fence, fence_rule) && target_is(*target, target_rule) && attempts_are(
                    *apply,
                    machine,
                ) && rule_is(*safe, tokens) ==> found_view(r) == self.decided(
                    read_view(bindings),
                    read_view(wake),
                    read_view(loaded),
                    fence_rule,
                    target_rule,
                    machine,
                    tokens,
                ),
    {
        let bound = bindings?;
        self.fenced(&bound, fence)?;
        let held = wake?;
        self.same_generation(&held)?;
        let work = loaded?;
        match self.arm(&held, &work.projection, target, apply)? {
            Applied::Duplicate => Ok(None),
            Applied::Advanced(_) => {
                let event = self.event(work.identity.task, work.projection.id, held.revision, safe)?;
                Ok(Some(event))
            },
        }
    }
}

/// What a step of the attempt machine leaves to append.
pub open spec fn delivery_stepped(
    step: Result<DeliveryStepView, StoreError>,
    event: Result<EventView, StoreError>,
) -> Result<DecidedView<DeliveryState, DeliveryView>, StoreError> {
    chain(
        step,
        |found: DeliveryStepView|
            match found {
                DeliveryStepView::Settled(state) => Ok(DecidedView::Settled(state)),
                DeliveryStepView::Moves(next) => chain(
                    event,
                    |event: EventView| Ok(DecidedView::Appends { event, plan: next }),
                ),
            },
    )
}

impl RecordDeliveryOutcome {
    /// The conversation an acceptance is bound to, where the wake carries none yet.
    pub open spec fn bound_surface(
        self,
        wake: WakeView,
        bindings: Result<BindingView, StoreError>,
        fence: FenceRule,
    ) -> Result<Option<Seq<char>>, StoreError> {
        if self.needs_conversation(wake) {
            chain(
                bindings,
                |bound: BindingView|
                    chain(
                        fenced_conversation(bound, wake.binding_generation, fence),
                        |conversation: Seq<char>| Ok(Some(conversation)),
                    ),
            )
        } else {
            Ok(None)
        }
    }

    /// The outcome, or that it is already accounted for.
    pub open spec fn decided(
        self,
        wake: Result<WakeView, StoreError>,
        loaded: Result<LoadedView, StoreError>,
        bindings: Result<BindingView, StoreError>,
        fence: FenceRule,
        machine: DeliveryMachine,
        safe: spec_fn(Seq<char>) -> bool,
    ) -> Result<DecidedView<DeliveryState, DeliveryView>, StoreError> {
        chain(
            wake,
            |held: WakeView|
                chain(
                    loaded,
                    |work: LoadedView|
                        chain(
                            self.bound_surface(held, bindings, fence),
                            |bound: Option<Seq<char>>|
                                delivery_stepped(
                                    delivery_step_of(
                                        machine,
                                        held.delivery,
                                        self.transition(held, bound),
                                    ),
                                    self.outcome_event(
                                        work.identity.task,
                                        work.projection.id,
                                        held.revision,
                                        safe,
                                    ),
                                ),
                        ),
                ),
        )
    }

    fn conversation<F: Fn(&BindingLedger, BindingGeneration) -> Result<(), Conflict>>(
        &self,
        wake: &BrowserWake,
        bindings: Result<BindingLedger, StoreError>,
        fence: &F,
    ) -> (r: Result<Option<SafeToken>, StoreError>)
        requires
            fence_total(*fence),
        ensures
            r is Ok && self.needs_conversation(wake@) ==> r->Ok_0 is Some,
            forall|rule: FenceRule| #[trigger]
                fence_is(*fence, rule) ==> found_view(r) == self.bound_surface(
                    wake@,
                    read_view(bindings),
                    rule,
                ),
    {
        if self.needs_binding(wake) {
            let bound = bindings?;
            let conversation = binding_conversation(&bound, wake.binding_generation, fence)?;
            Ok(Some(conversation))
        } else {
            Ok(None)
        }
    }

    /// Decides the outcome. The obligation is the one the wake targets, and the bindings are looked
    /// at only where an acceptance needs the bound conversation.
    pub fn decide<
        F: Fn(&BindingLedger, BindingGeneration) -> Result<(), Conflict>,
        A: Fn(&Delivery, &DeliveryEvent) -> DeliveryReply,
        S: Fn(&str) -> bool,
    >(
        &self,
        wake: Result<BrowserWake, StoreError>,
        loaded: Result<LoadedObligation, StoreError>,
        bindings: Result<BindingLedger, StoreError>,
        fence: &F,
        apply: &A,
        safe: &S,
    ) -> (r: Result<Decided<DeliveryState, Delivery>, StoreError>)
        requires
            fence_total(*fence),
            attempts_total(*apply),
            rule_total(*safe),
        ensures
            forall|fence_rule: FenceRule, machine: DeliveryMachine, tokens: spec_fn(Seq<char>) -> bool|
                #![trigger fence_is(*fence, fence_rule), attempts_are(*apply, machine), rule_is(*safe, tokens)]
                fence_is(*fence, fence_rule) && attempts_are(*apply, machine) && rule_is(
                    *safe,
                    tokens,
                ) ==> decided_view(r) == self.decided(
                    read_view(wake),
                    read_view(loaded),
                    read_view(bindings),
                    fence_rule,
                    machine,
                    tokens,
                ),
    {
        let held = wake?;
        let work = loaded?;
        let bound = self.conversation(&held, bindings, fence)?;
        match self.observe(&held, &bound, apply)? {
            DeliveryStep::Settled(state) => Ok(Decided::Settled(state)),
            DeliveryStep::Moves(next) => {
                let event = self.event(work.identity.task, work.projection.id, held.revision, safe)?;
                Ok(Decided::Appends { event, plan: next })
            },
        }
    }
}

impl ReconcileAmbiguousDelivery {
    /// The promotion, or that the wake is already where it would put it: the generation, then the
    /// wake, then what must hold of it, then the obligation, then the attempt machine.
    pub open spec fn decided(
        self,
        bindings: Result<BindingView, StoreError>,
        wake: Result<WakeView, StoreError>,
        loaded: Result<LoadedView, StoreError>,
        fence: FenceRule,
        machine: DeliveryMachine,
        safe: spec_fn(Seq<char>) -> bool,
    ) -> Result<DecidedView<DeliveryState, DeliveryView>, StoreError> {
        chain(
            bindings,
            |ledger: BindingView|
                chain(
                    fenced_conversation(ledger, self.request.binding_generation, fence),
                    |bound: Seq<char>|
                        chain(
                            wake,
                            |held: WakeView|
                                chain(
                                    self.named(held, bound),
                                    |_u: ()|
                                        chain(
                                            loaded,
                                            |work: LoadedView|
                                                delivery_stepped(
                                                    delivery_step_of(
                                                        machine,
                                                        held.delivery,
                                                        self.transition(bound),
                                                    ),
                                                    self.reconciled_event(
                                                        work.identity.task,
                                                        work.projection.id,
                                                        held.revision,
                                                        safe,
                                                    ),
                                                ),
                                        ),
                                ),
                        ),
                ),
        )
    }

    /// Decides the promotion. The obligation is the one the wake targets; where the wake could not
    /// be read it is not looked at.
    pub fn decide<
        F: Fn(&BindingLedger, BindingGeneration) -> Result<(), Conflict>,
        A: Fn(&Delivery, &DeliveryEvent) -> DeliveryReply,
        S: Fn(&str) -> bool,
    >(
        &self,
        bindings: Result<BindingLedger, StoreError>,
        wake: Result<BrowserWake, StoreError>,
        loaded: Result<LoadedObligation, StoreError>,
        fence: &F,
        apply: &A,
        safe: &S,
    ) -> (r: Result<Decided<DeliveryState, Delivery>, StoreError>)
        requires
            fence_total(*fence),
            attempts_total(*apply),
            rule_total(*safe),
        ensures
            forall|fence_rule: FenceRule, machine: DeliveryMachine, tokens: spec_fn(Seq<char>) -> bool|
                #![trigger fence_is(*fence, fence_rule), attempts_are(*apply, machine), rule_is(*safe, tokens)]
                fence_is(*fence, fence_rule) && attempts_are(*apply, machine) && rule_is(
                    *safe,
                    tokens,
                ) ==> decided_view(r) == self.decided(
                    read_view(bindings),
                    read_view(wake),
                    read_view(loaded),
                    fence_rule,
                    machine,
                    tokens,
                ),
    {
        let ledger = bindings?;
        let bound = self.conversation(&ledger, fence)?;
        let held = wake?;
        self.check(&held, &bound)?;
        let work = loaded?;
        match self.promote(&held, &bound, apply)? {
            DeliveryStep::Settled(state) => Ok(Decided::Settled(state)),
            DeliveryStep::Moves(next) => {
                let event = self.event(work.identity.task, work.projection.id, held.revision, safe)?;
                Ok(Decided::Appends { event, plan: next })
            },
        }
    }
}

// --- Health --------------------------------------------------------------------------------------

impl RaiseCondition {
    /// The event to append, or what is reported where the condition is open already: the ledger is
    /// folded only where the lookup found nothing.
    pub open spec fn decided(
        self,
        found: Result<Option<Seq<char>>, StoreError>,
        ledger: Result<Seq<HealthCondition>, StoreError>,
        safe: spec_fn(Seq<char>) -> bool,
    ) -> Result<DecidedView<HealthConditionRecorded, HealthConditionId>, StoreError> {
        chain(
            chain(
                found,
                |text: Option<Seq<char>>|
                    optional_id_column(text, "health_conditions", "health_condition_id"),
            ),
            |open: Option<Id>|
                match open {
                    Some(_) => Ok(DecidedView::Settled(self.recorded(true))),
                    None => chain(
                        ledger,
                        |conditions: Seq<HealthCondition>|
                            chain(
                                self.opening_event(conditions, safe),
                                |event: EventView|
                                    Ok(DecidedView::Appends { event, plan: self.condition }),
                            ),
                    ),
                },
        )
    }

    /// Decides the opening.
    pub fn decide<S: Fn(&str) -> bool>(
        &self,
        found: Result<Option<String>, StoreError>,
        ledger: Result<HealthLedger, StoreError>,
        safe: &S,
    ) -> (r: Result<Decided<HealthConditionRecorded, HealthConditionId>, StoreError>)
        requires
            rule_total(*safe),
        ensures
            forall|tokens: spec_fn(Seq<char>) -> bool| #[trigger]
                rule_is(*safe, tokens) ==> condition_view(r) == self.decided(
                    text_found(found),
                    conditions_read(ledger),
                    tokens,
                ),
    {
        let text = found?;
        match self.already_open(&text)? {
            Some(recorded) => Ok(Decided::Settled(recorded)),
            None => {
                let folded = ledger?;
                let event = self.event(&folded, safe)?;
                Ok(Decided::Appends { event, plan: self.condition })
            },
        }
    }
}

impl ResolveCondition {
    /// The event to append and the condition it closes, or what is reported where none is open.
    pub open spec fn decided(
        self,
        found: Result<Option<Seq<char>>, StoreError>,
        ledger: Result<Seq<HealthCondition>, StoreError>,
        safe: spec_fn(Seq<char>) -> bool,
    ) -> Result<DecidedView<HealthConditionRecorded, HealthConditionId>, StoreError> {
        chain(
            chain(
                found,
                |text: Option<Seq<char>>|
                    optional_id_column(text, "health_conditions", "health_condition_id"),
            ),
            |open: Option<Id>|
                match open {
                    None => Ok(DecidedView::Settled(self.recorded(true))),
                    Some(condition) => chain(
                        ledger,
                        |conditions: Seq<HealthCondition>|
                            chain(
                                self.resolving_event(condition, conditions, safe),
                                |event: EventView|
                                    Ok(DecidedView::Appends { event, plan: condition }),
                            ),
                    ),
                },
        )
    }

    /// Decides the resolution.
    pub fn decide<S: Fn(&str) -> bool>(
        &self,
        found: Result<Option<String>, StoreError>,
        ledger: Result<HealthLedger, StoreError>,
        safe: &S,
    ) -> (r: Result<Decided<HealthConditionRecorded, HealthConditionId>, StoreError>)
        requires
            rule_total(*safe),
        ensures
            forall|tokens: spec_fn(Seq<char>) -> bool| #[trigger]
                rule_is(*safe, tokens) ==> condition_view(r) == self.decided(
                    text_found(found),
                    conditions_read(ledger),
                    tokens,
                ),
    {
        let text = found?;
        match self.open_one(&text)? {
            Resolution::Nothing(recorded) => Ok(Decided::Settled(recorded)),
            Resolution::Closes(condition) => {
                let folded = ledger?;
                let event = self.event(condition, &folded, safe)?;
                Ok(Decided::Appends { event, plan: condition })
            },
        }
    }
}

/// A looked-up text on values alone, or the failure.
pub open spec fn text_found(r: Result<Option<String>, StoreError>) -> Result<
    Option<Seq<char>>,
    StoreError,
> {
    match r {
        Ok(text) => Ok(text_view(text)),
        Err(e) => Err(e),
    }
}

/// The conditions of a folded ledger, or the failure to fold it.
pub open spec fn conditions_read(r: Result<HealthLedger, StoreError>) -> Result<
    Seq<HealthCondition>,
    StoreError,
> {
    match r {
        Ok(ledger) => Ok(ledger.conditions@),
        Err(e) => Err(e),
    }
}

/// A decision about a condition on values alone, or the failure.
pub open spec fn condition_view(
    r: Result<Decided<HealthConditionRecorded, HealthConditionId>, StoreError>,
) -> Result<DecidedView<HealthConditionRecorded, HealthConditionId>, StoreError> {
    match r {
        Ok(Decided::Settled(output)) => Ok(DecidedView::Settled(output)),
        Ok(Decided::Appends { event, plan }) => Ok(DecidedView::Appends { event: event@, plan }),
        Err(e) => Err(e),
    }
}

// --- Laws ----------------------------------------------------------------------------------------

/// A refused generation answers first: whatever the wake, the obligation and their rules would have
/// said, a caller of the wrong generation is told about the generation and nothing else.
pub proof fn a_refused_generation_answers_first(
    claim: CreateOrClaimDelivery,
    arm: ArmDeliverySend,
    reconcile: ReconcileAmbiguousDelivery,
    bindings: BindingView,
    generation: BindingGeneration,
    loaded: Result<LoadedView, StoreError>,
    found: Result<Option<WakeView>, StoreError>,
    wake: Result<WakeView, StoreError>,
    fence: FenceRule,
    version: spec_fn(ObligationView, ObligationVersion) -> Result<(), Conflict>,
    source: spec_fn(ObligationView, SourceView) -> Result<(), Conflict>,
    target: TargetRule,
    model: WakeModel,
)
    requires
        claim.request.binding_generation == generation,
        arm.request.binding_generation == generation,
        reconcile.request.binding_generation == generation,
        fence(bindings, generation) is Err,
    ensures
        claim.decided(Ok(bindings), loaded, found, fence, version, source, target, model) == Err::<
            (ClaimPlanView, EventView),
            StoreError,
        >(StoreError::Conflict(fence(bindings, generation)->Err_0)),
        arm.decided(Ok(bindings), wake, loaded, fence, target, model.apply, model.rule) == Err::<
            Option<EventView>,
            StoreError,
        >(StoreError::Conflict(fence(bindings, generation)->Err_0)),
        reconcile.decided(Ok(bindings), wake, loaded, fence, model.apply, model.rule) == Err::<
            DecidedView<DeliveryState, DeliveryView>,
            StoreError,
        >(StoreError::Conflict(fence(bindings, generation)->Err_0)),
{
}

/// An identity that names no wake is refused before the work behind any wake is looked at, so what
/// is answered does not depend on that work.
pub proof fn an_unread_wake_hides_its_work(
    arm: ArmDeliverySend,
    outcome: RecordDeliveryOutcome,
    reconcile: ReconcileAmbiguousDelivery,
    bindings: BindingView,
    e: StoreError,
    loaded: Result<LoadedView, StoreError>,
    fence: FenceRule,
    target: TargetRule,
    machine: DeliveryMachine,
    safe: spec_fn(Seq<char>) -> bool,
)
    requires
        fence(bindings, arm.request.binding_generation) is Ok,
        fence(bindings, reconcile.request.binding_generation) is Ok,
    ensures
        arm.decided(Ok(bindings), Err(e), loaded, fence, target, machine, safe) == Err::<
            Option<EventView>,
            StoreError,
        >(e),
        outcome.decided(Err(e), loaded, Ok(bindings), fence, machine, safe) == Err::<
            DecidedView<DeliveryState, DeliveryView>,
            StoreError,
        >(e),
        reconcile.decided(Ok(bindings), Err(e), loaded, fence, machine, safe) == Err::<
            DecidedView<DeliveryState, DeliveryView>,
            StoreError,
        >(e),
{
}

/// An open condition is raised once and a closed one is resolved once: a repeat reports the
/// duplicate, appends nothing, and does not depend on the ledger.
pub proof fn a_repeated_condition_appends_nothing(
    raise: RaiseCondition,
    resolve: ResolveCondition,
    open: Id,
    ledger: Result<Seq<HealthCondition>, StoreError>,
    safe: spec_fn(Seq<char>) -> bool,
)
    ensures
        raise.decided(Ok(Some(canonical_text(open.value))), ledger, safe) == Ok::<
            DecidedView<HealthConditionRecorded, HealthConditionId>,
            StoreError,
        >(DecidedView::Settled(raise.recorded(true))),
        resolve.decided(Ok(None), ledger, safe) == Ok::<
            DecidedView<HealthConditionRecorded, HealthConditionId>,
            StoreError,
        >(DecidedView::Settled(resolve.recorded(true))),
{
    canonical_text_round_trips(open);
}

/// Every claim of the attempt machine appends an attempt, numbered above all before it.
pub open spec fn claims_append(machine: DeliveryMachine) -> bool {
    forall|delivery: DeliveryView, at: Timestamp|
        (#[trigger] machine(delivery, DeliveryEventView::AttemptClaimed { at })) matches Ok(
            Applied::Advanced(next),
        ) ==> {
            &&& next.attempts.len() == delivery.attempts.len() + 1
            &&& forall|k: int|
                0 <= k < delivery.attempts.len() ==> (#[trigger] delivery.attempts[k]).number
                    < next.attempts.last().number
        }
}

/// Every attempt of one state of a delivery is still there, under its number, in another.
pub open spec fn keeps_attempts(earlier: DeliveryView, later: DeliveryView) -> bool {
    forall|k: int|
        0 <= k < earlier.attempts.len() ==> exists|j: int|
            0 <= j < later.attempts.len() && (#[trigger] later.attempts[j]).number == (
            #[trigger] earlier.attempts[k]).number
}

/// A second claim of one revision never gets the first one's attempt: whatever happened to the
/// delivery in between, as long as no attempt was lost, it finds the same delivery, creates no
/// second row, and takes another attempt number.
pub proof fn a_second_claim_takes_another_attempt(
    first: CreateOrClaimDelivery,
    second: CreateOrClaimDelivery,
    found: Option<WakeView>,
    before: LoadedView,
    after: LoadedView,
    binding: ForemanBindingId,
    later: DeliveryView,
    target: TargetRule,
    model: WakeModel,
)
    requires
        claims_append(model.apply),
        first.planned(found, before, binding, target, model) is Ok,
        keeps_attempts(first.planned(found, before, binding, target, model)->Ok_0.0.next, later),
    ensures
        ({
            let plan = first.planned(found, before, binding, target, model)->Ok_0.0;
            let held = WakeView { delivery: later, ..plan.wake };
            second.planned(Some(held), after, binding, target, model) matches Ok((other, _)) ==> {
                &&& other.wake.delivery_hex == plan.wake.delivery_hex
                &&& other.insert is None
                &&& other.attempt > plan.attempt
            }
        }),
{
    let plan = first.planned(found, before, binding, target, model)->Ok_0.0;
    let held = WakeView { delivery: later, ..plan.wake };
    if second.planned(Some(held), after, binding, target, model) is Ok {
        let asked = (model.apply)(
            plan.wake.delivery,
            DeliveryEventView::AttemptClaimed { at: first.now },
        );
        assert(asked == Ok::<Applied<DeliveryView>, Conflict>(Applied::Advanced(plan.next)));
        let last = plan.next.attempts.len() - 1;
        assert(plan.next.attempts[last].number == plan.attempt);
        let j = choose|j: int|
            0 <= j < later.attempts.len() && (#[trigger] later.attempts[j]).number
                == plan.next.attempts[last].number;
        let other = second.planned(Some(held), after, binding, target, model)->Ok_0.0;
        let again = (model.apply)(later, DeliveryEventView::AttemptClaimed { at: second.now });
        assert(again == Ok::<Applied<DeliveryView>, Conflict>(Applied::Advanced(other.next)));
        assert(later.attempts[j].number < other.attempt);
    }
}

/// The obligation machine records the artifact of a publication it accepts.
pub open spec fn records_the_artifact(machine: ObligationMachine) -> bool {
    forall|before: ObligationView, op: PublishWorkerResult, run_ref: Seq<char>|
        (#[trigger] machine(before, op.transition(run_ref))) matches Ok(Applied::Advanced(after))
            ==> after.result_artifact == Some(op.artifact)
}

/// Only receipts that prove a completion publish anything: all others are refused before the
/// obligation is looked at.
pub proof fn unproven_receipts_publish_nothing(
    op: PublishWorkerResult,
    loaded: Result<LoadedView, StoreError>,
    model: spec_fn(ReceiptsView) -> OutcomeView,
)
    requires
        !(model(op.request.receipts@) is ConfirmedCompletion),
    ensures
        op.decided(loaded, model) == Err::<(Seq<char>, LoadedView, EventView), StoreError>(
            corrupt("events", "safe_metadata_json", CorruptReason::UnprovableEvidence),
        ),
{
}

/// A publication repeated under the same source answers with the first one's artifact, whatever
/// artifact it brings itself: the ledger holds the source already, nothing is written, and the
/// obligation is reported as it stands.
pub proof fn a_repeated_publication_keeps_the_first_artifact(
    rows: Seq<LedgerRow>,
    next: i64,
    first: PublishWorkerResult,
    again: PublishWorkerResult,
    loaded: LoadedView,
    after: ObligationView,
    reloaded: LoadedView,
    receipts: spec_fn(ReceiptsView) -> OutcomeView,
    machine: ObligationMachine,
    later: i64,
)
    requires
        records_the_artifact(machine),
        one_row_per_source(rows),
        next >= 0,
        forall|i: int| !holds_source(rows, first.request.source@, i),
        first.decided(Ok(loaded), receipts) is Ok,
        machine(loaded.projection, first.transition(first.decided(Ok(loaded), receipts)->Ok_0.0)) == Ok::<
            Applied<ObligationView>,
            Conflict,
        >(Applied::Advanced(after)),
        reloaded.projection.result_artifact == after.result_artifact,
        again.request.source@ == first.request.source@,
        again.decided(Ok(reloaded), receipts) is Ok,
    ensures
        ({
            let (run_ref, _, event) = first.decided(Ok(loaded), receipts)->Ok_0;
            let (held, appended) = ledger_append(rows, event, next);
            let (run_again, _, repeated) = again.decided(Ok(reloaded), receipts)->Ok_0;
            let (kept, found) = ledger_append(held, repeated, later);
            &&& appended is Ok && found is Ok && kept == held
            &&& first.committed(loaded, run_ref, appended->Ok_0, machine) matches Ok(done)
                ==> done.1.artifact == first.artifact
            &&& again.committed(reloaded, run_again, found->Ok_0, machine) matches Ok(done) && done.0
                is None && done.1 == (PublishedResult {
                obligation: stayed(reloaded.projection),
                artifact: first.artifact,
            })
        }),
{
    let (run_ref, _, event) = first.decided(Ok(loaded), receipts)->Ok_0;
    let (_, _, repeated) = again.decided(Ok(reloaded), receipts)->Ok_0;
    assert(event.source == first.request.source@);
    a_second_append_is_a_duplicate(rows, event, next, repeated, later);
}

/// The acknowledging rule closes what it accepts, and takes for a repeat only what is closed.
pub open spec fn acknowledging_closes(rule: AckRule) -> bool {
    forall|q: AckView, b: BindingView, c: ClaimView, o: ObligationView|
        match #[trigger] rule(q, b, c, o) {
            Ok(Applied::Advanced(after)) => after.state.closed(),
            Ok(Applied::Duplicate) => o.state.closed(),
            Err(_) => true,
        }
}

/// An acknowledgement that is accepted leaves the obligation closed, at the very event that closes
/// its claim; one that was accepted before is answered as already committed, with nothing appended,
/// and no other is.
pub proof fn an_accepted_acknowledgement_closes(
    op: AcknowledgeObligation,
    bindings: BindingView,
    loaded: LoadedView,
    claim: ClaimView,
    rule: AckRule,
    safe: spec_fn(Seq<char>) -> bool,
    seq: EventSeq,
)
    requires
        acknowledging_closes(rule),
    ensures
        match op.decided(Ok(bindings), Ok(loaded), Ok(claim), rule, safe) {
            Err(_) => true,
            Ok(DecidedView::Settled(answer)) => {
                &&& rule(op.question(), bindings, claim, loaded.projection) == Ok::<
                    Applied<ObligationView>,
                    Conflict,
                >(Applied::Duplicate)
                &&& answer.already_committed
                &&& answer.obligation == stayed(loaded.projection)
                &&& answer.obligation.state.closed()
            },
            Ok(DecidedView::Appends { plan, .. }) => {
                &&& plan.0 == loaded
                &&& plan.1.state.closed()
                &&& op.committed(plan.0, plan.1, seq) matches Ok((rows, answer)) ==> {
                    &&& !answer.already_committed
                    &&& answer.obligation.state.closed()
                    &&& rows.transition.obligation.closed_event_seq == Some(seq as i64)
                    &&& rows.claim.state == claim_state_label(ClaimLifecycle::Closed)
                    &&& rows.claim.closed_event_seq == seq
                }
            },
        },
{
    an_acknowledgement_closes_claim_and_work_together(
        op,
        loaded,
        rule(op.question(), bindings, claim, loaded.projection)->Ok_0->Advanced_0,
        seq,
    );
}

} // verus!
