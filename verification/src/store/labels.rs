//! Closed label sets: every enum column has an explicit label map.
//!
//! A label is never derived from a variant's name at run time, and a label a map does not hold is
//! a corrupt row, never a default.
use vstd::prelude::*;
use crate::domain::binding::WriteCapabilityState;
use crate::domain::conflict::ConflictKind;
use crate::domain::delivery::{AmbiguityReason, AttemptState, DeliveryState, FailureClass};
use crate::domain::effect::{EffectAmbiguityReason, ExternalAttemptState, NoEffectClass};
use crate::domain::health::{HealthConditionKind, HealthConditionState};
use crate::domain::lease::LeaseState;
use crate::domain::mutation::MutationCommandStatus;
use crate::domain::obligation::{Disposition, ObligationKind, ObligationState, WorkerFailureClass};
use crate::store::error::{corrupt, corrupt_row, CorruptReason, StoreError};
use crate::text::same;

verus! {

/// The label of a value in the `state` column.
pub open spec fn obligation_state_label(value: ObligationState) -> &'static str {
    match value {
        ObligationState::Created => "created",
        ObligationState::Running => "running",
        ObligationState::NeedsInput => "needs_input",
        ObligationState::Failed => "failed",
        ObligationState::CompletedUnprocessed => "completed_unprocessed",
        ObligationState::ClaimedByForeman => "claimed_by_foreman",
        ObligationState::Processing => "processing",
        ObligationState::Acknowledged => "acknowledged",
        ObligationState::CancelledByUser => "cancelled_by_user",
        ObligationState::Superseded => "superseded",
    }
}

/// Encodes a value for the `state` column.
pub fn encode_obligation_state(value: ObligationState) -> (r: &'static str)
    ensures
        r == obligation_state_label(value),
{
    match value {
        ObligationState::Created => "created",
        ObligationState::Running => "running",
        ObligationState::NeedsInput => "needs_input",
        ObligationState::Failed => "failed",
        ObligationState::CompletedUnprocessed => "completed_unprocessed",
        ObligationState::ClaimedByForeman => "claimed_by_foreman",
        ObligationState::Processing => "processing",
        ObligationState::Acknowledged => "acknowledged",
        ObligationState::CancelledByUser => "cancelled_by_user",
        ObligationState::Superseded => "superseded",
    }
}

/// The value a text in the `state` column is the label of, if it is one.
pub open spec fn obligation_state_named(text: Seq<char>) -> Option<ObligationState> {
    if text == "created"@ {
        Some(ObligationState::Created)
    } else if text == "running"@ {
        Some(ObligationState::Running)
    } else if text == "needs_input"@ {
        Some(ObligationState::NeedsInput)
    } else if text == "failed"@ {
        Some(ObligationState::Failed)
    } else if text == "completed_unprocessed"@ {
        Some(ObligationState::CompletedUnprocessed)
    } else if text == "claimed_by_foreman"@ {
        Some(ObligationState::ClaimedByForeman)
    } else if text == "processing"@ {
        Some(ObligationState::Processing)
    } else if text == "acknowledged"@ {
        Some(ObligationState::Acknowledged)
    } else if text == "cancelled_by_user"@ {
        Some(ObligationState::CancelledByUser)
    } else if text == "superseded"@ {
        Some(ObligationState::Superseded)
    } else {
        None
    }
}

/// Decodes a `state` column value: the value whose label the text is, or a corrupt row.
pub fn decode_obligation_state(text: &str, table: &'static str) -> (r: Result<ObligationState, StoreError>)
    ensures
        r == (match obligation_state_named(text@) {
            Some(value) => Ok::<ObligationState, StoreError>(value),
            None => Err(corrupt(table, "state", CorruptReason::UnknownLabel)),
        }),
{
    if same(text, "created") {
        Ok(ObligationState::Created)
    } else if same(text, "running") {
        Ok(ObligationState::Running)
    } else if same(text, "needs_input") {
        Ok(ObligationState::NeedsInput)
    } else if same(text, "failed") {
        Ok(ObligationState::Failed)
    } else if same(text, "completed_unprocessed") {
        Ok(ObligationState::CompletedUnprocessed)
    } else if same(text, "claimed_by_foreman") {
        Ok(ObligationState::ClaimedByForeman)
    } else if same(text, "processing") {
        Ok(ObligationState::Processing)
    } else if same(text, "acknowledged") {
        Ok(ObligationState::Acknowledged)
    } else if same(text, "cancelled_by_user") {
        Ok(ObligationState::CancelledByUser)
    } else if same(text, "superseded") {
        Ok(ObligationState::Superseded)
    } else {
        Err(corrupt_row(table, "state", CorruptReason::UnknownLabel))
    }
}

/// Decoding the label of a value gives the value back.
pub proof fn obligation_state_round_trips(value: ObligationState)
    ensures
        obligation_state_named(obligation_state_label(value)@) == Some(value),
{
    reveal_strlit("created");
    reveal_strlit("running");
    reveal_strlit("needs_input");
    reveal_strlit("failed");
    reveal_strlit("completed_unprocessed");
    reveal_strlit("claimed_by_foreman");
    reveal_strlit("processing");
    reveal_strlit("acknowledged");
    reveal_strlit("cancelled_by_user");
    reveal_strlit("superseded");
    assert("created"@.len() == 7);
    assert("running"@.len() == 7);
    assert("needs_input"@.len() == 11);
    assert("failed"@.len() == 6);
    assert("completed_unprocessed"@.len() == 21);
    assert("claimed_by_foreman"@.len() == 18);
    assert("processing"@.len() == 10);
    assert("acknowledged"@.len() == 12);
    assert("cancelled_by_user"@.len() == 17);
    assert("superseded"@.len() == 10);
    assert("created"@[0] != "running"@[0]);
    assert("processing"@[0] != "superseded"@[0]);
}

/// The label of a value in the `state` column.
pub open spec fn delivery_state_label(value: DeliveryState) -> &'static str {
    match value {
        DeliveryState::Pending => "pending",
        DeliveryState::Claimed => "claimed",
        DeliveryState::Accepted => "accepted",
        DeliveryState::Failed => "failed",
        DeliveryState::Ambiguous => "ambiguous",
    }
}

/// Encodes a value for the `state` column.
pub fn encode_delivery_state(value: DeliveryState) -> (r: &'static str)
    ensures
        r == delivery_state_label(value),
{
    match value {
        DeliveryState::Pending => "pending",
        DeliveryState::Claimed => "claimed",
        DeliveryState::Accepted => "accepted",
        DeliveryState::Failed => "failed",
        DeliveryState::Ambiguous => "ambiguous",
    }
}

/// The value a text in the `state` column is the label of, if it is one.
pub open spec fn delivery_state_named(text: Seq<char>) -> Option<DeliveryState> {
    if text == "pending"@ {
        Some(DeliveryState::Pending)
    } else if text == "claimed"@ {
        Some(DeliveryState::Claimed)
    } else if text == "accepted"@ {
        Some(DeliveryState::Accepted)
    } else if text == "failed"@ {
        Some(DeliveryState::Failed)
    } else if text == "ambiguous"@ {
        Some(DeliveryState::Ambiguous)
    } else {
        None
    }
}

/// Decodes a `state` column value: the value whose label the text is, or a corrupt row.
pub fn decode_delivery_state(text: &str, table: &'static str) -> (r: Result<DeliveryState, StoreError>)
    ensures
        r == (match delivery_state_named(text@) {
            Some(value) => Ok::<DeliveryState, StoreError>(value),
            None => Err(corrupt(table, "state", CorruptReason::UnknownLabel)),
        }),
{
    if same(text, "pending") {
        Ok(DeliveryState::Pending)
    } else if same(text, "claimed") {
        Ok(DeliveryState::Claimed)
    } else if same(text, "accepted") {
        Ok(DeliveryState::Accepted)
    } else if same(text, "failed") {
        Ok(DeliveryState::Failed)
    } else if same(text, "ambiguous") {
        Ok(DeliveryState::Ambiguous)
    } else {
        Err(corrupt_row(table, "state", CorruptReason::UnknownLabel))
    }
}

/// Decoding the label of a value gives the value back.
pub proof fn delivery_state_round_trips(value: DeliveryState)
    ensures
        delivery_state_named(delivery_state_label(value)@) == Some(value),
{
    reveal_strlit("pending");
    reveal_strlit("claimed");
    reveal_strlit("accepted");
    reveal_strlit("failed");
    reveal_strlit("ambiguous");
    assert("pending"@.len() == 7);
    assert("claimed"@.len() == 7);
    assert("accepted"@.len() == 8);
    assert("failed"@.len() == 6);
    assert("ambiguous"@.len() == 9);
    assert("pending"@[0] != "claimed"@[0]);
}

/// The label of a value in the `state` column.
pub open spec fn attempt_state_label(value: AttemptState) -> &'static str {
    match value {
        AttemptState::Claimed => "claimed",
        AttemptState::ActivationArmed => "activation_armed",
        AttemptState::Accepted => "accepted",
        AttemptState::Failed => "failed",
        AttemptState::Ambiguous => "ambiguous",
    }
}

/// Encodes a value for the `state` column.
pub fn encode_attempt_state(value: AttemptState) -> (r: &'static str)
    ensures
        r == attempt_state_label(value),
{
    match value {
        AttemptState::Claimed => "claimed",
        AttemptState::ActivationArmed => "activation_armed",
        AttemptState::Accepted => "accepted",
        AttemptState::Failed => "failed",
        AttemptState::Ambiguous => "ambiguous",
    }
}

/// The value a text in the `state` column is the label of, if it is one.
pub open spec fn attempt_state_named(text: Seq<char>) -> Option<AttemptState> {
    if text == "claimed"@ {
        Some(AttemptState::Claimed)
    } else if text == "activation_armed"@ {
        Some(AttemptState::ActivationArmed)
    } else if text == "accepted"@ {
        Some(AttemptState::Accepted)
    } else if text == "failed"@ {
        Some(AttemptState::Failed)
    } else if text == "ambiguous"@ {
        Some(AttemptState::Ambiguous)
    } else {
        None
    }
}

/// Decodes a `state` column value: the value whose label the text is, or a corrupt row.
pub fn decode_attempt_state(text: &str, table: &'static str) -> (r: Result<AttemptState, StoreError>)
    ensures
        r == (match attempt_state_named(text@) {
            Some(value) => Ok::<AttemptState, StoreError>(value),
            None => Err(corrupt(table, "state", CorruptReason::UnknownLabel)),
        }),
{
    if same(text, "claimed") {
        Ok(AttemptState::Claimed)
    } else if same(text, "activation_armed") {
        Ok(AttemptState::ActivationArmed)
    } else if same(text, "accepted") {
        Ok(AttemptState::Accepted)
    } else if same(text, "failed") {
        Ok(AttemptState::Failed)
    } else if same(text, "ambiguous") {
        Ok(AttemptState::Ambiguous)
    } else {
        Err(corrupt_row(table, "state", CorruptReason::UnknownLabel))
    }
}

/// Decoding the label of a value gives the value back.
pub proof fn attempt_state_round_trips(value: AttemptState)
    ensures
        attempt_state_named(attempt_state_label(value)@) == Some(value),
{
    reveal_strlit("claimed");
    reveal_strlit("activation_armed");
    reveal_strlit("accepted");
    reveal_strlit("failed");
    reveal_strlit("ambiguous");
    assert("claimed"@.len() == 7);
    assert("activation_armed"@.len() == 16);
    assert("accepted"@.len() == 8);
    assert("failed"@.len() == 6);
    assert("ambiguous"@.len() == 9);
}

/// Who caused an obligation transition.
#[derive(Debug, Clone, Copy, PartialEq, Eq, Structural)]
pub enum ActorClass {
    /// A verified worker/runtime fact.
    Worker,
    /// The bound foreman, under a current claim.
    Foreman,
    /// The local user.
    User,
    /// The daemon itself: recovery, expiry, supersession.
    Daemon,
}

/// The label of a value in the `actor_class` column.
pub open spec fn actor_class_label(value: ActorClass) -> &'static str {
    match value {
        ActorClass::Worker => "worker",
        ActorClass::Foreman => "foreman",
        ActorClass::User => "user",
        ActorClass::Daemon => "daemon",
    }
}

/// Encodes a value for the `actor_class` column.
pub fn encode_actor_class(value: ActorClass) -> (r: &'static str)
    ensures
        r == actor_class_label(value),
{
    match value {
        ActorClass::Worker => "worker",
        ActorClass::Foreman => "foreman",
        ActorClass::User => "user",
        ActorClass::Daemon => "daemon",
    }
}

/// Projection of a turn's lifecycle, derived from accepted worker events.
#[derive(Debug, Clone, Copy, PartialEq, Eq, Structural)]
pub enum TurnLifecycle {
    /// A worker turn is verified to be running.
    Running,
    /// A confirmed final result was published for this turn.
    Completed,
    /// A verified terminal worker failure ended this turn.
    Failed,
}

/// The label of a value in the `lifecycle_state` column.
pub open spec fn turn_lifecycle_label(value: TurnLifecycle) -> &'static str {
    match value {
        TurnLifecycle::Running => "running",
        TurnLifecycle::Completed => "completed",
        TurnLifecycle::Failed => "failed",
    }
}

/// Encodes a value for the `lifecycle_state` column.
pub fn encode_turn_lifecycle(value: TurnLifecycle) -> (r: &'static str)
    ensures
        r == turn_lifecycle_label(value),
{
    match value {
        TurnLifecycle::Running => "running",
        TurnLifecycle::Completed => "completed",
        TurnLifecycle::Failed => "failed",
    }
}

/// The value a text in the `lifecycle_state` column is the label of, if it is one.
pub open spec fn turn_lifecycle_named(text: Seq<char>) -> Option<TurnLifecycle> {
    if text == "running"@ {
        Some(TurnLifecycle::Running)
    } else if text == "completed"@ {
        Some(TurnLifecycle::Completed)
    } else if text == "failed"@ {
        Some(TurnLifecycle::Failed)
    } else {
        None
    }
}

/// Decodes a `lifecycle_state` column value: the value whose label the text is, or a corrupt row.
pub fn decode_turn_lifecycle(text: &str, table: &'static str) -> (r: Result<TurnLifecycle, StoreError>)
    ensures
        r == (match turn_lifecycle_named(text@) {
            Some(value) => Ok::<TurnLifecycle, StoreError>(value),
            None => Err(corrupt(table, "lifecycle_state", CorruptReason::UnknownLabel)),
        }),
{
    if same(text, "running") {
        Ok(TurnLifecycle::Running)
    } else if same(text, "completed") {
        Ok(TurnLifecycle::Completed)
    } else if same(text, "failed") {
        Ok(TurnLifecycle::Failed)
    } else {
        Err(corrupt_row(table, "lifecycle_state", CorruptReason::UnknownLabel))
    }
}

/// Decoding the label of a value gives the value back.
pub proof fn turn_lifecycle_round_trips(value: TurnLifecycle)
    ensures
        turn_lifecycle_named(turn_lifecycle_label(value)@) == Some(value),
{
    reveal_strlit("running");
    reveal_strlit("completed");
    reveal_strlit("failed");
    assert("running"@.len() == 7);
    assert("completed"@.len() == 9);
    assert("failed"@.len() == 6);
}

/// Retention of a result artifact, as projected onto its metadata row.
#[derive(Debug, Clone, Copy, PartialEq, Eq, Structural)]
pub enum RetentionLabel {
    /// At least one open obligation requires it.
    Pinned,
    /// No open obligation requires it; policy delay then applies.
    Eligible,
}

/// The label of a value in the `retention_state` column.
pub open spec fn retention_label(value: RetentionLabel) -> &'static str {
    match value {
        RetentionLabel::Pinned => "pinned",
        RetentionLabel::Eligible => "eligible",
    }
}

/// Encodes a value for the `retention_state` column.
pub fn encode_retention(value: RetentionLabel) -> (r: &'static str)
    ensures
        r == retention_label(value),
{
    match value {
        RetentionLabel::Pinned => "pinned",
        RetentionLabel::Eligible => "eligible",
    }
}

/// The value a text in the `retention_state` column is the label of, if it is one.
pub open spec fn retention_named(text: Seq<char>) -> Option<RetentionLabel> {
    if text == "pinned"@ {
        Some(RetentionLabel::Pinned)
    } else if text == "eligible"@ {
        Some(RetentionLabel::Eligible)
    } else {
        None
    }
}

/// Decodes a `retention_state` column value: the value whose label the text is, or a corrupt row.
pub fn decode_retention(text: &str, table: &'static str) -> (r: Result<RetentionLabel, StoreError>)
    ensures
        r == (match retention_named(text@) {
            Some(value) => Ok::<RetentionLabel, StoreError>(value),
            None => Err(corrupt(table, "retention_state", CorruptReason::UnknownLabel)),
        }),
{
    if same(text, "pinned") {
        Ok(RetentionLabel::Pinned)
    } else if same(text, "eligible") {
        Ok(RetentionLabel::Eligible)
    } else {
        Err(corrupt_row(table, "retention_state", CorruptReason::UnknownLabel))
    }
}

/// Decoding the label of a value gives the value back.
pub proof fn retention_round_trips(value: RetentionLabel)
    ensures
        retention_named(retention_label(value)@) == Some(value),
{
    reveal_strlit("pinned");
    reveal_strlit("eligible");
    assert("pinned"@.len() == 6);
    assert("eligible"@.len() == 8);
}

/// Lifecycle of a persisted foreman claim.
#[derive(Debug, Clone, Copy, PartialEq, Eq, Structural)]
pub enum ClaimLifecycle {
    /// The claim currently holds its obligation.
    Live,
    /// The claim's bound lifetime elapsed.
    Expired,
    /// The claim closed its obligation with a disposition.
    Closed,
}

/// The label of a value in the `state` column.
pub open spec fn claim_state_label(value: ClaimLifecycle) -> &'static str {
    match value {
        ClaimLifecycle::Live => "live",
        ClaimLifecycle::Expired => "expired",
        ClaimLifecycle::Closed => "closed",
    }
}

/// Encodes a value for the `state` column.
pub fn encode_claim_state(value: ClaimLifecycle) -> (r: &'static str)
    ensures
        r == claim_state_label(value),
{
    match value {
        ClaimLifecycle::Live => "live",
        ClaimLifecycle::Expired => "expired",
        ClaimLifecycle::Closed => "closed",
    }
}

/// The value a text in the `state` column is the label of, if it is one.
pub open spec fn claim_state_named(text: Seq<char>) -> Option<ClaimLifecycle> {
    if text == "live"@ {
        Some(ClaimLifecycle::Live)
    } else if text == "expired"@ {
        Some(ClaimLifecycle::Expired)
    } else if text == "closed"@ {
        Some(ClaimLifecycle::Closed)
    } else {
        None
    }
}

/// Decodes a `state` column value: the value whose label the text is, or a corrupt row.
pub fn decode_claim_state(text: &str, table: &'static str) -> (r: Result<ClaimLifecycle, StoreError>)
    ensures
        r == (match claim_state_named(text@) {
            Some(value) => Ok::<ClaimLifecycle, StoreError>(value),
            None => Err(corrupt(table, "state", CorruptReason::UnknownLabel)),
        }),
{
    if same(text, "live") {
        Ok(ClaimLifecycle::Live)
    } else if same(text, "expired") {
        Ok(ClaimLifecycle::Expired)
    } else if same(text, "closed") {
        Ok(ClaimLifecycle::Closed)
    } else {
        Err(corrupt_row(table, "state", CorruptReason::UnknownLabel))
    }
}

/// Decoding the label of a value gives the value back.
pub proof fn claim_state_round_trips(value: ClaimLifecycle)
    ensures
        claim_state_named(claim_state_label(value)@) == Some(value),
{
    reveal_strlit("live");
    reveal_strlit("expired");
    reveal_strlit("closed");
    assert("live"@.len() == 4);
    assert("expired"@.len() == 7);
    assert("closed"@.len() == 6);
}

/// The label of a value in the `obligation_kind` column.
pub open spec fn obligation_kind_label(value: ObligationKind) -> &'static str {
    match value {
        ObligationKind::WorkerTurn => "worker_turn",
    }
}

/// Encodes a value for the `obligation_kind` column.
pub fn encode_obligation_kind(value: ObligationKind) -> (r: &'static str)
    ensures
        r == obligation_kind_label(value),
{
    match value {
        ObligationKind::WorkerTurn => "worker_turn",
    }
}

/// The value a text in the `obligation_kind` column is the label of, if it is one.
pub open spec fn obligation_kind_named(text: Seq<char>) -> Option<ObligationKind> {
    if text == "worker_turn"@ {
        Some(ObligationKind::WorkerTurn)
    } else {
        None
    }
}

/// Decodes a `obligation_kind` column value: the value whose label the text is, or a corrupt row.
pub fn decode_obligation_kind(text: &str, table: &'static str) -> (r: Result<ObligationKind, StoreError>)
    ensures
        r == (match obligation_kind_named(text@) {
            Some(value) => Ok::<ObligationKind, StoreError>(value),
            None => Err(corrupt(table, "obligation_kind", CorruptReason::UnknownLabel)),
        }),
{
    if same(text, "worker_turn") {
        Ok(ObligationKind::WorkerTurn)
    } else {
        Err(corrupt_row(table, "obligation_kind", CorruptReason::UnknownLabel))
    }
}

/// Decoding the label of a value gives the value back.
pub proof fn obligation_kind_round_trips(value: ObligationKind)
    ensures
        obligation_kind_named(obligation_kind_label(value)@) == Some(value),
{
    reveal_strlit("worker_turn");
    assert("worker_turn"@.len() == 11);
}

/// The label of a value in the `disposition` column.
pub open spec fn disposition_label(value: Disposition) -> &'static str {
    match value {
        Disposition::Accepted => "accepted",
        Disposition::RejectedNeedsRework => "rejected_needs_rework",
        Disposition::FailureAcknowledged => "failure_acknowledged",
        Disposition::Abandoned => "abandoned",
    }
}

/// Encodes a value for the `disposition` column.
pub fn encode_disposition(value: Disposition) -> (r: &'static str)
    ensures
        r == disposition_label(value),
{
    match value {
        Disposition::Accepted => "accepted",
        Disposition::RejectedNeedsRework => "rejected_needs_rework",
        Disposition::FailureAcknowledged => "failure_acknowledged",
        Disposition::Abandoned => "abandoned",
    }
}

/// The value a text in the `disposition` column is the label of, if it is one.
pub open spec fn disposition_named(text: Seq<char>) -> Option<Disposition> {
    if text == "accepted"@ {
        Some(Disposition::Accepted)
    } else if text == "rejected_needs_rework"@ {
        Some(Disposition::RejectedNeedsRework)
    } else if text == "failure_acknowledged"@ {
        Some(Disposition::FailureAcknowledged)
    } else if text == "abandoned"@ {
        Some(Disposition::Abandoned)
    } else {
        None
    }
}

/// Decodes a `disposition` column value: the value whose label the text is, or a corrupt row.
pub fn decode_disposition(text: &str, table: &'static str) -> (r: Result<Disposition, StoreError>)
    ensures
        r == (match disposition_named(text@) {
            Some(value) => Ok::<Disposition, StoreError>(value),
            None => Err(corrupt(table, "disposition", CorruptReason::UnknownLabel)),
        }),
{
    if same(text, "accepted") {
        Ok(Disposition::Accepted)
    } else if same(text, "rejected_needs_rework") {
        Ok(Disposition::RejectedNeedsRework)
    } else if same(text, "failure_acknowledged") {
        Ok(Disposition::FailureAcknowledged)
    } else if same(text, "abandoned") {
        Ok(Disposition::Abandoned)
    } else {
        Err(corrupt_row(table, "disposition", CorruptReason::UnknownLabel))
    }
}

/// Decoding the label of a value gives the value back.
pub proof fn disposition_round_trips(value: Disposition)
    ensures
        disposition_named(disposition_label(value)@) == Some(value),
{
    reveal_strlit("accepted");
    reveal_strlit("rejected_needs_rework");
    reveal_strlit("failure_acknowledged");
    reveal_strlit("abandoned");
    assert("accepted"@.len() == 8);
    assert("rejected_needs_rework"@.len() == 21);
    assert("failure_acknowledged"@.len() == 20);
    assert("abandoned"@.len() == 9);
}

/// The label of a value in the `failure_class` column.
pub open spec fn failure_class_label(value: FailureClass) -> &'static str {
    match value {
        FailureClass::TargetNotFound => "target_not_found",
        FailureClass::StaleTarget => "stale_target",
        FailureClass::WrongConversation => "wrong_conversation",
        FailureClass::AppNotSelected => "app_not_selected",
        FailureClass::ComposerNotReady => "composer_not_ready",
        FailureClass::NavigationBlocked => "navigation_blocked",
        FailureClass::ActivationRefused => "activation_refused",
        FailureClass::TransportRejectedBeforeSend => "transport_rejected_before_send",
    }
}

/// Encodes a value for the `failure_class` column.
pub fn encode_failure_class(value: FailureClass) -> (r: &'static str)
    ensures
        r == failure_class_label(value),
{
    match value {
        FailureClass::TargetNotFound => "target_not_found",
        FailureClass::StaleTarget => "stale_target",
        FailureClass::WrongConversation => "wrong_conversation",
        FailureClass::AppNotSelected => "app_not_selected",
        FailureClass::ComposerNotReady => "composer_not_ready",
        FailureClass::NavigationBlocked => "navigation_blocked",
        FailureClass::ActivationRefused => "activation_refused",
        FailureClass::TransportRejectedBeforeSend => "transport_rejected_before_send",
    }
}

/// The value a text in the `failure_class` column is the label of, if it is one.
pub open spec fn failure_class_named(text: Seq<char>) -> Option<FailureClass> {
    if text == "target_not_found"@ {
        Some(FailureClass::TargetNotFound)
    } else if text == "stale_target"@ {
        Some(FailureClass::StaleTarget)
    } else if text == "wrong_conversation"@ {
        Some(FailureClass::WrongConversation)
    } else if text == "app_not_selected"@ {
        Some(FailureClass::AppNotSelected)
    } else if text == "composer_not_ready"@ {
        Some(FailureClass::ComposerNotReady)
    } else if text == "navigation_blocked"@ {
        Some(FailureClass::NavigationBlocked)
    } else if text == "activation_refused"@ {
        Some(FailureClass::ActivationRefused)
    } else if text == "transport_rejected_before_send"@ {
        Some(FailureClass::TransportRejectedBeforeSend)
    } else {
        None
    }
}

/// Decodes a `failure_class` column value: the value whose label the text is, or a corrupt row.
pub fn decode_failure_class(text: &str, table: &'static str) -> (r: Result<FailureClass, StoreError>)
    ensures
        r == (match failure_class_named(text@) {
            Some(value) => Ok::<FailureClass, StoreError>(value),
            None => Err(corrupt(table, "failure_class", CorruptReason::UnknownLabel)),
        }),
{
    if same(text, "target_not_found") {
        Ok(FailureClass::TargetNotFound)
    } else if same(text, "stale_target") {
        Ok(FailureClass::StaleTarget)
    } else if same(text, "wrong_conversation") {
        Ok(FailureClass::WrongConversation)
    } else if same(text, "app_not_selected") {
        Ok(FailureClass::AppNotSelected)
    } else if same(text, "composer_not_ready") {
        Ok(FailureClass::ComposerNotReady)
    } else if same(text, "navigation_blocked") {
        Ok(FailureClass::NavigationBlocked)
    } else if same(text, "activation_refused") {
        Ok(FailureClass::ActivationRefused)
    } else if same(text, "transport_rejected_before_send") {
        Ok(FailureClass::TransportRejectedBeforeSend)
    } else {
        Err(corrupt_row(table, "failure_class", CorruptReason::UnknownLabel))
    }
}

/// Decoding the label of a value gives the value back.
pub proof fn failure_class_round_trips(value: FailureClass)
    ensures
        failure_class_named(failure_class_label(value)@) == Some(value),
{
    reveal_strlit("target_not_found");
    reveal_strlit("stale_target");
    reveal_strlit("wrong_conversation");
    reveal_strlit("app_not_selected");
    reveal_strlit("composer_not_ready");
    reveal_strlit("navigation_blocked");
    reveal_strlit("activation_refused");
    reveal_strlit("transport_rejected_before_send");
    assert("target_not_found"@.len() == 16);
    assert("stale_target"@.len() == 12);
    assert("wrong_conversation"@.len() == 18);
    assert("app_not_selected"@.len() == 16);
    assert("composer_not_ready"@.len() == 18);
    assert("navigation_blocked"@.len() == 18);
    assert("activation_refused"@.len() == 18);
    assert("transport_rejected_before_send"@.len() == 30);
    assert("target_not_found"@[0] != "app_not_selected"@[0]);
    assert("wrong_conversation"@[0] != "composer_not_ready"@[0]);
    assert("wrong_conversation"@[0] != "navigation_blocked"@[0]);
    assert("wrong_conversation"@[0] != "activation_refused"@[0]);
    assert("composer_not_ready"@[0] != "navigation_blocked"@[0]);
    assert("composer_not_ready"@[0] != "activation_refused"@[0]);
    assert("navigation_blocked"@[0] != "activation_refused"@[0]);
}

/// The label of a value in the `evidence_class` column.
pub open spec fn ambiguity_label(value: AmbiguityReason) -> &'static str {
    match value {
        AmbiguityReason::OrphanedByRestart => "orphaned_by_restart",
        AmbiguityReason::ObservationLost => "observation_lost",
        AmbiguityReason::EvidenceInconclusive => "evidence_inconclusive",
        AmbiguityReason::ActivationTimedOut => "activation_timed_out",
    }
}

/// Encodes a value for the `evidence_class` column.
pub fn encode_ambiguity(value: AmbiguityReason) -> (r: &'static str)
    ensures
        r == ambiguity_label(value),
{
    match value {
        AmbiguityReason::OrphanedByRestart => "orphaned_by_restart",
        AmbiguityReason::ObservationLost => "observation_lost",
        AmbiguityReason::EvidenceInconclusive => "evidence_inconclusive",
        AmbiguityReason::ActivationTimedOut => "activation_timed_out",
    }
}

/// The value a text in the `evidence_class` column is the label of, if it is one.
pub open spec fn ambiguity_named(text: Seq<char>) -> Option<AmbiguityReason> {
    if text == "orphaned_by_restart"@ {
        Some(AmbiguityReason::OrphanedByRestart)
    } else if text == "observation_lost"@ {
        Some(AmbiguityReason::ObservationLost)
    } else if text == "evidence_inconclusive"@ {
        Some(AmbiguityReason::EvidenceInconclusive)
    } else if text == "activation_timed_out"@ {
        Some(AmbiguityReason::ActivationTimedOut)
    } else {
        None
    }
}

/// Decodes a `evidence_class` column value: the value whose label the text is, or a corrupt row.
pub fn decode_ambiguity(text: &str, table: &'static str) -> (r: Result<AmbiguityReason, StoreError>)
    ensures
        r == (match ambiguity_named(text@) {
            Some(value) => Ok::<AmbiguityReason, StoreError>(value),
            None => Err(corrupt(table, "evidence_class", CorruptReason::UnknownLabel)),
        }),
{
    if same(text, "orphaned_by_restart") {
        Ok(AmbiguityReason::OrphanedByRestart)
    } else if same(text, "observation_lost") {
        Ok(AmbiguityReason::ObservationLost)
    } else if same(text, "evidence_inconclusive") {
        Ok(AmbiguityReason::EvidenceInconclusive)
    } else if same(text, "activation_timed_out") {
        Ok(AmbiguityReason::ActivationTimedOut)
    } else {
        Err(corrupt_row(table, "evidence_class", CorruptReason::UnknownLabel))
    }
}

/// Decoding the label of a value gives the value back.
pub proof fn ambiguity_round_trips(value: AmbiguityReason)
    ensures
        ambiguity_named(ambiguity_label(value)@) == Some(value),
{
    reveal_strlit("orphaned_by_restart");
    reveal_strlit("observation_lost");
    reveal_strlit("evidence_inconclusive");
    reveal_strlit("activation_timed_out");
    assert("orphaned_by_restart"@.len() == 19);
    assert("observation_lost"@.len() == 16);
    assert("evidence_inconclusive"@.len() == 21);
    assert("activation_timed_out"@.len() == 20);
}

/// The label of a value in the `failure_class` column.
pub open spec fn worker_failure_label(value: WorkerFailureClass) -> &'static str {
    match value {
        WorkerFailureClass::StructuredError => "structured_error",
        WorkerFailureClass::StopFailure => "stop_failure",
        WorkerFailureClass::Interrupted => "interrupted",
    }
}

/// Encodes a value for the `failure_class` column.
pub fn encode_worker_failure(value: WorkerFailureClass) -> (r: &'static str)
    ensures
        r == worker_failure_label(value),
{
    match value {
        WorkerFailureClass::StructuredError => "structured_error",
        WorkerFailureClass::StopFailure => "stop_failure",
        WorkerFailureClass::Interrupted => "interrupted",
    }
}

/// The value a text in the `failure_class` column is the label of, if it is one.
pub open spec fn worker_failure_named(text: Seq<char>) -> Option<WorkerFailureClass> {
    if text == "structured_error"@ {
        Some(WorkerFailureClass::StructuredError)
    } else if text == "stop_failure"@ {
        Some(WorkerFailureClass::StopFailure)
    } else if text == "interrupted"@ {
        Some(WorkerFailureClass::Interrupted)
    } else {
        None
    }
}

/// Decodes a `failure_class` column value: the value whose label the text is, or a corrupt row.
pub fn decode_worker_failure(text: &str, table: &'static str) -> (r: Result<WorkerFailureClass, StoreError>)
    ensures
        r == (match worker_failure_named(text@) {
            Some(value) => Ok::<WorkerFailureClass, StoreError>(value),
            None => Err(corrupt(table, "failure_class", CorruptReason::UnknownLabel)),
        }),
{
    if same(text, "structured_error") {
        Ok(WorkerFailureClass::StructuredError)
    } else if same(text, "stop_failure") {
        Ok(WorkerFailureClass::StopFailure)
    } else if same(text, "interrupted") {
        Ok(WorkerFailureClass::Interrupted)
    } else {
        Err(corrupt_row(table, "failure_class", CorruptReason::UnknownLabel))
    }
}

/// Decoding the label of a value gives the value back.
pub proof fn worker_failure_round_trips(value: WorkerFailureClass)
    ensures
        worker_failure_named(worker_failure_label(value)@) == Some(value),
{
    reveal_strlit("structured_error");
    reveal_strlit("stop_failure");
    reveal_strlit("interrupted");
    assert("structured_error"@.len() == 16);
    assert("stop_failure"@.len() == 12);
    assert("interrupted"@.len() == 11);
}

/// The label of a value in the `state` column.
pub open spec fn health_state_label(value: HealthConditionState) -> &'static str {
    match value {
        HealthConditionState::Open => "open",
        HealthConditionState::Resolved => "resolved",
    }
}

/// Encodes a value for the `state` column.
pub fn encode_health_state(value: HealthConditionState) -> (r: &'static str)
    ensures
        r == health_state_label(value),
{
    match value {
        HealthConditionState::Open => "open",
        HealthConditionState::Resolved => "resolved",
    }
}

/// The value a text in the `state` column is the label of, if it is one.
pub open spec fn health_state_named(text: Seq<char>) -> Option<HealthConditionState> {
    if text == "open"@ {
        Some(HealthConditionState::Open)
    } else if text == "resolved"@ {
        Some(HealthConditionState::Resolved)
    } else {
        None
    }
}

/// Decodes a `state` column value: the value whose label the text is, or a corrupt row.
pub fn decode_health_state(text: &str, table: &'static str) -> (r: Result<HealthConditionState, StoreError>)
    ensures
        r == (match health_state_named(text@) {
            Some(value) => Ok::<HealthConditionState, StoreError>(value),
            None => Err(corrupt(table, "state", CorruptReason::UnknownLabel)),
        }),
{
    if same(text, "open") {
        Ok(HealthConditionState::Open)
    } else if same(text, "resolved") {
        Ok(HealthConditionState::Resolved)
    } else {
        Err(corrupt_row(table, "state", CorruptReason::UnknownLabel))
    }
}

/// Decoding the label of a value gives the value back.
pub proof fn health_state_round_trips(value: HealthConditionState)
    ensures
        health_state_named(health_state_label(value)@) == Some(value),
{
    reveal_strlit("open");
    reveal_strlit("resolved");
    assert("open"@.len() == 4);
    assert("resolved"@.len() == 8);
}

/// The label of a value in the `write_capability_state` column.
pub open spec fn write_capability_label(value: WriteCapabilityState) -> &'static str {
    match value {
        WriteCapabilityState::Unknown => "unknown",
        WriteCapabilityState::Proven => "proven",
        WriteCapabilityState::ReadFetchOnlyUnsupported => "read_fetch_only_unsupported",
        WriteCapabilityState::Lost => "lost",
        WriteCapabilityState::BlockedByConfirmation => "blocked_by_confirmation",
    }
}

/// Encodes a value for the `write_capability_state` column.
pub fn encode_write_capability(value: WriteCapabilityState) -> (r: &'static str)
    ensures
        r == write_capability_label(value),
{
    match value {
        WriteCapabilityState::Unknown => "unknown",
        WriteCapabilityState::Proven => "proven",
        WriteCapabilityState::ReadFetchOnlyUnsupported => "read_fetch_only_unsupported",
        WriteCapabilityState::Lost => "lost",
        WriteCapabilityState::BlockedByConfirmation => "blocked_by_confirmation",
    }
}

/// The value a text in the `write_capability_state` column is the label of, if it is one.
pub open spec fn write_capability_named(text: Seq<char>) -> Option<WriteCapabilityState> {
    if text == "unknown"@ {
        Some(WriteCapabilityState::Unknown)
    } else if text == "proven"@ {
        Some(WriteCapabilityState::Proven)
    } else if text == "read_fetch_only_unsupported"@ {
        Some(WriteCapabilityState::ReadFetchOnlyUnsupported)
    } else if text == "lost"@ {
        Some(WriteCapabilityState::Lost)
    } else if text == "blocked_by_confirmation"@ {
        Some(WriteCapabilityState::BlockedByConfirmation)
    } else {
        None
    }
}

/// Decodes a `write_capability_state` column value: the value whose label the text is, or a corrupt row.
pub fn decode_write_capability(text: &str, table: &'static str) -> (r: Result<WriteCapabilityState, StoreError>)
    ensures
        r == (match write_capability_named(text@) {
            Some(value) => Ok::<WriteCapabilityState, StoreError>(value),
            None => Err(corrupt(table, "write_capability_state", CorruptReason::UnknownLabel)),
        }),
{
    if same(text, "unknown") {
        Ok(WriteCapabilityState::Unknown)
    } else if same(text, "proven") {
        Ok(WriteCapabilityState::Proven)
    } else if same(text, "read_fetch_only_unsupported") {
        Ok(WriteCapabilityState::ReadFetchOnlyUnsupported)
    } else if same(text, "lost") {
        Ok(WriteCapabilityState::Lost)
    } else if same(text, "blocked_by_confirmation") {
        Ok(WriteCapabilityState::BlockedByConfirmation)
    } else {
        Err(corrupt_row(table, "write_capability_state", CorruptReason::UnknownLabel))
    }
}

/// Decoding the label of a value gives the value back.
pub proof fn write_capability_round_trips(value: WriteCapabilityState)
    ensures
        write_capability_named(write_capability_label(value)@) == Some(value),
{
    reveal_strlit("unknown");
    reveal_strlit("proven");
    reveal_strlit("read_fetch_only_unsupported");
    reveal_strlit("lost");
    reveal_strlit("blocked_by_confirmation");
    assert("unknown"@.len() == 7);
    assert("proven"@.len() == 6);
    assert("read_fetch_only_unsupported"@.len() == 27);
    assert("lost"@.len() == 4);
    assert("blocked_by_confirmation"@.len() == 23);
}

/// The label of a value in the `kind` column.
pub open spec fn health_kind_label(value: HealthConditionKind) -> &'static str {
    match value {
        HealthConditionKind::SuspectedStall => "suspected_stall",
        HealthConditionKind::ForemanUnreachable => "foreman_unreachable",
        HealthConditionKind::McpWriteCapabilityMissing => "mcp_write_capability_missing",
        HealthConditionKind::BrowserBindingDisplaced => "browser_binding_displaced",
        HealthConditionKind::ResultArtifactMissing => "result_artifact_missing",
        HealthConditionKind::ProjectionMismatch => "projection_mismatch",
        HealthConditionKind::RuntimeStateConflict => "runtime_state_conflict",
        HealthConditionKind::InputDetailUnavailable => "input_detail_unavailable",
        HealthConditionKind::WorkerDeferShapeUnsupported => "worker_defer_shape_unsupported",
        HealthConditionKind::ReconciliationRequired => "reconciliation_required",
        HealthConditionKind::LoadoutUnverifiable => "loadout_unverifiable",
        HealthConditionKind::ManagedConfigMissing => "managed_config_missing",
        HealthConditionKind::LineageBroken => "lineage_broken",
    }
}

/// Encodes a value for the `kind` column.
pub fn encode_health_kind(value: HealthConditionKind) -> (r: &'static str)
    ensures
        r == health_kind_label(value),
{
    match value {
        HealthConditionKind::SuspectedStall => "suspected_stall",
        HealthConditionKind::ForemanUnreachable => "foreman_unreachable",
        HealthConditionKind::McpWriteCapabilityMissing => "mcp_write_capability_missing",
        HealthConditionKind::BrowserBindingDisplaced => "browser_binding_displaced",
        HealthConditionKind::ResultArtifactMissing => "result_artifact_missing",
        HealthConditionKind::ProjectionMismatch => "projection_mismatch",
        HealthConditionKind::RuntimeStateConflict => "runtime_state_conflict",
        HealthConditionKind::InputDetailUnavailable => "input_detail_unavailable",
        HealthConditionKind::WorkerDeferShapeUnsupported => "worker_defer_shape_unsupported",
        HealthConditionKind::ReconciliationRequired => "reconciliation_required",
        HealthConditionKind::LoadoutUnverifiable => "loadout_unverifiable",
        HealthConditionKind::ManagedConfigMissing => "managed_config_missing",
        HealthConditionKind::LineageBroken => "lineage_broken",
    }
}

/// The value a text in the `kind` column is the label of, if it is one.
pub open spec fn health_kind_named(text: Seq<char>) -> Option<HealthConditionKind> {
    if text == "suspected_stall"@ {
        Some(HealthConditionKind::SuspectedStall)
    } else if text == "foreman_unreachable"@ {
        Some(HealthConditionKind::ForemanUnreachable)
    } else if text == "mcp_write_capability_missing"@ {
        Some(HealthConditionKind::McpWriteCapabilityMissing)
    } else if text == "browser_binding_displaced"@ {
        Some(HealthConditionKind::BrowserBindingDisplaced)
    } else if text == "result_artifact_missing"@ {
        Some(HealthConditionKind::ResultArtifactMissing)
    } else if text == "projection_mismatch"@ {
        Some(HealthConditionKind::ProjectionMismatch)
    } else if text == "runtime_state_conflict"@ {
        Some(HealthConditionKind::RuntimeStateConflict)
    } else if text == "input_detail_unavailable"@ {
        Some(HealthConditionKind::InputDetailUnavailable)
    } else if text == "worker_defer_shape_unsupported"@ {
        Some(HealthConditionKind::WorkerDeferShapeUnsupported)
    } else if text == "reconciliation_required"@ {
        Some(HealthConditionKind::ReconciliationRequired)
    } else if text == "loadout_unverifiable"@ {
        Some(HealthConditionKind::LoadoutUnverifiable)
    } else if text == "managed_config_missing"@ {
        Some(HealthConditionKind::ManagedConfigMissing)
    } else if text == "lineage_broken"@ {
        Some(HealthConditionKind::LineageBroken)
    } else {
        None
    }
}

/// Decodes a `kind` column value: the value whose label the text is, or a corrupt row.
pub fn decode_health_kind(text: &str, table: &'static str) -> (r: Result<HealthConditionKind, StoreError>)
    ensures
        r == (match health_kind_named(text@) {
            Some(value) => Ok::<HealthConditionKind, StoreError>(value),
            None => Err(corrupt(table, "kind", CorruptReason::UnknownLabel)),
        }),
{
    if same(text, "suspected_stall") {
        Ok(HealthConditionKind::SuspectedStall)
    } else if same(text, "foreman_unreachable") {
        Ok(HealthConditionKind::ForemanUnreachable)
    } else if same(text, "mcp_write_capability_missing") {
        Ok(HealthConditionKind::McpWriteCapabilityMissing)
    } else if same(text, "browser_binding_displaced") {
        Ok(HealthConditionKind::BrowserBindingDisplaced)
    } else if same(text, "result_artifact_missing") {
        Ok(HealthConditionKind::ResultArtifactMissing)
    } else if same(text, "projection_mismatch") {
        Ok(HealthConditionKind::ProjectionMismatch)
    } else if same(text, "runtime_state_conflict") {
        Ok(HealthConditionKind::RuntimeStateConflict)
    } else if same(text, "input_detail_unavailable") {
        Ok(HealthConditionKind::InputDetailUnavailable)
    } else if same(text, "worker_defer_shape_unsupported") {
        Ok(HealthConditionKind::WorkerDeferShapeUnsupported)
    } else if same(text, "reconciliation_required") {
        Ok(HealthConditionKind::ReconciliationRequired)
    } else if same(text, "loadout_unverifiable") {
        Ok(HealthConditionKind::LoadoutUnverifiable)
    } else if same(text, "managed_config_missing") {
        Ok(HealthConditionKind::ManagedConfigMissing)
    } else if same(text, "lineage_broken") {
        Ok(HealthConditionKind::LineageBroken)
    } else {
        Err(corrupt_row(table, "kind", CorruptReason::UnknownLabel))
    }
}

/// Decoding the label of a value gives the value back.
pub proof fn health_kind_round_trips(value: HealthConditionKind)
    ensures
        health_kind_named(health_kind_label(value)@) == Some(value),
{
    reveal_strlit("suspected_stall");
    reveal_strlit("foreman_unreachable");
    reveal_strlit("mcp_write_capability_missing");
    reveal_strlit("browser_binding_displaced");
    reveal_strlit("result_artifact_missing");
    reveal_strlit("projection_mismatch");
    reveal_strlit("runtime_state_conflict");
    reveal_strlit("input_detail_unavailable");
    reveal_strlit("worker_defer_shape_unsupported");
    reveal_strlit("reconciliation_required");
    reveal_strlit("loadout_unverifiable");
    reveal_strlit("managed_config_missing");
    reveal_strlit("lineage_broken");
    assert("suspected_stall"@.len() == 15);
    assert("foreman_unreachable"@.len() == 19);
    assert("mcp_write_capability_missing"@.len() == 28);
    assert("browser_binding_displaced"@.len() == 25);
    assert("result_artifact_missing"@.len() == 23);
    assert("projection_mismatch"@.len() == 19);
    assert("runtime_state_conflict"@.len() == 22);
    assert("input_detail_unavailable"@.len() == 24);
    assert("worker_defer_shape_unsupported"@.len() == 30);
    assert("reconciliation_required"@.len() == 23);
    assert("loadout_unverifiable"@.len() == 20);
    assert("managed_config_missing"@.len() == 22);
    assert("lineage_broken"@.len() == 14);
    assert("foreman_unreachable"@[0] != "projection_mismatch"@[0]);
    assert("result_artifact_missing"@[2] != "reconciliation_required"@[2]);
    assert("runtime_state_conflict"@[0] != "managed_config_missing"@[0]);
}

/// The label of a value in the `status` column.
pub open spec fn mutation_status_label(value: MutationCommandStatus) -> &'static str {
    match value {
        MutationCommandStatus::Received => "received",
        MutationCommandStatus::Completed => "completed",
        MutationCommandStatus::Uncertain => "uncertain",
        MutationCommandStatus::Acked => "acked",
    }
}

/// Encodes a value for the `status` column.
pub fn encode_mutation_status(value: MutationCommandStatus) -> (r: &'static str)
    ensures
        r == mutation_status_label(value),
{
    match value {
        MutationCommandStatus::Received => "received",
        MutationCommandStatus::Completed => "completed",
        MutationCommandStatus::Uncertain => "uncertain",
        MutationCommandStatus::Acked => "acked",
    }
}

/// The value a text in the `status` column is the label of, if it is one.
pub open spec fn mutation_status_named(text: Seq<char>) -> Option<MutationCommandStatus> {
    if text == "received"@ {
        Some(MutationCommandStatus::Received)
    } else if text == "completed"@ {
        Some(MutationCommandStatus::Completed)
    } else if text == "uncertain"@ {
        Some(MutationCommandStatus::Uncertain)
    } else if text == "acked"@ {
        Some(MutationCommandStatus::Acked)
    } else {
        None
    }
}

/// Decodes a `status` column value: the value whose label the text is, or a corrupt row.
pub fn decode_mutation_status(text: &str, table: &'static str) -> (r: Result<MutationCommandStatus, StoreError>)
    ensures
        r == (match mutation_status_named(text@) {
            Some(value) => Ok::<MutationCommandStatus, StoreError>(value),
            None => Err(corrupt(table, "status", CorruptReason::UnknownLabel)),
        }),
{
    if same(text, "received") {
        Ok(MutationCommandStatus::Received)
    } else if same(text, "completed") {
        Ok(MutationCommandStatus::Completed)
    } else if same(text, "uncertain") {
        Ok(MutationCommandStatus::Uncertain)
    } else if same(text, "acked") {
        Ok(MutationCommandStatus::Acked)
    } else {
        Err(corrupt_row(table, "status", CorruptReason::UnknownLabel))
    }
}

/// Decoding the label of a value gives the value back.
pub proof fn mutation_status_round_trips(value: MutationCommandStatus)
    ensures
        mutation_status_named(mutation_status_label(value)@) == Some(value),
{
    reveal_strlit("received");
    reveal_strlit("completed");
    reveal_strlit("uncertain");
    reveal_strlit("acked");
    assert("received"@.len() == 8);
    assert("completed"@.len() == 9);
    assert("uncertain"@.len() == 9);
    assert("acked"@.len() == 5);
    assert("completed"@[0] != "uncertain"@[0]);
}

/// The label of a value in the `state` column.
pub open spec fn attempt_effect_state_label(value: ExternalAttemptState) -> &'static str {
    match value {
        ExternalAttemptState::IntentRecorded => "intent_recorded",
        ExternalAttemptState::Completed => "completed",
        ExternalAttemptState::FailedBeforeEffect => "failed_before_effect",
        ExternalAttemptState::Ambiguous => "ambiguous",
    }
}

/// Encodes a value for the `state` column.
pub fn encode_attempt_effect_state(value: ExternalAttemptState) -> (r: &'static str)
    ensures
        r == attempt_effect_state_label(value),
{
    match value {
        ExternalAttemptState::IntentRecorded => "intent_recorded",
        ExternalAttemptState::Completed => "completed",
        ExternalAttemptState::FailedBeforeEffect => "failed_before_effect",
        ExternalAttemptState::Ambiguous => "ambiguous",
    }
}

/// The value a text in the `state` column is the label of, if it is one.
pub open spec fn attempt_effect_state_named(text: Seq<char>) -> Option<ExternalAttemptState> {
    if text == "intent_recorded"@ {
        Some(ExternalAttemptState::IntentRecorded)
    } else if text == "completed"@ {
        Some(ExternalAttemptState::Completed)
    } else if text == "failed_before_effect"@ {
        Some(ExternalAttemptState::FailedBeforeEffect)
    } else if text == "ambiguous"@ {
        Some(ExternalAttemptState::Ambiguous)
    } else {
        None
    }
}

/// Decodes a `state` column value: the value whose label the text is, or a corrupt row.
pub fn decode_attempt_effect_state(text: &str, table: &'static str) -> (r: Result<ExternalAttemptState, StoreError>)
    ensures
        r == (match attempt_effect_state_named(text@) {
            Some(value) => Ok::<ExternalAttemptState, StoreError>(value),
            None => Err(corrupt(table, "state", CorruptReason::UnknownLabel)),
        }),
{
    if same(text, "intent_recorded") {
        Ok(ExternalAttemptState::IntentRecorded)
    } else if same(text, "completed") {
        Ok(ExternalAttemptState::Completed)
    } else if same(text, "failed_before_effect") {
        Ok(ExternalAttemptState::FailedBeforeEffect)
    } else if same(text, "ambiguous") {
        Ok(ExternalAttemptState::Ambiguous)
    } else {
        Err(corrupt_row(table, "state", CorruptReason::UnknownLabel))
    }
}

/// Decoding the label of a value gives the value back.
pub proof fn attempt_effect_state_round_trips(value: ExternalAttemptState)
    ensures
        attempt_effect_state_named(attempt_effect_state_label(value)@) == Some(value),
{
    reveal_strlit("intent_recorded");
    reveal_strlit("completed");
    reveal_strlit("failed_before_effect");
    reveal_strlit("ambiguous");
    assert("intent_recorded"@.len() == 15);
    assert("completed"@.len() == 9);
    assert("failed_before_effect"@.len() == 20);
    assert("ambiguous"@.len() == 9);
    assert("completed"@[0] != "ambiguous"@[0]);
}

/// The label of a value in the `no_effect_class` column.
pub open spec fn no_effect_label(value: NoEffectClass) -> &'static str {
    match value {
        NoEffectClass::NotAttempted => "not_attempted",
        NoEffectClass::RejectedBeforeDispatch => "rejected_before_dispatch",
        NoEffectClass::DestinationRefusedWithoutApplying => "destination_refused_without_applying",
        NoEffectClass::PreconditionRejectedAtDestination => "precondition_rejected_at_destination",
    }
}

/// Encodes a value for the `no_effect_class` column.
pub fn encode_no_effect(value: NoEffectClass) -> (r: &'static str)
    ensures
        r == no_effect_label(value),
{
    match value {
        NoEffectClass::NotAttempted => "not_attempted",
        NoEffectClass::RejectedBeforeDispatch => "rejected_before_dispatch",
        NoEffectClass::DestinationRefusedWithoutApplying => "destination_refused_without_applying",
        NoEffectClass::PreconditionRejectedAtDestination => "precondition_rejected_at_destination",
    }
}

/// The value a text in the `no_effect_class` column is the label of, if it is one.
pub open spec fn no_effect_named(text: Seq<char>) -> Option<NoEffectClass> {
    if text == "not_attempted"@ {
        Some(NoEffectClass::NotAttempted)
    } else if text == "rejected_before_dispatch"@ {
        Some(NoEffectClass::RejectedBeforeDispatch)
    } else if text == "destination_refused_without_applying"@ {
        Some(NoEffectClass::DestinationRefusedWithoutApplying)
    } else if text == "precondition_rejected_at_destination"@ {
        Some(NoEffectClass::PreconditionRejectedAtDestination)
    } else {
        None
    }
}

/// Decodes a `no_effect_class` column value: the value whose label the text is, or a corrupt row.
pub fn decode_no_effect(text: &str, table: &'static str) -> (r: Result<NoEffectClass, StoreError>)
    ensures
        r == (match no_effect_named(text@) {
            Some(value) => Ok::<NoEffectClass, StoreError>(value),
            None => Err(corrupt(table, "no_effect_class", CorruptReason::UnknownLabel)),
        }),
{
    if same(text, "not_attempted") {
        Ok(NoEffectClass::NotAttempted)
    } else if same(text, "rejected_before_dispatch") {
        Ok(NoEffectClass::RejectedBeforeDispatch)
    } else if same(text, "destination_refused_without_applying") {
        Ok(NoEffectClass::DestinationRefusedWithoutApplying)
    } else if same(text, "precondition_rejected_at_destination") {
        Ok(NoEffectClass::PreconditionRejectedAtDestination)
    } else {
        Err(corrupt_row(table, "no_effect_class", CorruptReason::UnknownLabel))
    }
}

/// Decoding the label of a value gives the value back.
pub proof fn no_effect_round_trips(value: NoEffectClass)
    ensures
        no_effect_named(no_effect_label(value)@) == Some(value),
{
    reveal_strlit("not_attempted");
    reveal_strlit("rejected_before_dispatch");
    reveal_strlit("destination_refused_without_applying");
    reveal_strlit("precondition_rejected_at_destination");
    assert("not_attempted"@.len() == 13);
    assert("rejected_before_dispatch"@.len() == 24);
    assert("destination_refused_without_applying"@.len() == 36);
    assert("precondition_rejected_at_destination"@.len() == 36);
    assert("destination_refused_without_applying"@[0] != "precondition_rejected_at_destination"@[0]);
}

/// The label of a value in the `ambiguity_reason` column.
pub open spec fn effect_ambiguity_label(value: EffectAmbiguityReason) -> &'static str {
    match value {
        EffectAmbiguityReason::OrphanedByRestart => "orphaned_by_restart",
        EffectAmbiguityReason::ResponseLost => "response_lost",
        EffectAmbiguityReason::DeadlineElapsed => "deadline_elapsed",
        EffectAmbiguityReason::EvidenceInconclusive => "evidence_inconclusive",
    }
}

/// Encodes a value for the `ambiguity_reason` column.
pub fn encode_effect_ambiguity(value: EffectAmbiguityReason) -> (r: &'static str)
    ensures
        r == effect_ambiguity_label(value),
{
    match value {
        EffectAmbiguityReason::OrphanedByRestart => "orphaned_by_restart",
        EffectAmbiguityReason::ResponseLost => "response_lost",
        EffectAmbiguityReason::DeadlineElapsed => "deadline_elapsed",
        EffectAmbiguityReason::EvidenceInconclusive => "evidence_inconclusive",
    }
}

/// The value a text in the `ambiguity_reason` column is the label of, if it is one.
pub open spec fn effect_ambiguity_named(text: Seq<char>) -> Option<EffectAmbiguityReason> {
    if text == "orphaned_by_restart"@ {
        Some(EffectAmbiguityReason::OrphanedByRestart)
    } else if text == "response_lost"@ {
        Some(EffectAmbiguityReason::ResponseLost)
    } else if text == "deadline_elapsed"@ {
        Some(EffectAmbiguityReason::DeadlineElapsed)
    } else if text == "evidence_inconclusive"@ {
        Some(EffectAmbiguityReason::EvidenceInconclusive)
    } else {
        None
    }
}

/// Decodes a `ambiguity_reason` column value: the value whose label the text is, or a corrupt row.
pub fn decode_effect_ambiguity(text: &str, table: &'static str) -> (r: Result<EffectAmbiguityReason, StoreError>)
    ensures
        r == (match effect_ambiguity_named(text@) {
            Some(value) => Ok::<EffectAmbiguityReason, StoreError>(value),
            None => Err(corrupt(table, "ambiguity_reason", CorruptReason::UnknownLabel)),
        }),
{
    if same(text, "orphaned_by_restart") {
        Ok(EffectAmbiguityReason::OrphanedByRestart)
    } else if same(text, "response_lost") {
        Ok(EffectAmbiguityReason::ResponseLost)
    } else if same(text, "deadline_elapsed") {
        Ok(EffectAmbiguityReason::DeadlineElapsed)
    } else if same(text, "evidence_inconclusive") {
        Ok(EffectAmbiguityReason::EvidenceInconclusive)
    } else {
        Err(corrupt_row(table, "ambiguity_reason", CorruptReason::UnknownLabel))
    }
}

/// Decoding the label of a value gives the value back.
pub proof fn effect_ambiguity_round_trips(value: EffectAmbiguityReason)
    ensures
        effect_ambiguity_named(effect_ambiguity_label(value)@) == Some(value),
{
    reveal_strlit("orphaned_by_restart");
    reveal_strlit("response_lost");
    reveal_strlit("deadline_elapsed");
    reveal_strlit("evidence_inconclusive");
    assert("orphaned_by_restart"@.len() == 19);
    assert("response_lost"@.len() == 13);
    assert("deadline_elapsed"@.len() == 16);
    assert("evidence_inconclusive"@.len() == 21);
}

/// The label of a value in the `state` column.
pub open spec fn lease_state_label(value: LeaseState) -> &'static str {
    match value {
        LeaseState::Held => "held",
        LeaseState::Released => "released",
    }
}

/// Encodes a value for the `state` column.
pub fn encode_lease_state(value: LeaseState) -> (r: &'static str)
    ensures
        r == lease_state_label(value),
{
    match value {
        LeaseState::Held => "held",
        LeaseState::Released => "released",
    }
}

/// The value a text in the `state` column is the label of, if it is one.
pub open spec fn lease_state_named(text: Seq<char>) -> Option<LeaseState> {
    if text == "held"@ {
        Some(LeaseState::Held)
    } else if text == "released"@ {
        Some(LeaseState::Released)
    } else {
        None
    }
}

/// Decodes a `state` column value: the value whose label the text is, or a corrupt row.
pub fn decode_lease_state(text: &str, table: &'static str) -> (r: Result<LeaseState, StoreError>)
    ensures
        r == (match lease_state_named(text@) {
            Some(value) => Ok::<LeaseState, StoreError>(value),
            None => Err(corrupt(table, "state", CorruptReason::UnknownLabel)),
        }),
{
    if same(text, "held") {
        Ok(LeaseState::Held)
    } else if same(text, "released") {
        Ok(LeaseState::Released)
    } else {
        Err(corrupt_row(table, "state", CorruptReason::UnknownLabel))
    }
}

/// Decoding the label of a value gives the value back.
pub proof fn lease_state_round_trips(value: LeaseState)
    ensures
        lease_state_named(lease_state_label(value)@) == Some(value),
{
    reveal_strlit("held");
    reveal_strlit("released");
    assert("held"@.len() == 4);
    assert("released"@.len() == 8);
}

/// The label of a value in the `safe_result_conflict` column.
pub open spec fn conflict_kind_label(value: ConflictKind) -> &'static str {
    match value {
        ConflictKind::StaleBindingGeneration => "stale_binding_generation",
        ConflictKind::UnknownBindingGeneration => "unknown_binding_generation",
        ConflictKind::NoActiveBinding => "no_active_binding",
        ConflictKind::StaleObligationVersion => "stale_obligation_version",
        ConflictKind::StaleSourceFence => "stale_source_fence",
        ConflictKind::StaleClaim => "stale_claim",
        ConflictKind::NoCurrentClaim => "no_current_claim",
        ConflictKind::ExpiredClaim => "expired_claim",
        ConflictKind::ObligationAlreadyClaimed => "obligation_already_claimed",
        ConflictKind::UnknownDeliveryId => "unknown_delivery_id",
        ConflictKind::StaleSessionIncarnation => "stale_session_incarnation",
        ConflictKind::StaleDeliveryTarget => "stale_delivery_target",
        ConflictKind::IllegalObligationTransition => "illegal_obligation_transition",
        ConflictKind::ObligationClosed => "obligation_closed",
        ConflictKind::DeliveryRevisionFrozen => "delivery_revision_frozen",
        ConflictKind::DeliveryRevisionStillLive => "delivery_revision_still_live",
        ConflictKind::DeliveryRevisionSuperseded => "delivery_revision_superseded",
        ConflictKind::IllegalDeliveryTransition => "illegal_delivery_transition",
        ConflictKind::UnknownAttempt => "unknown_attempt",
        ConflictKind::RetryBudgetExhausted => "retry_budget_exhausted",
        ConflictKind::RetryAfterAmbiguityFence => "retry_after_ambiguity_fence",
        ConflictKind::FailureNotProven => "failure_not_proven",
        ConflictKind::ForemanTurnNotQuiescent => "foreman_turn_not_quiescent",
        ConflictKind::ConflictingInputAnswer => "conflicting_input_answer",
        ConflictKind::IllegalInputTransition => "illegal_input_transition",
        ConflictKind::StaleCommandRevision => "stale_command_revision",
        ConflictKind::InvalidDisposition => "invalid_disposition",
        ConflictKind::ExecuteRequiresDurableIntent => "execute_requires_durable_intent",
        ConflictKind::IllegalAttemptTransition => "illegal_attempt_transition",
        ConflictKind::AttemptAlreadyCompleted => "attempt_already_completed",
        ConflictKind::AttemptAlreadyDispatched => "attempt_already_dispatched",
        ConflictKind::AttemptPermitMismatch => "attempt_permit_mismatch",
        ConflictKind::EffectNotProvenAbsent => "effect_not_proven_absent",
        ConflictKind::RetryRequiresIdempotencyContract => "retry_requires_idempotency_contract",
        ConflictKind::MutationResultUncertain => "mutation_result_uncertain",
        ConflictKind::MutationCommandMismatch => "mutation_command_mismatch",
        ConflictKind::IllegalMutationTransition => "illegal_mutation_transition",
        ConflictKind::MutationNotCompleted => "mutation_not_completed",
        ConflictKind::StaleLeaseToken => "stale_lease_token",
        ConflictKind::StaleProcessIncarnation => "stale_process_incarnation",
        ConflictKind::StaleDaemonEpoch => "stale_daemon_epoch",
        ConflictKind::ResourceAlreadyLeased => "resource_already_leased",
        ConflictKind::NoCurrentLease => "no_current_lease",
        ConflictKind::IllegalLeaseTransition => "illegal_lease_transition",
    }
}

/// Encodes a value for the `safe_result_conflict` column.
pub fn encode_conflict_kind(value: ConflictKind) -> (r: &'static str)
    ensures
        r == conflict_kind_label(value),
{
    match value {
        ConflictKind::StaleBindingGeneration => "stale_binding_generation",
        ConflictKind::UnknownBindingGeneration => "unknown_binding_generation",
        ConflictKind::NoActiveBinding => "no_active_binding",
        ConflictKind::StaleObligationVersion => "stale_obligation_version",
        ConflictKind::StaleSourceFence => "stale_source_fence",
        ConflictKind::StaleClaim => "stale_claim",
        ConflictKind::NoCurrentClaim => "no_current_claim",
        ConflictKind::ExpiredClaim => "expired_claim",
        ConflictKind::ObligationAlreadyClaimed => "obligation_already_claimed",
        ConflictKind::UnknownDeliveryId => "unknown_delivery_id",
        ConflictKind::StaleSessionIncarnation => "stale_session_incarnation",
        ConflictKind::StaleDeliveryTarget => "stale_delivery_target",
        ConflictKind::IllegalObligationTransition => "illegal_obligation_transition",
        ConflictKind::ObligationClosed => "obligation_closed",
        ConflictKind::DeliveryRevisionFrozen => "delivery_revision_frozen",
        ConflictKind::DeliveryRevisionStillLive => "delivery_revision_still_live",
        ConflictKind::DeliveryRevisionSuperseded => "delivery_revision_superseded",
        ConflictKind::IllegalDeliveryTransition => "illegal_delivery_transition",
        ConflictKind::UnknownAttempt => "unknown_attempt",
        ConflictKind::RetryBudgetExhausted => "retry_budget_exhausted",
        ConflictKind::RetryAfterAmbiguityFence => "retry_after_ambiguity_fence",
        ConflictKind::FailureNotProven => "failure_not_proven",
        ConflictKind::ForemanTurnNotQuiescent => "foreman_turn_not_quiescent",
        ConflictKind::ConflictingInputAnswer => "conflicting_input_answer",
        ConflictKind::IllegalInputTransition => "illegal_input_transition",
        ConflictKind::StaleCommandRevision => "stale_command_revision",
        ConflictKind::InvalidDisposition => "invalid_disposition",
        ConflictKind::ExecuteRequiresDurableIntent => "execute_requires_durable_intent",
        ConflictKind::IllegalAttemptTransition => "illegal_attempt_transition",
        ConflictKind::AttemptAlreadyCompleted => "attempt_already_completed",
        ConflictKind::AttemptAlreadyDispatched => "attempt_already_dispatched",
        ConflictKind::AttemptPermitMismatch => "attempt_permit_mismatch",
        ConflictKind::EffectNotProvenAbsent => "effect_not_proven_absent",
        ConflictKind::RetryRequiresIdempotencyContract => "retry_requires_idempotency_contract",
        ConflictKind::MutationResultUncertain => "mutation_result_uncertain",
        ConflictKind::MutationCommandMismatch => "mutation_command_mismatch",
        ConflictKind::IllegalMutationTransition => "illegal_mutation_transition",
        ConflictKind::MutationNotCompleted => "mutation_not_completed",
        ConflictKind::StaleLeaseToken => "stale_lease_token",
        ConflictKind::StaleProcessIncarnation => "stale_process_incarnation",
        ConflictKind::StaleDaemonEpoch => "stale_daemon_epoch",
        ConflictKind::ResourceAlreadyLeased => "resource_already_leased",
        ConflictKind::NoCurrentLease => "no_current_lease",
        ConflictKind::IllegalLeaseTransition => "illegal_lease_transition",
    }
}

/// The value a text in the `safe_result_conflict` column is the label of, if it is one.
pub open spec fn conflict_kind_named(text: Seq<char>) -> Option<ConflictKind> {
    if text == "stale_binding_generation"@ {
        Some(ConflictKind::StaleBindingGeneration)
    } else if text == "unknown_binding_generation"@ {
        Some(ConflictKind::UnknownBindingGeneration)
    } else if text == "no_active_binding"@ {
        Some(ConflictKind::NoActiveBinding)
    } else if text == "stale_obligation_version"@ {
        Some(ConflictKind::StaleObligationVersion)
    } else if text == "stale_source_fence"@ {
        Some(ConflictKind::StaleSourceFence)
    } else if text == "stale_claim"@ {
        Some(ConflictKind::StaleClaim)
    } else if text == "no_current_claim"@ {
        Some(ConflictKind::NoCurrentClaim)
    } else if text == "expired_claim"@ {
        Some(ConflictKind::ExpiredClaim)
    } else if text == "obligation_already_claimed"@ {
        Some(ConflictKind::ObligationAlreadyClaimed)
    } else if text == "unknown_delivery_id"@ {
        Some(ConflictKind::UnknownDeliveryId)
    } else if text == "stale_session_incarnation"@ {
        Some(ConflictKind::StaleSessionIncarnation)
    } else if text == "stale_delivery_target"@ {
        Some(ConflictKind::StaleDeliveryTarget)
    } else if text == "illegal_obligation_transition"@ {
        Some(ConflictKind::IllegalObligationTransition)
    } else if text == "obligation_closed"@ {
        Some(ConflictKind::ObligationClosed)
    } else if text == "delivery_revision_frozen"@ {
        Some(ConflictKind::DeliveryRevisionFrozen)
    } else if text == "delivery_revision_still_live"@ {
        Some(ConflictKind::DeliveryRevisionStillLive)
    } else if text == "delivery_revision_superseded"@ {
        Some(ConflictKind::DeliveryRevisionSuperseded)
    } else if text == "illegal_delivery_transition"@ {
        Some(ConflictKind::IllegalDeliveryTransition)
    } else if text == "unknown_attempt"@ {
        Some(ConflictKind::UnknownAttempt)
    } else if text == "retry_budget_exhausted"@ {
        Some(ConflictKind::RetryBudgetExhausted)
    } else if text == "retry_after_ambiguity_fence"@ {
        Some(ConflictKind::RetryAfterAmbiguityFence)
    } else if text == "failure_not_proven"@ {
        Some(ConflictKind::FailureNotProven)
    } else if text == "foreman_turn_not_quiescent"@ {
        Some(ConflictKind::ForemanTurnNotQuiescent)
    } else if text == "conflicting_input_answer"@ {
        Some(ConflictKind::ConflictingInputAnswer)
    } else if text == "illegal_input_transition"@ {
        Some(ConflictKind::IllegalInputTransition)
    } else if text == "stale_command_revision"@ {
        Some(ConflictKind::StaleCommandRevision)
    } else if text == "invalid_disposition"@ {
        Some(ConflictKind::InvalidDisposition)
    } else if text == "execute_requires_durable_intent"@ {
        Some(ConflictKind::ExecuteRequiresDurableIntent)
    } else if text == "illegal_attempt_transition"@ {
        Some(ConflictKind::IllegalAttemptTransition)
    } else if text == "attempt_already_completed"@ {
        Some(ConflictKind::AttemptAlreadyCompleted)
    } else if text == "attempt_already_dispatched"@ {
        Some(ConflictKind::AttemptAlreadyDispatched)
    } else if text == "attempt_permit_mismatch"@ {
        Some(ConflictKind::AttemptPermitMismatch)
    } else if text == "effect_not_proven_absent"@ {
        Some(ConflictKind::EffectNotProvenAbsent)
    } else if text == "retry_requires_idempotency_contract"@ {
        Some(ConflictKind::RetryRequiresIdempotencyContract)
    } else if text == "mutation_result_uncertain"@ {
        Some(ConflictKind::MutationResultUncertain)
    } else if text == "mutation_command_mismatch"@ {
        Some(ConflictKind::MutationCommandMismatch)
    } else if text == "illegal_mutation_transition"@ {
        Some(ConflictKind::IllegalMutationTransition)
    } else if text == "mutation_not_completed"@ {
        Some(ConflictKind::MutationNotCompleted)
    } else if text == "stale_lease_token"@ {
        Some(ConflictKind::StaleLeaseToken)
    } else if text == "stale_process_incarnation"@ {
        Some(ConflictKind::StaleProcessIncarnation)
    } else if text == "stale_daemon_epoch"@ {
        Some(ConflictKind::StaleDaemonEpoch)
    } else if text == "resource_already_leased"@ {
        Some(ConflictKind::ResourceAlreadyLeased)
    } else if text == "no_current_lease"@ {
        Some(ConflictKind::NoCurrentLease)
    } else if text == "illegal_lease_transition"@ {
        Some(ConflictKind::IllegalLeaseTransition)
    } else {
        None
    }
}

/// Decodes a `safe_result_conflict` column value: the value whose label the text is, or a corrupt row.
pub fn decode_conflict_kind(text: &str, table: &'static str) -> (r: Result<ConflictKind, StoreError>)
    ensures
        r == (match conflict_kind_named(text@) {
            Some(value) => Ok::<ConflictKind, StoreError>(value),
            None => Err(corrupt(table, "safe_result_conflict", CorruptReason::UnknownLabel)),
        }),
{
    if same(text, "stale_binding_generation") {
        Ok(ConflictKind::StaleBindingGeneration)
    } else if same(text, "unknown_binding_generation") {
        Ok(ConflictKind::UnknownBindingGeneration)
    } else if same(text, "no_active_binding") {
        Ok(ConflictKind::NoActiveBinding)
    } else if same(text, "stale_obligation_version") {
        Ok(ConflictKind::StaleObligationVersion)
    } else if same(text, "stale_source_fence") {
        Ok(ConflictKind::StaleSourceFence)
    } else if same(text, "stale_claim") {
        Ok(ConflictKind::StaleClaim)
    } else if same(text, "no_current_claim") {
        Ok(ConflictKind::NoCurrentClaim)
    } else if same(text, "expired_claim") {
        Ok(ConflictKind::ExpiredClaim)
    } else if same(text, "obligation_already_claimed") {
        Ok(ConflictKind::ObligationAlreadyClaimed)
    } else if same(text, "unknown_delivery_id") {
        Ok(ConflictKind::UnknownDeliveryId)
    } else if same(text, "stale_session_incarnation") {
        Ok(ConflictKind::StaleSessionIncarnation)
    } else if same(text, "stale_delivery_target") {
        Ok(ConflictKind::StaleDeliveryTarget)
    } else if same(text, "illegal_obligation_transition") {
        Ok(ConflictKind::IllegalObligationTransition)
    } else if same(text, "obligation_closed") {
        Ok(ConflictKind::ObligationClosed)
    } else if same(text, "delivery_revision_frozen") {
        Ok(ConflictKind::DeliveryRevisionFrozen)
    } else if same(text, "delivery_revision_still_live") {
        Ok(ConflictKind::DeliveryRevisionStillLive)
    } else if same(text, "delivery_revision_superseded") {
        Ok(ConflictKind::DeliveryRevisionSuperseded)
    } else if same(text, "illegal_delivery_transition") {
        Ok(ConflictKind::IllegalDeliveryTransition)
    } else if same(text, "unknown_attempt") {
        Ok(ConflictKind::UnknownAttempt)
    } else if same(text, "retry_budget_exhausted") {
        Ok(ConflictKind::RetryBudgetExhausted)
    } else if same(text, "retry_after_ambiguity_fence") {
        Ok(ConflictKind::RetryAfterAmbiguityFence)
    } else if same(text, "failure_not_proven") {
        Ok(ConflictKind::FailureNotProven)
    } else if same(text, "foreman_turn_not_quiescent") {
        Ok(ConflictKind::ForemanTurnNotQuiescent)
    } else if same(text, "conflicting_input_answer") {
        Ok(ConflictKind::ConflictingInputAnswer)
    } else if same(text, "illegal_input_transition") {
        Ok(ConflictKind::IllegalInputTransition)
    } else if same(text, "stale_command_revision") {
        Ok(ConflictKind::StaleCommandRevision)
    } else if same(text, "invalid_disposition") {
        Ok(ConflictKind::InvalidDisposition)
    } else if same(text, "execute_requires_durable_intent") {
        Ok(ConflictKind::ExecuteRequiresDurableIntent)
    } else if same(text, "illegal_attempt_transition") {
        Ok(ConflictKind::IllegalAttemptTransition)
    } else if same(text, "attempt_already_completed") {
        Ok(ConflictKind::AttemptAlreadyCompleted)
    } else if same(text, "attempt_already_dispatched") {
        Ok(ConflictKind::AttemptAlreadyDispatched)
    } else if same(text, "attempt_permit_mismatch") {
        Ok(ConflictKind::AttemptPermitMismatch)
    } else if same(text, "effect_not_proven_absent") {
        Ok(ConflictKind::EffectNotProvenAbsent)
    } else if same(text, "retry_requires_idempotency_contract") {
        Ok(ConflictKind::RetryRequiresIdempotencyContract)
    } else if same(text, "mutation_result_uncertain") {
        Ok(ConflictKind::MutationResultUncertain)
    } else if same(text, "mutation_command_mismatch") {
        Ok(ConflictKind::MutationCommandMismatch)
    } else if same(text, "illegal_mutation_transition") {
        Ok(ConflictKind::IllegalMutationTransition)
    } else if same(text, "mutation_not_completed") {
        Ok(ConflictKind::MutationNotCompleted)
    } else if same(text, "stale_lease_token") {
        Ok(ConflictKind::StaleLeaseToken)
    } else if same(text, "stale_process_incarnation") {
        Ok(ConflictKind::StaleProcessIncarnation)
    } else if same(text, "stale_daemon_epoch") {
        Ok(ConflictKind::StaleDaemonEpoch)
    } else if same(text, "resource_already_leased") {
        Ok(ConflictKind::ResourceAlreadyLeased)
    } else if same(text, "no_current_lease") {
        Ok(ConflictKind::NoCurrentLease)
    } else if same(text, "illegal_lease_transition") {
        Ok(ConflictKind::IllegalLeaseTransition)
    } else {
        Err(corrupt_row(table, "safe_result_conflict", CorruptReason::UnknownLabel))
    }
}

/// Decoding the label of a value gives the value back.
pub proof fn conflict_kind_round_trips(value: ConflictKind)
    ensures
        conflict_kind_named(conflict_kind_label(value)@) == Some(value),
{
    reveal_strlit("stale_binding_generation");
    reveal_strlit("unknown_binding_generation");
    reveal_strlit("no_active_binding");
    reveal_strlit("stale_obligation_version");
    reveal_strlit("stale_source_fence");
    reveal_strlit("stale_claim");
    reveal_strlit("no_current_claim");
    reveal_strlit("expired_claim");
    reveal_strlit("obligation_already_claimed");
    reveal_strlit("unknown_delivery_id");
    reveal_strlit("stale_session_incarnation");
    reveal_strlit("stale_delivery_target");
    reveal_strlit("illegal_obligation_transition");
    reveal_strlit("obligation_closed");
    reveal_strlit("delivery_revision_frozen");
    reveal_strlit("delivery_revision_still_live");
    reveal_strlit("delivery_revision_superseded");
    reveal_strlit("illegal_delivery_transition");
    reveal_strlit("unknown_attempt");
    reveal_strlit("retry_budget_exhausted");
    reveal_strlit("retry_after_ambiguity_fence");
    reveal_strlit("failure_not_proven");
    reveal_strlit("foreman_turn_not_quiescent");
    reveal_strlit("conflicting_input_answer");
    reveal_strlit("illegal_input_transition");
    reveal_strlit("stale_command_revision");
    reveal_strlit("invalid_disposition");
    reveal_strlit("execute_requires_durable_intent");
    reveal_strlit("illegal_attempt_transition");
    reveal_strlit("attempt_already_completed");
    reveal_strlit("attempt_already_dispatched");
    reveal_strlit("attempt_permit_mismatch");
    reveal_strlit("effect_not_proven_absent");
    reveal_strlit("retry_requires_idempotency_contract");
    reveal_strlit("mutation_result_uncertain");
    reveal_strlit("mutation_command_mismatch");
    reveal_strlit("illegal_mutation_transition");
    reveal_strlit("mutation_not_completed");
    reveal_strlit("stale_lease_token");
    reveal_strlit("stale_process_incarnation");
    reveal_strlit("stale_daemon_epoch");
    reveal_strlit("resource_already_leased");
    reveal_strlit("no_current_lease");
    reveal_strlit("illegal_lease_transition");
    assert("stale_binding_generation"@.len() == 24);
    assert("unknown_binding_generation"@.len() == 26);
    assert("no_active_binding"@.len() == 17);
    assert("stale_obligation_version"@.len() == 24);
    assert("stale_source_fence"@.len() == 18);
    assert("stale_claim"@.len() == 11);
    assert("no_current_claim"@.len() == 16);
    assert("expired_claim"@.len() == 13);
    assert("obligation_already_claimed"@.len() == 26);
    assert("unknown_delivery_id"@.len() == 19);
    assert("stale_session_incarnation"@.len() == 25);
    assert("stale_delivery_target"@.len() == 21);
    assert("illegal_obligation_transition"@.len() == 29);
    assert("obligation_closed"@.len() == 17);
    assert("delivery_revision_frozen"@.len() == 24);
    assert("delivery_revision_still_live"@.len() == 28);
    assert("delivery_revision_superseded"@.len() == 28);
    assert("illegal_delivery_transition"@.len() == 27);
    assert("unknown_attempt"@.len() == 15);
    assert("retry_budget_exhausted"@.len() == 22);
    assert("retry_after_ambiguity_fence"@.len() == 27);
    assert("failure_not_proven"@.len() == 18);
    assert("foreman_turn_not_quiescent"@.len() == 26);
    assert("conflicting_input_answer"@.len() == 24);
    assert("illegal_input_transition"@.len() == 24);
    assert("stale_command_revision"@.len() == 22);
    assert("invalid_disposition"@.len() == 19);
    assert("execute_requires_durable_intent"@.len() == 31);
    assert("illegal_attempt_transition"@.len() == 26);
    assert("attempt_already_completed"@.len() == 25);
    assert("attempt_already_dispatched"@.len() == 26);
    assert("attempt_permit_mismatch"@.len() == 23);
    assert("effect_not_proven_absent"@.len() == 24);
    assert("retry_requires_idempotency_contract"@.len() == 35);
    assert("mutation_result_uncertain"@.len() == 25);
    assert("mutation_command_mismatch"@.len() == 25);
    assert("illegal_mutation_transition"@.len() == 27);
    assert("mutation_not_completed"@.len() == 22);
    assert("stale_lease_token"@.len() == 17);
    assert("stale_process_incarnation"@.len() == 25);
    assert("stale_daemon_epoch"@.len() == 18);
    assert("resource_already_leased"@.len() == 23);
    assert("no_current_lease"@.len() == 16);
    assert("illegal_lease_transition"@.len() == 24);
    assert("stale_binding_generation"@[6] != "stale_obligation_version"@[6]);
    assert("stale_binding_generation"@[0] != "delivery_revision_frozen"@[0]);
    assert("stale_binding_generation"@[0] != "conflicting_input_answer"@[0]);
    assert("stale_binding_generation"@[0] != "illegal_input_transition"@[0]);
    assert("stale_binding_generation"@[0] != "effect_not_proven_absent"@[0]);
    assert("stale_binding_generation"@[0] != "illegal_lease_transition"@[0]);
    assert("unknown_binding_generation"@[0] != "obligation_already_claimed"@[0]);
    assert("unknown_binding_generation"@[0] != "foreman_turn_not_quiescent"@[0]);
    assert("unknown_binding_generation"@[0] != "illegal_attempt_transition"@[0]);
    assert("unknown_binding_generation"@[0] != "attempt_already_dispatched"@[0]);
    assert("no_active_binding"@[0] != "obligation_closed"@[0]);
    assert("no_active_binding"@[0] != "stale_lease_token"@[0]);
    assert("stale_obligation_version"@[0] != "delivery_revision_frozen"@[0]);
    assert("stale_obligation_version"@[0] != "conflicting_input_answer"@[0]);
    assert("stale_obligation_version"@[0] != "illegal_input_transition"@[0]);
    assert("stale_obligation_version"@[0] != "effect_not_proven_absent"@[0]);
    assert("stale_obligation_version"@[0] != "illegal_lease_transition"@[0]);
    assert("stale_source_fence"@[0] != "failure_not_proven"@[0]);
    assert("stale_source_fence"@[6] != "stale_daemon_epoch"@[6]);
    assert("no_current_claim"@[11] != "no_current_lease"@[11]);
    assert("obligation_already_claimed"@[0] != "foreman_turn_not_quiescent"@[0]);
    assert("obligation_already_claimed"@[0] != "illegal_attempt_transition"@[0]);
    assert("obligation_already_claimed"@[0] != "attempt_already_dispatched"@[0]);
    assert("unknown_delivery_id"@[0] != "invalid_disposition"@[0]);
    assert("stale_session_incarnation"@[0] != "attempt_already_completed"@[0]);
    assert("stale_session_incarnation"@[0] != "mutation_result_uncertain"@[0]);
    assert("stale_session_incarnation"@[0] != "mutation_command_mismatch"@[0]);
    assert("stale_session_incarnation"@[6] != "stale_process_incarnation"@[6]);
    assert("obligation_closed"@[0] != "stale_lease_token"@[0]);
    assert("delivery_revision_frozen"@[0] != "conflicting_input_answer"@[0]);
    assert("delivery_revision_frozen"@[0] != "illegal_input_transition"@[0]);
    assert("delivery_revision_frozen"@[0] != "effect_not_proven_absent"@[0]);
    assert("delivery_revision_frozen"@[0] != "illegal_lease_transition"@[0]);
    assert("delivery_revision_still_live"@[19] != "delivery_revision_superseded"@[19]);
    assert("illegal_delivery_transition"@[0] != "retry_after_ambiguity_fence"@[0]);
    assert("illegal_delivery_transition"@[8] != "illegal_mutation_transition"@[8]);
    assert("retry_budget_exhausted"@[0] != "stale_command_revision"@[0]);
    assert("retry_budget_exhausted"@[0] != "mutation_not_completed"@[0]);
    assert("retry_after_ambiguity_fence"@[0] != "illegal_mutation_transition"@[0]);
    assert("failure_not_proven"@[0] != "stale_daemon_epoch"@[0]);
    assert("foreman_turn_not_quiescent"@[0] != "illegal_attempt_transition"@[0]);
    assert("foreman_turn_not_quiescent"@[0] != "attempt_already_dispatched"@[0]);
    assert("conflicting_input_answer"@[0] != "illegal_input_transition"@[0]);
    assert("conflicting_input_answer"@[0] != "effect_not_proven_absent"@[0]);
    assert("conflicting_input_answer"@[0] != "illegal_lease_transition"@[0]);
    assert("illegal_input_transition"@[0] != "effect_not_proven_absent"@[0]);
    assert("illegal_input_transition"@[8] != "illegal_lease_transition"@[8]);
    assert("stale_command_revision"@[0] != "mutation_not_completed"@[0]);
    assert("illegal_attempt_transition"@[0] != "attempt_already_dispatched"@[0]);
    assert("attempt_already_completed"@[0] != "mutation_result_uncertain"@[0]);
    assert("attempt_already_completed"@[0] != "mutation_command_mismatch"@[0]);
    assert("attempt_already_completed"@[0] != "stale_process_incarnation"@[0]);
    assert("attempt_permit_mismatch"@[0] != "resource_already_leased"@[0]);
    assert("effect_not_proven_absent"@[0] != "illegal_lease_transition"@[0]);
    assert("mutation_result_uncertain"@[9] != "mutation_command_mismatch"@[9]);
    assert("mutation_result_uncertain"@[0] != "stale_process_incarnation"@[0]);
    assert("mutation_command_mismatch"@[0] != "stale_process_incarnation"@[0]);
}

} // verus!
