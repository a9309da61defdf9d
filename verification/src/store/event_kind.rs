//! The closed set of events the ledger can hold.
//!
//! A kind the store cannot decode is a corrupt row, not an extension point, and each kind's
//! allowlisted metadata fields are declared here beside it.
use vstd::prelude::*;
use crate::store::error::{corrupt, corrupt_row, CorruptReason, StoreError};
use crate::text::same;

verus! {

/// What happened.
#[derive(Debug, Clone, Copy, PartialEq, Eq, Structural)]
pub enum EventKind {
    /// A source-host project reference was recorded.
    ProjectRegistered,
    /// A unit of delegated work was recorded.
    TaskRegistered,
    /// A logical worker session was recorded.
    SessionRegistered,
    /// A concrete session incarnation started.
    SessionIncarnationStarted,
    /// A worker turn started within an incarnation.
    TurnStarted,
    /// An obligation was created in `created`.
    ObligationCreated,
    /// A worker turn was verified to be running.
    WorkerStarted,
    /// A verified terminal worker failure. Unprocessed work, not a closure.
    WorkerFailed,
    /// A confirmed final result whose artifact was already made durable.
    ResultPublished,
    /// A verified foreman binding was committed at a new generation.
    ForemanBindingBound,
    /// A later capability observation for the active binding.
    ForemanBindingCapabilityObserved,
    /// The bound surface was displaced.
    ForemanBindingDisplaced,
    /// A browser delivery attempt was claimed, before any browser I/O.
    BrowserDeliveryAttemptClaimed,
    /// The Send ambiguity fence was armed, immediately before Send.
    BrowserDeliveryActivationArmed,
    /// Exact semantic evidence proved the wake was submitted.
    BrowserDeliveryAccepted,
    /// A wake attempt was proven not to have submitted anything.
    BrowserDeliveryFailed,
    /// A wake attempt's outcome could not be determined.
    BrowserDeliveryAmbiguous,
    /// Startup quarantined the live attempts a previous process left behind.
    BrowserDeliveryOrphanQuarantined,
    /// Exact later evidence proved an ambiguous revision was submitted.
    BrowserDeliveryReconciled,
    /// A foreman claim was minted from an accepted current-generation wake.
    ForemanClaimMinted,
    /// The result or input request was handed to the claiming foreman.
    ForemanHandoffDelivered,
    /// A claim's bound lifetime elapsed.
    ForemanClaimExpired,
    /// An explicit fenced disposition closed an obligation.
    ForemanAcked,
    /// The user cancelled the work.
    ObligationCancelledByUser,
    /// A later obligation replaced this one.
    ObligationSuperseded,
    /// Startup found a consequential external effect whose fate was lost.
    ExternalAttemptQuarantined,
    /// Attention was asked for.
    HealthConditionOpened,
    /// Attention is no longer asked for.
    HealthConditionResolved,
    /// A managed configuration whose bytes are durable was recorded.
    ManagedConfigRecorded,
    /// An immutable capability whitelist was recorded.
    CapabilityProfileRecorded,
    /// An immutable delegation whitelist was recorded.
    DelegationPolicyRecorded,
    /// An immutable model policy was recorded.
    ModelPolicyRecorded,
    /// An immutable launch loadout was resolved.
    WorkerLoadoutResolved,
    /// A session incarnation was bound to one loadout snapshot.
    SessionLoadoutBound,
    /// A parent and child session were linked.
    SessionLineageRecorded,
}

/// The label of a kind in the `events.kind` column.
pub open spec fn kind_label(kind: EventKind) -> &'static str {
    match kind {
        EventKind::ProjectRegistered => "project_registered",
        EventKind::TaskRegistered => "task_registered",
        EventKind::SessionRegistered => "session_registered",
        EventKind::SessionIncarnationStarted => "session_incarnation_started",
        EventKind::TurnStarted => "turn_started",
        EventKind::ObligationCreated => "obligation_created",
        EventKind::WorkerStarted => "worker_started",
        EventKind::WorkerFailed => "worker_failed",
        EventKind::ResultPublished => "result_published",
        EventKind::ForemanBindingBound => "foreman_binding_bound",
        EventKind::ForemanBindingCapabilityObserved => "foreman_binding_capability_observed",
        EventKind::ForemanBindingDisplaced => "foreman_binding_displaced",
        EventKind::BrowserDeliveryAttemptClaimed => "browser_delivery_attempt_claimed",
        EventKind::BrowserDeliveryActivationArmed => "browser_delivery_activation_armed",
        EventKind::BrowserDeliveryAccepted => "browser_delivery_accepted",
        EventKind::BrowserDeliveryFailed => "browser_delivery_failed",
        EventKind::BrowserDeliveryAmbiguous => "browser_delivery_ambiguous",
        EventKind::BrowserDeliveryOrphanQuarantined => "browser_delivery_orphan_quarantined",
        EventKind::BrowserDeliveryReconciled => "browser_delivery_reconciled",
        EventKind::ForemanClaimMinted => "foreman_claim_minted",
        EventKind::ForemanHandoffDelivered => "foreman_handoff_delivered",
        EventKind::ForemanClaimExpired => "foreman_claim_expired",
        EventKind::ForemanAcked => "foreman_acked",
        EventKind::ObligationCancelledByUser => "obligation_cancelled_by_user",
        EventKind::ObligationSuperseded => "obligation_superseded",
        EventKind::ExternalAttemptQuarantined => "external_attempt_quarantined",
        EventKind::HealthConditionOpened => "health_condition_opened",
        EventKind::HealthConditionResolved => "health_condition_resolved",
        EventKind::ManagedConfigRecorded => "managed_config_recorded",
        EventKind::CapabilityProfileRecorded => "capability_profile_recorded",
        EventKind::DelegationPolicyRecorded => "delegation_policy_recorded",
        EventKind::ModelPolicyRecorded => "model_policy_recorded",
        EventKind::WorkerLoadoutResolved => "worker_loadout_resolved",
        EventKind::SessionLoadoutBound => "session_loadout_bound",
        EventKind::SessionLineageRecorded => "session_lineage_recorded",
    }
}

/// The kind a text is the label of, if it is one.
pub open spec fn kind_named(text: Seq<char>) -> Option<EventKind> {
    if text == "project_registered"@ {
        Some(EventKind::ProjectRegistered)
    } else if text == "task_registered"@ {
        Some(EventKind::TaskRegistered)
    } else if text == "session_registered"@ {
        Some(EventKind::SessionRegistered)
    } else if text == "session_incarnation_started"@ {
        Some(EventKind::SessionIncarnationStarted)
    } else if text == "turn_started"@ {
        Some(EventKind::TurnStarted)
    } else if text == "obligation_created"@ {
        Some(EventKind::ObligationCreated)
    } else if text == "worker_started"@ {
        Some(EventKind::WorkerStarted)
    } else if text == "worker_failed"@ {
        Some(EventKind::WorkerFailed)
    } else if text == "result_published"@ {
        Some(EventKind::ResultPublished)
    } else if text == "foreman_binding_bound"@ {
        Some(EventKind::ForemanBindingBound)
    } else if text == "foreman_binding_capability_observed"@ {
        Some(EventKind::ForemanBindingCapabilityObserved)
    } else if text == "foreman_binding_displaced"@ {
        Some(EventKind::ForemanBindingDisplaced)
    } else if text == "browser_delivery_attempt_claimed"@ {
        Some(EventKind::BrowserDeliveryAttemptClaimed)
    } else if text == "browser_delivery_activation_armed"@ {
        Some(EventKind::BrowserDeliveryActivationArmed)
    } else if text == "browser_delivery_accepted"@ {
        Some(EventKind::BrowserDeliveryAccepted)
    } else if text == "browser_delivery_failed"@ {
        Some(EventKind::BrowserDeliveryFailed)
    } else if text == "browser_delivery_ambiguous"@ {
        Some(EventKind::BrowserDeliveryAmbiguous)
    } else if text == "browser_delivery_orphan_quarantined"@ {
        Some(EventKind::BrowserDeliveryOrphanQuarantined)
    } else if text == "browser_delivery_reconciled"@ {
        Some(EventKind::BrowserDeliveryReconciled)
    } else if text == "foreman_claim_minted"@ {
        Some(EventKind::ForemanClaimMinted)
    } else if text == "foreman_handoff_delivered"@ {
        Some(EventKind::ForemanHandoffDelivered)
    } else if text == "foreman_claim_expired"@ {
        Some(EventKind::ForemanClaimExpired)
    } else if text == "foreman_acked"@ {
        Some(EventKind::ForemanAcked)
    } else if text == "obligation_cancelled_by_user"@ {
        Some(EventKind::ObligationCancelledByUser)
    } else if text == "obligation_superseded"@ {
        Some(EventKind::ObligationSuperseded)
    } else if text == "external_attempt_quarantined"@ {
        Some(EventKind::ExternalAttemptQuarantined)
    } else if text == "health_condition_opened"@ {
        Some(EventKind::HealthConditionOpened)
    } else if text == "health_condition_resolved"@ {
        Some(EventKind::HealthConditionResolved)
    } else if text == "managed_config_recorded"@ {
        Some(EventKind::ManagedConfigRecorded)
    } else if text == "capability_profile_recorded"@ {
        Some(EventKind::CapabilityProfileRecorded)
    } else if text == "delegation_policy_recorded"@ {
        Some(EventKind::DelegationPolicyRecorded)
    } else if text == "model_policy_recorded"@ {
        Some(EventKind::ModelPolicyRecorded)
    } else if text == "worker_loadout_resolved"@ {
        Some(EventKind::WorkerLoadoutResolved)
    } else if text == "session_loadout_bound"@ {
        Some(EventKind::SessionLoadoutBound)
    } else if text == "session_lineage_recorded"@ {
        Some(EventKind::SessionLineageRecorded)
    } else {
        None
    }
}

/// The metadata fields a kind carries. Anything else in a stored document is discarded on read.
pub open spec fn kind_fields(kind: EventKind) -> Seq<&'static str> {
    match kind {
        EventKind::ProjectRegistered => seq![],
        EventKind::TaskRegistered => seq![],
        EventKind::SessionRegistered => seq![],
        EventKind::SessionIncarnationStarted => seq!["generation"],
        EventKind::TurnStarted => seq!["turn_generation"],
        EventKind::ObligationCreated => seq!["obligation_kind", "incarnation"],
        EventKind::WorkerStarted => seq!["incarnation"],
        EventKind::WorkerFailed => seq!["incarnation", "failure_class"],
        EventKind::ResultPublished => seq!["incarnation", "run_ref", "artifact_id"],
        EventKind::ForemanBindingBound => seq!["generation", "capability_epoch", "write_capability"],
        EventKind::ForemanBindingCapabilityObserved => seq!["generation", "capability_epoch", "write_capability"],
        EventKind::ForemanBindingDisplaced => seq!["generation"],
        EventKind::BrowserDeliveryAttemptClaimed => seq!["revision", "attempt_no"],
        EventKind::BrowserDeliveryActivationArmed => seq!["revision", "attempt_no"],
        EventKind::BrowserDeliveryAccepted => seq!["revision", "attempt_no", "message_ref"],
        EventKind::BrowserDeliveryFailed => seq!["revision", "attempt_no", "failure_class"],
        EventKind::BrowserDeliveryAmbiguous => seq!["revision", "attempt_no", "evidence_class"],
        EventKind::BrowserDeliveryOrphanQuarantined => seq!["revision"],
        EventKind::BrowserDeliveryReconciled => seq!["revision", "message_ref"],
        EventKind::ForemanClaimMinted => seq!["claim_id", "binding_generation", "expected_version"],
        EventKind::ForemanHandoffDelivered => seq!["claim_id"],
        EventKind::ForemanClaimExpired => seq!["claim_id"],
        EventKind::ForemanAcked => seq!["claim_id", "binding_generation", "expected_version", "disposition"],
        EventKind::ObligationCancelledByUser => seq![],
        EventKind::ObligationSuperseded => seq!["replacement"],
        EventKind::ExternalAttemptQuarantined => seq!["external_attempt", "ambiguity_reason"],
        EventKind::HealthConditionOpened => seq!["health_kind"],
        EventKind::HealthConditionResolved => seq!["health_kind"],
        EventKind::ManagedConfigRecorded => seq!["managed_config", "digest", "hook_contract_epoch"],
        EventKind::CapabilityProfileRecorded => seq!["capability_profile", "digest", "entry_count"],
        EventKind::DelegationPolicyRecorded => seq!["delegation_policy", "digest", "entry_count"],
        EventKind::ModelPolicyRecorded => seq!["model_policy", "digest"],
        EventKind::WorkerLoadoutResolved => seq!["loadout_id", "digest", "capability_profile", "delegation_policy", "model_policy", "managed_config"],
        EventKind::SessionLoadoutBound => seq!["loadout_id", "digest"],
        EventKind::SessionLineageRecorded => seq!["parent_session", "parent_turn", "relation"],
    }
}

impl EventKind {
    /// The stable label persisted in `events.kind`.
    pub fn label(self) -> (r: &'static str)
        ensures
            r == kind_label(self),
    {
        match self {
            EventKind::ProjectRegistered => "project_registered",
            EventKind::TaskRegistered => "task_registered",
            EventKind::SessionRegistered => "session_registered",
            EventKind::SessionIncarnationStarted => "session_incarnation_started",
            EventKind::TurnStarted => "turn_started",
            EventKind::ObligationCreated => "obligation_created",
            EventKind::WorkerStarted => "worker_started",
            EventKind::WorkerFailed => "worker_failed",
            EventKind::ResultPublished => "result_published",
            EventKind::ForemanBindingBound => "foreman_binding_bound",
            EventKind::ForemanBindingCapabilityObserved => "foreman_binding_capability_observed",
            EventKind::ForemanBindingDisplaced => "foreman_binding_displaced",
            EventKind::BrowserDeliveryAttemptClaimed => "browser_delivery_attempt_claimed",
            EventKind::BrowserDeliveryActivationArmed => "browser_delivery_activation_armed",
            EventKind::BrowserDeliveryAccepted => "browser_delivery_accepted",
            EventKind::BrowserDeliveryFailed => "browser_delivery_failed",
            EventKind::BrowserDeliveryAmbiguous => "browser_delivery_ambiguous",
            EventKind::BrowserDeliveryOrphanQuarantined => "browser_delivery_orphan_quarantined",
            EventKind::BrowserDeliveryReconciled => "browser_delivery_reconciled",
            EventKind::ForemanClaimMinted => "foreman_claim_minted",
            EventKind::ForemanHandoffDelivered => "foreman_handoff_delivered",
            EventKind::ForemanClaimExpired => "foreman_claim_expired",
            EventKind::ForemanAcked => "foreman_acked",
            EventKind::ObligationCancelledByUser => "obligation_cancelled_by_user",
            EventKind::ObligationSuperseded => "obligation_superseded",
            EventKind::ExternalAttemptQuarantined => "external_attempt_quarantined",
            EventKind::HealthConditionOpened => "health_condition_opened",
            EventKind::HealthConditionResolved => "health_condition_resolved",
            EventKind::ManagedConfigRecorded => "managed_config_recorded",
            EventKind::CapabilityProfileRecorded => "capability_profile_recorded",
            EventKind::DelegationPolicyRecorded => "delegation_policy_recorded",
            EventKind::ModelPolicyRecorded => "model_policy_recorded",
            EventKind::WorkerLoadoutResolved => "worker_loadout_resolved",
            EventKind::SessionLoadoutBound => "session_loadout_bound",
            EventKind::SessionLineageRecorded => "session_lineage_recorded",
        }
    }

    /// Decodes a persisted `events.kind` label: the kind whose label it is, or a corrupt row.
    pub fn parse(text: &str) -> (r: Result<EventKind, StoreError>)
        ensures
            r == (match kind_named(text@) {
                Some(kind) => Ok::<EventKind, StoreError>(kind),
                None => Err(corrupt("events", "kind", CorruptReason::UnknownLabel)),
            }),
    {
        if same(text, "project_registered") {
            Ok(EventKind::ProjectRegistered)
        } else if same(text, "task_registered") {
            Ok(EventKind::TaskRegistered)
        } else if same(text, "session_registered") {
            Ok(EventKind::SessionRegistered)
        } else if same(text, "session_incarnation_started") {
            Ok(EventKind::SessionIncarnationStarted)
        } else if same(text, "turn_started") {
            Ok(EventKind::TurnStarted)
        } else if same(text, "obligation_created") {
            Ok(EventKind::ObligationCreated)
        } else if same(text, "worker_started") {
            Ok(EventKind::WorkerStarted)
        } else if same(text, "worker_failed") {
            Ok(EventKind::WorkerFailed)
        } else if same(text, "result_published") {
            Ok(EventKind::ResultPublished)
        } else if same(text, "foreman_binding_bound") {
            Ok(EventKind::ForemanBindingBound)
        } else if same(text, "foreman_binding_capability_observed") {
            Ok(EventKind::ForemanBindingCapabilityObserved)
        } else if same(text, "foreman_binding_displaced") {
            Ok(EventKind::ForemanBindingDisplaced)
        } else if same(text, "browser_delivery_attempt_claimed") {
            Ok(EventKind::BrowserDeliveryAttemptClaimed)
        } else if same(text, "browser_delivery_activation_armed") {
            Ok(EventKind::BrowserDeliveryActivationArmed)
        } else if same(text, "browser_delivery_accepted") {
            Ok(EventKind::BrowserDeliveryAccepted)
        } else if same(text, "browser_delivery_failed") {
            Ok(EventKind::BrowserDeliveryFailed)
        } else if same(text, "browser_delivery_ambiguous") {
            Ok(EventKind::BrowserDeliveryAmbiguous)
        } else if same(text, "browser_delivery_orphan_quarantined") {
            Ok(EventKind::BrowserDeliveryOrphanQuarantined)
        } else if same(text, "browser_delivery_reconciled") {
            Ok(EventKind::BrowserDeliveryReconciled)
        } else if same(text, "foreman_claim_minted") {
            Ok(EventKind::ForemanClaimMinted)
        } else if same(text, "foreman_handoff_delivered") {
            Ok(EventKind::ForemanHandoffDelivered)
        } else if same(text, "foreman_claim_expired") {
            Ok(EventKind::ForemanClaimExpired)
        } else if same(text, "foreman_acked") {
            Ok(EventKind::ForemanAcked)
        } else if same(text, "obligation_cancelled_by_user") {
            Ok(EventKind::ObligationCancelledByUser)
        } else if same(text, "obligation_superseded") {
            Ok(EventKind::ObligationSuperseded)
        } else if same(text, "external_attempt_quarantined") {
            Ok(EventKind::ExternalAttemptQuarantined)
        } else if same(text, "health_condition_opened") {
            Ok(EventKind::HealthConditionOpened)
        } else if same(text, "health_condition_resolved") {
            Ok(EventKind::HealthConditionResolved)
        } else if same(text, "managed_config_recorded") {
            Ok(EventKind::ManagedConfigRecorded)
        } else if same(text, "capability_profile_recorded") {
            Ok(EventKind::CapabilityProfileRecorded)
        } else if same(text, "delegation_policy_recorded") {
            Ok(EventKind::DelegationPolicyRecorded)
        } else if same(text, "model_policy_recorded") {
            Ok(EventKind::ModelPolicyRecorded)
        } else if same(text, "worker_loadout_resolved") {
            Ok(EventKind::WorkerLoadoutResolved)
        } else if same(text, "session_loadout_bound") {
            Ok(EventKind::SessionLoadoutBound)
        } else if same(text, "session_lineage_recorded") {
            Ok(EventKind::SessionLineageRecorded)
        } else {
            Err(corrupt_row("events", "kind", CorruptReason::UnknownLabel))
        }
    }

    /// The allowlisted `safe_metadata_json` fields of this kind.
    pub fn allowed_metadata_fields(self) -> (r: &'static [&'static str])
        ensures
            r@ == kind_fields(self),
    {
        let r: &'static [&'static str] = match self {
            EventKind::ProjectRegistered => &[],
            EventKind::TaskRegistered => &[],
            EventKind::SessionRegistered => &[],
            EventKind::SessionIncarnationStarted => &["generation"],
            EventKind::TurnStarted => &["turn_generation"],
            EventKind::ObligationCreated => &["obligation_kind", "incarnation"],
            EventKind::WorkerStarted => &["incarnation"],
            EventKind::WorkerFailed => &["incarnation", "failure_class"],
            EventKind::ResultPublished => &["incarnation", "run_ref", "artifact_id"],
            EventKind::ForemanBindingBound => &["generation", "capability_epoch", "write_capability"],
            EventKind::ForemanBindingCapabilityObserved => &["generation", "capability_epoch", "write_capability"],
            EventKind::ForemanBindingDisplaced => &["generation"],
            EventKind::BrowserDeliveryAttemptClaimed => &["revision", "attempt_no"],
            EventKind::BrowserDeliveryActivationArmed => &["revision", "attempt_no"],
            EventKind::BrowserDeliveryAccepted => &["revision", "attempt_no", "message_ref"],
            EventKind::BrowserDeliveryFailed => &["revision", "attempt_no", "failure_class"],
            EventKind::BrowserDeliveryAmbiguous => &["revision", "attempt_no", "evidence_class"],
            EventKind::BrowserDeliveryOrphanQuarantined => &["revision"],
            EventKind::BrowserDeliveryReconciled => &["revision", "message_ref"],
            EventKind::ForemanClaimMinted => &["claim_id", "binding_generation", "expected_version"],
            EventKind::ForemanHandoffDelivered => &["claim_id"],
            EventKind::ForemanClaimExpired => &["claim_id"],
            EventKind::ForemanAcked => &["claim_id", "binding_generation", "expected_version", "disposition"],
            EventKind::ObligationCancelledByUser => &[],
            EventKind::ObligationSuperseded => &["replacement"],
            EventKind::ExternalAttemptQuarantined => &["external_attempt", "ambiguity_reason"],
            EventKind::HealthConditionOpened => &["health_kind"],
            EventKind::HealthConditionResolved => &["health_kind"],
            EventKind::ManagedConfigRecorded => &["managed_config", "digest", "hook_contract_epoch"],
            EventKind::CapabilityProfileRecorded => &["capability_profile", "digest", "entry_count"],
            EventKind::DelegationPolicyRecorded => &["delegation_policy", "digest", "entry_count"],
            EventKind::ModelPolicyRecorded => &["model_policy", "digest"],
            EventKind::WorkerLoadoutResolved => &["loadout_id", "digest", "capability_profile", "delegation_policy", "model_policy", "managed_config"],
            EventKind::SessionLoadoutBound => &["loadout_id", "digest"],
            EventKind::SessionLineageRecorded => &["parent_session", "parent_turn", "relation"],
        };
        proof {
            assert(r@ =~= kind_fields(self));
        }
        r
    }
}

/// Decoding the label of a kind gives the kind back.
pub proof fn kind_round_trips(kind: EventKind)
    ensures
        kind_named(kind_label(kind)@) == Some(kind),
{
    reveal_strlit("project_registered");
    reveal_strlit("task_registered");
    reveal_strlit("session_registered");
    reveal_strlit("session_incarnation_started");
    reveal_strlit("turn_started");
    reveal_strlit("obligation_created");
    reveal_strlit("worker_started");
    reveal_strlit("worker_failed");
    reveal_strlit("result_published");
    reveal_strlit("foreman_binding_bound");
    reveal_strlit("foreman_binding_capability_observed");
    reveal_strlit("foreman_binding_displaced");
    reveal_strlit("browser_delivery_attempt_claimed");
    reveal_strlit("browser_delivery_activation_armed");
    reveal_strlit("browser_delivery_accepted");
    reveal_strlit("browser_delivery_failed");
    reveal_strlit("browser_delivery_ambiguous");
    reveal_strlit("browser_delivery_orphan_quarantined");
    reveal_strlit("browser_delivery_reconciled");
    reveal_strlit("foreman_claim_minted");
    reveal_strlit("foreman_handoff_delivered");
    reveal_strlit("foreman_claim_expired");
    reveal_strlit("foreman_acked");
    reveal_strlit("obligation_cancelled_by_user");
    reveal_strlit("obligation_superseded");
    reveal_strlit("external_attempt_quarantined");
    reveal_strlit("health_condition_opened");
    reveal_strlit("health_condition_resolved");
    reveal_strlit("managed_config_recorded");
    reveal_strlit("capability_profile_recorded");
    reveal_strlit("delegation_policy_recorded");
    reveal_strlit("model_policy_recorded");
    reveal_strlit("worker_loadout_resolved");
    reveal_strlit("session_loadout_bound");
    reveal_strlit("session_lineage_recorded");
    assert("project_registered"@.len() == 18);
    assert("task_registered"@.len() == 15);
    assert("session_registered"@.len() == 18);
    assert("session_incarnation_started"@.len() == 27);
    assert("turn_started"@.len() == 12);
    assert("obligation_created"@.len() == 18);
    assert("worker_started"@.len() == 14);
    assert("worker_failed"@.len() == 13);
    assert("result_published"@.len() == 16);
    assert("foreman_binding_bound"@.len() == 21);
    assert("foreman_binding_capability_observed"@.len() == 35);
    assert("foreman_binding_displaced"@.len() == 25);
    assert("browser_delivery_attempt_claimed"@.len() == 32);
    assert("browser_delivery_activation_armed"@.len() == 33);
    assert("browser_delivery_accepted"@.len() == 25);
    assert("browser_delivery_failed"@.len() == 23);
    assert("browser_delivery_ambiguous"@.len() == 26);
    assert("browser_delivery_orphan_quarantined"@.len() == 35);
    assert("browser_delivery_reconciled"@.len() == 27);
    assert("foreman_claim_minted"@.len() == 20);
    assert("foreman_handoff_delivered"@.len() == 25);
    assert("foreman_claim_expired"@.len() == 21);
    assert("foreman_acked"@.len() == 13);
    assert("obligation_cancelled_by_user"@.len() == 28);
    assert("obligation_superseded"@.len() == 21);
    assert("external_attempt_quarantined"@.len() == 28);
    assert("health_condition_opened"@.len() == 23);
    assert("health_condition_resolved"@.len() == 25);
    assert("managed_config_recorded"@.len() == 23);
    assert("capability_profile_recorded"@.len() == 27);
    assert("delegation_policy_recorded"@.len() == 26);
    assert("model_policy_recorded"@.len() == 21);
    assert("worker_loadout_resolved"@.len() == 23);
    assert("session_loadout_bound"@.len() == 21);
    assert("session_lineage_recorded"@.len() == 24);
    assert("project_registered"@[0] != "session_registered"@[0]);
    assert("project_registered"@[0] != "obligation_created"@[0]);
    assert("session_registered"@[0] != "obligation_created"@[0]);
    assert("session_incarnation_started"@[0] != "browser_delivery_reconciled"@[0]);
    assert("session_incarnation_started"@[0] != "capability_profile_recorded"@[0]);
    assert("worker_failed"@[0] != "foreman_acked"@[0]);
    assert("foreman_binding_bound"@[8] != "foreman_claim_expired"@[8]);
    assert("foreman_binding_bound"@[0] != "obligation_superseded"@[0]);
    assert("foreman_binding_bound"@[0] != "model_policy_recorded"@[0]);
    assert("foreman_binding_bound"@[0] != "session_loadout_bound"@[0]);
    assert("foreman_binding_capability_observed"@[0] != "browser_delivery_orphan_quarantined"@[0]);
    assert("foreman_binding_displaced"@[0] != "browser_delivery_accepted"@[0]);
    assert("foreman_binding_displaced"@[8] != "foreman_handoff_delivered"@[8]);
    assert("foreman_binding_displaced"@[0] != "health_condition_resolved"@[0]);
    assert("browser_delivery_accepted"@[0] != "foreman_handoff_delivered"@[0]);
    assert("browser_delivery_accepted"@[0] != "health_condition_resolved"@[0]);
    assert("browser_delivery_failed"@[0] != "health_condition_opened"@[0]);
    assert("browser_delivery_failed"@[0] != "managed_config_recorded"@[0]);
    assert("browser_delivery_failed"@[0] != "worker_loadout_resolved"@[0]);
    assert("browser_delivery_ambiguous"@[0] != "delegation_policy_recorded"@[0]);
    assert("browser_delivery_reconciled"@[0] != "capability_profile_recorded"@[0]);
    assert("foreman_handoff_delivered"@[0] != "health_condition_resolved"@[0]);
    assert("foreman_claim_expired"@[0] != "obligation_superseded"@[0]);
    assert("foreman_claim_expired"@[0] != "model_policy_recorded"@[0]);
    assert("foreman_claim_expired"@[0] != "session_loadout_bound"@[0]);
    assert("obligation_cancelled_by_user"@[0] != "external_attempt_quarantined"@[0]);
    assert("obligation_superseded"@[0] != "model_policy_recorded"@[0]);
    assert("obligation_superseded"@[0] != "session_loadout_bound"@[0]);
    assert("health_condition_opened"@[0] != "managed_config_recorded"@[0]);
    assert("health_condition_opened"@[0] != "worker_loadout_resolved"@[0]);
    assert("managed_config_recorded"@[0] != "worker_loadout_resolved"@[0]);
    assert("model_policy_recorded"@[0] != "session_loadout_bound"@[0]);
}

} // verus!
