//! Mutation commands: the receipt journal of consequential requests.
use vstd::prelude::*;
use crate::domain::conflict::{Conflict, ConflictKind};
use crate::domain::fence::{clone_token, DaemonEpoch, SafeToken, Timestamp};
use crate::domain::id::{ActorId, MutationCommandId};
use crate::domain::obligation::{reply_view, Applied};

verus! {

/// Status of a journal row.
#[derive(Debug, Clone, Copy, PartialEq, Eq, Structural)]
pub enum MutationCommandStatus {
    Received,
    Completed,
    Uncertain,
    Acked,
}

/// The bounded result of a mutation.
#[derive(Debug, PartialEq, Eq)]
pub enum SafeMutationResult {
    Applied { reference: Option<SafeToken> },
    AlreadySatisfied,
    Refused { conflict: ConflictKind },
}

impl Clone for SafeMutationResult {
    fn clone(&self) -> (r: Self)
        ensures
            r == *self,
    {
        match self {
            SafeMutationResult::Applied { reference } => {
                SafeMutationResult::Applied { reference: clone_token(reference) }
            },
            SafeMutationResult::AlreadySatisfied => SafeMutationResult::AlreadySatisfied,
            SafeMutationResult::Refused { conflict } => {
                SafeMutationResult::Refused { conflict: *conflict }
            },
        }
    }
}

/// Copies an optional result.
pub fn clone_result(result: &Option<SafeMutationResult>) -> (r: Option<SafeMutationResult>)
    ensures
        r == *result,
{
    match result {
        Some(inner) => Some(inner.clone()),
        None => None,
    }
}

/// One journal row.
#[derive(Debug, PartialEq, Eq)]
pub struct MutationCommand {
    pub actor: ActorId,
    pub id: MutationCommandId,
    pub kind: SafeToken,
    pub fingerprint: [u8; 32],
    pub daemon_epoch: DaemonEpoch,
    pub received_at: Timestamp,
    pub status: MutationCommandStatus,
    pub result: Option<SafeMutationResult>,
    pub completed_at: Option<Timestamp>,
    pub uncertain_at: Option<Timestamp>,
    pub acked_at: Option<Timestamp>,
}

impl Clone for MutationCommand {
    fn clone(&self) -> (r: Self)
        ensures
            r == *self,
    {
        MutationCommand {
            actor: self.actor,
            id: self.id,
            kind: self.kind.clone(),
            fingerprint: self.fingerprint,
            daemon_epoch: self.daemon_epoch,
            received_at: self.received_at,
            status: self.status,
            result: clone_result(&self.result),
            completed_at: self.completed_at,
            uncertain_at: self.uncertain_at,
            acked_at: self.acked_at,
        }
    }
}

impl MutationCommand {
    /// A row as its receipt leaves it.
    pub open spec fn received_spec(
        actor: ActorId,
        id: MutationCommandId,
        kind: SafeToken,
        fingerprint: [u8; 32],
        daemon_epoch: DaemonEpoch,
        received_at: Timestamp,
    ) -> MutationCommand {
        MutationCommand {
            actor,
            id,
            kind,
            fingerprint,
            daemon_epoch,
            received_at,
            status: MutationCommandStatus::Received,
            result: None,
            completed_at: None,
            uncertain_at: None,
            acked_at: None,
        }
    }

    /// A row as its receipt leaves it.
    pub fn received(
        actor: ActorId,
        id: MutationCommandId,
        kind: SafeToken,
        fingerprint: [u8; 32],
        daemon_epoch: DaemonEpoch,
        received_at: Timestamp,
    ) -> (r: MutationCommand)
        ensures
            r == MutationCommand::received_spec(actor, id, kind, fingerprint, daemon_epoch, received_at),
    {
        MutationCommand {
            actor,
            id,
            kind,
            fingerprint,
            daemon_epoch,
            received_at,
            status: MutationCommandStatus::Received,
            result: None,
            completed_at: None,
            uncertain_at: None,
            acked_at: None,
        }
    }
}

/// One transition asked of the journal machine.
#[derive(Debug, PartialEq, Eq)]
#[allow(inconsistent_fields)]
pub enum MutationCommandEvent {
    ResultCommitted { result: SafeMutationResult, at: Timestamp },
    MarkedUncertain { at: Timestamp },
    ReceiptAcknowledged { actor: ActorId, command: MutationCommandId, at: Timestamp },
}

/// What the journal machine answers to one event.
pub type MutationReply = Result<Applied<MutationCommand>, Conflict>;

// --- On values alone ---------------------------------------------------------------------------

/// What a mutation result says, on values alone.
pub enum MutationResultView {
    Applied { reference: Option<Seq<char>> },
    AlreadySatisfied,
    Refused { conflict: ConflictKind },
}

impl View for SafeMutationResult {
    type V = MutationResultView;

    open spec fn view(&self) -> MutationResultView {
        match *self {
            SafeMutationResult::Applied { reference } => MutationResultView::Applied {
                reference: match reference {
                    Some(token) => Some(token@),
                    None => None,
                },
            },
            SafeMutationResult::AlreadySatisfied => MutationResultView::AlreadySatisfied,
            SafeMutationResult::Refused { conflict } => MutationResultView::Refused { conflict },
        }
    }
}

/// An optional result on values alone.
pub open spec fn optional_result_view(result: Option<SafeMutationResult>) -> Option<MutationResultView> {
    match result {
        Some(inner) => Some(inner@),
        None => None,
    }
}

/// One journal row on values alone.
#[verifier::ext_equal]
pub struct MutationView {
    pub actor: ActorId,
    pub id: MutationCommandId,
    pub kind: Seq<char>,
    pub fingerprint: Seq<u8>,
    pub daemon_epoch: DaemonEpoch,
    pub received_at: Timestamp,
    pub status: MutationCommandStatus,
    pub result: Option<MutationResultView>,
    pub completed_at: Option<Timestamp>,
    pub uncertain_at: Option<Timestamp>,
    pub acked_at: Option<Timestamp>,
}

impl View for MutationCommand {
    type V = MutationView;

    open spec fn view(&self) -> MutationView {
        MutationView {
            actor: self.actor,
            id: self.id,
            kind: self.kind@,
            fingerprint: self.fingerprint@,
            daemon_epoch: self.daemon_epoch,
            received_at: self.received_at,
            status: self.status,
            result: optional_result_view(self.result),
            completed_at: self.completed_at,
            uncertain_at: self.uncertain_at,
            acked_at: self.acked_at,
        }
    }
}

/// One transition on values alone.
#[allow(inconsistent_fields)]
pub enum MutationEventView {
    ResultCommitted { result: MutationResultView, at: Timestamp },
    MarkedUncertain { at: Timestamp },
    ReceiptAcknowledged { actor: ActorId, command: MutationCommandId, at: Timestamp },
}

impl View for MutationCommandEvent {
    type V = MutationEventView;

    open spec fn view(&self) -> MutationEventView {
        match *self {
            MutationCommandEvent::ResultCommitted { result, at } => {
                MutationEventView::ResultCommitted { result: result@, at }
            },
            MutationCommandEvent::MarkedUncertain { at } => MutationEventView::MarkedUncertain { at },
            MutationCommandEvent::ReceiptAcknowledged { actor, command, at } => {
                MutationEventView::ReceiptAcknowledged { actor, command, at }
            },
        }
    }
}

/// What the journal permits for an identity: a new operation, or the recorded result.
#[derive(Debug, PartialEq, Eq)]
pub enum MutationDisposition {
    NewOperation,
    RecordedResult(SafeMutationResult),
}

/// What the journal permits, on values alone.
pub enum DispositionView {
    NewOperation,
    RecordedResult(MutationResultView),
}

impl View for MutationDisposition {
    type V = DispositionView;

    open spec fn view(&self) -> DispositionView {
        match *self {
            MutationDisposition::NewOperation => DispositionView::NewOperation,
            MutationDisposition::RecordedResult(result) => DispositionView::RecordedResult(result@),
        }
    }
}

// --- The domain's rules, as values ---------------------------------------------------------------

/// What the journal machine answers, on values alone.
pub type JournalMachine = spec_fn(MutationView, MutationEventView) -> Result<
    Applied<MutationView>,
    Conflict,
>;

/// Whether an executable journal machine can be asked about everything.
pub open spec fn journal_total<A: Fn(&MutationCommand, &MutationCommandEvent) -> MutationReply>(
    apply: A,
) -> bool {
    forall|c: &MutationCommand, e: &MutationCommandEvent| call_requires(apply, (c, e))
}

/// Whether an executable journal machine answers as `machine` says.
pub open spec fn journal_is<A: Fn(&MutationCommand, &MutationCommandEvent) -> MutationReply>(
    apply: A,
    machine: JournalMachine,
) -> bool {
    forall|c: &MutationCommand, e: &MutationCommandEvent, r: MutationReply| #[trigger]
        call_ensures(apply, (c, e), r) ==> reply_view(r) == machine(c@, e@)
}

/// A recorded command on values alone, where there is one.
pub open spec fn recorded_view(existing: Option<MutationCommand>) -> Option<MutationView> {
    match existing {
        Some(command) => Some(command@),
        None => None,
    }
}

/// What the journal's admission rule answers, on values alone.
pub type AdmissionRule = spec_fn(
    Option<MutationView>,
    ActorId,
    MutationCommandId,
    Seq<u8>,
) -> Result<DispositionView, Conflict>;

/// What the journal's admission rule answers.
pub type AdmissionReply = Result<MutationDisposition, Conflict>;

/// An admission on values alone.
pub open spec fn admission_view(reply: AdmissionReply) -> Result<DispositionView, Conflict> {
    match reply {
        Ok(disposition) => Ok(disposition@),
        Err(conflict) => Err(conflict),
    }
}

/// Whether an executable admission rule answers as `rule` says.
pub open spec fn admission_is<
    J: Fn(&Option<MutationCommand>, ActorId, MutationCommandId, &[u8; 32]) -> AdmissionReply,
>(resolve: J, rule: AdmissionRule) -> bool {
    forall|
        e: &Option<MutationCommand>,
        a: ActorId,
        c: MutationCommandId,
        f: &[u8; 32],
        r: AdmissionReply,
    | #[trigger]
        call_ensures(resolve, (e, a, c, f), r) ==> admission_view(r) == rule(
            recorded_view(*e),
            a,
            c,
            f@,
        )
}

} // verus!
