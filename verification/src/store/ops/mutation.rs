//! The mutation-command receipt journal.
//!
//! A `received` row is committed before anything consequential is dispatched, and the bounded
//! result before the reply is sent. An exact retry of a completed identity gets the recorded
//! result; one whose fate is unknown gets a typed uncertainty; neither dispatches anything.
use vstd::prelude::*;
use crate::digest::{hex_text, same_digest};
use crate::domain::conflict::Conflict;
use crate::domain::fence::{rule_is, rule_total, DaemonEpoch, SafeToken, Timestamp};
use crate::domain::id::{ActorId, MutationCommandId};
use crate::domain::mutation::{
    admission_is, journal_is, journal_total, recorded_view, AdmissionReply, AdmissionRule,
    DispositionView, JournalMachine, MutationCommand, MutationCommandEvent, MutationCommandStatus,
    MutationDisposition, MutationEventView, MutationReply, MutationResultView, MutationView,
    SafeMutationResult,
};
use crate::domain::obligation::{applied_view, or_unchanged, settled, Applied};
use crate::store::codec::{
    decode_mutation_result, encode_mutation_result, hex32, hex32_round_trips, hex_byte, is_hex64, label_view,
    mutation_result_columns, mutation_result_of, mutation_result_round_trips, or_empty, parse_hex32, parse_token, parse_u64,
    store_u64, stored_u64, text_or_empty, text_view, token_column, u64_column,
    StoredMutationResult,
};
use crate::store::error::{chain, corrupt, corrupt_row, present, CorruptReason, StoreError};
use crate::store::labels::{
    decode_mutation_status, encode_mutation_status, mutation_status_label, mutation_status_named,
    mutation_status_round_trips,
};

verus! {

/// An answer of the journal machine, a refusal being a store failure.
pub open spec fn journaled(machine: JournalMachine, row: MutationView, event: MutationEventView) -> Result<
    Applied<MutationView>,
    StoreError,
> {
    match machine(row, event) {
        Ok(applied) => Ok(applied),
        Err(conflict) => Err(StoreError::Conflict(conflict)),
    }
}

/// An answer of the journal machine on values alone.
pub open spec fn journaled_view(r: Result<Applied<MutationCommand>, StoreError>) -> Result<
    Applied<MutationView>,
    StoreError,
> {
    match r {
        Ok(applied) => Ok(applied_view(applied)),
        Err(e) => Err(e),
    }
}

fn ask_journal<A: Fn(&MutationCommand, &MutationCommandEvent) -> MutationReply>(
    apply: &A,
    row: &MutationCommand,
    event: &MutationCommandEvent,
) -> (r: Result<Applied<MutationCommand>, StoreError>)
    requires
        journal_total(*apply),
    ensures
        forall|machine: JournalMachine| #[trigger]
            journal_is(*apply, machine) ==> journaled_view(r) == journaled(machine, row@, event@),
{
    match apply(row, event) {
        Ok(applied) => Ok(applied),
        Err(conflict) => Err(StoreError::Conflict(conflict)),
    }
}

// --- Beginning ---------------------------------------------------------------------------------------

/// Opening one logical mutation before anything consequential is dispatched.
#[derive(Debug, PartialEq, Eq)]
pub struct BeginMutationRequest {
    /// Semantic principal issuing the mutation. Survives transport reconnect.
    pub actor: ActorId,
    /// Stable identity of this logical mutation.
    pub command: MutationCommandId,
    /// What kind of mutation is being asked for.
    pub kind: SafeToken,
    /// Digest binding the identity to the operation it was minted for.
    pub fingerprint: [u8; 32],
    /// Daemon epoch the command is received under.
    pub daemon_epoch: DaemonEpoch,
}

/// What the journal permits for one incoming mutation identity. There is no dispatch-anyway variant.
#[derive(Debug, PartialEq, Eq)]
pub enum MutationAdmission {
    /// A new identity. The `received` row is committed; dispatch may follow.
    Dispatch,
    /// An exact retry of a completed identity. No dispatch may follow.
    Replayed(SafeMutationResult),
}

/// Commits the `received` row that must precede any consequential dispatch.
#[derive(Debug, PartialEq, Eq)]
pub struct BeginMutation {
    pub request: BeginMutationRequest,
    pub now: Timestamp,
}

/// One `mutation_commands` row, as inserted.
#[derive(Debug, PartialEq, Eq)]
pub struct ReceivedRow {
    pub actor_id: ActorId,
    pub command_id: MutationCommandId,
    pub fingerprint: String,
    pub command_kind: SafeToken,
    pub status: &'static str,
    pub daemon_epoch: i64,
    pub created_at_ms: i64,
}

/// One inserted `mutation_commands` row on values alone.
#[verifier::ext_equal]
pub struct ReceivedView {
    pub actor_id: ActorId,
    pub command_id: MutationCommandId,
    pub fingerprint: Seq<char>,
    pub command_kind: Seq<char>,
    pub status: &'static str,
    pub daemon_epoch: i64,
    pub created_at_ms: i64,
}

impl View for ReceivedRow {
    type V = ReceivedView;

    open spec fn view(&self) -> ReceivedView {
        ReceivedView {
            actor_id: self.actor_id,
            command_id: self.command_id,
            fingerprint: self.fingerprint@,
            command_kind: self.command_kind@,
            status: self.status,
            daemon_epoch: self.daemon_epoch,
            created_at_ms: self.created_at_ms,
        }
    }
}

/// What beginning decides, on values alone: a row and a dispatch, or a recorded result and no row.
pub enum AdmissionView {
    Dispatch(ReceivedView),
    Replayed(MutationResultView),
}

/// What beginning answered, on values alone; a dispatch without its row, or a replay with one, is
/// neither.
pub open spec fn begun_view(
    r: Result<(Option<ReceivedRow>, MutationAdmission), StoreError>,
) -> Result<Option<AdmissionView>, StoreError> {
    match r {
        Err(e) => Err(e),
        Ok((Some(row), MutationAdmission::Dispatch)) => Ok(Some(AdmissionView::Dispatch(row@))),
        Ok((None, MutationAdmission::Replayed(result))) => Ok(
            Some(AdmissionView::Replayed(result@)),
        ),
        Ok(_) => Ok(None),
    }
}

impl BeginMutation {
    /// The `received` row.
    pub open spec fn received_row(self) -> Result<ReceivedView, StoreError> {
        chain(
            stored_u64(self.request.daemon_epoch, "mutation_commands", "daemon_epoch"),
            |epoch: i64|
                Ok(
                    ReceivedView {
                        actor_id: self.request.actor,
                        command_id: self.request.command,
                        fingerprint: hex_text(self.request.fingerprint@),
                        command_kind: self.request.kind@,
                        status: mutation_status_label(MutationCommandStatus::Received),
                        daemon_epoch: epoch,
                        created_at_ms: self.now,
                    },
                ),
        )
    }

    /// What beginning comes to: dispatch only with a fresh row, replay only without one.
    pub open spec fn admitted(self, existing: Option<MutationView>, rule: AdmissionRule) -> Result<
        Option<AdmissionView>,
        StoreError,
    > {
        match rule(existing, self.request.actor, self.request.command, self.request.fingerprint@) {
            Err(conflict) => Err(StoreError::Conflict(conflict)),
            Ok(DispositionView::RecordedResult(result)) => Ok(Some(AdmissionView::Replayed(result))),
            Ok(DispositionView::NewOperation) => chain(
                self.received_row(),
                |row: ReceivedView| Ok(Some(AdmissionView::Dispatch(row))),
            ),
        }
    }

    /// Decides what the journal permits for an identity.
    pub fn commit<
        J: Fn(&Option<MutationCommand>, ActorId, MutationCommandId, &[u8; 32]) -> AdmissionReply,
    >(&self, existing: &Option<MutationCommand>, resolve: &J) -> (r: Result<
        (Option<ReceivedRow>, MutationAdmission),
        StoreError,
    >)
        requires
            forall|e: &Option<MutationCommand>, a: ActorId, c: MutationCommandId, f: &[u8; 32]|
                call_requires(*resolve, (e, a, c, f)),
        ensures
            forall|rule: AdmissionRule| #[trigger]
                admission_is(*resolve, rule) ==> begun_view(r) == self.admitted(
                    recorded_view(*existing),
                    rule,
                ),
            r matches Ok((row, admission)) ==> (row is Some <==> admission is Dispatch),
    {
        match resolve(
            existing,
            self.request.actor,
            self.request.command,
            &self.request.fingerprint,
        ) {
            Err(conflict) => Err(StoreError::Conflict(conflict)),
            Ok(MutationDisposition::RecordedResult(result)) => Ok(
                (None, MutationAdmission::Replayed(result)),
            ),
            Ok(MutationDisposition::NewOperation) => {
                let epoch: i64 = store_u64(
                    self.request.daemon_epoch,
                    "mutation_commands",
                    "daemon_epoch",
                )?;
                let row = ReceivedRow {
                    actor_id: self.request.actor,
                    command_id: self.request.command,
                    fingerprint: hex32(&self.request.fingerprint),
                    command_kind: self.request.kind.clone(),
                    status: encode_mutation_status(MutationCommandStatus::Received),
                    daemon_epoch: epoch,
                    created_at_ms: self.now,
                };
                Ok((Some(row), MutationAdmission::Dispatch))
            },
        }
    }
}

// --- Reading a row -----------------------------------------------------------------------------------

/// One `mutation_commands` row, as read.
#[derive(Debug, PartialEq, Eq)]
pub struct CommandRow {
    pub fingerprint: String,
    pub command_kind: String,
    pub status: String,
    pub daemon_epoch: i64,
    pub created_at_ms: i64,
    pub safe_result_kind: Option<String>,
    pub safe_result_ref: Option<String>,
    pub safe_result_conflict: Option<String>,
    pub completed_at_ms: Option<i64>,
    pub uncertain_at_ms: Option<i64>,
    pub acked_at_ms: Option<i64>,
}

/// The command as its receipt left it.
pub open spec fn receipt_of(
    actor: ActorId,
    command: MutationCommandId,
    row: CommandRow,
    rule: spec_fn(Seq<char>) -> bool,
) -> Result<MutationView, StoreError> {
    let t = "mutation_commands";
    chain(
        token_column(row.command_kind@, t, "command_kind", rule),
        |kind: Seq<char>|
            if !is_hex64(row.fingerprint@) {
                Err(corrupt(t, "fingerprint", CorruptReason::MalformedIdentity))
            } else {
                chain(
                    u64_column(row.daemon_epoch, t, "daemon_epoch"),
                    |daemon_epoch: u64|
                        Ok(
                            MutationView {
                                actor,
                                id: command,
                                kind,
                                fingerprint: Seq::new(
                                    32,
                                    |k: int| hex_byte(row.fingerprint@, k) as u8,
                                ),
                                daemon_epoch,
                                received_at: row.created_at_ms,
                                status: MutationCommandStatus::Received,
                                result: None,
                                completed_at: None,
                                uncertain_at: None,
                                acked_at: None,
                            },
                        ),
                )
            },
    )
}

/// The command after one more event the machine accepts, or its refusal.
pub open spec fn journal_step(machine: JournalMachine, row: MutationView, event: MutationEventView) -> Result<
    MutationView,
    StoreError,
> {
    chain(
        journaled(machine, row, event),
        |applied: Applied<MutationView>| Ok(settled(applied, row)),
    )
}

/// The failure of a row no legal sequence of transitions reaches.
pub open spec fn unproven() -> StoreError {
    corrupt("mutation_commands", "status", CorruptReason::UnprovableEvidence)
}

/// An event a row records, taken again; a row that records one the machine refuses is corrupt.
pub open spec fn relived(machine: JournalMachine, row: MutationView, event: MutationEventView) -> Result<
    MutationView,
    StoreError,
> {
    match journal_step(machine, row, event) {
        Ok(next) => Ok(next),
        Err(_) => Err(unproven()),
    }
}

/// The command after the uncertainty its row records, where it records one.
pub open spec fn doubt_folded(receipt: MutationView, row: CommandRow, machine: JournalMachine) -> Result<
    MutationView,
    StoreError,
> {
    match row.uncertain_at_ms {
        None => Ok(receipt),
        Some(at) => relived(machine, receipt, MutationEventView::MarkedUncertain { at }),
    }
}

/// The command after the result its row records, where it records one.
pub open spec fn result_folded(
    doubted: MutationView,
    row: CommandRow,
    machine: JournalMachine,
    rule: spec_fn(Seq<char>) -> bool,
) -> Result<MutationView, StoreError> {
    match row.completed_at_ms {
        None => Ok(doubted),
        Some(at) => chain(
            mutation_result_of(
                text_or_empty(row.safe_result_kind),
                text_view(row.safe_result_ref),
                text_view(row.safe_result_conflict),
                rule,
            ),
            |result: MutationResultView|
                relived(machine, doubted, MutationEventView::ResultCommitted { result, at }),
        ),
    }
}

/// The command after the acknowledgement its row records, where it records one.
pub open spec fn ack_folded(
    actor: ActorId,
    command: MutationCommandId,
    completed: MutationView,
    row: CommandRow,
    machine: JournalMachine,
) -> Result<MutationView, StoreError> {
    match row.acked_at_ms {
        None => Ok(completed),
        Some(at) => relived(
            machine,
            completed,
            MutationEventView::ReceiptAcknowledged { actor, command, at },
        ),
    }
}

/// What a row says: receipt, uncertainty, result and acknowledgement folded through the machine in
/// that order, which must end in the status the row stores.
pub open spec fn command_of(
    actor: ActorId,
    command: MutationCommandId,
    row: CommandRow,
    machine: JournalMachine,
    rule: spec_fn(Seq<char>) -> bool,
) -> Result<MutationView, StoreError> {
    match mutation_status_named(row.status@) {
        None => Err(corrupt("mutation_commands", "status", CorruptReason::UnknownLabel)),
        Some(stored) => chain(
            receipt_of(actor, command, row, rule),
            |receipt: MutationView|
                chain(
                    doubt_folded(receipt, row, machine),
                    |doubted: MutationView|
                        chain(
                            result_folded(doubted, row, machine, rule),
                            |completed: MutationView|
                                chain(
                                    ack_folded(actor, command, completed, row, machine),
                                    |folded: MutationView|
                                        if folded.status != stored {
                                            Err(unproven())
                                        } else {
                                            Ok(folded)
                                        },
                                ),
                        ),
                ),
        ),
    }
}

/// A command that was read, on values alone, or the failure.
pub open spec fn command_view(r: Result<MutationCommand, StoreError>) -> Result<MutationView, StoreError> {
    match r {
        Ok(command) => Ok(command@),
        Err(e) => Err(e),
    }
}

fn journal_advance<A: Fn(&MutationCommand, &MutationCommandEvent) -> MutationReply>(
    apply: &A,
    row: MutationCommand,
    event: &MutationCommandEvent,
) -> (r: Result<MutationCommand, StoreError>)
    requires
        journal_total(*apply),
    ensures
        forall|machine: JournalMachine| #[trigger]
            journal_is(*apply, machine) ==> command_view(r) == journal_step(machine, row@, event@),
{
    let applied = ask_journal(apply, &row, event)?;
    Ok(or_unchanged(applied, row))
}

fn relive<A: Fn(&MutationCommand, &MutationCommandEvent) -> MutationReply>(
    apply: &A,
    row: MutationCommand,
    event: &MutationCommandEvent,
) -> (r: Result<MutationCommand, StoreError>)
    requires
        journal_total(*apply),
    ensures
        forall|machine: JournalMachine| #[trigger]
            journal_is(*apply, machine) ==> command_view(r) == relived(machine, row@, event@),
{
    match journal_advance(apply, row, event) {
        Ok(next) => Ok(next),
        Err(_) => Err(
            corrupt_row("mutation_commands", "status", CorruptReason::UnprovableEvidence),
        ),
    }
}

fn read_receipt<S: Fn(&str) -> bool>(
    actor: ActorId,
    command: MutationCommandId,
    row: &CommandRow,
    safe: &S,
) -> (r: Result<MutationCommand, StoreError>)
    requires
        rule_total(*safe),
    ensures
        forall|rule: spec_fn(Seq<char>) -> bool| #[trigger]
            rule_is(*safe, rule) ==> command_view(r) == receipt_of(actor, command, *row, rule),
{
    let t = "mutation_commands";
    let kind = parse_token(row.command_kind.as_str(), t, "command_kind", safe)?;
    let fingerprint = parse_hex32(row.fingerprint.as_str(), t, "fingerprint")?;
    let daemon_epoch: u64 = parse_u64(row.daemon_epoch, t, "daemon_epoch")?;
    proof {
        assert(fingerprint@ =~= Seq::new(32, |k: int| hex_byte(row.fingerprint@, k) as u8));
    }
    Ok(
        MutationCommand::received(
            actor,
            command,
            kind,
            fingerprint,
            daemon_epoch,
            row.created_at_ms,
        ),
    )
}

fn fold_doubt<A: Fn(&MutationCommand, &MutationCommandEvent) -> MutationReply>(
    receipt: MutationCommand,
    row: &CommandRow,
    apply: &A,
) -> (r: Result<MutationCommand, StoreError>)
    requires
        journal_total(*apply),
    ensures
        forall|machine: JournalMachine| #[trigger]
            journal_is(*apply, machine) ==> command_view(r) == doubt_folded(receipt@, *row, machine),
{
    match row.uncertain_at_ms {
        None => Ok(receipt),
        Some(at) => {
            let event = MutationCommandEvent::MarkedUncertain { at };
            relive(apply, receipt, &event)
        },
    }
}

fn fold_result<
    A: Fn(&MutationCommand, &MutationCommandEvent) -> MutationReply,
    S: Fn(&str) -> bool,
>(doubted: MutationCommand, row: &CommandRow, apply: &A, safe: &S) -> (r: Result<
    MutationCommand,
    StoreError,
>)
    requires
        journal_total(*apply),
        rule_total(*safe),
    ensures
        forall|machine: JournalMachine, rule: spec_fn(Seq<char>) -> bool|
            #![trigger journal_is(*apply, machine), rule_is(*safe, rule)]
            journal_is(*apply, machine) && rule_is(*safe, rule) ==> command_view(r)
                == result_folded(doubted@, *row, machine, rule),
{
    match row.completed_at_ms {
        None => Ok(doubted),
        Some(at) => {
            let result = decode_mutation_result(
                or_empty(&row.safe_result_kind),
                &row.safe_result_ref,
                &row.safe_result_conflict,
                safe,
            )?;
            let event = MutationCommandEvent::ResultCommitted { result, at };
            relive(apply, doubted, &event)
        },
    }
}

fn fold_ack<A: Fn(&MutationCommand, &MutationCommandEvent) -> MutationReply>(
    actor: ActorId,
    command: MutationCommandId,
    completed: MutationCommand,
    row: &CommandRow,
    apply: &A,
) -> (r: Result<MutationCommand, StoreError>)
    requires
        journal_total(*apply),
    ensures
        forall|machine: JournalMachine| #[trigger]
            journal_is(*apply, machine) ==> command_view(r) == ack_folded(
                actor,
                command,
                completed@,
                *row,
                machine,
            ),
{
    match row.acked_at_ms {
        None => Ok(completed),
        Some(at) => {
            let event = MutationCommandEvent::ReceiptAcknowledged { actor, command, at };
            relive(apply, completed, &event)
        },
    }
}

/// Reads and re-proves one journal row: a row whose columns no legal sequence of transitions reaches
/// is corrupt.
pub fn read<
    A: Fn(&MutationCommand, &MutationCommandEvent) -> MutationReply,
    S: Fn(&str) -> bool,
>(
    actor: ActorId,
    command: MutationCommandId,
    row: &CommandRow,
    apply: &A,
    safe: &S,
) -> (r: Result<MutationCommand, StoreError>)
    requires
        journal_total(*apply),
        rule_total(*safe),
    ensures
        forall|machine: JournalMachine, rule: spec_fn(Seq<char>) -> bool|
            #![trigger journal_is(*apply, machine), rule_is(*safe, rule)]
            journal_is(*apply, machine) && rule_is(*safe, rule) ==> command_view(r) == command_of(
                actor,
                command,
                *row,
                machine,
                rule,
            ),
{
    let stored = decode_mutation_status(row.status.as_str(), "mutation_commands")?;
    let receipt = read_receipt(actor, command, row, safe)?;
    let doubted = fold_doubt(receipt, row, apply)?;
    let completed = fold_result(doubted, row, apply, safe)?;
    let folded = fold_ack(actor, command, completed, row, apply)?;
    if folded.status != stored {
        return Err(corrupt_row("mutation_commands", "status", CorruptReason::UnprovableEvidence));
    }
    Ok(folded)
}

/// What is answered about a command nobody received.
pub open spec fn no_receipt(actor: ActorId, command: MutationCommandId) -> StoreError {
    StoreError::Conflict(Conflict::MutationResultUncertain { actor, command })
}

/// The command, or the uncertainty where there is none: neither permits a dispatch.
pub fn require(actor: ActorId, command: MutationCommandId, found: Option<MutationCommand>) -> (r: Result<
    MutationCommand,
    StoreError,
>)
    ensures
        r == present(found, no_receipt(actor, command)),
{
    match found {
        Some(row) => Ok(row),
        None => Err(StoreError::Conflict(Conflict::MutationResultUncertain { actor, command })),
    }
}

// --- Completing ----------------------------------------------------------------------------------------

/// Committing the bounded safe result, before the reply is sent.
#[derive(Debug, PartialEq, Eq)]
pub struct CompleteMutationRequest {
    /// Actor that issued the command.
    pub actor: ActorId,
    /// Command identity being completed.
    pub command: MutationCommandId,
    /// Fingerprint of the operation, re-checked against the recorded one.
    pub fingerprint: [u8; 32],
    /// The bounded result to record.
    pub result: SafeMutationResult,
}

/// Commits a mutation's safe result. Late proven evidence completes an uncertain row the same way,
/// and dispatches nothing.
#[derive(Debug, PartialEq, Eq)]
pub struct CompleteMutation {
    pub request: CompleteMutationRequest,
    pub now: Timestamp,
}

/// What a `mutation_commands` row is overwritten with when its result is committed.
#[derive(Debug, PartialEq, Eq)]
pub struct ResultRow {
    pub actor_id: ActorId,
    pub command_id: MutationCommandId,
    pub status: &'static str,
    pub result: StoredMutationResult,
    pub completed_at_ms: Option<i64>,
    pub uncertain_at_ms: Option<i64>,
}

/// A result row on values alone.
#[verifier::ext_equal]
pub struct ResultView {
    pub actor_id: ActorId,
    pub command_id: MutationCommandId,
    pub status: &'static str,
    pub result: (Seq<char>, Option<Seq<char>>, Option<Seq<char>>),
    pub completed_at_ms: Option<i64>,
    pub uncertain_at_ms: Option<i64>,
}

impl View for ResultRow {
    type V = ResultView;

    open spec fn view(&self) -> ResultView {
        ResultView {
            actor_id: self.actor_id,
            command_id: self.command_id,
            status: self.status,
            result: (
                self.result.kind@,
                text_view(self.result.reference),
                label_view(self.result.conflict),
            ),
            completed_at_ms: self.completed_at_ms,
            uncertain_at_ms: self.uncertain_at_ms,
        }
    }
}

/// The result columns of a command that has one.
pub open spec fn result_row(row: MutationView) -> Result<ResultView, StoreError> {
    chain(
        present(
            row.result,
            corrupt("mutation_commands", "safe_result_kind", CorruptReason::MalformedMetadata),
        ),
        |result: MutationResultView|
            Ok(
                ResultView {
                    actor_id: row.actor,
                    command_id: row.id,
                    status: mutation_status_label(row.status),
                    result: mutation_result_columns(result),
                    completed_at_ms: row.completed_at,
                    uncertain_at_ms: row.uncertain_at,
                },
            ),
    )
}

/// A result row that was built, on values alone, or the failure.
pub open spec fn result_view(r: Result<ResultRow, StoreError>) -> Result<ResultView, StoreError> {
    match r {
        Ok(row) => Ok(row@),
        Err(e) => Err(e),
    }
}

/// Builds the result columns of a command.
pub fn write_result(row: &MutationCommand) -> (r: Result<ResultRow, StoreError>)
    ensures
        result_view(r) == result_row(row@),
{
    match &row.result {
        None => Err(
            corrupt_row("mutation_commands", "safe_result_kind", CorruptReason::MalformedMetadata),
        ),
        Some(result) => Ok(
            ResultRow {
                actor_id: row.actor,
                command_id: row.id,
                status: encode_mutation_status(row.status),
                result: encode_mutation_result(result),
                completed_at_ms: row.completed_at,
                uncertain_at_ms: row.uncertain_at,
            },
        ),
    }
}

impl CompleteMutation {
    /// What completing commits: a result row and the next status, or the status as it stands.
    pub open spec fn committed(self, row: MutationView, machine: JournalMachine) -> Result<
        (Option<ResultView>, MutationCommandStatus),
        StoreError,
    > {
        if row.fingerprint != self.request.fingerprint@ {
            Err(
                StoreError::Conflict(
                    Conflict::MutationCommandMismatch {
                        actor: self.request.actor,
                        command: self.request.command,
                    },
                ),
            )
        } else {
            chain(
                journaled(
                    machine,
                    row,
                    MutationEventView::ResultCommitted {
                        result: self.request.result@,
                        at: self.now,
                    },
                ),
                |applied: Applied<MutationView>|
                    match applied {
                        Applied::Duplicate => Ok((None, row.status)),
                        Applied::Advanced(next) => chain(
                            result_row(next),
                            |columns: ResultView| Ok((Some(columns), next.status)),
                        ),
                    },
            )
        }
    }

    /// Commits the result of a command.
    pub fn commit<A: Fn(&MutationCommand, &MutationCommandEvent) -> MutationReply>(
        &self,
        row: &MutationCommand,
        apply: &A,
    ) -> (r: Result<(Option<ResultRow>, MutationCommandStatus), StoreError>)
        requires
            journal_total(*apply),
        ensures
            forall|machine: JournalMachine| #[trigger]
                journal_is(*apply, machine) ==> (match r {
                    Ok((columns, status)) => self.committed(row@, machine) == Ok::<
                        (Option<ResultView>, MutationCommandStatus),
                        StoreError,
                    >(
                        (
                            match columns {
                                Some(found) => Some(found@),
                                None => None,
                            },
                            status,
                        ),
                    ),
                    Err(e) => self.committed(row@, machine) == Err::<
                        (Option<ResultView>, MutationCommandStatus),
                        StoreError,
                    >(e),
                }),
    {
        if !same_digest(&row.fingerprint, &self.request.fingerprint) {
            return Err(
                StoreError::Conflict(
                    Conflict::MutationCommandMismatch {
                        actor: self.request.actor,
                        command: self.request.command,
                    },
                ),
            );
        }
        let event = MutationCommandEvent::ResultCommitted {
            result: self.request.result.clone(),
            at: self.now,
        };
        match ask_journal(apply, row, &event)? {
            Applied::Duplicate => Ok((None, row.status)),
            Applied::Advanced(next) => {
                let columns = write_result(&next)?;
                Ok((Some(columns), next.status))
            },
        }
    }
}

// --- Acknowledging a receipt ---------------------------------------------------------------------------

/// The client confirms receipt of a committed result.
#[derive(Debug, Clone, Copy, PartialEq, Eq, Structural)]
pub struct AckMutationReceiptRequest {
    /// Actor acknowledging.
    pub actor: ActorId,
    /// Command whose committed result was received.
    pub command: MutationCommandId,
}

/// Marks a completed command acked. Retention eligibility, nothing else.
#[derive(Debug, Clone, Copy, PartialEq, Eq, Structural)]
pub struct AckMutationReceipt {
    pub request: AckMutationReceiptRequest,
    pub now: Timestamp,
}

/// What a `mutation_commands` row is overwritten with when its status changes alone.
#[derive(Debug, Clone, Copy, PartialEq, Eq)]
pub struct StatusRow {
    pub actor_id: ActorId,
    pub command_id: MutationCommandId,
    pub status: &'static str,
    /// The instant of the change: of the acknowledgement, or of the doubt.
    pub at_ms: Option<i64>,
}

impl AckMutationReceipt {
    /// What acknowledging commits: a row and the next status, or the status as it stands.
    pub open spec fn committed(self, row: MutationView, machine: JournalMachine) -> Result<
        (Option<StatusRow>, MutationCommandStatus),
        StoreError,
    > {
        chain(
            journaled(
                machine,
                row,
                MutationEventView::ReceiptAcknowledged {
                    actor: self.request.actor,
                    command: self.request.command,
                    at: self.now,
                },
            ),
            |applied: Applied<MutationView>|
                Ok(
                    match applied {
                        Applied::Duplicate => (None, row.status),
                        Applied::Advanced(next) => (
                            Some(
                                StatusRow {
                                    actor_id: self.request.actor,
                                    command_id: self.request.command,
                                    status: mutation_status_label(next.status),
                                    at_ms: next.acked_at,
                                },
                            ),
                            next.status,
                        ),
                    },
                ),
        )
    }

    /// Commits the acknowledgement of a receipt.
    pub fn commit<A: Fn(&MutationCommand, &MutationCommandEvent) -> MutationReply>(
        &self,
        row: &MutationCommand,
        apply: &A,
    ) -> (r: Result<(Option<StatusRow>, MutationCommandStatus), StoreError>)
        requires
            journal_total(*apply),
        ensures
            forall|machine: JournalMachine| #[trigger]
                journal_is(*apply, machine) ==> r == self.committed(row@, machine),
    {
        let event = MutationCommandEvent::ReceiptAcknowledged {
            actor: self.request.actor,
            command: self.request.command,
            at: self.now,
        };
        match ask_journal(apply, row, &event)? {
            Applied::Duplicate => Ok((None, row.status)),
            Applied::Advanced(next) => Ok(
                (
                    Some(
                        StatusRow {
                            actor_id: self.request.actor,
                            command_id: self.request.command,
                            status: encode_mutation_status(next.status),
                            at_ms: next.acked_at,
                        },
                    ),
                    next.status,
                ),
            ),
        }
    }
}

// --- Uncertainty ---------------------------------------------------------------------------------------

/// The row of a command whose fate was lost.
pub open spec fn uncertain_row(row: MutationView, at: Timestamp, machine: JournalMachine) -> Result<
    StatusRow,
    StoreError,
> {
    chain(
        journal_step(machine, row, MutationEventView::MarkedUncertain { at }),
        |next: MutationView|
            Ok(
                StatusRow {
                    actor_id: next.actor,
                    command_id: next.id,
                    status: mutation_status_label(next.status),
                    at_ms: next.uncertain_at,
                },
            ),
    )
}

/// Marks a `received` row uncertain. Used only by startup recovery.
pub fn mark_uncertain<A: Fn(&MutationCommand, &MutationCommandEvent) -> MutationReply>(
    row: &MutationCommand,
    at: Timestamp,
    apply: &A,
) -> (r: Result<StatusRow, StoreError>)
    requires
        journal_total(*apply),
    ensures
        forall|machine: JournalMachine| #[trigger]
            journal_is(*apply, machine) ==> r == uncertain_row(row@, at, machine),
{
    let event = MutationCommandEvent::MarkedUncertain { at };
    let next = journal_advance(apply, row.clone(), &event)?;
    Ok(
        StatusRow {
            actor_id: next.actor,
            command_id: next.id,
            status: encode_mutation_status(next.status),
            at_ms: next.uncertain_at,
        },
    )
}

/// The epoch bound below which a `received` row is orphaned.
pub fn unresolved_before(epoch: DaemonEpoch) -> (r: Result<i64, StoreError>)
    ensures
        r == stored_u64(epoch, "mutation_commands", "daemon_epoch"),
{
    store_u64(epoch, "mutation_commands", "daemon_epoch")
}

// --- Laws ------------------------------------------------------------------------------------------------

/// Nothing is dispatched for an identity the journal does not call new: a recorded result is
/// replayed without a row, and a refusal is the answer as it is.
pub proof fn only_a_new_operation_is_dispatched(
    op: BeginMutation,
    existing: Option<MutationView>,
    rule: AdmissionRule,
)
    ensures
        ({
            let answer = rule(
                existing,
                op.request.actor,
                op.request.command,
                op.request.fingerprint@,
            );
            &&& op.admitted(existing, rule) matches Ok(Some(AdmissionView::Dispatch(_)))
                ==> answer == Ok::<DispositionView, Conflict>(DispositionView::NewOperation)
            &&& answer matches Err(conflict) ==> op.admitted(existing, rule) == Err::<
                Option<AdmissionView>,
                StoreError,
            >(StoreError::Conflict(conflict))
        }),
{
}

/// An identity completed with another operation's fingerprint is refused and nothing is recorded.
pub proof fn a_mismatched_fingerprint_records_nothing(
    op: CompleteMutation,
    row: MutationView,
    machine: JournalMachine,
)
    requires
        row.fingerprint != op.request.fingerprint@,
    ensures
        op.committed(row, machine) == Err::<
            (Option<ResultView>, MutationCommandStatus),
            StoreError,
        >(
            StoreError::Conflict(
                Conflict::MutationCommandMismatch {
                    actor: op.request.actor,
                    command: op.request.command,
                },
            ),
        ),
{
}

/// Whether the receipt columns of a row are those a new operation inserted.
pub open spec fn received_as(row: CommandRow, written: ReceivedView) -> bool {
    &&& row.fingerprint@ == written.fingerprint
    &&& row.command_kind@ == written.command_kind
    &&& row.daemon_epoch == written.daemon_epoch
    &&& row.created_at_ms == written.created_at_ms
}

/// Whether the result columns of a row are those completing it overwrote.
pub open spec fn completed_as(row: CommandRow, written: ResultView) -> bool {
    &&& row.status@ == written.status@
    &&& row.safe_result_kind is Some
    &&& row.safe_result_kind->0@ == written.result.0
    &&& text_view(row.safe_result_ref) == written.result.1
    &&& text_view(row.safe_result_conflict) == written.result.2
    &&& row.completed_at_ms == written.completed_at_ms
    &&& row.uncertain_at_ms == written.uncertain_at_ms
}

/// The receipt a new operation leaves.
pub open spec fn receipt(op: BeginMutation) -> MutationView {
    MutationView {
        actor: op.request.actor,
        id: op.request.command,
        kind: op.request.kind@,
        fingerprint: op.request.fingerprint@,
        daemon_epoch: op.request.daemon_epoch,
        received_at: op.now,
        status: MutationCommandStatus::Received,
        result: None,
        completed_at: None,
        uncertain_at: None,
        acked_at: None,
    }
}

proof fn the_receipt_is_read(op: BeginMutation, written: ReceivedView, row: CommandRow, rule: spec_fn(Seq<char>) -> bool)
    requires
        op.received_row() == Ok::<ReceivedView, StoreError>(written),
        received_as(row, written),
        rule(op.request.kind@),
    ensures
        receipt_of(op.request.actor, op.request.command, row, rule) == Ok::<MutationView, StoreError>(
            receipt(op),
        ),
{
    hex32_round_trips(op.request.fingerprint@);
    assert(Seq::new(32, |k: int| hex_byte(row.fingerprint@, k) as u8) =~= op.request.fingerprint@);
}

/// A received command reads back as its receipt, whatever the machine: nothing came of it yet.
pub proof fn a_received_command_reads_back(
    op: BeginMutation,
    written: ReceivedView,
    row: CommandRow,
    machine: JournalMachine,
    rule: spec_fn(Seq<char>) -> bool,
)
    requires
        op.received_row() == Ok::<ReceivedView, StoreError>(written),
        received_as(row, written),
        row.status@ == written.status@,
        row.uncertain_at_ms is None,
        row.completed_at_ms is None,
        row.acked_at_ms is None,
        rule(op.request.kind@),
    ensures
        command_of(op.request.actor, op.request.command, row, machine, rule) == Ok::<
            MutationView,
            StoreError,
        >(receipt(op)),
{
    the_receipt_is_read(op, written, row, rule);
    mutation_status_round_trips(MutationCommandStatus::Received);
}

/// A completed command reads back with the very result that was committed, so an exact retry is
/// answered with it: the row folds to the command the machine left when it took the result.
pub proof fn a_completed_command_reads_back(
    begin: BeginMutation,
    complete: CompleteMutation,
    received: ReceivedView,
    next: MutationView,
    row: CommandRow,
    machine: JournalMachine,
    rule: spec_fn(Seq<char>) -> bool,
)
    requires
        begin.received_row() == Ok::<ReceivedView, StoreError>(received),
        received_as(row, received),
        rule(begin.request.kind@),
        complete.request.result@ matches MutationResultView::Applied { reference: Some(text) } ==> rule(
            text,
        ),
        machine(
            receipt(begin),
            MutationEventView::ResultCommitted { result: complete.request.result@, at: complete.now },
        ) == Ok::<Applied<MutationView>, Conflict>(Applied::Advanced(next)),
        next.result == Some(complete.request.result@),
        next.completed_at == Some(complete.now),
        next.uncertain_at is None,
        complete.request.fingerprint@ == begin.request.fingerprint@,
        complete.committed(receipt(begin), machine) matches Ok((Some(written), _)) && completed_as(
            row,
            written,
        ),
        row.acked_at_ms is None,
    ensures
        command_of(begin.request.actor, begin.request.command, row, machine, rule) == Ok::<
            MutationView,
            StoreError,
        >(next),
{
    the_receipt_is_read(begin, received, row, rule);
    mutation_status_round_trips(next.status);
    mutation_result_round_trips(complete.request.result@, rule);
}

} // verus!
