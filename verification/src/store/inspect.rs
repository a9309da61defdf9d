//! Read-only diagnosis of a database that another process may own.
//!
//! Replay equivalence is not checked here, for proving it records a watermark; what is reported is
//! the watermark the last authoritative open reached, against the ledger head.
use vstd::prelude::*;
use crate::domain::fence::{DaemonEpoch, EventSeq};
use crate::store::codec::text_view;
use crate::store::error::{chain, StoreError};
use crate::store::event::highest_seq;
use crate::store::load::artifact::OpenObligation;
use crate::store::load::health::OpenCondition;
use crate::store::meta::{
    daemon_epoch, daemon_epoch_recorded, epoch_recorded, last_verified_projection_seq,
    schema_epoch, watermark_recorded,
};
use crate::store::migrate::SUPPORTED_SCHEMA_EPOCH;
use crate::store::replay::watermark;

verus! {

/// What a read-only look at a state root's database found.
#[derive(Debug, PartialEq, Eq)]
pub struct ReadOnlyDiagnosis {
    /// Whether the schema has been created at all.
    pub schema_present: bool,
    /// Schema epoch recorded in the database, when there is one.
    pub schema_epoch: Option<u32>,
    /// Highest schema epoch implemented here.
    pub supported_schema_epoch: u32,
    /// Daemon epoch the last authoritative open advanced to.
    pub daemon_epoch: DaemonEpoch,
    /// Highest ledger sequence a previous process proved projections through.
    pub verified_through: Option<EventSeq>,
    /// Highest ledger sequence currently recorded.
    pub ledger_head: Option<EventSeq>,
    /// Obligations that still owe somebody something.
    pub open_obligations: Vec<OpenObligation>,
    /// Conditions currently demanding attention.
    pub open_conditions: Vec<OpenCondition>,
    /// Committed result-artifact rows.
    pub committed_artifacts: usize,
}

/// Whether a ledger head lies beyond a verified watermark.
pub open spec fn behind(head: Option<EventSeq>, verified: Option<EventSeq>) -> bool {
    match (head, verified) {
        (Some(newest), Some(proven)) => newest > proven,
        (Some(_), None) => true,
        (None, _) => false,
    }
}

impl ReadOnlyDiagnosis {
    /// Whether the database is newer than what is implemented here.
    pub fn schema_too_new(&self) -> (r: bool)
        ensures
            r == (self.schema_epoch matches Some(found) && found > self.supported_schema_epoch),
    {
        match self.schema_epoch {
            Some(found) => found > self.supported_schema_epoch,
            None => false,
        }
    }

    /// Whether the ledger has advanced past the last proven replay.
    pub fn replay_behind(&self) -> (r: bool)
        ensures
            r == behind(self.ledger_head, self.verified_through),
    {
        match (self.ledger_head, self.verified_through) {
            (Some(head), Some(verified)) => head > verified,
            (Some(_), None) => true,
            (None, _) => false,
        }
    }

    /// Whether a diagnosis only describes a database and interprets none of its tables.
    pub open spec fn describes(self, schema_present: bool, epoch: Option<u32>) -> bool {
        &&& self.schema_present == schema_present
        &&& self.schema_epoch == epoch
        &&& self.supported_schema_epoch == SUPPORTED_SCHEMA_EPOCH
        &&& self.daemon_epoch == 0
        &&& self.verified_through is None
        &&& self.ledger_head is None
        &&& self.open_obligations@.len() == 0
        &&& self.open_conditions@.len() == 0
        &&& self.committed_artifacts == 0
    }

    fn described(schema_present: bool, epoch: Option<u32>) -> (r: ReadOnlyDiagnosis)
        ensures
            r.describes(schema_present, epoch),
    {
        ReadOnlyDiagnosis {
            schema_present,
            schema_epoch: epoch,
            supported_schema_epoch: SUPPORTED_SCHEMA_EPOCH,
            daemon_epoch: 0,
            verified_through: None,
            ledger_head: None,
            open_obligations: Vec::new(),
            open_conditions: Vec::new(),
            committed_artifacts: 0,
        }
    }
}

/// What the first look at a database decides.
#[derive(Debug, PartialEq, Eq)]
pub enum FirstLook {
    /// Nothing more may be read: there is no schema, or it is too new.
    Described(ReadOnlyDiagnosis),
    /// The tables may be read; the schema is at this epoch.
    Readable(Option<u32>),
}

/// Decides from the recorded schema epoch alone whether the tables may be interpreted: a database
/// from a newer binary is described and never read.
pub fn first_look(schema_present: bool, epoch: &Option<String>) -> (r: Result<FirstLook, StoreError>)
    ensures
        !schema_present ==> (r matches Ok(FirstLook::Described(d)) && d.describes(false, None)),
        schema_present ==> (match epoch_recorded(text_view(*epoch)) {
            Err(e) => r == Err::<FirstLook, StoreError>(e),
            Ok(recorded) => if recorded matches Some(found) && found > SUPPORTED_SCHEMA_EPOCH {
                r matches Ok(FirstLook::Described(d)) && d.describes(true, recorded)
            } else {
                r == Ok::<FirstLook, StoreError>(FirstLook::Readable(recorded))
            },
        }),
{
    if !schema_present {
        return Ok(FirstLook::Described(ReadOnlyDiagnosis::described(false, None)));
    }
    let recorded = schema_epoch(epoch)?;
    let too_new = match recorded {
        Some(found) => found > SUPPORTED_SCHEMA_EPOCH,
        None => false,
    };
    if too_new {
        return Ok(FirstLook::Described(ReadOnlyDiagnosis::described(true, recorded)));
    }
    Ok(FirstLook::Readable(recorded))
}

/// What the two counters of the meta table say.
pub open spec fn counters_recorded(epoch: Option<Seq<char>>, watermark_text: Option<Seq<char>>) -> Result<
    (DaemonEpoch, Option<EventSeq>),
    StoreError,
> {
    chain(
        daemon_epoch_recorded(epoch),
        |found: u64|
            chain(
                watermark_recorded(watermark_text),
                |verified: Option<EventSeq>| Ok((found, verified)),
            ),
    )
}

/// Reads the daemon epoch and the watermark, before the ledger is looked at.
pub fn read_counters(epoch: &Option<String>, watermark_text: &Option<String>) -> (r: Result<
    (DaemonEpoch, Option<EventSeq>),
    StoreError,
>)
    ensures
        r == counters_recorded(text_view(*epoch), text_view(*watermark_text)),
{
    let found: u64 = daemon_epoch(epoch)?;
    let verified = last_verified_projection_seq(watermark_text)?;
    Ok((found, verified))
}

/// Puts together what a read-only look found.
pub fn read_only(
    schema_epoch: Option<u32>,
    counters: (DaemonEpoch, Option<EventSeq>),
    highest: Option<i64>,
    open_obligations: Vec<OpenObligation>,
    open_conditions: Vec<OpenCondition>,
    committed_artifacts: usize,
) -> (r: Result<ReadOnlyDiagnosis, StoreError>)
    ensures
        match watermark(highest) {
            Err(e) => r == Err::<ReadOnlyDiagnosis, StoreError>(e),
            Ok(ledger_head) => r == Ok::<ReadOnlyDiagnosis, StoreError>(
                ReadOnlyDiagnosis {
                    schema_present: true,
                    schema_epoch,
                    supported_schema_epoch: SUPPORTED_SCHEMA_EPOCH,
                    daemon_epoch: counters.0,
                    verified_through: counters.1,
                    ledger_head,
                    open_obligations,
                    open_conditions,
                    committed_artifacts,
                },
            ),
        },
{
    let ledger_head = highest_seq(highest)?;
    Ok(
        ReadOnlyDiagnosis {
            schema_present: true,
            schema_epoch,
            supported_schema_epoch: SUPPORTED_SCHEMA_EPOCH,
            daemon_epoch: counters.0,
            verified_through: counters.1,
            ledger_head,
            open_obligations,
            open_conditions,
            committed_artifacts,
        },
    )
}

} // verus!
