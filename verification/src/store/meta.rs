//! The `meta` table: a closed set of keys, and what their values say.
use vstd::prelude::*;
use crate::domain::fence::{DaemonEpoch, EventSeq};
use crate::store::codec::{parse_u32, parse_u64, store_u64, stored_u64, text_view, u32_column, u64_column};
use crate::store::error::{chain, corrupt, corrupt_row, CorruptReason, StoreError};
use crate::text::{a_written_number_reads_back, i64_named, nat_string, nat_text, parse_i64};

verus! {

/// Monotonic application schema epoch.
pub const SCHEMA_EPOCH: &'static str = "schema_epoch";

/// Opaque identity of this database file, minted once at creation.
pub const DATABASE_INSTANCE_ID: &'static str = "database_instance_id";

/// Highest event sequence whose projections were verified by replay.
pub const LAST_VERIFIED_PROJECTION_SEQ: &'static str = "last_verified_projection_seq";

/// Lifetime counter of the owning daemon process.
pub const DAEMON_EPOCH: &'static str = "daemon_epoch";

/// The integer a meta value holds.
pub open spec fn meta_integer(text: Seq<char>, key: &'static str) -> Result<i64, StoreError> {
    match i64_named(text) {
        Some(value) => Ok(value),
        None => Err(corrupt("meta", key, CorruptReason::IntegerOutOfRange)),
    }
}

fn read_integer(text: &str, key: &'static str) -> (r: Result<i64, StoreError>)
    ensures
        r == meta_integer(text@, key),
{
    match parse_i64(text) {
        Some(value) => Ok(value),
        None => Err(corrupt_row("meta", key, CorruptReason::IntegerOutOfRange)),
    }
}

/// The counter a meta value holds.
pub open spec fn meta_counter(text: Seq<char>, key: &'static str) -> Result<u64, StoreError> {
    chain(meta_integer(text, key), |value: i64| u64_column(value, "meta", key))
}

fn read_counter(text: &str, key: &'static str) -> (r: Result<u64, StoreError>)
    ensures
        r == meta_counter(text@, key),
{
    let value: i64 = read_integer(text, key)?;
    parse_u64(value, "meta", key)
}

/// The recorded schema epoch, if there is one.
pub open spec fn epoch_recorded(text: Option<Seq<char>>) -> Result<Option<u32>, StoreError> {
    match text {
        None => Ok(None),
        Some(value) => chain(
            meta_integer(value, SCHEMA_EPOCH),
            |number: i64|
                chain(u32_column(number, "meta", SCHEMA_EPOCH), |epoch: u32| Ok(Some(epoch))),
        ),
    }
}

/// Reads the recorded schema epoch.
pub fn schema_epoch(text: &Option<String>) -> (r: Result<Option<u32>, StoreError>)
    ensures
        r == epoch_recorded(text_view(*text)),
{
    match text {
        None => Ok(None),
        Some(value) => {
            let number: i64 = read_integer(value.as_str(), SCHEMA_EPOCH)?;
            let epoch: u32 = parse_u32(number, "meta", SCHEMA_EPOCH)?;
            Ok(Some(epoch))
        },
    }
}

/// The last verified projection watermark, if there is one.
pub open spec fn watermark_recorded(text: Option<Seq<char>>) -> Result<Option<EventSeq>, StoreError> {
    match text {
        None => Ok(None),
        Some(value) => chain(
            meta_counter(value, LAST_VERIFIED_PROJECTION_SEQ),
            |seq: u64| Ok(Some(seq)),
        ),
    }
}

/// Reads the last verified projection watermark.
pub fn last_verified_projection_seq(text: &Option<String>) -> (r: Result<Option<EventSeq>, StoreError>)
    ensures
        r == watermark_recorded(text_view(*text)),
{
    match text {
        None => Ok(None),
        Some(value) => {
            let seq: u64 = read_counter(value.as_str(), LAST_VERIFIED_PROJECTION_SEQ)?;
            Ok(Some(seq))
        },
    }
}

/// The value that records a watermark.
pub fn set_last_verified_projection_seq(seq: EventSeq) -> (r: Result<String, StoreError>)
    ensures
        match r {
            Ok(value) => value@ == nat_text(seq as nat) && stored_u64(
                seq,
                "meta",
                LAST_VERIFIED_PROJECTION_SEQ,
            ) is Ok,
            Err(e) => stored_u64(seq, "meta", LAST_VERIFIED_PROJECTION_SEQ) == Err::<i64, StoreError>(e),
        },
{
    let value: i64 = store_u64(seq, "meta", LAST_VERIFIED_PROJECTION_SEQ)?;
    Ok(nat_string(value as u64))
}

/// The daemon epoch the database was last opened under. One that no daemon ever opened is at the
/// epoch before the first.
pub open spec fn daemon_epoch_recorded(text: Option<Seq<char>>) -> Result<DaemonEpoch, StoreError> {
    match text {
        None => Ok(0),
        Some(value) => meta_counter(value, DAEMON_EPOCH),
    }
}

/// Reads the daemon epoch the database was last opened under.
pub fn daemon_epoch(text: &Option<String>) -> (r: Result<DaemonEpoch, StoreError>)
    ensures
        r == daemon_epoch_recorded(text_view(*text)),
{
    match text {
        None => Ok(0),
        Some(value) => read_counter(value.as_str(), DAEMON_EPOCH),
    }
}

/// The next daemon epoch: one more than the recorded one, where that can be stored.
pub open spec fn epoch_advanced(text: Option<Seq<char>>) -> Result<DaemonEpoch, StoreError> {
    chain(
        daemon_epoch_recorded(text),
        |epoch: u64|
            chain(
                stored_u64((epoch + 1) as u64, "meta", DAEMON_EPOCH),
                |_stored: i64| Ok((epoch + 1) as u64),
            ),
    )
}

/// Advances the daemon epoch: the new epoch, and the value that records it.
pub fn advance_daemon_epoch(text: &Option<String>) -> (r: Result<(DaemonEpoch, String), StoreError>)
    ensures
        match r {
            Ok((epoch, value)) => epoch_advanced(text_view(*text)) == Ok::<DaemonEpoch, StoreError>(
                epoch,
            ) && value@ == nat_text(epoch as nat),
            Err(e) => epoch_advanced(text_view(*text)) == Err::<DaemonEpoch, StoreError>(e),
        },
{
    let current: u64 = daemon_epoch(text)?;
    let next: u64 = current + 1;
    let value: i64 = store_u64(next, "meta", DAEMON_EPOCH)?;
    Ok((next, nat_string(value as u64)))
}

/// Startup advances the epoch by exactly one: what it records reads back as the new epoch, which is
/// one more than the recorded one.
pub proof fn each_start_advances_the_epoch_by_one(text: Option<Seq<char>>)
    requires
        epoch_advanced(text) is Ok,
    ensures
        daemon_epoch_recorded(text) is Ok,
        epoch_advanced(text)->Ok_0 == daemon_epoch_recorded(text)->Ok_0 + 1,
        daemon_epoch_recorded(Some(nat_text(epoch_advanced(text)->Ok_0 as nat))) == epoch_advanced(
            text,
        ),
{
    a_written_number_reads_back(epoch_advanced(text)->Ok_0 as nat);
}

/// A recorded watermark reads back.
pub proof fn a_recorded_watermark_reads_back(seq: EventSeq)
    requires
        stored_u64(seq, "meta", LAST_VERIFIED_PROJECTION_SEQ) is Ok,
    ensures
        watermark_recorded(Some(nat_text(seq as nat))) == Ok::<Option<EventSeq>, StoreError>(
            Some(seq),
        ),
{
    a_written_number_reads_back(seq as nat);
}

} // verus!
