//! The production ports: a clock, the operating system's entropy, and version 7 identities.
//!
//! This is the one place where those capabilities are real. Wall-clock time is evidence and never
//! orders history, and nothing branches on an identity's bits.
use vstd::prelude::*;
use crate::digest::hex_char;
use crate::domain::fence::{rule_is, rule_total, SafeToken, Timestamp};
use crate::domain::id::{nibble, Id};
use crate::text::join2;

verus! {

/// A source of wall-clock instants.
pub trait Clock {
    /// Returns the current instant.
    fn now(&self) -> (r: Timestamp);
}

/// The system wall clock.
#[derive(Debug, Clone, Copy, PartialEq, Eq, Default, Structural)]
pub struct SystemClock;

/// The instant a clock reading stands for.
pub open spec fn instant_of(since_epoch_ms: Option<u128>) -> Timestamp {
    match since_epoch_ms {
        Some(millis) => if millis <= i64::MAX {
            millis as i64
        } else {
            i64::MAX
        },
        None => 0,
    }
}

impl SystemClock {
    /// The instant a reading of the clock stands for: milliseconds since the epoch, as far as they
    /// fit, and the epoch itself for a clock set before it.
    pub fn instant(&self, since_epoch_ms: Option<u128>) -> (r: Timestamp)
        ensures
            r == instant_of(since_epoch_ms),
    {
        match since_epoch_ms {
            Some(millis) => {
                if millis <= i64::MAX as u128 {
                    millis as i64
                } else {
                    i64::MAX
                }
            },
            None => 0,
        }
    }
}

/// `getrandom::fill`: overwrites every byte of the buffer and keeps its length, and succeeds at once
/// where the buffer is empty. What is drawn depends on chance; whether anything could be drawn, on
/// the machine.
#[verifier::external_body]
fn os_entropy(dest: &mut Vec<u8>) -> (r: bool)
    ensures
        final(dest)@.len() == old(dest)@.len(),
        old(dest)@.len() == 0 ==> r,
{
    getrandom::fill(dest.as_mut_slice()).is_ok()
}

/// The operating system's entropy source.
#[derive(Debug, Clone, Copy, PartialEq, Eq, Default, Structural)]
pub struct OsRandom;

/// The operating system could not supply entropy; nothing may be minted from what was not drawn.
#[derive(Debug, Clone, Copy, PartialEq, Eq, Structural)]
pub struct EntropyUnavailable;

impl OsRandom {
    /// Fills a buffer with entropy, or fails: there is no partial draw.
    pub fn fill_bytes(&mut self, dest: &mut Vec<u8>) -> (r: Result<(), EntropyUnavailable>)
        ensures
            final(dest)@.len() == old(dest)@.len(),
            old(dest)@.len() == 0 ==> r is Ok,
    {
        if os_entropy(dest) {
            Ok(())
        } else {
            Err(EntropyUnavailable)
        }
    }
}

/// Whether an identity is of version 7 and of the RFC variant: its thirteenth digit is a seven and
/// its seventeenth is one of eight to eleven.
pub open spec fn version_seven(value: u128) -> bool {
    nibble(value, 12) == 7 && 8 <= nibble(value, 16) <= 11
}

/// `uuid::Uuid::now_v7`: mints an identity of version 7. Its other bits depend on the clock and on
/// chance. Whether the machine has a clock past the epoch and entropy to give is its affair: without
/// them nothing is minted and the call does not return.
#[verifier::external_body]
fn mint_v7() -> (r: u128)
    ensures
        version_seven(r),
{
    uuid::Uuid::now_v7().as_u128()
}

/// Version 7 identity minting.
#[derive(Debug, Clone, Copy, PartialEq, Eq, Default, Structural)]
pub struct Uuidv7Ids;

impl Uuidv7Ids {
    /// Mints the next identity.
    pub fn next_uuid(&mut self) -> (r: Id)
        ensures
            version_seven(r.value),
    {
        Id { value: mint_v7() }
    }
}

/// The thirty-two hexadecimal digits of an identity, without separators.
pub open spec fn simple_text(value: u128) -> Seq<char> {
    Seq::new(32, |k: int| hex_char(nibble(value, k)))
}

/// `uuid::Uuid::from_u128` rendered through `uuid::Uuid::simple`: the lowercase digits alone.
#[verifier::external_body]
fn uuid_simple(value: u128) -> (r: String)
    ensures
        r@ == simple_text(value),
{
    uuid::Uuid::from_u128(value).simple().to_string()
}

/// Opaque, daemon-allocated storage keys: a fixed prefix and an identity.
#[derive(Debug, Clone, Copy, PartialEq, Eq, Default, Structural)]
pub struct Uuidv7Keys;

/// The text of the storage key of an identity.
pub open spec fn key_text(value: u128) -> Seq<char> {
    "ra-"@ + simple_text(value)
}

/// Whether an answer is the storage key of an identity: its text, exactly where the rule accepts it.
pub open spec fn is_key_of<S: Fn(&str) -> bool>(value: u128, safe: S, key: Option<SafeToken>) -> bool {
    &&& key matches Some(token) ==> token@ == key_text(value)
    &&& forall|rule: spec_fn(Seq<char>) -> bool| #[trigger]
        rule_is(safe, rule) ==> (key is Some <==> rule(key_text(value)))
}

impl Uuidv7Keys {
    /// The storage key of an identity; nothing where the rule accepts no such token.
    pub fn key_of<S: Fn(&str) -> bool>(value: u128, safe: &S) -> (r: Option<SafeToken>)
        requires
            rule_total(*safe),
        ensures
            is_key_of(value, *safe, r),
    {
        let digits = uuid_simple(value);
        let text = join2("ra-", digits.as_str());
        SafeToken::new(text.as_str(), safe)
    }

    /// Allocates the next storage key: that of a fresh identity, wherever the rule accepts it.
    pub fn next_key<S: Fn(&str) -> bool>(&mut self, safe: &S) -> (r: Option<SafeToken>)
        requires
            rule_total(*safe),
        ensures
            exists|value: u128| version_seven(value) && #[trigger] is_key_of(value, *safe, r),
    {
        let value: u128 = mint_v7();
        let key = Uuidv7Keys::key_of(value, safe);
        assert(is_key_of(value, *safe, key));
        key
    }
}

/// A storage key is a single path component: it holds no separator, is not empty, and is neither of
/// the two names that mean a directory.
pub proof fn a_storage_key_is_one_component(value: u128)
    ensures
        key_text(value).len() == 35,
        forall|i: int| 0 <= i < 35 ==> #[trigger] key_text(value)[i] != '/',
        key_text(value)[0] != '.',
{
    reveal_strlit("ra-");
    let text = key_text(value);
    assert forall|i: int| 0 <= i < 35 implies #[trigger] text[i] != '/' by {
        if i >= 3 {
            crate::digest::hex_char_value(nibble(value, i - 3));
            assert(text[i] == hex_char(nibble(value, i - 3)));
        }
    }
}

} // verus!
