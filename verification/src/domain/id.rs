//! Opaque identities: 128-bit values with one canonical text each.
use vstd::prelude::*;
use vstd::arithmetic::power::{lemma_pow0, lemma_pow1, lemma_pow_adds, lemma_pow_positive, pow};
use vstd::arithmetic::div_mod::{lemma_div_denominator, lemma_fundamental_div_mod};
use crate::digest::{hex_char, hex_char_value};
use crate::text::same;

verus! {

/// An opaque identity. Nothing reads meaning out of its value.
#[derive(Debug, Clone, Copy, PartialEq, Eq, Structural)]
pub struct Id {
    /// The 128-bit value.
    pub value: u128,
}

/// A project reference.
pub type ProjectId = Id;
/// A unit of delegated work.
pub type TaskId = Id;
/// A logical worker session.
pub type SessionId = Id;
/// One concrete start of a session.
pub type SessionIncarnationId = Id;
/// A worker turn.
pub type TurnId = Id;
/// An obligation.
pub type ObligationId = Id;
/// A ledger event.
pub type EventId = Id;
/// A committed result artifact.
pub type ResultArtifactId = Id;
/// A foreman binding record.
pub type ForemanBindingId = Id;
/// A foreman claim.
pub type ClaimId = Id;
/// A delivery attempt record.
pub type DeliveryAttemptId = Id;
/// An external attempt.
pub type ExternalAttemptId = Id;
/// A health condition.
pub type HealthConditionId = Id;
/// A semantic principal.
pub type ActorId = Id;
/// A logical mutation.
pub type MutationCommandId = Id;
/// A resource lease.
pub type ResourceLeaseId = Id;
/// A worker loadout.
pub type WorkerLoadoutId = Id;
/// A capability profile.
pub type CapabilityProfileId = Id;
/// A delegation policy.
pub type DelegationPolicyId = Id;
/// A model policy.
pub type ModelPolicyId = Id;
/// A managed configuration artifact.
pub type ManagedConfigArtifactId = Id;

/// The `k`-th of the 32 hexadecimal digits of an identity, most significant first.
pub open spec fn nibble(value: u128, k: int) -> int {
    (value as int / pow(16, (31 - k) as nat)) % 16
}

/// Whether a position of the canonical text holds a hyphen.
pub open spec fn hyphen_at(i: int) -> bool {
    i == 8 || i == 13 || i == 18 || i == 23
}

/// Which digit of the identity stands at a position of the canonical text.
pub open spec fn nibble_at(i: int) -> int {
    if i < 8 {
        i
    } else if i < 13 {
        i - 1
    } else if i < 18 {
        i - 2
    } else if i < 23 {
        i - 3
    } else {
        i - 4
    }
}

/// The canonical text of an identity: 32 lowercase hexadecimal digits, grouped 8-4-4-4-12.
pub open spec fn canonical_text(value: u128) -> Seq<char> {
    Seq::new(36, |i: int| if hyphen_at(i) { '-' } else { hex_char(nibble(value, nibble_at(i))) })
}

/// What `uuid::Uuid::parse_str` makes of a text.
pub uninterp spec fn uuid_value(text: Seq<char>) -> Option<u128>;

/// `uuid::Uuid::from_u128` rendered by its `Display`: the hyphenated lowercase form.
#[verifier::external_body]
fn uuid_render(value: u128) -> (r: String)
    ensures
        r@ == canonical_text(value),
{
    uuid::Uuid::from_u128(value).to_string()
}

/// `uuid::Uuid::parse_str`: its answer depends on the text alone, and for the hyphenated
/// lowercase form of a value it is that value. It accepts other forms too; what it makes of
/// those is named and not spelled out.
#[verifier::external_body]
pub(crate) fn uuid_parse(text: &str) -> (r: Option<u128>)
    ensures
        r == uuid_value(text@),
        forall|v: u128| text@ == canonical_text(v) ==> r == Some(v),
{
    match uuid::Uuid::parse_str(text) {
        Ok(parsed) => Some(parsed.as_u128()),
        Err(_) => None,
    }
}

/// Renders an opaque identity for persistence and diagnostics.
pub fn id_text(id: Id) -> (r: String)
    ensures
        r@ == canonical_text(id.value),
{
    uuid_render(id.value)
}

/// The identity a text is the canonical text of, if it is one.
pub open spec fn id_named(text: Seq<char>) -> Option<Id> {
    if exists|v: u128| text == #[trigger] canonical_text(v) {
        Some(Id { value: choose|v: u128| text == #[trigger] canonical_text(v) })
    } else {
        None
    }
}

/// The canonical text of an identity names that identity.
pub proof fn canonical_text_round_trips(id: Id)
    ensures
        id_named(canonical_text(id.value)) == Some(id),
{
    let text = canonical_text(id.value);
    let chosen = choose|v: u128| text == #[trigger] canonical_text(v);
    canonical_text_injective(chosen, id.value);
}

/// Rehydrates an identity from its canonical text.
pub fn id_of_text(text: &str) -> (r: Option<Id>)
    ensures
        r == id_named(text@),
{
    match uuid_parse(text) {
        Some(value) => {
            if same(uuid_render(value).as_str(), text) {
                proof {
                    canonical_text_round_trips(Id { value });
                }
                Some(Id { value })
            } else {
                None
            }
        },
        None => None,
    }
}

proof fn prefix_determines(a: u128, b: u128, k: nat)
    requires
        k <= 32,
        forall|j: int| 0 <= j < k ==> #[trigger] nibble(a, j) == nibble(b, j),
    ensures
        a as int / pow(16, (32 - k) as nat) == b as int / pow(16, (32 - k) as nat),
    decreases k,
{
    lemma_pow_positive(16, (32 - k) as nat);
    if k == 0 {
        assert(pow(16, 32) == 0x1_0000_0000_0000_0000_0000_0000_0000_0000int) by {
            lemma_pow1(16);
            lemma_pow_adds(16, 1, 1);
            lemma_pow_adds(16, 2, 2);
            lemma_pow_adds(16, 4, 4);
            lemma_pow_adds(16, 8, 8);
            lemma_pow_adds(16, 16, 16);
            assert(pow(16, 2) == 256);
            let (p2, p4, p8, p16, p32) = (pow(16, 2), pow(16, 4), pow(16, 8), pow(16, 16), pow(16, 32));
            assert(p32 == 0x1_0000_0000_0000_0000_0000_0000_0000_0000int) by (nonlinear_arith)
                requires
                    p2 == 256,
                    p4 == p2 * p2,
                    p8 == p4 * p4,
                    p16 == p8 * p8,
                    p32 == p16 * p16,
            ;
        }
        assert(a as int / pow(16, 32) == 0) by (nonlinear_arith)
            requires
                0 <= a as int,
                (a as int) < pow(16, 32),
        ;
        assert(b as int / pow(16, 32) == 0) by (nonlinear_arith)
            requires
                0 <= b as int,
                (b as int) < pow(16, 32),
        ;
    } else {
        let p = pow(16, (32 - k) as nat);
        prefix_determines(a, b, (k - 1) as nat);
        lemma_pow1(16);
        lemma_pow_adds(16, (32 - k) as nat, 1);
        assert(pow(16, (33 - k) as nat) == p * 16);
        lemma_div_denominator(a as int, p, 16);
        lemma_div_denominator(b as int, p, 16);
        assert(nibble(a, k - 1) == nibble(b, k - 1));
        lemma_fundamental_div_mod(a as int / p, 16);
        lemma_fundamental_div_mod(b as int / p, 16);
    }
}

/// Distinct identities have distinct canonical texts.
pub proof fn canonical_text_injective(a: u128, b: u128)
    requires
        canonical_text(a) == canonical_text(b),
    ensures
        a == b,
{
    assert forall|k: int| 0 <= k < 32 implies #[trigger] nibble(a, k) == nibble(b, k) by {
        let i = if k < 8 {
            k
        } else if k < 12 {
            k + 1
        } else if k < 16 {
            k + 2
        } else if k < 20 {
            k + 3
        } else {
            k + 4
        };
        assert(nibble_at(i) == k && !hyphen_at(i));
        assert(canonical_text(a)[i] == hex_char(nibble(a, k)));
        assert(canonical_text(b)[i] == hex_char(nibble(b, k)));
        hex_char_value(nibble(a, k));
        hex_char_value(nibble(b, k));
    }
    prefix_determines(a, b, 32);
    lemma_pow0(16);
}

} // verus!
