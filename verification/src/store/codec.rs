//! Encoding domain values as columns, and decoding them back.
use vstd::prelude::*;
use crate::digest::{digit_value, hex_char, hex_char_value, hex_string, hex_text, hex_value};
use crate::domain::effect::{EffectClassView, ExternalEffectClass, IdempotencyContract};
use crate::domain::fence::{rule_is, rule_total, SafeToken, SourceRef, SourceView};
use crate::domain::id::{id_named, id_of_text, Id};
use crate::domain::mutation::{MutationResultView, SafeMutationResult};
use crate::store::error::{corrupt, corrupt_row, CorruptReason, StoreError};
use crate::store::labels::{
    conflict_kind_label, conflict_kind_named, conflict_kind_round_trips, decode_conflict_kind,
    encode_conflict_kind,
};
use crate::text::{chars_of, same};

verus! {

// --- Scalars ---------------------------------------------------------------------------------

/// What a text column holds where an identity is due.
pub open spec fn id_column(
    text: Seq<char>,
    table: &'static str,
    column: &'static str,
) -> Result<Id, StoreError> {
    match id_named(text) {
        Some(id) => Ok(id),
        None => Err(corrupt(table, column, CorruptReason::MalformedIdentity)),
    }
}

/// Rehydrates an opaque identity from a column: its canonical text, or a corrupt row.
pub fn parse_id(text: &str, table: &'static str, column: &'static str) -> (r: Result<Id, StoreError>)
    ensures
        r == id_column(text@, table, column),
{
    match id_of_text(text) {
        Some(id) => Ok(id),
        None => Err(corrupt_row(table, column, CorruptReason::MalformedIdentity)),
    }
}

/// The text of an optional column.
pub open spec fn text_view(text: Option<String>) -> Option<Seq<char>> {
    match text {
        Some(t) => Some(t@),
        None => None,
    }
}

/// The text of an optional column, empty where there is none.
pub open spec fn text_or_empty(text: Option<String>) -> Seq<char> {
    match text {
        Some(t) => t@,
        None => Seq::empty(),
    }
}

/// The text of an optional column, empty where there is none.
pub fn or_empty(text: &Option<String>) -> (r: &str)
    ensures
        r@ == text_or_empty(*text),
{
    match text {
        Some(t) => t.as_str(),
        None => {
            proof {
                reveal_strlit("");
                assert(""@ =~= Seq::<char>::empty());
            }
            ""
        },
    }
}

/// What a nullable text column holds where an identity is due.
pub open spec fn optional_id_column(
    text: Option<Seq<char>>,
    table: &'static str,
    column: &'static str,
) -> Result<Option<Id>, StoreError> {
    match text {
        Some(t) => match id_named(t) {
            Some(id) => Ok(Some(id)),
            None => Err(corrupt(table, column, CorruptReason::MalformedIdentity)),
        },
        None => Ok(None),
    }
}

/// Rehydrates an optional identity: nothing stays nothing.
pub fn parse_optional_id(
    text: &Option<String>,
    table: &'static str,
    column: &'static str,
) -> (r: Result<Option<Id>, StoreError>)
    ensures
        r == optional_id_column(text_view(*text), table, column),
{
    match text {
        Some(t) => match parse_id(t.as_str(), table, column) {
            Ok(id) => Ok(Some(id)),
            Err(e) => Err(e),
        },
        None => Ok(None),
    }
}

/// What a text column holds where a redaction-safe token is due, under a token rule.
pub open spec fn token_column(
    text: Seq<char>,
    table: &'static str,
    column: &'static str,
    rule: spec_fn(Seq<char>) -> bool,
) -> Result<Seq<char>, StoreError> {
    if rule(text) {
        Ok(text)
    } else {
        Err(corrupt(table, column, CorruptReason::UnsafeToken))
    }
}

/// The text of a token that was read, or the failure.
pub open spec fn token_text(r: Result<SafeToken, StoreError>) -> Result<Seq<char>, StoreError> {
    match r {
        Ok(token) => Ok(token@),
        Err(e) => Err(e),
    }
}

/// Rehydrates a redaction-safe token from a column: the text, where the rule accepts it.
pub fn parse_token<S: Fn(&str) -> bool>(
    text: &str,
    table: &'static str,
    column: &'static str,
    safe: &S,
) -> (r: Result<SafeToken, StoreError>)
    requires
        rule_total(*safe),
    ensures
        forall|rule: spec_fn(Seq<char>) -> bool| #[trigger]
            rule_is(*safe, rule) ==> token_text(r) == token_column(text@, table, column, rule),
        match r {
            Ok(token) => token@ == text@,
            Err(e) => e == corrupt(table, column, CorruptReason::UnsafeToken),
        },
{
    match SafeToken::new(text, safe) {
        Some(token) => Ok(token),
        None => Err(corrupt_row(table, column, CorruptReason::UnsafeToken)),
    }
}

/// Where the source identity triple of an `events` row is first unsafe, if anywhere.
pub open spec fn source_fault(
    namespace: Seq<char>,
    event: Seq<char>,
    fence: Seq<char>,
    rule: spec_fn(Seq<char>) -> bool,
) -> Option<StoreError> {
    if !rule(namespace) {
        Some(corrupt("events", "source_namespace", CorruptReason::UnsafeToken))
    } else if !rule(event) {
        Some(corrupt("events", "source_event_id", CorruptReason::UnsafeToken))
    } else if !rule(fence) {
        Some(corrupt("events", "source_event_fence", CorruptReason::UnsafeToken))
    } else {
        None
    }
}

/// What the source identity columns hold, under a token rule.
pub open spec fn source_columns(
    namespace: Seq<char>,
    event: Seq<char>,
    fence: Seq<char>,
    rule: spec_fn(Seq<char>) -> bool,
) -> Result<SourceView, StoreError> {
    match source_fault(namespace, event, fence, rule) {
        Some(e) => Err(e),
        None => Ok((namespace, event, fence)),
    }
}

/// A source identity that was read, on values alone, or the failure.
pub open spec fn source_view(r: Result<SourceRef, StoreError>) -> Result<SourceView, StoreError> {
    match r {
        Ok(source) => Ok(source@),
        Err(e) => Err(e),
    }
}

/// Rehydrates the source identity triple of an `events` row.
pub fn parse_source<S: Fn(&str) -> bool>(
    namespace: &str,
    event: &str,
    fence: &str,
    safe: &S,
) -> (r: Result<SourceRef, StoreError>)
    requires
        rule_total(*safe),
    ensures
        forall|rule: spec_fn(Seq<char>) -> bool| #[trigger]
            rule_is(*safe, rule) ==> source_view(r) == source_columns(namespace@, event@, fence@, rule),
        r matches Ok(source) ==> source@ == (namespace@, event@, fence@),
{
    let namespace = parse_token(namespace, "events", "source_namespace", safe)?;
    let event = parse_token(event, "events", "source_event_id", safe)?;
    let fence = parse_token(fence, "events", "source_event_fence", safe)?;
    Ok(SourceRef { namespace, event, fence })
}

/// What an integer column holds where an unsigned counter is due.
pub open spec fn u64_column(value: i64, table: &'static str, column: &'static str) -> Result<u64, StoreError> {
    if value >= 0 {
        Ok(value as u64)
    } else {
        Err(corrupt(table, column, CorruptReason::IntegerOutOfRange))
    }
}

/// What an integer column holds where a bounded counter is due.
pub open spec fn u32_column(value: i64, table: &'static str, column: &'static str) -> Result<u32, StoreError> {
    if 0 <= value <= u32::MAX {
        Ok(value as u32)
    } else {
        Err(corrupt(table, column, CorruptReason::IntegerOutOfRange))
    }
}

/// Narrows a SQLite signed integer to an unsigned counter.
pub fn parse_u64(value: i64, table: &'static str, column: &'static str) -> (r: Result<u64, StoreError>)
    ensures
        r == u64_column(value, table, column),
{
    if value >= 0 {
        Ok(value as u64)
    } else {
        Err(corrupt_row(table, column, CorruptReason::IntegerOutOfRange))
    }
}

/// Narrows a SQLite signed integer to a bounded counter.
pub fn parse_u32(value: i64, table: &'static str, column: &'static str) -> (r: Result<u32, StoreError>)
    ensures
        r == u32_column(value, table, column),
{
    if 0 <= value && value <= u32::MAX as i64 {
        Ok(value as u32)
    } else {
        Err(corrupt_row(table, column, CorruptReason::IntegerOutOfRange))
    }
}

/// Whether an unsigned counter fits a SQLite integer column.
pub open spec fn storable(value: u64) -> bool {
    value <= i64::MAX
}

/// What storing an unsigned counter gives.
pub open spec fn stored_u64(value: u64, table: &'static str, column: &'static str) -> Result<i64, StoreError> {
    if storable(value) {
        Ok(value as i64)
    } else {
        Err(corrupt(table, column, CorruptReason::IntegerOutOfRange))
    }
}

/// A stored counter reads back as itself.
pub proof fn stored_counter_reads_back(value: u64, table: &'static str, column: &'static str)
    requires
        storable(value),
    ensures
        stored_u64(value, table, column) is Ok,
        u64_column(stored_u64(value, table, column)->Ok_0, table, column) == Ok::<u64, StoreError>(value),
{
}

/// Widens an unsigned counter for storage, refusing a value SQLite cannot hold.
pub fn store_u64(value: u64, table: &'static str, column: &'static str) -> (r: Result<i64, StoreError>)
    ensures
        r == stored_u64(value, table, column),
{
    if value <= i64::MAX as u64 {
        Ok(value as i64)
    } else {
        Err(corrupt_row(table, column, CorruptReason::IntegerOutOfRange))
    }
}

/// Renders 32 bytes as the lowercase hexadecimal form used by every digest column.
pub fn hex32(bytes: &[u8; 32]) -> (r: String)
    ensures
        r@ == hex_text(bytes@),
        r@.len() == 64,
{
    hex_string(bytes.as_slice())
}

/// Whether a text is exactly 64 hexadecimal digits.
pub open spec fn is_hex64(text: Seq<char>) -> bool {
    text.len() == 64 && forall|i: int| 0 <= i < 64 ==> hex_value(#[trigger] text[i]) is Some
}

/// The byte two hexadecimal digits denote.
pub open spec fn hex_byte(text: Seq<char>, k: int) -> int {
    16 * hex_value(text[2 * k])->0 + hex_value(text[2 * k + 1])->0
}

/// What a text column holds where 32 hexadecimal bytes are due.
pub open spec fn hex32_column(text: Seq<char>, table: &'static str, column: &'static str) -> Result<
    Seq<u8>,
    StoreError,
> {
    if is_hex64(text) {
        Ok(Seq::new(32, |k: int| hex_byte(text, k) as u8))
    } else {
        Err(corrupt(table, column, CorruptReason::MalformedIdentity))
    }
}

/// Rehydrates 32 bytes from a hexadecimal digest column.
pub fn parse_hex32(text: &str, table: &'static str, column: &'static str) -> (r: Result<[u8; 32], StoreError>)
    ensures
        match r {
            Ok(bytes) => is_hex64(text@) && forall|k: int|
                0 <= k < 32 ==> #[trigger] bytes@[k] == hex_byte(text@, k),
            Err(e) => e == corrupt(table, column, CorruptReason::MalformedIdentity) && !is_hex64(text@),
        },
        match r {
            Ok(bytes) => hex32_column(text@, table, column) == Ok::<Seq<u8>, StoreError>(bytes@),
            Err(e) => hex32_column(text@, table, column) == Err::<Seq<u8>, StoreError>(e),
        },
{
    let chars = chars_of(text);
    if chars.len() != 64 {
        return Err(corrupt_row(table, column, CorruptReason::MalformedIdentity));
    }
    let mut bytes: [u8; 32] = [0u8; 32];
    let mut k: usize = 0;
    while k < 32
        invariant
            k <= 32,
            chars@ == text@,
            chars@.len() == 64,
            bytes@.len() == 32,
            forall|i: int| 0 <= i < 2 * k ==> hex_value(#[trigger] text@[i]) is Some,
            forall|i: int| 0 <= i < k ==> #[trigger] bytes@[i] == hex_byte(text@, i),
        decreases 32 - k,
    {
        let high = digit_value(chars[2 * k]);
        let low = digit_value(chars[2 * k + 1]);
        match (high, low) {
            (Some(h), Some(l)) => {
                bytes[k] = 16 * h + l;
            },
            _ => {
                return Err(corrupt_row(table, column, CorruptReason::MalformedIdentity));
            },
        }
        k = k + 1;
    }
    assert(bytes@ =~= Seq::new(32, |i: int| hex_byte(text@, i) as u8));
    Ok(bytes)
}

/// A rendered digest is 64 hexadecimal digits denoting the same 32 bytes.
pub proof fn hex32_round_trips(bytes: Seq<u8>)
    requires
        bytes.len() == 32,
    ensures
        is_hex64(hex_text(bytes)),
        forall|k: int| 0 <= k < 32 ==> bytes[k] == #[trigger] hex_byte(hex_text(bytes), k),
{
    let text = hex_text(bytes);
    assert forall|i: int| 0 <= i < 64 implies hex_value(#[trigger] text[i]) is Some by {
        hex_char_value(bytes[i / 2] as int / 16);
        hex_char_value(bytes[i / 2] as int % 16);
    }
    assert forall|k: int| 0 <= k < 32 implies bytes[k] == #[trigger] hex_byte(text, k) by {
        hex_char_value(bytes[k] as int / 16);
        hex_char_value(bytes[k] as int % 16);
        assert((2 * k) / 2 == k && (2 * k) % 2 == 0);
        assert((2 * k + 1) / 2 == k && (2 * k + 1) % 2 == 1);
    }
}

/// Distinct byte strings have distinct hexadecimal texts.
pub proof fn hex_text_injective(a: Seq<u8>, b: Seq<u8>)
    requires
        hex_text(a) == hex_text(b),
    ensures
        a == b,
{
    assert(hex_text(a).len() == 2 * a.len() && hex_text(b).len() == 2 * b.len());
    assert forall|k: int| 0 <= k < a.len() implies a[k] == b[k] by {
        assert((2 * k) / 2 == k && (2 * k) % 2 == 0);
        assert((2 * k + 1) / 2 == k && (2 * k + 1) % 2 == 1);
        assert(hex_text(a)[2 * k] == hex_char(a[k] as int / 16));
        assert(hex_text(b)[2 * k] == hex_char(b[k] as int / 16));
        assert(hex_text(a)[2 * k + 1] == hex_char(a[k] as int % 16));
        assert(hex_text(b)[2 * k + 1] == hex_char(b[k] as int % 16));
        hex_char_value(a[k] as int / 16);
        hex_char_value(a[k] as int % 16);
        hex_char_value(b[k] as int / 16);
        hex_char_value(b[k] as int % 16);
    }
    assert(a =~= b);
}

/// Rehydrates a fixed-width possession token from a blob column.
pub fn parse_token_bytes(
    blob: &Vec<u8>,
    width: usize,
    table: &'static str,
    column: &'static str,
) -> (r: Result<Vec<u8>, StoreError>)
    ensures
        match r {
            Ok(bytes) => bytes@ == blob@ && blob@.len() == width,
            Err(e) => e == corrupt(table, column, CorruptReason::MalformedIdentity) && blob@.len() != width,
        },
{
    if blob.len() != width {
        return Err(corrupt_row(table, column, CorruptReason::MalformedIdentity));
    }
    let mut out: Vec<u8> = Vec::new();
    let mut i: usize = 0;
    while i < blob.len()
        invariant
            i <= blob.len(),
            out@ == blob@.take(i as int),
        decreases blob.len() - i,
    {
        out.push(blob[i]);
        i = i + 1;
    }
    Ok(out)
}

/// Re-derives a delivery key and checks it against the persisted column.
///
/// A key means nothing except as a function of its scheduling tuple, so the stored text is never
/// turned into one: the derived key must have it.
pub fn rederive_delivery_key(stored_hex: &str, derived_hex: &str) -> (r: Result<String, StoreError>)
    ensures
        match r {
            Ok(key) => stored_hex@ == derived_hex@ && key@ == derived_hex@,
            Err(e) => e == corrupt("browser_deliveries", "delivery_key", CorruptReason::MalformedIdentity)
                && stored_hex@ != derived_hex@,
        },
{
    if same(derived_hex, stored_hex) {
        Ok(derived_hex.to_owned())
    } else {
        Err(corrupt_row("browser_deliveries", "delivery_key", CorruptReason::MalformedIdentity))
    }
}

// --- Mutation results ------------------------------------------------------------------------

/// The result columns of the mutation journal, as a group.
#[derive(Debug, PartialEq, Eq)]
pub struct StoredMutationResult {
    pub kind: &'static str,
    pub reference: Option<String>,
    pub conflict: Option<&'static str>,
}

/// The three columns a mutation result occupies.
pub open spec fn mutation_result_columns(result: MutationResultView) -> (
    Seq<char>,
    Option<Seq<char>>,
    Option<Seq<char>>,
) {
    match result {
        MutationResultView::Applied { reference } => ("applied"@, reference, None),
        MutationResultView::AlreadySatisfied => ("already_satisfied"@, None, None),
        MutationResultView::Refused { conflict } => (
            "refused"@,
            None,
            Some(conflict_kind_label(conflict)@),
        ),
    }
}

/// The text of an optional label.
pub open spec fn label_view(label: Option<&'static str>) -> Option<Seq<char>> {
    match label {
        Some(l) => Some(l@),
        None => None,
    }
}

/// Encodes a bounded mutation result into its three columns.
pub fn encode_mutation_result(result: &SafeMutationResult) -> (r: StoredMutationResult)
    ensures
        (r.kind@, text_view(r.reference), label_view(r.conflict)) == mutation_result_columns(result@),
{
    match result {
        SafeMutationResult::Applied { reference } => StoredMutationResult {
            kind: "applied",
            reference: match reference {
                Some(token) => Some(token.text.clone()),
                None => None,
            },
            conflict: None,
        },
        SafeMutationResult::AlreadySatisfied => StoredMutationResult {
            kind: "already_satisfied",
            reference: None,
            conflict: None,
        },
        SafeMutationResult::Refused { conflict } => StoredMutationResult {
            kind: "refused",
            reference: None,
            conflict: Some(encode_conflict_kind(*conflict)),
        },
    }
}

/// Why the three result columns do not form a result, under a token rule; `None` when they do.
pub open spec fn mutation_result_fault(
    kind: Seq<char>,
    reference: Option<Seq<char>>,
    conflict: Option<Seq<char>>,
    rule: spec_fn(Seq<char>) -> bool,
) -> Option<StoreError> {
    if kind == "applied"@ && conflict is None {
        if reference is Some && !rule(reference->0) {
            Some(corrupt("mutation_commands", "safe_result_ref", CorruptReason::UnsafeToken))
        } else {
            None
        }
    } else if kind == "already_satisfied"@ && reference is None && conflict is None {
        None
    } else if kind == "refused"@ && reference is None && conflict is Some {
        if conflict_kind_named(conflict->0) is Some {
            None
        } else {
            Some(corrupt("mutation_commands", "safe_result_conflict", CorruptReason::UnknownLabel))
        }
    } else {
        Some(corrupt("mutation_commands", "safe_result_kind", CorruptReason::UnknownLabel))
    }
}

/// The result three columns form under a token rule, or why they do not.
pub open spec fn mutation_result_of(
    kind: Seq<char>,
    reference: Option<Seq<char>>,
    conflict: Option<Seq<char>>,
    rule: spec_fn(Seq<char>) -> bool,
) -> Result<MutationResultView, StoreError> {
    match mutation_result_fault(kind, reference, conflict, rule) {
        Some(e) => Err(e),
        None => Ok(
            if kind == "applied"@ {
                MutationResultView::Applied { reference }
            } else if kind == "already_satisfied"@ {
                MutationResultView::AlreadySatisfied
            } else {
                MutationResultView::Refused { conflict: conflict_kind_named(conflict->0)->0 }
            },
        ),
    }
}

/// A result that was read, on values alone, or the failure.
pub open spec fn mutation_result_view(r: Result<SafeMutationResult, StoreError>) -> Result<
    MutationResultView,
    StoreError,
> {
    match r {
        Ok(result) => Ok(result@),
        Err(e) => Err(e),
    }
}

/// Rehydrates a bounded mutation result from its three columns.
pub fn decode_mutation_result<S: Fn(&str) -> bool>(
    kind: &str,
    reference: &Option<String>,
    conflict: &Option<String>,
    safe: &S,
) -> (r: Result<SafeMutationResult, StoreError>)
    requires
        rule_total(*safe),
    ensures
        forall|rule: spec_fn(Seq<char>) -> bool| #[trigger]
            rule_is(*safe, rule) ==> mutation_result_view(r) == mutation_result_of(
                kind@,
                text_view(*reference),
                text_view(*conflict),
                rule,
            ),
{
    proof {
        reveal_strlit("applied");
        reveal_strlit("already_satisfied");
        reveal_strlit("refused");
        assert("applied"@.len() == 7);
        assert("already_satisfied"@.len() == 17);
        assert("refused"@.len() == 7);
        assert("applied"@[0] != "refused"@[0]);
    }
    if same(kind, "applied") && conflict.is_none() {
        match reference {
            Some(text) => match parse_token(text.as_str(), "mutation_commands", "safe_result_ref", safe) {
                Ok(token) => Ok(SafeMutationResult::Applied { reference: Some(token) }),
                Err(e) => Err(e),
            },
            None => Ok(SafeMutationResult::Applied { reference: None }),
        }
    } else if same(kind, "already_satisfied") && reference.is_none() && conflict.is_none() {
        Ok(SafeMutationResult::AlreadySatisfied)
    } else if same(kind, "refused") && reference.is_none() {
        match conflict {
            Some(code) => match decode_conflict_kind(code.as_str(), "mutation_commands") {
                Ok(found) => Ok(SafeMutationResult::Refused { conflict: found }),
                Err(e) => Err(e),
            },
            None => Err(corrupt_row("mutation_commands", "safe_result_kind", CorruptReason::UnknownLabel)),
        }
    } else {
        Err(corrupt_row("mutation_commands", "safe_result_kind", CorruptReason::UnknownLabel))
    }
}

/// The columns written for a result read back as that result, under any token rule that accepts it.
pub proof fn mutation_result_round_trips(result: MutationResultView, rule: spec_fn(Seq<char>) -> bool)
    requires
        result matches MutationResultView::Applied { reference: Some(text) } ==> rule(text),
    ensures
        ({
            let columns = mutation_result_columns(result);
            mutation_result_of(columns.0, columns.1, columns.2, rule) == Ok::<
                MutationResultView,
                StoreError,
            >(result)
        }),
{
    reveal_strlit("applied");
    reveal_strlit("already_satisfied");
    reveal_strlit("refused");
    assert("applied"@.len() == 7);
    assert("already_satisfied"@.len() == 17);
    assert("refused"@.len() == 7);
    assert("applied"@[0] != "refused"@[0]);
    if let MutationResultView::Refused { conflict } = result {
        conflict_kind_round_trips(conflict);
    }
}

// --- Effect classes --------------------------------------------------------------------------

/// The effect-class columns of an external attempt, as a group.
#[derive(Debug, PartialEq, Eq)]
pub struct StoredEffectClass {
    pub class: &'static str,
    pub contract: Option<&'static str>,
    pub window_ms: Option<i64>,
    pub key: Option<String>,
}

/// The four columns an effect class occupies.
pub open spec fn effect_class_columns(class: EffectClassView) -> (
    Seq<char>,
    Option<Seq<char>>,
    Option<int>,
    Option<Seq<char>>,
) {
    match class {
        EffectClassView::Read => ("read"@, None, None, None),
        EffectClassView::NonIdempotentWrite => ("non_idempotent_write"@, None, None, None),
        EffectClassView::IdempotentWrite { contract, key } => match contract {
            IdempotencyContract::DeduplicatedByKey { window } => (
                "idempotent_write"@,
                Some("deduplicated_by_key"@),
                Some(window as int),
                Some(key),
            ),
            IdempotencyContract::ConditionalOnDestinationFence => (
                "idempotent_write"@,
                Some("conditional_on_destination_fence"@),
                None,
                Some(key),
            ),
        },
    }
}

/// The value of an optional integer column.
pub open spec fn int_view(value: Option<i64>) -> Option<int> {
    match value {
        Some(v) => Some(v as int),
        None => None,
    }
}

/// Whether a class rests on a deduplication window SQLite cannot hold.
pub open spec fn window_unstorable(class: EffectClassView) -> bool {
    class matches EffectClassView::IdempotentWrite {
        contract: IdempotencyContract::DeduplicatedByKey { window },
        ..
    } && !storable(window)
}

/// Encodes an effect class into its four columns.
pub fn encode_effect_class(class: &ExternalEffectClass) -> (r: Result<StoredEffectClass, StoreError>)
    ensures
        match r {
            Ok(stored) => !window_unstorable(class@) && (
                stored.class@,
                label_view(stored.contract),
                int_view(stored.window_ms),
                text_view(stored.key),
            ) == effect_class_columns(class@),
            Err(e) => window_unstorable(class@) && e == corrupt(
                "external_attempts",
                "idempotency_window_ms",
                CorruptReason::IntegerOutOfRange,
            ),
        },
{
    match class {
        ExternalEffectClass::Read => Ok(
            StoredEffectClass { class: "read", contract: None, window_ms: None, key: None },
        ),
        ExternalEffectClass::NonIdempotentWrite => Ok(
            StoredEffectClass { class: "non_idempotent_write", contract: None, window_ms: None, key: None },
        ),
        ExternalEffectClass::IdempotentWrite { contract, key } => match contract {
            IdempotencyContract::DeduplicatedByKey { window } => {
                let stored: i64 = match store_u64(*window, "external_attempts", "idempotency_window_ms") {
                    Ok(v) => v,
                    Err(e) => return Err(e),
                };
                Ok(
                    StoredEffectClass {
                        class: "idempotent_write",
                        contract: Some("deduplicated_by_key"),
                        window_ms: Some(stored),
                        key: Some(key.text.clone()),
                    },
                )
            },
            IdempotencyContract::ConditionalOnDestinationFence => Ok(
                StoredEffectClass {
                    class: "idempotent_write",
                    contract: Some("conditional_on_destination_fence"),
                    window_ms: None,
                    key: Some(key.text.clone()),
                },
            ),
        },
    }
}

/// Why the four effect-class columns do not form a class, under a token rule; `None` when they do.
///
/// Only a write that is deduplicated by its key has a window, and only an idempotent write has a
/// contract and a key.
pub open spec fn effect_class_fault(
    class: Seq<char>,
    contract: Option<Seq<char>>,
    window_ms: Option<int>,
    key: Option<Seq<char>>,
    rule: spec_fn(Seq<char>) -> bool,
) -> Option<StoreError> {
    if (class == "read"@ || class == "non_idempotent_write"@) && contract is None && key is None
        && window_ms is None {
        None
    } else if class == "idempotent_write"@ && contract is Some && key is Some {
        if contract == Some("deduplicated_by_key"@) && window_ms is Some {
            if window_ms->0 < 0 {
                Some(corrupt("external_attempts", "idempotency_window_ms", CorruptReason::IntegerOutOfRange))
            } else if !rule(key->0) {
                Some(corrupt("external_attempts", "idempotency_key", CorruptReason::UnsafeToken))
            } else {
                None
            }
        } else if contract == Some("conditional_on_destination_fence"@) && window_ms is None {
            if !rule(key->0) {
                Some(corrupt("external_attempts", "idempotency_key", CorruptReason::UnsafeToken))
            } else {
                None
            }
        } else {
            Some(corrupt("external_attempts", "idempotency_contract", CorruptReason::UnknownLabel))
        }
    } else {
        Some(corrupt("external_attempts", "effect_class", CorruptReason::UnknownLabel))
    }
}

/// The class four columns spell under a token rule, or why they do not.
pub open spec fn effect_class_of(
    class: Seq<char>,
    contract: Option<Seq<char>>,
    window_ms: Option<int>,
    key: Option<Seq<char>>,
    rule: spec_fn(Seq<char>) -> bool,
) -> Result<EffectClassView, StoreError> {
    match effect_class_fault(class, contract, window_ms, key, rule) {
        Some(e) => Err(e),
        None => Ok(
            if class == "read"@ {
                EffectClassView::Read
            } else if class == "non_idempotent_write"@ {
                EffectClassView::NonIdempotentWrite
            } else {
                EffectClassView::IdempotentWrite {
                    contract: match window_ms {
                        Some(window) => IdempotencyContract::DeduplicatedByKey {
                            window: window as u64,
                        },
                        None => IdempotencyContract::ConditionalOnDestinationFence,
                    },
                    key: key->0,
                }
            },
        ),
    }
}

/// A class that was read, on values alone, or the failure.
pub open spec fn effect_class_view(r: Result<ExternalEffectClass, StoreError>) -> Result<
    EffectClassView,
    StoreError,
> {
    match r {
        Ok(class) => Ok(class@),
        Err(e) => Err(e),
    }
}

/// Rehydrates an effect class from its four columns.
pub fn decode_effect_class<S: Fn(&str) -> bool>(
    class: &str,
    contract: &Option<String>,
    window_ms: Option<i64>,
    key: &Option<String>,
    safe: &S,
) -> (r: Result<ExternalEffectClass, StoreError>)
    requires
        rule_total(*safe),
    ensures
        forall|rule: spec_fn(Seq<char>) -> bool| #[trigger]
            rule_is(*safe, rule) ==> effect_class_view(r) == effect_class_of(
                class@,
                text_view(*contract),
                int_view(window_ms),
                text_view(*key),
                rule,
            ),
{
    proof {
        effect_class_labels_distinct();
    }
    match (contract, key) {
        (None, None) => {
            if window_ms.is_some() {
                Err(corrupt_row("external_attempts", "effect_class", CorruptReason::UnknownLabel))
            } else if same(class, "read") {
                Ok(ExternalEffectClass::Read)
            } else if same(class, "non_idempotent_write") {
                Ok(ExternalEffectClass::NonIdempotentWrite)
            } else {
                Err(corrupt_row("external_attempts", "effect_class", CorruptReason::UnknownLabel))
            }
        },
        (Some(mechanism), Some(key)) => {
            if !same(class, "idempotent_write") {
                return Err(corrupt_row("external_attempts", "effect_class", CorruptReason::UnknownLabel));
            }
            let contract = match window_ms {
                Some(window) => {
                    if !same(mechanism.as_str(), "deduplicated_by_key") {
                        return Err(
                            corrupt_row("external_attempts", "idempotency_contract", CorruptReason::UnknownLabel),
                        );
                    }
                    match parse_u64(window, "external_attempts", "idempotency_window_ms") {
                        Ok(window) => IdempotencyContract::DeduplicatedByKey { window },
                        Err(e) => return Err(e),
                    }
                },
                None => {
                    if !same(mechanism.as_str(), "conditional_on_destination_fence") {
                        return Err(
                            corrupt_row("external_attempts", "idempotency_contract", CorruptReason::UnknownLabel),
                        );
                    }
                    IdempotencyContract::ConditionalOnDestinationFence
                },
            };
            match parse_token(key.as_str(), "external_attempts", "idempotency_key", safe) {
                Ok(key) => Ok(ExternalEffectClass::IdempotentWrite { contract, key }),
                Err(e) => Err(e),
            }
        },
        _ => Err(corrupt_row("external_attempts", "effect_class", CorruptReason::UnknownLabel)),
    }
}

proof fn effect_class_labels_distinct()
    ensures
        "read"@ != "idempotent_write"@,
        "non_idempotent_write"@ != "idempotent_write"@,
        "read"@ != "non_idempotent_write"@,
        "deduplicated_by_key"@ != "conditional_on_destination_fence"@,
{
    reveal_strlit("read");
    reveal_strlit("non_idempotent_write");
    reveal_strlit("idempotent_write");
    reveal_strlit("deduplicated_by_key");
    reveal_strlit("conditional_on_destination_fence");
    assert("read"@.len() == 4);
    assert("non_idempotent_write"@.len() == 20);
    assert("idempotent_write"@.len() == 16);
    assert("deduplicated_by_key"@.len() == 19);
    assert("conditional_on_destination_fence"@.len() == 32);
}

/// The columns written for an effect class read back as that class, under any token rule that
/// accepts its key.
pub proof fn effect_class_round_trips(class: EffectClassView, rule: spec_fn(Seq<char>) -> bool)
    requires
        class matches EffectClassView::IdempotentWrite { key, .. } ==> rule(key),
    ensures
        ({
            let c = effect_class_columns(class);
            effect_class_of(c.0, c.1, c.2, c.3, rule) == Ok::<EffectClassView, StoreError>(class)
        }),
{
    effect_class_labels_distinct();
}

} // verus!
