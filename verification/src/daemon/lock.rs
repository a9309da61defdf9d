//! The single-daemon instance lock over a state root: its record, and who may take it.
//!
//! The kernel's lock on the file is the authority; the record in the file is corroboration. Nothing
//! is reclaimed on age, and the file is never unlinked.
use vstd::prelude::*;
use vstd::string::StringExecFns;
use crate::daemon::error::{DaemonError, LockDefect, ReclaimedLock};
use crate::daemon::incarnation::START_UNAVAILABLE;
use crate::domain::fence::{rule_is, rule_total, SafeToken};
use crate::domain::lease::{mismatch_of, IncarnationView, ProcessIncarnation};
use crate::text::{
    a_word_is_read, a_written_number_reads_back, char_lists, chars_of, find_char, is_digit,
    is_white, is_word, nat_text, nat_text_denotes, parse_u32_chars, part, push_nat, same, spells,
    split_words, text_of, u32_named, until, until_is, words,
};

verus! {

/// Marker on the first field of a lock record.
pub const RECORD_MAGIC: &'static str = "cglock1";

/// Placeholder written when the platform derives no start identity.
pub const NO_START: &'static str = "-";

/// Longest lock record that is read. More than that is not a lock record.
pub const MAX_RECORD_BYTES: u64 = 512;

/// Whether the last holder gave the lock up on purpose.
#[derive(Debug, Clone, Copy, PartialEq, Eq, Structural)]
pub enum HolderState {
    /// The holder was running when it wrote the record.
    Held,
    /// The holder released the lock as part of a clean shutdown.
    Released,
}

impl HolderState {
    /// The word of a state in a record.
    pub open spec fn word(self) -> &'static str {
        match self {
            HolderState::Held => "held",
            HolderState::Released => "released",
        }
    }

    /// The word of a state in a record.
    pub fn code(self) -> (r: &'static str)
        ensures
            r == self.word(),
    {
        match self {
            HolderState::Held => "held",
            HolderState::Released => "released",
        }
    }

    /// The state a word names, if it names one.
    pub open spec fn named(text: Seq<char>) -> Option<HolderState> {
        if text == "held"@ {
            Some(HolderState::Held)
        } else if text == "released"@ {
            Some(HolderState::Released)
        } else {
            None
        }
    }

    /// Parses the word of a state.
    pub fn parse(text: &Vec<char>) -> (r: Option<HolderState>)
        ensures
            r == HolderState::named(text@),
    {
        if spells(text, "held") {
            Some(HolderState::Held)
        } else if spells(text, "released") {
            Some(HolderState::Released)
        } else {
            None
        }
    }
}

/// What a lock file says about its last holder.
#[derive(Debug, PartialEq, Eq)]
pub struct LockRecord {
    pub slot: u32,
    pub start: Option<SafeToken>,
    pub state: HolderState,
}

/// A lock record on values alone.
#[verifier::ext_equal]
pub struct RecordView {
    pub slot: u32,
    pub start: Option<Seq<char>>,
    pub state: HolderState,
}

/// The text of an optional token.
pub open spec fn start_view(start: Option<SafeToken>) -> Option<Seq<char>> {
    match start {
        Some(token) => Some(token@),
        None => None,
    }
}

impl View for LockRecord {
    type V = RecordView;

    open spec fn view(&self) -> RecordView {
        RecordView { slot: self.slot, start: start_view(self.start), state: self.state }
    }
}

impl RecordView {
    /// The process instance a record names; nothing where it names no start.
    pub open spec fn instance(self) -> Option<IncarnationView> {
        match self.start {
            Some(start) => Some((self.slot, start)),
            None => None,
        }
    }
}

impl LockRecord {
    /// The process instance a record names; nothing where it names no start.
    pub fn incarnation(&self) -> (r: Option<ProcessIncarnation>)
        ensures
            match r {
                Some(found) => self@.instance() == Some(found@),
                None => self@.instance() is None,
            },
    {
        match &self.start {
            Some(start) => Some(ProcessIncarnation::new(self.slot, start.clone())),
            None => None,
        }
    }
}

// --- Writing ---------------------------------------------------------------------------------------------

/// The start a record writes: the placeholder where the platform derives none.
pub open spec fn written_start(start: Seq<char>) -> Seq<char> {
    if start == START_UNAVAILABLE@ {
        NO_START@
    } else {
        start
    }
}

/// The line of a record.
pub open spec fn record_text(holder: IncarnationView, state: HolderState) -> Seq<char> {
    RECORD_MAGIC@ + " slot="@ + nat_text(holder.0 as nat) + " start="@ + written_start(holder.1)
        + " state="@ + state.word()@ + "\n"@
}

/// Renders the line of a record.
pub fn record_line(holder: &ProcessIncarnation, state: HolderState) -> (r: String)
    ensures
        r@ == record_text(holder@, state),
{
    let mut out = RECORD_MAGIC.to_owned();
    out.append(" slot=");
    push_nat(&mut out, holder.slot as u64);
    out.append(" start=");
    if same(holder.start.as_str(), START_UNAVAILABLE) {
        out.append(NO_START);
    } else {
        out.append(holder.start.as_str());
    }
    out.append(" state=");
    out.append(state.code());
    out.append("\n");
    out
}

// --- Reading ---------------------------------------------------------------------------------------------

/// A record being read.
#[verifier::ext_equal]
pub struct PartialView {
    pub slot: Option<u32>,
    pub start: Option<Seq<char>>,
    pub state: Option<HolderState>,
}

/// A record after one more field; nothing where the field is not one of a record. A later field
/// stands for an earlier one.
pub open spec fn field_read(
    partial: PartialView,
    field: Seq<char>,
    rule: spec_fn(Seq<char>) -> bool,
) -> Option<PartialView> {
    let key = until(field, '=');
    let value = field.skip(key.len() as int + 1);
    if key.len() == field.len() {
        None
    } else if key == "slot"@ {
        Some(PartialView { slot: u32_named(value), ..partial })
    } else if key == "start"@ {
        if value == NO_START@ {
            Some(PartialView { start: None, ..partial })
        } else if rule(value) {
            Some(PartialView { start: Some(value), ..partial })
        } else {
            None
        }
    } else if key == "state"@ {
        Some(PartialView { state: HolderState::named(value), ..partial })
    } else {
        None
    }
}

/// A record after all of its fields.
pub open spec fn fields_read(fields: Seq<Seq<char>>, rule: spec_fn(Seq<char>) -> bool) -> Option<PartialView>
    decreases fields.len(),
{
    if fields.len() == 0 {
        Some(PartialView { slot: None, start: None, state: None })
    } else {
        match fields_read(fields.drop_last(), rule) {
            None => None,
            Some(partial) => field_read(partial, fields.last(), rule),
        }
    }
}

/// The record a text holds: its first line, the marker first, then known fields, a number and a state
/// among them.
pub open spec fn record_in(text: Seq<char>, rule: spec_fn(Seq<char>) -> bool) -> Option<RecordView> {
    let fields = words(until(text, '\n'));
    if fields.len() == 0 || fields[0] != RECORD_MAGIC@ {
        None
    } else {
        match fields_read(fields.skip(1), rule) {
            None => None,
            Some(partial) => match (partial.slot, partial.state) {
                (Some(slot), Some(state)) => Some(RecordView { slot, start: partial.start, state }),
                _ => None,
            },
        }
    }
}

struct Partial {
    slot: Option<u32>,
    start: Option<SafeToken>,
    state: Option<HolderState>,
}

impl View for Partial {
    type V = PartialView;

    closed spec fn view(&self) -> PartialView {
        PartialView { slot: self.slot, start: start_view(self.start), state: self.state }
    }
}

fn read_field<S: Fn(&str) -> bool>(partial: Partial, field: &Vec<char>, safe: &S) -> (r: Option<Partial>)
    requires
        rule_total(*safe),
    ensures
        forall|rule: spec_fn(Seq<char>) -> bool| #[trigger]
            rule_is(*safe, rule) ==> (match r {
                Some(next) => field_read(partial@, field@, rule) == Some(next@),
                None => field_read(partial@, field@, rule) is None,
            }),
{
    let at = find_char(field, 0, '=');
    assert(field@.skip(0) =~= field@);
    assert(until(field@, '=') == field@.subrange(0, at as int));
    if at == field.len() {
        return None;
    }
    let key = part(field, 0, at);
    let value = part(field, at + 1, field.len());
    assert(value@ =~= field@.skip(key@.len() as int + 1));
    if spells(&key, "slot") {
        Some(Partial { slot: parse_u32_chars(&value), start: partial.start, state: partial.state })
    } else if spells(&key, "start") {
        if spells(&value, NO_START) {
            Some(Partial { slot: partial.slot, start: None, state: partial.state })
        } else {
            let text = text_of(value.as_slice());
            match SafeToken::new(text.as_str(), safe) {
                Some(token) => Some(
                    Partial { slot: partial.slot, start: Some(token), state: partial.state },
                ),
                None => None,
            }
        }
    } else if spells(&key, "state") {
        Some(
            Partial { slot: partial.slot, start: partial.start, state: HolderState::parse(&value) },
        )
    } else {
        None
    }
}

proof fn a_bad_field_ends_the_record(fields: Seq<Seq<char>>, rule: spec_fn(Seq<char>) -> bool, n: int)
    requires
        0 <= n <= fields.len(),
        fields_read(fields.take(n), rule) is None,
    ensures
        fields_read(fields, rule) is None,
    decreases fields.len() - n,
{
    if n < fields.len() {
        assert(fields.take(n + 1).drop_last() =~= fields.take(n));
        a_bad_field_ends_the_record(fields, rule, n + 1);
    } else {
        assert(fields.take(n) =~= fields);
    }
}

/// Parses a lock record.
pub fn parse_record<S: Fn(&str) -> bool>(text: &str, safe: &S) -> (r: Option<LockRecord>)
    requires
        rule_total(*safe),
    ensures
        forall|rule: spec_fn(Seq<char>) -> bool| #[trigger]
            rule_is(*safe, rule) ==> (match r {
                Some(record) => record_in(text@, rule) == Some(record@),
                None => record_in(text@, rule) is None,
            }),
{
    let chars = chars_of(text);
    let end = find_char(&chars, 0, '\n');
    assert(chars@.skip(0) =~= text@);
    let line = part(&chars, 0, end);
    let fields = split_words(&line);
    let ghost all = words(until(text@, '\n'));
    assert(char_lists(fields@) == all);
    if fields.len() == 0 {
        return None;
    }
    assert(all[0] == fields@[0]@);
    if !spells(&fields[0], RECORD_MAGIC) {
        return None;
    }
    let ghost rest = all.skip(1);
    let mut partial = Partial { slot: None, start: None, state: None };
    let mut i: usize = 1;
    assert(rest.take(0) =~= Seq::<Seq<char>>::empty());
    while i < fields.len()
        invariant
            rule_total(*safe),
            1 <= i <= fields@.len(),
            char_lists(fields@) == all,
            all == words(until(text@, '\n')),
            all.len() > 0,
            all[0] == RECORD_MAGIC@,
            rest == all.skip(1),
            forall|rule: spec_fn(Seq<char>) -> bool| #[trigger]
                rule_is(*safe, rule) ==> fields_read(rest.take(i - 1), rule) == Some(partial@),
        decreases fields@.len() - i,
    {
        let ghost before = partial@;
        proof {
            assert(rest[i - 1] == fields@[i as int]@);
            assert(rest.take(i as int).drop_last() =~= rest.take(i - 1));
            assert(rest.take(i as int).last() == rest[i - 1]);
        }
        match read_field(partial, &fields[i], safe) {
            Some(next) => {
                partial = next;
            },
            None => {
                proof {
                    assert forall|rule: spec_fn(Seq<char>) -> bool| #[trigger] rule_is(*safe, rule) implies record_in(
                        text@,
                        rule,
                    ) is None by {
                        assert(fields_read(rest.take(i as int), rule) is None);
                        a_bad_field_ends_the_record(rest, rule, i as int);
                    }
                }
                return None;
            },
        }
        i = i + 1;
    }
    assert(rest.take(i - 1) =~= rest);
    match (partial.slot, partial.state) {
        (Some(slot), Some(state)) => Some(LockRecord { slot, start: partial.start, state }),
        _ => None,
    }
}

/// What a lock file of so many bytes says: nothing where it is empty, which is a file that was just
/// created; and a defect, not nothing, where it holds what is no record, or more than a record.
pub open spec fn record_read(text: Seq<char>, bytes: u64, rule: spec_fn(Seq<char>) -> bool) -> Result<
    Option<RecordView>,
    LockDefect,
> {
    if bytes > MAX_RECORD_BYTES {
        Err(LockDefect::Unreadable)
    } else if text.len() == 0 {
        Ok(None)
    } else {
        match record_in(text, rule) {
            Some(record) => Ok(Some(record)),
            None => Err(LockDefect::Unreadable),
        }
    }
}

/// What a read of a lock file gave, on values alone.
pub open spec fn read_view(r: Result<Option<LockRecord>, LockDefect>) -> Result<
    Option<RecordView>,
    LockDefect,
> {
    match r {
        Ok(Some(record)) => Ok(Some(record@)),
        Ok(None) => Ok(None),
        Err(defect) => Err(defect),
    }
}

/// Reads the record of a lock file from its text and how many bytes it was read from.
pub fn read_record<S: Fn(&str) -> bool>(text: &str, bytes: u64, safe: &S) -> (r: Result<
    Option<LockRecord>,
    LockDefect,
>)
    requires
        rule_total(*safe),
    ensures
        forall|rule: spec_fn(Seq<char>) -> bool| #[trigger]
            rule_is(*safe, rule) ==> read_view(r) == record_read(text@, bytes, rule),
{
    if bytes > MAX_RECORD_BYTES {
        return Err(LockDefect::Unreadable);
    }
    if chars_of(text).len() == 0 {
        return Ok(None);
    }
    match parse_record(text, safe) {
        Some(record) => Ok(Some(record)),
        None => Err(LockDefect::Unreadable),
    }
}

// --- Election --------------------------------------------------------------------------------------------

/// Whether the previous record permits taking over, the kernel having said that nobody holds the
/// lock: the recorded holder must be provably gone. `live` is what runs under the recorded number
/// now.
pub open spec fn reclaimed_of(
    previous: Option<RecordView>,
    live: Option<IncarnationView>,
    holder: IncarnationView,
) -> Result<Option<ReclaimedLock>, DaemonError> {
    match previous {
        None => Ok(None),
        Some(record) => if record.state == HolderState::Released {
            Ok(Some(ReclaimedLock { slot: record.slot, mismatch: None }))
        } else {
            match (record.instance(), live) {
                (Some(recorded), Some(running)) => if recorded == running && running != holder {
                    Err(DaemonError::LockHolderStillAlive { slot: record.slot })
                } else {
                    Ok(
                        Some(
                            ReclaimedLock {
                                slot: record.slot,
                                mismatch: mismatch_of(recorded, running),
                            },
                        ),
                    )
                },
                _ => Ok(Some(ReclaimedLock { slot: record.slot, mismatch: None })),
            }
        },
    }
}

/// An optional process instance on values alone.
pub open spec fn instance_view(instance: Option<ProcessIncarnation>) -> Option<IncarnationView> {
    match instance {
        Some(found) => Some(found@),
        None => None,
    }
}

/// An optional record on values alone.
pub open spec fn optional_record(record: Option<LockRecord>) -> Option<RecordView> {
    match record {
        Some(found) => Some(found@),
        None => None,
    }
}

/// Decides whether the previous record permits taking over.
pub fn reclaim_decision(
    previous: &Option<LockRecord>,
    live: &Option<ProcessIncarnation>,
    holder: &ProcessIncarnation,
) -> (r: Result<Option<ReclaimedLock>, DaemonError>)
    ensures
        r == reclaimed_of(optional_record(*previous), instance_view(*live), holder@),
{
    let record = match previous {
        None => return Ok(None),
        Some(record) => record,
    };
    if record.state == HolderState::Released {
        return Ok(Some(ReclaimedLock { slot: record.slot, mismatch: None }));
    }
    let mismatch = match (record.incarnation(), live) {
        (Some(recorded), Some(running)) => {
            if recorded.same_as(running) && !running.same_as(holder) {
                return Err(DaemonError::LockHolderStillAlive { slot: record.slot });
            }
            recorded.classify(running)
        },
        _ => None,
    };
    Ok(Some(ReclaimedLock { slot: record.slot, mismatch }))
}

/// The state root's single-daemon authority, as its holder knows it.
#[derive(Debug, PartialEq, Eq)]
pub struct InstanceLock {
    path: String,
    holder: ProcessIncarnation,
    reclaimed: Option<ReclaimedLock>,
}

/// Who is elected: what was reclaimed, or the refusal.
pub open spec fn elected(
    previous: Result<Option<RecordView>, LockDefect>,
    locked: bool,
    live: Option<IncarnationView>,
    holder: IncarnationView,
) -> Result<Option<ReclaimedLock>, DaemonError> {
    match previous {
        Err(reason) => Err(DaemonError::Lock { reason }),
        Ok(record) => if !locked {
            Err(
                DaemonError::AuthorityHeld {
                    slot: match record {
                        Some(found) => found.slot,
                        None => 0,
                    },
                },
            )
        } else {
            reclaimed_of(record, live, holder)
        },
    }
}

impl InstanceLock {
    /// Path, holder and what was reclaimed.
    pub closed spec fn parts(self) -> (Seq<char>, IncarnationView, Option<ReclaimedLock>) {
        (self.path@, self.holder@, self.reclaimed)
    }

    /// Elects this process as the state root's authority, or refuses. `previous` is the record as it
    /// was before the lock was tried, `locked` whether the kernel gave the lock, and `live` what runs
    /// under the recorded number.
    pub fn acquire(
        path: &str,
        holder: ProcessIncarnation,
        previous: &Result<Option<LockRecord>, LockDefect>,
        locked: bool,
        live: &Option<ProcessIncarnation>,
    ) -> (r: Result<InstanceLock, DaemonError>)
        ensures
            match r {
                Ok(lock) => elected(read_view(*previous), locked, instance_view(*live), holder@) == Ok::<
                    Option<ReclaimedLock>,
                    DaemonError,
                >(lock.parts().2) && lock.parts().0 == path@ && lock.parts().1 == holder@,
                Err(e) => elected(read_view(*previous), locked, instance_view(*live), holder@) == Err::<
                    Option<ReclaimedLock>,
                    DaemonError,
                >(e),
            },
    {
        let record = match previous {
            Err(reason) => return Err(DaemonError::Lock { reason: *reason }),
            Ok(record) => record,
        };
        if !locked {
            let slot: u32 = match record {
                Some(found) => found.slot,
                None => 0,
            };
            return Err(DaemonError::AuthorityHeld { slot });
        }
        let reclaimed = reclaim_decision(record, live, &holder)?;
        Ok(InstanceLock { path: path.to_owned(), holder, reclaimed })
    }

    /// The instance recorded in the lock.
    pub fn holder(&self) -> (r: &ProcessIncarnation)
        ensures
            r@ == self.parts().1,
    {
        &self.holder
    }

    /// Where the lock file lives.
    pub fn path(&self) -> (r: &str)
        ensures
            r@ == self.parts().0,
    {
        self.path.as_str()
    }

    /// The previous holder, when this acquisition reclaimed a stale lock.
    pub fn reclaimed(&self) -> (r: Option<ReclaimedLock>)
        ensures
            r == self.parts().2,
    {
        self.reclaimed
    }

    /// The line that marks the lock released, written before it is let go. Consuming, so that the
    /// authority cannot be used after it is given up.
    pub fn release(self) -> (r: String)
        ensures
            r@ == record_text(self.parts().1, HolderState::Released),
    {
        record_line(&self.holder, HolderState::Released)
    }
}

// --- Inspection ------------------------------------------------------------------------------------------

/// What a lock file says, for a reader that holds no authority.
#[derive(Debug, Clone, Copy, PartialEq, Eq, Structural)]
#[allow(inconsistent_fields)]
pub enum LockStatus {
    /// There is no lock file: no daemon has ever run against this state root.
    Absent,
    /// A live process holds the lock.
    Held {
        /// The holder's process number, as recorded.
        slot: u32,
    },
    /// A lock file exists and nothing holds it.
    Free {
        /// The last holder's process number, when the record names one.
        slot: Option<u32>,
        /// Whether the last holder released it deliberately.
        released: bool,
    },
    /// The file exists but does not hold a record.
    Unreadable,
}

impl LockStatus {
    /// Stable code for diagnostics.
    pub open spec fn word(self) -> &'static str {
        match self {
            LockStatus::Absent => "absent",
            LockStatus::Held { .. } => "held",
            LockStatus::Free { released, .. } => if released {
                "free_after_clean_release"
            } else {
                "free_after_unclean_exit"
            },
            LockStatus::Unreadable => "unreadable",
        }
    }

    /// Stable code for diagnostics.
    pub fn code(self) -> (r: &'static str)
        ensures
            r == self.word(),
    {
        match self {
            LockStatus::Absent => "absent",
            LockStatus::Held { .. } => "held",
            LockStatus::Free { released, .. } => {
                if released {
                    "free_after_clean_release"
                } else {
                    "free_after_unclean_exit"
                }
            },
            LockStatus::Unreadable => "unreadable",
        }
    }

    /// Whether a daemon currently holds authority over the state root.
    pub fn daemon_running(self) -> (r: bool)
        ensures
            r == (self is Held),
    {
        match self {
            LockStatus::Held { .. } => true,
            _ => false,
        }
    }
}

/// What a lock file's record and a shared probe of its lock say.
pub open spec fn status_of(record: Result<Option<RecordView>, LockDefect>, free: bool) -> LockStatus {
    match record {
        Err(_) => LockStatus::Unreadable,
        Ok(found) => if free {
            LockStatus::Free {
                slot: match found {
                    Some(last) => Some(last.slot),
                    None => None,
                },
                released: match found {
                    Some(last) => last.state == HolderState::Released,
                    None => true,
                },
            }
        } else {
            LockStatus::Held {
                slot: match found {
                    Some(last) => last.slot,
                    None => 0,
                },
            }
        },
    }
}

/// What is seen of a lock: absent where there is no file at all.
pub open spec fn status_seen(
    record: Option<Result<Option<RecordView>, LockDefect>>,
    free: bool,
) -> LockStatus {
    match record {
        None => LockStatus::Absent,
        Some(found) => status_of(found, free),
    }
}

/// Reads a lock file's status without taking authority over it. `record` is what the file holds, if
/// there is a file, and `free` whether a shared lock could be had.
pub fn inspect(record: &Option<Result<Option<LockRecord>, LockDefect>>, free: bool) -> (r: LockStatus)
    ensures
        r == status_seen(
            match *record {
                None => None,
                Some(found) => Some(read_view(found)),
            },
            free,
        ),
{
    match record {
        None => LockStatus::Absent,
        Some(Err(_)) => LockStatus::Unreadable,
        Some(Ok(found)) => {
            if free {
                match found {
                    Some(last) => LockStatus::Free {
                        slot: Some(last.slot),
                        released: last.state == HolderState::Released,
                    },
                    None => LockStatus::Free { slot: None, released: true },
                }
            } else {
                match found {
                    Some(last) => LockStatus::Held { slot: last.slot },
                    None => LockStatus::Held { slot: 0 },
                }
            }
        },
    }
}

// --- Laws ------------------------------------------------------------------------------------------------

proof fn a_keyed_field_reads(key: Seq<char>, value: Seq<char>)
    requires
        forall|i: int| 0 <= i < key.len() ==> #[trigger] key[i] != '=',
    ensures
        until(key + seq!['='] + value, '=') == key,
        (key + seq!['='] + value).skip(key.len() as int + 1) == value,
{
    let field = key + seq!['='] + value;
    assert forall|k: int| 0 <= k < key.len() implies #[trigger] field[k] != '=' by {
        assert(field[k] == key[k]);
    }
    until_is(field, '=', key.len() as int);
    assert(field.take(key.len() as int) =~= key);
    assert(field.skip(key.len() as int + 1) =~= value);
}

proof fn four_words(a: Seq<char>, b: Seq<char>, c: Seq<char>, d: Seq<char>)
    requires
        is_word(a),
        is_word(b),
        is_word(c),
        is_word(d),
    ensures
        words(a + seq![' '] + b + seq![' '] + c + seq![' '] + d) == seq![a, b, c, d],
{
    let gap = seq![' '];
    let none = Seq::<Seq<char>>::empty();
    let nothing = Seq::<char>::empty();
    let line = a + gap + b + gap + c + gap + d;
    let after_a = gap + b + gap + c + gap + d;
    assert(line =~= a + after_a);
    a_word_is_read(none, nothing, a, after_a);
    assert(nothing + a =~= a);
    let after_b = gap + c + gap + d;
    assert(after_a.skip(1) =~= b + after_b);
    a_word_is_read(none.push(a), nothing, b, after_b);
    assert(nothing + b =~= b);
    let after_c = gap + d;
    assert(after_b.skip(1) =~= c + after_c);
    a_word_is_read(none.push(a).push(b), nothing, c, after_c);
    assert(nothing + c =~= c);
    assert(after_c.skip(1) =~= d + nothing);
    a_word_is_read(none.push(a).push(b).push(c), nothing, d, nothing);
    assert(nothing + d =~= d);
    assert(none.push(a).push(b).push(c).push(d) =~= seq![a, b, c, d]);
}

/// The fields of a record's line.
pub open spec fn record_fields(holder: IncarnationView, state: HolderState) -> Seq<Seq<char>> {
    seq![
        RECORD_MAGIC@,
        "slot"@ + seq!['='] + nat_text(holder.0 as nat),
        "start"@ + seq!['='] + written_start(holder.1),
        "state"@ + seq!['='] + state.word()@,
    ]
}

proof fn the_fields_are_words(holder: IncarnationView, state: HolderState)
    requires
        is_word(holder.1),
    ensures
        forall|i: int| 0 <= i < 4 ==> is_word(#[trigger] record_fields(holder, state)[i]),
{
    reveal_strlit("cglock1");
    reveal_strlit("slot");
    reveal_strlit("start");
    reveal_strlit("state");
    reveal_strlit("held");
    reveal_strlit("released");
    reveal_strlit("-");
    let number = nat_text(holder.0 as nat);
    let start = written_start(holder.1);
    let word = state.word()@;
    let slot_field = "slot"@ + seq!['='] + number;
    let start_field = "start"@ + seq!['='] + start;
    let state_field = "state"@ + seq!['='] + word;
    nat_text_denotes(holder.0 as nat);
    assert forall|i: int| 0 <= i < slot_field.len() implies !is_white(#[trigger] slot_field[i]) by {
        if i > 4 {
            assert(slot_field[i] == number[i - 5]);
            assert(is_digit(number[i - 5]));
        }
    }
    assert forall|i: int| 0 <= i < start_field.len() implies !is_white(#[trigger] start_field[i]) by {
        if i > 5 {
            assert(start_field[i] == start[i - 6]);
            if start == holder.1 {
                assert(!is_white(holder.1[i - 6]));
            }
        }
    }
    assert forall|i: int| 0 <= i < state_field.len() implies !is_white(#[trigger] state_field[i]) by {
        if i > 5 {
            assert(state_field[i] == word[i - 6]);
        }
    }
    assert(is_word(RECORD_MAGIC@));
}

proof fn one_line_ends_where_it_ends(a: Seq<char>, b: Seq<char>, c: Seq<char>, d: Seq<char>)
    requires
        is_word(a),
        is_word(b),
        is_word(c),
        is_word(d),
    ensures
        until(a + seq![' '] + b + seq![' '] + c + seq![' '] + d + seq!['\n'], '\n') == a + seq![' '] + b
            + seq![' '] + c + seq![' '] + d,
{
    let line = a + seq![' '] + b + seq![' '] + c + seq![' '] + d;
    let text = line + seq!['\n'];
    let n = line.len() as int;
    let p = a.len() as int;
    let q = p + 1 + b.len() as int;
    let s = q + 1 + c.len() as int;
    assert(is_white('\n'));
    assert forall|k: int| 0 <= k < n implies #[trigger] text[k] != '\n' by {
        if k < p {
            assert(text[k] == a[k]);
            assert(!is_white(a[k]));
        } else if k == p {
            assert(text[k] == ' ');
        } else if k < q {
            assert(text[k] == b[k - p - 1]);
            assert(!is_white(b[k - p - 1]));
        } else if k == q {
            assert(text[k] == ' ');
        } else if k < s {
            assert(text[k] == c[k - q - 1]);
            assert(!is_white(c[k - q - 1]));
        } else if k == s {
            assert(text[k] == ' ');
        } else {
            assert(text[k] == d[k - s - 1]);
            assert(!is_white(d[k - s - 1]));
        }
    }
    until_is(text, '\n', n);
    assert(text.take(n) =~= line);
}

proof fn the_line_is_its_fields(holder: IncarnationView, state: HolderState)
    requires
        is_word(holder.1),
    ensures
        words(until(record_text(holder, state), '\n')) == record_fields(holder, state),
{
    let fields = record_fields(holder, state);
    the_fields_are_words(holder, state);
    assert(is_word(fields[0]) && is_word(fields[1]) && is_word(fields[2]) && is_word(fields[3]));
    let line = fields[0] + seq![' '] + fields[1] + seq![' '] + fields[2] + seq![' '] + fields[3];
    assert(record_text(holder, state) =~= line + seq!['\n']) by {
        reveal_strlit(" slot=");
        reveal_strlit(" start=");
        reveal_strlit(" state=");
        reveal_strlit("slot");
        reveal_strlit("start");
        reveal_strlit("state");
        reveal_strlit("\n");
    }
    one_line_ends_where_it_ends(fields[0], fields[1], fields[2], fields[3]);
    four_words(fields[0], fields[1], fields[2], fields[3]);
    assert(seq![fields[0], fields[1], fields[2], fields[3]] =~= fields);
}

/// A written record reads back: number, start and state, the start being left out where the platform
/// derives none.
pub proof fn a_written_record_reads_back(
    holder: IncarnationView,
    state: HolderState,
    rule: spec_fn(Seq<char>) -> bool,
)
    requires
        is_word(holder.1),
        holder.1 != NO_START@,
        rule(holder.1),
    ensures
        record_in(record_text(holder, state), rule) == Some(
            RecordView {
                slot: holder.0,
                start: if holder.1 == START_UNAVAILABLE@ {
                    None
                } else {
                    Some(holder.1)
                },
                state,
            },
        ),
{
    the_line_is_its_fields(holder, state);
    let fields = record_fields(holder, state);
    let number = nat_text(holder.0 as nat);
    let start = written_start(holder.1);
    let word = state.word()@;
    let rest = fields.skip(1);
    reveal_strlit("slot");
    reveal_strlit("start");
    reveal_strlit("state");
    a_written_number_reads_back(holder.0 as nat);
    a_keyed_field_reads("slot"@, number);
    a_keyed_field_reads("start"@, start);
    a_keyed_field_reads("state"@, word);
    assert("slot"@.len() == 4 && "start"@.len() == 5 && "state"@.len() == 5);
    assert("start"@[3] == 'r' && "state"@[3] == 't');
    assert("held"@.len() == 4 && "released"@.len() == 8) by {
        reveal_strlit("held");
        reveal_strlit("released");
    }
    let one = rest.drop_last().drop_last();
    let two = rest.drop_last();
    assert(one.drop_last() =~= Seq::<Seq<char>>::empty());
    assert(one.last() == fields[1]);
    assert(two.last() == fields[2]);
    assert(rest.last() == fields[3]);
    let p0 = PartialView { slot: None, start: None, state: None };
    assert(fields_read(one.drop_last(), rule) == Some(p0));
    let p1 = PartialView { slot: Some(holder.0), ..p0 };
    assert(field_read(p0, fields[1], rule) == Some(p1));
    assert(fields_read(one, rule) == Some(p1));
    let p2 = PartialView {
        start: if start == NO_START@ {
            None
        } else {
            Some(start)
        },
        ..p1
    };
    assert(field_read(p1, fields[2], rule) == Some(p2));
    assert(fields_read(two, rule) == Some(p2));
    let p3 = PartialView { state: Some(state), ..p2 };
    assert(field_read(p2, fields[3], rule) == Some(p3));
    assert(fields_read(rest, rule) == Some(p3));
}

/// A lock the kernel did not give is never taken, whatever the file says.
pub proof fn a_held_lock_is_never_taken(
    previous: Result<Option<RecordView>, LockDefect>,
    live: Option<IncarnationView>,
    holder: IncarnationView,
)
    ensures
        elected(previous, false, live, holder) is Err,
{
}

/// A holder that still runs and did not release is never displaced by another process.
pub proof fn a_live_holder_is_never_displaced(record: RecordView, holder: IncarnationView)
    requires
        record.state == HolderState::Held,
        record.instance() is Some,
        record.instance() != Some(holder),
    ensures
        elected(Ok(Some(record)), true, record.instance(), holder) == Err::<
            Option<ReclaimedLock>,
            DaemonError,
        >(DaemonError::LockHolderStillAlive { slot: record.slot }),
{
}

/// What is no lock record is refused, and so is never overwritten.
pub proof fn an_unreadable_lock_is_never_taken(
    reason: LockDefect,
    locked: bool,
    live: Option<IncarnationView>,
    holder: IncarnationView,
)
    ensures
        elected(Err(reason), locked, live, holder) == Err::<Option<ReclaimedLock>, DaemonError>(
            DaemonError::Lock { reason },
        ),
{
}

} // verus!
