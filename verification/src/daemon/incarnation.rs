//! Deriving a process instance the OS can be asked about again: a process number, and an opaque
//! start identity that can be derived for somebody else's number.
use vstd::prelude::*;
use vstd::string::{StringExecFns, StringSliceAdditionalSpecFns};
use crate::digest::{hex_string, hex_text, sha256, sha256_of};
use crate::domain::fence::{rule_is, rule_total, SafeToken};
use crate::domain::lease::ProcessIncarnation;
use crate::text::{char_lists, chars_of, is_white, join3, part, split_words, text_of, white, words};

verus! {

/// How many bytes of the start-time digest are kept.
pub const START_HASH_BYTES: usize = 8;

/// The start identity recorded when the platform derives none.
pub const START_UNAVAILABLE: &'static str = "start-unavailable";

/// Which way a platform tells when a process started.
#[derive(Debug, Clone, Copy, PartialEq, Eq, Structural)]
pub enum Platform {
    Linux,
    Macos,
    Unknown,
}

impl Platform {
    /// The tag of a platform in a start identity.
    pub open spec fn name(self) -> &'static str {
        match self {
            Platform::Linux => "linux",
            Platform::Macos => "macos",
            Platform::Unknown => "unknown",
        }
    }

    /// The tag of a platform in a start identity.
    pub fn tag(self) -> (r: &'static str)
        ensures
            r == self.name(),
    {
        match self {
            Platform::Linux => "linux",
            Platform::Macos => "macos",
            Platform::Unknown => "unknown",
        }
    }
}

/// What follows the last of a kind of character; nothing where there is none.
pub open spec fn after_last(text: Seq<char>, mark: char) -> Option<Seq<char>>
    decreases text.len(),
{
    if text.len() == 0 {
        None
    } else if text.last() == mark {
        Some(Seq::empty())
    } else {
        match after_last(text.drop_last(), mark) {
            None => None,
            Some(rest) => Some(rest.push(text.last())),
        }
    }
}

proof fn after_last_is(text: Seq<char>, mark: char, at: int)
    requires
        0 <= at < text.len(),
        text[at] == mark,
        forall|k: int| at < k < text.len() ==> #[trigger] text[k] != mark,
    ensures
        after_last(text, mark) == Some(text.skip(at + 1)),
    decreases text.len(),
{
    if at == text.len() - 1 {
        assert(text.skip(at + 1) =~= Seq::<char>::empty());
    } else {
        after_last_is(text.drop_last(), mark, at);
        assert(text.drop_last().skip(at + 1).push(text.last()) =~= text.skip(at + 1));
    }
}

proof fn after_last_is_nothing(text: Seq<char>, mark: char)
    requires
        forall|k: int| 0 <= k < text.len() ==> #[trigger] text[k] != mark,
    ensures
        after_last(text, mark) is None,
    decreases text.len(),
{
    if text.len() > 0 {
        after_last_is_nothing(text.drop_last(), mark);
    }
}

/// The start time in a process's `stat` line: the twenty-second field. The second is the name of the
/// program in parentheses and may hold anything, so the count begins behind the last parenthesis.
pub open spec fn ticks_in(stat: Seq<char>) -> Option<Seq<char>> {
    match after_last(stat, ')') {
        None => None,
        Some(rest) => if words(rest).len() > 19 {
            Some(words(rest)[19])
        } else {
            None
        },
    }
}

/// Reads the start time out of a process's `stat` line.
pub fn linux_start_ticks(stat: &str) -> (r: Option<String>)
    ensures
        match r {
            Some(ticks) => ticks_in(stat@) == Some(ticks@),
            None => ticks_in(stat@) is None,
        },
{
    let chars = chars_of(stat);
    let mut n: usize = chars.len();
    while n > 0 && chars[n - 1] != ')'
        invariant
            n <= chars@.len(),
            chars@ == stat@,
            forall|k: int| n <= k < chars@.len() ==> #[trigger] chars@[k] != ')',
        decreases n,
    {
        n = n - 1;
    }
    if n == 0 {
        proof {
            after_last_is_nothing(stat@, ')');
        }
        return None;
    }
    proof {
        after_last_is(stat@, ')', n - 1);
    }
    let rest = part(&chars, n, chars.len());
    assert(rest@ =~= stat@.skip(n as int));
    let fields = split_words(&rest);
    assert(char_lists(fields@) == words(rest@));
    if fields.len() <= 19 {
        return None;
    }
    assert(words(rest@)[19] == fields@[19]@);
    Some(text_of(fields[19].as_slice()))
}

/// A text without the white space at its ends.
pub open spec fn trimmed(text: Seq<char>) -> Seq<char>
    decreases text.len(),
{
    if text.len() == 0 {
        text
    } else if is_white(text[0]) {
        trimmed(text.skip(1))
    } else if is_white(text.last()) {
        trimmed(text.drop_last())
    } else {
        text
    }
}

/// Cuts the white space off the ends of a text.
pub fn trim(text: &str) -> (r: String)
    ensures
        r@ == trimmed(text@),
{
    let chars = chars_of(text);
    let mut from: usize = 0;
    assert(chars@.subrange(0, chars@.len() as int) =~= chars@);
    while from < chars.len() && white(chars[from])
        invariant
            from <= chars@.len(),
            chars@ == text@,
            trimmed(text@) == trimmed(chars@.subrange(from as int, chars@.len() as int)),
        decreases chars@.len() - from,
    {
        let ghost whole = chars@.subrange(from as int, chars@.len() as int);
        assert(whole[0] == chars@[from as int]);
        assert(whole.skip(1) =~= chars@.subrange(from + 1, chars@.len() as int));
        from = from + 1;
    }
    let mut to: usize = chars.len();
    while to > from && white(chars[to - 1])
        invariant
            from <= to <= chars@.len(),
            chars@ == text@,
            from < to ==> !is_white(chars@[from as int]),
            trimmed(text@) == trimmed(chars@.subrange(from as int, to as int)),
        decreases to - from,
    {
        let ghost whole = chars@.subrange(from as int, to as int);
        assert(whole[0] == chars@[from as int]);
        assert(whole.last() == chars@[to - 1]);
        assert(whole.drop_last() =~= chars@.subrange(from as int, to - 1));
        to = to - 1;
    }
    let rest = part(&chars, from, to);
    proof {
        if from < to {
            assert(rest@[0] == chars@[from as int]);
            assert(rest@.last() == chars@[to - 1]);
        }
        assert(trimmed(rest@) == rest@);
    }
    text_of(rest.as_slice())
}

/// The start time a process listing prints; nothing where it failed or printed nothing.
pub fn bsd_start_text(succeeded: bool, output: &str) -> (r: Option<String>)
    ensures
        match r {
            Some(text) => succeeded && trimmed(output@).len() > 0 && text@ == trimmed(output@),
            None => !succeeded || trimmed(output@).len() == 0,
        },
{
    if !succeeded {
        return None;
    }
    let text = trim(output);
    if text.as_str().is_empty() {
        return None;
    }
    Some(text)
}

/// The first bytes of a start time's digest, in hexadecimal: the value is not secret and is only
/// ever compared.
pub open spec fn start_hash(raw: Seq<u8>) -> Seq<char> {
    hex_text(sha256_of(raw).take(START_HASH_BYTES as int))
}

/// Digests a start time.
pub fn digest_hex(raw: &str) -> (r: String)
    ensures
        r@ == start_hash(raw.spec_bytes()),
        r@.len() == 16,
{
    let digest = sha256(raw.as_bytes());
    assert(digest@ == sha256_of(raw.spec_bytes()));
    assert(digest@.len() == 32);
    let mut head: Vec<u8> = Vec::new();
    let mut i: usize = 0;
    while i < START_HASH_BYTES
        invariant
            i <= START_HASH_BYTES,
            digest@.len() == 32,
            head@ == digest@.take(i as int),
        decreases START_HASH_BYTES - i,
    {
        head.push(digest[i]);
        i = i + 1;
    }
    hex_string(head.as_slice())
}

/// The text of a start identity.
pub open spec fn start_text(platform: Platform, raw: Seq<u8>) -> Seq<char> {
    platform.name()@ + "."@ + start_hash(raw)
}

/// The opaque start identity of a running process, from what the platform says about it. Nothing
/// means that there is no such process, or that the platform cannot tell: the two are not told
/// apart, so that nobody reclaims on ignorance. An identity is short, whatever the platform says.
pub fn start_ref<S: Fn(&str) -> bool>(platform: Platform, raw: Option<&str>, safe: &S) -> (r: Option<
    SafeToken,
>)
    requires
        rule_total(*safe),
    ensures
        raw is None ==> r is None,
        forall|rule: spec_fn(Seq<char>) -> bool| #[trigger]
            rule_is(*safe, rule) ==> (raw matches Some(text) ==> (r is Some <==> rule(
                start_text(platform, text.spec_bytes()),
            ))),
        r matches Some(token) ==> raw is Some && token@ == start_text(
            platform,
            raw->0.spec_bytes(),
        ) && token@.len() <= 24,
{
    proof {
        reveal_strlit("linux");
        reveal_strlit("macos");
        reveal_strlit("unknown");
        reveal_strlit(".");
    }
    match raw {
        None => None,
        Some(text) => {
            let digest = digest_hex(text);
            let identity = join3(platform.tag(), ".", digest.as_str());
            SafeToken::new(identity.as_str(), safe)
        },
    }
}

/// The instance of another process, if its start identity could be derived.
pub fn for_slot(slot: u32, start: Option<SafeToken>) -> (r: Option<ProcessIncarnation>)
    ensures
        match r {
            Some(instance) => start is Some && instance@ == (slot, start->0@),
            None => start is None,
        },
{
    match start {
        Some(token) => Some(ProcessIncarnation::new(slot, token)),
        None => None,
    }
}

/// This process's own instance: with a named placeholder where the platform derives no start. Nothing
/// where the placeholder is no token under the rule.
pub fn current<S: Fn(&str) -> bool>(slot: u32, start: Option<SafeToken>, safe: &S) -> (r: Option<
    ProcessIncarnation,
>)
    requires
        rule_total(*safe),
    ensures
        start matches Some(token) ==> (r matches Some(instance) && instance@ == (slot, token@)),
        forall|rule: spec_fn(Seq<char>) -> bool| #[trigger]
            rule_is(*safe, rule) ==> (start is None ==> (r is Some <==> rule(START_UNAVAILABLE@))),
        start is None ==> (r matches Some(instance) ==> instance@ == (slot, START_UNAVAILABLE@)),
{
    match start {
        Some(token) => Some(ProcessIncarnation::new(slot, token)),
        None => match SafeToken::new(START_UNAVAILABLE, safe) {
            Some(token) => Some(ProcessIncarnation::new(slot, token)),
            None => None,
        },
    }
}

} // verus!
