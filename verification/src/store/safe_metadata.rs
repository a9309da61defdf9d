//! `events.safe_metadata_json`: typed, allowlisted, bounded; never a blob.
//!
//! There is no generic writer: a document is built field by field from tokens, identities,
//! integers and labels. And the reader is not a JSON parser: it accepts one flat object, discards
//! what the event kind does not list, and refuses everything else.
use vstd::prelude::*;
use vstd::string::StringExecFns;
use crate::digest::{digit_value, hex_digit};
use crate::domain::fence::{rule_is, rule_total, SafeToken};
use crate::domain::id::{canonical_text, id_text, Id};
use crate::store::codec::{id_column, parse_id, token_text};
use crate::store::error::{corrupt, corrupt_row, CorruptReason, StoreError};
use crate::store::grammar::{
    char_at, digits_end, digits_end_bounds, distinct_keys, document, escape_char, escaped,
    field_text, fields_text, hex4, int_at, is_char_code, member_at, member_bounds, members_at,
    quoted, rendered, string_at, string_tail, string_tail_bounds, value_at, ws_end, MetaFields,
    MetaValue,
};
use crate::text::{chars_of, digits_value, is_digit, push_int, same};

verus! {

/// `char::from_u32`: the character of a code, unless the code is a surrogate or out of range.
pub assume_specification[ char::from_u32 ](code: u32) -> (r: Option<char>)
    ensures
        r == (if is_char_code(code as int) {
            Some(code as char)
        } else {
            None
        }),
;

// --- Writing ---------------------------------------------------------------------------------

/// A value that may be written into a document.
#[derive(Debug, PartialEq, Eq)]
pub enum SafeValue {
    /// A bounded redaction-safe token, canonical identities among them.
    Token(String),
    /// A bounded signed integer.
    Int(i64),
    /// A label from a closed set.
    Label(&'static str),
}

impl View for SafeValue {
    type V = MetaValue;

    open spec fn view(&self) -> MetaValue {
        match *self {
            SafeValue::Token(text) => MetaValue::Text(text@),
            SafeValue::Int(n) => MetaValue::Int(n as int),
            SafeValue::Label(text) => MetaValue::Text(text@),
        }
    }
}

/// A typed metadata document for one event kind.
#[derive(Debug, PartialEq, Eq)]
pub struct SafeMetadata {
    /// The fields, in the order they were recorded.
    pub fields: Vec<(&'static str, SafeValue)>,
}

/// What a list of writable fields says.
pub open spec fn written(fields: Seq<(&'static str, SafeValue)>) -> MetaFields {
    fields.map_values(|f: (&'static str, SafeValue)| (f.0@, f.1@))
}

impl View for SafeMetadata {
    type V = MetaFields;

    open spec fn view(&self) -> MetaFields {
        written(self.fields@)
    }
}

impl SafeMetadata {
    /// An empty document.
    pub fn new() -> (r: SafeMetadata)
        ensures
            r@ == MetaFields::empty(),
    {
        let r = SafeMetadata { fields: Vec::new() };
        proof {
            assert(r@ =~= MetaFields::empty());
        }
        r
    }

    fn with(self, key: &'static str, value: SafeValue) -> (r: SafeMetadata)
        ensures
            r@ == self@.push((key@, value@)),
    {
        let ghost before = self.fields@;
        let mut fields = self.fields;
        fields.push((key, value));
        let r = SafeMetadata { fields };
        proof {
            assert(r@ =~= written(before).push((key@, value@)));
        }
        r
    }

    /// Records an opaque token.
    pub fn token(self, key: &'static str, value: &SafeToken) -> (r: SafeMetadata)
        ensures
            r@ == self@.push((key@, MetaValue::Text(value@))),
    {
        self.with(key, SafeValue::Token(value.as_str().to_owned()))
    }

    /// Records an opaque identity.
    pub fn id(self, key: &'static str, value: Id) -> (r: SafeMetadata)
        ensures
            r@ == self@.push((key@, MetaValue::Text(canonical_text(value.value)))),
    {
        self.with(key, SafeValue::Token(id_text(value)))
    }

    /// Records a bounded counter.
    pub fn integer(self, key: &'static str, value: i64) -> (r: SafeMetadata)
        ensures
            r@ == self@.push((key@, MetaValue::Int(value as int))),
    {
        self.with(key, SafeValue::Int(value))
    }

    /// Records a label from a closed set.
    pub fn label(self, key: &'static str, value: &'static str) -> (r: SafeMetadata)
        ensures
            r@ == self@.push((key@, MetaValue::Text(value@))),
    {
        self.with(key, SafeValue::Label(value))
    }

    /// Renders the document for the `safe_metadata_json` column.
    pub fn to_json(&self) -> (r: String)
        ensures
            r@ == rendered(self@),
    {
        let mut out = String::new();
        out.push('{');
        let mut i: usize = 0;
        while i < self.fields.len()
            invariant
                i <= self.fields@.len(),
                i > 0 ==> out@ == seq!['{'] + fields_text(self@.take(i as int)),
                i == 0 ==> out@ == seq!['{'],
            decreases self.fields@.len() - i,
        {
            let ghost before = out@;
            if i > 0 {
                out.push(',');
            }
            write_json_string(&mut out, self.fields[i].0);
            out.push(':');
            match &self.fields[i].1 {
                SafeValue::Token(text) => write_json_string(&mut out, text.as_str()),
                SafeValue::Label(text) => write_json_string(&mut out, text),
                SafeValue::Int(number) => push_int(&mut out, *number),
            }
            proof {
                let field = self@[i as int];
                assert(self@.take(i + 1) =~= self@.take(i as int).push(field));
                if i == 0 {
                    assert(self@.take(1)[0] == field);
                    assert(out@ =~= seq!['{'] + field_text(field));
                } else {
                    fields_text_push(self@.take(i as int), field);
                    assert(out@ =~= before + seq![','] + field_text(field));
                    assert(out@ =~= seq!['{'] + fields_text(self@.take(i + 1)));
                }
            }
            i = i + 1;
        }
        out.push('}');
        proof {
            assert(self@.take(i as int) =~= self@);
            assert(out@ =~= rendered(self@));
        }
        out
    }
}

proof fn fields_text_push(fs: MetaFields, field: (Seq<char>, MetaValue))
    requires
        fs.len() > 0,
    ensures
        fields_text(fs.push(field)) == fields_text(fs) + seq![','] + field_text(field),
    decreases fs.len(),
{
    let more = fs.push(field);
    assert(more.drop_first() =~= fs.drop_first().push(field));
    if fs.len() == 1 {
        assert(more.drop_first()[0] == field);
        assert(fields_text(more.drop_first()) == field_text(field));
    } else {
        fields_text_push(fs.drop_first(), field);
        assert(fields_text(more) =~= fields_text(fs) + seq![','] + field_text(field));
    }
}

proof fn escaped_push(t: Seq<char>, c: char)
    ensures
        escaped(t.push(c)) == escaped(t) + escape_char(c),
    decreases t.len(),
{
    reveal_with_fuel(escaped, 2);
    if t.len() == 0 {
        assert(t.push(c).drop_first() =~= Seq::<char>::empty());
        assert(escaped(t.push(c)) =~= escaped(t) + escape_char(c));
    } else {
        assert(t.push(c).drop_first() =~= t.drop_first().push(c));
        escaped_push(t.drop_first(), c);
        assert(escaped(t.push(c)) =~= escaped(t) + escape_char(c));
    }
}

proof fn char_code_range(c: char)
    ensures
        0 <= c as int <= 0x10FFFF,
{
}

/// Appends a text as a quoted string.
pub fn write_json_string(out: &mut String, value: &str)
    ensures
        final(out)@ == old(out)@ + quoted(value@),
{
    let ghost start = out@;
    out.push('"');
    let chars = chars_of(value);
    let mut i: usize = 0;
    while i < chars.len()
        invariant
            i <= chars.len(),
            out@ == start + seq!['"'] + escaped(chars@.take(i as int)),
        decreases chars.len() - i,
    {
        let ghost before = out@;
        let c: char = chars[i];
        if c == '"' {
            out.push('\\');
            out.push('"');
        } else if c == '\\' {
            out.push('\\');
            out.push('\\');
        } else if c <= '\u{1f}' {
            let code: u8 = (c as u32) as u8;
            proof {
                char_code_range(c);
                assert(code == c as int);
            }
            out.push('\\');
            out.push('u');
            out.push('0');
            out.push('0');
            out.push(hex_digit(code / 16));
            out.push(hex_digit(code % 16));
        } else {
            out.push(c);
        }
        proof {
            assert(chars@.take(i + 1) =~= chars@.take(i as int).push(c));
            escaped_push(chars@.take(i as int), c);
            assert(out@ =~= before + escape_char(c)) by {
                if c == '"' || c == '\\' {
                } else if c <= '\u{1f}' {
                    assert(escape_char(c).len() == 6);
                } else {
                    assert(escape_char(c) == seq![c]);
                }
            }
            assert(out@ =~= start + seq!['"'] + escaped(chars@.take(i + 1)));
        }
        i = i + 1;
    }
    out.push('"');
    proof {
        assert(chars@.take(i as int) =~= value@);
        assert(out@ =~= start + quoted(value@));
    }
}

// --- Reading ---------------------------------------------------------------------------------

/// A value read back from a document.
#[derive(Debug, PartialEq, Eq)]
pub enum ParsedValue {
    Text(String),
    Int(i64),
    Bool(bool),
}

impl View for ParsedValue {
    type V = MetaValue;

    open spec fn view(&self) -> MetaValue {
        match *self {
            ParsedValue::Text(text) => MetaValue::Text(text@),
            ParsedValue::Int(n) => MetaValue::Int(n as int),
            ParsedValue::Bool(b) => MetaValue::Bool(b),
        }
    }
}

/// What a list of read fields says.
pub open spec fn read_back(fields: Seq<(String, ParsedValue)>) -> MetaFields {
    fields.map_values(|f: (String, ParsedValue)| (f.0@, f.1@))
}

/// The first position from `at` on that holds no white space.
fn skip_ws(s: &Vec<char>, at: usize) -> (r: usize)
    requires
        at <= s@.len(),
    ensures
        r == ws_end(s@, at as int),
        at <= r <= s@.len(),
{
    let mut i: usize = at;
    while i < s.len() && (s[i] == ' ' || s[i] == '\t' || s[i] == '\n' || s[i] == '\r')
        invariant
            at <= i <= s@.len(),
            ws_end(s@, at as int) == ws_end(s@, i as int),
        decreases s@.len() - i,
    {
        i = i + 1;
    }
    i
}

/// The code four hexadecimal digits denote.
fn read_hex4(s: &Vec<char>, at: usize) -> (r: Option<u32>)
    requires
        at <= s@.len(),
    ensures
        match r {
            Some(code) => hex4(s@, at as int) == Some(code as int),
            None => hex4(s@, at as int) is None,
        },
{
    if s.len() - at < 4 {
        return None;
    }
    match (digit_value(s[at]), digit_value(s[at + 1]), digit_value(s[at + 2]), digit_value(s[at + 3])) {
        (Some(a), Some(b), Some(c), Some(d)) => {
            Some(4096 * (a as u32) + 256 * (b as u32) + 16 * (c as u32) + d as u32)
        },
        _ => None,
    }
}

/// The character at the head of a string's contents, and the position after it.
fn read_char(s: &Vec<char>, at: usize) -> (r: Option<(char, usize)>)
    requires
        at <= s@.len(),
    ensures
        match r {
            Some((c, next)) => char_at(s@, at as int) == Some((c, next as int)),
            None => char_at(s@, at as int) is None,
        },
{
    if at >= s.len() {
        return None;
    }
    if s[at] == '\\' {
        if at + 1 >= s.len() {
            return None;
        }
        let e: char = s[at + 1];
        if e == '"' {
            Some(('"', at + 2))
        } else if e == '\\' {
            Some(('\\', at + 2))
        } else if e == 'u' {
            match read_hex4(s, at + 2) {
                Some(code) => match char::from_u32(code) {
                    Some(c) => Some((c, at + 6)),
                    None => None,
                },
                None => None,
            }
        } else {
            None
        }
    } else if s[at] <= '\u{1f}' {
        None
    } else {
        Some((s[at], at + 1))
    }
}

/// A quoted string at `at`, and the position after it.
pub fn parse_string(s: &Vec<char>, at: usize) -> (r: Option<(String, usize)>)
    ensures
        match r {
            Some((t, end)) => string_at(s@, at as int) == Some((t@, end as int)) && at < end <= s@.len(),
            None => string_at(s@, at as int) is None,
        },
{
    if at >= s.len() || s[at] != '"' {
        return None;
    }
    let mut out = String::new();
    let mut i: usize = at + 1;
    while i < s.len() && s[i] != '"'
        invariant
            at < i <= s@.len(),
            string_tail(s@, at + 1) == (match string_tail(s@, i as int) {
                Some((t, end)) => Some((out@ + t, end)),
                None => None,
            }),
        decreases s@.len() - i,
    {
        let ghost before = out@;
        match read_char(s, i) {
            Some((c, next)) => {
                out.push(c);
                proof {
                    string_tail_bounds(s@, next as int);
                    match string_tail(s@, next as int) {
                        Some((t, end)) => {
                            assert(before + (seq![c] + t) =~= before.push(c) + t);
                        },
                        None => {},
                    }
                }
                if next > s.len() {
                    return None;
                }
                i = next;
            },
            None => {
                return None;
            },
        }
    }
    if i < s.len() {
        proof {
            assert(out@ + Seq::<char>::empty() =~= out@);
        }
        Some((out, i + 1))
    } else {
        None
    }
}

proof fn digits_prefix_bound(s: Seq<char>, from: int, mid: int, end: int)
    requires
        0 <= from <= mid <= end <= s.len(),
        forall|i: int| from <= i < end ==> is_digit(#[trigger] s[i]),
    ensures
        digits_value(s.subrange(from, mid)) <= digits_value(s.subrange(from, end)),
    decreases end - mid,
{
    if mid < end {
        digits_prefix_bound(s, from, mid, end - 1);
        assert(s.subrange(from, end).drop_last() =~= s.subrange(from, end - 1));
        assert(is_digit(s[end - 1]));
    }
}

/// An integer at `at`, and the position after it.
fn parse_int(s: &Vec<char>, at: usize) -> (r: Option<(i64, usize)>)
    requires
        at < s@.len(),
    ensures
        match r {
            Some((n, end)) => int_at(s@, at as int) == Some((n as int, end as int)) && at < end <= s@.len(),
            None => int_at(s@, at as int) is None,
        },
{
    let len: usize = s.len();
    let negative: bool = s[at] == '-';
    let from: usize = if negative { at + 1 } else { at };
    let mut end: usize = from;
    let mut magnitude: u64 = 0;
    let mut fits: bool = true;
    proof {
        assert(s@.subrange(from as int, from as int) =~= Seq::<char>::empty());
        digits_end_bounds(s@, from as int);
    }
    while end < s.len() && '0' <= s[end] && s[end] <= '9'
        invariant
            at <= from <= end <= s@.len(),
            digits_end(s@, from as int) == digits_end(s@, end as int),
            forall|i: int| from <= i < end ==> is_digit(#[trigger] s@[i]),
            fits ==> magnitude == digits_value(s@.subrange(from as int, end as int)),
            !fits ==> digits_value(s@.subrange(from as int, end as int)) > 9223372036854775808,
            magnitude <= 9223372036854775808,
        decreases s@.len() - end,
    {
        let d: u64 = (s[end] as u32 - 48) as u64;
        proof {
            let longer = s@.subrange(from as int, end + 1);
            assert(longer.drop_last() =~= s@.subrange(from as int, end as int));
            assert(longer.last() == s@[end as int]);
        }
        if fits {
            if magnitude > 922337203685477580 || magnitude * 10 + d > 9223372036854775808 {
                fits = false;
            } else {
                magnitude = magnitude * 10 + d;
            }
        }
        end = end + 1;
    }
    if end == from {
        return None;
    }
    if end < s.len() && (s[end] == '.' || s[end] == 'e' || s[end] == 'E') {
        return None;
    }
    if !fits {
        return None;
    }
    if negative {
        let value: i64 = if magnitude == 9223372036854775808 {
            i64::MIN
        } else {
            -(magnitude as i64)
        };
        Some((value, end))
    } else if magnitude == 9223372036854775808 {
        None
    } else {
        Some((magnitude as i64, end))
    }
}

/// A value at `at`, and the position after it.
fn parse_value(s: &Vec<char>, at: usize) -> (r: Option<(ParsedValue, usize)>)
    requires
        at <= s@.len(),
    ensures
        match r {
            Some((v, end)) => value_at(s@, at as int) == Some((v@, end as int)) && at < end <= s@.len(),
            None => value_at(s@, at as int) is None,
        },
{
    if at >= s.len() {
        return None;
    }
    let c: char = s[at];
    if c == '"' {
        match parse_string(s, at) {
            Some((text, end)) => Some((ParsedValue::Text(text), end)),
            None => None,
        }
    } else if c == 't' {
        if s.len() - at >= 4 && s[at + 1] == 'r' && s[at + 2] == 'u' && s[at + 3] == 'e' {
            proof {
                assert(s@.subrange(at as int, at + 4) =~= seq!['t', 'r', 'u', 'e']);
            }
            Some((ParsedValue::Bool(true), at + 4))
        } else {
            proof {
                if at + 4 <= s@.len() && s@.subrange(at as int, at + 4) == seq!['t', 'r', 'u', 'e'] {
                    assert(s@.subrange(at as int, at + 4)[1] == s@[at + 1]);
                    assert(s@.subrange(at as int, at + 4)[2] == s@[at + 2]);
                    assert(s@.subrange(at as int, at + 4)[3] == s@[at + 3]);
                }
            }
            None
        }
    } else if c == 'f' {
        if s.len() - at >= 5 && s[at + 1] == 'a' && s[at + 2] == 'l' && s[at + 3] == 's' && s[at + 4]
            == 'e' {
            proof {
                assert(s@.subrange(at as int, at + 5) =~= seq!['f', 'a', 'l', 's', 'e']);
            }
            Some((ParsedValue::Bool(false), at + 5))
        } else {
            proof {
                if at + 5 <= s@.len() && s@.subrange(at as int, at + 5) == seq!['f', 'a', 'l', 's', 'e'] {
                    assert(s@.subrange(at as int, at + 5)[1] == s@[at + 1]);
                    assert(s@.subrange(at as int, at + 5)[2] == s@[at + 2]);
                    assert(s@.subrange(at as int, at + 5)[3] == s@[at + 3]);
                    assert(s@.subrange(at as int, at + 5)[4] == s@[at + 4]);
                }
            }
            None
        }
    } else if c == '-' || ('0' <= c && c <= '9') {
        match parse_int(s, at) {
            Some((n, end)) => Some((ParsedValue::Int(n), end)),
            None => None,
        }
    } else {
        None
    }
}

/// One field at `at`, and the position of what follows it.
fn parse_member(s: &Vec<char>, at: usize) -> (r: Option<((String, ParsedValue), usize)>)
    requires
        at <= s@.len(),
    ensures
        match r {
            Some((f, next)) => member_at(s@, at as int) == Some(((f.0@, f.1@), next as int)) && at < next
                <= s@.len(),
            None => member_at(s@, at as int) is None,
        },
{
    let (key, after_key) = match parse_string(s, at) {
        Some(found) => found,
        None => return None,
    };
    let colon: usize = skip_ws(s, after_key);
    if colon >= s.len() || s[colon] != ':' {
        return None;
    }
    let from: usize = skip_ws(s, colon + 1);
    match parse_value(s, from) {
        Some((value, after_value)) => {
            let next: usize = skip_ws(s, after_value);
            Some(((key, value), next))
        },
        None => None,
    }
}

/// Whether a key occurs among the fields read so far.
fn has_key(fields: &Vec<(String, ParsedValue)>, key: &String) -> (r: bool)
    ensures
        r == exists|i: int| 0 <= i < fields@.len() && (#[trigger] read_back(fields@)[i]).0 == key@,
{
    let mut i: usize = 0;
    while i < fields.len()
        invariant
            i <= fields@.len(),
            forall|k: int| 0 <= k < i ==> (#[trigger] read_back(fields@)[k]).0 != key@,
        decreases fields@.len() - i,
    {
        proof {
            assert(read_back(fields@)[i as int].0 == fields@[i as int].0@);
        }
        if fields[i].0 == *key {
            return true;
        }
        i = i + 1;
    }
    false
}

/// The fields of a document, if the text is one.
fn parse_flat_object(text: &str) -> (r: Option<Vec<(String, ParsedValue)>>)
    ensures
        match r {
            Some(fields) => document(text@) == Some(read_back(fields@)),
            None => document(text@) is None,
        },
{
    let s = chars_of(text);
    let open: usize = skip_ws(&s, 0);
    if open >= s.len() || s[open] != '{' {
        return None;
    }
    let first: usize = skip_ws(&s, open + 1);
    let mut fields: Vec<(String, ParsedValue)> = Vec::new();
    if first < s.len() && s[first] == '}' {
        let end: usize = skip_ws(&s, first + 1);
        proof {
            assert(read_back(fields@) =~= MetaFields::empty());
        }
        return if end == s.len() {
            Some(fields)
        } else {
            None
        };
    }
    let mut at: usize = first;
    proof {
        let rest = members_at(s@, first as int);
        if rest is Some {
            assert(read_back(fields@) + rest->0 =~= rest->0);
        }
    }
    loop
        invariant
            first <= at <= s@.len(),
            s@ == text@,
            open == ws_end(s@, 0),
            open < s@.len(),
            s@[open as int] == '{',
            first == ws_end(s@, open + 1),
            !(first < s@.len() && s@[first as int] == '}'),
            distinct_keys(read_back(fields@)),
            members_at(s@, first as int) == (match members_at(s@, at as int) {
                Some(rest) => Some(read_back(fields@) + rest),
                None => None,
            }),
        decreases s@.len() - at,
    {
        let ghost sofar = read_back(fields@);
        match parse_member(&s, at) {
            Some((field, next)) => {
                let ghost f = (field.0@, field.1@);
                proof {
                    member_bounds(s@, at as int);
                }
                if has_key(&fields, &field.0) {
                    proof {
                        if members_at(s@, first as int) is Some {
                            let all = members_at(s@, first as int)->0;
                            let i = choose|i: int|
                                0 <= i < fields@.len() && (#[trigger] sofar[i]).0 == f.0;
                            assert(all[i] == sofar[i]);
                            assert(all[sofar.len() as int] == f);
                            assert(!distinct_keys(all));
                        }
                    }
                    return None;
                }
                fields.push(field);
                proof {
                    assert(read_back(fields@) =~= sofar.push(f));
                    assert(distinct_keys(read_back(fields@)));
                }
                if next >= s.len() {
                    return None;
                }
                if s[next] == ',' {
                    let after: usize = skip_ws(&s, next + 1);
                    proof {
                        match members_at(s@, after as int) {
                            Some(rest) => {
                                assert(sofar + (seq![f] + rest) =~= sofar.push(f) + rest);
                            },
                            None => {},
                        }
                    }
                    at = after;
                } else if s[next] == '}' {
                    let end: usize = skip_ws(&s, next + 1);
                    proof {
                        assert(sofar + seq![f] =~= sofar.push(f));
                    }
                    return if end == s.len() {
                        Some(fields)
                    } else {
                        None
                    };
                } else {
                    return None;
                }
            },
            None => {
                return None;
            },
        }
    }
}

/// Whether an allowlist holds a key.
pub open spec fn listed(allowed: Seq<&str>, key: Seq<char>) -> bool {
    exists|i: int| 0 <= i < allowed.len() && (#[trigger] allowed[i])@ == key
}

/// The fields of a document that an allowlist holds, in order.
pub open spec fn kept(fs: MetaFields, allowed: Seq<&str>) -> MetaFields {
    fs.filter(|f: (Seq<char>, MetaValue)| listed(allowed, f.0))
}

/// The value of a key: that of its first occurrence.
pub open spec fn lookup(fs: MetaFields, key: Seq<char>) -> Option<MetaValue>
    decreases fs.len(),
{
    if fs.len() == 0 {
        None
    } else if fs[0].0 == key {
        Some(fs[0].1)
    } else {
        lookup(fs.drop_first(), key)
    }
}

/// A malformed document.
pub open spec fn malformed() -> StoreError {
    corrupt("events", "safe_metadata_json", CorruptReason::MalformedMetadata)
}

/// A required field that is absent.
pub open spec fn missing() -> StoreError {
    corrupt("events", "safe_metadata_json", CorruptReason::MissingMetadataField)
}

/// What reading a required text field gives.
pub open spec fn text_field(fs: MetaFields, key: Seq<char>) -> Result<Seq<char>, StoreError> {
    match lookup(fs, key) {
        Some(MetaValue::Text(t)) => Ok(t),
        Some(_) => Err(malformed()),
        None => Err(missing()),
    }
}

/// What reading a required unsigned counter field gives.
pub open spec fn u64_field(fs: MetaFields, key: Seq<char>) -> Result<u64, StoreError> {
    match lookup(fs, key) {
        Some(MetaValue::Int(n)) => if 0 <= n <= u64::MAX {
            Ok(n as u64)
        } else {
            Err(corrupt("events", "safe_metadata_json", CorruptReason::IntegerOutOfRange))
        },
        Some(_) => Err(malformed()),
        None => Err(missing()),
    }
}

/// What reading a required bounded counter field gives.
pub open spec fn u32_field(fs: MetaFields, key: Seq<char>) -> Result<u32, StoreError> {
    match u64_field(fs, key) {
        Ok(n) => if n <= u32::MAX {
            Ok(n as u32)
        } else {
            Err(corrupt("events", "safe_metadata_json", CorruptReason::IntegerOutOfRange))
        },
        Err(e) => Err(e),
    }
}

/// What reading a required identity field gives.
pub open spec fn id_field(fs: MetaFields, key: Seq<char>) -> Result<Id, StoreError> {
    match text_field(fs, key) {
        Ok(t) => id_column(t, "events", "safe_metadata_json"),
        Err(e) => Err(e),
    }
}

/// What reading a required token field gives, under a token rule.
pub open spec fn token_field(
    fs: MetaFields,
    key: Seq<char>,
    rule: spec_fn(Seq<char>) -> bool,
) -> Result<Seq<char>, StoreError> {
    match text_field(fs, key) {
        Ok(t) => if rule(t) {
            Ok(t)
        } else {
            Err(corrupt("events", "safe_metadata_json", CorruptReason::UnsafeToken))
        },
        Err(e) => Err(e),
    }
}

/// The allowlisted fields recovered from a stored document.
#[derive(Debug, PartialEq, Eq)]
pub struct MetadataFields {
    /// The fields, in document order.
    pub fields: Vec<(String, ParsedValue)>,
}

impl View for MetadataFields {
    type V = MetaFields;

    open spec fn view(&self) -> MetaFields {
        read_back(self.fields@)
    }
}

impl Clone for ParsedValue {
    fn clone(&self) -> (r: Self)
        ensures
            r@ == self@,
    {
        match self {
            ParsedValue::Text(text) => ParsedValue::Text(text.clone()),
            ParsedValue::Int(n) => ParsedValue::Int(*n),
            ParsedValue::Bool(b) => ParsedValue::Bool(*b),
        }
    }
}

impl Clone for MetadataFields {
    fn clone(&self) -> (r: Self)
        ensures
            r@ == self@,
    {
        let mut fields: Vec<(String, ParsedValue)> = Vec::new();
        let mut i: usize = 0;
        while i < self.fields.len()
            invariant
                i <= self.fields@.len(),
                read_back(fields@) == read_back(self.fields@.take(i as int)),
            decreases self.fields@.len() - i,
        {
            let ghost before = fields@;
            let field = &self.fields[i];
            fields.push((field.0.clone(), field.1.clone()));
            proof {
                assert(read_back(fields@) =~= read_back(before).push((field.0@, field.1@)));
                assert(read_back(self.fields@.take(i + 1)) =~= read_back(
                    self.fields@.take(i as int),
                ).push((field.0@, field.1@)));
            }
            i = i + 1;
        }
        proof {
            assert(self.fields@.take(i as int) =~= self.fields@);
        }
        MetadataFields { fields }
    }
}

impl SafeMetadata {
    /// Parses a stored document, keeping only the fields in `allowed`.
    pub fn parse(text: &str, allowed: &[&str]) -> (r: Result<MetadataFields, StoreError>)
        ensures
            match r {
                Ok(fields) => document(text@) is Some && fields@ == kept(document(text@)->0, allowed@),
                Err(e) => document(text@) is None && e == malformed(),
            },
    {
        let parsed = match parse_flat_object(text) {
            Some(fields) => fields,
            None => return Err(corrupt_row("events", "safe_metadata_json", CorruptReason::MalformedMetadata)),
        };
        let ghost all = read_back(parsed@);
        let ghost pred = |f: (Seq<char>, MetaValue)| listed(allowed@, f.0);
        let mut fields: Vec<(String, ParsedValue)> = Vec::new();
        let mut rest: Vec<(String, ParsedValue)> = parsed;
        proof {
            reveal(Seq::filter);
            assert(read_back(fields@) =~= all.skip(all.len() as int).filter(pred));
            assert(read_back(rest@) =~= all.take(all.len() as int));
        }
        while rest.len() > 0
            invariant
                read_back(rest@) == all.take(rest@.len() as int),
                rest@.len() <= all.len(),
                pred == (|f: (Seq<char>, MetaValue)| listed(allowed@, f.0)),
                read_back(fields@).reverse() == all.skip(rest@.len() as int).filter(pred),
            decreases rest@.len(),
        {
            let ghost n = rest@.len() as int;
            let ghost held = read_back(rest@);
            let ghost sofar = read_back(fields@);
            let field = rest.pop().unwrap();
            let keep: bool = is_listed(allowed, field.0.as_str());
            let ghost f = (field.0@, field.1@);
            proof {
                assert(held[n - 1] == f);
                assert(all[n - 1] == f);
                assert(read_back(rest@) =~= all.take(n - 1)) by {
                    assert(read_back(rest@) =~= held.take(n - 1));
                }
                filter_front(all.skip(n - 1), pred);
                assert(all.skip(n - 1).drop_first() =~= all.skip(n));
            }
            if keep {
                fields.push(field);
                proof {
                    assert(read_back(fields@) =~= sofar.push(f));
                    assert(read_back(fields@).reverse() =~= seq![f] + sofar.reverse());
                }
            }
        }
        let ordered = reversed(fields);
        proof {
            assert(all.skip(0) =~= all);
        }
        Ok(MetadataFields { fields: ordered })
    }
}

proof fn filter_front(fs: MetaFields, pred: spec_fn((Seq<char>, MetaValue)) -> bool)
    requires
        fs.len() > 0,
    ensures
        fs.filter(pred) == (if pred(fs[0]) {
            seq![fs[0]] + fs.drop_first().filter(pred)
        } else {
            fs.drop_first().filter(pred)
        }),
{
    reveal(Seq::filter);
    Seq::filter_distributes_over_add(seq![fs[0]], fs.drop_first(), pred);
    assert(fs =~= seq![fs[0]] + fs.drop_first());
    assert(seq![fs[0]].drop_last() =~= MetaFields::empty());
    assert(MetaFields::empty().filter(pred) =~= MetaFields::empty());
    if pred(fs[0]) {
        assert(seq![fs[0]].filter(pred) =~= seq![fs[0]]);
    } else {
        assert(seq![fs[0]].filter(pred) =~= MetaFields::empty());
        assert(MetaFields::empty() + fs.drop_first().filter(pred) =~= fs.drop_first().filter(pred));
    }
}

/// The same fields, last first.
fn reversed(fields: Vec<(String, ParsedValue)>) -> (r: Vec<(String, ParsedValue)>)
    ensures
        read_back(r@) == read_back(fields@).reverse(),
{
    let ghost all = fields@;
    let mut rest = fields;
    let mut out: Vec<(String, ParsedValue)> = Vec::new();
    while rest.len() > 0
        invariant
            rest@ == all.take(rest@.len() as int),
            rest@.len() + out@.len() == all.len(),
            forall|i: int| 0 <= i < out@.len() ==> #[trigger] out@[i] == all[all.len() - 1 - i],
        decreases rest@.len(),
    {
        let ghost n = rest@.len();
        let last = rest.pop().unwrap();
        proof {
            assert(rest@ =~= all.take(n - 1));
        }
        out.push(last);
    }
    proof {
        assert(read_back(out@) =~= read_back(all).reverse());
    }
    out
}

/// Whether an allowlist holds a key.
fn is_listed(allowed: &[&str], key: &str) -> (r: bool)
    ensures
        r == listed(allowed@, key@),
{
    let mut i: usize = 0;
    while i < allowed.len()
        invariant
            i <= allowed@.len(),
            forall|k: int| 0 <= k < i ==> (#[trigger] allowed@[k])@ != key@,
        decreases allowed@.len() - i,
    {
        if same(allowed[i], key) {
            return true;
        }
        i = i + 1;
    }
    false
}

proof fn lookup_skips(fs: MetaFields, key: Seq<char>, n: int)
    requires
        0 <= n <= fs.len(),
        forall|k: int| 0 <= k < n ==> (#[trigger] fs[k]).0 != key,
    ensures
        lookup(fs, key) == lookup(fs.skip(n), key),
    decreases n,
{
    if n > 0 {
        assert(fs[0].0 != key);
        assert(fs.drop_first().skip(n - 1) =~= fs.skip(n));
        assert forall|k: int| 0 <= k < n - 1 implies (#[trigger] fs.drop_first()[k]).0 != key by {
            assert(fs[k + 1].0 != key);
        }
        lookup_skips(fs.drop_first(), key, n - 1);
    } else {
        assert(fs.skip(0) =~= fs);
    }
}

impl MetadataFields {
    /// The value of a key, if the document has it.
    pub fn get(&self, key: &str) -> (r: Option<&ParsedValue>)
        ensures
            match r {
                Some(value) => lookup(self@, key@) == Some(value@),
                None => lookup(self@, key@) is None,
            },
    {
        let mut i: usize = 0;
        while i < self.fields.len()
            invariant
                i <= self.fields@.len(),
                forall|k: int| 0 <= k < i ==> (#[trigger] self@[k]).0 != key@,
            decreases self.fields@.len() - i,
        {
            if same(self.fields[i].0.as_str(), key) {
                proof {
                    lookup_skips(self@, key@, i as int);
                    assert(self@.skip(i as int)[0] == self@[i as int]);
                }
                return Some(&self.fields[i].1);
            }
            i = i + 1;
        }
        proof {
            lookup_skips(self@, key@, i as int);
        }
        None
    }

    fn text(&self, key: &str) -> (r: Result<&String, StoreError>)
        ensures
            match r {
                Ok(t) => text_field(self@, key@) == Ok::<Seq<char>, StoreError>(t@),
                Err(e) => text_field(self@, key@) == Err::<Seq<char>, StoreError>(e),
            },
    {
        match self.get(key) {
            Some(ParsedValue::Text(text)) => Ok(text),
            Some(_) => Err(corrupt_row("events", "safe_metadata_json", CorruptReason::MalformedMetadata)),
            None => Err(corrupt_row("events", "safe_metadata_json", CorruptReason::MissingMetadataField)),
        }
    }

    /// Reads a required opaque token field.
    pub fn token<S: Fn(&str) -> bool>(&self, key: &str, safe: &S) -> (r: Result<SafeToken, StoreError>)
        requires
            rule_total(*safe),
        ensures
            forall|rule: spec_fn(Seq<char>) -> bool| #[trigger]
                rule_is(*safe, rule) ==> token_text(r) == token_field(self@, key@, rule),
    {
        match self.text(key) {
            Ok(text) => match SafeToken::new(text.as_str(), safe) {
                Some(token) => Ok(token),
                None => Err(corrupt_row("events", "safe_metadata_json", CorruptReason::UnsafeToken)),
            },
            Err(e) => Err(e),
        }
    }

    /// Reads a required opaque identity field.
    pub fn id(&self, key: &str) -> (r: Result<Id, StoreError>)
        ensures
            r == id_field(self@, key@),
    {
        match self.text(key) {
            Ok(text) => parse_id(text.as_str(), "events", "safe_metadata_json"),
            Err(e) => Err(e),
        }
    }

    /// Reads a required label field, leaving validation to the caller's codec.
    pub fn label(&self, key: &str) -> (r: Result<&str, StoreError>)
        ensures
            match r {
                Ok(t) => text_field(self@, key@) == Ok::<Seq<char>, StoreError>(t@),
                Err(e) => text_field(self@, key@) == Err::<Seq<char>, StoreError>(e),
            },
    {
        match self.text(key) {
            Ok(text) => Ok(text.as_str()),
            Err(e) => Err(e),
        }
    }

    /// Reads a required unsigned counter field.
    pub fn u64(&self, key: &str) -> (r: Result<u64, StoreError>)
        ensures
            r == u64_field(self@, key@),
    {
        match self.get(key) {
            Some(ParsedValue::Int(value)) => {
                if *value >= 0 {
                    Ok(*value as u64)
                } else {
                    Err(corrupt_row("events", "safe_metadata_json", CorruptReason::IntegerOutOfRange))
                }
            },
            Some(_) => Err(corrupt_row("events", "safe_metadata_json", CorruptReason::MalformedMetadata)),
            None => Err(corrupt_row("events", "safe_metadata_json", CorruptReason::MissingMetadataField)),
        }
    }

    /// Reads a required bounded counter field.
    pub fn u32(&self, key: &str) -> (r: Result<u32, StoreError>)
        ensures
            r == u32_field(self@, key@),
    {
        match self.u64(key) {
            Ok(value) => {
                if value <= u32::MAX as u64 {
                    Ok(value as u32)
                } else {
                    Err(corrupt_row("events", "safe_metadata_json", CorruptReason::IntegerOutOfRange))
                }
            },
            Err(e) => Err(e),
        }
    }

    /// Number of allowlisted fields recovered.
    pub fn len(&self) -> (r: usize)
        ensures
            r == self@.len(),
    {
        self.fields.len()
    }
}

// --- Laws ------------------------------------------------------------------------------------

/// An allowlist changes nothing about the fields it lists and leaves nothing of the others: a listed
/// key has the value it has in the document, and any other key has none.
pub proof fn an_allowlist_keeps_what_it_lists(fs: MetaFields, allowed: Seq<&str>, key: Seq<char>)
    ensures
        lookup(kept(fs, allowed), key) == (if listed(allowed, key) {
            lookup(fs, key)
        } else {
            None
        }),
    decreases fs.len(),
{
    let pred = |f: (Seq<char>, MetaValue)| listed(allowed, f.0);
    if fs.len() == 0 {
        reveal(Seq::filter);
    } else {
        let rest = fs.drop_first();
        an_allowlist_keeps_what_it_lists(rest, allowed, key);
        filter_front(fs, pred);
        if pred(fs[0]) {
            let more = seq![fs[0]] + rest.filter(pred);
            assert(more[0] == fs[0]);
            assert(more.drop_first() =~= rest.filter(pred));
        }
    }
}

/// A document whose fields are all listed is kept as it is.
pub proof fn a_listed_document_is_kept_whole(fs: MetaFields, allowed: Seq<&str>)
    requires
        forall|i: int| 0 <= i < fs.len() ==> listed(allowed, (#[trigger] fs[i]).0),
    ensures
        kept(fs, allowed) == fs,
    decreases fs.len(),
{
    let pred = |f: (Seq<char>, MetaValue)| listed(allowed, f.0);
    if fs.len() == 0 {
        reveal(Seq::filter);
        assert(kept(fs, allowed) =~= fs);
    } else {
        let rest = fs.drop_first();
        assert forall|i: int| 0 <= i < rest.len() implies listed(allowed, (#[trigger] rest[i]).0) by {
            assert(rest[i] == fs[i + 1]);
        }
        a_listed_document_is_kept_whole(rest, allowed);
        filter_front(fs, pred);
        assert(listed(allowed, fs[0].0));
        assert(seq![fs[0]] + rest =~= fs);
    }
}

} // verus!
