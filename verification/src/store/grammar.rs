//! The one shape a safe-metadata document has: a flat object of strings, integers and booleans.
//!
//! What a document denotes is said twice, by how one is rendered and by how one is read; the law
//! at the end of this file says that reading a rendered document gives its fields back.
use vstd::prelude::*;
use crate::digest::{hex_char, hex_char_value, hex_value};
use crate::text::{digits_value, int_text, is_digit, nat_text, nat_text_denotes};

verus! {

/// A value in a safe-metadata document.
pub enum MetaValue {
    Text(Seq<char>),
    Int(int),
    Bool(bool),
}

/// The fields of a document, in order.
pub type MetaFields = Seq<(Seq<char>, MetaValue)>;

// --- Rendering -------------------------------------------------------------------------------

/// How one character is written inside a string.
pub open spec fn escape_char(c: char) -> Seq<char> {
    if c == '"' {
        seq!['\\', '"']
    } else if c == '\\' {
        seq!['\\', '\\']
    } else if (c as int) < 0x20 {
        seq!['\\', 'u', '0', '0', hex_char(c as int / 16), hex_char(c as int % 16)]
    } else {
        seq![c]
    }
}

/// How a text is written inside a string.
pub open spec fn escaped(t: Seq<char>) -> Seq<char>
    decreases t.len(),
{
    if t.len() == 0 {
        seq![]
    } else {
        escape_char(t[0]) + escaped(t.drop_first())
    }
}

/// A text as a quoted string.
pub open spec fn quoted(t: Seq<char>) -> Seq<char> {
    seq!['"'] + escaped(t) + seq!['"']
}

/// A value as written.
pub open spec fn value_text(v: MetaValue) -> Seq<char> {
    match v {
        MetaValue::Text(t) => quoted(t),
        MetaValue::Int(n) => int_text(n),
        MetaValue::Bool(b) => if b {
            seq!['t', 'r', 'u', 'e']
        } else {
            seq!['f', 'a', 'l', 's', 'e']
        },
    }
}

/// One field as written: the quoted key, a colon, the value.
pub open spec fn field_text(f: (Seq<char>, MetaValue)) -> Seq<char> {
    quoted(f.0) + seq![':'] + value_text(f.1)
}

/// The fields as written, separated by commas.
pub open spec fn fields_text(fs: MetaFields) -> Seq<char>
    decreases fs.len(),
{
    if fs.len() == 0 {
        seq![]
    } else if fs.len() == 1 {
        field_text(fs[0])
    } else {
        field_text(fs[0]) + seq![','] + fields_text(fs.drop_first())
    }
}

/// A document as written.
pub open spec fn rendered(fs: MetaFields) -> Seq<char> {
    seq!['{'] + fields_text(fs) + seq!['}']
}

// --- Reading ---------------------------------------------------------------------------------

/// Whether a character may stand between the parts of a document.
pub open spec fn is_ws(c: char) -> bool {
    c == ' ' || c == '\t' || c == '\n' || c == '\r'
}

/// The first position from `at` on that holds no white space.
pub open spec fn ws_end(s: Seq<char>, at: int) -> int
    decreases s.len() - at,
{
    if 0 <= at < s.len() && is_ws(s[at]) {
        ws_end(s, at + 1)
    } else {
        at
    }
}

/// The code four hexadecimal digits denote.
pub open spec fn hex4(s: Seq<char>, at: int) -> Option<int> {
    if at + 4 > s.len() {
        None
    } else {
        match (hex_value(s[at]), hex_value(s[at + 1]), hex_value(s[at + 2]), hex_value(s[at + 3])) {
            (Some(a), Some(b), Some(c), Some(d)) => Some(4096 * a + 256 * b + 16 * c + d),
            _ => None,
        }
    }
}

/// Whether a code is that of a character.
pub open spec fn is_char_code(code: int) -> bool {
    0 <= code < 0xD800 || 0xE000 <= code <= 0x10FFFF
}

/// The character at the head of a string's contents and the position after it, if it reads.
pub open spec fn char_at(s: Seq<char>, at: int) -> Option<(char, int)> {
    if !(0 <= at < s.len()) {
        None
    } else if s[at] == '\\' {
        if at + 1 >= s.len() {
            None
        } else if s[at + 1] == '"' {
            Some(('"', at + 2))
        } else if s[at + 1] == '\\' {
            Some(('\\', at + 2))
        } else if s[at + 1] == 'u' {
            match hex4(s, at + 2) {
                Some(code) => if is_char_code(code) {
                    Some((code as char, at + 6))
                } else {
                    None
                },
                None => None,
            }
        } else {
            None
        }
    } else if (s[at] as int) < 0x20 {
        None
    } else {
        Some((s[at], at + 1))
    }
}

/// The rest of a string's contents from `at` on, and the position after its closing quote.
pub open spec fn string_tail(s: Seq<char>, at: int) -> Option<(Seq<char>, int)>
    decreases s.len() - at,
{
    if !(0 <= at < s.len()) {
        None
    } else if s[at] == '"' {
        Some((seq![], at + 1))
    } else {
        match char_at(s, at) {
            Some((c, next)) => match string_tail(s, next) {
                Some((t, end)) => Some((seq![c] + t, end)),
                None => None,
            },
            None => None,
        }
    }
}

/// A quoted string at `at`, and the position after it.
pub open spec fn string_at(s: Seq<char>, at: int) -> Option<(Seq<char>, int)> {
    if 0 <= at < s.len() && s[at] == '"' {
        string_tail(s, at + 1)
    } else {
        None
    }
}

/// The position after the run of decimal digits at `at`.
pub open spec fn digits_end(s: Seq<char>, at: int) -> int
    decreases s.len() - at,
{
    if 0 <= at < s.len() && is_digit(s[at]) {
        digits_end(s, at + 1)
    } else {
        at
    }
}

/// An integer at `at`, and the position after it. No fraction, no exponent, 64 bits.
pub open spec fn int_at(s: Seq<char>, at: int) -> Option<(int, int)> {
    let negative = 0 <= at < s.len() && s[at] == '-';
    let from = if negative { at + 1 } else { at };
    let end = digits_end(s, from);
    if end == from {
        None
    } else if end < s.len() && (s[end] == '.' || s[end] == 'e' || s[end] == 'E') {
        None
    } else {
        let magnitude = digits_value(s.subrange(from, end)) as int;
        let value = if negative { -magnitude } else { magnitude };
        if i64::MIN <= value <= i64::MAX {
            Some((value, end))
        } else {
            None
        }
    }
}

/// A value at `at`, and the position after it.
pub open spec fn value_at(s: Seq<char>, at: int) -> Option<(MetaValue, int)> {
    if !(0 <= at < s.len()) {
        None
    } else if s[at] == '"' {
        match string_at(s, at) {
            Some((t, end)) => Some((MetaValue::Text(t), end)),
            None => None,
        }
    } else if s[at] == 't' {
        if at + 4 <= s.len() && s.subrange(at, at + 4) == seq!['t', 'r', 'u', 'e'] {
            Some((MetaValue::Bool(true), at + 4))
        } else {
            None
        }
    } else if s[at] == 'f' {
        if at + 5 <= s.len() && s.subrange(at, at + 5) == seq!['f', 'a', 'l', 's', 'e'] {
            Some((MetaValue::Bool(false), at + 5))
        } else {
            None
        }
    } else if s[at] == '-' || is_digit(s[at]) {
        match int_at(s, at) {
            Some((n, end)) => Some((MetaValue::Int(n), end)),
            None => None,
        }
    } else {
        None
    }
}

/// One field at `at`, and the position of what follows it.
pub open spec fn member_at(s: Seq<char>, at: int) -> Option<((Seq<char>, MetaValue), int)> {
    match string_at(s, at) {
        Some((key, after_key)) => {
            let colon = ws_end(s, after_key);
            if colon < s.len() && s[colon] == ':' {
                match value_at(s, ws_end(s, colon + 1)) {
                    Some((value, after_value)) => Some(((key, value), ws_end(s, after_value))),
                    None => None,
                }
            } else {
                None
            }
        },
        None => None,
    }
}

/// The fields from `at` to the closing brace that ends the document.
pub open spec fn members_at(s: Seq<char>, at: int) -> Option<MetaFields>
    decreases s.len() - at,
{
    match member_at(s, at) {
        Some((field, next)) => {
            proof {
                member_bounds(s, at);
                ws_end_bounds(s, next + 1);
            }
            if next < s.len() && s[next] == ',' {
                match members_at(s, ws_end(s, next + 1)) {
                    Some(rest) => Some(seq![field] + rest),
                    None => None,
                }
            } else if next < s.len() && s[next] == '}' && ws_end(s, next + 1) == s.len() {
                Some(seq![field])
            } else {
                None
            }
        },
        None => None,
    }
}

/// Whether no key occurs twice.
pub open spec fn distinct_keys(fs: MetaFields) -> bool {
    forall|i: int, j: int| 0 <= i < j < fs.len() ==> (#[trigger] fs[i]).0 != (#[trigger] fs[j]).0
}

/// The fields of a document, if the text is one: one flat object, no key twice, nothing after it.
pub open spec fn document(s: Seq<char>) -> Option<MetaFields> {
    let open = ws_end(s, 0);
    if !(open < s.len() && s[open] == '{') {
        None
    } else {
        let first = ws_end(s, open + 1);
        if first < s.len() && s[first] == '}' {
            if ws_end(s, first + 1) == s.len() {
                Some(seq![])
            } else {
                None
            }
        } else {
            match members_at(s, first) {
                Some(fs) => if distinct_keys(fs) {
                    Some(fs)
                } else {
                    None
                },
                None => None,
            }
        }
    }
}

// --- Bounds ----------------------------------------------------------------------------------

pub proof fn ws_end_bounds(s: Seq<char>, at: int)
    ensures
        at <= ws_end(s, at),
        at <= s.len() ==> ws_end(s, at) <= s.len(),
    decreases s.len() - at,
{
    if 0 <= at < s.len() && is_ws(s[at]) {
        ws_end_bounds(s, at + 1);
    }
}

pub proof fn digits_end_bounds(s: Seq<char>, at: int)
    ensures
        at <= digits_end(s, at),
        at <= s.len() ==> digits_end(s, at) <= s.len(),
        forall|i: int| at <= i < digits_end(s, at) ==> 0 <= i < s.len() && is_digit(#[trigger] s[i]),
    decreases s.len() - at,
{
    if 0 <= at < s.len() && is_digit(s[at]) {
        digits_end_bounds(s, at + 1);
    }
}

pub proof fn string_tail_bounds(s: Seq<char>, at: int)
    ensures
        string_tail(s, at) matches Some((t, end)) ==> at < end <= s.len(),
    decreases s.len() - at,
{
    if 0 <= at < s.len() && s[at] != '"' {
        match char_at(s, at) {
            Some((c, next)) => {
                string_tail_bounds(s, next);
            },
            None => {},
        }
    }
}

pub proof fn value_bounds(s: Seq<char>, at: int)
    ensures
        value_at(s, at) matches Some((v, end)) ==> at < end <= s.len(),
{
    if 0 <= at < s.len() {
        string_tail_bounds(s, at + 1);
        let from = if s[at] == '-' { at + 1 } else { at };
        digits_end_bounds(s, from);
    }
}

pub proof fn member_bounds(s: Seq<char>, at: int)
    ensures
        member_at(s, at) matches Some((f, next)) ==> at < next <= s.len(),
{
    string_tail_bounds(s, at + 1);
    match string_at(s, at) {
        Some((key, after_key)) => {
            ws_end_bounds(s, after_key);
            let colon = ws_end(s, after_key);
            ws_end_bounds(s, colon + 1);
            value_bounds(s, ws_end(s, colon + 1));
            match value_at(s, ws_end(s, colon + 1)) {
                Some((v, after_value)) => {
                    ws_end_bounds(s, after_value);
                },
                None => {},
            }
        },
        None => {},
    }
}

// --- A rendered document reads back --------------------------------------------------------------

/// Whether a text stands at a position.
pub open spec fn holds(s: Seq<char>, at: int, t: Seq<char>) -> bool {
    0 <= at && at + t.len() <= s.len() && s.subrange(at, at + t.len()) == t
}

proof fn holds_split(s: Seq<char>, at: int, a: Seq<char>, b: Seq<char>)
    requires
        holds(s, at, a + b),
    ensures
        holds(s, at, a),
        holds(s, at + a.len(), b),
{
    let ab = s.subrange(at, at + a.len() + b.len());
    assert(s.subrange(at, at + a.len()) =~= ab.subrange(0, a.len() as int));
    assert((a + b).subrange(0, a.len() as int) =~= a);
    assert(s.subrange(at + a.len(), at + a.len() + b.len()) =~= ab.subrange(
        a.len() as int,
        (a.len() + b.len()) as int,
    ));
    assert((a + b).subrange(a.len() as int, (a.len() + b.len()) as int) =~= b);
}

proof fn holds_index(s: Seq<char>, at: int, t: Seq<char>, k: int)
    requires
        holds(s, at, t),
        0 <= k < t.len(),
    ensures
        s[at + k] == t[k],
{
    assert(s.subrange(at, at + t.len())[k] == s[at + k]);
}

proof fn ws_end_stays(s: Seq<char>, at: int)
    requires
        at >= s.len() || (0 <= at && !is_ws(s[at])),
    ensures
        ws_end(s, at) == at,
{
}

proof fn escaped_reads_back(s: Seq<char>, at: int, t: Seq<char>)
    requires
        holds(s, at, escaped(t)),
        at + escaped(t).len() < s.len(),
        s[at + escaped(t).len()] == '"',
    ensures
        string_tail(s, at) == Some((t, at + escaped(t).len() + 1)),
    decreases t.len(),
{
    if t.len() == 0 {
        assert(t =~= Seq::<char>::empty());
    } else {
        let c = t[0];
        let e = escape_char(c);
        let rest = t.drop_first();
        holds_split(s, at, e, escaped(rest));
        escaped_reads_back(s, at + e.len(), rest);
        holds_index(s, at, e, 0);
        assert(seq![c] + rest =~= t);
        if c == '"' || c == '\\' {
            holds_index(s, at, e, 1);
        } else if (c as int) < 0x20 {
            holds_index(s, at, e, 1);
            holds_index(s, at, e, 2);
            holds_index(s, at, e, 3);
            holds_index(s, at, e, 4);
            holds_index(s, at, e, 5);
            char_code_nonnegative(c);
            hex_char_value(c as int / 16);
            hex_char_value(c as int % 16);
            assert(hex_value('0') == Some(0int));
            assert(hex4(s, at + 2) == Some(c as int));
            assert(char_at(s, at) == Some((c, at + 6)));
        } else {
            assert(char_at(s, at) == Some((c, at + 1)));
        }
    }
}

proof fn char_code_nonnegative(c: char)
    ensures
        0 <= c as int,
{
}

proof fn quoted_reads_back(s: Seq<char>, at: int, t: Seq<char>)
    requires
        holds(s, at, quoted(t)),
    ensures
        string_at(s, at) == Some((t, at + quoted(t).len())),
{
    holds_split(s, at, seq!['"'] + escaped(t), seq!['"']);
    holds_split(s, at, seq!['"'], escaped(t));
    holds_index(s, at, seq!['"'], 0);
    holds_index(s, at + (seq!['"'] + escaped(t)).len(), seq!['"'], 0);
    escaped_reads_back(s, at + 1, t);
}

proof fn digit_run_ends(s: Seq<char>, at: int, end: int)
    requires
        0 <= at <= end <= s.len(),
        forall|i: int| at <= i < end ==> is_digit(#[trigger] s[i]),
        end < s.len() ==> !is_digit(s[end]),
    ensures
        digits_end(s, at) == end,
    decreases end - at,
{
    if at < end {
        digit_run_ends(s, at + 1, end);
    }
}

proof fn int_reads_back(s: Seq<char>, at: int, n: int)
    requires
        i64::MIN <= n <= i64::MAX,
        holds(s, at, int_text(n)),
        at + int_text(n).len() < s.len(),
        s[at + int_text(n).len()] == ',' || s[at + int_text(n).len()] == '}',
    ensures
        int_at(s, at) == Some((n, at + int_text(n).len())),
        s[at] == '-' || is_digit(s[at]),
{
    let m = (if n < 0 { -n } else { n }) as nat;
    nat_text_denotes(m);
    let digits = nat_text(m);
    if n < 0 {
        holds_split(s, at, seq!['-'], digits);
        holds_index(s, at, seq!['-'], 0);
    }
    let from = if n < 0 { at + 1 } else { at };
    let end = from + digits.len();
    assert forall|i: int| from <= i < end implies is_digit(#[trigger] s[i]) by {
        holds_index(s, from, digits, i - from);
    }
    assert(is_digit(s[from]));
    digit_run_ends(s, from, end);
    assert(s.subrange(from, end) == digits);
}

/// Whether a value is one the column can carry: an integer of 64 bits, or anything else.
pub open spec fn storable_value(v: MetaValue) -> bool {
    v matches MetaValue::Int(n) ==> i64::MIN <= n <= i64::MAX
}

proof fn value_reads_back(s: Seq<char>, at: int, v: MetaValue)
    requires
        storable_value(v),
        holds(s, at, value_text(v)),
        at + value_text(v).len() < s.len(),
        s[at + value_text(v).len()] == ',' || s[at + value_text(v).len()] == '}',
    ensures
        value_at(s, at) == Some((v, at + value_text(v).len())),
        value_text(v).len() > 0,
        !is_ws(s[at]),
{
    match v {
        MetaValue::Text(t) => {
            quoted_reads_back(s, at, t);
        },
        MetaValue::Int(n) => {
            int_reads_back(s, at, n);
        },
        MetaValue::Bool(b) => {
            holds_index(s, at, value_text(v), 0);
        },
    }
}

proof fn field_reads_back(s: Seq<char>, at: int, f: (Seq<char>, MetaValue))
    requires
        storable_value(f.1),
        holds(s, at, field_text(f)),
        at + field_text(f).len() < s.len(),
        s[at + field_text(f).len()] == ',' || s[at + field_text(f).len()] == '}',
    ensures
        member_at(s, at) == Some((f, at + field_text(f).len())),
{
    let key = quoted(f.0);
    holds_split(s, at, key + seq![':'], value_text(f.1));
    holds_split(s, at, key, seq![':']);
    quoted_reads_back(s, at, f.0);
    let colon = at + key.len();
    holds_index(s, colon, seq![':'], 0);
    ws_end_stays(s, colon);
    value_reads_back(s, colon + 1, f.1);
    ws_end_stays(s, colon + 1);
    ws_end_stays(s, colon + 1 + value_text(f.1).len());
}

proof fn fields_read_back(s: Seq<char>, at: int, fs: MetaFields)
    requires
        fs.len() > 0,
        forall|i: int| 0 <= i < fs.len() ==> storable_value((#[trigger] fs[i]).1),
        holds(s, at, fields_text(fs)),
        at + fields_text(fs).len() == s.len() - 1,
        s[s.len() - 1] == '}',
    ensures
        members_at(s, at) == Some(fs),
        s[at] == '"',
    decreases fs.len(),
{
    let f = fs[0];
    if fs.len() == 1 {
        field_reads_back(s, at, f);
        quoted_head(s, at, f);
        ws_end_stays(s, s.len() as int);
        assert(seq![f] =~= fs);
    } else {
        let rest = fs.drop_first();
        holds_split(s, at, field_text(f) + seq![','], fields_text(rest));
        holds_split(s, at, field_text(f), seq![',']);
        let comma = at + field_text(f).len();
        holds_index(s, comma, seq![','], 0);
        field_reads_back(s, at, f);
        quoted_head(s, at, f);
        assert forall|i: int| 0 <= i < rest.len() implies storable_value((#[trigger] rest[i]).1) by {
            assert(rest[i] == fs[i + 1]);
        }
        fields_read_back(s, comma + 1, rest);
        ws_end_stays(s, comma + 1);
        assert(seq![f] + rest =~= fs);
    }
}

proof fn quoted_head(s: Seq<char>, at: int, f: (Seq<char>, MetaValue))
    requires
        holds(s, at, field_text(f)),
    ensures
        s[at] == '"',
{
    holds_index(s, at, field_text(f), 0);
}

/// Reading a rendered document gives its fields back, whatever their texts hold: no key or value
/// can break out of its quotes.
pub proof fn rendered_document_reads_back(fs: MetaFields)
    requires
        distinct_keys(fs),
        forall|i: int| 0 <= i < fs.len() ==> storable_value((#[trigger] fs[i]).1),
    ensures
        document(rendered(fs)) == Some(fs),
{
    let s = rendered(fs);
    assert(s[0] == '{');
    assert(s[s.len() - 1] == '}');
    ws_end_stays(s, 0);
    if fs.len() == 0 {
        assert(s =~= seq!['{', '}']);
        ws_end_stays(s, 1);
        ws_end_stays(s, 2);
        assert(fs =~= MetaFields::empty());
    } else {
        assert(s.subrange(1, 1int + fields_text(fs).len()) =~= fields_text(fs));
        fields_read_back(s, 1, fs);
        ws_end_stays(s, 1);
    }
}

proof fn escaped_has_no_control(t: Seq<char>)
    ensures
        forall|i: int| 0 <= i < escaped(t).len() ==> 0x20 <= (#[trigger] escaped(t)[i]) as int,
    decreases t.len(),
{
    if t.len() > 0 {
        let first = escape_char(t[0]);
        let rest = escaped(t.drop_first());
        char_code_nonnegative(t[0]);
        escaped_has_no_control(t.drop_first());
        assert forall|i: int| 0 <= i < escaped(t).len() implies 0x20 <= (#[trigger] escaped(
            t,
        )[i]) as int by {
            if i >= first.len() {
                assert(escaped(t)[i] == rest[i - first.len()]);
            } else {
                assert(escaped(t)[i] == first[i]);
            }
        }
    }
}

/// A written string reads back: wherever it stands, reading there gives the text that was written
/// and ends right behind it; what stood before is unchanged; and no control character is written,
/// whatever the text holds.
pub proof fn a_written_string_reads_back(before: Seq<char>, t: Seq<char>, after: Seq<char>)
    ensures
        ({
            let out = before + quoted(t);
            &&& string_at(out, before.len() as int) == Some((t, out.len() as int))
            &&& string_at(out + after, before.len() as int) == Some((t, out.len() as int))
            &&& out.take(before.len() as int) == before
            &&& forall|i: int|
                before.len() <= i < out.len() ==> 0x20 <= (#[trigger] out[i]) as int
        }),
{
    let out = before + quoted(t);
    let at = before.len() as int;
    assert(out.subrange(at, at + quoted(t).len()) =~= quoted(t));
    quoted_reads_back(out, at, t);
    assert((out + after).subrange(at, at + quoted(t).len()) =~= quoted(t));
    quoted_reads_back(out + after, at, t);
    assert(out.take(at) =~= before);
    escaped_has_no_control(t);
    assert forall|i: int| at <= i < out.len() implies 0x20 <= (#[trigger] out[i]) as int by {
        let k = i - at;
        assert(out[i] == quoted(t)[k]);
        if 0 < k < quoted(t).len() - 1 {
            assert(quoted(t)[k] == escaped(t)[k - 1]);
        }
    }
}

} // verus!
