//! Text building blocks: decimal and hexadecimal rendering, equality, concatenation.
use vstd::prelude::*;
use vstd::string::StringExecFns;

verus! {

/// `String::push` appends one character at the end of the text.
pub assume_specification[ String::push ](text: &mut String, c: char)
    ensures
        final(text)@ == old(text)@.push(c),
;

/// Whether two texts hold the same characters.
pub fn same(a: &str, b: &str) -> (r: bool)
    ensures
        r == (a@ == b@),
{
    a.to_owned() == b.to_owned()
}

/// The characters of a text, in order.
pub fn chars_of(text: &str) -> (r: Vec<char>)
    ensures
        r@ == text@,
{
    let mut out: Vec<char> = Vec::new();
    for c in it: text.chars()
        invariant
            out@ == it.seq().take(it.index() as int),
            it.seq() == text@,
    {
        out.push(c);
    }
    out
}

/// A text holding the given characters.
pub fn text_of(chars: &[char]) -> (r: String)
    ensures
        r@ == chars@,
{
    let mut out = String::new();
    let mut i: usize = 0;
    while i < chars.len()
        invariant
            i <= chars.len(),
            out@ == chars@.take(i as int),
        decreases chars.len() - i,
    {
        out.push(chars[i]);
        i = i + 1;
    }
    out
}

/// Two texts joined.
pub fn join2(a: &str, b: &str) -> (r: String)
    ensures
        r@ == a@ + b@,
{
    let mut out = a.to_owned();
    out.append(b);
    out
}

/// Three texts joined.
pub fn join3(a: &str, b: &str, c: &str) -> (r: String)
    ensures
        r@ == a@ + b@ + c@,
{
    let mut out = a.to_owned();
    out.append(b);
    out.append(c);
    out
}

/// The decimal digit of a number below ten.
pub open spec fn digit_char(d: int) -> char {
    (48 + d) as char
}

/// A natural number in decimal, without leading zeros.
pub open spec fn nat_text(n: nat) -> Seq<char>
    decreases n,
{
    if n < 10 {
        seq![digit_char(n as int)]
    } else {
        nat_text(n / 10).push(digit_char((n % 10) as int))
    }
}

/// An integer in decimal: a minus sign for a negative one, then its magnitude.
pub open spec fn int_text(n: int) -> Seq<char> {
    if n < 0 {
        seq!['-'] + nat_text((-n) as nat)
    } else {
        nat_text(n as nat)
    }
}

/// Appends a natural number in decimal.
pub fn push_nat(out: &mut String, n: u64)
    ensures
        final(out)@ == old(out)@ + nat_text(n as nat),
    decreases n,
{
    if n >= 10 {
        push_nat(out, n / 10);
    }
    let d: u8 = (n % 10) as u8;
    let ghost before = out@;
    out.push((48u8 + d) as char);
    proof {
        assert(before.push(digit_char((n % 10) as int)) =~= old(out)@ + nat_text(n as nat));
    }
}

/// Appends an integer in decimal.
pub fn push_int(out: &mut String, n: i64)
    ensures
        final(out)@ == old(out)@ + int_text(n as int),
{
    if n < 0 {
        out.push('-');
        let magnitude: u64 = if n == i64::MIN {
            9223372036854775808
        } else {
            (-n) as u64
        };
        push_nat(out, magnitude);
        proof {
            assert(old(out)@.push('-') + nat_text((-n) as nat) =~= old(out)@ + int_text(n as int));
        }
    } else {
        push_nat(out, n as u64);
    }
}

/// A natural number in decimal.
pub fn nat_string(n: u64) -> (r: String)
    ensures
        r@ == nat_text(n as nat),
{
    let mut out = String::new();
    push_nat(&mut out, n);
    proof {
        assert(Seq::<char>::empty() + nat_text(n as nat) =~= nat_text(n as nat));
    }
    out
}

/// An integer in decimal.
pub fn int_string(n: i64) -> (r: String)
    ensures
        r@ == int_text(n as int),
{
    let mut out = String::new();
    push_int(&mut out, n);
    proof {
        assert(Seq::<char>::empty() + int_text(n as int) =~= int_text(n as int));
    }
    out
}

/// Whether a character is a decimal digit.
pub open spec fn is_digit(c: char) -> bool {
    '0' <= c && c <= '9'
}

/// The value of a run of decimal digits, most significant first.
pub open spec fn digits_value(s: Seq<char>) -> nat
    decreases s.len(),
{
    if s.len() == 0 {
        0
    } else {
        digits_value(s.drop_last()) * 10 + ((s.last() as int - 48) as nat)
    }
}

/// Decimal rendering produces digits only, at least one, and they denote the number.
pub proof fn nat_text_denotes(n: nat)
    ensures
        nat_text(n).len() > 0,
        forall|i: int| 0 <= i < nat_text(n).len() ==> is_digit(#[trigger] nat_text(n)[i]),
        digits_value(nat_text(n)) == n,
    decreases n,
{
    reveal_with_fuel(digits_value, 2);
    if n < 10 {
        assert(seq![digit_char(n as int)].drop_last() =~= Seq::<char>::empty());
    } else {
        nat_text_denotes(n / 10);
        assert(nat_text(n).drop_last() =~= nat_text(n / 10));
        assert((n / 10) * 10 + n % 10 == n);
    }
}

/// Two numbers with the same decimal text are the same number.
pub proof fn nat_text_injective(a: nat, b: nat)
    requires
        nat_text(a) == nat_text(b),
    ensures
        a == b,
{
    nat_text_denotes(a);
    nat_text_denotes(b);
}

/// Two integers with the same decimal text are the same integer.
pub proof fn int_text_injective(a: int, b: int)
    requires
        int_text(a) == int_text(b),
    ensures
        a == b,
{
    if a < 0 {
        nat_text_denotes((-a) as nat);
        assert(int_text(a)[0] == '-');
    } else {
        nat_text_denotes(a as nat);
        assert(is_digit(int_text(a)[0]));
    }
    if b < 0 {
        nat_text_denotes((-b) as nat);
        assert(int_text(b)[0] == '-');
    } else {
        nat_text_denotes(b as nat);
        assert(is_digit(int_text(b)[0]));
    }
    if a < 0 && b < 0 {
        assert(int_text(a).drop_first() =~= nat_text((-a) as nat));
        assert(int_text(b).drop_first() =~= nat_text((-b) as nat));
    }
}

// --- Reading numbers ---------------------------------------------------------------------------------

/// The number a text of decimal digits denotes, if it is one: at least one digit and nothing else.
pub open spec fn digits_named(s: Seq<char>) -> Option<nat> {
    if s.len() > 0 && (forall|i: int| 0 <= i < s.len() ==> is_digit(#[trigger] s[i])) {
        Some(digits_value(s))
    } else {
        None
    }
}

proof fn digits_grow(s: Seq<char>, n: int)
    requires
        0 <= n <= s.len(),
        forall|i: int| 0 <= i < s.len() ==> is_digit(#[trigger] s[i]),
    ensures
        digits_value(s.take(n)) <= digits_value(s),
    decreases s.len() - n,
{
    if n < s.len() {
        assert(s.take(n + 1).drop_last() =~= s.take(n));
        assert(s.take(n + 1).last() == s[n]);
        digits_grow(s, n + 1);
    } else {
        assert(s.take(n) =~= s);
    }
}

/// Reads decimal digits from a position on, as far as the number fits.
fn digits_from(chars: &Vec<char>, from: usize) -> (r: Option<u64>)
    requires
        from <= chars@.len(),
    ensures
        match r {
            Some(value) => digits_named(chars@.skip(from as int)) == Some(value as nat),
            None => match digits_named(chars@.skip(from as int)) {
                Some(value) => value > u64::MAX,
                None => true,
            },
        },
{
    let ghost all = chars@.skip(from as int);
    if from == chars.len() {
        return None;
    }
    let mut value: u64 = 0;
    let mut i: usize = from;
    assert(all.take(0) =~= Seq::<char>::empty());
    while i < chars.len()
        invariant
            from <= i <= chars@.len(),
            all == chars@.skip(from as int),
            value == digits_value(all.take(i - from)),
            forall|k: int| 0 <= k < i - from ==> is_digit(#[trigger] all[k]),
        decreases chars@.len() - i,
    {
        let c = chars[i];
        proof {
            assert(all[i - from] == c);
            assert(all.take(i - from + 1).drop_last() =~= all.take(i - from));
            assert(all.take(i - from + 1).last() == c);
        }
        if c < '0' || '9' < c {
            return None;
        }
        let d: u64 = (c as u32 - 48) as u64;
        let wide: u128 = value as u128 * 10 + d as u128;
        if wide > u64::MAX as u128 {
            proof {
                if digits_named(all) is Some {
                    digits_grow(all, i - from + 1);
                }
            }
            return None;
        }
        value = wide as u64;
        i = i + 1;
    }
    assert(all.take(i - from) =~= all);
    Some(value)
}

/// The integer a text denotes as `i64` reads one: an optional sign, decimal digits, in range.
pub open spec fn i64_named(text: Seq<char>) -> Option<i64> {
    if text.len() > 0 && text[0] == '-' {
        match digits_named(text.skip(1)) {
            Some(n) => if n <= 0x8000_0000_0000_0000 {
                Some((-(n as int)) as i64)
            } else {
                None
            },
            None => None,
        }
    } else {
        let digits = if text.len() > 0 && text[0] == '+' {
            text.skip(1)
        } else {
            text
        };
        match digits_named(digits) {
            Some(n) => if n <= i64::MAX {
                Some(n as i64)
            } else {
                None
            },
            None => None,
        }
    }
}

/// Reads an `i64`.
pub fn parse_i64(text: &str) -> (r: Option<i64>)
    ensures
        r == i64_named(text@),
{
    let chars = chars_of(text);
    if chars.len() > 0 && chars[0] == '-' {
        match digits_from(&chars, 1) {
            Some(n) => {
                if n < 0x8000_0000_0000_0000 {
                    Some(-(n as i64))
                } else if n == 0x8000_0000_0000_0000 {
                    Some(i64::MIN)
                } else {
                    None
                }
            },
            None => None,
        }
    } else {
        let from: usize = if chars.len() > 0 && chars[0] == '+' {
            1
        } else {
            0
        };
        assert(chars@.skip(0) =~= chars@);
        match digits_from(&chars, from) {
            Some(n) => {
                if n <= i64::MAX as u64 {
                    Some(n as i64)
                } else {
                    None
                }
            },
            None => None,
        }
    }
}

/// The number a text denotes as `u32` reads one: an optional plus sign, decimal digits, in range.
pub open spec fn u32_named(text: Seq<char>) -> Option<u32> {
    let digits = if text.len() > 0 && text[0] == '+' {
        text.skip(1)
    } else {
        text
    };
    match digits_named(digits) {
        Some(n) => if n <= u32::MAX {
            Some(n as u32)
        } else {
            None
        },
        None => None,
    }
}

/// Reads a `u32` from characters.
pub fn parse_u32_chars(chars: &Vec<char>) -> (r: Option<u32>)
    ensures
        r == u32_named(chars@),
{
    let from: usize = if chars.len() > 0 && chars[0] == '+' {
        1
    } else {
        0
    };
    assert(chars@.skip(0) =~= chars@);
    match digits_from(chars, from) {
        Some(n) => {
            if n <= u32::MAX as u64 {
                Some(n as u32)
            } else {
                None
            }
        },
        None => None,
    }
}

/// A number written in decimal reads back.
pub proof fn a_written_number_reads_back(n: nat)
    ensures
        n <= i64::MAX ==> i64_named(nat_text(n)) == Some(n as i64),
        n <= u32::MAX ==> u32_named(nat_text(n)) == Some(n as u32),
{
    nat_text_denotes(n);
    assert(is_digit(nat_text(n)[0]));
}

// --- Words -------------------------------------------------------------------------------------------

/// Whether a character is white space: the Unicode `White_Space` property.
pub open spec fn is_white(c: char) -> bool {
    ||| '\u{9}' <= c && c <= '\u{d}'
    ||| c == '\u{20}'
    ||| c == '\u{85}'
    ||| c == '\u{a0}'
    ||| c == '\u{1680}'
    ||| '\u{2000}' <= c && c <= '\u{200a}'
    ||| c == '\u{2028}'
    ||| c == '\u{2029}'
    ||| c == '\u{202f}'
    ||| c == '\u{205f}'
    ||| c == '\u{3000}'
}

/// Decides whether a character is white space.
pub fn white(c: char) -> (r: bool)
    ensures
        r == is_white(c),
{
    ('\u{9}' <= c && c <= '\u{d}') || c == '\u{20}' || c == '\u{85}' || c == '\u{a0}' || c == '\u{1680}'
        || ('\u{2000}' <= c && c <= '\u{200a}') || c == '\u{2028}' || c == '\u{2029}' || c == '\u{202f}'
        || c == '\u{205f}' || c == '\u{3000}'
}

/// The words of a text with a word being read: maximal runs of characters that are not white space.
pub open spec fn words_after(done: Seq<Seq<char>>, word: Seq<char>, rest: Seq<char>) -> Seq<Seq<char>>
    decreases rest.len(),
{
    let closed = if word.len() > 0 {
        done.push(word)
    } else {
        done
    };
    if rest.len() == 0 {
        closed
    } else if is_white(rest[0]) {
        words_after(closed, Seq::empty(), rest.skip(1))
    } else {
        words_after(done, word.push(rest[0]), rest.skip(1))
    }
}

/// The words of a text: its maximal runs of characters that are not white space.
pub open spec fn words(text: Seq<char>) -> Seq<Seq<char>> {
    words_after(Seq::empty(), Seq::empty(), text)
}

/// Lists of characters on values alone.
pub open spec fn char_lists(lists: Seq<Vec<char>>) -> Seq<Seq<char>> {
    Seq::new(lists.len(), |i: int| lists[i]@)
}

/// Splits characters into words.
pub fn split_words(chars: &Vec<char>) -> (r: Vec<Vec<char>>)
    ensures
        char_lists(r@) == words(chars@),
{
    let mut done: Vec<Vec<char>> = Vec::new();
    let mut word: Vec<char> = Vec::new();
    let mut i: usize = 0;
    assert(chars@.skip(0) =~= chars@);
    assert(char_lists(done@) =~= Seq::<Seq<char>>::empty());
    while i < chars.len()
        invariant
            i <= chars@.len(),
            words(chars@) == words_after(char_lists(done@), word@, chars@.skip(i as int)),
        decreases chars@.len() - i,
    {
        let c = chars[i];
        let ghost before = char_lists(done@);
        assert(chars@.skip(i as int)[0] == c);
        assert(chars@.skip(i as int).skip(1) =~= chars@.skip(i + 1));
        if white(c) {
            if word.len() > 0 {
                let ghost held = word@;
                done.push(word);
                assert(char_lists(done@) =~= before.push(held));
                word = Vec::new();
            }
            assert(word@ =~= Seq::<char>::empty());
        } else {
            word.push(c);
        }
        i = i + 1;
    }
    if word.len() > 0 {
        let ghost before = char_lists(done@);
        let ghost held = word@;
        done.push(word);
        assert(char_lists(done@) =~= before.push(held));
    }
    done
}

/// Whether a text is one word: not empty, and without white space.
pub open spec fn is_word(text: Seq<char>) -> bool {
    text.len() > 0 && forall|i: int| 0 <= i < text.len() ==> !is_white(#[trigger] text[i])
}

/// A word that is read before white space is the next word.
pub proof fn a_word_is_read(done: Seq<Seq<char>>, read: Seq<char>, left: Seq<char>, rest: Seq<char>)
    requires
        forall|i: int| 0 <= i < left.len() ==> !is_white(#[trigger] left[i]),
        read.len() + left.len() > 0,
        rest.len() == 0 || is_white(rest[0]),
    ensures
        words_after(done, read, left + rest) == (if rest.len() == 0 {
            done.push(read + left)
        } else {
            words_after(done.push(read + left), Seq::empty(), rest.skip(1))
        }),
    decreases left.len(),
{
    let all = left + rest;
    if left.len() == 0 {
        assert(all =~= rest);
        assert(read + left =~= read);
    } else {
        assert(all[0] == left[0]);
        assert(all.skip(1) =~= left.skip(1) + rest);
        assert(read.push(left[0]) + left.skip(1) =~= read + left);
        a_word_is_read(done, read.push(left[0]), left.skip(1), rest);
    }
}

/// The characters up to the first of a kind, or all of them.
pub open spec fn until(text: Seq<char>, stop: char) -> Seq<char>
    decreases text.len(),
{
    if text.len() == 0 || text[0] == stop {
        Seq::empty()
    } else {
        seq![text[0]] + until(text.skip(1), stop)
    }
}

/// The position of the first of a kind, or the end.
pub fn find_char(chars: &Vec<char>, from: usize, stop: char) -> (r: usize)
    requires
        from <= chars@.len(),
    ensures
        from <= r <= chars@.len(),
        r < chars@.len() ==> chars@[r as int] == stop,
        forall|k: int| from <= k < r ==> #[trigger] chars@[k] != stop,
        chars@.subrange(from as int, r as int) == until(chars@.skip(from as int), stop),
{
    let mut i: usize = from;
    while i < chars.len() && chars[i] != stop
        invariant
            from <= i <= chars@.len(),
            forall|k: int| from <= k < i ==> #[trigger] chars@[k] != stop,
        decreases chars@.len() - i,
    {
        i = i + 1;
    }
    proof {
        until_is(chars@.skip(from as int), stop, i - from);
        assert(chars@.skip(from as int).take(i - from) =~= chars@.subrange(from as int, i as int));
    }
    i
}

/// What stands before a position without the stop, where the position is the stop or the end.
pub proof fn until_is(text: Seq<char>, stop: char, n: int)
    requires
        0 <= n <= text.len(),
        forall|k: int| 0 <= k < n ==> #[trigger] text[k] != stop,
        n < text.len() ==> text[n] == stop,
    ensures
        until(text, stop) == text.take(n),
    decreases n,
{
    if n == 0 {
        assert(text.take(0) =~= Seq::<char>::empty());
    } else {
        assert forall|k: int| 0 <= k < n - 1 implies #[trigger] text.skip(1)[k] != stop by {
            assert(text[k + 1] != stop);
        }
        until_is(text.skip(1), stop, n - 1);
        assert(text.take(n) =~= seq![text[0]] + text.skip(1).take(n - 1));
    }
}

/// Copies part of a list of characters.
pub fn part(chars: &Vec<char>, from: usize, to: usize) -> (r: Vec<char>)
    requires
        from <= to <= chars@.len(),
    ensures
        r@ == chars@.subrange(from as int, to as int),
{
    let mut out: Vec<char> = Vec::new();
    let mut i: usize = from;
    while i < to
        invariant
            from <= i <= to <= chars@.len(),
            out@ == chars@.subrange(from as int, i as int),
        decreases to - i,
    {
        out.push(chars[i]);
        i = i + 1;
    }
    out
}

/// Whether characters are those of a text.
pub fn spells(chars: &Vec<char>, text: &str) -> (r: bool)
    ensures
        r == (chars@ == text@),
{
    let other = chars_of(text);
    if chars.len() != other.len() {
        return false;
    }
    let mut i: usize = 0;
    while i < chars.len()
        invariant
            i <= chars@.len(),
            chars@.len() == other@.len(),
            other@ == text@,
            forall|k: int| 0 <= k < i ==> chars@[k] == other@[k],
        decreases chars@.len() - i,
    {
        if chars[i] != other[i] {
            return false;
        }
        i = i + 1;
    }
    assert(chars@ =~= text@);
    true
}

// --- Dictionary order --------------------------------------------------------------------------------

/// Whether one text comes before another in dictionary order, from a position up to which they agree.
pub open spec fn before_from(a: Seq<char>, b: Seq<char>, i: int) -> bool
    decreases a.len() - i,
{
    if i >= b.len() {
        false
    } else if i >= a.len() {
        true
    } else if a[i] == b[i] {
        before_from(a, b, i + 1)
    } else {
        a[i] < b[i]
    }
}

/// Whether one text comes before another in dictionary order of their characters.
pub open spec fn text_before(a: Seq<char>, b: Seq<char>) -> bool {
    before_from(a, b, 0)
}

/// Decides whether one text comes before another in dictionary order.
pub fn is_before(a: &str, b: &str) -> (r: bool)
    ensures
        r == text_before(a@, b@),
{
    let first = chars_of(a);
    let second = chars_of(b);
    let mut i: usize = 0;
    while i < first.len()
        invariant
            i <= first@.len(),
            first@ == a@,
            second@ == b@,
            text_before(a@, b@) == before_from(a@, b@, i as int),
        decreases first@.len() - i,
    {
        if i >= second.len() {
            return false;
        }
        if first[i] != second[i] {
            return first[i] < second[i];
        }
        i = i + 1;
    }
    i < second.len()
}

proof fn before_from_orders(a: Seq<char>, b: Seq<char>, i: int)
    requires
        0 <= i <= a.len(),
        i <= b.len(),
        forall|k: int| 0 <= k < i ==> a[k] == b[k],
    ensures
        !(before_from(a, b, i) && before_from(b, a, i)),
        a == b || before_from(a, b, i) || before_from(b, a, i),
        a == b ==> !before_from(a, b, i),
    decreases a.len() - i,
{
    if i < a.len() && i < b.len() && a[i] == b[i] {
        before_from_orders(a, b, i + 1);
    }
    if i == a.len() && i == b.len() {
        assert(a =~= b);
    }
}

proof fn before_from_chains(a: Seq<char>, b: Seq<char>, c: Seq<char>, i: int)
    requires
        0 <= i,
        before_from(a, b, i),
        before_from(b, c, i),
    ensures
        before_from(a, c, i),
    decreases a.len() - i,
{
    if i < a.len() && a[i] == b[i] && b[i] == c[i] {
        before_from_chains(a, b, c, i + 1);
    }
}

/// Dictionary order is a strict total order: of two texts exactly one holds of equal, before and
/// after.
pub proof fn dictionary_order_is_total(a: Seq<char>, b: Seq<char>)
    ensures
        a == b ==> !text_before(a, b),
        a != b ==> text_before(a, b) != text_before(b, a),
{
    before_from_orders(a, b, 0);
}

/// Dictionary order is transitive.
pub proof fn dictionary_order_chains(a: Seq<char>, b: Seq<char>, c: Seq<char>)
    requires
        text_before(a, b),
        text_before(b, c),
    ensures
        text_before(a, c),
{
    before_from_chains(a, b, c, 0);
}

// --- Sets of texts -----------------------------------------------------------------------------------

/// The texts of strings, in order.
pub open spec fn string_texts(names: Seq<String>) -> Seq<Seq<char>> {
    Seq::new(names.len(), |i: int| names[i]@)
}

/// Whether texts stand in strict dictionary order, so that none occurs twice.
pub open spec fn in_order(names: Seq<Seq<char>>) -> bool {
    forall|i: int, j: int| 0 <= i < j < names.len() ==> text_before(#[trigger] names[i], #[trigger] names[j])
}

/// Texts of which each comes before the next stand in dictionary order.
pub proof fn neighbours_in_order(names: Seq<Seq<char>>)
    requires
        forall|i: int| 0 <= i < names.len() - 1 ==> text_before(#[trigger] names[i], names[i + 1]),
    ensures
        in_order(names),
{
    assert forall|i: int, j: int| 0 <= i < j < names.len() implies text_before(
        #[trigger] names[i],
        #[trigger] names[j],
    ) by {
        reaches(names, i, j);
    }
}

proof fn reaches(names: Seq<Seq<char>>, i: int, j: int)
    requires
        0 <= i < j < names.len(),
        forall|k: int| 0 <= k < names.len() - 1 ==> text_before(#[trigger] names[k], names[k + 1]),
    ensures
        text_before(names[i], names[j]),
    decreases j - i,
{
    if i + 1 < j {
        reaches(names, i, j - 1);
        dictionary_order_chains(names[i], names[j - 1], names[j]);
    }
}

/// A text comes before another where the first character in which they differ is lower.
pub proof fn decided_at(a: Seq<char>, b: Seq<char>, k: int)
    requires
        0 <= k < a.len(),
        k < b.len(),
        forall|i: int| 0 <= i < k ==> a[i] == b[i],
        a[k] < b[k],
    ensures
        text_before(a, b),
{
    decided_from(a, b, k, 0);
}

proof fn decided_from(a: Seq<char>, b: Seq<char>, k: int, i: int)
    requires
        0 <= i <= k < a.len(),
        k < b.len(),
        forall|j: int| 0 <= j < k ==> a[j] == b[j],
        a[k] < b[k],
    ensures
        before_from(a, b, i),
    decreases k - i,
{
    if i < k {
        decided_from(a, b, k, i + 1);
    }
}

/// Whether two lists of texts hold the same texts.
pub open spec fn same_texts(a: Seq<Seq<char>>, b: Seq<Seq<char>>) -> bool {
    forall|name: Seq<char>| #[trigger] a.contains(name) <==> b.contains(name)
}

/// The texts of a list, each once, in dictionary order.
pub open spec fn dictionary(names: Seq<Seq<char>>) -> Seq<Seq<char>> {
    choose|list: Seq<Seq<char>>| #[trigger] in_order(list) && same_texts(list, names)
}

/// A list in order that holds the texts is their dictionary.
pub proof fn dictionary_is(names: Seq<Seq<char>>, list: Seq<Seq<char>>)
    requires
        in_order(list),
        same_texts(list, names),
    ensures
        dictionary(names) == list,
{
    let chosen = dictionary(names);
    assert(in_order(chosen) && same_texts(chosen, names));
    assert forall|name: Seq<char>| #[trigger] chosen.contains(name) <==> list.contains(name) by {
        assert(chosen.contains(name) <==> names.contains(name));
        assert(list.contains(name) <==> names.contains(name));
    }
    an_ordered_list_is_its_texts(chosen, list);
}

proof fn place_in(list: Seq<Seq<char>>, name: Seq<char>) -> (p: int)
    requires
        in_order(list),
        !list.contains(name),
    ensures
        0 <= p <= list.len(),
        forall|i: int| 0 <= i < p ==> text_before(#[trigger] list[i], name),
        forall|i: int| p <= i < list.len() ==> text_before(name, #[trigger] list[i]),
    decreases list.len(),
{
    if list.len() == 0 {
        0
    } else {
        let n = list.len() - 1;
        dictionary_order_is_total(list[n], name);
        if text_before(list[n], name) {
            assert forall|i: int| 0 <= i < n + 1 implies text_before(#[trigger] list[i], name) by {
                if i < n {
                    dictionary_order_chains(list[i], list[n], name);
                }
            }
            n + 1
        } else {
            assert forall|t: Seq<char>| #[trigger] list.drop_last().contains(t) implies list.contains(
                t,
            ) by {
                let k = choose|k: int| 0 <= k < n && list.drop_last()[k] == t;
                assert(list[k] == t);
            }
            let p = place_in(list.drop_last(), name);
            assert forall|i: int| 0 <= i < p implies text_before(#[trigger] list[i], name) by {
                assert(list.drop_last()[i] == list[i]);
            }
            assert forall|i: int| p <= i < list.len() implies text_before(name, #[trigger] list[i]) by {
                if i < n {
                    assert(list.drop_last()[i] == list[i]);
                }
            }
            p
        }
    }
}

/// Every list of texts has a dictionary.
pub proof fn a_dictionary_exists(names: Seq<Seq<char>>)
    ensures
        in_order(dictionary(names)),
        same_texts(dictionary(names), names),
    decreases names.len(),
{
    if names.len() == 0 {
        assert(in_order(names) && same_texts(names, names));
        dictionary_is(names, names);
    } else {
        let rest = names.drop_last();
        let name = names.last();
        a_dictionary_exists(rest);
        let list = dictionary(rest);
        assert forall|t: Seq<char>| #[trigger] names.contains(t) <==> rest.contains(t) || t == name by {
            if names.contains(t) {
                let k = choose|k: int| 0 <= k < names.len() && names[k] == t;
                if k < rest.len() {
                    assert(rest[k] == t);
                }
            }
            if rest.contains(t) {
                let k = choose|k: int| 0 <= k < rest.len() && rest[k] == t;
                assert(names[k] == t);
            }
            assert(names[rest.len() as int] == name);
        }
        if list.contains(name) {
            assert forall|t: Seq<char>| #[trigger] list.contains(t) <==> names.contains(t) by {
                assert(list.contains(t) <==> rest.contains(t));
                assert(list.contains(name) <==> rest.contains(name));
            }
            assert(in_order(list) && same_texts(list, names));
            dictionary_is(names, list);
        } else {
            let p = place_in(list, name);
            let longer = list.insert(p, name);
            assert forall|t: Seq<char>| #[trigger] longer.contains(t) <==> names.contains(t) by {
                assert(list.contains(t) <==> rest.contains(t));
                assert(names.contains(t) <==> rest.contains(t) || t == name);
                if longer.contains(t) {
                    let k = choose|k: int| 0 <= k < longer.len() && longer[k] == t;
                    if k < p {
                        assert(list[k] == t);
                    } else if k > p {
                        assert(list[k - 1] == t);
                    }
                }
                if list.contains(t) {
                    let k = choose|k: int| 0 <= k < list.len() && list[k] == t;
                    if k < p {
                        assert(longer[k] == t);
                    } else {
                        assert(longer[k + 1] == t);
                    }
                }
                assert(longer[p] == name);
            }
            assert forall|i: int, j: int| 0 <= i < j < longer.len() implies text_before(
                #[trigger] longer[i],
                #[trigger] longer[j],
            ) by {
                if j < p {
                    assert(longer[i] == list[i] && longer[j] == list[j]);
                } else if j == p {
                    assert(longer[i] == list[i]);
                } else if i < p {
                    assert(longer[i] == list[i] && longer[j] == list[j - 1]);
                } else if i == p {
                    assert(longer[j] == list[j - 1]);
                } else {
                    assert(longer[i] == list[i - 1] && longer[j] == list[j - 1]);
                }
            }
            assert(in_order(longer) && same_texts(longer, names));
            dictionary_is(names, longer);
        }
    }
}

/// A list in order is a function of the set of its texts: two lists of the same texts in order are
/// the same list.
pub proof fn an_ordered_list_is_its_texts(a: Seq<Seq<char>>, b: Seq<Seq<char>>)
    requires
        in_order(a),
        in_order(b),
        same_texts(a, b),
    ensures
        a == b,
    decreases a.len(),
{
    if a.len() == 0 {
        if b.len() > 0 {
            assert(b.contains(b[0]));
            assert(a.contains(b[0]));
        }
        assert(a =~= b);
    } else {
        assert(a.contains(a[0]));
        assert(b.contains(a[0]));
        let first = choose|k: int| 0 <= k < b.len() && b[k] == a[0];
        assert(b.contains(b[0]));
        assert(a.contains(b[0]));
        let other = choose|k: int| 0 <= k < a.len() && a[k] == b[0];
        dictionary_order_is_total(a[0], b[0]);
        if first > 0 {
            assert(text_before(b[0], b[first]));
            if other > 0 {
                assert(text_before(a[0], a[other]));
            }
        }
        assert(a[0] == b[0]);
        let rest = a.skip(1);
        let tail = b.skip(1);
        assert forall|i: int, j: int| 0 <= i < j < rest.len() implies text_before(
            #[trigger] rest[i],
            #[trigger] rest[j],
        ) by {
            assert(text_before(a[i + 1], a[j + 1]));
        }
        assert forall|i: int, j: int| 0 <= i < j < tail.len() implies text_before(
            #[trigger] tail[i],
            #[trigger] tail[j],
        ) by {
            assert(text_before(b[i + 1], b[j + 1]));
        }
        assert forall|name: Seq<char>| #[trigger] rest.contains(name) <==> tail.contains(name) by {
            if rest.contains(name) {
                let k = choose|k: int| 0 <= k < rest.len() && rest[k] == name;
                assert(a[k + 1] == name);
                assert(a.contains(name));
                assert(b.contains(name));
                let m = choose|m: int| 0 <= m < b.len() && b[m] == name;
                assert(text_before(a[0], a[k + 1]));
                dictionary_order_is_total(a[0], name);
                assert(m > 0);
                assert(tail[m - 1] == name);
            }
            if tail.contains(name) {
                let k = choose|k: int| 0 <= k < tail.len() && tail[k] == name;
                assert(b[k + 1] == name);
                assert(b.contains(name));
                assert(a.contains(name));
                let m = choose|m: int| 0 <= m < a.len() && a[m] == name;
                assert(text_before(b[0], b[k + 1]));
                dictionary_order_is_total(b[0], name);
                assert(m > 0);
                assert(rest[m - 1] == name);
            }
        }
        an_ordered_list_is_its_texts(rest, tail);
        assert(a =~= seq![a[0]] + rest);
        assert(b =~= seq![b[0]] + tail);
    }
}

/// Puts one name in its place among names in order; a name that is there already stays one.
fn place(list: &mut Vec<String>, name: &str)
    requires
        in_order(string_texts(old(list)@)),
    ensures
        in_order(string_texts(final(list)@)),
        same_texts(string_texts(final(list)@), string_texts(old(list)@).push(name@)),
{
    let mut at: usize = 0;
    while at < list.len() && is_before(list[at].as_str(), name)
        invariant
            *list == *old(list),
            at <= list@.len(),
            forall|k: int| 0 <= k < at ==> text_before(#[trigger] string_texts(list@)[k], name@),
        decreases list@.len() - at,
    {
        assert(string_texts(list@)[at as int] == list@[at as int]@);
        at = at + 1;
    }
    let ghost held = string_texts(list@);
    if at < list.len() && same(list[at].as_str(), name) {
        proof {
            assert(held[at as int] == name@);
            assert forall|t: Seq<char>| #[trigger] held.contains(t) <==> held.push(name@).contains(t) by {
                if held.contains(t) {
                    let i = choose|i: int| 0 <= i < held.len() && held[i] == t;
                    assert(held.push(name@)[i] == t);
                }
                if held.push(name@).contains(t) {
                    let i = choose|i: int| 0 <= i < held.push(name@).len() && held.push(name@)[i] == t;
                    if i < held.len() {
                        assert(held[i] == t);
                    } else {
                        assert(held[at as int] == t);
                    }
                }
            }
        }
        return ;
    }
    let ghost before = list@;
    list.insert(at, name.to_owned());
    proof {
        let now = string_texts(list@);
        let p = at as int;
        assert(now.len() == held.len() + 1);
        assert forall|i: int| 0 <= i < p implies #[trigger] now[i] == held[i] by {}
        assert(now[p] == name@);
        assert forall|i: int| p < i < now.len() implies #[trigger] now[i] == held[i - 1] by {}
        assert forall|k: int| p <= k < held.len() implies text_before(name@, #[trigger] held[k]) by {
            assert(held[p] == before[p]@);
            dictionary_order_is_total(held[p], name@);
            if p < k {
                dictionary_order_chains(name@, held[p], held[k]);
            }
        }
        assert forall|i: int, j: int| 0 <= i < j < now.len() implies text_before(
            #[trigger] now[i],
            #[trigger] now[j],
        ) by {
            if j < p {
                assert(text_before(held[i], held[j]));
            } else if j == p {
                assert(text_before(held[i], name@));
            } else if i < p {
                assert(text_before(held[i], held[j - 1]));
            } else if i == p {
                assert(text_before(name@, held[j - 1]));
            } else {
                assert(text_before(held[i - 1], held[j - 1]));
            }
        }
        assert forall|t: Seq<char>| #[trigger] now.contains(t) <==> held.push(name@).contains(t) by {
            let all = held.push(name@);
            if now.contains(t) {
                let i = choose|i: int| 0 <= i < now.len() && now[i] == t;
                if i < p {
                    assert(all[i] == t);
                } else if i == p {
                    assert(all[held.len() as int] == t);
                } else {
                    assert(all[i - 1] == t);
                }
            }
            if all.contains(t) {
                let i = choose|i: int| 0 <= i < all.len() && all[i] == t;
                if i == held.len() {
                    assert(now[p] == t);
                } else if i < p {
                    assert(now[i] == t);
                } else {
                    assert(now[i + 1] == t);
                }
            }
        }
    }
}

/// The texts of a list, each once, in dictionary order.
pub fn sorted_set(names: &Vec<String>) -> (r: Vec<String>)
    ensures
        in_order(string_texts(r@)),
        same_texts(string_texts(r@), string_texts(names@)),
        string_texts(r@) == dictionary(string_texts(names@)),
{
    let mut out: Vec<String> = Vec::new();
    let mut i: usize = 0;
    while i < names.len()
        invariant
            i <= names@.len(),
            in_order(string_texts(out@)),
            same_texts(string_texts(out@), string_texts(names@.take(i as int))),
        decreases names@.len() - i,
    {
        let ghost before = string_texts(out@);
        place(&mut out, names[i].as_str());
        proof {
            let done = string_texts(names@.take(i as int));
            let next = string_texts(names@.take(i + 1));
            let name = names@[i as int]@;
            assert(next =~= done.push(name));
            assert forall|t: Seq<char>| #[trigger] string_texts(out@).contains(t) <==> next.contains(t) by {
                let a = before.push(name);
                let b = done.push(name);
                if a.contains(t) {
                    let k = choose|k: int| 0 <= k < a.len() && a[k] == t;
                    if k < before.len() {
                        assert(before.contains(t)) by {
                            assert(before[k] == t);
                        }
                        let m = choose|m: int| 0 <= m < done.len() && done[m] == t;
                        assert(b[m] == t);
                    } else {
                        assert(b[done.len() as int] == t);
                    }
                }
                if b.contains(t) {
                    let k = choose|k: int| 0 <= k < b.len() && b[k] == t;
                    if k < done.len() {
                        assert(done.contains(t)) by {
                            assert(done[k] == t);
                        }
                        assert(before.contains(t));
                        let m = choose|m: int| 0 <= m < before.len() && before[m] == t;
                        assert(a[m] == t);
                    } else {
                        assert(a[before.len() as int] == t);
                    }
                }
            }
        }
        i = i + 1;
    }
    assert(names@.take(i as int) =~= names@);
    proof {
        dictionary_is(string_texts(names@), string_texts(out@));
    }
    out
}

} // verus!
