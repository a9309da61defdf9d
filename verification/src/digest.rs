//! SHA-256 digests, and the lowercase hexadecimal text of one.
use vstd::prelude::*;
use vstd::arithmetic::power::pow;
use sha2::Digest;

verus! {

/// The SHA-256 digest of a byte string.
pub uninterp spec fn sha256_of(data: Seq<u8>) -> Seq<u8>;

/// `sha2::Sha256::digest`: the 32 bytes it returns depend on the hashed bytes alone.
#[verifier::external_body]
pub(crate) fn sha256(data: &[u8]) -> (r: [u8; 32])
    ensures
        r@ == sha256_of(data@),
{
    sha2::Sha256::digest(data).into()
}

/// The lowercase hexadecimal digit of a number below sixteen.
pub open spec fn hex_char(d: int) -> char {
    if d < 10 {
        (48 + d) as char
    } else {
        (87 + d) as char
    }
}

/// The lowercase hexadecimal text of a byte string, two digits per byte.
pub open spec fn hex_text(bytes: Seq<u8>) -> Seq<char> {
    Seq::new(
        2 * bytes.len(),
        |i: int| hex_char(if i % 2 == 0 { bytes[i / 2] as int / 16 } else { bytes[i / 2] as int % 16 }),
    )
}

/// The lowercase hexadecimal digit of a number below sixteen.
pub fn hex_digit(d: u8) -> (r: char)
    requires
        d < 16,
    ensures
        r == hex_char(d as int),
{
    if d < 10 {
        (48u8 + d) as char
    } else {
        (87u8 + d) as char
    }
}

/// Renders bytes as lowercase hexadecimal.
pub fn hex_string(bytes: &[u8]) -> (r: String)
    ensures
        r@ == hex_text(bytes@),
{
    let mut out = String::new();
    let mut i: usize = 0;
    while i < bytes.len()
        invariant
            i <= bytes.len(),
            out@ == hex_text(bytes@.take(i as int)),
        decreases bytes.len() - i,
    {
        let ghost before = out@;
        out.push(hex_digit(bytes[i] / 16));
        out.push(hex_digit(bytes[i] % 16));
        proof {
            let next = bytes@.take(i + 1);
            assert(out@ =~= hex_text(next)) by {
                assert forall|k: int| 0 <= k < hex_text(next).len() implies out@[k] == hex_text(next)[k] by {
                    if k < 2 * i {
                        assert(before[k] == hex_text(bytes@.take(i as int))[k]);
                        assert(bytes@.take(i as int)[k / 2] == next[k / 2]);
                    } else {
                        assert(next[k / 2] == bytes@[i as int]);
                    }
                }
            }
        }
        i = i + 1;
    }
    proof {
        assert(bytes@.take(i as int) =~= bytes@);
    }
    out
}

/// The value of a hexadecimal digit of either case.
pub open spec fn hex_value(c: char) -> Option<int> {
    if '0' <= c && c <= '9' {
        Some(c as int - 48)
    } else if 'a' <= c && c <= 'f' {
        Some(c as int - 87)
    } else if 'A' <= c && c <= 'F' {
        Some(c as int - 55)
    } else {
        None
    }
}

/// The value of a hexadecimal digit of either case, if it is one.
pub fn digit_value(c: char) -> (r: Option<u8>)
    ensures
        match r {
            Some(v) => v < 16 && hex_value(c) == Some(v as int),
            None => hex_value(c) is None,
        },
{
    if '0' <= c && c <= '9' {
        Some((c as u32 - 48) as u8)
    } else if 'a' <= c && c <= 'f' {
        Some((c as u32 - 87) as u8)
    } else if 'A' <= c && c <= 'F' {
        Some((c as u32 - 55) as u8)
    } else {
        None
    }
}

/// Reading a rendered digit gives the digit back.
pub proof fn hex_char_value(d: int)
    requires
        0 <= d < 16,
    ensures
        hex_value(hex_char(d)) == Some(d),
{
}

// --- Framing ---------------------------------------------------------------------------------

/// The low `width` bytes of a number, most significant first.
pub open spec fn be_bytes(value: nat, width: nat) -> Seq<u8>
    decreases width,
{
    if width == 0 {
        Seq::empty()
    } else {
        be_bytes(value / 256, (width - 1) as nat).push((value % 256) as u8)
    }
}

/// Appends the low `width` bytes of a number, most significant first.
pub fn push_be(out: &mut Vec<u8>, value: u128, width: usize)
    ensures
        final(out)@ == old(out)@ + be_bytes(value as nat, width as nat),
    decreases width,
{
    if width > 0 {
        push_be(out, value / 256, width - 1);
        out.push((value % 256) as u8);
    }
    proof {
        assert(out@ =~= old(out)@ + be_bytes(value as nat, width as nat));
    }
}

/// One field of a framed message: its length in eight bytes, then its bytes.
pub open spec fn frame(field: Seq<u8>) -> Seq<u8> {
    be_bytes(field.len(), 8) + field
}

/// A framed message: every field in order.
pub open spec fn framed(fields: Seq<Seq<u8>>) -> Seq<u8>
    decreases fields.len(),
{
    if fields.len() == 0 {
        Seq::empty()
    } else {
        framed(fields.drop_last()) + frame(fields.last())
    }
}

/// Appends one field to a framed message.
pub fn push_frame(out: &mut Vec<u8>, field: &[u8])
    ensures
        final(out)@ == old(out)@ + frame(field@),
{
    push_be(out, field.len() as u128, 8);
    let mut i: usize = 0;
    let ghost start = out@;
    while i < field.len()
        invariant
            i <= field@.len(),
            out@ == start + field@.take(i as int),
        decreases field@.len() - i,
    {
        out.push(field[i]);
        proof {
            assert(field@.take(i + 1) =~= field@.take(i as int).push(field@[i as int]));
        }
        i = i + 1;
    }
    proof {
        assert(field@.take(i as int) =~= field@);
        assert(out@ =~= old(out)@ + frame(field@));
    }
}

/// A number is as many bytes as its width.
pub proof fn be_bytes_len(value: nat, width: nat)
    ensures
        be_bytes(value, width).len() == width,
    decreases width,
{
    if width > 0 {
        be_bytes_len(value / 256, (width - 1) as nat);
    }
}

/// A number that fits its width is told by its bytes.
pub proof fn be_bytes_injective(a: nat, b: nat, width: nat)
    requires
        a < pow(256, width),
        b < pow(256, width),
        be_bytes(a, width) == be_bytes(b, width),
    ensures
        a == b,
    decreases width,
{
    reveal(pow);
    if width > 0 {
        let w = (width - 1) as nat;
        let x = be_bytes(a / 256, w);
        let y = be_bytes(b / 256, w);
        be_bytes_len(a / 256, w);
        be_bytes_len(b / 256, w);
        assert(x =~= x.push((a % 256) as u8).drop_last());
        assert(y =~= y.push((b % 256) as u8).drop_last());
        assert(x.push((a % 256) as u8).last() == (a % 256) as u8);
        assert(y.push((b % 256) as u8).last() == (b % 256) as u8);
        let p = pow(256, w);
        assert(a / 256 < p) by (nonlinear_arith)
            requires
                a < 256 * p,
        ;
        assert(b / 256 < p) by (nonlinear_arith)
            requires
                b < 256 * p,
        ;
        be_bytes_injective(a / 256, b / 256, w);
    }
}

/// Two fields with different contents have frames neither of which begins the other.
proof fn frame_splits(a: Seq<u8>, b: Seq<u8>, s: Seq<u8>, t: Seq<u8>)
    requires
        a.len() < pow(256, 8),
        b.len() < pow(256, 8),
        frame(a) + s == frame(b) + t,
    ensures
        a == b,
        s == t,
{
    be_bytes_len(a.len(), 8);
    be_bytes_len(b.len(), 8);
    let whole = frame(a) + s;
    assert(be_bytes(a.len(), 8) =~= whole.take(8));
    assert((frame(b) + t).take(8) =~= be_bytes(b.len(), 8));
    be_bytes_injective(a.len(), b.len(), 8);
    assert(a =~= whole.subrange(8, 8 + a.len() as int));
    assert(b =~= (frame(b) + t).subrange(8, 8 + b.len() as int));
    assert(s =~= whole.skip(8 + a.len() as int));
    assert(t =~= (frame(b) + t).skip(8 + b.len() as int));
}

proof fn framed_first(fields: Seq<Seq<u8>>)
    requires
        fields.len() > 0,
    ensures
        framed(fields) == frame(fields[0]) + framed(fields.drop_first()),
    decreases fields.len(),
{
    if fields.len() == 1 {
        assert(fields.drop_last() =~= Seq::<Seq<u8>>::empty());
        assert(fields.drop_first() =~= Seq::<Seq<u8>>::empty());
        assert(framed(fields) =~= frame(fields[0]) + framed(fields.drop_first()));
    } else {
        framed_first(fields.drop_last());
        assert(fields.drop_last().drop_first() =~= fields.drop_first().drop_last());
        assert(framed(fields) =~= frame(fields[0]) + framed(fields.drop_first()));
    }
}

/// Framing loses nothing: as many fields that give the same message are the same fields.
pub proof fn framing_is_unambiguous(a: Seq<Seq<u8>>, b: Seq<Seq<u8>>)
    requires
        a.len() == b.len(),
        forall|i: int| 0 <= i < a.len() ==> (#[trigger] a[i]).len() < pow(256, 8),
        forall|i: int| 0 <= i < b.len() ==> (#[trigger] b[i]).len() < pow(256, 8),
        framed(a) == framed(b),
    ensures
        a == b,
    decreases a.len(),
{
    if a.len() > 0 {
        framed_first(a);
        framed_first(b);
        frame_splits(a[0], b[0], framed(a.drop_first()), framed(b.drop_first()));
        framing_is_unambiguous(a.drop_first(), b.drop_first());
        assert(a =~= seq![a[0]] + a.drop_first());
        assert(b =~= seq![b[0]] + b.drop_first());
    } else {
        assert(a =~= b);
    }
}

/// Whether two digests hold the same bytes.
pub fn same_digest(a: &[u8; 32], b: &[u8; 32]) -> (r: bool)
    ensures
        r == (a@ == b@),
{
    let mut i: usize = 0;
    while i < 32
        invariant
            i <= 32,
            a@.len() == 32,
            b@.len() == 32,
            forall|k: int| 0 <= k < i ==> a@[k] == b@[k],
        decreases 32 - i,
    {
        if a[i] != b[i] {
            return false;
        }
        i = i + 1;
    }
    proof {
        assert(a@ =~= b@);
    }
    true
}

} // verus!
