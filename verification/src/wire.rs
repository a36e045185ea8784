//! Fixed-width integers as byte strings, and comparison of byte strings.

use vstd::prelude::*;
use vstd::utf8::encode_utf8;
use vstd::utf8::encode_utf8_decode_utf8;

verus! {

/// The number of values that `width` bytes can hold.
pub open spec fn span(width: nat) -> nat
    decreases width,
{
    if width == 0 {
        1
    } else {
        256 * span((width - 1) as nat)
    }
}

/// The `width` low-order bytes of `n`, most significant first.
pub open spec fn be_bytes(n: nat, width: nat) -> Seq<u8>
    decreases width,
{
    if width == 0 {
        Seq::empty()
    } else {
        be_bytes(n / 256, (width - 1) as nat).push((n % 256) as u8)
    }
}

/// The number whose big-endian bytes are `s`.
pub open spec fn be_value(s: Seq<u8>) -> nat
    decreases s.len(),
{
    if s.len() == 0 {
        0
    } else {
        be_value(s.drop_last()) * 256 + s.last() as nat
    }
}

/// The `width` low-order bytes of `n`, least significant first.
pub open spec fn le_bytes(n: nat, width: nat) -> Seq<u8>
    decreases width,
{
    if width == 0 {
        Seq::empty()
    } else {
        seq![(n % 256) as u8] + le_bytes(n / 256, (width - 1) as nat)
    }
}

/// The number whose little-endian bytes are `s`.
pub open spec fn le_value(s: Seq<u8>) -> nat
    decreases s.len(),
{
    if s.len() == 0 {
        0
    } else {
        s[0] as nat + 256 * le_value(s.drop_first())
    }
}

/// `a` sorts strictly before `b` in byte-wise lexicographic order.
pub open spec fn lex_less(a: Seq<u8>, b: Seq<u8>) -> bool {
    exists|i: int| #[trigger] lex_split(a, b, i)
}

/// `a` and `b` agree before position `i`, where `a` ends or has the smaller byte.
pub open spec fn lex_split(a: Seq<u8>, b: Seq<u8>, i: int) -> bool {
    &&& 0 <= i <= a.len()
    &&& i < b.len()
    &&& a.subrange(0, i) == b.subrange(0, i)
    &&& (i == a.len() || a[i] < b[i])
}

pub proof fn lemma_span_values()
    ensures
        span(0) == 1,
        span(1) == 0x100,
        span(2) == 0x1_0000,
        span(4) == 0x1_0000_0000,
        span(8) == 0x1_0000_0000_0000_0000,
{
    reveal_with_fuel(span, 9);
}

/// An encoding has exactly the width asked for.
pub broadcast proof fn lemma_be_bytes_len(n: nat, width: nat)
    ensures
        #[trigger] be_bytes(n, width).len() == width,
    decreases width,
{
    if width > 0 {
        lemma_be_bytes_len(n / 256, (width - 1) as nat);
    }
}

/// Reading back a big-endian encoding gives the number that was encoded.
pub proof fn lemma_be_roundtrip(n: nat, width: nat)
    requires
        n < span(width),
    ensures
        be_value(be_bytes(n, width)) == n,
    decreases width,
{
    lemma_be_bytes_len(n, width);
    if width > 0 {
        lemma_be_roundtrip(n / 256, (width - 1) as nat);
        assert(be_bytes(n, width).drop_last() =~= be_bytes(n / 256, (width - 1) as nat));
    }
}

/// A byte string is the big-endian encoding of the number it denotes.
pub proof fn lemma_be_value_bytes(s: Seq<u8>)
    ensures
        be_value(s) < span(s.len()),
        be_bytes(be_value(s), s.len()) == s,
    decreases s.len(),
{
    if s.len() > 0 {
        lemma_be_value_bytes(s.drop_last());
        let high = be_value(s.drop_last());
        assert((high * 256 + s.last() as nat) / 256 == high);
        assert((high * 256 + s.last() as nat) % 256 == s.last() as nat);
        assert(be_bytes(be_value(s), s.len()) =~= s);
    }
}

pub broadcast proof fn lemma_le_bytes_len(n: nat, width: nat)
    ensures
        #[trigger] le_bytes(n, width).len() == width,
    decreases width,
{
    if width > 0 {
        lemma_le_bytes_len(n / 256, (width - 1) as nat);
    }
}

/// Reading back a little-endian encoding gives the number that was encoded.
pub proof fn lemma_le_roundtrip(n: nat, width: nat)
    requires
        n < span(width),
    ensures
        le_value(le_bytes(n, width)) == n,
    decreases width,
{
    lemma_le_bytes_len(n, width);
    if width > 0 {
        lemma_le_roundtrip(n / 256, (width - 1) as nat);
        assert(le_bytes(n, width).drop_first() =~= le_bytes(n / 256, (width - 1) as nat));
    }
}

/// A byte string is the little-endian encoding of the number it denotes.
pub proof fn lemma_le_value_bytes(s: Seq<u8>)
    ensures
        le_value(s) < span(s.len()),
        le_bytes(le_value(s), s.len()) == s,
    decreases s.len(),
{
    if s.len() > 0 {
        lemma_le_value_bytes(s.drop_first());
        let high = le_value(s.drop_first());
        assert((s[0] as nat + 256 * high) / 256 == high);
        assert((s[0] as nat + 256 * high) % 256 == s[0] as nat);
        assert(le_bytes(le_value(s), s.len()) =~= s);
    }
}

/// Big-endian encodings of one width sort as the numbers do.
pub proof fn lemma_be_order(a: nat, b: nat, width: nat)
    requires
        a < b < span(width),
    ensures
        lex_less(be_bytes(a, width), be_bytes(b, width)),
    decreases width,
{
    lemma_be_bytes_len(a, width);
    lemma_be_bytes_len(b, width);
    let x = be_bytes(a, width);
    let y = be_bytes(b, width);
    let w = (width - 1) as nat;
    lemma_be_bytes_len(a / 256, w);
    lemma_be_bytes_len(b / 256, w);
    let xs = be_bytes(a / 256, w);
    let ys = be_bytes(b / 256, w);
    if a / 256 == b / 256 {
        assert(x.subrange(0, w as int) =~= xs);
        assert(y.subrange(0, w as int) =~= xs);
        assert(lex_split(x, y, w as int));
    } else {
        lemma_be_order(a / 256, b / 256, w);
        let i = choose|i: int| lex_split(xs, ys, i);
        assert(i < w);
        assert(x.subrange(0, i) =~= xs.subrange(0, i));
        assert(y.subrange(0, i) =~= ys.subrange(0, i));
        assert(lex_split(x, y, i));
    }
}

/// A common prefix and any suffixes keep the order of two strings of one length.
pub proof fn lemma_lex_extend(prefix: Seq<u8>, a: Seq<u8>, b: Seq<u8>, s: Seq<u8>, t: Seq<u8>)
    requires
        a.len() == b.len(),
        lex_less(a, b),
    ensures
        lex_less(prefix + a + s, prefix + b + t),
{
    let i = choose|i: int| lex_split(a, b, i);
    let x = prefix + a + s;
    let y = prefix + b + t;
    let j = prefix.len() + i;
    assert forall|k: int| 0 <= k < j implies x[k] == y[k] by {
        if k >= prefix.len() {
            assert(a.subrange(0, i)[k - prefix.len()] == b.subrange(0, i)[k - prefix.len()]);
        }
    }
    assert(x.subrange(0, j) =~= y.subrange(0, j));
    assert(lex_split(x, y, j));
}

/// The first position at which two strings differ or one of them ends.
pub proof fn lemma_lex_first_difference(a: Seq<u8>, b: Seq<u8>) -> (i: int)
    ensures
        0 <= i <= a.len(),
        i <= b.len(),
        a.subrange(0, i) == b.subrange(0, i),
        i == a.len() || i == b.len() || a[i] != b[i],
    decreases a.len(),
{
    if a.len() == 0 {
        assert(a.subrange(0, 0) =~= b.subrange(0, 0));
        0
    } else {
        let i = lemma_lex_first_difference(a.drop_last(), b);
        assert(a.drop_last().subrange(0, i) =~= a.subrange(0, i));
        if i == a.len() - 1 && i < b.len() && a[i] == b[i] {
            assert(a.subrange(0, i + 1) =~= a.subrange(0, i).push(a[i]));
            assert(b.subrange(0, i + 1) =~= b.subrange(0, i).push(b[i]));
            i + 1
        } else {
            i
        }
    }
}

/// No string sorts both before and after another, nor before itself.
pub proof fn lemma_lex_asymmetric(a: Seq<u8>, b: Seq<u8>)
    ensures
        lex_less(a, b) ==> !lex_less(b, a) && a != b,
{
    let i = choose|i: int| lex_split(a, b, i);
    if lex_less(a, b) && lex_less(b, a) {
        let j = choose|j: int| lex_split(b, a, j);
        if j < i {
            assert(a.subrange(0, i)[j] == b.subrange(0, i)[j]);
        } else if i < j {
            assert(a.subrange(0, j)[i] == b.subrange(0, j)[i]);
        }
        assert(false);
    }
}

/// Two strings with the same UTF-8 bytes are the same.
pub proof fn lemma_utf8_injective(a: Seq<char>, b: Seq<char>)
    ensures
        encode_utf8(a) == encode_utf8(b) <==> a == b,
{
    encode_utf8_decode_utf8(a);
    encode_utf8_decode_utf8(b);
}

/// Appends `tail` to `out`.
pub fn put_bytes(out: &mut Vec<u8>, tail: &[u8])
    ensures
        final(out)@ == old(out)@ + tail@,
{
    out.extend_from_slice(tail);
    assert(out@ =~= old(out)@ + tail@);
}

fn be_vec(n: u64, width: usize) -> (bytes: Vec<u8>)
    ensures
        bytes@ == be_bytes(n as nat, width as nat),
    decreases width,
{
    if width == 0 {
        Vec::new()
    } else {
        let mut bytes = be_vec(n / 256, width - 1);
        bytes.push((n % 256) as u8);
        bytes
    }
}

/// Appends the `width` low-order bytes of `n`, most significant first.
pub fn put_be(out: &mut Vec<u8>, n: u64, width: usize)
    ensures
        final(out)@ == old(out)@ + be_bytes(n as nat, width as nat),
{
    let mut bytes = be_vec(n, width);
    out.append(&mut bytes);
}

/// Appends the `width` low-order bytes of `n`, least significant first.
pub fn put_le(out: &mut Vec<u8>, n: u64, width: usize)
    ensures
        final(out)@ == old(out)@ + le_bytes(n as nat, width as nat),
    decreases width,
{
    if width > 0 {
        let ghost before = out@;
        out.push((n % 256) as u8);
        put_le(out, n / 256, width - 1);
        assert(out@ =~= before + le_bytes(n as nat, width as nat));
    } else {
        assert(out@ =~= out@ + le_bytes(n as nat, 0));
    }
}

proof fn lemma_span_monotone(a: nat, b: nat)
    requires
        a <= b,
    ensures
        1 <= span(a) <= span(b),
    decreases b,
{
    if a < b {
        lemma_span_monotone(a, (b - 1) as nat);
    } else if b > 0 {
        lemma_span_monotone((a - 1) as nat, (b - 1) as nat);
    }
}

/// Reads the big-endian number in the `width` bytes of `s` from position `at`.
pub fn get_be(s: &[u8], at: usize, width: usize) -> (n: u64)
    requires
        width <= 8,
        at + width <= s@.len(),
    ensures
        n == be_value(s@.subrange(at as int, at + width)),
        n < span(width as nat),
{
    let len: usize = s.len();
    let mut n: u64 = 0;
    let mut i: usize = 0;
    while i < width
        invariant
            i <= width <= 8,
            at + width <= s@.len() == len,
            n == be_value(s@.subrange(at as int, at + i)),
        decreases width - i,
    {
        let ghost part = s@.subrange(at as int, at + i + 1);
        proof {
            lemma_be_value_bytes(part);
            lemma_span_monotone(part.len(), 8);
            lemma_span_values();
            assert(part.drop_last() =~= s@.subrange(at as int, at + i));
        }
        n = n * 256 + s[at + i] as u64;
        i += 1;
    }
    proof {
        lemma_be_value_bytes(s@.subrange(at as int, at + width));
    }
    n
}

/// Reads the little-endian number in the `width` bytes of `s` from position `at`.
pub fn get_le(s: &[u8], at: usize, width: usize) -> (n: u64)
    requires
        width <= 8,
        at + width <= s@.len(),
    ensures
        n == le_value(s@.subrange(at as int, at + width)),
        n < span(width as nat),
{
    let len: usize = s.len();
    let mut n: u64 = 0;
    let mut i: usize = width;
    while i > 0
        invariant
            i <= width <= 8,
            at + width <= s@.len() == len,
            n == le_value(s@.subrange(at + i, at + width)),
        decreases i,
    {
        i -= 1;
        let ghost part = s@.subrange(at + i, at + width);
        proof {
            lemma_le_value_bytes(part);
            lemma_span_monotone(part.len(), 8);
            lemma_span_values();
            assert(part.drop_first() =~= s@.subrange(at + i + 1, at + width));
        }
        n = s[at + i] as u64 + 256 * n;
    }
    proof {
        lemma_le_value_bytes(s@.subrange(at as int, at + width));
    }
    n
}

/// Whether two byte strings are equal.
pub fn same_bytes(a: &[u8], b: &[u8]) -> (same: bool)
    ensures
        same == (a@ == b@),
{
    if a.len() != b.len() {
        return false;
    }
    let mut i: usize = 0;
    while i < a.len()
        invariant
            i <= a@.len(),
            a@.len() == b@.len(),
            a@.subrange(0, i as int) == b@.subrange(0, i as int),
        decreases a@.len() - i,
    {
        if a[i] != b[i] {
            return false;
        }
        assert(a@.subrange(0, i + 1) =~= a@.subrange(0, i as int).push(a@[i as int]));
        assert(b@.subrange(0, i + 1) =~= b@.subrange(0, i as int).push(b@[i as int]));
        i += 1;
    }
    assert(a@.subrange(0, i as int) =~= a@);
    assert(b@.subrange(0, i as int) =~= b@);
    true
}

/// `s` begins with the bytes of `prefix`.
pub open spec fn begins_with(s: Seq<u8>, prefix: Seq<u8>) -> bool {
    s.len() >= prefix.len() && s.subrange(0, prefix.len() as int) == prefix
}

/// Whether `s` begins with `prefix`.
pub fn starts_with(s: &[u8], prefix: &[u8]) -> (starts: bool)
    ensures
        starts == begins_with(s@, prefix@),
{
    if s.len() < prefix.len() {
        return false;
    }
    same_bytes(vstd::slice::slice_subrange(s, 0, prefix.len()), prefix)
}

/// Whether two strings are equal.
pub fn same_str(a: &str, b: &str) -> (same: bool)
    ensures
        same == (a@ == b@),
{
    proof {
        lemma_utf8_injective(a@, b@);
    }
    same_bytes(a.as_bytes(), b.as_bytes())
}

/// Whether the byte `needle` occurs in `s`.
pub fn contains_byte(s: &[u8], needle: u8) -> (found: bool)
    ensures
        found == s@.contains(needle),
{
    let mut i: usize = 0;
    while i < s.len()
        invariant
            i <= s@.len(),
            forall|k: int| 0 <= k < i ==> s@[k] != needle,
        decreases s@.len() - i,
    {
        if s[i] == needle {
            assert(s@[i as int] == needle);
            return true;
        }
        i += 1;
    }
    false
}

/// A byte string with its length in front, as eight bytes.
pub open spec fn long_field(bytes: Seq<u8>) -> Seq<u8> {
    be_bytes(bytes.len(), 8) + bytes
}

/// A string with the length of its UTF-8 bytes in front, as eight bytes.
pub open spec fn long_text(text: Seq<char>) -> Seq<u8> {
    long_field(encode_utf8(text))
}

/// Appends `bytes` with their length in front.
pub fn put_long_field(out: &mut Vec<u8>, bytes: &[u8])
    ensures
        final(out)@ == old(out)@ + long_field(bytes@),
{
    put_be(out, bytes.len() as u64, 8);
    put_bytes(out, bytes);
    assert(out@ =~= old(out)@ + long_field(bytes@));
}

/// Appends the UTF-8 bytes of `text` with their length in front.
pub fn put_long_text(out: &mut Vec<u8>, text: &str)
    ensures
        final(out)@ == old(out)@ + long_text(text@),
{
    put_long_field(out, text.as_bytes());
}

/// A byte string is short enough for an eight-byte length.
pub open spec fn countable(bytes: Seq<u8>) -> bool {
    bytes.len() <= u64::MAX
}

/// A length-prefixed field can be taken off the front of a string in one way only.
pub proof fn lemma_long_field_split(a: Seq<u8>, x: Seq<u8>, b: Seq<u8>, y: Seq<u8>)
    requires
        countable(a),
        countable(b),
        long_field(a) + x == long_field(b) + y,
    ensures
        a == b,
        x == y,
{
    let s = long_field(a) + x;
    let t = long_field(b) + y;
    lemma_span_values();
    lemma_be_bytes_len(a.len(), 8);
    lemma_be_bytes_len(b.len(), 8);
    lemma_be_roundtrip(a.len(), 8);
    lemma_be_roundtrip(b.len(), 8);
    assert(s.subrange(0, 8) =~= be_bytes(a.len(), 8));
    assert(t.subrange(0, 8) =~= be_bytes(b.len(), 8));
    let n = a.len() as int;
    assert(s.subrange(8, 8 + n) =~= a);
    assert(t.subrange(8, 8 + n) =~= b);
    assert(s.subrange(8 + n, s.len() as int) =~= x);
    assert(t.subrange(8 + n, t.len() as int) =~= y);
}

/// A length-prefixed string can be taken off the front in one way only.
pub proof fn lemma_long_text_split(a: Seq<char>, x: Seq<u8>, b: Seq<char>, y: Seq<u8>)
    requires
        countable(encode_utf8(a)),
        countable(encode_utf8(b)),
        long_text(a) + x == long_text(b) + y,
    ensures
        a == b,
        x == y,
{
    lemma_long_field_split(encode_utf8(a), x, encode_utf8(b), y);
    lemma_utf8_injective(a, b);
}

/// A number of fixed width can be taken off the front in one way only.
pub proof fn lemma_be_split(a: nat, x: Seq<u8>, b: nat, y: Seq<u8>, width: nat)
    requires
        a < span(width),
        b < span(width),
        be_bytes(a, width) + x == be_bytes(b, width) + y,
    ensures
        a == b,
        x == y,
{
    lemma_be_bytes_len(a, width);
    lemma_be_bytes_len(b, width);
    lemma_fixed_split(be_bytes(a, width), x, be_bytes(b, width), y);
    lemma_be_roundtrip(a, width);
    lemma_be_roundtrip(b, width);
}

/// A part of known length can be taken off the front in one way only.
pub proof fn lemma_fixed_split(a: Seq<u8>, x: Seq<u8>, b: Seq<u8>, y: Seq<u8>)
    requires
        a.len() == b.len(),
        a + x == b + y,
    ensures
        a == b,
        x == y,
{
    let s = a + x;
    let t = b + y;
    let n = a.len() as int;
    assert(s.subrange(0, n) =~= a);
    assert(t.subrange(0, n) =~= b);
    assert(s.subrange(n, s.len() as int) =~= x);
    assert(t.subrange(n, t.len() as int) =~= y);
}

} // verus!
