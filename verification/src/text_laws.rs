//! What numbers and bytes look like as text and on the wire.

use crate::fs::layout_laws::big;
use crate::fs::layout_laws::eight;
use crate::fs::layout_laws::lemma_big_at;
use crate::fs::layout_laws::lemma_eight;
use crate::fs::layout_laws::lemma_little_at;
use crate::fs::layout_laws::little;
use crate::text::decimal;
use crate::text::digit;
use crate::text::hex;
use crate::text::hex_byte;
use crate::text::numbered;
use crate::text::put_decimal;
use crate::text::put_hex;
use crate::wire::be_bytes;
use crate::wire::be_value;
use crate::wire::get_be;
use crate::wire::get_le;
use crate::wire::le_bytes;
use crate::wire::lemma_be_bytes_len;
use crate::wire::lemma_le_bytes_len;
use crate::wire::put_be;
use crate::wire::put_le;
use crate::wire::put_long_field;
use crate::wire::put_long_text;
use crate::wire::starts_with;
use vstd::prelude::*;
use vstd::utf8::encode_utf8;

verus! {

broadcast use {lemma_be_bytes_len, lemma_le_bytes_len};

/// The number that decimal digits stand for.
pub open spec fn number_of(digits: Seq<char>) -> int
    decreases digits.len(),
{
    if digits.len() == 0 {
        0
    } else {
        10 * number_of(digits.drop_last()) + (digits.last() as u32 - 48)
    }
}

/// Decimal digits without a zero in front, unless it is the only one.
pub open spec fn is_number(text: Seq<char>) -> bool {
    &&& text.len() > 0
    &&& forall|i: int| 0 <= i < text.len() ==> '0' <= #[trigger] text[i] <= '9'
    &&& text.len() > 1 ==> text[0] != '0'
}

/// The value of a hexadecimal digit.
pub open spec fn nibble(c: char) -> int {
    if '0' <= c <= '9' {
        c as u32 - 48
    } else {
        c as u32 - 87
    }
}

/// A hexadecimal digit in lower case.
pub open spec fn is_nibble(c: char) -> bool {
    '0' <= c <= '9' || 'a' <= c <= 'f'
}

/// `text` is the two digits of each byte, in order.
pub open spec fn spells(text: Seq<char>, bytes: Seq<u8>) -> bool {
    &&& text.len() == 2 * bytes.len()
    &&& forall|i: int| 0 <= i < text.len() ==> is_nibble(#[trigger] text[i])
    &&& forall|i: int|
        0 <= i < bytes.len() ==> #[trigger] bytes[i] == 16 * nibble(text[2 * i]) + nibble(
            text[2 * i + 1],
        )
}

pub(crate) proof fn lemma_decimal_is_number(n: nat)
    ensures
        is_number(decimal(n)),
        number_of(decimal(n)) == n,
        n > 0 ==> decimal(n)[0] != '0',
    decreases n,
{
    if n < 10 {
        assert(decimal(n) =~= seq![digit(n)]);
        assert(decimal(n).drop_last() =~= Seq::empty());
        reveal_with_fuel(number_of, 2);
    } else {
        lemma_decimal_is_number(n / 10);
        let head = decimal(n / 10);
        let whole = decimal(n);
        assert(whole =~= head.push(digit(n % 10)));
        assert(whole.drop_last() =~= head);
        assert(whole[0] == head[0]);
        assert forall|i: int| 0 <= i < whole.len() implies '0' <= #[trigger] whole[i] <= '9' by {
            if i < head.len() {
                assert(whole[i] == head[i]);
            }
        }
    }
}

pub(crate) proof fn lemma_hex_spells(bytes: Seq<u8>)
    ensures
        spells(hex(bytes), bytes),
    decreases bytes.len(),
{
    if bytes.len() > 0 {
        let head = bytes.drop_last();
        lemma_hex_spells(head);
        let text = hex(bytes);
        assert(text =~= hex(head) + hex_byte(bytes.last()));
        let n = head.len() as int;
        assert forall|i: int| 0 <= i < text.len() implies is_nibble(#[trigger] text[i]) by {
            if i < 2 * n {
                assert(text[i] == hex(head)[i]);
            }
        }
        assert forall|i: int| 0 <= i < bytes.len() implies #[trigger] bytes[i] == 16 * nibble(
            text[2 * i],
        ) + nibble(text[2 * i + 1]) by {
            if i < n {
                assert(bytes[i] == head[i]);
                assert(text[2 * i] == hex(head)[2 * i]);
                assert(text[2 * i + 1] == hex(head)[2 * i + 1]);
            } else {
                assert(bytes[i] == bytes.last());
            }
        }
    }
}

/// A number is appended in decimal: digits that stand for it, with none too many.
pub proof fn law_number_is_written_in_decimal(out: &mut String, n: u64)
    requires
        call_ensures(put_decimal, (out, n), ()),
    ensures
        old(out)@.len() <= final(out)@.len(),
        final(out)@.take(old(out)@.len() as int) == old(out)@,
        is_number(final(out)@.skip(old(out)@.len() as int)),
        number_of(final(out)@.skip(old(out)@.len() as int)) == n,
{
    lemma_decimal_is_number(n as nat);
    assert(final(out)@.take(old(out)@.len() as int) =~= old(out)@);
    assert(final(out)@.skip(old(out)@.len() as int) =~= decimal(n as nat));
}

/// A number behind a prefix is in decimal.
pub proof fn law_numbered_text_ends_with_the_number(prefix: &str, n: u64, text: String)
    requires
        call_ensures(numbered, (prefix, n), text),
    ensures
        prefix@.len() <= text@.len(),
        text@.take(prefix@.len() as int) == prefix@,
        is_number(text@.skip(prefix@.len() as int)),
        number_of(text@.skip(prefix@.len() as int)) == n,
{
    lemma_decimal_is_number(n as nat);
    assert(text@.take(prefix@.len() as int) =~= prefix@);
    assert(text@.skip(prefix@.len() as int) =~= decimal(n as nat));
}

/// Bytes are appended as two lower-case digits each.
pub proof fn law_bytes_are_written_in_hexadecimal(out: &mut String, bytes: &[u8])
    requires
        call_ensures(put_hex, (out, bytes), ()),
    ensures
        old(out)@.len() <= final(out)@.len(),
        final(out)@.take(old(out)@.len() as int) == old(out)@,
        spells(final(out)@.skip(old(out)@.len() as int), bytes@),
{
    lemma_hex_spells(bytes@);
    assert(final(out)@.take(old(out)@.len() as int) =~= old(out)@);
    assert(final(out)@.skip(old(out)@.len() as int) =~= hex(bytes@));
}

/// The four low bytes of a number, most significant first.
pub open spec fn four(n: u64) -> Seq<u8> {
    seq![
        (n / 0x100_0000 % 0x100) as u8,
        (n / 0x1_0000 % 0x100) as u8,
        (n / 0x100 % 0x100) as u8,
        (n % 0x100) as u8,
    ]
}

proof fn lemma_four(n: u64)
    ensures
        be_bytes(n as nat, 4) == four(n),
{
    reveal_with_fuel(be_bytes, 5);
    assert(be_bytes(n as nat, 4) =~= four(n));
}

proof fn lemma_two(n: u64)
    ensures
        be_bytes(n as nat, 2) == seq![(n / 0x100 % 0x100) as u8, (n % 0x100) as u8],
        be_bytes(n as nat, 1) == seq![(n % 0x100) as u8],
{
    reveal_with_fuel(be_bytes, 3);
    assert(be_bytes(n as nat, 2) =~= seq![(n / 0x100 % 0x100) as u8, (n % 0x100) as u8]);
    assert(be_bytes(n as nat, 1) =~= seq![(n % 0x100) as u8]);
}

/// A number is appended most significant byte first.
pub proof fn law_big_endian_is_most_significant_first(out: &mut Vec<u8>, n: u64, width: usize)
    requires
        call_ensures(put_be, (out, n, width), ()),
    ensures
        final(out)@.len() == old(out)@.len() + width,
        width == 8 ==> final(out)@ == old(out)@ + eight(n),
        width == 4 ==> final(out)@ == old(out)@ + four(n),
        width == 2 ==> final(out)@ == old(out)@ + seq![
            (n / 0x100 % 0x100) as u8,
            (n % 0x100) as u8,
        ],
        width == 1 ==> final(out)@ == old(out)@ + seq![(n % 0x100) as u8],
{
    lemma_eight(n);
    lemma_four(n);
    lemma_two(n);
}

/// A number is appended least significant byte first.
pub proof fn law_little_endian_is_least_significant_first(out: &mut Vec<u8>, n: u64, width: usize)
    requires
        call_ensures(put_le, (out, n, width), ()),
    ensures
        final(out)@.len() == old(out)@.len() + width,
        width == 8 ==> final(out)@ == old(out)@ + eight(n).reverse(),
{
    if width == 8 {
        reveal_with_fuel(le_bytes, 9);
        assert(le_bytes(n as nat, 8) =~= eight(n).reverse());
    }
}

/// What is read big-endian is the number whose most significant byte comes first.
pub proof fn law_big_endian_is_read_most_significant_first(
    s: &[u8],
    at: usize,
    width: usize,
    n: u64,
)
    requires
        at + width <= s@.len(),
        call_ensures(get_be, (s, at, width), n),
    ensures
        width == 8 ==> n == big(s@, at as int),
        width == 4 ==> n == s@[at as int] * 0x100_0000 + s@[at + 1] * 0x1_0000 + s@[at + 2] * 0x100
            + s@[at + 3],
        width == 2 ==> n == s@[at as int] * 0x100 + s@[at + 1],
        width == 1 ==> n == s@[at as int],
{
    if width == 8 {
        lemma_big_at(s@, at as int);
    } else {
        reveal_with_fuel(be_value, 5);
    }
}

/// What is read little-endian is the number whose least significant byte comes first.
pub proof fn law_little_endian_is_read_least_significant_first(s: &[u8], at: usize, n: u64)
    requires
        at + 8 <= s@.len(),
        call_ensures(get_le, (s, at, 8usize), n),
    ensures
        n == little(s@, at as int),
{
    lemma_little_at(s@, at as int);
}

/// Bytes, or those of a text, are appended behind their number in eight bytes.
pub proof fn law_long_field_is_counted(out: &mut Vec<u8>, bytes: &[u8])
    requires
        call_ensures(put_long_field, (out, bytes), ()),
        bytes@.len() <= u64::MAX,
    ensures
        final(out)@ == old(out)@ + (eight(bytes@.len() as u64) + bytes@),
{
    lemma_eight(bytes@.len() as u64);
}

/// A text is appended behind the number of its bytes.
pub proof fn law_long_text_is_counted(out: &mut Vec<u8>, text: &str)
    requires
        call_ensures(put_long_text, (out, text), ()),
        encode_utf8(text@).len() <= u64::MAX,
    ensures
        final(out)@ == old(out)@ + (eight(encode_utf8(text@).len() as u64) + encode_utf8(text@)),
{
    lemma_eight(encode_utf8(text@).len() as u64);
}

/// A prefix is found where its bytes stand first, one by one.
pub proof fn law_prefix_is_the_first_bytes(s: &[u8], prefix: &[u8], starts: bool)
    requires
        call_ensures(starts_with, (s, prefix), starts),
    ensures
        starts <==> s@.len() >= prefix@.len() && forall|i: int|
            0 <= i < prefix@.len() ==> #[trigger] s@[i] == prefix@[i],
{
    if s@.len() >= prefix@.len() {
        let own = s@.subrange(0, prefix@.len() as int);
        if forall|i: int| 0 <= i < prefix@.len() ==> #[trigger] s@[i] == prefix@[i] {
            assert(own =~= prefix@);
        }
        if starts {
            assert forall|i: int| 0 <= i < prefix@.len() implies #[trigger] s@[i] == prefix@[i] by {
                assert(own[i] == s@[i]);
            }
        }
    }
}

} // verus!
