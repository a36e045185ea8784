//! Text that is built from numbers and bytes.

use vstd::prelude::*;
use vstd::string::StringExecFns;
use vstd::utf8::encode_utf8;
use vstd::utf8::is_ascii_chars;
use vstd::utf8::is_ascii_chars_encode_utf8;

verus! {

/// The character of a digit below 16.
pub open spec fn digit(n: nat) -> char {
    if n == 0 {
        '0'
    } else if n == 1 {
        '1'
    } else if n == 2 {
        '2'
    } else if n == 3 {
        '3'
    } else if n == 4 {
        '4'
    } else if n == 5 {
        '5'
    } else if n == 6 {
        '6'
    } else if n == 7 {
        '7'
    } else if n == 8 {
        '8'
    } else if n == 9 {
        '9'
    } else if n == 10 {
        'a'
    } else if n == 11 {
        'b'
    } else if n == 12 {
        'c'
    } else if n == 13 {
        'd'
    } else if n == 14 {
        'e'
    } else {
        'f'
    }
}

/// A number in decimal, without leading zeros.
pub open spec fn decimal(n: nat) -> Seq<char>
    decreases n,
{
    if n < 10 {
        seq![digit(n)]
    } else {
        decimal(n / 10).push(digit(n % 10))
    }
}

/// A byte as two hexadecimal digits.
pub open spec fn hex_byte(byte: u8) -> Seq<char> {
    seq![digit((byte / 16) as nat), digit((byte % 16) as nat)]
}

/// Bytes as hexadecimal digits, in lower case.
pub open spec fn hex(bytes: Seq<u8>) -> Seq<char>
    decreases bytes.len(),
{
    if bytes.len() == 0 {
        Seq::empty()
    } else {
        hex(bytes.drop_last()) + hex_byte(bytes.last())
    }
}

fn digit_str(n: u8) -> (text: &'static str)
    requires
        n < 16,
    ensures
        text@ == seq![digit(n as nat)],
{
    proof {
        reveal_strlit("0");
        reveal_strlit("1");
        reveal_strlit("2");
        reveal_strlit("3");
        reveal_strlit("4");
        reveal_strlit("5");
        reveal_strlit("6");
        reveal_strlit("7");
        reveal_strlit("8");
        reveal_strlit("9");
        reveal_strlit("a");
        reveal_strlit("b");
        reveal_strlit("c");
        reveal_strlit("d");
        reveal_strlit("e");
        reveal_strlit("f");
    }
    match n {
        0 => "0",
        1 => "1",
        2 => "2",
        3 => "3",
        4 => "4",
        5 => "5",
        6 => "6",
        7 => "7",
        8 => "8",
        9 => "9",
        10 => "a",
        11 => "b",
        12 => "c",
        13 => "d",
        14 => "e",
        _ => "f",
    }
}

/// Appends `n` in decimal.
pub fn put_decimal(out: &mut String, n: u64)
    ensures
        final(out)@ == old(out)@ + decimal(n as nat),
    decreases n,
{
    if n >= 10 {
        put_decimal(out, n / 10);
    }
    out.append(digit_str((n % 10) as u8));
    assert(out@ =~= old(out)@ + decimal(n as nat));
}

/// Appends `bytes` as hexadecimal digits.
pub fn put_hex(out: &mut String, bytes: &[u8])
    ensures
        final(out)@ == old(out)@ + hex(bytes@),
{
    let mut i: usize = 0;
    assert(out@ =~= out@ + hex(bytes@.subrange(0, 0)));
    while i < bytes.len()
        invariant
            i <= bytes@.len(),
            out@ == old(out)@ + hex(bytes@.subrange(0, i as int)),
        decreases bytes@.len() - i,
    {
        let ghost before = out@;
        out.append(digit_str(bytes[i] / 16));
        out.append(digit_str(bytes[i] % 16));
        proof {
            let part = bytes@.subrange(0, i + 1);
            assert(part.drop_last() =~= bytes@.subrange(0, i as int));
            assert(out@ =~= before + hex_byte(bytes@[i as int]));
            assert(out@ =~= old(out)@ + hex(part));
        }
        i += 1;
    }
    assert(bytes@.subrange(0, i as int) =~= bytes@);
}

/// `prefix` followed by `n` in decimal.
pub fn numbered(prefix: &str, n: u64) -> (text: String)
    ensures
        text@ == prefix@ + decimal(n as nat),
{
    let mut text = prefix.to_owned();
    put_decimal(&mut text, n);
    text
}

/// Decimal text is made of digits.
pub proof fn lemma_decimal_digits(n: nat)
    ensures
        1 <= decimal(n).len(),
        n <= u64::MAX ==> decimal(n).len() <= 20,
        forall|i: int| 0 <= i < decimal(n).len() ==> '0' <= #[trigger] decimal(n)[i] <= '9',
    decreases n,
{
    if n >= 10 {
        lemma_decimal_digits(n / 10);
    }
    lemma_decimal_len(n, 19);
}

proof fn lemma_decimal_len(n: nat, k: nat)
    ensures
        n < pow10((k + 1) as nat) ==> decimal(n).len() <= k + 1,
        pow10(20) == 100_000_000_000_000_000_000,
    decreases k,
{
    reveal_with_fuel(pow10, 21);
    if k == 0 {
    } else {
        lemma_decimal_len(n / 10, (k - 1) as nat);
    }
}

spec fn pow10(k: nat) -> nat
    decreases k,
{
    if k == 0 {
        1
    } else {
        10 * pow10((k - 1) as nat)
    }
}

/// Every character is ASCII and none is the zero character.
pub open spec fn plain(text: Seq<char>) -> bool {
    forall|i: int| 0 <= i < text.len() ==> '\0' < #[trigger] text[i] <= '\u{7f}'
}

/// Plain text has one byte per character, and none of them is zero.
pub proof fn lemma_plain_bytes(text: Seq<char>)
    requires
        plain(text),
    ensures
        encode_utf8(text).len() == text.len(),
        !encode_utf8(text).contains(0),
{
    assert(is_ascii_chars(text));
    is_ascii_chars_encode_utf8(text);
    if encode_utf8(text).contains(0) {
        let i = choose|i: int| 0 <= i < encode_utf8(text).len() && encode_utf8(text)[i] == 0;
        assert(encode_utf8(text)[i] == text[i] as u8);
        assert('\0' < text[i] <= '\u{7f}');
    }
}

/// Plain text followed by a number in decimal is plain.
pub proof fn lemma_numbered_plain(prefix: Seq<char>, n: nat)
    requires
        plain(prefix),
    ensures
        plain(prefix + decimal(n)),
{
    lemma_decimal_digits(n);
    let text = prefix + decimal(n);
    assert forall|i: int| 0 <= i < text.len() implies '\0' < #[trigger] text[i] <= '\u{7f}' by {
        if i < prefix.len() {
            assert(text[i] == prefix[i]);
        } else {
            assert(text[i] == decimal(n)[i - prefix.len()]);
        }
    }
}

/// Hexadecimal text is plain, two characters per byte.
pub proof fn lemma_hex_plain(bytes: Seq<u8>)
    ensures
        hex(bytes).len() == 2 * bytes.len(),
        plain(hex(bytes)),
    decreases bytes.len(),
{
    if bytes.len() > 0 {
        lemma_hex_plain(bytes.drop_last());
    }
}

/// Sixteen bytes as hexadecimal digits in groups of 8, 4, 4, 4 and 12, with hyphens
/// between.
pub open spec fn hyphenated(bytes: Seq<u8>) -> Seq<char> {
    hex(bytes.subrange(0, 4)) + seq!['-'] + hex(bytes.subrange(4, 6)) + seq!['-'] + hex(
        bytes.subrange(6, 8),
    ) + seq!['-'] + hex(bytes.subrange(8, 10)) + seq!['-'] + hex(bytes.subrange(10, 16))
}

/// A hyphenated text is plain, and 36 characters long.
pub proof fn lemma_hyphenated_plain(bytes: Seq<u8>)
    requires
        bytes.len() == 16,
    ensures
        hyphenated(bytes).len() == 36,
        plain(hyphenated(bytes)),
{
    lemma_hex_plain(bytes.subrange(0, 4));
    lemma_hex_plain(bytes.subrange(4, 6));
    lemma_hex_plain(bytes.subrange(6, 8));
    lemma_hex_plain(bytes.subrange(8, 10));
    lemma_hex_plain(bytes.subrange(10, 16));
}

} // verus!
