//! Rendering numbers and bytes as text: the decimal and lowercase
//! hexadecimal digit strings that the library's messages are made of.

use vstd::prelude::*;

verus! {

/// The character of digit `d` (`0 <= d < 16`) in lowercase hexadecimal;
/// for `d < 10` it is also the decimal digit.
pub open spec fn digit_char(d: int) -> char {
    if d < 10 {
        (48 + d) as char
    } else {
        (87 + d) as char
    }
}

/// The decimal digits of `n`, most significant first, without leading zeros.
pub open spec fn decimal(n: nat) -> Seq<char>
    decreases n,
{
    if n < 10 {
        seq![digit_char(n as int)]
    } else {
        decimal(n / 10).push(digit_char((n % 10) as int))
    }
}

/// The lowercase hexadecimal digits of `n`, most significant first, without
/// leading zeros and without a prefix.
pub open spec fn lower_hex(n: nat) -> Seq<char>
    decreases n,
{
    if n < 16 {
        seq![digit_char(n as int)]
    } else {
        lower_hex(n / 16).push(digit_char((n % 16) as int))
    }
}

/// Two lowercase hexadecimal characters for each byte, high nibble first.
pub open spec fn hex_bytes(bytes: Seq<u8>) -> Seq<char>
    decreases bytes.len(),
{
    if bytes.len() == 0 {
        Seq::empty()
    } else {
        let b = bytes.last();
        hex_bytes(bytes.drop_last()) + seq![digit_char((b / 16) as int), digit_char((b % 16) as int)]
    }
}

/// Every number has at least one decimal digit and one hexadecimal digit.
pub proof fn lemma_digits_not_empty(n: nat)
    ensures
        decimal(n).len() > 0,
        lower_hex(n).len() > 0,
{
}

/// The hexadecimal text of a byte string is twice as long as the string.
pub proof fn lemma_hex_bytes_len(bytes: Seq<u8>)
    ensures
        hex_bytes(bytes).len() == 2 * bytes.len(),
    decreases bytes.len(),
{
    if bytes.len() > 0 {
        lemma_hex_bytes_len(bytes.drop_last());
    }
}

/// Distinct digits have distinct characters.
pub proof fn lemma_digit_char_injective(a: int, b: int)
    requires
        0 <= a < 16,
        0 <= b < 16,
        digit_char(a) == digit_char(b),
    ensures
        a == b,
{
    assert((digit_char(a) as int) == (if a < 10 { 48 + a } else { 87 + a }));
    assert((digit_char(b) as int) == (if b < 10 { 48 + b } else { 87 + b }));
}

/// The hexadecimal text of a byte string determines the string.
pub proof fn lemma_hex_bytes_injective(a: Seq<u8>, b: Seq<u8>)
    requires
        hex_bytes(a) == hex_bytes(b),
    ensures
        a == b,
    decreases a.len(),
{
    lemma_hex_bytes_len(a);
    lemma_hex_bytes_len(b);
    if a.len() > 0 {
        let ta = hex_bytes(a.drop_last());
        let tb = hex_bytes(b.drop_last());
        lemma_hex_bytes_len(a.drop_last());
        lemma_hex_bytes_len(b.drop_last());
        let n = ta.len() as int;
        let x = a.last();
        let y = b.last();
        let pa = seq![digit_char((x / 16) as int), digit_char((x % 16) as int)];
        let pb = seq![digit_char((y / 16) as int), digit_char((y % 16) as int)];
        assert(hex_bytes(a) == ta + pa);
        assert(hex_bytes(b) == tb + pb);
        assert((ta + pa)[n] == pa[0]);
        assert((tb + pb)[n] == pb[0]);
        assert((ta + pa)[n + 1] == pa[1]);
        assert((tb + pb)[n + 1] == pb[1]);
        lemma_digit_char_injective((x / 16) as int, (y / 16) as int);
        lemma_digit_char_injective((x % 16) as int, (y % 16) as int);
        assert(hex_bytes(a).subrange(0, n) =~= ta);
        assert(hex_bytes(b).subrange(0, n) =~= tb);
        lemma_hex_bytes_injective(a.drop_last(), b.drop_last());
        assert(a =~= a.drop_last().push(x));
        assert(b =~= b.drop_last().push(y));
    }
}

/// `String::push`: appends one character.
#[verifier::external_body]
pub(crate) fn push_char(s: &mut String, c: char)
    ensures
        final(s)@ == old(s)@.push(c),
{
    s.push(c);
}

/// `hex::encode`: renders `bytes` as lowercase hexadecimal, two characters
/// per byte, high nibble first (the crate's `BytesToHexChars` iterator over
/// its `HEX_CHARS_LOWER` table). The contract claims exactly that text.
#[verifier::external_body]
pub(crate) fn hex_encode(bytes: &[u8]) -> (s: String)
    ensures
        s@ == hex_bytes(bytes@),
{
    hex::encode(bytes)
}

/// The digit character for `d`.
pub fn digit(d: u64) -> (c: char)
    requires
        d < 16,
    ensures
        c == digit_char(d as int),
{
    let b: u8 = d as u8;
    if b < 10 {
        (48u8 + b) as char
    } else {
        (87u8 + b) as char
    }
}

/// Appends the decimal digits of `n` to `s`.
pub fn push_decimal(s: &mut String, n: u64)
    ensures
        final(s)@ == old(s)@ + decimal(n as nat),
    decreases n,
{
    if n >= 10 {
        push_decimal(s, n / 10);
    }
    push_char(s, digit(n % 10));
}

/// Appends the lowercase hexadecimal digits of `n` to `s`.
pub fn push_lower_hex(s: &mut String, n: u64)
    ensures
        final(s)@ == old(s)@ + lower_hex(n as nat),
    decreases n,
{
    if n >= 16 {
        push_lower_hex(s, n / 16);
    }
    push_char(s, digit(n % 16));
}

} // verus!
