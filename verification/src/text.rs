//! Text building blocks: decimal and hexadecimal rendering of integers and
//! appending to strings.

use vstd::prelude::*;
use vstd::utf8::*;

verus! {

/// The character for a digit value below 16 (lowercase for `a`..=`f`).
pub open spec fn digit_char(d: nat) -> char {
    if d == 0 { '0' }
    else if d == 1 { '1' }
    else if d == 2 { '2' }
    else if d == 3 { '3' }
    else if d == 4 { '4' }
    else if d == 5 { '5' }
    else if d == 6 { '6' }
    else if d == 7 { '7' }
    else if d == 8 { '8' }
    else if d == 9 { '9' }
    else if d == 10 { 'a' }
    else if d == 11 { 'b' }
    else if d == 12 { 'c' }
    else if d == 13 { 'd' }
    else if d == 14 { 'e' }
    else { 'f' }
}

/// Decimal rendering of a natural number: no leading zeros, `"0"` for zero.
pub open spec fn dec_nat(n: nat) -> Seq<char>
    decreases n,
{
    if n < 10 {
        seq![digit_char(n)]
    } else {
        dec_nat(n / 10).push(digit_char(n % 10))
    }
}

/// Decimal rendering of an integer, with a leading `-` for negatives.
pub open spec fn dec_int(i: int) -> Seq<char> {
    if i < 0 {
        seq!['-'] + dec_nat((-i) as nat)
    } else {
        dec_nat(i as nat)
    }
}

/// `s` left-padded with `c` to at least `width` characters.
pub open spec fn pad_left(s: Seq<char>, width: nat, c: char) -> Seq<char> {
    if s.len() >= width {
        s
    } else {
        Seq::new((width - s.len()) as nat, |_i: int| c) + s
    }
}

/// Two-digit lowercase hexadecimal rendering of a byte.
pub open spec fn hex_byte(b: u8) -> Seq<char> {
    seq![digit_char((b / 16) as nat), digit_char((b % 16) as nat)]
}

/// Lowercase hexadecimal rendering of a byte sequence, two digits per byte.
pub open spec fn hex_bytes(bytes: Seq<u8>) -> Seq<char>
    decreases bytes.len(),
{
    if bytes.len() == 0 {
        Seq::empty()
    } else {
        hex_bytes(bytes.drop_last()) + hex_byte(bytes.last())
    }
}

/// The digit characters are the standard ones: below ten, the ASCII digits
/// `0`..=`9` (codes 48..=57); from ten on, the lowercase letters `a`..=`f`
/// (codes 97..=102).
pub proof fn lemma_digit_char_codes(d: nat)
    requires
        d < 16,
    ensures
        digit_char(d) as u32 == (if d < 10 { 48 + d } else { 87 + d }),
{
}

/// The hexadecimal text of a byte is its high nibble's digit followed by its
/// low nibble's digit, each of the standard characters.
pub proof fn lemma_hex_byte_codes(b: u8)
    ensures
        hex_byte(b).len() == 2,
        hex_byte(b)[0] as u32 == (if b / 16 < 10 { 48 + b / 16 } else { 87 + b / 16 }),
        hex_byte(b)[1] as u32 == (if b % 16 < 10 { 48 + b % 16 } else { 87 + b % 16 }),
{
    lemma_digit_char_codes((b / 16) as nat);
    lemma_digit_char_codes((b % 16) as nat);
}

/// Appends one character to a `String` through `String::push`, which the
/// standard library documents as appending the character to the end.
#[verifier::external_body]
pub(crate) fn push_char(s: &mut String, c: char)
    ensures
        final(s)@ == old(s)@.push(c),
{
    s.push(c);
}

/// Appends `t` to `s`.
pub fn push_str(s: &mut String, t: &str)
    ensures
        final(s)@ == old(s)@ + t@,
{
    s.append(t);
}

/// The character of a digit value below 16.
pub fn digit(d: u8) -> (c: char)
    requires
        d < 16,
    ensures
        c == digit_char(d as nat),
{
    match d {
        0 => '0',
        1 => '1',
        2 => '2',
        3 => '3',
        4 => '4',
        5 => '5',
        6 => '6',
        7 => '7',
        8 => '8',
        9 => '9',
        10 => 'a',
        11 => 'b',
        12 => 'c',
        13 => 'd',
        14 => 'e',
        _ => 'f',
    }
}

/// Appends the decimal rendering of `n` to `s`.
pub fn push_dec_u64(s: &mut String, n: u64)
    ensures
        final(s)@ == old(s)@ + dec_nat(n as nat),
    decreases n,
{
    if n >= 10 {
        push_dec_u64(s, n / 10);
    }
    let d = (n % 10) as u8;
    push_char(s, digit(d));
    assert(final(s)@ =~= old(s)@ + dec_nat(n as nat));
}

/// Appends the decimal rendering of `i` to `s`.
pub fn push_dec_i64(s: &mut String, i: i64)
    ensures
        final(s)@ == old(s)@ + dec_int(i as int),
{
    if i < 0 {
        push_char(s, '-');
        let m: u64 = if i == i64::MIN {
            9223372036854775808u64
        } else {
            (-i) as u64
        };
        push_dec_u64(s, m);
        assert(final(s)@ =~= old(s)@ + dec_int(i as int));
    } else {
        push_dec_u64(s, i as u64);
    }
}

/// The decimal rendering of `n` never starts with `0` unless `n` is zero,
/// and it has one digit per power of ten.
pub proof fn lemma_dec_nat_len(n: nat)
    ensures
        dec_nat(n).len() >= 1,
        n < 10 ==> dec_nat(n).len() == 1,
        n >= 10 ==> dec_nat(n).len() == dec_nat(n / 10).len() + 1,
    decreases n,
{
    if n >= 10 {
        lemma_dec_nat_len(n / 10);
    }
}

/// Appends `n` in decimal, left-padded with zeros to at least `width` digits.
pub fn push_dec_padded(s: &mut String, n: u64, width: usize)
    ensures
        final(s)@ == old(s)@ + pad_left(dec_nat(n as nat), width as nat, '0'),
{
    let mut digits = String::new();
    push_dec_u64(&mut digits, n);
    assert(digits@ =~= dec_nat(n as nat));
    let len = digits.as_str().unicode_len();
    let ghost start = s@;
    let mut k: usize = len;
    while k < width
        invariant
            len <= k,
            k <= width || k == len,
            len == dec_nat(n as nat).len(),
            s@ == start + Seq::new((k - len) as nat, |_i: int| '0'),
        decreases width - k,
    {
        push_char(s, '0');
        k = k + 1;
        assert(s@ =~= start + Seq::new((k - len) as nat, |_i: int| '0'));
    }
    push_str(s, digits.as_str());
    assert(s@ =~= start + pad_left(dec_nat(n as nat), width as nat, '0'));
}

/// Appends the two lowercase hexadecimal digits of each byte of `data`.
pub fn push_hex_bytes(s: &mut String, data: &[u8])
    ensures
        final(s)@ == old(s)@ + hex_bytes(data@),
{
    let ghost start = s@;
    let mut i: usize = 0;
    while i < data.len()
        invariant
            i <= data@.len(),
            s@ == start + hex_bytes(data@.subrange(0, i as int)),
        decreases data@.len() - i,
    {
        let b = data[i];
        push_char(s, digit(b / 16));
        push_char(s, digit(b % 16));
        assert(data@.subrange(0, i + 1).drop_last() =~= data@.subrange(0, i as int));
        i = i + 1;
        assert(s@ =~= start + hex_bytes(data@.subrange(0, i as int)));
    }
    assert(data@.subrange(0, data@.len() as int) =~= data@);
}

/// Whether two strings hold the same text.
pub fn str_equal(a: &str, b: &str) -> (r: bool)
    ensures
        r == (a@ == b@),
{
    let x = a.as_bytes();
    let y = b.as_bytes();
    assert(x@ == encode_utf8(a@));
    assert(y@ == encode_utf8(b@));
    proof {
        encode_utf8_decode_utf8(a@);
        encode_utf8_decode_utf8(b@);
    }
    if x.len() != y.len() {
        assert(x@.len() != y@.len());
        return false;
    }
    let mut i: usize = 0;
    while i < x.len()
        invariant
            x@ == encode_utf8(a@),
            y@ == encode_utf8(b@),
            x@.len() == y@.len(),
            i <= x@.len(),
            forall|j: int| 0 <= j < i ==> x@[j] == y@[j],
        decreases x@.len() - i,
    {
        if x[i] != y[i] {
            assert(x@[i as int] != y@[i as int]);
            return false;
        }
        i = i + 1;
    }
    assert(x@ =~= y@);
    true
}

} // verus!
