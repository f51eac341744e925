//! Text-level building blocks shared by the protocol modules: hexadecimal
//! digits, percent-decoding of form-urlencoded query values, a string
//! escape used by the JSON request bodies and the persisted configuration
//! format, and decimal rendering of integers.

use vstd::prelude::*;

verus! {

// ---------------------------------------------------------------------
// Hexadecimal digits
// ---------------------------------------------------------------------

/// Whether a byte is an ASCII hexadecimal digit.
pub open spec fn is_hex_digit(b: u8) -> bool {
    (48 <= b && b <= 57) || (97 <= b && b <= 102) || (65 <= b && b <= 70)
}

/// The numeric value of an ASCII hexadecimal digit.
pub open spec fn hex_value(b: u8) -> u8 {
    if 48 <= b && b <= 57 {
        (b - 48) as u8
    } else if 97 <= b && b <= 102 {
        (b - 87) as u8
    } else {
        (b - 55) as u8
    }
}

/// Executable test for an ASCII hexadecimal digit.
pub fn hex_digit(b: u8) -> (r: bool)
    ensures
        r == is_hex_digit(b),
{
    (48 <= b && b <= 57) || (97 <= b && b <= 102) || (65 <= b && b <= 70)
}

/// Executable numeric value of an ASCII hexadecimal digit.
pub fn hex_digit_value(b: u8) -> (r: u8)
    requires
        is_hex_digit(b),
    ensures
        r == hex_value(b),
        r < 16,
{
    if 48 <= b && b <= 57 {
        b - 48
    } else if 97 <= b && b <= 102 {
        b - 87
    } else {
        b - 55
    }
}

/// The lower-case hexadecimal digit character for a value below 16.
pub open spec fn low_hex_char(v: int) -> char {
    if v == 0 { '0' } else if v == 1 { '1' } else if v == 2 { '2' }
    else if v == 3 { '3' } else if v == 4 { '4' } else if v == 5 { '5' }
    else if v == 6 { '6' } else if v == 7 { '7' } else if v == 8 { '8' }
    else if v == 9 { '9' } else if v == 10 { 'a' } else if v == 11 { 'b' }
    else if v == 12 { 'c' } else if v == 13 { 'd' } else if v == 14 { 'e' }
    else { 'f' }
}

/// Executable lower-case hexadecimal digit character.
pub fn low_hex_digit_char(v: u8) -> (r: char)
    requires
        v < 16,
    ensures
        r == low_hex_char(v as int),
{
    if v == 0 { '0' } else if v == 1 { '1' } else if v == 2 { '2' }
    else if v == 3 { '3' } else if v == 4 { '4' } else if v == 5 { '5' }
    else if v == 6 { '6' } else if v == 7 { '7' } else if v == 8 { '8' }
    else if v == 9 { '9' } else if v == 10 { 'a' } else if v == 11 { 'b' }
    else if v == 12 { 'c' } else if v == 13 { 'd' } else if v == 14 { 'e' }
    else { 'f' }
}

/// The numeric value of a hexadecimal digit character, for the characters
/// that `low_hex_char` produces and their upper-case forms.
pub open spec fn char_hex_value(c: char) -> int {
    if c == '0' { 0 } else if c == '1' { 1 } else if c == '2' { 2 }
    else if c == '3' { 3 } else if c == '4' { 4 } else if c == '5' { 5 }
    else if c == '6' { 6 } else if c == '7' { 7 } else if c == '8' { 8 }
    else if c == '9' { 9 } else if c == 'a' || c == 'A' { 10 }
    else if c == 'b' || c == 'B' { 11 } else if c == 'c' || c == 'C' { 12 }
    else if c == 'd' || c == 'D' { 13 } else if c == 'e' || c == 'E' { 14 }
    else { 15 }
}

/// Whether a character is a hexadecimal digit.
pub open spec fn is_hex_char(c: char) -> bool {
    ('0' <= c && c <= '9') || ('a' <= c && c <= 'f') || ('A' <= c && c <= 'F')
}

/// Executable test for a hexadecimal digit character.
pub fn hex_char(c: char) -> (r: bool)
    ensures
        r == is_hex_char(c),
{
    ('0' <= c && c <= '9') || ('a' <= c && c <= 'f') || ('A' <= c && c <= 'F')
}

/// Executable numeric value of a hexadecimal digit character.
pub fn hex_char_value(c: char) -> (r: u32)
    requires
        is_hex_char(c),
    ensures
        r == char_hex_value(c),
        r < 16,
{
    let v = c as u32;
    if 48 <= v && v <= 57 {
        v - 48
    } else if 97 <= v && v <= 102 {
        v - 87
    } else {
        v - 55
    }
}

/// A value below 16 is recovered from its lower-case digit character.
pub proof fn lemma_hex_char_round_trip(v: int)
    requires
        0 <= v < 16,
    ensures
        char_hex_value(low_hex_char(v)) == v,
        is_hex_char(low_hex_char(v)),
{
}

// ---------------------------------------------------------------------
// Percent-decoding (application/x-www-form-urlencoded values)
// ---------------------------------------------------------------------

/// Form-urlencoded decoding of a byte string: `+` becomes a space, a `%`
/// followed by two hexadecimal digits becomes the byte they denote, and
/// anything else (including a malformed `%` sequence) is kept as it is.
pub open spec fn pct_decode(s: Seq<u8>) -> Seq<u8>
    decreases s.len(),
{
    if s.len() == 0 {
        Seq::empty()
    } else if s[0] == 43 {
        seq![32u8] + pct_decode(s.skip(1))
    } else if s[0] == 37 && s.len() >= 3 && is_hex_digit(s[1]) && is_hex_digit(s[2]) {
        seq![(hex_value(s[1]) * 16 + hex_value(s[2])) as u8] + pct_decode(s.skip(3))
    } else {
        seq![s[0]] + pct_decode(s.skip(1))
    }
}

/// Executable form-urlencoded decoding.
pub fn percent_decode(s: &[u8]) -> (r: Vec<u8>)
    ensures
        r@ == pct_decode(s@),
{
    let mut out: Vec<u8> = Vec::new();
    let mut i: usize = 0;
    proof {
        assert(s@.skip(0) =~= s@);
    }
    while i < s.len()
        invariant
            i <= s@.len(),
            out@ + pct_decode(s@.skip(i as int)) == pct_decode(s@),
        decreases s@.len() - i,
    {
        let ghost rest = s@.skip(i as int);
        let b = s[i];
        if b == 43 {
            out.push(32);
            i = i + 1;
            proof {
                assert(rest.skip(1) =~= s@.skip(i as int));
            }
        } else if b == 37 && s.len() - i >= 3 && hex_digit(s[i + 1]) && hex_digit(s[i + 2]) {
            let hi = hex_digit_value(s[i + 1]);
            let lo = hex_digit_value(s[i + 2]);
            out.push(hi * 16 + lo);
            i = i + 3;
            proof {
                assert(rest.skip(3) =~= s@.skip(i as int));
            }
        } else {
            out.push(b);
            i = i + 1;
            proof {
                assert(rest.skip(1) =~= s@.skip(i as int));
            }
        }
    }
    proof {
        assert(s@.skip(i as int) =~= Seq::<u8>::empty());
        assert(out@ =~= out@ + pct_decode(s@.skip(i as int)));
    }
    out
}

// ---------------------------------------------------------------------
// String escaping shared by the JSON bodies and the persisted format
// ---------------------------------------------------------------------

/// How one character is escaped. The escape set (quote, backslash, and
/// control characters, the common three by a letter escape and the rest
/// in the four-digit hexadecimal form) is valid both in a JSON string and
/// in a basic string of the persisted configuration format.
pub open spec fn escape_char(c: char) -> Seq<char> {
    if c == '"' {
        seq!['\\', '"']
    } else if c == '\\' {
        seq!['\\', '\\']
    } else if c == '\n' {
        seq!['\\', 'n']
    } else if c == '\r' {
        seq!['\\', 'r']
    } else if c == '\t' {
        seq!['\\', 't']
    } else if (c as u32) < 32 || (c as u32) == 127 {
        seq!['\\', 'u', '0', '0', low_hex_char((c as u32 / 16) as int), low_hex_char(
            (c as u32 % 16) as int,
        )]
    } else {
        seq![c]
    }
}

/// Escaping of a whole string, character by character.
pub open spec fn escape_string(s: Seq<char>) -> Seq<char>
    decreases s.len(),
{
    if s.len() == 0 {
        Seq::empty()
    } else {
        escape_char(s[0]) + escape_string(s.skip(1))
    }
}

/// Appends one character to a string.
///
/// Relies on std's `String::push`: the string grows by exactly that
/// character at its end.
#[verifier::external_body]
pub fn push_char(s: &mut String, c: char)
    ensures
        final(s)@ == old(s)@ + seq![c],
{
    s.push(c);
}

/// Appends the escape sequence of one character to a string.
fn push_escaped_char(out: &mut String, c: char)
    ensures
        final(out)@ == old(out)@ + escape_char(c),
{
    if c == '"' {
        push_char(out, '\\');
        push_char(out, '"');
    } else if c == '\\' {
        push_char(out, '\\');
        push_char(out, '\\');
    } else if c == '\n' {
        push_char(out, '\\');
        push_char(out, 'n');
    } else if c == '\r' {
        push_char(out, '\\');
        push_char(out, 'r');
    } else if c == '\t' {
        push_char(out, '\\');
        push_char(out, 't');
    } else if (c as u32) < 32 || (c as u32) == 127 {
        let v = c as u32;
        push_char(out, '\\');
        push_char(out, 'u');
        push_char(out, '0');
        push_char(out, '0');
        push_char(out, low_hex_digit_char((v / 16) as u8));
        push_char(out, low_hex_digit_char((v % 16) as u8));
    } else {
        push_char(out, c);
    }
    proof {
        assert(final(out)@ =~= old(out)@ + escape_char(c));
    }
}

/// Appends the escaped form of a whole string.
pub fn append_escaped(out: &mut String, s: &str)
    ensures
        final(out)@ == old(out)@ + escape_string(s@),
{
    let n = s.unicode_len();
    let mut i: usize = 0;
    proof {
        assert(s@.skip(0) =~= s@);
    }
    while i < n
        invariant
            n == s@.len(),
            i <= n,
            out@ + escape_string(s@.skip(i as int)) == old(out)@ + escape_string(s@),
        decreases n - i,
    {
        let ghost rest = s@.skip(i as int);
        let c = s.get_char(i);
        push_escaped_char(out, c);
        i = i + 1;
        proof {
            assert(rest.skip(1) =~= s@.skip(i as int));
        }
    }
    proof {
        assert(s@.skip(i as int) =~= Seq::<char>::empty());
        assert(out@ =~= out@ + escape_string(s@.skip(i as int)));
    }
}

// ---------------------------------------------------------------------
// Decimal rendering
// ---------------------------------------------------------------------

/// The decimal digit character for a value below 10.
pub open spec fn dec_char(v: int) -> char {
    low_hex_char(v)
}

/// The decimal representation of a natural number, without leading zeros
/// (a single zero for zero itself).
pub open spec fn dec_digits(n: nat) -> Seq<char>
    decreases n,
{
    if n < 10 {
        seq![dec_char(n as int)]
    } else {
        dec_digits(n / 10) + seq![dec_char((n % 10) as int)]
    }
}

/// Renders an unsigned integer in decimal.
pub fn u64_to_decimal(n: u64) -> (r: String)
    ensures
        r@ == dec_digits(n as nat),
    decreases n,
{
    if n < 10 {
        let mut s = String::new();
        push_char(&mut s, low_hex_digit_char(n as u8));
        s
    } else {
        let mut s = u64_to_decimal(n / 10);
        push_char(&mut s, low_hex_digit_char((n % 10) as u8));
        s
    }
}

/// The decimal representation of an integer, with a leading minus sign
/// when it is negative.
pub open spec fn int_dec(i: int) -> Seq<char> {
    if i >= 0 {
        dec_digits(i as nat)
    } else {
        seq!['-'] + dec_digits((-i) as nat)
    }
}

/// Renders a signed integer in decimal.
pub fn i32_to_decimal(n: i32) -> (r: String)
    ensures
        r@ == int_dec(n as int),
{
    if n >= 0 {
        u64_to_decimal(n as u64)
    } else {
        let mut s = String::new();
        push_char(&mut s, '-');
        let m: u64 = (-(n as i64)) as u64;
        let digits = u64_to_decimal(m);
        s.append(digits.as_str());
        s
    }
}

// ---------------------------------------------------------------------
// Byte-string comparison and ASCII decoding
// ---------------------------------------------------------------------

/// Compares two byte strings for equality.
pub fn bytes_eq(a: &[u8], b: &[u8]) -> (r: bool)
    ensures
        r == (a@ == b@),
{
    if a.len() != b.len() {
        return false;
    }
    let mut i: usize = 0;
    while i < a.len()
        invariant
            a@.len() == b@.len(),
            i <= a@.len(),
            forall|j: int| 0 <= j < i ==> a@[j] == b@[j],
        decreases a@.len() - i,
    {
        if a[i] != b[i] {
            return false;
        }
        i = i + 1;
    }
    proof {
        assert(a@ =~= b@);
    }
    true
}

} // verus!
