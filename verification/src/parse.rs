//! Conversion of raw parameter values into booleans and integers.

use vstd::prelude::*;
use vstd::string::*;
use vstd::utf8::is_ascii_chars;
use crate::text::same_text;

verus! {

/// The boolean that a raw value stands for: `true` and `1` stand for true,
/// `false` and `0` for false, and no other value stands for a boolean.
pub open spec fn bool_of(s: Seq<char>) -> Option<bool> {
    if s == "true"@ || s == "1"@ {
        Some(true)
    } else if s == "false"@ || s == "0"@ {
        Some(false)
    } else {
        None
    }
}

/// Reads a boolean from one of the four accepted tokens.
pub fn parse_bool(s: &str) -> (parsed: Option<bool>)
    ensures
        parsed == bool_of(s@),
{
    if same_text(s, "true") || same_text(s, "1") {
        Some(true)
    } else if same_text(s, "false") || same_text(s, "0") {
        Some(false)
    } else {
        None
    }
}

/// Whether `c` is one of the ten decimal digits.
pub open spec fn is_digit(c: char) -> bool {
    '0' <= c <= '9'
}

/// The number that the digit `c` stands for.
pub open spec fn digit_value(c: char) -> nat {
    (c as int - '0' as int) as nat
}

/// Whether `s` holds decimal digits only.
pub open spec fn all_digits(s: Seq<char>) -> bool {
    forall|i: int| 0 <= i < s.len() ==> is_digit(#[trigger] s[i])
}

/// The number that the digits of `s` write in base ten.
pub open spec fn decimal_value(s: Seq<char>) -> nat
    decreases s.len(),
{
    if s.len() == 0 {
        0
    } else {
        10 * decimal_value(s.drop_last()) + digit_value(s.last())
    }
}

/// The unsigned integer that a raw value stands for: one or more decimal
/// digits, with no sign, whose value fits in 64 bits.
pub open spec fn u64_of(s: Seq<char>) -> Option<u64> {
    if s.len() > 0 && all_digits(s) && decimal_value(s) <= u64::MAX {
        Some(decimal_value(s) as u64)
    } else {
        None
    }
}

/// Whether `s` begins with the sign `sign`.
pub open spec fn has_sign(s: Seq<char>, sign: char) -> bool {
    s.len() > 0 && s[0] == sign
}

/// The digits of a signed decimal: what follows a leading `+` or `-`, or all
/// of `s` where it has no sign.
pub open spec fn unsigned_part(s: Seq<char>) -> Seq<char> {
    if has_sign(s, '-') || has_sign(s, '+') {
        s.skip(1)
    } else {
        s
    }
}

/// The number that a signed decimal writes, whatever its size.
pub open spec fn signed_value(s: Seq<char>) -> int {
    if has_sign(s, '-') {
        -(decimal_value(unsigned_part(s)) as int)
    } else {
        decimal_value(unsigned_part(s)) as int
    }
}

/// The signed integer that a raw value stands for: an optional `+` or `-`,
/// then one or more decimal digits, whose value fits in 64 bits.
pub open spec fn i64_of(s: Seq<char>) -> Option<i64> {
    if unsigned_part(s).len() > 0 && all_digits(unsigned_part(s)) && i64::MIN <= signed_value(s)
        <= i64::MAX {
        Some(signed_value(s) as i64)
    } else {
        None
    }
}

/// Whether `s` is a signed decimal: an optional `+` or `-`, then one or more
/// decimal digits.
pub open spec fn is_signed_decimal(s: Seq<char>) -> bool {
    unsigned_part(s).len() > 0 && all_digits(unsigned_part(s))
}

/// The digit that stands for `d`, a number below ten.
pub open spec fn digit_char(d: nat) -> char {
    ('0' as nat + d) as char
}

/// The decimal digits of `n`, without leading zeros.
pub open spec fn digits_of(n: nat) -> Seq<char>
    decreases n,
{
    if n < 10 {
        seq![digit_char(n)]
    } else {
        digits_of(n / 10).push(digit_char(n % 10))
    }
}

/// How `n` is written in decimal: its digits, after a `-` where it is negative.
pub open spec fn text_of(n: int) -> Seq<char> {
    if n < 0 {
        seq!['-'] + digits_of((-n) as nat)
    } else {
        digits_of(n as nat)
    }
}

/// The digits of `n` are digits, and they write `n`.
pub proof fn lemma_digits_write_their_number(n: nat)
    ensures
        digits_of(n).len() > 0,
        all_digits(digits_of(n)),
        decimal_value(digits_of(n)) == n,
    decreases n,
{
    if n < 10 {
        assert(digits_of(n).drop_last().len() == 0);
        assert(decimal_value(digits_of(n).drop_last()) == 0);
    } else {
        lemma_digits_write_their_number(n / 10);
        assert(digits_of(n).drop_last() == digits_of(n / 10));
        assert(digits_of(n).last() == digit_char(n % 10));
    }
}

/// Every unsigned 64-bit integer is read back from its decimal digits.
pub proof fn lemma_u64_round_trip(n: u64)
    ensures
        u64_of(digits_of(n as nat)) == Some(n),
{
    lemma_digits_write_their_number(n as nat);
}

/// Every signed 64-bit integer is read back from its decimal text.
pub proof fn lemma_i64_round_trip(n: i64)
    ensures
        i64_of(text_of(n as int)) == Some(n),
{
    let magnitude = (if n < 0 { -n } else { n as int }) as nat;
    lemma_digits_write_their_number(magnitude);
    let s = text_of(n as int);
    if n < 0 {
        assert(s[0] == '-');
        assert(s.skip(1) == digits_of(magnitude));
    } else {
        assert(s[0] == digits_of(magnitude)[0]);
        assert(is_digit(s[0]));
    }
}

/// A signed decimal is read as the number it writes where that number fits in
/// 64 bits, and is not read at all where it does not.
pub proof fn lemma_signed_decimal_is_read_exactly(s: Seq<char>)
    requires
        is_signed_decimal(s),
    ensures
        i64::MIN <= signed_value(s) <= i64::MAX ==> i64_of(s) == Some(signed_value(s) as i64),
        !(i64::MIN <= signed_value(s) <= i64::MAX) ==> i64_of(s) is None,
{
}

/// A text that begins with a sign is no unsigned integer, whatever follows
/// the sign.
pub proof fn lemma_unsigned_rejects_sign(s: Seq<char>)
    requires
        has_sign(s, '-') || has_sign(s, '+'),
    ensures
        u64_of(s) is None,
{
    assert(!is_digit(s[0]));
}

/// The digits of a longer number write at least as much as its first `k` digits.
pub proof fn lemma_prefix_value(s: Seq<char>, k: int)
    requires
        0 <= k <= s.len(),
    ensures
        decimal_value(s.take(k)) <= decimal_value(s),
    decreases s.len(),
{
    if k == s.len() {
        assert(s.take(k) == s);
    } else {
        lemma_prefix_value(s.drop_last(), k);
        assert(s.drop_last().take(k) == s.take(k));
    }
}

/// Reads the digits of `s` from position `from` on, as far as they fit in 64 bits.
fn magnitude(s: &str, from: usize) -> (parsed: Option<u64>)
    requires
        is_ascii_chars(s@),
        from <= s@.len(),
    ensures
        parsed == u64_of(s@.skip(from as int)),
{
    broadcast use is_ascii_spec_bytes;

    let bytes = s.as_bytes();
    let ghost digits = s@.skip(from as int);
    assert(bytes@ =~= Seq::new(s@.len(), |i: int| s@[i] as u8)) by {
        assert(is_ascii(s));
    }
    if from == bytes.len() {
        return None;
    }
    let mut value: u64 = 0;
    let mut i: usize = from;
    while i < bytes.len()
        invariant
            from <= i <= bytes.len(),
            bytes.len() == s@.len(),
            is_ascii_chars(s@),
            digits == s@.skip(from as int),
            forall|j: int| 0 <= j < bytes.len() ==> bytes@[j] == s@[j] as u8,
            all_digits(digits.take(i - from)),
            value == decimal_value(digits.take(i - from)),
        decreases bytes.len() - i,
    {
        let b = bytes[i];
        let ghost c = s@[i as int];
        assert(digits[i - from] == c);
        if b < 48 || b > 57 {
            assert(!is_digit(c));
            return None;
        }
        assert(is_digit(c));
        let d: u64 = (b - 48) as u64;
        assert(d == digit_value(c));
        proof {
            assert(digits.take(i - from + 1).drop_last() == digits.take(i - from));
            assert(digits.take(i - from + 1).last() == c);
            lemma_prefix_value(digits, i - from + 1);
        }
        if value > (u64::MAX - d) / 10 {
            return None;
        }
        value = value * 10 + d;
        i = i + 1;
    }
    assert(digits.take(i - from) == digits);
    Some(value)
}

/// Reads an unsigned 64-bit integer written in decimal digits, without a sign.
pub fn parse_u64(s: &str) -> (parsed: Option<u64>)
    ensures
        parsed == u64_of(s@),
{
    if !s.is_ascii() {
        assert(!all_digits(s@));
        return None;
    }
    assert(s@.skip(0) == s@);
    magnitude(s, 0)
}

/// Reads a signed 64-bit integer written as an optional sign and decimal digits.
pub fn parse_i64(s: &str) -> (parsed: Option<i64>)
    ensures
        parsed == i64_of(s@),
{
    broadcast use is_ascii_spec_bytes;

    if !s.is_ascii() {
        assert(!all_digits(unsigned_part(s@))) by {
            let i = choose|i: int| 0 <= i < s@.len() && !('\0' <= #[trigger] s@[i] <= '\u{7f}');
            if unsigned_part(s@) != s@ {
                assert(i >= 1);
                assert(unsigned_part(s@)[i - 1] == s@[i]);
            }
        }
        return None;
    }
    let bytes = s.as_bytes();
    assert(bytes@ =~= Seq::new(s@.len(), |i: int| s@[i] as u8)) by {
        assert(is_ascii(s));
    }
    assert(s@.skip(0) == s@);
    if bytes.len() > 0 && bytes[0] == 45 {
        assert(has_sign(s@, '-'));
        match magnitude(s, 1) {
            Some(m) => {
                if m <= 0x7fff_ffff_ffff_ffff {
                    Some(-(m as i64))
                } else if m == 0x8000_0000_0000_0000 {
                    Some(i64::MIN)
                } else {
                    None
                }
            },
            None => None,
        }
    } else {
        assert(!has_sign(s@, '-'));
        let from: usize = if bytes.len() > 0 && bytes[0] == 43 { 1 } else { 0 };
        assert(unsigned_part(s@) == s@.skip(from as int));
        match magnitude(s, from) {
            Some(m) => {
                if m <= 0x7fff_ffff_ffff_ffff {
                    Some(m as i64)
                } else {
                    None
                }
            },
            None => None,
        }
    }
}

} // verus!
