//! Numbers as the command line writes them and as the output shows them.

use crate::text::from_chars;
use vstd::prelude::*;

verus! {

/// The value of a character as a digit: `0` to `9` count 0 to 9, the
/// letters, in either case, count from 10 on. A character that is no digit
/// counts 36.
pub open spec fn digit_of(c: char) -> int {
    if '0' <= c <= '9' {
        c as int - '0' as int
    } else if 'a' <= c <= 'z' {
        c as int - 'a' as int + 10
    } else if 'A' <= c <= 'Z' {
        c as int - 'A' as int + 10
    } else {
        36
    }
}

/// Whether every character of `s` is a digit of the radix.
pub open spec fn all_digits(s: Seq<char>, radix: int) -> bool {
    forall|i: int| 0 <= i < s.len() ==> digit_of(#[trigger] s[i]) < radix
}

/// The number that the digits `s` write in the radix, the first digit
/// counting most.
pub open spec fn number_value(s: Seq<char>, radix: int) -> int
    decreases s.len(),
{
    if s.len() == 0 {
        0
    } else {
        number_value(s.drop_last(), radix) * radix + digit_of(s.last())
    }
}

/// The number that `s` writes without a sign: a digit or more, and nothing
/// else.
pub open spec fn magnitude(s: Seq<char>, radix: int) -> Option<int> {
    if s.len() > 0 && all_digits(s, radix) {
        Some(number_value(s, radix))
    } else {
        None
    }
}

/// The unsigned 64-bit number that `s` writes: digits of the radix, after an
/// optional `+`, whose value fits.
pub open spec fn unsigned_value(s: Seq<char>, radix: int) -> Option<u64> {
    let digits = if s.len() > 0 && s[0] == '+' {
        s.skip(1)
    } else {
        s
    };
    match magnitude(digits, radix) {
        Some(v) => if v <= u64::MAX {
            Some(v as u64)
        } else {
            None
        },
        None => None,
    }
}

/// The signed 64-bit number that `s` writes: digits of the radix, after an
/// optional `+` or `-`, whose value fits.
pub open spec fn signed_value(s: Seq<char>, radix: int) -> Option<i64> {
    if s.len() > 0 && s[0] == '-' {
        match magnitude(s.skip(1), radix) {
            Some(v) => if v <= 0x8000_0000_0000_0000 {
                Some((-v) as i64)
            } else {
                None
            },
            None => None,
        }
    } else {
        let digits = if s.len() > 0 && s[0] == '+' {
            s.skip(1)
        } else {
            s
        };
        match magnitude(digits, radix) {
            Some(v) => if v <= i64::MAX {
                Some(v as i64)
            } else {
                None
            },
            None => None,
        }
    }
}

/// The value of a character as a digit.
pub fn digit(c: char) -> (d: u64)
    ensures
        d == digit_of(c),
{
    if '0' <= c && c <= '9' {
        (c as u64) - ('0' as u64)
    } else if 'a' <= c && c <= 'z' {
        (c as u64) - ('a' as u64) + 10
    } else if 'A' <= c && c <= 'Z' {
        (c as u64) - ('A' as u64) + 10
    } else {
        36
    }
}

/// A number is not less than the number that a prefix of its digits writes.
proof fn lemma_prefix_value(s: Seq<char>, radix: int, k: int)
    requires
        radix >= 1,
        0 <= k <= s.len(),
    ensures
        0 <= number_value(s.take(k), radix) <= number_value(s, radix),
    decreases s.len(),
{
    if s.len() == 0 {
        assert(s.take(k) == s);
    } else if k == s.len() {
        assert(s.take(k) == s);
        lemma_prefix_value(s.drop_last(), radix, 0);
        assert(s.drop_last().take(0).len() == 0);
        let v = number_value(s.drop_last(), radix);
        assert(v * radix >= 0) by (nonlinear_arith)
            requires
                v >= 0,
                radix >= 1,
        ;
    } else {
        lemma_prefix_value(s.drop_last(), radix, k);
        assert(s.drop_last().take(k) == s.take(k));
        let v = number_value(s.drop_last(), radix);
        assert(v * radix >= v) by (nonlinear_arith)
            requires
                v >= 0,
                radix >= 1,
        ;
    }
}

/// Reads the digits of `s` from position `start` on as a number of at most
/// `limit`.
pub fn parse_magnitude(s: &[char], start: usize, radix: u64, limit: u64) -> (value: Option<u64>)
    requires
        start <= s.len(),
        2 <= radix <= 36,
    ensures
        value == match magnitude(s@.skip(start as int), radix as int) {
            Some(v) => if v <= limit {
                Some(v as u64)
            } else {
                None
            },
            None => None,
        },
        value matches Some(v) ==> v <= limit && magnitude(s@.skip(start as int), radix as int)
            == Some(v as int),
{
    let ghost digits = s@.skip(start as int);
    if start == s.len() {
        return None;
    }
    let mut acc: u64 = 0;
    let mut i: usize = start;
    while i < s.len()
        invariant
            start <= i <= s.len(),
            2 <= radix <= 36,
            digits == s@.skip(start as int),
            all_digits(digits.take(i - start), radix as int),
            acc == number_value(digits.take(i - start), radix as int),
            acc <= limit,
        decreases s.len() - i,
    {
        let d = digit(s[i]);
        let ghost next = digits.take(i - start + 1);
        proof {
            assert(next.drop_last() == digits.take(i - start));
            assert(next.last() == s@[i as int]);
            assert(digits[i - start] == s@[i as int]);
        }
        if d >= radix {
            return None;
        }
        assert(acc * radix <= 0xFFFF_FFFF_FFFF_FFFF * 36) by (nonlinear_arith)
            requires
                acc <= 0xFFFF_FFFF_FFFF_FFFF,
                radix <= 36,
        ;
        let wide: u128 = (acc as u128) * (radix as u128) + (d as u128);
        if wide > limit as u128 {
            proof {
                if all_digits(digits, radix as int) {
                    lemma_prefix_value(digits, radix as int, i - start + 1);
                }
            }
            return None;
        }
        acc = wide as u64;
        i += 1;
    }
    proof {
        assert(digits.take(i - start) == digits);
    }
    Some(acc)
}

/// Reads an unsigned 64-bit number in the radix.
pub fn parse_unsigned(s: &[char], radix: u64) -> (value: Option<u64>)
    requires
        2 <= radix <= 36,
    ensures
        value == unsigned_value(s@, radix as int),
{
    let start: usize = if s.len() > 0 && s[0] == '+' {
        1
    } else {
        0
    };
    proof {
        if start == 0 {
            assert(s@.skip(0) == s@);
        }
    }
    parse_magnitude(s, start, radix, u64::MAX)
}

/// Reads a signed 64-bit number in the radix.
pub fn parse_signed(s: &[char], radix: u64) -> (value: Option<i64>)
    requires
        2 <= radix <= 36,
    ensures
        value == signed_value(s@, radix as int),
{
    if s.len() > 0 && s[0] == '-' {
        match parse_magnitude(s, 1, radix, 0x8000_0000_0000_0000) {
            Some(v) => if v == 0x8000_0000_0000_0000 {
                Some(i64::MIN)
            } else {
                assert((-(v as int)) as i64 == -(v as i64));
                Some(-(v as i64))
            },
            None => None,
        }
    } else {
        let start: usize = if s.len() > 0 && s[0] == '+' {
            1
        } else {
            0
        };
        proof {
            if start == 0 {
                assert(s@.skip(0) == s@);
            }
        }
        match parse_magnitude(s, start, radix, 0x7FFF_FFFF_FFFF_FFFF) {
            Some(v) => Some(v as i64),
            None => None,
        }
    }
}

/// The character that writes the digit `d`, letters in upper case.
pub open spec fn digit_char(d: int) -> char {
    if d < 10 {
        ('0' as int + d) as char
    } else {
        ('A' as int + d - 10) as char
    }
}

/// The digits that write `v` in the radix, without leading zeros; zero is
/// written as one digit.
pub open spec fn digits_of(v: nat, radix: nat) -> Seq<char>
    decreases v,
    via digits_of_terminates
{
    if radix < 2 || v < radix {
        seq![digit_char(v as int)]
    } else {
        digits_of(v / radix, radix).push(digit_char((v % radix) as int))
    }
}

#[via_fn]
proof fn digits_of_terminates(v: nat, radix: nat) {
    if radix >= 2 && v >= radix {
        lemma_quotient_is_less(v, radix);
    }
}

/// Dividing a number by a radix of two or more makes it less.
proof fn lemma_quotient_is_less(v: nat, radix: nat)
    requires
        radix >= 2,
        v >= radix,
    ensures
        v / radix < v,
{
    assert(v / radix < v) by (nonlinear_arith)
        requires
            radix >= 2,
            v >= radix,
    ;
}

/// How a word is shown: `0x`, then its hexadecimal digits in upper case.
pub open spec fn hex_text(v: u64) -> Seq<char> {
    seq!['0', 'x'] + digits_of(v as nat, 16)
}

/// How an exit status is shown: in decimal, with `-` before a negative one.
pub open spec fn decimal_text(v: i32) -> Seq<char> {
    if v < 0 {
        seq!['-'] + digits_of((-v) as nat, 10)
    } else {
        digits_of(v as nat, 10)
    }
}

/// The character that writes the digit `d`.
pub fn digit_to_char(d: u64) -> (c: char)
    requires
        d < 16,
    ensures
        c == digit_char(d as int),
{
    if d == 0 {
        '0'
    } else if d == 1 {
        '1'
    } else if d == 2 {
        '2'
    } else if d == 3 {
        '3'
    } else if d == 4 {
        '4'
    } else if d == 5 {
        '5'
    } else if d == 6 {
        '6'
    } else if d == 7 {
        '7'
    } else if d == 8 {
        '8'
    } else if d == 9 {
        '9'
    } else if d == 10 {
        'A'
    } else if d == 11 {
        'B'
    } else if d == 12 {
        'C'
    } else if d == 13 {
        'D'
    } else if d == 14 {
        'E'
    } else {
        'F'
    }
}

/// Appends to `out` the digits that write `v` in the radix.
pub fn push_digits(out: &mut Vec<char>, v: u64, radix: u64)
    requires
        2 <= radix <= 16,
    ensures
        final(out)@ == old(out)@ + digits_of(v as nat, radix as nat),
    decreases v,
{
    if v >= radix {
        proof {
            lemma_quotient_is_less(v as nat, radix as nat);
        }
        push_digits(out, v / radix, radix);
    }
    out.push(digit_to_char(v % radix));
    proof {
        if v < radix {
            assert(v % radix == v) by (nonlinear_arith)
                requires
                    v < radix,
            ;
        }
        assert(out@ =~= old(out)@ + digits_of(v as nat, radix as nat));
    }
}

/// Shows a word: `0x`, then its hexadecimal digits in upper case.
pub fn format_hex(v: u64) -> (text: String)
    ensures
        text@ == hex_text(v),
{
    let mut out: Vec<char> = Vec::new();
    out.push('0');
    out.push('x');
    push_digits(&mut out, v, 16);
    assert(out@ =~= hex_text(v));
    from_chars(out.as_slice())
}

/// Shows an exit status in decimal.
pub fn format_decimal(v: i32) -> (text: String)
    ensures
        text@ == decimal_text(v),
{
    let mut out: Vec<char> = Vec::new();
    if v < 0 {
        out.push('-');
        let magnitude: u64 = (-(v as i64)) as u64;
        push_digits(&mut out, magnitude, 10);
        assert(out@ =~= decimal_text(v));
    } else {
        push_digits(&mut out, v as u64, 10);
        assert(out@ =~= decimal_text(v));
    }
    from_chars(out.as_slice())
}

/// The digits that show a number are digits of the radix, and they write
/// the number.
pub proof fn lemma_digits_write_the_number(v: nat, radix: nat)
    requires
        2 <= radix <= 16,
    ensures
        digits_of(v, radix).len() > 0,
        all_digits(digits_of(v, radix), radix as int),
        number_value(digits_of(v, radix), radix as int) == v,
    decreases v,
{
    let shown = digits_of(v, radix);
    if v < radix {
        assert(shown.drop_last() =~= Seq::<char>::empty());
        assert(shown.last() == digit_char(v as int));
        assert(number_value(shown.drop_last(), radix as int) == 0);
    } else {
        lemma_quotient_is_less(v, radix);
        lemma_digits_write_the_number(v / radix, radix);
        let head = digits_of(v / radix, radix);
        let d = (v % radix) as int;
        assert(0 <= d < radix) by (nonlinear_arith)
            requires
                d == v % radix,
                radix >= 2,
        ;
        assert(shown.drop_last() =~= head);
        assert(shown.last() == digit_char(d));
        assert forall|i: int| 0 <= i < shown.len() implies digit_of(#[trigger] shown[i]) < radix by {
            if i < head.len() {
                assert(shown[i] == head[i]);
            }
        }
        assert((v / radix) * radix + v % radix == v) by (nonlinear_arith)
            requires
                radix >= 2,
        ;
    }
}

/// A word that is shown in hexadecimal reads back, without the `0x`, as the
/// same word: what a read of a register or of memory shows can be given to
/// a write.
pub proof fn law_shown_word_reads_back(v: u64)
    ensures
        hex_text(v).skip(2) == digits_of(v as nat, 16),
        unsigned_value(digits_of(v as nat, 16), 16) == Some(v),
{
    lemma_digits_write_the_number(v as nat, 16);
    let shown = digits_of(v as nat, 16);
    assert(hex_text(v).skip(2) =~= shown);
    assert(digit_of(shown[0]) < 16);
    assert(shown[0] != '+');
}

} // verus!
