//! Building text: decimal and hexadecimal digits, appended to a `String`.

use vstd::prelude::*;

verus! {

/// The decimal digit character of `d`.
pub open spec fn digit_char(d: nat) -> char {
    (('0' as u32) + d) as char
}

/// The decimal representation of `n`, without leading zeros.
pub open spec fn decimal(n: nat) -> Seq<char>
    decreases n,
{
    if n < 10 {
        seq![digit_char(n)]
    } else {
        decimal(n / 10).push(digit_char(n % 10))
    }
}

/// Lowercase hex digit of `d` (0..16).
pub open spec fn hex_char(d: nat) -> char {
    if d < 10 { (('0' as u32) + d) as char } else { (('a' as u32) + d - 10) as char }
}

/// The last `n` hex digits of `x`, most significant first.
pub open spec fn hex_digits(x: nat, n: nat) -> Seq<char>
    decreases n,
{
    if n == 0 {
        Seq::empty()
    } else {
        hex_digits(x / 16, (n - 1) as nat).push(hex_char(x % 16))
    }
}

/// `String::push`: appends one character.
#[verifier::external_body]
pub(crate) fn push_char(s: &mut String, c: char)
    ensures
        final(s)@ == old(s)@.push(c),
{
    s.push(c);
}

/// `String::push_str`: appends the characters of `t`.
#[verifier::external_body]
pub(crate) fn push_text(s: &mut String, t: &str)
    ensures
        final(s)@ == old(s)@ + t@,
{
    s.push_str(t);
}

/// The character of the digit `d` in base 16 (lowercase), `d < 16`.
pub fn hex_digit_char(d: u32) -> (c: char)
    requires
        d < 16,
    ensures
        c == hex_char(d as nat),
{
    let b: u8 = if d < 10 { 48u8 + d as u8 } else { 87u8 + d as u8 };
    b as char
}

/// Append `n` in decimal.
pub fn push_decimal(s: &mut String, n: usize)
    ensures
        final(s)@ == old(s)@ + decimal(n as nat),
    decreases n,
{
    if n >= 10 {
        push_decimal(s, n / 10);
    }
    push_char(s, hex_digit_char((n % 10) as u32));
    proof {
        assert(hex_char((n % 10) as nat) == digit_char((n % 10) as nat));
        if n >= 10 {
            assert(decimal(n as nat) == decimal((n / 10) as nat).push(digit_char((n % 10) as nat)));
        } else {
            assert(decimal(n as nat) == seq![digit_char(n as nat)]);
        }
        assert(s@ =~= old(s)@ + decimal(n as nat));
    }
}

/// Append the last `n` hex digits of `x`, zero-padded, lowercase.
pub fn push_hex(s: &mut String, x: u32, n: u8)
    ensures
        final(s)@ == old(s)@ + hex_digits(x as nat, n as nat),
    decreases n,
{
    if n > 0 {
        push_hex(s, x / 16, n - 1);
        push_char(s, hex_digit_char(x % 16));
        proof {
            assert(s@ =~= old(s)@ + hex_digits(x as nat, n as nat));
        }
    } else {
        proof {
            assert(s@ =~= old(s)@ + hex_digits(x as nat, n as nat));
        }
    }
}

} // verus!
