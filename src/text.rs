//! Rendering of unsigned integers as text.

use vstd::prelude::*;

verus! {

/// The digit of value `d` (`0`-`9`, then lower-case `a`-`f`).
pub open spec fn digit_char(d: nat) -> char {
    if d == 0 {
        '0'
    } else if d == 1 {
        '1'
    } else if d == 2 {
        '2'
    } else if d == 3 {
        '3'
    } else if d == 4 {
        '4'
    } else if d == 5 {
        '5'
    } else if d == 6 {
        '6'
    } else if d == 7 {
        '7'
    } else if d == 8 {
        '8'
    } else if d == 9 {
        '9'
    } else if d == 10 {
        'a'
    } else if d == 11 {
        'b'
    } else if d == 12 {
        'c'
    } else if d == 13 {
        'd'
    } else if d == 14 {
        'e'
    } else {
        'f'
    }
}

/// `n` written in base `base`, most significant digit first, without leading
/// zeros (zero itself is the single digit `0`).
pub open spec fn digits(n: nat, base: nat) -> Seq<char>
    decreases n,
    via digits_decreases
{
    if base < 2 || n < base {
        seq![digit_char(n)]
    } else {
        digits(n / base, base).push(digit_char(n % base))
    }
}

#[via_fn]
proof fn digits_decreases(n: nat, base: nat) {
    if !(base < 2 || n < base) {
        assert(n / base < n) by (nonlinear_arith)
            requires
                base >= 2,
                n >= base,
        ;
    }
}

/// Relies on `String::push`: the character is appended at the end.
pub assume_specification[ String::push ](s: &mut String, ch: char)
    ensures
        final(s)@ == old(s)@.push(ch),
;

fn digit(d: usize) -> (c: char)
    requires
        d < 16,
    ensures
        c == digit_char(d as nat),
{
    match d {
        0 => '0',
        1 => '1',
        2 => '2',
        3 => '3',
        4 => '4',
        5 => '5',
        6 => '6',
        7 => '7',
        8 => '8',
        9 => '9',
        10 => 'a',
        11 => 'b',
        12 => 'c',
        13 => 'd',
        14 => 'e',
        _ => 'f',
    }
}

fn push_digits(s: &mut String, n: usize, base: usize)
    requires
        2 <= base <= 16,
    ensures
        final(s)@ == old(s)@ + digits(n as nat, base as nat),
    decreases n,
{
    if n >= base {
        assert(n / base < n) by (nonlinear_arith)
            requires
                base >= 2,
                n >= base,
        ;
        push_digits(s, n / base, base);
    }
    s.push(digit(n % base));
    if n < base {
        assert(n % base == n) by (nonlinear_arith)
            requires
                n < base,
        ;
    }
    assert(s@ =~= old(s)@ + digits(n as nat, base as nat));
}

/// Appends `n` in decimal.
pub fn push_decimal(s: &mut String, n: usize)
    ensures
        final(s)@ == old(s)@ + digits(n as nat, 10),
{
    push_digits(s, n, 10);
}

/// Appends `n` in lower-case hexadecimal, without a prefix.
pub fn push_hex(s: &mut String, n: usize)
    ensures
        final(s)@ == old(s)@ + digits(n as nat, 16),
{
    push_digits(s, n, 16);
}

} // verus!
