//! Human-readable file sizes: whole bytes below one KiB, otherwise KiB, MiB or GiB
//! with two decimals, rounded as a double-precision value formats with `{:.2}`.
use vstd::prelude::*;
use crate::text::{decimal, digit, digit_char, push_char, push_decimal};

verus! {

/// The spacing between neighbouring doubles near `n`: 1 below 2^53, doubling with each
/// further binary digit of `n` (up to 2^64).
pub open spec fn double_spacing(n: nat) -> nat {
    if n < 0x20_0000_0000_0000 {
        1
    } else if n < 0x40_0000_0000_0000 {
        2
    } else if n < 0x80_0000_0000_0000 {
        4
    } else if n < 0x100_0000_0000_0000 {
        8
    } else if n < 0x200_0000_0000_0000 {
        16
    } else if n < 0x400_0000_0000_0000 {
        32
    } else if n < 0x800_0000_0000_0000 {
        64
    } else if n < 0x1000_0000_0000_0000 {
        128
    } else if n < 0x2000_0000_0000_0000 {
        256
    } else if n < 0x4000_0000_0000_0000 {
        512
    } else if n < 0x8000_0000_0000_0000 {
        1024
    } else {
        2048
    }
}

/// `n / d` rounded to the nearest integer, ties to the even one.
pub open spec fn round_half_even(n: nat, d: nat) -> nat {
    let q = n / d;
    let r = n % d;
    if 2 * r > d || (2 * r == d && q % 2 == 1) {
        q + 1
    } else {
        q
    }
}

/// The double nearest to the integer `n < 2^64` (what `n as f64` gives), as an integer.
pub open spec fn nearest_double(n: nat) -> nat {
    round_half_even(n, double_spacing(n)) * double_spacing(n)
}

/// `h` hundredths as text with two decimals, such as `12.05`.
pub open spec fn two_decimals(h: nat) -> Seq<char> {
    decimal(h / 100) + seq!['.', digit_char((h % 100) / 10), digit_char(h % 10)]
}

/// The text shown for a size of `size` bytes (see `bytes_to_mb`).
pub open spec fn size_text(size: nat) -> Seq<char> {
    if size < 1024 {
        decimal(size) + seq![' ', 'B']
    } else if size < 0x10_0000 {
        two_decimals(round_half_even(size * 100, 1024)) + seq![' ', 'K', 'B']
    } else if size < 0x4000_0000 {
        two_decimals(round_half_even(size * 100, 0x10_0000)) + seq![' ', 'M', 'B']
    } else {
        two_decimals(round_half_even(nearest_double(size) * 100, 0x4000_0000)) + seq![' ', 'G', 'B']
    }
}

fn rounded_quotient(n: u128, d: u128) -> (r: u128)
    requires
        d > 0,
        n <= 0x10_0000_0000_0000_0000_0000_0000,
    ensures
        r == round_half_even(n as nat, d as nat),
        r <= n,
{
    let q = n / d;
    let rem = n % d;
    assert(q <= n) by (nonlinear_arith)
        requires
            q == n / d,
            d > 0,
    ;
    if rem > d - rem || (rem == d - rem && q % 2 == 1) {
        assert(q < n) by (nonlinear_arith)
            requires
                q == n / d,
                rem == n % d,
                d > 0,
                2 * rem >= d,
        ;
        q + 1
    } else {
        q
    }
}

fn spacing(n: u128) -> (p: u128)
    ensures
        p == double_spacing(n as nat),
        1 <= p <= 2048,
{
    if n < 0x20_0000_0000_0000 {
        1
    } else if n < 0x40_0000_0000_0000 {
        2
    } else if n < 0x80_0000_0000_0000 {
        4
    } else if n < 0x100_0000_0000_0000 {
        8
    } else if n < 0x200_0000_0000_0000 {
        16
    } else if n < 0x400_0000_0000_0000 {
        32
    } else if n < 0x800_0000_0000_0000 {
        64
    } else if n < 0x1000_0000_0000_0000 {
        128
    } else if n < 0x2000_0000_0000_0000 {
        256
    } else if n < 0x4000_0000_0000_0000 {
        512
    } else if n < 0x8000_0000_0000_0000 {
        1024
    } else {
        2048
    }
}

fn push_two_decimals(s: &mut String, h: u128)
    ensures
        final(s)@ == old(s)@ + two_decimals(h as nat),
{
    push_decimal(s, h / 100);
    push_char(s, '.');
    push_char(s, digit((h % 100) / 10));
    push_char(s, digit(h % 10));
    assert(final(s)@ =~= old(s)@ + two_decimals(h as nat));
}

/// The size of `size` bytes as text: below 1024 the byte count and ` B`; below 2^20 the
/// size in KiB with two decimals and ` KB`; below 2^30 in MiB and ` MB`; otherwise in
/// GiB and ` GB`. Decimals are rounded to nearest, ties to even, from the exact value
/// of the size as a double (so sizes of 2^53 bytes and more are first rounded to a
/// double).
pub fn bytes_to_mb(size: u64) -> (r: String)
    ensures
        r@ == size_text(size as nat),
{
    let n = size as u128;
    let mut s = String::new();
    if n < 1024 {
        push_decimal(&mut s, n);
        push_char(&mut s, ' ');
        push_char(&mut s, 'B');
    } else if n < 0x10_0000 {
        push_two_decimals(&mut s, rounded_quotient(n * 100, 1024));
        push_char(&mut s, ' ');
        push_char(&mut s, 'K');
        push_char(&mut s, 'B');
    } else if n < 0x4000_0000 {
        push_two_decimals(&mut s, rounded_quotient(n * 100, 0x10_0000));
        push_char(&mut s, ' ');
        push_char(&mut s, 'M');
        push_char(&mut s, 'B');
    } else {
        let p = spacing(n);
        let m = rounded_quotient(n, p);
        assert(m * p <= 0x1_0000_0000_0000_0000_0000 * 2048) by (nonlinear_arith)
            requires
                m <= n,
                n < 0x1_0000_0000_0000_0000,
                p <= 2048,
        ;
        let d = m * p;
        assert(d * 100 <= 0x1_0000_0000_0000_0000_0000 * 2048 * 100);
        assert(d <= 0x1_0000_0000_0000_0000_0000) by (nonlinear_arith)
            requires
                d == m * p,
                m <= n,
                n < 0x1_0000_0000_0000_0000,
                p <= 2048,
        ;
        push_two_decimals(&mut s, rounded_quotient(d * 100, 0x4000_0000));
        push_char(&mut s, ' ');
        push_char(&mut s, 'G');
        push_char(&mut s, 'B');
    }
    assert(s@ =~= size_text(size as nat));
    s
}

} // verus!
