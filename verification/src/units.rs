//! Bytes to gigabytes, in hundredths, by integer arithmetic alone.
//!
//! A byte count is first taken to the nearest value that a binary
//! double-precision number can hold (a significand of 53 bits), then
//! divided by 1024 * 1024 * 1024 and rounded to two decimal places. Both
//! roundings go to the nearest value and, half way between two, to the even
//! one. This is the number that a double-precision division prints with two
//! decimals.

use vstd::prelude::*;
use vstd::arithmetic::div_mod::lemma_fundamental_div_mod;
use vstd::arithmetic::div_mod::lemma_div_denominator;

verus! {

/// Bytes in a gigabyte: 1024 * 1024 * 1024.
pub const BYTES_PER_GB: u64 = 0x4000_0000;

/// The first integer that needs more than 53 bits.
pub const EXACT_LIMIT: u64 = 0x20_0000_0000_0000;

/// `n / d` rounded to the nearest integer; half way goes to the even one.
pub open spec fn round_half_even(n: nat, d: nat) -> nat
    recommends
        d > 0,
{
    let q = n / d;
    let r = n % d;
    if 2 * r < d || (2 * r == d && q % 2 == 0) {
        q
    } else {
        q + 1
    }
}

/// The distance between neighbouring 53-bit values at the size of `n`: 1
/// below `EXACT_LIMIT`, and twice as much each time `n` doubles.
pub open spec fn spacing(n: nat) -> nat
    decreases n,
{
    if n < EXACT_LIMIT {
        1
    } else {
        2 * spacing(n / 2)
    }
}

/// `n` rounded to 53 significant bits.
pub open spec fn to_53_bits(n: nat) -> nat {
    round_half_even(n, spacing(n)) * spacing(n)
}

/// Hundredths of a gigabyte in `bytes`.
pub open spec fn gb_hundredths(bytes: nat) -> nat {
    round_half_even(to_53_bits(bytes) * 100, BYTES_PER_GB as nat)
}

/// Below `EXACT_LIMIT` the first rounding changes nothing.
pub proof fn lemma_small_counts_are_exact(bytes: nat)
    requires
        bytes < EXACT_LIMIT,
    ensures
        to_53_bits(bytes) == bytes,
        gb_hundredths(bytes) == round_half_even(bytes * 100, BYTES_PER_GB as nat),
{
    assert(spacing(bytes) == 1);
    assert(bytes / 1 == bytes);
    assert(bytes % 1 == 0);
}

/// A whole number of gigabytes below `EXACT_LIMIT` bytes comes out as
/// that number of hundreds.
pub proof fn lemma_whole_gigabytes(count: nat)
    requires
        count * BYTES_PER_GB < EXACT_LIMIT,
    ensures
        gb_hundredths(count * (BYTES_PER_GB as nat)) == count * 100,
{
    let bytes: nat = count * (BYTES_PER_GB as nat);
    lemma_small_counts_are_exact(bytes);
    assert(bytes * 100 == (count * 100) * 0x4000_0000) by (nonlinear_arith)
        requires
            bytes == count * 0x4000_0000,
    ;
    lemma_fundamental_div_mod_converse_nat(bytes * 100, 0x4000_0000, count * 100, 0);
}

proof fn lemma_fundamental_div_mod_converse_nat(x: nat, d: nat, q: nat, r: nat)
    requires
        d > 0,
        r < d,
        x == q * d + r,
    ensures
        x / d == q,
        x % d == r,
{
    vstd::arithmetic::div_mod::lemma_fundamental_div_mod_converse(
        x as int,
        d as int,
        q as int,
        r as int,
    );
}

/// `n / d` rounded to the nearest integer, half way to the even one.
pub fn div_round_half_even(n: u128, d: u128) -> (q: u128)
    requires
        d > 0,
    ensures
        q == round_half_even(n as nat, d as nat),
{
    let q: u128 = n / d;
    let r: u128 = n % d;
    // `r` against `d - r` compares twice `r` with `d` without overflow
    let rest: u128 = d - r;
    if r < rest || (r == rest && q % 2 == 0) {
        q
    } else {
        proof {
            lemma_fundamental_div_mod(n as int, d as int);
            // r >= d - r and r < d, so q * d + r <= n leaves room for q + 1
            assert(q < u128::MAX) by (nonlinear_arith)
                requires
                    n == d * q + r,
                    2 * r >= d,
                    d > 0,
                    r < d,
                    n <= u128::MAX,
                    q >= 0,
            ;
        }
        q + 1
    }
}

/// `bytes` rounded to 53 significant bits.
pub fn round_to_53_bits(bytes: u64) -> (value: u128)
    ensures
        value == to_53_bits(bytes as nat),
        value <= 0x2_0000_0000_0000_0000,
{
    let mut unit: u64 = 1;
    let mut top: u64 = bytes;
    while top >= EXACT_LIMIT
        invariant
            unit >= 1,
            top == bytes / unit,
            unit * top <= bytes,
            unit <= 0x1000,
            spacing(bytes as nat) == unit * spacing(top as nat),
        decreases top,
    {
        proof {
            lemma_div_denominator(bytes as int, unit as int, 2);
            assert(unit <= 0x800 && (unit * 2) * (top / 2) <= bytes) by (nonlinear_arith)
                requires
                    unit * top <= bytes,
                    top >= 0x20_0000_0000_0000,
                    bytes <= 0xffff_ffff_ffff_ffff,
                    unit >= 1,
            ;
            assert(unit * (2 * spacing((top / 2) as nat)) == (unit * 2) * spacing(
                (top / 2) as nat,
            )) by (nonlinear_arith);
        }
        top = top / 2;
        unit = unit * 2;
    }
    let quotient = div_round_half_even(bytes as u128, unit as u128);
    proof {
        assert(unit * spacing(top as nat) == unit) by (nonlinear_arith)
            requires
                spacing(top as nat) == 1,
        ;
        assert(quotient * unit <= 0x2_0000_0000_0000_0000) by (nonlinear_arith)
            requires
                quotient <= top + 1,
                unit * top <= bytes,
                1 <= unit <= 0x1000,
                bytes <= 0xffff_ffff_ffff_ffff,
        ;
    }
    quotient * (unit as u128)
}

/// Hundredths of a gigabyte in `bytes`.
pub fn hundredths_of_gb(bytes: u64) -> (hundredths: u64)
    ensures
        hundredths == gb_hundredths(bytes as nat),
{
    let value = round_to_53_bits(bytes);
    let quotient = div_round_half_even(value * 100, BYTES_PER_GB as u128);
    quotient as u64
}

} // verus!
