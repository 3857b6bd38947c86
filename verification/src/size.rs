//! Sizes in bytes, written with a binary unit.
//!
//! A size below 1024 is written as it is, in bytes. A larger one is first
//! taken to 24 significant binary digits, then scaled to the largest unit in
//! which it is at least 1, and written with one decimal. Both roundings go to
//! the nearest value, a tie to the even one.

use vstd::prelude::*;
use crate::text::{decimal, digit_char, u64_text};

verus! {

/// The quotient `num / den`, rounded to the nearest integer, a tie to the
/// even one.
pub open spec fn round_half_even(num: nat, den: nat) -> nat {
    let q = num / den;
    let rem = num % den;
    if rem * 2 > den || (rem * 2 == den && q % 2 == 1) {
        q + 1
    } else {
        q
    }
}

/// The power of two in whose multiples a number of 24 significant binary
/// digits near `n` is counted: 1 for `n` below 2^24, doubling with each
/// further binary digit of `n`.
pub open spec fn significand_unit(n: nat) -> nat
    decreases n,
{
    if n < 0x100_0000 {
        1
    } else {
        2 * significand_unit(n / 2)
    }
}

/// `n` taken to 24 significant binary digits.
pub open spec fn rounded(n: nat) -> nat {
    round_half_even(n, significand_unit(n)) * significand_unit(n)
}

/// The size of the largest binary unit, from KiB on, in which `r` is at
/// least 1.
pub open spec fn unit_size(r: nat) -> nat
    decreases r,
{
    if r < 0x10_0000 {
        1024
    } else {
        1024 * unit_size(r / 1024)
    }
}

/// The position of that unit: 0 for KiB, 1 for MiB and so on.
pub open spec fn unit_index(r: nat) -> nat
    decreases r,
{
    if r < 0x10_0000 {
        0
    } else {
        1 + unit_index(r / 1024)
    }
}

/// The name of the unit at `index`.
pub open spec fn unit_name(index: nat) -> Seq<char> {
    if index == 0 {
        "KiB"@
    } else if index == 1 {
        "MiB"@
    } else if index == 2 {
        "GiB"@
    } else if index == 3 {
        "TiB"@
    } else if index == 4 {
        "PiB"@
    } else if index == 5 {
        "EiB"@
    } else {
        Seq::empty()
    }
}

/// The number of tenths of the unit that the size `n` is written with.
pub open spec fn tenths(n: nat) -> nat {
    round_half_even(rounded(n) * 10, unit_size(rounded(n)))
}

/// The size `n` in words.
pub open spec fn size_text(n: nat) -> Seq<char> {
    if n < 1024 {
        decimal(n) + " B"@
    } else if unit_index(rounded(n)) > 5 {
        "huge"@
    } else {
        decimal(tenths(n) / 10) + seq!['.', digit_char(tenths(n) % 10)] + " "@ + unit_name(
            unit_index(rounded(n)),
        )
    }
}

fn half_even(num: u128, den: u128) -> (r: u128)
    requires
        0 < den <= 0x100_0000_0000_0000_0000,
        num <= 0x1000_0000_0000_0000_0000,
    ensures
        r == round_half_even(num as nat, den as nat),
        num / den <= r <= num / den + 1,
{
    let q = num / den;
    let rem = num % den;
    assert(q <= num) by (nonlinear_arith)
        requires
            q == num / den,
            den > 0,
    ;
    if rem * 2 > den || (rem * 2 == den && q % 2 == 1) {
        q + 1
    } else {
        q
    }
}

fn significand_unit_of(n: u64) -> (r: u64)
    ensures
        r == significand_unit(n as nat),
        1 <= r,
        n < r * 0x100_0000,
        n < 0x100_0000 ==> r == 1,
        n >= 0x100_0000 ==> r * 0x80_0000 <= n,
    decreases n,
{
    if n < 0x100_0000 {
        1
    } else {
        let half = significand_unit_of(n / 2);
        2 * half
    }
}

fn unit_of(r: u128) -> (u: (u128, u8))
    requires
        1024 <= r < 0x40_0000_0000_0000_0000,
    ensures
        u.0 == unit_size(r as nat),
        u.1 == unit_index(r as nat),
        1024 <= u.0 <= r,
        r < 1024 * u.0,
        r < 0x10_0000 ==> u.1 == 0,
        r < 0x4000_0000 ==> u.1 <= 1,
        r < 0x100_0000_0000 ==> u.1 <= 2,
        r < 0x4_0000_0000_0000 ==> u.1 <= 3,
        r < 0x1000_0000_0000_0000 ==> u.1 <= 4,
        u.1 <= 5,
    decreases r,
{
    if r < 0x10_0000 {
        (1024, 0)
    } else {
        let (size, index) = unit_of(r / 1024);
        (1024 * size, 1 + index)
    }
}

fn unit_label(index: u8) -> (r: &'static str)
    requires
        index <= 5,
    ensures
        r@ == unit_name(index as nat),
{
    if index == 0 {
        "KiB"
    } else if index == 1 {
        "MiB"
    } else if index == 2 {
        "GiB"
    } else if index == 3 {
        "TiB"
    } else if index == 4 {
        "PiB"
    } else {
        "EiB"
    }
}

/// The size `n` in words: `17 B`, `1.2 KiB`, `16.0 EiB`.
pub fn fmt_n_bytes(n: usize) -> (r: String)
    ensures
        r@ == size_text(n as nat),
{
    if n < 1024 {
        let mut out = u64_text(n as u64);
        out.append(" B");
        return out;
    }
    let unit = significand_unit_of(n as u64);
    let q = half_even(n as u128, unit as u128);
    assert(1024 <= q * unit < 0x40_0000_0000_0000_0000) by (nonlinear_arith)
        requires
            1024 <= n < 0x1_0000_0000_0000_0000,
            1 <= unit,
            n < unit * 0x100_0000,
            n < 0x100_0000 ==> unit == 1,
            n >= 0x100_0000 ==> unit * 0x80_0000 <= n,
            (n as int) / (unit as int) <= q <= (n as int) / (unit as int) + 1,
    ;
    let r = q * (unit as u128);
    let (size, index) = unit_of(r);
    let t = half_even(r * 10, size);
    assert(t <= 10241) by (nonlinear_arith)
        requires
            t <= (r * 10) / (size as int) + 1,
            r < 1024 * size,
            size > 0,
    ;
    let mut out = u64_text((t / 10) as u64);
    let d: u8 = (t % 10) as u8;
    out.push('.');
    out.push((48u8 + d) as char);
    out.append(" ");
    out.append(unit_label(index));
    assert(out@ =~= size_text(n as nat));
    out
}

} // verus!
