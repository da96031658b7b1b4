//! Fixed-point scalars.
//!
//! A level is a signed count of millionths: `ONE` stands for 1.0, `0` for 0.0.
//! Every scalar of the kernel (the nine bits, thresholds, trust scores) is a
//! level, so that comparisons and products are exact. This module also writes
//! levels and counts as decimal text.

use vstd::prelude::*;

verus! {

/// The level that stands for 1.0.
pub const ONE: i64 = 1_000_000;

/// `x` lies in the closed unit interval.
pub open spec fn in_unit(x: i64) -> bool {
    0 <= x <= ONE
}

/// Whether `x` lies in the closed unit interval.
pub fn is_in_unit(x: i64) -> (r: bool)
    ensures
        r == in_unit(x),
{
    0 <= x && x <= ONE
}

/// The decimal digit for `d`, `'0'` where `d` is no digit.
pub open spec fn digit(d: int) -> char {
    if d == 1 {
        '1'
    } else if d == 2 {
        '2'
    } else if d == 3 {
        '3'
    } else if d == 4 {
        '4'
    } else if d == 5 {
        '5'
    } else if d == 6 {
        '6'
    } else if d == 7 {
        '7'
    } else if d == 8 {
        '8'
    } else if d == 9 {
        '9'
    } else {
        '0'
    }
}

/// The decimal digit for `d`.
pub fn digit_of(d: u64) -> (c: char)
    ensures
        c == digit(d as int),
{
    if d == 1 {
        '1'
    } else if d == 2 {
        '2'
    } else if d == 3 {
        '3'
    } else if d == 4 {
        '4'
    } else if d == 5 {
        '5'
    } else if d == 6 {
        '6'
    } else if d == 7 {
        '7'
    } else if d == 8 {
        '8'
    } else if d == 9 {
        '9'
    } else {
        '0'
    }
}

/// `n` in decimal, without leading zeros (`"0"` for zero).
pub open spec fn decimal(n: nat) -> Seq<char>
    decreases n,
{
    if n < 10 {
        seq![digit(n as int)]
    } else {
        decimal(n / 10).push(digit((n % 10) as int))
    }
}

/// The last `width` decimal digits of `n`, with leading zeros.
pub open spec fn padded(n: nat, width: nat) -> Seq<char>
    decreases width,
{
    if width == 0 {
        Seq::<char>::empty()
    } else {
        padded(n / 10, (width - 1) as nat).push(digit((n % 10) as int))
    }
}

/// Ten to the power `k`, for `k` up to six; one above that.
pub open spec fn pow10(k: nat) -> nat {
    if k == 1 {
        10
    } else if k == 2 {
        100
    } else if k == 3 {
        1_000
    } else if k == 4 {
        10_000
    } else if k == 5 {
        100_000
    } else if k == 6 {
        1_000_000
    } else {
        1
    }
}

/// The distance of `x` from zero.
pub open spec fn magnitude(x: int) -> nat {
    if x < 0 {
        (-x) as nat
    } else {
        x as nat
    }
}

/// The magnitude of the level `x` in units of ten to the minus `places`,
/// halves rounded away from zero.
pub open spec fn rounded(x: int, places: nat) -> nat {
    let unit = pow10((6 - places) as nat);
    (magnitude(x) + unit / 2) / unit
}

/// The level `x` written with exactly `places` decimals (at most six), a
/// minus sign before a negative level.
pub open spec fn fixed(x: int, places: nat) -> Seq<char> {
    let q = rounded(x, places);
    let sign = if x < 0 {
        seq!['-']
    } else {
        Seq::<char>::empty()
    };
    let whole = decimal(q / pow10(places));
    if places == 0 {
        sign + whole
    } else {
        sign + whole + seq!['.'] + padded(q % pow10(places), places)
    }
}

/// The number of decimals that a fraction of `frac` millionths needs.
pub open spec fn places_needed(frac: nat) -> nat {
    if frac % 1_000_000 == 0 {
        0
    } else if frac % 100_000 == 0 {
        1
    } else if frac % 10_000 == 0 {
        2
    } else if frac % 1_000 == 0 {
        3
    } else if frac % 100 == 0 {
        4
    } else if frac % 10 == 0 {
        5
    } else {
        6
    }
}

/// The level `x` written with as few decimals as hold it exactly: `"1"` for
/// `ONE`, `"0.95"` for 950 000 millionths.
pub open spec fn plain(x: int) -> Seq<char> {
    fixed(x, places_needed(magnitude(x) % 1_000_000))
}

/// Appends `n` in decimal to `out`.
pub fn push_decimal(out: &mut Vec<char>, n: u64)
    ensures
        final(out)@ == old(out)@ + decimal(n as nat),
    decreases n,
{
    if n >= 10 {
        push_decimal(out, n / 10);
    }
    out.push(digit_of(n % 10));
    assert(out@ =~= old(out)@ + decimal(n as nat));
}

/// The number `n` in decimal.
pub fn decimal_of(n: u64) -> (out: Vec<char>)
    ensures
        out@ == decimal(n as nat),
{
    let mut out: Vec<char> = Vec::new();
    push_decimal(&mut out, n);
    assert(out@ =~= decimal(n as nat));
    out
}

/// Appends the last `width` decimal digits of `n` to `out`.
pub fn push_padded(out: &mut Vec<char>, n: u64, width: u8)
    ensures
        final(out)@ == old(out)@ + padded(n as nat, width as nat),
    decreases width,
{
    if width > 0 {
        push_padded(out, n / 10, width - 1);
        out.push(digit_of(n % 10));
    }
    assert(out@ =~= old(out)@ + padded(n as nat, width as nat));
}

/// Ten to the power `k`, for `k` up to six; one above that.
pub fn pow10_of(k: u8) -> (p: u64)
    ensures
        p == pow10(k as nat),
        1 <= p <= 1_000_000,
{
    if k == 1 {
        10
    } else if k == 2 {
        100
    } else if k == 3 {
        1_000
    } else if k == 4 {
        10_000
    } else if k == 5 {
        100_000
    } else if k == 6 {
        1_000_000
    } else {
        1
    }
}

/// The distance of `x` from zero.
pub fn magnitude_of(x: i64) -> (m: u64)
    ensures
        m == magnitude(x as int),
{
    if x >= 0 {
        x as u64
    } else {
        ((-(x + 1)) as u64) + 1
    }
}

/// Appends the level `x` with exactly `places` decimals to `out`.
pub fn push_fixed(out: &mut Vec<char>, x: i64, places: u8)
    requires
        places <= 6,
    ensures
        final(out)@ == old(out)@ + fixed(x as int, places as nat),
{
    let unit = pow10_of(6 - places);
    let q = (magnitude_of(x) + unit / 2) / unit;
    let p = pow10_of(places);
    if x < 0 {
        out.push('-');
    }
    push_decimal(out, q / p);
    if places > 0 {
        out.push('.');
        push_padded(out, q % p, places);
    }
    assert(out@ =~= old(out)@ + fixed(x as int, places as nat));
}

/// The number of decimals that a fraction of `frac` millionths needs.
pub fn places_needed_of(frac: u64) -> (k: u8)
    ensures
        k == places_needed(frac as nat),
        k <= 6,
{
    if frac % 1_000_000 == 0 {
        0
    } else if frac % 100_000 == 0 {
        1
    } else if frac % 10_000 == 0 {
        2
    } else if frac % 1_000 == 0 {
        3
    } else if frac % 100 == 0 {
        4
    } else if frac % 10 == 0 {
        5
    } else {
        6
    }
}

/// Appends the level `x`, with as few decimals as hold it exactly, to `out`.
pub fn push_plain(out: &mut Vec<char>, x: i64)
    ensures
        final(out)@ == old(out)@ + plain(x as int),
{
    let k = places_needed_of(magnitude_of(x) % 1_000_000);
    push_fixed(out, x, k);
}

} // verus!
