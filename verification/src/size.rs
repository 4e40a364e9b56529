//! Byte counts in the words shown to people.

use vstd::prelude::*;
use crate::number::{nat_text, push_nat};

verus! {

/// The whole number nearest to `num / den`, and the even one of two that are
/// equally near.
pub open spec fn round_half_even(num: nat, den: nat) -> nat
    recommends
        den > 0,
{
    let q = num / den;
    let r = num % den;
    if 2 * r > den || (2 * r == den && q % 2 == 1) {
        q + 1
    } else {
        q
    }
}

/// The distance between neighbouring numbers near `n` that are kept with 53
/// significant bits.
pub open spec fn spacing(n: nat) -> nat
    decreases n,
{
    if n < 0x20_0000_0000_0000 {
        1
    } else {
        2 * spacing(n / 2)
    }
}

/// `n` kept to 53 significant bits.
pub open spec fn to_53_bits(n: nat) -> nat {
    round_half_even(n, spacing(n)) * spacing(n)
}

/// How many bytes one of the unit that `n` bytes are shown in holds: the
/// largest of the units up to gigabytes that is no more than `n`.
pub open spec fn unit_bytes(n: nat) -> nat {
    if n < 0x400 {
        1
    } else if n < 0x10_0000 {
        0x400
    } else if n < 0x4000_0000 {
        0x10_0000
    } else {
        0x4000_0000
    }
}

/// The name of a unit.
pub open spec fn unit_name(unit: nat) -> Seq<char> {
    if unit == 1 {
        " B"@
    } else if unit == 0x400 {
        " KB"@
    } else if unit == 0x10_0000 {
        " MB"@
    } else {
        " GB"@
    }
}

/// How `n` bytes are shown: whole bytes below a kilobyte, else tenths of the
/// largest fitting unit.
pub open spec fn size_text(n: nat) -> Seq<char> {
    let unit = unit_bytes(n);
    if unit == 1 {
        nat_text(n) + unit_name(1)
    } else {
        let tenths = round_half_even(to_53_bits(n) * 10, unit);
        nat_text(tenths / 10) + seq!['.'] + nat_text(tenths % 10) + unit_name(unit)
    }
}

fn half_even(num: u128, den: u128) -> (r: u128)
    requires
        0 < den <= 0x1_0000_0000_0000_0000,
        num <= 0x20_0000_0000_0000_0000,
    ensures
        r == round_half_even(num as nat, den as nat),
        r <= num / den + 1,
{
    let q: u128 = num / den;
    let m: u128 = num % den;
    if 2 * m > den || (2 * m == den && q % 2 == 1) {
        assert(q <= num) by (nonlinear_arith)
            requires
                q == num / den,
                den > 0,
        ;
        q + 1
    } else {
        q
    }
}

fn step(n: u64) -> (r: u64)
    ensures
        r == spacing(n as nat),
        r > 0,
        r <= n || r == 1,
    decreases n,
{
    if n < 0x20_0000_0000_0000 {
        1
    } else {
        2 * step(n / 2)
    }
}

/// Shows a byte count, as in `512 B` or `1.5 KB`.
pub fn human_size(bytes: u64) -> (r: String)
    ensures
        r@ == size_text(bytes as nat),
{
    let mut out: String = String::new();
    if bytes < 0x400 {
        push_nat(&mut out, bytes as u128);
        out.append(" B");
        return out;
    }
    let s: u128 = step(bytes) as u128;
    let kept: u128 = half_even(bytes as u128, s);
    proof {
        let b = bytes as int;
        let d = s as int;
        let k = kept as int;
        assert(k * d <= b + d) by (nonlinear_arith)
            requires
                k <= b / d + 1,
                d > 0,
                b >= 0,
        ;
    }
    let value: u128 = kept * s;
    let unit: u128 = if bytes < 0x10_0000 {
        0x400
    } else if bytes < 0x4000_0000 {
        0x10_0000
    } else {
        0x4000_0000
    };
    let tenths: u128 = half_even(value * 10, unit);
    push_nat(&mut out, tenths / 10);
    out.push('.');
    push_nat(&mut out, tenths % 10);
    if bytes < 0x10_0000 {
        out.append(" KB");
    } else if bytes < 0x4000_0000 {
        out.append(" MB");
    } else {
        out.append(" GB");
    }
    out
}

/// A size of a whole number of kilobytes, megabytes or gigabytes is shown with
/// exactly that number and no tenths.
pub proof fn whole_units_show_no_tenths(count: nat, unit: nat)
    requires
        unit == 0x400 || unit == 0x10_0000 || unit == 0x4000_0000,
        0 < count < 1024,
    ensures
        size_text(count * unit) == nat_text(count) + ".0"@ + unit_name(unit),
{
    let n = count * unit;
    assert(unit_bytes(n) == unit);
    assert(spacing(n) == 1);
    assert(n % 1 == 0 && n / 1 == n);
    assert(to_53_bits(n) == n);
    assert((n * 10) / unit == count * 10 && (n * 10) % unit == 0) by {
        vstd::arithmetic::div_mod::lemma_div_multiples_vanish((count * 10) as int, unit as int);
        vstd::arithmetic::div_mod::lemma_mod_multiples_basic((count * 10) as int, unit as int);
        assert(n * 10 == unit * (count * 10)) by (nonlinear_arith)
            requires
                n == count * unit,
        ;
        assert(n * 10 == (count * 10) * unit) by (nonlinear_arith)
            requires
                n == count * unit,
        ;
    }
    reveal_strlit(".0");
    assert(nat_text(0) == seq!['0']);
    assert(nat_text(count) + ".0"@ == nat_text(count) + seq!['.'] + nat_text(0));
}

/// Fewer than 1024 bytes are shown by their number.
pub proof fn few_bytes_are_counted(n: nat)
    requires
        n < 0x400,
    ensures
        size_text(n) == nat_text(n) + " B"@,
{
}

/// Half a unit more is shown as five tenths.
pub proof fn half_a_unit_shows_five_tenths(count: nat, unit: nat)
    requires
        unit == 0x400 || unit == 0x10_0000 || unit == 0x4000_0000,
        0 < count < 1024,
    ensures
        size_text(count * unit + unit / 2) == nat_text(count) + ".5"@ + (if unit == 0x400 {
            " KB"@
        } else if unit == 0x10_0000 {
            " MB"@
        } else {
            " GB"@
        }),
{
    let n = count * unit + unit / 2;
    assert(n < 1024 * unit && n >= unit) by (nonlinear_arith)
        requires
            n == count * unit + unit / 2,
            0 < count < 1024,
            unit == 0x400 || unit == 0x10_0000 || unit == 0x4000_0000,
    ;
    assert(unit_bytes(n) == unit);
    assert(spacing(n) == 1);
    assert(n % 1 == 0 && n / 1 == n);
    assert(to_53_bits(n) == n);
    assert(n * 10 == unit * (count * 10 + 5)) by (nonlinear_arith)
        requires
            n == count * unit + unit / 2,
            unit == 0x400 || unit == 0x10_0000 || unit == 0x4000_0000,
    ;
    assert((n * 10) / unit == count * 10 + 5 && (n * 10) % unit == 0) by {
        vstd::arithmetic::div_mod::lemma_fundamental_div_mod_converse(
            (n * 10) as int,
            unit as int,
            (count * 10 + 5) as int,
            0,
        );
    }
    reveal_strlit(".5");
    assert(nat_text(5) == seq!['5']);
    assert(nat_text(count) + ".5"@ == nat_text(count) + seq!['.'] + nat_text(5));
}

} // verus!
