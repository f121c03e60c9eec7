//! Human-readable byte counts.

use crate::text::{append_decimal, decimal_text, digit_char, digit_str};
use vstd::arithmetic::div_mod::*;
use vstd::prelude::*;

verus! {

/// Bytes in a kilobyte, as counted here.
pub const KB: u64 = 1024;

/// Bytes in a megabyte.
pub const MB: u64 = 1_048_576;

/// Bytes in a gigabyte.
pub const GB: u64 = 1_073_741_824;

/// `numerator / denominator` rounded to the nearest whole number, a tie
/// going to the even one.
pub open spec fn round_half_even(numerator: nat, denominator: nat) -> nat {
    let quotient = numerator / denominator;
    let rest = numerator % denominator;
    if 2 * rest > denominator || (2 * rest == denominator && quotient % 2 == 1) {
        quotient + 1
    } else {
        quotient
    }
}

/// Distance between neighbouring double-precision numbers around `n`: 1 below
/// 2^53, doubling with every further bit.
pub open spec fn double_step(n: nat) -> nat
    decreases n,
{
    if n < 0x20_0000_0000_0000 {
        1
    } else {
        2 * double_step(n / 2)
    }
}

/// The double-precision number nearest to `n`, a tie going to the one with
/// the even significand: what a byte count becomes when it is taken as a
/// floating-point number.
pub open spec fn nearest_double(n: nat) -> nat {
    round_half_even(n, double_step(n)) * double_step(n)
}

/// The byte count in hundredths of `unit`, rounded to the nearest, a tie
/// going to the even one.
pub open spec fn hundredths(bytes: nat, unit: nat) -> nat {
    round_half_even(nearest_double(bytes) * 100, unit)
}

/// A number of hundredths with two decimals, as in `1.50`.
pub open spec fn two_decimals(hundredths: nat) -> Seq<char> {
    decimal_text(hundredths / 100) + "."@ + seq![
        digit_char(hundredths % 100 / 10),
        digit_char(hundredths % 10),
    ]
}

/// A byte count for people: in the largest of GB, MB and KB that it
/// reaches, with two decimals; below a kilobyte, in whole bytes.
pub open spec fn format_bytes_text(bytes: nat) -> Seq<char> {
    if bytes >= GB {
        two_decimals(hundredths(bytes, GB as nat)) + " GB"@
    } else if bytes >= MB {
        two_decimals(hundredths(bytes, MB as nat)) + " MB"@
    } else if bytes >= KB {
        two_decimals(hundredths(bytes, KB as nat)) + " KB"@
    } else {
        decimal_text(bytes) + " B"@
    }
}

/// Rounding to the nearest multiple moves a number by less than one step.
proof fn lemma_round_bounds(numerator: nat, denominator: nat)
    requires
        denominator > 0,
    ensures
        round_half_even(numerator, denominator) <= numerator / denominator + 1,
        round_half_even(numerator, denominator) * denominator <= numerator + denominator,
{
    let quotient = numerator / denominator;
    lemma_fundamental_div_mod(numerator as int, denominator as int);
    lemma_mod_bound(numerator as int, denominator as int);
    assert((quotient + 1) * denominator == quotient * denominator + denominator)
        by (nonlinear_arith);
}

/// Divides with rounding to the nearest, a tie going to the even quotient.
fn divide_half_even(numerator: u128, denominator: u128) -> (rounded: u128)
    requires
        denominator > 0,
        numerator / denominator < u128::MAX,
    ensures
        rounded == round_half_even(numerator as nat, denominator as nat),
{
    let quotient = numerator / denominator;
    let rest = numerator % denominator;
    if rest > denominator - rest || (rest == denominator - rest && quotient % 2 == 1) {
        quotient + 1
    } else {
        quotient
    }
}

/// Distance between neighbouring double-precision numbers around `n`.
fn double_step_of(n: u64) -> (step: u64)
    ensures
        step == double_step(n as nat),
        1 <= step <= 2048,
{
    proof {
        reveal_with_fuel(double_step, 13);
    }
    if n < 0x20_0000_0000_0000 {
        1
    } else if n < 0x40_0000_0000_0000 {
        2
    } else if n < 0x80_0000_0000_0000 {
        4
    } else if n < 0x100_0000_0000_0000 {
        8
    } else if n < 0x200_0000_0000_0000 {
        16
    } else if n < 0x400_0000_0000_0000 {
        32
    } else if n < 0x800_0000_0000_0000 {
        64
    } else if n < 0x1000_0000_0000_0000 {
        128
    } else if n < 0x2000_0000_0000_0000 {
        256
    } else if n < 0x4000_0000_0000_0000 {
        512
    } else if n < 0x8000_0000_0000_0000 {
        1024
    } else {
        2048
    }
}

/// Appends the byte count in `unit`s, with two decimals.
fn append_in_unit(out: &mut String, bytes: u64, unit: u64)
    requires
        unit == KB || unit == MB || unit == GB,
    ensures
        final(out)@ == old(out)@ + two_decimals(hundredths(bytes as nat, unit as nat)),
{
    let step = double_step_of(bytes);
    proof {
        lemma_round_bounds(bytes as nat, step as nat);
    }
    let steps = divide_half_even(bytes as u128, step as u128);
    let nearest: u128 = steps * (step as u128);
    let scaled: u128 = nearest * 100;
    proof {
        lemma_round_bounds(scaled as nat, unit as nat);
        assert(scaled / (unit as u128) <= scaled / 1024) by {
            lemma_div_is_ordered_by_denominator(scaled as int, 1024, unit as int);
        }
    }
    let rounded = divide_half_even(scaled, unit as u128);
    let whole: u64 = (rounded / 100) as u64;
    let tenths: u64 = (rounded % 100 / 10) as u64;
    let last: u64 = (rounded % 10) as u64;
    append_decimal(out, whole);
    out.append(".");
    out.append(digit_str(tenths));
    out.append(digit_str(last));
    proof {
        reveal_strlit(".");
        assert("."@ + seq![digit_char(tenths as nat)] + seq![digit_char(last as nat)] =~= "."@
            + seq![digit_char(tenths as nat), digit_char(last as nat)]);
    }
}

/// Formats a byte count for people: `KB`, `MB` and `GB` are powers of 1024
/// and come with two decimals, smaller counts are given in bytes.
///
/// The figure is the one that floating-point division and rounding to two
/// decimals would give, computed in whole numbers.
pub fn format_bytes(bytes: u64) -> (text: String)
    ensures
        text@ == format_bytes_text(bytes as nat),
{
    let mut text = String::new();
    if bytes >= GB {
        append_in_unit(&mut text, bytes, GB);
        text.append(" GB");
    } else if bytes >= MB {
        append_in_unit(&mut text, bytes, MB);
        text.append(" MB");
    } else if bytes >= KB {
        append_in_unit(&mut text, bytes, KB);
        text.append(" KB");
    } else {
        append_decimal(&mut text, bytes);
        text.append(" B");
    }
    text
}

} // verus!
