//! Presentation of quantities: bytes as gibibytes, CPU load as a percentage,
//! uptime as days. All of it is integer arithmetic; a value that falls
//! exactly between two printable values goes to the even one.

use vstd::prelude::*;
use vstd::string::*;
use crate::text::{decimal, digit_char, digit_text, push_decimal};

verus! {

/// Bytes in a gibibyte, 2^30.
pub const GIB: u64 = 1_073_741_824;

/// Seconds in a day.
pub const DAY: u64 = 86_400;

/// Seconds in an hour.
pub const HOUR: u64 = 3_600;

/// The least number of whole gibibytes that hold `bytes`: ⌈bytes / 2^30⌉.
pub open spec fn gib_ceil(bytes: nat) -> nat {
    if bytes % (GIB as nat) == 0 {
        bytes / (GIB as nat)
    } else {
        bytes / (GIB as nat) + 1
    }
}

/// `n / d` rounded to the nearest integer, a tie going to the even one.
pub open spec fn round_half_even(n: nat, d: nat) -> nat {
    let q = n / d;
    let r = n % d;
    if 2 * r > d || (2 * r == d && q % 2 == 1) {
        q + 1
    } else {
        q
    }
}

/// A number of tenths written with one decimal place, as in `12.3`.
pub open spec fn one_decimal(tenths: nat) -> Seq<char> {
    decimal(tenths / 10) + "."@ + seq![digit_char(tenths % 10)]
}

/// A number of hundredths written with two decimal places, as in `12.34`.
pub open spec fn two_decimals(hundredths: nat) -> Seq<char> {
    decimal(hundredths / 100) + "."@ + seq![
        digit_char((hundredths / 10) % 10),
        digit_char(hundredths % 10),
    ]
}

/// The condensed cell `used/total`, each side in whole gibibytes, rounded up
/// on its own.
pub open spec fn used_total_text(used: u64, total: u64) -> Seq<char> {
    decimal(gib_ceil(used as nat)) + "/"@ + decimal(gib_ceil(total as nat))
}

/// Gibibytes with one decimal place.
pub open spec fn gib_one_decimal_text(bytes: u64) -> Seq<char> {
    one_decimal(round_half_even(bytes as nat * 10, GIB as nat))
}

/// Gibibytes with two decimal places.
pub open spec fn gib_two_decimals_text(bytes: u64) -> Seq<char> {
    two_decimals(round_half_even(bytes as nat * 100, GIB as nat))
}

/// A CPU load, given in millionths of full utilisation, as a percentage with
/// one decimal place.
pub open spec fn percent_one_decimal_text(millionths: u64) -> Seq<char> {
    one_decimal(round_half_even(millionths as nat, 1000))
}

/// A CPU load, given in millionths of full utilisation, as a percentage with
/// two decimal places.
pub open spec fn percent_two_decimals_text(millionths: u64) -> Seq<char> {
    two_decimals(round_half_even(millionths as nat, 100))
}

/// An uptime in days with one decimal place.
pub open spec fn uptime_days_text(seconds: u64) -> Seq<char> {
    one_decimal(round_half_even(seconds as nat * 10, DAY as nat))
}

/// An uptime as whole days and the whole hours left over, as in `3d 7h`.
pub open spec fn uptime_days_hours_text(seconds: u64) -> Seq<char> {
    decimal(seconds as nat / (DAY as nat)) + "d "@ + decimal(
        (seconds as nat % (DAY as nat)) / (HOUR as nat),
    ) + "h"@
}

/// The whole gibibytes shown for a byte quantity are the least number that
/// holds it: never below what is used, less than one gibibyte above it, and
/// no greater than any other number `g` of gibibytes that holds it.
pub proof fn lemma_gib_ceil_is_least_cover(bytes: nat, g: nat)
    ensures
        gib_ceil(bytes) * (GIB as nat) >= bytes,
        gib_ceil(bytes) * (GIB as nat) < bytes + (GIB as nat),
        g * (GIB as nat) >= bytes ==> g >= gib_ceil(bytes),
{
    let d = GIB as nat;
    assert(bytes == d * (bytes / d) + bytes % d) by {
        vstd::arithmetic::div_mod::lemma_fundamental_div_mod(bytes as int, d as int);
    }
    if g < gib_ceil(bytes) {
        assert(g * d <= (gib_ceil(bytes) - 1) * d) by (nonlinear_arith)
            requires
                g <= gib_ceil(bytes) - 1,
                d > 0,
        ;
    }
}

/// A quantity is rounded to the nearer of its two neighbours: the rounded
/// value is at most half a unit away.
pub proof fn lemma_round_half_even_is_nearest(n: nat, d: nat)
    requires
        d > 0,
    ensures
        2 * (round_half_even(n, d) * d) <= 2 * n + d,
        2 * n <= 2 * (round_half_even(n, d) * d) + d,
{
    vstd::arithmetic::div_mod::lemma_fundamental_div_mod(n as int, d as int);
    let q = n / d;
    assert((q + 1) * d == q * d + d) by (nonlinear_arith);
    assert(q * d == d * q) by (nonlinear_arith);
}

/// ⌈bytes / 2^30⌉.
pub fn gib_ceiling(bytes: u64) -> (r: u64)
    ensures
        r as nat == gib_ceil(bytes as nat),
{
    if bytes % GIB == 0 {
        bytes / GIB
    } else {
        bytes / GIB + 1
    }
}

/// `n / d` rounded to the nearest integer, a tie going to the even one.
pub fn rounded_quotient(n: u128, d: u64) -> (r: u128)
    requires
        d > 0,
    ensures
        r as nat == round_half_even(n as nat, d as nat),
{
    let d: u128 = d as u128;
    let q: u128 = n / d;
    let r: u128 = n % d;
    if 2 * r > d || (2 * r == d && q % 2 == 1) {
        proof {
            vstd::arithmetic::div_mod::lemma_fundamental_div_mod(n as int, d as int);
            assert(d * q >= q) by (nonlinear_arith)
                requires
                    d >= 1,
                    q >= 0,
            ;
        }
        q + 1
    } else {
        q
    }
}

/// Appends a number of tenths with one decimal place.
fn push_one_decimal(out: &mut String, tenths: u64)
    ensures
        final(out)@ == old(out)@ + one_decimal(tenths as nat),
{
    push_decimal(out, tenths / 10);
    out.append(".");
    out.append(digit_text(tenths % 10));
}

/// Appends a number of hundredths with two decimal places.
fn push_two_decimals(out: &mut String, hundredths: u64)
    ensures
        final(out)@ == old(out)@ + two_decimals(hundredths as nat),
{
    push_decimal(out, hundredths / 100);
    out.append(".");
    out.append(digit_text((hundredths / 10) % 10));
    out.append(digit_text(hundredths % 10));
}

/// `value * factor / unit`, rounded half to even, for the factors and units
/// of this module: the result fits 64 bits.
fn scaled(value: u64, factor: u64, unit: u64) -> (r: u64)
    requires
        0 < factor <= unit,
    ensures
        r as nat == round_half_even(value as nat * factor as nat, unit as nat),
{
    assert(value * factor <= value * unit <= u64::MAX * u64::MAX) by (nonlinear_arith)
        requires
            0 < factor <= unit <= u64::MAX,
            0 <= value <= u64::MAX,
    ;
    let n: u128 = (value as u128) * (factor as u128);
    let q = rounded_quotient(n, unit);
    proof {
        let d = unit as int;
        let m = n as int;
        vstd::arithmetic::div_mod::lemma_fundamental_div_mod(m, d);
        assert(m / d <= value && (m / d == value ==> m % d == 0)) by (nonlinear_arith)
            requires
                m == d * (m / d) + m % d,
                0 <= m % d < d,
                m <= value * d,
                d > 0,
        ;
    }
    q as u64
}

/// The condensed cell `used/total` in whole gibibytes.
pub fn used_total(used: u64, total: u64) -> (r: String)
    ensures
        r@ == used_total_text(used, total),
{
    let mut out = String::new();
    push_decimal(&mut out, gib_ceiling(used));
    out.append("/");
    push_decimal(&mut out, gib_ceiling(total));
    out
}

/// Gibibytes with one decimal place.
pub fn gib_one_decimal(bytes: u64) -> (r: String)
    ensures
        r@ == gib_one_decimal_text(bytes),
{
    let mut out = String::new();
    push_one_decimal(&mut out, scaled(bytes, 10, GIB));
    out
}

/// Gibibytes with two decimal places.
pub fn gib_two_decimals(bytes: u64) -> (r: String)
    ensures
        r@ == gib_two_decimals_text(bytes),
{
    let mut out = String::new();
    push_two_decimals(&mut out, scaled(bytes, 100, GIB));
    out
}

/// A CPU load as a percentage with one decimal place.
pub fn percent_one_decimal(millionths: u64) -> (r: String)
    ensures
        r@ == percent_one_decimal_text(millionths),
{
    let mut out = String::new();
    push_one_decimal(&mut out, scaled(millionths, 1, 1000));
    out
}

/// A CPU load as a percentage with two decimal places.
pub fn percent_two_decimals(millionths: u64) -> (r: String)
    ensures
        r@ == percent_two_decimals_text(millionths),
{
    let mut out = String::new();
    push_two_decimals(&mut out, scaled(millionths, 1, 100));
    out
}

/// An uptime in days with one decimal place.
pub fn uptime_days(seconds: u64) -> (r: String)
    ensures
        r@ == uptime_days_text(seconds),
{
    let mut out = String::new();
    push_one_decimal(&mut out, scaled(seconds, 10, DAY));
    out
}

/// An uptime as whole days and the whole hours left over.
pub fn uptime_days_hours(seconds: u64) -> (r: String)
    ensures
        r@ == uptime_days_hours_text(seconds),
{
    let mut out = String::new();
    push_decimal(&mut out, seconds / DAY);
    out.append("d ");
    push_decimal(&mut out, (seconds % DAY) / HOUR);
    out.append("h");
    out
}

} // verus!
