//! Amounts of memory, as they are shown.
use crate::text::{self, decimal, Text};
use vstd::prelude::*;

verus! {

/// The bytes in a kibibyte.
pub const KIB: u64 = 1024;

/// The bytes in a mebibyte.
pub const MIB: u64 = 1_048_576;

/// The bytes in a gibibyte.
pub const GIB: u64 = 1_073_741_824;

/// The numbers below this one are shown to the last digit; larger ones keep 53 binary digits.
pub const EXACT_LIMIT: u64 = 0x20_0000_0000_0000;

/// `n / d` rounded to the nearest whole number, halves to the even one.
pub open spec fn rounded_quotient(n: nat, d: nat) -> nat {
    let q = n / d;
    let r = n % d;
    if 2 * r < d {
        q
    } else if 2 * r > d {
        q + 1
    } else {
        q + q % 2
    }
}

/// The smallest of `step`, `2 * step`, `4 * step` ... of which `n` holds less than 2^53.
pub open spec fn precision_step(n: nat, step: nat) -> nat
    decreases n / step,
    via precision_step_decreases
{
    if step == 0 || n < step * EXACT_LIMIT {
        step
    } else {
        precision_step(n, 2 * step)
    }
}

#[via_fn]
proof fn precision_step_decreases(n: nat, step: nat) {
    if !(step == 0 || n < step * EXACT_LIMIT) {
        assert(n / (2 * step) < n / step) by (nonlinear_arith)
            requires
                step > 0,
                n >= step * 0x20_0000_0000_0000,
        ;
    }
}

/// `n` rounded to 53 binary digits, halves to the even one.
pub open spec fn significant(n: nat) -> nat {
    let step = precision_step(n, 1);
    rounded_quotient(n, step) * step
}

/// `bytes` in a unit of `unit` bytes: to the whole number where there are ten or more, or no
/// fraction; else with one digit after the point.
pub open spec fn amount_text(bytes: nat, unit: nat) -> Text {
    let n = significant(bytes);
    if n >= 10 * unit || n % unit == 0 {
        text::decimal_text(rounded_quotient(n, unit))
    } else {
        let tenths = rounded_quotient(10 * n, unit);
        text::decimal_text(tenths / 10) + "."@ + text::decimal_text(tenths % 10)
    }
}

/// `bytes` in the largest unit of which there is at least one, else in kibibytes.
pub open spec fn memory_text(bytes: nat) -> Text {
    if bytes >= GIB {
        amount_text(bytes, GIB as nat) + " GiB"@
    } else if bytes >= MIB {
        amount_text(bytes, MIB as nat) + " MiB"@
    } else {
        amount_text(bytes, KIB as nat) + " KiB"@
    }
}

fn round_quotient(n: u128, d: u128) -> (r: u128)
    requires
        0 < d <= u64::MAX,
        n <= 0xff_ffff_ffff_ffff_ffff,
    ensures
        r == rounded_quotient(n as nat, d as nat),
        r <= n / d + 1,
{
    let q: u128 = n / d;
    let rest: u128 = n % d;
    assert(q <= n) by (nonlinear_arith)
        requires
            q == n / d,
            d > 0,
    ;
    if 2 * rest < d {
        q
    } else if 2 * rest > d {
        q + 1
    } else {
        q + q % 2
    }
}

fn round_to_precision(bytes: u64) -> (r: u128)
    ensures
        r == significant(bytes as nat),
        r <= 0x1_0000_0000_0000_0000,
{
    let mut step: u128 = 1;
    while bytes as u128 >= step * EXACT_LIMIT as u128
        invariant
            1 <= step <= 2048,
            step == 1 || bytes >= (step / 2) * EXACT_LIMIT,
            step == 1 || step == 2 || step == 4 || step == 8 || step == 16 || step == 32 || step
                == 64 || step == 128 || step == 256 || step == 512 || step == 1024 || step == 2048,
            precision_step(bytes as nat, 1) == precision_step(bytes as nat, step as nat),
        decreases 2048 - step,
    {
        step = 2 * step;
    }
    let q: u128 = round_quotient(bytes as u128, step);
    assert(q * step <= 0x1_0000_0000_0000_0000) by {
        assert(bytes < step * EXACT_LIMIT);
        assert(bytes as u128 / step < EXACT_LIMIT) by (nonlinear_arith)
            requires
                bytes < step * EXACT_LIMIT,
                step > 0,
                EXACT_LIMIT == 0x20_0000_0000_0000u64,
        ;
        assert(q <= EXACT_LIMIT);
        assert(q * step <= 0x20_0000_0000_0000u64 * 2048) by (nonlinear_arith)
            requires
                q <= 0x20_0000_0000_0000u64,
                step <= 2048,
        ;
    }
    q * step
}

fn format_memory_value(bytes: u64, unit: u64, suffix: &str) -> (r: String)
    requires
        unit == KIB || unit == MIB || unit == GIB,
    ensures
        r@ == amount_text(bytes as nat, unit as nat) + suffix@,
{
    let n: u128 = round_to_precision(bytes);
    let d: u128 = unit as u128;
    if n >= 10 * d || n % d == 0 {
        let whole: u128 = round_quotient(n, d);
        assert(n / d <= 0x40_0000_0000_0000) by (nonlinear_arith)
            requires
                n <= 0x1_0000_0000_0000_0000,
                d >= 1024,
        ;
        decimal(whole as u64).concat(suffix)
    } else {
        let n: u128 = 10 * n;
        let tenths: u128 = round_quotient(n, d);
        assert(n / d < 100) by (nonlinear_arith)
            requires
                n < 100 * d,
                d > 0,
        ;
        decimal((tenths / 10) as u64).concat(".").concat(decimal((tenths % 10) as u64).as_str()).concat(
            suffix,
        )
    }
}

/// `bytes` as they are shown.
pub fn format_memory(bytes: u64) -> (r: String)
    ensures
        r@ == memory_text(bytes as nat),
{
    if bytes >= GIB {
        format_memory_value(bytes, GIB, " GiB")
    } else if bytes >= MIB {
        format_memory_value(bytes, MIB, " MiB")
    } else {
        format_memory_value(bytes, KIB, " KiB")
    }
}

/// What is shown is off by at most half of the last digit, for any amount that is kept exactly.
pub proof fn law_shown_amount_is_close(bytes: nat, unit: nat)
    requires
        bytes < EXACT_LIMIT,
        unit > 0,
    ensures
        significant(bytes) == bytes,
        -(unit as int) <= 2 * (bytes - rounded_quotient(bytes, unit) * unit) <= unit,
        -(unit as int) <= 2 * (10 * bytes - rounded_quotient(10 * bytes, unit) * unit) <= unit,
{
    assert(precision_step(bytes, 1) == 1);
    assert(rounded_quotient(bytes, 1) == bytes);
    lemma_rounded_is_close(bytes, unit);
    lemma_rounded_is_close(10 * bytes, unit);
}

proof fn lemma_rounded_is_close(n: nat, d: nat)
    requires
        d > 0,
    ensures
        -(d as int) <= 2 * (n - rounded_quotient(n, d) * d) <= d,
{
    let q = n / d;
    let r = n % d;
    assert(n == q * d + r) by (nonlinear_arith)
        requires
            d > 0,
            q == n / d,
            r == n % d,
    ;
    assert((q + 1) * d == q * d + d) by (nonlinear_arith);
}

/// `shown` is `bytes` in a unit of so many bytes: a whole number of them where there are ten or more
/// or nothing is left over, and else one digit behind the point. It is the number nearest to the
/// true one, and the even one of two that are equally near.
pub open spec fn nearest(shown: Text, bytes: nat, unit: nat, word: Text) -> bool {
    if bytes >= 10 * unit || bytes % unit == 0 {
        exists|whole: nat|
            shown == #[trigger] text::decimal_text(whole) + word && near(bytes, unit, whole)
    } else {
        exists|tenths: nat|
            shown == text::decimal_text(tenths / 10) + "."@ + text::decimal_text(tenths % 10) + word
                && #[trigger] near(10 * bytes, unit, tenths)
    }
}

/// No whole number is nearer to `n / d` than `q`, and `q` is even where another is as near.
pub open spec fn near(n: nat, d: nat, q: nat) -> bool {
    &&& -(d as int) <= 2 * (n - q * d) <= d
    &&& 2 * (n - q * d) == d || 2 * (n - q * d) == -(d as int) ==> q % 2 == 0
}

proof fn lemma_rounded_is_nearest(n: nat, d: nat)
    requires
        d > 0,
    ensures
        near(n, d, rounded_quotient(n, d)),
{
    lemma_rounded_is_close(n, d);
    let q = n / d;
    let r = n % d;
    assert(n == q * d + r) by (nonlinear_arith)
        requires
            d > 0,
            q == n / d,
            r == n % d,
    ;
    assert((q + 1) * d == q * d + d) by (nonlinear_arith);
    assert(r < d) by (nonlinear_arith)
        requires
            d > 0,
            r == n % d,
    ;
}

/// An amount of memory is shown in gibibytes from one of them on, else in mebibytes from one of them
/// on, else in kibibytes, and as near to the true amount as the digits allow. Larger amounts than
/// are kept exactly are left out.
pub proof fn law_memory_is_shown_in_its_unit(bytes: nat)
    requires
        bytes < 0x20_0000_0000_0000,
    ensures
        bytes >= 0x4000_0000 ==> nearest(memory_text(bytes), bytes, 0x4000_0000, " GiB"@),
        0x10_0000 <= bytes < 0x4000_0000 ==> nearest(
            memory_text(bytes),
            bytes,
            0x10_0000,
            " MiB"@,
        ),
        bytes < 0x10_0000 ==> nearest(memory_text(bytes), bytes, 0x400, " KiB"@),
{
    let (unit, word): (nat, Text) = if bytes >= 0x4000_0000 {
        (0x4000_0000, " GiB"@)
    } else if bytes >= 0x10_0000 {
        (0x10_0000, " MiB"@)
    } else {
        (0x400, " KiB"@)
    };
    law_shown_amount_is_close(bytes, unit);
    lemma_rounded_is_nearest(bytes, unit);
    lemma_rounded_is_nearest(10 * bytes, unit);
    let whole = rounded_quotient(bytes, unit);
    let tenths = rounded_quotient(10 * bytes, unit);
    assert(memory_text(bytes) == amount_text(bytes, unit) + word);
    if bytes >= 10 * unit || bytes % unit == 0 {
        assert(memory_text(bytes) == text::decimal_text(whole) + word);
    } else {
        assert(near(10 * bytes, unit, tenths));
    }
}

} // verus!
