//! From a sample to a gray level.
//!
//! A sample is a single-precision binary number (IEEE 754 binary32), carried
//! as its 32-bit pattern: one sign bit, eight exponent bits, 23 fraction
//! bits. Its gray level is the sample clamped to the range from zero to one,
//! multiplied by 255 in single precision (round to nearest, ties to even) and
//! cut down to a whole number. Everything here is integer arithmetic on the
//! bit pattern.

use vstd::prelude::*;
use vstd::arithmetic::div_mod::{
    lemma_basic_div,
    lemma_div_is_ordered_by_denominator,
    lemma_fundamental_div_mod,
};
use vstd::arithmetic::power2::{
    lemma2_to64,
    lemma_pow2_adds,
    lemma_pow2_pos,
    lemma_pow2_strictly_increases,
    pow2,
};
use vstd::bits::lemma_u64_shr_is_div;

verus! {

/// The pattern with only the sign bit set: negative zero.
pub const SIGN: u32 = 0x8000_0000;

/// The pattern of positive infinity. Larger magnitudes are not numbers.
pub const INFINITY: u32 = 0x7f80_0000;

/// The pattern of one.
pub const ONE: u32 = 0x3f80_0000;

/// The weight of the hidden bit of a significand, two to the 23rd.
pub const HIDDEN_BIT: u32 = 0x80_0000;

/// The brightest gray level.
pub const WHITE: u8 = 255;

/// Whether the sign bit is set.
pub open spec fn is_negative(bits: u32) -> bool {
    bits >= SIGN
}

/// The pattern without its sign bit.
pub open spec fn magnitude(bits: u32) -> nat {
    if bits >= SIGN {
        (bits - SIGN) as nat
    } else {
        bits as nat
    }
}

/// Whether the pattern stands for no number at all.
pub open spec fn is_nan(bits: u32) -> bool {
    magnitude(bits) > INFINITY
}

/// The eight exponent bits.
pub open spec fn exponent_field(bits: u32) -> nat {
    magnitude(bits) / (HIDDEN_BIT as nat)
}

/// The 23 fraction bits.
pub open spec fn fraction_field(bits: u32) -> nat {
    magnitude(bits) % (HIDDEN_BIT as nat)
}

/// The significand as a whole number: the fraction bits, under the hidden bit
/// unless the number is subnormal.
pub open spec fn significand(bits: u32) -> nat {
    if exponent_field(bits) == 0 {
        fraction_field(bits)
    } else {
        HIDDEN_BIT as nat + fraction_field(bits)
    }
}

/// For a magnitude below one: the power of two that the significand is
/// divided by. The magnitude is `significand(bits) / pow2(scale(bits))`.
pub open spec fn scale(bits: u32) -> nat {
    if exponent_field(bits) == 0 {
        149
    } else {
        (150 - exponent_field(bits)) as nat
    }
}

/// Whether the sample is a number and at most zero.
pub open spec fn at_most_zero(bits: u32) -> bool {
    !is_nan(bits) && (is_negative(bits) || bits == 0)
}

/// Whether the sample is a number, infinity included, and at least one.
pub open spec fn at_least_one(bits: u32) -> bool {
    !is_nan(bits) && !is_negative(bits) && bits >= ONE
}

/// Whether the sample lies strictly between zero and one.
pub open spec fn is_fraction(bits: u32) -> bool {
    0 < bits < ONE
}

/// The distance between neighbouring single-precision numbers around the
/// whole number `n`: the least power of two that leaves `n` at most 24
/// significant bits.
pub open spec fn rounding_unit(n: nat) -> nat
    decreases n,
{
    if n < 0x100_0000 {
        1
    } else {
        2 * rounding_unit(n / 2)
    }
}

/// The multiple of `unit` nearest to `n`; of two equally near, the even one.
pub open spec fn round_half_even(n: nat, unit: nat) -> nat {
    let below = n / unit;
    let rest = n % unit;
    if 2 * rest < unit || (2 * rest == unit && below % 2 == 0) {
        below * unit
    } else {
        (below + 1) * unit
    }
}

/// The single-precision product of 255 and `significand / pow2(scale)`, cut
/// down to a whole number.
pub open spec fn scaled_level(significand: nat, scale: nat) -> nat {
    let product = 255 * significand;
    round_half_even(product, rounding_unit(product)) / pow2(scale)
}

/// The gray level of a sample: nothing for what is negative or no number,
/// white from one upwards, and the scaled sample in between.
pub open spec fn gray_level(bits: u32) -> nat {
    if is_negative(bits) || is_nan(bits) {
        0
    } else if bits >= ONE {
        WHITE as nat
    } else {
        scaled_level(significand(bits), scale(bits))
    }
}

/// The rounding unit of every number below two to the 32nd.
proof fn lemma_rounding_unit_values(n: nat)
    requires
        n < 0x1_0000_0000,
    ensures
        n < 0x100_0000 ==> rounding_unit(n) == 1,
        0x100_0000 <= n < 0x200_0000 ==> rounding_unit(n) == 2,
        0x200_0000 <= n < 0x400_0000 ==> rounding_unit(n) == 4,
        0x400_0000 <= n < 0x800_0000 ==> rounding_unit(n) == 8,
        0x800_0000 <= n < 0x1000_0000 ==> rounding_unit(n) == 16,
        0x1000_0000 <= n < 0x2000_0000 ==> rounding_unit(n) == 32,
        0x2000_0000 <= n < 0x4000_0000 ==> rounding_unit(n) == 64,
        0x4000_0000 <= n < 0x8000_0000 ==> rounding_unit(n) == 128,
        0x8000_0000 <= n ==> rounding_unit(n) == 256,
{
    reveal_with_fuel(rounding_unit, 10);
}

/// Rounding to a multiple of `unit` never crosses a multiple of `unit`.
proof fn lemma_round_stays_between(n: nat, unit: nat, low: nat, high: nat)
    requires
        unit > 0,
        low % unit == 0,
        high % unit == 0,
        low <= n <= high,
    ensures
        low <= round_half_even(n, unit) <= high,
{
    let below = n / unit;
    let rest = n % unit;
    let a = low / unit;
    let b = high / unit;
    lemma_fundamental_div_mod(n as int, unit as int);
    lemma_fundamental_div_mod(low as int, unit as int);
    lemma_fundamental_div_mod(high as int, unit as int);
    assert(a <= below && (rest > 0 ==> below + 1 <= b) && below <= b) by (nonlinear_arith)
        requires
            unit > 0,
            0 <= rest < unit,
            n == unit * below + rest,
            low == unit * a,
            high == unit * b,
            low <= n <= high,
    ;
    assert(a * unit <= below * unit <= (below + 1) * unit && below * unit <= b * unit && (below
        + 1 <= b ==> (below + 1) * unit <= b * unit)) by (nonlinear_arith)
        requires
            a <= below,
            below <= b,
            unit > 0,
    ;
    assert(unit * a == a * unit && unit * b == b * unit) by (nonlinear_arith);
}

/// The product of 255 and a significand of at most 24 bits, rounded to single
/// precision, stays below two to the 32nd.
proof fn lemma_rounded_product_is_small(significand: nat)
    requires
        significand < 0x100_0000,
    ensures
        round_half_even(255 * significand, rounding_unit(255 * significand)) <= 0xff00_0000,
{
    let product = 255 * significand;
    lemma_rounding_unit_values(product);
    lemma_round_stays_between(product, rounding_unit(product), 0, 0xff00_0000);
}

/// A multiple of 255 that has 31 or 32 bits, rounded to 24 significant bits,
/// has the same whole part at every scale from 24 to 31 as the multiple
/// itself: the rounding never reaches the next whole number.
proof fn lemma_rounding_keeps_the_whole_part(product: u64, scale: u64)
    by (bit_vector)
    requires
        product % 255 == 0,
        0x7f80_0000 <= product < 0xff00_0000,
        24 <= scale < 32,
    ensures
        ({
            let unit = if product < 0x8000_0000 {
                128u64
            } else {
                256u64
            };
            let below = product / unit;
            let rest = product % unit;
            let rounded = if 2 * rest < unit || (2 * rest == unit && below % 2 == 0) {
                (below * unit) as u64
            } else {
                ((below + 1) * unit) as u64
            };
            rounded >> scale == product >> scale
        }),
{
}

/// The scaled level of the significand of a sample below one is 255 times the
/// sample, cut down to a whole number.
proof fn lemma_scaled_level_is_exact(bits: u32)
    requires
        bits < ONE,
    ensures
        scale(bits) >= 24,
        scaled_level(significand(bits), scale(bits)) == (255 * significand(bits)) / pow2(
            scale(bits),
        ),
{
    let product = 255 * significand(bits);
    let unit = rounding_unit(product);
    let rounded = round_half_even(product, unit);
    let power = pow2(scale(bits));
    lemma2_to64();
    lemma_rounded_product_is_small(significand(bits));
    if exponent_field(bits) < 119 {
        // Below two to the power of -8, the product is below one.
        if scale(bits) > 32 {
            lemma_pow2_strictly_increases(32, scale(bits));
        }
        lemma_basic_div(rounded as int, power as int);
        lemma_basic_div(product as int, power as int);
    } else {
        let shift = scale(bits) as u64;
        lemma_rounding_unit_values(product);
        lemma_rounding_keeps_the_whole_part(product as u64, shift);
        lemma_u64_shr_is_div(rounded as u64, shift);
        lemma_u64_shr_is_div(product as u64, shift);
    }
}

/// A sample that is a number and at most zero is black.
pub proof fn lemma_at_most_zero_is_black(bits: u32)
    requires
        at_most_zero(bits),
    ensures
        gray_level(bits) == 0,
{
    if bits == 0 {
        lemma_scaled_level_is_exact(bits);
        lemma_pow2_pos(149);
        lemma_basic_div(0, pow2(149) as int);
    }
}

/// A sample that is a number and at least one is white.
pub proof fn lemma_at_least_one_is_white(bits: u32)
    requires
        at_least_one(bits),
    ensures
        gray_level(bits) == 255,
{
}

/// A sample strictly between zero and one has exactly the gray level that
/// cutting 255 times the sample down to a whole number gives: rounding the
/// product to single precision first changes nothing. The level is never
/// white.
pub proof fn lemma_fraction_is_truncated(bits: u32)
    requires
        is_fraction(bits),
    ensures
        scale(bits) >= 24,
        gray_level(bits) == (255 * significand(bits)) / pow2(scale(bits)),
        gray_level(bits) < 255,
{
    lemma_scaled_level_is_exact(bits);
    lemma_product_is_below_white(bits);
}

/// Below one, 255 times the sample is below 255.
proof fn lemma_product_is_below_white(bits: u32)
    requires
        bits < ONE,
    ensures
        (255 * significand(bits)) / pow2(scale(bits)) < 255,
{
    let product = 255 * significand(bits);
    let power = pow2(scale(bits));
    lemma2_to64();
    lemma_pow2_adds((scale(bits) - 24) as nat, 24);
    lemma_pow2_pos((scale(bits) - 24) as nat);
    assert(power >= 0x100_0000) by (nonlinear_arith)
        requires
            power == pow2((scale(bits) - 24) as nat) * 0x100_0000,
            pow2((scale(bits) - 24) as nat) > 0,
    ;
    lemma_div_is_ordered_by_denominator(product as int, 0x100_0000, power as int);
}

/// Turns a sample into its gray level.
pub fn sample_to_byte(bits: u32) -> (level: u8)
    ensures
        level == gray_level(bits),
{
    if bits >= SIGN || bits > INFINITY {
        return 0;
    }
    if bits >= ONE {
        return WHITE;
    }
    let exponent: u32 = bits / HIDDEN_BIT;
    let fraction: u32 = bits % HIDDEN_BIT;
    proof {
        lemma_scaled_level_is_exact(bits);
        lemma_product_is_below_white(bits);
    }
    if exponent < 119 {
        // Below two to the power of -8, the product is below one.
        proof {
            lemma2_to64();
            if scale(bits) > 32 {
                lemma_pow2_strictly_increases(32, scale(bits));
            }
            lemma_basic_div((255 * significand(bits)) as int, pow2(scale(bits)) as int);
        }
        return 0;
    }
    let product: u64 = 255 * (HIDDEN_BIT as u64 + fraction as u64);
    let shift: u64 = (150 - exponent) as u64;
    proof {
        lemma_u64_shr_is_div(product, shift);
    }
    let level: u64 = product >> shift;
    level as u8
}

} // verus!
