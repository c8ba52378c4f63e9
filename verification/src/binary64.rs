//! IEEE 754 binary64 numbers as their bit patterns: which patterns encode a
//! number, which number, and how the patterns are put in the order of the
//! numbers without leaving the integers.

use vstd::arithmetic::power2::{lemma_pow2_pos, lemma_pow2_strictly_increases, lemma_pow2_unfold, pow2};
use vstd::prelude::*;

verus! {

/// The sign of a bit pattern.
pub const SIGN_BIT: u64 = 0x8000_0000_0000_0000;

/// The bit pattern of positive infinity. Without its sign, a pattern above
/// this one encodes no number.
pub const INFINITY_BITS: u64 = 0x7ff0_0000_0000_0000;

/// The smallest bit pattern with a biased exponent of one: two to the power
/// of the fifty-two bits of the fraction.
pub const FRACTION_RANGE: u64 = 0x0010_0000_0000_0000;

/// The standing of what is no number: below that of every number.
pub const LOSING: i64 = -0x8000_0000_0000_0000;

/// The bit pattern without its sign.
pub open spec fn unsigned_part(bits: u64) -> int {
    if bits >= SIGN_BIT {
        bits - SIGN_BIT
    } else {
        bits as int
    }
}

/// Whether the bit pattern encodes a number, infinite ones included.
pub open spec fn is_number(bits: u64) -> bool {
    unsigned_part(bits) <= INFINITY_BITS
}

/// The size of the number that an unsigned bit pattern encodes, counted in
/// units of the smallest positive number, two to the power of -1074.
///
/// With a biased exponent of zero the size is the fraction; with a biased
/// exponent `e` above zero it is the fraction with a leading one, times two to
/// the power of `e - 1`. The pattern of infinity is sized as if it were the
/// next finite number, above all others.
pub open spec fn size(unsigned: int) -> int {
    let exponent = unsigned / (FRACTION_RANGE as int);
    let fraction = unsigned % (FRACTION_RANGE as int);
    if exponent == 0 {
        fraction
    } else {
        (FRACTION_RANGE + fraction) * pow2((exponent - 1) as nat)
    }
}

/// The number that the bit pattern encodes, in units of the smallest positive
/// number. Both zeros are zero.
pub open spec fn value(bits: u64) -> int
    recommends
        is_number(bits),
{
    if bits >= SIGN_BIT {
        -size(unsigned_part(bits))
    } else {
        size(unsigned_part(bits))
    }
}

/// The place of a bit pattern in the order: numbers stand as their values
/// do, the two zeros together, and what is no number stands below them all.
pub open spec fn standing(bits: u64) -> int {
    if !is_number(bits) {
        LOSING as int
    } else if bits >= SIGN_BIT {
        -unsigned_part(bits)
    } else {
        unsigned_part(bits)
    }
}

/// Computes the standing of a bit pattern.
pub fn standing_of(bits: u64) -> (place: i64)
    ensures
        place == standing(bits),
{
    let unsigned: u64 = if bits >= SIGN_BIT {
        bits - SIGN_BIT
    } else {
        bits
    };
    if unsigned > INFINITY_BITS {
        LOSING
    } else if bits >= SIGN_BIT {
        -(unsigned as i64)
    } else {
        unsigned as i64
    }
}

/// Among unsigned bit patterns the larger one encodes the larger size.
proof fn lemma_size_grows(low: int, high: int)
    requires
        0 <= low < high,
    ensures
        0 <= size(low) < size(high),
{
    let range = FRACTION_RANGE as int;
    let low_exponent = low / range;
    let low_fraction = low % range;
    let high_exponent = high / range;
    let high_fraction = high % range;
    assert(low == range * low_exponent + low_fraction && 0 <= low_fraction < range);
    assert(high == range * high_exponent + high_fraction && 0 <= high_fraction < range);
    assert(0 <= low_exponent <= high_exponent);
    if low_exponent == high_exponent {
        if low_exponent > 0 {
            let scale = pow2((low_exponent - 1) as nat) as int;
            lemma_pow2_pos((low_exponent - 1) as nat);
            assert((range + low_fraction) * scale < (range + high_fraction) * scale)
                by (nonlinear_arith)
                requires
                    low_fraction < high_fraction,
                    0 < scale,
            ;
            assert(0 <= (range + low_fraction) * scale) by (nonlinear_arith)
                requires
                    0 <= low_fraction,
                    0 < scale,
                    range > 0,
            ;
        }
    } else {
        let high_scale = pow2((high_exponent - 1) as nat) as int;
        lemma_pow2_pos((high_exponent - 1) as nat);
        if low_exponent == 0 {
            assert(range * 1 <= (range + high_fraction) * high_scale) by (nonlinear_arith)
                requires
                    0 <= high_fraction,
                    1 <= high_scale,
                    range > 0,
            ;
        } else {
            let low_scale = pow2((low_exponent - 1) as nat) as int;
            lemma_pow2_pos((low_exponent - 1) as nat);
            lemma_pow2_unfold(low_exponent as nat);
            if low_exponent < high_exponent - 1 {
                lemma_pow2_strictly_increases(low_exponent as nat, (high_exponent - 1) as nat);
            }
            assert(2 * low_scale <= high_scale);
            assert((range + low_fraction) * low_scale < (range + high_fraction) * high_scale)
                by (nonlinear_arith)
                requires
                    0 <= low_fraction < range,
                    0 <= high_fraction,
                    0 < low_scale,
                    2 * low_scale <= high_scale,
            ;
            assert(0 <= (range + low_fraction) * low_scale) by (nonlinear_arith)
                requires
                    0 <= low_fraction,
                    0 < low_scale,
                    range > 0,
            ;
        }
    }
}

/// The standing orders the bit patterns of numbers as their values order the
/// numbers: the one stands below the other exactly where the one number is
/// smaller, and they stand together exactly where the numbers are equal.
pub proof fn lemma_standing_orders_as_values(left: u64, right: u64)
    requires
        is_number(left),
        is_number(right),
    ensures
        standing(left) < standing(right) <==> value(left) < value(right),
        standing(left) == standing(right) <==> value(left) == value(right),
{
    let a = unsigned_part(left);
    let b = unsigned_part(right);
    assert(size(0) == 0);
    if a < b {
        lemma_size_grows(a, b);
    } else if b < a {
        lemma_size_grows(b, a);
    }
    if 0 < a {
        lemma_size_grows(0, a);
    }
    if 0 < b {
        lemma_size_grows(0, b);
    }
}

/// What is no number stands below every number.
pub proof fn lemma_no_number_loses(left: u64, right: u64)
    requires
        !is_number(left),
        is_number(right),
    ensures
        standing(left) < standing(right),
{
}

} // verus!
