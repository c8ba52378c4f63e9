//! The forgetting rule: which memories fade, by their age in days and the
//! number of times they were recalled.

use vstd::arithmetic::power::*;
use vstd::prelude::*;

verus! {

/// Seconds in a day.
pub const SECONDS_PER_DAY: u64 = 86400;

/// A memory this many days old or younger never fades.
pub const GRACE_DAYS: u64 = 2;

/// A memory recalled this often never fades.
pub const LASTING_READS: usize = 50;

/// Whole days from `timestamp` to `current_time`, zero where the clock reads
/// earlier than the timestamp.
pub open spec fn days_between(timestamp: nat, current_time: nat) -> nat {
    if current_time >= timestamp {
        ((current_time - timestamp) / 86400) as nat
    } else {
        0
    }
}

/// Whether the forgetting score `1.15^(days - 6.99) / 1.15^reads - 1` is
/// below one.
///
/// The score is below one exactly when `1.15^(days - reads - 6.99) < 2`. With
/// both sides raised to the hundredth power and 1.15 written as 23/20 this
/// reads `(23/20)^(100 (days - reads) - 699) < 2^100`, which is stated here
/// over integers, the powers of the denominator moved to the other side.
pub open spec fn score_below_one(days: nat, reads: nat) -> bool {
    let exponent = 100 * (days - reads) - 699;
    if exponent >= 0 {
        pow(23, exponent as nat) < pow(2, 100) * pow(20, exponent as nat)
    } else {
        pow(20, (-exponent) as nat) < pow(2, 100) * pow(23, (-exponent) as nat)
    }
}

/// Whether a memory of this age, recalled this often, fades: it is past the
/// grace period, was recalled fewer than fifty times, and its forgetting score
/// is below one.
pub open spec fn fades(days: nat, reads: nat) -> bool {
    days > 2 && reads < 50 && score_below_one(days, reads)
}

proof fn lemma_pow_base_monotone(a: int, b: int, e: nat)
    requires
        0 < a <= b,
    ensures
        0 < pow(a, e) <= pow(b, e),
    decreases e,
{
    reveal(pow);
    if e > 0 {
        lemma_pow_base_monotone(a, b, (e - 1) as nat);
        let x = pow(a, (e - 1) as nat);
        let y = pow(b, (e - 1) as nat);
        assert(0 < a * x <= b * y) by (nonlinear_arith)
            requires
                0 < a <= b,
                0 < x <= y,
        ;
    }
}

/// `(23/20)^500 >= 2^100`, because `(23/20)^5 >= 2`.
proof fn lemma_five_hundred()
    ensures
        pow(23, 500) >= pow(2, 100) * pow(20, 500),
{
    assert(pow(23, 5) == 6436343) by {
        reveal_with_fuel(pow, 6);
    }
    assert(pow(20, 5) == 3200000) by {
        reveal_with_fuel(pow, 6);
    }
    lemma_pow_multiplies(23, 5, 100);
    lemma_pow_multiplies(20, 5, 100);
    lemma_pow_distributes(2, 3200000, 100);
    lemma_pow_base_monotone(6400000, 6436343, 100);
}

/// `(23/20)^401 < 2^100`, because `(23/20)^4 < 2` and `(23/20)^9 < 4`.
proof fn lemma_four_hundred_one()
    ensures
        pow(23, 401) < pow(2, 100) * pow(20, 401),
{
    assert(pow(23, 4) == 279841) by {
        reveal_with_fuel(pow, 5);
    }
    assert(pow(20, 4) == 160000) by {
        reveal_with_fuel(pow, 5);
    }
    lemma_pow_multiplies(23, 4, 100);
    lemma_pow_multiplies(20, 4, 100);
    lemma_pow_distributes(2, 160000, 100);
    assert(pow(23, 400) == pow(279841, 100));
    assert(pow(2, 100) * pow(20, 400) == pow(320000, 100));
    lemma_pow_adds(279841, 2, 98);
    lemma_pow_adds(320000, 2, 98);
    assert(pow(279841, 2) == 279841 * 279841) by {
        reveal_with_fuel(pow, 3);
    }
    assert(pow(320000, 2) == 320000 * 320000) by {
        reveal_with_fuel(pow, 3);
    }
    lemma_pow_base_monotone(279841, 320000, 98);
    lemma_pow_adds(23, 1, 400);
    lemma_pow_adds(20, 1, 400);
    lemma_pow1(23);
    lemma_pow1(20);
    let low = pow(279841, 98);
    let high = pow(320000, 98);
    let two = pow(2, 100);
    let twenty = pow(20, 400);
    assert(23 * ((279841 * 279841) * low) < 20 * ((320000 * 320000) * high))
        by (nonlinear_arith)
        requires
            0 < low <= high,
    ;
    assert(two * (20 * twenty) == 20 * (two * twenty)) by (nonlinear_arith);
}

/// Below the exponent 401 the score stays below one.
proof fn lemma_below(e: nat)
    requires
        e <= 401,
    ensures
        pow(23, e) < pow(2, 100) * pow(20, e),
{
    lemma_four_hundred_one();
    let rest = (401 - e) as nat;
    lemma_pow_adds(23, e, rest);
    lemma_pow_adds(20, e, rest);
    lemma_pow_base_monotone(20, 23, rest);
    lemma_pow_positive(23, e);
    lemma_pow_positive(20, e);
    lemma_pow_positive(2, 100);
    let p = pow(23, e);
    let q = pow(20, e);
    let pr = pow(23, rest);
    let qr = pow(20, rest);
    let two = pow(2, 100);
    assert(p < two * q) by (nonlinear_arith)
        requires
            p * pr < two * (q * qr),
            0 < qr <= pr,
            0 < p,
            0 < q,
            0 < two,
    ;
}

/// From the exponent 500 on the score is at least one.
proof fn lemma_above(e: nat)
    requires
        e >= 500,
    ensures
        pow(23, e) >= pow(2, 100) * pow(20, e),
{
    lemma_five_hundred();
    let rest = (e - 500) as nat;
    lemma_pow_adds(23, 500, rest);
    lemma_pow_adds(20, 500, rest);
    lemma_pow_base_monotone(20, 23, rest);
    lemma_pow_positive(20, 500);
    lemma_pow_positive(2, 100);
    let p = pow(23, 500);
    let q = pow(20, 500);
    let pr = pow(23, rest);
    let qr = pow(20, rest);
    let two = pow(2, 100);
    assert(p * pr >= two * (q * qr)) by (nonlinear_arith)
        requires
            p >= two * q,
            0 < qr <= pr,
            0 < q,
            0 < two,
    ;
}

/// Where the age does not exceed the recalls by seven days the score is
/// below one.
proof fn lemma_negative(n: nat)
    requires
        n > 0,
    ensures
        pow(20, n) < pow(2, 100) * pow(23, n),
{
    lemma_pow_base_monotone(20, 23, n);
    lemma_pow_base_monotone(1, 2, 100);
    lemma_pow_adds(2, 1, 99);
    lemma_pow1(2);
    lemma_pow_positive(2, 99);
    let two = pow(2, 100);
    let p = pow(23, n);
    let q = pow(20, n);
    assert(two >= 2);
    assert(q < two * p) by (nonlinear_arith)
        requires
            0 < q <= p,
            two >= 2,
    ;
}

/// The forgetting score is below one exactly while the age in days exceeds
/// the number of recalls by eleven or less.
pub proof fn lemma_score_boundary(days: nat, reads: nat)
    ensures
        score_below_one(days, reads) <==> days <= reads + 11,
{
    let exponent = 100 * (days - reads) - 699;
    if exponent < 0 {
        lemma_negative((-exponent) as nat);
    } else if days <= reads + 11 {
        lemma_below(exponent as nat);
    } else {
        lemma_above(exponent as nat);
    }
}

/// Tells whether a memory `days` old that was recalled `reads` times fades.
pub fn is_fading(days: u64, reads: usize) -> (gone: bool)
    ensures
        gone == fades(days as nat, reads as nat),
{
    proof {
        lemma_score_boundary(days as nat, reads as nat);
    }
    days > GRACE_DAYS && reads < LASTING_READS && days <= reads as u64 + 11
}

/// Whole days from `timestamp` to `current_time`.
pub fn days_since(timestamp: u64, current_time: u64) -> (days: u64)
    ensures
        days == days_between(timestamp as nat, current_time as nat),
{
    current_time.saturating_sub(timestamp) / SECONDS_PER_DAY
}

} // verus!
