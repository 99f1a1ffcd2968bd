//! The price rule of a weighted pool: what a swap gives, from the reserves
//! and weights of the two assets, in whole numbers.

use vstd::prelude::*;
use vstd::arithmetic::div_mod::lemma_div_is_ordered;
use vstd::arithmetic::mul::lemma_mul_inequality;
use vstd::arithmetic::mul::lemma_mul_is_commutative;

verus! {

/// What is divided: reserve, weight and decimals of the asset that leaves the
/// pool, times the amount that enters it.
pub open spec fn quote_numerator(
    amount: nat,
    reserve_out: nat,
    weight_out: nat,
    decimals_out: nat,
) -> nat {
    reserve_out * weight_out * decimals_out * amount
}

/// What divides: reserve, weight and decimals of the asset that enters the
/// pool.
pub open spec fn quote_denominator(reserve_in: nat, weight_in: nat, decimals_in: nat) -> nat {
    reserve_in * weight_in * decimals_in
}

/// The amount that leaves the pool for `amount` entering it, rounded down.
/// There is none where the divisor is zero or where the dividend or the
/// divisor leaves the 128-bit range.
pub open spec fn weighted_quote(
    amount: nat,
    reserve_in: nat,
    reserve_out: nat,
    weight_in: nat,
    weight_out: nat,
    decimals_in: nat,
    decimals_out: nat,
) -> Option<u128> {
    let dividend = quote_numerator(amount, reserve_out, weight_out, decimals_out);
    let divisor = quote_denominator(reserve_in, weight_in, decimals_in);
    if divisor == 0 || divisor > u128::MAX || dividend > u128::MAX {
        None
    } else {
        Some((dividend / divisor) as u128)
    }
}

/// A larger amount entering a pool never gives a smaller amount leaving it,
/// and wherever the larger amount has a quote the smaller has one too.
pub proof fn lemma_weighted_quote_monotonic(
    smaller: nat,
    larger: nat,
    reserve_in: nat,
    reserve_out: nat,
    weight_in: nat,
    weight_out: nat,
    decimals_in: nat,
    decimals_out: nat,
)
    requires
        smaller <= larger,
        weighted_quote(
            larger,
            reserve_in,
            reserve_out,
            weight_in,
            weight_out,
            decimals_in,
            decimals_out,
        ) is Some,
    ensures
        weighted_quote(
            smaller,
            reserve_in,
            reserve_out,
            weight_in,
            weight_out,
            decimals_in,
            decimals_out,
        ) is Some,
        weighted_quote(
            smaller,
            reserve_in,
            reserve_out,
            weight_in,
            weight_out,
            decimals_in,
            decimals_out,
        )->0 <= weighted_quote(
            larger,
            reserve_in,
            reserve_out,
            weight_in,
            weight_out,
            decimals_in,
            decimals_out,
        )->0,
{
    let rate: nat = reserve_out * weight_out * decimals_out;
    let divisor: nat = quote_denominator(reserve_in, weight_in, decimals_in);
    let low: nat = rate * smaller;
    let high: nat = rate * larger;
    assert(low <= high) by {
        lemma_mul_inequality(smaller as int, larger as int, rate as int);
        lemma_mul_is_commutative(smaller as int, rate as int);
        lemma_mul_is_commutative(larger as int, rate as int);
    }
    assert(low / divisor <= high / divisor) by {
        lemma_div_is_ordered(low as int, high as int, divisor as int);
    }
}

/// The product of two numbers, where it fits 128 bits.
fn checked_times(product: Option<u128>, factor: u128) -> (r: Option<u128>)
    requires
        factor > 0,
        product matches Some(p) ==> p > 0,
    ensures
        r matches Some(v) ==> v > 0,
        match product {
            Some(p) => r == if p * factor <= u128::MAX {
                Some((p * factor) as u128)
            } else {
                None::<u128>
            },
            None => r is None,
        },
{
    match product {
        Some(p) => {
            assert(p * factor > 0) by (nonlinear_arith)
                requires
                    p > 0,
                    factor > 0,
            ;
            p.checked_mul(factor)
        },
        None => None,
    }
}

/// The product of three numbers, where it fits 128 bits.
pub fn checked_product3(a: u128, b: u128, c: u128) -> (r: Option<u128>)
    ensures
        r == if a * b * c <= u128::MAX {
            Some((a * b * c) as u128)
        } else {
            None::<u128>
        },
{
    if a == 0 || b == 0 || c == 0 {
        assert(a * b * c == 0) by (nonlinear_arith)
            requires
                a == 0 || b == 0 || c == 0,
        ;
        return Some(0);
    }
    let ab = checked_times(Some(a), b);
    let abc = checked_times(ab, c);
    proof {
        if ab is None {
            assert(a * b * c >= a * b) by (nonlinear_arith)
                requires
                    a * b > 0,
                    c > 0,
            ;
        }
    }
    abc
}

/// The product of four numbers, where it fits 128 bits.
pub fn checked_product4(a: u128, b: u128, c: u128, d: u128) -> (r: Option<u128>)
    ensures
        r == if a * b * c * d <= u128::MAX {
            Some((a * b * c * d) as u128)
        } else {
            None::<u128>
        },
{
    if d == 0 {
        assert(a * b * c * d == 0) by (nonlinear_arith)
            requires
                d == 0,
        ;
        return Some(0);
    }
    if a == 0 || b == 0 || c == 0 {
        assert(a * b * c * d == 0) by (nonlinear_arith)
            requires
                a == 0 || b == 0 || c == 0,
        ;
        return Some(0);
    }
    let abc = checked_product3(a, b, c);
    proof {
        assert(a * b * c > 0) by (nonlinear_arith)
            requires
                a > 0,
                b > 0,
                c > 0,
        ;
        if abc is None {
            assert(a * b * c * d >= a * b * c) by (nonlinear_arith)
                requires
                    a * b * c > 0,
                    d > 0,
            ;
        }
    }
    checked_times(abc, d)
}

/// Computes `weighted_quote`.
pub fn compute_weighted_quote(
    amount: u128,
    reserve_in: u128,
    reserve_out: u128,
    weight_in: u128,
    weight_out: u128,
    decimals_in: u32,
    decimals_out: u32,
) -> (r: Option<u128>)
    ensures
        r == weighted_quote(
            amount as nat,
            reserve_in as nat,
            reserve_out as nat,
            weight_in as nat,
            weight_out as nat,
            decimals_in as nat,
            decimals_out as nat,
        ),
{
    let dividend = checked_product4(reserve_out, weight_out, decimals_out as u128, amount);
    let divisor = checked_product3(reserve_in, weight_in, decimals_in as u128);
    match (dividend, divisor) {
        (Some(n), Some(d)) => {
            if d == 0 {
                None
            } else {
                Some(n / d)
            }
        },
        _ => None,
    }
}

} // verus!
