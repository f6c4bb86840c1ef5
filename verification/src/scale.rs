//! Rounding division: the one arithmetic step shared by every fixed-point conversion.
//!
//! A channel is a fraction `n / d` of non-negative integers until the moment it is stored,
//! and storing it means picking the nearest integer. Halves go upward, which for the
//! non-negative values handled here is the same as rounding half away from zero.

use vstd::prelude::*;

verus! {

/// The integer nearest to `n / d`, for `n >= 0` and `d > 0`; a value exactly halfway
/// between two integers goes to the larger one.
pub open spec fn nearest(n: int, d: int) -> int {
    (2 * n + d) / (2 * d)
}

/// `nearest(n, d)` lies within one half of the exact quotient: `q - 1/2 <= n/d < q + 1/2`,
/// written without fractions.
pub proof fn lemma_nearest_is_within_half(n: int, d: int)
    requires
        0 <= n,
        0 < d,
    ensures
        0 <= nearest(n, d),
        2 * d * nearest(n, d) - d <= 2 * n < 2 * d * nearest(n, d) + d,
{
    let q = nearest(n, d);
    vstd::arithmetic::div_mod::lemma_fundamental_div_mod(2 * n + d, 2 * d);
    vstd::arithmetic::div_mod::lemma_div_pos_is_pos(2 * n + d, 2 * d);
    assert((2 * d) * q == 2 * d * q) by (nonlinear_arith);
}

/// The only integer within one half of `n / d` (halves counted upward) is `nearest(n, d)`.
pub proof fn lemma_nearest_is_unique(n: int, d: int, q: int)
    requires
        0 < d,
        2 * d * q - d <= 2 * n < 2 * d * q + d,
    ensures
        nearest(n, d) == q,
{
    let r = 2 * n + d - 2 * d * q;
    assert(2 * n + d == q * (2 * d) + r) by (nonlinear_arith)
        requires
            r == 2 * n + d - 2 * d * q,
    ;
    vstd::arithmetic::div_mod::lemma_fundamental_div_mod_converse(2 * n + d, 2 * d, q, r);
}

/// A quotient that comes out whole is its own nearest integer.
pub proof fn lemma_nearest_of_multiple(q: int, d: int)
    requires
        0 < d,
    ensures
        nearest(q * d, d) == q,
{
    assert(2 * d * q == 2 * (q * d)) by (nonlinear_arith);
    lemma_nearest_is_unique(q * d, d, q);
}

/// Rounding keeps a quotient at or below any whole bound that the exact quotient respects.
pub proof fn lemma_nearest_upper_bound(n: int, d: int, bound: int)
    requires
        0 <= n,
        0 < d,
        n <= bound * d,
    ensures
        nearest(n, d) <= bound,
{
    let q = nearest(n, d);
    lemma_nearest_is_within_half(n, d);
    assert(q <= bound) by (nonlinear_arith)
        requires
            0 < d,
            2 * d * q - d <= 2 * n,
            n <= bound * d,
    ;
}

/// Computes `nearest(n, d)`.
pub fn div_nearest(n: u64, d: u64) -> (q: u64)
    requires
        0 < d,
        2 * n + d <= u64::MAX,
        2 * d <= u64::MAX,
    ensures
        q == nearest(n as int, d as int),
{
    (2 * n + d) / (2 * d)
}

} // verus!
