//! Fixed-point helpers shared by the register compilers.

use vstd::prelude::*;

verus! {

/// `n / d` rounded to the nearest integer, a tie going up. Meant for
/// `n >= 0` and `d > 0`.
pub open spec fn round_half_up(n: int, d: int) -> int {
    (2 * n + d) / (2 * d)
}

/// 2 to the power `e`.
pub open spec fn pow2(e: nat) -> int
    decreases e,
{
    if e == 0 {
        1
    } else {
        2 * pow2((e - 1) as nat)
    }
}

/// Every power of two is at least 1.
pub proof fn lemma_pow2_positive(e: nat)
    ensures
        pow2(e) >= 1,
    decreases e,
{
    if e > 0 {
        lemma_pow2_positive((e - 1) as nat);
    }
}

/// The powers of two up to the fifteenth.
pub proof fn lemma_pow2_values()
    ensures
        pow2(0) == 1,
        pow2(1) == 2,
        pow2(2) == 4,
        pow2(3) == 8,
        pow2(4) == 16,
        pow2(5) == 32,
        pow2(6) == 64,
        pow2(7) == 128,
        pow2(8) == 256,
        pow2(9) == 512,
        pow2(10) == 1024,
        pow2(11) == 2048,
        pow2(12) == 4096,
        pow2(13) == 8192,
        pow2(14) == 16384,
        pow2(15) == 32768,
{
    reveal_with_fuel(pow2, 17);
}

/// Computes `round_half_up(n, d)`.
pub fn round_div(n: u128, d: u128) -> (q: u128)
    requires
        d > 0,
        2 * n + d <= u128::MAX,
        2 * d <= u128::MAX,
    ensures
        q == round_half_up(n as int, d as int),
{
    (2 * n + d) / (2 * d)
}

/// The rounded quotient is within half a divisor of the exact one:
/// `|2·d·q − 2·n| <= d`.
pub proof fn lemma_round_half_up_error(n: int, d: int)
    requires
        n >= 0,
        d > 0,
    ensures
        round_half_up(n, d) >= 0,
        2 * d * round_half_up(n, d) <= 2 * n + d,
        2 * n + d < 2 * d * round_half_up(n, d) + 2 * d,
{
    let q = round_half_up(n, d);
    let a = 2 * n + d;
    let b = 2 * d;
    vstd::arithmetic::div_mod::lemma_fundamental_div_mod(a, b);
    vstd::arithmetic::div_mod::lemma_mod_bound(a, b);
    vstd::arithmetic::div_mod::lemma_div_pos_is_pos(a, b);
    assert(a == b * (a / b) + a % b);
    assert(b * q == 2 * d * q) by (nonlinear_arith)
        requires
            b == 2 * d,
    ;
}

/// Doubling the divisor never makes the rounded quotient larger.
pub proof fn lemma_round_half_up_shrinks(n: int, d: int)
    requires
        n >= 0,
        d > 0,
    ensures
        round_half_up(n, 2 * d) <= round_half_up(n, d),
{
    let q = round_half_up(n, d);
    let h = round_half_up(n, 2 * d);
    lemma_round_half_up_error(n, d);
    lemma_round_half_up_error(n, 2 * d);
    assert(h <= q) by (nonlinear_arith)
        requires
            d > 0,
            q >= 0,
            h >= 0,
            2 * n + d < 2 * d * q + 2 * d,
            2 * (2 * d) * h <= 2 * n + 2 * d,
    ;
}

} // verus!
