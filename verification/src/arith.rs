//! Exact integer arithmetic shared by the layout code: powers of ten,
//! division rounded down and rounded up, and bounds on products.

use vstd::prelude::*;
use vstd::arithmetic::div_mod::lemma_fundamental_div_mod_converse;

verus! {

/// Ten to the power `e`.
pub open spec fn pow10(e: nat) -> nat
    decreases e,
{
    if e == 0 {
        1
    } else {
        10 * pow10((e - 1) as nat)
    }
}

/// Powers of ten are positive and grow with the exponent.
pub proof fn lemma_pow10_grows(a: nat, b: nat)
    requires
        a <= b,
    ensures
        1 <= pow10(a) <= pow10(b),
    decreases b,
{
    if b == 0 {
    } else if a == b {
        lemma_pow10_grows((a - 1) as nat, (a - 1) as nat);
    } else {
        lemma_pow10_grows(a, (b - 1) as nat);
    }
}

/// The magnitude of a signed number.
pub open spec fn magnitude(v: int) -> nat {
    if v < 0 {
        (-v) as nat
    } else {
        v as nat
    }
}

/// The magnitude of `v`, which always fits the unsigned type of the same width.
pub fn unsigned_abs(v: i128) -> (r: u128)
    ensures
        r == magnitude(v as int),
{
    if v >= 0 {
        v as u128
    } else {
        let below: i128 = -(v + 1);
        (below as u128) + 1
    }
}

/// `a / b` rounded towards negative infinity, for a positive divisor.
pub fn floor_div(a: i128, b: i128) -> (r: i128)
    requires
        b > 0,
    ensures
        r == a as int / b as int,
        a >= 0 ==> 0 <= r <= a,
        a < 0 ==> a <= r < 0,
{
    if a >= 0 {
        assert(0 <= a as int / b as int <= a) by (nonlinear_arith)
            requires
                a >= 0,
                b > 0,
        ;
        a / b
    } else {
        let below: i128 = -(a + 1);
        let q: i128 = below / b;
        let rem: i128 = below % b;
        proof {
            // a = -(below + 1) = (-q - 1) * b + (b - 1 - rem)
            assert(below == q * b + rem) by (nonlinear_arith)
                requires
                    q == below as int / b as int,
                    rem == below as int % b as int,
                    b > 0,
            ;
            assert(a == (-q - 1) * b + (b - 1 - rem)) by (nonlinear_arith)
                requires
                    below == q * b + rem,
                    a == -(below + 1),
            ;
            lemma_fundamental_div_mod_converse(a as int, b as int, -q - 1, b - 1 - rem);
            assert(0 <= q <= below) by (nonlinear_arith)
                requires
                    q == below as int / b as int,
                    below >= 0,
                    b > 0,
            ;
        }
        -q - 1
    }
}

/// `a / b` rounded up, for a positive divisor.
pub open spec fn ceil_div(a: int, b: int) -> int {
    (a + b - 1) / b
}

/// Some powers of ten.
pub proof fn lemma_pow10_values()
    ensures
        pow10(0) == 1,
        pow10(1) == 10,
        pow10(10) == 10_000_000_000,
        pow10(11) == 100_000_000_000,
        pow10(19) == 10_000_000_000_000_000_000,
        pow10(20) == 100_000_000_000_000_000_000,
{
    reveal_with_fuel(pow10, 21);
}

/// Ten to the power `e`.
pub fn power_of_ten(e: u8) -> (r: u128)
    requires
        e <= 20,
    ensures
        r == pow10(e as nat),
{
    let mut r: u128 = 1;
    let mut i: u8 = 0;
    while i < e
        invariant
            i <= e <= 20,
            r == pow10(i as nat),
        decreases e - i,
    {
        proof {
            lemma_pow10_values();
            lemma_pow10_grows(i as nat, 19);
        }
        r = 10 * r;
        i = i + 1;
    }
    r
}

/// Rounding up gives the least multiple of the divisor that is not below
/// the dividend.
pub proof fn lemma_ceil_div(a: int, b: int)
    requires
        a >= 0,
        b > 0,
    ensures
        ceil_div(a, b) * b >= a,
        (ceil_div(a, b) - 1) * b < a,
        a > 0 ==> ceil_div(a, b) >= 1,
{
    let q = (a + b - 1) / b;
    let r = (a + b - 1) % b;
    assert(a + b - 1 == q * b + r && 0 <= r < b) by (nonlinear_arith)
        requires
            q == (a + b - 1) / b,
            r == (a + b - 1) % b,
            b > 0,
    ;
    assert(q * b >= a && (q - 1) * b < a) by (nonlinear_arith)
        requires
            a + b - 1 == q * b + r,
            0 <= r < b,
    ;
    if a > 0 && q < 1 {
        assert(q * b <= 0) by (nonlinear_arith)
            requires
                q <= 0,
                b > 0,
        ;
    }
}

/// A bound on a quotient rounded up.
pub proof fn lemma_ceil_div_below(a: int, b: int, bound: int)
    requires
        a >= 0,
        b > 0,
        b * bound > a,
    ensures
        ceil_div(a, b) <= bound,
{
    lemma_ceil_div(a, b);
    let q = ceil_div(a, b);
    if q > bound {
        assert((q - 1) * b >= bound * b) by (nonlinear_arith)
            requires
                q - 1 >= bound,
                b > 0,
        ;
        assert(bound * b == b * bound) by (nonlinear_arith);
    }
}

/// A bound on a product from bounds on its factors.
pub proof fn lemma_product_bound(a: int, b: int, ba: int, bb: int)
    requires
        -ba <= a <= ba,
        -bb <= b <= bb,
    ensures
        -(ba * bb) <= a * b <= ba * bb,
{
    assert(-(ba * bb) <= a * b <= ba * bb) by (nonlinear_arith)
        requires
            -ba <= a <= ba,
            -bb <= b <= bb,
    ;
}

} // verus!
