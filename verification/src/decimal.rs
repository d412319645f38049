use vstd::prelude::*;
use cosmwasm_std::Fraction;
use vstd::arithmetic::div_mod::{lemma_fundamental_div_mod, lemma_fundamental_div_mod_converse};

verus! {

/// Number of atomic units in one whole `Decimal` (18 fractional digits).
pub const DECIMAL_FRACTIONAL: u128 = 1_000_000_000_000_000_000u128;

/// A fixed-point ratio with 18 fractional digits: the value is `atomics / 10^18`.
#[derive(Clone, Copy, Debug, PartialEq, Eq, Structural)]
pub struct Decimal {
    pub atomics: u128,
}

/// `amount * ratio`, rounded down: what a token amount times a `Decimal` gives.
pub open spec fn decimal_mul_spec(amount: u128, ratio: Decimal) -> int {
    (amount as int * ratio.atomics as int) / (DECIMAL_FRACTIONAL as int)
}

/// Multiplies a token amount by a ratio with cosmwasm's `Uint128 * Decimal`.
///
/// cosmwasm-std 0.16 returns zero when either side is zero and otherwise
/// `amount.multiply_ratio(atomics, 10^18)`, which computes the product in 256
/// bits, divides with rounding down and panics when the quotient does not fit
/// in 128 bits; the `requires` leaves that case out. The ratio is rebuilt with
/// `Decimal::from_ratio(atomics, 10^18)`, which gives back exactly `atomics`.
#[verifier::external_body]
pub(crate) fn decimal_mul(amount: u128, ratio: Decimal) -> (res: u128)
    requires
        decimal_mul_spec(amount, ratio) <= u128::MAX,
    ensures
        res as int == decimal_mul_spec(amount, ratio),
{
    let one = cosmwasm_std::Decimal::one();
    let d = cosmwasm_std::Decimal::from_ratio(ratio.atomics, one.denominator());
    (cosmwasm_std::Uint128::new(amount) * d).u128()
}


proof fn lemma_split_product(p: int, r: int, d: int, p1: int, p0: int, r1: int, r0: int, e: int, f: int)
    requires
        d > 0,
        p == p1 * d + p0,
        r == r1 * d + r0,
        p0 * r0 == e * d + f,
        0 <= f < d,
    ensures
        (p * r) / d == p1 * r1 * d + p1 * r0 + p0 * r1 + e,
{
    assert(p * r == (p1 * r1 * d + p1 * r0 + p0 * r1 + e) * d + f) by (nonlinear_arith)
        requires
            p == p1 * d + p0,
            r == r1 * d + r0,
            p0 * r0 == e * d + f,
    ;
    lemma_fundamental_div_mod_converse(p * r, d, p1 * r1 * d + p1 * r0 + p0 * r1 + e, f);
}

/// `amount * ratio` rounded down, or `None` when it does not fit in 128 bits.
/// The product is split at 10^18 on both sides so that no partial product
/// needs more than 128 bits.
pub fn decimal_mul_checked(amount: u128, ratio: Decimal) -> (res: Option<u128>)
    ensures
        res is Some <==> decimal_mul_spec(amount, ratio) <= u128::MAX,
        res matches Some(v) ==> v == decimal_mul_spec(amount, ratio),
{
    let d = DECIMAL_FRACTIONAL;
    let p1 = amount / d;
    let p0 = amount % d;
    let r1 = ratio.atomics / d;
    let r0 = ratio.atomics % d;
    proof {
        lemma_fundamental_div_mod(amount as int, d as int);
        lemma_fundamental_div_mod(ratio.atomics as int, d as int);
        assert(amount == p1 * d + p0) by (nonlinear_arith)
            requires amount == d * (amount / d) + amount % d, p1 == amount / d, p0 == amount % d;
        assert(ratio.atomics == r1 * d + r0) by (nonlinear_arith)
            requires
                ratio.atomics == d * (ratio.atomics / d) + ratio.atomics % d,
                r1 == ratio.atomics / d,
                r0 == ratio.atomics % d;
        assert(p0 * r0 <= (d - 1) * (d - 1)) by (nonlinear_arith)
            requires 0 <= p0 < d, 0 <= r0 < d;
    }
    let low = p0 * r0;
    let e = low / d;
    let f = low % d;
    proof {
        lemma_fundamental_div_mod(low as int, d as int);
        assert(low == e * d + f) by (nonlinear_arith)
            requires low == d * (low / d) + low % d, e == low / d, f == low % d;
        lemma_split_product(amount as int, ratio.atomics as int, d as int, p1 as int, p0 as int,
            r1 as int, r0 as int, e as int, f as int);
        assert(p1 * r1 * d >= p1 * r1) by (nonlinear_arith)
            requires p1 >= 0, r1 >= 0, d >= 1;
        assert(p1 * r0 >= 0 && p0 * r1 >= 0 && p1 * r1 >= 0) by (nonlinear_arith)
            requires p1 >= 0, r1 >= 0, p0 >= 0, r0 >= 0;
    }
    let a = match p1.checked_mul(r1) {
        Some(a) => a,
        None => return None,
    };
    let a = match a.checked_mul(d) {
        Some(a) => a,
        None => return None,
    };
    let b = match p1.checked_mul(r0) {
        Some(b) => b,
        None => return None,
    };
    let c = match p0.checked_mul(r1) {
        Some(c) => c,
        None => return None,
    };
    let s = match a.checked_add(b) {
        Some(s) => s,
        None => return None,
    };
    let s = match s.checked_add(c) {
        Some(s) => s,
        None => return None,
    };
    s.checked_add(e)
}


/// Two shares of an amount whose ratios add up to at most one add up to at
/// most the amount: splitting never hands out more than there is.
pub proof fn law_two_shares_within(amount: u128, x: Decimal, y: Decimal)
    requires
        x.atomics + y.atomics <= DECIMAL_FRACTIONAL,
    ensures
        decimal_mul_spec(amount, x) + decimal_mul_spec(amount, y) <= amount,
{
    let a = amount as int;
    let d = DECIMAL_FRACTIONAL as int;
    let px = a * x.atomics;
    let py = a * y.atomics;
    lemma_fundamental_div_mod(px, d);
    lemma_fundamental_div_mod(py, d);
    let qx = px / d;
    let qy = py / d;
    assert((qx + qy) * d <= a * d) by (nonlinear_arith)
        requires
            px == d * qx + px % d,
            py == d * qy + py % d,
            px % d >= 0,
            py % d >= 0,
            px == a * x.atomics,
            py == a * y.atomics,
            x.atomics + y.atomics <= d,
            a >= 0;
    assert(qx + qy <= a) by (nonlinear_arith)
        requires (qx + qy) * d <= a * d, d > 0;
}

/// `amount * ratio` is rounded down to a whole number of units: the result
/// times `10^18` is at most the exact product, and one more unit would exceed
/// it.
pub proof fn law_decimal_mul_rounds_down(amount: u128, ratio: Decimal)
    ensures
        decimal_mul_spec(amount, ratio) >= 0,
        decimal_mul_spec(amount, ratio) * DECIMAL_FRACTIONAL <= amount as int * ratio.atomics as int,
        (amount as int * ratio.atomics as int) < (decimal_mul_spec(amount, ratio) + 1) * DECIMAL_FRACTIONAL,
{
    let x = amount as int * ratio.atomics as int;
    assert(x >= 0) by (nonlinear_arith)
        requires
            amount >= 0,
            ratio.atomics >= 0,
            x == amount as int * ratio.atomics as int,
    ;
    lemma_fundamental_div_mod(x, DECIMAL_FRACTIONAL as int);
    vstd::arithmetic::div_mod::lemma_mod_bound(x, DECIMAL_FRACTIONAL as int);
    vstd::arithmetic::div_mod::lemma_div_pos_is_pos(x, DECIMAL_FRACTIONAL as int);
}

} // verus!
