use vstd::prelude::*;

use crate::error::SettlementError;

verus! {

/// Fixed-point scaling factor that keeps sub-unit precision under integer division.
pub const BASE: u64 = 100000;

/// The BASE-scaled output of a swap: `floor(amount_in * reserve_out * BASE / (amount_in + reserve_out))`,
/// and 0 for an empty pool with no input.
pub open spec fn scaled_output(reserve_out: int, amount_in: int) -> int {
    if amount_in + reserve_out == 0 {
        0
    } else {
        (amount_in * reserve_out * BASE) / (amount_in + reserve_out)
    }
}

/// The same output in native units: the scaled output divided by BASE once more.
pub open spec fn native_output(reserve_out: int, amount_in: int) -> int {
    scaled_output(reserve_out, amount_in) / (BASE as int)
}

/// `floor((q * d + m) * k / d) == q * k + floor(m * k / d)`.
proof fn lemma_scaled_split(q: int, m: int, d: int, k: int)
    requires
        d > 0,
        q >= 0,
        0 <= m < d,
        k >= 0,
    ensures
        ((q * d + m) * k) / d == q * k + (m * k) / d,
{
    assert((q * d + m) * k == (q * k) * d + m * k) by (nonlinear_arith);
    vstd::arithmetic::div_mod::lemma_fundamental_div_mod(m * k, d);
    let r = (m * k) / d;
    let s = (m * k) % d;
    assert(m * k == d * r + s);
    assert((q * k) * d + m * k == (q * k + r) * d + s) by (nonlinear_arith)
        requires
            m * k == d * r + s,
    ;
    vstd::arithmetic::div_mod::lemma_mod_bound(m * k, d);
    vstd::arithmetic::div_mod::lemma_fundamental_div_mod_converse((q * k) * d + m * k, d, q * k + r, s);
}

/// Prices a swap of `amount_in` against a pool holding `reserve_out` of the output asset.
/// The result is scaled by BASE. `reserve_in` takes no part in the formula.
/// Fails with `ArithmeticOverflow` exactly when the result does not fit 64 bits.
pub fn quote(reserve_in: u64, reserve_out: u64, amount_in: u64) -> (r: Result<u64, SettlementError>)
    ensures
        r is Ok <==> scaled_output(reserve_out as int, amount_in as int) <= u64::MAX,
        r is Ok ==> r->Ok_0 == scaled_output(reserve_out as int, amount_in as int),
        r is Err ==> r->Err_0 == SettlementError::ArithmeticOverflow,
{
    let denominator: u128 = amount_in as u128 + reserve_out as u128;
    if denominator == 0 {
        return Ok(0);
    }
    assert((amount_in as u128) * (reserve_out as u128) <= u64::MAX * u64::MAX) by (nonlinear_arith)
        requires
            amount_in <= u64::MAX,
            reserve_out <= u64::MAX,
    ;
    let product: u128 = amount_in as u128 * reserve_out as u128;
    let whole: u128 = product / denominator;
    let rest: u128 = product % denominator;
    proof {
        assert(whole * denominator <= product) by {
            vstd::arithmetic::div_mod::lemma_fundamental_div_mod(product as int, denominator as int);
        }
        assert(whole <= amount_in) by (nonlinear_arith)
            requires
                whole * denominator <= product,
                product == amount_in * reserve_out,
                denominator == amount_in + reserve_out,
                denominator > 0,
        ;
        vstd::arithmetic::div_mod::lemma_mod_bound(product as int, denominator as int);
        assert(whole * BASE <= u64::MAX * 100000) by (nonlinear_arith)
            requires
                whole <= amount_in,
                amount_in <= u64::MAX,
        ;
        assert(rest * BASE < denominator * 100000) by (nonlinear_arith)
            requires
                rest < denominator,
        ;
    }
    let scaled: u128 = whole * (BASE as u128) + (rest * (BASE as u128)) / denominator;
    proof {
        vstd::arithmetic::div_mod::lemma_fundamental_div_mod(product as int, denominator as int);
        lemma_scaled_split(whole as int, rest as int, denominator as int, BASE as int);
        assert(whole * denominator + rest == product);
        assert(product * BASE == (amount_in * reserve_out * BASE)) by (nonlinear_arith)
            requires
                product == amount_in * reserve_out,
        ;
    }
    if scaled > u64::MAX as u128 {
        Err(SettlementError::ArithmeticOverflow)
    } else {
        Ok(scaled as u64)
    }
}

/// A swap of nothing is priced at nothing, whatever the pool holds.
pub proof fn lemma_zero_input_quotes_zero(reserve_out: u64)
    ensures
        scaled_output(reserve_out as int, 0) == 0,
        native_output(reserve_out as int, 0) == 0,
{
    if reserve_out > 0 {
        assert(0 * (reserve_out as int) * (BASE as int) == 0) by (nonlinear_arith);
    }
}

/// `q * d2 <= y` follows from `q * d1 <= x` and `x * d2 <= y * d1` for positive `d1`, `d2`.
proof fn lemma_cross_floor(x: int, y: int, d1: int, d2: int)
    requires
        d1 > 0,
        d2 > 0,
        x >= 0,
        y >= 0,
        x * d2 <= y * d1,
    ensures
        x / d1 <= y / d2,
{
    let q = x / d1;
    vstd::arithmetic::div_mod::lemma_fundamental_div_mod(x, d1);
    vstd::arithmetic::div_mod::lemma_mod_bound(x, d1);
    assert(q * d1 <= x);
    assert(q >= 0) by {
        vstd::arithmetic::div_mod::lemma_div_pos_is_pos(x, d1);
    }
    assert(q * d1 * d2 <= x * d2) by (nonlinear_arith)
        requires
            q * d1 <= x,
            d2 > 0,
    ;
    assert(q * d2 <= y) by (nonlinear_arith)
        requires
            q * d1 * d2 <= y * d1,
            d1 > 0,
    ;
    vstd::arithmetic::div_mod::lemma_fundamental_div_mod(y, d2);
    vstd::arithmetic::div_mod::lemma_mod_bound(y, d2);
    let p = y / d2;
    assert(y == d2 * p + y % d2);
    assert(q <= p) by (nonlinear_arith)
        requires
            q * d2 <= y,
            y == d2 * p + y % d2,
            y % d2 < d2,
            d2 > 0,
    ;
}

/// For a fixed output reserve, a larger input never buys less, scaled or native.
pub proof fn lemma_quote_monotonic(reserve_out: u64, amount_small: u64, amount_large: u64)
    requires
        amount_small <= amount_large,
    ensures
        scaled_output(reserve_out as int, amount_small as int) <= scaled_output(
            reserve_out as int,
            amount_large as int,
        ),
        native_output(reserve_out as int, amount_small as int) <= native_output(
            reserve_out as int,
            amount_large as int,
        ),
{
    let r = reserve_out as int;
    let a1 = amount_small as int;
    let a2 = amount_large as int;
    let b = BASE as int;
    let y = a2 * r * b;
    assert(y >= 0) by (nonlinear_arith)
        requires
            y == a2 * r * b,
            a2 >= 0,
            r >= 0,
            b >= 0,
    ;
    if a2 + r > 0 {
        vstd::arithmetic::div_mod::lemma_div_pos_is_pos(y, a2 + r);
    }
    if a1 + r > 0 {
        let x = a1 * r * b;
        assert(x >= 0) by (nonlinear_arith)
            requires
                x == a1 * r * b,
                a1 >= 0,
                r >= 0,
                b >= 0,
        ;
        assert(x * (a2 + r) <= y * (a1 + r)) by (nonlinear_arith)
            requires
                x == a1 * r * b,
                y == a2 * r * b,
                0 <= a1 <= a2,
                r >= 0,
                b >= 0,
        ;
        lemma_cross_floor(x, y, a1 + r, a2 + r);
    }
    vstd::arithmetic::div_mod::lemma_div_is_ordered(
        scaled_output(r, a1),
        scaled_output(r, a2),
        b,
    );
}

/// Prices a swap in native units: the BASE-scaled quote divided by BASE again.
/// This loses the sub-unit part, so small outputs can round to zero.
/// Fails with `ArithmeticOverflow` exactly when the scaled quote does.
pub fn quote_unscaled(reserve_in: u64, reserve_out: u64, amount_in: u64) -> (r: Result<u64, SettlementError>)
    ensures
        r is Ok <==> scaled_output(reserve_out as int, amount_in as int) <= u64::MAX,
        r is Ok ==> r->Ok_0 == native_output(reserve_out as int, amount_in as int),
        r is Err ==> r->Err_0 == SettlementError::ArithmeticOverflow,
{
    match quote(reserve_in, reserve_out, amount_in) {
        Ok(scaled) => Ok(scaled / BASE),
        Err(e) => Err(e),
    }
}

} // verus!
