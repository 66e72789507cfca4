use vstd::prelude::*;

use crate::constants::BPS;

verus! {

/// Output of a constant-product swap: `floor(amount_in * reserve_out / (reserve_in + amount_in))`.
pub open spec fn swap_out(amount_in: int, reserve_in: int, reserve_out: int) -> int {
    amount_in * reserve_out / (reserve_in + amount_in)
}

/// Output at the current spot ratio, without slippage: `floor(amount_in * reserve_out / reserve_in)`.
pub open spec fn spot_out(amount_in: int, reserve_in: int, reserve_out: int) -> int {
    amount_in * reserve_out / reserve_in
}

/// Fee held back from a fee-inclusive amount paid in: `floor(gross * fee_in_bps / (BPS + fee_in_bps))`.
pub open spec fn buy_fee(gross: int, fee_in_bps: int) -> int {
    gross * fee_in_bps / (BPS + fee_in_bps)
}

/// Fee taken in proportion from an amount paid out: `floor(gross * fee_in_bps / BPS)`.
pub open spec fn sell_fee(gross: int, fee_in_bps: int) -> int {
    gross * fee_in_bps / (BPS as int)
}

/// Floor division stays at or below `b` when the dividend is at most `b * d`.
pub proof fn lemma_div_at_most(a: int, b: int, d: int)
    requires
        0 <= a,
        0 < d,
        a <= b * d,
    ensures
        0 <= a / d <= b,
{
    vstd::arithmetic::div_mod::lemma_fundamental_div_mod(a, d);
    vstd::arithmetic::div_mod::lemma_div_pos_is_pos(a, d);
    let q = a / d;
    assert(q * d <= a) by (nonlinear_arith)
        requires
            a == d * q + a % d,
            0 <= a % d,
    ;
    assert(q <= b) by (nonlinear_arith)
        requires
            q * d <= b * d,
            0 < d,
    ;
}

/// Floor division stays below `b` when the dividend is below `b * d`.
pub proof fn lemma_div_below(a: int, b: int, d: int)
    requires
        0 <= a,
        0 < d,
        a < b * d,
    ensures
        a / d < b,
{
    vstd::arithmetic::div_mod::lemma_fundamental_div_mod(a, d);
    let q = a / d;
    assert(q * d <= a) by (nonlinear_arith)
        requires
            a == d * q + a % d,
            0 <= a % d,
    ;
    assert(q < b) by (nonlinear_arith)
        requires
            q * d < b * d,
            0 < d,
    ;
}

/// The product of two 64-bit values fits in 128 bits.
pub proof fn lemma_mul_fits_u128(a: int, b: int)
    requires
        0 <= a <= u64::MAX,
        0 <= b <= u64::MAX,
    ensures
        0 <= a * b <= u128::MAX,
{
    assert(0 <= a * b <= u64::MAX * u64::MAX) by (nonlinear_arith)
        requires
            0 <= a <= u64::MAX,
            0 <= b <= u64::MAX,
    ;
}

/// Tokens (or SOL) received for `amount_in` put into a constant-product pool.
pub fn get_amount_out(amount_in: &u128, reserve_in: &u128, reserve_out: &u128) -> (r: u64)
    requires
        *amount_in + *reserve_in > 0,
        *amount_in + *reserve_in <= u128::MAX,
        *amount_in * *reserve_out <= u128::MAX,
        swap_out(*amount_in as int, *reserve_in as int, *reserve_out as int) <= u64::MAX,
    ensures
        r == swap_out(*amount_in as int, *reserve_in as int, *reserve_out as int),
{
    (*amount_in * *reserve_out / (*amount_in + *reserve_in)) as u64
}

/// Amount received for `amount_in` at the pool's spot price.
pub fn get_amount_using_spot_price(amount_in: &u128, reserve_in: &u128, reserve_out: &u128) -> (r: u64)
    requires
        *reserve_in > 0,
        *amount_in * *reserve_out <= u128::MAX,
        spot_out(*amount_in as int, *reserve_in as int, *reserve_out as int) <= u64::MAX,
    ensures
        r == spot_out(*amount_in as int, *reserve_in as int, *reserve_out as int),
{
    ((*amount_in * *reserve_out) / *reserve_in) as u64
}

/// Fee on the SOL paid out by a sale.
pub fn calculate_sell_fee(amount: &u128, fee_in_bps: &u128) -> (r: u64)
    requires
        *amount * *fee_in_bps <= u128::MAX,
        sell_fee(*amount as int, *fee_in_bps as int) <= u64::MAX,
    ensures
        r == sell_fee(*amount as int, *fee_in_bps as int),
{
    ((*amount * *fee_in_bps) / BPS as u128) as u64
}

/// Fee held back from the SOL paid in by a purchase.
pub fn calculate_buy_fee(amount: &u128, fee_in_bps: &u128) -> (r: u64)
    requires
        *amount * *fee_in_bps <= u128::MAX,
        BPS + *fee_in_bps <= u128::MAX,
        buy_fee(*amount as int, *fee_in_bps as int) <= u64::MAX,
    ensures
        r == buy_fee(*amount as int, *fee_in_bps as int),
{
    (*amount * *fee_in_bps / (BPS as u128 + *fee_in_bps)) as u64
}

/// A swap quote is never negative, never exceeds the output reserve, and, when
/// both reserves hold something, stays strictly below the output reserve: a
/// finite reserve is never drained.
pub proof fn lemma_swap_out_below_reserve(amount_in: u128, reserve_in: u128, reserve_out: u128)
    requires
        amount_in + reserve_in > 0,
    ensures
        0 <= swap_out(amount_in as int, reserve_in as int, reserve_out as int) <= reserve_out,
        reserve_in > 0 && reserve_out > 0 ==> swap_out(
            amount_in as int,
            reserve_in as int,
            reserve_out as int,
        ) < reserve_out,
{
    let a = amount_in as int;
    let ri = reserve_in as int;
    let ro = reserve_out as int;
    assert(a * ro <= ro * (ri + a)) by (nonlinear_arith)
        requires
            0 <= a,
            0 <= ri,
            0 <= ro,
    ;
    assert(0 <= a * ro) by (nonlinear_arith)
        requires
            0 <= a,
            0 <= ro,
    ;
    lemma_div_at_most(a * ro, ro, ri + a);
    if ri > 0 && ro > 0 {
        assert(a * ro < ro * (ri + a)) by (nonlinear_arith)
            requires
                0 <= a,
                0 < ri,
                0 < ro,
        ;
        lemma_div_below(a * ro, ro, ri + a);
    }
}

/// The buy fee lies between zero and the gross amount, so the fee plus the net
/// amount that reaches the curve never exceeds the gross amount; and the fee
/// does not decrease when the gross amount or the rate grows.
pub proof fn lemma_buy_fee_bounded_and_monotone(gross: nat, gross2: nat, fee_in_bps: nat, fee_in_bps2: nat)
    ensures
        0 <= buy_fee(gross as int, fee_in_bps as int) <= gross,
        buy_fee(gross as int, fee_in_bps as int) + (gross - buy_fee(gross as int, fee_in_bps as int))
            <= gross,
        gross <= gross2 ==> buy_fee(gross as int, fee_in_bps as int) <= buy_fee(
            gross2 as int,
            fee_in_bps as int,
        ),
        fee_in_bps <= fee_in_bps2 ==> buy_fee(gross as int, fee_in_bps as int) <= buy_fee(
            gross as int,
            fee_in_bps2 as int,
        ),
{
    let g = gross as int;
    let f = fee_in_bps as int;
    let d = BPS + f;
    assert(0 <= g * f <= g * d) by (nonlinear_arith)
        requires
            0 <= g,
            0 <= f,
            d == 10000 + f,
    ;
    lemma_div_at_most(g * f, g, d);
    if gross <= gross2 {
        let g2 = gross2 as int;
        assert(g * f <= g2 * f) by (nonlinear_arith)
            requires
                0 <= g <= g2,
                0 <= f,
        ;
        vstd::arithmetic::div_mod::lemma_div_is_ordered(g * f, g2 * f, d);
    }
    if fee_in_bps <= fee_in_bps2 {
        let f2 = fee_in_bps2 as int;
        let d2 = BPS + f2;
        let q = g * f / d;
        vstd::arithmetic::div_mod::lemma_fundamental_div_mod(g * f, d);
        assert(q * d <= g * f) by (nonlinear_arith)
            requires
                g * f == d * q + (g * f) % d,
                0 <= (g * f) % d,
        ;
        // q * d2 == q * d + q * (f2 - f) <= g * f + g * (f2 - f) == g * f2
        assert(q * d2 <= g * f2) by (nonlinear_arith)
            requires
                q * d <= g * f,
                0 <= q <= g,
                0 <= g,
                0 <= f <= f2,
                d == 10000 + f,
                d2 == 10000 + f2,
        ;
        assert(0 <= g * f2) by (nonlinear_arith)
            requires
                0 <= g,
                0 <= f2,
        ;
        vstd::arithmetic::div_mod::lemma_div_is_ordered(q * d2, g * f2, d2);
        vstd::arithmetic::div_mod::lemma_div_by_multiple(q, d2);
    }
}

/// A sell fee at a rate of at most 100% never exceeds the amount it is taken from.
pub proof fn lemma_sell_fee_at_most_gross(gross: nat, fee_in_bps: nat)
    requires
        fee_in_bps <= BPS,
    ensures
        0 <= sell_fee(gross as int, fee_in_bps as int) <= gross,
{
    let g = gross as int;
    let f = fee_in_bps as int;
    assert(0 <= g * f <= g * 10000) by (nonlinear_arith)
        requires
            0 <= g,
            0 <= f <= 10000,
    ;
    lemma_div_at_most(g * f, g, 10000);
}

/// Nothing put in at the spot price gives nothing out.
pub proof fn lemma_spot_out_of_nothing(reserve_in: u128, reserve_out: u128)
    requires
        reserve_in > 0,
    ensures
        spot_out(0, reserve_in as int, reserve_out as int) == 0,
{
    assert(0 * (reserve_out as int) == 0);
    vstd::arithmetic::div_mod::lemma_div_of0(reserve_in as int);
}

} // verus!
