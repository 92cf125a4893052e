//! Quote math on the curve's reserves: exact integer arithmetic with floor
//! rounding toward zero, and slippage bounds that can only widen in the
//! caller's favour. Slippage is a fraction given in basis points, so a value
//! in `[0, 10000]` stands for a tolerance in `[0, 1]`.

use vstd::prelude::*;

verus! {

/// One computed quote: the expected output amount and the worst-acceptable
/// bound the instruction will carry. For a buy the bound is the most SOL
/// paid in; for a sell it is the least SOL accepted out.
#[derive(Clone, Copy, Debug, PartialEq, Eq, Structural)]
pub struct Quote {
    pub amount_out: u64,
    pub bound: u64,
}

/// Tokens bought for `amount_in_sol_lamports` at the reserve ratio: the exact
/// quotient `amount * virtual_token / virtual_sol`, floored, saturated at the
/// 64-bit limit.
pub open spec fn spec_buy_amount_out(
    amount_in_sol_lamports: u64,
    virtual_sol_reserves: u64,
    virtual_token_reserves: u64,
) -> u64
    recommends
        virtual_sol_reserves > 0,
{
    let q = (amount_in_sol_lamports * virtual_token_reserves) / (virtual_sol_reserves as int);
    if q > u64::MAX {
        u64::MAX
    } else {
        q as u64
    }
}

/// The most SOL a buyer accepts to pay: the input amount widened by the
/// slippage fraction, floored, saturated at the 64-bit limit.
pub open spec fn spec_max_sol_in(amount_in_sol_lamports: u64, slippage_bps: u64) -> u64 {
    let m = amount_in_sol_lamports + (amount_in_sol_lamports * slippage_bps) / 10000;
    if m > u64::MAX {
        u64::MAX
    } else {
        m as u64
    }
}

/// SOL received for `amount_in_tokens` at the reserve ratio: the exact
/// quotient `amount * virtual_sol / virtual_token`, floored, saturated at the
/// 64-bit limit.
pub open spec fn spec_sell_amount_out(
    amount_in_tokens: u64,
    virtual_sol_reserves: u64,
    virtual_token_reserves: u64,
) -> u64
    recommends
        virtual_token_reserves > 0,
{
    let q = (amount_in_tokens * virtual_sol_reserves) / (virtual_token_reserves as int);
    if q > u64::MAX {
        u64::MAX
    } else {
        q as u64
    }
}

/// The least SOL a seller accepts out: the raw quote narrowed by the slippage
/// fraction, floored.
pub open spec fn spec_min_sol_out(sol_amount_out: u64, slippage_bps: u64) -> u64 {
    (sol_amount_out - (sol_amount_out * slippage_bps) / 10000) as u64
}

/// A product of two 64-bit values fits in 128 bits.
proof fn lemma_u64_product_fits_u128(a: u64, b: u64)
    ensures
        0 <= (a as int) * (b as int),
        (a as int) * (b as int) <= (u64::MAX as int) * (u64::MAX as int),
        (a as int) * (b as int) <= u128::MAX,
{
    assert(0 <= (a as int) * (b as int) && (a as int) * (b as int) <= (u64::MAX as int) * (
    u64::MAX as int)) by (nonlinear_arith)
        requires
            a <= u64::MAX,
            b <= u64::MAX,
    ;
    assert((u64::MAX as int) * (u64::MAX as int) <= u128::MAX);
}

/// Law: the buy bound never undercuts the input — for any slippage fraction
/// in `[0, 1]`, `max_sol_in >= amount_in`.
pub proof fn lemma_buy_bound(amount_in_sol_lamports: u64, slippage_bps: u64)
    requires
        slippage_bps <= 10000,
    ensures
        spec_max_sol_in(amount_in_sol_lamports, slippage_bps) >= amount_in_sol_lamports,
{
}

/// Law: the sell bound never exceeds the raw quote — for any slippage
/// fraction in `[0, 1]`, `min_sol_out <= sol_amount_out`, and the
/// subtraction cannot underflow.
pub proof fn lemma_sell_bound(sol_amount_out: u64, slippage_bps: u64)
    requires
        slippage_bps <= 10000,
    ensures
        spec_min_sol_out(sol_amount_out, slippage_bps) <= sol_amount_out,
        (sol_amount_out * slippage_bps) / 10000 <= sol_amount_out,
{
    assert(sol_amount_out * slippage_bps <= sol_amount_out * 10000) by (nonlinear_arith)
        requires
            slippage_bps <= 10000,
    ;
    assert((sol_amount_out * slippage_bps) / 10000 <= (sol_amount_out * 10000) / 10000)
        by (nonlinear_arith)
        requires
            sol_amount_out * slippage_bps <= sol_amount_out * 10000,
    ;
    assert((sol_amount_out * 10000) / 10000 == sol_amount_out) by (nonlinear_arith);
}

/// Quote for buying with `amount_in_sol_lamports`: the token amount out at
/// the current reserves and the slippage-widened SOL bound.
pub fn buy_quote(
    amount_in_sol_lamports: u64,
    virtual_sol_reserves: u64,
    virtual_token_reserves: u64,
    slippage_bps: u64,
) -> (q: Quote)
    requires
        virtual_sol_reserves > 0,
        slippage_bps <= 10000,
    ensures
        q.amount_out == spec_buy_amount_out(
            amount_in_sol_lamports,
            virtual_sol_reserves,
            virtual_token_reserves,
        ),
        q.bound == spec_max_sol_in(amount_in_sol_lamports, slippage_bps),
        q.bound >= amount_in_sol_lamports,
{
    proof {
        lemma_u64_product_fits_u128(amount_in_sol_lamports, virtual_token_reserves);
        lemma_u64_product_fits_u128(amount_in_sol_lamports, slippage_bps);
        assert(((amount_in_sol_lamports as int) * (slippage_bps as int)) / 10000 <= (
        amount_in_sol_lamports as int) * (slippage_bps as int)) by (nonlinear_arith)
            requires
                0 <= (amount_in_sol_lamports as int) * (slippage_bps as int),
        ;
    }
    let wide: u128 = (amount_in_sol_lamports as u128) * (virtual_token_reserves as u128)
        / (virtual_sol_reserves as u128);
    let amount_out: u64 = if wide > u64::MAX as u128 {
        u64::MAX
    } else {
        wide as u64
    };
    let widened: u128 = (amount_in_sol_lamports as u128) + (amount_in_sol_lamports as u128) * (
    slippage_bps as u128) / 10000;
    let bound: u64 = if widened > u64::MAX as u128 {
        u64::MAX
    } else {
        widened as u64
    };
    proof {
        lemma_buy_bound(amount_in_sol_lamports, slippage_bps);
    }
    Quote { amount_out, bound }
}

/// Quote for selling `amount_in_tokens`: the SOL amount out at the current
/// reserves and the slippage-narrowed SOL bound.
pub fn sell_quote(
    amount_in_tokens: u64,
    virtual_sol_reserves: u64,
    virtual_token_reserves: u64,
    slippage_bps: u64,
) -> (q: Quote)
    requires
        virtual_token_reserves > 0,
        slippage_bps <= 10000,
    ensures
        q.amount_out == spec_sell_amount_out(
            amount_in_tokens,
            virtual_sol_reserves,
            virtual_token_reserves,
        ),
        q.bound == spec_min_sol_out(q.amount_out, slippage_bps),
        q.bound <= q.amount_out,
{
    proof {
        lemma_u64_product_fits_u128(amount_in_tokens, virtual_sol_reserves);
    }
    let wide: u128 = (amount_in_tokens as u128) * (virtual_sol_reserves as u128) / (
    virtual_token_reserves as u128);
    let amount_out: u64 = if wide > u64::MAX as u128 {
        u64::MAX
    } else {
        wide as u64
    };
    proof {
        lemma_sell_bound(amount_out, slippage_bps);
    }
    let cut: u128 = (amount_out as u128) * (slippage_bps as u128) / 10000;
    let bound: u64 = amount_out - (cut as u64);
    Quote { amount_out, bound }
}

} // verus!
