use vstd::prelude::*;
use crate::constants::{BURN_FEE_BP, CREATOR_FEE_BP, PLATFORM_FEE_BP, TOTAL_FEE_BP};
use crate::error::BonkrError;
use crate::math::{fee_share, product, spec_bps_share};
use crate::state::TokenState;

verus! {

/// What a buy of a given gross amount does to the curve and hands to the buyer.
#[derive(Clone, Copy, Debug, PartialEq, Eq, Structural)]
pub struct BuyQuote {
    /// Share of the gross amount paid to the platform.
    pub platform_fee: u64,
    /// Share of the gross amount accrued to the creator.
    pub creator_fee: u64,
    /// What is left of the gross amount and enters the curve.
    pub sol_to_reserve: u64,
    pub new_virtual_sol: u64,
    pub new_virtual_token: u64,
    /// Tokens the curve releases.
    pub tokens_out: u64,
    /// Part of the released tokens that is burned.
    pub burn_amount: u64,
    /// Part of the released tokens that reaches the buyer.
    pub tokens_to_buyer: u64,
}

/// What a sale of a given token amount does to the curve and pays to the seller.
#[derive(Clone, Copy, Debug, PartialEq, Eq, Structural)]
pub struct SellQuote {
    /// Base currency the curve releases.
    pub sol_out_gross: u64,
    /// Share of the gross proceeds paid to the platform.
    pub platform_fee: u64,
    /// Share of the gross proceeds accrued to the creator.
    pub creator_fee: u64,
    /// Gross proceeds less the combined fee.
    pub sol_to_seller: u64,
    /// Part of the tokens handed in that is burned.
    pub burn_amount: u64,
    pub new_virtual_sol: u64,
    pub new_virtual_token: u64,
}

/// The part of a gross payment that enters the curve: the payment less the platform's and the
/// creator's share.
pub open spec fn buy_sol_to_reserve(gross: int) -> int {
    gross - spec_bps_share(gross, PLATFORM_FEE_BP as int) - spec_bps_share(
        gross,
        CREATOR_FEE_BP as int,
    )
}

/// The reserve that keeps the product `sol * token` once the other side has become `other_side`,
/// rounded down.
pub open spec fn counter_reserve(sol: int, token: int, other_side: int) -> int {
    (sol * token) / other_side
}

/// The quote of a buy on a curve at `(virtual_sol, virtual_token)` with `real_token` tokens left.
pub open spec fn spec_quote_buy(
    virtual_sol: u64,
    virtual_token: u64,
    real_token: u64,
    gross: u64,
    min_tokens_out: u64,
) -> Result<BuyQuote, BonkrError> {
    let to_reserve = buy_sol_to_reserve(gross as int);
    let new_sol = virtual_sol + to_reserve;
    let new_token = counter_reserve(virtual_sol as int, virtual_token as int, new_sol);
    let tokens_out = virtual_token - new_token;
    let burn = spec_bps_share(tokens_out, BURN_FEE_BP as int);
    if new_sol > u64::MAX || new_sol == 0 {
        Err(BonkrError::MathOverflow)
    } else if tokens_out < min_tokens_out {
        Err(BonkrError::SlippageExceeded)
    } else if tokens_out > real_token {
        Err(BonkrError::InsufficientTokens)
    } else {
        Ok(
            BuyQuote {
                platform_fee: spec_bps_share(gross as int, PLATFORM_FEE_BP as int) as u64,
                creator_fee: spec_bps_share(gross as int, CREATOR_FEE_BP as int) as u64,
                sol_to_reserve: to_reserve as u64,
                new_virtual_sol: new_sol as u64,
                new_virtual_token: new_token as u64,
                tokens_out: tokens_out as u64,
                burn_amount: burn as u64,
                tokens_to_buyer: (tokens_out - burn) as u64,
            },
        )
    }
}

/// The quote of a sale on a curve at `(virtual_sol, virtual_token)` with `real_sol` base currency
/// left.
pub open spec fn spec_quote_sell(
    virtual_sol: u64,
    virtual_token: u64,
    real_sol: u64,
    tokens_in: u64,
    min_sol_out: u64,
) -> Result<SellQuote, BonkrError> {
    let new_token = virtual_token + tokens_in;
    let new_sol = counter_reserve(virtual_sol as int, virtual_token as int, new_token);
    let gross = virtual_sol - new_sol;
    let to_seller = gross - spec_bps_share(gross, TOTAL_FEE_BP as int);
    if new_token > u64::MAX || new_token == 0 {
        Err(BonkrError::MathOverflow)
    } else if gross > real_sol {
        Err(BonkrError::InsufficientLiquidity)
    } else if to_seller < min_sol_out {
        Err(BonkrError::SlippageExceeded)
    } else {
        Ok(
            SellQuote {
                sol_out_gross: gross as u64,
                platform_fee: spec_bps_share(gross, PLATFORM_FEE_BP as int) as u64,
                creator_fee: spec_bps_share(gross, CREATOR_FEE_BP as int) as u64,
                sol_to_seller: to_seller as u64,
                burn_amount: spec_bps_share(tokens_in as int, BURN_FEE_BP as int) as u64,
                new_virtual_sol: new_sol as u64,
                new_virtual_token: new_token as u64,
            },
        )
    }
}

/// Growing one side of the curve never grows the other: the counter-reserve of a side that is at
/// least `sol` is at most `token`, and the product it leaves is within one `other_side` of the
/// product it started from.
pub proof fn lemma_counter_reserve_bounds(sol: int, token: int, other_side: int)
    requires
        0 <= sol <= other_side,
        0 <= token,
        0 < other_side,
    ensures
        0 <= counter_reserve(sol, token, other_side) <= token,
        sol * token - other_side < other_side * counter_reserve(sol, token, other_side) <= sol
            * token,
{
    let k = sol * token;
    let q = k / other_side;
    assert(0 <= k <= other_side * token) by (nonlinear_arith)
        requires
            k == sol * token,
            0 <= sol <= other_side,
            0 <= token,
    ;
    assert(k == other_side * q + k % other_side && 0 <= k % other_side < other_side) by {
        vstd::arithmetic::div_mod::lemma_fundamental_div_mod(k, other_side);
        vstd::arithmetic::div_mod::lemma_mod_bound(k, other_side);
    }
    assert(0 <= q <= token) by (nonlinear_arith)
        requires
            0 <= k <= other_side * token,
            k == other_side * q + k % other_side,
            0 <= k % other_side < other_side,
            0 < other_side,
            0 <= token,
    ;
}

/// Prices a buy of `gross_base_in` on the market's curve.
///
/// The platform's and the creator's shares are taken from the payment first; what is left moves
/// the curve. The tokens released are the difference between the old token reserve and the
/// rounded-down reserve that keeps the product. A quote is refused when the new reserve does not
/// fit, when fewer tokens come out than `min_tokens_out`, or when more come out than the market
/// holds, in that order.
pub fn quote_buy(state: &TokenState, gross_base_in: u64, min_tokens_out: u64) -> (quote: Result<
    BuyQuote,
    BonkrError,
>)
    ensures
        quote == spec_quote_buy(
            state.virtual_sol_reserve,
            state.virtual_token_reserve,
            state.real_token_reserve,
            gross_base_in,
            min_tokens_out,
        ),
{
    let platform_fee = fee_share(gross_base_in, PLATFORM_FEE_BP);
    let creator_fee = fee_share(gross_base_in, CREATOR_FEE_BP);
    let sol_to_reserve = gross_base_in - platform_fee - creator_fee;
    let new_virtual_sol = match state.virtual_sol_reserve.checked_add(sol_to_reserve) {
        Some(sum) => sum,
        None => { return Err(BonkrError::MathOverflow); },
    };
    if new_virtual_sol == 0 {
        return Err(BonkrError::MathOverflow);
    }
    proof {
        lemma_counter_reserve_bounds(
            state.virtual_sol_reserve as int,
            state.virtual_token_reserve as int,
            new_virtual_sol as int,
        );
    }
    let k = product(state.virtual_sol_reserve, state.virtual_token_reserve);
    let new_virtual_token = (k / (new_virtual_sol as u128)) as u64;
    let tokens_out = state.virtual_token_reserve - new_virtual_token;
    if tokens_out < min_tokens_out {
        return Err(BonkrError::SlippageExceeded);
    }
    if tokens_out > state.real_token_reserve {
        return Err(BonkrError::InsufficientTokens);
    }
    let burn_amount = fee_share(tokens_out, BURN_FEE_BP);
    Ok(
        BuyQuote {
            platform_fee,
            creator_fee,
            sol_to_reserve,
            new_virtual_sol,
            new_virtual_token,
            tokens_out,
            burn_amount,
            tokens_to_buyer: tokens_out - burn_amount,
        },
    )
}

/// Prices a sale of `tokens_in` on the market's curve.
///
/// The tokens move the curve; the base currency released is the difference between the old
/// base reserve and the rounded-down reserve that keeps the product. The seller receives the
/// gross proceeds less the combined fee. A quote is refused when the new reserve does not fit,
/// when the proceeds exceed what the market holds, or when the seller would receive less than
/// `min_sol_out`, in that order.
pub fn quote_sell(state: &TokenState, tokens_in: u64, min_sol_out: u64) -> (quote: Result<
    SellQuote,
    BonkrError,
>)
    ensures
        quote == spec_quote_sell(
            state.virtual_sol_reserve,
            state.virtual_token_reserve,
            state.real_sol_reserve,
            tokens_in,
            min_sol_out,
        ),
        quote matches Ok(q) ==> q.sol_to_seller <= q.sol_out_gross <= state.real_sol_reserve,
{
    let new_virtual_token = match state.virtual_token_reserve.checked_add(tokens_in) {
        Some(sum) => sum,
        None => { return Err(BonkrError::MathOverflow); },
    };
    if new_virtual_token == 0 {
        return Err(BonkrError::MathOverflow);
    }
    proof {
        vstd::arithmetic::mul::lemma_mul_is_commutative(
            state.virtual_sol_reserve as int,
            state.virtual_token_reserve as int,
        );
        lemma_counter_reserve_bounds(
            state.virtual_token_reserve as int,
            state.virtual_sol_reserve as int,
            new_virtual_token as int,
        );
    }
    let k = product(state.virtual_sol_reserve, state.virtual_token_reserve);
    let new_virtual_sol = (k / (new_virtual_token as u128)) as u64;
    let sol_out_gross = state.virtual_sol_reserve - new_virtual_sol;
    if sol_out_gross > state.real_sol_reserve {
        return Err(BonkrError::InsufficientLiquidity);
    }
    let platform_fee = fee_share(sol_out_gross, PLATFORM_FEE_BP);
    let creator_fee = fee_share(sol_out_gross, CREATOR_FEE_BP);
    let burn_amount = fee_share(tokens_in, BURN_FEE_BP);
    let sol_to_seller = sol_out_gross - fee_share(sol_out_gross, TOTAL_FEE_BP);
    if sol_to_seller < min_sol_out {
        return Err(BonkrError::SlippageExceeded);
    }
    Ok(
        SellQuote {
            sol_out_gross,
            platform_fee,
            creator_fee,
            sol_to_seller,
            burn_amount,
            new_virtual_sol,
            new_virtual_token,
        },
    )
}

} // verus!
