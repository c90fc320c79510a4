use vstd::prelude::*;
use crate::curve::{buy_sol_to_reserve, lemma_counter_reserve_bounds};
use crate::error::BonkrError;
use crate::events::TokenGraduated;
use crate::identity::Pubkey;
use crate::math::lemma_bps_share_bounded;
use crate::state::{Reserves, TokenState};
use crate::trading::{spec_buy, spec_buy_reserves, spec_sell, spec_sell_reserves, BuyReceipt, SellReceipt};

verus! {

/// A buy never raises the product of the virtual reserves, and lowers it by less than the new
/// base reserve: the token reserve is the product divided by the new base reserve, rounded
/// down.
pub proof fn buy_product_bounds(before: Reserves, gross: u64, min_tokens_out: u64)
    requires
        spec_buy_reserves(before, gross, min_tokens_out) is Ok,
    ensures
        ({
            let after = spec_buy_reserves(before, gross, min_tokens_out).unwrap().0;
            before.curve_product() - after.virtual_sol_reserve < after.curve_product()
                <= before.curve_product()
        }),
{
    let to_reserve = buy_sol_to_reserve(gross as int);
    lemma_bps_share_bounded(gross as int, 100);
    lemma_bps_share_bounded(gross as int, 50);
    lemma_counter_reserve_bounds(
        before.virtual_sol_reserve as int,
        before.virtual_token_reserve as int,
        before.virtual_sol_reserve + to_reserve,
    );
}

/// A buy keeps the product of the virtual reserves wherever the new base reserve divides the
/// old product; elsewhere rounding lowers it.
pub proof fn buy_keeps_product_when_exact(before: Reserves, gross: u64, min_tokens_out: u64)
    requires
        spec_buy_reserves(before, gross, min_tokens_out) is Ok,
        before.curve_product() % (before.virtual_sol_reserve + buy_sol_to_reserve(gross as int))
            == 0,
    ensures
        spec_buy_reserves(before, gross, min_tokens_out).unwrap().0.curve_product()
            >= before.curve_product(),
{
    let to_reserve = buy_sol_to_reserve(gross as int);
    let new_sol = before.virtual_sol_reserve + to_reserve;
    lemma_bps_share_bounded(gross as int, 100);
    lemma_bps_share_bounded(gross as int, 50);
    lemma_counter_reserve_bounds(
        before.virtual_sol_reserve as int,
        before.virtual_token_reserve as int,
        new_sol,
    );
    vstd::arithmetic::div_mod::lemma_fundamental_div_mod(before.curve_product(), new_sol);
}

/// A sale never raises the product of the virtual reserves, and lowers it by less than the new
/// token reserve.
pub proof fn sell_product_bounds(before: Reserves, tokens_in: u64, min_sol_out: u64)
    requires
        spec_sell_reserves(before, tokens_in, min_sol_out) is Ok,
    ensures
        ({
            let after = spec_sell_reserves(before, tokens_in, min_sol_out).unwrap().0;
            before.curve_product() - after.virtual_token_reserve < after.curve_product()
                <= before.curve_product()
        }),
{
    let new_token = before.virtual_token_reserve + tokens_in;
    vstd::arithmetic::mul::lemma_mul_is_commutative(
        before.virtual_sol_reserve as int,
        before.virtual_token_reserve as int,
    );
    lemma_counter_reserve_bounds(
        before.virtual_token_reserve as int,
        before.virtual_sol_reserve as int,
        new_token,
    );
    let after = spec_sell_reserves(before, tokens_in, min_sol_out).unwrap().0;
    vstd::arithmetic::mul::lemma_mul_is_commutative(
        after.virtual_sol_reserve as int,
        after.virtual_token_reserve as int,
    );
}

/// A seller receives no more than the curve releases, and the curve releases no more than the
/// market held.
pub proof fn sell_pays_within_reserve(before: Reserves, tokens_in: u64, min_sol_out: u64)
    requires
        spec_sell_reserves(before, tokens_in, min_sol_out) is Ok,
    ensures
        ({
            let (after, quote) = spec_sell_reserves(before, tokens_in, min_sol_out).unwrap();
            &&& quote.sol_to_seller <= quote.sol_out_gross <= before.real_sol_reserve
            &&& after.real_sol_reserve == before.real_sol_reserve - quote.sol_out_gross
        }),
{
    let new_token = before.virtual_token_reserve + tokens_in;
    vstd::arithmetic::mul::lemma_mul_is_commutative(
        before.virtual_sol_reserve as int,
        before.virtual_token_reserve as int,
    );
    lemma_counter_reserve_bounds(
        before.virtual_token_reserve as int,
        before.virtual_sol_reserve as int,
        new_token,
    );
    let quote = spec_sell_reserves(before, tokens_in, min_sol_out).unwrap().1;
    lemma_bps_share_bounded(quote.sol_out_gross as int, 200);
}

/// A buy keeps the tokens held and the tokens burned within the fixed supply: what is burned
/// is part of what leaves the market's holding.
pub proof fn buy_preserves_supply_bound(before: Reserves, gross: u64, min_tokens_out: u64)
    requires
        before.supply_bounded(),
        spec_buy_reserves(before, gross, min_tokens_out) is Ok,
    ensures
        spec_buy_reserves(before, gross, min_tokens_out).unwrap().0.supply_bounded(),
{
    let to_reserve = buy_sol_to_reserve(gross as int);
    lemma_bps_share_bounded(gross as int, 100);
    lemma_bps_share_bounded(gross as int, 50);
    lemma_counter_reserve_bounds(
        before.virtual_sol_reserve as int,
        before.virtual_token_reserve as int,
        before.virtual_sol_reserve + to_reserve,
    );
    let quote = spec_buy_reserves(before, gross, min_tokens_out).unwrap().1;
    lemma_bps_share_bounded(quote.tokens_out as int, 50);
}

/// A sale of tokens that were in circulation keeps the tokens held and the tokens burned within
/// the fixed supply: together they grow by exactly what is sold.
pub proof fn sell_preserves_supply_bound(before: Reserves, tokens_in: u64, min_sol_out: u64)
    requires
        before.supply_bounded(),
        tokens_in <= before.circulating(),
        spec_sell_reserves(before, tokens_in, min_sol_out) is Ok,
    ensures
        ({
            let after = spec_sell_reserves(before, tokens_in, min_sol_out).unwrap().0;
            &&& after.supply_bounded()
            &&& after.real_token_reserve + after.total_burned == before.real_token_reserve
                + before.total_burned + tokens_in
        }),
{
    lemma_bps_share_bounded(tokens_in as int, 50);
}

/// Trading never lowers what has accrued to the creator, nor the volume, nor the burn count.
pub proof fn trading_only_accrues(before: Reserves, amount: u64, floor: u64)
    ensures
        spec_buy_reserves(before, amount, floor) matches Ok((after, _)) ==> {
            &&& after.creator_fees_accrued >= before.creator_fees_accrued
            &&& after.volume >= before.volume
            &&& after.total_burned >= before.total_burned
        },
        spec_sell_reserves(before, amount, floor) matches Ok((after, _)) ==> {
            &&& after.creator_fees_accrued >= before.creator_fees_accrued
            &&& after.volume >= before.volume
            &&& after.total_burned >= before.total_burned
        },
{
    if spec_buy_reserves(before, amount, floor) is Ok {
        let quote = spec_buy_reserves(before, amount, floor).unwrap().1;
        lemma_bps_share_bounded(amount as int, 100);
        lemma_bps_share_bounded(amount as int, 50);
        lemma_counter_reserve_bounds(
            before.virtual_sol_reserve as int,
            before.virtual_token_reserve as int,
            before.virtual_sol_reserve + buy_sol_to_reserve(amount as int),
        );
        lemma_bps_share_bounded(quote.tokens_out as int, 50);
    }
    if spec_sell_reserves(before, amount, floor) is Ok {
        let quote = spec_sell_reserves(before, amount, floor).unwrap().1;
        vstd::arithmetic::mul::lemma_mul_is_commutative(
            before.virtual_sol_reserve as int,
            before.virtual_token_reserve as int,
        );
        lemma_counter_reserve_bounds(
            before.virtual_token_reserve as int,
            before.virtual_sol_reserve as int,
            before.virtual_token_reserve + amount,
        );
        lemma_bps_share_bounded(quote.sol_out_gross as int, 50);
        lemma_bps_share_bounded(amount as int, 50);
    }
}

/// Once a market has graduated, a buy or a sale on it is refused: with the graduation error
/// where neither the factory nor the market is paused, with the error of the pause otherwise.
/// A trade that succeeds never clears the flag.
pub proof fn graduated_market_refuses_trades(
    factory_paused: bool,
    sol_price_usd: u64,
    state: TokenState,
    user: Pubkey,
    amount: u64,
    floor: u64,
)
    ensures
        state.is_graduated ==> spec_buy(factory_paused, sol_price_usd, state, user, amount, floor)
            == Err::<(TokenState, BuyReceipt, Option<TokenGraduated>), BonkrError>(
            if factory_paused {
                BonkrError::FactoryPaused
            } else if state.is_paused {
                BonkrError::TokenPaused
            } else {
                BonkrError::TokenGraduated
            },
        ),
        state.is_graduated ==> spec_sell(factory_paused, sol_price_usd, state, user, amount, floor)
            == Err::<(TokenState, SellReceipt, Option<TokenGraduated>), BonkrError>(
            if factory_paused {
                BonkrError::FactoryPaused
            } else if state.is_paused {
                BonkrError::TokenPaused
            } else {
                BonkrError::TokenGraduated
            },
        ),
        spec_buy(factory_paused, sol_price_usd, state, user, amount, floor) matches Ok(
            (after, _, notice),
        ) ==> (notice.is_some() <==> after.is_graduated),
        spec_sell(factory_paused, sol_price_usd, state, user, amount, floor) matches Ok(
            (after, _, notice),
        ) ==> (notice.is_some() <==> after.is_graduated),
{
}

/// Whenever `whole * divisor` is at most `amount`, the rounded-down quotient is at least
/// `whole`.
proof fn lemma_quotient_at_least(amount: int, divisor: int, whole: int)
    requires
        divisor > 0,
        whole * divisor <= amount,
    ensures
        whole <= amount / divisor,
{
    vstd::arithmetic::div_mod::lemma_fundamental_div_mod(amount, divisor);
    vstd::arithmetic::div_mod::lemma_mod_bound(amount, divisor);
    let q = amount / divisor;
    assert(whole <= q) by (nonlinear_arith)
        requires
            divisor > 0,
            whole * divisor <= amount,
            amount == divisor * q + amount % divisor,
            0 <= amount % divisor < divisor,
    ;
}

/// Selling at once the tokens that a buy delivered releases at most one base unit more than
/// the buy put into the curve, as long as the curve's base reserve after the buy does not
/// exceed its token reserve before it.
pub proof fn round_trip_releases_at_most_one_more(
    before: Reserves,
    gross: u64,
    min_tokens_out: u64,
    min_sol_out: u64,
)
    requires
        spec_buy_reserves(before, gross, min_tokens_out) is Ok,
        before.virtual_sol_reserve + buy_sol_to_reserve(gross as int)
            <= before.virtual_token_reserve,
        spec_sell_reserves(
            spec_buy_reserves(before, gross, min_tokens_out).unwrap().0,
            spec_buy_reserves(before, gross, min_tokens_out).unwrap().1.tokens_to_buyer,
            min_sol_out,
        ) is Ok,
    ensures
        ({
            let (bought, buy_quote) = spec_buy_reserves(before, gross, min_tokens_out).unwrap();
            let sell_quote = spec_sell_reserves(
                bought,
                buy_quote.tokens_to_buyer,
                min_sol_out,
            ).unwrap().1;
            sell_quote.sol_out_gross <= buy_quote.sol_to_reserve + 1
        }),
{
    let (bought, buy_quote) = spec_buy_reserves(before, gross, min_tokens_out).unwrap();
    let vs = before.virtual_sol_reserve as int;
    let vt = before.virtual_token_reserve as int;
    let new_sol = bought.virtual_sol_reserve as int;
    let mid_token = bought.virtual_token_reserve as int;
    let tokens = buy_quote.tokens_to_buyer as int;
    lemma_bps_share_bounded(gross as int, 100);
    lemma_bps_share_bounded(gross as int, 50);
    lemma_counter_reserve_bounds(vs, vt, new_sol);
    lemma_bps_share_bounded(buy_quote.tokens_out as int, 50);
    let back_token = mid_token + tokens;
    assert(0 < back_token <= vt);
    if vs > 0 {
        let k1 = new_sol * mid_token;
        assert((vs - 1) * back_token <= k1) by (nonlinear_arith)
            requires
                vs * vt - new_sol < k1,
                new_sol <= vt,
                0 < back_token <= vt,
                vs >= 1,
        ;
        lemma_quotient_at_least(k1, back_token, vs - 1);
    } else {
        lemma_counter_reserve_bounds(mid_token, new_sol, back_token);
    }
    vstd::arithmetic::mul::lemma_mul_is_commutative(new_sol, mid_token);
    lemma_counter_reserve_bounds(mid_token, new_sol, back_token);
}

/// Selling at once the tokens that a buy delivered releases no more than the buy put into the
/// curve, wherever the burn, valued at the base reserve before the buy, covers what rounding
/// took from the product of the reserves.
pub proof fn round_trip_releases_no_more_when_burn_covers_rounding(
    before: Reserves,
    gross: u64,
    min_tokens_out: u64,
    min_sol_out: u64,
)
    requires
        spec_buy_reserves(before, gross, min_tokens_out) is Ok,
        before.curve_product() % (before.virtual_sol_reserve + buy_sol_to_reserve(gross as int))
            <= before.virtual_sol_reserve * spec_buy_reserves(
            before,
            gross,
            min_tokens_out,
        ).unwrap().1.burn_amount,
        spec_sell_reserves(
            spec_buy_reserves(before, gross, min_tokens_out).unwrap().0,
            spec_buy_reserves(before, gross, min_tokens_out).unwrap().1.tokens_to_buyer,
            min_sol_out,
        ) is Ok,
    ensures
        ({
            let (bought, buy_quote) = spec_buy_reserves(before, gross, min_tokens_out).unwrap();
            let sell_quote = spec_sell_reserves(
                bought,
                buy_quote.tokens_to_buyer,
                min_sol_out,
            ).unwrap().1;
            sell_quote.sol_out_gross <= buy_quote.sol_to_reserve
        }),
{
    let (bought, buy_quote) = spec_buy_reserves(before, gross, min_tokens_out).unwrap();
    let vs = before.virtual_sol_reserve as int;
    let vt = before.virtual_token_reserve as int;
    let new_sol = bought.virtual_sol_reserve as int;
    let mid_token = bought.virtual_token_reserve as int;
    let burn = buy_quote.burn_amount as int;
    let k = vs * vt;
    lemma_bps_share_bounded(gross as int, 100);
    lemma_bps_share_bounded(gross as int, 50);
    lemma_counter_reserve_bounds(vs, vt, new_sol);
    lemma_bps_share_bounded(buy_quote.tokens_out as int, 50);
    vstd::arithmetic::div_mod::lemma_fundamental_div_mod(k, new_sol);
    let back_token = mid_token + buy_quote.tokens_to_buyer;
    assert(back_token == vt - burn);
    let k1 = new_sol * mid_token;
    assert(vs * back_token <= k1) by (nonlinear_arith)
        requires
            back_token == vt - burn,
            k == vs * vt,
            k == new_sol * mid_token + k % new_sol,
            k1 == new_sol * mid_token,
            k % new_sol <= vs * burn,
    ;
    lemma_quotient_at_least(k1, back_token, vs);
    vstd::arithmetic::mul::lemma_mul_is_commutative(new_sol, mid_token);
    lemma_counter_reserve_bounds(mid_token, new_sol, back_token);
}

/// Buying and selling at once the tokens received pays the seller less than the buy cost:
/// fees only destroy value. This holds for a buy of at least fifty base units whose burn,
/// valued at the base reserve before the buy, covers what rounding took from the product of
/// the reserves; and for a buy of at least ninety-nine base units that leaves the curve's base
/// reserve no larger than its token reserve was. Smaller buys can pay back what they cost,
/// because every fee on them rounds down to nothing.
pub proof fn round_trip_loses_value(
    before: Reserves,
    gross: u64,
    min_tokens_out: u64,
    min_sol_out: u64,
)
    requires
        spec_buy_reserves(before, gross, min_tokens_out) is Ok,
        spec_sell_reserves(
            spec_buy_reserves(before, gross, min_tokens_out).unwrap().0,
            spec_buy_reserves(before, gross, min_tokens_out).unwrap().1.tokens_to_buyer,
            min_sol_out,
        ) is Ok,
        ({
            ||| gross >= 50 && before.curve_product() % (before.virtual_sol_reserve
                + buy_sol_to_reserve(gross as int)) <= before.virtual_sol_reserve
                * spec_buy_reserves(before, gross, min_tokens_out).unwrap().1.burn_amount
            ||| gross >= 99 && before.virtual_sol_reserve + buy_sol_to_reserve(gross as int)
                <= before.virtual_token_reserve
        }),
    ensures
        ({
            let (bought, buy_quote) = spec_buy_reserves(before, gross, min_tokens_out).unwrap();
            let sell_quote = spec_sell_reserves(
                bought,
                buy_quote.tokens_to_buyer,
                min_sol_out,
            ).unwrap().1;
            sell_quote.sol_to_seller < gross
        }),
{
    let (bought, buy_quote) = spec_buy_reserves(before, gross, min_tokens_out).unwrap();
    let sell_quote = spec_sell_reserves(bought, buy_quote.tokens_to_buyer, min_sol_out).unwrap().1;
    lemma_bps_share_bounded(gross as int, 100);
    lemma_bps_share_bounded(gross as int, 50);
    lemma_bps_share_bounded(sell_quote.sol_out_gross as int, 200);
    sell_pays_within_reserve(bought, buy_quote.tokens_to_buyer, min_sol_out);
    if gross >= 50 && before.curve_product() % (before.virtual_sol_reserve + buy_sol_to_reserve(
        gross as int,
    )) <= before.virtual_sol_reserve * buy_quote.burn_amount {
        round_trip_releases_no_more_when_burn_covers_rounding(
            before,
            gross,
            min_tokens_out,
            min_sol_out,
        );
    } else {
        round_trip_releases_at_most_one_more(before, gross, min_tokens_out, min_sol_out);
    }
}

} // verus!
