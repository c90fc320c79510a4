use vstd::prelude::*;
use crate::accounts::Trade;
use crate::constants::GRADUATION_USD;
use crate::curve::{quote_buy, quote_sell, spec_quote_buy, spec_quote_sell, BuyQuote, SellQuote};
use crate::error::BonkrError;
use crate::events::{TokenBought, TokenGraduated, TokenSold};
use crate::graduation::{market_cap_usd, spec_check_graduation};
use crate::identity::Pubkey;
use crate::state::{Reserves, TokenState};

verus! {

/// The movements of value that settle a buy, and its notification.
#[derive(Clone, Copy, Debug, PartialEq, Eq)]
pub struct BuyReceipt {
    /// Base currency the buyer pays into the market's vault: what enters the curve and the
    /// creator's share.
    pub vault_deposit: u64,
    /// Base currency the buyer pays to the platform's recipient.
    pub platform_fee: u64,
    /// Tokens the market's vault hands to the buyer.
    pub tokens_to_buyer: u64,
    pub bought: TokenBought,
}

/// The movements of value that settle a sale, and its notification.
#[derive(Clone, Copy, Debug, PartialEq, Eq)]
pub struct SellReceipt {
    /// Tokens the seller hands to the market's vault.
    pub tokens_from_seller: u64,
    /// Tokens destroyed out of the market's vault.
    pub burn_amount: u64,
    /// Base currency the market's vault pays to the platform's recipient.
    pub platform_fee: u64,
    /// Base currency the market's vault pays to the seller.
    pub sol_to_seller: u64,
    pub sold: TokenSold,
}

/// The quantities of a market after a quoted buy of `gross` has been booked.
pub open spec fn spec_settle_buy(before: Reserves, quote: BuyQuote, gross: u64) -> Result<
    Reserves,
    BonkrError,
> {
    let real_sol = before.real_sol_reserve + quote.sol_to_reserve + quote.creator_fee;
    let burned = before.total_burned + quote.burn_amount;
    let volume = before.volume + gross;
    let accrued = before.creator_fees_accrued + quote.creator_fee;
    if real_sol > u64::MAX || burned > u64::MAX || volume > u64::MAX || accrued > u64::MAX {
        Err(BonkrError::MathOverflow)
    } else {
        Ok(
            Reserves {
                virtual_sol_reserve: quote.new_virtual_sol,
                virtual_token_reserve: quote.new_virtual_token,
                real_sol_reserve: real_sol as u64,
                real_token_reserve: (before.real_token_reserve - quote.tokens_out) as u64,
                total_burned: burned as u64,
                volume: volume as u64,
                creator_fees_accrued: accrued as u64,
            },
        )
    }
}

/// The quantities of a market after a quoted sale of `tokens_in` has been booked.
pub open spec fn spec_settle_sell(before: Reserves, quote: SellQuote, tokens_in: u64) -> Result<
    Reserves,
    BonkrError,
> {
    let real_token = before.real_token_reserve + (tokens_in - quote.burn_amount);
    let burned = before.total_burned + quote.burn_amount;
    let volume = before.volume + quote.sol_out_gross;
    let accrued = before.creator_fees_accrued + quote.creator_fee;
    if real_token > u64::MAX || burned > u64::MAX || volume > u64::MAX || accrued > u64::MAX {
        Err(BonkrError::MathOverflow)
    } else {
        Ok(
            Reserves {
                virtual_sol_reserve: quote.new_virtual_sol,
                virtual_token_reserve: quote.new_virtual_token,
                real_sol_reserve: (before.real_sol_reserve - quote.sol_out_gross) as u64,
                real_token_reserve: real_token as u64,
                total_burned: burned as u64,
                volume: volume as u64,
                creator_fees_accrued: accrued as u64,
            },
        )
    }
}

/// The receipt of a buy that was quoted as `quote`.
pub open spec fn buy_receipt(mint: Pubkey, buyer: Pubkey, gross: u64, quote: BuyQuote) -> BuyReceipt {
    BuyReceipt {
        vault_deposit: (quote.sol_to_reserve + quote.creator_fee) as u64,
        platform_fee: quote.platform_fee,
        tokens_to_buyer: quote.tokens_to_buyer,
        bought: TokenBought {
            mint,
            buyer,
            sol_amount: gross,
            token_amount: quote.tokens_to_buyer,
        },
    }
}

/// The receipt of a sale that was quoted as `quote`.
pub open spec fn sell_receipt(mint: Pubkey, seller: Pubkey, tokens_in: u64, quote: SellQuote) -> SellReceipt {
    SellReceipt {
        tokens_from_seller: tokens_in,
        burn_amount: quote.burn_amount,
        platform_fee: quote.platform_fee,
        sol_to_seller: quote.sol_to_seller,
        sold: TokenSold {
            mint,
            seller,
            token_amount: tokens_in,
            sol_amount: quote.sol_to_seller,
        },
    }
}

/// A buy on given quantities: the quantities after it and its quote.
pub open spec fn spec_buy_reserves(before: Reserves, gross: u64, min_tokens_out: u64) -> Result<
    (Reserves, BuyQuote),
    BonkrError,
> {
    match spec_quote_buy(
        before.virtual_sol_reserve,
        before.virtual_token_reserve,
        before.real_token_reserve,
        gross,
        min_tokens_out,
    ) {
        Err(e) => Err(e),
        Ok(quote) => match spec_settle_buy(before, quote, gross) {
            Err(e) => Err(e),
            Ok(after) => Ok((after, quote)),
        },
    }
}

/// A sale on given quantities: the quantities after it and its quote.
pub open spec fn spec_sell_reserves(before: Reserves, tokens_in: u64, min_sol_out: u64) -> Result<
    (Reserves, SellQuote),
    BonkrError,
> {
    match spec_quote_sell(
        before.virtual_sol_reserve,
        before.virtual_token_reserve,
        before.real_sol_reserve,
        tokens_in,
        min_sol_out,
    ) {
        Err(e) => Err(e),
        Ok(quote) => match spec_settle_sell(before, quote, tokens_in) {
            Err(e) => Err(e),
            Ok(after) => Ok((after, quote)),
        },
    }
}

/// What `execute_buy_internal` does to a record, and the receipt it gives.
pub open spec fn spec_execute_buy(
    state: TokenState,
    buyer: Pubkey,
    sol_amount: u64,
    min_tokens_out: u64,
) -> Result<(TokenState, BuyReceipt), BonkrError> {
    match spec_buy_reserves(state.reserves(), sol_amount, min_tokens_out) {
        Err(e) => Err(e),
        Ok((after, quote)) => Ok(
            (state.with_reserves(after), buy_receipt(state.mint, buyer, sol_amount, quote)),
        ),
    }
}

/// The rejection, if any, that stops a trade before it is priced: the factory's pause, the
/// market's pause, graduation and a zero amount, in that order.
pub open spec fn trade_gate(
    factory_paused: bool,
    token_paused: bool,
    graduated: bool,
    amount: u64,
) -> Option<BonkrError> {
    if factory_paused {
        Some(BonkrError::FactoryPaused)
    } else if token_paused {
        Some(BonkrError::TokenPaused)
    } else if graduated {
        Some(BonkrError::TokenGraduated)
    } else if amount == 0 {
        Some(BonkrError::InvalidAmount)
    } else {
        None
    }
}

/// What `buy` does to a market's record, with the receipt and the graduation notice it gives.
pub open spec fn spec_buy(
    factory_paused: bool,
    sol_price_usd: u64,
    state: TokenState,
    user: Pubkey,
    sol_amount: u64,
    min_tokens_out: u64,
) -> Result<(TokenState, BuyReceipt, Option<TokenGraduated>), BonkrError> {
    match trade_gate(factory_paused, state.is_paused, state.is_graduated, sol_amount) {
        Some(e) => Err(e),
        None => match spec_execute_buy(state, user, sol_amount, min_tokens_out) {
            Err(e) => Err(e),
            Ok((bought, receipt)) => match spec_check_graduation(bought, sol_price_usd) {
                Err(e) => Err(e),
                Ok((after, notice)) => Ok((after, receipt, notice)),
            },
        },
    }
}

/// What `sell` does to a market's record, with the receipt and the graduation notice it gives.
pub open spec fn spec_sell(
    factory_paused: bool,
    sol_price_usd: u64,
    state: TokenState,
    user: Pubkey,
    token_amount: u64,
    min_sol_out: u64,
) -> Result<(TokenState, SellReceipt, Option<TokenGraduated>), BonkrError> {
    match trade_gate(factory_paused, state.is_paused, state.is_graduated, token_amount) {
        Some(e) => Err(e),
        None => match spec_sell_reserves(state.reserves(), token_amount, min_sol_out) {
            Err(e) => Err(e),
            Ok((sold, quote)) => match spec_check_graduation(
                state.with_reserves(sold),
                sol_price_usd,
            ) {
                Err(e) => Err(e),
                Ok((after, notice)) => Ok(
                    (after, sell_receipt(state.mint, user, token_amount, quote), notice),
                ),
            },
        },
    }
}

fn checked_sum(a: u64, b: u64) -> (sum: Result<u64, BonkrError>)
    ensures
        sum == if a + b > u64::MAX {
            Err::<u64, BonkrError>(BonkrError::MathOverflow)
        } else {
            Ok::<u64, BonkrError>((a + b) as u64)
        },
{
    match a.checked_add(b) {
        Some(v) => Ok(v),
        None => Err(BonkrError::MathOverflow),
    }
}

/// Prices a buy and books it on a copy of the market's quantities.
fn plan_buy(before: Reserves, sol_amount: u64, min_tokens_out: u64, state: &TokenState) -> (plan:
    Result<(Reserves, BuyQuote), BonkrError>)
    requires
        before == state.reserves(),
    ensures
        plan == spec_buy_reserves(before, sol_amount, min_tokens_out),
{
    let quote = match quote_buy(state, sol_amount, min_tokens_out) {
        Ok(q) => q,
        Err(e) => { return Err(e); },
    };
    let deposit = match checked_sum(quote.sol_to_reserve, quote.creator_fee) {
        Ok(v) => v,
        Err(e) => { return Err(e); },
    };
    let real_sol = match checked_sum(before.real_sol_reserve, deposit) {
        Ok(v) => v,
        Err(e) => { return Err(e); },
    };
    let burned = match checked_sum(before.total_burned, quote.burn_amount) {
        Ok(v) => v,
        Err(e) => { return Err(e); },
    };
    let volume = match checked_sum(before.volume, sol_amount) {
        Ok(v) => v,
        Err(e) => { return Err(e); },
    };
    let accrued = match checked_sum(before.creator_fees_accrued, quote.creator_fee) {
        Ok(v) => v,
        Err(e) => { return Err(e); },
    };
    Ok(
        (
            Reserves {
                virtual_sol_reserve: quote.new_virtual_sol,
                virtual_token_reserve: quote.new_virtual_token,
                real_sol_reserve: real_sol,
                real_token_reserve: before.real_token_reserve - quote.tokens_out,
                total_burned: burned,
                volume,
                creator_fees_accrued: accrued,
            },
            quote,
        ),
    )
}

/// Prices a sale and books it on a copy of the market's quantities.
fn plan_sell(before: Reserves, token_amount: u64, min_sol_out: u64, state: &TokenState) -> (plan:
    Result<(Reserves, SellQuote), BonkrError>)
    requires
        before == state.reserves(),
    ensures
        plan == spec_sell_reserves(before, token_amount, min_sol_out),
        plan matches Ok((_, quote)) ==> quote.sol_to_seller <= quote.sol_out_gross
            <= before.real_sol_reserve,
{
    let quote = match quote_sell(state, token_amount, min_sol_out) {
        Ok(q) => q,
        Err(e) => { return Err(e); },
    };
    proof {
        crate::math::lemma_bps_share_bounded(token_amount as int, 50);
    }
    let burned = match checked_sum(before.total_burned, quote.burn_amount) {
        Ok(v) => v,
        Err(e) => { return Err(e); },
    };
    let real_token = match checked_sum(
        before.real_token_reserve,
        token_amount - quote.burn_amount,
    ) {
        Ok(v) => v,
        Err(e) => { return Err(e); },
    };
    let volume = match checked_sum(before.volume, quote.sol_out_gross) {
        Ok(v) => v,
        Err(e) => { return Err(e); },
    };
    let accrued = match checked_sum(before.creator_fees_accrued, quote.creator_fee) {
        Ok(v) => v,
        Err(e) => { return Err(e); },
    };
    Ok(
        (
            Reserves {
                virtual_sol_reserve: quote.new_virtual_sol,
                virtual_token_reserve: quote.new_virtual_token,
                real_sol_reserve: before.real_sol_reserve - quote.sol_out_gross,
                real_token_reserve: real_token,
                total_burned: burned,
                volume,
                creator_fees_accrued: accrued,
            },
            quote,
        ),
    )
}

fn make_buy_receipt(mint: Pubkey, buyer: Pubkey, sol_amount: u64, quote: &BuyQuote) -> (receipt:
    BuyReceipt)
    requires
        quote.sol_to_reserve + quote.creator_fee <= u64::MAX,
    ensures
        receipt == buy_receipt(mint, buyer, sol_amount, *quote),
{
    BuyReceipt {
        vault_deposit: quote.sol_to_reserve + quote.creator_fee,
        platform_fee: quote.platform_fee,
        tokens_to_buyer: quote.tokens_to_buyer,
        bought: TokenBought {
            mint,
            buyer,
            sol_amount,
            token_amount: quote.tokens_to_buyer,
        },
    }
}

/// Prices a buy of `sol_amount` for `buyer` and books it on the market's record.
///
/// On success the curve has moved, the vault's base currency has grown by what entered the
/// curve and by the creator's share, the tokens released have left the market's holding, the
/// burn has been counted, and volume and accrued fees have grown. The receipt names the three
/// movements of value that the host has to carry out. On a rejection the record is untouched.
pub fn execute_buy_internal(
    token_state: &mut TokenState,
    buyer: Pubkey,
    sol_amount: u64,
    min_tokens_out: u64,
) -> (outcome: Result<BuyReceipt, BonkrError>)
    ensures
        match outcome {
            Ok(receipt) => spec_execute_buy(*old(token_state), buyer, sol_amount, min_tokens_out)
                == Ok::<(TokenState, BuyReceipt), BonkrError>((*final(token_state), receipt)),
            Err(e) => spec_execute_buy(*old(token_state), buyer, sol_amount, min_tokens_out)
                == Err::<(TokenState, BuyReceipt), BonkrError>(e) && *final(token_state) == *old(
                token_state,
            ),
        },
        old(token_state).is_graduated ==> final(token_state).is_graduated,
        old(token_state).supply_bounded() ==> final(token_state).supply_bounded(),
{
    let before = token_state.current_reserves();
    let (after, quote) = match plan_buy(before, sol_amount, min_tokens_out, token_state) {
        Ok(plan) => plan,
        Err(e) => { return Err(e); },
    };
    proof {
        if before.supply_bounded() {
            crate::laws::buy_preserves_supply_bound(before, sol_amount, min_tokens_out);
        }
    }
    let receipt = make_buy_receipt(token_state.mint, buyer, sol_amount, &quote);
    token_state.store_reserves(after);
    Ok(receipt)
}

/// Buys tokens from the market's curve for `sol_amount` of base currency.
///
/// The trade is refused while the factory or the market is paused, once the market has
/// graduated, and for a zero amount, in that order; then as pricing and booking refuse it.
/// After the trade has been booked the market graduates if its valuation has reached the
/// threshold. On a rejection nothing has changed.
pub fn buy(ctx: &mut Trade, sol_amount: u64, min_tokens_out: u64) -> (outcome: Result<
    (BuyReceipt, Option<TokenGraduated>),
    BonkrError,
>)
    ensures
        match outcome {
            Ok((receipt, notice)) => spec_buy(
                old(ctx).config.is_paused,
                old(ctx).config.sol_price_usd,
                old(ctx).token_state,
                old(ctx).user,
                sol_amount,
                min_tokens_out,
            ) == Ok::<(TokenState, BuyReceipt, Option<TokenGraduated>), BonkrError>(
                (final(ctx).token_state, receipt, notice),
            ),
            Err(e) => spec_buy(
                old(ctx).config.is_paused,
                old(ctx).config.sol_price_usd,
                old(ctx).token_state,
                old(ctx).user,
                sol_amount,
                min_tokens_out,
            ) == Err::<(TokenState, BuyReceipt, Option<TokenGraduated>), BonkrError>(e)
                && final(ctx).token_state == old(ctx).token_state,
        },
        final(ctx).config == old(ctx).config,
        final(ctx).user == old(ctx).user,
        old(ctx).token_state.is_graduated ==> final(ctx).token_state.is_graduated,
        old(ctx).token_state.supply_bounded() ==> final(ctx).token_state.supply_bounded(),
{
    if ctx.config.is_paused {
        return Err(BonkrError::FactoryPaused);
    }
    if ctx.token_state.is_paused {
        return Err(BonkrError::TokenPaused);
    }
    if ctx.token_state.is_graduated {
        return Err(BonkrError::TokenGraduated);
    }
    if sol_amount == 0 {
        return Err(BonkrError::InvalidAmount);
    }
    let before = ctx.token_state.current_reserves();
    let (after, quote) = match plan_buy(before, sol_amount, min_tokens_out, &ctx.token_state) {
        Ok(plan) => plan,
        Err(e) => { return Err(e); },
    };
    proof {
        if before.supply_bounded() {
            crate::laws::buy_preserves_supply_bound(before, sol_amount, min_tokens_out);
        }
    }
    let cap = match market_cap_usd(
        after.virtual_sol_reserve,
        after.virtual_token_reserve,
        ctx.config.sol_price_usd,
    ) {
        Ok(v) => v,
        Err(e) => { return Err(e); },
    };
    let receipt = make_buy_receipt(ctx.token_state.mint, ctx.user, sol_amount, &quote);
    ctx.token_state.store_reserves(after);
    let notice = graduate_if_due(&mut ctx.token_state, cap);
    Ok((receipt, notice))
}

/// Sets the graduation flag of a market that has not graduated when `cap` has reached the
/// threshold.
fn graduate_if_due(token_state: &mut TokenState, cap: u128) -> (notice: Option<TokenGraduated>)
    requires
        !old(token_state).is_graduated,
    ensures
        cap >= GRADUATION_USD ==> *final(token_state) == old(token_state).graduated() && notice
            == Some(
            TokenGraduated {
                mint: old(token_state).mint,
                market_cap_usd: (cap % 0x1_0000_0000_0000_0000) as u64,
            },
        ),
        cap < GRADUATION_USD ==> *final(token_state) == *old(token_state) && notice.is_none(),
{
    if cap >= GRADUATION_USD as u128 {
        token_state.is_graduated = true;
        let low: u128 = cap % 0x1_0000_0000_0000_0000u128;
        Some(TokenGraduated { mint: token_state.mint, market_cap_usd: low as u64 })
    } else {
        None
    }
}

/// Sells `token_amount` tokens back to the market's curve.
///
/// The trade is refused while the factory or the market is paused, once the market has
/// graduated, and for a zero amount, in that order; then as pricing and booking refuse it.
/// What the seller receives never exceeds what the curve releases, and that never exceeds the
/// base currency the market held. After the trade has been booked the market graduates if its
/// valuation has reached the threshold. On a rejection nothing has changed.
pub fn sell(ctx: &mut Trade, token_amount: u64, min_sol_out: u64) -> (outcome: Result<
    (SellReceipt, Option<TokenGraduated>),
    BonkrError,
>)
    ensures
        match outcome {
            Ok((receipt, notice)) => spec_sell(
                old(ctx).config.is_paused,
                old(ctx).config.sol_price_usd,
                old(ctx).token_state,
                old(ctx).user,
                token_amount,
                min_sol_out,
            ) == Ok::<(TokenState, SellReceipt, Option<TokenGraduated>), BonkrError>(
                (final(ctx).token_state, receipt, notice),
            ) && receipt.sol_to_seller <= old(ctx).token_state.real_sol_reserve
                - final(ctx).token_state.real_sol_reserve <= old(ctx).token_state.real_sol_reserve,
            Err(e) => spec_sell(
                old(ctx).config.is_paused,
                old(ctx).config.sol_price_usd,
                old(ctx).token_state,
                old(ctx).user,
                token_amount,
                min_sol_out,
            ) == Err::<(TokenState, SellReceipt, Option<TokenGraduated>), BonkrError>(e)
                && final(ctx).token_state == old(ctx).token_state,
        },
        final(ctx).config == old(ctx).config,
        final(ctx).user == old(ctx).user,
        old(ctx).token_state.is_graduated ==> final(ctx).token_state.is_graduated,
        old(ctx).token_state.supply_bounded() && token_amount <= old(
            ctx,
        ).token_state.reserves().circulating() ==> final(ctx).token_state.supply_bounded(),
{
    if ctx.config.is_paused {
        return Err(BonkrError::FactoryPaused);
    }
    if ctx.token_state.is_paused {
        return Err(BonkrError::TokenPaused);
    }
    if ctx.token_state.is_graduated {
        return Err(BonkrError::TokenGraduated);
    }
    if token_amount == 0 {
        return Err(BonkrError::InvalidAmount);
    }
    let before = ctx.token_state.current_reserves();
    let (after, quote) = match plan_sell(before, token_amount, min_sol_out, &ctx.token_state) {
        Ok(plan) => plan,
        Err(e) => { return Err(e); },
    };
    proof {
        if before.supply_bounded() && token_amount <= before.circulating() {
            crate::laws::sell_preserves_supply_bound(before, token_amount, min_sol_out);
        }
    }
    let cap = match market_cap_usd(
        after.virtual_sol_reserve,
        after.virtual_token_reserve,
        ctx.config.sol_price_usd,
    ) {
        Ok(v) => v,
        Err(e) => { return Err(e); },
    };
    let receipt = SellReceipt {
        tokens_from_seller: token_amount,
        burn_amount: quote.burn_amount,
        platform_fee: quote.platform_fee,
        sol_to_seller: quote.sol_to_seller,
        sold: TokenSold {
            mint: ctx.token_state.mint,
            seller: ctx.user,
            token_amount,
            sol_amount: quote.sol_to_seller,
        },
    };
    ctx.token_state.store_reserves(after);
    let notice = graduate_if_due(&mut ctx.token_state, cap);
    Ok((receipt, notice))
}

} // verus!
