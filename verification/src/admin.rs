use vstd::prelude::*;
use crate::accounts::{AdminAction, AdminWithdrawLP, ClaimCreatorFees, EmergencyWithdraw};
use crate::error::BonkrError;
use crate::events::{CreatorFeesClaimed, EmergencyWithdrawEvent, LPWithdrawn, TokenGraduated};
use crate::state::TokenState;

verus! {

/// Pays the creator the fees that have accrued.
///
/// The claim is refused when nothing has accrued; otherwise when the caller is not the
/// market's creator. A claim that succeeds pays the whole accrued balance out of the market's
/// vault. The record is left exactly as it was, the accrued balance included: a claim does not
/// clear what it pays, so the same balance can be claimed again until a trade or the host
/// changes it.
pub fn claim_creator_fees(ctx: &mut ClaimCreatorFees) -> (outcome: Result<
    CreatorFeesClaimed,
    BonkrError,
>)
    ensures
        *final(ctx) == *old(ctx),
        outcome is Ok <==> old(ctx).token_state.creator_fees_accrued > 0 && old(ctx).creator
            == old(ctx).token_state.creator,
        outcome == Err::<CreatorFeesClaimed, BonkrError>(BonkrError::NoFeesToClaim) <==> old(
            ctx,
        ).token_state.creator_fees_accrued == 0,
        outcome == Err::<CreatorFeesClaimed, BonkrError>(BonkrError::NotCreator) <==> old(
            ctx,
        ).token_state.creator_fees_accrued > 0 && old(ctx).creator != old(
            ctx,
        ).token_state.creator,
        outcome matches Ok(paid) ==> paid == (CreatorFeesClaimed {
            creator: old(ctx).creator,
            amount: old(ctx).token_state.creator_fees_accrued,
        }),
{
    let amount = ctx.token_state.creator_fees_accrued;
    if amount == 0 {
        return Err(BonkrError::NoFeesToClaim);
    }
    if ctx.creator != ctx.token_state.creator {
        return Err(BonkrError::NotCreator);
    }
    Ok(CreatorFeesClaimed { creator: ctx.creator, amount })
}

/// Hands the market's whole liquidity to the recipient and pauses the market.
///
/// Only the authority may do so. Both real reserves are set to zero, whatever they held, and
/// the market is paused; the notification carries what the reserves held, which is what the
/// host moves out of the two vaults.
pub fn admin_withdraw_lp(ctx: &mut AdminWithdrawLP) -> (outcome: Result<LPWithdrawn, BonkrError>)
    ensures
        outcome is Ok <==> old(ctx).authority == old(ctx).config.authority,
        outcome matches Err(e) ==> e == BonkrError::Unauthorized && *final(ctx) == *old(ctx),
        outcome matches Ok(swept) ==> {
            &&& swept == (LPWithdrawn {
                mint: old(ctx).token_state.mint,
                sol_amount: old(ctx).token_state.real_sol_reserve,
                token_amount: old(ctx).token_state.real_token_reserve,
                recipient: old(ctx).recipient,
            })
            &&& *final(ctx) == (AdminWithdrawLP {
                token_state: TokenState {
                    real_sol_reserve: 0,
                    real_token_reserve: 0,
                    is_paused: true,
                    ..old(ctx).token_state
                },
                ..*old(ctx)
            })
        },
        old(ctx).token_state.is_graduated ==> final(ctx).token_state.is_graduated,
        old(ctx).token_state.supply_bounded() ==> final(ctx).token_state.supply_bounded(),
{
    if ctx.authority != ctx.config.authority {
        return Err(BonkrError::Unauthorized);
    }
    let sol_amount = ctx.token_state.real_sol_reserve;
    let token_amount = ctx.token_state.real_token_reserve;
    ctx.token_state.real_sol_reserve = 0;
    ctx.token_state.real_token_reserve = 0;
    ctx.token_state.is_paused = true;
    Ok(LPWithdrawn { mint: ctx.token_state.mint, sol_amount, token_amount, recipient: ctx.recipient })
}

/// Graduates the market at once, whatever its valuation.
///
/// Only the authority may do so, and only for a market that has not graduated; the caller is
/// checked first. The notification reports a valuation of zero.
pub fn force_graduate(ctx: &mut AdminAction) -> (outcome: Result<TokenGraduated, BonkrError>)
    ensures
        outcome is Ok <==> old(ctx).authority == old(ctx).config.authority && !old(
            ctx,
        ).token_state.is_graduated,
        outcome == Err::<TokenGraduated, BonkrError>(BonkrError::Unauthorized) <==> old(
            ctx,
        ).authority != old(ctx).config.authority,
        outcome == Err::<TokenGraduated, BonkrError>(BonkrError::AlreadyGraduated) <==> old(
            ctx,
        ).authority == old(ctx).config.authority && old(ctx).token_state.is_graduated,
        outcome is Err ==> *final(ctx) == *old(ctx),
        outcome matches Ok(notice) ==> {
            &&& notice == (TokenGraduated { mint: old(ctx).token_state.mint, market_cap_usd: 0 })
            &&& *final(ctx) == (AdminAction {
                token_state: old(ctx).token_state.graduated(),
                ..*old(ctx)
            })
        },
        old(ctx).token_state.is_graduated ==> final(ctx).token_state.is_graduated,
        old(ctx).token_state.supply_bounded() ==> final(ctx).token_state.supply_bounded(),
{
    if ctx.authority != ctx.config.authority {
        return Err(BonkrError::Unauthorized);
    }
    if ctx.token_state.is_graduated {
        return Err(BonkrError::AlreadyGraduated);
    }
    ctx.token_state.is_graduated = true;
    Ok(TokenGraduated { mint: ctx.token_state.mint, market_cap_usd: 0 })
}

/// Pauses or resumes the market. Only the authority may do so.
pub fn pause_token(ctx: &mut AdminAction, paused: bool) -> (outcome: Result<(), BonkrError>)
    ensures
        outcome is Ok <==> old(ctx).authority == old(ctx).config.authority,
        outcome matches Err(e) ==> e == BonkrError::Unauthorized && *final(ctx) == *old(ctx),
        outcome is Ok ==> *final(ctx) == (AdminAction {
            token_state: TokenState { is_paused: paused, ..old(ctx).token_state },
            ..*old(ctx)
        }),
        old(ctx).token_state.is_graduated ==> final(ctx).token_state.is_graduated,
        old(ctx).token_state.supply_bounded() ==> final(ctx).token_state.supply_bounded(),
{
    if ctx.authority != ctx.config.authority {
        return Err(BonkrError::Unauthorized);
    }
    ctx.token_state.is_paused = paused;
    Ok(())
}

/// What a vault holds above the balance it has to keep; zero where it holds less.
pub open spec fn withdrawable(vault_balance: u64, rent_exempt_minimum: u64) -> int {
    if vault_balance > rent_exempt_minimum {
        vault_balance - rent_exempt_minimum
    } else {
        0
    }
}

/// Sweeps to the authority everything the vault holds above the balance it has to keep.
///
/// Only the authority may do so; the caller is checked first. The call is refused when the
/// vault holds nothing above that balance. After a sweep the vault holds exactly the balance
/// it has to keep.
pub fn emergency_withdraw(ctx: &mut EmergencyWithdraw) -> (outcome: Result<
    EmergencyWithdrawEvent,
    BonkrError,
>)
    ensures
        outcome is Ok <==> old(ctx).authority == old(ctx).config.authority && withdrawable(
            old(ctx).vault_balance,
            old(ctx).rent_exempt_minimum,
        ) > 0,
        outcome == Err::<EmergencyWithdrawEvent, BonkrError>(BonkrError::Unauthorized) <==> old(
            ctx,
        ).authority != old(ctx).config.authority,
        outcome == Err::<EmergencyWithdrawEvent, BonkrError>(BonkrError::NoFundsToWithdraw)
            <==> old(ctx).authority == old(ctx).config.authority && withdrawable(
            old(ctx).vault_balance,
            old(ctx).rent_exempt_minimum,
        ) == 0,
        outcome is Err ==> *final(ctx) == *old(ctx),
        outcome matches Ok(swept) ==> {
            &&& swept.amount == withdrawable(old(ctx).vault_balance, old(ctx).rent_exempt_minimum)
            &&& *final(ctx) == (EmergencyWithdraw {
                vault_balance: old(ctx).rent_exempt_minimum,
                ..*old(ctx)
            })
        },
{
    if ctx.authority != ctx.config.authority {
        return Err(BonkrError::Unauthorized);
    }
    let amount = ctx.vault_balance.saturating_sub(ctx.rent_exempt_minimum);
    if amount == 0 {
        return Err(BonkrError::NoFundsToWithdraw);
    }
    ctx.vault_balance = ctx.vault_balance - amount;
    Ok(EmergencyWithdrawEvent { amount })
}

} // verus!
