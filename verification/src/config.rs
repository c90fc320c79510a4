use vstd::prelude::*;
use crate::accounts::{Initialize, UpdateConfig};
use crate::constants::INITIAL_SOL_PRICE_USD;
use crate::error::BonkrError;
use crate::identity::Pubkey;
use crate::state::GlobalConfig;

verus! {

/// The configuration that `initialize` creates.
pub open spec fn initial_config(
    authority: Pubkey,
    platform_fee_recipient: Pubkey,
    creation_fee: u64,
    bump: u8,
) -> GlobalConfig {
    GlobalConfig {
        authority,
        platform_fee_recipient,
        oracle: authority,
        creation_fee,
        token_count: 0,
        sol_price_usd: INITIAL_SOL_PRICE_USD,
        is_paused: false,
        bump,
    }
}

/// Creates the configuration record, once.
///
/// The caller becomes both authority and price feed, no market is counted, nothing is paused
/// and the price starts at its fixed initial value. Where the record exists already the call
/// is refused and the record kept.
pub fn initialize(ctx: &mut Initialize, creation_fee: u64) -> (outcome: Result<(), BonkrError>)
    ensures
        outcome is Ok <==> old(ctx).config.is_none(),
        outcome matches Err(e) ==> e == BonkrError::AlreadyInitialized && *final(ctx) == *old(ctx),
        outcome is Ok ==> *final(ctx) == (Initialize {
            config: Some(
                initial_config(
                    old(ctx).authority,
                    old(ctx).platform_fee_recipient,
                    creation_fee,
                    old(ctx).bump,
                ),
            ),
            ..*old(ctx)
        }),
        outcome is Ok ==> final(ctx).config.unwrap().well_formed(),
{
    if ctx.config.is_some() {
        return Err(BonkrError::AlreadyInitialized);
    }
    ctx.config = Some(
        GlobalConfig {
            authority: ctx.authority,
            platform_fee_recipient: ctx.platform_fee_recipient,
            oracle: ctx.authority,
            creation_fee,
            token_count: 0,
            sol_price_usd: INITIAL_SOL_PRICE_USD,
            is_paused: false,
            bump: ctx.bump,
        },
    );
    Ok(())
}

/// Whether the caller of a configuration change is the configured authority.
pub open spec fn config_authorized(ctx: UpdateConfig) -> bool {
    ctx.authority == ctx.config.authority
}

/// Sets the price of the base currency, in millionths of a dollar.
///
/// Only the authority may do so, and the price must be positive; the caller is checked first.
pub fn update_sol_price(ctx: &mut UpdateConfig, price_usd: u64) -> (outcome: Result<
    (),
    BonkrError,
>)
    ensures
        outcome is Ok <==> config_authorized(*old(ctx)) && price_usd > 0,
        outcome == Err::<(), BonkrError>(BonkrError::Unauthorized) <==> !config_authorized(
            *old(ctx),
        ),
        outcome == Err::<(), BonkrError>(BonkrError::InvalidAmount) <==> config_authorized(
            *old(ctx),
        ) && price_usd == 0,
        outcome is Err ==> *final(ctx) == *old(ctx),
        outcome is Ok ==> *final(ctx) == (UpdateConfig {
            config: GlobalConfig { sol_price_usd: price_usd, ..old(ctx).config },
            ..*old(ctx)
        }),
        outcome is Ok ==> final(ctx).config.well_formed(),
{
    if ctx.authority != ctx.config.authority {
        return Err(BonkrError::Unauthorized);
    }
    if price_usd == 0 {
        return Err(BonkrError::InvalidAmount);
    }
    ctx.config.sol_price_usd = price_usd;
    Ok(())
}

/// Names another identity as the price feed. Only the authority may do so.
pub fn set_oracle(ctx: &mut UpdateConfig, oracle: Pubkey) -> (outcome: Result<(), BonkrError>)
    ensures
        outcome is Ok <==> config_authorized(*old(ctx)),
        outcome matches Err(e) ==> e == BonkrError::Unauthorized && *final(ctx) == *old(ctx),
        outcome is Ok ==> *final(ctx) == (UpdateConfig {
            config: GlobalConfig { oracle, ..old(ctx).config },
            ..*old(ctx)
        }),
        old(ctx).config.well_formed() ==> final(ctx).config.well_formed(),
{
    if ctx.authority != ctx.config.authority {
        return Err(BonkrError::Unauthorized);
    }
    ctx.config.oracle = oracle;
    Ok(())
}

/// Sets or clears the global kill-switch. Only the authority may do so.
pub fn pause_factory(ctx: &mut UpdateConfig, paused: bool) -> (outcome: Result<(), BonkrError>)
    ensures
        outcome is Ok <==> config_authorized(*old(ctx)),
        outcome matches Err(e) ==> e == BonkrError::Unauthorized && *final(ctx) == *old(ctx),
        outcome is Ok ==> *final(ctx) == (UpdateConfig {
            config: GlobalConfig { is_paused: paused, ..old(ctx).config },
            ..*old(ctx)
        }),
        old(ctx).config.well_formed() ==> final(ctx).config.well_formed(),
{
    if ctx.authority != ctx.config.authority {
        return Err(BonkrError::Unauthorized);
    }
    ctx.config.is_paused = paused;
    Ok(())
}

/// Sets the flat charge for launching a market. Only the authority may do so.
pub fn set_creation_fee(ctx: &mut UpdateConfig, fee: u64) -> (outcome: Result<(), BonkrError>)
    ensures
        outcome is Ok <==> config_authorized(*old(ctx)),
        outcome matches Err(e) ==> e == BonkrError::Unauthorized && *final(ctx) == *old(ctx),
        outcome is Ok ==> *final(ctx) == (UpdateConfig {
            config: GlobalConfig { creation_fee: fee, ..old(ctx).config },
            ..*old(ctx)
        }),
        old(ctx).config.well_formed() ==> final(ctx).config.well_formed(),
{
    if ctx.authority != ctx.config.authority {
        return Err(BonkrError::Unauthorized);
    }
    ctx.config.creation_fee = fee;
    Ok(())
}

/// Names another identity as receiver of the platform's share. Only the authority may do so.
pub fn set_platform_fee_recipient(ctx: &mut UpdateConfig, recipient: Pubkey) -> (outcome: Result<
    (),
    BonkrError,
>)
    ensures
        outcome is Ok <==> config_authorized(*old(ctx)),
        outcome matches Err(e) ==> e == BonkrError::Unauthorized && *final(ctx) == *old(ctx),
        outcome is Ok ==> *final(ctx) == (UpdateConfig {
            config: GlobalConfig { platform_fee_recipient: recipient, ..old(ctx).config },
            ..*old(ctx)
        }),
        old(ctx).config.well_formed() ==> final(ctx).config.well_formed(),
{
    if ctx.authority != ctx.config.authority {
        return Err(BonkrError::Unauthorized);
    }
    ctx.config.platform_fee_recipient = recipient;
    Ok(())
}

} // verus!
