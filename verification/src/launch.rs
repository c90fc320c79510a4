use vstd::prelude::*;
use vstd::string::*;
use crate::accounts::CreateToken;
use crate::constants::{
    INITIAL_VIRTUAL_SOL,
    INITIAL_VIRTUAL_TOKENS,
    MAX_NAME_LEN,
    MAX_SYMBOL_LEN,
    TOTAL_SUPPLY,
};
use crate::error::BonkrError;
use crate::events::{TokenCreated, TokenGraduated};
use crate::identity::Pubkey;
use crate::state::{GlobalConfig, TokenState};
use crate::graduation::{check_graduation, spec_check_graduation};
use crate::trading::{execute_buy_internal, spec_execute_buy, BuyReceipt};

verus! {

/// The movements of value that settle a launch, and its notification.
#[derive(Clone, Debug, PartialEq, Eq)]
pub struct CreateReceipt {
    /// Base currency the creator pays to the platform's recipient; nothing moves where it is zero.
    pub creation_fee: u64,
    /// Tokens minted into the market's vault.
    pub minted: u64,
    /// The creator's opening buy, where one was asked for.
    pub initial_buy: Option<BuyReceipt>,
    /// The graduation notice, where the opening buy took the market to the threshold.
    pub graduated: Option<TokenGraduated>,
    pub created: TokenCreated,
}

/// The record of a market at launch, before any trade.
pub open spec fn launched(
    mint: Pubkey,
    creator: Pubkey,
    name: String,
    symbol: String,
    uri: String,
    created_at: i64,
    bump: u8,
    vault_bump: u8,
) -> TokenState {
    TokenState {
        mint,
        creator,
        name,
        symbol,
        uri,
        virtual_sol_reserve: INITIAL_VIRTUAL_SOL,
        virtual_token_reserve: INITIAL_VIRTUAL_TOKENS,
        real_sol_reserve: 0,
        real_token_reserve: TOTAL_SUPPLY,
        total_burned: 0,
        volume: 0,
        creator_fees_accrued: 0,
        is_graduated: false,
        is_paused: false,
        created_at,
        bump,
        vault_bump,
    }
}

/// The rejection, if any, that stops a launch before the market's record is written: an
/// existing record, the factory's pause, a name or a symbol that is too long, and a counter
/// that cannot grow, in that order.
pub open spec fn launch_gate(ctx: CreateToken, name: Seq<char>, symbol: Seq<char>) -> Option<
    BonkrError,
> {
    if ctx.token_state.is_some() {
        Some(BonkrError::AlreadyInitialized)
    } else if ctx.config.is_paused {
        Some(BonkrError::FactoryPaused)
    } else if name.len() > MAX_NAME_LEN {
        Some(BonkrError::NameTooLong)
    } else if symbol.len() > MAX_SYMBOL_LEN {
        Some(BonkrError::SymbolTooLong)
    } else if ctx.config.token_count == u64::MAX {
        Some(BonkrError::MathOverflow)
    } else {
        None
    }
}

/// What `create_token` does to its context, and the receipt it gives.
pub open spec fn spec_create_token(
    ctx: CreateToken,
    name: String,
    symbol: String,
    uri: String,
    initial_buy_sol: u64,
) -> Result<(CreateToken, CreateReceipt), BonkrError> {
    let fresh = launched(
        ctx.mint,
        ctx.creator,
        name,
        symbol,
        uri,
        ctx.unix_timestamp,
        ctx.bump,
        ctx.vault_bump,
    );
    let counted = GlobalConfig { token_count: (ctx.config.token_count + 1) as u64, ..ctx.config };
    let created = TokenCreated { mint: ctx.mint, creator: ctx.creator, name, symbol, initial_buy_sol };
    match launch_gate(ctx, name@, symbol@) {
        Some(e) => Err(e),
        None => if initial_buy_sol > 0 {
            match spec_execute_buy(fresh, ctx.creator, initial_buy_sol, 0) {
                Err(e) => Err(e),
                Ok((opened, receipt)) => match spec_check_graduation(
                    opened,
                    ctx.config.sol_price_usd,
                ) {
                    Err(e) => Err(e),
                    Ok((after, notice)) => Ok(
                        (
                            CreateToken { config: counted, token_state: Some(after), ..ctx },
                            CreateReceipt {
                                creation_fee: ctx.config.creation_fee,
                                minted: TOTAL_SUPPLY,
                                initial_buy: Some(receipt),
                                graduated: notice,
                                created,
                            },
                        ),
                    ),
                },
            }
        } else {
            Ok(
                (
                    CreateToken { config: counted, token_state: Some(fresh), ..ctx },
                    CreateReceipt {
                        creation_fee: ctx.config.creation_fee,
                        minted: TOTAL_SUPPLY,
                        initial_buy: None,
                        graduated: None,
                        created,
                    },
                ),
            )
        },
    }
}

/// Launches a market for a new asset.
///
/// The market's record is written with the curve at its fixed starting reserves, the whole
/// supply in the market's holding and nothing burned, traded or accrued; the count of markets
/// grows by one. Where `initial_buy_sol` is not zero the creator's opening buy is priced and
/// booked on the fresh record, with no floor on the tokens received, and like every trade it
/// is followed by the graduation check. The receipt names what the host has to move and
/// announce: the creation fee, the mint of the whole supply, the opening buy and, where the
/// market graduated, the notice. On a rejection nothing has changed.
pub fn create_token(
    ctx: &mut CreateToken,
    name: String,
    symbol: String,
    uri: String,
    initial_buy_sol: u64,
) -> (outcome: Result<CreateReceipt, BonkrError>)
    ensures
        match outcome {
            Ok(receipt) => spec_create_token(*old(ctx), name, symbol, uri, initial_buy_sol)
                == Ok::<(CreateToken, CreateReceipt), BonkrError>((*final(ctx), receipt)),
            Err(e) => spec_create_token(*old(ctx), name, symbol, uri, initial_buy_sol) == Err::<
                (CreateToken, CreateReceipt),
                BonkrError,
            >(e) && *final(ctx) == *old(ctx),
        },
        outcome is Ok ==> final(ctx).token_state.unwrap().supply_bounded(),
        old(ctx).config.well_formed() ==> final(ctx).config.well_formed(),
{
    if ctx.token_state.is_some() {
        return Err(BonkrError::AlreadyInitialized);
    }
    if ctx.config.is_paused {
        return Err(BonkrError::FactoryPaused);
    }
    if name.as_str().unicode_len() > MAX_NAME_LEN {
        return Err(BonkrError::NameTooLong);
    }
    if symbol.as_str().unicode_len() > MAX_SYMBOL_LEN {
        return Err(BonkrError::SymbolTooLong);
    }
    if ctx.config.token_count == u64::MAX {
        return Err(BonkrError::MathOverflow);
    }
    let created = TokenCreated {
        mint: ctx.mint,
        creator: ctx.creator,
        name: name.clone(),
        symbol: symbol.clone(),
        initial_buy_sol,
    };
    let mut token_state = TokenState {
        mint: ctx.mint,
        creator: ctx.creator,
        name,
        symbol,
        uri,
        virtual_sol_reserve: INITIAL_VIRTUAL_SOL,
        virtual_token_reserve: INITIAL_VIRTUAL_TOKENS,
        real_sol_reserve: 0,
        real_token_reserve: TOTAL_SUPPLY,
        total_burned: 0,
        volume: 0,
        creator_fees_accrued: 0,
        is_graduated: false,
        is_paused: false,
        created_at: ctx.unix_timestamp,
        bump: ctx.bump,
        vault_bump: ctx.vault_bump,
    };
    let mut initial_buy: Option<BuyReceipt> = None;
    let mut graduated: Option<TokenGraduated> = None;
    if initial_buy_sol > 0 {
        match execute_buy_internal(&mut token_state, ctx.creator, initial_buy_sol, 0) {
            Ok(receipt) => { initial_buy = Some(receipt); },
            Err(e) => { return Err(e); },
        }
        match check_graduation(&mut token_state, ctx.config.sol_price_usd) {
            Ok(notice) => { graduated = notice; },
            Err(e) => { return Err(e); },
        }
    }
    proof {
        crate::math::lemma_bps_share_bounded(
            INITIAL_VIRTUAL_TOKENS - token_state.virtual_token_reserve,
            50,
        );
    }
    ctx.token_state = Some(token_state);
    ctx.config.token_count = ctx.config.token_count + 1;
    Ok(
        CreateReceipt {
            creation_fee: ctx.config.creation_fee,
            minted: TOTAL_SUPPLY,
            initial_buy,
            graduated,
            created,
        },
    )
}

} // verus!
