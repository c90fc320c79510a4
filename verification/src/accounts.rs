use vstd::prelude::*;
use crate::identity::Pubkey;
use crate::state::{GlobalConfig, TokenState};

verus! {

/// What `initialize` works on: the slot of the configuration record and who asks.
#[derive(Clone, Copy, Debug, PartialEq, Eq)]
pub struct Initialize {
    /// The configuration record, if it exists yet.
    pub config: Option<GlobalConfig>,
    /// The caller, who becomes the authority.
    pub authority: Pubkey,
    pub platform_fee_recipient: Pubkey,
    /// Address-derivation byte of the record.
    pub bump: u8,
}

/// What `create_token` works on.
#[derive(Clone, Debug, PartialEq, Eq)]
pub struct CreateToken {
    pub config: GlobalConfig,
    /// The market's record, if it exists yet.
    pub token_state: Option<TokenState>,
    /// Identity of the new asset.
    pub mint: Pubkey,
    /// The caller, who launches the market.
    pub creator: Pubkey,
    /// The host's clock, in seconds since the epoch.
    pub unix_timestamp: i64,
    /// Address-derivation byte of the market's record.
    pub bump: u8,
    /// Address-derivation byte of the market's base-currency vault.
    pub vault_bump: u8,
}

/// What `buy` and `sell` work on.
#[derive(Clone, Debug, PartialEq, Eq)]
pub struct Trade {
    pub config: GlobalConfig,
    pub token_state: TokenState,
    /// The caller, who trades.
    pub user: Pubkey,
}

/// What `claim_creator_fees` works on.
#[derive(Clone, Debug, PartialEq, Eq)]
pub struct ClaimCreatorFees {
    pub token_state: TokenState,
    /// The caller, who claims.
    pub creator: Pubkey,
}

/// What `admin_withdraw_lp` works on.
#[derive(Clone, Debug, PartialEq, Eq)]
pub struct AdminWithdrawLP {
    pub config: GlobalConfig,
    pub token_state: TokenState,
    /// Who receives the liquidity.
    pub recipient: Pubkey,
    /// The caller.
    pub authority: Pubkey,
}

/// What `force_graduate` and `pause_token` work on.
#[derive(Clone, Debug, PartialEq, Eq)]
pub struct AdminAction {
    pub config: GlobalConfig,
    pub token_state: TokenState,
    /// The caller.
    pub authority: Pubkey,
}

/// What the operations that change the configuration work on.
#[derive(Clone, Copy, Debug, PartialEq, Eq)]
pub struct UpdateConfig {
    pub config: GlobalConfig,
    /// The caller.
    pub authority: Pubkey,
}

/// What `emergency_withdraw` works on.
#[derive(Clone, Copy, Debug, PartialEq, Eq)]
pub struct EmergencyWithdraw {
    pub config: GlobalConfig,
    /// The caller.
    pub authority: Pubkey,
    /// Balance of the vault to sweep, in base-currency units.
    pub vault_balance: u64,
    /// Balance that the host requires an account to keep.
    pub rent_exempt_minimum: u64,
}

} // verus!
