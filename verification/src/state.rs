use vstd::prelude::*;
use crate::constants::TOTAL_SUPPLY;
use crate::identity::Pubkey;

verus! {

/// Process-wide parameters. There is one such record; only the authority changes it.
#[derive(Clone, Copy, Debug, PartialEq, Eq)]
pub struct GlobalConfig {
    /// Identity allowed to perform administrative operations.
    pub authority: Pubkey,
    /// Identity that receives the platform's share of every trade.
    pub platform_fee_recipient: Pubkey,
    /// Identity named as the price feed.
    pub oracle: Pubkey,
    /// Flat charge, in base-currency units, for launching a market.
    pub creation_fee: u64,
    /// Number of markets launched so far.
    pub token_count: u64,
    /// Price of the base currency, in millionths of a dollar.
    pub sol_price_usd: u64,
    /// Global kill-switch: while set, no market trades and none is launched.
    pub is_paused: bool,
    /// Address-derivation byte of the record.
    pub bump: u8,
}

impl GlobalConfig {
    /// A configuration is well formed when its price is positive.
    pub open spec fn well_formed(&self) -> bool {
        self.sol_price_usd > 0
    }
}

/// The quantities of a market that trading moves.
#[derive(Clone, Copy, Debug, PartialEq, Eq, Structural)]
pub struct Reserves {
    pub virtual_sol_reserve: u64,
    pub virtual_token_reserve: u64,
    pub real_sol_reserve: u64,
    pub real_token_reserve: u64,
    pub total_burned: u64,
    pub volume: u64,
    pub creator_fees_accrued: u64,
}

impl Reserves {
    /// The product of the two virtual reserves.
    pub open spec fn curve_product(&self) -> int {
        self.virtual_sol_reserve * self.virtual_token_reserve
    }

    /// Tokens held by the market and tokens destroyed together never exceed the fixed supply.
    pub open spec fn supply_bounded(&self) -> bool {
        self.real_token_reserve + self.total_burned <= TOTAL_SUPPLY
    }

    /// Tokens that are neither held by the market nor destroyed.
    pub open spec fn circulating(&self) -> int {
        TOTAL_SUPPLY - self.real_token_reserve - self.total_burned
    }
}

/// The record of one launched market.
#[derive(Clone, Debug, PartialEq, Eq)]
pub struct TokenState {
    /// Identity of the asset.
    pub mint: Pubkey,
    /// Identity that launched the market and is owed the creator fees.
    pub creator: Pubkey,
    pub name: String,
    pub symbol: String,
    pub uri: String,
    /// Base-currency side of the pricing curve.
    pub virtual_sol_reserve: u64,
    /// Token side of the pricing curve.
    pub virtual_token_reserve: u64,
    /// Base currency held for paying sellers.
    pub real_sol_reserve: u64,
    /// Unsold tokens still held by the market.
    pub real_token_reserve: u64,
    /// Tokens destroyed so far.
    pub total_burned: u64,
    /// Cumulative gross value traded, in base-currency units.
    pub volume: u64,
    /// Fees owed to the creator and not yet paid out.
    pub creator_fees_accrued: u64,
    /// Set once the market has left curve pricing; never cleared.
    pub is_graduated: bool,
    /// While set, the market does not trade.
    pub is_paused: bool,
    /// Time of launch, in seconds since the epoch.
    pub created_at: i64,
    /// Address-derivation byte of the record.
    pub bump: u8,
    /// Address-derivation byte of the base-currency vault.
    pub vault_bump: u8,
}

impl TokenState {
    /// The quantities of the record that trading moves.
    pub open spec fn reserves(&self) -> Reserves {
        Reserves {
            virtual_sol_reserve: self.virtual_sol_reserve,
            virtual_token_reserve: self.virtual_token_reserve,
            real_sol_reserve: self.real_sol_reserve,
            real_token_reserve: self.real_token_reserve,
            total_burned: self.total_burned,
            volume: self.volume,
            creator_fees_accrued: self.creator_fees_accrued,
        }
    }

    /// The record with its trading quantities replaced and everything else kept.
    pub open spec fn with_reserves(self, reserves: Reserves) -> TokenState {
        TokenState {
            virtual_sol_reserve: reserves.virtual_sol_reserve,
            virtual_token_reserve: reserves.virtual_token_reserve,
            real_sol_reserve: reserves.real_sol_reserve,
            real_token_reserve: reserves.real_token_reserve,
            total_burned: reserves.total_burned,
            volume: reserves.volume,
            creator_fees_accrued: reserves.creator_fees_accrued,
            ..self
        }
    }

    /// The record with its graduation flag set and everything else kept.
    pub open spec fn graduated(self) -> TokenState {
        TokenState { is_graduated: true, ..self }
    }

    /// Tokens held by the market and tokens destroyed together never exceed the fixed supply.
    pub open spec fn supply_bounded(&self) -> bool {
        self.reserves().supply_bounded()
    }

    /// Reads the quantities that trading moves.
    pub fn current_reserves(&self) -> (reserves: Reserves)
        ensures
            reserves == self.reserves(),
    {
        Reserves {
            virtual_sol_reserve: self.virtual_sol_reserve,
            virtual_token_reserve: self.virtual_token_reserve,
            real_sol_reserve: self.real_sol_reserve,
            real_token_reserve: self.real_token_reserve,
            total_burned: self.total_burned,
            volume: self.volume,
            creator_fees_accrued: self.creator_fees_accrued,
        }
    }

    /// Replaces the quantities that trading moves and keeps everything else.
    pub fn store_reserves(&mut self, reserves: Reserves)
        ensures
            *final(self) == old(self).with_reserves(reserves),
    {
        self.virtual_sol_reserve = reserves.virtual_sol_reserve;
        self.virtual_token_reserve = reserves.virtual_token_reserve;
        self.real_sol_reserve = reserves.real_sol_reserve;
        self.real_token_reserve = reserves.real_token_reserve;
        self.total_burned = reserves.total_burned;
        self.volume = reserves.volume;
        self.creator_fees_accrued = reserves.creator_fees_accrued;
    }

}

} // verus!
