use vstd::prelude::*;
use crate::identity::Pubkey;

verus! {

/// A market was launched.
#[derive(Clone, Debug, PartialEq, Eq)]
pub struct TokenCreated {
    pub mint: Pubkey,
    pub creator: Pubkey,
    pub name: String,
    pub symbol: String,
    pub initial_buy_sol: u64,
}

/// Tokens were bought from the curve.
#[derive(Clone, Copy, Debug, PartialEq, Eq)]
pub struct TokenBought {
    pub mint: Pubkey,
    pub buyer: Pubkey,
    /// Gross base currency paid by the buyer.
    pub sol_amount: u64,
    /// Tokens delivered to the buyer, after the burn.
    pub token_amount: u64,
}

/// Tokens were sold back to the curve.
#[derive(Clone, Copy, Debug, PartialEq, Eq)]
pub struct TokenSold {
    pub mint: Pubkey,
    pub seller: Pubkey,
    /// Tokens handed in by the seller.
    pub token_amount: u64,
    /// Base currency paid to the seller, after fees.
    pub sol_amount: u64,
}

/// A market left curve pricing.
#[derive(Clone, Copy, Debug, PartialEq, Eq)]
pub struct TokenGraduated {
    pub mint: Pubkey,
    /// Valuation at graduation, in millionths of a dollar; zero when graduation was forced.
    pub market_cap_usd: u64,
}

/// The creator was paid the accrued fees.
#[derive(Clone, Copy, Debug, PartialEq, Eq)]
pub struct CreatorFeesClaimed {
    pub creator: Pubkey,
    pub amount: u64,
}

/// The market's whole liquidity was handed to a recipient.
#[derive(Clone, Copy, Debug, PartialEq, Eq)]
pub struct LPWithdrawn {
    pub mint: Pubkey,
    pub sol_amount: u64,
    pub token_amount: u64,
    pub recipient: Pubkey,
}

/// The authority swept a vault's spare balance.
#[derive(Clone, Copy, Debug, PartialEq, Eq)]
pub struct EmergencyWithdrawEvent {
    pub amount: u64,
}

} // verus!
