//! A bonding-curve market engine.
//!
//! Every asset is launched with a constant-product curve over virtual reserves. Buys and sales
//! are priced on the curve with integer arithmetic that rounds down, fees are split off in
//! basis points, and a market graduates out of curve pricing once its valuation reaches a
//! fixed threshold. Each operation is one transition of plain values: it takes the records it
//! works on and either returns what the host has to move and announce, or rejects the call and
//! leaves the records as they were.

pub mod accounts;
pub mod admin;
pub mod config;
pub mod constants;
pub mod curve;
pub mod error;
pub mod events;
pub mod graduation;
pub mod identity;
pub mod launch;
pub mod laws;
pub mod math;
pub mod state;
pub mod trading;

pub use crate::accounts::{
    AdminAction, AdminWithdrawLP, ClaimCreatorFees, CreateToken, EmergencyWithdraw, Initialize,
    Trade, UpdateConfig,
};
pub use crate::admin::{
    admin_withdraw_lp, claim_creator_fees, emergency_withdraw, force_graduate, pause_token,
};
pub use crate::config::{
    initialize, pause_factory, set_creation_fee, set_oracle, set_platform_fee_recipient,
    update_sol_price,
};
pub use crate::constants::{
    BASE_UNITS_PER_COIN, BP_DENOMINATOR, BURN_FEE_BP, CREATOR_FEE_BP, GRADUATION_USD,
    INITIAL_SOL_PRICE_USD, INITIAL_VIRTUAL_SOL, INITIAL_VIRTUAL_TOKENS, MAX_NAME_LEN,
    MAX_SYMBOL_LEN, PLATFORM_FEE_BP, TOTAL_FEE_BP, TOTAL_SUPPLY,
};
pub use crate::curve::{quote_buy, quote_sell, BuyQuote, SellQuote};
pub use crate::error::BonkrError;
pub use crate::events::{
    CreatorFeesClaimed, EmergencyWithdrawEvent, LPWithdrawn, TokenBought, TokenCreated,
    TokenGraduated, TokenSold,
};
pub use crate::graduation::{check_graduation, market_cap_usd};
pub use crate::identity::Pubkey;
pub use crate::launch::{create_token, CreateReceipt};
pub use crate::math::{bps_share, product, ratio};
pub use crate::state::{GlobalConfig, Reserves, TokenState};
pub use crate::trading::{buy, execute_buy_internal, sell, BuyReceipt, SellReceipt};
