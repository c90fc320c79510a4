use vstd::prelude::*;

verus! {

/// Number of indivisible base-currency units in one whole unit.
pub const BASE_UNITS_PER_COIN: u64 = 1_000_000_000;

/// Fixed supply minted for every market, in indivisible token units.
pub const TOTAL_SUPPLY: u64 = 1_000_000_000_000_000_000;

/// Virtual base-currency reserve a fresh curve starts from.
pub const INITIAL_VIRTUAL_SOL: u64 = 30_000_000_000;

/// Virtual token reserve a fresh curve starts from.
pub const INITIAL_VIRTUAL_TOKENS: u64 = 1_073_000_000_000_000_000;

/// Valuation, in millionths of a dollar, at which a market graduates.
pub const GRADUATION_USD: u64 = 30_000_000_000;

/// Share of every trade's token leg that is burned, in basis points.
pub const BURN_FEE_BP: u64 = 50;

/// Share of every trade's base-currency leg paid to the platform, in basis points.
pub const PLATFORM_FEE_BP: u64 = 100;

/// Share of every trade's base-currency leg accrued to the creator, in basis points.
pub const CREATOR_FEE_BP: u64 = 50;

/// Combined fee withheld from a seller's gross proceeds, in basis points.
pub const TOTAL_FEE_BP: u64 = 200;

/// One whole, in basis points.
pub const BP_DENOMINATOR: u64 = 10_000;

/// Price of the base currency, in millionths of a dollar, that a new configuration starts with.
pub const INITIAL_SOL_PRICE_USD: u64 = 200_000_000;

/// Longest market name accepted, in characters.
pub const MAX_NAME_LEN: usize = 32;

/// Longest market symbol accepted, in characters.
pub const MAX_SYMBOL_LEN: usize = 10;

} // verus!
