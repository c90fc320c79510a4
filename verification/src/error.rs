use vstd::prelude::*;

verus! {

/// Why an operation was rejected. A rejected operation changes nothing.
#[derive(Clone, Copy, Debug, PartialEq, Eq, Structural)]
pub enum BonkrError {
    /// The global kill-switch is set.
    FactoryPaused,
    /// The market is paused.
    TokenPaused,
    /// The market has graduated and no longer trades on the curve.
    TokenGraduated,
    /// The market was asked to graduate but already has.
    AlreadyGraduated,
    /// A zero amount or a zero price was supplied.
    InvalidAmount,
    /// The trade would deliver less than the caller's floor.
    SlippageExceeded,
    /// The curve asks for more tokens than the market still holds.
    InsufficientTokens,
    /// The curve asks for more base currency than the market still holds.
    InsufficientLiquidity,
    /// Nothing has accrued to the creator.
    NoFeesToClaim,
    /// The vault holds nothing above its floor.
    NoFundsToWithdraw,
    /// The name has more than 32 characters.
    NameTooLong,
    /// The symbol has more than 10 characters.
    SymbolTooLong,
    /// The caller is not the market's creator.
    NotCreator,
    /// The caller is not the configured authority.
    Unauthorized,
    /// The record to be created already exists.
    AlreadyInitialized,
    /// A quantity does not fit its 64- or 128-bit field, or a ratio has a zero denominator.
    MathOverflow,
}

impl BonkrError {
    /// The fixed human-readable message of the rejection.
    pub fn message(&self) -> (text: String)
        ensures
            text@ == self.message_text(),
    {
        match self {
            BonkrError::FactoryPaused => "Factory is paused".to_string(),
            BonkrError::TokenPaused => "Token is paused".to_string(),
            BonkrError::TokenGraduated => "Token has graduated".to_string(),
            BonkrError::AlreadyGraduated => "Already graduated".to_string(),
            BonkrError::InvalidAmount => "Invalid amount".to_string(),
            BonkrError::SlippageExceeded => "Slippage exceeded".to_string(),
            BonkrError::InsufficientTokens => "Insufficient tokens in reserve".to_string(),
            BonkrError::InsufficientLiquidity => "Insufficient liquidity".to_string(),
            BonkrError::NoFeesToClaim => "No fees to claim".to_string(),
            BonkrError::NoFundsToWithdraw => "No funds to withdraw".to_string(),
            BonkrError::NameTooLong => "Name too long (max 32 chars)".to_string(),
            BonkrError::SymbolTooLong => "Symbol too long (max 10 chars)".to_string(),
            BonkrError::NotCreator => "Not the token creator".to_string(),
            BonkrError::Unauthorized => "Not the configured authority".to_string(),
            BonkrError::AlreadyInitialized => "Already initialized".to_string(),
            BonkrError::MathOverflow => "Arithmetic overflow".to_string(),
        }
    }

    /// The message of each rejection, as a sequence of characters.
    pub open spec fn message_text(&self) -> Seq<char> {
        match self {
            BonkrError::FactoryPaused => "Factory is paused"@,
            BonkrError::TokenPaused => "Token is paused"@,
            BonkrError::TokenGraduated => "Token has graduated"@,
            BonkrError::AlreadyGraduated => "Already graduated"@,
            BonkrError::InvalidAmount => "Invalid amount"@,
            BonkrError::SlippageExceeded => "Slippage exceeded"@,
            BonkrError::InsufficientTokens => "Insufficient tokens in reserve"@,
            BonkrError::InsufficientLiquidity => "Insufficient liquidity"@,
            BonkrError::NoFeesToClaim => "No fees to claim"@,
            BonkrError::NoFundsToWithdraw => "No funds to withdraw"@,
            BonkrError::NameTooLong => "Name too long (max 32 chars)"@,
            BonkrError::SymbolTooLong => "Symbol too long (max 10 chars)"@,
            BonkrError::NotCreator => "Not the token creator"@,
            BonkrError::Unauthorized => "Not the configured authority"@,
            BonkrError::AlreadyInitialized => "Already initialized"@,
            BonkrError::MathOverflow => "Arithmetic overflow"@,
        }
    }
}

} // verus!
