use vstd::prelude::*;
use crate::constants::{BASE_UNITS_PER_COIN, GRADUATION_USD, TOTAL_SUPPLY};
use crate::error::BonkrError;
use crate::events::TokenGraduated;
use crate::math::product;
use crate::state::TokenState;

verus! {

/// The value of the whole supply at the curve's price, in base-currency units, rounded down.
pub open spec fn spec_market_cap_sol(virtual_sol: int, virtual_token: int) -> int {
    (virtual_sol * TOTAL_SUPPLY) / virtual_token
}

/// The value of the whole supply in millionths of a dollar, rounded down at both divisions.
pub open spec fn spec_market_cap_usd(virtual_sol: int, virtual_token: int, sol_price_usd: int) -> int {
    (spec_market_cap_sol(virtual_sol, virtual_token) * sol_price_usd) / (BASE_UNITS_PER_COIN as int)
}

/// Whether the valuation can be computed in 128 bits: the token reserve is not zero and the
/// intermediate product fits.
pub open spec fn valuation_defined(virtual_sol: u64, virtual_token: u64, sol_price_usd: u64) -> bool {
    virtual_token != 0 && spec_market_cap_sol(virtual_sol as int, virtual_token as int)
        * sol_price_usd <= u128::MAX
}

/// What the graduation check does to a record, and the notification it gives.
pub open spec fn spec_check_graduation(state: TokenState, sol_price_usd: u64) -> Result<
    (TokenState, Option<TokenGraduated>),
    BonkrError,
> {
    let cap = spec_market_cap_usd(
        state.virtual_sol_reserve as int,
        state.virtual_token_reserve as int,
        sol_price_usd as int,
    );
    if state.is_graduated {
        Ok((state, None))
    } else if !valuation_defined(
        state.virtual_sol_reserve,
        state.virtual_token_reserve,
        sol_price_usd,
    ) {
        Err(BonkrError::MathOverflow)
    } else if cap >= GRADUATION_USD {
        Ok(
            (
                state.graduated(),
                Some(
                    TokenGraduated {
                        mint: state.mint,
                        market_cap_usd: (cap % 0x1_0000_0000_0000_0000) as u64,
                    },
                ),
            ),
        )
    } else {
        Ok((state, None))
    }
}

/// Values the whole supply at the curve's price, in millionths of a dollar.
pub fn market_cap_usd(virtual_sol: u64, virtual_token: u64, sol_price_usd: u64) -> (cap: Result<
    u128,
    BonkrError,
>)
    ensures
        cap is Ok <==> valuation_defined(virtual_sol, virtual_token, sol_price_usd),
        cap matches Ok(v) ==> v == spec_market_cap_usd(
            virtual_sol as int,
            virtual_token as int,
            sol_price_usd as int,
        ),
        cap matches Err(e) ==> e == BonkrError::MathOverflow,
{
    if virtual_token == 0 {
        return Err(BonkrError::MathOverflow);
    }
    let cap_sol: u128 = product(virtual_sol, TOTAL_SUPPLY) / (virtual_token as u128);
    match cap_sol.checked_mul(sol_price_usd as u128) {
        Some(scaled) => Ok(scaled / (BASE_UNITS_PER_COIN as u128)),
        None => Err(BonkrError::MathOverflow),
    }
}

/// Graduates the market if its valuation has reached the threshold.
///
/// A market that has graduated is left alone. Otherwise the whole supply is valued at the
/// curve's price and at `sol_price_usd`; at or above the threshold the flag is set and a
/// notification with the valuation, reduced to its low 64 bits, is returned. The check is
/// refused, and the record left as it was, when the valuation cannot be computed.
pub fn check_graduation(token_state: &mut TokenState, sol_price_usd: u64) -> (outcome: Result<
    Option<TokenGraduated>,
    BonkrError,
>)
    ensures
        match outcome {
            Ok(notice) => spec_check_graduation(*old(token_state), sol_price_usd) == Ok::<
                (TokenState, Option<TokenGraduated>),
                BonkrError,
            >((*final(token_state), notice)),
            Err(e) => spec_check_graduation(*old(token_state), sol_price_usd) == Err::<
                (TokenState, Option<TokenGraduated>),
                BonkrError,
            >(e) && *final(token_state) == *old(token_state),
        },
        old(token_state).is_graduated ==> final(token_state).is_graduated,
        final(token_state).reserves() == old(token_state).reserves(),
{
    if token_state.is_graduated {
        return Ok(None);
    }
    let cap = match market_cap_usd(
        token_state.virtual_sol_reserve,
        token_state.virtual_token_reserve,
        sol_price_usd,
    ) {
        Ok(v) => v,
        Err(e) => { return Err(e); },
    };
    if cap >= GRADUATION_USD as u128 {
        token_state.is_graduated = true;
        let low: u128 = cap % 0x1_0000_0000_0000_0000u128;
        Ok(Some(TokenGraduated { mint: token_state.mint, market_cap_usd: low as u64 }))
    } else {
        Ok(None)
    }
}

} // verus!
