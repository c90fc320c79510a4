use bonkr::{
    buy, create_token, quote_buy, quote_sell, sell, BonkrError, BuyQuote, CreateToken,
    GlobalConfig, Pubkey, SellQuote, TokenBought, TokenCreated, TokenGraduated, TokenSold,
    TokenState, Trade, INITIAL_VIRTUAL_SOL, INITIAL_VIRTUAL_TOKENS, TOTAL_SUPPLY,
};

fn key(tag: u8) -> Pubkey {
    Pubkey { bytes: [tag; 32] }
}

fn config() -> GlobalConfig {
    GlobalConfig {
        authority: key(1),
        platform_fee_recipient: key(2),
        oracle: key(1),
        creation_fee: 20_000_000,
        token_count: 0,
        sol_price_usd: 200_000_000,
        is_paused: false,
        bump: 254,
    }
}

fn fresh_market() -> TokenState {
    TokenState {
        mint: key(10),
        creator: key(11),
        name: "Bonk Rocket".to_string(),
        symbol: "BNKR".to_string(),
        uri: "https://example.org/bnkr.json".to_string(),
        virtual_sol_reserve: INITIAL_VIRTUAL_SOL,
        virtual_token_reserve: INITIAL_VIRTUAL_TOKENS,
        real_sol_reserve: 0,
        real_token_reserve: TOTAL_SUPPLY,
        total_burned: 0,
        volume: 0,
        creator_fees_accrued: 0,
        is_graduated: false,
        is_paused: false,
        created_at: 1_700_000_000,
        bump: 253,
        vault_bump: 252,
    }
}

fn trade(state: TokenState) -> Trade {
    Trade { config: config(), token_state: state, user: key(20) }
}

fn after_first_buy() -> TokenState {
    let mut state = fresh_market();
    state.virtual_sol_reserve = 30_985_000_000;
    state.virtual_token_reserve = 1_038_889_785_380_022_591;
    state.real_sol_reserve = 990_000_000;
    state.real_token_reserve = 965_889_785_380_022_591;
    state.total_burned = 170_551_073_099_887;
    state.volume = 1_000_000_000;
    state.creator_fees_accrued = 5_000_000;
    state
}

#[test]
fn constants_have_their_fixed_values() {
    assert_eq!(TOTAL_SUPPLY, 1_000_000_000 * 1_000_000_000);
    assert_eq!(INITIAL_VIRTUAL_SOL, 30 * 1_000_000_000);
    assert_eq!(INITIAL_VIRTUAL_TOKENS, 1_073_000_000 * 1_000_000_000);
    assert_eq!(bonkr::GRADUATION_USD, 30_000 * 1_000_000);
    assert_eq!(bonkr::BURN_FEE_BP, 50);
    assert_eq!(bonkr::PLATFORM_FEE_BP, 100);
    assert_eq!(bonkr::CREATOR_FEE_BP, 50);
    assert_eq!(bonkr::TOTAL_FEE_BP, 200);
    assert_eq!(bonkr::BP_DENOMINATOR, 10_000);
    assert_eq!(bonkr::INITIAL_SOL_PRICE_USD, 200 * 1_000_000);
}

#[test]
fn first_buy_quote_matches_the_curve_exactly() {
    let state = fresh_market();
    let quote = quote_buy(&state, 1_000_000_000, 0).unwrap();
    let k: u128 = 30_000_000_000u128 * 1_073_000_000_000_000_000u128;
    let new_token = (k / 30_985_000_000u128) as u64;
    let tokens_out = 1_073_000_000_000_000_000 - new_token;
    assert_eq!(tokens_out, 34_110_214_619_977_409);
    assert_eq!(
        quote,
        BuyQuote {
            platform_fee: 10_000_000,
            creator_fee: 5_000_000,
            sol_to_reserve: 985_000_000,
            new_virtual_sol: 30_985_000_000,
            new_virtual_token: 1_038_889_785_380_022_591,
            tokens_out,
            burn_amount: tokens_out * 50 / 10_000,
            tokens_to_buyer: tokens_out - tokens_out * 50 / 10_000,
        }
    );
    assert_eq!(quote.burn_amount, 170_551_073_099_887);
    assert_eq!(quote.tokens_to_buyer, 33_939_663_546_877_522);
}

#[test]
fn first_buy_books_every_quantity() {
    let mut ctx = trade(fresh_market());
    let (receipt, notice) = buy(&mut ctx, 1_000_000_000, 0).unwrap();
    assert_eq!(receipt.vault_deposit, 990_000_000);
    assert_eq!(receipt.platform_fee, 10_000_000);
    assert_eq!(receipt.tokens_to_buyer, 33_939_663_546_877_522);
    assert_eq!(
        receipt.bought,
        TokenBought {
            mint: key(10),
            buyer: key(20),
            sol_amount: 1_000_000_000,
            token_amount: 33_939_663_546_877_522,
        }
    );
    assert_eq!(notice, None);
    assert_eq!(ctx.token_state, after_first_buy());
    assert_eq!(ctx.config, config());
}

#[test]
fn buy_never_raises_the_curve_product() {
    let before = fresh_market();
    let mut ctx = trade(fresh_market());
    buy(&mut ctx, 1_000_000_000, 0).unwrap();
    let k_before = before.virtual_sol_reserve as u128 * before.virtual_token_reserve as u128;
    let k_after =
        ctx.token_state.virtual_sol_reserve as u128 * ctx.token_state.virtual_token_reserve as u128;
    assert!(k_after <= k_before);
    assert!(k_before - k_after < ctx.token_state.virtual_sol_reserve as u128);
    assert_eq!(k_before - k_after, 17_865_000_000);
}

#[test]
fn buy_keeps_the_curve_product_where_division_is_exact() {
    // Of 1000 base units 985 enter the curve; with reserves of 15 and 1000 the new base
    // reserve, 1000, divides the product 15000.
    let mut state = fresh_market();
    state.virtual_sol_reserve = 15;
    state.virtual_token_reserve = 1_000;
    let mut ctx = trade(state);
    buy(&mut ctx, 1_000, 0).unwrap();
    assert_eq!(ctx.token_state.virtual_sol_reserve, 1_000);
    assert_eq!(ctx.token_state.virtual_token_reserve, 15);
    assert_eq!(
        ctx.token_state.virtual_sol_reserve as u128 * ctx.token_state.virtual_token_reserve as u128,
        15_000
    );
}

#[test]
fn sale_after_first_buy_matches_the_curve_exactly() {
    let state = after_first_buy();
    let quote = quote_sell(&state, 33_939_663_546_877_522, 0).unwrap();
    assert_eq!(
        quote,
        SellQuote {
            sol_out_gross: 980_230_806,
            platform_fee: 9_802_308,
            creator_fee: 4_901_154,
            sol_to_seller: 960_626_190,
            burn_amount: 169_698_317_734_387,
            new_virtual_sol: 30_004_769_194,
            new_virtual_token: 1_072_829_448_926_900_113,
        }
    );
}

#[test]
fn sale_books_every_quantity() {
    let mut ctx = trade(after_first_buy());
    let (receipt, notice) = sell(&mut ctx, 33_939_663_546_877_522, 0).unwrap();
    assert_eq!(receipt.tokens_from_seller, 33_939_663_546_877_522);
    assert_eq!(receipt.burn_amount, 169_698_317_734_387);
    assert_eq!(receipt.platform_fee, 9_802_308);
    assert_eq!(receipt.sol_to_seller, 960_626_190);
    assert_eq!(
        receipt.sold,
        TokenSold {
            mint: key(10),
            seller: key(20),
            token_amount: 33_939_663_546_877_522,
            sol_amount: 960_626_190,
        }
    );
    assert_eq!(notice, None);
    let mut expected = after_first_buy();
    expected.virtual_sol_reserve = 30_004_769_194;
    expected.virtual_token_reserve = 1_072_829_448_926_900_113;
    expected.real_sol_reserve = 9_769_194;
    expected.real_token_reserve = 999_659_750_609_165_726;
    expected.total_burned = 340_249_390_834_274;
    expected.volume = 1_980_230_806;
    expected.creator_fees_accrued = 9_901_154;
    assert_eq!(ctx.token_state, expected);
}

#[test]
fn seller_receives_no_more_than_the_curve_releases() {
    let before = after_first_buy();
    let mut ctx = trade(after_first_buy());
    let (receipt, _) = sell(&mut ctx, 10_000_000_000_000_000, 0).unwrap();
    let released = before.real_sol_reserve - ctx.token_state.real_sol_reserve;
    assert!(receipt.sol_to_seller <= released);
    assert!(released <= before.real_sol_reserve);
}

#[test]
fn round_trip_pays_back_less_than_it_cost() {
    let mut ctx = trade(fresh_market());
    let (bought, _) = buy(&mut ctx, 1_000_000_000, 0).unwrap();
    let (sold, _) = sell(&mut ctx, bought.tokens_to_buyer, 0).unwrap();
    assert_eq!(sold.sol_to_seller, 960_626_190);
    assert!(sold.sol_to_seller < 1_000_000_000);
}

#[test]
fn round_trip_from_fifty_units_up_loses_value() {
    for (cost, back) in [(50u64, 49u64), (51, 50), (98, 97), (99, 98), (100, 98)] {
        let mut ctx = trade(fresh_market());
        let (bought, _) = buy(&mut ctx, cost, 0).unwrap();
        let (sold, _) = sell(&mut ctx, bought.tokens_to_buyer, 0).unwrap();
        assert_eq!(sold.sol_to_seller, back);
        assert!(sold.sol_to_seller < cost);
    }
}

#[test]
fn round_trip_of_dust_pays_back_what_it_cost() {
    let mut ctx = trade(fresh_market());
    let (bought, _) = buy(&mut ctx, 49, 0).unwrap();
    assert_eq!(bought.tokens_to_buyer, 1_743_803_831);
    let (sold, _) = sell(&mut ctx, bought.tokens_to_buyer, 0).unwrap();
    assert_eq!(sold.sol_to_seller, 49);
}

#[test]
fn round_trip_of_one_unit_pays_back_the_unit() {
    let mut ctx = trade(fresh_market());
    let (bought, _) = buy(&mut ctx, 1, 0).unwrap();
    assert_eq!(bought.tokens_to_buyer, 35_587_834);
    let (sold, _) = sell(&mut ctx, bought.tokens_to_buyer, 0).unwrap();
    assert_eq!(sold.sol_to_seller, 1);
}

#[test]
fn supply_stays_bounded_through_a_buy_and_a_sale() {
    let mut ctx = trade(fresh_market());
    let (bought, _) = buy(&mut ctx, 5_000_000_000, 0).unwrap();
    assert!(ctx.token_state.real_token_reserve + ctx.token_state.total_burned <= TOTAL_SUPPLY);
    sell(&mut ctx, bought.tokens_to_buyer, 0).unwrap();
    assert!(ctx.token_state.real_token_reserve + ctx.token_state.total_burned <= TOTAL_SUPPLY);
}

#[test]
fn buy_that_reaches_the_threshold_graduates() {
    let mut ctx = trade(fresh_market());
    let (receipt, notice) = buy(&mut ctx, 41_000_000_000, 0).unwrap();
    assert_eq!(receipt.tokens_to_buyer, 612_579_945_656_034_667);
    assert_eq!(notice, Some(TokenGraduated { mint: key(10), market_cap_usd: 30_780_044_889 }));
    assert!(ctx.token_state.is_graduated);
    assert_eq!(ctx.token_state.virtual_sol_reserve, 70_385_000_000);
    assert_eq!(ctx.token_state.virtual_token_reserve, 457_341_763_159_764_154);
    assert_eq!(ctx.token_state.real_token_reserve, 384_341_763_159_764_154);
    assert_eq!(ctx.token_state.real_sol_reserve, 40_590_000_000);
}

#[test]
fn buy_just_below_the_threshold_does_not_graduate() {
    let mut ctx = trade(fresh_market());
    let (_, notice) = buy(&mut ctx, 40_000_000_000, 0).unwrap();
    assert_eq!(notice, None);
    assert!(!ctx.token_state.is_graduated);
}

#[test]
fn graduated_market_refuses_both_trades() {
    let mut ctx = trade(fresh_market());
    buy(&mut ctx, 41_000_000_000, 0).unwrap();
    let snapshot = ctx.clone();
    assert_eq!(buy(&mut ctx, 1_000, 0), Err(BonkrError::TokenGraduated));
    assert_eq!(sell(&mut ctx, 1_000, 0), Err(BonkrError::TokenGraduated));
    assert_eq!(ctx, snapshot);
}

#[test]
fn sell_on_paused_market_fails_and_keeps_reserves() {
    let mut state = after_first_buy();
    state.is_paused = true;
    let mut ctx = trade(state.clone());
    assert_eq!(sell(&mut ctx, 1_000_000, 0), Err(BonkrError::TokenPaused));
    assert_eq!(ctx.token_state, state);
    assert_eq!(ctx.config, config());
}

#[test]
fn buy_on_paused_market_fails() {
    let mut state = fresh_market();
    state.is_paused = true;
    let mut ctx = trade(state.clone());
    assert_eq!(buy(&mut ctx, 1_000_000, 0), Err(BonkrError::TokenPaused));
    assert_eq!(ctx.token_state, state);
}

#[test]
fn paused_factory_stops_trades_before_anything_else() {
    let mut state = fresh_market();
    state.is_paused = true;
    state.is_graduated = true;
    let mut ctx = trade(state);
    ctx.config.is_paused = true;
    assert_eq!(buy(&mut ctx, 0, 0), Err(BonkrError::FactoryPaused));
    assert_eq!(sell(&mut ctx, 0, 0), Err(BonkrError::FactoryPaused));
}

#[test]
fn zero_amounts_are_invalid() {
    let mut ctx = trade(after_first_buy());
    assert_eq!(buy(&mut ctx, 0, 0), Err(BonkrError::InvalidAmount));
    assert_eq!(sell(&mut ctx, 0, 0), Err(BonkrError::InvalidAmount));
    assert_eq!(ctx.token_state, after_first_buy());
}

#[test]
fn buy_below_the_floor_is_slippage() {
    let mut ctx = trade(fresh_market());
    assert_eq!(
        buy(&mut ctx, 1_000_000_000, 34_110_214_619_977_410),
        Err(BonkrError::SlippageExceeded)
    );
    assert_eq!(ctx.token_state, fresh_market());
    assert!(buy(&mut ctx, 1_000_000_000, 34_110_214_619_977_409).is_ok());
}

#[test]
fn sale_below_the_floor_is_slippage() {
    let mut ctx = trade(after_first_buy());
    assert_eq!(
        sell(&mut ctx, 33_939_663_546_877_522, 960_626_191),
        Err(BonkrError::SlippageExceeded)
    );
    assert_eq!(ctx.token_state, after_first_buy());
    assert!(sell(&mut ctx, 33_939_663_546_877_522, 960_626_190).is_ok());
}

#[test]
fn buy_beyond_the_holding_is_insufficient_tokens() {
    let mut ctx = trade(fresh_market());
    assert_eq!(buy(&mut ctx, 500_000_000_000, 0), Err(BonkrError::InsufficientTokens));
    assert_eq!(ctx.token_state, fresh_market());
}

#[test]
fn sale_beyond_the_vault_is_insufficient_liquidity() {
    let mut ctx = trade(fresh_market());
    assert_eq!(sell(&mut ctx, 1, 0), Err(BonkrError::InsufficientLiquidity));
    let mut ctx = trade(after_first_buy());
    assert_eq!(
        sell(&mut ctx, 40_000_000_000_000_000, 0),
        Err(BonkrError::InsufficientLiquidity)
    );
    assert_eq!(ctx.token_state, after_first_buy());
}

#[test]
fn reserve_that_does_not_fit_is_an_overflow() {
    let mut state = fresh_market();
    state.virtual_sol_reserve = u64::MAX;
    let mut ctx = trade(state.clone());
    assert_eq!(buy(&mut ctx, 2, 0), Err(BonkrError::MathOverflow));
    assert_eq!(ctx.token_state, state);
    let mut state = after_first_buy();
    state.virtual_token_reserve = u64::MAX;
    let mut ctx = trade(state.clone());
    assert_eq!(sell(&mut ctx, 1, 0), Err(BonkrError::MathOverflow));
    assert_eq!(ctx.token_state, state);
}

#[test]
fn volume_that_does_not_fit_is_an_overflow() {
    let mut state = fresh_market();
    state.volume = u64::MAX - 999_999_999;
    let mut ctx = trade(state.clone());
    assert_eq!(buy(&mut ctx, 1_000_000_000, 0), Err(BonkrError::MathOverflow));
    assert_eq!(ctx.token_state, state);
    ctx.token_state.volume = u64::MAX - 1_000_000_000;
    assert!(buy(&mut ctx, 1_000_000_000, 0).is_ok());
    assert_eq!(ctx.token_state.volume, u64::MAX);
}

#[test]
fn launch_without_opening_buy() {
    let mut ctx = CreateToken {
        config: config(),
        token_state: None,
        mint: key(10),
        creator: key(11),
        unix_timestamp: 1_700_000_000,
        bump: 253,
        vault_bump: 252,
    };
    let receipt = create_token(
        &mut ctx,
        "Bonk Rocket".to_string(),
        "BNKR".to_string(),
        "https://example.org/bnkr.json".to_string(),
        0,
    )
    .unwrap();
    assert_eq!(receipt.creation_fee, 20_000_000);
    assert_eq!(receipt.minted, TOTAL_SUPPLY);
    assert_eq!(receipt.initial_buy, None);
    assert_eq!(receipt.graduated, None);
    assert_eq!(
        receipt.created,
        TokenCreated {
            mint: key(10),
            creator: key(11),
            name: "Bonk Rocket".to_string(),
            symbol: "BNKR".to_string(),
            initial_buy_sol: 0,
        }
    );
    assert_eq!(ctx.token_state, Some(fresh_market()));
    assert_eq!(ctx.config.token_count, 1);
}

#[test]
fn launch_with_opening_buy() {
    let mut ctx = CreateToken {
        config: config(),
        token_state: None,
        mint: key(10),
        creator: key(11),
        unix_timestamp: 1_700_000_000,
        bump: 253,
        vault_bump: 252,
    };
    let receipt = create_token(
        &mut ctx,
        "Bonk Rocket".to_string(),
        "BNKR".to_string(),
        "https://example.org/bnkr.json".to_string(),
        1_000_000_000,
    )
    .unwrap();
    let opening = receipt.initial_buy.unwrap();
    assert_eq!(opening.vault_deposit, 990_000_000);
    assert_eq!(opening.platform_fee, 10_000_000);
    assert_eq!(opening.tokens_to_buyer, 33_939_663_546_877_522);
    assert_eq!(opening.bought.buyer, key(11));
    assert_eq!(receipt.graduated, None);
    assert_eq!(receipt.created.initial_buy_sol, 1_000_000_000);
    assert_eq!(ctx.token_state, Some(after_first_buy()));
    assert_eq!(ctx.config.token_count, 1);
}

#[test]
fn opening_buy_that_reaches_the_threshold_graduates() {
    let mut ctx = CreateToken {
        config: config(),
        token_state: None,
        mint: key(10),
        creator: key(11),
        unix_timestamp: 5,
        bump: 1,
        vault_bump: 2,
    };
    let receipt =
        create_token(&mut ctx, "A".to_string(), "B".to_string(), String::new(), 41_000_000_000)
            .unwrap();
    assert_eq!(
        receipt.graduated,
        Some(TokenGraduated { mint: key(10), market_cap_usd: 30_780_044_889 })
    );
    let launched = ctx.token_state.unwrap();
    assert!(launched.is_graduated);
    assert_eq!(launched.virtual_sol_reserve, 70_385_000_000);
    assert_eq!(launched.virtual_token_reserve, 457_341_763_159_764_154);
}

#[test]
fn opening_buy_graduates_at_a_high_price() {
    let mut ctx = CreateToken {
        config: config(),
        token_state: None,
        mint: key(10),
        creator: key(11),
        unix_timestamp: 5,
        bump: 1,
        vault_bump: 2,
    };
    ctx.config.creation_fee = 0;
    ctx.config.sol_price_usd = 2_000_000_000;
    let receipt =
        create_token(&mut ctx, "A".to_string(), "B".to_string(), String::new(), 1_000_000_000)
            .unwrap();
    assert_eq!(
        receipt.graduated,
        Some(TokenGraduated { mint: key(10), market_cap_usd: 59_650_215_904 })
    );
    let launched = ctx.token_state.unwrap();
    assert!(launched.is_graduated);
    assert_eq!(launched.virtual_sol_reserve, 30_985_000_000);
    assert_eq!(launched.virtual_token_reserve, 1_038_889_785_380_022_591);
}

#[test]
fn opening_buy_below_the_threshold_does_not_graduate() {
    let mut ctx = CreateToken {
        config: config(),
        token_state: None,
        mint: key(10),
        creator: key(11),
        unix_timestamp: 5,
        bump: 1,
        vault_bump: 2,
    };
    let receipt =
        create_token(&mut ctx, "A".to_string(), "B".to_string(), String::new(), 40_000_000_000)
            .unwrap();
    assert_eq!(receipt.graduated, None);
    assert!(!ctx.token_state.unwrap().is_graduated);
}

#[test]
fn launch_rejections() {
    let blank = CreateToken {
        config: config(),
        token_state: None,
        mint: key(10),
        creator: key(11),
        unix_timestamp: 5,
        bump: 1,
        vault_bump: 2,
    };
    let name_32 = "x".repeat(32);
    let name_33 = "x".repeat(33);
    let symbol_10 = "y".repeat(10);
    let symbol_11 = "y".repeat(11);

    let mut ctx = blank.clone();
    assert!(create_token(&mut ctx, name_32.clone(), symbol_10.clone(), String::new(), 0).is_ok());

    let mut ctx = blank.clone();
    assert_eq!(
        create_token(&mut ctx, name_33.clone(), symbol_11.clone(), String::new(), 0),
        Err(BonkrError::NameTooLong)
    );
    assert_eq!(ctx, blank);

    let mut ctx = blank.clone();
    assert_eq!(
        create_token(&mut ctx, name_32.clone(), symbol_11.clone(), String::new(), 0),
        Err(BonkrError::SymbolTooLong)
    );
    assert_eq!(ctx, blank);

    let mut ctx = blank.clone();
    ctx.config.is_paused = true;
    assert_eq!(
        create_token(&mut ctx, name_33.clone(), symbol_11.clone(), String::new(), 0),
        Err(BonkrError::FactoryPaused)
    );

    let mut ctx = blank.clone();
    ctx.token_state = Some(fresh_market());
    ctx.config.is_paused = true;
    assert_eq!(
        create_token(&mut ctx, name_32.clone(), symbol_10.clone(), String::new(), 0),
        Err(BonkrError::AlreadyInitialized)
    );

    let mut ctx = blank.clone();
    ctx.config.token_count = u64::MAX;
    assert_eq!(
        create_token(&mut ctx, name_32.clone(), symbol_10.clone(), String::new(), 0),
        Err(BonkrError::MathOverflow)
    );

    let mut ctx = blank.clone();
    assert_eq!(
        create_token(&mut ctx, name_32, symbol_10, String::new(), 500_000_000_000),
        Err(BonkrError::InsufficientTokens)
    );
    assert_eq!(ctx, blank);
}

#[test]
fn name_length_counts_characters() {
    let mut ctx = CreateToken {
        config: config(),
        token_state: None,
        mint: key(10),
        creator: key(11),
        unix_timestamp: 5,
        bump: 1,
        vault_bump: 2,
    };
    let name = "é".repeat(32);
    assert_eq!(name.len(), 64);
    assert!(create_token(&mut ctx, name, "S".to_string(), String::new(), 0).is_ok());
}
