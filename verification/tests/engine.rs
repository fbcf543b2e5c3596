use curve_launchpad::{AmmError, BuyResult, SellResult, AMM};

fn default_engine() -> AMM {
    AMM::new(
        30_000_000_000,
        1_073_000_000_000_000,
        0,
        793_100_000_000_000,
        1_073_000_000_000_000,
    )
}

#[test]
fn buy_quote_is_the_rounded_up_constant_product() {
    let mut amm = default_engine();
    let bought = amm.apply_buy(1_000_000_000);
    assert_eq!(
        bought,
        Ok(BuyResult { token_amount: 1_000_000_000, sol_amount: 27_960 })
    );
    assert_eq!(amm.virtual_sol_reserves, 30_000_027_960);
    assert_eq!(amm.virtual_token_reserves, 1_072_999_000_000_000);
    assert_eq!(amm.real_sol_reserves, 27_960);
    assert_eq!(amm.real_token_reserves, 793_099_000_000_000);
    assert_eq!(amm.initial_virtual_token_reserves, 1_073_000_000_000_000);
}

#[test]
fn buy_charges_the_exact_quotient_when_it_divides() {
    let mut amm = AMM::new(6, 4, 0, 4, 4);
    assert_eq!(amm.apply_buy(2), Ok(BuyResult { token_amount: 2, sol_amount: 6 }));
    assert_eq!(amm, AMM::new(12, 2, 6, 2, 4));
}

#[test]
fn buy_rounds_the_charge_up() {
    let mut amm = AMM::new(3, 3, 0, 2, 3);
    assert_eq!(amm.apply_buy(1), Ok(BuyResult { token_amount: 1, sol_amount: 2 }));
    assert_eq!(amm, AMM::new(5, 2, 2, 1, 3));
}

#[test]
fn sell_rounds_the_new_reserve_down() {
    let mut amm = AMM::new(5, 2, 2, 1, 3);
    assert_eq!(amm.apply_sell(1), Ok(SellResult { token_amount: 1, sol_amount: 2 }));
    assert_eq!(amm, AMM::new(3, 3, 0, 2, 3));

    let mut other = AMM::new(3, 3, 5, 0, 3);
    assert_eq!(other.apply_sell(1), Ok(SellResult { token_amount: 1, sol_amount: 1 }));
    assert_eq!(other, AMM::new(2, 4, 4, 1, 3));
}

#[test]
fn buy_then_sell_does_not_lower_the_product() {
    let mut amm = default_engine();
    let before = amm.virtual_sol_reserves * amm.virtual_token_reserves;
    let bought = amm.apply_buy(1_000_000_000).unwrap();
    let between = amm.virtual_sol_reserves * amm.virtual_token_reserves;
    assert!(between >= before);
    let sold = amm.apply_sell(1_000_000_000).unwrap();
    let after = amm.virtual_sol_reserves * amm.virtual_token_reserves;
    assert!(after >= before);
    assert!(sold.sol_amount <= bought.sol_amount);
    assert_eq!(sold.sol_amount, 27_960);
    assert_eq!(amm, default_engine());
}

#[test]
fn buy_then_sell_on_a_small_curve_keeps_the_rounding() {
    let mut amm = AMM::new(7, 10, 0, 10, 10);
    assert_eq!(amm.apply_buy(3), Ok(BuyResult { token_amount: 3, sol_amount: 3 }));
    assert_eq!(amm.virtual_sol_reserves * amm.virtual_token_reserves, 70);
    assert_eq!(amm.apply_sell(3), Ok(SellResult { token_amount: 3, sol_amount: 3 }));
    assert_eq!(amm, AMM::new(7, 10, 0, 10, 10));

    let mut odd = AMM::new(7, 9, 0, 9, 9);
    assert_eq!(odd.apply_buy(4), Ok(BuyResult { token_amount: 4, sol_amount: 6 }));
    assert_eq!(odd.apply_sell(4), Ok(SellResult { token_amount: 4, sol_amount: 6 }));
    assert_eq!(odd.virtual_sol_reserves * odd.virtual_token_reserves, 63);
}

#[test]
fn buying_all_virtual_tokens_is_depleted() {
    let mut amm = AMM::new(10, 5, 0, 5, 5);
    assert_eq!(amm.apply_buy(5), Err(AmmError::Depleted));
    assert_eq!(amm, AMM::new(10, 5, 0, 5, 5));

    let mut empty = AMM::new(10, 0, 0, 0, 5);
    assert_eq!(empty.apply_buy(0), Err(AmmError::Depleted));
}

#[test]
fn buy_is_cut_down_to_the_tokens_for_sale() {
    let mut amm = AMM::new(10, 5, 0, 3, 5);
    assert_eq!(amm.apply_buy(4), Ok(BuyResult { token_amount: 3, sol_amount: 15 }));
    assert_eq!(amm, AMM::new(25, 2, 15, 0, 5));

    let mut far = AMM::new(10, 5, 0, 3, 5);
    assert_eq!(far.apply_buy(u128::MAX), Ok(BuyResult { token_amount: 3, sol_amount: 15 }));
    assert_eq!(far, AMM::new(25, 2, 15, 0, 5));

    let mut exact = AMM::new(10, 5, 0, 3, 5);
    assert_eq!(exact.apply_buy(3), Ok(BuyResult { token_amount: 3, sol_amount: 15 }));
    assert_eq!(exact, AMM::new(25, 2, 15, 0, 5));

    let mut sold_out = AMM::new(25, 2, 15, 0, 5);
    assert_eq!(sold_out.apply_buy(1), Ok(BuyResult { token_amount: 0, sol_amount: 0 }));
    assert_eq!(sold_out, AMM::new(25, 2, 15, 0, 5));
}

#[test]
fn buying_more_than_the_virtual_reserves_overflows() {
    let mut amm = AMM::new(10, 5, 0, 8, 5);
    assert_eq!(amm.apply_buy(6), Err(AmmError::Overflow));
    assert_eq!(amm.apply_buy(9), Err(AmmError::Overflow));
    assert_eq!(amm.apply_buy(5), Err(AmmError::Depleted));
    assert_eq!(amm, AMM::new(10, 5, 0, 8, 5));
    assert_eq!(amm.apply_buy(3), Ok(BuyResult { token_amount: 3, sol_amount: 15 }));
}

#[test]
fn buy_rejects_what_does_not_fit() {
    let mut product = AMM::new(u128::MAX, 2, 0, 1, 2);
    assert_eq!(product.apply_buy(1), Err(AmmError::Overflow));

    let mut real_sol = AMM::new(3, 3, u128::MAX, 2, 3);
    assert_eq!(real_sol.apply_buy(1), Err(AmmError::Overflow));
    assert_eq!(real_sol, AMM::new(3, 3, u128::MAX, 2, 3));

    let big = u64::MAX as u128;
    let mut charge = AMM::new(big, 4, 0, 3, 4);
    assert_eq!(charge.apply_buy(3), Err(AmmError::Overflow));
    assert_eq!(
        charge.apply_buy(2),
        Ok(BuyResult { token_amount: 2, sol_amount: u64::MAX })
    );

    let mut amount = AMM::new(1, u128::MAX, 0, u128::MAX, 1);
    assert_eq!(amount.apply_buy(big + 1), Err(AmmError::Overflow));
}

#[test]
fn buying_nothing_costs_nothing() {
    let mut amm = AMM::new(7, 9, 1, 4, 9);
    assert_eq!(amm.apply_buy(0), Ok(BuyResult { token_amount: 0, sol_amount: 0 }));
    assert_eq!(amm, AMM::new(7, 9, 1, 4, 9));
}

#[test]
fn sell_needs_the_currency_to_be_held() {
    let mut amm = AMM::new(5, 2, 1, 1, 3);
    assert_eq!(amm.apply_sell(1), Err(AmmError::InsufficientLiquidity));
    assert_eq!(amm, AMM::new(5, 2, 1, 1, 3));
    amm.real_sol_reserves = 2;
    assert_eq!(amm.apply_sell(1), Ok(SellResult { token_amount: 1, sol_amount: 2 }));
}

#[test]
fn sell_rejects_what_does_not_fit() {
    let mut virtual_tokens = AMM::new(1, u128::MAX, 0, 0, 1);
    assert_eq!(virtual_tokens.apply_sell(1), Err(AmmError::Overflow));

    let mut real_tokens = AMM::new(1, 1, 1, u128::MAX, 1);
    assert_eq!(real_tokens.apply_sell(1), Err(AmmError::Overflow));

    let mut product = AMM::new(u128::MAX, 2, u128::MAX, 0, 2);
    assert_eq!(product.apply_sell(1), Err(AmmError::Overflow));

    let mut amount = AMM::new(1, 1, 1, 0, 1);
    assert_eq!(amount.apply_sell(u64::MAX as u128 + 1), Err(AmmError::Overflow));
    assert_eq!(amount, AMM::new(1, 1, 1, 0, 1));

    let wide = 1u128 << 70;
    let mut payout = AMM::new(wide, 1, wide, 0, 1);
    assert_eq!(payout.apply_sell(1), Err(AmmError::Overflow));
}

#[test]
fn selling_nothing_into_nothing_is_depleted() {
    let mut amm = AMM::new(5, 0, 4, 0, 0);
    assert_eq!(amm.apply_sell(0), Err(AmmError::Depleted));
    assert_eq!(amm.apply_sell(1), Err(AmmError::InsufficientLiquidity));
    assert_eq!(amm, AMM::new(5, 0, 4, 0, 0));
    amm.real_sol_reserves = 5;
    assert_eq!(amm.apply_sell(1), Ok(SellResult { token_amount: 1, sol_amount: 5 }));
    assert_eq!(amm, AMM::new(0, 1, 0, 1, 0));
}

#[test]
fn tokens_for_sale_stay_within_the_virtual_reserves() {
    let mut amm = default_engine();
    for amount in [1u128, 1_000, 5_000_000_000, 793_000_000_000_000] {
        amm.apply_buy(amount).unwrap();
        assert!(amm.real_token_reserves <= amm.virtual_token_reserves);
    }
    for amount in [7u128, 5_000_000_000, 100_000_000_000_000] {
        amm.apply_sell(amount).unwrap();
        assert!(amm.real_token_reserves <= amm.virtual_token_reserves);
    }
}
