use bonding_market::{signer_seeds, BongingCurve, PumpError, SeedTag, PRICE_STEPS, TOKEN_UNIT};

fn riemann_cost(amount: u128, available_tokens: u128, base_price: f64) -> f64 {
    let step = BongingCurve::step_amount(amount);
    let mut total = 0.0;
    for remaining in BongingCurve::step_remaining_supply(amount, available_tokens) {
        let ratio = remaining as f64 / available_tokens as f64;
        total += base_price * std::f64::consts::E.powf(20.0 * (1.0 - ratio)) * (step as f64 / 1_000_000.0);
    }
    total
}

#[test]
fn one_token_steps_against_fresh_listing() {
    assert_eq!(BongingCurve::step_amount(1_000_000), 100_000);
    let remaining = BongingCurve::step_remaining_supply(1_000_000, 200_000);
    assert_eq!(
        remaining,
        vec![200_000, 100_000, 0, 0, 0, 0, 0, 0, 0, 0]
    );
}

#[test]
fn one_token_cost_is_ten_step_left_sum() {
    let mut expected = 0.0;
    for i in 0..10u32 {
        let offset = (i as u128 * 100_000).min(200_000);
        let depleted = 1.0 - (200_000 - offset) as f64 / 200_000.0;
        expected += 0.001 * std::f64::consts::E.powf(20.0 * depleted) * (100_000.0 / 1_000_000.0);
    }
    assert_eq!(riemann_cost(1_000_000, 200_000, 0.001), expected);
    // first step at depth 0, second at depth 10, eight saturated at depth 20
    let by_hand = 0.0001 * (1.0 + 10f64.exp() + 8.0 * 20f64.exp());
    assert!((expected - by_hand).abs() < 1e-6 * by_hand);
}

#[test]
fn step_amount_truncates() {
    assert_eq!(BongingCurve::step_amount(0), 0);
    assert_eq!(BongingCurve::step_amount(9), 0);
    assert_eq!(BongingCurve::step_amount(10), 1);
    assert_eq!(BongingCurve::step_amount(u128::MAX), u128::MAX / 10);
    assert_eq!(PRICE_STEPS, 10);
    assert_eq!(TOKEN_UNIT, 1_000_000);
}

#[test]
fn remaining_supply_unsaturated_and_extreme() {
    assert_eq!(
        BongingCurve::step_remaining_supply(100, 1_000),
        vec![1_000, 990, 980, 970, 960, 950, 940, 930, 920, 910]
    );
    assert_eq!(BongingCurve::step_remaining_supply(5, 1_000), vec![1_000; 10]);
    let big = BongingCurve::step_remaining_supply(u128::MAX, u128::MAX);
    assert_eq!(big[0], u128::MAX);
    assert_eq!(big[1], u128::MAX - u128::MAX / 10);
    assert_eq!(BongingCurve::step_remaining_supply(50, 0), vec![0; 10]);
}

#[test]
fn larger_trade_goes_deeper() {
    let small = BongingCurve::step_remaining_supply(200, 1_000);
    let large = BongingCurve::step_remaining_supply(600, 1_000);
    for i in 0..10 {
        assert!(large[i] <= small[i]);
    }
    assert!(riemann_cost(600, 1_000, 0.5) > riemann_cost(200, 1_000, 0.5));
}

#[test]
fn scarcer_supply_is_more_depleted() {
    let amount = 500u128;
    let (a1, a2) = (1_000u128, 4_000u128);
    let r1 = BongingCurve::step_remaining_supply(amount, a1);
    let r2 = BongingCurve::step_remaining_supply(amount, a2);
    for i in 0..10 {
        assert!((a1 - r1[i]) * a2 >= (a2 - r2[i]) * a1);
    }
    assert!(riemann_cost(amount, a1, 0.5) > riemann_cost(amount, a2, 0.5));
}

#[test]
fn signer_seeds_layout() {
    let seeds = signer_seeds(SeedTag::Listing, 1, 254);
    assert_eq!(seeds, vec![b"listing".to_vec(), 1u64.to_le_bytes().to_vec(), vec![254]]);
    let seeds = signer_seeds(SeedTag::Vault, 0x0102_0304_0506_0708, 7);
    assert_eq!(seeds[0], b"vault".to_vec());
    assert_eq!(seeds[1], vec![8, 7, 6, 5, 4, 3, 2, 1]);
    assert_eq!(seeds[2], vec![7]);
    assert_eq!(SeedTag::Mint.bytes(), b"mint".to_vec());
}

#[test]
fn error_messages() {
    assert_eq!(PumpError::InvalidAmount.message(), "Invalid Amount - it should be greater than 0");
    assert_eq!(PumpError::InsufficientTokens.message(), "Invalid Tokens");
    assert_eq!(PumpError::MathOverflow.message(), "Math Overflow");
    assert_eq!(PumpError::NameTooLong.message(), "Name Too Long");
}
