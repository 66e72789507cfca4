use solana_pump_fun::utils::{
    calculate_buy_fee, calculate_sell_fee, get_amount_out, get_amount_using_spot_price,
};

#[test]
fn amount_out_of_scenario_buy() {
    assert_eq!(get_amount_out(&100, &1000, &1_000_000), 90909);
}

#[test]
fn amount_out_of_nothing_is_zero() {
    assert_eq!(get_amount_out(&0, &1000, &1_000_000), 0);
}

#[test]
fn amount_out_never_drains_reserve() {
    let out = get_amount_out(&1_000_000_000_000, &1, &1000);
    assert_eq!(out, 999);
    assert!(out < 1000);
    let out = get_amount_out(&(u64::MAX as u128), &1, &(u64::MAX as u128));
    assert!((out as u128) < u64::MAX as u128);
}

#[test]
fn amount_out_with_empty_input_reserve_takes_everything() {
    assert_eq!(get_amount_out(&5, &0, &700), 700);
}

#[test]
fn spot_price_amount() {
    assert_eq!(get_amount_using_spot_price(&100, &1100, &909091), 82644);
    assert_eq!(get_amount_using_spot_price(&3, &2, &10), 15);
}

#[test]
fn spot_price_of_nothing_is_zero() {
    assert_eq!(get_amount_using_spot_price(&0, &5, &7), 0);
    assert_eq!(get_amount_using_spot_price(&0, &1, &(u64::MAX as u128)), 0);
}

#[test]
fn buy_fee_is_fee_inclusive() {
    assert_eq!(calculate_buy_fee(&101, &100), 1);
    assert_eq!(calculate_buy_fee(&10_100, &100), 100);
    assert_eq!(calculate_buy_fee(&10_500, &500), 500);
    assert_eq!(calculate_buy_fee(&100, &0), 0);
}

#[test]
fn buy_fee_bounded_and_monotone() {
    let mut previous = 0;
    for g in [0u128, 1, 99, 100, 101, 10_099, 10_100, 1_000_000] {
        let fee = calculate_buy_fee(&g, &250);
        assert!(fee as u128 <= g);
        assert!(fee as u128 + (g - fee as u128) <= g);
        assert!(fee >= previous);
        previous = fee;
    }
    let mut previous = 0;
    for f in [0u128, 1, 100, 499, 500, 10_000, 20_000] {
        let fee = calculate_buy_fee(&1_000_003, &f);
        assert!(fee >= previous);
        previous = fee;
    }
}

#[test]
fn sell_fee_is_proportional() {
    assert_eq!(calculate_sell_fee(&99_999, &100), 999);
    assert_eq!(99_999 - calculate_sell_fee(&99_999, &100), 99_000);
    assert_eq!(calculate_sell_fee(&10_000, &500), 500);
    assert_eq!(calculate_sell_fee(&99, &100), 0);
}

#[test]
fn sell_fee_never_exceeds_gross() {
    for g in [0u128, 1, 9_999, 10_000, 123_456_789] {
        for f in [0u128, 1, 500, 9_999, 10_000] {
            assert!(calculate_sell_fee(&g, &f) as u128 <= g);
        }
    }
    assert_eq!(calculate_sell_fee(&123_456_789, &10_000), 123_456_789);
}
