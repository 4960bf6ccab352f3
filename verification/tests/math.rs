use alioth_amm::errors::AmmError;
use alioth_amm::utils::AmmMath;

#[test]
fn test_sqrt() {
    assert_eq!(AmmMath::sqrt(0), 0);
    assert_eq!(AmmMath::sqrt(1), 1);
    assert_eq!(AmmMath::sqrt(4), 2);
    assert_eq!(AmmMath::sqrt(9), 3);
    assert_eq!(AmmMath::sqrt(16), 4);
    assert_eq!(AmmMath::sqrt(100), 10);
    assert_eq!(AmmMath::sqrt(10000), 100);
}

#[test]
fn test_get_amount_out() {
    // 0.3% fee: 100 in against reserves of (1000, 1000).
    // After the fee: 100 * 997 / 1000 = 99.7
    // Output: 99.7 * 1000 / (1000 + 99.7) = 90.66.., which is paid out as 90 whole units.
    let result = AmmMath::get_amount_out(100, 1000, 1000, 3, 1000);
    assert!(result.is_ok());
    assert_eq!(result.unwrap(), 90);
    // Before rounding the output lies strictly between 90 and 91.
    let numerator: u128 = 100 * 997 * 1000;
    let denominator: u128 = 1000 * 1000 + 100 * 997;
    assert!(90 * denominator < numerator && numerator < 91 * denominator);
    // The same trade in thousandths of a unit shows the part that rounding drops:
    // strictly between 90 and 91 units.
    let fine = AmmMath::get_amount_out(100_000, 1_000_000, 1_000_000, 3, 1000).unwrap();
    assert!(fine > 90_000 && fine < 91_000);
    assert_eq!(fine, 90_661);
}

#[test]
fn sqrt_rounds_down_between_squares() {
    assert_eq!(AmmMath::sqrt(2), 1);
    assert_eq!(AmmMath::sqrt(3), 1);
    assert_eq!(AmmMath::sqrt(8), 2);
    assert_eq!(AmmMath::sqrt(15), 3);
    assert_eq!(AmmMath::sqrt(99), 9);
    assert_eq!(AmmMath::sqrt(10_001), 100);
}

#[test]
fn sqrt_of_the_largest_values() {
    assert_eq!(AmmMath::sqrt(u128::MAX), u64::MAX as u128);
    let square = (u64::MAX as u128) * (u64::MAX as u128);
    assert_eq!(AmmMath::sqrt(square), u64::MAX as u128);
    assert_eq!(AmmMath::sqrt(square - 1), u64::MAX as u128 - 1);
}

#[test]
fn sqrt_brackets_every_small_value() {
    let mut y: u128 = 0;
    while y < 5000 {
        let r = AmmMath::sqrt(y);
        assert!(r * r <= y && y < (r + 1) * (r + 1));
        y += 1;
    }
}

#[test]
fn get_amount_out_rejects_zero_input() {
    assert_eq!(AmmMath::get_amount_out(0, 1000, 1000, 3, 1000), Err(AmmError::ZeroAmount));
}

#[test]
fn get_amount_out_rejects_empty_reserves() {
    assert_eq!(
        AmmMath::get_amount_out(100, 0, 1000, 3, 1000),
        Err(AmmError::InsufficientLiquidity)
    );
    assert_eq!(
        AmmMath::get_amount_out(100, 1000, 0, 3, 1000),
        Err(AmmError::InsufficientLiquidity)
    );
}

#[test]
fn get_amount_out_rejects_a_fee_above_one() {
    assert_eq!(AmmMath::get_amount_out(100, 1000, 1000, 5, 3), Err(AmmError::MathOverflow));
}

#[test]
fn get_amount_out_rejects_a_zero_denominator() {
    assert_eq!(AmmMath::get_amount_out(100, 1000, 1000, 0, 0), Err(AmmError::DivisionByZero));
}

#[test]
fn get_amount_out_reports_overflow_of_the_numerator() {
    assert_eq!(
        AmmMath::get_amount_out(u64::MAX, 1, u64::MAX, 0, u64::MAX),
        Err(AmmError::MathOverflow)
    );
}

#[test]
fn get_amount_out_without_fee() {
    assert_eq!(AmmMath::get_amount_out(100, 1000, 1000, 0, 1), Ok(90));
    assert_eq!(AmmMath::get_amount_out(1000, 20_000, 10_000, 3, 1000), Ok(474));
}

#[test]
fn get_amount_out_stays_below_the_reserve() {
    let out = AmmMath::get_amount_out(u64::MAX, 1, 1000, 3, 1000).unwrap();
    assert!(out < 1000);
    assert_eq!(out, 999);
}

#[test]
fn get_amount_in_rounds_up() {
    assert_eq!(AmmMath::get_amount_in(90, 1000, 1000, 3, 1000), Ok(100));
    assert_eq!(AmmMath::get_amount_in(90, 1000, 1000, 0, 1), Ok(99));
}

#[test]
fn get_amount_in_rejections() {
    assert_eq!(AmmMath::get_amount_in(0, 1000, 1000, 3, 1000), Err(AmmError::ZeroAmount));
    assert_eq!(
        AmmMath::get_amount_in(1000, 1000, 1000, 3, 1000),
        Err(AmmError::InsufficientLiquidity)
    );
    assert_eq!(
        AmmMath::get_amount_in(1001, 1000, 1000, 3, 1000),
        Err(AmmError::InsufficientLiquidity)
    );
    assert_eq!(
        AmmMath::get_amount_in(10, 0, 1000, 3, 1000),
        Err(AmmError::InsufficientLiquidity)
    );
    assert_eq!(AmmMath::get_amount_in(10, 1000, 1000, 7, 7), Err(AmmError::DivisionByZero));
    assert_eq!(AmmMath::get_amount_in(10, 1000, 1000, 8, 7), Err(AmmError::MathOverflow));
}

#[test]
fn get_amount_in_reports_a_quote_beyond_64_bits() {
    // 2^60 * 2^50 / 1 + 1 does not fit in 64 bits.
    assert_eq!(
        AmmMath::get_amount_in(1 << 50, 1 << 60, (1 << 50) + 1, 0, 1),
        Err(AmmError::MathOverflow)
    );
    assert_eq!(
        AmmMath::get_amount_in(u64::MAX - 1, u64::MAX, u64::MAX, 0, u64::MAX),
        Err(AmmError::MathOverflow)
    );
}

#[test]
fn round_trip_quotes_the_payment_where_one_unit_less_buys_less() {
    let out = AmmMath::get_amount_out(100, 1000, 1000, 3, 1000).unwrap();
    let back = AmmMath::get_amount_in(out, 1000, 1000, 3, 1000).unwrap();
    assert!(back >= 100);
    assert!(back <= 101);
    // 99 buys 89, so 100 is the least payment for 90.
    assert_eq!(AmmMath::get_amount_out(99, 1000, 1000, 3, 1000), Ok(89));
}

#[test]
fn round_trip_quotes_less_where_rounding_ate_part_of_the_payment() {
    // 500 into (1000, 10) buys 3.33.., paid out as 3; 430 already buys 3.
    let out = AmmMath::get_amount_out(500, 1000, 10, 3, 1000).unwrap();
    assert_eq!(out, 3);
    let back = AmmMath::get_amount_in(out, 1000, 10, 3, 1000).unwrap();
    assert_eq!(back, 430);
    assert!(back <= 500 + 1);
    assert_eq!(AmmMath::get_amount_out(back, 1000, 10, 3, 1000), Ok(3));
    assert_eq!(AmmMath::get_amount_out(back - 1, 1000, 10, 3, 1000), Ok(2));
}

#[test]
fn swap_output_never_shrinks_the_product() {
    let cases: [(u64, u64, u64, u64, u64); 6] = [
        (100, 1000, 1000, 3, 1000),
        (1, 1, 1, 0, 1),
        (7, 13, 1_000_000, 1, 10),
        (1_000_000, 3, 5, 3, 1000),
        (123_456_789, 987_654_321, 555_555_555, 30, 10_000),
        (1 << 40, 1 << 50, 1 << 45, 3, 1000),
    ];
    for (amount_in, reserve_in, reserve_out, n, d) in cases {
        let out = AmmMath::get_amount_out(amount_in, reserve_in, reserve_out, n, d).unwrap();
        let before = (reserve_in as u128) * (reserve_out as u128);
        let after = (reserve_in as u128 + amount_in as u128) * ((reserve_out - out) as u128);
        assert!(after >= before);
    }
}

#[test]
fn initial_liquidity_is_the_root_of_the_product() {
    assert_eq!(AmmMath::calculate_initial_liquidity(10_000, 10_000), Ok(10_000));
    assert_eq!(AmmMath::calculate_initial_liquidity(4, 9), Ok(6));
    assert_eq!(AmmMath::calculate_initial_liquidity(1, 2), Ok(1));
    assert_eq!(AmmMath::calculate_initial_liquidity(0, 5), Ok(0));
    assert_eq!(AmmMath::calculate_initial_liquidity(u64::MAX, u64::MAX), Ok(u64::MAX));
}

#[test]
fn liquidity_is_the_smaller_claim() {
    assert_eq!(AmmMath::calculate_liquidity(500, 1000, 10_000, 20_000, 10_000), Ok(500));
    assert_eq!(AmmMath::calculate_liquidity(500, 100, 10_000, 20_000, 10_000), Ok(50));
    assert_eq!(AmmMath::calculate_liquidity(100, 1000, 10_000, 20_000, 10_000), Ok(100));
    assert_eq!(AmmMath::calculate_liquidity(1, 1, 3, 3, 2), Ok(0));
}

#[test]
fn liquidity_rejections() {
    assert_eq!(
        AmmMath::calculate_liquidity(1, 1, 0, 5, 10),
        Err(AmmError::InsufficientLiquidity)
    );
    assert_eq!(
        AmmMath::calculate_liquidity(1, 1, 5, 0, 10),
        Err(AmmError::InsufficientLiquidity)
    );
    assert_eq!(
        AmmMath::calculate_liquidity(u64::MAX, u64::MAX, 1, 1, u64::MAX),
        Err(AmmError::MathOverflow)
    );
}

#[test]
fn withdraw_amounts_are_pro_rata() {
    assert_eq!(AmmMath::calculate_withdraw_amounts(100, 1000, 5000, 7000), Ok((500, 700)));
    assert_eq!(AmmMath::calculate_withdraw_amounts(1, 3, 10, 20), Ok((3, 6)));
    assert_eq!(AmmMath::calculate_withdraw_amounts(0, 3, 10, 20), Ok((0, 0)));
}

#[test]
fn withdrawing_the_whole_supply_returns_the_reserves() {
    assert_eq!(AmmMath::calculate_withdraw_amounts(777, 777, 12_345, 67_890), Ok((12_345, 67_890)));
    assert_eq!(
        AmmMath::calculate_withdraw_amounts(u64::MAX, u64::MAX, u64::MAX, 1),
        Ok((u64::MAX, 1))
    );
}

#[test]
fn withdraw_amounts_rejections() {
    assert_eq!(
        AmmMath::calculate_withdraw_amounts(1, 0, 10, 20),
        Err(AmmError::InsufficientLiquidity)
    );
    assert_eq!(
        AmmMath::calculate_withdraw_amounts(u64::MAX, 1, 2, 0),
        Err(AmmError::MathOverflow)
    );
}

#[test]
fn deviation_in_basis_points() {
    assert_eq!(AmmMath::calculate_deviation_bps(0, 5), Ok(10_000));
    assert_eq!(AmmMath::calculate_deviation_bps(5, 0), Ok(10_000));
    assert_eq!(AmmMath::calculate_deviation_bps(100, 100), Ok(0));
    assert_eq!(AmmMath::calculate_deviation_bps(100, 95), Ok(500));
    assert_eq!(AmmMath::calculate_deviation_bps(95, 100), Ok(500));
    assert_eq!(AmmMath::calculate_deviation_bps(3, 1), Ok(6666));
    assert_eq!(AmmMath::calculate_deviation_bps(u64::MAX, 1), Ok(9999));
}

#[test]
fn basis_points_of_an_amount() {
    assert_eq!(AmmMath::apply_bps(1000, 500), Ok(50));
    assert_eq!(AmmMath::apply_bps(999, 1), Ok(0));
    assert_eq!(AmmMath::apply_bps(u64::MAX, 10_000), Ok(u64::MAX));
    assert_eq!(AmmMath::apply_bps(u64::MAX, 10_001), Err(AmmError::MathOverflow));
}

#[test]
fn quoted_input_buys_at_least_the_output() {
    let pools: [(u64, u64, u64, u64); 4] =
        [(1000, 1000, 3, 1000), (1_000_000, 10, 1, 10), (13, 1_000_000, 0, 1), (5, 7, 30, 10_000)];
    for (reserve_in, reserve_out, n, d) in pools {
        let mut wanted: u64 = 1;
        while wanted < reserve_out && wanted < 200 {
            let quoted = AmmMath::get_amount_in(wanted, reserve_in, reserve_out, n, d).unwrap();
            let bought = AmmMath::get_amount_out(quoted, reserve_in, reserve_out, n, d).unwrap();
            assert!(bought >= wanted);
            wanted += 1;
        }
    }
}

#[test]
fn round_trip_never_quotes_more_than_one_unit_above_the_payment() {
    let mut paid: u64 = 1;
    while paid < 3000 {
        if let Ok(out) = AmmMath::get_amount_out(paid, 1000, 777, 3, 1000) {
            if out > 0 {
                let quoted = AmmMath::get_amount_in(out, 1000, 777, 3, 1000).unwrap();
                assert!(quoted <= paid + 1);
                let least = paid == 1
                    || AmmMath::get_amount_out(paid - 1, 1000, 777, 3, 1000).unwrap() < out;
                if least {
                    assert!(quoted >= paid);
                }
            }
        }
        paid += 1;
    }
}
