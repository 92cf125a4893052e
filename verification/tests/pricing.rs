use pumpfun_client::curve::CurveState;
use pumpfun_client::quote::{buy_quote, sell_quote};

fn active_state(virtual_sol: u64, virtual_token: u64) -> CurveState {
    CurveState {
        virtual_token_reserves: virtual_token,
        virtual_sol_reserves: virtual_sol,
        real_token_reserves: 0,
        real_sol_reserves: 0,
        token_total_supply: 0,
        complete: false,
    }
}

#[test]
fn price_is_zero_when_complete() {
    let mut s = active_state(30_000_000_000, 1_073_000_000_000_000);
    s.complete = true;
    let p = s.price();
    assert_eq!(p.numerator, 0);
}

#[test]
fn price_is_zero_when_token_reserve_empty() {
    let p = active_state(30_000_000_000, 0).price();
    assert_eq!(p.numerator, 0);
}

#[test]
fn price_is_zero_when_sol_reserve_empty() {
    let p = active_state(0, 1_073_000_000_000_000).price();
    assert_eq!(p.numerator, 0);
}

#[test]
fn price_is_positive_for_positive_reserves() {
    let p = active_state(30_000_000_000, 1_073_000_000_000_000).price();
    assert!(p.numerator > 0);
    assert!(p.denominator > 0);
}

#[test]
fn price_of_launch_reserves_matches_formula() {
    // The reserve ratio scaled by the assets' decimal precisions:
    // (30_000_000_000 / 1e9) / (1_073_000_000_000_000 / 1e6) = 30 / 1.073e9.
    let p = active_state(30_000_000_000, 1_073_000_000_000_000).price();
    assert_eq!(p.numerator, 30_000_000_000);
    assert_eq!(p.denominator, 1_073_000_000_000_000_000);
    let approx = p.numerator as f64 / p.denominator as f64;
    let expected = 30.0f64 / 1.073e9;
    assert!((approx - expected).abs() < expected * 1e-12);
}

#[test]
fn buy_quote_of_one_sol_at_launch_reserves() {
    let q = buy_quote(1_000_000_000, 30_000_000_000, 1_073_000_000_000_000, 1000);
    // 1_000_000_000 * 1_073_000_000_000_000 / 30_000_000_000, floored.
    assert_eq!(q.amount_out, 35_766_666_666_666);
    // One SOL widened by a 10% slippage fraction.
    assert_eq!(q.bound, 1_100_000_000);
}

#[test]
fn buy_bound_never_undercuts_input() {
    for bps in [0u64, 1, 500, 9999, 10000] {
        let q = buy_quote(123_456_789, 30_000_000_000, 1_073_000_000_000_000, bps);
        assert!(q.bound >= 123_456_789);
    }
    let q = buy_quote(u64::MAX, 1, 2, 10000);
    assert!(q.bound >= u64::MAX);
}

#[test]
fn buy_amount_out_saturates_at_u64_limit() {
    let q = buy_quote(u64::MAX, 1, u64::MAX, 0);
    assert_eq!(q.amount_out, u64::MAX);
}

#[test]
fn sell_quote_mirrors_reserve_ratio() {
    let q = sell_quote(35_766_666_666_666, 30_000_000_000, 1_073_000_000_000_000, 1000);
    // 35_766_666_666_666 * 30_000_000_000 / 1_073_000_000_000_000, floored.
    assert_eq!(q.amount_out, 999_999_999);
    // The raw quote narrowed by the 10% slippage fraction.
    assert_eq!(q.bound, 999_999_999 - 99_999_999);
}

#[test]
fn sell_bound_never_exceeds_raw_quote() {
    for bps in [0u64, 1, 500, 9999, 10000] {
        let q = sell_quote(1_000_000, 30_000_000_000, 1_073_000_000_000_000, bps);
        assert!(q.bound <= q.amount_out);
    }
}

#[test]
fn sell_with_full_slippage_accepts_zero_out() {
    let q = sell_quote(1_000_000, 30_000_000_000, 1_073_000_000_000_000, 10000);
    assert_eq!(q.bound, 0);
}

#[test]
fn zero_slippage_keeps_bounds_tight() {
    let qb = buy_quote(5_000, 1_000, 9_000, 0);
    assert_eq!(qb.bound, 5_000);
    let qs = sell_quote(5_000, 1_000, 9_000, 0);
    assert_eq!(qs.bound, qs.amount_out);
}
