use balance_consultor::units::{wei_to_eth_parts, WEI_PER_ETH};

fn scaled(wei: u128) -> f64 {
    let (whole, frac) = wei_to_eth_parts(wei);
    whole as f64 + frac as f64 / WEI_PER_ETH as f64
}

#[test]
fn one_eth_in_wei_scales_to_one() {
    let (whole, frac) = wei_to_eth_parts(1_000_000_000_000_000_000);
    assert_eq!(whole, 1);
    assert_eq!(frac, 0);
    assert!((scaled(1_000_000_000_000_000_000) - 1.0).abs() < 1e-12);
}

#[test]
fn zero_wei_scales_to_zero() {
    let (whole, frac) = wei_to_eth_parts(0);
    assert_eq!(whole, 0);
    assert_eq!(frac, 0);
    assert_eq!(scaled(0), 0.0);
}

#[test]
fn split_is_exact_below_and_above_one_eth() {
    let (whole, frac) = wei_to_eth_parts(999_999_999_999_999_999);
    assert_eq!(whole, 0);
    assert_eq!(frac, 999_999_999_999_999_999);

    let (whole, frac) = wei_to_eth_parts(2_500_000_000_000_000_001);
    assert_eq!(whole, 2);
    assert_eq!(frac, 500_000_000_000_000_001);
    assert_eq!(whole as u128 * WEI_PER_ETH + frac as u128, 2_500_000_000_000_000_001);
}

#[test]
fn largest_amount_splits_without_loss() {
    let (whole, frac) = wei_to_eth_parts(u128::MAX);
    assert_eq!(whole as u128 * WEI_PER_ETH + frac as u128, u128::MAX);
    assert!((frac as u128) < WEI_PER_ETH);
}
