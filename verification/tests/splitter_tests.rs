use nft_trade::errors::EscrowError;
use nft_trade::splitter::split;

#[test]
fn split_concrete_fee() {
    // 1.5 units at 35 parts per thousand: 3.5% fee.
    let (fee, net) = split(1_500_000_000, 35).unwrap();
    assert_eq!(fee, 52_500_000);
    assert_eq!(net, 1_447_500_000);
    assert_eq!(fee + net, 1_500_000_000);
}

#[test]
fn split_zero_fee_rate() {
    let (fee, net) = split(777, 0).unwrap();
    assert_eq!(fee, 0);
    assert_eq!(net, 777);
}

#[test]
fn split_rounds_fee_down() {
    // 999 * 35 / 1000 truncates: the seller keeps the remainder.
    let (fee, net) = split(999, 35).unwrap();
    assert_eq!(fee, 34);
    assert_eq!(net, 965);
    assert_eq!(fee + net, 999);
}

#[test]
fn split_conserves_price_across_rates() {
    for rate in 0..=255u8 {
        let (fee, net) = split(1_000_000_007, rate).unwrap();
        assert_eq!(fee, 1_000_000_007u64 * rate as u64 / 1000);
        assert_eq!(fee + net, 1_000_000_007);
    }
}

#[test]
fn split_overflow_is_reported() {
    assert_eq!(split(u64::MAX, 2), Err(EscrowError::ArithmeticOverflow));
    assert_eq!(split(u64::MAX / 255, 255).map(|p| p.0 + p.1), Ok(u64::MAX / 255));
}
