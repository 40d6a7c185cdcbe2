use meshpay_rewards::{Error, MeshPayRewards};

#[test]
fn split_of_ten_thousand() {
    let split = MeshPayRewards::calculate_fees(10_000).unwrap();
    assert_eq!(split, (9_900, 50, 10, 40));
}

#[test]
fn sub_unit_fees_truncate_to_zero() {
    let split = MeshPayRewards::calculate_fees(1).unwrap();
    assert_eq!(split, (1, 0, 0, 0));
}

#[test]
fn zero_amount_splits_to_zero() {
    let split = MeshPayRewards::calculate_fees(0).unwrap();
    assert_eq!(split, (0, 0, 0, 0));
}

#[test]
fn conservation_on_samples() {
    let samples: [i128; 7] = [0, 1, 9_999, 10_000, 123_456_789, 10_001, 999];
    for gross in samples {
        let (net, broadcaster, relayer, protocol) =
            MeshPayRewards::calculate_fees(gross).unwrap();
        assert_eq!(net + broadcaster + relayer + protocol, gross);
        assert!(net >= 0 && broadcaster >= 0 && relayer >= 0 && protocol >= 0);
    }
}

#[test]
fn fees_are_computed_independently_not_from_the_total() {
    // 199 scaled by the total rate gives 199 * 100 / 10000 = 1, but each
    // share truncates to 0 on its own, so the whole amount stays net.
    let split = MeshPayRewards::calculate_fees(199).unwrap();
    assert_eq!(split, (199, 0, 0, 0));
}

#[test]
fn same_input_gives_same_output() {
    let first = MeshPayRewards::calculate_fees(123_456_789).unwrap();
    let second = MeshPayRewards::calculate_fees(123_456_789).unwrap();
    assert_eq!(first, second);
}

#[test]
fn negative_amount_is_invalid() {
    assert_eq!(MeshPayRewards::calculate_fees(-1), Err(Error::InvalidAmount));
    assert_eq!(
        MeshPayRewards::calculate_fees(i128::MIN),
        Err(Error::InvalidAmount)
    );
}

#[test]
fn huge_amount_overflows() {
    assert_eq!(
        MeshPayRewards::calculate_fees(i128::MAX),
        Err(Error::ArithmeticOverflow)
    );
    assert_eq!(
        MeshPayRewards::calculate_fees(i128::MAX / 50 + 1),
        Err(Error::ArithmeticOverflow)
    );
}

#[test]
fn largest_amount_that_fits_still_splits() {
    let gross: i128 = i128::MAX / 50;
    let (net, broadcaster, relayer, protocol) = MeshPayRewards::calculate_fees(gross).unwrap();
    assert_eq!(net + broadcaster + relayer + protocol, gross);
    assert_eq!(broadcaster, gross * 50 / 10_000);
    assert_eq!(relayer, gross * 10 / 10_000);
    assert_eq!(protocol, gross * 40 / 10_000);
}
