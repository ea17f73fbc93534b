use cvss::natural::Natural;
use cvss::normalize::{round_to_1_decimal, roundup};

#[test]
fn roundup_keeps_a_value_on_a_tenth() {
    assert_eq!(roundup(400_000), 40);
    assert_eq!(roundup(0), 0);
    assert_eq!(roundup(1_000_000), 100);
}

#[test]
fn roundup_raises_a_value_between_tenths() {
    assert_eq!(roundup(400_001), 41);
    assert_eq!(roundup(409_999), 41);
    assert_eq!(roundup(1), 1);
    assert_eq!(roundup(739_825), 74);
}

#[test]
fn round_to_1_decimal_goes_to_the_nearest_tenth() {
    assert_eq!(round_to_1_decimal(504, 100), 50);
    assert_eq!(round_to_1_decimal(4275, 1000), 43);
    assert_eq!(round_to_1_decimal(285, 100), 29);
    assert_eq!(round_to_1_decimal(284, 100), 28);
    assert_eq!(round_to_1_decimal(-15, 100), -2);
    assert_eq!(round_to_1_decimal(-14, 100), -1);
    assert_eq!(round_to_1_decimal(0, 7), 0);
}

#[test]
fn natural_powers_and_quotients() {
    let n = Natural::power(2, 10);
    assert_eq!(n.split(0), (1024, true));
    let n = Natural::power(10, 18).times(7);
    assert_eq!(n.split(2), (7, true));
    assert_eq!(n.split(1), (7_000_000_000, true));
    let n = Natural::power(1_000_000_007, 3);
    // 1000000007^3 = 1000000021000000147000000343
    assert_eq!(n.split(3), (1, false));
    assert_eq!(n.split(2), (1_000_000_021, false));
    assert_eq!(n.split(0), (1_000_000_021_000_000_147_000_000_343, true));
    assert_eq!(Natural::one().times(0).split(5), (0, true));
}
