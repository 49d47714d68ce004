use monsterra_bridge::text::u128_string;

#[test]
fn decimal_rendering_exact_values() {
    assert_eq!(u128_string(0), "0");
    assert_eq!(u128_string(7), "7");
    assert_eq!(u128_string(10), "10");
    assert_eq!(u128_string(12345), "12345");
    assert_eq!(u128_string(1_000_000_000_000), "1000000000000");
}

#[test]
fn decimal_rendering_matches_std() {
    for n in [0u128, 1, 9, 10, 99, 100, 255, 1 << 64, u128::MAX - 1, u128::MAX] {
        assert_eq!(u128_string(n), n.to_string());
    }
}
