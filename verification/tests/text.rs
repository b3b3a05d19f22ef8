use beacon_verifier::text::u64_to_decimal;

#[test]
fn decimal_of_single_digits() {
    let digits = ["0", "1", "2", "3", "4", "5", "6", "7", "8", "9"];
    let mut n: u64 = 0;
    while n < 10 {
        assert_eq!(u64_to_decimal(n), digits[n as usize]);
        n += 1;
    }
}

#[test]
fn decimal_of_larger_numbers() {
    assert_eq!(u64_to_decimal(10), "10");
    assert_eq!(u64_to_decimal(12323), "12323");
    assert_eq!(u64_to_decimal(1_000_000), "1000000");
    assert_eq!(u64_to_decimal(9_007_199_254_740_993), "9007199254740993");
    assert_eq!(u64_to_decimal(u64::MAX), "18446744073709551615");
}

#[test]
fn decimal_agrees_with_the_standard_formatter() {
    let mut n: u64 = 1;
    while n < u64::MAX / 7 {
        assert_eq!(u64_to_decimal(n), n.to_string());
        assert_eq!(u64_to_decimal(n - 1), (n - 1).to_string());
        n = n * 7 + 3;
    }
}
