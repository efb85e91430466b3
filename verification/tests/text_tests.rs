use holmes_rs::text::decimal_string;

#[test]
fn single_digits() {
    let digits = ["0", "1", "2", "3", "4", "5", "6", "7", "8", "9"];
    for (n, digit) in digits.iter().enumerate() {
        assert_eq!(decimal_string(n), *digit);
    }
}

#[test]
fn several_digits() {
    assert_eq!(decimal_string(10), "10");
    assert_eq!(decimal_string(42), "42");
    assert_eq!(decimal_string(100), "100");
    assert_eq!(decimal_string(365), "365");
    assert_eq!(decimal_string(1_000_001), "1000001");
    assert_eq!(decimal_string(9_876_543_210), "9876543210");
}

#[test]
fn the_largest_length() {
    assert_eq!(decimal_string(usize::MAX), format!("{}", usize::MAX));
}

#[test]
fn agrees_with_the_standard_rendering() {
    for n in 0_usize..2000 {
        assert_eq!(decimal_string(n), format!("{}", n));
    }
}
