use nitro_finality_gadget::decimal::to_decimal;

#[test]
fn zero_is_written_as_one_digit() {
    assert_eq!(to_decimal(0), "0");
}

#[test]
fn single_digits() {
    let expected = ["0", "1", "2", "3", "4", "5", "6", "7", "8", "9"];
    for (n, text) in expected.iter().enumerate() {
        assert_eq!(to_decimal(n as u64), *text);
    }
}

#[test]
fn digits_come_most_significant_first() {
    assert_eq!(to_decimal(10), "10");
    assert_eq!(to_decimal(100), "100");
    assert_eq!(to_decimal(12345), "12345");
    assert_eq!(to_decimal(9_876_543_210), "9876543210");
}

#[test]
fn zeros_inside_and_at_the_end_are_kept() {
    assert_eq!(to_decimal(1_000_000), "1000000");
    assert_eq!(to_decimal(10_203_040), "10203040");
}

#[test]
fn the_largest_number() {
    assert_eq!(to_decimal(u64::MAX), "18446744073709551615");
}

#[test]
fn powers_of_ten_and_their_neighbours() {
    let mut power: u64 = 1;
    for _ in 0..19 {
        power *= 10;
        assert_eq!(to_decimal(power), power.to_string());
        assert_eq!(to_decimal(power - 1), (power - 1).to_string());
        assert_eq!(to_decimal(power + 1), (power + 1).to_string());
    }
}

#[test]
fn agrees_with_the_standard_rendering() {
    let mut n: u64 = 1;
    for _ in 0..200 {
        assert_eq!(to_decimal(n), n.to_string());
        n = n.wrapping_mul(6364136223846793005).wrapping_add(1442695040888963407);
    }
}
