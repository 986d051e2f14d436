use ephemtext::decimal::decimal_string;

#[test]
fn decimal_of_zero() {
    assert_eq!(decimal_string(0), "0");
}

#[test]
fn decimal_of_single_digits() {
    let expected = ["0", "1", "2", "3", "4", "5", "6", "7", "8", "9"];
    for n in 0..10u128 {
        assert_eq!(decimal_string(n), expected[n as usize]);
    }
}

#[test]
fn decimal_of_round_numbers() {
    assert_eq!(decimal_string(10), "10");
    assert_eq!(decimal_string(100), "100");
    assert_eq!(decimal_string(1000), "1000");
    assert_eq!(decimal_string(1_000_000), "1000000");
}

#[test]
fn decimal_keeps_inner_zeros() {
    assert_eq!(decimal_string(101), "101");
    assert_eq!(decimal_string(90_040), "90040");
}

#[test]
fn decimal_of_largest_number() {
    assert_eq!(decimal_string(u128::MAX), "340282366920938463463374607431768211455");
}

#[test]
fn decimal_agrees_with_the_standard_library() {
    let samples = [0u128, 1, 9, 10, 11, 99, 100, 12_345, 4_294_967_295, 4_294_967_296,
        18_446_744_073_709_551_615, 18_446_744_073_709_551_616];
    for n in samples {
        assert_eq!(decimal_string(n), n.to_string());
    }
}

#[test]
fn decimal_of_different_numbers_differs() {
    let mut seen: Vec<String> = Vec::new();
    for n in 0..250u128 {
        let text = decimal_string(n);
        assert!(!seen.contains(&text));
        seen.push(text);
    }
}
