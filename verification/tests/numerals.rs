use chameleon_zk::circuit::{product, public_input, MultiplyCircuit, PUBLIC_INPUT_COUNT};
use chameleon_zk::decimal::{decimal_string, is_decimal_numeral};

#[test]
fn numerals_of_small_and_large_numbers() {
    assert_eq!(decimal_string(0), "0");
    assert_eq!(decimal_string(7), "7");
    assert_eq!(decimal_string(10), "10");
    assert_eq!(decimal_string(21), "21");
    assert_eq!(decimal_string(1_000_000), "1000000");
    assert_eq!(decimal_string(u64::MAX as u128), "18446744073709551615");
    assert_eq!(decimal_string(u128::MAX), "340282366920938463463374607431768211455");
}

#[test]
fn numerals_agree_with_the_standard_formatter() {
    let samples: [u128; 6] = [1, 9, 99, 100, 12_345_678_901_234_567_890, 1 << 100];
    for n in samples {
        assert_eq!(decimal_string(n), format!("{}", n));
    }
}

#[test]
fn canonical_numerals_are_recognised() {
    assert!(is_decimal_numeral("0"));
    assert!(is_decimal_numeral("5"));
    assert!(is_decimal_numeral("21"));
    assert!(is_decimal_numeral("340282366920938463463374607431768211456"));
}

#[test]
fn everything_else_is_refused() {
    assert!(!is_decimal_numeral(""));
    assert!(!is_decimal_numeral("00"));
    assert!(!is_decimal_numeral("021"));
    assert!(!is_decimal_numeral("-3"));
    assert!(!is_decimal_numeral("+3"));
    assert!(!is_decimal_numeral("2 1"));
    assert!(!is_decimal_numeral("21 "));
    assert!(!is_decimal_numeral("0x15"));
    assert!(!is_decimal_numeral("2.1"));
    assert!(!is_decimal_numeral("٣"));
}

#[test]
fn every_written_numeral_is_recognised() {
    let samples: [u128; 5] = [0, 1, 10, 55, u128::MAX];
    for n in samples {
        assert!(is_decimal_numeral(&decimal_string(n)));
    }
}

#[test]
fn products_never_overflow() {
    assert_eq!(product(3, 7), 21);
    assert_eq!(product(0, u64::MAX), 0);
    assert_eq!(
        product(u64::MAX, u64::MAX),
        340282366920938463426481119284349108225
    );
    assert_eq!(
        public_input(u64::MAX, u64::MAX),
        "340282366920938463426481119284349108225"
    );
    assert_eq!(public_input(5, 11), "55");
}

#[test]
fn circuit_shape_and_witness() {
    assert_eq!(PUBLIC_INPUT_COUNT, 1);
    let shape = MultiplyCircuit::shape();
    assert_eq!(shape.a, None);
    assert_eq!(shape.b, None);
    assert_eq!(shape.public_output(), None);
    assert!(!shape.is_satisfied_by(0));

    let circuit = MultiplyCircuit::with_witness(3, 7);
    assert_eq!(circuit.a, Some(3));
    assert_eq!(circuit.b, Some(7));
    assert_eq!(circuit.public_output(), Some(21));
    assert!(circuit.is_satisfied_by(21));
    assert!(!circuit.is_satisfied_by(20));

    let half = MultiplyCircuit { a: Some(3), b: None };
    assert_eq!(half.public_output(), None);
    assert!(!half.is_satisfied_by(0));
}
