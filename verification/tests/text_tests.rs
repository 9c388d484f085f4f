use rexec_time::text::{decimal_text, same_text, signed_decimal_text};

#[test]
fn same_text_compares_characters() {
    assert!(same_text("", ""));
    assert!(same_text("-ns", "-ns"));
    assert!(same_text("μs", "μs"));
    assert!(!same_text("-ns", "-ms"));
    assert!(!same_text("-n", "-ns"));
    assert!(!same_text("-ns", "-n"));
    assert!(!same_text("", " "));
    assert!(!same_text("e", "é"));
}

#[test]
fn decimal_of_small_numbers() {
    assert_eq!(decimal_text(0), "0");
    assert_eq!(decimal_text(7), "7");
    assert_eq!(decimal_text(9), "9");
    assert_eq!(decimal_text(10), "10");
    assert_eq!(decimal_text(11), "11");
    assert_eq!(decimal_text(100), "100");
    assert_eq!(decimal_text(1234567890), "1234567890");
}

#[test]
fn decimal_of_the_largest_number() {
    assert_eq!(decimal_text(u128::MAX), "340282366920938463463374607431768211455");
}

#[test]
fn decimal_agrees_with_the_standard_library() {
    let mut n: u128 = 1;
    for _ in 0..60 {
        assert_eq!(decimal_text(n), n.to_string());
        assert_eq!(decimal_text(n - 1), (n - 1).to_string());
        n = n.wrapping_mul(7).wrapping_add(3);
    }
}

#[test]
fn signed_decimal_of_codes() {
    assert_eq!(signed_decimal_text(0), "0");
    assert_eq!(signed_decimal_text(1), "1");
    assert_eq!(signed_decimal_text(127), "127");
    assert_eq!(signed_decimal_text(255), "255");
    assert_eq!(signed_decimal_text(-1), "-1");
    assert_eq!(signed_decimal_text(-1073741819), "-1073741819");
    assert_eq!(signed_decimal_text(i32::MAX), "2147483647");
    assert_eq!(signed_decimal_text(i32::MIN), "-2147483648");
}
