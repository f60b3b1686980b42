use pikmin_pilot::text::{contains_ignoring_case, decimal, signed_decimal};

#[test]
fn decimal_has_no_leading_zeros() {
    assert_eq!(decimal(0), "0");
    assert_eq!(decimal(7), "7");
    assert_eq!(decimal(10), "10");
    assert_eq!(decimal(1_048_576), "1048576");
    assert_eq!(decimal(u64::MAX), "18446744073709551615");
}

#[test]
fn signed_decimal_keeps_the_sign() {
    assert_eq!(signed_decimal(0), "0");
    assert_eq!(signed_decimal(31), "31");
    assert_eq!(signed_decimal(-1_073_741_819), "-1073741819");
    assert_eq!(signed_decimal(i32::MIN), "-2147483648");
}

#[test]
fn search_ignores_the_case_of_the_text() {
    assert!(contains_ignoring_case("ApplicationVerificationFailed", "applicationverificationfailed"));
    assert!(contains_ignoring_case("0xE8008015", "e8008015"));
    assert!(contains_ignoring_case("anything", ""));
    assert!(contains_ignoring_case("", ""));
    assert!(!contains_ignoring_case("", "a"));
    assert!(!contains_ignoring_case("abc", "abcd"));
    assert!(!contains_ignoring_case("provisio", "provision"));
    // Only the text is folded, and only its ASCII letters.
    assert!(!contains_ignoring_case("PROVISION", "PROVISION"));
    assert!(!contains_ignoring_case("É", "é"));
}
