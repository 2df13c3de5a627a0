use wizard_engine::text::{eq_ignore_ascii_case, i64_to_decimal, str_eq, trim, u64_to_decimal};

#[test]
fn trim_strips_both_ends() {
    assert_eq!(trim("  Ada "), "Ada");
    assert_eq!(trim("\t\n Ada Lovelace \r"), "Ada Lovelace");
    assert_eq!(trim("Ada"), "Ada");
    assert_eq!(trim(""), "");
    assert_eq!(trim("   "), "");
    assert_eq!(trim(" \t\r\n"), "");
}

#[test]
fn trim_keeps_interior_whitespace() {
    assert_eq!(trim(" a b "), "a b");
}

#[test]
fn case_insensitive_comparison() {
    assert!(eq_ignore_ascii_case("CANCEL", "cancel"));
    assert!(eq_ignore_ascii_case("Back", "back"));
    assert!(eq_ignore_ascii_case("next", "next"));
    assert!(!eq_ignore_ascii_case("nex", "next"));
    assert!(!eq_ignore_ascii_case("nextt", "next"));
    assert!(!eq_ignore_ascii_case("back", "bacl"));
    // only ASCII letters fold; other characters compare exactly
    assert!(!eq_ignore_ascii_case("Ä", "ä"));
    assert!(eq_ignore_ascii_case("ä", "ä"));
}

#[test]
fn exact_string_comparison() {
    assert!(str_eq("red", "red"));
    assert!(!str_eq("red", "Red"));
    assert!(!str_eq("red", "re"));
    assert!(str_eq("", ""));
}

#[test]
fn unsigned_decimal_rendering() {
    assert_eq!(u64_to_decimal(0), "0");
    assert_eq!(u64_to_decimal(7), "7");
    assert_eq!(u64_to_decimal(10), "10");
    assert_eq!(u64_to_decimal(1234567890), "1234567890");
    assert_eq!(u64_to_decimal(u64::MAX), "18446744073709551615");
}

#[test]
fn signed_decimal_rendering() {
    assert_eq!(i64_to_decimal(0), "0");
    assert_eq!(i64_to_decimal(42), "42");
    assert_eq!(i64_to_decimal(-1), "-1");
    assert_eq!(i64_to_decimal(-9000), "-9000");
    assert_eq!(i64_to_decimal(i64::MIN), "-9223372036854775808");
    assert_eq!(i64_to_decimal(i64::MAX), "9223372036854775807");
}
