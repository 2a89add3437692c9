use rustchat::decimal::{i32_to_decimal, u64_to_decimal};

#[test]
fn u64_decimal_matches_to_string() {
    for n in [0u64, 1, 9, 10, 11, 99, 100, 1234567890, u64::MAX - 1, u64::MAX] {
        assert_eq!(u64_to_decimal(n), n.to_string());
    }
}

#[test]
fn u64_decimal_exact_values() {
    assert_eq!(u64_to_decimal(0), "0");
    assert_eq!(u64_to_decimal(7), "7");
    assert_eq!(u64_to_decimal(10), "10");
    assert_eq!(u64_to_decimal(18446744073709551615), "18446744073709551615");
}

#[test]
fn i32_decimal_matches_to_string() {
    for i in [i32::MIN, i32::MIN + 1, -1000, -10, -1, 0, 1, 42, 2147483647] {
        assert_eq!(i32_to_decimal(i), i.to_string());
    }
}

#[test]
fn i32_decimal_exact_values() {
    assert_eq!(i32_to_decimal(-42), "-42");
    assert_eq!(i32_to_decimal(-2147483648), "-2147483648");
    assert_eq!(i32_to_decimal(5), "5");
}

#[test]
fn distinct_numbers_have_distinct_texts() {
    let texts: Vec<String> = (-50i32..50).map(i32_to_decimal).collect();
    for (a, ta) in texts.iter().enumerate() {
        for (b, tb) in texts.iter().enumerate() {
            assert_eq!(a == b, ta == tb);
        }
    }
}
