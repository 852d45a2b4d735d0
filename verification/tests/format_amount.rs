use aura::bot::utils::format_amount;
use aura::bot::utils::remaining_amount;
use aura::bot::utils::text::{decimal_string, push_pad_left, push_pad_right, push_signed, same_text};

#[test]
fn small_amounts_are_written_in_full() {
    assert_eq!(format_amount(0), "0");
    assert_eq!(format_amount(7), "7");
    assert_eq!(format_amount(999), "999");
}

#[test]
fn thousands_are_truncated_to_k() {
    assert_eq!(format_amount(1_000), "1k");
    assert_eq!(format_amount(1_500), "1k");
    assert_eq!(format_amount(999_999), "999k");
}

#[test]
fn millions_are_truncated_to_kk() {
    assert_eq!(format_amount(1_000_000), "1kk");
    assert_eq!(format_amount(2_500_000), "2kk");
    assert_eq!(format_amount(u64::MAX), "18446744073709kk");
}

#[test]
fn remaining_is_zero_once_the_goal_is_passed() {
    assert_eq!(remaining_amount(1_500_001, 1_500_000), "0");
    assert_eq!(remaining_amount(500_000, 1_500_000), "1kk");
    assert_eq!(remaining_amount(1_500_000, 1_500_000), "0");
    assert_eq!(remaining_amount(0, 2_000), "2k");
}

#[test]
fn remaining_covers_the_whole_signed_range() {
    assert_eq!(remaining_amount(i64::MIN, i64::MAX), "18446744073709kk");
    assert_eq!(remaining_amount(-5, 0), "5");
}

#[test]
fn numbers_are_written_in_decimal() {
    assert_eq!(decimal_string(0), "0");
    assert_eq!(decimal_string(1234567890), "1234567890");
    let mut s = String::new();
    push_signed(&mut s, -42);
    push_signed(&mut s, 7);
    push_signed(&mut s, i64::MIN);
    assert_eq!(s, "-427-9223372036854775808");
}

#[test]
fn padding_counts_characters() {
    let mut s = String::new();
    push_pad_left(&mut s, "7", 2);
    s.push('|');
    push_pad_left(&mut s, "123", 2);
    s.push('|');
    push_pad_right(&mut s, "José", 6);
    s.push('|');
    assert_eq!(s, " 7|123|José  |");
}

#[test]
fn same_text_compares_characters() {
    assert!(same_text("meta", "meta"));
    assert!(!same_text("meta", "metas"));
    assert!(!same_text("meta", "mesa"));
}

fn read_back(s: &str) -> u64 {
    if let Some(d) = s.strip_suffix("kk") {
        d.parse::<u64>().unwrap() * 1_000_000
    } else if let Some(d) = s.strip_suffix('k') {
        d.parse::<u64>().unwrap() * 1_000
    } else {
        s.parse::<u64>().unwrap()
    }
}

#[test]
fn larger_amounts_never_read_back_smaller() {
    let amounts = [
        0u64, 1, 999, 1_000, 1_001, 1_999, 2_000, 999_999, 1_000_000, 1_000_001, 1_999_999, 2_000_000,
        123_456_789, 18_446_744_073_709_000_000, u64::MAX,
    ];
    for w in amounts.windows(2) {
        assert!(read_back(&format_amount(w[0])) <= read_back(&format_amount(w[1])));
    }
    for a in amounts {
        assert!(read_back(&format_amount(a)) <= a);
    }
    assert_eq!(read_back(&format_amount(999_999)), 999_000);
    assert_eq!(read_back(&format_amount(1_000_000)), 1_000_000);
}
