use level_meter::listing::index_label;
use level_meter::prompt::{input, input_validated, Reply};

#[test]
fn plain_numbers_are_read() {
    assert_eq!(input("0"), Some(0));
    assert_eq!(input("3"), Some(3));
    assert_eq!(input("10"), Some(10));
    assert_eq!(input("8192"), Some(8192));
    assert_eq!(input("007"), Some(7));
    assert_eq!(input("+7"), Some(7));
    assert_eq!(input("+0"), Some(0));
}

#[test]
fn anything_else_is_unreadable() {
    assert_eq!(input(""), None);
    assert_eq!(input("+"), None);
    assert_eq!(input("-"), None);
    assert_eq!(input("-1"), None);
    assert_eq!(input("++1"), None);
    assert_eq!(input("1+"), None);
    assert_eq!(input(" 1"), None);
    assert_eq!(input("1 "), None);
    assert_eq!(input("1\n"), None);
    assert_eq!(input("12a"), None);
    assert_eq!(input("a12"), None);
    assert_eq!(input("1_000"), None);
    assert_eq!(input("1.5"), None);
    assert_eq!(input("0x10"), None);
    assert_eq!(input("/"), None);
    assert_eq!(input(":"), None);
    assert_eq!(input("\u{663}"), None);
    assert_eq!(input("1\u{e9}"), None);
}

#[test]
fn numbers_too_large_are_unreadable() {
    let max = usize::MAX.to_string();
    assert_eq!(input(&max), Some(usize::MAX));
    assert_eq!(input(&format!("+{}", max)), Some(usize::MAX));
    assert_eq!(input(&format!("000{}", max)), Some(usize::MAX));
    let above = (usize::MAX as u128 + 1).to_string();
    assert_eq!(input(&above), None);
    assert_eq!(input(&format!("{}0", max)), None);
    assert_eq!(input("99999999999999999999999999999999999999999"), None);
    assert_eq!(input("99999999999999999999999999999999999999999x"), None);
}

#[test]
fn reading_agrees_with_the_standard_parser() {
    let samples = [
        "", "0", "1", "9", "10", "+", "+5", "-5", "5+", "05", "00", " 5", "5 ", "abc", "4294967295",
        "4294967296", "18446744073709551615", "18446744073709551616", "18446744073709551625",
        "1844674407370955161", "28446744073709551615", "+18446744073709551615", "1e3", "\u{ff11}",
        "12\u{0}", "٣", "++", "+-1", "3.0",
    ];
    for text in samples {
        assert_eq!(input(text), text.parse::<usize>().ok(), "on {:?}", text);
    }
}

#[test]
fn every_listed_index_is_read_back() {
    for i in (0..5000usize).chain([usize::MAX - 1, usize::MAX]) {
        let label = index_label(i);
        assert_eq!(input(label.trim_start()), Some(i));
        assert_eq!(input(&i.to_string()), Some(i));
    }
}

#[test]
fn validation_decides_between_accepted_and_invalid() {
    let count = 3usize;
    assert_eq!(input_validated("0", |i| i < count), Reply::Accepted(0));
    assert_eq!(input_validated("2", |i| i < count), Reply::Accepted(2));
    assert_eq!(input_validated("3", |i| i < count), Reply::Invalid(3));
    assert_eq!(input_validated("+1", |i| i < count), Reply::Accepted(1));
    assert_eq!(input_validated("two", |i| i < count), Reply::Unreadable);
    assert_eq!(input_validated("", |i| i < count), Reply::Unreadable);
    assert_eq!(input_validated("-1", |i| i < count), Reply::Unreadable);
}

#[test]
fn validation_that_accepts_all_accepts_every_number() {
    assert_eq!(input_validated("41", |_| true), Reply::Accepted(41));
    assert_eq!(input_validated("41", |_| false), Reply::Invalid(41));
    assert_eq!(input_validated("x", |_| true), Reply::Unreadable);
}
