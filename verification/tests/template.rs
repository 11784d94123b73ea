use punchout_mock::template::{find_occurrence, replace_all_bytes, substitute_bytes};
use punchout_mock::text::{bytes_eq, starts_with, u128_to_dec};

fn b(s: &str) -> Vec<u8> {
    s.as_bytes().to_vec()
}

fn s(v: &[u8]) -> String {
    String::from_utf8(v.to_vec()).unwrap()
}

#[test]
fn finds_first_occurrence() {
    assert_eq!(find_occurrence(&b("abcabc"), &b("bc"), 0), Some(1));
    assert_eq!(find_occurrence(&b("abcabc"), &b("bc"), 2), Some(4));
    assert_eq!(find_occurrence(&b("abcabc"), &b("zz"), 0), None);
    assert_eq!(find_occurrence(&b("abc"), &b("abcd"), 0), None);
}

#[test]
fn replaces_every_occurrence() {
    assert_eq!(s(&replace_all_bytes(&b("a%x%b%x%"), &b("%x%"), &b("1"))), "a1b1");
    assert_eq!(s(&replace_all_bytes(&b("nothing here"), &b("%x%"), &b("1"))), "nothing here");
}

#[test]
fn replacement_scans_left_to_right_without_overlap() {
    assert_eq!(s(&replace_all_bytes(&b("aaa"), &b("aa"), &b("b"))), "ba");
    assert_eq!(s(&replace_all_bytes(&b("aaaa"), &b("aa"), &b("a"))), "aa");
}

#[test]
fn replacement_can_grow_or_shrink() {
    assert_eq!(s(&replace_all_bytes(&b("x-x"), &b("x"), &b("long"))), "long-long");
    assert_eq!(s(&replace_all_bytes(&b("abcabc"), &b("abc"), &b(""))), "");
}

#[test]
fn empty_pattern_replaces_nothing() {
    assert_eq!(s(&replace_all_bytes(&b("abc"), &b(""), &b("x"))), "abc");
}

#[test]
fn substitutes_pairs_in_turn() {
    let pairs = vec![(b("%a%"), b("1")), (b("%b%"), b("2"))];
    assert_eq!(s(&substitute_bytes(&b("%a%+%b%=%a%%b%"), &pairs)), "1+2=12");
}

#[test]
fn later_pairs_see_earlier_replacements() {
    // The first pass inserts text that the second pass then replaces.
    let pairs = vec![(b("%a%"), b("%b%")), (b("%b%"), b("2"))];
    assert_eq!(s(&substitute_bytes(&b("%a%"), &pairs)), "2");
}

#[test]
fn byte_string_helpers() {
    assert!(bytes_eq(&b("abc"), &b("abc")));
    assert!(!bytes_eq(&b("abc"), &b("abd")));
    assert!(!bytes_eq(&b("abc"), &b("ab")));
    assert!(starts_with(&b("NEW_ITEM-PRICE[2]"), &b("NEW_ITEM-PRICE")));
    assert!(!starts_with(&b("NEW_ITEM-DESCRIPTION[1]"), &b("NEW_ITEM-PRICE")));
    assert!(starts_with(&b("x"), &b("")));
    assert!(!starts_with(&b(""), &b("x")));
}

#[test]
fn writes_decimal_digits() {
    assert_eq!(s(&u128_to_dec(0)), "0");
    assert_eq!(s(&u128_to_dec(7)), "7");
    assert_eq!(s(&u128_to_dec(12345)), "12345");
    assert_eq!(s(&u128_to_dec(u128::MAX)), "340282366920938463463374607431768211455");
}
