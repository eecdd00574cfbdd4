use songkick::util::{encode, push_decimal};

fn numeral(n: u64) -> String {
    let mut out = String::new();
    push_decimal(&mut out, n);
    out
}

#[test]
fn date_is_escaped_the_same_way_each_time() {
    assert_eq!(encode("2017-06-06"), "2017%2D06%2D06");
    assert_eq!(encode("2017-06-06"), "2017%2D06%2D06");
    assert_eq!(encode("2017-06-06"), encode(&String::from("2017-06-06")));
}

#[test]
fn letters_and_digits_are_kept() {
    assert_eq!(encode("Radiohead"), "Radiohead");
    assert_eq!(encode("clientip"), "clientip");
    assert_eq!(
        encode("0123456789ABCDEFGHIJKLMNOPQRSTUVWXYZabcdefghijklmnopqrstuvwxyz"),
        "0123456789ABCDEFGHIJKLMNOPQRSTUVWXYZabcdefghijklmnopqrstuvwxyz"
    );
}

#[test]
fn empty_text_is_empty() {
    assert_eq!(encode(""), "");
}

#[test]
fn punctuation_is_escaped() {
    assert_eq!(encode(" "), "%20");
    assert_eq!(encode("-._~"), "%2D%2E%5F%7E");
    assert_eq!(encode("&=?#%+"), "%26%3D%3F%23%25%2B");
    assert_eq!(encode("a b"), "a%20b");
    assert_eq!(encode("/:@"), "%2F%3A%40");
}

#[test]
fn neighbours_of_the_plain_ranges_are_escaped() {
    // the bytes just outside '0'..'9', 'A'..'Z' and 'a'..'z'
    assert_eq!(encode("/0"), "%2F0");
    assert_eq!(encode("9:"), "9%3A");
    assert_eq!(encode("@A"), "%40A");
    assert_eq!(encode("Z["), "Z%5B");
    assert_eq!(encode("`a"), "%60a");
    assert_eq!(encode("z{"), "z%7B");
}

#[test]
fn control_bytes_have_two_digits() {
    assert_eq!(encode("\0"), "%00");
    assert_eq!(encode("\n"), "%0A");
    assert_eq!(encode("\t\r"), "%09%0D");
    assert_eq!(encode("\u{7f}"), "%7F");
}

#[test]
fn other_scripts_are_escaped_byte_by_byte() {
    assert_eq!(encode("é"), "%C3%A9");
    assert_eq!(encode("Sigur Rós"), "Sigur%20R%C3%B3s");
    assert_eq!(encode("€"), "%E2%82%AC");
    assert_eq!(encode("𝄞"), "%F0%9D%84%9E");
    assert_eq!(encode("\u{10ffff}"), "%F4%8F%BF%BF");
}

#[test]
fn escaping_is_not_undone_or_skipped() {
    // an escape in the input is escaped again
    assert_eq!(encode("%2D"), "%252D");
    assert_eq!(encode(&encode("-")), "%252D");
}

#[test]
fn encoded_text_has_only_percent_letters_and_digits() {
    let all: String = (0u32..0x250).filter_map(char::from_u32).collect();
    let out = encode(&all);
    assert!(out.chars().all(|c| c == '%' || c.is_ascii_alphanumeric()));
    assert!(out.len() >= all.len());
    assert!(out.len() <= 3 * all.len());
}

#[test]
fn small_numerals() {
    assert_eq!(numeral(0), "0");
    assert_eq!(numeral(1), "1");
    assert_eq!(numeral(9), "9");
    assert_eq!(numeral(10), "10");
    assert_eq!(numeral(11), "11");
    assert_eq!(numeral(99), "99");
    assert_eq!(numeral(100), "100");
    assert_eq!(numeral(101), "101");
}

#[test]
fn large_numerals() {
    assert_eq!(numeral(253846), "253846");
    assert_eq!(numeral(1234567890), "1234567890");
    assert_eq!(numeral(10_000_000_000_000_000_000), "10000000000000000000");
    assert_eq!(numeral(u64::MAX), "18446744073709551615");
}

#[test]
fn numeral_is_appended_to_what_is_there() {
    let mut out = String::from("page=");
    push_decimal(&mut out, 42);
    assert_eq!(out, "page=42");
    push_decimal(&mut out, 0);
    assert_eq!(out, "page=420");
}

#[test]
fn numerals_agree_with_std() {
    let mut n: u64 = 1;
    for _ in 0..64 {
        assert_eq!(numeral(n), n.to_string());
        assert_eq!(numeral(n - 1), (n - 1).to_string());
        n = n.wrapping_mul(2);
    }
}
