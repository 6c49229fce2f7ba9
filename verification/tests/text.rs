use resext::text::{fit_len, parse_decimal, str_eq};

#[test]
fn fit_len_keeps_whole_characters() {
    // 'h' is one byte, 'é' two: bytes 68 C3 A9 6C 6C 6F.
    assert_eq!(fit_len("héllo", 0), 0);
    assert_eq!(fit_len("héllo", 1), 1);
    assert_eq!(fit_len("héllo", 2), 1);
    assert_eq!(fit_len("héllo", 3), 3);
    assert_eq!(fit_len("héllo", 4), 4);
    assert_eq!(fit_len("héllo", 6), 6);
}

#[test]
fn fit_len_never_exceeds_the_text() {
    assert_eq!(fit_len("abc", 10), 3);
    assert_eq!(fit_len("", 5), 0);
    assert_eq!(fit_len("", 0), 0);
    assert_eq!(fit_len("abc", usize::MAX), 3);
}

#[test]
fn fit_len_drops_a_character_that_is_cut() {
    // A four-byte character fits whole or not at all.
    assert_eq!(fit_len("💖", 0), 0);
    assert_eq!(fit_len("💖", 1), 0);
    assert_eq!(fit_len("💖", 2), 0);
    assert_eq!(fit_len("💖", 3), 0);
    assert_eq!(fit_len("💖", 4), 4);
    assert_eq!(fit_len("a💖", 4), 1);
    assert_eq!(fit_len("a💖b", 5), 5);
    // Three-byte characters.
    assert_eq!(fit_len("●●", 5), 3);
    assert_eq!(fit_len("●●", 6), 6);
}

#[test]
fn fit_len_agrees_with_char_boundaries() {
    let texts = ["", "plain", "héllo wörld", "a💖b●c", "\u{7ff}\u{800}\u{ffff}\u{10000}"];
    for text in texts {
        for room in 0..text.len() + 2 {
            let mut expected = room.min(text.len());
            while !text.is_char_boundary(expected) {
                expected -= 1;
            }
            assert_eq!(fit_len(text, room), expected);
        }
    }
}

#[test]
fn parse_decimal_reads_digits() {
    assert_eq!(parse_decimal("0"), Some(0));
    assert_eq!(parse_decimal("64"), Some(64));
    assert_eq!(parse_decimal("007"), Some(7));
    assert_eq!(parse_decimal("65535"), Some(65535));
    assert_eq!(parse_decimal(&usize::MAX.to_string()), Some(usize::MAX));
}

#[test]
fn parse_decimal_refuses_what_is_no_usize() {
    assert_eq!(parse_decimal(""), None);
    assert_eq!(parse_decimal("-5"), None);
    assert_eq!(parse_decimal("+5"), None);
    assert_eq!(parse_decimal("12a"), None);
    assert_eq!(parse_decimal("1 2"), None);
    assert_eq!(parse_decimal("٣"), None);
    let mut too_large = usize::MAX.to_string();
    too_large.push('0');
    assert_eq!(parse_decimal(&too_large), None);
    // One more than the largest value.
    let max = usize::MAX.to_string();
    let (head, last) = max.split_at(max.len() - 1);
    let next: u32 = last.parse::<u32>().unwrap() + 1;
    if next < 10 {
        assert_eq!(parse_decimal(&format!("{}{}", head, next)), None);
    }
    assert_eq!(parse_decimal("99999999999999999999999999999999999999999"), None);
}

#[test]
fn str_eq_compares_text() {
    assert!(str_eq("", ""));
    assert!(str_eq("prefix", "prefix"));
    assert!(!str_eq("prefix", "prefiX"));
    assert!(!str_eq("prefix", "prefi"));
    assert!(!str_eq("prefi", "prefix"));
    assert!(str_eq("héllo💖", "héllo💖"));
    assert!(!str_eq("héllo", "hèllo"));
}
