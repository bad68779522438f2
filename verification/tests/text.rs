use zenbook_duo_control::text::{
    chars_of, concat2, concat3, contains, decimal_text, ends_with, eq_ignore_ascii_case, find_text,
    join, lines, nonempty_trimmed, parse_i32, parse_i64, parse_u64, same, signed_decimal_text,
    starts_with, texts, trim, trim_chars,
};

fn v(s: &str) -> Vec<char> {
    chars_of(s)
}

#[test]
fn searching_agrees_with_std() {
    let hays = ["", "a", "aab", "abcabc", "ÄÖ€𝄞", "aaaaab"];
    let needles = ["", "a", "ab", "b", "abc", "€", "aab", "x"];
    for h in hays {
        for n in needles {
            assert_eq!(contains(h, n), h.contains(n), "{h:?} {n:?}");
            assert_eq!(starts_with(h, n), h.starts_with(n), "{h:?} {n:?}");
            assert_eq!(ends_with(h, n), h.ends_with(n), "{h:?} {n:?}");
            assert_eq!(same(h, n), h == n);
            let at = h.find(n).map(|byte| h[..byte].chars().count());
            assert_eq!(find_text(&v(h), &v(n)), at, "{h:?} {n:?}");
        }
    }
}

#[test]
fn white_space_is_that_of_std() {
    for code in 0..=0x10FFFFu32 {
        if let Some(c) = char::from_u32(code) {
            let s = [c];
            assert_eq!(trim_chars(&s).is_empty(), c.is_whitespace(), "{code:x}");
        }
    }
}

#[test]
fn trimming_agrees_with_std() {
    for s in ["", " ", "a", " a ", "\t a b \n", "\u{a0}x\u{3000}", "\u{200b}x"] {
        assert_eq!(trim(s), s.trim());
    }
    assert_eq!(nonempty_trimmed(Some(" x ")), Some("x".to_string()));
    assert_eq!(nonempty_trimmed(Some("  ")), None);
    assert_eq!(nonempty_trimmed(None), None);
}

#[test]
fn lines_agree_with_std() {
    for s in ["", "\n", "a", "a\n", "a\nb", "a\r\nb\r\n", "\r", "a\r", "\n\n", "\r\n\r", "a\r\r\nb"] {
        let chars = v(s);
        let ours: Vec<String> = lines(&chars).iter().map(|l| l.iter().collect()).collect();
        let std: Vec<String> = s.lines().map(|l| l.to_string()).collect();
        assert_eq!(ours, std, "{s:?}");
    }
}

#[test]
fn ascii_case_is_ignored() {
    for (a, b) in [("0B05", "0b05"), ("Ä", "ä"), ("az", "AZ"), ("[", "{"), ("a", "ab"), ("@", "`")] {
        assert_eq!(eq_ignore_ascii_case(&v(a), &v(b)), a.eq_ignore_ascii_case(b));
    }
}

#[test]
fn numbers_parse_as_in_std() {
    for s in [
        "", "+", "-", "0", "-0", "+5", "007", "12a", " 1", "18446744073709551615",
        "18446744073709551616", "9223372036854775807", "9223372036854775808",
        "-9223372036854775808", "-9223372036854775809", "2147483647", "2147483648",
        "-2147483648", "-2147483649", "--1", "+-1", "99999999999999999999999999999999999999999999",
    ] {
        assert_eq!(parse_u64(s), s.parse::<u64>().ok(), "{s:?}");
        assert_eq!(parse_i64(s), s.parse::<i64>().ok(), "{s:?}");
        assert_eq!(parse_i32(s), s.parse::<i32>().ok(), "{s:?}");
    }
}

#[test]
fn numbers_print_as_in_std() {
    for n in [0u64, 1, 9, 10, 11, 99, 100, 1_000_000, u64::MAX] {
        assert_eq!(decimal_text(n), n.to_string());
    }
    for n in [0i64, -1, 7, -10, i64::MAX, i64::MIN] {
        assert_eq!(signed_decimal_text(n), n.to_string());
    }
}

#[test]
fn texts_are_put_together() {
    assert_eq!(concat2("a", "b"), "ab");
    assert_eq!(concat3("a", "b", "c"), "abc");
    let parts = texts(&["x", "y", "z"]);
    assert_eq!(join(&parts, ", "), "x, y, z");
    assert_eq!(join(&parts[..1], ", "), "x");
    assert_eq!(join(&[], ", "), "");
}
