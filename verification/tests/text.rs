use daily::text::{
    chars_of, contains_str, decimal_chars, find_in, find_str, hex_chars, is_blank, join_lines,
    join_range, lowercase_chars, occurs_at, precedes, push_all, push_str, replaced,
    reversed_strings, rfind_in, same, same_str, signed_decimal_chars, slice, sort_strings,
    split_lines, starts_with, trimmed, trimmed_char, trimmed_end_char, trimmed_start_matches,
};

fn c(s: &str) -> Vec<char> {
    s.chars().collect()
}

fn s(v: &Vec<char>) -> String {
    v.iter().collect()
}

fn lines_of(text: &str) -> Vec<String> {
    split_lines(&c(text)).iter().map(s).collect()
}

#[test]
fn chars_and_copies() {
    assert_eq!(chars_of("aé😀"), vec!['a', 'é', '😀']);
    assert!(chars_of("").is_empty());
    assert_eq!(s(&slice(&c("hello"), 1, 3)), "el");
    assert_eq!(s(&slice(&c("hello"), 2, 2)), "");
    let mut out = c("ab");
    push_all(&mut out, &c("cd"));
    push_str(&mut out, "é");
    assert_eq!(s(&out), "abcdé");
    assert!(same(&c("x"), &c("x")));
    assert!(!same(&c("x"), &c("y")));
    assert!(!same(&c("x"), &c("xx")));
    assert!(same(&c(""), &c("")));
    assert!(same_str(&c("é"), "é"));
}

#[test]
fn lines_match_the_standard_library() {
    for text in [
        "",
        "\n",
        "a",
        "a\n",
        "a\nb",
        "a\n\nb\n",
        "a\r\nb\r\n",
        "a\rb",
        "a\r",
        "\r\n",
        "\r",
        "a\n\r\nb",
        "\n\n",
        "a\r\r\nb",
        "é\nü",
    ] {
        let expected: Vec<String> = text.lines().map(String::from).collect();
        assert_eq!(lines_of(text), expected, "{:?}", text);
    }
}

#[test]
fn trimming_matches_the_standard_library() {
    for text in ["", " ", "  a b  ", "\ta\n", "a", "\u{a0}x\u{2003}", "x  ", "  x"] {
        assert_eq!(s(&trimmed(&c(text))), text.trim(), "{:?}", text);
        assert_eq!(is_blank(&c(text)), text.trim().is_empty());
    }
    for text in ["", "\"", "\"\"", "\"a\"", "a\"", "\"\"a\"b\"\"", "a"] {
        assert_eq!(s(&trimmed_char(&c(text), '"')), text.trim_matches('"'), "{:?}", text);
        assert_eq!(s(&trimmed_end_char(&c(text), '"')), text.trim_end_matches('"'));
    }
    for (text, pat) in [("~/~/a", "~/"), ("~a", "~/"), ("aaa", "a"), ("abab", "ab"), ("x", ""), ("", "a")] {
        assert_eq!(
            s(&trimmed_start_matches(&c(text), pat)),
            text.trim_start_matches(pat),
            "{:?} {:?}",
            text,
            pat
        );
    }
}

#[test]
fn finding() {
    let hay = c("abcabc");
    assert_eq!(find_str(&hay, "bc", 0), Some(1));
    assert_eq!(find_str(&hay, "bc", 2), Some(4));
    assert_eq!(find_str(&hay, "bc", 5), None);
    assert_eq!(find_str(&hay, "x", 0), None);
    assert_eq!(find_str(&hay, "", 0), Some(0));
    assert_eq!(find_str(&hay, "", 6), Some(6));
    assert_eq!(find_str(&hay, "", 7), None);
    assert_eq!(find_str(&hay, "abcabcd", 0), None);
    assert_eq!(find_in(&c(""), &c(""), 0), Some(0));
    assert_eq!(rfind_in(&hay, &c("bc")), Some(4));
    assert_eq!(rfind_in(&hay, &c("a")), Some(3));
    assert_eq!(rfind_in(&hay, &c("x")), None);
    assert_eq!(rfind_in(&hay, &c("")), Some(6));
    assert_eq!(rfind_in(&c("ab"), &c("abc")), None);
    assert!(contains_str(&hay, "cab"));
    assert!(!contains_str(&hay, "cba"));
    assert!(occurs_at(&hay, &c("abc"), 3));
    assert!(!occurs_at(&hay, &c("abc"), 4));
    assert!(!occurs_at(&hay, &c("abc"), 100));
    assert!(starts_with(&hay, "ab"));
    assert!(!starts_with(&hay, "b"));
    assert!(starts_with(&hay, ""));
    let wide = c("é→x");
    assert_eq!(find_str(&wide, "x", 0), Some(2));
}

#[test]
fn joining_and_replacing() {
    let parts = vec![c("a"), c(""), c("b")];
    assert_eq!(s(&join_lines(&parts, ", ")), "a, , b");
    assert_eq!(s(&join_lines(&Vec::new(), ", ")), "");
    assert_eq!(s(&join_lines(&vec![c("x")], ", ")), "x");
    assert_eq!(s(&join_range(&parts, 1, 3, "-")), "-b");
    assert_eq!(s(&join_range(&parts, 2, 2, "-")), "");
    for (text, from, to) in [
        ("aaa", "a", "b"),
        ("aaa", "aa", "b"),
        ("abcabc", "bc", ""),
        ("abc", "x", "y"),
        ("", "a", "b"),
        ("{{x}} {{x}}", "{{x}}", "{{x}}{{x}}"),
    ] {
        assert_eq!(
            s(&replaced(&c(text), &c(from), &c(to))),
            text.replace(from, to),
            "{:?}",
            text
        );
    }
    assert_eq!(s(&replaced(&c("abc"), &c(""), &c("x"))), "abc");
}

#[test]
fn numerals() {
    assert_eq!(s(&decimal_chars(0)), "0");
    assert_eq!(s(&decimal_chars(10)), "10");
    assert_eq!(s(&decimal_chars(u64::MAX)), "18446744073709551615");
    assert_eq!(s(&signed_decimal_chars(-1)), "-1");
    assert_eq!(s(&signed_decimal_chars(i64::MIN)), "-9223372036854775808");
    assert_eq!(s(&signed_decimal_chars(i64::MAX)), "9223372036854775807");
    assert_eq!(s(&hex_chars(0, 6)), "000000");
    assert_eq!(s(&hex_chars(255, 6)), "0000ff");
    assert_eq!(s(&hex_chars(0xabcdef, 6)), "abcdef");
    assert_eq!(s(&hex_chars(u32::MAX, 6)), "ffffffff");
    assert_eq!(s(&hex_chars(10, 0)), "a");
    for n in [0u32, 1, 15, 16, 4095, 1_000_000, u32::MAX] {
        assert_eq!(s(&hex_chars(n, 6)), format!("{:06x}", n));
    }
}

#[test]
fn lower_case() {
    assert_eq!(s(&lowercase_chars(&c("ÄbC İ"))), "ÄbC İ".to_lowercase());
    assert_eq!(s(&lowercase_chars(&c(""))), "");
}

#[test]
fn order_of_strings() {
    let words = ["", "a", "B", "b", "ab", "aa", "é", "z", "a"];
    for x in words {
        for y in words {
            assert_eq!(precedes(&c(x), &c(y)), x <= y, "{:?} {:?}", x, y);
        }
    }
    let mut expected: Vec<String> = words.iter().map(|w| w.to_string()).collect();
    let given = expected.clone();
    expected.sort();
    assert_eq!(sort_strings(&given), expected);
    expected.reverse();
    assert_eq!(reversed_strings(&sort_strings(&given)), expected);
    assert!(sort_strings(&Vec::new()).is_empty());
}
