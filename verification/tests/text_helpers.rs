use petscan::collate::{compare_text, to_lowercase};
use petscan::numeral::{
    i64_to_string, parse_i32, parse_i64, parse_u64, parse_usize, u64_to_string, usize_to_string,
};
use petscan::sql::{append_sql, get_questionmarks, prep_quote, sql_tuple};
use petscan::text::{chars_of, contains_char, join, replace, split, str_eq, string_of, trim};

#[test]
fn chars_and_strings_round_trip() {
    let v = chars_of("a\u{e9}z");
    assert_eq!(v, vec!['a', '\u{e9}', 'z']);
    assert_eq!(string_of(&v), "a\u{e9}z");
    assert!(str_eq("abc", "abc"));
    assert!(!str_eq("abc", "abd"));
    assert!(contains_char("a/b", '/'));
    assert!(!contains_char("ab", '/'));
}

#[test]
fn trim_drops_unicode_white_space() {
    assert_eq!(trim("  a b \t\n"), "a b");
    assert_eq!(trim("\u{a0}x\u{2003}"), "x");
    assert_eq!(trim("   "), "");
    assert_eq!(trim(""), "");
    assert_eq!(trim("_a_"), "_a_");
    for s in [" x ", "\u{85}y", "z\u{3000}", "\u{1680}\u{2028}w\u{205f}"] {
        assert_eq!(trim(s), s.trim());
    }
}

#[test]
fn white_space_is_the_listed_characters() {
    let listed = |c: char| {
        c == ' '
            || ('\t'..='\r').contains(&c)
            || c == '\u{85}'
            || c == '\u{a0}'
            || c == '\u{1680}'
            || ('\u{2000}'..='\u{200a}').contains(&c)
            || c == '\u{2028}'
            || c == '\u{2029}'
            || c == '\u{202f}'
            || c == '\u{205f}'
            || c == '\u{3000}'
    };
    let mut text = String::new();
    for c in '\u{0}'..=char::MAX {
        text.clear();
        text.push(c);
        assert_eq!(trim(&text).is_empty(), listed(c), "{:?}", c);
    }
    assert_eq!(trim("\u{180e}x\u{200b}"), "\u{180e}x\u{200b}");
}

#[test]
fn split_keeps_empty_pieces() {
    assert_eq!(split("a:b::c", ':'), vec!["a", "b", "", "c"]);
    assert_eq!(split("", ':'), vec![""]);
    assert_eq!(split(":", ':'), vec!["", ""]);
    assert_eq!(split("abc", ':'), vec!["abc"]);
    for s in ["|x|y|", "x", "||", "a|b"] {
        let expected: Vec<String> = s.split('|').map(|p| p.to_string()).collect();
        assert_eq!(split(s, '|'), expected);
    }
}

#[test]
fn join_puts_separator_between() {
    let parts = vec!["a".to_string(), "".to_string(), "c".to_string()];
    assert_eq!(join(&parts, ":"), "a::c");
    assert_eq!(join(&vec![], ":"), "");
    assert_eq!(join(&vec!["x".to_string()], ", "), "x");
}

#[test]
fn replace_is_leftmost_and_non_overlapping() {
    assert_eq!(replace("aaa", "aa", "b"), "ba");
    assert_eq!(replace("a_b_c", "_", "-"), "a-b-c");
    assert_eq!(replace("<html><body>", "<html>", "<html dir='ltr'>"), "<html dir='ltr'><body>");
    assert_eq!(replace("abc", "", "x"), "abc");
    assert_eq!(replace("it's", "'", ""), "its");
    for (s, f, t) in [("abcabc", "bc", "X"), ("xx", "xxx", "y"), ("", "a", "b")] {
        assert_eq!(replace(s, f, t), s.replace(f, t));
    }
}

#[test]
fn decimal_numerals() {
    assert_eq!(i64_to_string(0), "0");
    assert_eq!(i64_to_string(-1), "-1");
    assert_eq!(i64_to_string(120), "120");
    assert_eq!(i64_to_string(i64::MIN), "-9223372036854775808");
    assert_eq!(i64_to_string(i64::MAX), "9223372036854775807");
    assert_eq!(u64_to_string(u64::MAX), "18446744073709551615");
    assert_eq!(usize_to_string(200), "200");
}

#[test]
fn parsing_follows_rust() {
    for s in [
        "0", "7", "+7", "-7", "-0", "007", "", "+", "-", " 7", "7 ", "1_0", "0x10", "12a",
        "9223372036854775807", "9223372036854775808", "-9223372036854775808",
        "-9223372036854775809", "18446744073709551615", "18446744073709551616", "2147483648",
        "-2147483648", "-2147483649", "\u{663}",
    ] {
        assert_eq!(parse_i64(s), s.parse::<i64>().ok(), "{}", s);
        assert_eq!(parse_u64(s), s.parse::<u64>().ok(), "{}", s);
        assert_eq!(parse_usize(s), s.parse::<usize>().ok(), "{}", s);
        assert_eq!(parse_i32(s), s.parse::<i32>().ok(), "{}", s);
    }
}

#[test]
fn lowercase_follows_rust() {
    assert_eq!(to_lowercase("AND"), "and");
    assert_eq!(to_lowercase("Categories 1_x"), "categories 1_x");
    assert_eq!(to_lowercase("\u{c4}B"), "\u{e4}b");
    for s in ["MiXed", "wi\u{212a}idata", "\u{3a3}\u{391}\u{3a3}", "stra\u{df}e", ""] {
        assert_eq!(to_lowercase(s), s.to_lowercase());
    }
}

#[test]
fn text_order_follows_rust() {
    let texts = ["", "a", "ab", "b", "B", "\u{e9}", "\u{1f600}", "a\u{e9}", "aa", "Z"];
    for a in texts {
        for b in texts {
            let expected = match a.cmp(b) {
                std::cmp::Ordering::Less => -1,
                std::cmp::Ordering::Equal => 0,
                std::cmp::Ordering::Greater => 1,
            };
            assert_eq!(compare_text(a, b), expected, "{:?} {:?}", a, b);
        }
    }
}

#[test]
fn question_marks_and_quoting() {
    assert_eq!(get_questionmarks(0), "");
    assert_eq!(get_questionmarks(1), "?");
    assert_eq!(get_questionmarks(3), "?,?,?");
    let q = prep_quote(&vec![
        " a ".to_string(),
        "".to_string(),
        "  ".to_string(),
        "b".to_string(),
    ]);
    assert_eq!(q, ("?,?".to_string(), vec!["a".to_string(), "b".to_string()]));
    assert_eq!(sql_tuple(), ("".to_string(), vec![]));
    let mut sql = ("SELECT ".to_string(), vec!["x".to_string()]);
    append_sql(&mut sql, &("1".to_string(), vec!["y".to_string()]));
    assert_eq!(sql, ("SELECT 1".to_string(), vec!["x".to_string(), "y".to_string()]));
}
