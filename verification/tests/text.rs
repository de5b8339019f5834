use portwatch::text::{
    char_is_whitespace, chars_after_last, chars_are, chars_contain, chars_equal, chars_find,
    chars_find_text, chars_have, chars_lines, chars_occur_at, copy_range, parse_decimal, read_u16, read_u32, read_u64,
    same_text, split_text, str_contains, text_lines, to_chars, tokens, trim_text,
};

fn chars(s: &str) -> Vec<char> {
    s.chars().collect()
}

fn texts(v: Vec<Vec<char>>) -> Vec<String> {
    v.into_iter().map(|t| t.into_iter().collect()).collect()
}

#[test]
fn whitespace_is_what_std_takes_for_it() {
    for n in 0..=0x10FFFFu32 {
        if let Some(c) = char::from_u32(n) {
            assert_eq!(char_is_whitespace(c), c.is_whitespace(), "U+{:04X}", n);
        }
    }
}

#[test]
fn characters_of_a_string() {
    assert_eq!(to_chars(""), Vec::<char>::new());
    assert_eq!(to_chars("a端口b"), vec!['a', '端', '口', 'b']);
}

#[test]
fn texts_are_compared_by_characters() {
    assert!(same_text("", ""));
    assert!(same_text("node.exe", "node.exe"));
    assert!(!same_text("node.exe", "node.exf"));
    assert!(!same_text("node", "node.exe"));
    assert!(!same_text("node.exe", "node"));
    assert!(chars_equal(&chars("端口"), &chars("端口")));
    assert!(!chars_equal(&chars("端口"), &chars("口端")));
    assert!(chars_are(&chars("TCP"), "TCP"));
    assert!(!chars_are(&chars("TCP"), "tcp"));
}

#[test]
fn substring_search_agrees_with_std() {
    let hays = ["", "a", "ab", "aab", "abab", "node.exe", "xxreact-scriptsxx", "端口node监控"];
    let needles = ["", "a", "b", "ab", "ba", "aab", "node", "react-scripts", "口n", "监控", "控监"];
    for hay in hays {
        for needle in needles {
            assert_eq!(str_contains(hay, needle), hay.contains(needle), "{:?} in {:?}", needle, hay);
            assert_eq!(chars_contain(&chars(hay), &chars(needle)), hay.contains(needle));
        }
    }
}

#[test]
fn occurrence_at_a_position() {
    let hay = chars("abcabc");
    assert!(chars_occur_at(&hay, &chars("abc"), 0));
    assert!(chars_occur_at(&hay, &chars("abc"), 3));
    assert!(!chars_occur_at(&hay, &chars("abc"), 1));
    assert!(chars_occur_at(&hay, &chars(""), 6));
    assert_eq!(chars_find_text(&hay, &chars("bc")), Some(1));
    assert_eq!(chars_find_text(&hay, &chars("ca")), Some(2));
    assert_eq!(chars_find_text(&hay, &chars("cb")), None);
    assert_eq!(chars_find_text(&hay, &chars("")), Some(0));
    assert_eq!(chars_find_text(&chars(""), &chars("")), Some(0));
    assert_eq!(chars_find_text(&chars("a"), &chars("ab")), None);
    assert_eq!(chars_find_text(&chars("端口->x"), &chars("->")), Some(2));
}

#[test]
fn single_characters_are_found() {
    let s = chars("a:b:c");
    assert!(chars_have(&s, ':'));
    assert!(!chars_have(&s, '/'));
    assert!(!chars_have(&chars(""), ':'));
    assert_eq!(chars_find(&s, ':', 0), 1);
    assert_eq!(chars_find(&s, ':', 1), 1);
    assert_eq!(chars_find(&s, ':', 2), 3);
    assert_eq!(chars_find(&s, ':', 4), 5);
    assert_eq!(chars_find(&s, ':', 5), 5);
    assert_eq!(chars_find(&s, 'z', 0), 5);
    assert_eq!(chars_after_last(&s, ':'), chars("c"));
    assert_eq!(chars_after_last(&s, 'a'), chars(":b:c"));
    assert_eq!(chars_after_last(&s, 'c'), chars(""));
    assert_eq!(chars_after_last(&s, 'z'), s);
    assert_eq!(chars_after_last(&chars(""), ':'), chars(""));
    assert_eq!(copy_range(&s, 1, 4), chars(":b:"));
    assert_eq!(copy_range(&s, 2, 2), chars(""));
    assert_eq!(copy_range(&s, 0, 5), s);
}

#[test]
fn tokens_agree_with_std() {
    let lines = [
        "",
        " ",
        "a",
        " a ",
        "a b",
        "  TCP    0.0.0.0:135    0.0.0.0:0    LISTENING    1044  ",
        "\ta\u{3000}b\r\nc\u{00A0}d\u{2009}e\u{0085}f",
        "端口 监控\t助手",
        "a\u{200B}b c",
    ];
    for line in lines {
        let expected: Vec<String> = line.split_whitespace().map(|t| t.to_string()).collect();
        assert_eq!(texts(tokens(&chars(line))), expected, "{:?}", line);
    }
}

#[test]
fn lines_agree_with_std() {
    let samples = [
        "",
        "\n",
        "\r\n",
        "a",
        "a\n",
        "a\r\n",
        "a\r",
        "a\n\nb",
        "a\r\n\r\nb\r\n",
        "\r\r\n\n\r",
        "one\ntwo\r\nthree\rfour\n",
        "端口\n监控",
        "x\n ",
    ];
    for sample in samples {
        let expected: Vec<&str> = sample.lines().collect();
        assert_eq!(text_lines(sample), expected, "{:?}", sample);
        let expected: Vec<String> = sample.lines().map(|l| l.to_string()).collect();
        assert_eq!(texts(chars_lines(&chars(sample))), expected, "{:?}", sample);
    }
}

#[test]
fn split_agrees_with_std() {
    let samples = ["", ",", "a", "a,b", ",a,", "a,,b", ",,", "端,口", "a|b,c"];
    for sample in samples {
        let expected: Vec<&str> = sample.split(',').collect();
        assert_eq!(split_text(sample, ','), expected, "{:?}", sample);
    }
    assert_eq!(split_text("a|b,c", '|'), vec!["a", "b,c"]);
}

#[test]
fn trim_agrees_with_std() {
    let samples = ["", " ", "a", " a", "a ", "  a b  ", "\t\r\n", "\u{3000}端 口\u{00A0}", "a\u{200B} "];
    for sample in samples {
        assert_eq!(trim_text(sample), sample.trim(), "{:?}", sample);
    }
}

#[test]
fn decimal_numbers_agree_with_std() {
    let samples = [
        "", "0", "7", "+7", "-7", "+", "-", "++7", "+-7", "007", "65535", "65536", "4294967295",
        "4294967296", "99999999999999999999", "1a", "a1", " 1", "1 ", "１２", "1_000", "0x10",
        "+0", "+00065535", "000000000000000000000000000000004294967295", "18446744073709551615",
        "18446744073709551616", "+18446744073709551615", "340282366920938463463374607431768211456",
    ];
    for sample in samples {
        assert_eq!(read_u16(&chars(sample)), sample.parse::<u16>().ok(), "{:?}", sample);
        assert_eq!(read_u32(&chars(sample)), sample.parse::<u32>().ok(), "{:?}", sample);
        assert_eq!(read_u64(&chars(sample)), sample.parse::<u64>().ok(), "{:?}", sample);
    }
}

#[test]
fn decimal_numbers_up_to_a_limit() {
    assert_eq!(parse_decimal(&chars("100"), 100), Some(100));
    assert_eq!(parse_decimal(&chars("101"), 100), None);
    assert_eq!(parse_decimal(&chars("0"), 0), Some(0));
    assert_eq!(parse_decimal(&chars("1"), 0), None);
    assert_eq!(parse_decimal(&chars("4294967295"), 4294967295), Some(4294967295));
    assert_eq!(parse_decimal(&chars("18446744073709551615"), u64::MAX), Some(u64::MAX));
    assert_eq!(parse_decimal(&chars("18446744073709551616"), u64::MAX), None);
}
