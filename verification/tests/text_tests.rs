use examine::text::{has_prefix, lines_of, output_text, split_once_str};
use examine::pages::lines_split;

#[test]
fn lines_strip_crlf_and_final_newline() {
    assert_eq!(lines_of("ab\r\nc\n"), vec!["ab".to_string(), "c".to_string()]);
}

#[test]
fn lines_keep_lone_carriage_return_at_end() {
    assert_eq!(lines_of("x\r"), vec!["x\r".to_string()]);
}

#[test]
fn lines_of_empty_and_blank_text() {
    assert_eq!(lines_of(""), Vec::<String>::new());
    assert_eq!(lines_of("\n"), vec!["".to_string()]);
    assert_eq!(lines_of("a\n\nb"), vec!["a".to_string(), "".to_string(), "b".to_string()]);
}

#[test]
fn lines_match_std() {
    let samples = ["", "a", "a\n", "a\r\n", "a\r\nb\r", "\r\n\r\n", "é: ü\nß"];
    for s in samples {
        let expected: Vec<String> = s.lines().map(|l| l.to_string()).collect();
        assert_eq!(lines_of(s), expected, "text {:?}", s);
    }
}

#[test]
fn split_once_at_first_separator() {
    assert_eq!(split_once_str("k: v: w", ":"), Some(("k".to_string(), " v: w".to_string())));
    assert_eq!(split_once_str("a b: c", ": "), Some(("a b".to_string(), "c".to_string())));
    assert_eq!(split_once_str("no separator", ":"), None);
}

#[test]
fn split_once_matches_std() {
    let samples = [("x:y", ":"), ("ä:ö", ":"), (":", ":"), ("ab", "b"), ("a: :b", ": ")];
    for (s, sep) in samples {
        let expected = s.split_once(sep).map(|(a, b)| (a.to_string(), b.to_string()));
        assert_eq!(split_once_str(s, sep), expected);
    }
}

#[test]
fn prefix_check() {
    assert!(has_prefix("An error occurred: boom", "An error occurred"));
    assert!(!has_prefix("Architecture: x86_64", "An error occurred"));
    assert!(has_prefix("abc", ""));
    assert!(!has_prefix("ab", "abc"));
}

#[test]
fn every_line_must_split() {
    assert!(lines_split("a:b\nc:d\n", ":"));
    assert!(!lines_split("a:b\ncd\n", ":"));
    assert!(lines_split("", ":"));
}

#[test]
fn utf8_output_is_decoded() {
    assert_eq!(output_text("Model name: Ryzen".as_bytes().to_vec()), Some("Model name: Ryzen".to_string()));
    assert_eq!(output_text(vec![0xff, 0xfe]), None);
}
