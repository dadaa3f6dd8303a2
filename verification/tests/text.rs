use ceph_backend::text::{
    chars_of, decimal_string, parse_u64, same_text, split, starts_with, trim, whitespace,
};

#[test]
fn chars_of_keeps_every_character() {
    assert_eq!(chars_of(""), Vec::<char>::new());
    assert_eq!(chars_of("a/b"), vec!['a', '/', 'b']);
    assert_eq!(chars_of("é世"), vec!['é', '世']);
}

#[test]
fn decimal_string_matches_std() {
    assert_eq!(decimal_string(0), "0");
    assert_eq!(decimal_string(7), "7");
    assert_eq!(decimal_string(10), "10");
    assert_eq!(decimal_string(1_073_741_824), "1073741824");
    assert_eq!(decimal_string(u64::MAX), "18446744073709551615");
    for n in [1u64, 9, 11, 99, 100, 101, 12345, 4_294_967_296] {
        assert_eq!(decimal_string(n), n.to_string());
    }
}

#[test]
fn parse_u64_reads_digits() {
    assert_eq!(parse_u64("0"), Some(0));
    assert_eq!(parse_u64("42"), Some(42));
    assert_eq!(parse_u64("007"), Some(7));
    assert_eq!(parse_u64("+5"), Some(5));
    assert_eq!(parse_u64("18446744073709551615"), Some(u64::MAX));
}

#[test]
fn parse_u64_rejects_what_is_no_number() {
    assert_eq!(parse_u64(""), None);
    assert_eq!(parse_u64("+"), None);
    assert_eq!(parse_u64("-1"), None);
    assert_eq!(parse_u64("++1"), None);
    assert_eq!(parse_u64(" 1"), None);
    assert_eq!(parse_u64("1 "), None);
    assert_eq!(parse_u64("12a"), None);
    assert_eq!(parse_u64("１２"), None);
    assert_eq!(parse_u64("18446744073709551616"), None);
    assert_eq!(parse_u64("99999999999999999999999"), None);
}

#[test]
fn parse_u64_agrees_with_std() {
    let samples = [
        "", "0", "1", "+1", "-0", "+", "00", "0x10", "18446744073709551615",
        "18446744073709551616", "184467440737095516150", "1e3", "1_000", "٣", "12\n",
    ];
    for s in samples {
        assert_eq!(parse_u64(s), s.parse::<u64>().ok(), "for {:?}", s);
    }
}

#[test]
fn decimal_text_reads_back() {
    for n in [0u64, 1, 9, 10, 255, 65_536, u64::MAX - 1, u64::MAX] {
        assert_eq!(parse_u64(&decimal_string(n)), Some(n));
    }
}

#[test]
fn whitespace_agrees_with_std_on_every_char() {
    let mut code = 0u32;
    while code <= 0x10FFFF {
        if let Some(c) = char::from_u32(code) {
            assert_eq!(whitespace(c), c.is_whitespace(), "for U+{:04X}", code);
        }
        code += 1;
    }
}

#[test]
fn trim_removes_surrounding_white_space_only() {
    assert_eq!(trim(""), "");
    assert_eq!(trim("   "), "");
    assert_eq!(trim("filestore\n"), "filestore");
    assert_eq!(trim("\t 12 \r\n"), "12");
    assert_eq!(trim("a b"), "a b");
    assert_eq!(trim("\u{a0}x\u{3000}"), "x");
    for s in ["", " ", "x", " x", "x ", "  x y  ", "\n\n", "\u{2028}é\u{85}"] {
        assert_eq!(trim(s), s.trim(), "for {:?}", s);
    }
}

#[test]
fn starts_with_tests_the_prefix() {
    assert!(starts_with("ceph.osd_id=3", "ceph.osd_id"));
    assert!(starts_with("ceph.osd_id", "ceph.osd_id"));
    assert!(starts_with("anything", ""));
    assert!(!starts_with("ceph.osd_fsid=3", "ceph.osd_id"));
    assert!(!starts_with("ceph", "ceph.osd_id"));
    assert!(!starts_with("", "c"));
}

#[test]
fn same_text_compares_contents() {
    assert!(same_text("", ""));
    assert!(same_text("filestore", "filestore"));
    assert!(!same_text("filestore", "filestor"));
    assert!(!same_text("filestore", "bluestore"));
}

#[test]
fn split_yields_every_field() {
    assert_eq!(split("", '='), vec![String::new()]);
    assert_eq!(split("a", '='), vec!["a".to_string()]);
    assert_eq!(split("a=b", '='), vec!["a".to_string(), "b".to_string()]);
    assert_eq!(split("a=", '='), vec!["a".to_string(), String::new()]);
    assert_eq!(split("=a", '='), vec![String::new(), "a".to_string()]);
    assert_eq!(
        split("a==b=c", '='),
        vec!["a".to_string(), String::new(), "b".to_string(), "c".to_string()]
    );
    for s in ["", "-", "ceph-12", "ceph-12-x", "--", "no hyphen", "é-世-"] {
        let expected: Vec<String> = s.split('-').map(|f| f.to_string()).collect();
        assert_eq!(split(s, '-'), expected, "for {:?}", s);
    }
}
