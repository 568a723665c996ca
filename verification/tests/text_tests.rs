use openusb::text::{
    chars_to_string, first_line, format_dec, format_hex4, parse_radix, rsplit_once, split_once,
    split_once_pat, str_to_chars, trim_chars,
};

fn s(v: &[char]) -> String {
    chars_to_string(v)
}

#[test]
fn trim_removes_unicode_whitespace_on_both_ends() {
    let c = str_to_chars("\t \u{3000} abc d \r\n\u{a0}");
    assert_eq!(s(trim_chars(&c)), "abc d");
    let e = str_to_chars("   ");
    assert_eq!(s(trim_chars(&e)), "");
}

#[test]
fn parse_radix_follows_from_str_radix() {
    let p = |t: &str, radix: u32, max: u32| parse_radix(&str_to_chars(t), radix, max);
    assert_eq!(p("1d6b", 16, 0xFFFF), Some(0x1d6b));
    assert_eq!(p("FFFF", 16, 0xFFFF), Some(0xFFFF));
    assert_eq!(p("10000", 16, 0xFFFF), None);
    assert_eq!(p("+12", 10, 0xFFFF), Some(12));
    assert_eq!(p("+", 10, 0xFFFF), None);
    assert_eq!(p("", 10, 0xFFFF), None);
    assert_eq!(p("-1", 10, 0xFFFF), None);
    assert_eq!(p("255", 10, 0xFF), Some(255));
    assert_eq!(p("256", 10, 0xFF), None);
    assert_eq!(p("1a", 10, 0xFF), None);
    assert_eq!(p("000000000000001", 10, 0xFF), Some(1));
    for t in ["0", "7", "65535", "65536", "12a", "+0", "99999999999"] {
        assert_eq!(p(t, 10, 0xFFFF), t.parse::<u16>().ok().map(u32::from), "{t}");
    }
}

#[test]
fn formatting_matches_std() {
    for v in [0u16, 0x1d6b, 0xffff, 0x0765, 0x000a] {
        assert_eq!(s(&format_hex4(v)), format!("{:04x}", v));
    }
    for n in [0u64, 7, 10, 3240, 8443, u64::MAX] {
        assert_eq!(s(&format_dec(n)), n.to_string());
    }
}

#[test]
fn splitting_takes_first_or_last_separator() {
    let c = str_to_chars("a:b:c");
    let (x, y) = split_once(&c, ':').unwrap();
    assert_eq!((s(x), s(y)), ("a".to_string(), "b:c".to_string()));
    let (x, y) = rsplit_once(&c, ':').unwrap();
    assert_eq!((s(x), s(y)), ("a:b".to_string(), "c".to_string()));
    assert!(split_once(&c, '/').is_none());
    let c = str_to_chars("046d   Logitech");
    let (x, y) = split_once_pat(&c, &[' ', ' ']).unwrap();
    assert_eq!((s(x), s(y)), ("046d".to_string(), " Logitech".to_string()));
}

#[test]
fn lines_drop_carriage_returns_before_line_feeds() {
    let c = str_to_chars("one\r\ntwo\nthree\r");
    let (l1, rest) = first_line(&c);
    assert_eq!(s(l1), "one");
    let (l2, rest) = first_line(rest);
    assert_eq!(s(l2), "two");
    let (l3, rest) = first_line(rest);
    assert_eq!(s(l3), "three\r");
    assert!(rest.is_empty());
}
