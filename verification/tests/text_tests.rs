use honeybee::text::{decimal_text, parse_u64, split_whitespace, trim};

#[test]
fn parse_u64_accepts_plus_and_digits() {
    assert_eq!(parse_u64("8108114413124017714"), Some(8108114413124017714));
    assert_eq!(parse_u64("+7"), Some(7));
    assert_eq!(parse_u64("-7"), None);
    assert_eq!(parse_u64(""), None);
    assert_eq!(parse_u64("+"), None);
    assert_eq!(parse_u64("18446744073709551616"), None);
    assert_eq!(parse_u64("18446744073709551615"), Some(u64::MAX));
}

#[test]
fn decimal_text_matches_to_string() {
    for n in [0u64, 7, 10, 99, 100, 12345, u64::MAX] {
        assert_eq!(decimal_text(n), n.to_string());
    }
}

#[test]
fn trim_and_split_match_std() {
    let s = "  \u{3000}list   a\tb\n ";
    assert_eq!(trim(s), s.trim());
    let w: Vec<String> = s.split_whitespace().map(|x| x.to_string()).collect();
    assert_eq!(split_whitespace(s), w);
}
