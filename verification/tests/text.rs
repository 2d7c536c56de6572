use fwcloud_agent::text::{
    chars_of, decimal_of, join_with, lines_of, parse_number, replace, split_non_empty, split_on,
    string_of, trim,
};

fn chars(s: &str) -> Vec<char> {
    s.chars().collect()
}

fn strings(v: Vec<Vec<char>>) -> Vec<String> {
    v.iter().map(|s| s.iter().collect()).collect()
}

#[test]
fn characters_and_back() {
    assert_eq!(chars_of("gr\u{fc}n"), chars("gr\u{fc}n"));
    assert_eq!(string_of(&chars("gr\u{fc}n")), "gr\u{fc}n");
    assert_eq!(string_of(&chars_of("")), "");
}

#[test]
fn split_gives_one_field_more_than_separators() {
    assert_eq!(strings(split_on(&chars(""), ',')), vec![""]);
    assert_eq!(strings(split_on(&chars("a"), ',')), vec!["a"]);
    assert_eq!(strings(split_on(&chars("a,b,,c,"), ',')), vec!["a", "b", "", "c", ""]);
    assert_eq!(strings(split_on(&chars(","), ',')), vec!["", ""]);
    assert_eq!(strings(split_non_empty(&chars(",a,,b,"), ',')), vec!["a", "b"]);
    assert_eq!(split_non_empty(&chars(""), ',').len(), 0);
}

#[test]
fn lines_end_at_line_feeds() {
    assert_eq!(lines_of(&chars("")).len(), 0);
    assert_eq!(strings(lines_of(&chars("a\nb\r\nc"))), vec!["a", "b", "c"]);
    assert_eq!(strings(lines_of(&chars("a\n\n"))), vec!["a", ""]);
    assert_eq!(strings(lines_of(&chars("a\r"))), vec!["a\r"]);
    assert_eq!(strings(lines_of(&chars("a\r\r\n"))), vec!["a\r"]);
}

#[test]
fn join_puts_the_separator_between() {
    let sep = chars(", ");
    assert_eq!(string_of(&join_with(&vec![], &sep)), "");
    assert_eq!(string_of(&join_with(&vec![chars("a")], &sep)), "a");
    assert_eq!(
        string_of(&join_with(&vec![chars("a"), chars(""), chars("b")], &sep)),
        "a, , b"
    );
}

#[test]
fn numbers_in_decimal() {
    assert_eq!(string_of(&decimal_of(0)), "0");
    assert_eq!(string_of(&decimal_of(7)), "7");
    assert_eq!(string_of(&decimal_of(1689950156)), "1689950156");
    assert_eq!(string_of(&decimal_of(u64::MAX)), "18446744073709551615");
    assert_eq!(parse_number(&chars("0"), 10), Some(0));
    assert_eq!(parse_number(&chars("+10"), 10), Some(10));
    assert_eq!(parse_number(&chars("0010"), 10), Some(10));
    assert_eq!(parse_number(&chars("11"), 10), None);
    assert_eq!(parse_number(&chars(""), 10), None);
    assert_eq!(parse_number(&chars("+"), 10), None);
    assert_eq!(parse_number(&chars("-1"), 10), None);
    assert_eq!(parse_number(&chars("1 "), 10), None);
    assert_eq!(parse_number(&chars("99999999999999999999999x"), u64::MAX), None);
    assert_eq!(
        parse_number(&chars("18446744073709551615"), u64::MAX),
        Some(u64::MAX)
    );
    assert_eq!(parse_number(&chars("18446744073709551616"), u64::MAX), None);
}

#[test]
fn replace_and_trim() {
    assert_eq!(
        string_of(&replace(&chars("/etc/openvpn/s.log"), '/', '_')),
        "_etc_openvpn_s.log"
    );
    assert_eq!(string_of(&trim(&chars("  a b  "))), "a b");
    assert_eq!(string_of(&trim(&chars("   "))), "");
    assert_eq!(string_of(&trim(&chars("a"))), "a");
}
