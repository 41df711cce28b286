use nordvpn_viking::nordvpn::re::{list_from_matches, Captures, Group};
use nordvpn_viking::nordvpn::{parse_list, Protocol, Technology};
use nordvpn_viking::text::{
    chars_of, contains, decimal_of, eq_ignore_ascii_case, join, less, parse_decimal, push_decimal,
    same_text, split_chars,
};

#[test]
fn parse_list_reads_words() {
    assert_eq!(
        parse_list("a, b, c"),
        Some(vec!["a".to_owned(), "b".to_owned(), "c".to_owned()])
    );
    assert_eq!(parse_list("a,b"), Some(vec!["a".to_owned(), "b".to_owned()]));
    assert_eq!(parse_list("one"), Some(vec!["one".to_owned()]));
    assert_eq!(parse_list("United_States, Germany\n"), Some(vec!["United_States".to_owned(), "Germany".to_owned()]));
}

fn words(items: &[&str]) -> Option<Vec<String>> {
    Some(items.iter().map(|item| item.to_string()).collect())
}

#[test]
fn parse_list_reads_words_that_blanks_part() {
    assert_eq!(parse_list("a b c"), words(&["a", "b", "c"]));
    assert_eq!(parse_list("a  b\tc"), words(&["a", "b", "c"]));
    assert_eq!(parse_list("  a b  "), words(&["a", "b"]));
    assert_eq!(parse_list("a, b c,d"), words(&["a", "b", "c", "d"]));
}

#[test]
fn parse_list_reads_a_list_over_several_lines() {
    assert_eq!(parse_list("a, b\nc, d\n"), words(&["a", "b", "c", "d"]));
    assert_eq!(parse_list("a b\nc d"), words(&["a", "b", "c", "d"]));
    assert_eq!(parse_list("a,\nb,\nc"), words(&["a", "b", "c"]));
    assert_eq!(
        parse_list("Albania\t\tGermany\r\nUnited_States\tJapan\r\n"),
        words(&["Albania", "Germany", "United_States", "Japan"])
    );
    assert_eq!(parse_list("\n\na\n\n"), words(&["a"]));
}

#[test]
fn parse_list_of_nothing_is_none() {
    assert_eq!(parse_list(""), None);
    assert_eq!(parse_list("   "), None);
    assert_eq!(parse_list(",,,"), None);
    assert_eq!(parse_list("\n\t \n"), None);
    assert_eq!(parse_list(", ,\n,"), None);
}

#[test]
fn list_from_matches_takes_the_first_group() {
    let word = |text: &str| vec![Some(format!("{}, ", text)), Some(text.to_owned())];
    assert_eq!(
        list_from_matches(&vec![word("a"), word("b")]),
        Some(vec!["a".to_owned(), "b".to_owned()])
    );
    assert_eq!(list_from_matches(&vec![]), None);
    assert_eq!(list_from_matches(&vec![word("a"), vec![Some("b".to_owned())]]), None);
    assert_eq!(list_from_matches(&vec![word("a"), vec![Some("b".to_owned()), None]]), None);
}

#[test]
fn captures_give_groups_by_name() {
    let captures = Captures {
        groups: vec![
            Group { name: "a".to_owned(), text: Some("1".to_owned()) },
            Group { name: "b".to_owned(), text: None },
            Group { name: "a".to_owned(), text: Some("2".to_owned()) },
        ],
    };
    assert_eq!(captures.name("a"), Some("1".to_owned()));
    assert_eq!(captures.name("b"), None);
    assert_eq!(captures.name("c"), None);
}

#[test]
fn contains_finds_a_part() {
    assert!(contains("Status: Disconnected\n", "Disconnected"));
    assert!(contains("abc", ""));
    assert!(contains("", ""));
    assert!(contains("abc", "abc"));
    assert!(contains("aab", "ab"));
    assert!(!contains("abc", "abcd"));
    assert!(!contains("abc", "ac"));
    assert!(!contains("", "a"));
    assert!(contains("grüße", "üß"));
}

#[test]
fn case_of_ascii_letters_is_ignored() {
    assert!(eq_ignore_ascii_case("Active", "active"));
    assert!(eq_ignore_ascii_case("ACTIVE", "active"));
    assert!(!eq_ignore_ascii_case("inactive", "active"));
    assert!(!eq_ignore_ascii_case("activ", "active"));
    assert!(!eq_ignore_ascii_case("Ä", "ä"));
    assert!(!eq_ignore_ascii_case("@", "`"));
    assert!(!eq_ignore_ascii_case("[", "{"));
    assert!(same_text("a", "a"));
    assert!(!same_text("a", "A"));
    assert!(!same_text("a", "ab"));
}

#[test]
fn names_are_read_in_any_case() {
    assert_eq!(Technology::from_str("OPENVPN"), Some(Technology::OpenVpn));
    assert_eq!(Technology::from_str("OpenVPN"), Some(Technology::OpenVpn));
    assert_eq!(Technology::from_str("nordlynx"), Some(Technology::NordLynx));
    assert_eq!(Technology::from_str("wireguard"), None);
    assert_eq!(Technology::from_str(""), None);
    assert_eq!(Protocol::from_str("tcp"), Some(Protocol::Tcp));
    assert_eq!(Protocol::from_str("Udp"), Some(Protocol::Udp));
    assert_eq!(Protocol::from_str("sctp"), None);
    assert_eq!(Technology::OpenVpn.to_string(), "OPENVPN");
    assert_eq!(Technology::NordLynx.to_string(), "NORDLYNX");
    assert_eq!(Protocol::Tcp.to_string(), "TCP");
    assert_eq!(Protocol::Udp.as_str(), "UDP");
    for technology in [Technology::OpenVpn, Technology::NordLynx] {
        assert_eq!(Technology::from_str(&technology.to_string()), Some(technology));
    }
    for protocol in [Protocol::Tcp, Protocol::Udp] {
        assert_eq!(Protocol::from_str(&protocol.to_string()), Some(protocol));
    }
}

#[test]
fn digits_are_read_as_a_number() {
    assert_eq!(parse_decimal("0"), Some(0));
    assert_eq!(parse_decimal("007"), Some(7));
    assert_eq!(parse_decimal("1234"), Some(1234));
    assert_eq!(parse_decimal("18446744073709551615"), Some(u64::MAX));
    assert_eq!(parse_decimal("18446744073709551616"), Some(u64::MAX));
    assert_eq!(parse_decimal("99999999999999999999999"), Some(u64::MAX));
    assert_eq!(parse_decimal(""), None);
    assert_eq!(parse_decimal("12a"), None);
    assert_eq!(parse_decimal("-1"), None);
    assert_eq!(parse_decimal("١٢"), None);
    assert_eq!(decimal_of(&vec!['4', '2']), Some(42));
}

#[test]
fn numbers_are_written_in_digits() {
    let mut text = String::from("n=");
    push_decimal(&mut text, 0);
    push_decimal(&mut text, 1203);
    push_decimal(&mut text, u64::MAX);
    assert_eq!(text, "n=0120318446744073709551615");
}

#[test]
fn texts_are_cut_and_joined() {
    let parts = |text: &str, sep: char| -> Vec<String> {
        let chars = chars_of(text);
        split_chars(&chars, 0, chars.len(), sep).iter().map(|part| part.iter().collect()).collect()
    };
    assert_eq!(parts("a.b.c", '.'), vec!["a", "b", "c"]);
    assert_eq!(parts("", '.'), vec![""]);
    assert_eq!(parts(".", '.'), vec!["", ""]);
    assert_eq!(parts("a..b.", '.'), vec!["a", "", "b", ""]);
    assert_eq!(join(&vec!["a".to_owned(), "b".to_owned(), "c".to_owned()], ", "), "a, b, c");
    assert_eq!(join(&vec!["a".to_owned()], ", "), "a");
    assert_eq!(join(&vec![], ", "), "");
    let chars = chars_of("héllo");
    assert_eq!(chars, vec!['h', 'é', 'l', 'l', 'o']);
}

#[test]
fn less_is_the_order_of_str() {
    let samples = ["", "a", "A", "ab", "b", "ba", "é", "z", "zz", "\u{10ffff}", "a\u{0}", "日本"];
    for a in samples {
        for b in samples {
            assert_eq!(less(a, b), a < b, "{:?} {:?}", a, b);
        }
    }
}
