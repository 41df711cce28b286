use nordvpn_viking::nordvpn::re::strings;

#[test]
fn print_dns_pattern() {
    println!("DNS PATTERN: {}", strings::settings::dns());
}

#[test]
fn dns_pattern_is_put_together_from_its_parts() {
    assert_eq!(
        strings::settings::dns(),
        r#"DNS:\s+(?:(?P<dns_disabled>(?i)enabled|disabled)|(?:(?P<dns_primary>(?i)(?:[\da-f]{0,4}:){1,7}[\da-f]{0,4}|(?:\d{1,3}\.){3}\d{1,3})(?:,\s+)?)?(?:(?P<dns_secondary>(?i)(?:[\da-f]{0,4}:){1,7}[\da-f]{0,4}|(?:\d{1,3}\.){3}\d{1,3})(?:,\s+)?)?(?P<dns_tertiary>(?i)(?:[\da-f]{0,4}:){1,7}[\da-f]{0,4}|(?:\d{1,3}\.){3}\d{1,3})?)\s*(?:\n|$)"#
    );
}

#[test]
fn shared_parts_take_their_name() {
    assert_eq!(strings::shared::named("x", "y+"), "(?P<x>y+)");
    assert_eq!(strings::shared::ended("x"), r#"x\s*(?:\n|$)"#);
    assert_eq!(
        strings::shared::labelled("On:", "on", strings::shared::ENABLED_OR_DISABLED),
        r#"On:(?P<on>(?i)enabled|disabled)\s*(?:\n|$)"#
    );
    assert_eq!(strings::shared::any_of(&vec!["a".to_owned(), "b".to_owned()]), "(?:a|b)+");
}

#[test]
fn status_pattern_holds_every_line() {
    let expected = [
        r#"(?:Current server:\s+(?P<hostname>[\w\d\-\.]+)\s*(?:\n|$)"#,
        r#"|Country:\s+(?P<country>(?i)[a-z_ ]+[a-z_ ])\s*(?:\n|$)"#,
        r#"|City:\s+(?P<city>(?i)[a-z_ ]+[a-z_ ])\s*(?:\n|$)"#,
        r#"|Server IP:\s+(?P<ip>(?i)(?:[\da-f]{0,4}:){1,7}[\da-f]{0,4}|(?:\d{1,3}\.){3}\d{1,3})\s*(?:\n|$)"#,
        r#"|Current technology:\s+(?P<technology>(?i)OPENVPN|NORDLYNX)\s*(?:\n|$)"#,
        r#"|Current protocol:\s+(?P<protocol>(?i)TCP|UDP)\s*(?:\n|$)"#,
        r#"|Transfer:\s+(?i:(?P<transfer_received>(?:\d+\.)?\d+\s+[a-z]+)\s+received,\s+(?P<transfer_sent>(?:\d+\.)?\d+\s+[a-z]+)\s+sent)\s*(?:\n|$)"#,
        r#"|Uptime:\s+(?i:(?:(?P<uptime_years>\d+)\s+years?\s*)?(?:(?P<uptime_months>\d+)\s+months?\s*)?(?:(?P<uptime_days>\d+)\s+days?\s*)?(?:(?P<uptime_hours>\d+)\s+hours?\s*)?(?:(?P<uptime_minutes>\d+)\s+minutes?\s*)?(?:(?P<uptime_seconds>\d+)\s+seconds?\s*)?)\s*(?:\n|$))+"#,
    ];
    assert_eq!(strings::status(), expected.concat());
}

#[test]
fn account_pattern_holds_every_line() {
    let expected = [
        r#"(?:Email Address:\s+(?P<email>.+)\s*(?:\n|$)"#,
        r#"|VPN Service:\s+(?P<active>(?i)[a-z]+)\s*"#,
        r#"|\(Expires on\s+(?P<expires_month>(?i)[a-z]{3})\s+(?P<expires_day>\d+)(?i:st|nd|rd|th),\s+(?P<expires_year>\d{4})\))+"#,
    ];
    assert_eq!(strings::account(), expected.concat());
}

#[test]
fn settings_pattern_holds_every_line() {
    let switch = |label: &str, name: &str| {
        format!(r#"{}:\s+(?P<{}>(?i)enabled|disabled)\s*(?:\n|$)"#, label, name)
    };
    let expected = vec![
        r#"Technology:\s+(?P<technology>(?i)OPENVPN|NORDLYNX)\s*(?:\n|$)"#.to_owned(),
        r#"Protocol:\s+(?P<protocol>(?i)TCP|UDP)\s*(?:\n|$)"#.to_owned(),
        switch("Firewall", "firewall"),
        switch("Kill Switch", "killswitch"),
        switch("CyberSec", "cybersec"),
        switch("Obfuscate", "obfuscate"),
        switch("Notify", "notify"),
        switch("Auto-connect", "autoconnect"),
        switch("IPv6", "ipv6"),
        strings::settings::dns(),
    ];
    assert_eq!(strings::settings(), format!("(?:{})+", expected.join("|")));
}

#[test]
fn single_patterns() {
    assert_eq!(strings::login::url(), r#"Continue in the browser:\s+(?P<url>.+)\s*(?:\n|$)"#);
    assert_eq!(strings::version::version(), r#"(?P<version>\d+\.\d+.\d+)\s*(?:\n|$)"#);
    assert_eq!(strings::WORD_LIST, r#"(\w+)(?:,\s*|\s+|$)"#);
    assert_eq!(strings::settings::INVALID_NAME, r#"Command '(?P<name>.+)' doesn't exist."#);
}
