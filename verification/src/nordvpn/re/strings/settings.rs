use super::shared::{
    ended, ended_pattern, labelled, labelled_pattern, named, named_pattern, ENABLED_OR_DISABLED,
    IPV4_OR_IPV6, OPENVPN_OR_NORDLYNX, TCP_OR_UDP,
};
use vstd::prelude::*;
use vstd::string::*;

verus! {

/// The sentence with which the tool refuses a setting that it does not know.
pub const INVALID_NAME: &'static str = r#"Command '(?P<name>.+)' doesn't exist."#;

/// What stands in front of the value on the line that names the technology.
pub const TECHNOLOGY_LABEL: &'static str = r#"Technology:\s+"#;

/// The line that names the technology.
pub open spec fn technology_pattern() -> Seq<char> {
    labelled_pattern(TECHNOLOGY_LABEL@, "technology"@, OPENVPN_OR_NORDLYNX@)
}

/// The line that names the technology.
pub fn technology() -> (pattern: String)
    ensures
        pattern@ == technology_pattern(),
{
    labelled(TECHNOLOGY_LABEL, "technology", OPENVPN_OR_NORDLYNX)
}

/// What stands in front of the value on the line that names the protocol.
pub const PROTOCOL_LABEL: &'static str = r#"Protocol:\s+"#;

/// The line that names the protocol.
pub open spec fn protocol_pattern() -> Seq<char> {
    labelled_pattern(PROTOCOL_LABEL@, "protocol"@, TCP_OR_UDP@)
}

/// The line that names the protocol.
pub fn protocol() -> (pattern: String)
    ensures
        pattern@ == protocol_pattern(),
{
    labelled(PROTOCOL_LABEL, "protocol", TCP_OR_UDP)
}

/// What stands in front of the value on the line that says whether the
/// firewall is on.
pub const FIREWALL_LABEL: &'static str = r#"Firewall:\s+"#;

/// The line that says whether the firewall is on.
pub open spec fn firewall_pattern() -> Seq<char> {
    labelled_pattern(FIREWALL_LABEL@, "firewall"@, ENABLED_OR_DISABLED@)
}

/// The line that says whether the firewall is on.
pub fn firewall() -> (pattern: String)
    ensures
        pattern@ == firewall_pattern(),
{
    labelled(FIREWALL_LABEL, "firewall", ENABLED_OR_DISABLED)
}

/// What stands in front of the value on the line that says whether the kill
/// switch is on.
pub const KILLSWITCH_LABEL: &'static str = r#"Kill Switch:\s+"#;

/// The line that says whether the kill switch is on.
pub open spec fn killswitch_pattern() -> Seq<char> {
    labelled_pattern(KILLSWITCH_LABEL@, "killswitch"@, ENABLED_OR_DISABLED@)
}

/// The line that says whether the kill switch is on.
pub fn killswitch() -> (pattern: String)
    ensures
        pattern@ == killswitch_pattern(),
{
    labelled(KILLSWITCH_LABEL, "killswitch", ENABLED_OR_DISABLED)
}

/// What stands in front of the value on the line that says whether CyberSec is
/// on.
pub const CYBERSEC_LABEL: &'static str = r#"CyberSec:\s+"#;

/// The line that says whether CyberSec is on.
pub open spec fn cybersec_pattern() -> Seq<char> {
    labelled_pattern(CYBERSEC_LABEL@, "cybersec"@, ENABLED_OR_DISABLED@)
}

/// The line that says whether CyberSec is on.
pub fn cybersec() -> (pattern: String)
    ensures
        pattern@ == cybersec_pattern(),
{
    labelled(CYBERSEC_LABEL, "cybersec", ENABLED_OR_DISABLED)
}

/// What stands in front of the value on the line that says whether obfuscation
/// is on.
pub const OBFUSCATE_LABEL: &'static str = r#"Obfuscate:\s+"#;

/// The line that says whether obfuscation is on.
pub open spec fn obfuscate_pattern() -> Seq<char> {
    labelled_pattern(OBFUSCATE_LABEL@, "obfuscate"@, ENABLED_OR_DISABLED@)
}

/// The line that says whether obfuscation is on.
pub fn obfuscate() -> (pattern: String)
    ensures
        pattern@ == obfuscate_pattern(),
{
    labelled(OBFUSCATE_LABEL, "obfuscate", ENABLED_OR_DISABLED)
}

/// What stands in front of the value on the line that says whether
/// notifications is on.
pub const NOTIFY_LABEL: &'static str = r#"Notify:\s+"#;

/// The line that says whether notifications is on.
pub open spec fn notify_pattern() -> Seq<char> {
    labelled_pattern(NOTIFY_LABEL@, "notify"@, ENABLED_OR_DISABLED@)
}

/// The line that says whether notifications is on.
pub fn notify() -> (pattern: String)
    ensures
        pattern@ == notify_pattern(),
{
    labelled(NOTIFY_LABEL, "notify", ENABLED_OR_DISABLED)
}

/// What stands in front of the value on the line that says whether connecting
/// at start is on.
pub const AUTOCONNECT_LABEL: &'static str = r#"Auto-connect:\s+"#;

/// The line that says whether connecting at start is on.
pub open spec fn autoconnect_pattern() -> Seq<char> {
    labelled_pattern(AUTOCONNECT_LABEL@, "autoconnect"@, ENABLED_OR_DISABLED@)
}

/// The line that says whether connecting at start is on.
pub fn autoconnect() -> (pattern: String)
    ensures
        pattern@ == autoconnect_pattern(),
{
    labelled(AUTOCONNECT_LABEL, "autoconnect", ENABLED_OR_DISABLED)
}

/// What stands in front of the value on the line that says whether IPv6 is on.
pub const IPV6_LABEL: &'static str = r#"IPv6:\s+"#;

/// The line that says whether IPv6 is on.
pub open spec fn ipv6_pattern() -> Seq<char> {
    labelled_pattern(IPV6_LABEL@, "ipv6"@, ENABLED_OR_DISABLED@)
}

/// The line that says whether IPv6 is on.
pub fn ipv6() -> (pattern: String)
    ensures
        pattern@ == ipv6_pattern(),
{
    labelled(IPV6_LABEL, "ipv6", ENABLED_OR_DISABLED)
}

/// What stands in front of the name servers on their line.
pub const DNS_LABEL: &'static str = r#"DNS:\s+"#;

/// A comma and blanks, which may follow a name server.
pub const DNS_COMMA: &'static str = r#"(?:,\s+)?"#;

/// The line that gives the name servers: the word for none, or up to three
/// addresses with commas between them.
pub open spec fn dns_pattern() -> Seq<char> {
    ended_pattern(
        DNS_LABEL@ + "(?:"@ + named_pattern("dns_disabled"@, ENABLED_OR_DISABLED@) + "|(?:"@
            + named_pattern("dns_primary"@, IPV4_OR_IPV6@) + DNS_COMMA@ + ")?(?:"@ + named_pattern(
            "dns_secondary"@,
            IPV4_OR_IPV6@,
        ) + DNS_COMMA@ + ")?"@ + named_pattern("dns_tertiary"@, IPV4_OR_IPV6@) + "?)"@,
    )
}

/// The line that gives the name servers: the word for none, or up to three
/// addresses with commas between them.
pub fn dns() -> (pattern: String)
    ensures
        pattern@ == dns_pattern(),
{
    let mut content = String::from_str(DNS_LABEL);
    content.append("(?:");
    content.append(named("dns_disabled", ENABLED_OR_DISABLED).as_str());
    content.append("|(?:");
    content.append(named("dns_primary", IPV4_OR_IPV6).as_str());
    content.append(DNS_COMMA);
    content.append(")?(?:");
    content.append(named("dns_secondary", IPV4_OR_IPV6).as_str());
    content.append(DNS_COMMA);
    content.append(")?");
    content.append(named("dns_tertiary", IPV4_OR_IPV6).as_str());
    content.append("?)");
    ended(content.as_str())
}

} // verus!
