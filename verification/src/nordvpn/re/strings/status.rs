use super::shared::{
    ended, ended_pattern, labelled, labelled_pattern, IPV4_OR_IPV6, OPENVPN_OR_NORDLYNX,
    TCP_OR_UDP,
};
use vstd::prelude::*;

verus! {

/// The line that names the host of the server, without its end.
pub const HOSTNAME_LINE: &'static str = r#"Current server:\s+(?P<hostname>[\w\d\-\.]+)"#;

/// The line that names the host of the server.
pub open spec fn hostname_pattern() -> Seq<char> {
    ended_pattern(HOSTNAME_LINE@)
}

/// The line that names the host of the server.
pub fn hostname() -> (pattern: String)
    ensures
        pattern@ == hostname_pattern(),
{
    ended(HOSTNAME_LINE)
}

/// The line that names the country of the server, without its end.
pub const COUNTRY_LINE: &'static str = r#"Country:\s+(?P<country>(?i)[a-z_ ]+[a-z_ ])"#;

/// The line that names the country of the server.
pub open spec fn country_pattern() -> Seq<char> {
    ended_pattern(COUNTRY_LINE@)
}

/// The line that names the country of the server.
pub fn country() -> (pattern: String)
    ensures
        pattern@ == country_pattern(),
{
    ended(COUNTRY_LINE)
}

/// The line that names the city of the server, without its end.
pub const CITY_LINE: &'static str = r#"City:\s+(?P<city>(?i)[a-z_ ]+[a-z_ ])"#;

/// The line that names the city of the server.
pub open spec fn city_pattern() -> Seq<char> {
    ended_pattern(CITY_LINE@)
}

/// The line that names the city of the server.
pub fn city() -> (pattern: String)
    ensures
        pattern@ == city_pattern(),
{
    ended(CITY_LINE)
}

/// What stands in front of the value on the line that gives the address of the
/// server.
pub const IP_LABEL: &'static str = r#"Server IP:\s+"#;

/// The line that gives the address of the server.
pub open spec fn ip_pattern() -> Seq<char> {
    labelled_pattern(IP_LABEL@, "ip"@, IPV4_OR_IPV6@)
}

/// The line that gives the address of the server.
pub fn ip() -> (pattern: String)
    ensures
        pattern@ == ip_pattern(),
{
    labelled(IP_LABEL, "ip", IPV4_OR_IPV6)
}

/// What stands in front of the value on the line that names the technology in
/// use.
pub const TECHNOLOGY_LABEL: &'static str = r#"Current technology:\s+"#;

/// The line that names the technology in use.
pub open spec fn technology_pattern() -> Seq<char> {
    labelled_pattern(TECHNOLOGY_LABEL@, "technology"@, OPENVPN_OR_NORDLYNX@)
}

/// The line that names the technology in use.
pub fn technology() -> (pattern: String)
    ensures
        pattern@ == technology_pattern(),
{
    labelled(TECHNOLOGY_LABEL, "technology", OPENVPN_OR_NORDLYNX)
}

/// What stands in front of the value on the line that names the protocol in
/// use.
pub const PROTOCOL_LABEL: &'static str = r#"Current protocol:\s+"#;

/// The line that names the protocol in use.
pub open spec fn protocol_pattern() -> Seq<char> {
    labelled_pattern(PROTOCOL_LABEL@, "protocol"@, TCP_OR_UDP@)
}

/// The line that names the protocol in use.
pub fn protocol() -> (pattern: String)
    ensures
        pattern@ == protocol_pattern(),
{
    labelled(PROTOCOL_LABEL, "protocol", TCP_OR_UDP)
}

/// The line that gives the data received and sent, each as a number and a
/// unit, without its end.
pub const TRANSFER_LINE: &'static str =
    r#"Transfer:\s+(?i:(?P<transfer_received>(?:\d+\.)?\d+\s+[a-z]+)\s+received,\s+(?P<transfer_sent>(?:\d+\.)?\d+\s+[a-z]+)\s+sent)"#;

/// The line that gives the data received and sent, each as a number and a
/// unit.
pub open spec fn transfer_pattern() -> Seq<char> {
    ended_pattern(TRANSFER_LINE@)
}

/// The line that gives the data received and sent, each as a number and a
/// unit.
pub fn transfer() -> (pattern: String)
    ensures
        pattern@ == transfer_pattern(),
{
    ended(TRANSFER_LINE)
}

/// The line that gives the time since the connection was made: years, months,
/// days, hours, minutes and seconds, each of which may be missing, without its
/// end.
pub const UPTIME_LINE: &'static str =
    r#"Uptime:\s+(?i:(?:(?P<uptime_years>\d+)\s+years?\s*)?(?:(?P<uptime_months>\d+)\s+months?\s*)?(?:(?P<uptime_days>\d+)\s+days?\s*)?(?:(?P<uptime_hours>\d+)\s+hours?\s*)?(?:(?P<uptime_minutes>\d+)\s+minutes?\s*)?(?:(?P<uptime_seconds>\d+)\s+seconds?\s*)?)"#;

/// The line that gives the time since the connection was made: years, months,
/// days, hours, minutes and seconds, each of which may be missing.
pub open spec fn uptime_pattern() -> Seq<char> {
    ended_pattern(UPTIME_LINE@)
}

/// The line that gives the time since the connection was made: years, months,
/// days, hours, minutes and seconds, each of which may be missing.
pub fn uptime() -> (pattern: String)
    ensures
        pattern@ == uptime_pattern(),
{
    ended(UPTIME_LINE)
}

} // verus!
