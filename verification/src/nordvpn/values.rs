use crate::text::{eq_ignore_ascii_case, eq_ignore_case, folded};
use chrono::Datelike;
use vstd::prelude::*;
use vstd::string::*;

verus! {

/// The technology that carries the tunnel.
#[derive(Debug, Copy, Clone, PartialEq, Eq, Structural)]
pub enum Technology {
    OpenVpn,
    NordLynx,
}

/// The transport under the tunnel.
#[derive(Debug, Copy, Clone, PartialEq, Eq, Structural)]
pub enum Protocol {
    Tcp,
    Udp,
}

/// The word that the tool has for a technology.
pub open spec fn technology_text(technology: Technology) -> Seq<char> {
    match technology {
        Technology::OpenVpn => "OPENVPN"@,
        Technology::NordLynx => "NORDLYNX"@,
    }
}

/// The technology that a word names, whatever the case of its letters.
pub open spec fn technology_of(text: Seq<char>) -> Option<Technology> {
    if eq_ignore_case(text, "OPENVPN"@) {
        Some(Technology::OpenVpn)
    } else if eq_ignore_case(text, "NORDLYNX"@) {
        Some(Technology::NordLynx)
    } else {
        None
    }
}

/// The word that the tool has for a protocol.
pub open spec fn protocol_text(protocol: Protocol) -> Seq<char> {
    match protocol {
        Protocol::Tcp => "TCP"@,
        Protocol::Udp => "UDP"@,
    }
}

/// The protocol that a word names, whatever the case of its letters.
pub open spec fn protocol_of(text: Seq<char>) -> Option<Protocol> {
    if eq_ignore_case(text, "TCP"@) {
        Some(Protocol::Tcp)
    } else if eq_ignore_case(text, "UDP"@) {
        Some(Protocol::Udp)
    } else {
        None
    }
}

impl Technology {
    /// Reads the name of a technology, whatever the case of its letters.
    pub fn from_str(text: &str) -> (technology: Option<Technology>)
        ensures
            technology == technology_of(text@),
    {
        if eq_ignore_ascii_case(text, "OPENVPN") {
            Some(Technology::OpenVpn)
        } else if eq_ignore_ascii_case(text, "NORDLYNX") {
            Some(Technology::NordLynx)
        } else {
            None
        }
    }

    /// The name of the technology, in capitals.
    pub fn as_str(&self) -> (text: &'static str)
        ensures
            text@ == technology_text(*self),
    {
        match self {
            Technology::OpenVpn => "OPENVPN",
            Technology::NordLynx => "NORDLYNX",
        }
    }

    /// The name of the technology, in capitals.
    pub fn to_string(&self) -> (text: String)
        ensures
            text@ == technology_text(*self),
    {
        String::from_str(self.as_str())
    }
}

impl Protocol {
    /// Reads the name of a protocol, whatever the case of its letters.
    pub fn from_str(text: &str) -> (protocol: Option<Protocol>)
        ensures
            protocol == protocol_of(text@),
    {
        if eq_ignore_ascii_case(text, "TCP") {
            Some(Protocol::Tcp)
        } else if eq_ignore_ascii_case(text, "UDP") {
            Some(Protocol::Udp)
        } else {
            None
        }
    }

    /// The name of the protocol, in capitals.
    pub fn as_str(&self) -> (text: &'static str)
        ensures
            text@ == protocol_text(*self),
    {
        match self {
            Protocol::Tcp => "TCP",
            Protocol::Udp => "UDP",
        }
    }

    /// The name of the protocol, in capitals.
    pub fn to_string(&self) -> (text: String)
        ensures
            text@ == protocol_text(*self),
    {
        String::from_str(self.as_str())
    }
}

/// A technology is read back from its own name.
pub proof fn lemma_technology_round_trip(technology: Technology)
    ensures
        technology_of(technology_text(technology)) == Some(technology),
{
    reveal_strlit("OPENVPN");
    reveal_strlit("NORDLYNX");
}

/// A protocol is read back from its own name.
pub proof fn lemma_protocol_round_trip(protocol: Protocol)
    ensures
        protocol_of(protocol_text(protocol)) == Some(protocol),
{
    reveal_strlit("TCP");
    reveal_strlit("UDP");
    assert(folded("UDP"@[0]) != folded("TCP"@[0]));
}

/// Two words that differ in the case of their letters only name the same
/// technology and the same protocol.
pub proof fn lemma_names_ignore_case(a: Seq<char>, b: Seq<char>)
    requires
        eq_ignore_case(a, b),
    ensures
        technology_of(a) == technology_of(b),
        protocol_of(a) == protocol_of(b),
{
}

/// The word that the tool takes for a switch.
pub open spec fn bool_text(value: bool) -> Seq<char> {
    if value {
        "true"@
    } else {
        "false"@
    }
}

/// The word that the tool takes for a switch.
pub fn bool_string(value: bool) -> (text: String)
    ensures
        text@ == bool_text(value),
{
    if value {
        String::from_str("true")
    } else {
        String::from_str("false")
    }
}

/// A quantity of data, in bytes.
#[derive(Debug, Copy, Clone, PartialEq, Eq, PartialOrd, Ord, Structural)]
pub struct Byte {
    pub bytes: u128,
}

impl Byte {
    /// The number of bytes.
    pub fn get_bytes(&self) -> (bytes: u128)
        ensures
            bytes == self.bytes,
    {
        self.bytes
    }
}

/// The data that went through the tunnel, each way.
#[derive(Debug, Copy, Clone, PartialEq, Eq, Structural)]
pub struct Transfer {
    pub received: Byte,
    pub sent: Byte,
}

/// What `byte_unit::Byte::from_str` makes of a text such as `12.3 MiB`: the
/// number of bytes, or nothing where the text is no quantity.
pub uninterp spec fn byte_unit_parse(text: Seq<char>) -> Option<u128>;

/// `byte_unit::Byte::from_str`, then `Byte::get_bytes`. Believed: the result
/// is the one that the byte-unit crate defines for this text.
#[verifier::external_body]
pub(crate) fn parse_bytes(text: &str) -> (bytes: Option<u128>)
    ensures
        bytes == byte_unit_parse(text@),
{
    match byte_unit::Byte::from_str(text) {
        Ok(quantity) => Some(quantity.get_bytes()),
        Err(_) => None,
    }
}

/// The transfer that two quantities make, where both were read.
pub open spec fn transfer_of(received: Option<u128>, sent: Option<u128>) -> Option<Transfer> {
    if received is Some && sent is Some {
        Some(Transfer { received: Byte { bytes: received->0 }, sent: Byte { bytes: sent->0 } })
    } else {
        None
    }
}

impl Transfer {
    /// Puts together what was read of the two quantities of a transfer: there
    /// is a transfer where both were read.
    pub fn from_parsed(received: Option<u128>, sent: Option<u128>) -> (transfer: Option<Transfer>)
        ensures
            transfer == transfer_of(received, sent),
    {
        match (received, sent) {
            (Some(received), Some(sent)) => Some(
                Transfer { received: Byte { bytes: received }, sent: Byte { bytes: sent } },
            ),
            _ => None,
        }
    }
}

/// A day of the calendar.
#[derive(Debug, Copy, Clone, PartialEq, Eq, PartialOrd, Ord, Structural)]
pub struct Date {
    pub year: i32,
    pub month: u32,
    pub day: u32,
}

impl Date {
    /// The month is one of the twelve, and the day one of up to 31.
    pub open spec fn well_formed(self) -> bool {
        1 <= self.month <= 12 && 1 <= self.day <= 31
    }
}

/// What `chrono::NaiveDate::parse_from_str` makes of `text` under `format`:
/// year, month and day, or nothing where the text does not follow the format
/// or names no day of the calendar.
pub uninterp spec fn chrono_parse_date(text: Seq<char>, format: Seq<char>) -> Option<
    (int, int, int),
>;

/// Year, month and day of a date that may be missing.
pub open spec fn date_view(date: Option<Date>) -> Option<(int, int, int)> {
    match date {
        Some(date) => Some((date.year as int, date.month as int, date.day as int)),
        None => None,
    }
}

/// `chrono::NaiveDate::parse_from_str`, then `Datelike::year`, `month` and
/// `day`. Believed: the result is the one that chrono defines for this text
/// and this format, and, as `Datelike` documents, the month is within 1 to 12
/// and the day within 1 to 31.
#[verifier::external_body]
pub(crate) fn parse_date(text: &str, format: &str) -> (date: Option<Date>)
    ensures
        date_view(date) == chrono_parse_date(text@, format@),
        date matches Some(d) ==> d.well_formed(),
{
    match chrono::NaiveDate::parse_from_str(text, format) {
        Ok(date) => Some(Date { year: date.year(), month: date.month(), day: date.day() }),
        Err(_) => None,
    }
}

/// A version of the tool.
#[derive(Debug, Copy, Clone, PartialEq, Eq, PartialOrd, Ord, Structural)]
pub struct Version {
    pub major: u64,
    pub minor: u64,
    pub patch: u64,
}

impl View for Version {
    type V = Version;

    open spec fn view(&self) -> Version {
        *self
    }
}

impl DeepView for Version {
    type V = Version;

    open spec fn deep_view(&self) -> Version {
        *self
    }
}

impl Version {
    /// The version with these three numbers.
    pub fn new(major: u64, minor: u64, patch: u64) -> (version: Version)
        ensures
            version == (Version { major, minor, patch }),
    {
        Version { major, minor, patch }
    }
}

/// What `semver::Version::parse` makes of a text: major, minor and patch
/// number, the pre-release and the build metadata, or nothing where the text
/// is no version.
pub uninterp spec fn semver_parse(text: Seq<char>) -> Option<
    (u64, u64, u64, Seq<char>, Seq<char>),
>;

/// What the parts of a version hold, as plain values.
pub open spec fn parts_view(parts: Option<(u64, u64, u64, String, String)>) -> Option<
    (u64, u64, u64, Seq<char>, Seq<char>),
> {
    match parts {
        Some((major, minor, patch, pre, build)) => Some((major, minor, patch, pre@, build@)),
        None => None,
    }
}

/// `semver::Version::parse`, with `Prerelease::as_str` and
/// `BuildMetadata::as_str` for the last two parts. Believed: the result is the
/// one that the semver crate defines for this text.
#[verifier::external_body]
pub(crate) fn parse_version(text: &str) -> (parts: Option<(u64, u64, u64, String, String)>)
    ensures
        parts_view(parts) == semver_parse(text@),
{
    match semver::Version::parse(text) {
        Ok(v) => Some(
            (v.major, v.minor, v.patch, v.pre.as_str().to_owned(), v.build.as_str().to_owned()),
        ),
        Err(_) => None,
    }
}

/// The version that the parts make: a release of the tool carries neither a
/// pre-release nor build metadata, and parts that do are refused.
pub open spec fn version_of(parts: Option<(u64, u64, u64, Seq<char>, Seq<char>)>) -> Option<
    Version,
> {
    match parts {
        Some((major, minor, patch, pre, build)) => if pre.len() == 0 && build.len() == 0 {
            Some(Version { major, minor, patch })
        } else {
            None
        },
        None => None,
    }
}

impl Version {
    /// Puts together what was read of a version.
    pub fn from_parsed(parts: Option<(u64, u64, u64, String, String)>) -> (version: Option<Version>)
        ensures
            version == version_of(parts_view(parts)),
    {
        match parts {
            Some((major, minor, patch, pre, build)) => {
                if pre.as_str().unicode_len() == 0 && build.as_str().unicode_len() == 0 {
                    Some(Version { major, minor, patch })
                } else {
                    None
                }
            },
            None => None,
        }
    }
}

/// A span of time, in milliseconds.
#[derive(Debug, Copy, Clone, PartialEq, Eq, PartialOrd, Ord, Structural)]
pub struct Duration {
    pub milliseconds: i64,
}

impl Duration {
    /// The span of this many milliseconds.
    pub fn milliseconds(milliseconds: i64) -> (duration: Duration)
        ensures
            duration.milliseconds == milliseconds,
    {
        Duration { milliseconds }
    }

    /// The milliseconds in the span.
    pub fn num_milliseconds(&self) -> (milliseconds: i64)
        ensures
            milliseconds == self.milliseconds,
    {
        self.milliseconds
    }
}

/// The seconds in a span of years, months, days, hours, minutes and seconds,
/// with a year of 31 540 000 seconds and a month of 2 628 000.
pub open spec fn uptime_seconds(
    years: nat,
    months: nat,
    days: nat,
    hours: nat,
    minutes: nat,
    seconds: nat,
) -> nat {
    seconds + minutes * 60 + hours * 3600 + days * 86400 + months * 2_628_000 + years * 31_540_000
}

/// The span in milliseconds, held at `i64::MAX` where it is longer.
pub open spec fn uptime_millis(
    years: nat,
    months: nat,
    days: nat,
    hours: nat,
    minutes: nat,
    seconds: nat,
) -> i64 {
    let millis = 1000 * uptime_seconds(years, months, days, hours, minutes, seconds);
    if millis > i64::MAX {
        i64::MAX
    } else {
        millis as i64
    }
}

/// A number, held at `u64::MAX` where it is larger.
pub open spec fn capped(n: nat) -> nat {
    if n > u64::MAX {
        u64::MAX as nat
    } else {
        n
    }
}

/// A span is the same whether its parts are held at `u64::MAX` or not: either
/// way it is held at `i64::MAX` as soon as one part is that large.
pub proof fn lemma_uptime_capped(
    years: nat,
    months: nat,
    days: nat,
    hours: nat,
    minutes: nat,
    seconds: nat,
)
    ensures
        uptime_millis(years, months, days, hours, minutes, seconds) == uptime_millis(
            capped(years),
            capped(months),
            capped(days),
            capped(hours),
            capped(minutes),
            capped(seconds),
        ),
{
}

impl Duration {
    /// The span that years, months, days, hours, minutes and seconds add up to.
    pub fn from_parts(
        years: u64,
        months: u64,
        days: u64,
        hours: u64,
        minutes: u64,
        seconds: u64,
    ) -> (duration: Duration)
        ensures
            duration.milliseconds == uptime_millis(
                years as nat,
                months as nat,
                days as nat,
                hours as nat,
                minutes as nat,
                seconds as nat,
            ),
    {
        let total: u128 = seconds as u128 + minutes as u128 * 60 + hours as u128 * 3600 + days as u128
            * 86400 + months as u128 * 2_628_000 + years as u128 * 31_540_000;
        let millis: u128 = total * 1000;
        if millis > 0x7fff_ffff_ffff_ffff {
            Duration { milliseconds: 0x7fff_ffff_ffff_ffff }
        } else {
            Duration { milliseconds: millis as i64 }
        }
    }
}

} // verus!
