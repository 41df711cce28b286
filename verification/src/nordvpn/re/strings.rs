use crate::text::texts;
use shared::{any_of, any_of_pattern};
use vstd::prelude::*;
use vstd::string::*;

pub mod account;
pub mod connect;
pub mod login;
pub mod settings;
pub mod shared;
pub mod status;
pub mod version;

verus! {

/// A word, and what ends it: a comma with the blanks after it, blanks alone,
/// among them the end of a line, or the end of the text.
pub const WORD_LIST: &'static str = r#"(\w+)(?:,\s*|\s+|$)"#;

/// What the tool tells of the account: its lines, in any order.
pub open spec fn account_pattern() -> Seq<char> {
    any_of_pattern(
        seq![
            account::email_pattern(),
            account::ACTIVE@,
            account::EXPIRES@,
        ],
    )
}

/// What the tool tells of the account: its lines, in any order.
pub fn account() -> (pattern: String)
    ensures
        pattern@ == account_pattern(),
{
    let mut fields: Vec<String> = Vec::new();
    fields.push(account::email());
    fields.push(String::from_str(account::ACTIVE));
    fields.push(String::from_str(account::EXPIRES));
    assert(texts(fields@) =~= seq![
        account::email_pattern(),
        account::ACTIVE@,
        account::EXPIRES@,
    ]);
    any_of(&fields)
}

/// What the tool tells of its settings: its lines, in any order.
pub open spec fn settings_pattern() -> Seq<char> {
    any_of_pattern(
        seq![
            settings::technology_pattern(),
            settings::protocol_pattern(),
            settings::firewall_pattern(),
            settings::killswitch_pattern(),
            settings::cybersec_pattern(),
            settings::obfuscate_pattern(),
            settings::notify_pattern(),
            settings::autoconnect_pattern(),
            settings::ipv6_pattern(),
            settings::dns_pattern(),
        ],
    )
}

/// What the tool tells of its settings: its lines, in any order.
pub fn settings() -> (pattern: String)
    ensures
        pattern@ == settings_pattern(),
{
    let mut fields: Vec<String> = Vec::new();
    fields.push(settings::technology());
    fields.push(settings::protocol());
    fields.push(settings::firewall());
    fields.push(settings::killswitch());
    fields.push(settings::cybersec());
    fields.push(settings::obfuscate());
    fields.push(settings::notify());
    fields.push(settings::autoconnect());
    fields.push(settings::ipv6());
    fields.push(settings::dns());
    assert(texts(fields@) =~= seq![
        settings::technology_pattern(),
        settings::protocol_pattern(),
        settings::firewall_pattern(),
        settings::killswitch_pattern(),
        settings::cybersec_pattern(),
        settings::obfuscate_pattern(),
        settings::notify_pattern(),
        settings::autoconnect_pattern(),
        settings::ipv6_pattern(),
        settings::dns_pattern(),
    ]);
    any_of(&fields)
}

/// What the tool tells of the connection: its lines, in any order.
pub open spec fn status_pattern() -> Seq<char> {
    any_of_pattern(
        seq![
            status::hostname_pattern(),
            status::country_pattern(),
            status::city_pattern(),
            status::ip_pattern(),
            status::technology_pattern(),
            status::protocol_pattern(),
            status::transfer_pattern(),
            status::uptime_pattern(),
        ],
    )
}

/// What the tool tells of the connection: its lines, in any order.
pub fn status() -> (pattern: String)
    ensures
        pattern@ == status_pattern(),
{
    let mut fields: Vec<String> = Vec::new();
    fields.push(status::hostname());
    fields.push(status::country());
    fields.push(status::city());
    fields.push(status::ip());
    fields.push(status::technology());
    fields.push(status::protocol());
    fields.push(status::transfer());
    fields.push(status::uptime());
    assert(texts(fields@) =~= seq![
        status::hostname_pattern(),
        status::country_pattern(),
        status::city_pattern(),
        status::ip_pattern(),
        status::technology_pattern(),
        status::protocol_pattern(),
        status::transfer_pattern(),
        status::uptime_pattern(),
    ]);
    any_of(&fields)
}

} // verus!
