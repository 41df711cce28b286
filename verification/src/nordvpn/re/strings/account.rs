use super::shared::{ended, ended_pattern};
use vstd::prelude::*;

verus! {

/// The line that gives the address of the account, without its end.
pub const EMAIL_LINE: &'static str = r#"Email Address:\s+(?P<email>.+)"#;

/// The line that gives the address of the account.
pub open spec fn email_pattern() -> Seq<char> {
    ended_pattern(EMAIL_LINE@)
}

/// The line that gives the address of the account.
pub fn email() -> (pattern: String)
    ensures
        pattern@ == email_pattern(),
{
    ended(EMAIL_LINE)
}

/// The words that say whether the service is active.
pub const ACTIVE: &'static str = r#"VPN Service:\s+(?P<active>(?i)[a-z]+)\s*"#;

/// The day on which the service ends: a month by its first three letters, a
/// day with its ordinal ending, and a year of four digits.
pub const EXPIRES: &'static str =
    r#"\(Expires on\s+(?P<expires_month>(?i)[a-z]{3})\s+(?P<expires_day>\d+)(?i:st|nd|rd|th),\s+(?P<expires_year>\d{4})\)"#;

} // verus!
