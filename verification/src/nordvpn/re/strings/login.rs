use super::shared::{ended, ended_pattern};
use vstd::prelude::*;

verus! {

/// The line that gives the address at which to log in, without its end.
pub const URL_LINE: &'static str = r#"Continue in the browser:\s+(?P<url>.+)"#;

/// The line that gives the address at which to log in.
pub open spec fn url_pattern() -> Seq<char> {
    ended_pattern(URL_LINE@)
}

/// The line that gives the address at which to log in.
pub fn url() -> (pattern: String)
    ensures
        pattern@ == url_pattern(),
{
    ended(URL_LINE)
}

} // verus!
