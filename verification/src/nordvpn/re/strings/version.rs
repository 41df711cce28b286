use super::shared::{ended, ended_pattern};
use vstd::prelude::*;

verus! {

/// A version: three numbers with dots between them, without its end.
pub const VERSION_LINE: &'static str = r#"(?P<version>\d+\.\d+.\d+)"#;

/// A version: three numbers with dots between them.
pub open spec fn version_pattern() -> Seq<char> {
    ended_pattern(VERSION_LINE@)
}

/// A version: three numbers with dots between them.
pub fn version() -> (pattern: String)
    ensures
        pattern@ == version_pattern(),
{
    ended(VERSION_LINE)
}

} // verus!
