use vstd::prelude::*;

verus! {

/// The sentence that tells of a new connection: the country, the number of the
/// server and the name of its host.
pub const COUNTRY_SERVER_HOSTNAME: &'static str =
    r#"You are connected to\s+(?P<country>(?i)[a-z_ ]+)\s+#(?P<server>\d+)\s+\((?P<hostname>[\w\d\-\.]+)\)!"#;

} // verus!
