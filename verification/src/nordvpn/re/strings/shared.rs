use crate::text::{join, joined, texts};
use vstd::prelude::*;
use vstd::string::*;

verus! {

/// Blanks, then the end of the line or of the text.
pub const LINE_END_OR_NEWLINE: &'static str = r#"\s*(?:\n|$)"#;

/// An address in colon or in dotted form, in either case.
pub const IPV4_OR_IPV6: &'static str =
    r#"(?i)(?:[\da-f]{0,4}:){1,7}[\da-f]{0,4}|(?:\d{1,3}\.){3}\d{1,3}"#;

/// The name of a technology, in either case.
pub const OPENVPN_OR_NORDLYNX: &'static str = r#"(?i)OPENVPN|NORDLYNX"#;

/// The name of a protocol, in either case.
pub const TCP_OR_UDP: &'static str = r#"(?i)TCP|UDP"#;

/// The state of a switch, in either case.
pub const ENABLED_OR_DISABLED: &'static str = r#"(?i)enabled|disabled"#;

/// A group called `name` that takes what `body` matches.
pub open spec fn named_pattern(name: Seq<char>, body: Seq<char>) -> Seq<char> {
    "(?P<"@ + name + ">"@ + body + ")"@
}

/// A group called `name` that takes what `body` matches. Every pattern that
/// reads an address, a technology, a protocol or a switch is made here, from
/// one of the bodies above, so that all of them match alike.
pub fn named(name: &str, body: &str) -> (pattern: String)
    ensures
        pattern@ == named_pattern(name@, body@),
{
    let mut pattern = String::from_str("(?P<");
    pattern.append(name);
    pattern.append(">");
    pattern.append(body);
    pattern.append(")");
    pattern
}

/// `content`, up to the end of its line.
pub open spec fn ended_pattern(content: Seq<char>) -> Seq<char> {
    content + LINE_END_OR_NEWLINE@
}

/// `content`, up to the end of its line.
pub fn ended(content: &str) -> (pattern: String)
    ensures
        pattern@ == ended_pattern(content@),
{
    let mut pattern = String::from_str(content);
    pattern.append(LINE_END_OR_NEWLINE);
    pattern
}

/// A line that holds `label` and then a group called `name` for what `body`
/// matches.
pub open spec fn labelled_pattern(label: Seq<char>, name: Seq<char>, body: Seq<char>) -> Seq<char> {
    ended_pattern(label + named_pattern(name, body))
}

/// A line that holds `label` and then a group called `name` for what `body`
/// matches.
pub fn labelled(label: &str, name: &str, body: &str) -> (pattern: String)
    ensures
        pattern@ == labelled_pattern(label@, name@, body@),
{
    let mut content = String::from_str(label);
    content.append(named(name, body).as_str());
    ended(content.as_str())
}

/// One or more of the alternatives in a row, in any order.
pub open spec fn any_of_pattern(alternatives: Seq<Seq<char>>) -> Seq<char> {
    "(?:"@ + joined(alternatives, "|"@) + ")+"@
}

/// One or more of the alternatives in a row, in any order.
pub fn any_of(alternatives: &Vec<String>) -> (pattern: String)
    ensures
        pattern@ == any_of_pattern(texts(alternatives@)),
{
    let mut pattern = String::from_str("(?:");
    pattern.append(join(alternatives, "|").as_str());
    pattern.append(")+");
    pattern
}

} // verus!
