use crate::text::texts;
use regex::Regex;
use vstd::prelude::*;

pub mod strings;

verus! {

/// Why a reply of the tool could not be read: one variant for each reply that
/// has a pattern of its own, and one for each of its groups that a result
/// cannot do without.
#[derive(Debug, Clone, Copy, PartialEq, Eq, Structural)]
pub enum RegexError {
    Account,
    AccountEmail,
    AccountActive,
    AccountExpires,
    Cities,
    Connect,
    Countries,
    Groups,
    Login,
    Status,
    StatusHostname,
    StatusCountry,
    StatusCity,
    StatusIp,
    StatusTechnology,
    StatusProtocol,
    StatusTransfer,
    Version,
}

/// The view of a text that may be missing.
pub open spec fn text_view(text: Option<String>) -> Option<Seq<char>> {
    match text {
        Some(t) => Some(t@),
        None => None,
    }
}

/// A named group of a pattern, with the text that it took in a match, if it
/// took part in the match.
#[derive(Debug, Clone, PartialEq, Eq)]
pub struct Group {
    pub name: String,
    pub text: Option<String>,
}

/// The named groups of one match, in the order in which the pattern opens them.
#[derive(Debug, Clone, PartialEq, Eq)]
pub struct Captures {
    pub groups: Vec<Group>,
}

/// The text of the first group called `name` among `groups`, if there is such a
/// group and it took part.
pub open spec fn group_text(groups: Seq<Group>, name: Seq<char>) -> Option<Seq<char>>
    decreases groups.len(),
{
    if groups.len() == 0 {
        None
    } else if groups[0].name@ == name {
        text_view(groups[0].text)
    } else {
        group_text(groups.drop_first(), name)
    }
}

impl View for Captures {
    type V = Map<Seq<char>, Seq<char>>;

    /// The groups that took part, by name, each with its text.
    open spec fn view(&self) -> Map<Seq<char>, Seq<char>> {
        Map::new(
            |name: Seq<char>| group_text(self.groups@, name) is Some,
            |name: Seq<char>| group_text(self.groups@, name)->0,
        )
    }
}

/// The text that `groups` gives for `name`, if any.
pub open spec fn get(groups: Map<Seq<char>, Seq<char>>, name: Seq<char>) -> Option<Seq<char>> {
    if groups.contains_key(name) {
        Some(groups[name])
    } else {
        None
    }
}

proof fn lemma_group_text_skip(groups: Seq<Group>, from: int, name: Seq<char>)
    requires
        0 <= from <= groups.len(),
        forall|k: int| 0 <= k < from ==> groups[k].name@ != name,
    ensures
        group_text(groups, name) == group_text(groups.skip(from), name),
    decreases from,
{
    if from == 0 {
        assert(groups.skip(0) == groups);
    } else {
        lemma_group_text_skip(groups.drop_first(), from - 1, name);
        assert(groups.drop_first().skip(from - 1) == groups.skip(from));
    }
}

impl Captures {
    /// The text that the group called `name` took, if there is such a group and
    /// it took part in the match.
    pub fn name(&self, name: &str) -> (found: Option<String>)
        ensures
            text_view(found) == get(self@, name@),
    {
        let mut i: usize = 0;
        while i < self.groups.len()
            invariant
                i <= self.groups.len(),
                forall|k: int| 0 <= k < i ==> self.groups@[k].name@ != name@,
            decreases self.groups.len() - i,
        {
            if crate::text::same_text(self.groups[i].name.as_str(), name) {
                proof {
                    lemma_group_text_skip(self.groups@, i as int, name@);
                    assert(self.groups@.skip(i as int)[0] == self.groups@[i as int]);
                }
                return self.groups[i].text.clone();
            }
            i += 1;
        }
        proof {
            lemma_group_text_skip(self.groups@, self.groups.len() as int, name@);
        }
        None
    }
}

/// What `Regex::captures` finds: the named groups that took part in the
/// leftmost match of `pattern` in `haystack`, each with the text it took;
/// nothing where `pattern` does not compile or does not match.
pub uninterp spec fn regex_captures(pattern: Seq<char>, haystack: Seq<char>) -> Option<
    Map<Seq<char>, Seq<char>>,
>;

/// What `Regex::captures_iter` finds: the successive matches of `pattern` in
/// `haystack`, which do not overlap, each as the texts of its groups by index,
/// the whole match at index 0. Empty where `pattern` does not compile.
pub uninterp spec fn regex_captures_iter(pattern: Seq<char>, haystack: Seq<char>) -> Seq<
    Seq<Option<Seq<char>>>,
>;

/// What `Regex::is_match` answers: whether `pattern` compiles and matches
/// somewhere in `haystack`.
pub uninterp spec fn regex_is_match(pattern: Seq<char>, haystack: Seq<char>) -> bool;

/// The view of what a search for the first match hands back.
pub open spec fn captures_view(found: Option<Captures>) -> Option<Map<Seq<char>, Seq<char>>> {
    match found {
        Some(captures) => Some(captures@),
        None => None,
    }
}

/// The view of what a search for every match hands back.
pub open spec fn matches_view(found: Seq<Vec<Option<String>>>) -> Seq<Seq<Option<Seq<char>>>> {
    found.map_values(|groups: Vec<Option<String>>| groups@.map_values(|text: Option<String>| text_view(text)))
}

/// Compiles `pattern` with `regex::Regex::new` and searches `haystack` with
/// `Regex::captures`. The groups come from `Regex::capture_names`, and the text
/// of each from `Captures::name`. Believed: the result is the one that the
/// regex crate defines for this pattern and this haystack.
#[verifier::external_body]
pub(crate) fn captures(pattern: &str, haystack: &str) -> (found: Option<Captures>)
    ensures
        captures_view(found) == regex_captures(pattern@, haystack@),
{
    let re = Regex::new(pattern).ok()?;
    let caps = re.captures(haystack)?;
    let groups = re.capture_names().flatten().map(
        |name| Group { name: name.to_owned(), text: caps.name(name).map(|m| m.as_str().to_owned()) },
    ).collect();
    Some(Captures { groups })
}

/// Compiles `pattern` with `regex::Regex::new` and walks `haystack` with
/// `Regex::captures_iter`. Believed: the result is the sequence of matches that
/// the regex crate defines, each with the texts of its groups by index.
#[verifier::external_body]
pub(crate) fn captures_iter(pattern: &str, haystack: &str) -> (found: Vec<Vec<Option<String>>>)
    ensures
        matches_view(found@) == regex_captures_iter(pattern@, haystack@),
{
    match Regex::new(pattern) {
        Ok(re) => re.captures_iter(haystack).map(
            |caps| caps.iter().map(|group| group.map(|m| m.as_str().to_owned())).collect(),
        ).collect(),
        Err(_) => Vec::new(),
    }
}

/// Compiles `pattern` with `regex::Regex::new` and asks `Regex::is_match`.
/// Believed: the answer is the one that the regex crate defines.
#[verifier::external_body]
pub(crate) fn is_match(pattern: &str, haystack: &str) -> (found: bool)
    ensures
        found == regex_is_match(pattern@, haystack@),
{
    match Regex::new(pattern) {
        Ok(re) => re.is_match(haystack),
        Err(_) => false,
    }
}

/// Every match has a first group that took part.
pub open spec fn all_have_word(matches: Seq<Seq<Option<Seq<char>>>>) -> bool {
    forall|i: int| 0 <= i < matches.len() ==> has_word(#[trigger] matches[i])
}

/// The match has a first group that took part.
pub open spec fn has_word(groups: Seq<Option<Seq<char>>>) -> bool {
    groups.len() > 1 && groups[1] is Some
}

/// The list that a run of word matches stands for: the text of the first group
/// of each match, in order. There is no list where nothing matched, or where a
/// match has no first group.
pub open spec fn word_list(matches: Seq<Seq<Option<Seq<char>>>>) -> Option<Seq<Seq<char>>> {
    if matches.len() > 0 && all_have_word(matches) {
        Some(Seq::new(matches.len(), |i: int| matches[i][1]->0))
    } else {
        None
    }
}

/// The view of a list of texts that may be missing.
pub open spec fn list_view(list: Option<Vec<String>>) -> Option<Seq<Seq<char>>> {
    match list {
        Some(items) => Some(texts(items@)),
        None => None,
    }
}

/// The words of a run of word matches: the first group of each.
pub fn list_from_matches(matches: &Vec<Vec<Option<String>>>) -> (list: Option<Vec<String>>)
    ensures
        list_view(list) == word_list(matches_view(matches@)),
{
    let ghost found = matches_view(matches@);
    if matches.len() == 0 {
        return None;
    }
    let mut items: Vec<String> = Vec::new();
    let mut i: usize = 0;
    while i < matches.len()
        invariant
            i <= matches.len(),
            found == matches_view(matches@),
            items.len() == i,
            forall|k: int| 0 <= k < i ==> has_word(#[trigger] found[k]),
            forall|k: int| 0 <= k < i ==> (#[trigger] items@[k])@ == found[k][1]->0,
        decreases matches.len() - i,
    {
        let groups = &matches[i];
        if groups.len() < 2 {
            assert(!has_word(found[i as int]));
            return None;
        }
        match &groups[1] {
            Some(word) => {
                items.push(word.clone());
            },
            None => {
                assert(!has_word(found[i as int]));
                return None;
            },
        }
        i += 1;
    }
    assert(list_view(Some(items))->0 =~= word_list(found)->0);
    Some(items)
}

/// Reads a list of words that commas or blanks part, over one line or over
/// several. `None` where `text` holds no word at all: that is told apart from
/// a list, which is never empty.
pub fn parse_list(text: &str) -> (list: Option<Vec<String>>)
    ensures
        list_view(list) == word_list(regex_captures_iter(strings::WORD_LIST@, text@)),
{
    let matches = captures_iter(strings::WORD_LIST, text);
    list_from_matches(&matches)
}

} // verus!
