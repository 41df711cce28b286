use super::fdependencies::ForeignDependency;
use super::gresources::{
    files_view, File, FileView, GResource, GResourceView, GResources, Preprocess,
};
use crate::text::{
    chars_of, lemma_text_lt_irreflexive, lemma_text_lt_transitive, less, text_lt,
};
use vstd::prelude::*;
use vstd::string::*;

verus! {

/// The names are in the order of `str`, and none occurs twice: the order in
/// which a map from names walks its entries.
pub open spec fn in_order(names: Seq<Seq<char>>) -> bool {
    forall|i: int| 0 <= i < names.len() - 1 ==> text_lt(#[trigger] names[i], names[i + 1])
}

/// Names in order are in order two by two, however far apart, and so no name
/// occurs twice among them.
pub proof fn lemma_in_order_distinct(names: Seq<Seq<char>>, i: int, j: int)
    requires
        in_order(names),
        0 <= i < j < names.len(),
    ensures
        text_lt(names[i], names[j]),
        names[i] != names[j],
    decreases j - i,
{
    if i + 1 < j {
        lemma_in_order_distinct(names, i, j - 1);
        assert(text_lt(names[j - 1], names[j - 1 + 1]));
        lemma_text_lt_transitive(names[i], names[j - 1], names[j]);
    } else {
        assert(text_lt(names[i], names[i + 1]));
    }
    lemma_text_lt_irreflexive(names[i]);
}

/// The names of a run of named things.
pub open spec fn names_of<T>(entries: Seq<(String, T)>) -> Seq<Seq<char>> {
    Seq::new(entries.len(), |i: int| entries[i].0@)
}

/// What a run of named things holds under the names.
pub open spec fn values_of<T>(entries: Seq<(String, T)>) -> Seq<T> {
    Seq::new(entries.len(), |i: int| entries[i].1)
}

/// The dependencies of the build, each under its name, in the order of the
/// names.
#[derive(Debug, PartialEq, Eq)]
pub struct ForeignDependenciesDetail {
    entries: Vec<(String, ForeignDependency)>,
}

impl ForeignDependenciesDetail {
    /// The names of the dependencies.
    pub closed spec fn names(self) -> Seq<Seq<char>> {
        names_of(self.entries@)
    }

    /// The dependencies.
    pub closed spec fn dependencies(self) -> Seq<ForeignDependency> {
        values_of(self.entries@)
    }

    #[verifier::type_invariant]
    spec fn well_formed(self) -> bool {
        in_order(self.names())
    }

    /// The dependencies under their names, where the names come in their
    /// order and none comes twice; `None` else.
    pub fn from_entries(entries: Vec<(String, ForeignDependency)>) -> (detail: Option<
        ForeignDependenciesDetail,
    >)
        ensures
            detail is Some <==> in_order(names_of(entries@)),
            detail matches Some(d) ==> d.names() == names_of(entries@)
                && d.dependencies() == values_of(entries@),
    {
        let ghost names = names_of(entries@);
        let mut i: usize = 1;
        while i < entries.len()
            invariant
                1 <= i,
                names == names_of(entries@),
                forall|k: int| 0 <= k < i - 1 ==> text_lt(#[trigger] names[k], names[k + 1]),
            decreases entries.len() - i,
        {
            if !less(entries[i - 1].0.as_str(), entries[i].0.as_str()) {
                assert(!text_lt(names[i - 1], names[i - 1 + 1]));
                return None;
            }
            i += 1;
        }
        assert(in_order(names));
        Some(ForeignDependenciesDetail { entries })
    }

    /// The dependencies under their names, in the order of the names.
    pub fn entries(&self) -> (entries: &Vec<(String, ForeignDependency)>)
        ensures
            self.names() == names_of(entries@),
            self.dependencies() == values_of(entries@),
            in_order(self.names()),
    {
        proof {
            use_type_invariant(self);
        }
        &self.entries
    }

    /// What was seen of the repository of the dependency at `index`: whether
    /// it had to be cloned, and whether its head is at the commit; where the
    /// list ends before, that it was there and at the commit.
    pub open spec fn seen_at(seen: Seq<(bool, bool)>, index: int) -> (bool, bool) {
        if 0 <= index < seen.len() {
            seen[index]
        } else {
            (false, true)
        }
    }

    /// Says of each dependency, in the order of the names, whether its files
    /// are to be copied again, where `seen[i]` holds what was seen of the
    /// repository of the dependency at `i`.
    pub fn update_all(&self, seen: &Vec<(bool, bool)>) -> (updated: Vec<bool>)
        ensures
            updated.len() == self.names().len(),
            forall|i: int|
                0 <= i < updated.len() ==> #[trigger] updated[i] == (Self::seen_at(seen@, i).0
                    || !Self::seen_at(seen@, i).1),
    {
        let mut updated: Vec<bool> = Vec::new();
        let mut i: usize = 0;
        while i < self.entries.len()
            invariant
                i <= self.entries.len(),
                updated.len() == i,
                forall|k: int|
                    0 <= k < i ==> #[trigger] updated[k] == (Self::seen_at(seen@, k).0
                        || !Self::seen_at(seen@, k).1),
            decreases self.entries.len() - i,
        {
            let (cloned, at_commit) = if i < seen.len() {
                seen[i]
            } else {
                (false, true)
            };
            updated.push(self.entries[i].1.update(cloned, at_commit));
            i += 1;
        }
        updated
    }
}

/// Files of a bundle that a glob names: what holds of each of them.
#[derive(Debug, Clone, PartialEq, Eq)]
pub struct GResourceFilesDetail {
    pub glob: String,
    pub alias: Option<String>,
    pub compressed: Option<bool>,
    pub preprocess: Option<Preprocess>,
}

/// An entry of a bundle: its prefix, and the files by their globs.
#[derive(Debug, Clone, PartialEq, Eq)]
pub struct GResourceDetail {
    pub prefix: String,
    pub files: Vec<GResourceFilesDetail>,
}

/// The entries of a bundle, each under its name, in the order of the names.
#[derive(Debug, PartialEq, Eq)]
pub struct GResourcesDetail {
    entries: Vec<(String, GResourceDetail)>,
}

/// A file that a glob found: its path, and the last part of the path, which is
/// its name.
#[derive(Debug, Clone, PartialEq, Eq)]
pub struct Found {
    pub path: String,
    pub file_name: String,
}

/// The place in an alias that stands for the name of the file.
pub const PLACEHOLDER: &'static str = "{}";

/// `template` with `name` in place of each placeholder, the placeholders
/// taken from the left.
pub open spec fn filled(template: Seq<char>, name: Seq<char>) -> Seq<char>
    decreases template.len(),
{
    if template.len() < 2 {
        template
    } else if template[0] == '{' && template[1] == '}' {
        name + filled(template.skip(2), name)
    } else {
        seq![template[0]] + filled(template.skip(1), name)
    }
}

/// Puts `name` in place of each placeholder of `template`.
pub fn fill(template: &str, name: &str) -> (text: String)
    ensures
        text@ == filled(template@, name@),
{
    let chars = chars_of(template);
    let mut text = String::new();
    let mut i: usize = 0;
    assert(chars@.skip(0) == chars@);
    while i < chars.len()
        invariant
            i <= chars.len(),
            chars@ == template@,
            text@ + filled(chars@.skip(i as int), name@) == filled(chars@, name@),
        decreases chars.len() - i,
    {
        let ghost rest = chars@.skip(i as int);
        let ghost before = text@;
        if chars.len() - i >= 2 && chars[i] == '{' && chars[i + 1] == '}' {
            text.append(name);
            assert(rest.skip(2) == chars@.skip(i + 2));
            assert(text@ + filled(chars@.skip(i + 2), name@) =~= before + filled(rest, name@));
            i += 2;
        } else {
            text.push(chars[i]);
            assert(rest.skip(1) == chars@.skip(i + 1));
            proof {
                if rest.len() < 2 {
                    assert(chars@.skip(i + 1).len() == 0);
                }
                assert(text@ + filled(chars@.skip(i + 1), name@) =~= before + filled(rest, name@));
            }
            i += 1;
        }
    }
    assert(filled(chars@.skip(chars.len() as int), name@) =~= Seq::<char>::empty());
    assert(text@ + Seq::<char>::empty() =~= text@);
    text
}

impl GResourceFilesDetail {
    /// The file of the bundle that a file found by the glob becomes: its path
    /// as it was found, the alias with the name of the file filled in, and the
    /// rest as it holds of all files of the glob.
    pub open spec fn file_of(self, found: Found) -> FileView {
        FileView {
            path: found.path@,
            alias: match self.alias {
                Some(alias) => Some(filled(alias@, found.file_name@)),
                None => None,
            },
            compressed: self.compressed,
            preprocess: self.preprocess,
        }
    }

    /// The files of the bundle that the files found by the glob become, in
    /// the order in which they were found.
    pub open spec fn expanded(self, found: Seq<Found>) -> Seq<FileView> {
        Seq::new(found.len(), |i: int| self.file_of(found[i]))
    }

    /// Makes the files of the bundle out of what the glob found.
    pub fn expand(&self, found: &Vec<Found>) -> (files: Vec<File>)
        ensures
            files_view(files@) == self.expanded(found@),
    {
        let mut files: Vec<File> = Vec::new();
        let mut i: usize = 0;
        while i < found.len()
            invariant
                i <= found.len(),
                files.len() == i,
                forall|k: int| 0 <= k < i ==> (#[trigger] files@[k])@ == self.file_of(found@[k]),
            decreases found.len() - i,
        {
            let alias = match &self.alias {
                Some(alias) => Some(fill(alias.as_str(), found[i].file_name.as_str())),
                None => None,
            };
            files.push(File::new(found[i].path.clone(), alias, self.compressed, self.preprocess));
            i += 1;
        }
        assert(files_view(files@) =~= self.expanded(found@));
        files
    }
}

/// What was found for the glob at `index`; nothing where the list ends before.
pub open spec fn found_at(found: Seq<Vec<Found>>, index: int) -> Seq<Found> {
    if 0 <= index < found.len() {
        found[index]@
    } else {
        Seq::empty()
    }
}

impl GResourceDetail {
    /// The files of the first `count` globs, one glob after the other.
    pub open spec fn files_upto(self, found: Seq<Vec<Found>>, count: int) -> Seq<FileView>
        decreases count,
    {
        if count <= 0 {
            Seq::empty()
        } else {
            self.files_upto(found, count - 1) + self.files@[count - 1].expanded(
                found_at(found, count - 1),
            )
        }
    }

    /// The entry of the bundle: the prefix, and the files of all the globs.
    pub open spec fn resource(self, found: Seq<Vec<Found>>) -> GResourceView {
        GResourceView {
            prefix: self.prefix@,
            files: self.files_upto(found, self.files@.len() as int),
        }
    }

    /// Makes the entry of the bundle, where `found[i]` holds what the glob at
    /// `i` found.
    pub fn to_gresource(&self, found: &Vec<Vec<Found>>) -> (resource: GResource)
        ensures
            resource@ == self.resource(found@),
    {
        let mut files: Vec<File> = Vec::new();
        let none: Vec<Found> = Vec::new();
        let mut i: usize = 0;
        assert(files_view(files@) =~= self.files_upto(found@, 0));
        while i < self.files.len()
            invariant
                i <= self.files.len(),
                none@.len() == 0,
                files_view(files@) == self.files_upto(found@, i as int),
            decreases self.files.len() - i,
        {
            let matches = if i < found.len() {
                &found[i]
            } else {
                &none
            };
            assert(matches@ =~= found_at(found@, i as int));
            let mut expanded = self.files[i].expand(matches);
            let ghost before = files_view(files@);
            let ghost added = files_view(expanded@);
            files.append(&mut expanded);
            assert(files_view(files@) =~= before + added);
            i += 1;
        }
        GResource::from_iter(self.prefix.clone(), files)
    }
}

/// What was found for the entry at `index`; nothing where the list ends before.
pub open spec fn found_for(found: Seq<Vec<Vec<Found>>>, index: int) -> Seq<Vec<Found>> {
    if 0 <= index < found.len() {
        found[index]@
    } else {
        Seq::empty()
    }
}

impl GResourcesDetail {
    /// The names of the entries.
    pub closed spec fn names(self) -> Seq<Seq<char>> {
        names_of(self.entries@)
    }

    /// The details of the entries.
    pub closed spec fn details(self) -> Seq<GResourceDetail> {
        values_of(self.entries@)
    }

    #[verifier::type_invariant]
    spec fn well_formed(self) -> bool {
        in_order(self.names())
    }

    /// The entries under their names, where the names come in their order and
    /// none comes twice; `None` else.
    pub fn from_entries(entries: Vec<(String, GResourceDetail)>) -> (detail: Option<
        GResourcesDetail,
    >)
        ensures
            detail is Some <==> in_order(names_of(entries@)),
            detail matches Some(d) ==> d.names() == names_of(entries@)
                && d.details() == values_of(entries@),
    {
        let ghost names = names_of(entries@);
        let mut i: usize = 1;
        while i < entries.len()
            invariant
                1 <= i,
                names == names_of(entries@),
                forall|k: int| 0 <= k < i - 1 ==> text_lt(#[trigger] names[k], names[k + 1]),
            decreases entries.len() - i,
        {
            if !less(entries[i - 1].0.as_str(), entries[i].0.as_str()) {
                assert(!text_lt(names[i - 1], names[i - 1 + 1]));
                return None;
            }
            i += 1;
        }
        assert(in_order(names));
        Some(GResourcesDetail { entries })
    }

    /// The entries under their names, in the order of the names.
    pub fn entries(&self) -> (entries: &Vec<(String, GResourceDetail)>)
        ensures
            self.names() == names_of(entries@),
            self.details() == values_of(entries@),
            in_order(self.names()),
    {
        proof {
            use_type_invariant(self);
        }
        &self.entries
    }

    /// The description of the bundle: an entry for each detail, in the order
    /// of the names.
    pub open spec fn resources(self, found: Seq<Vec<Vec<Found>>>) -> Seq<GResourceView> {
        Seq::new(
            self.details().len(),
            |i: int| self.details()[i].resource(found_for(found, i)),
        )
    }

    /// Makes the description of the bundle, where `found[i][j]` holds what
    /// the glob at `j` of the entry at `i` found.
    pub fn to_gresources(&self, found: &Vec<Vec<Vec<Found>>>) -> (resources: GResources)
        ensures
            resources@ == self.resources(found@),
    {
        let mut entries: Vec<GResource> = Vec::new();
        let none: Vec<Vec<Found>> = Vec::new();
        let mut i: usize = 0;
        while i < self.entries.len()
            invariant
                i <= self.entries.len(),
                none@.len() == 0,
                entries.len() == i,
                forall|k: int| 0 <= k < i ==> (#[trigger] entries@[k])@ == self.entries@[k].1.resource(
                    found_for(found@, k),
                ),
            decreases self.entries.len() - i,
        {
            let matches = if i < found.len() {
                &found[i]
            } else {
                &none
            };
            assert(matches@ =~= found_for(found@, i as int));
            entries.push(self.entries[i].1.to_gresource(matches));
            i += 1;
        }
        let resources = GResources::from_iter(entries);
        assert(resources@ =~= self.resources(found@));
        resources
    }
}

} // verus!
