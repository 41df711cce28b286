use super::common::GlobCopySet;
use vstd::prelude::*;

verus! {

/// A repository that the build takes files from.
#[derive(Debug, Clone, PartialEq, Eq)]
pub struct ForeignDependency {
    pub git: String,
    pub commit: String,
    pub copy: GlobCopySet,
}

/// What `slug::slugify` makes of a text: lower-case letters, digits and single
/// hyphens that stand for it.
pub uninterp spec fn slug_of(text: Seq<char>) -> Seq<char>;

/// `slug::slugify`. Believed: the result is the one that the slug crate
/// defines for this text.
#[verifier::external_body]
pub(crate) fn slugify(text: &str) -> (slug: String)
    ensures
        slug@ == slug_of(text@),
{
    slug::slugify(text)
}

impl ForeignDependency {
    /// The name of the directory, below the output directory, that holds the
    /// clone of the repository: the slug of its address.
    pub fn clone_path(&self) -> (name: String)
        ensures
            name@ == slug_of(self.git@),
    {
        slugify(self.git.as_str())
    }

    /// Whether the files of the dependency are to be copied again, once the
    /// repository was looked at: they are where it had to be cloned, and where
    /// its head had to be moved because it was not at the commit.
    pub fn update(&self, cloned: bool, at_commit: bool) -> (updated: bool)
        ensures
            updated == (cloned || !at_commit),
    {
        cloned || !at_commit
    }
}

} // verus!
