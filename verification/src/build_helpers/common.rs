use vstd::prelude::*;

verus! {

/// What to copy: pairs of a glob for the files and the directory, below the
/// destination, that takes them.
pub type GlobCopySet = Vec<(String, String)>;

} // verus!
