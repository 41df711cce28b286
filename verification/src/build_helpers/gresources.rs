use crate::text::same_text;
use vstd::prelude::*;
use vstd::string::*;

verus! {

/// What is done to a file before it is bundled.
#[derive(Debug, Clone, Copy, PartialEq, Eq, Structural)]
pub enum Preprocess {
    XmlStripBlanks,
    ToPixData,
}

/// The word that the bundle description has for a treatment.
pub open spec fn preprocess_text(preprocess: Preprocess) -> Seq<char> {
    match preprocess {
        Preprocess::XmlStripBlanks => "xml-stripblanks"@,
        Preprocess::ToPixData => "to-pixdata"@,
    }
}

/// The treatment that a word names, letter for letter.
pub open spec fn preprocess_of(text: Seq<char>) -> Option<Preprocess> {
    if text == "xml-stripblanks"@ {
        Some(Preprocess::XmlStripBlanks)
    } else if text == "to-pixdata"@ {
        Some(Preprocess::ToPixData)
    } else {
        None
    }
}

impl Preprocess {
    /// The word for the treatment.
    pub fn as_str(&self) -> (text: &'static str)
        ensures
            text@ == preprocess_text(*self),
    {
        match self {
            Preprocess::XmlStripBlanks => "xml-stripblanks",
            Preprocess::ToPixData => "to-pixdata",
        }
    }

    /// The word for the treatment.
    pub fn to_string(&self) -> (text: String)
        ensures
            text@ == preprocess_text(*self),
    {
        String::from_str(self.as_str())
    }

    /// Reads the word for a treatment.
    pub fn from_str(text: &str) -> (preprocess: Option<Preprocess>)
        ensures
            preprocess == preprocess_of(text@),
    {
        if same_text(text, "xml-stripblanks") {
            Some(Preprocess::XmlStripBlanks)
        } else if same_text(text, "to-pixdata") {
            Some(Preprocess::ToPixData)
        } else {
            None
        }
    }
}

/// A treatment is read back from its own word.
pub proof fn lemma_preprocess_round_trip(preprocess: Preprocess)
    ensures
        preprocess_of(preprocess_text(preprocess)) == Some(preprocess),
{
    reveal_strlit("xml-stripblanks");
    reveal_strlit("to-pixdata");
    assert("xml-stripblanks"@.len() == 15);
    assert("to-pixdata"@.len() == 10);
}

/// A file of a bundle.
#[derive(Debug, Default, Clone, PartialEq, Eq)]
pub struct File {
    pub path: String,
    pub alias: Option<String>,
    pub compressed: Option<bool>,
    pub preprocess: Option<Preprocess>,
}

/// What a [`File`] holds, as texts and plain values.
pub struct FileView {
    pub path: Seq<char>,
    pub alias: Option<Seq<char>>,
    pub compressed: Option<bool>,
    pub preprocess: Option<Preprocess>,
}

/// The view of a text that may be missing.
pub open spec fn text_view(text: Option<String>) -> Option<Seq<char>> {
    match text {
        Some(text) => Some(text@),
        None => None,
    }
}

impl View for File {
    type V = FileView;

    open spec fn view(&self) -> FileView {
        FileView {
            path: self.path@,
            alias: text_view(self.alias),
            compressed: self.compressed,
            preprocess: self.preprocess,
        }
    }
}

/// The views of a run of files.
pub open spec fn files_view(files: Seq<File>) -> Seq<FileView> {
    Seq::new(files.len(), |i: int| files[i]@)
}

/// The files that go into a bundle under one prefix.
#[derive(Debug, Clone, PartialEq, Eq)]
pub struct GResource {
    pub prefix: String,
    pub files: Vec<File>,
}

/// What a [`GResource`] holds, as texts and plain values.
pub struct GResourceView {
    pub prefix: Seq<char>,
    pub files: Seq<FileView>,
}

impl View for GResource {
    type V = GResourceView;

    open spec fn view(&self) -> GResourceView {
        GResourceView { prefix: self.prefix@, files: files_view(self.files@) }
    }
}

/// The description of a bundle: its entries, one for each prefix.
#[derive(Debug, Default, Clone, PartialEq, Eq)]
pub struct GResources {
    pub entries: Vec<GResource>,
}

impl View for GResources {
    type V = Seq<GResourceView>;

    open spec fn view(&self) -> Seq<GResourceView> {
        Seq::new(self.entries@.len(), |i: int| self.entries@[i]@)
    }
}

impl File {
    /// A file at `path`, with what holds of it in the bundle.
    pub fn new(
        path: String,
        alias: Option<String>,
        compressed: Option<bool>,
        preprocess: Option<Preprocess>,
    ) -> (file: File)
        ensures
            file@ == (FileView { path: path@, alias: text_view(alias), compressed, preprocess }),
    {
        File { path, alias, compressed, preprocess }
    }
}

impl GResources {
    /// A description without entries.
    pub fn new() -> (resources: GResources)
        ensures
            resources@ == Seq::<GResourceView>::empty(),
    {
        let resources = GResources { entries: Vec::new() };
        assert(resources@ =~= Seq::<GResourceView>::empty());
        resources
    }

    /// A description with these entries, in this order.
    pub fn from_iter(entries: Vec<GResource>) -> (resources: GResources)
        ensures
            resources@ == Seq::new(entries@.len(), |i: int| entries@[i]@),
    {
        GResources { entries }
    }
}

impl GResource {
    /// An entry without files.
    pub fn new(prefix: String) -> (resource: GResource)
        ensures
            resource@ == (GResourceView { prefix: prefix@, files: Seq::<FileView>::empty() }),
    {
        let resource = GResource { prefix, files: Vec::new() };
        assert(resource@.files =~= Seq::<FileView>::empty());
        resource
    }

    /// An entry with these files, in this order.
    pub fn from_iter(prefix: String, files: Vec<File>) -> (resource: GResource)
        ensures
            resource@ == (GResourceView { prefix: prefix@, files: files_view(files@) }),
    {
        GResource { prefix, files }
    }
}

} // verus!
