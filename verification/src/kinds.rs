//! What the window was told of files by their names: the language of each, and
//! whether the language server reads it.

use vstd::prelude::*;
use vstd::string::*;

use crate::text::same;

verus! {

/// The language of a file, as far as it matters here.
#[derive(Clone, Copy, PartialEq, Eq, Structural, Debug)]
pub enum Language {
    Blade,
    Php,
    Other,
}

/// What was told of one file.
pub struct FileKind {
    pub path: String,
    pub language: Language,
    /// Whether the language server is told about the file.
    pub served: bool,
}

/// What was told of the files.
pub struct FileKinds {
    pub known: Vec<FileKind>,
}

/// What was told of a file, from the entry `from` on.
pub open spec fn kind_in(known: Seq<FileKind>, path: Seq<char>, from: int) -> Option<FileKind>
    decreases known.len() - from,
{
    if from < 0 || from >= known.len() {
        None
    } else if known[from].path@ == path {
        Some(known[from])
    } else {
        kind_in(known, path, from + 1)
    }
}

impl FileKinds {
    /// What was told of a file.
    pub open spec fn kind_of(self, path: Seq<char>) -> Option<FileKind> {
        kind_in(self.known@, path, 0)
    }

    /// The language of a file. Of one that nothing was told about it is none
    /// that matters.
    pub open spec fn language_of(self, path: Seq<char>) -> Language {
        match self.kind_of(path) {
            Some(kind) => kind.language,
            None => Language::Other,
        }
    }

    /// Whether the language server is told about a file.
    pub open spec fn serves(self, path: Seq<char>) -> bool {
        self.kind_of(path) matches Some(kind) && kind.served
    }

    /// Whether no template is one for the language server.
    pub open spec fn templates_unserved(self) -> bool {
        forall|i: int|
            0 <= i < self.known.len() && (#[trigger] self.known[i]).language is Blade
                ==> !self.known[i].served
    }

    /// What was told of a file.
    fn find(&self, path: &str) -> (found: Option<&FileKind>)
        ensures
            match found {
                Some(kind) => self.kind_of(path@) == Some(*kind),
                None => self.kind_of(path@) is None,
            },
    {
        let mut i: usize = 0;
        while i < self.known.len()
            invariant
                i <= self.known.len(),
                kind_in(self.known@, path@, i as int) == self.kind_of(path@),
            decreases self.known.len() - i,
        {
            if same(self.known[i].path.as_str(), path) {
                return Some(&self.known[i]);
            }
            i += 1;
        }
        None
    }

    /// The language of a file.
    pub fn language(&self, path: &str) -> (language: Language)
        ensures
            language == self.language_of(path@),
    {
        match self.find(path) {
            Some(kind) => kind.language,
            None => Language::Other,
        }
    }

    /// Whether the language server is told about a file.
    pub fn handles(&self, path: &str) -> (held: bool)
        ensures
            held == self.serves(path@),
    {
        match self.find(path) {
            Some(kind) => kind.served,
            None => false,
        }
    }
}

/// Where no template is one for the server, none is taken for one.
pub proof fn lemma_template_is_unserved(kinds: FileKinds, path: Seq<char>, from: int)
    requires
        kinds.templates_unserved(),
        0 <= from <= kinds.known.len(),
        kind_in(kinds.known@, path, from) matches Some(kind) && kind.language is Blade,
    ensures
        kind_in(kinds.known@, path, from) matches Some(kind) && !kind.served,
    decreases kinds.known.len() - from,
{
    if from < kinds.known.len() && kinds.known[from].path@ != path {
        lemma_template_is_unserved(kinds, path, from + 1);
    }
}

/// What was told of a file is what the first entry for its path says, and
/// nothing was told only where no entry has that path.
pub proof fn law_first_entry_of_a_file(kinds: FileKinds, path: Seq<char>, i: int)
    requires
        0 <= i < kinds.known.len(),
        kinds.known[i].path@ == path,
        forall|k: int| 0 <= k < i ==> (#[trigger] kinds.known[k]).path@ != path,
    ensures
        kinds.language_of(path) == kinds.known[i].language,
        kinds.serves(path) == kinds.known[i].served,
{
    lemma_entry_is_found(kinds.known@, path, i, 0);
}

proof fn lemma_entry_is_found(known: Seq<FileKind>, path: Seq<char>, i: int, from: int)
    requires
        0 <= from <= i < known.len(),
        known[i].path@ == path,
        forall|k: int| from <= k < i ==> (#[trigger] known[k]).path@ != path,
    ensures
        kind_in(known, path, from) == Some(known[i]),
    decreases i - from,
{
    if from < i {
        assert(known[from].path@ != path);
        lemma_entry_is_found(known, path, i, from + 1);
    }
}

/// A file that nothing was told about is no source of Laravel's and none for
/// the language server.
pub proof fn law_untold_file_is_left_alone(kinds: FileKinds, path: Seq<char>)
    requires
        forall|k: int| 0 <= k < kinds.known.len() ==> (#[trigger] kinds.known[k]).path@ != path,
    ensures
        kinds.language_of(path) is Other,
        !kinds.serves(path),
{
    lemma_no_entry(kinds.known@, path, 0);
}

proof fn lemma_no_entry(known: Seq<FileKind>, path: Seq<char>, from: int)
    requires
        0 <= from,
        forall|k: int| 0 <= k < known.len() ==> (#[trigger] known[k]).path@ != path,
    ensures
        kind_in(known, path, from) is None,
    decreases known.len() - from,
{
    if from < known.len() {
        assert(known[from].path@ != path);
        lemma_no_entry(known, path, from + 1);
    }
}

} // verus!
