//! What the window knows at the moment of an event.

use vstd::prelude::*;
use vstd::string::*;

use crate::disk::Disk;
use crate::kinds::FileKinds;
use crate::palette::Point;

verus! {

/// What is in an editor.
pub struct Buffer {
    pub editor: u64,
    pub title: String,
    pub dirty: bool,
    pub text: String,
    pub version: u64,
    /// Where the cursor is: its byte, and its line and column.
    pub head: usize,
    pub point: Point,
    /// The bytes that are selected, where any are.
    pub selection: Option<(usize, usize)>,
    pub selected_text: Option<String>,
    /// The word under the cursor, and the part of it before the cursor.
    pub word: Option<String>,
    pub prefix: String,
    /// The name of its language.
    pub language: String,
}

/// What the window knows at the moment of an event.
pub struct Facts {
    /// What the disk was seen to say.
    pub disk: Disk,
    /// What the files are, by their names.
    pub kinds: FileKinds,
    /// What is in the editors.
    pub buffers: Vec<Buffer>,
    /// Whether buffers save themselves.
    pub autosave: bool,
    /// Whether a language server is configured for the project that one would
    /// be started for.
    pub server_configured: bool,
    /// Whether the search panel holds the keyboard.
    pub search_focused: bool,
    /// The settings file, where it can be opened.
    pub settings_path: Option<String>,
    /// Whether the cursor is on a name that Laravel can look up.
    pub laravel_reference: bool,
    /// Whether the project has a test framework.
    pub tests_detected: bool,
    /// The names of the languages that a buffer can be shown in.
    pub languages: Vec<String>,
}

/// What is in an editor, from the buffer `from` on.
pub open spec fn buffer_in(buffers: Seq<Buffer>, editor: u64, from: int) -> Option<Buffer>
    decreases buffers.len() - from,
{
    if from < 0 || from >= buffers.len() {
        None
    } else if buffers[from].editor == editor {
        Some(buffers[from])
    } else {
        buffer_in(buffers, editor, from + 1)
    }
}

impl Facts {
    /// What is in an editor.
    pub open spec fn buffer_of(self, editor: u64) -> Option<Buffer> {
        buffer_in(self.buffers@, editor, 0)
    }

    /// What is in an editor.
    pub fn buffer(&self, editor: u64) -> (found: Option<&Buffer>)
        ensures
            match found {
                Some(buffer) => self.buffer_of(editor) == Some(*buffer),
                None => self.buffer_of(editor) is None,
            },
    {
        let mut i: usize = 0;
        while i < self.buffers.len()
            invariant
                i <= self.buffers.len(),
                buffer_in(self.buffers@, editor, i as int) == self.buffer_of(editor),
            decreases self.buffers.len() - i,
        {
            if self.buffers[i].editor == editor {
                return Some(&self.buffers[i]);
            }
            i += 1;
        }
        None
    }
}

/// What is in an editor is the first buffer that is known of it, and nothing is
/// known only where no buffer is that editor's.
pub proof fn law_first_buffer_of_an_editor(buffers: Seq<Buffer>, editor: u64, from: int)
    requires
        0 <= from,
    ensures
        match buffer_in(buffers, editor, from) {
            Some(found) => exists|i: int|
                from <= i < buffers.len() && #[trigger] buffers[i] == found && found.editor == editor
                    && forall|k: int| from <= k < i ==> (#[trigger] buffers[k]).editor != editor,
            None => forall|k: int|
                from <= k < buffers.len() ==> (#[trigger] buffers[k]).editor != editor,
        },
    decreases buffers.len() - from,
{
    if from < buffers.len() {
        if buffers[from].editor == editor {
            assert(buffers[from] == buffer_in(buffers, editor, from)->0);
        } else {
            law_first_buffer_of_an_editor(buffers, editor, from + 1);
            if buffer_in(buffers, editor, from) is Some {
                let found = buffer_in(buffers, editor, from)->0;
                let i = choose|i: int|
                    from + 1 <= i < buffers.len() && #[trigger] buffers[i] == found && found.editor
                        == editor && forall|k: int|
                        from + 1 <= k < i ==> (#[trigger] buffers[k]).editor != editor;
                assert(buffers[i] == found);
            }
        }
    }
}

/// Every buffer is looked through, from the first on.
pub proof fn law_every_buffer_is_known(facts: Facts, i: int)
    requires
        0 <= i < facts.buffers.len(),
        forall|k: int| 0 <= k < i ==> (#[trigger] facts.buffers[k]).editor != facts.buffers[i].editor,
    ensures
        facts.buffer_of(facts.buffers[i].editor) == Some(facts.buffers[i]),
{
    law_first_buffer_of_an_editor(facts.buffers@, facts.buffers[i].editor, 0);
    let found = buffer_in(facts.buffers@, facts.buffers[i].editor, 0);
    assert(facts.buffers@[i].editor == facts.buffers[i].editor);
    let at = choose|at: int|
        0 <= at < facts.buffers@.len() && #[trigger] facts.buffers@[at] == found->0
            && found->0.editor == facts.buffers[i].editor && forall|k: int|
            0 <= k < at ==> (#[trigger] facts.buffers@[k]).editor != facts.buffers[i].editor;
    if at < i {
        assert(facts.buffers[at].editor != facts.buffers[i].editor);
    } else if i < at {
        assert(facts.buffers@[i].editor != facts.buffers[i].editor);
    }
}

} // verus!
