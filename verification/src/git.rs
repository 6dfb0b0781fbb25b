//! What git said, put into the one line of the status bar.

use vstd::prelude::*;
use vstd::string::*;

use crate::text;
use crate::text::{
    chars_of, join3, lines_of, owned, reads_ignoring_case, skip_white_space, text_of, trimmed,
};

verus! {

broadcast use vstd::seq::group_seq_axioms;

/// Whether a trimmed line says something: it is neither blank nor a bare
/// `error` or `fatal`.
pub open spec fn is_meaningful(line: Seq<char>) -> bool {
    &&& line.len() > 0
    &&& !text::same_ignoring_case(line, "error"@)
    &&& !text::same_ignoring_case(line, "fatal"@)
}

/// The first line, trimmed, that says something.
pub open spec fn first_meaningful(lines: Seq<Seq<char>>) -> Option<Seq<char>>
    decreases lines.len(),
{
    if lines.len() == 0 {
        None
    } else if is_meaningful(text::trim(lines[0])) {
        Some(text::trim(lines[0]))
    } else {
        first_meaningful(lines.skip(1))
    }
}

/// Whether `line` starts with `label`, whatever the case of its letters.
pub open spec fn has_label(line: Seq<char>, label: Seq<char>) -> bool {
    line.len() >= label.len() && text::same_ignoring_case(line.take(label.len() as int), label)
}

/// `line` without one leading label and the space behind it.
pub open spec fn without_label(line: Seq<char>) -> Seq<char> {
    if has_label(line, "fatal:"@) {
        text::trim_start(line.skip("fatal:"@.len() as int))
    } else if has_label(line, "error:"@) {
        text::trim_start(line.skip("error:"@.len() as int))
    } else if has_label(line, "git:"@) {
        text::trim_start(line.skip("git:"@.len() as int))
    } else {
        line
    }
}

/// A git error in one line: the first line that says something, without its
/// label. Where that leaves nothing, the whole error, trimmed.
pub open spec fn cleaned(raw: Seq<char>) -> Seq<char> {
    let line = match first_meaningful(text::lines(raw)) {
        Some(line) => line,
        None => text::trim(raw),
    };
    if without_label(line).len() == 0 {
        text::trim(raw)
    } else {
        without_label(line)
    }
}

/// What follows `label` in `chars`, where it starts with it.
fn after_label(chars: &Vec<char>, label: &str) -> (rest: Option<String>)
    ensures
        rest is Some == has_label(chars@, label@),
        rest matches Some(text) ==> text@ == text::trim_start(chars@.skip(label@.len() as int)),
{
    let len = label.unicode_len();
    if chars.len() < len {
        return None;
    }
    assert(chars@.subrange(0, len as int) == chars@.take(len as int));
    if reads_ignoring_case(chars, 0, len, label) {
        let start = skip_white_space(chars, len, chars.len());
        assert(chars@.subrange(len as int, chars.len() as int) == chars@.skip(len as int));
        Some(text_of(chars, start, chars.len()))
    } else {
        None
    }
}

/// Drops one leading `fatal:`, `error:` or `git:` and the space behind it.
pub fn strip_git_prefix(line: &str) -> (short: String)
    ensures
        short@ == without_label(line@),
{
    let chars = chars_of(line);
    if let Some(rest) = after_label(&chars, "fatal:") {
        return rest;
    }
    if let Some(rest) = after_label(&chars, "error:") {
        return rest;
    }
    if let Some(rest) = after_label(&chars, "git:") {
        return rest;
    }
    owned(line)
}

/// Whether a trimmed line says something.
fn says_something(line: &str) -> (held: bool)
    ensures
        held == is_meaningful(line@),
{
    let chars = chars_of(line);
    assert(chars@.subrange(0, chars.len() as int) == chars@);
    chars.len() > 0 && !reads_ignoring_case(&chars, 0, chars.len(), "error")
        && !reads_ignoring_case(&chars, 0, chars.len(), "fatal")
}

/// Cleans a git error for the status bar: the first line that says something,
/// without the label that only repeats that git failed. Everything behind the
/// label is kept, for a hook's or a remote's reason is the user's to act on.
pub fn clean_git_error(raw: &str) -> (line: String)
    ensures
        line@ == cleaned(raw@),
{
    let lines = lines_of(raw);
    let whole = trimmed(raw);
    let mut i: usize = 0;
    let mut found: Option<String> = None;
    assert(lines.deep_view().skip(0) == lines.deep_view());
    while i < lines.len() && found.is_none()
        invariant
            i <= lines.len(),
            lines.deep_view() == text::lines(raw@),
            found is None ==> first_meaningful(lines.deep_view().skip(i as int))
                == first_meaningful(text::lines(raw@)),
            found matches Some(line) ==> first_meaningful(text::lines(raw@)) == Some(line@),
        decreases lines.len() - i + (if found is None { 1int } else { 0 }),
    {
        let ghost rest = lines.deep_view().skip(i as int);
        let line = trimmed(lines[i].as_str());
        assert(rest[0] == lines[i as int]@);
        assert(rest.skip(1) == lines.deep_view().skip(i + 1));
        if says_something(line.as_str()) {
            found = Some(line);
        } else {
            i += 1;
        }
    }
    let first = match found {
        Some(line) => line,
        None => {
            assert(lines.deep_view().skip(i as int) == Seq::<Seq<char>>::empty());
            whole.clone()
        },
    };
    let short = strip_git_prefix(first.as_str());
    if short.as_str().is_empty() {
        whole
    } else {
        short
    }
}

/// The first line of what git printed, trimmed.
pub open spec fn summary_line(output: Seq<char>) -> Seq<char> {
    if text::lines(output).len() == 0 {
        Seq::empty()
    } else {
        text::trim(text::lines(output)[0])
    }
}

/// What the status bar says after a stage or a commit. A write that printed
/// nothing leaves it as it was.
pub open spec fn write_status(done: Result<Seq<char>, Seq<char>>) -> Option<Seq<char>> {
    match done {
        Ok(output) => if summary_line(output).len() == 0 {
            None
        } else {
            Some("✓ "@ + summary_line(output) + "  ·  ⇧⌥P to push"@)
        },
        Err(error) => Some(cleaned(error)),
    }
}

/// What the status bar says after a stage or a commit; `None` leaves it.
pub fn git_write_status(done: &Result<String, String>) -> (status: Option<String>)
    ensures
        status.deep_view() == write_status(
            match done {
                Ok(output) => Ok(output@),
                Err(error) => Err(error@),
            },
        ),
{
    match done {
        Ok(output) => {
            let lines = lines_of(output.as_str());
            if lines.len() == 0 {
                return None;
            }
            assert(lines.deep_view()[0] == lines[0]@);
            let summary = trimmed(lines[0].as_str());
            if summary.as_str().is_empty() {
                None
            } else {
                Some(join3("✓ ", summary.as_str(), "  ·  ⇧⌥P to push"))
            }
        },
        Err(error) => Some(clean_git_error(error.as_str())),
    }
}

/// What the status bar says after a fetch, a push or a switch.
pub open spec fn operation_status(outcome: Result<Seq<char>, Seq<char>>) -> Seq<char> {
    match outcome {
        Ok(message) => if text::trim(message).len() == 0 {
            "Done"@
        } else {
            text::trim(message)
        },
        Err(error) => cleaned(error),
    }
}

/// What the status bar says after a fetch, a push or a switch.
pub fn git_operation_status(outcome: &Result<String, String>) -> (status: String)
    ensures
        status@ == operation_status(
            match outcome {
                Ok(message) => Ok(message@),
                Err(error) => Err(error@),
            },
        ),
{
    match outcome {
        Ok(message) => {
            let short = trimmed(message.as_str());
            if short.as_str().is_empty() {
                owned("Done")
            } else {
                short
            }
        },
        Err(error) => clean_git_error(error.as_str()),
    }
}

/// What a push that succeeded reports: what git printed, or that it pushed.
pub fn push_message(output: &str) -> (message: String)
    ensures
        message@ == (if text::trim(output@).len() == 0 {
            "✓ Pushed"@
        } else {
            text::trim(output@)
        }),
{
    let short = trimmed(output);
    if short.as_str().is_empty() {
        owned("✓ Pushed")
    } else {
        short
    }
}

/// A git error never cleans to nothing unless it was nothing but white space.
pub proof fn law_cleaned_error_is_not_empty(raw: Seq<char>)
    requires
        text::trim(raw).len() > 0,
    ensures
        cleaned(raw).len() > 0,
{
}

/// The first line that says something is the first one that is neither blank nor
/// a bare label.
pub proof fn law_first_telling_line(lines: Seq<Seq<char>>)
    ensures
        first_meaningful(lines) matches Some(line) ==> exists|i: int|
            0 <= i < lines.len() && line == text::trim(#[trigger] lines[i]) && is_meaningful(line)
                && forall|j: int| 0 <= j < i ==> !is_meaningful(text::trim(#[trigger] lines[j])),
        first_meaningful(lines) is None ==> forall|i: int|
            0 <= i < lines.len() ==> !is_meaningful(text::trim(#[trigger] lines[i])),
    decreases lines.len(),
{
    if lines.len() > 0 {
        if is_meaningful(text::trim(lines[0])) {
            assert(first_meaningful(lines) == Some(text::trim(lines[0])));
        } else {
            let rest = lines.skip(1);
            law_first_telling_line(rest);
            assert forall|i: int| 0 <= i < rest.len() implies #[trigger] rest[i] == lines[i
                + 1] by {}
            if let Some(line) = first_meaningful(rest) {
                let i = choose|i: int|
                    0 <= i < rest.len() && line == text::trim(#[trigger] rest[i]) && is_meaningful(
                        line,
                    ) && forall|j: int|
                        0 <= j < i ==> !is_meaningful(text::trim(#[trigger] rest[j]));
                assert(line == text::trim(lines[i + 1]));
                assert forall|j: int| 0 <= j < i + 1 implies !is_meaningful(
                    text::trim(#[trigger] lines[j]),
                ) by {
                    if j > 0 {
                        assert(rest[j - 1] == lines[j]);
                    }
                }
            } else {
                assert forall|i: int| 0 <= i < lines.len() implies !is_meaningful(
                    text::trim(#[trigger] lines[i]),
                ) by {
                    if i > 0 {
                        assert(rest[i - 1] == lines[i]);
                    }
                }
            }
        }
    }
}

/// A line says something exactly where it has text and is not just the word
/// error or fatal.
pub proof fn law_what_tells(line: Seq<char>)
    ensures
        is_meaningful(line) == (line.len() > 0 && !text::same_ignoring_case(line, "error"@)
            && !text::same_ignoring_case(line, "fatal"@)),
        has_label(line, "fatal:"@) ==> without_label(line) == text::trim_start(
            line.skip("fatal:"@.len() as int),
        ),
        !has_label(line, "fatal:"@) && has_label(line, "error:"@) ==> without_label(line)
            == text::trim_start(line.skip("error:"@.len() as int)),
        !has_label(line, "fatal:"@) && !has_label(line, "error:"@) && has_label(line, "git:"@)
            ==> without_label(line) == text::trim_start(line.skip("git:"@.len() as int)),
        !has_label(line, "fatal:"@) && !has_label(line, "error:"@) && !has_label(line, "git:"@)
            ==> without_label(line) == line,
{
}

/// An error is shown by its first telling line without the label, and whole
/// where that leaves nothing.
pub proof fn law_error_is_shown_by_its_telling_line(raw: Seq<char>)
    ensures
        first_meaningful(text::lines(raw)) matches Some(line) ==> {
            &&& without_label(line).len() > 0 ==> cleaned(raw) == without_label(line)
            &&& without_label(line).len() == 0 ==> cleaned(raw) == text::trim(raw)
        },
{
}

/// A commit that worked is told by the first line of its output, with the way to
/// push; one that said nothing is not told; a failure is told by its error.
pub proof fn law_commit_is_told(output: Seq<char>, error: Seq<char>)
    ensures
        text::lines(output).len() > 0 && text::trim(text::lines(output)[0]).len() > 0
            ==> write_status(Ok(output)) == Some(
            "✓ "@ + text::trim(text::lines(output)[0]) + "  ·  ⇧⌥P to push"@,
        ),
        text::lines(output).len() == 0 || text::trim(text::lines(output)[0]).len() == 0
            ==> write_status(Ok(output)) is None,
        write_status(Err(error)) == Some(cleaned(error)),
{
}

/// Any other command is told by its output, by a word where it said nothing, and
/// a failure by its error.
pub proof fn law_command_is_told(message: Seq<char>, error: Seq<char>)
    ensures
        text::trim(message).len() > 0 ==> operation_status(Ok(message)) == text::trim(message),
        text::trim(message).len() == 0 ==> operation_status(Ok(message)) == "Done"@,
        operation_status(Err(error)) == cleaned(error),
{
}

} // verus!
