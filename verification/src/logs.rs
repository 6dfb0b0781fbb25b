//! Reading directories and files by their ends: the newest log, its tail, and
//! the route files of a project.

use vstd::prelude::*;
use vstd::slice::*;
use vstd::string::*;
use vstd::utf8::*;

use crate::paths;
use crate::paths::name_of;
use crate::text;
use crate::text::{chars_of, ends_with, find_char, join2, text_before};

verus! {

broadcast use vstd::seq::group_seq_axioms;

/// How many entries the log panel keeps.
pub const LOG_MAX_ENTRIES: usize = 500;

/// How many bytes of a log are read.
pub const LOG_TAIL_BYTES: u64 = 262144;

// ---------------------------------------------------------------------------
// Names
// ---------------------------------------------------------------------------

/// Whether a path's last component is a name with an extension: what stands
/// behind its last dot, where that is not its first character.
pub open spec fn has_extension(path: Seq<char>, extension: Seq<char>) -> bool {
    match paths::file_name(path) {
        Some(name) => ("."@ + extension).is_suffix_of(name) && name.len() > extension.len() + 1
            && !extension.contains('.'),
        None => false,
    }
}

/// The paths with an extension, in their order.
pub open spec fn with_extension(names: Seq<Seq<char>>, extension: Seq<char>) -> Seq<Seq<char>>
    decreases names.len(),
{
    if names.len() == 0 {
        names
    } else {
        let before = with_extension(names.drop_last(), extension);
        if has_extension(names.last(), extension) {
            before.push(names.last())
        } else {
            before
        }
    }
}

/// Whether names come in the order of their bytes.
pub open spec fn in_order(names: Seq<Seq<char>>) -> bool {
    forall|i: int, j: int|
        0 <= i < j < names.len() ==> !text::comes_before(#[trigger] names[j], #[trigger] names[i])
}

/// Whether a path's last component is a name with an extension.
fn is_named(path: &str, extension: &str) -> (held: bool)
    ensures
        held == has_extension(path@, extension@),
{
    let suffix = join2(".", extension);
    let chars = chars_of(extension);
    let dot = find_char(&chars, 0, '.');
    proof {
        reveal_strlit(".");
    }
    if dot < chars.len() {
        assert(extension@[dot as int] == '.');
        return false;
    }
    match name_of(path) {
        Some(name) => ends_with(name.as_str(), suffix.as_str()) && name.as_str().unicode_len()
            > suffix.as_str().unicode_len(),
        None => false,
    }
}

/// Where a name goes in a list that is in order: behind every name that does
/// not come after it.
fn place_of(names: &Vec<String>, name: &str) -> (at: usize)
    requires
        in_order(names.deep_view()),
    ensures
        at <= names.len(),
        forall|k: int| 0 <= k < at ==> !text::comes_before(name@, #[trigger] names.deep_view()[k]),
        forall|k: int|
            at <= k < names.len() ==> text::comes_before(name@, #[trigger] names.deep_view()[k]),
{
    let mut at: usize = names.len();
    while at > 0 && text_before(name, names[at - 1].as_str())
        invariant
            at <= names.len(),
            forall|k: int|
                at <= k < names.len() ==> text::comes_before(
                    name@,
                    #[trigger] names.deep_view()[k],
                ),
        decreases at,
    {
        at -= 1;
    }
    assert forall|k: int| 0 <= k < at implies !text::comes_before(
        name@,
        #[trigger] names.deep_view()[k],
    ) by {
        let last = names.deep_view()[at - 1];
        let here = names.deep_view()[k];
        assert(last == names[at - 1]@);
        text::lemma_text_order(name@, here, last);
        text::lemma_text_order(here, last, name@);
        if k < at - 1 {
            assert(!text::comes_before(last, here));
        }
    }
    at
}

/// The files of a directory with an extension, in the order of their names.
pub fn files_with_extension(names: &Vec<String>, extension: &str) -> (found: Vec<String>)
    ensures
        in_order(found.deep_view()),
        found.deep_view().to_multiset() == with_extension(
            names.deep_view(),
            extension@,
        ).to_multiset(),
{
    broadcast use vstd::seq_lib::group_to_multiset_ensures;

    let mut found: Vec<String> = Vec::new();
    let mut i: usize = 0;
    assert(names.deep_view().take(0) =~= Seq::<Seq<char>>::empty());
    assert(found.deep_view() =~= Seq::<Seq<char>>::empty());
    while i < names.len()
        invariant
            i <= names.len(),
            in_order(found.deep_view()),
            found.deep_view().to_multiset() == with_extension(
                names.deep_view().take(i as int),
                extension@,
            ).to_multiset(),
        decreases names.len() - i,
    {
        let ghost all = names.deep_view();
        let ghost before = found.deep_view();
        assert(all.take(i + 1).drop_last() =~= all.take(i as int));
        assert(all.take(i + 1).last() == names[i as int]@);
        if is_named(names[i].as_str(), extension) {
            let at = place_of(&found, names[i].as_str());
            found.insert(at, names[i].clone());
            let ghost name = names[i as int]@;
            assert(found.deep_view() =~= before.insert(at as int, name));
            proof {
                vstd::seq_lib::to_multiset_insert(before, at as int, name);
                vstd::seq_lib::to_multiset_build(
                    with_extension(all.take(i as int), extension@),
                    name,
                );
            }
            assert forall|a: int, b: int| 0 <= a < b < found.len() implies !text::comes_before(
                #[trigger] found.deep_view()[b],
                #[trigger] found.deep_view()[a],
            ) by {
                if a < at && b == at {
                    assert(found.deep_view()[a] == before[a]);
                } else if a == at {
                    assert(found.deep_view()[b] == before[b - 1]);
                    text::lemma_text_order(name, before[b - 1], name);
                } else if b < at {
                    assert(found.deep_view()[a] == before[a]);
                    assert(found.deep_view()[b] == before[b]);
                } else if a < at {
                    assert(found.deep_view()[a] == before[a]);
                    assert(found.deep_view()[b] == before[b - 1]);
                } else {
                    assert(found.deep_view()[a] == before[a - 1]);
                    assert(found.deep_view()[b] == before[b - 1]);
                }
            }
        }
        i += 1;
    }
    assert(names.deep_view().take(i as int) =~= names.deep_view());
    found
}

/// The route files of a project, in the order of their names.
pub fn route_files(names: &Vec<String>) -> (found: Vec<String>)
    ensures
        in_order(found.deep_view()),
        found.deep_view().to_multiset() == with_extension(
            names.deep_view(),
            "php"@,
        ).to_multiset(),
{
    files_with_extension(names, "php")
}

/// The newest log of a directory: the last one by name, which for logs named
/// by their day is the latest.
pub fn newest_log(names: &Vec<String>) -> (newest: Option<String>)
    ensures
        newest is None ==> with_extension(names.deep_view(), "log"@).len() == 0,
        newest matches Some(name) ==> {
            let logs = with_extension(names.deep_view(), "log"@);
            &&& logs.contains(name@)
            &&& forall|i: int|
                0 <= i < logs.len() ==> !text::comes_before(name@, #[trigger] logs[i])
        },
{
    broadcast use vstd::seq_lib::group_to_multiset_ensures;

    let found = files_with_extension(names, "log");
    let ghost logs = with_extension(names.deep_view(), "log"@);
    let ghost sorted = found.deep_view();
    proof {
        assert(sorted.to_multiset().len() == sorted.len());
        assert(logs.to_multiset().len() == logs.len());
    }
    if found.len() == 0 {
        return None;
    }
    let name = found[found.len() - 1].clone();
    proof {
        assert(sorted[sorted.len() - 1] == name@);
        assert(sorted.contains(name@));
        assert(sorted.to_multiset().count(name@) > 0);
        assert(logs.contains(name@));
        assert forall|i: int| 0 <= i < logs.len() implies !text::comes_before(
            name@,
            #[trigger] logs[i],
        ) by {
            let other = logs[i];
            assert(logs.contains(other));
            assert(sorted.to_multiset().count(other) > 0);
            assert(sorted.contains(other));
            let k = choose|k: int| 0 <= k < sorted.len() && sorted[k] == other;
            text::lemma_text_order(name@, other, name@);
            if k < sorted.len() - 1 {
                assert(!text::comes_before(sorted[sorted.len() - 1], sorted[k]));
            }
        }
    }
    Some(name)
}

// ---------------------------------------------------------------------------
// The end of a file
// ---------------------------------------------------------------------------

/// Bytes read as UTF-8, with everything that is not replaced.
pub uninterp spec fn lossy(bytes: Seq<u8>) -> Seq<char>;

/// `String::from_utf8_lossy`: bytes as text, with the replacement character
/// where they are not UTF-8. Bytes that are UTF-8 read as themselves.
#[verifier::external_body]
fn lossy_text(bytes: &[u8]) -> (text: String)
    ensures
        text@ == lossy(bytes@),
        valid_utf8(bytes@) ==> text@ == decode_utf8(bytes@),
{
    String::from_utf8_lossy(bytes).into_owned()
}

/// `str::from_utf8`: bytes as text, where all of them are UTF-8.
#[verifier::external_body]
fn strict_text(bytes: &[u8]) -> (text: Option<String>)
    ensures
        text is Some == valid_utf8(bytes@),
        text matches Some(read) ==> read@ == decode_utf8(bytes@),
{
    std::str::from_utf8(bytes).ok().map(|text| text.to_string())
}

/// Where the end of a file begins: at its beginning, or `max_bytes` before its
/// end.
pub fn tail_start(len: u64, max_bytes: u64) -> (start: u64)
    ensures
        start == (if len <= max_bytes {
            0
        } else {
            len - max_bytes
        }),
{
    if len <= max_bytes {
        0
    } else {
        len - max_bytes
    }
}

/// The first line break, from `from` on, or the end.
pub open spec fn line_break(bytes: Seq<u8>, from: int) -> int
    decreases bytes.len() - from,
{
    if from < 0 || from >= bytes.len() {
        bytes.len() as int
    } else if bytes[from] == 10 {
        from
    } else {
        line_break(bytes, from + 1)
    }
}

/// What is left of the end of a file once the line that the cut went through
/// is dropped. A cut behind a line break goes through no line.
pub open spec fn full_lines(before: u8, bytes: Seq<u8>) -> Seq<u8> {
    if before == 10 {
        bytes
    } else if line_break(bytes, 0) < bytes.len() {
        bytes.skip(line_break(bytes, 0) + 1)
    } else {
        Seq::empty()
    }
}

/// The text at the end of a file. `bytes` are those from `tail_start` on, and
/// `before` is the byte in front of them, where there is one. A whole file has
/// to be UTF-8; a cut one is read as far as it is.
pub fn read_file_tail(bytes: &Vec<u8>, before: Option<u8>) -> (tail: Option<String>)
    ensures
        before is None ==> tail is Some == valid_utf8(bytes@) && (tail matches Some(text)
            ==> text@ == decode_utf8(bytes@)),
        before matches Some(byte) ==> {
            &&& tail.deep_view() == Some(lossy(full_lines(byte, bytes@)))
            &&& valid_utf8(full_lines(byte, bytes@)) ==> tail.deep_view() == Some(
                decode_utf8(full_lines(byte, bytes@)),
            )
        },
{
    let byte = match before {
        Some(byte) => byte,
        None => return strict_text(bytes.as_slice()),
    };
    let mut start: usize = 0;
    if byte != 10 {
        while start < bytes.len() && bytes[start] != 10
            invariant
                start <= bytes.len(),
                line_break(bytes@, start as int) == line_break(bytes@, 0),
            decreases bytes.len() - start,
        {
            start += 1;
        }
        if start < bytes.len() {
            start += 1;
        }
    }
    let rest = slice_subrange(bytes.as_slice(), start, bytes.len());
    assert(rest@ =~= full_lines(byte, bytes@));
    Some(lossy_text(rest))
}

/// What is read of a file that is longer than the window: what `read_file_tail`
/// makes of its last `window` bytes.
pub open spec fn tail_bytes(contents: Seq<u8>, window: int) -> Seq<u8> {
    let start = contents.len() - window;
    full_lines(contents[start - 1], contents.skip(start))
}

/// No half line is shown at the seam, and no whole one is lost: what is left of
/// a file is the longest end of it that fits the window and begins a line. A
/// file that is UTF-8 stays so.
pub proof fn law_tail_begins_a_line(contents: Seq<u8>, window: int)
    requires
        0 <= window < contents.len(),
    ensures
        tail_bytes(contents, window).len() <= window,
        tail_bytes(contents, window) == contents.skip(
            contents.len() - tail_bytes(contents, window).len(),
        ),
        tail_bytes(contents, window).len() > 0 ==> contents[contents.len() - tail_bytes(
            contents,
            window,
        ).len() - 1] == 10,
        forall|start: int|
            contents.len() - window <= start < contents.len() - tail_bytes(contents, window).len()
                ==> #[trigger] contents[start - 1] != 10,
        valid_utf8(contents) ==> valid_utf8(tail_bytes(contents, window)),
{
    let cut = contents.len() - window;
    let bytes = contents.skip(cut);
    let tail = tail_bytes(contents, window);
    let begin = contents.len() - tail.len();
    lemma_line_break(bytes, 0);
    let at = line_break(bytes, 0);
    if contents[cut - 1] != 10 && at < bytes.len() {
        assert(bytes.skip(at + 1) =~= contents.skip(cut + at + 1));
        assert(begin == cut + at + 1);
        assert(contents[begin - 1] == bytes[at]);
    }
    assert(tail =~= contents.skip(begin));
    assert forall|start: int| cut <= start < begin implies #[trigger] contents[start - 1] != 10 by {
        if start > cut {
            assert(contents[start - 1] == bytes[start - 1 - cut]);
        }
    }
    if valid_utf8(contents) && tail.len() > 0 {
        lemma_behind_break(contents, begin);
        valid_utf8_split(contents, begin);
        assert(contents.subrange(begin, contents.len() as int) =~= tail);
    }
}

/// A line begins at a character.
proof fn lemma_behind_break(bytes: Seq<u8>, begin: int)
    requires
        valid_utf8(bytes),
        0 < begin <= bytes.len(),
        bytes[begin - 1] == 10,
    ensures
        is_char_boundary(bytes, begin),
    decreases bytes.len(),
{
    let len = length_of_first_scalar(bytes);
    let rest = pop_first_scalar(bytes);
    assert(1 <= len <= bytes.len());
    assert(rest =~= bytes.skip(len));
    if begin > len {
        assert(rest[begin - len - 1] == bytes[begin - 1]);
        lemma_behind_break(rest, begin - len);
    } else {
        reveal_with_fuel(is_char_boundary, 2);
        assert(begin == len);
    }
}

/// A line break stands where it was found.
proof fn lemma_line_break(bytes: Seq<u8>, from: int)
    requires
        0 <= from <= bytes.len(),
    ensures
        from <= line_break(bytes, from) <= bytes.len(),
        line_break(bytes, from) < bytes.len() ==> bytes[line_break(bytes, from)] == 10,
        forall|k: int| from <= k < line_break(bytes, from) ==> #[trigger] bytes[k] != 10,
    decreases bytes.len() - from,
{
    if from < bytes.len() && bytes[from] != 10 {
        lemma_line_break(bytes, from + 1);
    }
}

/// The files with an extension are exactly those of the list that have it, in
/// its order.
pub proof fn law_files_are_picked_by_extension(names: Seq<Seq<char>>, extension: Seq<char>)
    ensures
        with_extension(names, extension) == names.filter(
            |name: Seq<char>| has_extension(name, extension),
        ),
    decreases names.len(),
{
    reveal(Seq::filter);
    if names.len() > 0 {
        law_files_are_picked_by_extension(names.drop_last(), extension);
    }
}

/// A file has an extension where its name ends in a dot and the extension with
/// something in front of them; a path without a name has none.
pub proof fn law_extension_stands_behind_a_dot(
    path: Seq<char>,
    stem: Seq<char>,
    extension: Seq<char>,
)
    requires
        !extension.contains('.'),
    ensures
        stem.len() > 0 && paths::file_name(path) == Some(stem + "."@ + extension)
            ==> has_extension(path, extension),
        paths::file_name(path) == Some("."@ + extension) ==> !has_extension(path, extension),
        paths::file_name(path) is None ==> !has_extension(path, extension),
        paths::file_name(path) is Some && !(("."@ + extension).is_suffix_of(paths::file_name(path)->0))
            ==> !has_extension(path, extension),
{
    reveal_strlit(".");
    let name = stem + "."@ + extension;
    let suffix = "."@ + extension;
    assert(name.subrange(name.len() - suffix.len(), name.len() as int) =~= suffix);
}

} // verus!
