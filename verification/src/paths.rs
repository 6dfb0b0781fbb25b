//! Paths as texts, and what the disk was seen to say about them.
//!
//! A path is compared by its components, so `a//b` and `a/./b` are one path.
//! Nothing here touches a file: what exists, and what a spelling resolves to,
//! is handed in as a [`Disk`].

use vstd::prelude::*;
use vstd::string::*;

use crate::text;
use crate::text::{chars_of, find_char, owned, same, text_of};

verus! {

broadcast use vstd::seq::group_seq_axioms;

/// The component that a path starting at the root begins with.
pub open spec fn root_component() -> Seq<char> {
    seq!['/']
}

/// Whether the path starts at the root.
pub open spec fn is_absolute(path: Seq<char>) -> bool {
    path.len() > 0 && path[0] == '/'
}

/// The names in `s`, between its separators. Empty names are skipped, and so
/// is `.` unless it opens the path.
pub open spec fn parts_from(s: Seq<char>, opening: bool) -> Seq<Seq<char>>
    decreases s.len(),
{
    let end = text::first_index(s, '/') as int;
    let name = s.take(end);
    let rest = if end < s.len() {
        parts_from(s.skip(end + 1), false)
    } else {
        Seq::empty()
    };
    if name.len() == 0 || (name == seq!['.'] && !opening) {
        rest
    } else {
        seq![name] + rest
    }
}

/// The components of a path: the root, when it starts there, then its names.
pub open spec fn components(path: Seq<char>) -> Seq<Seq<char>> {
    if is_absolute(path) {
        seq![root_component()] + parts_from(path.skip(1), false)
    } else {
        parts_from(path, true)
    }
}

/// Whether two texts spell the same path.
pub open spec fn same_path(a: Seq<char>, b: Seq<char>) -> bool {
    components(a) == components(b)
}

/// Whether `path` is `base` or lies below it, going by the spellings alone.
pub open spec fn below(path: Seq<char>, base: Seq<char>) -> bool {
    components(base).is_prefix_of(components(path))
}

/// Where the names in `s` stand: the place of each and the place behind it,
/// counted from `at`.
pub open spec fn spans_from(s: Seq<char>, at: int, opening: bool) -> Seq<(int, int)>
    decreases s.len(),
{
    let end = text::first_index(s, '/') as int;
    let name = s.take(end);
    let rest = if end < s.len() {
        spans_from(s.skip(end + 1), at + end + 1, false)
    } else {
        Seq::empty()
    };
    if name.len() == 0 || (name == seq!['.'] && !opening) {
        rest
    } else {
        seq![(at, at + end)] + rest
    }
}

/// Where the components of a path stand.
pub open spec fn spans(path: Seq<char>) -> Seq<(int, int)> {
    if is_absolute(path) {
        seq![(0int, 1int)] + spans_from(path.skip(1), 1, false)
    } else {
        spans_from(path, 0, true)
    }
}

/// The path up to the end of its first `count` components, as it is spelled.
pub open spec fn up_to(path: Seq<char>, count: int) -> Seq<char> {
    if count <= 0 {
        Seq::empty()
    } else {
        path.take(spans(path)[count - 1].1)
    }
}

/// `base` with `name` put below it; an absolute `name` stands by itself.
pub open spec fn join(base: Seq<char>, name: Seq<char>) -> Seq<char> {
    if is_absolute(name) || base.len() == 0 {
        name
    } else if base.last() == '/' {
        base + name
    } else {
        base + seq!['/'] + name
    }
}

/// The path without its last component, as it is spelled; the root and the
/// empty path have none.
pub open spec fn parent(path: Seq<char>) -> Option<Seq<char>> {
    let parts = components(path);
    if parts.len() == 0 || parts.last() == root_component() {
        None
    } else {
        Some(up_to(path, parts.len() - 1))
    }
}

/// The last component, where it is a name.
pub open spec fn file_name(path: Seq<char>) -> Option<Seq<char>> {
    let parts = components(path);
    if parts.len() == 0 || parts.last() == root_component() || parts.last() == seq!['.']
        || parts.last() == seq!['.', '.'] {
        None
    } else {
        Some(parts.last())
    }
}

/// What is left of `path` below `base`, as it is spelled: from the first
/// component that `base` does not have to the end of the last.
pub open spec fn relative_to(path: Seq<char>, base: Seq<char>) -> Option<Seq<char>> {
    let all = components(path).len() as int;
    let known = components(base).len() as int;
    if !below(path, base) {
        None
    } else if known == all {
        Some(Seq::empty())
    } else if known == 0 {
        Some(up_to(path, all))
    } else {
        Some(path.subrange(spans(path)[known].0, spans(path)[all - 1].1))
    }
}

// ---------------------------------------------------------------------------
// Components and spellings
// ---------------------------------------------------------------------------

/// Whether each text can be a name in a path.
pub open spec fn are_names(names: Seq<Seq<char>>, opening: bool) -> bool {
    forall|i: int|
        0 <= i < names.len() ==> {
            &&& (#[trigger] names[i]).len() > 0
            &&& forall|k: int| 0 <= k < names[i].len() ==> names[i][k] != '/'
            &&& names[i] == seq!['.'] ==> opening && i == 0
        }
}

/// The names found in a text can be names in a path.
pub proof fn lemma_parts_are_names(s: Seq<char>, opening: bool)
    ensures
        are_names(parts_from(s, opening), opening),
    decreases s.len(),
{
    text::lemma_first_index(s, '/');
    let end = text::first_index(s, '/') as int;
    let name = s.take(end);
    if end < s.len() {
        lemma_parts_are_names(s.skip(end + 1), false);
    }
    let rest = if end < s.len() {
        parts_from(s.skip(end + 1), false)
    } else {
        Seq::empty()
    };
    assert(are_names(rest, false));
    if !(name.len() == 0 || (name == seq!['.'] && !opening)) {
        let all = seq![name] + rest;
        assert forall|i: int| 0 <= i < all.len() implies {
            &&& (#[trigger] all[i]).len() > 0
            &&& forall|k: int| 0 <= k < all[i].len() ==> all[i][k] != '/'
            &&& all[i] == seq!['.'] ==> opening && i == 0
        } by {
            if i > 0 {
                assert(all[i] == rest[i - 1]);
            }
        }
    }
}

/// The root is the first component of a path or none of them.
proof fn lemma_root_is_first(path: Seq<char>)
    ensures
        components(path).len() > 0 ==> (components(path).last() == root_component()) == (
        is_absolute(path) && components(path).len() == 1),
{
    let parts = components(path);
    if is_absolute(path) {
        lemma_parts_are_names(path.skip(1), false);
        let names = parts_from(path.skip(1), false);
        if names.len() > 0 {
            assert(parts.last() == names[names.len() - 1]);
            assert(names[names.len() - 1][0] != '/');
        }
    } else {
        lemma_parts_are_names(path, true);
        if parts.len() > 0 {
            assert(parts[parts.len() - 1][0] != '/');
        }
    }
}

/// The spans of a text are those of its names, one after the other.
proof fn lemma_spans_from(s: Seq<char>, at: int, opening: bool)
    ensures
        spans_from(s, at, opening).len() == parts_from(s, opening).len(),
        forall|i: int|
            0 <= i < spans_from(s, at, opening).len() ==> {
                let span = #[trigger] spans_from(s, at, opening)[i];
                &&& at <= span.0 < span.1 <= at + s.len()
                &&& s.subrange(span.0 - at, span.1 - at) == parts_from(s, opening)[i]
            },
        forall|i: int, j: int|
            0 <= i < j < spans_from(s, at, opening).len() ==> (#[trigger] spans_from(
                s,
                at,
                opening,
            )[i]).1 < (#[trigger] spans_from(s, at, opening)[j]).0,
    decreases s.len(),
{
    text::lemma_first_index(s, '/');
    let end = text::first_index(s, '/') as int;
    let name = s.take(end);
    let skipped = name.len() == 0 || (name == seq!['.'] && !opening);
    let all = spans_from(s, at, opening);
    let parts = parts_from(s, opening);
    let lead: int = if skipped {
        0
    } else {
        1
    };
    if end < s.len() {
        let tail = s.skip(end + 1);
        lemma_spans_from(tail, at + end + 1, false);
        let rest = spans_from(tail, at + end + 1, false);
        assert forall|i: int| 0 <= i < all.len() implies {
            let span = #[trigger] all[i];
            &&& at <= span.0 < span.1 <= at + s.len()
            &&& s.subrange(span.0 - at, span.1 - at) == parts[i]
        } by {
            if i >= lead {
                let span = rest[i - lead];
                assert(all[i] == span);
                assert(s.subrange(span.0 - at, span.1 - at) =~= tail.subrange(
                    span.0 - (at + end + 1),
                    span.1 - (at + end + 1),
                ));
            } else {
                assert(s.subrange(0, end) =~= name);
            }
        }
        assert forall|i: int, j: int| 0 <= i < j < all.len() implies (#[trigger] all[i]).1 < (
        #[trigger] all[j]).0 by {
            assert(all[j] == rest[j - lead]);
            if i >= lead {
                assert(all[i] == rest[i - lead]);
            }
        }
    } else {
        assert(s.subrange(0, end) =~= name);
    }
}

/// The spans of a path are those of its components, one after the other.
pub proof fn lemma_spans(path: Seq<char>)
    ensures
        spans(path).len() == components(path).len(),
        forall|i: int|
            0 <= i < spans(path).len() ==> {
                let span = #[trigger] spans(path)[i];
                &&& 0 <= span.0 < span.1 <= path.len()
                &&& path.subrange(span.0, span.1) == components(path)[i]
            },
        forall|i: int, j: int|
            0 <= i < j < spans(path).len() ==> (#[trigger] spans(path)[i]).1 <= (
            #[trigger] spans(path)[j]).0,
{
    if is_absolute(path) {
        let rest = path.skip(1);
        lemma_spans_from(rest, 1, false);
        let found = spans_from(rest, 1, false);
        let all = spans(path);
        assert forall|i: int| 0 <= i < all.len() implies {
            let span = #[trigger] all[i];
            &&& 0 <= span.0 < span.1 <= path.len()
            &&& path.subrange(span.0, span.1) == components(path)[i]
        } by {
            if i > 0 {
                let span = found[i - 1];
                assert(all[i] == span);
                assert(path.subrange(span.0, span.1) =~= rest.subrange(span.0 - 1, span.1 - 1));
            } else {
                assert(path.subrange(0, 1) =~= root_component());
            }
        }
        assert forall|i: int, j: int| 0 <= i < j < all.len() implies (#[trigger] all[i]).1 <= (
        #[trigger] all[j]).0 by {
            assert(all[j] == found[j - 1]);
            if i > 0 {
                assert(all[i] == found[i - 1]);
            }
        }
    } else {
        lemma_spans_from(path, 0, true);
    }
}

/// A text cut behind one of its names has the names up to there.
proof fn lemma_parts_up_to(s: Seq<char>, at: int, opening: bool, i: int)
    requires
        0 <= i < spans_from(s, at, opening).len(),
    ensures
        parts_from(s.take(spans_from(s, at, opening)[i].1 - at), opening) == parts_from(
            s,
            opening,
        ).take(i + 1),
    decreases s.len(),
{
    lemma_spans_from(s, at, opening);
    text::lemma_first_index(s, '/');
    let end = text::first_index(s, '/') as int;
    let name = s.take(end);
    let skipped = name.len() == 0 || (name == seq!['.'] && !opening);
    let stop = spans_from(s, at, opening)[i].1 - at;
    if !skipped && i == 0 {
        assert(stop == end);
        let cut = s.take(end);
        text::lemma_is_first_index(cut, '/', end);
        assert(cut.take(end) =~= name);
        assert(parts_from(cut, opening) =~= seq![name]);
        assert(parts_from(s, opening).take(1) =~= seq![name]);
    } else {
        let lead: int = if skipped {
            0
        } else {
            1
        };
        let tail = s.skip(end + 1);
        lemma_spans_from(tail, at + end + 1, false);
        lemma_parts_up_to(tail, at + end + 1, false, i - lead);
        assert(spans_from(s, at, opening)[i] == spans_from(tail, at + end + 1, false)[i - lead]);
        let cut = tail.take(stop - end - 1);
        assert(s.take(stop) =~= name + seq!['/'] + cut);
        lemma_parts_of_two(name, cut, opening);
        text::lemma_is_first_index(name, '/', end);
        assert(name.take(end) =~= name);
        assert(parts_from(name, opening) =~= (if skipped {
            Seq::empty()
        } else {
            seq![name]
        }));
        assert(parts_from(s, opening).take(i + 1) =~= parts_from(name, opening) + parts_from(
            tail,
            false,
        ).take(i - lead + 1));
    }
}

/// A path cut behind one of its components has the components up to there.
pub proof fn lemma_up_to(path: Seq<char>, count: int)
    requires
        0 <= count <= components(path).len(),
    ensures
        components(up_to(path, count)) == components(path).take(count),
{
    lemma_spans(path);
    let cut = up_to(path, count);
    if count == 0 {
        assert(text::first_index(cut, '/') == 0);
        assert(components(cut) =~= components(path).take(0));
    } else if is_absolute(path) {
        assert(cut[0] == path[0]);
        let rest = path.skip(1);
        if count == 1 {
            assert(spans(path)[0] == (0int, 1int));
            assert(cut.skip(1) =~= Seq::<char>::empty());
            assert(text::first_index(cut.skip(1), '/') == 0);
            assert(components(cut) =~= components(path).take(1));
        } else {
            lemma_parts_up_to(rest, 1, false, count - 2);
            assert(spans(path)[count - 1] == spans_from(rest, 1, false)[count - 2]);
            assert(cut.skip(1) =~= rest.take(spans(path)[count - 1].1 - 1));
            assert(components(cut) =~= components(path).take(count));
        }
    } else {
        lemma_parts_up_to(path, 0, true, count - 1);
        assert(cut[0] == path[0]);
    }
}

/// The components of a parent are those of the path but for the last.
pub proof fn lemma_parent(path: Seq<char>)
    requires
        parent(path) is Some,
    ensures
        components(parent(path)->0) == components(path).drop_last(),
{
    lemma_up_to(path, components(path).len() - 1);
    assert(components(path).take(components(path).len() - 1) =~= components(path).drop_last());
}

/// Two texts with a separator between them hold the names of the first and
/// then those of the second.
proof fn lemma_parts_of_two(a: Seq<char>, b: Seq<char>, opening: bool)
    ensures
        parts_from(a + seq!['/'] + b, opening) == parts_from(a, opening) + parts_from(b, false),
    decreases a.len(),
{
    let s = a + seq!['/'] + b;
    text::lemma_first_index(a, '/');
    let end = text::first_index(a, '/') as int;
    assert forall|k: int| 0 <= k < end implies s[k] != '/' by {
        assert(s[k] == a[k]);
    }
    if end < a.len() {
        assert(s[end] == a[end]);
        text::lemma_is_first_index(s, '/', end);
        assert(s.take(end) == a.take(end));
        assert(s.skip(end + 1) == a.skip(end + 1) + seq!['/'] + b);
        lemma_parts_of_two(a.skip(end + 1), b, false);
        assert(parts_from(s, opening) =~= parts_from(a, opening) + parts_from(b, false));
    } else {
        assert(s[end] == '/');
        text::lemma_is_first_index(s, '/', end);
        assert(s.take(end) == a.take(end));
        assert(s.skip(end + 1) == b);
        assert(parts_from(s, opening) =~= parts_from(a, opening) + parts_from(b, false));
    }
}

/// What joining does: the components of the base, then the names joined to it.
pub proof fn law_join_adds_the_names(base: Seq<char>, name: Seq<char>)
    requires
        base.len() > 0,
        !is_absolute(name),
    ensures
        components(join(base, name)) == components(base) + parts_from(name, false),
{
    if base.last() == '/' {
        let front = base.drop_last();
        assert(base == front + seq!['/'] + Seq::<char>::empty());
        assert(join(base, name) == front + seq!['/'] + name);
        assert(parts_from(Seq::<char>::empty(), false) =~= Seq::<Seq<char>>::empty());
        if front.len() == 0 {
            assert(join(base, name).skip(1) == name);
            assert(base.skip(1) == Seq::<char>::empty());
        } else if is_absolute(base) {
            lemma_parts_of_two(front.skip(1), name, false);
            lemma_parts_of_two(front.skip(1), Seq::empty(), false);
            assert(join(base, name).skip(1) == front.skip(1) + seq!['/'] + name);
            assert(base.skip(1) == front.skip(1) + seq!['/'] + Seq::<char>::empty());
        } else {
            assert(front[0] == base[0]);
            lemma_parts_of_two(front, name, true);
            lemma_parts_of_two(front, Seq::empty(), true);
        }
    } else if is_absolute(base) {
        lemma_parts_of_two(base.skip(1), name, false);
        assert(join(base, name).skip(1) == base.skip(1) + seq!['/'] + name);
    } else {
        lemma_parts_of_two(base, name, true);
    }
    assert(components(join(base, name)) =~= components(base) + parts_from(name, false));
}

// ---------------------------------------------------------------------------
// Working with paths
// ---------------------------------------------------------------------------

/// Adds the names in `chars[from..]` to `found`.
fn push_parts(chars: &Vec<char>, from: usize, opening: bool, found: &mut Vec<String>)
    requires
        from <= chars.len(),
    ensures
        final(found).deep_view() == old(found).deep_view() + parts_from(
            chars@.skip(from as int),
            opening,
        ),
{
    let ghost before = found.deep_view();
    let mut at: usize = from;
    let mut first: bool = opening;
    let mut more: bool = true;
    while more
        invariant
            at <= chars.len(),
            from <= chars.len(),
            more ==> found.deep_view() + parts_from(chars@.skip(at as int), first) == before
                + parts_from(chars@.skip(from as int), opening),
            !more ==> found.deep_view() == before + parts_from(chars@.skip(from as int), opening),
        decreases chars.len() - at + (if more { 1int } else { 0 }),
    {
        let ghost rest = chars@.skip(at as int);
        let ghost so_far = found.deep_view();
        let end = find_char(chars, at, '/');
        let ghost name = rest.take(end - at);
        assert(chars@.subrange(at as int, end as int) == name);
        let ghost tail = if end < chars.len() {
            parts_from(chars@.skip(end + 1), false)
        } else {
            Seq::empty()
        };
        assert(end < chars.len() ==> rest.skip(end - at + 1) == chars@.skip(end + 1));
        let dot = end - at == 1 && chars[at] == '.';
        assert(dot == (name == seq!['.'])) by {
            if dot {
                assert(name =~= seq!['.']);
            } else if name == seq!['.'] {
                assert(name[0] == chars@[at as int]);
            }
        }
        if end > at && (first || !dot) {
            let part = text_of(chars, at, end);
            found.push(part);
            assert(found.deep_view() == so_far.push(name));
            assert(so_far.push(name) + tail == so_far + (seq![name] + tail));
        }
        assert(found.deep_view() + tail == so_far + parts_from(rest, first));
        first = false;
        if end < chars.len() {
            at = end + 1;
        } else {
            at = end;
            more = false;
            assert(found.deep_view() + tail == found.deep_view());
        }
    }
}

/// The components of `path`.
pub fn components_of(path: &str) -> (parts: Vec<String>)
    ensures
        parts.deep_view() == components(path@),
{
    let chars = chars_of(path);
    let mut parts: Vec<String> = Vec::new();
    if chars.len() > 0 && chars[0] == '/' {
        let root = text_of(&chars, 0, 1);
        assert(root@ == root_component());
        parts.push(root);
        assert(parts.deep_view() == seq![root_component()]);
        push_parts(&chars, 1, false, &mut parts);
    } else {
        assert(parts.deep_view() == Seq::<Seq<char>>::empty());
        assert(chars@.skip(0) == chars@);
        push_parts(&chars, 0, true, &mut parts);
    }
    parts
}

/// How many components two paths agree on from the front.
fn agree(a: &Vec<String>, b: &Vec<String>) -> (whole: bool)
    ensures
        whole == b.deep_view().is_prefix_of(a.deep_view()),
{
    if b.len() > a.len() {
        return false;
    }
    let mut i: usize = 0;
    while i < b.len()
        invariant
            i <= b.len() <= a.len(),
            forall|k: int| 0 <= k < i ==> (#[trigger] b.deep_view()[k]) == a.deep_view()[k],
        decreases b.len() - i,
    {
        assert(b.deep_view()[i as int] == b[i as int]@);
        assert(a.deep_view()[i as int] == a[i as int]@);
        if !same(a[i].as_str(), b[i].as_str()) {
            assert(a.deep_view().subrange(0, b.len() as int)[i as int] == a[i as int]@);
            return false;
        }
        i += 1;
    }
    assert(a.deep_view().subrange(0, b.len() as int) == b.deep_view());
    true
}

/// Whether two texts spell the same path.
pub fn are_same_path(a: &str, b: &str) -> (equal: bool)
    ensures
        equal == same_path(a@, b@),
{
    let left = components_of(a);
    let right = components_of(b);
    if left.len() != right.len() {
        return false;
    }
    let whole = agree(&left, &right);
    assert(left.deep_view().subrange(0, left.len() as int) == left.deep_view());
    whole
}

/// Whether `path` is `base` or lies below it.
pub fn is_below(path: &str, base: &str) -> (held: bool)
    ensures
        held == below(path@, base@),
{
    agree(&components_of(path), &components_of(base))
}

/// Adds where the names in `chars[from..]` stand to `found`.
fn push_spans(chars: &Vec<char>, from: usize, opening: bool, found: &mut Vec<(usize, usize)>)
    requires
        from <= chars.len(),
    ensures
        places(final(found)@) == places(old(found)@) + spans_from(
            chars@.skip(from as int),
            from as int,
            opening,
        ),
{
    let ghost before = places(found@);
    let mut at: usize = from;
    let mut first: bool = opening;
    let mut more: bool = true;
    while more
        invariant
            at <= chars.len(),
            from <= chars.len(),
            more ==> places(found@) + spans_from(chars@.skip(at as int), at as int, first)
                == before + spans_from(chars@.skip(from as int), from as int, opening),
            !more ==> places(found@) == before + spans_from(
                chars@.skip(from as int),
                from as int,
                opening,
            ),
        decreases chars.len() - at + (if more { 1int } else { 0 }),
    {
        let ghost rest = chars@.skip(at as int);
        let ghost so_far = places(found@);
        let end = find_char(chars, at, '/');
        let ghost name = rest.take(end - at);
        let ghost tail = if end < chars.len() {
            spans_from(chars@.skip(end + 1), end + 1, false)
        } else {
            Seq::empty()
        };
        assert(end < chars.len() ==> rest.skip(end - at + 1) == chars@.skip(end + 1));
        let dot = end - at == 1 && chars[at] == '.';
        assert(dot == (name == seq!['.'])) by {
            if dot {
                assert(name =~= seq!['.']);
            } else if name == seq!['.'] {
                assert(name[0] == chars@[at as int]);
            }
        }
        if end > at && (first || !dot) {
            found.push((at, end));
            assert(places(found@) =~= so_far.push((at as int, end as int)));
            assert(so_far.push((at as int, end as int)) + tail =~= so_far + (seq![
                (at as int, end as int),
            ] + tail));
        }
        assert(places(found@) + tail =~= so_far + spans_from(rest, at as int, first));
        first = false;
        if end < chars.len() {
            at = end + 1;
        } else {
            at = end;
            more = false;
            assert(places(found@) + tail =~= places(found@));
        }
    }
}

/// Places as contracts see them.
pub open spec fn places(spans: Seq<(usize, usize)>) -> Seq<(int, int)> {
    Seq::new(spans.len(), |i: int| (spans[i].0 as int, spans[i].1 as int))
}

/// Where the components of a path stand among its characters.
fn spans_of(chars: &Vec<char>) -> (found: Vec<(usize, usize)>)
    ensures
        places(found@) == spans(chars@),
{
    let mut found: Vec<(usize, usize)> = Vec::new();
    if chars.len() > 0 && chars[0] == '/' {
        found.push((0, 1));
        assert(places(found@) =~= seq![(0int, 1int)]);
        push_spans(chars, 1, false, &mut found);
    } else {
        assert(places(found@) =~= Seq::<(int, int)>::empty());
        assert(chars@.skip(0) =~= chars@);
        push_spans(chars, 0, true, &mut found);
        assert(places(found@) =~= spans(chars@));
    }
    found
}

/// The path without its last component, as it is spelled.
pub fn parent_of(path: &str) -> (up: Option<String>)
    ensures
        up.deep_view() == parent(path@),
{
    let chars = chars_of(path);
    let found = spans_of(&chars);
    proof {
        lemma_spans(path@);
        lemma_root_is_first(path@);
    }
    if found.len() == 0 || (found.len() == 1 && chars[0] == '/') {
        return None;
    }
    if found.len() == 1 {
        return Some(String::new());
    }
    let last = found[found.len() - 2];
    assert(places(found@)[found.len() - 2] == (last.0 as int, last.1 as int));
    let up = text_of(&chars, 0, last.1);
    assert(up@ =~= up_to(path@, found.len() - 1));
    Some(up)
}

/// The last component of a path, where it is a name.
pub fn name_of(path: &str) -> (name: Option<String>)
    ensures
        name.deep_view() == file_name(path@),
{
    let parts = components_of(path);
    if parts.len() == 0 {
        return None;
    }
    let last = &parts[parts.len() - 1];
    proof {
        reveal_strlit("/");
        reveal_strlit(".");
        reveal_strlit("..");
        assert("/"@ == root_component());
        assert("."@ == seq!['.']);
        assert(".."@ == seq!['.', '.']);
        assert(components(path@).last() == last@);
    }
    if same(last.as_str(), "/") || same(last.as_str(), ".") || same(last.as_str(), "..") {
        None
    } else {
        Some(last.clone())
    }
}

/// Whether a path starts at the root.
pub fn starts_at_root(path: &str) -> (held: bool)
    ensures
        held == is_absolute(path@),
{
    let chars = chars_of(path);
    chars.len() > 0 && chars[0] == '/'
}

/// `base` with `name` put below it.
pub fn join_path(base: &str, name: &str) -> (path: String)
    ensures
        path@ == join(base@, name@),
{
    let chars = chars_of(base);
    if starts_at_root(name) || chars.len() == 0 {
        return owned(name);
    }
    let mut path = owned(base);
    if chars[chars.len() - 1] != '/' {
        path.push('/');
    }
    path.append(name);
    assert(base@.last() != '/' ==> path@ == base@ + seq!['/'] + name@);
    path
}

/// What is left of `path` below `base`, as it is spelled.
pub fn path_below(path: &str, base: &str) -> (rest: Option<String>)
    ensures
        rest.deep_view() == relative_to(path@, base@),
{
    let parts = components_of(path);
    let front = components_of(base);
    if !agree(&parts, &front) {
        return None;
    }
    if front.len() == parts.len() {
        return Some(String::new());
    }
    let chars = chars_of(path);
    let found = spans_of(&chars);
    proof {
        lemma_spans(path@);
    }
    assert(places(found@).len() == found.len());
    let last = found[found.len() - 1];
    assert(places(found@)[found.len() - 1] == (last.0 as int, last.1 as int));
    let mut start: usize = 0;
    if front.len() > 0 {
        start = found[front.len()].0;
        assert(places(found@)[front.len() as int].0 == start);
    }
    let rest = text_of(&chars, start, last.1);
    assert(front.len() == 0 ==> rest@ =~= up_to(path@, found.len() as int));
    Some(rest)
}

/// A path is the names between its slashes: one name alone is one component, a
/// slash in front is the root, and repeated slashes and dots between names count
/// for nothing.
pub proof fn law_components_are_the_names(name: Seq<char>, rest: Seq<char>)
    requires
        name.len() > 0,
        forall|k: int| 0 <= k < name.len() ==> name[k] != '/',
    ensures
        components(Seq::empty()) == Seq::<Seq<char>>::empty(),
        components(name) == seq![name],
        components(seq!['/'] + rest) == seq![seq!['/']] + parts_from(rest, false),
        components(name + seq!['/'] + rest) == seq![name] + parts_from(rest, false),
        parts_from(seq!['/'] + rest, false) == parts_from(rest, false),
        parts_from(seq!['.'] + seq!['/'] + rest, false) == parts_from(rest, false),
        parts_from(seq!['.'], false) == Seq::<Seq<char>>::empty(),
        name != seq!['.'] ==> parts_from(name, false) == seq![name],
        name != seq!['.'] ==> parts_from(name + seq!['/'] + rest, false) == seq![name]
            + parts_from(rest, false),
{
    text::lemma_is_first_index(name, '/', name.len() as int);
    assert(name.take(name.len() as int) =~= name);
    assert(seq![name] + Seq::<Seq<char>>::empty() =~= seq![name]);
    assert((seq!['/'] + rest).skip(1) =~= rest);
    let long = name + seq!['/'] + rest;
    text::lemma_is_first_index(long, '/', name.len() as int);
    assert(long.take(name.len() as int) =~= name);
    assert(long.skip(name.len() + 1int) =~= rest);
    text::lemma_is_first_index(seq!['/'] + rest, '/', 0);
    let dotted = seq!['.'] + seq!['/'] + rest;
    text::lemma_is_first_index(dotted, '/', 1);
    assert(dotted.take(1) =~= seq!['.']);
    assert(dotted.skip(2) =~= rest);
    let dot = seq!['.'];
    text::lemma_is_first_index(dot, '/', 1);
    assert(dot.take(1) =~= seq!['.']);
    assert(!is_absolute(name));
    assert(!is_absolute(long));
}

/// A path is below another exactly where it begins with all its components, not
/// just with its text.
pub proof fn law_below_is_by_components(path: Seq<char>, base: Seq<char>)
    ensures
        below(path, base) <==> components(base).len() <= components(path).len() && forall|i: int|
            0 <= i < components(base).len() ==> components(path)[i] == #[trigger] components(
                base,
            )[i],
        below(path, path),
        same_path(path, base) <==> below(path, base) && below(base, path),
{
    if components(base).len() <= components(path).len() && forall|i: int|
        0 <= i < components(base).len() ==> components(path)[i] == #[trigger] components(base)[i] {
        assert(components(base) =~= components(path).take(components(base).len() as int));
    }
    if below(path, base) && below(base, path) {
        assert(components(path) =~= components(base));
    }
}

/// A joined path keeps the base and adds the name; a name that is a whole path
/// stands for itself.
pub proof fn law_join_goes_below(base: Seq<char>, name: Seq<char>)
    ensures
        is_absolute(name) ==> join(base, name) == name,
        base.len() == 0 ==> join(base, name) == name,
        base.len() > 0 && !is_absolute(name) ==> below(join(base, name), base),
{
    if base.len() > 0 && !is_absolute(name) {
        law_join_adds_the_names(base, name);
        assert(components(base) =~= components(join(base, name)).take(
            components(base).len() as int,
        ));
    }
}

/// A path has a parent unless it is empty or the root, and the parent is the
/// path without its last component; its name is that component, where it is one.
pub proof fn law_parent_and_name_make_the_path(path: Seq<char>)
    ensures
        components(path).len() == 0 ==> parent(path) is None && file_name(path) is None,
        components(path).len() > 0 && components(path).last() == seq!['/'] ==> parent(path) is None
            && file_name(path) is None,
        components(path).len() > 0 && components(path).last() != seq!['/'] ==> {
            &&& parent(path) is Some
            &&& components(parent(path)->0) == components(path).drop_last()
            &&& components(path).last() != seq!['.'] && components(path).last() != seq!['.', '.']
                ==> file_name(path) == Some(components(path).last())
            &&& components(path).last() == seq!['.'] || components(path).last() == seq!['.', '.']
                ==> file_name(path) is None
        },
{
    if parent(path) is Some {
        lemma_parent(path);
    }
}

/// The parts from a name on are those of the text that begins there.
proof fn lemma_parts_behind(s: Seq<char>, at: int, opening: bool, i: int)
    requires
        0 <= i < spans_from(s, at, opening).len(),
    ensures
        ({
            let x = spans_from(s, at, opening)[i].0 - at;
            &&& 0 <= x <= s.len()
            &&& parts_from(s.skip(x), true) == parts_from(s, opening).skip(i)
            &&& spans_from(s.skip(x), at + x, true) == spans_from(s, at, opening).skip(i)
        }),
    decreases s.len(),
{
    lemma_spans_from(s, at, opening);
    text::lemma_first_index(s, '/');
    let end = text::first_index(s, '/') as int;
    let name = s.take(end);
    let kept = !(name.len() == 0 || (name == seq!['.'] && !opening));
    let x = spans_from(s, at, opening)[i].0 - at;
    if kept && i == 0 {
        assert(s.skip(0) =~= s);
        assert(parts_from(s, opening).skip(0) =~= parts_from(s, opening));
        assert(spans_from(s, at, opening).skip(0) =~= spans_from(s, at, opening));
    } else {
        let j = if kept {
            i - 1
        } else {
            i
        };
        assert(end < s.len());
        let rest = s.skip(end + 1);
        let more = spans_from(rest, at + end + 1, false);
        if kept {
            assert(spans_from(s, at, opening) == seq![(at, at + end)] + more);
        } else {
            assert(spans_from(s, at, opening) == more);
        }
        lemma_parts_behind(rest, at + end + 1, false, j);
        let y = more[j].0 - (at + end + 1);
        assert(x == y + end + 1);
        assert(s.skip(x) =~= rest.skip(y));
        assert(parts_from(s, opening).skip(i) =~= parts_from(rest, false).skip(j));
        assert(spans_from(s, at, opening).skip(i) =~= more.skip(j));
    }
}

/// The piece of a text from one name to the last holds exactly those names.
proof fn lemma_parts_between(s: Seq<char>, at: int, opening: bool, i: int)
    requires
        0 <= i < spans_from(s, at, opening).len(),
    ensures
        ({
            let all = spans_from(s, at, opening);
            let piece = s.subrange(all[i].0 - at, all.last().1 - at);
            &&& parts_from(piece, true) == parts_from(s, opening).skip(i)
            &&& !is_absolute(piece)
        }),
{
    let all = spans_from(s, at, opening);
    lemma_spans_from(s, at, opening);
    lemma_parts_behind(s, at, opening, i);
    let x = all[i].0 - at;
    let behind = s.skip(x);
    let last = all.len() - 1 - i;
    assert(all.skip(i)[last] == all.last());
    assert(spans_from(behind, at + x, true)[last] == all.last());
    lemma_spans_from(behind, at + x, true);
    lemma_parts_up_to(behind, at + x, true, last);
    let piece = s.subrange(x, all.last().1 - at);
    assert(behind.take(all.last().1 - (at + x)) =~= piece);
    assert(parts_from(behind, true).take(last + 1) =~= parts_from(behind, true));
    assert(s.subrange(x, all[i].1 - at) == parts_from(s, opening)[i]);
    lemma_parts_are_names(s, opening);
    let name = parts_from(s, opening)[i];
    assert(name.len() > 0);
    assert(name[0] != '/');
    assert(all[i].1 <= all.last().1) by {
        if i < all.len() - 1 {
            assert(all[i].1 < all[all.len() - 1].0);
        }
    }
    assert(piece[0] == s[x]);
    assert(name[0] == s[x]);
}

/// What a path is relative to a base is the path's names behind the base's, and
/// there is such a path exactly where the one is below the other.
pub proof fn law_relative_path_is_the_rest(path: Seq<char>, base: Seq<char>)
    ensures
        relative_to(path, base) is Some <==> below(path, base),
        relative_to(path, base) matches Some(rest) ==> components(rest) == components(path).skip(
            components(base).len() as int,
        ),
        relative_to(path, base) matches Some(rest) && components(base).len() == components(
            path,
        ).len() ==> relative_to(path, base)->0.len() == 0,
{
    if below(path, base) {
        let all = components(path).len() as int;
        let known = components(base).len() as int;
        lemma_spans(path);
        if known == all {
            assert(parts_from(Seq::empty(), true) =~= Seq::<Seq<char>>::empty());
            assert(components(path).skip(all) =~= Seq::<Seq<char>>::empty());
        } else if known == 0 {
            lemma_up_to(path, all);
            assert(components(path).take(all) =~= components(path));
            assert(components(path).skip(0) =~= components(path));
        } else if is_absolute(path) {
            let tail = path.skip(1);
            lemma_spans_from(tail, 1, false);
            lemma_parts_between(tail, 1, false, known - 1);
            let inner = spans_from(tail, 1, false);
            assert(spans(path)[known] == inner[known - 1]);
            assert(spans(path)[all - 1] == inner.last());
            assert(path.subrange(inner[known - 1].0, inner.last().1) =~= tail.subrange(
                inner[known - 1].0 - 1,
                inner.last().1 - 1,
            ));
            assert(components(path).skip(known) =~= parts_from(tail, false).skip(known - 1));
        } else {
            lemma_parts_between(path, 0, true, known);
            assert(spans(path).last() == spans(path)[all - 1]);
        }
    }
}

/// Going down from a base by what a path is relative to it leads to the path.
pub proof fn law_relative_path_leads_back(path: Seq<char>, base: Seq<char>)
    requires
        below(path, base),
        base.len() > 0,
        components(base).len() < components(path).len(),
        components(base).len() > 0,
        components(path)[components(base).len() as int] != seq!['.'],
    ensures
        same_path(join(base, relative_to(path, base)->0), path),
{
    law_relative_path_is_the_rest(path, base);
    let rest = relative_to(path, base)->0;
    let known = components(base).len() as int;
    assert(components(path)[known] != root_component()) by {
        if is_absolute(path) {
            lemma_parts_are_names(path.skip(1), false);
            assert(components(path)[known] == parts_from(path.skip(1), false)[known - 1]);
        } else {
            lemma_parts_are_names(path, true);
        }
        if components(path)[known] == root_component() {
            assert(components(path)[known][0] == '/');
        }
    }
    assert(components(rest)[0] == components(path)[known]);
    assert(!is_absolute(rest)) by {
        if is_absolute(rest) {
            assert(components(rest)[0] == root_component());
        }
    }
    law_join_adds_the_names(base, rest);
    lemma_first_is_no_dot(rest);
    assert(components(base) =~= components(path).take(known));
    assert(components(base) + components(rest) =~= components(path));
}

/// Where the first name is not a dot it does not matter whether a text opens the
/// path.
proof fn lemma_first_is_no_dot(s: Seq<char>)
    requires
        parts_from(s, true).len() > 0,
        parts_from(s, true)[0] != seq!['.'],
    ensures
        parts_from(s, true) == parts_from(s, false),
{
}

} // verus!
