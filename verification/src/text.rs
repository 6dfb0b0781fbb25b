//! Text as a sequence of characters: the few operations on strings that the
//! rest of the library is written with, each stated over `Seq<char>`.

use vstd::prelude::*;
use vstd::string::*;

verus! {

broadcast use vstd::seq::group_seq_axioms;

/// `String::push` adds one character at the end.
pub assume_specification[ std::string::String::push ](s: &mut std::string::String, ch: char)
    ensures
        final(s)@ == old(s)@.push(ch),
;

// ---------------------------------------------------------------------------
// Strings and characters
// ---------------------------------------------------------------------------

/// The characters of `s`, in order.
pub fn chars_of(s: &str) -> (chars: Vec<char>)
    ensures
        chars@ == s@,
{
    let mut chars: Vec<char> = Vec::new();
    for c in it: s.chars()
        invariant
            it.seq() == s@,
            chars@ == s@.take(it.index()),
    {
        chars.push(c);
    }
    assert(s@.take(s@.len() as int) == s@);
    chars
}

/// The text made of `chars[from..to]`.
pub fn text_of(chars: &Vec<char>, from: usize, to: usize) -> (text: String)
    requires
        from <= to <= chars.len(),
    ensures
        text@ == chars@.subrange(from as int, to as int),
{
    let mut text = String::new();
    let mut i: usize = from;
    while i < to
        invariant
            from <= i <= to <= chars.len(),
            text@ == chars@.subrange(from as int, i as int),
        decreases to - i,
    {
        text.push(chars[i]);
        assert(chars@.subrange(from as int, i + 1) == chars@.subrange(from as int, i as int).push(
            chars@[i as int],
        ));
        i += 1;
    }
    text
}

/// A copy of `s` as an owned string.
pub fn owned(s: &str) -> (text: String)
    ensures
        text@ == s@,
{
    s.to_owned()
}

/// `a` followed by `b`.
pub fn join2(a: &str, b: &str) -> (text: String)
    ensures
        text@ == a@ + b@,
{
    let mut text = owned(a);
    text.append(b);
    text
}

/// `a`, `b` and `c`, one after the other.
pub fn join3(a: &str, b: &str, c: &str) -> (text: String)
    ensures
        text@ == a@ + b@ + c@,
{
    let mut text = owned(a);
    text.append(b);
    text.append(c);
    text
}

/// Whether two texts hold the same characters.
pub fn same(a: &str, b: &str) -> (equal: bool)
    ensures
        equal == (a@ == b@),
{
    owned(a) == owned(b)
}

/// Whether `list` holds a text with the characters of `wanted`.
pub fn contains_text(list: &Vec<String>, wanted: &str) -> (found: bool)
    ensures
        found == exists|i: int| 0 <= i < list.len() && (#[trigger] list[i])@ == wanted@,
{
    let mut i: usize = 0;
    while i < list.len()
        invariant
            i <= list.len(),
            forall|k: int| 0 <= k < i ==> (#[trigger] list[k])@ != wanted@,
        decreases list.len() - i,
    {
        if same(list[i].as_str(), wanted) {
            return true;
        }
        i += 1;
    }
    false
}

// ---------------------------------------------------------------------------
// Prefixes and suffixes
// ---------------------------------------------------------------------------

/// Whether `chars` has `part` starting at `at`.
fn holds_at(chars: &Vec<char>, at: usize, part: &Vec<char>) -> (held: bool)
    requires
        at + part.len() <= chars.len(),
    ensures
        held == (chars@.subrange(at as int, at + part.len()) == part@),
{
    let mut i: usize = 0;
    while i < part.len()
        invariant
            i <= part.len(),
            at + part.len() <= chars.len(),
            forall|k: int| 0 <= k < i ==> chars@[at + k] == #[trigger] part@[k],
        decreases part.len() - i,
    {
        if chars[at + i] != part[i] {
            assert(chars@.subrange(at as int, at + part.len())[i as int] != part@[i as int]);
            return false;
        }
        i += 1;
    }
    assert(chars@.subrange(at as int, at + part.len()) == part@);
    true
}

/// Whether `text` begins with `prefix`.
pub fn starts_with(text: &str, prefix: &str) -> (held: bool)
    ensures
        held == prefix@.is_prefix_of(text@),
{
    let chars = chars_of(text);
    let part = chars_of(prefix);
    if part.len() > chars.len() {
        return false;
    }
    holds_at(&chars, 0, &part)
}

/// Whether `text` ends with `suffix`.
pub fn ends_with(text: &str, suffix: &str) -> (held: bool)
    ensures
        held == suffix@.is_suffix_of(text@),
{
    let chars = chars_of(text);
    let part = chars_of(suffix);
    if part.len() > chars.len() {
        return false;
    }
    holds_at(&chars, chars.len() - part.len(), &part)
}

// ---------------------------------------------------------------------------
// White space
// ---------------------------------------------------------------------------

/// The characters with Unicode's `White_Space` property.
pub open spec fn is_white_space(c: char) -> bool {
    ||| '\u{9}' <= c <= '\u{d}'
    ||| c == ' '
    ||| c == '\u{85}'
    ||| c == '\u{a0}'
    ||| c == '\u{1680}'
    ||| '\u{2000}' <= c <= '\u{200a}'
    ||| c == '\u{2028}'
    ||| c == '\u{2029}'
    ||| c == '\u{202f}'
    ||| c == '\u{205f}'
    ||| c == '\u{3000}'
}

/// Whether `c` is white space.
pub fn white_space(c: char) -> (held: bool)
    ensures
        held == is_white_space(c),
{
    ('\u{9}' <= c && c <= '\u{d}') || c == ' ' || c == '\u{85}' || c == '\u{a0}' || c == '\u{1680}'
        || ('\u{2000}' <= c && c <= '\u{200a}') || c == '\u{2028}' || c == '\u{2029}' || c
        == '\u{202f}' || c == '\u{205f}' || c == '\u{3000}'
}

/// `s` without its leading white space.
pub open spec fn trim_start(s: Seq<char>) -> Seq<char>
    decreases s.len(),
{
    if s.len() > 0 && is_white_space(s[0]) {
        trim_start(s.skip(1))
    } else {
        s
    }
}

/// `s` without its trailing white space.
pub open spec fn trim_end(s: Seq<char>) -> Seq<char>
    decreases s.len(),
{
    if s.len() > 0 && is_white_space(s.last()) {
        trim_end(s.drop_last())
    } else {
        s
    }
}

/// `s` without the white space around it.
pub open spec fn trim(s: Seq<char>) -> Seq<char> {
    trim_end(trim_start(s))
}

/// Where `chars[from..to]` begins once its leading white space is gone.
pub fn skip_white_space(chars: &Vec<char>, from: usize, to: usize) -> (start: usize)
    requires
        from <= to <= chars.len(),
    ensures
        from <= start <= to,
        chars@.subrange(start as int, to as int) == trim_start(
            chars@.subrange(from as int, to as int),
        ),
{
    let mut start: usize = from;
    while start < to && white_space(chars[start])
        invariant
            from <= start <= to <= chars.len(),
            trim_start(chars@.subrange(start as int, to as int)) == trim_start(
                chars@.subrange(from as int, to as int),
            ),
        ensures
            from <= start <= to,
            chars@.subrange(start as int, to as int) == trim_start(
                chars@.subrange(from as int, to as int),
            ),
        decreases to - start,
    {
        assert(chars@.subrange(start as int, to as int).skip(1) == chars@.subrange(
            start + 1,
            to as int,
        ));
        start += 1;
    }
    start
}

/// Where `chars[from..to]` ends once its trailing white space is gone.
pub fn drop_white_space(chars: &Vec<char>, from: usize, to: usize) -> (end: usize)
    requires
        from <= to <= chars.len(),
    ensures
        from <= end <= to,
        chars@.subrange(from as int, end as int) == trim_end(
            chars@.subrange(from as int, to as int),
        ),
{
    let mut end: usize = to;
    while end > from && white_space(chars[end - 1])
        invariant
            from <= end <= to <= chars.len(),
            trim_end(chars@.subrange(from as int, end as int)) == trim_end(
                chars@.subrange(from as int, to as int),
            ),
        ensures
            from <= end <= to,
            chars@.subrange(from as int, end as int) == trim_end(
                chars@.subrange(from as int, to as int),
            ),
        decreases end - from,
    {
        assert(chars@.subrange(from as int, end as int).drop_last() == chars@.subrange(
            from as int,
            end - 1,
        ));
        end -= 1;
    }
    end
}

/// `text` without the white space around it.
pub fn trimmed(text: &str) -> (short: String)
    ensures
        short@ == trim(text@),
{
    let chars = chars_of(text);
    let start = skip_white_space(&chars, 0, chars.len());
    let end = drop_white_space(&chars, start, chars.len());
    assert(chars@.subrange(0, chars.len() as int) == chars@);
    text_of(&chars, start, end)
}

// ---------------------------------------------------------------------------
// Lines
// ---------------------------------------------------------------------------

/// Where `c` first stands in `s`, or the length of `s`.
pub open spec fn first_index(s: Seq<char>, c: char) -> nat
    decreases s.len(),
{
    if s.len() == 0 || s[0] == c {
        0
    } else {
        1 + first_index(s.skip(1), c)
    }
}

/// What `first_index` means: everything before it is some other character.
pub proof fn lemma_first_index(s: Seq<char>, c: char)
    ensures
        first_index(s, c) <= s.len(),
        forall|k: int| 0 <= k < first_index(s, c) ==> s[k] != c,
        first_index(s, c) < s.len() ==> s[first_index(s, c) as int] == c,
    decreases s.len(),
{
    if s.len() > 0 && s[0] != c {
        lemma_first_index(s.skip(1), c);
        let rest = first_index(s.skip(1), c);
        assert forall|k: int| 0 <= k < 1 + rest implies s[k] != c by {
            if k > 0 {
                assert(s.skip(1)[k - 1] == s[k]);
            }
        }
    }
}

/// An index with that meaning is the first one.
pub proof fn lemma_is_first_index(s: Seq<char>, c: char, i: int)
    requires
        0 <= i <= s.len(),
        forall|k: int| 0 <= k < i ==> s[k] != c,
        i < s.len() ==> s[i] == c,
    ensures
        first_index(s, c) == i,
{
    lemma_first_index(s, c);
    let f = first_index(s, c) as int;
    if f < i {
        assert(s[f] == c);
    }
}

/// Where `c` first stands in `chars[from..]`, or the length of `chars`.
pub fn find_char(chars: &Vec<char>, from: usize, c: char) -> (at: usize)
    requires
        from <= chars.len(),
    ensures
        from <= at <= chars.len(),
        at == from + first_index(chars@.skip(from as int), c),
        forall|k: int| from <= k < at ==> chars@[k] != c,
        at < chars.len() ==> chars@[at as int] == c,
{
    let mut at: usize = from;
    while at < chars.len() && chars[at] != c
        invariant
            from <= at <= chars.len(),
            forall|k: int| from <= k < at ==> chars@[k] != c,
        decreases chars.len() - at,
    {
        at += 1;
    }
    proof {
        let rest = chars@.skip(from as int);
        assert forall|k: int| 0 <= k < at - from implies rest[k] != c by {
            assert(rest[k] == chars@[from + k]);
        }
        lemma_is_first_index(rest, c, at - from);
    }
    at
}

/// A line that a line feed ended, without the carriage return before it.
pub open spec fn without_carriage_return(line: Seq<char>) -> Seq<char> {
    if line.len() > 0 && line.last() == '\r' {
        line.drop_last()
    } else {
        line
    }
}

/// The lines of `s`: each ends at a line feed, a carriage return before it is
/// part of the ending, and the last line needs no ending.
pub open spec fn lines(s: Seq<char>) -> Seq<Seq<char>>
    decreases s.len(),
{
    let end = first_index(s, '\n') as int;
    if s.len() == 0 {
        Seq::empty()
    } else if end >= s.len() {
        seq![s]
    } else {
        seq![without_carriage_return(s.take(end))] + lines(s.skip(end + 1))
    }
}

/// Splits `text` into its lines.
pub fn lines_of(text: &str) -> (found: Vec<String>)
    ensures
        found.deep_view() == lines(text@),
{
    let chars = chars_of(text);
    let mut found: Vec<String> = Vec::new();
    let mut from: usize = 0;
    assert(chars@.skip(0) == chars@);
    while from < chars.len()
        invariant
            from <= chars.len(),
            found.deep_view() + lines(chars@.skip(from as int)) == lines(chars@),
        decreases chars.len() - from,
    {
        let ghost before = found.deep_view();
        let ghost rest = chars@.skip(from as int);
        let end = find_char(&chars, from, '\n');
        if end == chars.len() {
            let line = text_of(&chars, from, end);
            assert(line@ == rest);
            found.push(line);
            assert(found.deep_view() == before.push(rest));
            from = end;
            assert(chars@.skip(from as int) == Seq::<char>::empty());
            assert(lines(chars@.skip(from as int)) == Seq::<Seq<char>>::empty());
            assert(before.push(rest) == before + seq![rest]);
        } else {
            let ghost raw = rest.take(end - from);
            assert(chars@.subrange(from as int, end as int) == raw);
            let line = if end > from && chars[end - 1] == '\r' {
                text_of(&chars, from, end - 1)
            } else {
                text_of(&chars, from, end)
            };
            assert(line@ == without_carriage_return(raw));
            found.push(line);
            assert(found.deep_view() == before.push(without_carriage_return(raw)));
            from = end + 1;
            assert(chars@.skip(from as int) == rest.skip(
                first_index(rest, '\n') + 1int,
            ));
            assert(before.push(without_carriage_return(raw)) + lines(chars@.skip(from as int))
                == before + (seq![without_carriage_return(raw)] + lines(
                chars@.skip(from as int),
            )));
        }
    }
    assert(chars@.skip(from as int) == Seq::<char>::empty());
    found
}

// ---------------------------------------------------------------------------
// Letter case
// ---------------------------------------------------------------------------

/// `c` with an ASCII capital made small.
pub open spec fn ascii_lower(c: char) -> char {
    if 'A' <= c <= 'Z' {
        (c as u32 + 32) as char
    } else {
        c
    }
}

/// Whether two texts differ at most in the case of their ASCII letters.
pub open spec fn same_ignoring_case(a: Seq<char>, b: Seq<char>) -> bool {
    &&& a.len() == b.len()
    &&& forall|i: int| 0 <= i < a.len() ==> ascii_lower(#[trigger] a[i]) == ascii_lower(b[i])
}

/// `c` with an ASCII capital made small.
pub fn lower_ascii(c: char) -> (low: char)
    ensures
        low == ascii_lower(c),
{
    if 'A' <= c && c <= 'Z' {
        (c as u8 + 32) as char
    } else {
        c
    }
}

/// Whether `chars[from..to]` reads `word`, whatever the case of its letters.
pub fn reads_ignoring_case(chars: &Vec<char>, from: usize, to: usize, word: &str) -> (held: bool)
    requires
        from <= to <= chars.len(),
    ensures
        held == same_ignoring_case(chars@.subrange(from as int, to as int), word@),
{
    let wanted = chars_of(word);
    if wanted.len() != to - from {
        return false;
    }
    let mut i: usize = 0;
    while i < wanted.len()
        invariant
            i <= wanted.len(),
            wanted@ == word@,
            from <= to <= chars.len(),
            wanted.len() == to - from,
            forall|k: int|
                0 <= k < i ==> ascii_lower(#[trigger] chars@.subrange(from as int, to as int)[k])
                    == ascii_lower(wanted@[k]),
        decreases wanted.len() - i,
    {
        assert(chars@.subrange(from as int, to as int)[i as int] == chars@[from + i]);
        if lower_ascii(chars[from + i]) != lower_ascii(wanted[i]) {
            return false;
        }
        i += 1;
    }
    true
}


// ---------------------------------------------------------------------------
// Numbers
// ---------------------------------------------------------------------------

/// Whether `c` is one of the ten ASCII digits.
pub open spec fn is_digit(c: char) -> bool {
    '0' <= c <= '9'
}

/// Whether every character of `s` is a digit.
pub open spec fn all_digits(s: Seq<char>) -> bool {
    forall|i: int| 0 <= i < s.len() ==> is_digit(#[trigger] s[i])
}

/// The digit that stands for `d`.
pub open spec fn digit(d: nat) -> char {
    ('0' as u32 + d) as char
}

/// `n` in decimal, without leading zeros.
pub open spec fn decimal(n: nat) -> Seq<char>
    decreases n,
{
    if n < 10 {
        seq![digit(n)]
    } else {
        decimal(n / 10).push(digit(n % 10))
    }
}

/// The number that a row of digits writes in decimal.
pub open spec fn digits_value(s: Seq<char>) -> nat
    decreases s.len(),
{
    if s.len() == 0 {
        0
    } else {
        digits_value(s.drop_last()) * 10 + (s.last() as nat - '0' as nat) as nat
    }
}

/// What a row of digits that is at most `max` reads as.
pub open spec fn number_in(s: Seq<char>, max: nat) -> Option<nat> {
    if s.len() > 0 && all_digits(s) && digits_value(s) <= max {
        Some(digits_value(s))
    } else {
        None
    }
}

/// Decimal notation read back gives the number it was written for.
pub proof fn lemma_decimal(n: nat)
    ensures
        decimal(n).len() > 0,
        all_digits(decimal(n)),
        digits_value(decimal(n)) == n,
    decreases n,
{
    if n < 10 {
        assert(decimal(n).drop_last() == Seq::<char>::empty());
        assert(digits_value(Seq::<char>::empty()) == 0);
    } else {
        lemma_decimal(n / 10);
        assert(decimal(n).drop_last() == decimal(n / 10));
        assert forall|i: int| 0 <= i < decimal(n).len() implies is_digit(
            #[trigger] decimal(n)[i],
        ) by {
            if i < decimal(n / 10).len() {
                assert(decimal(n)[i] == decimal(n / 10)[i]);
            }
        }
    }
}

/// A longer row of digits writes a number at least as large.
proof fn lemma_digits_grow(s: Seq<char>, i: int)
    requires
        0 <= i <= s.len(),
        all_digits(s),
    ensures
        digits_value(s.take(i)) <= digits_value(s),
    decreases s.len(),
{
    if i == s.len() {
        assert(s.take(i) == s);
    } else {
        let shorter = s.drop_last();
        assert forall|k: int| 0 <= k < shorter.len() implies is_digit(#[trigger] shorter[k]) by {
            assert(shorter[k] == s[k]);
        }
        lemma_digits_grow(shorter, i);
        assert(shorter.take(i) == s.take(i));
        assert(is_digit(s[s.len() - 1]));
    }
}

/// `n` in decimal.
pub fn decimal_text(n: u64) -> (text: String)
    ensures
        text@ == decimal(n as nat),
    decreases n,
{
    let last: u8 = (n % 10) as u8;
    let mut text = if n < 10 {
        String::new()
    } else {
        decimal_text(n / 10)
    };
    text.push(('0' as u8 + last) as char);
    assert(n < 10 ==> text@ == decimal(n as nat));
    text
}

/// Reads `chars[from..to]` as a decimal number of at most `max`.
pub fn number_of(chars: &Vec<char>, from: usize, to: usize, max: u64) -> (number: Option<u64>)
    requires
        from <= to <= chars.len(),
    ensures
        number is Some == number_in(chars@.subrange(from as int, to as int), max as nat) is Some,
        number is Some ==> number->0 == number_in(
            chars@.subrange(from as int, to as int),
            max as nat,
        )->0,
{
    let ghost part = chars@.subrange(from as int, to as int);
    if from == to {
        return None;
    }
    let mut value: u64 = 0;
    let mut i: usize = from;
    while i < to
        invariant
            from <= i <= to <= chars.len(),
            part == chars@.subrange(from as int, to as int),
            forall|k: int| 0 <= k < i - from ==> is_digit(#[trigger] part[k]),
            value == digits_value(part.take(i - from)),
            value <= max,
        decreases to - i,
    {
        let c = chars[i];
        assert(part[i - from] == c);
        if c < '0' || c > '9' {
            assert(!is_digit(part[i - from]));
            return None;
        }
        let d: u64 = c as u64 - '0' as u64;
        assert(part.take(i - from + 1).drop_last() == part.take(i - from));
        assert(digits_value(part.take(i - from + 1)) == value * 10 + d);
        if value > (u64::MAX - d) / 10 || value * 10 + d > max {
            proof {
                if all_digits(part) {
                    lemma_digits_grow(part, i - from + 1);
                }
            }
            return None;
        }
        value = value * 10 + d;
        i += 1;
    }
    assert(part.take(to - from) == part);
    Some(value)
}

/// Reads a number as `str::parse` does for an unsigned type: one leading `+`
/// is passed over, and what is left is decimal digits.
pub open spec fn parsed_number(s: Seq<char>, max: nat) -> Option<nat> {
    if s.len() > 0 && s[0] == '+' {
        number_in(s.skip(1), max)
    } else {
        number_in(s, max)
    }
}

/// Reads `chars[from..to]` as an unsigned number of at most `max`, one leading
/// `+` allowed.
pub fn parse_number(chars: &Vec<char>, from: usize, to: usize, max: u64) -> (number: Option<u64>)
    requires
        from <= to <= chars.len(),
    ensures
        number is Some == parsed_number(
            chars@.subrange(from as int, to as int),
            max as nat,
        ) is Some,
        number is Some ==> number->0 == parsed_number(
            chars@.subrange(from as int, to as int),
            max as nat,
        )->0,
{
    if from < to && chars[from] == '+' {
        assert(chars@.subrange(from as int, to as int).skip(1) == chars@.subrange(
            from + 1,
            to as int,
        ));
        number_of(chars, from + 1, to, max)
    } else {
        number_of(chars, from, to, max)
    }
}

// ---------------------------------------------------------------------------
// Order
// ---------------------------------------------------------------------------

/// Whether `a` comes before `b` in the order of their code points, which is
/// the order of their bytes.
pub open spec fn comes_before(a: Seq<char>, b: Seq<char>) -> bool
    decreases b.len(),
{
    if b.len() == 0 {
        false
    } else if a.len() == 0 {
        true
    } else if a[0] == b[0] {
        comes_before(a.skip(1), b.skip(1))
    } else {
        a[0] < b[0]
    }
}

/// Whether `a` comes before `b`.
pub fn text_before(a: &str, b: &str) -> (before: bool)
    ensures
        before == comes_before(a@, b@),
{
    let left = chars_of(a);
    let right = chars_of(b);
    let mut i: usize = 0;
    assert(left@.skip(0) == left@ && right@.skip(0) == right@);
    while i < left.len() && i < right.len() && left[i] == right[i]
        invariant
            i <= left.len(),
            i <= right.len(),
            comes_before(left@.skip(i as int), right@.skip(i as int)) == comes_before(a@, b@),
        decreases left.len() - i,
    {
        assert(left@.skip(i as int).skip(1) == left@.skip(i + 1));
        assert(right@.skip(i as int).skip(1) == right@.skip(i + 1));
        i += 1;
    }
    if i == right.len() {
        false
    } else if i == left.len() {
        true
    } else {
        assert(left@.skip(i as int)[0] == left@[i as int]);
        assert(right@.skip(i as int)[0] == right@[i as int]);
        left[i] < right[i]
    }
}

/// The order of texts is irreflexive, transitive, and decides between any two
/// different texts.
pub proof fn lemma_text_order(a: Seq<char>, b: Seq<char>, c: Seq<char>)
    ensures
        !comes_before(a, a),
        comes_before(a, b) && comes_before(b, c) ==> comes_before(a, c),
        comes_before(a, b) || comes_before(b, a) || a == b,
        !(comes_before(a, b) && comes_before(b, a)),
    decreases a.len() + b.len() + c.len(),
{
    if a.len() > 0 && b.len() > 0 && c.len() > 0 {
        lemma_text_order(a.skip(1), b.skip(1), c.skip(1));
        assert(a =~= seq![a[0]] + a.skip(1));
        assert(b =~= seq![b[0]] + b.skip(1));
    } else if a.len() > 0 && b.len() > 0 {
        lemma_text_order(a.skip(1), b.skip(1), c);
        assert(a =~= seq![a[0]] + a.skip(1));
        assert(b =~= seq![b[0]] + b.skip(1));
    } else if a.len() > 0 {
        lemma_text_order(a.skip(1), b, c);
    } else {
        assert(b.len() == 0 ==> a =~= b);
    }
}


// ---------------------------------------------------------------------------
// Rows of texts, padding, capitals
// ---------------------------------------------------------------------------

/// The parts with `separator` between each two.
pub open spec fn separated(parts: Seq<Seq<char>>, separator: Seq<char>) -> Seq<char>
    decreases parts.len(),
{
    if parts.len() == 0 {
        Seq::empty()
    } else if parts.len() == 1 {
        parts[0]
    } else {
        separated(parts.drop_last(), separator) + separator + parts.last()
    }
}

/// The parts with `separator` between each two.
pub fn join_with(parts: &Vec<String>, separator: &str) -> (text: String)
    ensures
        text@ == separated(parts.deep_view(), separator@),
{
    let mut text = String::new();
    let mut i: usize = 0;
    assert(parts.deep_view().take(0) == Seq::<Seq<char>>::empty());
    while i < parts.len()
        invariant
            i <= parts.len(),
            text@ == separated(parts.deep_view().take(i as int), separator@),
        decreases parts.len() - i,
    {
        let ghost next = parts.deep_view().take(i + 1);
        assert(next.drop_last() == parts.deep_view().take(i as int));
        assert(next.last() == parts[i as int]@);
        if i > 0 {
            text.append(separator);
        }
        text.append(parts[i].as_str());
        assert(i == 0 ==> next == seq![parts[0]@]);
        assert(text@ == separated(next, separator@));
        i += 1;
    }
    assert(parts.deep_view().take(i as int) == parts.deep_view());
    text
}

/// `n` spaces.
pub open spec fn spaces(n: nat) -> Seq<char> {
    Seq::new(n, |i: int| ' ')
}

/// `s` filled up with spaces to at least `width` characters.
pub open spec fn padded(s: Seq<char>, width: nat) -> Seq<char> {
    if s.len() < width {
        s + spaces((width - s.len()) as nat)
    } else {
        s
    }
}

/// `s` filled up with spaces to at least `width` characters.
pub fn pad_right(s: &str, width: usize) -> (text: String)
    ensures
        text@ == padded(s@, width as nat),
{
    let mut text = owned(s);
    let mut len: usize = s.unicode_len();
    let ghost start = len as nat;
    while len < width
        invariant
            start == s@.len(),
            len >= start,
            start < width ==> len <= width,
            start >= width ==> len == start,
            text@ == s@ + spaces((len - start) as nat),
        decreases width - len,
    {
        let ghost before = (len - start) as nat;
        text.push(' ');
        assert(spaces(before + 1) == spaces(before).push(' '));
        len += 1;
    }
    assert(spaces(0) == Seq::<char>::empty());
    text
}

/// `part` written `n` times.
pub open spec fn repeated(part: Seq<char>, n: nat) -> Seq<char>
    decreases n,
{
    if n == 0 {
        Seq::empty()
    } else {
        repeated(part, (n - 1) as nat) + part
    }
}

/// `part` written `n` times.
pub fn repeat(part: &str, n: usize) -> (text: String)
    ensures
        text@ == repeated(part@, n as nat),
{
    let mut text = String::new();
    let mut i: usize = 0;
    while i < n
        invariant
            i <= n,
            text@ == repeated(part@, i as nat),
        decreases n - i,
    {
        text.append(part);
        i += 1;
    }
    text
}

/// `c` with an ASCII small letter made capital.
pub open spec fn ascii_upper(c: char) -> char {
    if 'a' <= c <= 'z' {
        (c as u32 - 32) as char
    } else {
        c
    }
}

/// Whether every character is ASCII.
pub open spec fn all_ascii(s: Seq<char>) -> bool {
    forall|i: int| 0 <= i < s.len() ==> (#[trigger] s[i]) < '\u{80}'
}

/// What `str::to_uppercase` returns for a text.
pub uninterp spec fn uppercase(s: Seq<char>) -> Seq<char>;

/// Calls `str::to_uppercase`, which maps a text to its Unicode upper case. Of
/// the mapping itself only the ASCII part is stated: in a text of ASCII
/// characters each small letter becomes its capital and the rest stays.
#[verifier::external_body]
pub(crate) fn to_uppercase(s: &str) -> (upper: String)
    ensures
        upper@ == uppercase(s@),
        all_ascii(s@) ==> upper@ == s@.map_values(|c: char| ascii_upper(c)),
{
    s.to_uppercase()
}

/// Whether `char::is_alphanumeric` holds of a character.
pub uninterp spec fn is_alphanumeric(c: char) -> bool;

/// Calls `char::is_alphanumeric`: whether a character is a letter or a number
/// by Unicode's tables. Of the tables only the ASCII part is stated.
#[verifier::external_body]
pub(crate) fn alphanumeric(c: char) -> (held: bool)
    ensures
        held == is_alphanumeric(c),
        c < '\u{80}' ==> held == ('0' <= c <= '9' || 'A' <= c <= 'Z' || 'a' <= c <= 'z'),
{
    c.is_alphanumeric()
}

/// Trimming the front takes the white space there and nothing else.
pub proof fn law_front_is_trimmed(s: Seq<char>)
    ensures
        trim_start(s).len() <= s.len(),
        trim_start(s) == s.skip(s.len() - trim_start(s).len()),
        trim_start(s).len() > 0 ==> !is_white_space(trim_start(s)[0]),
        forall|k: int|
            0 <= k < s.len() - trim_start(s).len() ==> is_white_space(#[trigger] s[k]),
    decreases s.len(),
{
    if s.len() > 0 && is_white_space(s[0]) {
        let rest = s.skip(1);
        law_front_is_trimmed(rest);
        assert(rest.skip(rest.len() - trim_start(rest).len()) =~= s.skip(
            s.len() - trim_start(rest).len(),
        ));
        assert forall|k: int| 0 <= k < s.len() - trim_start(s).len() implies is_white_space(
            #[trigger] s[k],
        ) by {
            if k > 0 {
                assert(s[k] == rest[k - 1]);
            }
        }
    } else {
        assert(s.skip(0) =~= s);
    }
}

/// Trimming the end takes the white space there and nothing else.
pub proof fn law_end_is_trimmed(s: Seq<char>)
    ensures
        trim_end(s).len() <= s.len(),
        trim_end(s) == s.take(trim_end(s).len() as int),
        trim_end(s).len() > 0 ==> !is_white_space(trim_end(s).last()),
        forall|k: int| trim_end(s).len() <= k < s.len() ==> is_white_space(#[trigger] s[k]),
    decreases s.len(),
{
    if s.len() > 0 && is_white_space(s.last()) {
        let before = s.drop_last();
        law_end_is_trimmed(before);
        assert(before.take(trim_end(before).len() as int) =~= s.take(
            trim_end(before).len() as int,
        ));
        assert forall|k: int| trim_end(s).len() <= k < s.len() implies is_white_space(
            #[trigger] s[k],
        ) by {
            if k < s.len() - 1 {
                assert(s[k] == before[k]);
            }
        }
    } else {
        assert(s.take(s.len() as int) =~= s);
    }
}

/// What is left of a trimmed text is one piece of it without white space at
/// either end, and nothing but white space was around it.
pub proof fn law_both_ends_are_trimmed(s: Seq<char>)
    ensures
        trim(s).len() > 0 ==> !is_white_space(trim(s)[0]) && !is_white_space(trim(s).last()),
        exists|from: int, to: int|
            0 <= from <= to <= s.len() && #[trigger] s.subrange(from, to) == trim(s) && (forall|
                k: int,
            |
                0 <= k < from || to <= k < s.len() ==> is_white_space(#[trigger] s[k])),
{
    let front = trim_start(s);
    law_front_is_trimmed(s);
    law_end_is_trimmed(front);
    let from = s.len() - front.len();
    let to = from + trim(s).len();
    assert(s.subrange(from, to) =~= trim(s));
    assert forall|k: int| 0 <= k < from || to <= k < s.len() implies is_white_space(
        #[trigger] s[k],
    ) by {
        if to <= k {
            assert(s[k] == front[k - from]);
        }
    }
    if trim(s).len() > 0 {
        assert(trim(s)[0] == front[0]);
    }
}

/// A text is split behind each line break: the line in front of the first one is
/// a line, without the carriage return at its end, and the rest is split in its
/// turn. A line break at the very end begins no further line.
pub proof fn law_lines_end_at_breaks(line: Seq<char>, rest: Seq<char>)
    requires
        forall|k: int| 0 <= k < line.len() ==> line[k] != '\n',
    ensures
        lines(line + seq!['\n'] + rest) == seq![without_carriage_return(line)] + lines(rest),
        line.len() > 0 ==> lines(line) == seq![line],
        lines(Seq::empty()) == Seq::<Seq<char>>::empty(),
        without_carriage_return(line + seq!['\r']) == line,
        line.len() == 0 || line.last() != '\r' ==> without_carriage_return(line) == line,
{
    let whole = line + seq!['\n'] + rest;
    lemma_is_first_index(whole, '\n', line.len() as int);
    assert(whole.take(line.len() as int) =~= line);
    assert(whole.skip(line.len() + 1int) =~= rest);
    lemma_is_first_index(line, '\n', line.len() as int);
    assert((line + seq!['\r']).drop_last() =~= line);
}

/// A capital letter's small one is as far behind a as it is behind A, and the
/// other way round; every other character is its own.
pub proof fn law_letters_change_case(c: char)
    ensures
        'A' <= c <= 'Z' ==> ascii_lower(c) as int - 'a' as int == c as int - 'A' as int,
        !('A' <= c <= 'Z') ==> ascii_lower(c) == c,
        'a' <= c <= 'z' ==> ascii_upper(c) as int - 'A' as int == c as int - 'a' as int,
        !('a' <= c <= 'z') ==> ascii_upper(c) == c,
{
}

/// Two texts are the same but for case where their letters are, and only there.
pub proof fn law_case_is_ignored(a: Seq<char>, b: Seq<char>, i: int)
    ensures
        same_ignoring_case(a, a),
        same_ignoring_case(a, b) == same_ignoring_case(b, a),
        a.len() != b.len() ==> !same_ignoring_case(a, b),
        same_ignoring_case(a, a.map_values(|c: char| ascii_lower(c))),
        a.len() == b.len() && 0 <= i < a.len() && ascii_lower(a[i]) != ascii_lower(b[i])
            ==> !same_ignoring_case(a, b),
{
    if same_ignoring_case(a, b) {
        assert(same_ignoring_case(b, a));
    }
    if same_ignoring_case(b, a) {
        assert(same_ignoring_case(a, b));
    }
    let small = a.map_values(|c: char| ascii_lower(c));
    assert forall|k: int| 0 <= k < a.len() implies ascii_lower(#[trigger] a[k]) == ascii_lower(
        small[k],
    ) by {}
}

/// A number is written in digits that read back as it, and each digit counts ten
/// times what stands behind it.
pub proof fn law_numbers_read_back(n: nat, max: nat, s: Seq<char>, c: char)
    ensures
        n <= max ==> number_in(decimal(n), max) == Some(n),
        n > max ==> number_in(decimal(n), max) is None,
        digits_value(Seq::empty()) == 0,
        '0' <= c <= '9' ==> digits_value(s.push(c)) == digits_value(s) * 10 + (c as int
            - '0' as int),
        number_in(Seq::empty(), max) is None,
        s.contains(c) && !('0' <= c <= '9') ==> number_in(s, max) is None,
        parsed_number(seq!['+'] + s, max) == number_in(s, max),
        s.len() == 0 || s[0] != '+' ==> parsed_number(s, max) == number_in(s, max),
{
    lemma_decimal(n);
    assert(s.push(c).drop_last() =~= s);
    assert((seq!['+'] + s).skip(1) =~= s);
    if s.contains(c) && !('0' <= c <= '9') {
        let k = choose|k: int| 0 <= k < s.len() && s[k] == c;
        assert(!is_digit(s[k]));
    }
}

/// One text comes before another where, at the first place at which they differ,
/// it has the smaller character, or where it ends there.
pub proof fn law_first_difference_orders(a: Seq<char>, b: Seq<char>, k: int)
    requires
        0 <= k <= a.len(),
        k < b.len(),
        forall|j: int| 0 <= j < k ==> a[j] == b[j],
    ensures
        k == a.len() ==> comes_before(a, b) && !comes_before(b, a),
        k < a.len() && a[k] < b[k] ==> comes_before(a, b) && !comes_before(b, a),
    decreases k,
{
    if k > 0 {
        assert(a[0] == b[0]);
        assert forall|j: int| 0 <= j < k - 1 implies a.skip(1)[j] == b.skip(1)[j] by {
            assert(a.skip(1)[j] == a[j + 1]);
            assert(b.skip(1)[j] == b[j + 1]);
        }
        law_first_difference_orders(a.skip(1), b.skip(1), k - 1);
    }
}

/// Parts that are put together have the separator between any two of them and
/// nowhere else.
pub proof fn law_separator_stands_between(
    a: Seq<Seq<char>>,
    b: Seq<Seq<char>>,
    part: Seq<char>,
    separator: Seq<char>,
)
    requires
        a.len() > 0,
        b.len() > 0,
    ensures
        separated(Seq::empty(), separator) == Seq::<char>::empty(),
        separated(seq![part], separator) == part,
        separated(a + b, separator) == separated(a, separator) + separator + separated(
            b,
            separator,
        ),
    decreases b.len(),
{
    let whole = a + b;
    if b.len() == 1 {
        assert(whole.drop_last() =~= a);
        assert(whole.last() == b[0]);
    } else {
        assert(whole.drop_last() =~= a + b.drop_last());
        law_separator_stands_between(a, b.drop_last(), part, separator);
        assert(separated(whole, separator) =~= separated(a, separator) + separator + separated(
            b,
            separator,
        ));
    }
}

/// A padded text begins with the text, ends in spaces and is as wide as asked;
/// one that is wide enough is left alone.
pub proof fn law_padding_fills_with_spaces(s: Seq<char>, width: nat, k: int)
    ensures
        s.len() >= width ==> padded(s, width) == s,
        s.len() < width ==> padded(s, width).len() == width,
        s.len() < width ==> padded(s, width).take(s.len() as int) == s,
        s.len() <= k < width ==> padded(s, width)[k] == ' ',
{
    if s.len() < width {
        assert(padded(s, width).take(s.len() as int) =~= s);
    }
}

/// A part is repeated as many times as asked.
pub proof fn law_repeats_add_up(part: Seq<char>, m: nat, n: nat)
    ensures
        repeated(part, 0) == Seq::<char>::empty(),
        repeated(part, 1) == part,
        repeated(part, m + n) == repeated(part, m) + repeated(part, n),
        repeated(part, n).len() == n * part.len(),
    decreases n,
{
    reveal_with_fuel(repeated, 2);
    assert(repeated(part, 0) + part =~= part);
    if n > 0 {
        law_repeats_add_up(part, m, (n - 1) as nat);
        assert(repeated(part, m + n) =~= repeated(part, m) + repeated(part, n));
        assert(n * part.len() == (n - 1) * part.len() + part.len()) by (nonlinear_arith)
            requires
                n > 0,
        ;
    } else {
        assert(repeated(part, m) + repeated(part, 0) =~= repeated(part, m));
        assert(0 * part.len() == 0) by (nonlinear_arith);
    }
}

} // verus!
