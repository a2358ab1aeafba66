//! Small verified text utilities: characters of a string, substring
//! search, concatenation, and decimal rendering of numbers.

use vstd::prelude::*;
use vstd::string::StringExecFns;

verus! {

/// The characters of `s`, in order.
pub fn to_chars(s: &str) -> (chars: Vec<char>)
    ensures
        chars@ == s@,
{
    let mut chars: Vec<char> = Vec::new();
    let it = s.chars();
    for c in iter: it
        invariant
            iter.seq() == s@,
            chars@ == s@.take(iter.index() as int),
    {
        chars.push(c);
    }
    chars
}

/// The text of an optional string slice.
pub open spec fn text_of(text: Option<&str>) -> Option<Seq<char>> {
    match text {
        Some(t) => Some(t@),
        None => None,
    }
}

/// The text of an optional string.
pub open spec fn string_text(text: Option<String>) -> Option<Seq<char>> {
    match text {
        Some(t) => Some(t@),
        None => None,
    }
}

/// `a` followed by `b`.
pub fn join(a: &str, b: &str) -> (joined: String)
    ensures
        joined@ == a@ + b@,
{
    let mut joined = String::from_str(a);
    joined.append(b);
    joined
}

/// `a`, then `b`, then `c`.
pub fn join3(a: &str, b: &str, c: &str) -> (joined: String)
    ensures
        joined@ == a@ + b@ + c@,
{
    let mut joined = String::from_str(a);
    joined.append(b);
    joined.append(c);
    joined
}

/// Whether two strings hold the same text.
pub fn same_text(a: &str, b: &str) -> (same: bool)
    ensures
        same == (a@ == b@),
{
    String::from_str(a) == String::from_str(b)
}

/// Whether `pattern` stands in `text` at offset `at`.
pub open spec fn occurs_at(text: Seq<char>, pattern: Seq<char>, at: int) -> bool {
    &&& 0 <= at
    &&& at + pattern.len() <= text.len()
    &&& text.subrange(at, at + pattern.len()) == pattern
}

/// Whether `pattern` occurs somewhere in `text` as a contiguous run of
/// characters.
pub open spec fn contains_text(text: Seq<char>, pattern: Seq<char>) -> bool {
    exists|at: int| occurs_at(text, pattern, at)
}

/// Whether `pattern` stands in `text` at offset `at`.
fn matches_at(text: &Vec<char>, pattern: &Vec<char>, at: usize) -> (found: bool)
    requires
        at + pattern.len() <= text.len(),
    ensures
        found == occurs_at(text@, pattern@, at as int),
{
    let mut j: usize = 0;
    while j < pattern.len()
        invariant
            j <= pattern.len(),
            at + pattern.len() <= text.len(),
            forall|k: int| 0 <= k < j ==> text@[at + k] == pattern@[k],
        decreases pattern.len() - j,
    {
        if text[at + j] != pattern[j] {
            return false;
        }
        j += 1;
    }
    assert(text@.subrange(at as int, at + pattern.len()) =~= pattern@);
    true
}

/// Whether `pattern` occurs somewhere in `text`.
pub fn contains_chars(text: &Vec<char>, pattern: &Vec<char>) -> (found: bool)
    ensures
        found == contains_text(text@, pattern@),
{
    if pattern.len() > text.len() {
        return false;
    }
    let last: usize = text.len() - pattern.len();
    let mut at: usize = 0;
    loop
        invariant
            at <= last,
            last == text.len() - pattern.len(),
            pattern.len() <= text.len(),
            forall|k: int| 0 <= k < at ==> !occurs_at(text@, pattern@, k),
        decreases last - at,
    {
        if matches_at(text, pattern, at) {
            return true;
        }
        if at == last {
            return false;
        }
        at += 1;
    }
}

/// Whether the string `pattern` occurs somewhere in the string `text`.
pub fn contains(text: &str, pattern: &str) -> (found: bool)
    ensures
        found == contains_text(text@, pattern@),
{
    let text_chars = to_chars(text);
    let pattern_chars = to_chars(pattern);
    contains_chars(&text_chars, &pattern_chars)
}

/// The parts of `text` between the occurrences of `separator`, in
/// order. A text without the separator is its own single part; a
/// separator at either end, or two in a row, give an empty part.
pub open spec fn split(text: Seq<char>, separator: char) -> Seq<Seq<char>>
    decreases text.len(),
{
    if text.len() == 0 {
        seq![Seq::<char>::empty()]
    } else {
        let before = split(text.drop_last(), separator);
        if text.last() == separator {
            before.push(Seq::<char>::empty())
        } else {
            before.drop_last().push(before.last().push(text.last()))
        }
    }
}

/// A text always has at least one part.
pub proof fn lemma_split_nonempty(text: Seq<char>, separator: char)
    ensures
        split(text, separator).len() >= 1,
    decreases text.len(),
{
    if text.len() > 0 {
        lemma_split_nonempty(text.drop_last(), separator);
    }
}

/// Whether `c` occurs in one of `parts`.
pub open spec fn in_some_part(parts: Seq<Seq<char>>, c: char) -> bool {
    exists|k: int, j: int| 0 <= k < parts.len() && 0 <= j < parts[k].len() && parts[k][j] == c
}

/// Every character of a text is the separator or occurs in one of the
/// text's parts.
pub proof fn lemma_split_covers(text: Seq<char>, separator: char)
    ensures
        forall|i: int|
            0 <= i < text.len() ==> #[trigger] text[i] == separator || in_some_part(
                split(text, separator),
                text[i],
            ),
    decreases text.len(),
{
    if text.len() > 0 {
        let shorter = text.drop_last();
        let before = split(shorter, separator);
        let parts = split(text, separator);
        lemma_split_covers(shorter, separator);
        lemma_split_nonempty(shorter, separator);
        assert forall|i: int| 0 <= i < text.len() && #[trigger] text[i] != separator implies in_some_part(
            parts,
            text[i],
        ) by {
            let last = parts.len() - 1;
            if i < text.len() - 1 {
                let (k, j) = choose|k: int, j: int|
                    0 <= k < before.len() && 0 <= j < before[k].len() && before[k][j] == shorter[i];
                if text.last() == separator {
                    assert(parts[k] == before[k]);
                } else if k < before.len() - 1 {
                    assert(parts[k] == before[k]);
                } else {
                    assert(parts[last][j] == text[i]);
                }
            } else {
                assert(parts[last][parts[last].len() - 1] == text[i]);
            }
        }
    }
}

/// The first part of a text that starts with the separator is empty;
/// the first part of any other text starts with the text's first
/// character. Likewise for the last part and the text's end.
pub proof fn lemma_split_ends(text: Seq<char>, separator: char)
    requires
        text.len() > 0,
    ensures
        split(text, separator).len() >= 1,
        text[0] == separator ==> split(text, separator).len() >= 2 && split(
            text,
            separator,
        )[0].len() == 0,
        text[0] != separator ==> split(text, separator)[0].len() > 0 && split(
            text,
            separator,
        )[0][0] == text[0],
        text.last() == separator ==> split(text, separator).last().len() == 0,
        text.last() != separator ==> split(text, separator).last().len() > 0 && split(
            text,
            separator,
        ).last().last() == text.last(),
    decreases text.len(),
{
    let shorter = text.drop_last();
    lemma_split_nonempty(shorter, separator);
    if shorter.len() > 0 {
        lemma_split_ends(shorter, separator);
    }
}

/// A text without the separator has itself as its only part.
pub proof fn lemma_split_without_separator(text: Seq<char>, separator: char)
    requires
        forall|i: int| 0 <= i < text.len() ==> #[trigger] text[i] != separator,
    ensures
        split(text, separator) == seq![text],
    decreases text.len(),
{
    let parts = split(text, separator);
    if text.len() == 0 {
        assert(parts[0] =~= text);
    } else {
        let shorter = text.drop_last();
        lemma_split_without_separator(shorter, separator);
        assert(parts[0] =~= text);
    }
}

/// The parts of two texts joined by the separator are the parts of
/// the first followed by the parts of the second.
pub proof fn lemma_split_join(a: Seq<char>, b: Seq<char>, separator: char)
    ensures
        split(a.push(separator) + b, separator) == split(a, separator) + split(b, separator),
    decreases b.len(),
{
    let joined = a.push(separator) + b;
    lemma_split_nonempty(a, separator);
    if b.len() == 0 {
        assert(joined.drop_last() =~= a);
    } else {
        let shorter = b.drop_last();
        lemma_split_join(a, shorter, separator);
        lemma_split_nonempty(shorter, separator);
        assert(joined.drop_last() =~= a.push(separator) + shorter);
    }
}

/// The parts of `text` between the occurrences of `separator`.
pub fn split_chars(text: &Vec<char>, separator: char) -> (parts: Vec<Vec<char>>)
    ensures
        parts@.len() == split(text@, separator).len(),
        forall|k: int| 0 <= k < parts@.len() ==> (#[trigger] parts@[k])@ == split(text@, separator)[k],
{
    let mut parts: Vec<Vec<char>> = Vec::new();
    let mut current: Vec<char> = Vec::new();
    let mut i: usize = 0;
    while i < text.len()
        invariant
            i <= text.len(),
            split(text@.take(i as int), separator).len() == parts@.len() + 1,
            forall|k: int|
                0 <= k < parts@.len() ==> (#[trigger] parts@[k])@ == split(
                    text@.take(i as int),
                    separator,
                )[k],
            current@ == split(text@.take(i as int), separator).last(),
        decreases text.len() - i,
    {
        let c = text[i];
        proof {
            let longer = text@.take(i + 1);
            assert(longer.drop_last() =~= text@.take(i as int));
        }
        if c == separator {
            parts.push(current);
            current = Vec::new();
        } else {
            current.push(c);
        }
        i += 1;
    }
    assert(text@.take(i as int) =~= text@);
    parts.push(current);
    parts
}

/// The text of a single decimal digit.
pub open spec fn digit_text(digit: nat) -> Seq<char> {
    if digit == 0 {
        "0"@
    } else if digit == 1 {
        "1"@
    } else if digit == 2 {
        "2"@
    } else if digit == 3 {
        "3"@
    } else if digit == 4 {
        "4"@
    } else if digit == 5 {
        "5"@
    } else if digit == 6 {
        "6"@
    } else if digit == 7 {
        "7"@
    } else if digit == 8 {
        "8"@
    } else {
        "9"@
    }
}

/// The decimal rendering of a number, without leading zeros.
pub open spec fn decimal_text(n: nat) -> Seq<char>
    decreases n,
{
    if n < 10 {
        digit_text(n)
    } else {
        decimal_text(n / 10) + digit_text(n % 10)
    }
}

/// The text of a single decimal digit.
fn digit(d: u64) -> (text: &'static str)
    requires
        d < 10,
    ensures
        text@ == digit_text(d as nat),
{
    if d == 0 {
        "0"
    } else if d == 1 {
        "1"
    } else if d == 2 {
        "2"
    } else if d == 3 {
        "3"
    } else if d == 4 {
        "4"
    } else if d == 5 {
        "5"
    } else if d == 6 {
        "6"
    } else if d == 7 {
        "7"
    } else if d == 8 {
        "8"
    } else {
        "9"
    }
}

/// The decimal rendering of a number, without leading zeros.
pub fn decimal(n: u64) -> (text: String)
    ensures
        text@ == decimal_text(n as nat),
    decreases n,
{
    if n < 10 {
        String::from_str(digit(n))
    } else {
        let mut text = decimal(n / 10);
        text.append(digit(n % 10));
        text
    }
}

} // verus!
