//! Character-level helpers shared by the rest of the crate.

use vstd::prelude::*;

verus! {

/// `String::push` appends one character to the end of the string.
pub assume_specification[ String::push ](text: &mut String, ch: char)
    ensures
        final(text)@ == old(text)@.push(ch),
;

/// The characters of `text`, in order.
pub fn chars_of(text: &str) -> (chars: Vec<char>)
    ensures
        chars@ == text@,
{
    let mut chars: Vec<char> = Vec::new();
    for ch in iter: text.chars()
        invariant
            iter.seq() == text@,
            chars@ == text@.take(iter.index() as int),
    {
        chars.push(ch);
    }
    chars
}

/// The string made of the characters `chars[from..to]`.
pub(crate) fn string_of(chars: &Vec<char>, from: usize, to: usize) -> (text: String)
    requires
        from <= to <= chars.len(),
    ensures
        text@ == chars@.subrange(from as int, to as int),
{
    let mut text = String::new();
    let mut at: usize = from;
    while at < to
        invariant
            from <= at <= to <= chars.len(),
            text@ == chars@.subrange(from as int, at as int),
        decreases to - at,
    {
        text.push(chars[at]);
        at = at + 1;
    }
    text
}

/// Whether `pattern` stands in `s` at position `at`.
pub open spec fn occurs_at(s: Seq<char>, pattern: Seq<char>, at: int) -> bool {
    &&& 0 <= at
    &&& at + pattern.len() <= s.len()
    &&& s.subrange(at, at + pattern.len()) == pattern
}

/// Whether `pattern` stands somewhere in `s`.
pub open spec fn occurs_in(s: Seq<char>, pattern: Seq<char>) -> bool {
    exists|at: int| occurs_at(s, pattern, at)
}

/// Whether `s` ends with `suffix`.
pub open spec fn has_suffix(s: Seq<char>, suffix: Seq<char>) -> bool {
    occurs_at(s, suffix, s.len() - suffix.len())
}

fn found_at(chars: &Vec<char>, pattern: &Vec<char>, at: usize) -> (found: bool)
    requires
        at + pattern.len() <= chars.len(),
    ensures
        found == occurs_at(chars@, pattern@, at as int),
{
    let mut k: usize = 0;
    while k < pattern.len()
        invariant
            k <= pattern.len(),
            at + pattern.len() <= chars.len(),
            forall|j: int| 0 <= j < k ==> chars@[at + j] == pattern@[j],
        decreases pattern.len() - k,
    {
        if chars[at + k] != pattern[k] {
            assert(chars@.subrange(at as int, at + pattern.len())[k as int] != pattern@[k as int]);
            return false;
        }
        k = k + 1;
    }
    assert(chars@.subrange(at as int, at + pattern.len()) =~= pattern@);
    true
}

/// Whether `text` ends with `suffix`.
pub fn ends_with(text: &str, suffix: &str) -> (found: bool)
    ensures
        found == has_suffix(text@, suffix@),
{
    let chars = chars_of(text);
    let wanted = chars_of(suffix);
    if wanted.len() > chars.len() {
        return false;
    }
    found_at(&chars, &wanted, chars.len() - wanted.len())
}

/// Whether `pattern` stands somewhere in `text`.
pub fn contains(text: &str, pattern: &str) -> (found: bool)
    ensures
        found == occurs_in(text@, pattern@),
{
    let chars = chars_of(text);
    let wanted = chars_of(pattern);
    if wanted.len() > chars.len() {
        return false;
    }
    let last: usize = chars.len() - wanted.len();
    let mut at: usize = 0;
    while at < last
        invariant
            at <= last,
            last == chars.len() - wanted.len(),
            chars@ == text@,
            wanted@ == pattern@,
            forall|j: int| 0 <= j < at ==> !occurs_at(chars@, wanted@, j),
        decreases last - at,
    {
        if found_at(&chars, &wanted, at) {
            return true;
        }
        at = at + 1;
    }
    found_at(&chars, &wanted, last)
}

/// The texts that a list of strings holds, in order.
pub open spec fn texts(strings: Seq<String>) -> Seq<Seq<char>> {
    Seq::new(strings.len(), |i: int| strings[i]@)
}

/// The first `n` texts of `parts` with `separator` between neighbours.
pub open spec fn joined_prefix(parts: Seq<Seq<char>>, separator: Seq<char>, n: int) -> Seq<char>
    decreases n,
{
    if n <= 0 {
        Seq::empty()
    } else if n == 1 {
        parts[0]
    } else {
        joined_prefix(parts, separator, n - 1) + separator + parts[n - 1]
    }
}

/// The texts of `parts` with `separator` between neighbours.
pub open spec fn joined(parts: Seq<Seq<char>>, separator: Seq<char>) -> Seq<char> {
    joined_prefix(parts, separator, parts.len() as int)
}

/// Joins `parts`, writing `separator` between neighbours.
pub fn join(parts: &Vec<String>, separator: &str) -> (text: String)
    ensures
        text@ == joined(texts(parts@), separator@),
{
    let mut text = String::new();
    let mut i: usize = 0;
    while i < parts.len()
        invariant
            i <= parts.len(),
            text@ == joined_prefix(texts(parts@), separator@, i as int),
        decreases parts.len() - i,
    {
        if i > 0 {
            text.append(separator);
        }
        text.append(parts[i].as_str());
        i = i + 1;
    }
    text
}

} // verus!
