//! Canonical spacing for printed token text.
//!
//! A printed token stream separates neighbouring tokens by one space
//! (`a : i32`, `Vec < String >`, `& mut self`). The rendering used in
//! declaration records keeps the tokens and their order, and drops the spaces
//! that conventional Rust spacing does not write (`a: i32`, `Vec<String>`,
//! `&mut self`). Which spaces go is decided from the two characters next to
//! each space and, for a path separator, the one before those.
//!
//! Nothing is dropped inside a string literal. A string literal runs from a
//! double quote to the next double quote that no backslash precedes; the
//! double quote of the character literal `'"'` opens none. A raw string is
//! read in the same way.

use vstd::prelude::*;
use crate::text::chars_of;

verus! {

/// A character that can be part of an identifier, a keyword or a number.
pub open spec fn is_word(c: char) -> bool {
    ||| 'a' <= c <= 'z'
    ||| 'A' <= c <= 'Z'
    ||| '0' <= c <= '9'
    ||| c == '_'
    ||| c > '\x7f'
}

/// A closing delimiter of a group or of a generic argument list.
pub open spec fn is_closer(c: char) -> bool {
    c == ')' || c == ']' || c == '>'
}

/// A character that is written directly after what precedes it.
pub open spec fn binds_left(c: char) -> bool {
    c == ',' || c == ';' || is_closer(c)
}

/// A character that is written directly before what follows it: an opening
/// delimiter, a prefix operator of a type or pattern, or the start of an
/// attribute.
pub open spec fn binds_right(c: char) -> bool {
    c == '(' || c == '[' || c == '<' || c == '&' || c == '*' || c == '?' || c == '#'
}

/// Where a position of a text lies with respect to its string literals.
#[derive(Debug, Clone, Copy, PartialEq, Eq, Structural)]
pub enum Quoting {
    /// Outside every string literal; an opening quote is read here.
    Outside,
    /// Inside a string literal; its closing quote is read here.
    Inside,
    /// Inside a string literal, directly after a backslash.
    Escaped,
}

/// Whether position `i` of `s` holds a double quote that opens a string
/// literal when it is read outside of one: any double quote but the one of
/// the character literal `'"'`.
pub open spec fn opens_literal(s: Seq<char>, i: int) -> bool {
    &&& 0 <= i < s.len()
    &&& s[i] == '"'
    &&& !(0 < i < s.len() - 1 && s[i - 1] == '\'' && s[i + 1] == '\'')
}

/// Where the position after `i` lies, if position `i` lies at `state`.
pub open spec fn quoting_after(s: Seq<char>, i: int, state: Quoting) -> Quoting {
    match state {
        Quoting::Outside => if opens_literal(s, i) {
            Quoting::Inside
        } else {
            Quoting::Outside
        },
        Quoting::Inside => if s[i] == '"' {
            Quoting::Outside
        } else if s[i] == '\\' {
            Quoting::Escaped
        } else {
            Quoting::Inside
        },
        Quoting::Escaped => Quoting::Inside,
    }
}

/// Where position `i` of `s` lies with respect to the string literals of `s`.
pub open spec fn quoting_at(s: Seq<char>, i: int) -> Quoting
    decreases i,
{
    if i <= 0 {
        Quoting::Outside
    } else {
        quoting_after(s, i - 1, quoting_at(s, i - 1))
    }
}

/// Whether position `i` of `s` holds a space that the rendering drops.
///
/// Only a space outside string literals with a character on both sides can
/// go. It goes
/// - before `,`, `;`, `)`, `]` and `>`;
/// - after `(`, `[`, `<`, `&`, `*`, `?` and `#`;
/// - before `:` when a word or a closing delimiter precedes it;
/// - after the path separator `::`;
/// - between a word and a following `<` or `(`.
pub open spec fn drops_space(s: Seq<char>, i: int) -> bool {
    &&& 0 < i < s.len() - 1
    &&& s[i] == ' '
    &&& quoting_at(s, i) == Quoting::Outside
    &&& {
        let before = s[i - 1];
        let after = s[i + 1];
        ||| binds_left(after)
        ||| binds_right(before)
        ||| after == ':' && (is_word(before) || is_closer(before))
        ||| before == ':' && i >= 2 && s[i - 2] == ':'
        ||| (after == '<' || after == '(') && is_word(before)
    }
}

/// The rendering of the first `n` characters of `s`: those characters in
/// order, without the spaces that `drops_space` names.
pub open spec fn normalized_prefix(s: Seq<char>, n: int) -> Seq<char>
    decreases n,
{
    if n <= 0 {
        Seq::empty()
    } else if drops_space(s, n - 1) {
        normalized_prefix(s, n - 1)
    } else {
        normalized_prefix(s, n - 1).push(s[n - 1])
    }
}

/// The normalized rendering of the token text `s`.
pub open spec fn normalized(s: Seq<char>) -> Seq<char> {
    normalized_prefix(s, s.len() as int)
}

/// The normalized rendering of each text of `texts`, in order.
pub open spec fn normalized_each(texts: Seq<Seq<char>>) -> Seq<Seq<char>> {
    Seq::new(texts.len(), |i: int| normalized(texts[i]))
}

fn word_char(c: char) -> (r: bool)
    ensures
        r == is_word(c),
{
    (c >= 'a' && c <= 'z') || (c >= 'A' && c <= 'Z') || (c >= '0' && c <= '9') || c == '_' || c
        > '\x7f'
}

fn closer_char(c: char) -> (r: bool)
    ensures
        r == is_closer(c),
{
    c == ')' || c == ']' || c == '>'
}

fn next_quoting(chars: &Vec<char>, i: usize, state: Quoting) -> (next: Quoting)
    requires
        i < chars.len(),
    ensures
        next == quoting_after(chars@, i as int, state),
{
    match state {
        Quoting::Outside => {
            let in_char_literal = 0 < i && i + 1 < chars.len() && chars[i - 1] == '\'' && chars[i
                + 1] == '\'';
            if chars[i] == '"' && !in_char_literal {
                Quoting::Inside
            } else {
                Quoting::Outside
            }
        },
        Quoting::Inside => {
            if chars[i] == '"' {
                Quoting::Outside
            } else if chars[i] == '\\' {
                Quoting::Escaped
            } else {
                Quoting::Inside
            }
        },
        Quoting::Escaped => Quoting::Inside,
    }
}

fn space_dropped(chars: &Vec<char>, i: usize, state: Quoting) -> (r: bool)
    requires
        i < chars.len(),
        state == quoting_at(chars@, i as int),
    ensures
        r == drops_space(chars@, i as int),
{
    if i == 0 || i + 1 >= chars.len() || chars[i] != ' ' {
        return false;
    }
    match state {
        Quoting::Outside => {},
        _ => {
            return false;
        },
    }
    let before = chars[i - 1];
    let after = chars[i + 1];
    if after == ',' || after == ';' || closer_char(after) {
        return true;
    }
    if before == '(' || before == '[' || before == '<' || before == '&' || before == '*' || before
        == '?' || before == '#' {
        return true;
    }
    if after == ':' && (word_char(before) || closer_char(before)) {
        return true;
    }
    if before == ':' && i >= 2 && chars[i - 2] == ':' {
        return true;
    }
    (after == '<' || after == '(') && word_char(before)
}

/// Renders printed token text with canonical spacing.
pub fn normalize_tokens(text: &str) -> (rendered: String)
    ensures
        rendered@ == normalized(text@),
{
    let chars = chars_of(text);
    let mut rendered = String::new();
    let mut state = Quoting::Outside;
    let mut i: usize = 0;
    while i < chars.len()
        invariant
            i <= chars.len(),
            chars@ == text@,
            state == quoting_at(chars@, i as int),
            rendered@ == normalized_prefix(chars@, i as int),
        decreases chars.len() - i,
    {
        if !space_dropped(&chars, i, state) {
            rendered.push(chars[i]);
        }
        state = next_quoting(&chars, i, state);
        i = i + 1;
    }
    rendered
}

/// The characters of the first `n` places of `s` that are not spaces, in
/// order.
pub open spec fn unspaced_prefix(s: Seq<char>, n: int) -> Seq<char>
    decreases n,
{
    if n <= 0 {
        Seq::empty()
    } else if s[n - 1] == ' ' {
        unspaced_prefix(s, n - 1)
    } else {
        unspaced_prefix(s, n - 1).push(s[n - 1])
    }
}

/// The characters of `s` that are not spaces, in order.
pub open spec fn unspaced(s: Seq<char>) -> Seq<char> {
    unspaced_prefix(s, s.len() as int)
}

proof fn lemma_normalized_keeps_first(s: Seq<char>, n: int)
    requires
        0 < n <= s.len(),
    ensures
        normalized_prefix(s, n).len() > 0,
        normalized_prefix(s, n)[0] == s[0],
    decreases n,
{
    if n > 1 {
        lemma_normalized_keeps_first(s, n - 1);
    } else {
        assert(normalized_prefix(s, 0) =~= Seq::<char>::empty());
        assert(!drops_space(s, 0));
    }
}

proof fn lemma_unspaced_push(s: Seq<char>, c: char)
    ensures
        unspaced(s.push(c)) == (if c == ' ' {
            unspaced(s)
        } else {
            unspaced(s).push(c)
        }),
{
    let t = s.push(c);
    lemma_unspaced_agrees(t, s, s.len() as int);
}

proof fn lemma_unspaced_agrees(a: Seq<char>, b: Seq<char>, n: int)
    requires
        0 <= n <= a.len(),
        n <= b.len(),
        forall|i: int| 0 <= i < n ==> a[i] == b[i],
    ensures
        unspaced_prefix(a, n) == unspaced_prefix(b, n),
    decreases n,
{
    if n > 0 {
        lemma_unspaced_agrees(a, b, n - 1);
    }
}

proof fn lemma_normalized_prefix_keeps_tokens(s: Seq<char>, n: int)
    requires
        0 <= n <= s.len(),
    ensures
        unspaced(normalized_prefix(s, n)) == unspaced_prefix(s, n),
        normalized_prefix(s, n).len() <= n,
    decreases n,
{
    if n > 0 {
        lemma_normalized_prefix_keeps_tokens(s, n - 1);
        if !drops_space(s, n - 1) {
            lemma_unspaced_push(normalized_prefix(s, n - 1), s[n - 1]);
        }
    }
}

proof fn lemma_normalized_prefix_without_spaces(s: Seq<char>, n: int)
    requires
        0 <= n <= s.len(),
        forall|i: int| 0 <= i < n ==> s[i] != ' ',
    ensures
        normalized_prefix(s, n) == s.take(n),
    decreases n,
{
    if n > 0 {
        lemma_normalized_prefix_without_spaces(s, n - 1);
        assert(s.take(n) == s.take(n - 1).push(s[n - 1]));
    }
}

/// The rendering is faithful to the tokens: it differs from the text in
/// spaces only, and it is never longer.
pub proof fn law_rendering_keeps_tokens(s: Seq<char>)
    ensures
        unspaced(normalized(s)) == unspaced(s),
        normalized(s).len() <= s.len(),
{
    lemma_normalized_prefix_keeps_tokens(s, s.len() as int);
}

/// A text without spaces is its own rendering.
pub proof fn law_text_without_spaces_is_unchanged(s: Seq<char>)
    requires
        forall|i: int| 0 <= i < s.len() ==> s[i] != ' ',
    ensures
        normalized(s) == s,
{
    lemma_normalized_prefix_without_spaces(s, s.len() as int);
    assert(s.take(s.len() as int) =~= s);
}

/// A text that is not empty has a rendering that is not empty and begins
/// with the same character.
pub proof fn law_rendering_is_not_empty(s: Seq<char>)
    requires
        s.len() > 0,
    ensures
        normalized(s).len() > 0,
        normalized(s)[0] == s[0],
{
    lemma_normalized_keeps_first(s, s.len() as int);
}

} // verus!
