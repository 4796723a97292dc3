//! Braced payloads in the printed tokens of a macro invocation.
//!
//! The declaration visitor never looks inside a macro invocation. These
//! helpers are for callers that want to inspect its tokens themselves.

use vstd::prelude::*;
use crate::text::{chars_of, string_of};

verus! {

/// The first index at or after `from` at which `s` holds `c`.
pub open spec fn first_index_from(s: Seq<char>, c: char, from: int) -> Option<int>
    decreases s.len() - from,
{
    if from < 0 || from >= s.len() {
        None
    } else if s[from] == c {
        Some(from)
    } else {
        first_index_from(s, c, from + 1)
    }
}

/// The last index below `upto` at which `s` holds `c`.
pub open spec fn last_index_upto(s: Seq<char>, c: char, upto: int) -> Option<int>
    decreases upto,
{
    if upto <= 0 || upto > s.len() {
        None
    } else if s[upto - 1] == c {
        Some(upto - 1)
    } else {
        last_index_upto(s, c, upto - 1)
    }
}

/// The first index at which `s` holds `c`.
pub open spec fn first_index(s: Seq<char>, c: char) -> Option<int> {
    first_index_from(s, c, 0)
}

/// The last index at which `s` holds `c`.
pub open spec fn last_index(s: Seq<char>, c: char) -> Option<int> {
    last_index_upto(s, c, s.len() as int)
}

/// The text from the first `{` of `s` through its last `}`. There is none
/// where `s` lacks either brace, or where its last `}` ends more than one
/// place before its first `{`; where the last `}` stands directly before the
/// first `{`, it is the empty text.
pub open spec fn braced_payload(s: Seq<char>) -> Option<Seq<char>> {
    match (first_index(s, '{'), last_index(s, '}')) {
        (Some(open), Some(close)) => if open <= close + 1 {
            Some(s.subrange(open, close + 1))
        } else {
            None
        },
        _ => None,
    }
}

/// What `first_index_from` finds is the first occurrence at or after `from`,
/// and it finds nothing only where there is none.
pub proof fn lemma_first_index_from(s: Seq<char>, c: char, from: int)
    requires
        0 <= from <= s.len(),
    ensures
        match first_index_from(s, c, from) {
            Some(i) => from <= i < s.len() && s[i] == c && forall|j: int|
                from <= j < i ==> s[j] != c,
            None => forall|j: int| from <= j < s.len() ==> s[j] != c,
        },
    decreases s.len() - from,
{
    if from < s.len() && s[from] != c {
        lemma_first_index_from(s, c, from + 1);
    }
}

/// What `last_index_upto` finds is the last occurrence below `upto`, and it
/// finds nothing only where there is none.
pub proof fn lemma_last_index_upto(s: Seq<char>, c: char, upto: int)
    requires
        0 <= upto <= s.len(),
    ensures
        match last_index_upto(s, c, upto) {
            Some(i) => 0 <= i < upto && s[i] == c && forall|j: int| i < j < upto ==> s[j] != c,
            None => forall|j: int| 0 <= j < upto ==> s[j] != c,
        },
    decreases upto,
{
    if upto > 0 && s[upto - 1] != c {
        lemma_last_index_upto(s, c, upto - 1);
    }
}

fn find_first(chars: &Vec<char>, c: char) -> (found: Option<usize>)
    ensures
        match found {
            Some(i) => first_index(chars@, c) == Some(i as int) && i < chars.len(),
            None => first_index(chars@, c) is None,
        },
{
    let mut i: usize = 0;
    while i < chars.len()
        invariant
            i <= chars.len(),
            first_index(chars@, c) == first_index_from(chars@, c, i as int),
        decreases chars.len() - i,
    {
        if chars[i] == c {
            return Some(i);
        }
        i = i + 1;
    }
    None
}

fn find_last(chars: &Vec<char>, c: char) -> (found: Option<usize>)
    ensures
        match found {
            Some(i) => last_index(chars@, c) == Some(i as int) && i < chars.len(),
            None => last_index(chars@, c) is None,
        },
{
    let mut upto: usize = chars.len();
    while upto > 0
        invariant
            upto <= chars.len(),
            last_index(chars@, c) == last_index_upto(chars@, c, upto as int),
        decreases upto,
    {
        if chars[upto - 1] == c {
            return Some(upto - 1);
        }
        upto = upto - 1;
    }
    None
}

/// Cuts the braced payload out of the printed tokens of a macro invocation.
pub fn extract_json_from_macro_tokens(macro_tokens: &str) -> (payload: Option<String>)
    ensures
        match payload {
            Some(text) => braced_payload(macro_tokens@) == Some(text@),
            None => braced_payload(macro_tokens@) is None,
        },
{
    let chars = chars_of(macro_tokens);
    let json_start = find_first(&chars, '{')?;
    let json_end = find_last(&chars, '}')?;
    if json_start <= json_end + 1 {
        Some(string_of(&chars, json_start, json_end + 1))
    } else {
        None
    }
}

/// Whether `content` holds an opening and a closing brace.
pub fn is_valid_json(content: &str) -> (valid: bool)
    ensures
        valid == (content@.contains('{') && content@.contains('}')),
{
    let chars = chars_of(content);
    proof {
        lemma_first_index_from(chars@, '{', 0);
        lemma_first_index_from(chars@, '}', 0);
    }
    find_first(&chars, '{').is_some() && find_first(&chars, '}').is_some()
}

} // verus!
