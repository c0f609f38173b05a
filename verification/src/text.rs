//! Character scanning over text: finding a delimiter and extracting the
//! first line of a buffer, as a connection handler needs before parsing.

use vstd::prelude::*;

verus! {

/// Index of the first occurrence of `c` in `s`, if any.
pub open spec fn first_index_of(s: Seq<char>, c: char) -> Option<int>
    decreases s.len(),
{
    if s.len() == 0 {
        None
    } else if s[0] == c {
        Some(0)
    } else {
        match first_index_of(s.drop_first(), c) {
            None => None,
            Some(i) => Some(i + 1),
        }
    }
}

/// A position that holds `c`, with no earlier occurrence, is the first one.
pub proof fn lemma_first_index_of_found(s: Seq<char>, c: char, k: int)
    requires
        0 <= k < s.len(),
        s[k] == c,
        forall|j: int| 0 <= j < k ==> s[j] != c,
    ensures
        first_index_of(s, c) == Some(k),
    decreases k,
{
    if k > 0 {
        lemma_first_index_of_found(s.drop_first(), c, k - 1);
    }
}

/// A sequence without `c` has no first occurrence of it.
pub proof fn lemma_first_index_of_absent(s: Seq<char>, c: char)
    requires
        forall|j: int| 0 <= j < s.len() ==> s[j] != c,
    ensures
        first_index_of(s, c) is None,
    decreases s.len(),
{
    if s.len() > 0 {
        lemma_first_index_of_absent(s.drop_first(), c);
    }
}

/// Scans `s` left to right for the character `c`.
pub fn find_char(s: &str, c: char) -> (r: Option<usize>)
    ensures
        match r {
            Some(i) => {
                &&& i < s@.len()
                &&& s@[i as int] == c
                &&& forall|j: int| 0 <= j < i ==> s@[j] != c
                &&& first_index_of(s@, c) == Some(i as int)
            },
            None => {
                &&& forall|j: int| 0 <= j < s@.len() ==> s@[j] != c
                &&& first_index_of(s@, c) is None
            },
        },
{
    let n = s.unicode_len();
    let mut k: usize = 0;
    while k < n
        invariant
            n == s@.len(),
            k <= n,
            forall|j: int| 0 <= j < k ==> s@[j] != c,
        decreases n - k,
    {
        if s.get_char(k) == c {
            proof {
                lemma_first_index_of_found(s@, c, k as int);
            }
            return Some(k);
        }
        k += 1;
    }
    proof {
        lemma_first_index_of_absent(s@, c);
    }
    None
}

/// The first line of a text buffer: the characters before the first
/// newline, with a carriage return stripped when the newline followed
/// one.  Without a newline the whole text is the line.  An empty buffer
/// holds no line at all.
pub open spec fn spec_first_line(text: Seq<char>) -> Option<Seq<char>> {
    if text.len() == 0 {
        None
    } else {
        match first_index_of(text, '\n') {
            None => Some(text),
            Some(i) => {
                let line = text.take(i);
                if line.len() > 0 && line[line.len() - 1] == '\r' {
                    Some(line.take(line.len() - 1))
                } else {
                    Some(line)
                }
            },
        }
    }
}

/// Extracts the first line of `text`, or reports that none exists.
pub fn first_line<'a>(text: &'a str) -> (r: Option<&'a str>)
    ensures
        match r {
            Some(l) => spec_first_line(text@) == Some(l@),
            None => spec_first_line(text@) is None,
        },
{
    let n = text.unicode_len();
    if n == 0 {
        return None;
    }
    match find_char(text, '\n') {
        None => Some(text),
        Some(i) => {
            if i > 0 && text.get_char(i - 1) == '\r' {
                let l = text.substring_char(0, i - 1);
                proof {
                    assert(text@.take(i as int).take(i as int - 1) =~= text@.take(i as int - 1));
                }
                Some(l)
            } else {
                let l = text.substring_char(0, i);
                Some(l)
            }
        },
    }
}

} // verus!
