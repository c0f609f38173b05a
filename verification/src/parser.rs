//! The request line parser: one line of text in, either the requested
//! path or the rejection to send back to the client.
//!
//! A request line is three space-separated fields: method, path and
//! version.  Fields are checked strictly left to right: a missing method
//! is reported before a missing path, a missing path before a missing
//! version, and the method's value is only judged once all three fields
//! are present.  The version's content is never inspected.

use vstd::prelude::*;

use crate::text::find_char;
use crate::text::first_index_of;

verus! {

/// Why a request line was rejected.  Each variant corresponds to one
/// literal status line sent back to the client.
#[derive(Debug, Clone, Copy, PartialEq, Eq, Structural)]
pub enum Rejection {
    /// The line was empty: no method field at all.
    NoRequestType,
    /// The line held a method but no second field.
    NoPath,
    /// The line held a method and a path but no third field.
    NoVersion,
    /// All three fields were present but the method is not the
    /// retrieval method in either of its two casings.
    MethodNotAllowed,
}

/// The retrieval method token, accepted in exactly two casings.
pub open spec fn is_get_method(m: Seq<char>) -> bool {
    m == "GET"@ || m == "get"@
}

/// What parsing a request line yields: the path field, or the rejection
/// owed to the client.  Splitting is on single spaces, so an empty
/// field between two spaces still counts as present.
pub open spec fn spec_parse_request_line(line: Seq<char>) -> Result<Seq<char>, Rejection> {
    if line.len() == 0 {
        Err(Rejection::NoRequestType)
    } else {
        match first_index_of(line, ' ') {
            None => Err(Rejection::NoPath),
            Some(i) => {
                let method = line.take(i);
                let rest = line.skip(i + 1);
                match first_index_of(rest, ' ') {
                    None => Err(Rejection::NoVersion),
                    Some(j) => if is_get_method(method) {
                        Ok(rest.take(j))
                    } else {
                        Err(Rejection::MethodNotAllowed)
                    },
                }
            },
        }
    }
}

/// Decides whether `method` is the retrieval method token.
fn is_get(method: &str) -> (r: bool)
    ensures
        r == is_get_method(method@),
{
    proof {
        reveal_strlit("GET");
        reveal_strlit("get");
    }
    let n = method.unicode_len();
    if n != 3 {
        return false;
    }
    let c0 = method.get_char(0);
    let c1 = method.get_char(1);
    let c2 = method.get_char(2);
    if c0 == 'G' && c1 == 'E' && c2 == 'T' {
        proof {
            assert(method@ =~= "GET"@);
        }
        true
    } else if c0 == 'g' && c1 == 'e' && c2 == 't' {
        proof {
            assert(method@ =~= "get"@);
        }
        true
    } else {
        false
    }
}

/// Splits the request line on single spaces and returns the path field,
/// or the rejection that the line earns.  Deterministic, free of side
/// effects: the result is a function of the line's text alone.
pub fn parse_request_line<'a>(line: &'a str) -> (r: Result<&'a str, Rejection>)
    ensures
        (r is Ok) == (spec_parse_request_line(line@) is Ok),
        r matches Ok(p) ==> spec_parse_request_line(line@) == Ok::<Seq<char>, Rejection>(p@),
        r matches Err(e) ==> spec_parse_request_line(line@) == Err::<Seq<char>, Rejection>(e),
{
    let n = line.unicode_len();
    if n == 0 {
        return Err(Rejection::NoRequestType);
    }
    match find_char(line, ' ') {
        None => Err(Rejection::NoPath),
        Some(i) => {
            let method = line.substring_char(0, i);
            let rest = line.substring_char(i + 1, n);
            match find_char(rest, ' ') {
                None => Err(Rejection::NoVersion),
                Some(j) => {
                    if is_get(method) {
                        let path = rest.substring_char(0, j);
                        Ok(path)
                    } else {
                        Err(Rejection::MethodNotAllowed)
                    }
                },
            }
        },
    }
}

/// The parser is pure: lines with identical text parse identically, so
/// a second call on the same input yields the same output.
pub proof fn lemma_parse_deterministic(a: Seq<char>, b: Seq<char>)
    requires
        a == b,
    ensures
        spec_parse_request_line(a) == spec_parse_request_line(b),
{
}

} // verus!
