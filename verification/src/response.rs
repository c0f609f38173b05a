//! The responses a connection ever carries: a fixed status line from a
//! closed set, optionally followed by the raw bytes of the served file.

use vstd::prelude::*;

use crate::parser::Rejection;

verus! {

/// The terminal response written on a connection.  A response is built
/// once and never mutated or retried.
#[derive(Debug, PartialEq, Eq)]
pub enum Response {
    /// The request line was rejected; only its status line is sent.
    Rejected(Rejection),
    /// The requested file was read; its bytes follow the success line.
    FileContents(Vec<u8>),
    /// The file could not be read; a generic failure line is sent and
    /// no detail of the underlying error is leaked to the client.
    FileUnavailable,
}

impl Rejection {
    /// The literal status line owed for this rejection.
    pub open spec fn spec_status_line(self) -> Seq<char> {
        match self {
            Rejection::NoRequestType => "HTTP/1.1 400 No Request Type\r\n\r\n"@,
            Rejection::NoPath => "HTTP/1.1 400 No Path\r\n\r\n"@,
            Rejection::NoVersion => "HTTP/1.1 400 No Version\r\n\r\n"@,
            Rejection::MethodNotAllowed => "HTTP/1.1 403 Only GET requests are supported\r\n\r\n"@,
        }
    }

    /// Returns the literal status line owed for this rejection.
    pub fn status_line(self) -> (s: &'static str)
        ensures
            s@ == self.spec_status_line(),
    {
        match self {
            Rejection::NoRequestType => "HTTP/1.1 400 No Request Type\r\n\r\n",
            Rejection::NoPath => "HTTP/1.1 400 No Path\r\n\r\n",
            Rejection::NoVersion => "HTTP/1.1 400 No Version\r\n\r\n",
            Rejection::MethodNotAllowed => "HTTP/1.1 403 Only GET requests are supported\r\n\r\n",
        }
    }
}

impl Response {
    /// The one status line this response begins with.
    pub open spec fn spec_status_line(self) -> Seq<char> {
        match self {
            Response::Rejected(r) => r.spec_status_line(),
            Response::FileContents(_) => "HTTP/1.1 200 OK\r\n\r\n"@,
            Response::FileUnavailable => "HTTP/1.1 500 Couldn't get file contents\r\n\r\n"@,
        }
    }

    /// The bytes that follow the status line, if any.
    pub open spec fn spec_body(self) -> Option<Seq<u8>> {
        match self {
            Response::FileContents(b) => Some(b@),
            _ => None,
        }
    }

    /// Returns the status line to write first on the connection.
    pub fn status_line(&self) -> (s: &'static str)
        ensures
            s@ == self.spec_status_line(),
    {
        match self {
            Response::Rejected(r) => r.status_line(),
            Response::FileContents(_) => "HTTP/1.1 200 OK\r\n\r\n",
            Response::FileUnavailable => "HTTP/1.1 500 Couldn't get file contents\r\n\r\n",
        }
    }

    /// Returns the body to write after the status line, if any.
    pub fn body(&self) -> (b: Option<&Vec<u8>>)
        ensures
            match b {
                Some(v) => self.spec_body() == Some(v@),
                None => self.spec_body() is None,
            },
    {
        match self {
            Response::FileContents(v) => Some(v),
            _ => None,
        }
    }
}

/// Maps the outcome of the filesystem collaborator to the response owed
/// for a successfully parsed path: the file's bytes after a success
/// line, or the generic failure line when the file could not be read.
pub fn file_response(contents: Option<Vec<u8>>) -> (r: Response)
    ensures
        contents matches Some(b) ==> r == Response::FileContents(b),
        contents is None ==> r == Response::FileUnavailable,
{
    match contents {
        Some(b) => Response::FileContents(b),
        None => Response::FileUnavailable,
    }
}

/// Membership in the closed set of protocol status lines.
pub open spec fn is_protocol_status_line(s: Seq<char>) -> bool {
    ||| s == "HTTP/1.1 200 OK\r\n\r\n"@
    ||| s == "HTTP/1.1 400 No Request Type\r\n\r\n"@
    ||| s == "HTTP/1.1 400 No Path\r\n\r\n"@
    ||| s == "HTTP/1.1 400 No Version\r\n\r\n"@
    ||| s == "HTTP/1.1 403 Only GET requests are supported\r\n\r\n"@
    ||| s == "HTTP/1.1 500 Couldn't get file contents\r\n\r\n"@
}

/// Every response begins with exactly one status line, and that line
/// belongs to the closed set the wire protocol allows.
pub proof fn lemma_status_line_closed(r: Response)
    ensures
        is_protocol_status_line(r.spec_status_line()),
{
}

} // verus!
