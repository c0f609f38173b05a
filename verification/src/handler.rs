//! The connection handler's decision core: a state machine from the
//! outcome of one socket read to the single terminal action owed on the
//! connection.  The surrounding process performs the reads, the file
//! fetch and the writes; every decision between them is made here.

use vstd::prelude::*;
use vstd::utf8::decode_utf8;
use vstd::utf8::valid_utf8;

use crate::parser::Rejection;
use crate::parser::parse_request_line;
use crate::parser::spec_parse_request_line;
use crate::text::first_line;
use crate::text::spec_first_line;

verus! {

/// The outcome of one non-blocking read on the connection, as the
/// transport reports it.
#[derive(Debug, PartialEq, Eq)]
pub enum ReadEvent {
    /// The read returned zero bytes: the peer closed in an orderly way
    /// before sending anything.
    PeerClosed,
    /// The read returned these bytes (at least one).
    Data(Vec<u8>),
    /// No data was available yet; readiness must be awaited again.
    WouldBlock,
    /// The read failed with a real error.
    Failed,
}

/// Why a connection is abandoned without any response being written.
#[derive(Debug, Clone, Copy, PartialEq, Eq, Structural)]
pub enum AbortReason {
    /// The bytes read did not decode as UTF-8 text.
    InvalidText,
    /// The text read held no request line at all; carries how many
    /// bytes had been read when that was found.
    NoRequestLine { bytes_read: usize },
    /// The read itself failed.
    ReadFailed,
}

/// The single action the handler owes after one read outcome.  Every
/// variant but `RetryRead` is terminal, and only `Reply` and `Fetch`
/// lead to a response being written.
#[derive(Debug, PartialEq, Eq)]
pub enum Step {
    /// Nothing was readable yet: await readiness and read again.
    RetryRead,
    /// The peer closed before sending bytes: end the connection without
    /// writing any response.
    CloseWithoutResponse,
    /// Fail this connection only; no response is written.
    Abort(AbortReason),
    /// Write exactly this rejection's status line, then close.
    Reply(Rejection),
    /// Fetch the file at this path, answer with `file_response`, then
    /// close.
    Fetch(String),
}

/// Relies on core::str::from_utf8: returns the decoded text exactly
/// when the bytes are valid UTF-8, per vstd's model of UTF-8.
#[verifier::external_body]
fn decode_text(bytes: &Vec<u8>) -> (r: Option<String>)
    ensures
        (r is Some) == valid_utf8(bytes@),
        r matches Some(s) ==> s@ == decode_utf8(bytes@),
{
    match core::str::from_utf8(bytes.as_slice()) {
        Ok(text) => Some(text.to_owned()),
        Err(_) => None,
    }
}

/// What the handler owes for a read that returned `bytes`: abandon the
/// connection on undecodable text or a missing request line, reply with
/// the parser's rejection, or fetch the parsed path.
pub open spec fn spec_data_step(bytes: Seq<u8>, step: Step) -> bool {
    if !valid_utf8(bytes) {
        step == Step::Abort(AbortReason::InvalidText)
    } else {
        match spec_first_line(decode_utf8(bytes)) {
            None => step == Step::Abort(
                AbortReason::NoRequestLine { bytes_read: bytes.len() as usize },
            ),
            Some(line) => match spec_parse_request_line(line) {
                Ok(path) => step matches Step::Fetch(p) && p@ == path,
                Err(rej) => step == Step::Reply(rej),
            },
        }
    }
}

/// Decides the handler's next action from the outcome of one read.
/// Deterministic, and total over every outcome the transport can
/// report; at most one response ever follows from the returned step.
pub fn handle_read_event(event: ReadEvent) -> (step: Step)
    ensures
        event is PeerClosed ==> step == Step::CloseWithoutResponse,
        event is WouldBlock ==> step == Step::RetryRead,
        event is Failed ==> step == Step::Abort(AbortReason::ReadFailed),
        event matches ReadEvent::Data(bytes) ==> spec_data_step(bytes@, step),
{
    match event {
        ReadEvent::PeerClosed => Step::CloseWithoutResponse,
        ReadEvent::WouldBlock => Step::RetryRead,
        ReadEvent::Failed => Step::Abort(AbortReason::ReadFailed),
        ReadEvent::Data(bytes) => {
            let n = bytes.len();
            match decode_text(&bytes) {
                None => Step::Abort(AbortReason::InvalidText),
                Some(text) => match first_line(text.as_str()) {
                    None => Step::Abort(AbortReason::NoRequestLine { bytes_read: n }),
                    Some(line) => match parse_request_line(line) {
                        Ok(path) => Step::Fetch(path.to_owned()),
                        Err(rej) => Step::Reply(rej),
                    },
                },
            }
        },
    }
}

/// One read outcome determines one action: any two steps the handler's
/// contract allows for the same data agree on their kind and on the
/// response they lead to.  Together with the closed set of status
/// lines, this is why a connection never sees two different responses.
pub proof fn lemma_data_step_determined(bytes: Seq<u8>, s1: Step, s2: Step)
    requires
        spec_data_step(bytes, s1),
        spec_data_step(bytes, s2),
    ensures
        s1 matches Step::Abort(r1) ==> s2 matches Step::Abort(r2) && r1 == r2,
        s1 matches Step::Reply(r1) ==> s2 matches Step::Reply(r2) && r1 == r2,
        s1 matches Step::Fetch(p1) ==> s2 matches Step::Fetch(p2) && p1@ == p2@,
        !(s1 is RetryRead) && !(s1 is CloseWithoutResponse),
{
}

} // verus!
