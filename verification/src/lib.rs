//! A minimal verified file server core.
//!
//! The library holds the logic of a one-request-per-connection file
//! server: parsing a textual request line, deciding how a connection
//! handler must react to each read outcome, and producing the exact
//! status line and body of the response.  The surrounding process
//! (listener, sockets, filesystem) drives these functions from outside.

pub mod handler;
pub mod parser;
pub mod response;
pub mod text;
