//! A minimal HTTP/1.1 GET client core: building wire-format requests from a
//! URL, recovering a status category from raw response text, and aggregating
//! repeated timed cycles into a profiling report.  The transport itself
//! (opening a socket, writing the request, reading until the peer closes) is
//! left to the caller, which hands the raw bytes back in.

use vstd::prelude::*;

pub mod profile_result;
pub mod request;
pub mod response;
pub mod status_code;

verus! {

/// The two ways a request cycle can fail: the URL cannot be parsed at all,
/// or the transport reported a connection, read or write failure.
#[derive(Clone, Copy, Debug, PartialEq, Eq, Structural)]
pub enum HttpError {
    InvalidUrl,
    IoError,
}

} // verus!
