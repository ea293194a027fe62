//! The pull-mode operation protocol.
//!
//! Every pull-mode operation (`write`, `read`, `resize`, `kill`,
//! `exitstatus`) follows one shape: resolve the handle in the registry —
//! failing with the handle-not-found error exactly when the handle is
//! absent — then perform a single backend call on the resolved session, and
//! map a backend failure to a caller-visible error. The backend call itself
//! is I/O done by an unverified driver; it hands its outcome to the
//! completion functions below, which fix what the caller receives for every
//! possible outcome.

use vstd::prelude::*;
use vstd::utf8::decode_utf8;
use vstd::utf8::encode_utf8;
use vstd::utf8::valid_utf8;

use crate::codec::decode_chunk;
use crate::codec::lossy_decode;
use crate::registry::Registry;

verus! {

/// How many bytes one `read` call may return at most: each call performs a
/// single bounded read into a buffer of this size, and polling repeatedly is
/// the caller's job.
pub const READ_BUFFER_LEN: usize = 1024;

/// A caller-visible failure of a pull-mode operation.
pub enum PtyError {
    /// The handle was never returned by `spawn`, or its session was removed.
    HandleNotFound,
    /// The terminal backend reported a failure; the text is the backend's
    /// own description, passed on verbatim and never retried.
    Backend(String),
}

impl PtyError {
    /// The human-readable description surfaced to the caller.
    pub fn message(&self) -> (r: String)
        ensures
            self is HandleNotFound ==> r@ == "session not found"@,
            self matches PtyError::Backend(m) ==> r@ == m@,
    {
        match self {
            PtyError::HandleNotFound => "session not found".to_owned(),
            PtyError::Backend(m) => m.clone(),
        }
    }
}

impl<S> Registry<S> {
    /// The lookup step shared by every pull-mode operation: the session
    /// registered under the handle, or the handle-not-found error exactly
    /// when the handle is absent.
    pub fn resolve(&self, handle: u32) -> (r: Result<&S, PtyError>)
        ensures
            self.sessions().dom().contains(handle) <==> r is Ok,
            r matches Ok(s) ==> *s == self.sessions()[handle],
            r matches Err(e) ==> e is HandleNotFound,
    {
        match self.lookup(handle) {
            Some(s) => Ok(s),
            None => Err(PtyError::HandleNotFound),
        }
    }
}

/// Completes `write`, `resize`, `kill` or `exitstatus` once the session was
/// resolved and the backend call returned: a backend success is the caller's
/// success, with the backend's value untouched, and a backend failure
/// becomes the backend error with the backend's description verbatim.
pub fn backend_result<T>(outcome: Result<T, String>) -> (r: Result<T, PtyError>)
    ensures
        outcome matches Ok(v) ==> r matches Ok(w) && w == v,
        outcome matches Err(m) ==> r matches Err(e) && e matches PtyError::Backend(d) && d@ == m@,
{
    match outcome {
        Ok(v) => Ok(v),
        Err(m) => Err(PtyError::Backend(m)),
    }
}

/// Completes `read`: the bytes of one bounded backend read are decoded
/// lossily into text — never failing on invalid UTF-8, returning text
/// exactly when bytes were read, and returning the written text itself
/// whenever the chunk is the UTF-8 encoding of some text. A backend failure
/// becomes the backend error, verbatim.
pub fn read_result(outcome: Result<Vec<u8>, String>) -> (r: Result<String, PtyError>)
    ensures
        outcome matches Ok(b) ==> r matches Ok(s) && {
            &&& s@ == lossy_decode(b@)
            &&& valid_utf8(b@) ==> s@ == decode_utf8(b@)
            &&& (s@.len() == 0 <==> b@.len() == 0)
            &&& forall|t: Seq<char>| b@ == #[trigger] encode_utf8(t) ==> s@ == t
        },
        outcome matches Err(m) ==> r matches Err(e) && e matches PtyError::Backend(d) && d@ == m@,
{
    match outcome {
        Ok(b) => Ok(decode_chunk(b.as_slice())),
        Err(m) => Err(PtyError::Backend(m)),
    }
}

} // verus!
