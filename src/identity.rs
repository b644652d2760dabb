//! Thread identity and names as the OS reports them.

use vstd::prelude::*;
use vstd::utf8::{encode_utf8, valid_utf8};

verus! {

/// Identifies a running thread: the OS's non-zero thread id.
#[derive(Clone, Copy, Debug, PartialEq, Eq, Structural)]
pub struct ThreadId(usize);

impl ThreadId {
    /// The raw id.
    pub closed spec fn spec_raw(&self) -> usize {
        self.0
    }

    /// The raw id, as the OS knows it.
    pub fn raw(&self) -> (r: usize)
        ensures
            r == self.spec_raw(),
    {
        self.0
    }

    /// Reads the id the OS reported for a thread: zero means the thread has
    /// stopped and has no id any more.
    pub fn from_raw(raw: usize) -> (r: Option<ThreadId>)
        ensures
            r is None <==> raw == 0,
            r matches Some(id) ==> id.spec_raw() == raw,
    {
        if raw == 0 {
            None
        } else {
            Some(ThreadId(raw))
        }
    }
}

/// A thread has finished once the OS no longer gives it an id.
pub fn is_finished(id: Option<ThreadId>) -> (r: bool)
    ensures
        r <==> id is None,
{
    id.is_none()
}

/// Relies on `core::str::from_utf8`: succeeds exactly on valid UTF-8, and the
/// text it gives holds exactly those bytes.
#[verifier::external_body]
fn utf8_text(bytes: &[u8]) -> (r: Option<String>)
    ensures
        r is Some <==> valid_utf8(bytes@),
        r matches Some(s) ==> encode_utf8(s@) == bytes@,
{
    core::str::from_utf8(bytes).ok().map(|s| s.to_owned())
}

/// The name of a thread as the OS holds it (its bytes, without the
/// terminator): absent where the thread has none or where it is not valid
/// UTF-8, never an error.
pub fn thread_name(raw: Option<&[u8]>) -> (r: Option<String>)
    ensures
        raw is None ==> r is None,
        raw matches Some(b) ==> (r is Some <==> valid_utf8(b@)),
        raw matches Some(b) ==> (r matches Some(s) ==> encode_utf8(s@) == b@),
{
    match raw {
        None => None,
        Some(b) => utf8_text(b),
    }
}

} // verus!
