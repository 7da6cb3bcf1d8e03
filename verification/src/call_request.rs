//! The request that the host forwards to the storage when the guest calls
//! another application or one of its sessions.

use vstd::prelude::*;

verus! {

/// A call from the guest, in the form in which the host hands it to the
/// storage: `C` designates the callee (an application or a session), `Sid`
/// is the host's session identifier.
#[derive(Debug, PartialEq, Eq)]
pub struct CallRequest<C, Sid> {
    pub authenticated: bool,
    pub callee: C,
    pub argument: Vec<u8>,
    pub forwarded_sessions: Vec<Sid>,
}

impl<C, Sid> CallRequest<C, Sid> {
    /// Builds the request: the guest's argument bytes are copied into a
    /// buffer of the host's, everything else is taken as given.
    pub fn new(
        authenticated: bool,
        callee: C,
        argument: &[u8],
        forwarded_sessions: Vec<Sid>,
    ) -> (r: Self)
        ensures
            r.authenticated == authenticated,
            r.callee == callee,
            r.argument@ == argument@,
            r.forwarded_sessions == forwarded_sessions,
    {
        CallRequest {
            authenticated,
            callee,
            argument: vstd::slice::slice_to_vec(argument),
            forwarded_sessions,
        }
    }
}

} // verus!
