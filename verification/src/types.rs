//! The privileged-context capability token.
//!
//! Consumer-visible state may only be touched from one designated execution
//! context (on the host platform, the UI thread). A `MainThreadToken` is
//! evidence of that check: it can be obtained only by presenting a true
//! answer to "is the caller on the privileged context?", and every operation
//! that hands data to the consumer takes it by reference. The caller that
//! performs the platform query must treat a refused acquisition as a fatal
//! programming error, not as a recoverable condition.

use vstd::prelude::*;

verus! {

/// Zero-sized proof that the holder is running on the privileged context.
/// It cannot be constructed directly; `acquire` is the only way in, and the
/// token is only ever passed by reference, never stored.
pub struct MainThreadToken {
    _private: (),
}

impl MainThreadToken {
    /// Turns the result of the platform's "am I on the privileged context?"
    /// query into a capability: a token is handed out exactly when the
    /// answer was yes. The platform query itself cannot be made here; the
    /// caller performs it and must abort the process on `None`, since no
    /// safe continuation exists once the context discipline is broken.
    pub fn acquire(on_privileged_context: bool) -> (t: Option<MainThreadToken>)
        ensures
            t is Some <==> on_privileged_context,
    {
        if on_privileged_context {
            Some(MainThreadToken { _private: () })
        } else {
            None
        }
    }
}

} // verus!
