use vstd::prelude::*;

verus! {

/// Failures reported by the network operations.
#[derive(Debug)]
pub enum NetError {
    /// The handle does not resolve, or resolves to another kind of resource.
    BadResource,
    /// A second accept was attempted on a listener that already has one suspended.
    ConcurrentAcceptViolation,
    /// The listener was removed while an accept on it was pending.
    ListenerUnavailable,
    /// The permission check refused the network access.
    PermissionDenied(String),
    /// The host name could not be resolved to a socket address.
    AddressResolutionFailed(String),
    /// An error of the operating system's socket layer.
    Io(String),
}

impl NetError {
    /// A short text for the error, for reporting to the caller.
    pub fn message(&self) -> (r: String)
        ensures
            self matches NetError::PermissionDenied(m) ==> r == m,
            self matches NetError::AddressResolutionFailed(m) ==> r == m,
            self matches NetError::Io(m) ==> r == m,
            self is ListenerUnavailable ==> r@ == "Listener has been closed"@,
    {
        proof {
            reveal_strlit("Listener has been closed");
        }
        match self {
            NetError::BadResource => "bad resource id".to_string(),
            NetError::ConcurrentAcceptViolation => "Another accept task is ongoing".to_string(),
            NetError::ListenerUnavailable => "Listener has been closed".to_string(),
            NetError::PermissionDenied(m) => m.clone(),
            NetError::AddressResolutionFailed(m) => m.clone(),
            NetError::Io(m) => m.clone(),
        }
    }
}

} // verus!
