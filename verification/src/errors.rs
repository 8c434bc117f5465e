//! Error taxonomy of the control plane.
//!
//! Validation failures are always caught before any network resource is
//! touched and are recoverable; lifecycle failures concern the control bus;
//! network and I/O failures come from the daemons at the boundary.

use vstd::prelude::*;
use vstd::string::*;

verus! {

/// An error of the control plane, with a human-readable message.
#[derive(Debug, Clone)]
pub enum QuickServeError {
    /// Network-related errors (binding, connections, etc.)
    Network(String),
    /// Validation errors (invalid paths, IPs, ports, etc.)
    Validation(String),
    /// Server lifecycle errors (start/stop failures)
    ServerLifecycle(String),
    /// IO errors (file operations, etc.), carried as their message
    Io(String),
}

/// Result type alias for control-plane operations.
pub type QuickServeResult<T> = Result<T, QuickServeError>;

/// The rendering of an error as one line of text.
pub open spec fn spec_display(e: QuickServeError) -> Seq<char> {
    match e {
        QuickServeError::Network(m) => "Network error: "@ + m@,
        QuickServeError::Validation(m) => "Validation error: "@ + m@,
        QuickServeError::ServerLifecycle(m) => "Server lifecycle error: "@ + m@,
        QuickServeError::Io(m) => "IO error: "@ + m@,
    }
}

impl QuickServeError {
    /// Creates a validation error from a message.
    pub fn validation(msg: &str) -> (r: Self)
        ensures
            r matches QuickServeError::Validation(m) && m@ == msg@,
    {
        QuickServeError::Validation(String::from_str(msg))
    }

    /// Creates a server lifecycle error from a message.
    pub fn server_lifecycle(msg: &str) -> (r: Self)
        ensures
            r matches QuickServeError::ServerLifecycle(m) && m@ == msg@,
    {
        QuickServeError::ServerLifecycle(String::from_str(msg))
    }

    /// Renders the error as one line of text, with a prefix naming its
    /// category.
    pub fn to_string(&self) -> (r: String)
        ensures
            r@ == spec_display(*self),
    {
        match self {
            QuickServeError::Network(m) => {
                let mut s = String::from_str("Network error: ");
                s.append(m.as_str());
                s
            },
            QuickServeError::Validation(m) => {
                let mut s = String::from_str("Validation error: ");
                s.append(m.as_str());
                s
            },
            QuickServeError::ServerLifecycle(m) => {
                let mut s = String::from_str("Server lifecycle error: ");
                s.append(m.as_str());
                s
            },
            QuickServeError::Io(m) => {
                let mut s = String::from_str("IO error: ");
                s.append(m.as_str());
                s
            },
        }
    }
}

} // verus!
