//! The typed errors of the bridge.
//!
//! Every layer returns one of these kinds; none is retried, and only the
//! facade turns one into a transport-level response.

use vstd::prelude::*;
use vstd::string::StringExecFns;

verus! {

/// What went wrong in a call across the bridge.
///
/// All kinds but `Uninitialized` carry the detail text of the failure that
/// caused them.
#[derive(Debug)]
pub enum BridgeError {
    /// The runtime handle was used before the host loader stored it.
    Uninitialized,
    /// The calling thread could not register with the runtime.
    AttachmentError(String),
    /// The target service, or the operation on it, could not be resolved.
    ServiceNotFoundError(String),
    /// A value could not be encoded for, or decoded from, the runtime.
    MarshalError(String),
    /// The remote operation itself failed or raised.
    RemoteInvocationError(String),
}

/// The label that opens the message of each kind.
pub open spec fn kind_label(e: BridgeError) -> Seq<char> {
    match e {
        BridgeError::Uninitialized => "runtime not initialized"@,
        BridgeError::AttachmentError(_) => "attachment failed"@,
        BridgeError::ServiceNotFoundError(_) => "service not found"@,
        BridgeError::MarshalError(_) => "marshalling failed"@,
        BridgeError::RemoteInvocationError(_) => "remote invocation failed"@,
    }
}

/// The detail text that a kind carries; empty for `Uninitialized`.
pub open spec fn detail_text(e: BridgeError) -> Seq<char> {
    match e {
        BridgeError::Uninitialized => Seq::<char>::empty(),
        BridgeError::AttachmentError(d) => d@,
        BridgeError::ServiceNotFoundError(d) => d@,
        BridgeError::MarshalError(d) => d@,
        BridgeError::RemoteInvocationError(d) => d@,
    }
}

/// The human-readable message of an error: its label, and, where it carries
/// a detail, a colon, a space and the detail.
pub open spec fn message_text(e: BridgeError) -> Seq<char> {
    if e is Uninitialized {
        kind_label(e)
    } else {
        kind_label(e) + ": "@ + detail_text(e)
    }
}

impl BridgeError {
    /// The label of this error's kind.
    pub fn label(&self) -> (r: &'static str)
        ensures
            r@ == kind_label(*self),
    {
        match self {
            BridgeError::Uninitialized => "runtime not initialized",
            BridgeError::AttachmentError(_) => "attachment failed",
            BridgeError::ServiceNotFoundError(_) => "service not found",
            BridgeError::MarshalError(_) => "marshalling failed",
            BridgeError::RemoteInvocationError(_) => "remote invocation failed",
        }
    }

    /// The detail text carried by this error.
    pub fn detail(&self) -> (r: &str)
        ensures
            r@ == detail_text(*self),
    {
        proof {
            reveal_strlit("");
        }
        match self {
            BridgeError::Uninitialized => "",
            BridgeError::AttachmentError(d) => d.as_str(),
            BridgeError::ServiceNotFoundError(d) => d.as_str(),
            BridgeError::MarshalError(d) => d.as_str(),
            BridgeError::RemoteInvocationError(d) => d.as_str(),
        }
    }

    /// The human-readable message of this error.
    pub fn message(&self) -> (r: String)
        ensures
            r@ == message_text(*self),
    {
        let mut text = String::from_str(self.label());
        match self {
            BridgeError::Uninitialized => {},
            _ => {
                text.append(": ");
                text.append(self.detail());
            },
        }
        text
    }
}

} // verus!
