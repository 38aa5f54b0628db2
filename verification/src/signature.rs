//! Call signatures: the fixed name and type descriptor by which an operation
//! of the remote service is dispatched.

use vstd::prelude::*;
use vstd::string::StringExecFns;

verus! {

/// The class that implements the remote service.
pub const SERVICE_CLASS: &'static str = "com/incident/jni/IncidentServiceFacade";

/// The class of everything that the runtime can throw.
pub const THROWABLE_CLASS: &'static str = "java/lang/Throwable";

/// The type descriptor of a runtime string, the only value type that crosses
/// the bridge.
pub const STRING_DESCRIPTOR: &'static str = "Ljava/lang/String;";

/// An immutable description of one remote operation: the service that
/// offers it, its name, and how many string arguments it takes. Every
/// operation returns one string.
pub struct CallSignature {
    pub service: String,
    pub operation: String,
    pub arity: usize,
}

/// `unit` written `n` times in a row.
pub open spec fn repeated(unit: Seq<char>, n: nat) -> Seq<char>
    decreases n,
{
    if n == 0 {
        Seq::<char>::empty()
    } else {
        repeated(unit, (n - 1) as nat) + unit
    }
}

/// The method descriptor of an operation with `arity` string arguments and a
/// string result: the argument types between round brackets, then the
/// result type.
pub open spec fn descriptor_text(arity: nat) -> Seq<char> {
    "("@ + repeated(STRING_DESCRIPTOR@, arity) + ")"@ + STRING_DESCRIPTOR@
}

impl CallSignature {
    /// A signature from its parts.
    pub fn new(service: &str, operation: &str, arity: usize) -> (r: CallSignature)
        ensures
            r.service@ == service@,
            r.operation@ == operation@,
            r.arity == arity,
    {
        CallSignature {
            service: String::from_str(service),
            operation: String::from_str(operation),
            arity,
        }
    }

    /// The method descriptor that the runtime resolves this operation by.
    pub fn descriptor(&self) -> (r: String)
        ensures
            r@ == descriptor_text(self.arity as nat),
    {
        let mut text = String::from_str("(");
        let mut written: usize = 0;
        while written < self.arity
            invariant
                written <= self.arity,
                text@ == "("@ + repeated(STRING_DESCRIPTOR@, written as nat),
            decreases self.arity - written,
        {
            text.append(STRING_DESCRIPTOR);
            written = written + 1;
        }
        text.append(")");
        text.append(STRING_DESCRIPTOR);
        text
    }
}

/// The signature of the operation that creates a record from a title, a
/// description and a priority.
pub fn create_incident_signature() -> (r: CallSignature)
    ensures
        r.service@ == SERVICE_CLASS@,
        r.operation@ == "createIncident"@,
        r.arity == 3,
{
    CallSignature::new(SERVICE_CLASS, "createIncident", 3)
}

/// The signature of the operation that changes a record's status, given the
/// record's id, the new status, an assignee and a comment.
pub fn change_status_signature() -> (r: CallSignature)
    ensures
        r.service@ == SERVICE_CLASS@,
        r.operation@ == "changeStatus"@,
        r.arity == 4,
{
    CallSignature::new(SERVICE_CLASS, "changeStatus", 4)
}

/// The signature of the method that gives the text of an exception: its
/// name and message, as one string.
pub fn exception_text_signature() -> (r: CallSignature)
    ensures
        r.service@ == THROWABLE_CLASS@,
        r.operation@ == "toString"@,
        r.arity == 0,
{
    CallSignature::new(THROWABLE_CLASS, "toString", 0)
}

} // verus!
