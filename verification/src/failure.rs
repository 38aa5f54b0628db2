//! What the logic of the bridge reads of a failure reported by the runtime
//! binding, and how such a failure becomes a typed error.

use vstd::prelude::*;

use jni::errors::Error;
use jni::JNIEnv;

use crate::error::{detail_text, BridgeError};
use crate::jvm::{
    clear_exception, failure_kind, failure_text, get_string, pending_exception, throwable_text,
};
use crate::signature::exception_text_signature;

verus! {

/// The step of a call at which a failure was reported.
#[derive(Clone, Copy, Debug, PartialEq, Eq, Structural)]
pub enum Stage {
    /// Registering the calling thread with the runtime, or reaching the
    /// runtime at all.
    Attach,
    /// Resolving the target service by its name.
    Resolve,
    /// Encoding an argument into the runtime's representation.
    Encode,
    /// Invoking the operation.
    Invoke,
    /// Decoding the result into a native value.
    Decode,
}

/// The kinds of failure that the runtime binding tells apart, as far as the
/// bridge distinguishes them.
#[derive(Clone, Copy, Debug, PartialEq, Eq, Structural)]
pub enum FailureKind {
    /// An exception is pending in the runtime.
    JavaException,
    /// No method of the given name and descriptor exists.
    MethodNotFound,
    /// The arguments do not fit the method descriptor.
    InvalidArgList,
    /// The method descriptor could not be parsed.
    ParseFailed,
    /// A value was not of the expected type.
    WrongJValueType,
    /// A null reference was met where an object was needed.
    NullPtr,
    /// The runtime answered a call with an error code.
    JniCall,
    /// Any other failure.
    Other,
}

/// The typed error for a failure of kind `kind`, with detail `text`,
/// reported at `stage`.
///
/// A failure to attach is an attachment error; a service that does not
/// resolve is not found; a failure to encode or decode is a marshalling
/// error. At the invocation itself, a missing method means that the
/// operation is not found, arguments or a result that do not fit are
/// marshalling errors, and everything else is the remote operation failing.
pub open spec fn classify_spec(stage: Stage, kind: FailureKind, text: String) -> BridgeError {
    match stage {
        Stage::Attach => BridgeError::AttachmentError(text),
        Stage::Resolve => BridgeError::ServiceNotFoundError(text),
        Stage::Encode => BridgeError::MarshalError(text),
        Stage::Decode => BridgeError::MarshalError(text),
        Stage::Invoke => match kind {
            FailureKind::MethodNotFound => BridgeError::ServiceNotFoundError(text),
            FailureKind::InvalidArgList => BridgeError::MarshalError(text),
            FailureKind::ParseFailed => BridgeError::MarshalError(text),
            FailureKind::WrongJValueType => BridgeError::MarshalError(text),
            _ => BridgeError::RemoteInvocationError(text),
        },
    }
}

/// The typed error for a failure of kind `kind`, with detail `text`,
/// reported at `stage`.
pub fn classify(stage: Stage, kind: FailureKind, text: String) -> (r: BridgeError)
    ensures
        r == classify_spec(stage, kind, text),
{
    match stage {
        Stage::Attach => BridgeError::AttachmentError(text),
        Stage::Resolve => BridgeError::ServiceNotFoundError(text),
        Stage::Encode | Stage::Decode => BridgeError::MarshalError(text),
        Stage::Invoke => match kind {
            FailureKind::MethodNotFound => BridgeError::ServiceNotFoundError(text),
            FailureKind::InvalidArgList | FailureKind::ParseFailed | FailureKind::WrongJValueType => {
                BridgeError::MarshalError(text)
            },
            _ => BridgeError::RemoteInvocationError(text),
        },
    }
}

/// The typed error for `failure`, reported at `stage`.
pub fn report(stage: Stage, failure: &Error) -> (r: BridgeError)
    ensures
        exists|kind, text| r == classify_spec(stage, kind, text),
{
    classify(stage, failure_kind(failure), failure_text(failure))
}

/// Takes the exception that is pending in the thread of `env` out of its
/// pending state and returns its text, so that it is reported once and the
/// thread can go on calling. `None` where no exception is pending or its
/// text cannot be had.
pub(crate) fn take_exception_text(env: &mut JNIEnv) -> (r: Option<String>) {
    let throwable = match pending_exception(env) {
        Ok(throwable) => throwable,
        Err(_) => {
            return None;
        },
    };
    let _ = clear_exception(env);
    let method = exception_text_signature();
    let descriptor = method.descriptor();
    let described = match throwable_text(
        env,
        &throwable,
        method.operation.as_str(),
        descriptor.as_str(),
    ) {
        Ok(described) => described,
        Err(_) => {
            let _ = clear_exception(env);
            return None;
        },
    };
    match get_string(env, &described) {
        Ok(text) => Some(text),
        Err(_) => {
            let _ = clear_exception(env);
            None
        },
    }
}

/// The typed error for `failure`, reported at `stage` by a call on the
/// thread of `env`. Where the failure is an exception of the runtime, the
/// error carries the exception's own text and the exception is no longer
/// pending.
pub fn report_in(env: &mut JNIEnv, stage: Stage, failure: &Error) -> (r: BridgeError)
    ensures
        exists|kind, text| r == classify_spec(stage, kind, text),
{
    let kind = failure_kind(failure);
    let text = match kind {
        FailureKind::JavaException => match take_exception_text(env) {
            Some(text) => text,
            None => failure_text(failure),
        },
        _ => failure_text(failure),
    };
    classify(stage, kind, text)
}

/// A service that is absent and a service that raises are told apart: what
/// fails while the service is resolved is `ServiceNotFoundError`, whatever
/// the runtime reported, and an exception raised by the invoked operation is
/// `RemoteInvocationError`. A caller can match on the two kinds.
pub proof fn lemma_absent_and_raising_differ(kind: FailureKind, absent: String, raised: String)
    ensures
        classify_spec(Stage::Resolve, kind, absent) is ServiceNotFoundError,
        classify_spec(Stage::Invoke, FailureKind::JavaException, raised) is RemoteInvocationError,
        classify_spec(Stage::Resolve, kind, absent) != classify_spec(
            Stage::Invoke,
            FailureKind::JavaException,
            raised,
        ),
{
}

/// No failure is ever classified as a use of the runtime before it was
/// initialized, only a failure to attach is an attachment error, and the
/// error carries the failure's text unchanged.
pub proof fn lemma_classify_kinds(stage: Stage, kind: FailureKind, text: String)
    ensures
        !(classify_spec(stage, kind, text) is Uninitialized),
        classify_spec(stage, kind, text) is AttachmentError <==> stage == Stage::Attach,
        detail_text(classify_spec(stage, kind, text)) == text@,
{
}

} // verus!
