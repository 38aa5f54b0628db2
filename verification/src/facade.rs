//! What the facade hands to its transport: a status and a body.
//!
//! A call that succeeded is answered with status 200 and the decoded result
//! as the body; every error of the bridge is answered with status 500 and a
//! message that a person can read.

use std::sync::Arc;
use vstd::prelude::*;
use vstd::string::StringExecFns;

use jni::JavaVM;

use crate::error::{message_text, BridgeError};
use crate::failure::{classify_spec, report, FailureKind, Stage};
use crate::jvm::attach_env;
use crate::proxy::{operation_may_return, JniExecutor};
use crate::runtime::{get_jvm, RuntimeHandle};

verus! {

/// The status of an answer to a call that succeeded.
pub const STATUS_OK: u16 = 200;

/// The status of an answer to a call that failed.
pub const STATUS_INTERNAL_ERROR: u16 = 500;

/// What opens the body of an answer of the endpoint to a call that failed.
pub const ERROR_PREFIX: &'static str = "JNI Error: ";

/// What opens the body of an answer of a request handler to a call that
/// failed.
pub const HANDLER_ERROR_PREFIX: &'static str = "JNI error: ";

/// An answer for the transport.
#[derive(Debug)]
pub struct Response {
    pub status: u16,
    pub body: String,
}

/// Whether `response` is the answer to a call that ended with `result`,
/// where the body of an error opens with `prefix`.
pub open spec fn response_with(
    prefix: Seq<char>,
    result: Result<String, BridgeError>,
    response: Response,
) -> bool {
    match result {
        Ok(text) => response.status == STATUS_OK && response.body@ == text@,
        Err(error) => response.status == STATUS_INTERNAL_ERROR && response.body@ == prefix
            + message_text(error),
    }
}

/// Whether `response` is the endpoint's answer to a call that ended with
/// `result`.
pub open spec fn response_for(result: Result<String, BridgeError>, response: Response) -> bool {
    response_with(ERROR_PREFIX@, result, response)
}

/// The answer to a call that ended with `result`, where the body of an error
/// opens with `prefix`: success only for a call that succeeded, and no error
/// is ever dressed as one.
pub fn respond_with(prefix: &str, result: Result<String, BridgeError>) -> (r: Response)
    ensures
        response_with(prefix@, result, r),
        r.status == STATUS_OK <==> result is Ok,
{
    match result {
        Ok(text) => Response { status: STATUS_OK, body: text },
        Err(error) => {
            let mut body = String::from_str(prefix);
            let message = error.message();
            body.append(message.as_str());
            Response { status: STATUS_INTERNAL_ERROR, body }
        },
    }
}

/// The endpoint's answer to a call that ended with `result`.
pub fn respond(result: Result<String, BridgeError>) -> (r: Response)
    ensures
        response_for(result, r),
        r.status == STATUS_OK <==> result is Ok,
{
    respond_with(ERROR_PREFIX, result)
}

/// A service that cannot be resolved is answered as an error that says so,
/// never as a success: whatever the runtime reported while resolving it, the
/// error is `ServiceNotFoundError` and the status is 500.
pub proof fn lemma_unresolved_service_is_an_error(
    prefix: Seq<char>,
    kind: FailureKind,
    text: String,
    response: Response,
)
    requires
        response_with(prefix, Err(classify_spec(Stage::Resolve, kind, text)), response),
    ensures
        classify_spec(Stage::Resolve, kind, text) is ServiceNotFoundError,
        response.status == STATUS_INTERNAL_ERROR,
        response.status != STATUS_OK,
{
}

/// Creates a record through the runtime that `handle` stores, and answers
/// for the transport: attaches the calling thread, builds an executor for
/// the runtime of that thread, and makes the call.
pub fn create_incident_endpoint(
    handle: &RuntimeHandle<JavaVM>,
    title: &str,
    description: &str,
    priority: &str,
) -> (r: Response)
    requires
        handle.stored() is Some,
    ensures
        exists|result|
            operation_may_return(3, seq![title, description, priority], result) && response_for(
                result,
                r,
            ),
{
    let jvm: Arc<JavaVM> = get_jvm(handle);
    let guard = match attach_env(&jvm) {
        Ok(guard) => guard,
        Err(failure) => {
            return respond(Err(report(Stage::Attach, &failure)));
        },
    };
    let executor = match JniExecutor::from_env(&guard) {
        Ok(executor) => executor,
        Err(error) => {
            return respond(Err(error));
        },
    };
    respond(executor.create_incident(title, description, priority))
}

} // verus!
