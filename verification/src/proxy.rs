//! The typed operations of the remote service, as native functions.
//!
//! `JniService` attaches the calling thread for the length of one call and
//! adopts an attachment that the thread already holds. `JniExecutor` leaves
//! attachment to an executor of the binding, which a pool of worker threads
//! can share.

use std::sync::Arc;
use vstd::prelude::*;

use jni::{AttachGuard, Executor, JNIEnv, JavaVM};

use crate::call::{fits, invoke};
use crate::error::BridgeError;
use crate::failure::{report, Stage};
use crate::jvm::{attach_env, guard_env, guard_env_mut, java_vm_of, new_executor, with_attached};
use crate::signature::{change_status_signature, create_incident_signature, CallSignature};

verus! {

/// Whether `result` can be the end of an operation that takes `arity`
/// arguments, called with `args` from any thread.
///
/// An operation succeeds only where the arguments fit it, and it never
/// reports a missing runtime: it holds one. Where the arguments do not fit,
/// the remote operation is not invoked, so that the error is not a remote
/// one.
pub open spec fn operation_may_return(
    arity: usize,
    args: Seq<&str>,
    result: Result<String, BridgeError>,
) -> bool {
    match result {
        Ok(_) => fits(arity, args),
        Err(error) => {
            ||| error is AttachmentError
            ||| error is ServiceNotFoundError
            ||| error is MarshalError
            ||| (error is RemoteInvocationError && fits(arity, args))
        },
    }
}

/// The remote service, called from threads that attach for each call.
pub struct JniService {
    jvm: Arc<JavaVM>,
}

impl JniService {
    /// The service of the runtime that `env` belongs to.
    pub fn from_env(env: &JNIEnv) -> (r: Result<Self, BridgeError>)
        ensures
            r matches Err(error) ==> error is AttachmentError,
    {
        match java_vm_of(env) {
            Ok(jvm) => Ok(JniService { jvm: Arc::new(jvm) }),
            Err(failure) => Err(report(Stage::Attach, &failure)),
        }
    }

    fn get_env(&self) -> (r: Result<AttachGuard<'_>, BridgeError>)
        ensures
            r matches Err(error) ==> error is AttachmentError,
    {
        match attach_env(&self.jvm) {
            Ok(guard) => Ok(guard),
            Err(failure) => Err(report(Stage::Attach, &failure)),
        }
    }

    /// Calls `signature` with `args` inside an attachment of the calling
    /// thread. The attachment ends with the call, however the call ends.
    pub fn call(&self, signature: &CallSignature, args: &Vec<&str>) -> (r: Result<
        String,
        BridgeError,
    >)
        ensures
            operation_may_return(signature.arity, args@, r),
    {
        let mut guard = match self.get_env() {
            Ok(guard) => guard,
            Err(error) => {
                return Err(error);
            },
        };
        invoke(guard_env_mut(&mut guard), signature, args)
    }

    /// Creates a record and returns what the service answers.
    pub fn create_incident(&self, title: &str, description: &str, priority: &str) -> (r: Result<
        String,
        BridgeError,
    >)
        ensures
            operation_may_return(3, seq![title, description, priority], r),
    {
        let args: Vec<&str> = vec![title, description, priority];
        assert(args@ =~= seq![title, description, priority]);
        self.call(&create_incident_signature(), &args)
    }

    /// Changes the status of the record `id` and returns what the service
    /// answers.
    pub fn change_status(&self, id: &str, status: &str, assignee: &str, comment: &str) -> (r:
        Result<String, BridgeError>)
        ensures
            operation_may_return(4, seq![id, status, assignee, comment], r),
    {
        let args: Vec<&str> = vec![id, status, assignee, comment];
        assert(args@ =~= seq![id, status, assignee, comment]);
        self.call(&change_status_signature(), &args)
    }
}

/// The remote service, called through an executor that attaches each
/// thread once and gives every call a frame of its own.
///
/// What ends with a call is the frame, and with it every reference that the
/// call created. The attachment does not: the executor registers a thread
/// on its first call, as a daemon, and the thread stays registered until it
/// ends. A caller that needs a thread to be detached again after each call
/// uses `JniService`.
pub struct JniExecutor {
    executor: Executor,
}

impl JniExecutor {
    /// The service of the runtime that the attached thread of `env` belongs
    /// to.
    pub fn from_env(env: &AttachGuard) -> (r: Result<Self, BridgeError>)
        ensures
            r matches Err(error) ==> error is AttachmentError,
    {
        match java_vm_of(guard_env(env)) {
            Ok(jvm) => Ok(JniExecutor { executor: new_executor(Arc::new(jvm)) }),
            Err(failure) => Err(report(Stage::Attach, &failure)),
        }
    }

    /// Calls `signature` with `args` on a thread that the executor has
    /// attached.
    pub fn call(&self, signature: &CallSignature, args: &Vec<&str>) -> (r: Result<
        String,
        BridgeError,
    >)
        ensures
            operation_may_return(signature.arity, args@, r),
    {
        match with_attached(&self.executor, signature, args) {
            Ok(result) => result,
            Err(failure) => Err(report(Stage::Attach, &failure)),
        }
    }

    /// Creates a record and returns what the service answers.
    pub fn create_incident(&self, title: &str, description: &str, priority: &str) -> (r: Result<
        String,
        BridgeError,
    >)
        ensures
            operation_may_return(3, seq![title, description, priority], r),
    {
        let args: Vec<&str> = vec![title, description, priority];
        assert(args@ =~= seq![title, description, priority]);
        self.call(&create_incident_signature(), &args)
    }

    /// Changes the status of the record `id` and returns what the service
    /// answers.
    pub fn change_status(&self, id: &str, status: &str, assignee: &str, comment: &str) -> (r:
        Result<String, BridgeError>)
        ensures
            operation_may_return(4, seq![id, status, assignee, comment], r),
    {
        let args: Vec<&str> = vec![id, status, assignee, comment];
        assert(args@ =~= seq![id, status, assignee, comment]);
        self.call(&change_status_signature(), &args)
    }
}

} // verus!
