//! One call of a remote operation from a thread that is attached to the
//! runtime: resolve the service, encode the arguments in their declared
//! order, invoke the operation, decode its result.
//!
//! A call is one round trip. The first step that fails ends it with one
//! typed error; nothing is retried and no partial result is returned.

use vstd::prelude::*;
use vstd::string::StringExecFns;

use jni::errors::Error;
use jni::objects::JClass;
use jni::JNIEnv;

use crate::error::BridgeError;
use crate::failure::{report_in, Stage};
use crate::jvm::{call_static, find_class, find_static_method};
use crate::marshal::{all_encodable, decode, encode_all};
use crate::signature::{descriptor_text, CallSignature};

verus! {

/// The detail of the error that refuses a call whose arguments are not as
/// many as its signature declares.
pub const ARITY_REFUSED: &'static str = "arguments do not match the signature";

/// Whether `args` can be handed to an operation that takes `arity`
/// arguments: they are as many, and each can be encoded.
pub open spec fn fits(arity: usize, args: Seq<&str>) -> bool {
    args.len() == arity && all_encodable(args)
}

/// Whether `result` can be the end of a call of an operation that takes
/// `arity` arguments with the arguments `args`, made from an attached
/// thread.
///
/// Such a call never fails for want of an attachment or of the runtime.
/// Where the arguments do not fit the operation, the call fails and the
/// operation is not invoked: either the service did not resolve, or the
/// arguments were refused.
pub open spec fn call_may_return(arity: usize, args: Seq<&str>, result: Result<String, BridgeError>)
    -> bool {
    match result {
        Ok(_) => fits(arity, args),
        Err(error) => {
            ||| error is ServiceNotFoundError
            ||| error is MarshalError
            ||| (error is RemoteInvocationError && fits(arity, args))
        },
    }
}

/// Resolves the service of `signature` and its operation, and returns the
/// service's class with the descriptor that the operation was found by.
/// Whatever fails here, the error is that the service was not found.
pub fn resolve<'local>(env: &mut JNIEnv<'local>, signature: &CallSignature) -> (r: Result<
    (JClass<'local>, String),
    BridgeError,
>)
    ensures
        r matches Ok((_, descriptor)) ==> descriptor@ == descriptor_text(signature.arity as nat),
        r matches Err(error) ==> error is ServiceNotFoundError,
{
    let class = match find_class(env, signature.service.as_str()) {
        Ok(class) => class,
        Err(failure) => {
            return Err(report_in(env, Stage::Resolve, &failure));
        },
    };
    let descriptor = signature.descriptor();
    match find_static_method(env, &class, signature.operation.as_str(), descriptor.as_str()) {
        Ok(()) => Ok((class, descriptor)),
        Err(failure) => Err(report_in(env, Stage::Resolve, &failure)),
    }
}

/// Whether `args` are as many as `signature` declares. Other counts are
/// refused with a marshalling error, before anything is encoded.
pub fn check_arity(signature: &CallSignature, args: &Vec<&str>) -> (r: Result<(), BridgeError>)
    ensures
        r is Ok <==> args@.len() == signature.arity,
        r matches Err(error) ==> (error matches BridgeError::MarshalError(detail) && detail@
            == ARITY_REFUSED@),
{
    if args.len() == signature.arity {
        Ok(())
    } else {
        Err(BridgeError::MarshalError(String::from_str(ARITY_REFUSED)))
    }
}

/// Calls the operation `signature` with `args` from the attached thread
/// whose environment is `env`.
///
/// The service and its operation are resolved first. The arguments are
/// then counted and encoded in their order, the operation is invoked, and
/// its result is decoded into an owned string. The first step that fails
/// ends the call with that step's error.
pub fn invoke(env: &mut JNIEnv, signature: &CallSignature, args: &Vec<&str>) -> (r: Result<
    String,
    BridgeError,
>)
    ensures
        call_may_return(signature.arity, args@, r),
{
    let (class, descriptor) = match resolve(env, signature) {
        Ok(resolved) => resolved,
        Err(error) => {
            return Err(error);
        },
    };
    match check_arity(signature, args) {
        Ok(()) => {},
        Err(error) => {
            return Err(error);
        },
    }
    let encoded = match encode_all(env, args) {
        Ok(encoded) => encoded,
        Err(error) => {
            return Err(error);
        },
    };
    let returned = match call_static(
        env,
        &class,
        signature.operation.as_str(),
        descriptor.as_str(),
        &encoded,
    ) {
        Ok(returned) => returned,
        Err(failure) => {
            return Err(report_in(env, Stage::Invoke, &failure));
        },
    };
    decode(env, &returned)
}

/// `invoke`, in the form that an executor runs inside an attachment: the
/// outer result is always `Ok`, so that the one error an executor can add
/// is its own failure to attach.
pub fn invoke_attached(env: &mut JNIEnv, signature: &CallSignature, args: &Vec<&str>) -> (r: Result<
    Result<String, BridgeError>,
    Error,
>)
    ensures
        r matches Ok(result) && call_may_return(signature.arity, args@, result),
{
    Ok(invoke(env, signature, args))
}

} // verus!
