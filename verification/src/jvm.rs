//! The calls into the `jni` crate. Their contracts are trusted: nothing here
//! is proved, and what the runtime answers is known only when it runs.

use std::sync::Arc;
use vstd::prelude::*;

use jni::errors::Error;
use jni::objects::{JClass, JString, JThrowable, JValue};
use jni::{AttachGuard, Executor, JNIEnv, JavaVM};

use crate::call::{call_may_return, invoke_attached};
use crate::error::BridgeError;
use crate::failure::FailureKind;
use crate::signature::{descriptor_text, CallSignature};

verus! {

#[verifier::external_type_specification]
#[verifier::external_body]
pub struct ExJavaVM(JavaVM);

#[verifier::external_type_specification]
#[verifier::external_body]
pub struct ExError(Error);

#[verifier::external_type_specification]
#[verifier::external_body]
pub struct ExJNIEnv<'local>(JNIEnv<'local>);

#[verifier::external_type_specification]
#[verifier::external_body]
pub struct ExAttachGuard<'local>(AttachGuard<'local>);

#[verifier::external_type_specification]
#[verifier::external_body]
pub struct ExJClass<'local>(JClass<'local>);

#[verifier::external_type_specification]
#[verifier::external_body]
pub struct ExJString<'local>(JString<'local>);

#[verifier::external_type_specification]
#[verifier::external_body]
pub struct ExJThrowable<'local>(JThrowable<'local>);

#[verifier::external_type_specification]
#[verifier::external_body]
pub struct ExExecutor(Executor);

/// `JavaVM::attach_current_thread`: registers the calling thread with the
/// runtime unless it is registered already. The guard gives access to the
/// thread's environment and, when dropped, detaches the thread if this call
/// attached it. Whether the runtime accepts is not known beforehand.
#[verifier::external_body]
pub(crate) fn attach_env(jvm: &Arc<JavaVM>) -> (r: Result<AttachGuard<'_>, Error>) {
    jvm.attach_current_thread()
}

/// `DerefMut` of `AttachGuard`: the environment of the attached thread.
#[verifier::external_body]
pub(crate) fn guard_env_mut<'g, 'local>(guard: &'g mut AttachGuard<'local>) -> (r: &'g mut JNIEnv<
    'local,
>) {
    guard
}

/// `Deref` of `AttachGuard`: the environment of the attached thread.
#[verifier::external_body]
pub(crate) fn guard_env<'g, 'local>(guard: &'g AttachGuard<'local>) -> (r: &'g JNIEnv<'local>) {
    guard
}

/// `JNIEnv::get_java_vm`: the runtime that an environment belongs to.
#[verifier::external_body]
pub(crate) fn java_vm_of(env: &JNIEnv) -> (r: Result<JavaVM, Error>) {
    env.get_java_vm()
}

/// `Executor::new`: an executor that attaches threads to the given runtime.
#[verifier::external_body]
pub(crate) fn new_executor(jvm: Arc<JavaVM>) -> (r: Executor) {
    Executor::new(jvm)
}

/// `Executor::with_attached`: attaches the calling thread if it is not yet
/// attached, opens a frame for local references, runs `invoke_attached`
/// there and closes the frame. What comes back as `Ok` is what
/// `invoke_attached` returned; an `Err` is the binding's own failure to
/// attach or to manage the frame.
#[verifier::external_body]
pub(crate) fn with_attached(executor: &Executor, signature: &CallSignature, args: &Vec<&str>) -> (r:
    Result<Result<String, BridgeError>, Error>)
    ensures
        r matches Ok(result) ==> call_may_return(signature.arity, args@, result),
{
    executor.with_attached(|env| invoke_attached(env, signature, args))
}

/// `JNIEnv::find_class`: looks a class up by its name. Which classes the
/// runtime can load is not known beforehand.
#[verifier::external_body]
pub(crate) fn find_class<'local>(env: &mut JNIEnv<'local>, name: &str) -> (r: Result<
    JClass<'local>,
    Error,
>) {
    env.find_class(name)
}

/// `JNIEnv::get_static_method_id`: looks a static method of `class` up by
/// its name and descriptor. The identifier itself is not kept.
#[verifier::external_body]
pub(crate) fn find_static_method<'local>(
    env: &mut JNIEnv<'local>,
    class: &JClass<'local>,
    name: &str,
    descriptor: &str,
) -> (r: Result<(), Error>) {
    env.get_static_method_id(class, name, descriptor).map(|_| ())
}

/// `JNIEnv::new_string`: creates a runtime string from a native one.
#[verifier::external_body]
pub(crate) fn new_string<'local>(env: &mut JNIEnv<'local>, text: &str) -> (r: Result<
    JString<'local>,
    Error,
>) {
    env.new_string(text)
}

/// `JNIEnv::call_static_method`, followed by `JValueGen::l`: invokes the
/// static method `name` of `class` with the descriptor `descriptor` on the
/// given runtime strings, and takes the object out of the value returned.
/// The object is handed on as a string reference without being looked at.
///
/// The binding parses the descriptor and panics on one whose argument types
/// hold a method signature, so the descriptor has to be the one of as many
/// string arguments as are given.
#[verifier::external_body]
pub(crate) fn call_static<'local>(
    env: &mut JNIEnv<'local>,
    class: &JClass<'local>,
    name: &str,
    descriptor: &str,
    args: &Vec<JString<'local>>,
) -> (r: Result<JString<'local>, Error>)
    requires
        descriptor@ == descriptor_text(args@.len() as nat),
{
    let values: Vec<JValue> = args.iter().map(JValue::from).collect();
    env.call_static_method(class, name, descriptor, &values)?.l().map(JString::from)
}

/// `JNIEnv::get_string`, followed by the conversion of `JavaStr` into
/// `String`: copies a runtime string into an owned native one. The binding
/// refuses an object that is null or not a string.
#[verifier::external_body]
pub(crate) fn get_string<'local>(env: &mut JNIEnv<'local>, string: &JString<'local>) -> (r: Result<
    String,
    Error,
>) {
    env.get_string(string).map(String::from)
}

/// `JNIEnv::exception_occurred`: a reference to the exception that is
/// pending in the thread; a null reference where none is.
#[verifier::external_body]
pub(crate) fn pending_exception<'local>(env: &mut JNIEnv<'local>) -> (r: Result<
    JThrowable<'local>,
    Error,
>) {
    env.exception_occurred()
}

/// `JNIEnv::exception_clear`: ends the pending state of an exception, so
/// that the thread can call into the runtime again.
#[verifier::external_body]
pub(crate) fn clear_exception(env: &mut JNIEnv) -> (r: Result<(), Error>) {
    env.exception_clear()
}

/// `JNIEnv::call_method`, followed by `JValueGen::l`: calls the method
/// `name` of `throwable` with the descriptor `descriptor` and no arguments,
/// and takes the object out of the value returned. The binding refuses a
/// null reference, and a descriptor that does not parse or that declares
/// arguments.
#[verifier::external_body]
pub(crate) fn throwable_text<'local>(
    env: &mut JNIEnv<'local>,
    throwable: &JThrowable<'local>,
    name: &str,
    descriptor: &str,
) -> (r: Result<JString<'local>, Error>) {
    env.call_method(throwable, name, descriptor, &[])?.l().map(JString::from)
}

/// Tells the variants of `jni::errors::Error` apart.
#[verifier::external_body]
pub(crate) fn failure_kind(failure: &Error) -> (r: FailureKind) {
    match failure {
        Error::JavaException => FailureKind::JavaException,
        Error::MethodNotFound { .. } => FailureKind::MethodNotFound,
        Error::InvalidArgList(_) => FailureKind::InvalidArgList,
        Error::ParseFailed(_, _) => FailureKind::ParseFailed,
        Error::WrongJValueType(_, _) => FailureKind::WrongJValueType,
        Error::NullPtr(_) => FailureKind::NullPtr,
        Error::JniCall(_) => FailureKind::JniCall,
        _ => FailureKind::Other,
    }
}

/// `Display` of `jni::errors::Error`: the text of a failure.
#[verifier::external_body]
pub(crate) fn failure_text(failure: &Error) -> (r: String) {
    failure.to_string()
}

} // verus!
