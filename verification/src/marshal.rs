//! Marshalling of strings between native code and the runtime.
//!
//! The runtime's wire form of a string ends at a terminator character, so a
//! native string that holds one is refused rather than carried unfaithfully.
//! A runtime string is valid only while its thread stays attached; what is
//! decoded from it is an owned copy that may be kept for good.

use vstd::prelude::*;
use vstd::string::StringExecFns;

use jni::objects::JString;
use jni::JNIEnv;

use crate::error::BridgeError;
use crate::failure::{report_in, Stage};
use crate::jvm::{get_string, new_string};

verus! {

/// The character that ends a string on the wire.
pub const TERMINATOR: char = '\0';

/// The detail of the error that refuses a string with a terminator.
pub const TERMINATOR_REFUSED: &'static str = "string holds the terminator character";

/// Whether `text` holds the terminator character anywhere.
pub open spec fn has_terminator(text: Seq<char>) -> bool {
    exists|i: int| 0 <= i < text.len() && text[i] == TERMINATOR
}

/// Whether every one of `args` is free of the terminator character.
pub open spec fn all_encodable(args: Seq<&str>) -> bool {
    forall|i: int| 0 <= i < args.len() ==> !has_terminator(#[trigger] args[i]@)
}

/// Whether `text` holds the terminator character anywhere.
pub fn contains_terminator(text: &str) -> (r: bool)
    ensures
        r == has_terminator(text@),
{
    let mut found = false;
    for c in it: text.chars()
        invariant
            it.seq() == text@,
            found == (exists|i: int| 0 <= i < it.index() && text@[i] == TERMINATOR),
    {
        if c == TERMINATOR {
            found = true;
        }
    }
    found
}

/// The runtime string for `text`, valid while the thread of `env` stays
/// attached. A text that holds the terminator character is refused without
/// asking the runtime; any other failure is the runtime's.
pub fn encode<'local>(env: &mut JNIEnv<'local>, text: &str) -> (r: Result<
    JString<'local>,
    BridgeError,
>)
    ensures
        has_terminator(text@) ==> (r matches Err(BridgeError::MarshalError(detail)) && detail@
            == TERMINATOR_REFUSED@),
        r matches Err(error) ==> error is MarshalError,
{
    if contains_terminator(text) {
        return Err(BridgeError::MarshalError(String::from_str(TERMINATOR_REFUSED)));
    }
    match new_string(env, text) {
        Ok(string) => Ok(string),
        Err(failure) => Err(report_in(env, Stage::Encode, &failure)),
    }
}

/// An owned native copy of the runtime string `string`.
pub fn decode<'local>(env: &mut JNIEnv<'local>, string: &JString<'local>) -> (r: Result<
    String,
    BridgeError,
>)
    ensures
        r matches Err(error) ==> error is MarshalError,
{
    match get_string(env, string) {
        Ok(text) => Ok(text),
        Err(failure) => Err(report_in(env, Stage::Decode, &failure)),
    }
}

/// The runtime strings for `args`, in their order. Encoding stops at the
/// first argument that fails. No arguments are encoded without asking the
/// runtime, and a first argument that holds the terminator character is
/// refused before the runtime is asked anything.
pub fn encode_all<'local>(env: &mut JNIEnv<'local>, args: &Vec<&str>) -> (r: Result<
    Vec<JString<'local>>,
    BridgeError,
>)
    ensures
        r matches Ok(encoded) ==> encoded.len() == args.len() && all_encodable(args@),
        r matches Err(error) ==> error is MarshalError,
        args@.len() == 0 ==> r is Ok,
        (args@.len() > 0 && has_terminator(args@[0]@)) ==> (r matches Err(
            BridgeError::MarshalError(detail),
        ) && detail@ == TERMINATOR_REFUSED@),
{
    let mut encoded: Vec<JString<'local>> = Vec::new();
    let mut next: usize = 0;
    while next < args.len()
        invariant
            next <= args.len(),
            encoded.len() == next,
            forall|i: int| 0 <= i < next ==> !has_terminator(#[trigger] args@[i]@),
        decreases args.len() - next,
    {
        match encode(env, args[next]) {
            Ok(string) => encoded.push(string),
            Err(error) => {
                return Err(error);
            },
        }
        next = next + 1;
    }
    Ok(encoded)
}

} // verus!
