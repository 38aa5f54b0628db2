//! The handle to the one runtime that is embedded in the process.
//!
//! The host loader stores the runtime once; after that the handle never
//! changes, and every thread may share it.

use std::sync::Arc;
use vstd::prelude::*;

use crate::error::BridgeError;

verus! {

/// The place where the process keeps its runtime: empty until the host
/// loader has called `init_jvm`, and unchanged from then on.
pub struct RuntimeHandle<V> {
    slot: Option<Arc<V>>,
}

/// What a handle that stores `stored` stores after one more initialization
/// with `jvm`: the first runtime stays, whatever comes later.
pub open spec fn after_init<V>(stored: Option<V>, jvm: V) -> Option<V> {
    if stored is Some {
        stored
    } else {
        Some(jvm)
    }
}

/// What a handle that stores `stored` stores after it was initialized with
/// each of `jvms` in turn.
pub open spec fn after_inits<V>(stored: Option<V>, jvms: Seq<V>) -> Option<V>
    decreases jvms.len(),
{
    if jvms.len() == 0 {
        stored
    } else {
        after_inits(after_init(stored, jvms[0]), jvms.drop_first())
    }
}

/// What asking a handle that stores `stored` for its runtime gives: the
/// runtime, or `Uninitialized` where none is stored.
pub open spec fn lookup<V>(stored: Option<V>) -> Result<V, BridgeError> {
    match stored {
        Some(jvm) => Ok(jvm),
        None => Err(BridgeError::Uninitialized),
    }
}

impl<V> RuntimeHandle<V> {
    /// The runtime that the handle stores, if any.
    pub closed spec fn stored(&self) -> Option<V> {
        match self.slot {
            Some(jvm) => Some(*jvm),
            None => None,
        }
    }

    /// A handle that stores no runtime yet.
    pub fn new() -> (r: Self)
        ensures
            r.stored() is None,
    {
        RuntimeHandle { slot: None }
    }

    /// Whether the host loader has stored a runtime.
    pub fn is_initialized(&self) -> (r: bool)
        ensures
            r == self.stored() is Some,
    {
        self.slot.is_some()
    }
}

/// Stores `jvm` in `handle` if the handle is empty, and does nothing
/// otherwise: of any number of calls only the first has an effect.
pub fn init_jvm<V>(handle: &mut RuntimeHandle<V>, jvm: V)
    ensures
        final(handle).stored() == after_init(old(handle).stored(), jvm),
{
    if handle.slot.is_none() {
        handle.slot = Some(Arc::new(jvm));
    }
}

/// The version of the runtime's native interface that the bridge expects.
pub const JNI_VERSION_1_8: i32 = 0x0001_0008;

/// What the host loader calls once when it loads the bridge: stores the
/// runtime, as `init_jvm` does, and answers with the interface version that
/// the bridge expects.
pub fn on_load<V>(handle: &mut RuntimeHandle<V>, jvm: V) -> (r: i32)
    ensures
        r == JNI_VERSION_1_8,
        final(handle).stored() == after_init(old(handle).stored(), jvm),
{
    init_jvm(handle, jvm);
    JNI_VERSION_1_8
}

/// The shared runtime. To ask before the host loader has stored one is an
/// ordering mistake of the program, not an input to handle: the caller has
/// to rule it out.
pub fn get_jvm<V>(handle: &RuntimeHandle<V>) -> (r: Arc<V>)
    requires
        handle.stored() is Some,
    ensures
        Some(*r) == handle.stored(),
{
    match &handle.slot {
        Some(jvm) => jvm.clone(),
        None => unreached(),
    }
}

/// The shared runtime, or `Uninitialized` where none was stored: never a
/// stale or made-up value.
pub fn try_get_jvm<V>(handle: &RuntimeHandle<V>) -> (r: Result<Arc<V>, BridgeError>)
    ensures
        match r {
            Ok(jvm) => lookup(handle.stored()) == Ok::<V, BridgeError>(*jvm),
            Err(error) => lookup(handle.stored()) == Err::<V, BridgeError>(error),
        },
{
    match &handle.slot {
        Some(jvm) => Ok(jvm.clone()),
        None => Err(BridgeError::Uninitialized),
    }
}

/// Asking before initialization fails, and fails in one way only: on an
/// empty handle the answer is `Uninitialized`, never a runtime, and on any
/// handle the answer is an error exactly where nothing is stored. Asking
/// changes nothing, since the handle is asked through a shared reference:
/// an initialization that follows still stores its runtime, which is then
/// the answer.
pub proof fn lemma_lookup_before_init_fails<V>(jvm: V)
    ensures
        lookup(None::<V>) == Err::<V, BridgeError>(BridgeError::Uninitialized),
        forall|stored: Option<V>| #[trigger] lookup(stored) is Err <==> stored is None,
        forall|stored: Option<V>| #[trigger]
            lookup(stored) is Ok ==> Some(lookup(stored)->Ok_0) == stored,
        after_init(None, jvm) == Some(jvm),
        lookup(after_init(None, jvm)) == Ok::<V, BridgeError>(jvm),
{
}

/// Initialization is idempotent: a handle that was empty and is then
/// initialized any number of times, at least once, stores exactly the
/// runtime of the first call.
pub proof fn lemma_first_init_wins<V>(first: V, later: Seq<V>)
    ensures
        after_inits(None, seq![first] + later) == Some(first),
{
    let all = seq![first] + later;
    assert(all[0] == first);
    assert(all.drop_first() =~= later);
    lemma_initialized_stays(first, later);
}

/// A handle that stores a runtime stores the same one after any further
/// initializations.
pub proof fn lemma_initialized_stays<V>(stored: V, jvms: Seq<V>)
    ensures
        after_inits(Some(stored), jvms) == Some(stored),
    decreases jvms.len(),
{
    if jvms.len() > 0 {
        lemma_initialized_stays(stored, jvms.drop_first());
    }
}

} // verus!
