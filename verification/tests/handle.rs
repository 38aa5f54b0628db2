use java_bridge::error::BridgeError;
use java_bridge::runtime::{get_jvm, init_jvm, on_load, try_get_jvm, RuntimeHandle, JNI_VERSION_1_8};

#[test]
fn fresh_handle_is_uninitialized() {
    let handle: RuntimeHandle<u32> = RuntimeHandle::new();
    assert!(!handle.is_initialized());
    assert!(matches!(try_get_jvm(&handle), Err(BridgeError::Uninitialized)));
}

#[test]
fn first_init_is_stored() {
    let mut handle: RuntimeHandle<u32> = RuntimeHandle::new();
    init_jvm(&mut handle, 7);
    assert!(handle.is_initialized());
    assert_eq!(*get_jvm(&handle), 7);
    assert_eq!(*try_get_jvm(&handle).unwrap(), 7);
}

#[test]
fn later_inits_change_nothing() {
    let mut handle: RuntimeHandle<String> = RuntimeHandle::new();
    init_jvm(&mut handle, String::from("first"));
    init_jvm(&mut handle, String::from("second"));
    init_jvm(&mut handle, String::from("third"));
    assert_eq!(get_jvm(&handle).as_str(), "first");
}

#[test]
fn get_shares_one_runtime() {
    let mut handle: RuntimeHandle<String> = RuntimeHandle::new();
    init_jvm(&mut handle, String::from("only"));
    let a = get_jvm(&handle);
    let b = get_jvm(&handle);
    assert!(std::sync::Arc::ptr_eq(&a, &b));
}

#[test]
fn on_load_stores_and_reports_version() {
    let mut handle: RuntimeHandle<u32> = RuntimeHandle::new();
    assert_eq!(on_load(&mut handle, 1), JNI_VERSION_1_8);
    assert_eq!(on_load(&mut handle, 2), jni::sys::JNI_VERSION_1_8);
    assert_eq!(*get_jvm(&handle), 1);
}
