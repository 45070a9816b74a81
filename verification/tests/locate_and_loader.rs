use jvm_bridge::addressing::Addressing;
use jvm_bridge::failure::LocateError;
use jvm_bridge::loader::{on_loader_event, LoaderReply, PROCESS_ATTACH};
use jvm_bridge::locate::{
    locate_runtime, probe_outcome, ENUMERATION_EXPORT, MAX_INSTANCES, RUNTIME_LIBRARY,
};

#[test]
fn absent_library_is_dll_not_found() {
    assert_eq!(probe_outcome::<u32>(false, 0, None), Err(LocateError::DllNotFound));
}

#[test]
fn absent_library_wins_over_everything_else() {
    assert_eq!(probe_outcome(false, 1, Some(7u32)), Err(LocateError::DllNotFound));
    assert_eq!(probe_outcome(false, -3, Some(7u32)), Err(LocateError::DllNotFound));
}

#[test]
fn zero_instances_is_jvm_not_found() {
    assert_eq!(probe_outcome::<u32>(true, 0, None), Err(LocateError::JvmNotFound));
    assert_eq!(probe_outcome(true, 0, Some(7u32)), Err(LocateError::JvmNotFound));
}

#[test]
fn negative_count_is_jvm_not_found() {
    assert_eq!(probe_outcome(true, -1, Some(7u32)), Err(LocateError::JvmNotFound));
    assert_eq!(probe_outcome(true, i32::MIN, Some(7u32)), Err(LocateError::JvmNotFound));
}

#[test]
fn failed_handle_conversion_is_jvm_not_found() {
    assert_eq!(probe_outcome::<u32>(true, 1, None), Err(LocateError::JvmNotFound));
}

#[test]
fn first_instance_becomes_the_handle() {
    assert_eq!(probe_outcome(true, 1, Some(7u32)), Ok(7u32));
    assert_eq!(probe_outcome(true, MAX_INSTANCES, Some("vm")), Ok("vm"));
    assert_eq!(probe_outcome(true, i32::MAX, Some(9u8)), Ok(9u8));
}

#[test]
fn no_handle_without_library_or_instance() {
    assert!(matches!(locate_runtime(false, 0, None), Err(LocateError::DllNotFound)));
    assert!(matches!(locate_runtime(false, 1, None), Err(LocateError::DllNotFound)));
    assert!(matches!(locate_runtime(true, 0, None), Err(LocateError::JvmNotFound)));
    assert!(matches!(locate_runtime(true, 1, None), Err(LocateError::JvmNotFound)));
}

#[test]
fn probe_constants() {
    assert_eq!(RUNTIME_LIBRARY, "jvm.dll");
    assert_eq!(ENUMERATION_EXPORT, "JNI_GetCreatedJavaVMs");
    assert_eq!(MAX_INSTANCES, 1);
}

#[test]
fn process_attach_starts_the_worker() {
    assert_eq!(PROCESS_ATTACH, 1);
    assert_eq!(
        on_loader_event(PROCESS_ATTACH),
        LoaderReply { start_worker: true, accepted: true }
    );
}

#[test]
fn other_loader_events_do_nothing_and_succeed() {
    for reason in [0u32, 2, 3, 4, 17, u32::MAX] {
        assert_eq!(
            on_loader_event(reason),
            LoaderReply { start_worker: false, accepted: true }
        );
    }
}

#[test]
fn builtin_addressing_row() {
    let table = Addressing::builtin();
    assert_eq!(table.root_class, "ave");
    assert_eq!(table.root_accessor, "A");
    assert_eq!(table.root_signature, "()Lave;");
    assert_eq!(table.target_field, "h");
    assert_eq!(table.target_type, "Lbew;");
    assert_eq!(table.action_method, "d");
}
