use choco_solver::backend::flag_from_code;
use choco_solver::utils::{
    array_len, handle_array_create_call, handle_array_set_calls, int_array_create_call, int_array_get_calls,
    int_array_length_call, int_array_set_calls,
};
use choco_solver::{library_name, ArrayKind, Call, ChocoBackend, Handle, IsolateAction};

fn h(a: usize) -> Handle {
    Handle::new(a)
}

#[test]
fn handles_are_never_null() {
    assert_eq!(Handle::from_raw(0), None);
    assert_eq!(Handle::from_raw(4096).map(|x| x.addr()), Some(4096));
    assert_eq!(h(24).addr(), 24);
}

#[test]
fn flags() {
    assert!(!flag_from_code(0));
    assert!(flag_from_code(1));
    assert!(flag_from_code(-1));
}

#[test]
fn int_array_calls() {
    let a = h(64);
    assert_eq!(array_len(5), 5);
    assert_eq!(int_array_create_call(3), Call::IntArrayCreate { len: 3 });
    assert_eq!(
        int_array_set_calls(a, &[-10, 0, i32::MAX]),
        vec![
            Call::IntArraySet { array: a, value: -10, index: 0 },
            Call::IntArraySet { array: a, value: 0, index: 1 },
            Call::IntArraySet { array: a, value: i32::MAX, index: 2 },
        ]
    );
    assert_eq!(int_array_length_call(a), Call::IntArrayLength { array: a });
    assert_eq!(
        int_array_get_calls(a, 2),
        vec![Call::IntArrayGet { array: a, index: 0 }, Call::IntArrayGet { array: a, index: 1 }]
    );
    assert!(int_array_get_calls(a, 0).is_empty());
    assert!(int_array_set_calls(a, &[]).is_empty());
}

#[test]
fn handle_array_calls() {
    let a = h(64);
    assert_eq!(
        handle_array_create_call(ArrayKind::IntVar, 2),
        Call::ArrayCreate { kind: ArrayKind::IntVar, len: 2 }
    );
    assert_eq!(
        handle_array_set_calls(ArrayKind::Constraint, a, &[h(40), h(48)]),
        vec![
            Call::ArraySet { kind: ArrayKind::Constraint, array: a, item: h(40), index: 0 },
            Call::ArraySet { kind: ArrayKind::Constraint, array: a, item: h(48), index: 1 },
        ]
    );
}

#[test]
fn dll_folder_is_set_once() {
    let mut backend = ChocoBackend::new();
    assert_eq!(backend.set_dll_folder("C:/first".to_string()), Ok(()));
    assert_eq!(backend.set_dll_folder("C:/second".to_string()), Err(Some("C:/second".to_string())));
    assert_eq!(backend.dll_folder(Some("/from/env".to_string())), Some("C:/first".to_string()));
}

#[test]
fn dll_folder_from_environment_when_unset() {
    let mut backend = ChocoBackend::new();
    assert_eq!(backend.dll_folder(Some("/from/env".to_string())), Some("/from/env".to_string()));
    assert_eq!(backend.set_dll_folder("/late".to_string()), Err(Some("/late".to_string())));
    assert_eq!(backend.dll_folder(None), Some("/from/env".to_string()));

    let mut unset = ChocoBackend::new();
    assert_eq!(unset.dll_folder(None), None);
    assert_eq!(unset.set_dll_folder("/late".to_string()), Err(Some("/late".to_string())));
}

#[test]
fn library_file_name_wraps_base_name() {
    assert_eq!(library_name(true), "libchoco_capi");
    assert_eq!(library_name(false), "choco_capi");
    let mut backend = ChocoBackend::new();
    backend.set_dll_folder("/opt/choco".to_string()).unwrap();
    let loc = backend.library_location(false, None);
    assert_eq!(loc.folder, Some("/opt/choco".to_string()));
    assert!(loc.file_name.contains("choco_capi"));
    assert_ne!(loc.file_name, "choco_capi");
}

#[test]
fn first_thread_creates_isolate() {
    let mut backend = ChocoBackend::new();
    assert_eq!(backend.attach_action(), IsolateAction::Create);
    backend.record_isolate(h(4096));
    assert_eq!(backend.attach_action(), IsolateAction::Attach { isolate: h(4096) });
}
