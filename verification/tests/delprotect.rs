use windows_kernel_rs::bounded_queue::BoundedQueue;
use windows_kernel_rs::delprotect::{DelProtectAction, DelProtectEntry, FILE_DELETE_ON_CLOSE, MAX_ITEM_COUNT, PreopDecision, is_delete_allowed, new_protected_names, pre_create_decision, pre_set_information_decision, protect_command_shell, push_item_thread_safe, requests_delete_on_close, requests_deletion, reserve_protected_names};
use windows_kernel_rs::flt::{FILE_INFORMATION_CLASS, FLT_PREOP_CALLBACK_STATUS};
use windows_kernel_rs::kernel_string::UnicodeString;
use windows_kernel_rs::ntstatus::{STATUS_ACCESS_DENIED, STATUS_INSUFFICIENT_RESOURCES, STATUS_SUCCESS, STATUS_UNSUCCESSFUL};

fn name(s: &str) -> UnicodeString {
    UnicodeString::create(s)
}

fn protected(names: &[&str]) -> BoundedQueue<String> {
    let mut q = new_protected_names();
    for n in names {
        assert!(push_item_thread_safe(&mut q, n));
    }
    q
}

#[test]
fn cmd_is_refused() {
    let q = protected(&["\\cmd.exe"]);
    let img = name("\\Device\\HarddiskVolume3\\Windows\\System32\\cmd.exe");
    assert!(!is_delete_allowed(true, STATUS_SUCCESS, &img, &q));
}

#[test]
fn other_process_is_allowed() {
    let q = protected(&["\\cmd.exe"]);
    let img = name("\\Device\\HarddiskVolume3\\Windows\\explorer.exe");
    assert!(is_delete_allowed(true, STATUS_SUCCESS, &img, &q));
}

#[test]
fn failed_allocation_or_query_allows() {
    let q = protected(&["\\cmd.exe"]);
    let img = name("\\Windows\\System32\\cmd.exe");
    assert!(is_delete_allowed(false, STATUS_SUCCESS, &img, &q));
    assert!(is_delete_allowed(true, STATUS_UNSUCCESSFUL, &img, &q));
}

#[test]
fn empty_image_name_allows() {
    let q = protected(&[""]);
    let img = UnicodeString::default();
    assert!(is_delete_allowed(true, STATUS_SUCCESS, &img, &q));
    let img = name("x");
    assert!(!is_delete_allowed(true, STATUS_SUCCESS, &img, &q));
}

#[test]
fn any_listed_name_refuses() {
    let q = protected(&["\\notepad.exe", "\\cmd.exe"]);
    assert!(!is_delete_allowed(true, STATUS_SUCCESS, &name("C:\\x\\cmd.exe"), &q));
    assert!(!is_delete_allowed(true, STATUS_SUCCESS, &name("C:\\x\\notepad.exe"), &q));
    assert!(is_delete_allowed(true, STATUS_SUCCESS, &name("C:\\x\\cmd"), &q));
}

#[test]
fn protection_list_keeps_latest_names() {
    let mut q = new_protected_names();
    for i in 0..40 {
        assert!(push_item_thread_safe(&mut q, &format!("p{}", i)));
    }
    assert_eq!(q.len(), MAX_ITEM_COUNT);
    assert_eq!(q.get(0), "p8");
    assert_eq!(q.get(MAX_ITEM_COUNT - 1), "p39");
}

#[test]
fn reserve_and_protect_command_shell() {
    let mut q = reserve_protected_names().expect("reservation of 32 names");
    assert_eq!(q.len(), 0);
    assert_eq!(q.capacity(), MAX_ITEM_COUNT);
    assert!(protect_command_shell(&mut q));
    assert_eq!(q.len(), 1);
    assert_eq!(q.get(0), "\\cmd.exe");
}

#[test]
fn pre_create_decisions() {
    let deny = PreopDecision {
        callback_status: FLT_PREOP_CALLBACK_STATUS::FLT_PREOP_COMPLETE,
        io_status: Some(STATUS_ACCESS_DENIED),
    };
    let pass = PreopDecision {
        callback_status: FLT_PREOP_CALLBACK_STATUS::FLT_PREOP_SUCCESS_NO_CALLBACK,
        io_status: None,
    };
    assert_eq!(pre_create_decision(false, FILE_DELETE_ON_CLOSE, false), deny);
    assert_eq!(pre_create_decision(false, FILE_DELETE_ON_CLOSE | 0x40, false), deny);
    assert_eq!(pre_create_decision(false, FILE_DELETE_ON_CLOSE, true), pass);
    assert_eq!(pre_create_decision(true, FILE_DELETE_ON_CLOSE, false), pass);
    assert_eq!(pre_create_decision(false, 0x40, false), pass);
    assert!(requests_delete_on_close(false, 0x1000));
    assert!(!requests_delete_on_close(true, 0x1000));
    assert!(!requests_delete_on_close(false, 0x0FFF));
}

#[test]
fn pre_set_information_decisions() {
    let d = pre_set_information_decision(FILE_INFORMATION_CLASS::FileDispositionInformation, 1, true, STATUS_SUCCESS, false);
    assert_eq!(d.preop.callback_status, FLT_PREOP_CALLBACK_STATUS::FLT_PREOP_COMPLETE);
    assert_eq!(d.preop.io_status, Some(STATUS_ACCESS_DENIED));
    assert!(d.close_process_handle);

    let d = pre_set_information_decision(FILE_INFORMATION_CLASS::FileDispositionInformationEx, 1, true, STATUS_SUCCESS, true);
    assert_eq!(d.preop.callback_status, FLT_PREOP_CALLBACK_STATUS::FLT_PREOP_SUCCESS_NO_CALLBACK);
    assert_eq!(d.preop.io_status, None);
    assert!(d.close_process_handle);

    let d = pre_set_information_decision(FILE_INFORMATION_CLASS::FileDispositionInformation, 0, true, STATUS_SUCCESS, false);
    assert_eq!(d.preop.io_status, None);
    assert!(!d.close_process_handle);

    let d = pre_set_information_decision(FILE_INFORMATION_CLASS::FileRenameInformation, 1, true, STATUS_SUCCESS, false);
    assert_eq!(d.preop.io_status, None);
    assert!(!d.close_process_handle);

    let d = pre_set_information_decision(FILE_INFORMATION_CLASS::FileDispositionInformation, 1, false, STATUS_SUCCESS, false);
    assert_eq!(d.preop.io_status, None);
    assert!(!d.close_process_handle);

    let d = pre_set_information_decision(FILE_INFORMATION_CLASS::FileDispositionInformation, 1, true, STATUS_ACCESS_DENIED, false);
    assert_eq!(d.preop.io_status, None);
    assert!(!d.close_process_handle);

    assert!(requests_deletion(FILE_INFORMATION_CLASS::FileDispositionInformationEx, 7));
    assert!(!requests_deletion(FILE_INFORMATION_CLASS::FileBasicInformation, 1));
}

#[test]
fn entry_point_success() {
    let (mut e, a) = DelProtectEntry::new();
    assert_eq!(a, DelProtectAction::ReserveNames);
    assert_eq!(e.advance(STATUS_SUCCESS), DelProtectAction::RegisterFilter);
    assert_eq!(e.advance(STATUS_SUCCESS), DelProtectAction::StartFiltering);
    assert_eq!(
        e.advance(STATUS_SUCCESS),
        DelProtectAction::Finish { status: STATUS_SUCCESS, unregister_filter: false }
    );
}

#[test]
fn entry_point_failures() {
    let (mut e, _) = DelProtectEntry::new();
    assert_eq!(
        e.advance(STATUS_UNSUCCESSFUL),
        DelProtectAction::Finish { status: STATUS_INSUFFICIENT_RESOURCES, unregister_filter: false }
    );

    let (mut e, _) = DelProtectEntry::new();
    e.advance(STATUS_SUCCESS);
    assert_eq!(
        e.advance(STATUS_ACCESS_DENIED),
        DelProtectAction::Finish { status: STATUS_ACCESS_DENIED, unregister_filter: false }
    );

    let (mut e, _) = DelProtectEntry::new();
    e.advance(STATUS_SUCCESS);
    e.advance(STATUS_SUCCESS);
    assert_eq!(
        e.advance(STATUS_UNSUCCESSFUL),
        DelProtectAction::Finish { status: STATUS_UNSUCCESSFUL, unregister_filter: true }
    );
}
