use windows_kernel_rs::file_monitor::{FileEventOutcome, MonitorPreop, PROCESS_NAME_BUFFER_SIZE, PROCESS_NAME_QUERY_LENGTH, monitor_pre_create, monitor_pre_set_information, new_seen_lengths, process_file_event, reserve_seen_lengths};
use windows_kernel_rs::flt::FLT_PREOP_CALLBACK_STATUS;
use windows_kernel_rs::ntstatus::{STATUS_INFO_LENGTH_MISMATCH, STATUS_SUCCESS, STATUS_UNSUCCESSFUL};

fn outcome(recorded: bool, report_name: bool, free_buffer: bool) -> FileEventOutcome {
    FileEventOutcome { recorded, report_name, free_buffer }
}

#[test]
fn new_length_is_reported_once() {
    let mut seen = new_seen_lengths();
    assert_eq!(process_file_event(&mut seen, true, STATUS_SUCCESS, 60), outcome(true, true, true));
    assert!(seen.contains(&60));
    assert_eq!(process_file_event(&mut seen, true, STATUS_SUCCESS, 60), outcome(false, false, false));
    assert_eq!(process_file_event(&mut seen, true, STATUS_SUCCESS, 62), outcome(true, true, true));
    assert_eq!(seen.len(), 2);
}

#[test]
fn no_buffer_does_nothing() {
    let mut seen = new_seen_lengths();
    assert_eq!(process_file_event(&mut seen, false, STATUS_SUCCESS, 60), outcome(false, false, false));
    assert!(seen.is_empty());
}

#[test]
fn small_buffer_frees_and_stops() {
    let mut seen = new_seen_lengths();
    assert_eq!(
        process_file_event(&mut seen, true, STATUS_INFO_LENGTH_MISMATCH, 400),
        outcome(false, false, true)
    );
    assert!(seen.is_empty());
}

#[test]
fn failed_query_records_without_report() {
    let mut seen = new_seen_lengths();
    assert_eq!(process_file_event(&mut seen, true, STATUS_UNSUCCESSFUL, 0), outcome(true, false, false));
    assert!(seen.contains(&0));
    assert_eq!(process_file_event(&mut seen, true, STATUS_SUCCESS, 0), outcome(false, false, false));
}

#[test]
fn query_sizes() {
    assert_eq!(PROCESS_NAME_BUFFER_SIZE, 300);
    assert_eq!(PROCESS_NAME_QUERY_LENGTH as usize, PROCESS_NAME_BUFFER_SIZE - 2);
}

#[test]
fn monitor_preops_always_pass() {
    let pass = FLT_PREOP_CALLBACK_STATUS::FLT_PREOP_SUCCESS_NO_CALLBACK;
    assert_eq!(monitor_pre_create(), MonitorPreop { callback_status: pass, handle_event: true });
    assert_eq!(monitor_pre_set_information(true, STATUS_SUCCESS), MonitorPreop { callback_status: pass, handle_event: true });
    assert_eq!(monitor_pre_set_information(true, 0x103), MonitorPreop { callback_status: pass, handle_event: true });
    assert_eq!(monitor_pre_set_information(true, STATUS_UNSUCCESSFUL), MonitorPreop { callback_status: pass, handle_event: false });
    assert_eq!(monitor_pre_set_information(false, STATUS_SUCCESS), MonitorPreop { callback_status: pass, handle_event: false });
}

#[test]
fn reserved_seen_lengths_start_empty() {
    if let Some(seen) = reserve_seen_lengths() {
        assert!(seen.is_empty());
    }
}
