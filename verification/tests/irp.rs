use windows_kernel_rs::irp::{IoStatusBlock, READ_FILL_BYTE, complete_irp, complete_irp_success, complete_irp_with_status, dispatch_create_close, dispatch_device_control, dispatch_read, dispatch_write, read_contents, read_needs_buffer};
use windows_kernel_rs::ntstatus::{STATUS_ACCESS_DENIED, STATUS_INSUFFICIENT_RESOURCES, STATUS_INVALID_BUFFER_SIZE, STATUS_SUCCESS, STATUS_UNSUCCESSFUL};

fn block() -> IoStatusBlock {
    IoStatusBlock { status: 123, information: 456 }
}

#[test]
fn completion_sets_status_and_information() {
    let mut io = block();
    assert_eq!(complete_irp(&mut io, STATUS_ACCESS_DENIED, 9), STATUS_ACCESS_DENIED);
    assert_eq!(io, IoStatusBlock { status: STATUS_ACCESS_DENIED, information: 9 });
    let mut io = block();
    assert_eq!(complete_irp_with_status(&mut io, STATUS_UNSUCCESSFUL), STATUS_UNSUCCESSFUL);
    assert_eq!(io, IoStatusBlock { status: STATUS_UNSUCCESSFUL, information: 0 });
    let mut io = block();
    assert_eq!(complete_irp_success(&mut io), STATUS_SUCCESS);
    assert_eq!(io, IoStatusBlock { status: STATUS_SUCCESS, information: 0 });
    let mut io = block();
    assert_eq!(dispatch_create_close(&mut io), STATUS_SUCCESS);
    assert_eq!(io, IoStatusBlock { status: STATUS_SUCCESS, information: 0 });
}

#[test]
fn device_control_accepts_every_code() {
    let mut io = block();
    assert_eq!(dispatch_device_control(&mut io, 0x8000_2000), STATUS_SUCCESS);
    assert_eq!(io, IoStatusBlock { status: STATUS_SUCCESS, information: 0 });
    let mut io = block();
    assert_eq!(dispatch_device_control(&mut io, 0x8000_2004), STATUS_SUCCESS);
    assert_eq!(io, IoStatusBlock { status: STATUS_SUCCESS, information: 0 });
}

#[test]
fn read_outcomes() {
    let mut io = block();
    assert!(!read_needs_buffer(0));
    assert_eq!(dispatch_read(&mut io, 0, true), STATUS_INVALID_BUFFER_SIZE);
    assert_eq!(io, IoStatusBlock { status: STATUS_INVALID_BUFFER_SIZE, information: 0 });
    let mut io = block();
    assert!(read_needs_buffer(16));
    assert_eq!(dispatch_read(&mut io, 16, false), STATUS_INSUFFICIENT_RESOURCES);
    assert_eq!(io, IoStatusBlock { status: STATUS_INSUFFICIENT_RESOURCES, information: 0 });
    let mut io = block();
    assert_eq!(dispatch_read(&mut io, 16, true), STATUS_SUCCESS);
    assert_eq!(io, IoStatusBlock { status: STATUS_SUCCESS, information: 16 });
}

#[test]
fn read_contents_are_fill_bytes() {
    assert_eq!(read_contents(0), Vec::<u8>::new());
    assert_eq!(read_contents(4), vec![5, 5, 5, 5]);
    assert_eq!(READ_FILL_BYTE, 5);
}

#[test]
fn write_reports_length() {
    let mut io = block();
    assert_eq!(dispatch_write(&mut io, 77), STATUS_SUCCESS);
    assert_eq!(io, IoStatusBlock { status: STATUS_SUCCESS, information: 77 });
}
