use windows_kernel_rs::cleaner::{Cleaner, CleanupAction};
use windows_kernel_rs::driver_setup::{DriverSetup, SetupAction, SetupStep, sysmon_setup_steps, zero_setup_steps};
use windows_kernel_rs::ntstatus::{STATUS_ACCESS_DENIED, STATUS_SUCCESS, STATUS_UNSUCCESSFUL};

fn run(steps: Vec<SetupStep>, statuses: &[i32]) -> (Vec<SetupStep>, i32, Vec<CleanupAction>) {
    let mut setup = DriverSetup::new(steps);
    let mut performed = Vec::new();
    let mut action = setup.start();
    let mut i = 0;
    loop {
        match action {
            SetupAction::Perform(step) => {
                performed.push(step);
                let resource = 100 + i as u64;
                action = setup.advance(statuses[i], resource);
                i += 1;
            },
            SetupAction::Finish { status, cleanup } => return (performed, status, cleanup),
        }
    }
}

#[test]
fn sysmon_setup_succeeds() {
    let (performed, status, cleanup) = run(sysmon_setup_steps(), &[STATUS_SUCCESS; 6]);
    assert_eq!(performed, sysmon_setup_steps());
    assert_eq!(status, STATUS_SUCCESS);
    assert!(cleanup.is_empty());
}

#[test]
fn sysmon_setup_fails_at_thread_notify() {
    let statuses = [STATUS_SUCCESS, STATUS_SUCCESS, STATUS_SUCCESS, STATUS_ACCESS_DENIED, 0, 0];
    let (performed, status, cleanup) = run(sysmon_setup_steps(), &statuses);
    assert_eq!(performed.len(), 4);
    assert_eq!(status, STATUS_ACCESS_DENIED);
    assert_eq!(
        cleanup,
        vec![
            CleanupAction::DeleteDevice(100),
            CleanupAction::DeleteSymbolicLink(101),
            CleanupAction::RemoveProcessNotify(102),
        ]
    );
}

#[test]
fn sysmon_setup_fails_at_registry() {
    let statuses = [0, 0, 0, 0, 0, STATUS_UNSUCCESSFUL];
    let (_, status, cleanup) = run(sysmon_setup_steps(), &statuses);
    assert_eq!(status, STATUS_UNSUCCESSFUL);
    assert_eq!(
        cleanup,
        vec![
            CleanupAction::DeleteDevice(100),
            CleanupAction::DeleteSymbolicLink(101),
            CleanupAction::RemoveProcessNotify(102),
            CleanupAction::RemoveThreadNotify(103),
            CleanupAction::RemoveImageLoadNotify(104),
        ]
    );
}

#[test]
fn zero_setup_fails_at_device() {
    let (performed, status, cleanup) = run(zero_setup_steps(), &[STATUS_UNSUCCESSFUL]);
    assert_eq!(performed, vec![SetupStep::CreateDevice]);
    assert_eq!(status, STATUS_UNSUCCESSFUL);
    assert!(cleanup.is_empty());
}

#[test]
fn zero_setup_fails_at_symlink() {
    let (_, status, cleanup) = run(zero_setup_steps(), &[STATUS_SUCCESS, STATUS_ACCESS_DENIED]);
    assert_eq!(status, STATUS_ACCESS_DENIED);
    assert_eq!(cleanup, vec![CleanupAction::DeleteDevice(100)]);
}

#[test]
fn empty_setup_succeeds_at_once() {
    let (performed, status, cleanup) = run(Vec::new(), &[]);
    assert!(performed.is_empty());
    assert_eq!(status, STATUS_SUCCESS);
    assert!(cleanup.is_empty());
}

#[test]
fn registry_cookie_is_recorded_as_signed() {
    let mut setup = DriverSetup::new(vec![SetupStep::RegisterRegistryCallback, SetupStep::RegisterFilter]);
    setup.start();
    setup.advance(STATUS_SUCCESS, u64::MAX);
    match setup.advance(STATUS_UNSUCCESSFUL, 0) {
        SetupAction::Finish { cleanup, .. } => {
            assert_eq!(cleanup, vec![CleanupAction::UnregisterRegistryCallback(-1)])
        },
        other => panic!("unexpected {:?}", other),
    }
}

#[test]
fn cleaner_releases_in_fixed_order() {
    let mut c = Cleaner::new();
    assert!(c.clean().is_empty());
    c.init_filter_handle(7);
    c.init_registry_callback(-5);
    c.init_image_load_callback(6);
    c.init_thread_create_callback(5);
    c.init_process_create_callback(4);
    c.init_symlink(3);
    c.init_device(2);
    assert_eq!(
        c.clean(),
        vec![
            CleanupAction::DeleteDevice(2),
            CleanupAction::DeleteSymbolicLink(3),
            CleanupAction::RemoveProcessNotify(4),
            CleanupAction::RemoveThreadNotify(5),
            CleanupAction::RemoveImageLoadNotify(6),
            CleanupAction::UnregisterRegistryCallback(-5),
            CleanupAction::UnregisterFilter(7),
        ]
    );
    assert_eq!(c.clean().len(), 7);
}

#[test]
fn setup_returns_last_steps_informational_status() {
    let (performed, status, cleanup) = run(zero_setup_steps(), &[STATUS_SUCCESS, 0x4000_0000]);
    assert_eq!(performed.len(), 2);
    assert_eq!(status, 0x4000_0000);
    assert!(cleanup.is_empty());
    let (_, status, cleanup) = run(sysmon_setup_steps(), &[0, 1, 0, 0, 0, 0x103]);
    assert_eq!(status, 0x103);
    assert!(cleanup.is_empty());
}
