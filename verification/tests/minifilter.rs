use windows_kernel_rs::minifilter::{CommAction, CommSetup, InitAction, Minifilter, MinifilterInit, factory_status, mock_on_command, on_command};
use windows_kernel_rs::ntstatus::{STATUS_ACCESS_DENIED, STATUS_INVALID_PARAMETER, STATUS_SUCCESS, STATUS_UNSUCCESSFUL};

fn mf(filter_handle: usize, server_port: isize, client_port: isize) -> Minifilter {
    Minifilter { filter_handle, server_port, client_port }
}

#[test]
fn factory_is_zeroed() {
    assert_eq!(Minifilter::factory(), mf(0, 0, 0));
    assert_eq!(factory_status(STATUS_UNSUCCESSFUL), STATUS_SUCCESS);
}

#[test]
fn deinit_and_close_comm() {
    let mut m = mf(10, 20, 30);
    assert_eq!(m.deinit(), Some(10));
    assert_eq!(m, mf(0, 20, 30));
    assert_eq!(m.deinit(), None);
    assert_eq!(m.close_comm(), Some(20));
    assert_eq!(m, mf(0, 0, 30));
    assert_eq!(m.close_comm(), None);
}

#[test]
fn comm_activity() {
    assert!(mf(1, 2, 3).is_comm_active());
    assert!(!mf(1, 0, 3).is_comm_active());
    assert!(!mf(1, 2, 0).is_comm_active());
}

#[test]
fn connect_and_disconnect() {
    assert_eq!(Minifilter::on_connect(None, 5), (STATUS_INVALID_PARAMETER, None));
    assert_eq!(Minifilter::on_connect(Some(mf(1, 2, 0)), 5), (STATUS_SUCCESS, Some(mf(1, 2, 5))));
    assert_eq!(Minifilter::on_disconnect(None), None);
    assert_eq!(Minifilter::on_disconnect(Some(mf(1, 2, 5))), Some(((1, 5), mf(1, 2, 0))));
}

#[test]
fn commands_always_succeed_with_empty_reply() {
    assert_eq!(on_command(true, 8, 16), (STATUS_SUCCESS, 0));
    assert_eq!(on_command(true, 2, 16), (STATUS_SUCCESS, 0));
    assert_eq!(on_command(false, 8, 16), (STATUS_SUCCESS, 0));
    assert_eq!(mock_on_command(4, 0), STATUS_SUCCESS);
}

#[test]
fn comm_setup_paths() {
    let (mut c, a) = CommSetup::new();
    assert_eq!(a, CommAction::BuildSecurityDescriptor);
    assert_eq!(
        c.advance(STATUS_SUCCESS, true),
        CommAction::Finish { status: STATUS_SUCCESS, free_security_descriptor: true }
    );

    let (mut c, _) = CommSetup::new();
    assert_eq!(c.advance(STATUS_UNSUCCESSFUL, false), CommAction::CreatePort);
    assert_eq!(
        c.advance(STATUS_SUCCESS, false),
        CommAction::Finish { status: STATUS_SUCCESS, free_security_descriptor: false }
    );

    let (mut c, _) = CommSetup::new();
    assert_eq!(c.advance(STATUS_UNSUCCESSFUL, true), CommAction::CreatePort);
    assert_eq!(
        c.advance(STATUS_SUCCESS, false),
        CommAction::Finish { status: STATUS_SUCCESS, free_security_descriptor: true }
    );

    let (mut c, _) = CommSetup::new();
    c.advance(STATUS_UNSUCCESSFUL, true);
    assert_eq!(
        c.advance(STATUS_ACCESS_DENIED, false),
        CommAction::Finish { status: STATUS_ACCESS_DENIED, free_security_descriptor: false }
    );
}

#[test]
fn init_success() {
    let mut m = Minifilter::factory();
    let (mut init, a) = MinifilterInit::new();
    assert_eq!(a, InitAction::RegisterFilter);
    m.filter_handle = 0x1000;
    assert_eq!(init.advance(&mut m, STATUS_SUCCESS), InitAction::InitCommChannel);
    m.server_port = 7;
    assert_eq!(init.advance(&mut m, STATUS_SUCCESS), InitAction::StartFiltering(0x1000));
    assert_eq!(
        init.advance(&mut m, STATUS_SUCCESS),
        InitAction::Finish { status: STATUS_SUCCESS, unregister_filter: None, close_server_port: None }
    );
    assert_eq!(m, mf(0x1000, 7, 0));
}

#[test]
fn init_fails_at_registration() {
    let mut m = Minifilter::factory();
    let (mut init, _) = MinifilterInit::new();
    assert_eq!(
        init.advance(&mut m, STATUS_ACCESS_DENIED),
        InitAction::Finish { status: STATUS_ACCESS_DENIED, unregister_filter: None, close_server_port: None }
    );
}

#[test]
fn init_fails_at_channel() {
    let mut m = Minifilter::factory();
    let (mut init, _) = MinifilterInit::new();
    m.filter_handle = 0x1000;
    init.advance(&mut m, STATUS_SUCCESS);
    assert_eq!(
        init.advance(&mut m, STATUS_UNSUCCESSFUL),
        InitAction::Finish { status: STATUS_UNSUCCESSFUL, unregister_filter: Some(0x1000), close_server_port: None }
    );
    assert_eq!(m.filter_handle, 0);
}

#[test]
fn init_fails_at_start() {
    let mut m = Minifilter::factory();
    let (mut init, _) = MinifilterInit::new();
    m.filter_handle = 0x1000;
    init.advance(&mut m, STATUS_SUCCESS);
    m.server_port = 9;
    init.advance(&mut m, STATUS_SUCCESS);
    assert_eq!(
        init.advance(&mut m, STATUS_UNSUCCESSFUL),
        InitAction::Finish { status: STATUS_UNSUCCESSFUL, unregister_filter: Some(0x1000), close_server_port: Some(9) }
    );
    assert_eq!(m, mf(0, 0, 0));
}
