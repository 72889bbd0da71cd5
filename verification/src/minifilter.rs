//! The file-activity monitor's minifilter object: its filter handle and
//! communication ports, the decisions of its port callbacks, and the steps
//! of its initialisation with their cleanup.
//!
//! Handles and ports are held by value; zero stands for none.
use crate::ntstatus::{nt_success, spec_nt_success, STATUS_INVALID_PARAMETER, STATUS_SUCCESS};
use vstd::prelude::*;

verus! {

/// The minifilter's state.
#[derive(Clone, Copy, Debug, PartialEq, Eq, Structural)]
pub struct Minifilter {
    pub filter_handle: usize,
    pub server_port: isize,
    pub client_port: isize,
}

impl Minifilter {
    /// The zeroed object the factory allocates.
    pub fn factory() -> (r: Minifilter)
        ensures
            r == (Minifilter { filter_handle: 0, server_port: 0, client_port: 0 }),
    {
        Minifilter { filter_handle: 0, server_port: 0, client_port: 0 }
    }

    /// Forgets the filter handle; the result is the handle to pass to
    /// `FltUnregisterFilter`, if there was one.
    pub fn deinit(&mut self) -> (r: Option<usize>)
        ensures
            old(self).filter_handle != 0 ==> r == Some(old(self).filter_handle),
            old(self).filter_handle == 0 ==> r is None,
            *final(self) == (Minifilter { filter_handle: 0, ..*old(self) }),
    {
        if self.filter_handle != 0 {
            let h = self.filter_handle;
            self.filter_handle = 0;
            Some(h)
        } else {
            None
        }
    }

    /// Whether both the server port and a client port are open.
    pub fn is_comm_active(&self) -> (r: bool)
        ensures
            r == (self.server_port != 0 && self.client_port != 0),
    {
        self.server_port != 0 && self.client_port != 0
    }

    /// Forgets the server port; the result is the port to pass to
    /// `FltCloseCommunicationPort`, if there was one.
    pub fn close_comm(&mut self) -> (r: Option<isize>)
        ensures
            old(self).server_port != 0 ==> r == Some(old(self).server_port),
            old(self).server_port == 0 ==> r is None,
            *final(self) == (Minifilter { server_port: 0, ..*old(self) }),
    {
        if self.server_port != 0 {
            let p = self.server_port;
            self.server_port = 0;
            Some(p)
        } else {
            None
        }
    }

    /// A client connected: without a server-port cookie the connection is
    /// refused with `STATUS_INVALID_PARAMETER`; otherwise the client port is
    /// kept and the connection accepted. The result is the status and the
    /// updated minifilter.
    pub fn on_connect(cookie: Option<Minifilter>, client_port: isize) -> (r: (i32, Option<Minifilter>))
        ensures
            cookie is None ==> r == (STATUS_INVALID_PARAMETER, None::<Minifilter>),
            cookie is Some ==> r == (STATUS_SUCCESS, Some(Minifilter { client_port, ..cookie->0 })),
    {
        match cookie {
            None => (STATUS_INVALID_PARAMETER, None),
            Some(mf) => (STATUS_SUCCESS, Some(Minifilter { client_port, ..mf })),
        }
    }

    /// The client disconnected: without a cookie nothing happens; otherwise
    /// the client port is closed and forgotten. The result is the filter
    /// handle and client port to pass to `FltCloseClientPort`, and the
    /// updated minifilter.
    pub fn on_disconnect(cookie: Option<Minifilter>) -> (r: Option<((usize, isize), Minifilter)>)
        ensures
            cookie is None ==> r is None,
            cookie is Some ==> r == Some(
                ((cookie->0.filter_handle, cookie->0.client_port), Minifilter { client_port: 0, ..cookie->0 }),
            ),
    {
        match cookie {
            None => None,
            Some(mf) => Some(((mf.filter_handle, mf.client_port), Minifilter { client_port: 0, ..mf })),
        }
    }
}

/// The handler of a message from the client; it does not look at the
/// message.
pub fn mock_on_command(in_size: u32, out_size: u32) -> (r: i32)
    ensures
        r == STATUS_SUCCESS,
{
    STATUS_SUCCESS
}

/// A message arrived: the reply length is set to zero, a message from a
/// connected client of at least four bytes goes to the message handler, and
/// the status is success either way. The result is the status and the reply
/// length.
pub fn on_command(cookie_present: bool, in_size: u32, out_size: u32) -> (r: (i32, u32))
    ensures
        r == (STATUS_SUCCESS, 0u32),
{
    if cookie_present && in_size >= 4 {
        return (mock_on_command(in_size, out_size), 0);
    }
    (STATUS_SUCCESS, 0)
}

/// What the communication-channel setup does next.
#[derive(Clone, Copy, Debug, PartialEq, Eq, Structural)]
pub enum CommAction {
    /// `FltBuildDefaultSecurityDescriptor`; report its status and whether it
    /// produced a descriptor.
    BuildSecurityDescriptor,
    /// `FltCreateCommunicationPort` with that descriptor; report its status.
    CreatePort,
    /// Return `status`, after freeing the security descriptor when
    /// `free_security_descriptor` is set.
    Finish { status: i32, free_security_descriptor: bool },
}

/// The communication-channel setup in progress.
#[derive(Clone, Copy, Debug, PartialEq, Eq, Structural)]
pub struct CommSetup {
    pub stage: u8,
    pub descriptor_present: bool,
}

impl CommSetup {
    /// The setup before its first step.
    pub fn new() -> (r: (CommSetup, CommAction))
        ensures
            r.0 == (CommSetup { stage: 0, descriptor_present: false }),
            r.1 == CommAction::BuildSecurityDescriptor,
    {
        (CommSetup { stage: 0, descriptor_present: false }, CommAction::BuildSecurityDescriptor)
    }

    /// Takes the outcome of the current step. The setup stops at the first
    /// call that succeeds, freeing the descriptor if there is one and
    /// returning that success; a failed descriptor build goes on to create
    /// the port; a failed port creation returns its status and keeps the
    /// descriptor.
    pub fn advance(&mut self, status: i32, descriptor_present: bool) -> (r: CommAction)
        requires
            old(self).stage <= 1,
        ensures
            old(self).stage == 0 && spec_nt_success(status) ==> r == (CommAction::Finish {
                status,
                free_security_descriptor: descriptor_present,
            }),
            old(self).stage == 0 && !spec_nt_success(status) ==> r == CommAction::CreatePort
                && *final(self) == (CommSetup { stage: 1, descriptor_present }),
            old(self).stage == 1 && spec_nt_success(status) ==> r == (CommAction::Finish {
                status,
                free_security_descriptor: old(self).descriptor_present,
            }),
            old(self).stage == 1 && !spec_nt_success(status) ==> r == (CommAction::Finish {
                status,
                free_security_descriptor: false,
            }),
    {
        if self.stage == 0 {
            if nt_success(status) {
                return CommAction::Finish { status, free_security_descriptor: descriptor_present };
            }
            self.stage = 1;
            self.descriptor_present = descriptor_present;
            CommAction::CreatePort
        } else {
            if nt_success(status) {
                CommAction::Finish { status, free_security_descriptor: self.descriptor_present }
            } else {
                CommAction::Finish { status, free_security_descriptor: false }
            }
        }
    }
}

/// What the minifilter's initialisation does next.
#[derive(Clone, Copy, Debug, PartialEq, Eq, Structural)]
pub enum InitAction {
    /// `FltRegisterFilter`; store the handle in the minifilter and report
    /// the status.
    RegisterFilter,
    /// Set up the communication channel and report its status.
    InitCommChannel,
    /// `FltStartFiltering` on the handle; report the status.
    StartFiltering(usize),
    /// Return `status`, after unregistering the filter handle in
    /// `unregister_filter` and closing the server port in `close_server_port`.
    Finish { status: i32, unregister_filter: Option<usize>, close_server_port: Option<isize> },
}

/// The minifilter's initialisation in progress.
#[derive(Clone, Copy, Debug, PartialEq, Eq, Structural)]
pub struct MinifilterInit {
    pub stage: u8,
    pub filter_registered: bool,
    pub comm_initialized: bool,
}

/// The cleanup after a failed step: the filter is unregistered when it was
/// registered and its handle is not zero; the server port is closed when the
/// channel was set up; the handle is cleared in either case.
pub open spec fn init_cleanup(init: MinifilterInit, mf: Minifilter, status: i32) -> (InitAction, Minifilter) {
    let unregister = if init.filter_registered && mf.filter_handle != 0 {
        Some(mf.filter_handle)
    } else {
        None
    };
    let mf1 = if init.filter_registered && mf.filter_handle != 0 {
        Minifilter { filter_handle: 0, ..mf }
    } else {
        mf
    };
    let close = if init.comm_initialized && mf1.server_port != 0 {
        Some(mf1.server_port)
    } else {
        None
    };
    let mf2 = if init.comm_initialized {
        Minifilter { filter_handle: 0, server_port: 0, ..mf1 }
    } else {
        mf1
    };
    (InitAction::Finish { status, unregister_filter: unregister, close_server_port: close }, mf2)
}

impl MinifilterInit {
    /// The initialisation before its first step.
    pub fn new() -> (r: (MinifilterInit, InitAction))
        ensures
            r.0 == (MinifilterInit { stage: 0, filter_registered: false, comm_initialized: false }),
            r.1 == InitAction::RegisterFilter,
    {
        (MinifilterInit { stage: 0, filter_registered: false, comm_initialized: false }, InitAction::RegisterFilter)
    }

    /// Takes the status of the current step. Registration, the channel and
    /// filtering follow one another while they succeed, and a successful
    /// start ends the initialisation with its status; the first failure ends
    /// it with that status after the cleanup of `init_cleanup`.
    pub fn advance(&mut self, mf: &mut Minifilter, status: i32) -> (r: InitAction)
        requires
            old(self).stage <= 2,
            old(self).filter_registered == (old(self).stage >= 1),
            old(self).comm_initialized == (old(self).stage >= 2),
        ensures
            final(self).filter_registered == (final(self).stage >= 1),
            final(self).comm_initialized == (final(self).stage >= 2),
            spec_nt_success(status) && old(self).stage == 0 ==> r == InitAction::InitCommChannel
                && final(self).stage == 1 && *final(mf) == *old(mf),
            spec_nt_success(status) && old(self).stage == 1 ==> r == InitAction::StartFiltering(
                old(mf).filter_handle,
            ) && final(self).stage == 2 && *final(mf) == *old(mf),
            spec_nt_success(status) && old(self).stage == 2 ==> r == (InitAction::Finish {
                status,
                unregister_filter: None,
                close_server_port: None,
            }) && *final(mf) == *old(mf),
            !spec_nt_success(status) ==> (r, *final(mf)) == init_cleanup(*old(self), *old(mf), status),
    {
        if nt_success(status) {
            if self.stage == 0 {
                self.stage = 1;
                self.filter_registered = true;
                return InitAction::InitCommChannel;
            } else if self.stage == 1 {
                self.stage = 2;
                self.comm_initialized = true;
                return InitAction::StartFiltering(mf.filter_handle);
            } else {
                return InitAction::Finish { status, unregister_filter: None, close_server_port: None };
            }
        }
        let mut unregister: Option<usize> = None;
        if self.filter_registered && mf.filter_handle != 0 {
            unregister = Some(mf.filter_handle);
            mf.filter_handle = 0;
        }
        let mut close: Option<isize> = None;
        if self.comm_initialized {
            close = mf.close_comm();
            mf.filter_handle = 0;
        }
        InitAction::Finish { status, unregister_filter: unregister, close_server_port: close }
    }
}

/// The status the factory returns for the driver: success, whatever the
/// initialisation returned.
pub fn factory_status(init_status: i32) -> (r: i32)
    ensures
        r == STATUS_SUCCESS,
{
    STATUS_SUCCESS
}

} // verus!
