//! The record of what a driver's setup has created, and the releases that
//! undo it when the setup fails.
//!
//! Handles, routines and objects are identified by their addresses; the
//! registry callback by its cookie.
use vstd::prelude::*;

verus! {

/// One release that undoes a step of a driver's setup.
#[derive(Clone, Copy, Debug, PartialEq, Eq, Structural)]
pub enum CleanupAction {
    /// `IoDeleteDevice` on the device object.
    DeleteDevice(u64),
    /// `IoDeleteSymbolicLink` on the link name.
    DeleteSymbolicLink(u64),
    /// `PsSetCreateProcessNotifyRoutineEx(routine, TRUE)`.
    RemoveProcessNotify(u64),
    /// `PsRemoveCreateThreadNotifyRoutine(routine)`.
    RemoveThreadNotify(u64),
    /// `PsRemoveLoadImageNotifyRoutine(routine)`.
    RemoveImageLoadNotify(u64),
    /// `CmUnRegisterCallback(cookie)`.
    UnregisterRegistryCallback(i64),
    /// `FltUnregisterFilter(filter)`.
    UnregisterFilter(u64),
}

/// What the setup has created so far.
#[derive(Clone, Copy, Debug, PartialEq, Eq, Structural)]
pub struct Cleaner {
    pub device_object: Option<u64>,
    pub sym_link: Option<u64>,
    pub create_process_callback: Option<u64>,
    pub thread_process_callback: Option<u64>,
    pub load_image_callback: Option<u64>,
    pub registry_callback: Option<i64>,
    pub filter_handle: Option<u64>,
}

/// The release for a recorded object, if one was recorded.
pub open spec fn release_if<T>(slot: Option<T>, action: spec_fn(T) -> CleanupAction) -> Seq<CleanupAction> {
    match slot {
        Some(x) => seq![action(x)],
        None => Seq::empty(),
    }
}

/// The releases for everything recorded, in the order: device, symbolic
/// link, process, thread and image-load notifications, registry callback,
/// filter.
pub open spec fn cleanup_plan(c: Cleaner) -> Seq<CleanupAction> {
    release_if(c.device_object, |x: u64| CleanupAction::DeleteDevice(x))
        + release_if(c.sym_link, |x: u64| CleanupAction::DeleteSymbolicLink(x))
        + release_if(c.create_process_callback, |x: u64| CleanupAction::RemoveProcessNotify(x))
        + release_if(c.thread_process_callback, |x: u64| CleanupAction::RemoveThreadNotify(x))
        + release_if(c.load_image_callback, |x: u64| CleanupAction::RemoveImageLoadNotify(x))
        + release_if(c.registry_callback, |x: i64| CleanupAction::UnregisterRegistryCallback(x))
        + release_if(c.filter_handle, |x: u64| CleanupAction::UnregisterFilter(x))
}

/// Nothing recorded.
pub open spec fn empty_cleaner() -> Cleaner {
    Cleaner {
        device_object: None,
        sym_link: None,
        create_process_callback: None,
        thread_process_callback: None,
        load_image_callback: None,
        registry_callback: None,
        filter_handle: None,
    }
}

impl Cleaner {
    /// A record of nothing.
    pub fn new() -> (r: Self)
        ensures
            r == empty_cleaner(),
    {
        Cleaner {
            device_object: None,
            sym_link: None,
            create_process_callback: None,
            thread_process_callback: None,
            load_image_callback: None,
            registry_callback: None,
            filter_handle: None,
        }
    }

    /// Records the created device object.
    pub fn init_device(&mut self, device: u64)
        ensures
            *final(self) == (Cleaner { device_object: Some(device), ..*old(self) }),
    {
        self.device_object = Some(device);
    }

    /// Records the created symbolic link.
    pub fn init_symlink(&mut self, sym_link: u64)
        ensures
            *final(self) == (Cleaner { sym_link: Some(sym_link), ..*old(self) }),
    {
        self.sym_link = Some(sym_link);
    }

    /// Records the registered filter.
    pub fn init_filter_handle(&mut self, filter: u64)
        ensures
            *final(self) == (Cleaner { filter_handle: Some(filter), ..*old(self) }),
    {
        self.filter_handle = Some(filter);
    }

    /// Records the registered process-creation notification routine.
    pub fn init_process_create_callback(&mut self, callback: u64)
        ensures
            *final(self) == (Cleaner { create_process_callback: Some(callback), ..*old(self) }),
    {
        self.create_process_callback = Some(callback);
    }

    /// Records the registered thread-creation notification routine.
    pub fn init_thread_create_callback(&mut self, callback: u64)
        ensures
            *final(self) == (Cleaner { thread_process_callback: Some(callback), ..*old(self) }),
    {
        self.thread_process_callback = Some(callback);
    }

    /// Records the registered image-load notification routine.
    pub fn init_image_load_callback(&mut self, callback: u64)
        ensures
            *final(self) == (Cleaner { load_image_callback: Some(callback), ..*old(self) }),
    {
        self.load_image_callback = Some(callback);
    }

    /// Records the cookie of the registered registry callback.
    pub fn init_registry_callback(&mut self, cookie: i64)
        ensures
            *final(self) == (Cleaner { registry_callback: Some(cookie), ..*old(self) }),
    {
        self.registry_callback = Some(cookie);
    }

    /// The releases that undo everything recorded, in the order of
    /// `cleanup_plan`. The record itself is left as it is.
    pub fn clean(&mut self) -> (r: Vec<CleanupAction>)
        ensures
            *final(self) == *old(self),
            r@ == cleanup_plan(*old(self)),
    {
        let mut out: Vec<CleanupAction> = Vec::new();
        if let Some(x) = self.device_object {
            out.push(CleanupAction::DeleteDevice(x));
        }
        if let Some(x) = self.sym_link {
            out.push(CleanupAction::DeleteSymbolicLink(x));
        }
        if let Some(x) = self.create_process_callback {
            out.push(CleanupAction::RemoveProcessNotify(x));
        }
        if let Some(x) = self.thread_process_callback {
            out.push(CleanupAction::RemoveThreadNotify(x));
        }
        if let Some(x) = self.load_image_callback {
            out.push(CleanupAction::RemoveImageLoadNotify(x));
        }
        if let Some(x) = self.registry_callback {
            out.push(CleanupAction::UnregisterRegistryCallback(x));
        }
        if let Some(x) = self.filter_handle {
            out.push(CleanupAction::UnregisterFilter(x));
        }
        assert(out@ =~= cleanup_plan(*self));
        out
    }
}

} // verus!
