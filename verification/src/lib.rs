//! Verified models of the logic of a family of Windows kernel drivers: kernel
//! string construction, status and control-code arithmetic, the bounded event
//! buffers, the delete-protection policy, minifilter registration and the
//! ordered driver setup with its cleanup.
#![allow(non_snake_case)]
#![allow(non_camel_case_types)]

pub mod ntstatus;
pub mod kernel_string;
pub mod bounded_queue;
pub mod text;
pub mod flt;
pub mod delprotect;
pub mod cleaner;
pub mod driver_setup;
pub mod file_monitor;
pub mod minifilter;
pub mod items;
pub mod irp;
pub mod mdl;
pub mod parameters;
pub mod kernel_alloc;
pub mod fast_mutex;
