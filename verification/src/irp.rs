//! Completion of I/O requests and the decisions of the dispatch routines of
//! the device drivers.
use crate::ntstatus::{STATUS_INSUFFICIENT_RESOURCES, STATUS_INVALID_BUFFER_SIZE, STATUS_SUCCESS};
use vstd::prelude::*;

verus! {

/// The byte every read from the zero device returns.
pub const READ_FILL_BYTE: u8 = 5;

/// The status block of an I/O request.
#[derive(Clone, Copy, Debug, PartialEq, Eq, Structural)]
pub struct IoStatusBlock {
    pub status: i32,
    pub information: usize,
}

/// Sets the request's status and information; the request is then handed to
/// `IoCompleteRequest`. Returns the status.
pub fn complete_irp(io_status: &mut IoStatusBlock, status: i32, info: usize) -> (r: i32)
    ensures
        *final(io_status) == (IoStatusBlock { status, information: info }),
        r == status,
{
    io_status.status = status;
    io_status.information = info;
    status
}

/// Completes the request with `status` and no information.
pub fn complete_irp_with_status(io_status: &mut IoStatusBlock, status: i32) -> (r: i32)
    ensures
        *final(io_status) == (IoStatusBlock { status, information: 0 }),
        r == status,
{
    complete_irp(io_status, status, 0)
}

/// Completes the request with success and no information.
pub fn complete_irp_success(io_status: &mut IoStatusBlock) -> (r: i32)
    ensures
        *final(io_status) == (IoStatusBlock { status: STATUS_SUCCESS, information: 0 }),
        r == STATUS_SUCCESS,
{
    complete_irp_with_status(io_status, STATUS_SUCCESS)
}

/// Create and close requests always succeed.
pub fn dispatch_create_close(io_status: &mut IoStatusBlock) -> (r: i32)
    ensures
        *final(io_status) == (IoStatusBlock { status: STATUS_SUCCESS, information: 0 }),
        r == STATUS_SUCCESS,
{
    complete_irp_success(io_status)
}

/// Device-control requests succeed whatever their control code: the
/// dispatch routine accepts every code it is given.
pub fn dispatch_device_control(io_status: &mut IoStatusBlock, control_code: u32) -> (r: i32)
    ensures
        r == STATUS_SUCCESS,
        *final(io_status) == (IoStatusBlock { status: STATUS_SUCCESS, information: 0 }),
{
    complete_irp_success(io_status)
}

/// A read of `len` bytes needs the caller's buffer mapped into system space
/// unless it is empty.
pub fn read_needs_buffer(len: u32) -> (r: bool)
    ensures
        r == (len != 0),
{
    len != 0
}

/// The answer to a read of `len` bytes: an empty read fails with
/// `STATUS_INVALID_BUFFER_SIZE`; a read whose buffer could not be mapped
/// fails with `STATUS_INSUFFICIENT_RESOURCES`; otherwise the buffer is filled
/// (see `read_contents`) and the read succeeds with `len` bytes.
pub fn dispatch_read(io_status: &mut IoStatusBlock, len: u32, buffer_mapped: bool) -> (r: i32)
    ensures
        len == 0 ==> r == STATUS_INVALID_BUFFER_SIZE && *final(io_status) == (IoStatusBlock {
            status: STATUS_INVALID_BUFFER_SIZE,
            information: 0,
        }),
        len != 0 && !buffer_mapped ==> r == STATUS_INSUFFICIENT_RESOURCES && *final(io_status) == (IoStatusBlock {
            status: STATUS_INSUFFICIENT_RESOURCES,
            information: 0,
        }),
        len != 0 && buffer_mapped ==> r == STATUS_SUCCESS && *final(io_status) == (IoStatusBlock {
            status: STATUS_SUCCESS,
            information: len as usize,
        }),
{
    if len == 0 {
        return complete_irp_with_status(io_status, STATUS_INVALID_BUFFER_SIZE);
    }
    if !buffer_mapped {
        return complete_irp_with_status(io_status, STATUS_INSUFFICIENT_RESOURCES);
    }
    complete_irp(io_status, STATUS_SUCCESS, len as usize)
}

/// The bytes a read of `len` bytes returns: `len` copies of the fill byte.
pub fn read_contents(len: u32) -> (r: Vec<u8>)
    ensures
        r@.len() == len,
        forall|i: int| 0 <= i < len ==> r@[i] == READ_FILL_BYTE,
{
    let mut v: Vec<u8> = Vec::new();
    let mut i: u32 = 0;
    while i < len
        invariant
            0 <= i <= len,
            v@.len() == i,
            forall|j: int| 0 <= j < i ==> v@[j] == READ_FILL_BYTE,
        decreases len - i,
    {
        v.push(READ_FILL_BYTE);
        i = i + 1;
    }
    v
}

/// A write of `len` bytes succeeds and reports them all written.
pub fn dispatch_write(io_status: &mut IoStatusBlock, len: u32) -> (r: i32)
    ensures
        r == STATUS_SUCCESS,
        *final(io_status) == (IoStatusBlock { status: STATUS_SUCCESS, information: len as usize }),
{
    complete_irp(io_status, STATUS_SUCCESS, len as usize)
}

} // verus!
