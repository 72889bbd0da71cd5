//! NT status values and the arithmetic helpers that drivers apply to
//! statuses, handles and device-control codes.
use vstd::prelude::*;

verus! {

/// `STATUS_SUCCESS`.
pub const STATUS_SUCCESS: i32 = 0;

/// `STATUS_UNSUCCESSFUL` (0xC0000001).
pub const STATUS_UNSUCCESSFUL: i32 = -1073741823i32;

/// `STATUS_INFO_LENGTH_MISMATCH` (0xC0000004).
pub const STATUS_INFO_LENGTH_MISMATCH: i32 = -1073741820i32;

/// `STATUS_INVALID_PARAMETER` (0xC000000D).
pub const STATUS_INVALID_PARAMETER: i32 = -1073741811i32;

/// `STATUS_INVALID_DEVICE_REQUEST` (0xC0000010).
pub const STATUS_INVALID_DEVICE_REQUEST: i32 = -1073741808i32;

/// `STATUS_ACCESS_DENIED` (0xC0000022).
pub const STATUS_ACCESS_DENIED: i32 = -1073741790i32;

/// `STATUS_INSUFFICIENT_RESOURCES` (0xC000009A).
pub const STATUS_INSUFFICIENT_RESOURCES: i32 = -1073741670i32;

/// `STATUS_INVALID_BUFFER_SIZE` (0xC0000206).
pub const STATUS_INVALID_BUFFER_SIZE: i32 = -1073741306i32;

/// `STATUS_INVALID_PARAMETER_2` (0xC00000F0).
pub const STATUS_INVALID_PARAMETER_2: i32 = -1073741584i32;

/// A status counts as success when it is not negative (`NT_SUCCESS`).
pub open spec fn spec_nt_success(status: i32) -> bool {
    status >= 0
}

/// `NT_SUCCESS(status)`: success and informational statuses are the
/// non-negative ones.
pub fn nt_success(status: i32) -> (r: bool)
    ensures
        r == spec_nt_success(status),
{
    status >= 0
}


/// `METHOD_BUFFERED` transfer type of a device-control code.
pub const METHOD_BUFFERED: u32 = 0;

/// `FILE_ANY_ACCESS` required-access field of a device-control code.
pub const FILE_ANY_ACCESS: u32 = 0;

/// The value of a control code built from in-range fields: the device type
/// in bits 16..32, the access in bits 14..16, the function in bits 2..14 and
/// the method in bits 0..2.
pub open spec fn spec_ctl_code_value(device_type: int, function: int, method: int, access: int) -> int {
    device_type * 65536 + access * 16384 + function * 4 + method
}

/// Fields that fit their bit ranges in a control code.
pub open spec fn ctl_fields_fit(device_type: u32, function: u32, method: u32, access: u32) -> bool {
    device_type < 0x10000 && function < 0x1000 && method < 4 && access < 4
}

/// The device type stored in a control code.
pub open spec fn ctl_device_type(code: u32) -> u32 {
    code >> 16u32
}

/// The required access stored in a control code.
pub open spec fn ctl_access(code: u32) -> u32 {
    (code >> 14u32) & 3u32
}

/// The function number stored in a control code.
pub open spec fn ctl_function(code: u32) -> u32 {
    (code >> 2u32) & 0xfffu32
}

/// The transfer method stored in a control code.
pub open spec fn ctl_method(code: u32) -> u32 {
    code & 3u32
}

/// `CTL_CODE(DeviceType, Function, Method, Access)`: packs the four fields of
/// a device I/O control code. Bits of a field that do not fit its range are
/// shifted out or overlap the next field exactly as the C macro does.
pub fn ctl_code(device_type: u32, function: u32, method: u32, access: u32) -> (r: u32)
    ensures
        r == (device_type << 16u32) | (access << 14u32) | (function << 2u32) | method,
        ctl_fields_fit(device_type, function, method, access) ==> r as int
            == spec_ctl_code_value(device_type as int, function as int, method as int, access as int),
{
    let r = (device_type << 16u32) | (access << 14u32) | (function << 2u32) | method;
    proof {
        if ctl_fields_fit(device_type, function, method, access) {
            assert(((device_type << 16u32) | (access << 14u32) | (function << 2u32) | method) as int
                == device_type as int * 65536 + access as int * 16384 + function as int * 4
                + method as int) by (bit_vector)
                requires
                    device_type < 0x10000u32,
                    function < 0x1000u32,
                    method < 4u32,
                    access < 4u32,
            ;
        }
    }
    r
}

/// Packing the fields of a control code and reading them back gives the same
/// fields, so two control codes built from in-range fields are equal exactly
/// when all their fields are equal.
pub proof fn lemma_ctl_code_fields(device_type: u32, function: u32, method: u32, access: u32)
    requires
        ctl_fields_fit(device_type, function, method, access),
    ensures
        ({
            let code = (device_type << 16u32) | (access << 14u32) | (function << 2u32) | method;
            &&& ctl_device_type(code) == device_type
            &&& ctl_access(code) == access
            &&& ctl_function(code) == function
            &&& ctl_method(code) == method
        }),
{
    assert({
        let code = (device_type << 16u32) | (access << 14u32) | (function << 2u32) | method;
        &&& code >> 16u32 == device_type
        &&& (code >> 14u32) & 3u32 == access
        &&& (code >> 2u32) & 0xfffu32 == function
        &&& code & 3u32 == method
    }) by (bit_vector)
        requires
            device_type < 0x10000u32,
            function < 0x1000u32,
            method < 4u32,
            access < 4u32,
    ;
}

/// The control code that the device-control dispatch routine accepts:
/// `CTL_CODE(0x8000, 0x800, METHOD_BUFFERED, FILE_ANY_ACCESS)`.
pub fn ioctl_request() -> (r: u32)
    ensures
        r == 0x8000_2000u32,
        r == (0x8000u32 << 16u32) | (FILE_ANY_ACCESS << 14u32) | (0x800u32 << 2u32) | METHOD_BUFFERED,
{
    let r = ctl_code(0x8000, 0x800, METHOD_BUFFERED, FILE_ANY_ACCESS);
    assert(ctl_fields_fit(0x8000u32, 0x800u32, METHOD_BUFFERED, FILE_ANY_ACCESS));
    r
}

/// `HandleToU32(handle)`: keeps the low 32 bits of a handle value.
pub fn handle_to_u32(handle: usize) -> (r: u32)
    ensures
        r as int == handle as int % 0x1_0000_0000,
{
    let r = handle as u32;
    assert((handle as u32) as u64 == (handle as u64) % 0x1_0000_0000u64) by (bit_vector);
    r
}

} // verus!
