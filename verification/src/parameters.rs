//! The read and write parameters of an I/O stack location, decoded from the
//! bytes of its parameter union as laid out on x64.
use vstd::prelude::*;
use vstd::slice::slice_index_get;

verus! {

/// The size of the read and write parameters, in bytes.
pub const PARAMETERS_READ_SIZE: usize = 0x18;

/// The little-endian unsigned value of the four bytes at `off`.
pub open spec fn le_u32(b: Seq<u8>, off: int) -> int {
    b[off] + 0x100 * b[off + 1] + 0x1_0000 * b[off + 2] + 0x100_0000 * b[off + 3]
}

/// The little-endian unsigned value of the eight bytes at `off`.
pub open spec fn le_u64(b: Seq<u8>, off: int) -> int {
    le_u32(b, off) + 0x1_0000_0000 * le_u32(b, off + 4)
}

/// The parameters of a read (and, with the same layout, of a write): the
/// length at offset 0, the key at 8, the flags at 0x0C and the byte offset
/// at 0x10.
#[derive(Clone, Copy, Debug, PartialEq, Eq, Structural)]
pub struct ParametersRead {
    pub length: u32,
    pub key: u32,
    pub flags: u32,
    pub byte_offset: i64,
}

/// Write parameters share the layout of read parameters.
pub type ParametersWrite = ParametersRead;

/// The read parameters that the bytes `b` of a parameter union hold.
pub open spec fn spec_parameters_read(b: Seq<u8>) -> ParametersRead {
    ParametersRead {
        length: le_u32(b, 0) as u32,
        key: le_u32(b, 8) as u32,
        flags: le_u32(b, 0x0C) as u32,
        byte_offset: (le_u64(b, 0x10) as u64) as i64,
    }
}

/// The little-endian `u32` at `off`.
fn read_u32_le(b: &[u8], off: usize) -> (r: u32)
    requires
        off + 4 <= b@.len(),
    ensures
        r as int == le_u32(b@, off as int),
{
    let len = b.len();
    assert(off + 4 <= len);
    let b0 = *slice_index_get(b, off);
    let b1 = *slice_index_get(b, off + 1);
    let b2 = *slice_index_get(b, off + 2);
    let b3 = *slice_index_get(b, off + 3);
    let r = (b0 as u32) | ((b1 as u32) << 8u32) | ((b2 as u32) << 16u32) | ((b3 as u32) << 24u32);
    assert(r as int == b0 as int + 0x100 * b1 as int + 0x1_0000 * b2 as int + 0x100_0000 * b3 as int)
        by (bit_vector)
        requires
            r == (b0 as u32) | ((b1 as u32) << 8u32) | ((b2 as u32) << 16u32) | ((b3 as u32) << 24u32),
    ;
    r
}

/// The little-endian `u64` at `off`.
fn read_u64_le(b: &[u8], off: usize) -> (r: u64)
    requires
        off + 8 <= b@.len(),
    ensures
        r as int == le_u64(b@, off as int),
{
    let len = b.len();
    assert(off + 8 <= len);
    let lo = read_u32_le(b, off);
    let hi = read_u32_le(b, off + 4);
    let r = (lo as u64) | ((hi as u64) << 32u64);
    assert(r as int == lo as int + 0x1_0000_0000 * hi as int) by (bit_vector)
        requires
            r == (lo as u64) | ((hi as u64) << 32u64),
    ;
    r
}

/// Views of the parameter union of an I/O stack location.
pub struct Parameters();

impl Parameters {
    /// The union read as read parameters.
    pub fn Read(param: &[u8]) -> (r: ParametersRead)
        requires
            param@.len() >= PARAMETERS_READ_SIZE,
        ensures
            r == spec_parameters_read(param@),
    {
        let length = read_u32_le(param, 0);
        let key = read_u32_le(param, 8);
        let flags = read_u32_le(param, 0x0C);
        let offset = read_u64_le(param, 0x10);
        ParametersRead { length, key, flags, byte_offset: offset as i64 }
    }

    /// The union read as write parameters, which share the read layout.
    pub fn Write(param: &[u8]) -> (r: ParametersWrite)
        requires
            param@.len() >= PARAMETERS_READ_SIZE,
        ensures
            r == spec_parameters_read(param@),
    {
        Parameters::Read(param)
    }
}

/// The write parameters of a stack location (the monitoring driver's
/// `ParametersWrite`): the same decoding as `Parameters::Write`.
pub fn ParametersWrite(param: &[u8]) -> (r: ParametersWrite)
    requires
        param@.len() >= PARAMETERS_READ_SIZE,
    ensures
        r == spec_parameters_read(param@),
{
    Parameters::Write(param)
}

} // verus!
