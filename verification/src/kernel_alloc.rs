//! The kernel pool allocator that backs the drivers' heap: its pool tags,
//! its choice of pool, and its allocation-failure report.
use vstd::prelude::*;
use vstd::string::StringExecFns;

verus! {

/// Nonpaged, no-execute pool (`POOL_FLAG_NON_PAGED`).
pub const POOL_FLAG_NON_PAGED: u64 = 0x0000_0000_0000_0040;

/// Nonpaged, executable pool (`POOL_FLAG_NON_PAGED_EXECUTE`).
pub const POOL_FLAG_NON_PAGED_EXECUTE: u64 = 0x0000_0000_0000_0080;

/// Paged pool (`POOL_FLAG_PAGED`).
pub const POOL_FLAG_PAGED: u64 = 0x0000_0000_0000_0100;

/// The allocator's pool tag: the bytes `TSUR` read as a little-endian `u32`.
pub const POOL_TAG: u32 = 0x5255_5354;

/// The file-activity monitor's pool tag: the bytes `RDER` read as a
/// little-endian `u32`.
pub const RAMON_POOL_TAG: u32 = 0x5245_4452;

/// The legacy pool types.
#[derive(Clone, Copy, Debug, PartialEq, Eq, Structural)]
pub enum PoolType {
    NonPagedPool,
    NonPagedPoolExecute,
    PagedPool,
}

impl PoolType {
    /// The numeric value of the pool type, in declaration order from 0.
    pub fn value(&self) -> (r: u32)
        ensures
            r == (match *self {
                PoolType::NonPagedPool => 0u32,
                PoolType::NonPagedPoolExecute => 1u32,
                PoolType::PagedPool => 2u32,
            }),
    {
        match self {
            PoolType::NonPagedPool => 0,
            PoolType::NonPagedPoolExecute => 1,
            PoolType::PagedPool => 2,
        }
    }
}

/// The little-endian value of four bytes.
pub open spec fn le_bytes_value(b: Seq<u8>) -> int {
    b[0] + 0x100 * b[1] + 0x1_0000 * b[2] + 0x100_0000 * b[3]
}

/// A pool tag from its four characters, as `u32::from_ne_bytes` reads them
/// on the little-endian machines the drivers run on.
pub fn pool_tag(tag: [u8; 4]) -> (r: u32)
    ensures
        r as int == le_bytes_value(tag@),
{
    let b0 = tag[0];
    let b1 = tag[1];
    let b2 = tag[2];
    let b3 = tag[3];
    let r = (b0 as u32) | ((b1 as u32) << 8u32) | ((b2 as u32) << 16u32) | ((b3 as u32) << 24u32);
    assert(r as int == b0 as int + 0x100 * b1 as int + 0x1_0000 * b2 as int + 0x100_0000 * b3 as int)
        by (bit_vector)
        requires
            r == (b0 as u32) | ((b1 as u32) << 8u32) | ((b2 as u32) << 16u32) | ((b3 as u32) << 24u32),
    ;
    r
}

/// The global allocator of the drivers, over `ExAllocatePool2`.
pub struct KernelAlloc;

impl KernelAlloc {
    /// The pool an allocation comes from: paged pool when the allocator is
    /// built for it, nonpaged pool otherwise.
    pub fn pool_flags(paged_pool: bool) -> (r: u64)
        ensures
            r == (if paged_pool { POOL_FLAG_PAGED } else { POOL_FLAG_NON_PAGED }),
    {
        if paged_pool {
            POOL_FLAG_PAGED
        } else {
            POOL_FLAG_NON_PAGED
        }
    }

    /// Whether an allocation that returned `pool_is_null` must be reported
    /// to the allocation-error handler: only a failed allocation, and only
    /// when the allocator is built to panic on failure; otherwise the null
    /// pointer is returned.
    pub fn reports_failure(pool_is_null: bool, alloc_panic: bool) -> (r: bool)
        ensures
            r == (pool_is_null && alloc_panic),
    {
        pool_is_null && alloc_panic
    }
}

/// The `Debug` text of the layout of `size` bytes aligned to `align`, or of
/// the error for a layout that cannot exist.
pub uninterp spec fn layout_debug_text(size: usize, align: usize) -> Seq<char>;

/// The `Debug` text of `Layout::from_size_align(size, align)`: the layout,
/// or the layout error when the size and alignment form no layout.
#[verifier::external_body]
fn layout_debug(size: usize, align: usize) -> (r: String)
    ensures
        r@ == layout_debug_text(size, align),
{
    match std::alloc::Layout::from_size_align(size, align) {
        Ok(layout) => format!("{:?}", layout),
        Err(e) => format!("{:?}", e),
    }
}

/// The prefix of the allocation-failure report.
pub open spec fn allocation_error_prefix() -> Seq<char> {
    "allocation error: "@
}

/// The report the allocation-error handler panics with.
pub fn alloc_error(size: usize, align: usize) -> (r: String)
    ensures
        r@ == allocation_error_prefix() + layout_debug_text(size, align),
{
    let mut msg = String::from_str("allocation error: ");
    let text = layout_debug(size, align);
    msg.append(text.as_str());
    msg
}

} // verus!
