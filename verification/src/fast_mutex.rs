//! The kernel fast mutex as the drivers lay it out and initialise it, the
//! locking interface they use, and small kernel helpers for handles, large
//! integers and the interrupt request level.
use vstd::prelude::*;

verus! {

/// The header of the fast mutex's event.
#[derive(Clone, Copy, Debug, PartialEq, Eq, Structural)]
pub struct DISPATCHER_HEADER {
    pub Type: u8,
    pub Absolute: u8,
    pub Size: u8,
    pub Inserted: u8,
    pub SignalState: i32,
    pub WaitListBlink: usize,
    pub WaitListFlink: usize,
}

/// A kernel fast mutex.
#[derive(Clone, Copy, Debug, PartialEq, Eq, Structural)]
pub struct FAST_MUTEX {
    pub Count: i32,
    pub Owner: usize,
    pub Contention: u32,
    pub Event: DISPATCHER_HEADER,
    pub OldIrql: u32,
}

impl FAST_MUTEX {
    /// The mutex as the drivers declare it before initialisation: everything
    /// zero except a contention count of 9.
    pub fn new() -> (r: Self)
        ensures
            r == (FAST_MUTEX {
                Count: 0,
                Owner: 0,
                Contention: 9,
                Event: DISPATCHER_HEADER {
                    Type: 0,
                    Absolute: 0,
                    Size: 0,
                    Inserted: 0,
                    SignalState: 0,
                    WaitListBlink: 0,
                    WaitListFlink: 0,
                },
                OldIrql: 0,
            }),
    {
        FAST_MUTEX {
            Count: 0,
            Owner: 0,
            Contention: 9,
            Event: DISPATCHER_HEADER {
                Type: 0,
                Absolute: 0,
                Size: 0,
                Inserted: 0,
                SignalState: 0,
                WaitListBlink: 0,
                WaitListFlink: 0,
            },
            OldIrql: 0,
        }
    }
}

/// The counters that `ExInitializeFastMutex` sets: the mutex becomes free
/// (count 1), with no owner and no contention. Its event, which
/// `ExInitializeFastMutex` also initialises as a non-signalled
/// synchronization event, is initialised by the caller with
/// `KeInitializeEvent`, a kernel call.
pub fn ExInitializeFastMutex(mutex: &mut FAST_MUTEX)
    ensures
        *final(mutex) == (FAST_MUTEX { Count: 1, Owner: 0, Contention: 0, ..*old(mutex) }),
{
    mutex.Count = 1;
    mutex.Owner = 0;
    mutex.Contention = 0;
}

/// A lock that can be initialised, taken and released.
pub trait Locker {
    fn Init(&mut self);

    fn Lock(&mut self);

    fn Unlock(&mut self);
}

/// `KeGetCurrentIrql`: the interrupt request level is the low byte of CR8.
pub fn KeGetCurrentIrql(cr8: u64) -> (r: u8)
    ensures
        r as int == cr8 as int % 0x100,
{
    let r = cr8 as u8;
    assert(r as u64 == cr8 % 0x100) by (bit_vector)
        requires
            r == cr8 as u8,
    ;
    r
}

/// `NtCurrentProcess`: the pseudo-handle of the current process, all bits
/// set.
pub fn NtCurrentProcess() -> (r: usize)
    ensures
        r == usize::MAX,
{
    usize::MAX
}

/// A 64-bit signed integer as the kernel passes it.
#[derive(Clone, Copy, Debug, PartialEq, Eq, Structural)]
pub struct LARGE_INTEGER {
    pub QuadPart: i64,
}

impl LARGE_INTEGER {
    /// Zero.
    pub fn new() -> (r: Self)
        ensures
            r.QuadPart == 0,
    {
        LARGE_INTEGER { QuadPart: 0 }
    }

    /// The given value, such as a time.
    pub fn new_from_i64(time: i64) -> (r: Self)
        ensures
            r.QuadPart == time,
    {
        LARGE_INTEGER { QuadPart: time }
    }
}

} // verus!
