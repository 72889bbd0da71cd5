use windows_kernel_rs::fast_mutex::{ExInitializeFastMutex, FAST_MUTEX, KeGetCurrentIrql, LARGE_INTEGER, Locker, NtCurrentProcess};

#[test]
fn fast_mutex_declared_then_initialised() {
    let mut m = FAST_MUTEX::new();
    assert_eq!((m.Count, m.Owner, m.Contention, m.OldIrql), (0, 0, 9, 0));
    m.OldIrql = 2;
    ExInitializeFastMutex(&mut m);
    assert_eq!((m.Count, m.Owner, m.Contention, m.OldIrql), (1, 0, 0, 2));
    assert_eq!(m.Event, FAST_MUTEX::new().Event);
}

#[test]
fn irql_is_low_byte_of_cr8() {
    assert_eq!(KeGetCurrentIrql(0), 0);
    assert_eq!(KeGetCurrentIrql(2), 2);
    assert_eq!(KeGetCurrentIrql(0x1_0F), 0x0F);
}

#[test]
fn current_process_pseudo_handle() {
    assert_eq!(NtCurrentProcess(), usize::MAX);
}

#[test]
fn large_integers() {
    assert_eq!(LARGE_INTEGER::new().QuadPart, 0);
    assert_eq!(LARGE_INTEGER::new_from_i64(-10_000_000).QuadPart, -10_000_000);
}

struct Counter {
    held: bool,
    inits: u32,
}

impl Locker for Counter {
    fn Init(&mut self) {
        self.inits += 1;
    }
    fn Lock(&mut self) {
        self.held = true;
    }
    fn Unlock(&mut self) {
        self.held = false;
    }
}

#[test]
fn locker_interface() {
    let mut c = Counter { held: false, inits: 0 };
    c.Init();
    c.Lock();
    assert!(c.held);
    c.Unlock();
    assert!(!c.held);
    assert_eq!(c.inits, 1);
}
