//! The kernel data store: the single container owning every piece of
//! kernel-side state a syscall handler reads or writes.
//!
//! A real harness holds one `Kernel` per test and passes it to every
//! handler by exclusive reference, so all mutation is serialized by
//! construction and no handler can run without a kernel.

use vstd::prelude::*;
use crate::expectations::{ExpectedSyscall, SyscallLogEntry};
use crate::grants::AllowDb;
use crate::upcalls::{upcall_slot_wf, QueuedUpcall, Upcall};

verus! {

/// What the kernel keeps of one registered driver: its identifier, the
/// number of upcall slots it declared, and the upcall each slot currently
/// holds.
pub struct DriverData {
    pub driver_number: u32,
    pub num_upcalls: u32,
    pub upcalls: Vec<Option<Upcall>>,
}

/// A registration carries one slot per declared upcall, and every installed
/// upcall has a non-zero callback reference.
pub open spec fn driver_wf(d: DriverData) -> bool {
    &&& d.upcalls@.len() == d.num_upcalls
    &&& forall|k: int| 0 <= k < d.upcalls@.len() ==> upcall_slot_wf(#[trigger] d.upcalls@[k])
}

/// Two registrations hold the same state.
pub open spec fn driver_eq(a: DriverData, b: DriverData) -> bool {
    &&& a.driver_number == b.driver_number
    &&& a.num_upcalls == b.num_upcalls
    &&& a.upcalls@ == b.upcalls@
}

/// Two driver registries hold the same state.
pub open spec fn drivers_eq(a: Seq<DriverData>, b: Seq<DriverData>) -> bool {
    &&& a.len() == b.len()
    &&& forall|k: int| 0 <= k < a.len() ==> driver_eq(a[k], b[k])
}

/// The shared kernel-side state: the append-only syscall log, the scripted
/// expectation queue, the buffer grant database, the driver registry and the
/// pending-upcall queue.
pub struct Kernel {
    pub syscall_log: Vec<SyscallLogEntry>,
    pub expected_syscalls: Vec<ExpectedSyscall>,
    pub allow_db: AllowDb,
    pub drivers: Vec<DriverData>,
    pub upcall_queue: Vec<QueuedUpcall>,
}

impl Kernel {
    /// No two registrations carry the same driver number.
    pub open spec fn drivers_unique(self) -> bool {
        forall|i: int, j: int|
            0 <= i < j < self.drivers@.len() ==> (#[trigger] self.drivers@[i]).driver_number != (
            #[trigger] self.drivers@[j]).driver_number
    }

    /// The kernel invariant: the grant database holds no overlapping
    /// same-mode ranges, driver numbers are unique, and every registration
    /// is well formed.
    pub open spec fn wf(self) -> bool {
        &&& self.allow_db.wf()
        &&& self.drivers_unique()
        &&& forall|k: int| 0 <= k < self.drivers@.len() ==> driver_wf(#[trigger] self.drivers@[k])
    }

    /// Whether a driver with this number is registered.
    pub open spec fn has_driver(self, driver_number: u32) -> bool {
        exists|k: int|
            0 <= k < self.drivers@.len() && self.drivers@[k].driver_number == driver_number
    }

    /// The registry index of the driver with this number.
    pub open spec fn driver_index(self, driver_number: u32) -> int {
        choose|k: int|
            0 <= k < self.drivers@.len() && self.drivers@[k].driver_number == driver_number
    }

    /// The number of upcall slots the driver with this number declared.
    pub open spec fn driver_num_upcalls(self, driver_number: u32) -> u32 {
        self.drivers@[self.driver_index(driver_number)].num_upcalls
    }

    /// The upcall currently installed in one slot of one driver.
    pub open spec fn slot(self, driver_number: u32, subscribe_number: u32) -> Option<Upcall> {
        self.drivers@[self.driver_index(driver_number)].upcalls@[subscribe_number as int]
    }

    /// A fresh kernel: nothing logged, nothing expected, nothing granted,
    /// no drivers, no pending upcalls.
    pub fn new() -> (k: Kernel)
        ensures
            k.wf(),
            k.syscall_log@.len() == 0,
            k.expected_syscalls@.len() == 0,
            k.allow_db.ro@.len() == 0,
            k.allow_db.rw@.len() == 0,
            k.drivers@.len() == 0,
            k.upcall_queue@.len() == 0,
    {
        Kernel {
            syscall_log: Vec::new(),
            expected_syscalls: Vec::new(),
            allow_db: AllowDb::new(),
            drivers: Vec::new(),
            upcall_queue: Vec::new(),
        }
    }

    /// Looks a driver number up in the registry.
    pub fn find_driver(&self, driver_number: u32) -> (r: Option<usize>)
        requires
            self.wf(),
        ensures
            r is Some <==> self.has_driver(driver_number),
            r matches Some(i) ==> 0 <= i < self.drivers@.len() && self.drivers@[
                i as int
            ].driver_number == driver_number && i == self.driver_index(driver_number),
    {
        let mut i: usize = 0;
        while i < self.drivers.len()
            invariant
                self.wf(),
                i <= self.drivers@.len(),
                forall|k: int| 0 <= k < i ==> self.drivers@[k].driver_number != driver_number,
            decreases self.drivers@.len() - i,
        {
            if self.drivers[i].driver_number == driver_number {
                proof {
                    let w = self.driver_index(driver_number);
                    assert(0 <= w < self.drivers@.len() && self.drivers@[w].driver_number
                        == driver_number);
                    if w < i {
                        assert(self.drivers@[w].driver_number != self.drivers@[
                            i as int
                        ].driver_number);
                    } else if w > i {
                        assert(self.drivers@[i as int].driver_number != self.drivers@[
                            w
                        ].driver_number);
                    }
                }
                return Some(i);
            }
            i += 1;
        }
        None
    }

    /// Registers a driver at harness setup: a driver number and the count of
    /// upcall slots it declares, each slot starting empty.  Refuses a driver
    /// number that is already registered.
    pub fn add_driver(&mut self, driver_number: u32, num_upcalls: u32) -> (r: bool)
        requires
            old(self).wf(),
        ensures
            final(self).wf(),
            r == !old(self).has_driver(driver_number),
            !r ==> drivers_eq(final(self).drivers@, old(self).drivers@),
            r ==> final(self).drivers@.len() == old(self).drivers@.len() + 1 && (forall|j: int|
                0 <= j < old(self).drivers@.len() ==> driver_eq(
                    final(self).drivers@[j],
                    old(self).drivers@[j],
                )) && final(self).has_driver(driver_number) && final(self).driver_num_upcalls(
                driver_number,
            ) == num_upcalls && (forall|s: int|
                0 <= s < num_upcalls ==> (#[trigger] final(self).slot(driver_number, s as u32))
                    is None),
            final(self).syscall_log@ == old(self).syscall_log@,
            final(self).expected_syscalls@ == old(self).expected_syscalls@,
            final(self).allow_db.ro@ == old(self).allow_db.ro@,
            final(self).allow_db.rw@ == old(self).allow_db.rw@,
            final(self).upcall_queue@ == old(self).upcall_queue@,
    {
        if self.find_driver(driver_number).is_some() {
            return false;
        }
        let mut upcalls: Vec<Option<Upcall>> = Vec::new();
        let mut s: u32 = 0;
        while s < num_upcalls
            invariant
                s <= num_upcalls,
                upcalls@.len() == s,
                forall|k: int| 0 <= k < s ==> upcalls@[k] is None,
            decreases num_upcalls - s,
        {
            upcalls.push(None);
            s += 1;
        }
        let data = DriverData { driver_number, num_upcalls, upcalls };
        self.drivers.push(data);
        proof {
            let n = old(self).drivers@.len() as int;
            assert(self.drivers@[n].driver_number == driver_number);
            let w = self.driver_index(driver_number);
            assert(0 <= w < self.drivers@.len() && self.drivers@[w].driver_number
                == driver_number);
            assert(w == n) by {
                if w < n {
                    assert(old(self).drivers@[w] == self.drivers@[w]);
                    assert(old(self).has_driver(driver_number));
                }
            }
        }
        true
    }

    /// Appends an expectation to the back of the expected-syscall queue.
    pub fn expect_syscall(&mut self, expected: ExpectedSyscall)
        requires
            old(self).wf(),
        ensures
            final(self).wf(),
            final(self).expected_syscalls@ == old(self).expected_syscalls@.push(expected),
            final(self).syscall_log@ == old(self).syscall_log@,
            final(self).allow_db.ro@ == old(self).allow_db.ro@,
            final(self).allow_db.rw@ == old(self).allow_db.rw@,
            drivers_eq(final(self).drivers@, old(self).drivers@),
            final(self).upcall_queue@ == old(self).upcall_queue@,
    {
        self.expected_syscalls.push(expected);
    }

    /// Queues a callback delivery for one subscription, as driver code does
    /// when it has an event to report.
    pub fn schedule_upcall(
        &mut self,
        driver_number: u32,
        subscribe_number: u32,
        arg0: u32,
        arg1: u32,
        arg2: u32,
    )
        requires
            old(self).wf(),
        ensures
            final(self).wf(),
            final(self).upcall_queue@ == old(self).upcall_queue@.push(
                QueuedUpcall {
                    id: crate::upcalls::UpcallId { driver_number, subscribe_number },
                    arg0,
                    arg1,
                    arg2,
                },
            ),
            final(self).syscall_log@ == old(self).syscall_log@,
            final(self).expected_syscalls@ == old(self).expected_syscalls@,
            final(self).allow_db.ro@ == old(self).allow_db.ro@,
            final(self).allow_db.rw@ == old(self).allow_db.rw@,
            drivers_eq(final(self).drivers@, old(self).drivers@),
    {
        let entry = QueuedUpcall {
            id: crate::upcalls::UpcallId { driver_number, subscribe_number },
            arg0,
            arg1,
            arg2,
        };
        self.upcall_queue.push(entry);
    }
}

} // verus!
