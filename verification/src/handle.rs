//! The metrics handle: the one mutable view of the host's counters.
//!
//! The counters of a handle are stale until they are refreshed, and a reading
//! belongs to the refresh before it only while nobody else touches the handle
//! in between. A handle shared behind a lock serves one caller at a time.
//!
//! The memory snapshot refreshes and reads in one call. The CPU refresh is
//! the caller's step: `sysinfo` writes the new usages into its cached list of
//! cores by position and does not return on a host that has gained cores
//! since the list was made, so no function here makes that call. The caller
//! makes it through [`MetricsHandle::system_mut`] and takes the snapshot
//! while it still holds the handle.

use crate::host::{
    available_bytes, core_count, core_usage, core_usages, system_with_cpu_and_memory,
    total_bytes, used_bytes,
};
use crate::snapshot::MemoryReading;
use sysinfo::System;
use vstd::prelude::*;

verus! {

/// The counters that a handle holds at one moment.
pub struct Counters {
    /// Usage of each logical core as a bit pattern, in the host's order.
    pub cores: Seq<u32>,
    /// Total memory in bytes.
    pub total: u64,
    /// Available memory in bytes.
    pub available: u64,
    /// Used memory in bytes, as the host library accounts for it.
    pub used: u64,
}

impl Counters {
    /// The used memory that a reading reports. A host that claims more
    /// available memory than it has gives no usable figure, and the reading
    /// then reports zero.
    pub open spec fn reported_used(self) -> u64 {
        if self.available <= self.total {
            self.used
        } else {
            0
        }
    }
}

/// The counters that `system` holds.
pub open spec fn counters_of(system: System) -> Counters {
    Counters {
        cores: core_usages(system),
        total: total_bytes(system),
        available: available_bytes(system),
        used: used_bytes(system),
    }
}

/// Exclusive access to the host's CPU and memory counters.
pub struct MetricsHandle {
    system: System,
}

impl View for MetricsHandle {
    type V = Counters;

    closed spec fn view(&self) -> Counters {
        counters_of(self.system)
    }
}

/// Copies the usage of every core out of `system`, in its order.
fn read_cores(system: &System) -> (per_core: Vec<u32>)
    ensures
        per_core@ == core_usages(*system),
{
    let count = core_count(system);
    let mut per_core: Vec<u32> = Vec::new();
    let mut index: usize = 0;
    while index < count
        invariant
            count == core_usages(*system).len(),
            index <= count,
            per_core@ == core_usages(*system).take(index as int),
        decreases count - index,
    {
        let bits = core_usage(system, index);
        per_core.push(bits);
        index = index + 1;
        assert(per_core@ =~= core_usages(*system).take(index as int));
    }
    assert(core_usages(*system).take(count as int) =~= core_usages(*system));
    per_core
}

impl MetricsHandle {
    /// Opens the handle with CPU and memory accounting switched on and a
    /// first refresh of both done.
    pub fn initialize() -> (handle: MetricsHandle) {
        MetricsHandle { system: system_with_cpu_and_memory() }
    }

    /// Lends out the `System` inside the handle, for the refresh that the
    /// caller makes itself. The handle holds afterwards whatever the caller
    /// left in it.
    pub fn system_mut(&mut self) -> (system: &mut System)
        ensures
            counters_of(*system) == old(self)@,
            final(self)@ == counters_of(*final(system)),
    {
        &mut self.system
    }

    /// Brings the memory counters up to date. The CPU counters stay as they
    /// were.
    pub fn refresh_memory(&mut self)
        ensures
            final(self)@.cores == old(self)@.cores,
    {
        self.system.refresh_memory();
    }

    /// Returns the usage of each logical core as the handle holds it, in the
    /// host's order. A host without cores gives an empty vector. The values
    /// are those of the caller's last refresh of the CPU counters.
    pub fn cpu_snapshot(&self) -> (per_core: Vec<u32>)
        ensures
            per_core@ == self@.cores,
    {
        read_cores(&self.system)
    }

    /// Refreshes the memory counters and returns them as the handle holds
    /// them afterwards. Where the host claims more available memory than it
    /// has, the used memory is reported as zero; the CPU counters stay as they
    /// were.
    pub fn memory_snapshot(&mut self) -> (reading: MemoryReading)
        ensures
            reading.total == final(self)@.total,
            reading.used == final(self)@.reported_used(),
            final(self)@.cores == old(self)@.cores,
    {
        self.refresh_memory();
        let total = self.system.total_memory();
        let available = self.system.available_memory();
        let used = if available <= total {
            self.system.used_memory()
        } else {
            0
        };
        MemoryReading { used, total }
    }
}

} // verus!
