//! The boundary to `sysinfo`: what is taken on trust about its `System`.
//!
//! A `System` caches the counters that its last refresh read from the
//! operating system. The readers below return those cached values and never
//! touch the operating system themselves, so what they return is a function of
//! the `System` value alone. The four names give those values a place in
//! contracts; nothing is claimed about what a refresh stores in them.

use sysinfo::{CpuRefreshKind, MemoryRefreshKind, RefreshKind, System};
use vstd::prelude::*;

verus! {

#[verifier::external_type_specification]
#[verifier::external_body]
pub struct ExSystem(sysinfo::System);

/// The usage of each logical core that `system` holds, in the order of
/// `System::cpus`, each as the bit pattern of `Cpu::cpu_usage`.
pub uninterp spec fn core_usages(system: System) -> Seq<u32>;

/// The value that `System::total_memory` returns for `system`.
pub uninterp spec fn total_bytes(system: System) -> u64;

/// The value that `System::available_memory` returns for `system`.
pub uninterp spec fn available_bytes(system: System) -> u64;

/// The value that `System::used_memory` returns for `system`, where that call
/// is defined.
pub uninterp spec fn used_bytes(system: System) -> u64;

/// `System::new_with_specifics`, asked to load CPU and memory counters and
/// nothing else. Nothing is claimed about the counters it loaded.
#[verifier::external_body]
pub(crate) fn system_with_cpu_and_memory() -> (system: System) {
    System::new_with_specifics(
        RefreshKind::new()
            .with_cpu(CpuRefreshKind::everything())
            .with_memory(MemoryRefreshKind::everything()),
    )
}

/// `System::refresh_memory` rewrites the memory counters and leaves the list
/// of cores as it was. Nothing is claimed about the new counters.
pub assume_specification[ System::refresh_memory ](system: &mut System)
    ensures
        core_usages(*final(system)) == core_usages(*old(system)),
;

/// `System::total_memory` returns the cached total.
pub assume_specification[ System::total_memory ](system: &System) -> (bytes: u64)
    ensures
        bytes == total_bytes(*system),
;

/// `System::available_memory` returns the cached amount of available memory.
pub assume_specification[ System::available_memory ](system: &System) -> (bytes: u64)
    ensures
        bytes == available_bytes(*system),
;

/// `System::used_memory` returns the cached amount of used memory. On Linux
/// and Windows it is computed as total minus available with a plain `-`, which
/// overflows when more memory is available than exists; the precondition
/// leaves those states out.
pub assume_specification[ System::used_memory ](system: &System) -> (bytes: u64)
    requires
        available_bytes(*system) <= total_bytes(*system),
    ensures
        bytes == used_bytes(*system),
;

/// The length of the slice that `System::cpus` returns.
#[verifier::external_body]
pub(crate) fn core_count(system: &System) -> (count: usize)
    ensures
        count == core_usages(*system).len(),
{
    system.cpus().len()
}

/// `Cpu::cpu_usage` of the core at `index` in `System::cpus`, as its bit
/// pattern.
#[verifier::external_body]
pub(crate) fn core_usage(system: &System, index: usize) -> (bits: u32)
    requires
        index < core_usages(*system).len(),
    ensures
        bits == core_usages(*system)[index as int],
{
    system.cpus()[index].cpu_usage().to_bits()
}

} // verus!
