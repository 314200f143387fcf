//! The two snapshot records and the rules for their derived fields.
//!
//! A percentage is held as the bit pattern of an IEEE 754 single-precision
//! number. The arithmetic that produces a mean or a quotient is the caller's;
//! this module decides when that result is used and when the field is zero.

use vstd::prelude::*;

verus! {

/// The bit pattern of the percentage zero.
pub const ZERO_PERCENT: u32 = 0;

/// The bit pattern of the percentage one hundred.
pub const FULL_PERCENT: u32 = 0x42C8_0000;

/// Whether `bits` is the pattern of a number from zero to one hundred. The
/// patterns of the numbers from positive zero upwards are ordered as the
/// numbers are, so these are the patterns up to that of one hundred.
pub open spec fn is_percentage(bits: u32) -> bool {
    bits <= FULL_PERCENT
}

/// The memory counters of one reading, in bytes.
#[derive(Clone, Copy, Debug, PartialEq, Eq)]
pub struct MemoryReading {
    pub used: u64,
    pub total: u64,
}

/// The percentage of a memory record: the caller's quotient where there is
/// memory to divide by, zero where the host reports none.
pub open spec fn memory_percentage(total: u64, quotient: u32) -> u32 {
    if total > 0 {
        quotient
    } else {
        ZERO_PERCENT
    }
}

/// The overall usage of a CPU record: the caller's mean where at least one
/// core was read, zero where none was.
pub open spec fn overall_usage(per_core: Seq<u32>, mean: u32) -> u32 {
    if per_core.len() > 0 {
        mean
    } else {
        ZERO_PERCENT
    }
}

/// Memory use at one moment.
#[derive(Clone, Copy, Debug, PartialEq, Eq)]
pub struct MemoryInfo {
    pub used: u64,
    pub total: u64,
    pub percentage: u32,
}

impl MemoryInfo {
    /// A record never carries a percentage other than zero for a host without
    /// memory.
    pub open spec fn wf(&self) -> bool {
        self.total == 0 ==> self.percentage == ZERO_PERCENT
    }

    /// The record of `reading` and `quotient`.
    pub open spec fn assembled(reading: MemoryReading, quotient: u32) -> MemoryInfo {
        MemoryInfo {
            used: reading.used,
            total: reading.total,
            percentage: memory_percentage(reading.total, quotient),
        }
    }

    /// Builds the record of `reading`. `quotient` is the bit pattern of
    /// `used / total * 100` as the caller computed it; it is ignored when
    /// `total` is zero, so the caller may divide without testing the divisor.
    pub fn assemble(reading: MemoryReading, quotient: u32) -> (info: MemoryInfo)
        ensures
            info == MemoryInfo::assembled(reading, quotient),
            info.wf(),
    {
        let percentage = if reading.total > 0 {
            quotient
        } else {
            ZERO_PERCENT
        };
        MemoryInfo { used: reading.used, total: reading.total, percentage }
    }
}

/// What a CPU record stands for: the overall usage and the usage of each
/// logical core, in the order in which the host lists its cores.
pub struct CpuInfoView {
    pub overall: u32,
    pub per_core: Seq<u32>,
}

impl CpuInfoView {
    /// A record without cores never carries an overall usage other than zero.
    pub open spec fn wf(self) -> bool {
        self.per_core.len() == 0 ==> self.overall == ZERO_PERCENT
    }

    /// The record of `per_core` and `mean`.
    pub open spec fn assembled(per_core: Seq<u32>, mean: u32) -> CpuInfoView {
        CpuInfoView { overall: overall_usage(per_core, mean), per_core }
    }
}

/// CPU use at one moment.
#[derive(Clone, Debug, PartialEq, Eq)]
pub struct CpuInfo {
    pub overall: u32,
    pub per_core: Vec<u32>,
}

impl View for CpuInfo {
    type V = CpuInfoView;

    open spec fn view(&self) -> CpuInfoView {
        CpuInfoView { overall: self.overall, per_core: self.per_core@ }
    }
}

impl CpuInfo {
    /// A record without cores never carries an overall usage other than zero.
    pub open spec fn wf(&self) -> bool {
        self@.wf()
    }

    /// Builds the record of `per_core`, which is kept as it is. `mean` is the
    /// bit pattern of the arithmetic mean of `per_core` as the caller computed
    /// it; it is ignored when `per_core` is empty, so the caller may divide by
    /// the number of cores without testing it.
    pub fn assemble(per_core: Vec<u32>, mean: u32) -> (info: CpuInfo)
        ensures
            info@ == CpuInfoView::assembled(per_core@, mean),
            info.wf(),
    {
        let overall = if per_core.is_empty() {
            ZERO_PERCENT
        } else {
            mean
        };
        CpuInfo { overall, per_core }
    }
}

/// A record without cores has the overall usage zero, whatever mean was
/// handed in; a record with cores has the mean that was handed in.
pub proof fn overall_usage_by_cores(per_core: Seq<u32>, mean: u32)
    ensures
        per_core.len() == 0 ==> CpuInfoView::assembled(per_core, mean).overall == ZERO_PERCENT,
        per_core.len() > 0 ==> CpuInfoView::assembled(per_core, mean).overall == mean,
        CpuInfoView::assembled(per_core, mean).per_core == per_core,
{
}

/// The overall usage of a record lies from zero to one hundred if the mean
/// that was handed in does, and in any case if the record has no cores.
pub proof fn overall_usage_in_range(per_core: Seq<u32>, mean: u32)
    requires
        per_core.len() == 0 || is_percentage(mean),
    ensures
        is_percentage(CpuInfoView::assembled(per_core, mean).overall),
{
}

/// A record for a host without memory has the percentage zero, whatever
/// quotient was handed in; any other record has the quotient that was handed
/// in.
pub proof fn memory_percentage_by_total(reading: MemoryReading, quotient: u32)
    ensures
        reading.total == 0 ==> MemoryInfo::assembled(reading, quotient).percentage
            == ZERO_PERCENT,
        reading.total > 0 ==> MemoryInfo::assembled(reading, quotient).percentage == quotient,
{
}

/// A record keeps the byte counts of its reading, so one built from a reading
/// that uses no more memory than there is uses no more than there is.
pub proof fn memory_record_keeps_counts(reading: MemoryReading, quotient: u32)
    ensures
        MemoryInfo::assembled(reading, quotient).used == reading.used,
        MemoryInfo::assembled(reading, quotient).total == reading.total,
        reading.used <= reading.total ==> MemoryInfo::assembled(reading, quotient).used
            <= MemoryInfo::assembled(reading, quotient).total,
{
}

/// The percentage of a record lies from zero to one hundred if the quotient
/// that was handed in does, and in any case if the host reports no memory.
pub proof fn memory_percentage_in_range(reading: MemoryReading, quotient: u32)
    requires
        reading.total == 0 || is_percentage(quotient),
    ensures
        is_percentage(MemoryInfo::assembled(reading, quotient).percentage),
{
}

} // verus!
