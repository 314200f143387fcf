use host_metrics::{CpuInfo, MemoryInfo, MemoryReading, FULL_PERCENT, ZERO_PERCENT};

fn bits_of(values: &[f32]) -> Vec<u32> {
    values.iter().map(|value| value.to_bits()).collect()
}

fn mean_of(per_core: &[u32]) -> u32 {
    let sum: f32 = per_core.iter().map(|bits| f32::from_bits(*bits)).sum();
    (sum / per_core.len() as f32).to_bits()
}

fn quotient_of(reading: MemoryReading) -> u32 {
    ((reading.used as f64 / reading.total as f64 * 100.0) as f32).to_bits()
}

#[test]
fn zero_percent_is_the_number_zero() {
    assert_eq!(ZERO_PERCENT, 0.0f32.to_bits());
    assert_eq!(f32::from_bits(ZERO_PERCENT), 0.0);
}

#[test]
fn full_percent_is_the_number_one_hundred() {
    assert_eq!(FULL_PERCENT, 100.0f32.to_bits());
    assert_eq!(f32::from_bits(FULL_PERCENT), 100.0);
}

#[test]
fn patterns_up_to_full_percent_are_the_percentages() {
    let inside = [0.0f32, 1.0e-40, 1.0e-30, 0.5, 25.0, 50.0, 99.99999, 100.0];
    for value in inside {
        assert!(0.0 <= value && value <= 100.0);
        assert!(value.to_bits() <= FULL_PERCENT);
    }
    let outside = [100.00001f32, 150.0, 1.0e9, f32::INFINITY, f32::NAN, -1.0e-40, -1.0, -100.0];
    for value in outside {
        assert!(!(0.0 <= value && value <= 100.0));
        assert!(value.to_bits() > FULL_PERCENT);
    }
    assert!(f32::from_bits(FULL_PERCENT + 1) > 100.0);
    assert!(f32::from_bits(FULL_PERCENT - 1) < 100.0);
}

#[test]
fn records_in_range_stay_in_range() {
    let per_core = bits_of(&[12.5, 100.0, 0.0]);
    let cpu = CpuInfo::assemble(per_core.clone(), mean_of(&per_core));
    assert!(cpu.overall <= FULL_PERCENT);
    assert!(CpuInfo::assemble(Vec::new(), u32::MAX).overall <= FULL_PERCENT);
    let reading = MemoryReading { used: 3, total: 4 };
    let memory = MemoryInfo::assemble(reading, quotient_of(reading));
    assert!(memory.percentage <= FULL_PERCENT);
    assert!(memory.used <= memory.total);
    let none = MemoryInfo::assemble(MemoryReading { used: 0, total: 0 }, u32::MAX);
    assert!(none.percentage <= FULL_PERCENT);
}

#[test]
fn four_cores_average_to_twenty_five() {
    let per_core = bits_of(&[10.0, 20.0, 30.0, 40.0]);
    let mean = mean_of(&per_core);
    let info = CpuInfo::assemble(per_core.clone(), mean);
    assert_eq!(f32::from_bits(info.overall), 25.0);
    assert_eq!(info.overall, 0x41C8_0000);
    assert_eq!(info.per_core, per_core);
    assert_eq!(info.per_core, vec![0x4120_0000, 0x41A0_0000, 0x41F0_0000, 0x4220_0000]);
}

#[test]
fn no_cores_give_zero_overall() {
    let per_core: Vec<u32> = Vec::new();
    let mean = mean_of(&per_core);
    assert!(f32::from_bits(mean).is_nan());
    let info = CpuInfo::assemble(per_core, mean);
    assert_eq!(f32::from_bits(info.overall), 0.0);
    assert_eq!(info.overall, ZERO_PERCENT);
    assert!(info.per_core.is_empty());
}

#[test]
fn no_cores_ignore_any_mean() {
    for mean in [0u32, 1, 0x42C8_0000, 0x7FC0_0000, u32::MAX] {
        let info = CpuInfo::assemble(Vec::new(), mean);
        assert_eq!(info.overall, ZERO_PERCENT);
    }
}

#[test]
fn one_core_keeps_its_mean() {
    let per_core = bits_of(&[37.5]);
    let info = CpuInfo::assemble(per_core.clone(), mean_of(&per_core));
    assert_eq!(f32::from_bits(info.overall), 37.5);
    assert_eq!(info.per_core, per_core);
}

#[test]
fn cores_keep_their_order() {
    let per_core = bits_of(&[100.0, 0.0, 50.0, 0.0, 12.5]);
    let info = CpuInfo::assemble(per_core.clone(), 0x4220_0000);
    let read: Vec<f32> = info.per_core.iter().map(|bits| f32::from_bits(*bits)).collect();
    assert_eq!(read, vec![100.0, 0.0, 50.0, 0.0, 12.5]);
    assert_eq!(info.overall, 0x4220_0000);
}

#[test]
fn overall_of_cores_in_range_is_in_range() {
    let per_core = bits_of(&[0.0, 100.0, 100.0, 33.25, 99.5, 0.125]);
    let info = CpuInfo::assemble(per_core.clone(), mean_of(&per_core));
    let overall = f32::from_bits(info.overall);
    assert!(0.0 <= overall && overall <= 100.0);
    let expected = (0.0f32 + 100.0 + 100.0 + 33.25 + 99.5 + 0.125) / 6.0;
    assert_eq!(overall, expected);
}

#[test]
fn half_of_memory_is_fifty_percent() {
    let reading = MemoryReading { used: 4_000_000_000, total: 8_000_000_000 };
    let info = MemoryInfo::assemble(reading, quotient_of(reading));
    assert_eq!(info.used, 4_000_000_000);
    assert_eq!(info.total, 8_000_000_000);
    assert_eq!(f32::from_bits(info.percentage), 50.0);
    assert_eq!(info.percentage, 0x4248_0000);
}

#[test]
fn no_memory_gives_zero_percent() {
    let reading = MemoryReading { used: 0, total: 0 };
    let quotient = quotient_of(reading);
    assert!(f32::from_bits(quotient).is_nan());
    let info = MemoryInfo::assemble(reading, quotient);
    assert_eq!(info, MemoryInfo { used: 0, total: 0, percentage: ZERO_PERCENT });
    assert_eq!(f32::from_bits(info.percentage), 0.0);
}

#[test]
fn no_total_ignores_any_quotient() {
    for quotient in [1u32, 0x4248_0000, 0x7F80_0000, 0x7FC0_0000, u32::MAX] {
        let info = MemoryInfo::assemble(MemoryReading { used: 5, total: 0 }, quotient);
        assert_eq!(info.percentage, ZERO_PERCENT);
        assert_eq!(info.used, 5);
        assert_eq!(info.total, 0);
    }
}

#[test]
fn percentage_follows_the_quotient() {
    let cases: [(u64, u64, f32); 5] = [
        (0, 1, 0.0),
        (1, 1, 100.0),
        (1, 4, 25.0),
        (3, 8, 37.5),
        (u64::MAX, u64::MAX, 100.0),
    ];
    for (used, total, expected) in cases {
        let reading = MemoryReading { used, total };
        let info = MemoryInfo::assemble(reading, quotient_of(reading));
        assert_eq!(f32::from_bits(info.percentage), expected);
        let exact = used as f64 / total as f64 * 100.0;
        assert!((f32::from_bits(info.percentage) as f64 - exact).abs() <= 1.0e-4);
    }
}

#[test]
fn more_used_than_total_is_kept() {
    let reading = MemoryReading { used: 12, total: 8 };
    let info = MemoryInfo::assemble(reading, quotient_of(reading));
    assert_eq!(info.used, 12);
    assert_eq!(info.total, 8);
    assert_eq!(f32::from_bits(info.percentage), 150.0);
}
