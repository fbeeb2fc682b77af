use sysmeter::MeasureError;
use sysmeter::Memory;
use sysmeter::MemorySnapshot;
use sysmeter::PercentUsage;
use sysmeter::Ratio;
use sysmeter::memory::memory_utilization;

fn snap(total: u64, used: u64) -> MemorySnapshot {
    MemorySnapshot {
        flags: 0,
        total,
        used,
        free: 0,
        shared: 0,
        buffer: 0,
        cached: 0,
        user: 0,
        locked: 0,
    }
}

#[test]
fn memory_is_available() {
    assert!(Memory::is_available());
}

#[test]
fn memory_percent_usage_exact() {
    // 250 of 1000 bytes in use: exactly one quarter.
    let mut mem = Memory::new(snap(0, 0));
    let r = mem.percent_usage(snap(1000, 250)).unwrap();
    assert_eq!(r, Ratio { num: 250, den: 1000 });
    assert_eq!(r.num as f64 / r.den as f64, 0.25);
}

#[test]
fn memory_percent_usage_zero_total_is_degenerate() {
    // A zero capacity gives an explicit error, never an infinity or a NaN.
    let mut mem = Memory::new(snap(1000, 250));
    let r = mem.percent_usage(snap(0, 250));
    assert_eq!(r, Err(MeasureError::DegenerateMeasurement));
}

#[test]
fn memory_percent_usage_clamps_to_one() {
    // An inconsistent snapshot with more in use than exists clamps to one.
    let mut mem = Memory::new(snap(0, 0));
    let r = mem.percent_usage(snap(100, 150)).unwrap();
    assert_eq!(r.num, r.den);
    assert_eq!(r.num as f64 / r.den as f64, 1.0);
}

#[test]
fn memory_percent_usage_full_and_empty() {
    let mut mem = Memory::new(snap(0, 0));
    let full = mem.percent_usage(snap(64, 64)).unwrap();
    assert_eq!(full.num as f64 / full.den as f64, 1.0);
    let empty = mem.percent_usage(snap(64, 0)).unwrap();
    assert_eq!(empty.num as f64 / empty.den as f64, 0.0);
}

#[test]
fn memory_utilization_never_nan_or_infinite() {
    let cases: [(u64, u64); 4] = [(0, 1), (1, u64::MAX), (u64::MAX, u64::MAX), (u64::MAX, 1)];
    for (used, total) in cases {
        let r = memory_utilization(used, total).unwrap();
        let v = r.num as f64 / r.den as f64;
        assert!(v.is_finite());
        assert!((0.0..=1.0).contains(&v));
    }
}

#[test]
fn memory_measure_overwrites_snapshot() {
    let first = MemorySnapshot {
        flags: 1,
        total: 2,
        used: 3,
        free: 4,
        shared: 5,
        buffer: 6,
        cached: 7,
        user: 8,
        locked: 9,
    };
    let second = MemorySnapshot {
        flags: 11,
        total: 12,
        used: 13,
        free: 14,
        shared: 15,
        buffer: 16,
        cached: 17,
        user: 18,
        locked: 19,
    };
    let mut mem = Memory::new(first);
    assert_eq!(mem.flags(), 1);
    assert_eq!(mem.total(), 2);
    assert_eq!(mem.used(), 3);
    assert_eq!(mem.free(), 4);
    assert_eq!(mem.shared(), 5);
    assert_eq!(mem.buffer(), 6);
    assert_eq!(mem.cached(), 7);
    assert_eq!(mem.user(), 8);
    assert_eq!(mem.locked(), 9);
    mem.measure(second);
    assert_eq!(mem.flags(), 11);
    assert_eq!(mem.total(), 12);
    assert_eq!(mem.used(), 13);
    assert_eq!(mem.free(), 14);
    assert_eq!(mem.shared(), 15);
    assert_eq!(mem.buffer(), 16);
    assert_eq!(mem.cached(), 17);
    assert_eq!(mem.user(), 18);
    assert_eq!(mem.locked(), 19);
}
