use sysmeter::Cpu;
use sysmeter::CpuSnapshot;
use sysmeter::MeasureError;
use sysmeter::PercentUsage;
use sysmeter::Ratio;
use sysmeter::cpu::NANOS_PER_SEC;
use sysmeter::cpu::cpu_utilization;

fn snap(total: u64, idle: u64) -> CpuSnapshot {
    CpuSnapshot {
        total,
        user: 0,
        nice: 0,
        sys: 0,
        idle,
        iowait: 0,
        irq: 0,
        frequency: 0,
        flags: 0,
    }
}

#[test]
fn cpu_is_available() {
    assert!(Cpu::is_available());
}

#[test]
fn cpu_measure_returns_delta_and_elapsed() {
    let mut cpu = Cpu::new(snap(100, 50), 0, 4);
    let (delta, elapsed) = cpu.measure(snap(200, 100), 3 * NANOS_PER_SEC);
    assert_eq!(delta, 50);
    assert_eq!(elapsed, 3 * NANOS_PER_SEC);
}

#[test]
fn cpu_measure_no_advance_gives_zero_delta() {
    let mut cpu = Cpu::new(snap(100, 50), 0, 4);
    let (delta, elapsed) = cpu.measure(snap(100, 50), NANOS_PER_SEC);
    assert_eq!(delta, 0);
    assert_eq!(elapsed, NANOS_PER_SEC);
}

#[test]
fn cpu_measure_counter_regression_gives_zero_delta() {
    // Busy time shrinks (as after a counter wraparound): the delta is zero,
    // never a huge wrapped value.
    let mut cpu = Cpu::new(snap(100, 20), 0, 4);
    let (delta, _) = cpu.measure(snap(120, 60), NANOS_PER_SEC);
    assert_eq!(delta, 0);
}

#[test]
fn cpu_measure_skewed_snapshot_counts_no_busy_time() {
    // More idle than total time in a snapshot: its busy time counts as zero.
    let mut cpu = Cpu::new(snap(10, 30), 0, 4);
    let (delta, _) = cpu.measure(snap(40, 20), NANOS_PER_SEC);
    assert_eq!(delta, 20);
}

#[test]
fn cpu_percent_usage_exact() {
    // Busy delta 50 over 1.0 s on 4 logical processors: 50 / (100 * 4 * 1.0).
    let mut cpu = Cpu::new(snap(100, 50), 0, 4);
    let r = cpu.percent_usage((snap(200, 100), NANOS_PER_SEC)).unwrap();
    assert_eq!(
        r,
        Ratio { num: 50 * NANOS_PER_SEC as u128, den: 400 * NANOS_PER_SEC as u128 }
    );
    assert_eq!(r.num as f64 / r.den as f64, 0.125);
}

#[test]
fn cpu_percent_usage_zero_elapsed_is_degenerate() {
    // Two measurements within the same clock tick: an explicit error, no
    // infinity and no NaN.
    let mut cpu = Cpu::new(snap(100, 50), 7, 4);
    let r = cpu.percent_usage((snap(200, 100), 7));
    assert_eq!(r, Err(MeasureError::DegenerateMeasurement));
}

#[test]
fn cpu_percent_usage_zero_cpu_count_is_degenerate() {
    let mut cpu = Cpu::new(snap(100, 50), 0, 0);
    let r = cpu.percent_usage((snap(200, 100), NANOS_PER_SEC));
    assert_eq!(r, Err(MeasureError::DegenerateMeasurement));
}

#[test]
fn cpu_percent_usage_idle_interval_is_zero() {
    let mut cpu = Cpu::new(snap(100, 50), 0, 2);
    let r = cpu.percent_usage((snap(100, 50), NANOS_PER_SEC)).unwrap();
    assert_eq!(r.num, 0);
    assert_eq!(r.num as f64 / r.den as f64, 0.0);
}

#[test]
fn cpu_utilization_clamps_to_one() {
    // A sub-tick interval with a large delta would exceed full capacity:
    // the reading clamps to exactly one.
    let r = cpu_utilization(1_000_000, 1, 1).unwrap();
    assert_eq!(r.num, r.den);
    assert_eq!(r.num as f64 / r.den as f64, 1.0);
}

#[test]
fn cpu_utilization_full_capacity_boundary() {
    // Delta of exactly 100 jiffies per processor-second: exactly one.
    let r = cpu_utilization(400, 4 * NANOS_PER_SEC, 1).unwrap();
    assert_eq!(r.num, r.den);
}

#[test]
fn cpu_utilization_never_nan_or_infinite() {
    let cases: [(u64, u64, u32); 5] = [
        (0, 1, 1),
        (u64::MAX, 1, 1),
        (1, u64::MAX, u32::MAX),
        (123, 456, 7),
        (u64::MAX, u64::MAX, u32::MAX),
    ];
    for (delta, elapsed, cpus) in cases {
        let r = cpu_utilization(delta, elapsed, cpus).unwrap();
        let v = r.num as f64 / r.den as f64;
        assert!(v.is_finite());
        assert!((0.0..=1.0).contains(&v));
    }
}

#[test]
fn cpu_accessors_reflect_last_measurement() {
    let first = CpuSnapshot {
        total: 10,
        user: 1,
        nice: 2,
        sys: 3,
        idle: 4,
        iowait: 5,
        irq: 6,
        frequency: 7,
        flags: 8,
    };
    let second = CpuSnapshot {
        total: 20,
        user: 11,
        nice: 12,
        sys: 13,
        idle: 14,
        iowait: 15,
        irq: 16,
        frequency: 17,
        flags: 18,
    };
    let mut cpu = Cpu::new(first, 0, 4);
    assert_eq!(cpu.total(), 10);
    assert_eq!(cpu.user(), 1);
    assert_eq!(cpu.nice(), 2);
    assert_eq!(cpu.sys(), 3);
    assert_eq!(cpu.idle(), 4);
    assert_eq!(cpu.iowait(), 5);
    assert_eq!(cpu.irq(), 6);
    assert_eq!(cpu.frequency(), 7);
    assert_eq!(cpu.flags(), 8);
    cpu.measure(second, 1);
    assert_eq!(cpu.total(), 20);
    assert_eq!(cpu.user(), 11);
    assert_eq!(cpu.nice(), 12);
    assert_eq!(cpu.sys(), 13);
    assert_eq!(cpu.idle(), 14);
    assert_eq!(cpu.iowait(), 15);
    assert_eq!(cpu.irq(), 16);
    assert_eq!(cpu.frequency(), 17);
    assert_eq!(cpu.flags(), 18);
}

#[test]
fn cpu_consecutive_intervals_use_new_baseline() {
    let mut cpu = Cpu::new(snap(100, 50), 0, 1);
    let (d1, _) = cpu.measure(snap(150, 60), NANOS_PER_SEC);
    assert_eq!(d1, 40);
    let (d2, e2) = cpu.measure(snap(170, 70), 3 * NANOS_PER_SEC);
    assert_eq!(d2, 10);
    assert_eq!(e2, 2 * NANOS_PER_SEC);
}
