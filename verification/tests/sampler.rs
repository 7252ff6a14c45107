use sysmon::metrics::{cpu_percent, cpu_permille_between, mem_gb, refresh, sample};
use sysmon::store::{CounterStore, CpuSample, CpuTicks, LockOutcome, recover, recover_store};
use sysmon::types::MainThreadToken;
use sysmon::units::bytes_to_gb;

fn ticks(user: u64, nice: u64, system: u64, idle: u64) -> CpuTicks {
    CpuTicks { user, nice, system, idle }
}

fn one_core(user: u64, nice: u64, system: u64, idle: u64, ts_ms: u64) -> CpuSample {
    CpuSample { ts_ms, cores: vec![ticks(user, nice, system, idle)] }
}

#[test]
fn first_cpu_sample_reports_zero() {
    let mut store = CounterStore::empty();
    let (permille, ncpu) = cpu_percent(&mut store, Some(one_core(5, 5, 5, 100, 0)));
    assert_eq!(permille, 0);
    assert_eq!(ncpu, 1);
    assert!(store.cpu.value.is_some());
}

#[test]
fn second_cpu_sample_computes_delta_ratio() {
    let mut store = CounterStore::empty();
    let _ = cpu_percent(&mut store, Some(one_core(0, 0, 0, 0, 0)));
    // 100 busy ticks out of 1000 total: 10.0%.
    let (permille, _) = cpu_percent(&mut store, Some(one_core(50, 0, 50, 900, 1000)));
    assert_eq!(permille, 100);
}

#[test]
fn cpu_ratio_rounds_to_nearest_tenth_of_percent() {
    // busy 1 of total 3: 333.33... permille -> 333.
    let prev = vec![ticks(0, 0, 0, 0)];
    let cur = vec![ticks(1, 0, 0, 2)];
    assert_eq!(cpu_permille_between(&prev, &cur), 333);
}

#[test]
fn cpu_regression_in_busy_ticks_is_clamped() {
    // Busy counters went backwards: the busy delta clamps to zero.
    let prev = vec![ticks(100, 0, 100, 800)];
    let cur = vec![ticks(50, 0, 50, 900)];
    assert_eq!(cpu_permille_between(&prev, &cur), 0);
}

#[test]
fn cpu_regression_in_idle_ticks_is_clamped() {
    // Idle went backwards far enough to wipe the total: defined zero.
    let prev = vec![ticks(0, 0, 0, 1000)];
    let cur = vec![ticks(500, 0, 0, 0)];
    assert_eq!(cpu_permille_between(&prev, &cur), 0);
}

#[test]
fn cpu_regression_never_exceeds_hundred_percent() {
    // One core regressed so that busy exceeds total; the result clamps to
    // 100.0% instead of exceeding it.
    let prev = vec![ticks(0, 0, 0, 1000), ticks(0, 0, 0, 0)];
    let cur = vec![ticks(500, 0, 0, 0), ticks(0, 0, 0, 100)];
    assert_eq!(cpu_permille_between(&prev, &cur), 1000);
}

#[test]
fn extreme_tick_deltas_saturate_at_full_utilization() {
    // All busy counters jump from zero to their maximum: the saturating
    // sums still yield a defined 100.0%.
    let prev = vec![ticks(0, 0, 0, 0)];
    let cur = vec![ticks(u64::MAX, u64::MAX, u64::MAX, 0)];
    assert_eq!(cpu_permille_between(&prev, &cur), 1000);
}

#[test]
fn core_count_change_counts_as_no_prior_sample() {
    let mut store = CounterStore::empty();
    let _ = cpu_percent(&mut store, Some(one_core(0, 0, 0, 0, 0)));
    let two = CpuSample {
        ts_ms: 1000,
        cores: vec![ticks(100, 0, 0, 100), ticks(100, 0, 0, 100)],
    };
    let (permille, ncpu) = cpu_percent(&mut store, Some(two));
    assert_eq!(permille, 0);
    assert_eq!(ncpu, 2);
}

#[test]
fn failed_cpu_read_keeps_baseline() {
    let mut store = CounterStore::empty();
    let _ = cpu_percent(&mut store, Some(one_core(0, 0, 0, 0, 0)));
    let (permille, ncpu) = cpu_percent(&mut store, None);
    assert_eq!((permille, ncpu), (0, 0));
    // The stored baseline survived the failed read.
    let (permille, _) = cpu_percent(&mut store, Some(one_core(50, 0, 50, 900, 2000)));
    assert_eq!(permille, 100);
}

#[test]
fn slot_replace_returns_previous() {
    let mut store = CounterStore::empty();
    assert!(store.net_prev_ms.current().is_none());
    assert_eq!(store.net_prev_ms.replace(7), None);
    assert_eq!(store.net_prev_ms.replace(9), Some(7));
    assert_eq!(store.net_prev_ms.take(), Some(9));
    assert!(store.net_prev_ms.current().is_none());
}

#[test]
fn poisoned_store_recovers_fresh() {
    let outcome: LockOutcome<CounterStore> = LockOutcome::Poisoned;
    let mut store = recover_store(outcome);
    assert!(store.cpu.value.is_none());
    assert!(store.net_prev_ms.value.is_none());
    // The next sample succeeds with the "no prior sample" fallback.
    let (permille, _) = cpu_percent(&mut store, Some(one_core(50, 0, 50, 900, 0)));
    assert_eq!(permille, 0);
}

#[test]
fn healthy_store_recovers_unchanged() {
    let mut store = CounterStore::empty();
    let _ = store.net_prev_ms.replace(42);
    let store = recover_store(LockOutcome::Healthy(store));
    assert_eq!(*store.net_prev_ms.current(), Some(42));
}

#[test]
fn generic_recovery_takes_fresh_value_only_when_poisoned() {
    assert_eq!(recover(LockOutcome::Healthy(3u64), 0u64), 3);
    assert_eq!(recover(LockOutcome::Poisoned, 0u64), 0);
}

#[test]
fn token_acquired_only_on_privileged_context() {
    assert!(MainThreadToken::acquire(true).is_some());
    assert!(MainThreadToken::acquire(false).is_none());
}

#[test]
fn first_sample_returns_all_fallbacks() {
    let mut sys = sysinfo::System::new();
    let mut nets = sysinfo::Networks::new();
    let mut store = CounterStore::empty();
    let m = sample(
        &mut sys,
        &mut nets,
        &mut store,
        Some(one_core(5, 5, 5, 100, 0)),
        1234,
        Some(423),
        None,
    );
    assert_eq!(m.cpu_percent_tenths, 0);
    assert_eq!(m.net_rx_bps, 0);
    assert_eq!(m.net_tx_bps, 0);
    assert_eq!(m.cpu_temp_dc, Some(423));
    assert_eq!(m.gpu_temp_dc, None);
    // The memory fields are the canonical conversion of the refreshed gauges.
    assert_eq!(m.mem_used_gb_tenths, bytes_to_gb(sys.used_memory()));
    assert_eq!(m.mem_total_gb_tenths, bytes_to_gb(sys.total_memory()));
    assert_eq!(*store.net_prev_ms.current(), Some(1234));
}

#[test]
fn mem_gb_matches_canonical_conversion() {
    let mut sys = sysinfo::System::new();
    let (used, total) = mem_gb(&mut sys);
    assert_eq!(used, bytes_to_gb(sys.used_memory()));
    assert_eq!(total, bytes_to_gb(sys.total_memory()));
    assert!(used <= total || total == 0);
}

#[test]
fn refresh_delivers_same_snapshot_shape_as_sample() {
    let mt = MainThreadToken::acquire(true).expect("privileged context");
    let mut sys = sysinfo::System::new();
    let mut nets = sysinfo::Networks::new();
    let mut store = CounterStore::empty();
    let m = refresh(
        &mt,
        &mut sys,
        &mut nets,
        &mut store,
        None,
        50,
        None,
        Some(-15),
    );
    assert_eq!(m.cpu_percent_tenths, 0);
    assert_eq!(m.gpu_temp_dc, Some(-15));
    assert_eq!(*store.net_prev_ms.current(), Some(50));
}
