use sysmon::net::net_usage_bps;
use sysmon::store::CounterStore;

#[test]
fn first_network_poll_reports_zero_rates() {
    let mut nets = sysinfo::Networks::new();
    let mut store = CounterStore::empty();
    let (rx, tx) = net_usage_bps(&mut nets, &mut store, 500);
    assert_eq!((rx, tx), (0, 0));
    assert_eq!(*store.net_prev_ms.current(), Some(500));
}

#[test]
fn network_poll_records_its_timestamp_each_time() {
    let mut nets = sysinfo::Networks::new();
    let mut store = CounterStore::empty();
    let _ = net_usage_bps(&mut nets, &mut store, 500);
    let _ = net_usage_bps(&mut nets, &mut store, 1500);
    assert_eq!(*store.net_prev_ms.current(), Some(1500));
    // The CPU family is untouched by network polling.
    assert!(store.cpu.value.is_none());
}

#[test]
fn network_poll_tolerates_a_clock_that_went_backwards() {
    let mut nets = sysinfo::Networks::new();
    let mut store = CounterStore::empty();
    let _ = net_usage_bps(&mut nets, &mut store, 5000);
    // Elapsed time is floored at one millisecond; the call must still
    // return and record the new timestamp.
    let _ = net_usage_bps(&mut nets, &mut store, 4000);
    assert_eq!(*store.net_prev_ms.current(), Some(4000));
}
