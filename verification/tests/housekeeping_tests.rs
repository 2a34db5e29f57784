use socketeer::housekeeping::{
    idle_seconds, Housekeeper, Remark, TickReport, KEEP_ALIVE_PING, MAX_INTERVAL_MISSES,
    SHUTDOWN_QUEUE_SIZE,
};

#[test]
fn constants_of_the_schedule() {
    assert_eq!(KEEP_ALIVE_PING, 30);
    assert_eq!(MAX_INTERVAL_MISSES, 20);
    assert_eq!(SHUTDOWN_QUEUE_SIZE, 10);
    assert_eq!(idle_seconds(MAX_INTERVAL_MISSES), 600);
}

#[test]
fn fresh_housekeeper_has_seen_no_idle_probe() {
    assert_eq!(Housekeeper::new().idle_ticks(), 0);
}

#[test]
fn idle_seconds_multiplies_by_the_interval() {
    assert_eq!(idle_seconds(0), 0);
    assert_eq!(idle_seconds(1), 30);
    assert_eq!(idle_seconds(10), 300);
    assert_eq!(idle_seconds(u64::MAX), 553402322211286548450);
}

#[test]
fn first_idle_probe_is_remarked() {
    let mut housekeeper = Housekeeper::new();
    let report = housekeeper.tick(false);
    assert_eq!(report, TickReport { remark: Remark::BecameIdle, request_close: false });
    assert_eq!(housekeeper.idle_ticks(), 1);
    let report = housekeeper.tick(false);
    assert_eq!(report, TickReport { remark: Remark::Nothing, request_close: false });
    assert_eq!(housekeeper.idle_ticks(), 2);
}

#[test]
fn live_probe_on_a_live_room_changes_nothing() {
    let mut housekeeper = Housekeeper::new();
    let report = housekeeper.tick(true);
    assert_eq!(report, TickReport { remark: Remark::Nothing, request_close: false });
    assert_eq!(housekeeper.idle_ticks(), 0);
}

#[test]
fn room_stays_open_for_nineteen_idle_probes_and_closes_at_the_twentieth() {
    let mut housekeeper = Housekeeper::new();
    for probe in 1..=19u64 {
        let report = housekeeper.tick(false);
        assert!(!report.request_close, "probe {}", probe);
        assert_eq!(housekeeper.idle_ticks(), probe);
    }
    let report = housekeeper.tick(false);
    assert!(report.request_close);
    assert_eq!(report.remark, Remark::Nothing);
    assert_eq!(housekeeper.idle_ticks(), 20);
}

#[test]
fn close_is_requested_again_while_the_room_stays_idle() {
    let mut housekeeper = Housekeeper::new();
    for _ in 0..20 {
        housekeeper.tick(false);
    }
    let report = housekeeper.tick(false);
    assert!(report.request_close);
    assert_eq!(housekeeper.idle_ticks(), 21);
}

#[test]
fn listener_after_ten_idle_probes_resets_the_counter() {
    let mut housekeeper = Housekeeper::new();
    for _ in 0..10 {
        housekeeper.tick(false);
    }
    assert_eq!(housekeeper.idle_ticks(), 10);
    let report = housekeeper.tick(true);
    assert_eq!(
        report,
        TickReport { remark: Remark::BecameActive { idle_ticks: 10 }, request_close: false }
    );
    assert_eq!(housekeeper.idle_ticks(), 0);
    let report = housekeeper.tick(false);
    assert_eq!(report.remark, Remark::BecameIdle);
    assert_eq!(housekeeper.idle_ticks(), 1);
}

#[test]
fn listener_after_the_threshold_still_resets() {
    let mut housekeeper = Housekeeper::new();
    for _ in 0..25 {
        housekeeper.tick(false);
    }
    let report = housekeeper.tick(true);
    assert_eq!(
        report,
        TickReport { remark: Remark::BecameActive { idle_ticks: 25 }, request_close: false }
    );
    assert_eq!(housekeeper.idle_ticks(), 0);
}
