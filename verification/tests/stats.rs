use relayer::stats::{ConnectStats, MessageStats, TimeStats};
use relayer::supervisor::Outcome;

#[test]
fn time_stats_first_sample_sets_min_and_max() {
    let ts = TimeStats::default();
    assert_eq!(ts.count, 0);
    let ts = ts.add(7);
    assert_eq!(ts.count, 1);
    assert_eq!(ts.total, 7);
    assert_eq!(ts.avg, 7);
    assert_eq!(ts.min, 7);
    assert_eq!(ts.max, 7);
}

#[test]
fn time_stats_zero_first_sample_is_a_real_minimum() {
    // A first sample of zero duration is kept as the minimum: a later,
    // larger sample must not displace it.
    let ts = TimeStats::default().add(0).add(5);
    assert_eq!(ts.min, 0);
    assert_eq!(ts.max, 5);
    assert_eq!(ts.count, 2);
}

#[test]
fn time_stats_running_average_uses_integer_division() {
    let ts = TimeStats::default().add(3).add(4);
    assert_eq!(ts.total, 7);
    assert_eq!(ts.avg, 3); // 7 / 2
    let ts = ts.add(8);
    assert_eq!(ts.total, 15);
    assert_eq!(ts.avg, 5);
    assert_eq!(ts.min, 3);
    assert_eq!(ts.max, 8);
    assert!(ts.min <= ts.avg && ts.avg <= ts.max);
}

#[test]
fn time_stats_min_max_track_true_extremes() {
    let samples: [u64; 5] = [40, 10, 30, 20, 50];
    let mut ts = TimeStats::default();
    for s in samples {
        ts = ts.add(s);
    }
    assert_eq!(ts.count, 5);
    assert_eq!(ts.total, 150);
    assert_eq!(ts.avg, 30);
    assert_eq!(ts.min, 10);
    assert_eq!(ts.max, 50);
}

#[test]
fn connect_stats_records_one_slot_per_path() {
    let mut cs = ConnectStats::new(3);
    assert_eq!(cs.total, 3);
    assert_eq!(cs.complete, 0);

    // One slot errors before becoming alive.
    cs.record_attempt();
    cs.record_elapsed(5);
    cs.record_error();
    cs.record_complete();
    assert_eq!((cs.connect, cs.alive, cs.error, cs.complete), (1, 0, 1, 1));
    assert_eq!(cs.time, 5);

    // One slot becomes alive and is lost.
    cs.record_attempt();
    cs.record_established(12);
    assert_eq!(cs.alive, 1);
    assert_eq!(cs.success_time.count, 1);
    assert_eq!(cs.success_time.min, 12);
    cs.record_conclusion(Outcome::Lost);
    cs.record_complete();
    assert_eq!((cs.alive, cs.lost, cs.close, cs.complete), (0, 1, 0, 2));

    // One slot becomes alive and is closed at its ceiling.
    cs.record_attempt();
    cs.record_established(8);
    cs.record_conclusion(Outcome::Close);
    cs.record_complete();
    assert_eq!((cs.alive, cs.lost, cs.close, cs.complete), (0, 1, 1, 3));

    // Termination accounting.
    assert!(cs.run_complete());
    assert_eq!(cs.complete, cs.total);
    assert_eq!(cs.error + cs.lost + cs.close, cs.total);
    assert_eq!(cs.alive, 0);
    assert_eq!(cs.success_time.count, 2);
    assert_eq!(cs.success_time.min, 8);
    assert_eq!(cs.success_time.max, 12);
}

#[test]
fn connect_stats_reporter_stop_test() {
    let mut cs = ConnectStats::new(1);
    assert!(!cs.run_complete());
    cs.record_attempt();
    cs.record_error();
    cs.record_complete();
    assert!(cs.run_complete());
}

#[test]
fn message_stats_counts_round_trips() {
    let mut ms = MessageStats::new();
    ms.record_attempt();
    assert_eq!(ms.total, 1);
    ms.record_transfer(128);
    ms.record_round_trip(9);
    assert_eq!(ms.total, 2);
    assert_eq!(ms.complete, 1);
    assert_eq!(ms.size, 128);
    assert_eq!(ms.success_time.count, 1);
    assert_eq!(ms.success_time.min, 9);
    ms.record_event();
    assert_eq!(ms.event, 1);
    assert_eq!(ms.error, 0);
}

#[test]
fn stats_defaults_are_zero() {
    let cs = ConnectStats::default();
    assert_eq!(
        (cs.total, cs.complete, cs.connect, cs.alive, cs.error, cs.lost, cs.close),
        (0, 0, 0, 0, 0, 0, 0)
    );
    let ms = MessageStats::default();
    assert_eq!((ms.total, ms.complete, ms.error, ms.size, ms.event), (0, 0, 0, 0, 0));
    assert_eq!(ms.success_time, TimeStats::default());
}
