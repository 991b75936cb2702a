//! Whole-run scenarios, driven through the same update methods that a live
//! runner calls under the aggregator's lock.

use relayer::sched::{batch_count, pace_after_slot};
use relayer::stats::ConnectStats;
use relayer::supervisor::{classify_outcome, keepalive, WorkloadEnd};

#[test]
fn ten_idle_connections_closed_by_the_remote() {
    // count = 10, rate = 5, keepalive = 0; the server accepts and closes at
    // once, so every connect-and-idle workload finishes cleanly.
    let count: usize = 10;
    let rate: usize = 5;
    let ka: u64 = 0;

    // Two admission batches, with the single pause after slot 4.
    assert_eq!(batch_count(count, rate), 2);
    let pauses: Vec<usize> = (0..count).filter(|&i| pace_after_slot(i, count, rate)).collect();
    assert_eq!(pauses, vec![4]);

    let mut cs = ConnectStats::new(count);
    for _ in 0..count {
        cs.record_attempt();
        cs.record_established(3);
        let res = keepalive(ka, WorkloadEnd::Done);
        let outcome = classify_outcome(&res);
        cs.record_conclusion(outcome);
        cs.record_complete();
    }
    assert_eq!(cs.complete, 10);
    assert_eq!(cs.alive, 0);
    assert_eq!(cs.lost, 10);
    assert_eq!(cs.error, 0);
    assert_eq!(cs.close, 0);
    assert!(cs.run_complete());
}

#[test]
fn five_endless_workloads_under_a_two_second_ceiling() {
    // count = 5, rate = 5, keepalive = 2; the workload never completes
    // naturally, so every slot ends by the ceiling timer and is closed.
    let count: usize = 5;
    let ka: u64 = 2;

    assert_eq!(batch_count(count, 5), 1);

    let mut cs = ConnectStats::new(count);
    for _ in 0..count {
        cs.record_attempt();
        cs.record_established(2);
        let res = keepalive(ka, WorkloadEnd::Ceiling);
        let outcome = classify_outcome(&res);
        cs.record_conclusion(outcome);
        cs.record_complete();
    }
    assert_eq!(cs.close, 5);
    assert_eq!(cs.lost, 0);
    assert_eq!(cs.error, 0);
    assert_eq!(cs.complete, 5);
    assert_eq!(cs.alive, 0);
    assert!(cs.run_complete());
}

#[test]
fn mixed_run_accounts_every_slot_exactly_once() {
    // Three slots error, two are lost, one is closed: at termination
    // complete == total == error + lost + close and alive == 0.
    let mut cs = ConnectStats::new(6);
    for _ in 0..3 {
        cs.record_attempt();
        cs.record_error();
        cs.record_complete();
    }
    for _ in 0..2 {
        cs.record_attempt();
        cs.record_established(1);
        let res = keepalive(0, WorkloadEnd::Failed(relayer::supervisor::Error::Ws));
        cs.record_conclusion(classify_outcome(&res));
        cs.record_complete();
    }
    cs.record_attempt();
    cs.record_established(1);
    let res = keepalive(1, WorkloadEnd::Ceiling);
    cs.record_conclusion(classify_outcome(&res));
    cs.record_complete();

    assert_eq!(cs.complete, 6);
    assert_eq!(cs.total, 6);
    assert_eq!((cs.error, cs.lost, cs.close), (3, 2, 1));
    assert_eq!(cs.error + cs.lost + cs.close, cs.total);
    assert_eq!(cs.alive, 0);
    assert_eq!(cs.connect, 6);
}
