use relayer::sched::{batch_count, pace_after_slot, BenchOpts, ReportWindow};

fn opts_with_interfaces(interface: Option<Vec<String>>) -> BenchOpts {
    BenchOpts {
        url: String::from("ws://localhost:9000"),
        count: 10,
        rate: 5,
        keepalive: 0,
        threads: 0,
        interface,
    }
}

#[test]
fn batch_count_rounds_up() {
    assert_eq!(batch_count(10, 5), 2);
    assert_eq!(batch_count(7, 3), 3);
    assert_eq!(batch_count(1, 1), 1);
    assert_eq!(batch_count(0, 5), 0);
    assert_eq!(batch_count(5, 50), 1);
    assert_eq!(batch_count(100, 50), 2);
}

#[test]
fn pacing_pauses_between_full_batches_only() {
    // count = 10, rate = 5: two batches; the only pause falls after slot 4.
    let pauses: Vec<usize> = (0..10).filter(|&i| pace_after_slot(i, 10, 5)).collect();
    assert_eq!(pauses, vec![4]);
    // No pause after the last batch even when it is full.
    assert!(!pace_after_slot(9, 10, 5));
    // A partial last batch: count = 7, rate = 3 pauses after slots 2 and 5.
    let pauses: Vec<usize> = (0..7).filter(|&i| pace_after_slot(i, 7, 3)).collect();
    assert_eq!(pauses, vec![2, 5]);
}

#[test]
fn interfaces_are_round_robined_by_slot_index() {
    let opts = opts_with_interfaces(Some(vec![
        String::from("10.0.0.1:0"),
        String::from("10.0.0.2:0"),
        String::from("10.0.0.3:0"),
    ]));
    assert_eq!(opts.interface_for_slot(0), Some(0));
    assert_eq!(opts.interface_for_slot(1), Some(1));
    assert_eq!(opts.interface_for_slot(2), Some(2));
    assert_eq!(opts.interface_for_slot(3), Some(0));
    assert_eq!(opts.interface_for_slot(7), Some(1));
}

#[test]
fn no_interface_list_means_no_explicit_bind() {
    let none = opts_with_interfaces(None);
    assert_eq!(none.interface_for_slot(0), None);
    let empty = opts_with_interfaces(Some(Vec::new()));
    assert_eq!(empty.interface_for_slot(3), None);
}

#[test]
fn report_window_returns_deltas_between_snapshots() {
    let mut w = ReportWindow::new();
    // First snapshot: 5 round trips done, none errored, 640 bytes.
    let (dc, ds) = w.advance(5, 0, 640);
    assert_eq!((dc, ds), (5, 640));
    // Second snapshot: 9 done of which 1 errored, 1000 bytes.
    let (dc, ds) = w.advance(9, 1, 1000);
    assert_eq!((dc, ds), (3, 360));
    // Nothing moved since.
    let (dc, ds) = w.advance(9, 1, 1000);
    assert_eq!((dc, ds), (0, 0));
}
