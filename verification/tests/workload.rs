use relayer::stats::MessageStats;
use relayer::workload::{
    contains_subslice, echo_on_message, req_on_text, EchoAction, MsgKind, ReqAction,
};

#[test]
fn subslice_search_finds_occurrences() {
    assert!(contains_subslice(b"hello world", b"world"));
    assert!(contains_subslice(b"hello world", b"hello"));
    assert!(contains_subslice(b"hello world", b"o w"));
    assert!(contains_subslice(b"abc", b"abc"));
    assert!(!contains_subslice(b"hello world", b"worlds"));
    assert!(!contains_subslice(b"abc", b"abcd"));
    assert!(!contains_subslice(b"", b"a"));
}

#[test]
fn subslice_search_empty_needle_always_matches() {
    assert!(contains_subslice(b"abc", b""));
    assert!(contains_subslice(b"", b""));
}

#[test]
fn echo_reply_completes_a_round_trip() {
    let mut ms = MessageStats::new();
    ms.record_attempt(); // the first send
    let act = echo_on_message(&mut ms, MsgKind::Text(100), 64, 12);
    assert_eq!(act, EchoAction::Reply);
    assert_eq!(ms.size, 164);
    assert_eq!(ms.complete, 1);
    assert_eq!(ms.total, 2);
    assert_eq!(ms.success_time.count, 1);
    let act = echo_on_message(&mut ms, MsgKind::Binary(10), 64, 30);
    assert_eq!(act, EchoAction::Reply);
    assert_eq!(ms.size, 238);
    assert_eq!(ms.complete, 2);
}

#[test]
fn echo_ignores_control_frames_and_stops_on_close() {
    let mut ms = MessageStats::new();
    let before = ms;
    assert_eq!(echo_on_message(&mut ms, MsgKind::Other, 64, 5), EchoAction::Ignore);
    assert_eq!(ms, before);
    assert_eq!(echo_on_message(&mut ms, MsgKind::Close, 64, 5), EchoAction::Stop);
    assert_eq!(ms, before);
}

#[test]
fn echo_three_round_trips_of_64_bytes() {
    // One connection, payload size 64, stopped after three round trips
    // against a true echo server: each reply transfers 64 + 64 bytes.
    let mut ms = MessageStats::new();
    ms.record_attempt();
    for _ in 0..3 {
        let act = echo_on_message(&mut ms, MsgKind::Text(64), 64, 7);
        assert_eq!(act, EchoAction::Reply);
    }
    assert!(ms.total >= 3);
    assert_eq!(ms.size, 3 * 64 * 2);
    assert_eq!(ms.success_time.count, 3);
    assert_eq!(ms.complete, 3);
}

#[test]
fn req_step_records_size_on_every_text_frame() {
    let mut ms = MessageStats::new();
    let act = req_on_text(&mut ms, b"some result row", 10, 4);
    assert_eq!(act, ReqAction::Continue);
    assert_eq!(ms.size, 25);
    assert_eq!(ms.event, 0);
    assert_eq!(ms.complete, 0);
}

#[test]
fn req_step_counts_event_markers() {
    let mut ms = MessageStats::new();
    let act = req_on_text(&mut ms, b"[\"EVENT\",\"sub\",{}]", 10, 4);
    assert_eq!(act, ReqAction::Continue);
    assert_eq!(ms.event, 1);
    assert_eq!(ms.complete, 0);
    assert_eq!(ms.size, 28);
}

#[test]
fn req_step_completes_round_on_end_of_results() {
    let mut ms = MessageStats::new();
    ms.record_attempt();
    let act = req_on_text(&mut ms, b"[\"EOSE\",\"sub\"]", 10, 4);
    assert_eq!(act, ReqAction::NextRound);
    assert_eq!(ms.complete, 1);
    assert_eq!(ms.total, 2);
    assert_eq!(ms.success_time.count, 1);
    assert_eq!(ms.success_time.min, 4);
    assert_eq!(ms.event, 0);
}

#[test]
fn req_step_handles_event_and_end_markers_together() {
    let mut ms = MessageStats::new();
    ms.record_attempt();
    let act = req_on_text(&mut ms, b"[\"EVENT\",...][\"EOSE\"]", 5, 9);
    assert_eq!(act, ReqAction::NextRound);
    assert_eq!(ms.event, 1);
    assert_eq!(ms.complete, 1);
    assert_eq!(ms.total, 2);
}
