use monitor_tui::checker::{CheckResult, Status};
use monitor_tui::clock::Timestamp;
use monitor_tui::history::{SiteHistory, Uptime};

fn h_sample(secs: i64, status: Status, ms: Option<u64>) -> CheckResult {
    CheckResult {
        timestamp: Timestamp::new(secs, 0),
        status,
        response_time_ms: ms,
        http_status: ms.map(|_| 200),
        error_message: None,
    }
}

fn h_secs(h: &SiteHistory) -> Vec<i64> {
    h.all_results().iter().map(|r| r.timestamp.secs).collect()
}

fn h_filled(max_size: usize, samples: Vec<CheckResult>) -> SiteHistory {
    let mut h = SiteHistory::new(max_size);
    for s in samples {
        h.add_result(s);
    }
    h
}

#[test]
fn history_of_three_keeps_last_three_of_four() {
    let mut h = SiteHistory::new(3);
    for i in 1..=4 {
        h.add_result(h_sample(i, Status::Up, Some(i as u64)));
    }
    assert_eq!(h_secs(&h), vec![2, 3, 4]);
    assert_eq!(h.latest().map(|r| r.timestamp.secs), Some(4));
    assert_eq!(h.len(), 3);
}

#[test]
fn history_grows_until_its_bound() {
    let mut h = SiteHistory::new(2);
    assert!(h.is_empty());
    assert_eq!(h.len(), 0);
    assert!(h.latest().is_none());
    h.add_result(h_sample(1, Status::Up, None));
    assert_eq!(h.len(), 1);
    assert!(!h.is_empty());
    h.add_result(h_sample(2, Status::Up, None));
    assert_eq!(h.len(), 2);
    h.add_result(h_sample(3, Status::Up, None));
    assert_eq!(h.len(), 2);
    assert_eq!(h_secs(&h), vec![2, 3]);
}

#[test]
fn history_bounded_by_zero_holds_the_newest_sample() {
    let mut h = SiteHistory::new(0);
    h.add_result(h_sample(1, Status::Up, None));
    assert_eq!(h_secs(&h), vec![1]);
    h.add_result(h_sample(2, Status::Down, None));
    assert_eq!(h_secs(&h), vec![2]);
}

#[test]
fn uptime_of_empty_history_is_zero() {
    let h = SiteHistory::new(10);
    let u = h.uptime_percentage();
    assert_eq!(u, Uptime { up: 0, total: 0 });
    assert_eq!(u.whole_percent(), 0);
}

#[test]
fn uptime_of_three_up_in_four_is_seventy_five() {
    let h = h_filled(
        10,
        vec![
            h_sample(1, Status::Up, None),
            h_sample(2, Status::Up, None),
            h_sample(3, Status::Down, None),
            h_sample(4, Status::Up, None),
        ],
    );
    let u = h.uptime_percentage();
    assert_eq!(u, Uptime { up: 3, total: 4 });
    assert_eq!(u.whole_percent(), 75);
    assert_eq!((u.up as f64 / u.total as f64) * 100.0, 75.0);
}

#[test]
fn uptime_counts_warning_as_not_up() {
    let h = h_filled(
        10,
        vec![
            h_sample(1, Status::Warning, Some(5)),
            h_sample(2, Status::Up, Some(5)),
            h_sample(3, Status::Down, None),
        ],
    );
    let u = h.uptime_percentage();
    assert_eq!(u, Uptime { up: 1, total: 3 });
    assert_eq!(u.whole_percent(), 33);
}

#[test]
fn average_is_over_samples_with_latency_only() {
    let h = h_filled(
        10,
        vec![
            h_sample(1, Status::Up, Some(100)),
            h_sample(2, Status::Down, None),
            h_sample(3, Status::Up, Some(201)),
        ],
    );
    assert_eq!(h.avg_response_time(), Some(150));
    assert_eq!(h.min_response_time(), Some(100));
    assert_eq!(h.max_response_time(), Some(201));
}

#[test]
fn latency_statistics_are_none_without_latencies() {
    let empty = SiteHistory::new(5);
    assert_eq!(empty.avg_response_time(), None);
    assert_eq!(empty.min_response_time(), None);
    assert_eq!(empty.max_response_time(), None);
    let down = h_filled(5, vec![h_sample(1, Status::Down, None), h_sample(2, Status::Down, None)]);
    assert_eq!(down.avg_response_time(), None);
    assert_eq!(down.min_response_time(), None);
    assert_eq!(down.max_response_time(), None);
}

#[test]
fn average_of_huge_latencies_does_not_overflow() {
    let h = h_filled(
        5,
        vec![
            h_sample(1, Status::Up, Some(u64::MAX)),
            h_sample(2, Status::Up, Some(u64::MAX)),
            h_sample(3, Status::Up, Some(u64::MAX - 3)),
        ],
    );
    assert_eq!(h.avg_response_time(), Some(u64::MAX - 1));
    assert_eq!(h.max_response_time(), Some(u64::MAX));
    assert_eq!(h.min_response_time(), Some(u64::MAX - 3));
}

#[test]
fn recent_times_are_the_last_latencies_oldest_first() {
    let h = h_filled(
        10,
        vec![
            h_sample(1, Status::Up, Some(10)),
            h_sample(2, Status::Up, Some(20)),
            h_sample(3, Status::Down, None),
            h_sample(4, Status::Up, Some(40)),
        ],
    );
    assert_eq!(h.recent_response_times(0), Vec::<u64>::new());
    assert_eq!(h.recent_response_times(1), vec![40]);
    assert_eq!(h.recent_response_times(2), vec![20, 40]);
    assert_eq!(h.recent_response_times(3), vec![10, 20, 40]);
    assert_eq!(h.recent_response_times(4), vec![10, 20, 40]);
    assert_eq!(h.recent_response_times(usize::MAX), vec![10, 20, 40]);
    // a pure read
    assert_eq!(h.len(), 4);
}

#[test]
fn recent_times_skip_a_newest_sample_without_latency() {
    let mut h = SiteHistory::new(10);
    h.add_result(CheckResult::new_success(10, 200, 200, None));
    h.add_result(CheckResult::new_success(20, 200, 200, None));
    h.add_result(CheckResult::new_down("x".into()));
    assert_eq!(h.recent_response_times(2), vec![10, 20]);
    assert_eq!(h.recent_response_times(1), vec![20]);
}

#[test]
fn recent_times_of_a_history_without_latencies_are_none() {
    let h = h_filled(5, vec![h_sample(1, Status::Down, None), h_sample(2, Status::Down, None)]);
    assert_eq!(h.recent_response_times(3), Vec::<u64>::new());
    assert_eq!(SiteHistory::new(5).recent_response_times(3), Vec::<u64>::new());
}

#[test]
fn chart_data_pairs_seconds_with_latency() {
    let h = h_filled(
        10,
        vec![
            h_sample(100, Status::Up, Some(10)),
            h_sample(105, Status::Down, None),
            h_sample(110, Status::Warning, Some(900)),
        ],
    );
    assert_eq!(h.chart_data(), vec![(100, 10), (110, 900)]);
}

#[test]
fn whole_percent_rounds_down() {
    assert_eq!(Uptime { up: 2, total: 3 }.whole_percent(), 66);
    assert_eq!(Uptime { up: 3, total: 3 }.whole_percent(), 100);
    assert_eq!(Uptime { up: 0, total: 3 }.whole_percent(), 0);
    assert_eq!(Uptime { up: usize::MAX, total: usize::MAX }.whole_percent(), 100);
}
