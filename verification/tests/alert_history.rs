use monitor_tui::alerts::{Alert, AlertHistory, AlertSeverity, StatusTransition};
use monitor_tui::checker::Status;
use monitor_tui::clock::Timestamp;

fn ah_alert(secs: i64, site: &str, transition: StatusTransition) -> Alert {
    let (from, to) = match transition {
        StatusTransition::UpToDown => (Status::Up, Status::Down),
        StatusTransition::UpToWarn => (Status::Up, Status::Warning),
        StatusTransition::DownToUp => (Status::Down, Status::Up),
        StatusTransition::WarnToDown => (Status::Warning, Status::Down),
        StatusTransition::WarnToUp => (Status::Warning, Status::Up),
        StatusTransition::DownToWarn => (Status::Down, Status::Warning),
    };
    Alert::at(Timestamp::new(secs, 0), site.to_string(), transition, from, to)
}

fn ah_mixed() -> AlertHistory {
    let mut h = AlertHistory::new(10);
    h.add_alert(ah_alert(1, "a", StatusTransition::UpToDown));
    h.add_alert(ah_alert(2, "b", StatusTransition::UpToWarn));
    h.add_alert(ah_alert(3, "a", StatusTransition::DownToUp));
    h.add_alert(ah_alert(4, "c", StatusTransition::WarnToDown));
    h.add_alert(ah_alert(5, "b", StatusTransition::DownToWarn));
    h.add_alert(ah_alert(6, "a", StatusTransition::WarnToUp));
    h
}

#[test]
fn severity_follows_the_status_arrived_at() {
    assert_eq!(AlertSeverity::from_transition(&StatusTransition::UpToDown), AlertSeverity::Critical);
    assert_eq!(AlertSeverity::from_transition(&StatusTransition::WarnToDown), AlertSeverity::Critical);
    assert_eq!(AlertSeverity::from_transition(&StatusTransition::UpToWarn), AlertSeverity::Warning);
    assert_eq!(AlertSeverity::from_transition(&StatusTransition::DownToWarn), AlertSeverity::Warning);
    assert_eq!(AlertSeverity::from_transition(&StatusTransition::DownToUp), AlertSeverity::Recovery);
    assert_eq!(AlertSeverity::from_transition(&StatusTransition::WarnToUp), AlertSeverity::Recovery);
}

#[test]
fn alert_messages_name_the_site_and_the_change() {
    assert_eq!(Alert::format_message("web", &StatusTransition::UpToDown), "web is DOWN");
    assert_eq!(Alert::format_message("web", &StatusTransition::UpToWarn), "web has WARNING status");
    assert_eq!(Alert::format_message("web", &StatusTransition::DownToUp), "web has RECOVERED");
    assert_eq!(
        Alert::format_message("web", &StatusTransition::WarnToDown),
        "web went from WARNING to DOWN"
    );
    assert_eq!(
        Alert::format_message("web", &StatusTransition::WarnToUp),
        "web recovered from WARNING"
    );
    assert_eq!(
        Alert::format_message("web", &StatusTransition::DownToWarn),
        "web went from DOWN to WARNING"
    );
}

#[test]
fn alert_is_made_of_its_parts() {
    let a = Alert::at(
        Timestamp::new(7, 8),
        "api".to_string(),
        StatusTransition::WarnToDown,
        Status::Warning,
        Status::Down,
    );
    assert_eq!(a.timestamp, Timestamp::new(7, 8));
    assert_eq!(a.site_name, "api");
    assert_eq!(a.transition, StatusTransition::WarnToDown);
    assert_eq!(a.severity, AlertSeverity::Critical);
    assert_eq!(a.previous_status, Status::Warning);
    assert_eq!(a.current_status, Status::Down);
    assert_eq!(a.message, "api went from WARNING to DOWN");
    let b = a.clone();
    assert_eq!(b.message, a.message);
    assert_eq!(b.timestamp, a.timestamp);
}

#[test]
fn alert_made_now_carries_a_real_time() {
    let a = Alert::new("api".to_string(), StatusTransition::DownToUp, Status::Down, Status::Up);
    assert!(a.timestamp.secs > 1_600_000_000);
    assert!(a.timestamp.nanos < 1_000_000_000);
    assert_eq!(a.severity, AlertSeverity::Recovery);
    assert_eq!(a.message, "api has RECOVERED");
}

#[test]
fn by_severity_returns_only_that_severity_in_insertion_order() {
    let h = ah_mixed();
    let critical: Vec<i64> =
        h.by_severity(AlertSeverity::Critical).iter().map(|a| a.timestamp.secs).collect();
    assert_eq!(critical, vec![1, 4]);
    assert!(h.by_severity(AlertSeverity::Critical).iter().all(|a| a.severity == AlertSeverity::Critical));
    let warning: Vec<i64> =
        h.by_severity(AlertSeverity::Warning).iter().map(|a| a.timestamp.secs).collect();
    assert_eq!(warning, vec![2, 5]);
    let recovery: Vec<i64> =
        h.by_severity(AlertSeverity::Recovery).iter().map(|a| a.timestamp.secs).collect();
    assert_eq!(recovery, vec![3, 6]);
}

#[test]
fn by_site_returns_only_that_site_in_insertion_order() {
    let h = ah_mixed();
    let a: Vec<i64> = h.by_site("a").iter().map(|x| x.timestamp.secs).collect();
    assert_eq!(a, vec![1, 3, 6]);
    let b: Vec<i64> = h.by_site("b").iter().map(|x| x.timestamp.secs).collect();
    assert_eq!(b, vec![2, 5]);
    assert!(h.by_site("nobody").is_empty());
}

#[test]
fn alert_history_evicts_the_oldest() {
    let mut h = AlertHistory::new(2);
    assert!(h.is_empty());
    assert!(h.latest().is_none());
    h.add_alert(ah_alert(1, "a", StatusTransition::UpToDown));
    h.add_alert(ah_alert(2, "a", StatusTransition::DownToUp));
    h.add_alert(ah_alert(3, "a", StatusTransition::UpToDown));
    assert_eq!(h.len(), 2);
    assert!(!h.is_empty());
    let all: Vec<i64> = h.all_alerts().iter().map(|a| a.timestamp.secs).collect();
    assert_eq!(all, vec![2, 3]);
    assert_eq!(h.latest().map(|a| a.timestamp.secs), Some(3));
}
