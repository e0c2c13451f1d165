use monitor_tui::alerts::notifier::{Urgency, DESKTOP_TIMEOUT_MS};
use monitor_tui::alerts::{Alert, AlertNotifier, AlertSeverity, StatusTransition};
use monitor_tui::checker::Status;
use monitor_tui::clock::Timestamp;
use monitor_tui::config::{AlertSettings, Config, Settings, SiteAlertSettings, SiteConfig};
use monitor_tui::ui::theme::ThemeName;

fn n_config(bell: bool, desktop: bool, sites: Vec<SiteConfig>) -> Config {
    let mut alerts = AlertSettings::default();
    alerts.terminal_bell = bell;
    alerts.desktop_notifications = desktop;
    Config {
        settings: Settings {
            refresh_interval: 5,
            history_size: 100,
            request_timeout: 3,
            warning_threshold_ms: None,
            theme: ThemeName::Dark,
            alerts,
        },
        sites,
    }
}

fn n_site(name: &str, bell: Option<bool>, desktop: Option<bool>) -> SiteConfig {
    SiteConfig {
        name: name.to_string(),
        url: "http://x".to_string(),
        expected_status: 200,
        check_interval: None,
        alerts: Some(SiteAlertSettings {
            enabled: None,
            consecutive_failures: None,
            cooldown_seconds: None,
            terminal_bell: bell,
            desktop_notifications: desktop,
        }),
    }
}

fn n_alert(site: &str, transition: StatusTransition, to: Status) -> Alert {
    Alert::at(Timestamp::new(1, 0), site.to_string(), transition, Status::Up, to)
}

#[test]
fn urgency_follows_severity() {
    assert_eq!(Urgency::from_severity(AlertSeverity::Critical), Urgency::Critical);
    assert_eq!(Urgency::from_severity(AlertSeverity::Warning), Urgency::Normal);
    assert_eq!(Urgency::from_severity(AlertSeverity::Recovery), Urgency::Low);
}

#[test]
fn global_policy_decides_for_a_site_without_settings() {
    let n = AlertNotifier::new(n_config(true, true, vec![]));
    let plan = n.notify(&n_alert("unknown", StatusTransition::UpToDown, Status::Down));
    assert!(plan.terminal_bell);
    let d = plan.desktop.expect("desktop notification");
    assert_eq!(d.summary, "Monitor TUI Alert");
    assert_eq!(d.body, "unknown is DOWN");
    assert_eq!(d.urgency, Urgency::Critical);
    assert_eq!(d.timeout_ms, 10000);
    assert_eq!(DESKTOP_TIMEOUT_MS, 10000);
}

#[test]
fn nothing_is_announced_where_both_are_off() {
    let n = AlertNotifier::new(n_config(false, false, vec![]));
    let plan = n.notify(&n_alert("a", StatusTransition::UpToWarn, Status::Warning));
    assert!(!plan.terminal_bell);
    assert!(plan.desktop.is_none());
}

#[test]
fn site_settings_override_the_global_ones() {
    let n = AlertNotifier::new(n_config(
        true,
        false,
        vec![n_site("quiet", Some(false), None), n_site("loud", None, Some(true))],
    ));
    let quiet = n.notify(&n_alert("quiet", StatusTransition::UpToDown, Status::Down));
    assert!(!quiet.terminal_bell);
    assert!(quiet.desktop.is_none());
    let loud = n.notify(&n_alert("loud", StatusTransition::UpToWarn, Status::Warning));
    assert!(loud.terminal_bell);
    let d = loud.desktop.expect("desktop notification");
    assert_eq!(d.urgency, Urgency::Normal);
    assert_eq!(d.body, "loud has WARNING status");
}

#[test]
fn notifier_clone_decides_alike() {
    let n = AlertNotifier::new(n_config(false, true, vec![n_site("a", Some(true), Some(false))]));
    let m = n.clone();
    let plan = m.notify(&n_alert("a", StatusTransition::UpToDown, Status::Down));
    assert!(plan.terminal_bell);
    assert!(plan.desktop.is_none());
}
