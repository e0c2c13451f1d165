use monitor_tui::config::{
    default_alert_history_size, default_consecutive_failures, default_cooldown_seconds,
    default_false, default_history_size, default_refresh_interval, default_request_timeout,
    default_true, AlertSettings, Config, ConfigError, Settings, SiteConfig, TransitionSettings,
};
use monitor_tui::ui::theme::ThemeName;

fn c_site(name: &str, url: &str, expected_status: u16) -> SiteConfig {
    SiteConfig {
        name: name.to_string(),
        url: url.to_string(),
        expected_status,
        check_interval: None,
        alerts: None,
    }
}

fn c_config(sites: Vec<SiteConfig>) -> Config {
    Config {
        settings: Settings {
            refresh_interval: default_refresh_interval(),
            history_size: default_history_size(),
            request_timeout: default_request_timeout(),
            warning_threshold_ms: None,
            theme: ThemeName::default(),
            alerts: AlertSettings::default(),
        },
        sites,
    }
}

#[test]
fn defaults_are_as_documented() {
    assert_eq!(default_refresh_interval(), 5);
    assert_eq!(default_history_size(), 100);
    assert_eq!(default_request_timeout(), 3);
    assert!(default_true());
    assert!(!default_false());
    assert_eq!(default_alert_history_size(), 200);
    assert_eq!(default_consecutive_failures(), 2);
    assert_eq!(default_cooldown_seconds(), 300);
    let a = AlertSettings::default();
    assert!(a.enabled && a.terminal_bell && a.desktop_notifications);
    assert_eq!(a.alert_history_size, 200);
    assert_eq!(a.consecutive_failures, 2);
    assert_eq!(a.cooldown_seconds, 300);
    let t = TransitionSettings::default();
    assert_eq!(a.transitions, t);
    assert!(t.up_to_down && t.down_to_up && t.warn_to_down && t.warn_to_up);
    assert!(!t.up_to_warn && !t.down_to_warn);
}

#[test]
fn valid_configuration_passes() {
    let c = c_config(vec![c_site("a", "http://a.example", 200), c_site("b", "https://b.example", 599)]);
    assert!(c.validate().is_ok());
}

#[test]
fn configuration_without_sites_is_refused() {
    let e = c_config(vec![]).validate().unwrap_err();
    assert!(matches!(e, ConfigError::NoSites));
    assert_eq!(e.message(), "Configuration must define at least one site");
}

#[test]
fn empty_url_is_refused() {
    let e = c_config(vec![c_site("a", "", 200)]).validate().unwrap_err();
    assert!(matches!(&e, ConfigError::EmptyUrl { site } if site == "a"));
    assert_eq!(e.message(), "Site 'a' has empty URL");
}

#[test]
fn url_without_http_scheme_is_refused() {
    let e = c_config(vec![c_site("a", "ftp://a.example", 200)]).validate().unwrap_err();
    assert!(matches!(&e, ConfigError::InvalidUrl { site, url } if site == "a" && url == "ftp://a.example"));
    assert_eq!(
        e.message(),
        "Site 'a' has invalid URL 'ftp://a.example' - must start with http:// or https://"
    );
    assert!(c_config(vec![c_site("a", "http:/", 200)]).validate().is_err());
    assert!(c_config(vec![c_site("a", "HTTP://a", 200)]).validate().is_err());
    assert!(c_config(vec![c_site("a", "http://", 200)]).validate().is_ok());
}

#[test]
fn expected_status_outside_range_is_refused() {
    let e = c_config(vec![c_site("a", "http://a", 99)]).validate().unwrap_err();
    assert!(matches!(&e, ConfigError::InvalidExpectedStatus { site, expected_status: 99 } if site == "a"));
    assert_eq!(e.message(), "Site 'a' has invalid expected_status 99 - must be 100-599");
    let e = c_config(vec![c_site("a", "http://a", 600)]).validate().unwrap_err();
    assert_eq!(e.message(), "Site 'a' has invalid expected_status 600 - must be 100-599");
    assert!(c_config(vec![c_site("a", "http://a", 100)]).validate().is_ok());
    assert!(c_config(vec![c_site("a", "http://a", 599)]).validate().is_ok());
}

#[test]
fn first_faulty_site_decides_and_url_comes_before_status() {
    let c = c_config(vec![
        c_site("good", "https://good", 200),
        c_site("both", "nope", 42),
        c_site("later", "", 200),
    ]);
    let e = c.validate().unwrap_err();
    assert!(matches!(&e, ConfigError::InvalidUrl { site, .. } if site == "both"));
    assert!(matches!(c.sites[1].check(), Err(ConfigError::InvalidUrl { .. })));
    assert!(c.sites[0].check().is_ok());
    assert!(matches!(e.clone(), ConfigError::InvalidUrl { .. }));
}

#[test]
fn find_site_returns_the_first_of_a_name() {
    let c = c_config(vec![
        c_site("a", "http://a1", 200),
        c_site("b", "http://b", 200),
        c_site("a", "http://a2", 200),
    ]);
    assert_eq!(c.find_site("a"), Some(0));
    assert_eq!(c.find_site("b"), Some(1));
    assert_eq!(c.find_site("c"), None);
    assert_eq!(c.find_site(""), None);
}

#[test]
fn configuration_clone_is_equal() {
    let c = c_config(vec![c_site("a", "http://a", 200)]);
    let d = c.clone();
    assert_eq!(d.sites.len(), 1);
    assert_eq!(d.sites[0].name, "a");
    assert_eq!(d.sites[0].url, "http://a");
    assert_eq!(d.settings, c.settings);
}
