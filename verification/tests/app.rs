use monitor_tui::alerts::{AlertSeverity, StatusTransition};
use monitor_tui::app::{App, AppAction, FrameSize, Key, KeyPress, MouseInput, MouseKind, View};
use monitor_tui::checker::{CheckResult, Status};
use monitor_tui::clock::Timestamp;
use monitor_tui::config::{AlertSettings, Config, Settings, SiteConfig, TransitionSettings};
use monitor_tui::ui::theme::{Theme, ThemeName};

fn a_site(name: &str) -> SiteConfig {
    SiteConfig {
        name: name.to_string(),
        url: format!("https://{}.example", name),
        expected_status: 200,
        check_interval: None,
        alerts: None,
    }
}

fn a_config(names: &[&str], threshold: usize, history_size: usize) -> Config {
    Config {
        settings: Settings {
            refresh_interval: 5,
            history_size,
            request_timeout: 3,
            warning_threshold_ms: None,
            theme: ThemeName::Light,
            alerts: AlertSettings {
                enabled: true,
                terminal_bell: true,
                desktop_notifications: true,
                alert_history_size: 2,
                consecutive_failures: threshold,
                cooldown_seconds: 300,
                transitions: TransitionSettings::default(),
            },
        },
        sites: names.iter().map(|n| a_site(n)).collect(),
    }
}

fn a_at(secs: i64) -> Timestamp {
    Timestamp::new(secs, 0)
}

fn a_sample(secs: i64, status: Status) -> CheckResult {
    CheckResult {
        timestamp: a_at(secs),
        status,
        response_time_ms: if status == Status::Down { None } else { Some(10) },
        http_status: if status == Status::Down { None } else { Some(200) },
        error_message: None,
    }
}

fn a_key(code: Key) -> KeyPress {
    KeyPress { code, control: false }
}

fn a_click(row: u16) -> MouseInput {
    MouseInput { kind: MouseKind::LeftDown, row, column: 0 }
}

#[test]
fn app_starts_with_one_empty_history_per_site() {
    let app = App::new_at(a_at(1), a_config(&["a", "b", "c"], 2, 50));
    let names: Vec<&String> = app.sites.keys().collect();
    assert_eq!(names, vec!["a", "b", "c"]);
    assert!(app.sites.values().all(|h| h.is_empty()));
    assert_eq!(app.theme_name, ThemeName::Light);
    assert_eq!(app.theme, Theme::light());
    assert_eq!(app.selected_index, None);
    assert_eq!(app.alert_selected_index, None);
    assert_eq!(app.current_view, View::Dashboard);
    assert_eq!(app.last_update, a_at(1));
    assert!(app.error_message.is_none() && app.error_timestamp.is_none());
    assert!(!app.refresh_requested);
    assert!(app.alert_history.is_empty());
    assert_eq!(app.status_counts(), (0, 0, 0, 3));
}

#[test]
fn app_keeps_one_history_for_a_repeated_name() {
    let app = App::new_at(a_at(1), a_config(&["a", "b", "a"], 2, 50));
    let names: Vec<&String> = app.sites.keys().collect();
    assert_eq!(names, vec!["a", "b"]);
}

#[test]
fn app_started_now_has_a_real_time() {
    let app = App::new(a_config(&["a"], 2, 50));
    assert!(app.last_update.secs > 1_600_000_000);
    assert_eq!(app.sites.len(), 1);
}

#[test]
fn samples_go_to_the_history_of_their_site() {
    let mut app = App::new_at(a_at(0), a_config(&["a", "b"], 2, 2));
    assert!(app.handle_check_result_at(a_at(5), "b".to_string(), a_sample(5, Status::Up)).is_none());
    assert_eq!(app.last_update, a_at(5));
    assert_eq!(app.sites["b"].len(), 1);
    assert_eq!(app.sites["a"].len(), 0);
    app.handle_check_result_at(a_at(6), "b".to_string(), a_sample(6, Status::Up));
    app.handle_check_result_at(a_at(7), "b".to_string(), a_sample(7, Status::Warning));
    let kept: Vec<i64> = app.sites["b"].all_results().iter().map(|r| r.timestamp.secs).collect();
    assert_eq!(kept, vec![6, 7]);
    assert_eq!(app.status_counts(), (0, 0, 1, 1));
}

#[test]
fn sample_of_an_unknown_site_changes_nothing() {
    let mut app = App::new_at(a_at(0), a_config(&["a"], 1, 10));
    assert!(app.handle_check_result_at(a_at(5), "zz".to_string(), a_sample(5, Status::Down)).is_none());
    assert_eq!(app.last_update, a_at(0));
    assert_eq!(app.sites.len(), 1);
    assert_eq!(app.sites["a"].len(), 0);
    assert!(app.alert_history.is_empty());
}

#[test]
fn second_down_raises_the_alert_and_keeps_it() {
    let mut app = App::new_at(a_at(0), a_config(&["a"], 2, 10));
    assert!(app.handle_check_result_at(a_at(1), "a".to_string(), a_sample(1, Status::Up)).is_none());
    assert!(app.handle_check_result_at(a_at(2), "a".to_string(), a_sample(2, Status::Down)).is_none());
    let alert = app
        .handle_check_result_at(a_at(3), "a".to_string(), a_sample(3, Status::Down))
        .expect("alert on the second failure");
    assert_eq!(alert.transition, StatusTransition::UpToDown);
    assert_eq!(alert.severity, AlertSeverity::Critical);
    assert_eq!(alert.site_name, "a");
    assert_eq!(alert.timestamp, a_at(3));
    assert_eq!(alert.previous_status, Status::Down);
    assert_eq!(alert.current_status, Status::Down);
    assert_eq!(alert.message, "a is DOWN");
    assert_eq!(app.alert_history.len(), 1);
    assert_eq!(app.alert_history.latest().map(|a| a.message.clone()), Some("a is DOWN".to_string()));
    // inside the cooldown the same status raises nothing more
    assert!(app.handle_check_result_at(a_at(4), "a".to_string(), a_sample(4, Status::Down)).is_none());
    let back = app
        .handle_check_result_at(a_at(5), "a".to_string(), a_sample(5, Status::Up))
        .expect("recovery");
    assert_eq!(back.transition, StatusTransition::DownToUp);
    assert_eq!(back.previous_status, Status::Down);
    assert_eq!(app.alert_history.len(), 2);
    assert_eq!(app.status_counts(), (1, 0, 0, 0));
}

#[test]
fn samples_handled_now_are_stamped_by_the_clock() {
    let mut app = App::new(a_config(&["a"], 1, 10));
    assert!(app.handle_check_result("a".to_string(), a_sample(1, Status::Up)).is_none());
    let alert = app.handle_check_result("a".to_string(), a_sample(2, Status::Down)).expect("alert");
    assert_eq!(alert.transition, StatusTransition::UpToDown);
    assert!(alert.timestamp.secs > 1_600_000_000);
    assert_eq!(app.last_update.secs >= alert.timestamp.secs - 1, true);
}

#[test]
fn status_counts_go_by_the_newest_sample() {
    let mut app = App::new_at(a_at(0), a_config(&["a", "b", "c", "d"], 2, 10));
    app.handle_check_result_at(a_at(1), "a".to_string(), a_sample(1, Status::Down));
    app.handle_check_result_at(a_at(2), "a".to_string(), a_sample(2, Status::Up));
    app.handle_check_result_at(a_at(3), "b".to_string(), a_sample(3, Status::Down));
    app.handle_check_result_at(a_at(4), "c".to_string(), a_sample(4, Status::Warning));
    assert_eq!(app.status_counts(), (1, 1, 1, 1));
}

#[test]
fn quit_keys_quit() {
    let mut app = App::new_at(a_at(0), a_config(&["a"], 2, 10));
    assert_eq!(app.handle_key_event(a_key(Key::Char('q'))), AppAction::Quit);
    assert_eq!(
        app.handle_key_event(KeyPress { code: Key::Char('c'), control: true }),
        AppAction::Quit
    );
    assert_eq!(app.handle_key_event(a_key(Key::Char('c'))), AppAction::Continue);
    assert_eq!(app.handle_key_event(a_key(Key::Other)), AppAction::Continue);
    assert_eq!(app.current_view, View::Dashboard);
}

#[test]
fn arrows_move_the_selection_and_wrap() {
    let mut app = App::new_at(a_at(0), a_config(&["a", "b", "c"], 2, 10));
    app.handle_key_event(a_key(Key::Down));
    assert_eq!(app.selected_index, Some(0));
    app.handle_key_event(a_key(Key::Char('j')));
    assert_eq!(app.selected_index, Some(1));
    app.handle_key_event(a_key(Key::Down));
    assert_eq!(app.selected_index, Some(2));
    app.handle_key_event(a_key(Key::Down));
    assert_eq!(app.selected_index, Some(0));
    app.handle_key_event(a_key(Key::Up));
    assert_eq!(app.selected_index, Some(2));
    app.handle_key_event(a_key(Key::Char('k')));
    assert_eq!(app.selected_index, Some(1));
    app.selected_index = None;
    app.handle_key_event(a_key(Key::Up));
    assert_eq!(app.selected_index, Some(0));
}

#[test]
fn arrows_do_nothing_in_an_empty_list() {
    let mut app = App::new_at(a_at(0), a_config(&[], 2, 10));
    app.handle_key_event(a_key(Key::Down));
    assert_eq!(app.selected_index, None);
    app.handle_key_event(a_key(Key::Char('a')));
    assert_eq!(app.current_view, View::Alerts);
    app.handle_key_event(a_key(Key::Up));
    assert_eq!(app.alert_selected_index, None);
}

#[test]
fn enter_opens_the_selected_site_and_escape_returns() {
    let mut app = App::new_at(a_at(0), a_config(&["a", "b"], 2, 10));
    app.handle_key_event(a_key(Key::Enter));
    assert_eq!(app.current_view, View::Dashboard);
    app.handle_key_event(a_key(Key::Down));
    app.handle_key_event(a_key(Key::Down));
    assert_eq!(app.selected_site().map(|(n, _)| n.clone()), Some("b".to_string()));
    app.handle_key_event(a_key(Key::Enter));
    assert_eq!(app.current_view, View::Detail("b".to_string()));
    assert_eq!(app.selected_index, None);
    assert!(app.selected_site().is_none());
    app.handle_key_event(a_key(Key::Esc));
    assert_eq!(app.current_view, View::Dashboard);
}

#[test]
fn alerts_can_be_browsed_and_opened() {
    let mut app = App::new_at(a_at(0), a_config(&["a"], 1, 10));
    app.handle_check_result_at(a_at(1), "a".to_string(), a_sample(1, Status::Up));
    app.handle_check_result_at(a_at(2), "a".to_string(), a_sample(2, Status::Down));
    app.handle_check_result_at(a_at(3), "a".to_string(), a_sample(3, Status::Up));
    assert_eq!(app.alert_history.len(), 2);
    app.handle_key_event(a_key(Key::Char('a')));
    assert_eq!(app.current_view, View::Alerts);
    app.handle_key_event(a_key(Key::Enter));
    assert_eq!(app.current_view, View::Alerts);
    app.handle_key_event(a_key(Key::Down));
    app.handle_key_event(a_key(Key::Down));
    assert_eq!(app.alert_selected_index, Some(1));
    app.handle_key_event(a_key(Key::Down));
    assert_eq!(app.alert_selected_index, Some(0));
    app.handle_key_event(a_key(Key::Up));
    assert_eq!(app.alert_selected_index, Some(1));
    app.handle_key_event(a_key(Key::Enter));
    assert_eq!(app.current_view, View::AlertDetail(1));
    app.handle_key_event(a_key(Key::Esc));
    assert_eq!(app.current_view, View::Alerts);
    assert_eq!(app.alert_selected_index, Some(1));
    app.handle_key_event(a_key(Key::Esc));
    assert_eq!(app.current_view, View::Dashboard);
    assert_eq!(app.alert_selected_index, None);
}

#[test]
fn help_theme_and_refresh_keys() {
    let mut app = App::new_at(a_at(0), a_config(&["a"], 2, 10));
    app.handle_key_event(a_key(Key::Down));
    app.handle_key_event(a_key(Key::Char('?')));
    assert_eq!(app.current_view, View::Help);
    assert_eq!(app.selected_index, None);
    app.handle_key_event(a_key(Key::Esc));
    app.handle_key_event(a_key(Key::Char('h')));
    assert_eq!(app.current_view, View::Help);
    app.handle_key_event(a_key(Key::Char('t')));
    assert_eq!(app.theme_name, ThemeName::HighContrast);
    assert_eq!(app.theme, Theme::high_contrast());
    app.cycle_theme();
    assert_eq!(app.theme_name, ThemeName::Dark);
    assert_eq!(app.theme, Theme::dark());
    assert!(!app.take_refresh_request());
    app.handle_key_event(a_key(Key::Char('r')));
    assert!(app.refresh_requested);
    assert!(app.take_refresh_request());
    assert!(!app.take_refresh_request());
}

#[test]
fn errors_are_shown_for_five_seconds() {
    let mut app = App::new_at(a_at(0), a_config(&["a"], 2, 10));
    app.check_error_dismissal_at(a_at(100));
    assert!(app.error_message.is_none());
    app.set_error_at(a_at(10), "oops".to_string());
    assert_eq!(app.error_message.as_deref(), Some("oops"));
    assert_eq!(app.error_timestamp, Some(a_at(10)));
    app.check_error_dismissal_at(Timestamp::new(14, 999_999_999));
    assert_eq!(app.error_message.as_deref(), Some("oops"));
    app.check_error_dismissal_at(a_at(15));
    assert!(app.error_message.is_none());
    assert!(app.error_timestamp.is_none());
    app.set_error("again".to_string());
    assert!(app.error_timestamp.is_some());
    app.check_error_dismissal();
    assert_eq!(app.error_message.as_deref(), Some("again"));
    app.clear_error();
    assert!(app.error_message.is_none() && app.error_timestamp.is_none());
}

#[test]
fn clicks_select_the_site_under_the_pointer() {
    let mut app = App::new_at(a_at(0), a_config(&["a", "b", "c"], 2, 10));
    let wide = FrameSize { width: 100, height: 30 };
    // rows 0..=2 header, row 3 top border, four rows per site from row 4
    for row in 0..=3 {
        app.handle_mouse_event(a_click(row), wide);
        assert_eq!(app.selected_index, None);
    }
    app.handle_mouse_event(a_click(4), wide);
    assert_eq!(app.selected_index, Some(0));
    app.handle_mouse_event(a_click(7), wide);
    assert_eq!(app.selected_index, Some(0));
    app.handle_mouse_event(a_click(8), wide);
    assert_eq!(app.selected_index, Some(1));
    app.handle_mouse_event(a_click(15), wide);
    assert_eq!(app.selected_index, Some(2));
    // below the last site: nothing changes
    app.handle_mouse_event(a_click(16), wide);
    assert_eq!(app.selected_index, Some(2));
    // narrow terminal: two rows per site
    let narrow = FrameSize { width: 50, height: 30 };
    app.handle_mouse_event(a_click(6), narrow);
    assert_eq!(app.selected_index, Some(1));
}

#[test]
fn clicks_outside_the_list_or_with_other_buttons_do_nothing() {
    let mut app = App::new_at(a_at(0), a_config(&["a", "b", "c"], 2, 10));
    let frame = FrameSize { width: 100, height: 10 };
    // footer takes the last two rows: rows 8 and 9
    app.handle_mouse_event(a_click(8), frame);
    assert_eq!(app.selected_index, None);
    app.handle_mouse_event(a_click(7), frame);
    assert_eq!(app.selected_index, Some(0));
    // with an error on show the footer takes three rows
    app.selected_index = None;
    app.set_error_at(a_at(0), "e".to_string());
    app.handle_mouse_event(a_click(7), frame);
    assert_eq!(app.selected_index, None);
    app.handle_mouse_event(MouseInput { kind: MouseKind::Other, row: 4, column: 0 }, frame);
    assert_eq!(app.selected_index, None);
    app.handle_mouse_event(a_click(4), FrameSize { width: 100, height: 1 });
    assert_eq!(app.selected_index, None);
    app.current_view = View::Help;
    app.handle_mouse_event(a_click(4), frame);
    assert_eq!(app.selected_index, None);
}

#[test]
fn clicks_select_the_alert_under_the_pointer() {
    let mut app = App::new_at(a_at(0), a_config(&["a"], 1, 10));
    app.handle_check_result_at(a_at(1), "a".to_string(), a_sample(1, Status::Up));
    app.handle_check_result_at(a_at(2), "a".to_string(), a_sample(2, Status::Down));
    app.handle_check_result_at(a_at(3), "a".to_string(), a_sample(3, Status::Up));
    app.handle_key_event(a_key(Key::Char('a')));
    let frame = FrameSize { width: 100, height: 30 };
    app.handle_mouse_event(a_click(3), frame);
    assert_eq!(app.alert_selected_index, None);
    app.handle_mouse_event(a_click(5), frame);
    assert_eq!(app.alert_selected_index, Some(0));
    app.handle_mouse_event(a_click(6), frame);
    assert_eq!(app.alert_selected_index, Some(1));
    app.handle_mouse_event(a_click(8), frame);
    assert_eq!(app.alert_selected_index, Some(1));
    // the last five rows are not part of the list
    app.alert_selected_index = None;
    app.handle_mouse_event(a_click(5), FrameSize { width: 100, height: 10 });
    assert_eq!(app.alert_selected_index, None);
    app.handle_mouse_event(a_click(4), FrameSize { width: 100, height: 10 });
    assert_eq!(app.alert_selected_index, Some(0));
    assert_eq!(app.selected_index, None);
}
