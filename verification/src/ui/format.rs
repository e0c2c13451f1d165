//! The words and figures that the screens show.

use crate::alerts::{AlertHistory, AlertSeverity};
use crate::checker::Status;
use crate::text::{decimal, decimal_text};
use crate::ui::theme::{truncated, Color, ResponsiveLayout, Theme};
use vstd::prelude::*;
use vstd::string::StringExecFns;

verus! {

/// The four-column status tag of the site list; `None` is a site without a
/// sample.
pub open spec fn status_tag_text(status: Option<Status>) -> Seq<char> {
    match status {
        Some(Status::Up) => "UP  "@,
        Some(Status::Down) => "DOWN"@,
        Some(Status::Warning) => "WARN"@,
        None => "----"@,
    }
}

pub fn status_tag(status: Option<Status>) -> (tag: &'static str)
    ensures
        tag@ == status_tag_text(status),
{
    match status {
        Some(Status::Up) => "UP  ",
        Some(Status::Down) => "DOWN",
        Some(Status::Warning) => "WARN",
        None => "----",
    }
}

/// The status in a word, as the detail screens show it.
pub open spec fn status_word_text(status: Option<Status>) -> Seq<char> {
    match status {
        Some(Status::Up) => "UP"@,
        Some(Status::Down) => "DOWN"@,
        Some(Status::Warning) => "WARNING"@,
        None => "NO DATA"@,
    }
}

pub fn status_word(status: Option<Status>) -> (word: &'static str)
    ensures
        word@ == status_word_text(status),
{
    match status {
        Some(Status::Up) => "UP",
        Some(Status::Down) => "DOWN",
        Some(Status::Warning) => "WARNING",
        None => "NO DATA",
    }
}

/// The colour of a status; a site without a sample has the colour for
/// unknown.
pub fn status_color(theme: &Theme, status: Option<Status>) -> (color: Color)
    ensures
        color == match status {
            Some(Status::Up) => theme.status_up,
            Some(Status::Down) => theme.status_down,
            Some(Status::Warning) => theme.status_warning,
            None => theme.status_unknown,
        },
{
    match status {
        Some(s) => theme.status_color(&s),
        None => theme.status_unknown,
    }
}

/// The eight-column severity tag of the alert list.
pub open spec fn severity_tag_text(severity: AlertSeverity) -> Seq<char> {
    match severity {
        AlertSeverity::Critical => "CRITICAL"@,
        AlertSeverity::Warning => "WARNING "@,
        AlertSeverity::Recovery => "RECOVERY"@,
    }
}

pub fn severity_tag(severity: AlertSeverity) -> (tag: &'static str)
    ensures
        tag@ == severity_tag_text(severity),
{
    match severity {
        AlertSeverity::Critical => "CRITICAL",
        AlertSeverity::Warning => "WARNING ",
        AlertSeverity::Recovery => "RECOVERY",
    }
}

/// The title of an alert's detail screen.
pub open spec fn severity_title_text(severity: AlertSeverity) -> Seq<char> {
    match severity {
        AlertSeverity::Critical => "CRITICAL ALERT"@,
        AlertSeverity::Warning => "WARNING ALERT"@,
        AlertSeverity::Recovery => "RECOVERY ALERT"@,
    }
}

pub fn severity_title(severity: AlertSeverity) -> (title: &'static str)
    ensures
        title@ == severity_title_text(severity),
{
    match severity {
        AlertSeverity::Critical => "CRITICAL ALERT",
        AlertSeverity::Warning => "WARNING ALERT",
        AlertSeverity::Recovery => "RECOVERY ALERT",
    }
}

/// The colour of a severity.
pub fn severity_color(theme: &Theme, severity: AlertSeverity) -> (color: Color)
    ensures
        color == match severity {
            AlertSeverity::Critical => theme.alert_critical,
            AlertSeverity::Warning => theme.alert_warning,
            AlertSeverity::Recovery => theme.alert_recovery,
        },
{
    match severity {
        AlertSeverity::Critical => theme.alert_critical,
        AlertSeverity::Warning => theme.alert_warning,
        AlertSeverity::Recovery => theme.alert_recovery,
    }
}

/// A number followed by a unit, or `missing` where there is no number.
pub open spec fn figure_text(value: Option<u64>, unit: Seq<char>, missing: Seq<char>) -> Seq<char> {
    match value {
        Some(v) => decimal_text(v as nat) + unit,
        None => missing,
    }
}

/// Writes a number followed by a unit, or `missing` where there is none.
pub fn figure(value: Option<u64>, unit: &str, missing: &str) -> (text: String)
    ensures
        text@ == figure_text(value, unit@, missing@),
{
    match value {
        Some(v) => {
            let mut text = decimal(v);
            text.append(unit);
            text
        },
        None => String::from_str(missing),
    }
}

/// A latency in milliseconds, as `12ms`.
pub fn millis(value: Option<u64>, missing: &str) -> (text: String)
    ensures
        text@ == figure_text(value, "ms"@, missing@),
{
    figure(value, "ms", missing)
}

/// A response code in digits.
pub fn response_code(code: Option<u16>, missing: &str) -> (text: String)
    ensures
        text@ == match code {
            Some(c) => decimal_text(c as nat),
            None => missing@,
        },
{
    match code {
        Some(c) => decimal(c as u64),
        None => String::from_str(missing),
    }
}

/// A site's own check interval, as `30s`, or `default` where it has none.
pub fn interval(seconds: Option<u64>) -> (text: String)
    ensures
        text@ == figure_text(seconds, "s"@, "default"@),
{
    figure(seconds, "s", "default")
}

/// Most characters of an error text that a row of recent checks shows.
pub const ERROR_COLUMNS: usize = 40;

/// An error text cut to the width of a row of recent checks.
pub fn short_error(error: &str) -> (text: String)
    ensures
        text@ == truncated(error@, ERROR_COLUMNS as nat),
{
    ResponsiveLayout::truncate(error, ERROR_COLUMNS)
}

/// The position in the alert history of the alert at `shown` in a list that
/// shows the newest alert first. A position past the oldest alert stands for
/// the oldest one; an empty history has no alert at any position.
pub open spec fn history_position(count: nat, shown: nat) -> Option<int> {
    if count == 0 {
        None
    } else if shown >= count {
        Some(0)
    } else {
        Some(count - 1 - shown)
    }
}

/// Finds the place in the history of an alert shown newest first.
pub fn shown_alert_position(history: &AlertHistory, shown: usize) -> (position: Option<usize>)
    ensures
        match position {
            Some(p) => history_position(history@.len(), shown as nat) == Some(p as int),
            None => history_position(history@.len(), shown as nat).is_none(),
        },
{
    let total = history.len();
    if total == 0 {
        None
    } else if shown >= total {
        Some(0)
    } else {
        Some(total - 1 - shown)
    }
}

/// The colours of the three counts of the status bar.
#[derive(Clone, Copy, Debug, PartialEq, Eq, Structural)]
pub struct StatusBarColors {
    pub up: Color,
    pub down: Color,
    pub warn: Color,
}

/// Colours the counts of the status bar. The count of sites that are up is
/// in the colour for up when all are up, else in that for down if any is
/// down, else in that for warning. The other two counts are muted at zero.
pub fn status_bar_colors(theme: &Theme, up: usize, down: usize, warn: usize, total: usize) -> (c:
    StatusBarColors)
    ensures
        c.up == if up == total {
            theme.status_up
        } else if down > 0 {
            theme.status_down
        } else {
            theme.status_warning
        },
        c.down == if down > 0 {
            theme.status_down
        } else {
            theme.text_muted
        },
        c.warn == if warn > 0 {
            theme.status_warning
        } else {
            theme.text_muted
        },
{
    StatusBarColors {
        up: if up == total {
            theme.status_up
        } else if down > 0 {
            theme.status_down
        } else {
            theme.status_warning
        },
        down: if down > 0 {
            theme.status_down
        } else {
            theme.text_muted
        },
        warn: if warn > 0 {
            theme.status_warning
        } else {
            theme.text_muted
        },
    }
}

} // verus!
