//! Which announcements an alert calls for.

use crate::alerts::history::{Alert, AlertSeverity};
use crate::config::{merged_policy, resolve_policy, site_position, Config, EffectivePolicy};
use vstd::prelude::*;
use vstd::string::StringExecFns;

verus! {

/// How pressing a desktop notification is.
#[derive(Clone, Copy, Debug, PartialEq, Eq, Structural)]
pub enum Urgency {
    Low,
    Normal,
    Critical,
}

impl Urgency {
    /// Outages are critical, warnings normal, recoveries low.
    pub open spec fn of_severity(severity: AlertSeverity) -> Urgency {
        match severity {
            AlertSeverity::Critical => Urgency::Critical,
            AlertSeverity::Warning => Urgency::Normal,
            AlertSeverity::Recovery => Urgency::Low,
        }
    }

    pub fn from_severity(severity: AlertSeverity) -> (u: Urgency)
        ensures
            u == Urgency::of_severity(severity),
    {
        match severity {
            AlertSeverity::Critical => Urgency::Critical,
            AlertSeverity::Warning => Urgency::Normal,
            AlertSeverity::Recovery => Urgency::Low,
        }
    }
}

/// Milliseconds for which a desktop notification stays on screen.
pub const DESKTOP_TIMEOUT_MS: u32 = 10000;

/// A desktop notification, ready to be shown.
#[derive(Debug)]
pub struct DesktopNotification {
    pub summary: String,
    pub body: String,
    pub urgency: Urgency,
    pub timeout_ms: u32,
}

impl DesktopNotification {
    /// Whether this is the desktop notification for `alert`.
    pub open spec fn announces(self, alert: Alert) -> bool {
        &&& self.summary@ == "Monitor TUI Alert"@
        &&& self.body == alert.message
        &&& self.urgency == Urgency::of_severity(alert.severity)
        &&& self.timeout_ms == DESKTOP_TIMEOUT_MS
    }

    /// The desktop notification for an alert.
    pub fn for_alert(alert: &Alert) -> (n: DesktopNotification)
        ensures
            n.announces(*alert),
    {
        DesktopNotification {
            summary: String::from_str("Monitor TUI Alert"),
            body: alert.message.clone(),
            urgency: Urgency::from_severity(alert.severity),
            timeout_ms: DESKTOP_TIMEOUT_MS,
        }
    }
}

/// What is to be done to announce one alert.
#[derive(Debug)]
pub struct Notification {
    /// Ring the terminal bell.
    pub terminal_bell: bool,
    /// Show this on the desktop.
    pub desktop: Option<DesktopNotification>,
}

/// Decides how alerts are announced.
#[derive(Debug)]
pub struct AlertNotifier {
    config: Config,
}

impl Clone for AlertNotifier {
    fn clone(&self) -> (copy: AlertNotifier)
        ensures
            copy.config().settings == self.config().settings,
            copy.config().sites@ == self.config().sites@,
    {
        AlertNotifier { config: self.config.clone() }
    }
}

impl AlertNotifier {
    /// The configuration that the notifier was made with.
    pub closed spec fn config(self) -> Config {
        self.config
    }

    /// The policy in force for the site called `name`: the global policy, with
    /// the site's own settings laid over it where the site is configured.
    pub open spec fn policy_for(self, name: Seq<char>) -> EffectivePolicy {
        merged_policy(
            self.config().settings.alerts,
            match site_position(self.config().sites@, name) {
                Some(i) => self.config().sites@[i].alerts,
                None => None,
            },
        )
    }

    pub fn new(config: Config) -> (n: AlertNotifier)
        ensures
            n.config() == config,
    {
        AlertNotifier { config }
    }

    /// Says how `alert` is to be announced: with the terminal bell where the
    /// policy of its site has the bell on, and on the desktop where it has
    /// desktop notifications on.
    pub fn notify(&self, alert: &Alert) -> (n: Notification)
        ensures
            n.terminal_bell == self.policy_for(alert.site_name@).terminal_bell,
            n.desktop.is_some() == self.policy_for(alert.site_name@).desktop_notifications,
            n.desktop matches Some(d) ==> d.announces(*alert),
    {
        let policy = match self.config.find_site(alert.site_name.as_str()) {
            Some(i) => resolve_policy(&self.config.settings.alerts, &self.config.sites[i].alerts),
            None => resolve_policy(&self.config.settings.alerts, &None),
        };
        Notification {
            terminal_bell: policy.terminal_bell,
            desktop: if policy.desktop_notifications {
                Some(DesktopNotification::for_alert(alert))
            } else {
                None
            },
        }
    }
}

} // verus!
