//! The configuration that the monitor runs on, and the rules it must meet.

use crate::search::{first_index, lemma_first_index_is, lemma_first_index_none};
use crate::text::{decimal, decimal_text};
use crate::ui::theme::ThemeName;
use vstd::prelude::*;
use vstd::string::StringExecFns;

verus! {

/// The whole configuration: global settings and the endpoints to watch.
#[derive(Debug)]
pub struct Config {
    pub settings: Settings,
    pub sites: Vec<SiteConfig>,
}

/// Global settings.
#[derive(Clone, Copy, Debug, PartialEq, Eq, Structural)]
pub struct Settings {
    /// Seconds between two probes of an endpoint.
    pub refresh_interval: u64,
    /// Samples kept per endpoint.
    pub history_size: usize,
    /// Seconds after which a probe gives up.
    pub request_timeout: u64,
    /// Latency in milliseconds above which a good response is a warning.
    pub warning_threshold_ms: Option<u64>,
    pub theme: ThemeName,
    pub alerts: AlertSettings,
}

/// One endpoint.
#[derive(Debug)]
pub struct SiteConfig {
    pub name: String,
    pub url: String,
    pub expected_status: u16,
    pub check_interval: Option<u64>,
    pub alerts: Option<SiteAlertSettings>,
}

/// The global alert policy.
#[derive(Clone, Copy, Debug, PartialEq, Eq, Structural)]
pub struct AlertSettings {
    pub enabled: bool,
    pub terminal_bell: bool,
    pub desktop_notifications: bool,
    pub alert_history_size: usize,
    pub consecutive_failures: usize,
    pub cooldown_seconds: u64,
    pub transitions: TransitionSettings,
}

/// One switch per kind of transition.
#[derive(Clone, Copy, Debug, PartialEq, Eq, Structural)]
pub struct TransitionSettings {
    pub up_to_down: bool,
    pub up_to_warn: bool,
    pub down_to_up: bool,
    pub warn_to_down: bool,
    pub warn_to_up: bool,
    pub down_to_warn: bool,
}

/// What one endpoint changes of the global alert policy.
#[derive(Clone, Copy, Debug, PartialEq, Eq, Structural)]
pub struct SiteAlertSettings {
    pub enabled: Option<bool>,
    pub consecutive_failures: Option<usize>,
    pub cooldown_seconds: Option<u64>,
    pub terminal_bell: Option<bool>,
    pub desktop_notifications: Option<bool>,
}

impl Clone for SiteConfig {
    fn clone(&self) -> (copy: SiteConfig)
        ensures
            copy == *self,
    {
        SiteConfig {
            name: self.name.clone(),
            url: self.url.clone(),
            expected_status: self.expected_status,
            check_interval: self.check_interval,
            alerts: self.alerts,
        }
    }
}

impl Clone for Config {
    fn clone(&self) -> (copy: Config)
        ensures
            copy.settings == self.settings,
            copy.sites@ == self.sites@,
    {
        let mut sites: Vec<SiteConfig> = Vec::new();
        let mut i: usize = 0;
        while i < self.sites.len()
            invariant
                i <= self.sites.len(),
                sites@ == self.sites@.take(i as int),
            decreases self.sites.len() - i,
        {
            sites.push(self.sites[i].clone());
            i += 1;
        }
        Config { settings: self.settings, sites }
    }
}

impl Clone for ConfigError {
    fn clone(&self) -> (copy: ConfigError)
        ensures
            copy == *self,
    {
        match self {
            ConfigError::NoSites => ConfigError::NoSites,
            ConfigError::EmptyUrl { site } => ConfigError::EmptyUrl { site: site.clone() },
            ConfigError::InvalidUrl { site, url } => ConfigError::InvalidUrl {
                site: site.clone(),
                url: url.clone(),
            },
            ConfigError::InvalidExpectedStatus { site, expected_status } => {
                ConfigError::InvalidExpectedStatus {
                    site: site.clone(),
                    expected_status: *expected_status,
                }
            },
        }
    }
}

pub fn default_refresh_interval() -> (v: u64)
    ensures
        v == 5,
{
    5
}

pub fn default_history_size() -> (v: usize)
    ensures
        v == 100,
{
    100
}

pub fn default_request_timeout() -> (v: u64)
    ensures
        v == 3,
{
    3
}

pub fn default_true() -> (v: bool)
    ensures
        v,
{
    true
}

pub fn default_false() -> (v: bool)
    ensures
        !v,
{
    false
}

pub fn default_alert_history_size() -> (v: usize)
    ensures
        v == 200,
{
    200
}

pub fn default_consecutive_failures() -> (v: usize)
    ensures
        v == 2,
{
    2
}

pub fn default_cooldown_seconds() -> (v: u64)
    ensures
        v == 300,
{
    300
}

impl TransitionSettings {
    /// Alerts for outages and recoveries, none for moves into `Warning`.
    pub open spec fn standard() -> TransitionSettings {
        TransitionSettings {
            up_to_down: true,
            up_to_warn: false,
            down_to_up: true,
            warn_to_down: true,
            warn_to_up: true,
            down_to_warn: false,
        }
    }
}

impl Default for TransitionSettings {
    fn default() -> (t: TransitionSettings)
        ensures
            t == TransitionSettings::standard(),
    {
        TransitionSettings {
            up_to_down: true,
            up_to_warn: false,
            down_to_up: true,
            warn_to_down: true,
            warn_to_up: true,
            down_to_warn: false,
        }
    }
}

impl AlertSettings {
    /// Everything on, two failures before an alert, five minutes of cooldown.
    pub open spec fn standard() -> AlertSettings {
        AlertSettings {
            enabled: true,
            terminal_bell: true,
            desktop_notifications: true,
            alert_history_size: 200,
            consecutive_failures: 2,
            cooldown_seconds: 300,
            transitions: TransitionSettings::standard(),
        }
    }
}

impl Default for AlertSettings {
    fn default() -> (a: AlertSettings)
        ensures
            a == AlertSettings::standard(),
    {
        AlertSettings {
            enabled: true,
            terminal_bell: true,
            desktop_notifications: true,
            alert_history_size: 200,
            consecutive_failures: 2,
            cooldown_seconds: 300,
            transitions: TransitionSettings::default(),
        }
    }
}

/// The alert policy in force for one endpoint, every field filled in.
#[derive(Clone, Copy, Debug, PartialEq, Eq, Structural)]
pub struct EffectivePolicy {
    pub enabled: bool,
    pub consecutive_failures: usize,
    pub cooldown_seconds: u64,
    pub terminal_bell: bool,
    pub desktop_notifications: bool,
    pub transitions: TransitionSettings,
}

/// `over` where it is set, else `base`.
pub open spec fn or_base<T>(over: Option<T>, base: T) -> T {
    match over {
        Some(v) => v,
        None => base,
    }
}

/// The global policy with an endpoint's settings laid over it, field by
/// field. The transition switches are global only.
pub open spec fn merged_policy(
    global: AlertSettings,
    site: Option<SiteAlertSettings>,
) -> EffectivePolicy {
    match site {
        None => EffectivePolicy {
            enabled: global.enabled,
            consecutive_failures: global.consecutive_failures,
            cooldown_seconds: global.cooldown_seconds,
            terminal_bell: global.terminal_bell,
            desktop_notifications: global.desktop_notifications,
            transitions: global.transitions,
        },
        Some(s) => EffectivePolicy {
            enabled: or_base(s.enabled, global.enabled),
            consecutive_failures: or_base(s.consecutive_failures, global.consecutive_failures),
            cooldown_seconds: or_base(s.cooldown_seconds, global.cooldown_seconds),
            terminal_bell: or_base(s.terminal_bell, global.terminal_bell),
            desktop_notifications: or_base(
                s.desktop_notifications,
                global.desktop_notifications,
            ),
            transitions: global.transitions,
        },
    }
}

fn pick<T: Copy>(over: Option<T>, base: T) -> (v: T)
    ensures
        v == or_base(over, base),
{
    match over {
        Some(v) => v,
        None => base,
    }
}

/// Resolves the policy in force for an endpoint.
pub fn resolve_policy(global: &AlertSettings, site: &Option<SiteAlertSettings>) -> (p:
    EffectivePolicy)
    ensures
        p == merged_policy(*global, *site),
{
    match site {
        None => EffectivePolicy {
            enabled: global.enabled,
            consecutive_failures: global.consecutive_failures,
            cooldown_seconds: global.cooldown_seconds,
            terminal_bell: global.terminal_bell,
            desktop_notifications: global.desktop_notifications,
            transitions: global.transitions,
        },
        Some(s) => EffectivePolicy {
            enabled: pick(s.enabled, global.enabled),
            consecutive_failures: pick(s.consecutive_failures, global.consecutive_failures),
            cooldown_seconds: pick(s.cooldown_seconds, global.cooldown_seconds),
            terminal_bell: pick(s.terminal_bell, global.terminal_bell),
            desktop_notifications: pick(s.desktop_notifications, global.desktop_notifications),
            transitions: global.transitions,
        },
    }
}

/// Why a configuration is refused.
#[derive(Debug)]
pub enum ConfigError {
    /// No endpoint is defined.
    NoSites,
    /// The named endpoint has an empty URL.
    EmptyUrl { site: String },
    /// The named endpoint's URL begins with neither `http://` nor `https://`.
    InvalidUrl { site: String, url: String },
    /// The named endpoint expects a status outside 100 to 599.
    InvalidExpectedStatus { site: String, expected_status: u16 },
}

impl ConfigError {
    /// The error in words.
    pub open spec fn text(self) -> Seq<char> {
        match self {
            ConfigError::NoSites => "Configuration must define at least one site"@,
            ConfigError::EmptyUrl { site } => "Site '"@ + site@ + "' has empty URL"@,
            ConfigError::InvalidUrl { site, url } => "Site '"@ + site@ + "' has invalid URL '"@
                + url@ + "' - must start with http:// or https://"@,
            ConfigError::InvalidExpectedStatus { site, expected_status } => "Site '"@ + site@
                + "' has invalid expected_status "@ + decimal_text(expected_status as nat)
                + " - must be 100-599"@,
        }
    }

    /// Writes the error in words.
    pub fn message(&self) -> (message: String)
        ensures
            message@ == self.text(),
    {
        match self {
            ConfigError::NoSites => String::from_str(
                "Configuration must define at least one site",
            ),
            ConfigError::EmptyUrl { site } => {
                let mut message = String::from_str("Site '");
                message.append(site.as_str());
                message.append("' has empty URL");
                message
            },
            ConfigError::InvalidUrl { site, url } => {
                let mut message = String::from_str("Site '");
                message.append(site.as_str());
                message.append("' has invalid URL '");
                message.append(url.as_str());
                message.append("' - must start with http:// or https://");
                message
            },
            ConfigError::InvalidExpectedStatus { site, expected_status } => {
                let mut message = String::from_str("Site '");
                message.append(site.as_str());
                message.append("' has invalid expected_status ");
                message.append(decimal(*expected_status as u64).as_str());
                message.append(" - must be 100-599");
                message
            },
        }
    }
}

/// What is wrong with one endpoint, if anything. The URL is looked at before
/// the expected status.
pub open spec fn site_fault(site: SiteConfig) -> Option<ConfigError> {
    if site.url@.len() == 0 {
        Some(ConfigError::EmptyUrl { site: site.name })
    } else if !crate::text::starts_with(site.url@, "http://"@) && !crate::text::starts_with(
        site.url@,
        "https://"@,
    ) {
        Some(ConfigError::InvalidUrl { site: site.name, url: site.url })
    } else if site.expected_status < 100 || site.expected_status >= 600 {
        Some(ConfigError::InvalidExpectedStatus {
            site: site.name,
            expected_status: site.expected_status,
        })
    } else {
        None
    }
}

/// The verdict on a list of endpoints: an empty list is refused, then the
/// first endpoint with a fault decides.
pub open spec fn sites_verdict(sites: Seq<SiteConfig>) -> Result<(), ConfigError> {
    if sites.len() == 0 {
        Err(ConfigError::NoSites)
    } else {
        match first_index(sites, |s: SiteConfig| site_fault(s).is_some()) {
            Some(i) => Err(site_fault(sites[i]).unwrap()),
            None => Ok(()),
        }
    }
}

/// The position of the first endpoint called `name`, if there is one.
pub open spec fn site_position(sites: Seq<SiteConfig>, name: Seq<char>) -> Option<int> {
    first_index(sites, |s: SiteConfig| s.name@ == name)
}

impl SiteConfig {
    /// Checks one endpoint.
    pub fn check(&self) -> (r: Result<(), ConfigError>)
        ensures
            r == match site_fault(*self) {
                Some(e) => Err::<(), ConfigError>(e),
                None => Ok(()),
            },
    {
        if self.url.as_str().is_empty() {
            return Err(ConfigError::EmptyUrl { site: self.name.clone() });
        }
        if !crate::text::has_prefix(self.url.as_str(), "http://") && !crate::text::has_prefix(
            self.url.as_str(),
            "https://",
        ) {
            return Err(ConfigError::InvalidUrl { site: self.name.clone(), url: self.url.clone() });
        }
        if self.expected_status < 100 || self.expected_status >= 600 {
            return Err(
                ConfigError::InvalidExpectedStatus {
                    site: self.name.clone(),
                    expected_status: self.expected_status,
                },
            );
        }
        Ok(())
    }
}

impl Config {
    /// Validates the configuration: at least one endpoint, and each endpoint
    /// with an http or https URL and an expected status from 100 to 599.
    pub fn validate(&self) -> (r: Result<(), ConfigError>)
        ensures
            r == sites_verdict(self.sites@),
    {
        if self.sites.len() == 0 {
            return Err(ConfigError::NoSites);
        }
        let ghost faulty = |s: SiteConfig| site_fault(s).is_some();
        let mut i: usize = 0;
        while i < self.sites.len()
            invariant
                i <= self.sites.len(),
                faulty == |s: SiteConfig| site_fault(s).is_some(),
                forall|j: int| 0 <= j < i ==> !faulty(#[trigger] self.sites@[j]),
            decreases self.sites.len() - i,
        {
            match self.sites[i].check() {
                Err(e) => {
                    proof {
                        lemma_first_index_is(self.sites@, faulty, i as int);
                    }
                    return Err(e);
                },
                Ok(_) => {},
            }
            i += 1;
        }
        proof {
            lemma_first_index_none(self.sites@, faulty);
        }
        Ok(())
    }

    /// Finds the first endpoint called `name`.
    pub fn find_site(&self, name: &str) -> (found: Option<usize>)
        ensures
            match found {
                Some(i) => site_position(self.sites@, name@) == Some(i as int),
                None => site_position(self.sites@, name@).is_none(),
            },
    {
        let key = String::from_str(name);
        let ghost called = |s: SiteConfig| s.name@ == name@;
        let mut i: usize = 0;
        while i < self.sites.len()
            invariant
                i <= self.sites.len(),
                key@ == name@,
                called == |s: SiteConfig| s.name@ == name@,
                forall|j: int| 0 <= j < i ==> !called(#[trigger] self.sites@[j]),
            decreases self.sites.len() - i,
        {
            if self.sites[i].name == key {
                proof {
                    lemma_first_index_is(self.sites@, called, i as int);
                }
                return Some(i);
            }
            i += 1;
        }
        proof {
            lemma_first_index_none(self.sites@, called);
        }
        None
    }
}

} // verus!
