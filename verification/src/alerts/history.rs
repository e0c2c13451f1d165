//! The alerts that were emitted, kept in a bounded history.

use crate::alerts::detector::StatusTransition;
use crate::checker::Status;
use crate::clock::Timestamp;
use crate::history::{push_bounded, ring_bound, ring_push};
use std::collections::VecDeque;
use vstd::prelude::*;
use vstd::string::StringExecFns;

verus! {

/// How grave an alert is: it follows from the status that was arrived at.
#[derive(Clone, Copy, Debug, PartialEq, Eq, Structural)]
pub enum AlertSeverity {
    /// The site went down.
    Critical,
    /// The site has warning status.
    Warning,
    /// The site recovered.
    Recovery,
}

impl AlertSeverity {
    /// The severity of an arrival at `status`.
    pub open spec fn of_arrival(status: Status) -> AlertSeverity {
        match status {
            Status::Down => AlertSeverity::Critical,
            Status::Warning => AlertSeverity::Warning,
            Status::Up => AlertSeverity::Recovery,
        }
    }

    pub fn from_transition(transition: &StatusTransition) -> (s: AlertSeverity)
        ensures
            s == AlertSeverity::of_arrival(transition.target()),
    {
        match transition {
            StatusTransition::UpToDown | StatusTransition::WarnToDown => AlertSeverity::Critical,
            StatusTransition::UpToWarn => AlertSeverity::Warning,
            StatusTransition::DownToUp | StatusTransition::WarnToUp => AlertSeverity::Recovery,
            StatusTransition::DownToWarn => AlertSeverity::Warning,
        }
    }
}

/// What is said of a transition, after the name of the site.
pub open spec fn transition_phrase(transition: StatusTransition) -> Seq<char> {
    match transition {
        StatusTransition::UpToDown => " is DOWN"@,
        StatusTransition::UpToWarn => " has WARNING status"@,
        StatusTransition::DownToUp => " has RECOVERED"@,
        StatusTransition::WarnToDown => " went from WARNING to DOWN"@,
        StatusTransition::WarnToUp => " recovered from WARNING"@,
        StatusTransition::DownToWarn => " went from DOWN to WARNING"@,
    }
}

/// The human message of an alert: the name of the site, then the phrase of
/// the transition.
pub open spec fn alert_message(site_name: Seq<char>, transition: StatusTransition) -> Seq<char> {
    site_name + transition_phrase(transition)
}

/// One accepted status change of one endpoint.
#[derive(Debug)]
pub struct Alert {
    pub timestamp: Timestamp,
    pub site_name: String,
    pub transition: StatusTransition,
    pub severity: AlertSeverity,
    pub current_status: Status,
    pub previous_status: Status,
    pub message: String,
}

impl Clone for Alert {
    fn clone(&self) -> (copy: Alert)
        ensures
            copy == *self,
    {
        Alert {
            timestamp: self.timestamp,
            site_name: self.site_name.clone(),
            transition: self.transition,
            severity: self.severity,
            current_status: self.current_status,
            previous_status: self.previous_status,
            message: self.message.clone(),
        }
    }
}

impl Alert {
    /// Whether the alert is the one made at `timestamp` of the given change on
    /// the given site: the severity follows from the transition, and the
    /// message from the site's name and the transition.
    pub open spec fn is_made_of(
        self,
        timestamp: Timestamp,
        site_name: String,
        transition: StatusTransition,
        previous_status: Status,
        current_status: Status,
    ) -> bool {
        &&& self.timestamp == timestamp
        &&& self.site_name == site_name
        &&& self.transition == transition
        &&& self.severity == AlertSeverity::of_arrival(transition.target())
        &&& self.current_status == current_status
        &&& self.previous_status == previous_status
        &&& self.message@ == alert_message(site_name@, transition)
    }

    /// The alert for a transition accepted at `timestamp`.
    pub fn at(
        timestamp: Timestamp,
        site_name: String,
        transition: StatusTransition,
        previous_status: Status,
        current_status: Status,
    ) -> (a: Alert)
        ensures
            a.is_made_of(timestamp, site_name, transition, previous_status, current_status),
    {
        let severity = AlertSeverity::from_transition(&transition);
        let message = Alert::format_message(site_name.as_str(), &transition);
        Alert {
            timestamp,
            site_name,
            transition,
            severity,
            current_status,
            previous_status,
            message,
        }
    }

    /// The alert for a transition accepted now, by the system clock.
    pub fn new(
        site_name: String,
        transition: StatusTransition,
        previous_status: Status,
        current_status: Status,
    ) -> (a: Alert)
        ensures
            a.is_made_of(a.timestamp, site_name, transition, previous_status, current_status),
    {
        Alert::at(crate::clock::now(), site_name, transition, previous_status, current_status)
    }

    /// The human message for a transition of the site called `site_name`.
    pub fn format_message(site_name: &str, transition: &StatusTransition) -> (message: String)
        ensures
            message@ == alert_message(site_name@, *transition),
    {
        let mut message = String::from_str(site_name);
        match transition {
            StatusTransition::UpToDown => message.append(" is DOWN"),
            StatusTransition::UpToWarn => message.append(" has WARNING status"),
            StatusTransition::DownToUp => message.append(" has RECOVERED"),
            StatusTransition::WarnToDown => message.append(" went from WARNING to DOWN"),
            StatusTransition::WarnToUp => message.append(" recovered from WARNING"),
            StatusTransition::DownToWarn => message.append(" went from DOWN to WARNING"),
        }
        message
    }
}

/// The alerts of a run that have the given severity, in order.
pub open spec fn with_severity(alerts: Seq<Alert>, severity: AlertSeverity) -> Seq<Alert> {
    alerts.filter(|a: Alert| a.severity == severity)
}

/// The alerts of a run that are about the site called `site_name`, in order.
pub open spec fn about_site(alerts: Seq<Alert>, site_name: Seq<char>) -> Seq<Alert> {
    alerts.filter(|a: Alert| a.site_name@ == site_name)
}

/// The alerts behind a sequence of references.
pub open spec fn referents(refs: Seq<&Alert>) -> Seq<Alert> {
    refs.map_values(|a: &Alert| *a)
}

/// History of alerts with ring buffer storage.
pub struct AlertHistory {
    alerts: VecDeque<Alert>,
    max_size: usize,
}

impl View for AlertHistory {
    type V = Seq<Alert>;

    /// The alerts, oldest first.
    closed spec fn view(&self) -> Seq<Alert> {
        self.alerts@
    }
}

impl AlertHistory {
    /// The bound that the history was made with.
    pub closed spec fn max_size(self) -> usize {
        self.max_size
    }

    /// The history holds no more alerts than its bound allows.
    pub open spec fn within_bound(self) -> bool {
        self@.len() <= ring_bound(self.max_size() as nat)
    }

    pub fn new(max_size: usize) -> (h: AlertHistory)
        ensures
            h@ == Seq::<Alert>::empty(),
            h.max_size() == max_size,
            h.within_bound(),
    {
        AlertHistory { alerts: VecDeque::new(), max_size }
    }

    /// Adds an alert; the oldest one leaves where the bound is reached.
    pub fn add_alert(&mut self, alert: Alert)
        ensures
            final(self)@ == ring_push(old(self)@, old(self).max_size() as nat, alert),
            final(self).max_size() == old(self).max_size(),
            old(self).within_bound() ==> final(self).within_bound(),
    {
        push_bounded(&mut self.alerts, self.max_size, alert);
    }

    /// The most recent alert.
    pub fn latest(&self) -> (r: Option<&Alert>)
        ensures
            match r {
                Some(alert) => self@.len() > 0 && *alert == self@.last(),
                None => self@.len() == 0,
            },
    {
        broadcast use vstd::std_specs::vecdeque::group_vec_dequeue_axioms;

        let n = self.alerts.len();
        if n == 0 {
            None
        } else {
            Some(&self.alerts[n - 1])
        }
    }

    pub fn all_alerts(&self) -> (r: &VecDeque<Alert>)
        ensures
            r@ == self@,
    {
        &self.alerts
    }

    pub fn len(&self) -> (n: usize)
        ensures
            n == self@.len(),
    {
        broadcast use vstd::std_specs::vecdeque::group_vec_dequeue_axioms;

        self.alerts.len()
    }

    pub fn is_empty(&self) -> (e: bool)
        ensures
            e == (self@.len() == 0),
    {
        broadcast use vstd::std_specs::vecdeque::group_vec_dequeue_axioms;

        self.alerts.len() == 0
    }

    /// Get alerts filtered by severity, in the order in which they were added.
    pub fn by_severity(&self, severity: AlertSeverity) -> (found: Vec<&Alert>)
        ensures
            referents(found@) == with_severity(self@, severity),
    {
        broadcast use vstd::std_specs::vecdeque::group_vec_dequeue_axioms;

        let n = self.alerts.len();
        let ghost wanted = |a: Alert| a.severity == severity;
        let mut found: Vec<&Alert> = Vec::new();
        let mut i: usize = 0;
        while i < n
            invariant
                n == self@.len(),
                self@ == self.alerts@,
                i <= n,
                wanted == |a: Alert| a.severity == severity,
                referents(found@) == self@.take(i as int).filter(wanted),
            decreases n - i,
        {
            proof {
                assert(self@.take(i + 1) == self@.take(i as int).push(self@[i as int]));
                self@.take(i as int).lemma_filter_push(self@[i as int], wanted);
            }
            let alert = &self.alerts[i];
            if alert.severity == severity {
                found.push(alert);
            }
            i += 1;
        }
        assert(self@.take(n as int) == self@);
        found
    }

    /// Get alerts for a specific site, in the order in which they were added.
    pub fn by_site(&self, site_name: &str) -> (found: Vec<&Alert>)
        ensures
            referents(found@) == about_site(self@, site_name@),
    {
        broadcast use vstd::std_specs::vecdeque::group_vec_dequeue_axioms;

        let n = self.alerts.len();
        let key = String::from_str(site_name);
        let ghost wanted = |a: Alert| a.site_name@ == site_name@;
        let mut found: Vec<&Alert> = Vec::new();
        let mut i: usize = 0;
        while i < n
            invariant
                n == self@.len(),
                self@ == self.alerts@,
                i <= n,
                key@ == site_name@,
                wanted == |a: Alert| a.site_name@ == site_name@,
                referents(found@) == self@.take(i as int).filter(wanted),
            decreases n - i,
        {
            proof {
                assert(self@.take(i + 1) == self@.take(i as int).push(self@[i as int]));
                self@.take(i as int).lemma_filter_push(self@[i as int], wanted);
            }
            let alert = &self.alerts[i];
            if alert.site_name == key {
                found.push(alert);
            }
            i += 1;
        }
        assert(self@.take(n as int) == self@);
        found
    }
}

} // verus!
