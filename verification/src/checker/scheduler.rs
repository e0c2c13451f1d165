//! The decisions of the polling loop that watches one endpoint.
//!
//! The loop probes, publishes the sample, then waits for the interval to
//! pass. While it waits, a force-refresh sends it back to probing at once and
//! a shutdown ends it. The caller does the probing and the waiting and reports
//! what happened; this module decides what comes next.

use crate::config::SiteConfig;
use vstd::prelude::*;

verus! {

/// Where the loop stands.
#[derive(Clone, Copy, Debug, PartialEq, Eq, Structural)]
pub enum LoopState {
    /// A probe is under way; its sample is published when it ends.
    Checking,
    /// The loop sleeps until the interval has passed or a signal arrives.
    Waiting,
    /// The loop has ended.
    Terminated,
}

/// What the loop is told.
#[derive(Clone, Copy, Debug, PartialEq, Eq, Structural)]
pub enum LoopEvent {
    /// The probe has ended and its sample has been published.
    Published,
    /// The interval has passed.
    IntervalElapsed,
    /// Someone asks for a probe now.
    ForceRefresh,
    /// The monitor shuts down.
    Shutdown,
}

/// What the loop is to do next.
#[derive(Clone, Copy, Debug, PartialEq, Eq, Structural)]
pub enum LoopAction {
    /// Probe the endpoint and publish the sample.
    Probe,
    /// Sleep for this many seconds, watching for signals.
    Wait(u64),
    /// Leave the loop.
    Exit,
}

/// Seconds between two probes: the global interval, or the endpoint's own
/// where that is longer.
pub open spec fn wait_seconds(own: Option<u64>, default_interval: u64) -> u64 {
    match own {
        Some(v) => if v >= default_interval {
            v
        } else {
            default_interval
        },
        None => default_interval,
    }
}

/// The polling loop of one endpoint.
#[derive(Clone, Copy, Debug, PartialEq, Eq, Structural)]
pub struct CheckerLoop {
    pub state: LoopState,
    /// A shutdown was asked for; it stays asked for.
    pub shutdown_requested: bool,
    pub interval_secs: u64,
}

impl CheckerLoop {
    /// A loop about to make its first probe.
    pub open spec fn started(interval_secs: u64) -> CheckerLoop {
        CheckerLoop { state: LoopState::Checking, shutdown_requested: false, interval_secs }
    }

    /// What the loop does in its state.
    pub open spec fn action(self) -> LoopAction {
        match self.state {
            LoopState::Checking => LoopAction::Probe,
            LoopState::Waiting => LoopAction::Wait(self.interval_secs),
            LoopState::Terminated => LoopAction::Exit,
        }
    }

    /// The loop after an event.
    ///
    /// A shutdown is sticky: one that arrives during a probe is remembered
    /// and ends the loop as soon as the sample is published. A force-refresh
    /// is not: one that arrives while nobody waits is dropped.
    pub open spec fn after(self, event: LoopEvent) -> CheckerLoop {
        match (self.state, event) {
            (LoopState::Checking, LoopEvent::Published) => CheckerLoop {
                state: if self.shutdown_requested {
                    LoopState::Terminated
                } else {
                    LoopState::Waiting
                },
                ..self
            },
            (LoopState::Checking, LoopEvent::Shutdown) => CheckerLoop {
                shutdown_requested: true,
                ..self
            },
            (LoopState::Waiting, LoopEvent::IntervalElapsed) => CheckerLoop {
                state: LoopState::Checking,
                ..self
            },
            (LoopState::Waiting, LoopEvent::ForceRefresh) => CheckerLoop {
                state: LoopState::Checking,
                ..self
            },
            (LoopState::Waiting, LoopEvent::Shutdown) => CheckerLoop {
                state: LoopState::Terminated,
                shutdown_requested: true,
                ..self
            },
            _ => self,
        }
    }

    /// The loop after a run of events, in order.
    pub open spec fn after_all(self, events: Seq<LoopEvent>) -> CheckerLoop
        decreases events.len(),
    {
        if events.len() == 0 {
            self
        } else {
            self.after_all(events.drop_last()).after(events.last())
        }
    }

    /// The loop for `site`, about to make its first probe.
    pub fn new(site: &SiteConfig, default_interval: u64) -> (l: CheckerLoop)
        ensures
            l == CheckerLoop::started(wait_seconds(site.check_interval, default_interval)),
    {
        let interval_secs = match site.check_interval {
            Some(v) => if v >= default_interval {
                v
            } else {
                default_interval
            },
            None => default_interval,
        };
        CheckerLoop { state: LoopState::Checking, shutdown_requested: false, interval_secs }
    }

    /// What the loop is to do in its present state.
    pub fn current_action(&self) -> (a: LoopAction)
        ensures
            a == self.action(),
    {
        match self.state {
            LoopState::Checking => LoopAction::Probe,
            LoopState::Waiting => LoopAction::Wait(self.interval_secs),
            LoopState::Terminated => LoopAction::Exit,
        }
    }

    /// Takes an event and says what the loop is to do next.
    pub fn on_event(&mut self, event: LoopEvent) -> (next: LoopAction)
        ensures
            *final(self) == old(self).after(event),
            next == final(self).action(),
    {
        match (self.state, event) {
            (LoopState::Checking, LoopEvent::Published) => {
                if self.shutdown_requested {
                    self.state = LoopState::Terminated;
                } else {
                    self.state = LoopState::Waiting;
                }
            },
            (LoopState::Checking, LoopEvent::Shutdown) => {
                self.shutdown_requested = true;
            },
            (LoopState::Waiting, LoopEvent::IntervalElapsed) => {
                self.state = LoopState::Checking;
            },
            (LoopState::Waiting, LoopEvent::ForceRefresh) => {
                self.state = LoopState::Checking;
            },
            (LoopState::Waiting, LoopEvent::Shutdown) => {
                self.state = LoopState::Terminated;
                self.shutdown_requested = true;
            },
            _ => {},
        }
        self.current_action()
    }
}

/// A force-refresh that reaches a waiting loop sends it to its next probe at
/// once: the next action is the probe, not the rest of the wait.
pub proof fn lemma_force_refresh_probes_at_once(l: CheckerLoop)
    requires
        l.state == LoopState::Waiting,
    ensures
        l.after(LoopEvent::ForceRefresh).state == LoopState::Checking,
        l.after(LoopEvent::ForceRefresh).action() == LoopAction::Probe,
{
}

/// A shutdown that reaches a waiting loop ends it, and an ended loop stays
/// ended whatever follows: it never probes again.
pub proof fn lemma_shutdown_while_waiting_ends_loop(l: CheckerLoop, later: Seq<LoopEvent>)
    requires
        l.state == LoopState::Waiting,
    ensures
        l.after(LoopEvent::Shutdown).action() == LoopAction::Exit,
        l.after(LoopEvent::Shutdown).after_all(later).state == LoopState::Terminated,
        l.after(LoopEvent::Shutdown).after_all(later).action() == LoopAction::Exit,
    decreases later.len(),
{
    if later.len() > 0 {
        lemma_shutdown_while_waiting_ends_loop(l, later.drop_last());
    }
}

/// A shutdown that arrives during a probe is not lost: the loop ends when
/// the sample of that probe is published, without another probe.
pub proof fn lemma_shutdown_during_probe_is_sticky(l: CheckerLoop)
    requires
        l.state == LoopState::Checking,
    ensures
        l.after(LoopEvent::Shutdown).after(LoopEvent::Published).state == LoopState::Terminated,
{
}

} // verus!
