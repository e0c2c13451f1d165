//! The per-endpoint state machine that turns a stream of status samples into
//! alerts, with a debounce on failures and a cooldown on repeats.

use crate::checker::Status;
use crate::clock::Timestamp;
use crate::config::{
    merged_policy, resolve_policy, site_position, Config, EffectivePolicy, TransitionSettings,
};
use vstd::prelude::*;

verus! {

/// A change from one status to a different one.
#[derive(Clone, Copy, Debug, PartialEq, Eq, Structural)]
pub enum StatusTransition {
    UpToDown,
    UpToWarn,
    DownToUp,
    WarnToDown,
    WarnToUp,
    DownToWarn,
}

impl StatusTransition {
    /// The status that the transition leaves.
    pub open spec fn origin(self) -> Status {
        match self {
            StatusTransition::UpToDown | StatusTransition::UpToWarn => Status::Up,
            StatusTransition::DownToUp | StatusTransition::DownToWarn => Status::Down,
            StatusTransition::WarnToDown | StatusTransition::WarnToUp => Status::Warning,
        }
    }

    /// The status that the transition arrives at.
    pub open spec fn target(self) -> Status {
        match self {
            StatusTransition::DownToUp | StatusTransition::WarnToUp => Status::Up,
            StatusTransition::UpToDown | StatusTransition::WarnToDown => Status::Down,
            StatusTransition::UpToWarn | StatusTransition::DownToWarn => Status::Warning,
        }
    }

    /// The transition from `from` to `to`; there is none between equal statuses.
    pub open spec fn between(from: Status, to: Status) -> Option<StatusTransition> {
        match (from, to) {
            (Status::Up, Status::Down) => Some(StatusTransition::UpToDown),
            (Status::Up, Status::Warning) => Some(StatusTransition::UpToWarn),
            (Status::Down, Status::Up) => Some(StatusTransition::DownToUp),
            (Status::Warning, Status::Down) => Some(StatusTransition::WarnToDown),
            (Status::Warning, Status::Up) => Some(StatusTransition::WarnToUp),
            (Status::Down, Status::Warning) => Some(StatusTransition::DownToWarn),
            _ => None,
        }
    }

    pub fn from_statuses(from: &Status, to: &Status) -> (t: Option<StatusTransition>)
        ensures
            t == StatusTransition::between(*from, *to),
            t.is_none() <==> *from == *to,
            t matches Some(tr) ==> tr.origin() == *from && tr.target() == *to,
    {
        match (from, to) {
            (Status::Up, Status::Down) => Some(StatusTransition::UpToDown),
            (Status::Up, Status::Warning) => Some(StatusTransition::UpToWarn),
            (Status::Down, Status::Up) => Some(StatusTransition::DownToUp),
            (Status::Warning, Status::Down) => Some(StatusTransition::WarnToDown),
            (Status::Warning, Status::Up) => Some(StatusTransition::WarnToUp),
            (Status::Down, Status::Warning) => Some(StatusTransition::DownToWarn),
            _ => None,
        }
    }
}

impl TransitionSettings {
    /// Whether alerts are switched on for a kind of transition.
    pub open spec fn allows(self, transition: StatusTransition) -> bool {
        match transition {
            StatusTransition::UpToDown => self.up_to_down,
            StatusTransition::UpToWarn => self.up_to_warn,
            StatusTransition::DownToUp => self.down_to_up,
            StatusTransition::WarnToDown => self.warn_to_down,
            StatusTransition::WarnToUp => self.warn_to_up,
            StatusTransition::DownToWarn => self.down_to_warn,
        }
    }

    pub fn is_enabled(&self, transition: StatusTransition) -> (on: bool)
        ensures
            on == self.allows(transition),
    {
        match transition {
            StatusTransition::UpToDown => self.up_to_down,
            StatusTransition::UpToWarn => self.up_to_warn,
            StatusTransition::DownToUp => self.down_to_up,
            StatusTransition::WarnToDown => self.warn_to_down,
            StatusTransition::WarnToUp => self.warn_to_up,
            StatusTransition::DownToWarn => self.down_to_warn,
        }
    }
}

/// What the detector remembers of one endpoint.
#[derive(Clone, Copy, Debug, PartialEq, Eq, Structural)]
pub struct SiteAlertState {
    /// Failing samples in a row up to now; it stops counting at `usize::MAX`.
    pub consecutive_failures: usize,
    /// When the last alert was accepted.
    pub last_alert_time: Option<Timestamp>,
    /// The status that the last accepted alert arrived at.
    pub last_alert_status: Option<Status>,
    /// The status that held before the current run of failures began.
    pub stable_status: Option<Status>,
}

impl SiteAlertState {
    /// The state of an endpoint that has not been sampled yet.
    pub open spec fn fresh() -> SiteAlertState {
        SiteAlertState {
            consecutive_failures: 0,
            last_alert_time: None,
            last_alert_status: None,
            stable_status: None,
        }
    }

    /// Failure tracking. A failing sample adds one to the count, and the first
    /// of a run records the status before it as the baseline. An `Up` sample
    /// ends the run and becomes the baseline itself.
    pub open spec fn counted(self, previous: Option<Status>, current: Status) -> SiteAlertState {
        if current.is_failing() {
            SiteAlertState {
                consecutive_failures: if self.consecutive_failures < usize::MAX {
                    (self.consecutive_failures + 1) as usize
                } else {
                    self.consecutive_failures
                },
                stable_status: if self.consecutive_failures == 0 {
                    previous
                } else {
                    self.stable_status
                },
                ..self
            }
        } else {
            SiteAlertState { consecutive_failures: 0, stable_status: Some(current), ..self }
        }
    }

    /// Threshold gate: a failing sample is held back until the run of failures
    /// has reached the threshold.
    pub open spec fn held_back(self, threshold: usize, current: Status) -> bool {
        current.is_failing() && self.consecutive_failures < threshold
    }

    /// Cooldown gate: the last alert arrived at this same status, less than
    /// the cooldown ago.
    pub open spec fn cooling_down(self, cooldown_seconds: u64, now: Timestamp, current: Status)
        -> bool {
        match (self.last_alert_time, self.last_alert_status) {
            (Some(at), Some(status)) => now.nanos_since(at) < cooldown_seconds as int
                * 1_000_000_000 && status == current,
            _ => false,
        }
    }

    /// The status that the transition is reckoned from: for a recovery the
    /// sample just before it, for a failure the baseline of the run.
    pub open spec fn baseline(self, previous: Option<Status>, current: Status) -> Option<Status> {
        if current == Status::Up {
            previous
        } else {
            self.stable_status
        }
    }

    /// The alert, if any, that a sample raises in a state whose failure
    /// tracking already includes the sample.
    pub open spec fn verdict(
        self,
        policy: EffectivePolicy,
        now: Timestamp,
        previous: Option<Status>,
        current: Status,
    ) -> Option<StatusTransition> {
        if self.held_back(policy.consecutive_failures, current) || self.cooling_down(
            policy.cooldown_seconds,
            now,
            current,
        ) {
            None
        } else {
            match self.baseline(previous, current) {
                Some(from) => match StatusTransition::between(from, current) {
                    Some(t) => if policy.transitions.allows(t) {
                        Some(t)
                    } else {
                        None
                    },
                    None => None,
                },
                None => None,
            }
        }
    }

    /// One step of the state machine: the state after the sample and the
    /// alert that it raises. Under a disabled policy nothing moves.
    pub open spec fn step(
        self,
        policy: EffectivePolicy,
        now: Timestamp,
        previous: Option<Status>,
        current: Status,
    ) -> (SiteAlertState, Option<StatusTransition>) {
        if !policy.enabled {
            (self, None)
        } else {
            let counted = self.counted(previous, current);
            match counted.verdict(policy, now, previous, current) {
                Some(t) => (
                    SiteAlertState {
                        last_alert_time: Some(now),
                        last_alert_status: Some(current),
                        ..counted
                    },
                    Some(t),
                ),
                None => (counted, None),
            }
        }
    }

    pub fn new() -> (s: SiteAlertState)
        ensures
            s == SiteAlertState::fresh(),
    {
        SiteAlertState {
            consecutive_failures: 0,
            last_alert_time: None,
            last_alert_status: None,
            stable_status: None,
        }
    }

    /// Feeds one sample, taken at `now`, to the state machine.
    pub fn observe(
        &mut self,
        policy: &EffectivePolicy,
        now: Timestamp,
        previous: Option<Status>,
        current: Status,
    ) -> (alert: Option<StatusTransition>)
        ensures
            (*final(self), alert) == old(self).step(*policy, now, previous, current),
    {
        if !policy.enabled {
            return None;
        }
        if current.failing() {
            if self.consecutive_failures == 0 {
                self.stable_status = previous;
            }
            if self.consecutive_failures < usize::MAX {
                self.consecutive_failures = self.consecutive_failures + 1;
            }
        } else {
            self.consecutive_failures = 0;
            self.stable_status = Some(current);
        }

        if current.failing() && self.consecutive_failures < policy.consecutive_failures {
            return None;
        }
        match (self.last_alert_time, self.last_alert_status) {
            (Some(at), Some(status)) => {
                if now.is_within(&at, policy.cooldown_seconds) && status == current {
                    return None;
                }
            },
            _ => {},
        }
        let from = if current == Status::Up {
            previous
        } else {
            self.stable_status
        };
        let transition = match from {
            Some(f) => StatusTransition::from_statuses(&f, &current),
            None => None,
        };
        match transition {
            Some(t) => {
                if policy.transitions.is_enabled(t) {
                    self.last_alert_time = Some(now);
                    self.last_alert_status = Some(current);
                    Some(t)
                } else {
                    None
                }
            },
            None => None,
        }
    }
}

/// One sample as the detector sees it: when it was taken and what it showed.
pub struct Observation {
    pub at: Timestamp,
    pub status: Status,
}

impl SiteAlertState {
    /// The state after a run of samples of one endpoint, fed in order. The
    /// status before the first sample is `previous`; the status before each
    /// later sample is that of the sample before it.
    pub open spec fn after_samples(
        self,
        policy: EffectivePolicy,
        previous: Option<Status>,
        samples: Seq<Observation>,
    ) -> SiteAlertState
        decreases samples.len(),
    {
        if samples.len() == 0 {
            self
        } else {
            let earlier = samples.drop_last();
            let before = if earlier.len() == 0 {
                previous
            } else {
                Some(earlier.last().status)
            };
            self.after_samples(policy, previous, earlier).step(
                policy,
                samples.last().at,
                before,
                samples.last().status,
            ).0
        }
    }
}

/// Under an enabled policy the count of failures is zero after a sample
/// exactly when that sample was `Up`.
pub proof fn lemma_no_failures_iff_up(
    state: SiteAlertState,
    policy: EffectivePolicy,
    now: Timestamp,
    previous: Option<Status>,
    current: Status,
)
    requires
        policy.enabled,
    ensures
        state.step(policy, now, previous, current).0.consecutive_failures == 0 <==> current
            == Status::Up,
{
}

/// Under an enabled policy, and after any run of samples that is not empty,
/// the count of failures is zero exactly when the last sample was `Up`.
pub proof fn lemma_no_failures_iff_last_up(
    state: SiteAlertState,
    policy: EffectivePolicy,
    previous: Option<Status>,
    samples: Seq<Observation>,
)
    requires
        policy.enabled,
        samples.len() > 0,
    ensures
        state.after_samples(policy, previous, samples).consecutive_failures == 0
            <==> samples.last().status == Status::Up,
{
}

/// While a run of failures lasts, the baseline stays what it was: a failing
/// sample that is not the first of its run leaves `stable_status` alone.
pub proof fn lemma_baseline_kept_in_streak(
    state: SiteAlertState,
    policy: EffectivePolicy,
    now: Timestamp,
    previous: Option<Status>,
    current: Status,
)
    requires
        policy.enabled,
        current.is_failing(),
        state.consecutive_failures > 0,
    ensures
        state.step(policy, now, previous, current).0.stable_status == state.stable_status,
        state.step(policy, now, previous, current).0.consecutive_failures > 0,
{
}

/// Through an unbroken run of failing samples that starts where no failure
/// is counted, the baseline is the status that held just before the first
/// failing sample, after each sample of the run.
pub proof fn lemma_baseline_is_status_before_streak(
    state: SiteAlertState,
    policy: EffectivePolicy,
    previous: Option<Status>,
    streak: Seq<Observation>,
)
    requires
        policy.enabled,
        state.consecutive_failures == 0,
        streak.len() > 0,
        forall|k: int| 0 <= k < streak.len() ==> (#[trigger] streak[k]).status.is_failing(),
    ensures
        state.after_samples(policy, previous, streak).stable_status == previous,
        state.after_samples(policy, previous, streak).consecutive_failures > 0,
    decreases streak.len(),
{
    let earlier = streak.drop_last();
    assert(streak.last() == streak[streak.len() - 1]);
    if earlier.len() > 0 {
        lemma_baseline_is_status_before_streak(state, policy, previous, earlier);
    }
}

/// An `Up` sample ends a run of failures: it becomes the baseline itself.
pub proof fn lemma_up_resets_baseline(
    state: SiteAlertState,
    policy: EffectivePolicy,
    now: Timestamp,
    previous: Option<Status>,
)
    requires
        policy.enabled,
    ensures
        state.step(policy, now, previous, Status::Up).0.stable_status == Some(Status::Up),
{
}

/// The status behind an optional reference.
pub open spec fn status_of(status: Option<&Status>) -> Option<Status> {
    match status {
        Some(s) => Some(*s),
        None => None,
    }
}

/// Decides, sample by sample, which status changes are worth an alert.
/// It keeps one `SiteAlertState` per configured endpoint, in the order of the
/// configuration; an endpoint is found by its name, the first of that name.
pub struct AlertDetector {
    config: Config,
    site_states: Vec<SiteAlertState>,
}

impl AlertDetector {
    #[verifier::type_invariant]
    spec fn one_state_per_site(self) -> bool {
        self.site_states@.len() == self.config.sites@.len()
    }

    /// The configuration that the detector was made with.
    pub closed spec fn config(self) -> Config {
        self.config
    }

    /// The states of the endpoints, in the order of the configuration.
    pub closed spec fn states(self) -> Seq<SiteAlertState> {
        self.site_states@
    }

    /// The policy in force for the endpoint at position `i`.
    pub open spec fn policy_at(self, i: int) -> EffectivePolicy {
        merged_policy(self.config().settings.alerts, self.config().sites@[i].alerts)
    }

    /// The states after a sample of the endpoint called `name`, taken at
    /// `now`, and the alert that it raises. A name that is not configured
    /// changes nothing and raises nothing.
    pub open spec fn evaluated(
        self,
        now: Timestamp,
        name: Seq<char>,
        previous: Option<Status>,
        current: Status,
    ) -> (Seq<SiteAlertState>, Option<StatusTransition>) {
        match site_position(self.config().sites@, name) {
            Some(i) => {
                let (next, alert) = self.states()[i].step(self.policy_at(i), now, previous, current);
                (self.states().update(i, next), alert)
            },
            None => (self.states(), None),
        }
    }

    /// A detector in which no endpoint has been sampled yet.
    pub fn new(config: Config) -> (d: AlertDetector)
        ensures
            d.config() == config,
            d.states() == Seq::new(config.sites@.len(), |i: int| SiteAlertState::fresh()),
    {
        let mut site_states: Vec<SiteAlertState> = Vec::new();
        let mut i: usize = 0;
        while i < config.sites.len()
            invariant
                i <= config.sites.len(),
                site_states@ == Seq::new(i as nat, |k: int| SiteAlertState::fresh()),
            decreases config.sites.len() - i,
        {
            site_states.push(SiteAlertState::new());
            i += 1;
        }
        AlertDetector { config, site_states }
    }

    /// Evaluates a sample taken at `now`: whether the change from `previous`
    /// to `current` on the endpoint called `site_name` raises an alert.
    pub fn evaluate_at(
        &mut self,
        now: Timestamp,
        site_name: &str,
        previous_status: Option<&Status>,
        current_status: &Status,
    ) -> (alert: Option<StatusTransition>)
        ensures
            final(self).config() == old(self).config(),
            (final(self).states(), alert) == old(self).evaluated(
                now,
                site_name@,
                status_of(previous_status),
                *current_status,
            ),
    {
        proof {
            use_type_invariant(&*self);
        }
        let found = self.config.find_site(site_name);
        match found {
            None => None,
            Some(i) => {
                let policy = resolve_policy(&self.config.settings.alerts, &self.config.sites[i].alerts);
                let previous = match previous_status {
                    Some(s) => Some(*s),
                    None => None,
                };
                let mut state = self.site_states[i];
                let alert = state.observe(&policy, now, previous, *current_status);
                self.site_states[i] = state;
                alert
            },
        }
    }

    /// Evaluates a sample taken now, by the system clock.
    pub fn evaluate(
        &mut self,
        site_name: &str,
        previous_status: Option<&Status>,
        current_status: &Status,
    ) -> (alert: Option<StatusTransition>)
        ensures
            final(self).config() == old(self).config(),
            exists|now: Timestamp|
                (final(self).states(), alert) == #[trigger] old(self).evaluated(
                    now,
                    site_name@,
                    status_of(previous_status),
                    *current_status,
                ),
    {
        let now = crate::clock::now();
        self.evaluate_at(now, site_name, previous_status, current_status)
    }
}

/// What the laws of the state machine say of the detector as a whole: for a
/// configured endpoint whose alerts are enabled, an evaluation leaves the
/// count of failures at zero exactly when the sample was `Up`; a failing
/// sample inside a run of failures leaves the baseline alone, and the first
/// of a run makes the status before it the baseline.
pub proof fn lemma_evaluation_tracks_failures(
    detector: AlertDetector,
    now: Timestamp,
    name: Seq<char>,
    previous: Option<Status>,
    current: Status,
)
    requires
        detector.states().len() == detector.config().sites@.len(),
        site_position(detector.config().sites@, name) matches Some(i) && detector.policy_at(
            i,
        ).enabled,
    ensures
        ({
            let i = site_position(detector.config().sites@, name).unwrap();
            let before = detector.states()[i];
            let after = detector.evaluated(now, name, previous, current).0[i];
            &&& after.consecutive_failures == 0 <==> current == Status::Up
            &&& current.is_failing() && before.consecutive_failures > 0 ==> after.stable_status
                == before.stable_status
            &&& current.is_failing() && before.consecutive_failures == 0 ==> after.stable_status
                == previous
        }),
{
    crate::search::lemma_first_index_sound(
        detector.config().sites@,
        |s: crate::config::SiteConfig| s.name@ == name,
    );
}

} // verus!
