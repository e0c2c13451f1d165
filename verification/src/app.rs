//! The state of the running monitor: the histories, the detector, the alerts,
//! and what the user has selected.

use crate::alerts::{Alert, AlertDetector, AlertHistory, StatusTransition};
use crate::checker::{CheckResult, Status};
use crate::clock::Timestamp;
use crate::config::{or_base, Config, SiteConfig};
use crate::history::{ring_push, SiteHistory};
use crate::sites::{
    entry_names, entry_position, is_fresh, latest_status, names_distinct, position_of, register,
    site_entries, sites_entry_at, sites_history_mut, sites_len, sites_new,
};
use crate::ui::theme::{ResponsiveLayout, Theme, ThemeName};
use indexmap::IndexMap;
use vstd::prelude::*;
use vstd::view::View as _;

verus! {

/// Actions that can result from handling events.
#[derive(Clone, Copy, Debug, PartialEq, Eq, Structural)]
pub enum AppAction {
    /// Keep running.
    Continue,
    /// Exit application.
    Quit,
}

/// Current view state.
#[derive(Debug, PartialEq)]
pub enum View {
    Dashboard,
    /// Detail view for a specific site (by name).
    Detail(String),
    /// Alert history view.
    Alerts,
    /// Alert detail view by index.
    AlertDetail(usize),
    /// Help screen showing keyboard shortcuts.
    Help,
}

impl Clone for View {
    fn clone(&self) -> (copy: View)
        ensures
            copy == *self,
    {
        match self {
            View::Dashboard => View::Dashboard,
            View::Detail(name) => View::Detail(name.clone()),
            View::Alerts => View::Alerts,
            View::AlertDetail(index) => View::AlertDetail(*index),
            View::Help => View::Help,
        }
    }
}

/// What a view shows, with the site named by its characters.
pub enum Screen {
    Dashboard,
    Detail(Seq<char>),
    Alerts,
    AlertDetail(usize),
    Help,
}

impl View {
    /// What the view shows.
    pub open spec fn screen(self) -> Screen {
        match self {
            View::Dashboard => Screen::Dashboard,
            View::Detail(name) => Screen::Detail(name@),
            View::Alerts => Screen::Alerts,
            View::AlertDetail(index) => Screen::AlertDetail(index),
            View::Help => Screen::Help,
        }
    }
}

/// A key, as far as the monitor tells keys apart.
#[derive(Clone, Copy, Debug, PartialEq, Eq, Structural)]
pub enum Key {
    Char(char),
    Esc,
    Enter,
    Up,
    Down,
    /// Any other key.
    Other,
}

/// One key press.
#[derive(Clone, Copy, Debug, PartialEq, Eq, Structural)]
pub struct KeyPress {
    pub code: Key,
    /// The control key was held.
    pub control: bool,
}

/// What the mouse did.
#[derive(Clone, Copy, Debug, PartialEq, Eq, Structural)]
pub enum MouseKind {
    /// The left button went down.
    LeftDown,
    /// Anything else.
    Other,
}

/// One mouse event, with the cell it happened in.
#[derive(Clone, Copy, Debug, PartialEq, Eq, Structural)]
pub struct MouseInput {
    pub kind: MouseKind,
    pub row: u16,
    pub column: u16,
}

/// The size of the terminal, in cells.
#[derive(Clone, Copy, Debug, PartialEq, Eq, Structural)]
pub struct FrameSize {
    pub width: u16,
    pub height: u16,
}

/// All that the user's input can change.
pub struct Navigation {
    pub screen: Screen,
    pub selected_index: Option<usize>,
    pub alert_selected_index: Option<usize>,
    pub theme_name: ThemeName,
    pub theme: Theme,
    pub refresh_requested: bool,
}

/// The selection after a step up in a list of `count` items: the first item
/// where nothing was selected, the last item after the first. An empty list
/// keeps the selection as it is.
pub open spec fn moved_up(selected: Option<usize>, count: nat) -> Option<usize> {
    if count == 0 {
        selected
    } else {
        match selected {
            None => Some(0),
            Some(i) => if i > 0 {
                Some((i - 1) as usize)
            } else {
                Some((count - 1) as usize)
            },
        }
    }
}

/// The selection after a step down in a list of `count` items: the first
/// item where nothing was selected, and again after the last.
pub open spec fn moved_down(selected: Option<usize>, count: nat) -> Option<usize> {
    if count == 0 {
        selected
    } else {
        match selected {
            None => Some(0),
            Some(i) => if i < count - 1 {
                Some((i + 1) as usize)
            } else {
                Some(0)
            },
        }
    }
}

/// Rows taken by the header above a list.
pub const HEADER_HEIGHT: u16 = 3;

/// The list item that a click on `row` hits, on a screen of `height` rows
/// whose last `footer_height` rows are not part of the list. The list begins
/// below the header and its top border; each item takes `lines_per_item` rows.
pub open spec fn clicked_item(row: u16, height: u16, footer_height: u16, lines_per_item: u16)
    -> Option<int> {
    let content_end = if height >= footer_height {
        height - footer_height
    } else {
        0
    };
    if HEADER_HEIGHT < row < content_end && lines_per_item > 0 {
        Some((row - HEADER_HEIGHT - 1) / lines_per_item as int)
    } else {
        None
    }
}

impl Navigation {
    /// Up in the list that is on screen.
    pub open spec fn up(self, site_count: nat, alert_count: nat) -> Navigation {
        match self.screen {
            Screen::Dashboard => Navigation {
                selected_index: moved_up(self.selected_index, site_count),
                ..self
            },
            Screen::Alerts => Navigation {
                alert_selected_index: moved_up(self.alert_selected_index, alert_count),
                ..self
            },
            _ => self,
        }
    }

    /// Down in the list that is on screen.
    pub open spec fn down(self, site_count: nat, alert_count: nat) -> Navigation {
        match self.screen {
            Screen::Dashboard => Navigation {
                selected_index: moved_down(self.selected_index, site_count),
                ..self
            },
            Screen::Alerts => Navigation {
                alert_selected_index: moved_down(self.alert_selected_index, alert_count),
                ..self
            },
            _ => self,
        }
    }

    /// Back: from an alert's detail to the list of alerts, from anywhere else
    /// to the dashboard with nothing selected.
    pub open spec fn back(self) -> Navigation {
        match self.screen {
            Screen::AlertDetail(_) => Navigation { screen: Screen::Alerts, ..self },
            _ => Navigation {
                screen: Screen::Dashboard,
                selected_index: None,
                alert_selected_index: None,
                ..self
            },
        }
    }

    /// Open what is selected: the site's detail from the dashboard, the
    /// alert's detail from the list of alerts.
    pub open spec fn open_selected(self, names: Seq<Seq<char>>) -> Navigation {
        match self.screen {
            Screen::Dashboard => match self.selected_index {
                Some(i) => if i < names.len() {
                    Navigation {
                        screen: Screen::Detail(names[i as int]),
                        selected_index: None,
                        ..self
                    }
                } else {
                    self
                },
                None => self,
            },
            Screen::Alerts => match self.alert_selected_index {
                Some(i) => Navigation { screen: Screen::AlertDetail(i), ..self },
                None => self,
            },
            _ => self,
        }
    }

    /// What a key press does: `q` and control-`c` quit; `?` and `h` show the
    /// help; `a` shows the alerts; escape goes back; enter opens what is
    /// selected; the arrows, `k` and `j` move the selection; `r` asks for a
    /// refresh; `t` takes the next theme. Any other key does nothing.
    pub open spec fn after_key(
        self,
        key: KeyPress,
        names: Seq<Seq<char>>,
        alert_count: nat,
    ) -> (Navigation, AppAction) {
        match key.code {
            Key::Char(c) => if c == 'q' {
                (self, AppAction::Quit)
            } else if c == 'c' {
                (
                    self,
                    if key.control {
                        AppAction::Quit
                    } else {
                        AppAction::Continue
                    },
                )
            } else if c == '?' || c == 'h' {
                (
                    Navigation { screen: Screen::Help, selected_index: None, ..self },
                    AppAction::Continue,
                )
            } else if c == 'a' {
                (
                    Navigation { screen: Screen::Alerts, alert_selected_index: None, ..self },
                    AppAction::Continue,
                )
            } else if c == 'k' {
                (self.up(names.len(), alert_count), AppAction::Continue)
            } else if c == 'j' {
                (self.down(names.len(), alert_count), AppAction::Continue)
            } else if c == 'r' {
                (Navigation { refresh_requested: true, ..self }, AppAction::Continue)
            } else if c == 't' {
                (
                    Navigation {
                        theme_name: self.theme_name.successor(),
                        theme: Theme::palette(self.theme_name.successor()),
                        ..self
                    },
                    AppAction::Continue,
                )
            } else {
                (self, AppAction::Continue)
            },
            Key::Esc => (self.back(), AppAction::Continue),
            Key::Enter => (self.open_selected(names), AppAction::Continue),
            Key::Up => (self.up(names.len(), alert_count), AppAction::Continue),
            Key::Down => (self.down(names.len(), alert_count), AppAction::Continue),
            Key::Other => (self, AppAction::Continue),
        }
    }

    /// What a mouse event does: a left click on an item of the list that is
    /// on screen selects it; anything else does nothing. The dashboard has two
    /// rows below its list, three while an error is shown; the list of alerts
    /// has five, and two rows per alert.
    pub open spec fn after_click(
        self,
        mouse: MouseInput,
        frame: FrameSize,
        error_shown: bool,
        site_count: nat,
        alert_count: nat,
    ) -> Navigation {
        if mouse.kind != MouseKind::LeftDown {
            self
        } else {
            match self.screen {
                Screen::Dashboard => match clicked_item(
                    mouse.row,
                    frame.height,
                    if error_shown {
                        3
                    } else {
                        2
                    },
                    ResponsiveLayout::item_lines(frame.width),
                ) {
                    Some(i) => if i < site_count {
                        Navigation { selected_index: Some(i as usize), ..self }
                    } else {
                        self
                    },
                    None => self,
                },
                Screen::Alerts => match clicked_item(mouse.row, frame.height, 5, 2) {
                    Some(i) => if i < alert_count {
                        Navigation { alert_selected_index: Some(i as usize), ..self }
                    } else {
                        self
                    },
                    None => self,
                },
                _ => self,
            }
        }
    }
}

/// Main application state.
pub struct App {
    pub config: Config,
    pub theme: Theme,
    pub theme_name: ThemeName,
    pub sites: IndexMap<String, SiteHistory>,
    pub selected_index: Option<usize>,
    pub last_update: Timestamp,
    pub current_view: View,
    pub error_message: Option<String>,
    pub error_timestamp: Option<Timestamp>,
    /// The user has asked for a probe of all sites now; whoever runs the
    /// probes takes the request with `take_refresh_request`.
    pub refresh_requested: bool,
    pub alert_history: AlertHistory,
    pub alert_detector: AlertDetector,
    pub alert_selected_index: Option<usize>,
}

/// The names of the configured sites, in order.
pub open spec fn site_names(sites: Seq<SiteConfig>) -> Seq<Seq<char>> {
    sites.map_values(|s: SiteConfig| s.name@)
}

/// A run of names without its repeats: each name where it first occurs.
pub open spec fn first_occurrences(names: Seq<Seq<char>>) -> Seq<Seq<char>>
    decreases names.len(),
{
    if names.len() == 0 {
        Seq::empty()
    } else {
        let earlier = first_occurrences(names.drop_last());
        if earlier.contains(names.last()) {
            earlier
        } else {
            earlier.push(names.last())
        }
    }
}

/// How many entries have a newest sample of the given status; `None` counts
/// the histories without a sample.
pub open spec fn count_latest(entries: Seq<(Seq<char>, SiteHistory)>, status: Option<Status>) -> nat {
    entries.filter(|e: (Seq<char>, SiteHistory)| latest_status(e.1) == status).len()
}

impl App {
    /// The detector that the application feeds.
    pub open spec fn detector(self) -> AlertDetector {
        self.alert_detector
    }

    /// No two histories are kept under the same name.
    pub open spec fn well_formed(self) -> bool {
        names_distinct(site_entries(self.sites))
    }

    /// The status of the newest sample of the site called `name`.
    pub open spec fn previous_status(self, name: Seq<char>) -> Option<Status> {
        match entry_position(site_entries(self.sites), name) {
            Some(i) => latest_status(site_entries(self.sites)[i].1),
            None => None,
        }
    }

    /// Whether `self` and `other` agree in all that the user has selected or
    /// set: view, selections, theme, error message and refresh request.
    pub open spec fn same_presentation(self, other: App) -> bool {
        &&& self.theme == other.theme
        &&& self.theme_name == other.theme_name
        &&& self.selected_index == other.selected_index
        &&& self.current_view == other.current_view
        &&& self.error_message == other.error_message
        &&& self.error_timestamp == other.error_timestamp
        &&& self.refresh_requested == other.refresh_requested
        &&& self.alert_selected_index == other.alert_selected_index
    }

    /// Whether `self` and `other` agree in all that was measured and
    /// configured: configuration, histories, alerts and detector.
    pub open spec fn same_records(self, other: App) -> bool {
        &&& self.config == other.config
        &&& self.sites == other.sites
        &&& self.last_update == other.last_update
        &&& self.alert_history == other.alert_history
        &&& self.detector() == other.detector()
    }

    /// Whether `after` with `alert` is what becomes of `self` when the sample
    /// `result` of the site called `site_name` is handled at `now`.
    ///
    /// The sample goes into the history of the site, if the site has one. The
    /// detector sees the change from the newest sample before it. An alert
    /// that the detector raises is made at `now`, kept in the alert history and
    /// handed back; a first sample counts as coming from `Up`.
    pub open spec fn handles(
        self,
        now: Timestamp,
        site_name: String,
        result: CheckResult,
        after: App,
        alert: Option<Alert>,
    ) -> bool {
        let entries = site_entries(self.sites);
        let previous = self.previous_status(site_name@);
        let (states, raised) = self.detector().evaluated(now, site_name@, previous, result.status);
        &&& after.same_presentation(self)
        &&& after.config == self.config
        &&& after.well_formed()
        &&& match entry_position(entries, site_name@) {
            Some(i) => {
                &&& site_entries(after.sites).len() == entries.len()
                &&& forall|j: int|
                    0 <= j < entries.len() && j != i ==> #[trigger] site_entries(after.sites)[j]
                        == entries[j]
                &&& site_entries(after.sites)[i].0 == entries[i].0
                &&& site_entries(after.sites)[i].1@ == ring_push(
                    entries[i].1@,
                    entries[i].1.max_size() as nat,
                    result,
                )
                &&& site_entries(after.sites)[i].1.max_size() == entries[i].1.max_size()
                &&& after.last_update == now
            },
            None => site_entries(after.sites) == entries && after.last_update == self.last_update,
        }
        &&& after.detector().config() == self.detector().config()
        &&& after.detector().states() == states
        &&& after.alert_history.max_size() == self.alert_history.max_size()
        &&& match raised {
            Some(transition) => {
                &&& alert matches Some(a)
                &&& a.is_made_of(
                    now,
                    site_name,
                    transition,
                    or_base(previous, Status::Up),
                    result.status,
                )
                &&& after.alert_history@ == ring_push(
                    self.alert_history@,
                    self.alert_history.max_size() as nat,
                    a,
                )
            },
            None => alert.is_none() && after.alert_history@ == self.alert_history@,
        }
    }

    /// Whether `self` is the application as it starts at `now` on `config`:
    /// one empty history per site name, a detector and an alert history that
    /// have seen nothing, the dashboard on screen and nothing selected.
    pub open spec fn is_initial(self, now: Timestamp, config: Config) -> bool {
        &&& self.well_formed()
        &&& self.config == config
        &&& self.theme_name == config.settings.theme
        &&& self.theme == Theme::palette(config.settings.theme)
        &&& entry_names(site_entries(self.sites)) == first_occurrences(site_names(config.sites@))
        &&& forall|j: int|
            0 <= j < site_entries(self.sites).len() ==> is_fresh(
                (#[trigger] site_entries(self.sites)[j]).1,
                config.settings.history_size,
            )
        &&& self.selected_index.is_none()
        &&& self.last_update == now
        &&& self.current_view == View::Dashboard
        &&& self.error_message.is_none()
        &&& self.error_timestamp.is_none()
        &&& !self.refresh_requested
        &&& self.alert_history@ == Seq::<Alert>::empty()
        &&& self.alert_history.max_size() == config.settings.alerts.alert_history_size
        &&& self.detector().config().settings == config.settings
        &&& self.detector().config().sites@ == config.sites@
        &&& self.detector().states() == Seq::new(
            config.sites@.len(),
            |i: int| crate::alerts::SiteAlertState::fresh(),
        )
        &&& self.alert_selected_index.is_none()
    }

    /// All that the user's input can change, as it stands.
    pub open spec fn navigation(self) -> Navigation {
        Navigation {
            screen: self.current_view.screen(),
            selected_index: self.selected_index,
            alert_selected_index: self.alert_selected_index,
            theme_name: self.theme_name,
            theme: self.theme,
            refresh_requested: self.refresh_requested,
        }
    }

    /// Whether `self` and `other` agree in the error message on show.
    pub open spec fn same_error(self, other: App) -> bool {
        self.error_message == other.error_message && self.error_timestamp == other.error_timestamp
    }

    /// Create a new App with the given configuration, started at `now`.
    pub fn new_at(now: Timestamp, config: Config) -> (app: App)
        ensures
            app.is_initial(now, config),
    {
        let history_size = config.settings.history_size;
        let alert_history_size = config.settings.alerts.alert_history_size;
        let theme_name = config.settings.theme;
        let theme = Theme::from_name(theme_name);

        let mut sites = sites_new();
        let ghost names = site_names(config.sites@);
        let mut i: usize = 0;
        while i < config.sites.len()
            invariant
                i <= config.sites.len(),
                names == site_names(config.sites@),
                names_distinct(site_entries(sites)),
                entry_names(site_entries(sites)) == first_occurrences(names.take(i as int)),
                forall|j: int|
                    0 <= j < site_entries(sites).len() ==> is_fresh(
                        (#[trigger] site_entries(sites)[j]).1,
                        history_size,
                    ),
            decreases config.sites.len() - i,
        {
            register(&mut sites, config.sites[i].name.clone(), history_size);
            proof {
                assert(names.take(i + 1).drop_last() == names.take(i as int));
                let after = site_entries(sites);
                assert forall|j: int| 0 <= j < after.len() implies is_fresh(
                    (#[trigger] after[j]).1,
                    history_size,
                ) by {
                    assert(entry_names(after)[j] == after[j].0);
                    assert(entry_names(after).len() == after.len());
                }
            }
            i += 1;
        }
        assert(names.take(config.sites.len() as int) == names);

        let alert_detector = AlertDetector::new(config.clone());
        let alert_history = AlertHistory::new(alert_history_size);

        App {
            config,
            theme,
            theme_name,
            sites,
            selected_index: None,
            last_update: now,
            current_view: View::Dashboard,
            error_message: None,
            error_timestamp: None,
            refresh_requested: false,
            alert_history,
            alert_detector,
            alert_selected_index: None,
        }
    }

    /// Handle a new check result at `now`.
    pub fn handle_check_result_at(
        &mut self,
        now: Timestamp,
        site_name: String,
        result: CheckResult,
    ) -> (alert: Option<Alert>)
        requires
            old(self).well_formed(),
        ensures
            old(self).handles(now, site_name, result, *final(self), alert),
    {
        let found = position_of(&self.sites, site_name.as_str());
        let mut previous_status: Option<Status> = None;
        match found {
            Some(i) => {
                match sites_history_mut(&mut self.sites, i) {
                    Some(history) => {
                        previous_status = match history.latest() {
                            Some(sample) => Some(sample.status),
                            None => None,
                        };
                        history.add_result(result.clone());
                    },
                    None => {},
                }
                self.last_update = now;
                assert(names_distinct(site_entries(self.sites)));
            },
            None => {},
        }
        let status = result.status;
        let raised = self.alert_detector.evaluate_at(
            now,
            site_name.as_str(),
            previous_status.as_ref(),
            &status,
        );
        match raised {
            Some(transition) => {
                let from = match previous_status {
                    Some(s) => s,
                    None => Status::Up,
                };
                let alert = Alert::at(now, site_name, transition, from, status);
                self.alert_history.add_alert(alert.clone());
                Some(alert)
            },
            None => None,
        }
    }

    /// Create a new App with the given configuration, started now.
    pub fn new(config: Config) -> (app: App)
        ensures
            app.is_initial(app.last_update, config),
    {
        App::new_at(crate::clock::now(), config)
    }

    /// Handle a new check result, taken as handled now.
    pub fn handle_check_result(&mut self, site_name: String, result: CheckResult) -> (alert: Option<
        Alert,
    >)
        requires
            old(self).well_formed(),
        ensures
            exists|now: Timestamp| #[trigger]
                old(self).handles(now, site_name, result, *final(self), alert),
    {
        let now = crate::clock::now();
        self.handle_check_result_at(now, site_name, result)
    }

    /// Cycle to the next theme.
    pub fn cycle_theme(&mut self)
        ensures
            final(self).theme_name == old(self).theme_name.successor(),
            final(self).theme == Theme::palette(final(self).theme_name),
            final(self).same_records(*old(self)),
            final(self).same_error(*old(self)),
            final(self).selected_index == old(self).selected_index,
            final(self).alert_selected_index == old(self).alert_selected_index,
            final(self).current_view == old(self).current_view,
            final(self).refresh_requested == old(self).refresh_requested,
    {
        self.theme_name = self.theme_name.next();
        self.theme = Theme::from_name(self.theme_name);
    }

    /// Get the currently selected site: its name and its history.
    pub fn selected_site(&self) -> (selected: Option<(&String, &SiteHistory)>)
        ensures
            match selected {
                Some((name, history)) => {
                    &&& self.selected_index matches Some(i)
                    &&& i < site_entries(self.sites).len()
                    &&& name@ == site_entries(self.sites)[i as int].0
                    &&& *history == site_entries(self.sites)[i as int].1
                },
                None => match self.selected_index {
                    Some(i) => i >= site_entries(self.sites).len(),
                    None => true,
                },
            },
    {
        match self.selected_index {
            Some(i) => sites_entry_at(&self.sites, i),
            None => None,
        }
    }

    /// Puts an error message on show, as of `now`.
    pub fn set_error_at(&mut self, now: Timestamp, message: String)
        ensures
            final(self).error_message == Some(message),
            final(self).error_timestamp == Some(now),
            final(self).navigation() == old(self).navigation(),
            final(self).same_records(*old(self)),
    {
        self.error_message = Some(message);
        self.error_timestamp = Some(now);
    }

    /// Set an error message, as of now.
    pub fn set_error(&mut self, message: String)
        ensures
            final(self).error_message == Some(message),
            final(self).error_timestamp.is_some(),
            final(self).navigation() == old(self).navigation(),
            final(self).same_records(*old(self)),
    {
        self.set_error_at(crate::clock::now(), message);
    }

    /// Clear the error message.
    pub fn clear_error(&mut self)
        ensures
            final(self).error_message.is_none(),
            final(self).error_timestamp.is_none(),
            final(self).navigation() == old(self).navigation(),
            final(self).same_records(*old(self)),
    {
        self.error_message = None;
        self.error_timestamp = None;
    }

    /// Whether an error message set at `set_at` is due to leave at `now`:
    /// five seconds after it was set.
    pub open spec fn is_stale(set_at: Timestamp, now: Timestamp) -> bool {
        now.nanos_since(set_at) >= 5 * 1_000_000_000
    }

    /// Takes the error message off show if it has been there for five
    /// seconds at `now`.
    pub fn check_error_dismissal_at(&mut self, now: Timestamp)
        ensures
            final(self).navigation() == old(self).navigation(),
            final(self).same_records(*old(self)),
            match old(self).error_timestamp {
                Some(set_at) => if App::is_stale(set_at, now) {
                    final(self).error_message.is_none() && final(self).error_timestamp.is_none()
                } else {
                    final(self).same_error(*old(self))
                },
                None => final(self).same_error(*old(self)),
            },
    {
        match self.error_timestamp {
            Some(set_at) => {
                if now.has_elapsed(&set_at, 5) {
                    self.clear_error();
                }
            },
            None => {},
        }
    }

    /// Check if error should be auto-dismissed (after 5 seconds), by the
    /// system clock.
    pub fn check_error_dismissal(&mut self)
        ensures
            final(self).navigation() == old(self).navigation(),
            final(self).same_records(*old(self)),
            final(self).same_error(*old(self)) || (old(self).error_timestamp.is_some()
                && final(self).error_message.is_none()
                && final(self).error_timestamp.is_none()),
    {
        self.check_error_dismissal_at(crate::clock::now());
    }

    /// Hands over the request for a refresh, if there is one, and clears it.
    pub fn take_refresh_request(&mut self) -> (requested: bool)
        ensures
            requested == old(self).refresh_requested,
            !final(self).refresh_requested,
            final(self).same_records(*old(self)),
            final(self).same_error(*old(self)),
            final(self).navigation() == (Navigation {
                refresh_requested: false,
                ..old(self).navigation()
            }),
    {
        let requested = self.refresh_requested;
        self.refresh_requested = false;
        requested
    }

    /// Get counts of sites by status: by the newest sample of each site, how
    /// many are up, down, in warning, and without any sample.
    pub fn status_counts(&self) -> (counts: (usize, usize, usize, usize))
        ensures
            counts.0 == count_latest(site_entries(self.sites), Some(Status::Up)),
            counts.1 == count_latest(site_entries(self.sites), Some(Status::Down)),
            counts.2 == count_latest(site_entries(self.sites), Some(Status::Warning)),
            counts.3 == count_latest(site_entries(self.sites), None),
    {
        let ghost entries = site_entries(self.sites);
        let ghost is_up = |e: (Seq<char>, SiteHistory)| latest_status(e.1) == Some(Status::Up);
        let ghost is_down = |e: (Seq<char>, SiteHistory)| latest_status(e.1) == Some(Status::Down);
        let ghost is_warn = |e: (Seq<char>, SiteHistory)|
            latest_status(e.1) == Some(Status::Warning);
        let ghost is_unknown = |e: (Seq<char>, SiteHistory)|
            latest_status(e.1) == None::<Status>;
        let n = sites_len(&self.sites);
        let mut up: usize = 0;
        let mut down: usize = 0;
        let mut warn: usize = 0;
        let mut unknown: usize = 0;
        let mut i: usize = 0;
        while i < n
            invariant
                i <= n,
                n == entries.len(),
                entries == site_entries(self.sites),
                is_up == |e: (Seq<char>, SiteHistory)| latest_status(e.1) == Some(Status::Up),
                is_down == |e: (Seq<char>, SiteHistory)| latest_status(e.1) == Some(Status::Down),
                is_warn == |e: (Seq<char>, SiteHistory)|
                    latest_status(e.1) == Some(Status::Warning),
                is_unknown == |e: (Seq<char>, SiteHistory)| latest_status(e.1) == None::<Status>,
                up == entries.take(i as int).filter(is_up).len(),
                down == entries.take(i as int).filter(is_down).len(),
                warn == entries.take(i as int).filter(is_warn).len(),
                unknown == entries.take(i as int).filter(is_unknown).len(),
                up + down + warn + unknown == i,
            decreases n - i,
        {
            proof {
                let seen = entries.take(i as int);
                assert(entries.take(i + 1) == seen.push(entries[i as int]));
                seen.lemma_filter_push(entries[i as int], is_up);
                seen.lemma_filter_push(entries[i as int], is_down);
                seen.lemma_filter_push(entries[i as int], is_warn);
                seen.lemma_filter_push(entries[i as int], is_unknown);
            }
            match sites_entry_at(&self.sites, i) {
                Some((_, history)) => {
                    match history.latest() {
                        Some(sample) => {
                            match sample.status {
                                Status::Up => {
                                    up = up + 1;
                                },
                                Status::Down => {
                                    down = down + 1;
                                },
                                Status::Warning => {
                                    warn = warn + 1;
                                },
                            }
                        },
                        None => {
                            unknown = unknown + 1;
                        },
                    }
                },
                None => {},
            }
            i += 1;
        }
        assert(entries.take(n as int) == entries);
        (up, down, warn, unknown)
    }

    /// Handle keyboard input.
    pub fn handle_key_event(&mut self, key: KeyPress) -> (action: AppAction)
        ensures
            (final(self).navigation(), action) == old(self).navigation().after_key(
                key,
                entry_names(site_entries(old(self).sites)),
                old(self).alert_history@.len(),
            ),
            final(self).same_records(*old(self)),
            final(self).same_error(*old(self)),
    {
        match key.code {
            Key::Char(c) => {
                if c == 'q' {
                    return AppAction::Quit;
                } else if c == 'c' {
                    if key.control {
                        return AppAction::Quit;
                    }
                } else if c == '?' || c == 'h' {
                    self.selected_index = None;
                    self.current_view = View::Help;
                } else if c == 'a' {
                    self.alert_selected_index = None;
                    self.current_view = View::Alerts;
                } else if c == 'k' {
                    self.move_up();
                } else if c == 'j' {
                    self.move_down();
                } else if c == 'r' {
                    self.refresh_requested = true;
                } else if c == 't' {
                    self.cycle_theme();
                }
            },
            Key::Esc => {
                match self.current_view {
                    View::AlertDetail(_) => {
                        self.current_view = View::Alerts;
                    },
                    _ => {
                        self.selected_index = None;
                        self.alert_selected_index = None;
                        self.current_view = View::Dashboard;
                    },
                }
            },
            Key::Enter => {
                self.open_selected();
            },
            Key::Up => {
                self.move_up();
            },
            Key::Down => {
                self.move_down();
            },
            Key::Other => {},
        }
        AppAction::Continue
    }

    /// Opens what is selected on the screen that is shown.
    fn open_selected(&mut self)
        ensures
            final(self).navigation() == old(self).navigation().open_selected(
                entry_names(site_entries(old(self).sites)),
            ),
            final(self).same_records(*old(self)),
            final(self).same_error(*old(self)),
    {
        match self.current_view {
            View::Dashboard => {
                let name = match self.selected_site() {
                    Some((name, _)) => Some(name.clone()),
                    None => None,
                };
                match name {
                    Some(name) => {
                        self.selected_index = None;
                        self.current_view = View::Detail(name);
                    },
                    None => {},
                }
            },
            View::Alerts => {
                match self.alert_selected_index {
                    Some(index) => {
                        self.current_view = View::AlertDetail(index);
                    },
                    None => {},
                }
            },
            _ => {},
        }
    }

    /// Moves the selection up in the list that is shown.
    fn move_up(&mut self)
        ensures
            final(self).navigation() == old(self).navigation().up(
                site_entries(old(self).sites).len(),
                old(self).alert_history@.len(),
            ),
            final(self).same_records(*old(self)),
            final(self).same_error(*old(self)),
    {
        match self.current_view {
            View::Dashboard => {
                let count = sites_len(&self.sites);
                if count == 0 {
                    return ;
                }
                self.selected_index = Some(
                    match self.selected_index {
                        None => 0,
                        Some(i) => if i > 0 {
                            i - 1
                        } else {
                            count - 1
                        },
                    },
                );
            },
            View::Alerts => {
                let count = self.alert_history.len();
                if count == 0 {
                    return ;
                }
                self.alert_selected_index = Some(
                    match self.alert_selected_index {
                        None => 0,
                        Some(i) => if i > 0 {
                            i - 1
                        } else {
                            count - 1
                        },
                    },
                );
            },
            _ => {},
        }
    }

    /// Moves the selection down in the list that is shown.
    fn move_down(&mut self)
        ensures
            final(self).navigation() == old(self).navigation().down(
                site_entries(old(self).sites).len(),
                old(self).alert_history@.len(),
            ),
            final(self).same_records(*old(self)),
            final(self).same_error(*old(self)),
    {
        match self.current_view {
            View::Dashboard => {
                let count = sites_len(&self.sites);
                if count == 0 {
                    return ;
                }
                self.selected_index = Some(
                    match self.selected_index {
                        None => 0,
                        Some(i) => if i < count - 1 {
                            i + 1
                        } else {
                            0
                        },
                    },
                );
            },
            View::Alerts => {
                let count = self.alert_history.len();
                if count == 0 {
                    return ;
                }
                self.alert_selected_index = Some(
                    match self.alert_selected_index {
                        None => 0,
                        Some(i) => if i < count - 1 {
                            i + 1
                        } else {
                            0
                        },
                    },
                );
            },
            _ => {},
        }
    }

    /// Handle mouse input.
    pub fn handle_mouse_event(&mut self, mouse: MouseInput, frame_size: FrameSize)
        ensures
            final(self).navigation() == old(self).navigation().after_click(
                mouse,
                frame_size,
                old(self).error_message.is_some(),
                site_entries(old(self).sites).len(),
                old(self).alert_history@.len(),
            ),
            final(self).same_records(*old(self)),
            final(self).same_error(*old(self)),
    {
        match mouse.kind {
            MouseKind::LeftDown => {},
            MouseKind::Other => {
                return ;
            },
        }
        match self.current_view {
            View::Dashboard => {
                self.handle_dashboard_click(mouse.row, mouse.column, frame_size);
            },
            View::Alerts => {
                self.handle_alerts_click(mouse.row, mouse.column, frame_size);
            },
            _ => {},
        }
    }

    /// A left click on the dashboard: selects the site that was clicked.
    fn handle_dashboard_click(&mut self, row: u16, _col: u16, frame_size: FrameSize)
        ensures
            final(self).selected_index == match clicked_item(
                row,
                frame_size.height,
                if old(self).error_message.is_some() {
                    3
                } else {
                    2
                },
                ResponsiveLayout::item_lines(frame_size.width),
            ) {
                Some(i) => if i < site_entries(old(self).sites).len() {
                    Some(i as usize)
                } else {
                    old(self).selected_index
                },
                None => old(self).selected_index,
            },
            final(self).alert_selected_index == old(self).alert_selected_index,
            final(self).current_view == old(self).current_view,
            final(self).theme == old(self).theme,
            final(self).theme_name == old(self).theme_name,
            final(self).refresh_requested == old(self).refresh_requested,
            final(self).same_records(*old(self)),
            final(self).same_error(*old(self)),
    {
        let footer_height: u16 = if self.error_message.is_some() {
            3
        } else {
            2
        };
        let lines_per_item = ResponsiveLayout::new(frame_size.width).lines_per_site_item();
        match item_at(row, frame_size.height, footer_height, lines_per_item) {
            Some(clicked_index) => {
                if clicked_index < sites_len(&self.sites) {
                    self.selected_index = Some(clicked_index);
                }
            },
            None => {},
        }
    }

    /// A left click on the list of alerts: selects the alert that was clicked.
    fn handle_alerts_click(&mut self, row: u16, _col: u16, frame_size: FrameSize)
        ensures
            final(self).alert_selected_index == match clicked_item(row, frame_size.height, 5, 2) {
                Some(i) => if i < old(self).alert_history@.len() {
                    Some(i as usize)
                } else {
                    old(self).alert_selected_index
                },
                None => old(self).alert_selected_index,
            },
            final(self).selected_index == old(self).selected_index,
            final(self).current_view == old(self).current_view,
            final(self).theme == old(self).theme,
            final(self).theme_name == old(self).theme_name,
            final(self).refresh_requested == old(self).refresh_requested,
            final(self).same_records(*old(self)),
            final(self).same_error(*old(self)),
    {
        match item_at(row, frame_size.height, 5, 2) {
            Some(clicked_index) => {
                if clicked_index < self.alert_history.len() {
                    self.alert_selected_index = Some(clicked_index);
                }
            },
            None => {},
        }
    }
}

/// The list item that a click on `row` hits, if it hits the list.
pub fn item_at(row: u16, height: u16, footer_height: u16, lines_per_item: u16) -> (item: Option<
    usize,
>)
    ensures
        match item {
            Some(i) => clicked_item(row, height, footer_height, lines_per_item) == Some(i as int),
            None => clicked_item(row, height, footer_height, lines_per_item).is_none(),
        },
{
    let content_end = if height >= footer_height {
        height - footer_height
    } else {
        0
    };
    if row <= HEADER_HEIGHT || row >= content_end || lines_per_item == 0 {
        return None;
    }
    let content_row = row - HEADER_HEIGHT - 1;
    Some((content_row / lines_per_item) as usize)
}

} // verus!
