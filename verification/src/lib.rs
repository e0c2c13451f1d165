//! The core of an endpoint monitor, verified with Verus.
//!
//! The monitor probes a set of named endpoints again and again, keeps a
//! bounded history of the samples of each, and decides which changes of
//! status are worth an alert.
//!
//! - [`checker`]: the sample that a probe produces, the classification of an
//!   HTTP outcome, and the decisions of the polling loop of one endpoint.
//! - [`history`]: the bounded history of one endpoint and its statistics.
//! - [`alerts`]: the detector, a state machine with a debounce on failures
//!   and a cooldown on repeats; the alerts and their bounded history; and the
//!   notifier, which says how an alert is announced.
//! - [`app`]: the state of the running monitor: it takes samples, feeds the
//!   detector, keeps the alerts, and follows the user's keys and clicks.
//! - [`config`]: the configuration, its defaults and its validation.
//! - [`ui`]: themes, layout rules and the words and figures on screen.
//! - [`clock`], [`sites`], [`search`], [`text`]: instants, the map of the
//!   histories, and helpers on sequences and text.
//!
//! Every function states what it returns or changes, and Verus proves that
//! it does. The functions that read the system clock say what holds whatever
//! the clock shows; each has a twin, named `..._at`, that takes the instant
//! and is exact. Three things are taken on trust, each behind small
//! functions with their contracts: the reading of the clock, the `IndexMap`
//! that holds the histories, and the lower-casing of a theme's name.

pub mod alerts;
pub mod app;
pub mod checker;
pub mod clock;
pub mod config;
pub mod history;
pub mod search;
pub mod sites;
pub mod text;
pub mod ui;
