//! Probe results and the per-endpoint polling loop.

pub mod http;
pub mod scheduler;
pub mod types;

pub use scheduler::{CheckerLoop, LoopAction, LoopEvent, LoopState};
pub use types::{CheckResult, Status};
