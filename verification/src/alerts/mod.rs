//! Alert detection, the alerts it emits, and how they are announced.

pub mod detector;
pub mod history;
pub mod notifier;

pub use detector::{AlertDetector, SiteAlertState, StatusTransition};
pub use history::{Alert, AlertHistory, AlertSeverity};
pub use notifier::AlertNotifier;
