//! Progress reporting for long-running remote transfers.
//!
//! A blocking fetch or push reports raw counters through a callback; this
//! library turns each report into a normalized [`RemoteProgress`] value and
//! decides, step by step, what a relay thread does with it: store it in the
//! shared progress slot, signal the consumer, pace itself, and stop.

pub mod notification;
pub mod progress;
pub mod relay;
pub mod trace;

pub use notification::{PackStage, ProgressNotification};
pub use progress::{RemoteProgress, RemoteProgressState};
pub use relay::{RelayAction, RelayEvent, RelayState, Termination};
