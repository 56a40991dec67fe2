//! A deliberately small logging backend: every record that reaches the sink is
//! written to standard output as `HH:MM:SS [LEVEL] message`, stamped with the
//! UTC time of day.
//!
//! ```text
//! use lokker::{Logger, Severity};
//!
//! Logger::init_with_level(Severity::Debug).unwrap();
//! ```
//!
//! [`Logger::init`] installs the logger with nothing held back.

pub mod facade;
pub mod logger;
pub mod render;
pub mod severity;
pub mod time;

pub use logger::{AlreadyInstalledError, Logger};
pub use severity::Severity;
pub use time::{utc_now, ClockBeforeEpochFault, TimeTriplet};
