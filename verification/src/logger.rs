//! The sink: a logger that writes every record it is handed to standard
//! output. Filtering is left to the facade, whose maximum level is set once,
//! when the logger is installed.

use crate::facade::{record_level, record_message, set_boxed_logger, set_max_level};
use crate::render::{format_line, line_text};
use crate::severity::Severity;
use crate::time::{utc_now, ClockBeforeEpochFault, TimeTriplet};
use std::io::{Stdout, Write};
use vstd::prelude::*;

verus! {

/// Another logger is already registered with the facade.
#[derive(Clone, Copy, Debug, PartialEq, Eq, Structural)]
pub struct AlreadyInstalledError;

/// A minimal logger without configuration beyond its threshold.
pub struct Logger {
    level: Severity,
}

/// `std::io::Stdout`, the handle to standard output, carried as it is.
#[verifier::external_type_specification]
#[verifier::external_body]
pub struct ExStdout(Stdout);

/// `std::io::stdout` gives a handle to the standard output of the process.
pub assume_specification[ std::io::stdout ]() -> Stdout;

/// `Write::write_all` on standard output: writes the bytes in one call. A
/// failed write is dropped: logging never brings the host program down.
#[verifier::external_body]
fn write_all(out: &mut Stdout, bytes: &[u8]) {
    let _ = out.write_all(bytes);
}

impl Logger {
    /// The threshold that this logger sets as the maximum level of the
    /// facade.
    pub closed spec fn threshold(self) -> Severity {
        self.level
    }

    /// A logger with the given threshold, not yet installed.
    pub fn new(level: Severity) -> (logger: Logger)
        ensures
            logger.threshold() == level,
    {
        Logger { level }
    }

    /// The threshold of this logger.
    pub fn level(&self) -> (level: Severity)
        ensures
            level == self.threshold(),
    {
        self.level
    }

    /// What an installation returns, given what the facade answered: success
    /// where it registered the logger, `AlreadyInstalledError` where it
    /// refused.
    pub fn install_outcome(answer: Result<(), log::SetLoggerError>) -> (r: Result<
        (),
        AlreadyInstalledError,
    >)
        ensures
            r is Ok <==> answer is Ok,
    {
        match answer {
            Ok(()) => Ok(()),
            Err(_) => Err(AlreadyInstalledError),
        }
    }

    /// Sets the maximum level of the facade to the threshold and registers
    /// the logger as the active one of the process. The level is set whether
    /// or not the registration then succeeds.
    pub fn install(self) -> Result<(), AlreadyInstalledError> {
        set_max_level(self.level);
        Self::install_outcome(set_boxed_logger(self))
    }

    /// Installs a logger with the given threshold. Fails if a logger, of this
    /// kind or another, is already registered.
    pub fn init_with_level(level: Severity) -> Result<(), AlreadyInstalledError> {
        Logger::new(level).install()
    }

    /// Installs a logger with the most permissive threshold, `Trace`, under
    /// which every record is let through.
    pub fn init() -> Result<(), AlreadyInstalledError> {
        Logger::new(Severity::Trace).install()
    }

    /// The line that this logger writes for a record of `severity` with the
    /// given message, accepted at `time`. The threshold plays no part: what
    /// reaches the logger is written.
    pub fn render(&self, time: TimeTriplet, severity: Severity, message: &str) -> (line: String)
        ensures
            line@ == line_text(time, severity, message@),
    {
        format_line(time, severity, message)
    }

    /// The line for a record, given the reading of the clock: nothing at all
    /// where the clock is at fault.
    pub fn render_at(
        &self,
        reading: Result<TimeTriplet, ClockBeforeEpochFault>,
        severity: Severity,
        message: &str,
    ) -> (line: Option<String>)
        ensures
            reading is Err ==> line is None,
            reading matches Ok(time) ==> line matches Some(text) && text@ == line_text(
                time,
                severity,
                message@,
            ),
    {
        match reading {
            Ok(time) => Some(self.render(time, severity, message)),
            Err(_) => None,
        }
    }
}

impl log::Log for Logger {
    fn enabled(&self, _metadata: &log::Metadata) -> (enabled: bool)
        ensures
            enabled,
    {
        true
    }

    fn log(&self, record: &log::Record) {
        let severity = record_level(record);
        let message = record_message(record);
        match self.render_at(utc_now(), severity, message.as_str()) {
            Some(line) => {
                let mut out = std::io::stdout();
                write_all(&mut out, line.as_str().as_bytes());
            },
            None => {},
        }
    }

    fn flush(&self) {
    }
}

} // verus!
