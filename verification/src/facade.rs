//! The calls into the `log` facade. The facade owns the process-wide registry
//! of the active logger and the level filter that holds records back before
//! they reach it; nothing of either is proved here.

use crate::logger::Logger;
use crate::severity::Severity;
use vstd::prelude::*;

verus! {

/// `log::Record`, one log call as the facade hands it over.
#[verifier::external_type_specification]
#[verifier::external_body]
pub struct ExRecord<'a>(log::Record<'a>);

/// `log::Metadata`, the level and target of a record.
#[verifier::external_type_specification]
#[verifier::external_body]
pub struct ExMetadata<'a>(log::Metadata<'a>);

/// `log::SetLoggerError`, the facade's refusal to register a second logger.
#[verifier::external_type_specification]
#[verifier::external_body]
pub struct ExSetLoggerError(log::SetLoggerError);

/// `log::set_max_level`: sets the maximum level of the facade, which from now
/// on lets through records of at least `threshold`. The level is global
/// state; the contract claims nothing.
#[verifier::external_body]
pub(crate) fn set_max_level(threshold: Severity) {
    log::set_max_level(
        match threshold {
            Severity::Trace => log::LevelFilter::Trace,
            Severity::Debug => log::LevelFilter::Debug,
            Severity::Info => log::LevelFilter::Info,
            Severity::Warn => log::LevelFilter::Warn,
            Severity::Error => log::LevelFilter::Error,
        },
    )
}

/// `log::set_boxed_logger`: hands `logger` to the facade as the active logger
/// of the process. Whether that succeeds depends on what was registered
/// before, so the contract claims nothing of the result.
#[verifier::external_body]
pub(crate) fn set_boxed_logger(logger: Logger) -> Result<(), log::SetLoggerError> {
    log::set_boxed_logger(Box::new(logger))
}

/// `log::Record::level`: the severity that the record was logged with.
#[verifier::external_body]
pub(crate) fn record_level(record: &log::Record) -> Severity {
    match record.level() {
        log::Level::Trace => Severity::Trace,
        log::Level::Debug => Severity::Debug,
        log::Level::Info => Severity::Info,
        log::Level::Warn => Severity::Warn,
        log::Level::Error => Severity::Error,
    }
}

/// `log::Record::args`, rendered: the text of the record's message.
#[verifier::external_body]
pub(crate) fn record_message(record: &log::Record) -> String {
    format!("{}", record.args())
}

/// `log::Level::as_str`: the facade's name for a level, which is the level's
/// name in capitals (`ERROR`, `WARN`, `INFO`, `DEBUG`, `TRACE`).
#[verifier::external_body]
pub(crate) fn level_name(severity: Severity) -> (name: &'static str)
    ensures
        name@ == severity.name(),
{
    let level = match severity {
        Severity::Trace => log::Level::Trace,
        Severity::Debug => log::Level::Debug,
        Severity::Info => log::Level::Info,
        Severity::Warn => log::Level::Warn,
        Severity::Error => log::Level::Error,
    };
    level.as_str()
}

} // verus!
