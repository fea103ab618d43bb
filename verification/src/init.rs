//! One-time installation of the console sink with the `log` facade.

use crate::dispatch;
use crate::level::{filter_for, Level, LevelFilter};
use crate::record::LogRecord;
use vstd::prelude::*;

verus! {

/// The single error kind of initialization: a logger was already installed
/// with the facade, and the existing one was left in place.
#[derive(Clone, Copy, Debug, PartialEq, Eq, Structural)]
pub enum InitError {
    /// A logger was already installed with the facade.
    AlreadyInstalled,
}

#[verifier::external_type_specification]
#[verifier::external_body]
pub struct ExSetLoggerError(::log::SetLoggerError);

#[verifier::external_type_specification]
#[verifier::external_body]
pub struct ExRecord<'a>(::log::Record<'a>);

/// Relies on log::Record's accessors (level, target, args, file, line):
/// rebuilds the facade's record as this library's record and dispatches it
/// to the console.
#[verifier::external_body]
fn forward_record(record: &log::Record) {
    let level = match record.level() {
        log::Level::Error => Level::Error,
        log::Level::Warn => Level::Warn,
        log::Level::Info => Level::Info,
        log::Level::Debug => Level::Debug,
        log::Level::Trace => Level::Trace,
    };
    let rec = LogRecord {
        level,
        target: record.target().to_string(),
        message: format!("{}", record.args()),
        file: record.file().map(|f| f.to_string()),
        line: record.line(),
    };
    handle(&rec);
}

/// Relies on fern::Dispatch::apply, which registers through
/// log::set_boxed_logger: installs a process-wide logger that hands every
/// record the facade accepts to `forward_record` without filtering of its
/// own, and returns `Err` if and only if a logger was already installed.
#[verifier::external_body]
fn install_forwarding_sink() -> (r: Result<(), ::log::SetLoggerError>) {
    fern::Dispatch::new().level(log::LevelFilter::Trace).chain(
        fern::Output::call(forward_record),
    ).apply()
}

/// Relies on log::set_max_level: sets the facade's global maximum severity,
/// the threshold its logging macros consult before dispatch.
#[verifier::external_body]
fn set_facade_threshold(threshold: LevelFilter) {
    log::set_max_level(
        match threshold {
            LevelFilter::Off => log::LevelFilter::Off,
            LevelFilter::Error => log::LevelFilter::Error,
            LevelFilter::Warn => log::LevelFilter::Warn,
            LevelFilter::Info => log::LevelFilter::Info,
            LevelFilter::Debug => log::LevelFilter::Debug,
            LevelFilter::Trace => log::LevelFilter::Trace,
        },
    );
}

/// Relies on log::max_level: reads the facade's current global threshold.
#[verifier::external_body]
fn facade_threshold() -> (f: LevelFilter) {
    match log::max_level() {
        log::LevelFilter::Off => LevelFilter::Off,
        log::LevelFilter::Error => LevelFilter::Error,
        log::LevelFilter::Warn => LevelFilter::Warn,
        log::LevelFilter::Info => LevelFilter::Info,
        log::LevelFilter::Debug => LevelFilter::Debug,
        log::LevelFilter::Trace => LevelFilter::Trace,
    }
}

/// True iff a record of severity `level` would be dispatched under the
/// facade's current global threshold: the threshold that the last
/// installation or `log::set_max_level` call left in place.
pub fn enabled(level: Level) -> (r: bool) {
    crate::level::enabled(level, facade_threshold())
}

/// The sink's per-record entry: dispatches a record to the console only when
/// its severity passes the facade's current global threshold.
pub fn handle(record: &LogRecord) {
    if enabled(record.level) {
        dispatch::log(record);
    }
}

/// Installs the console sink as the process-wide logger and sets the global
/// threshold to admit `level` and the more urgent severities. Returns the
/// already-installed error, and changes neither the sink nor the threshold,
/// when any logger was installed before.
pub fn init_with_level(level: Level) -> (r: Result<(), InitError>)
    ensures
        r matches Err(e) ==> e == InitError::AlreadyInstalled,
{
    match install_forwarding_sink() {
        Ok(_) => {
            set_facade_threshold(level.to_level_filter());
            Ok(())
        },
        Err(_) => Err(InitError::AlreadyInstalled),
    }
}

/// Installs the console sink with the threshold set to `Level::Info`, a
/// sensible default.
pub fn init() -> (r: Result<(), InitError>)
    ensures
        r matches Err(e) ==> e == InitError::AlreadyInstalled,
{
    init_with_level(Level::Info)
}

/// Model of the facade's process-wide registration slot: vacant until the
/// first installation, then holding the threshold it was installed with.
pub enum RegistryModel {
    /// No logger has been installed.
    Vacant,
    /// A logger was installed, with the given threshold.
    Installed(LevelFilter),
}

/// The slot after an installation attempt at `level`: a first attempt fills
/// the slot; every later attempt leaves it unchanged.
pub open spec fn install_state(s: RegistryModel, level: Level) -> RegistryModel {
    match s {
        RegistryModel::Vacant => RegistryModel::Installed(filter_for(level)),
        RegistryModel::Installed(f) => RegistryModel::Installed(f),
    }
}

/// The result of an installation attempt: success on a vacant slot, the
/// already-installed error on an occupied one.
pub open spec fn install_result(s: RegistryModel) -> Result<(), InitError> {
    match s {
        RegistryModel::Vacant => Ok(()),
        RegistryModel::Installed(_) => Err(InitError::AlreadyInstalled),
    }
}

/// Installation happens at most once: from a vacant slot, a first attempt
/// succeeds and sets the threshold, and a second attempt returns the
/// already-installed error and leaves the first threshold in place.
pub proof fn lemma_install_at_most_once(first: Level, second: Level)
    ensures
        install_result(RegistryModel::Vacant) == Ok::<(), InitError>(()),
        install_result(install_state(RegistryModel::Vacant, first)) == Err::<
            (),
            InitError,
        >(InitError::AlreadyInstalled),
        install_state(install_state(RegistryModel::Vacant, first), second)
            == RegistryModel::Installed(filter_for(first)),
{
}

} // verus!
