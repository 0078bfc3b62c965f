//! One-shot installation of the policy on the `log` facade: a `fern`
//! dispatcher that admits records through `should_emit` and renders them
//! through `format_record` onto standard error.

use std::io::Write;
use vstd::prelude::*;

use crate::severity::Filter;

verus! {

/// The one way initialization fails: the logging facade already holds a
/// logger, so no second one can be installed in this process.
#[derive(Clone, Copy, PartialEq, Eq, Structural, Debug)]
pub enum InitError {
    AlreadyInitialized,
}

/// The error `log` returns when a global logger is already installed.
#[verifier::external_type_specification]
#[verifier::external_body]
pub struct ExSetLoggerError(log::SetLoggerError);

/// Relies on fern::Dispatch (new, level, filter, chain, apply), on
/// fern::Output::call and on the global logger of `log`: builds a dispatcher
/// that lets every record through to the filter, admits exactly those that
/// `should_emit` takes under `default`, renders each accepted record through
/// `format_record` with colour on, and writes the line to standard error.
/// `apply` installs it and errs precisely when a global logger is already
/// set; nothing can be promised of that here, since it turns on the state of
/// the whole process.
#[verifier::external_body]
fn install_dispatch(default: Filter) -> Result<(), log::SetLoggerError> {
    fern::Dispatch::new()
        .level(log::LevelFilter::Trace)
        .filter(move |meta| crate::policy::should_emit(
            default, meta.target(), crate::severity::Severity::from_code(meta.level() as usize)))
        .chain(fern::Output::call(|record| {
            let line = crate::format::format_record(
                record.target(), crate::severity::Severity::from_code(record.level() as usize),
                record.file(), record.line(), &record.args().to_string(), true);
            let _ = writeln!(std::io::stderr(), "{}", line);
        }))
        .apply()
}

/// Installs the logging policy on the shared facade, with `filter` as the
/// default threshold of the general-purpose components. One-shot: the call
/// fails, with the only error there is, exactly when some logger is already
/// installed process-wide; it is not retried and nothing is torn down.
pub fn setup_logging(filter: Filter) -> (r: Result<(), InitError>)
    ensures
        r matches Err(e) ==> e == InitError::AlreadyInitialized,
{
    match install_dispatch(filter) {
        Ok(()) => Ok(()),
        Err(_) => Err(InitError::AlreadyInitialized),
    }
}

} // verus!
