//! The process-wide maximum level of the `log` facade.
use crate::level::LevelFilter;
use vstd::prelude::*;

verus! {

/// `log::max_level`: the facade's maximum level at the moment of the call.
/// Any code in the process may set it, so nothing is claimed of the value.
#[verifier::external_body]
pub(crate) fn ambient_max_level() -> LevelFilter {
    match log::max_level() {
        log::LevelFilter::Off => LevelFilter::Off,
        log::LevelFilter::Error => LevelFilter::Error,
        log::LevelFilter::Warn => LevelFilter::Warn,
        log::LevelFilter::Info => LevelFilter::Info,
        log::LevelFilter::Debug => LevelFilter::Debug,
        log::LevelFilter::Trace => LevelFilter::Trace,
    }
}

/// `log::set_max_level`: makes `level` the facade's maximum level. The effect
/// is on the facade alone; nothing is returned and nothing is claimed.
#[verifier::external_body]
pub(crate) fn set_ambient_max_level(level: LevelFilter) {
    log::set_max_level(
        match level {
            LevelFilter::Off => log::LevelFilter::Off,
            LevelFilter::Error => log::LevelFilter::Error,
            LevelFilter::Warn => log::LevelFilter::Warn,
            LevelFilter::Info => log::LevelFilter::Info,
            LevelFilter::Debug => log::LevelFilter::Debug,
            LevelFilter::Trace => log::LevelFilter::Trace,
        },
    )
}

} // verus!
