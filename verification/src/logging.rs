//! Interpretation of the logging configuration values.
//!
//! The log destination and verbosity live in the same configuration store as
//! the supervision parameters. Reading them is the driver's work; what a read
//! value means is decided here.

use crate::codec::RegistryValue;
use crate::codec::ValueModel;
use vstd::prelude::*;

verus! {

/// The numeric code of the quietest verbosity level, the default when the
/// configuration names none.
pub const LOG_LEVEL_ERROR: u64 = 1;

/// The numeric code of the most verbose level, substituted for any code the
/// configuration names beyond the known range.
pub const LOG_LEVEL_TRACE: u64 = 5;

/// The verbosity level a configured code selects: the code itself when it is
/// a known level, and the most verbose level otherwise.
pub open spec fn log_level_of_code(code: u64) -> u64 {
    if LOG_LEVEL_ERROR <= code <= LOG_LEVEL_TRACE {
        code
    } else {
        LOG_LEVEL_TRACE
    }
}

/// Selects the verbosity level a configured code asks for; a code outside the
/// known range selects the most verbose level.
pub fn log_level_from_code(code: u64) -> (r: u64)
    ensures
        r == log_level_of_code(code),
{
    if LOG_LEVEL_ERROR <= code && code <= LOG_LEVEL_TRACE {
        code
    } else {
        LOG_LEVEL_TRACE
    }
}

/// The log path a decoded configuration value denotes: the text of a plain
/// text value, or the expanded text of an expandable one; any other kind
/// names no path.
pub open spec fn log_path_of_value(m: ValueModel) -> Option<Seq<u16>> {
    match m {
        ValueModel::Text(path) => Some(path),
        ValueModel::ExpandableText { expanded, .. } => Some(expanded),
        _ => None,
    }
}

/// Takes the log path out of a decoded configuration value; any kind that
/// names no path is rejected.
pub fn into_log_path(v: RegistryValue) -> (r: Option<Vec<u16>>)
    ensures
        match r {
            Some(path) => log_path_of_value(v@) == Some(path@),
            None => log_path_of_value(v@) is None,
        },
{
    match v {
        RegistryValue::Text(path) => Some(path),
        RegistryValue::ExpandableText { expanded, .. } => Some(expanded),
        _ => None,
    }
}

} // verus!
