//! The record handed to the dispatcher.

use crate::level::Level;
use vstd::prelude::*;

verus! {

/// An immutable log record: a severity, the display-formatted message, the
/// logical target of the call, and optional source-location metadata.
pub struct LogRecord {
    /// Severity of the record.
    pub level: Level,
    /// The target identifier of the emitting call.
    pub target: String,
    /// The display-formatted message text.
    pub message: String,
    /// Source file of the emitting call, where known.
    pub file: Option<String>,
    /// Source line of the emitting call, where known.
    pub line: Option<u32>,
}

} // verus!
