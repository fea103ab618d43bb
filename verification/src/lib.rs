//! A logger that routes structured log records from the `log` facade to the
//! browser's console, mapping each severity to the matching console method
//! and optionally rendering styled output.

pub mod dispatch;
pub mod init;
pub mod level;
pub mod record;
pub mod style;
pub mod text;

pub use crate::init::init;
pub use crate::init::init_with_level;
pub use crate::init::InitError;
