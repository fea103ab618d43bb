use console_log::init::enabled;
use console_log::level::Level;
use console_log::{init, init_with_level, InitError};

// The installation attempts share one process-wide slot, so every step of
// this scenario lives in a single test function.
#[test]
fn init_succeeds_once_then_reports_already_installed() {
    // The first installation succeeds and sets the global threshold.
    assert_eq!(init_with_level(Level::Debug), Ok(()));
    assert_eq!(log::max_level(), log::LevelFilter::Debug);
    assert!(enabled(Level::Error));
    assert!(enabled(Level::Debug));
    assert!(!enabled(Level::Trace));

    // A second attempt fails with the single error kind and changes nothing.
    assert_eq!(init_with_level(Level::Trace), Err(InitError::AlreadyInstalled));
    assert_eq!(log::max_level(), log::LevelFilter::Debug);

    // The convenience initializer reports the same error once a logger is
    // installed.
    assert_eq!(init(), Err(InitError::AlreadyInstalled));
    assert_eq!(log::max_level(), log::LevelFilter::Debug);
}
