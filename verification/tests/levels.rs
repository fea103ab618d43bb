use console_log::dispatch::{host_op, HostOp};
use console_log::level::{enabled, Level, LevelFilter};

const LEVELS: [Level; 5] = [Level::Error, Level::Warn, Level::Info, Level::Debug, Level::Trace];

#[test]
fn enabled_iff_at_least_as_urgent() {
    // A record passes the threshold taken from a severity exactly when it is
    // at least as urgent; checked for all 25 pairs.
    for (i, &level) in LEVELS.iter().enumerate() {
        for (j, &threshold) in LEVELS.iter().enumerate() {
            assert_eq!(enabled(level, threshold.to_level_filter()), i <= j);
        }
    }
}

#[test]
fn nothing_enabled_when_off() {
    for &level in LEVELS.iter() {
        assert!(!enabled(level, LevelFilter::Off));
    }
}

#[test]
fn host_operation_mapping() {
    assert_eq!(host_op(Level::Error), HostOp::Error);
    assert_eq!(host_op(Level::Warn), HostOp::Warn);
    assert_eq!(host_op(Level::Info), HostOp::Info);
    assert_eq!(host_op(Level::Debug), HostOp::Log);
    assert_eq!(host_op(Level::Trace), HostOp::Debug);
}

#[test]
fn labels() {
    assert_eq!(Level::Error.label(), "ERROR");
    assert_eq!(Level::Warn.label(), "WARN");
    assert_eq!(Level::Info.label(), "INFO");
    assert_eq!(Level::Debug.label(), "DEBUG");
    assert_eq!(Level::Trace.label(), "TRACE");
}

#[test]
fn ranks_are_ordered_by_urgency() {
    assert_eq!(Level::Error.rank(), 1);
    assert_eq!(Level::Warn.rank(), 2);
    assert_eq!(Level::Info.rank(), 3);
    assert_eq!(Level::Debug.rank(), 4);
    assert_eq!(Level::Trace.rank(), 5);
    assert_eq!(LevelFilter::Off.rank(), 0);
    assert_eq!(LevelFilter::Trace.rank(), 5);
}

#[test]
fn flush_is_a_no_op() {
    console_log::dispatch::flush();
}
