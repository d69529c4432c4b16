use log_bridge::severity::{Level, Severity};

#[test]
fn error_maps_to_error() {
    assert_eq!(Level::Error.severity(), Severity::Error);
}

#[test]
fn warn_maps_to_warning() {
    assert_eq!(Level::Warn.severity(), Severity::Warning);
}

#[test]
fn info_maps_to_info() {
    assert_eq!(Level::Info.severity(), Severity::Info);
}

#[test]
fn debug_and_trace_share_one_severity() {
    assert_eq!(Level::Debug.severity(), Severity::Log);
    assert_eq!(Level::Trace.severity(), Severity::Log);
}

#[test]
fn mapping_gives_the_same_answer_each_time() {
    let levels = [Level::Error, Level::Warn, Level::Info, Level::Debug, Level::Trace];
    for level in levels {
        assert_eq!(level.severity(), level.severity());
    }
}

#[test]
fn mapping_keeps_the_order_of_the_levels() {
    let levels = [Level::Error, Level::Warn, Level::Info, Level::Debug, Level::Trace];
    let position = |s: Severity| match s {
        Severity::Error => 0,
        Severity::Warning => 1,
        Severity::Info => 2,
        Severity::Log => 3,
    };
    for pair in levels.windows(2) {
        assert!(position(pair[0].severity()) <= position(pair[1].severity()));
    }
}

#[test]
fn only_the_two_lowest_levels_collapse() {
    let levels = [Level::Error, Level::Warn, Level::Info, Level::Debug, Level::Trace];
    for (i, a) in levels.iter().enumerate() {
        for (j, b) in levels.iter().enumerate() {
            let same = a.severity() == b.severity();
            assert_eq!(same, i == j || (i >= 3 && j >= 3));
        }
    }
}

#[test]
fn level_names_are_upper_case() {
    assert_eq!(Level::Error.name(), "ERROR");
    assert_eq!(Level::Warn.name(), "WARN");
    assert_eq!(Level::Info.name(), "INFO");
    assert_eq!(Level::Debug.name(), "DEBUG");
    assert_eq!(Level::Trace.name(), "TRACE");
}

#[test]
fn level_names_are_those_tracing_prints() {
    assert_eq!(Level::Error.name(), tracing::Level::ERROR.to_string());
    assert_eq!(Level::Warn.name(), tracing::Level::WARN.to_string());
    assert_eq!(Level::Info.name(), tracing::Level::INFO.to_string());
    assert_eq!(Level::Debug.name(), tracing::Level::DEBUG.to_string());
    assert_eq!(Level::Trace.name(), tracing::Level::TRACE.to_string());
}
