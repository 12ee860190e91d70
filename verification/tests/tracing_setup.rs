use utility::tracing::{
    panic_report, stdout, tracy, InitError, Level, Sink, TracingBuilder, TracingDefer,
    TRACY_CONNECTION_TIMEOUT_SECS,
};

const LEVELS: [Level; 5] = [Level::Trace, Level::Debug, Level::Info, Level::Warn, Level::Error];

#[test]
fn stdout_only_setup_delivers_info_to_stdout() {
    let setup = stdout().init();
    assert_eq!(setup.sinks(), &vec![Sink::Stdout]);
    assert_eq!(setup.min_level(), Level::Info);
    assert_eq!(setup.observers(Level::Info), vec![Sink::Stdout]);
    assert_eq!(setup.log_file(), None);
    assert!(!setup.chains_panic_hook());
    assert_eq!(setup.guard().settle_secs(), None);
}

#[test]
fn file_setup_names_the_file_and_chains_the_hook() {
    let setup = utility::tracing::file("/tmp/t.log").init();
    assert_eq!(setup.sinks(), &vec![Sink::File]);
    assert_eq!(setup.log_file(), Some("/tmp/t.log"));
    assert!(setup.chains_panic_hook());
    assert_eq!(setup.observers(Level::Info), vec![Sink::File]);
    assert_eq!(setup.observers(Level::Error), vec![Sink::File]);
    assert_eq!(setup.guard().settle_secs(), None);
}

#[test]
fn panic_report_puts_backtrace_after_blank_line() {
    let report = panic_report("boom", "   0: main\n   1: start\n");
    assert_eq!(report, "boom\n\nStack backtrace:\n   0: main\n   1: start\n");
    let lines: Vec<&str> = report.lines().collect();
    assert_eq!(lines[0], "boom");
    assert_eq!(lines[1], "");
    assert_eq!(lines[2], "Stack backtrace:");
    assert_eq!(lines[3], "   0: main");
}

#[test]
fn panic_report_of_empty_parts_is_the_separator() {
    assert_eq!(panic_report("", ""), "\n\nStack backtrace:\n");
}

#[test]
fn level_filter_drops_lower_severities() {
    let setup = stdout().with_level(Level::Warn).init();
    assert_eq!(setup.min_level(), Level::Warn);
    assert_eq!(setup.observers(Level::Trace), vec![]);
    assert_eq!(setup.observers(Level::Debug), vec![]);
    assert_eq!(setup.observers(Level::Info), vec![]);
    assert_eq!(setup.observers(Level::Warn), vec![Sink::Stdout]);
    assert_eq!(setup.observers(Level::Error), vec![Sink::Stdout]);
}

#[test]
fn default_level_is_info() {
    let setup = TracingBuilder::empty().with_stdout().init();
    assert_eq!(setup.min_level(), Level::Info);
    assert_eq!(setup.observers(Level::Debug), vec![]);
    assert_eq!(setup.observers(Level::Info), vec![Sink::Stdout]);
}

#[test]
fn trace_level_lets_everything_through() {
    let setup = stdout().with_level(Level::Trace).init();
    for level in LEVELS {
        assert_eq!(setup.observers(level), vec![Sink::Stdout]);
    }
}

#[test]
fn admits_compares_severities() {
    for (i, min) in LEVELS.iter().enumerate() {
        for (j, event) in LEVELS.iter().enumerate() {
            assert_eq!(min.admits(*event), j >= i);
        }
    }
}

#[test]
fn empty_setup_has_no_sink_and_observes_nothing() {
    let setup = TracingBuilder::empty().init();
    assert!(setup.sinks().is_empty());
    assert_eq!(setup.log_file(), None);
    assert!(!setup.chains_panic_hook());
    assert_eq!(setup.guard().settle_secs(), None);
    for level in LEVELS {
        assert_eq!(setup.observers(level), vec![]);
    }
}

#[test]
fn empty_setup_with_level_still_observes_nothing() {
    let setup = TracingBuilder::empty().with_level(Level::Trace).init();
    assert!(setup.sinks().is_empty());
    assert_eq!(setup.observers(Level::Error), vec![]);
}

#[test]
fn default_builder_is_stdout() {
    let setup = TracingBuilder::default().init();
    assert_eq!(setup.sinks(), &vec![Sink::Stdout]);
    assert_eq!(setup.min_level(), Level::Info);
    assert_eq!(setup.log_file(), None);
}

#[test]
fn composition_is_order_independent() {
    let a = TracingBuilder::empty().with_stdout().with_file("log.txt").init();
    let b = TracingBuilder::empty().with_file("log.txt").with_stdout().init();
    assert_eq!(a.sinks(), b.sinks());
    assert_eq!(a.sinks(), &vec![Sink::Stdout, Sink::File]);
    assert_eq!(a.log_file(), b.log_file());
    assert_eq!(a.min_level(), b.min_level());
    assert_eq!(a.chains_panic_hook(), b.chains_panic_hook());
}

#[test]
fn level_and_sinks_commute() {
    let a = tracy().with_level(Level::Debug).with_stdout().init();
    let b = stdout().with_tracy().with_level(Level::Debug).init();
    assert_eq!(a.sinks(), b.sinks());
    assert_eq!(a.min_level(), Level::Debug);
    assert_eq!(b.min_level(), Level::Debug);
}

#[test]
fn sinks_are_layered_stdout_profiler_file() {
    let setup = utility::tracing::file("log.txt").with_tracy().with_stdout().init();
    assert_eq!(setup.sinks(), &vec![Sink::Stdout, Sink::Tracy, Sink::File]);
    assert_eq!(setup.observers(Level::Warn), vec![Sink::Stdout, Sink::Tracy, Sink::File]);
    assert_eq!(setup.observers(Level::Debug), vec![]);
}

#[test]
fn setting_an_option_twice_keeps_the_last() {
    let setup = utility::tracing::file("first.log").with_file("second.log").with_stdout().with_stdout().init();
    assert_eq!(setup.sinks(), &vec![Sink::Stdout, Sink::File]);
    assert_eq!(setup.log_file(), Some("second.log"));
    let setup = stdout().with_level(Level::Error).with_level(Level::Debug).init();
    assert_eq!(setup.min_level(), Level::Debug);
}

#[test]
fn profiler_setup_has_an_active_guard() {
    let setup = tracy().init();
    assert_eq!(setup.sinks(), &vec![Sink::Tracy]);
    assert!(!setup.chains_panic_hook());
    assert_eq!(setup.guard().settle_secs(), Some(1));
}

#[test]
fn guard_blocks_for_the_connection_timeout_only_when_active() {
    assert_eq!(TRACY_CONNECTION_TIMEOUT_SECS, 1);
    assert_eq!(TracingDefer::new(true).settle_secs(), Some(TRACY_CONNECTION_TIMEOUT_SECS));
    assert_eq!(TracingDefer::new(false).settle_secs(), None);
}

#[test]
fn admits_agrees_with_the_level_filter_of_tracing() {
    let outside = [
        tracing::Level::TRACE,
        tracing::Level::DEBUG,
        tracing::Level::INFO,
        tracing::Level::WARN,
        tracing::Level::ERROR,
    ];
    for (i, min) in LEVELS.iter().enumerate() {
        let filter = tracing::level_filters::LevelFilter::from_level(outside[i]);
        for (j, event) in LEVELS.iter().enumerate() {
            assert_eq!(min.admits(*event), outside[j] <= filter);
        }
    }
}

#[test]
fn init_fails_when_the_log_file_cannot_be_created() {
    let setup = utility::tracing::file("/missing/dir/t.log").with_stdout().init();
    assert_eq!(setup.conclude(false, false).err(), Some(InitError::LogFile));
    assert_eq!(setup.conclude(false, true).err(), Some(InitError::LogFile));
    assert_eq!(InitError::LogFile.message(), "failed to create log file");
}

#[test]
fn second_init_fails() {
    let first = stdout().init();
    assert!(first.conclude(true, true).is_ok());
    let second = stdout().init();
    assert_eq!(second.conclude(true, false).err(), Some(InitError::AlreadyInstalled));
    let with_file = utility::tracing::file("log.txt").init();
    assert_eq!(with_file.conclude(true, false).err(), Some(InitError::AlreadyInstalled));
    assert_eq!(
        InitError::AlreadyInstalled.message(),
        "failed to set global tracing subscriber"
    );
}

#[test]
fn init_without_log_file_does_not_look_at_the_file() {
    let guard = stdout().init().conclude(false, true);
    assert_eq!(guard.map(|guard| guard.settle_secs()), Ok(None));
    let guard = TracingBuilder::empty().init().conclude(false, true);
    assert_eq!(guard.map(|guard| guard.settle_secs()), Ok(None));
}

#[test]
fn successful_init_hands_out_the_guard() {
    let guard = utility::tracing::file("log.txt").with_tracy().init().conclude(true, true);
    assert_eq!(guard.map(|guard| guard.settle_secs()), Ok(Some(1)));
    let guard = utility::tracing::file("log.txt").init().conclude(true, true);
    assert_eq!(guard.map(|guard| guard.settle_secs()), Ok(None));
}
