use waylock::config::{join, Colors, Config, ConfigError};
use waylock::io::{retry_on_interrupt, Attempt, IoFailure, IoKind};
use waylock::logger::{format_line, Level, LevelFilter, Logger, TIMESTAMP_END};
use waylock::options::{
    opaque, pick_color, Arguments, Options, DEFAULT_FAIL_COLOR, DEFAULT_INIT_COLOR,
    DEFAULT_INPUT_COLOR,
};

fn arguments() -> Arguments {
    Arguments {
        init_color: None,
        input_color: None,
        fail_color: None,
        config: None,
        one_way: false,
        fail_command: None,
        verbosity: 0,
    }
}

fn failure(kind: IoKind, message: &str) -> IoFailure {
    IoFailure { kind, message: message.to_owned() }
}

#[test]
fn config_path_fallback_order() {
    assert_eq!(
        Config::path(Some("/etc/lock.toml"), Some("/xdg"), Some("/home/u")),
        Some("/etc/lock.toml".to_owned())
    );
    assert_eq!(
        Config::path(None, Some("/xdg"), Some("/home/u")),
        Some("/xdg/waylock/waylock.toml".to_owned())
    );
    assert_eq!(
        Config::path(None, None, Some("/home/u")),
        Some("/home/u/.config/waylock/waylock.toml".to_owned())
    );
    assert_eq!(Config::path(None, None, None), None);
}

#[test]
fn config_path_joins_like_a_path() {
    assert_eq!(
        Config::path(None, Some("/xdg/"), None),
        Some("/xdg/waylock/waylock.toml".to_owned())
    );
    assert_eq!(Config::path(None, Some(""), None), Some("waylock/waylock.toml".to_owned()));
    assert_eq!(
        Config::path(None, None, Some("")),
        Some(".config/waylock/waylock.toml".to_owned())
    );
    assert_eq!(
        Config::path(None, None, Some("/")),
        Some("/.config/waylock/waylock.toml".to_owned())
    );
    assert_eq!(join("a", "b"), "a/b");
    assert_eq!(join("a/", "b"), "a/b");
    assert_eq!(join("", "b"), "b");
    assert_eq!(join("a", ""), "a/");
}

#[test]
fn missing_config_is_no_error_to_report() {
    let error = ConfigError::from_io(failure(IoKind::NotFound, "No such file or directory"));
    assert!(matches!(error, ConfigError::NotFound));
    assert_eq!(error.message(), "Couldn't find the config file");
    assert_eq!(error.report(), None);
}

#[test]
fn other_config_errors_are_reported() {
    let error = ConfigError::from_io(failure(IoKind::Other, "Permission denied"));
    assert!(matches!(&error, ConfigError::Io(message) if message == "Permission denied"));
    assert_eq!(error.message(), "I/O error reading the config file: Permission denied");
    assert_eq!(
        error.report(),
        Some("I/O error reading the config file: Permission denied".to_owned())
    );
    let error = ConfigError::from_io(failure(IoKind::Interrupted, "Interrupted"));
    assert!(matches!(error, ConfigError::Io(_)));
    let error = ConfigError::Toml("expected an equals".to_owned());
    assert_eq!(
        error.report(),
        Some("TOML error reading the config file: expected an equals".to_owned())
    );
}

#[test]
fn interrupted_calls_are_retried() {
    assert!(matches!(retry_on_interrupt(Ok::<u32, IoFailure>(7)), Attempt::Done(7)));
    assert!(matches!(
        retry_on_interrupt::<u32>(Err(failure(IoKind::Interrupted, "EINTR"))),
        Attempt::Retry
    ));
    assert!(matches!(
        retry_on_interrupt::<u32>(Err(failure(IoKind::Other, "broken pipe"))),
        Attempt::Failed(IoFailure { kind: IoKind::Other, message }) if message == "broken pipe"
    ));
    assert!(matches!(
        retry_on_interrupt::<()>(Err(failure(IoKind::NotFound, "gone"))),
        Attempt::Failed(IoFailure { kind: IoKind::NotFound, .. })
    ));
}

#[test]
fn defaults_hold_without_arguments_and_config() {
    let options = Options::new(&arguments(), None);
    assert!(!options.one_way);
    assert_eq!(options.fail_command, None);
    assert_eq!(options.init_color, 0xffff_ffff);
    assert_eq!(options.input_color, 0xff00_00ff);
    assert_eq!(options.fail_color, 0xffff_0000);
    assert_eq!(DEFAULT_INIT_COLOR, 0xffff_ffff);
    assert_eq!(DEFAULT_INPUT_COLOR, 0xff00_00ff);
    assert_eq!(DEFAULT_FAIL_COLOR, 0xffff_0000);
    let options = Options::new(&arguments(), Some(&Config::empty()));
    assert!(!options.one_way);
    assert_eq!(options.fail_command, None);
    assert_eq!(
        (options.init_color, options.input_color, options.fail_color),
        (0xffff_ffff, 0xff00_00ff, 0xffff_0000)
    );
}

#[test]
fn config_fills_what_the_command_line_leaves_open() {
    let config = Config {
        one_way: Some(true),
        fail_command: Some("from-config".to_owned()),
        colors: Colors {
            init_color: Some(0x11_2233),
            input_color: Some(0xab44_5566),
            fail_color: None,
        },
    };
    let options = Options::new(&arguments(), Some(&config));
    assert!(options.one_way);
    assert_eq!(options.fail_command.as_deref(), Some("from-config"));
    assert_eq!(options.init_color, 0xff11_2233);
    assert_eq!(options.input_color, 0xff44_5566);
    assert_eq!(options.fail_color, 0xffff_0000);
}

#[test]
fn command_line_goes_before_config() {
    let config = Config {
        one_way: Some(false),
        fail_command: Some("from-config".to_owned()),
        colors: Colors {
            init_color: Some(0x11_2233),
            input_color: Some(0x44_5566),
            fail_color: Some(0x77_8899),
        },
    };
    let arguments = Arguments {
        init_color: Some(0xff00_0001),
        input_color: None,
        fail_color: Some(0xff00_0003),
        config: Some("/etc/lock.toml".to_owned()),
        one_way: true,
        fail_command: Some("from-args".to_owned()),
        verbosity: 2,
    };
    let options = Options::new(&arguments, Some(&config));
    assert!(options.one_way);
    assert_eq!(options.fail_command.as_deref(), Some("from-args"));
    assert_eq!(options.init_color, 0xff00_0001);
    assert_eq!(options.input_color, 0xff44_5566);
    assert_eq!(options.fail_color, 0xff00_0003);
    let options = Options::new(&arguments, None);
    assert_eq!(options.input_color, 0xff00_00ff);
    assert_eq!(options.fail_command.as_deref(), Some("from-args"));
}

#[test]
fn config_colours_are_made_opaque() {
    assert_eq!(opaque(0x12_3456), 0xff12_3456);
    assert_eq!(opaque(0), 0xff00_0000);
    assert_eq!(opaque(0x0012_3456), 0xff12_3456);
    assert_eq!(opaque(0x7f12_3456), 0xff12_3456);
    assert_eq!(opaque(0xffff_ffff), 0xffff_ffff);
    assert_eq!(pick_color(Some(0x0000_0001), Some(2), 3), 1);
    assert_eq!(pick_color(None, Some(2), 3), 0xff00_0002);
    assert_eq!(pick_color(None, None, 3), 3);
}

#[test]
fn verbosity_sets_the_level() {
    let level = |verbosity| Arguments { verbosity, ..arguments() }.level_filter();
    assert_eq!(level(0), LevelFilter::Error);
    assert_eq!(level(1), LevelFilter::Warn);
    assert_eq!(level(2), LevelFilter::Info);
    assert_eq!(level(3), LevelFilter::Debug);
    assert_eq!(level(4), LevelFilter::Trace);
    assert_eq!(level(u64::MAX), LevelFilter::Trace);
}

#[test]
fn logger_writes_what_is_grave_enough() {
    let logger = Logger::new(LevelFilter::Warn);
    assert_eq!(logger.level_filter(), LevelFilter::Warn);
    assert!(logger.enabled(Level::Error));
    assert!(logger.enabled(Level::Warn));
    assert!(!logger.enabled(Level::Info));
    assert!(!logger.enabled(Level::Debug));
    assert!(!logger.enabled(Level::Trace));
    let silent = Logger::new(LevelFilter::Off);
    assert!(!silent.enabled(Level::Error));
    let all = Logger::new(LevelFilter::Trace);
    assert!(all.enabled(Level::Trace));
    assert_eq!(Level::Error.number(), 1);
    assert_eq!(Level::Trace.number(), 5);
    assert_eq!(LevelFilter::Off.number(), 0);
    assert_eq!(LevelFilter::Error.number(), 1);
    assert_eq!(LevelFilter::Trace.number(), 5);
}

#[test]
fn logger_init_hands_back_logger_and_level() {
    let (logger, max_level) = Logger::init(LevelFilter::Debug);
    assert_eq!(logger, Logger::new(LevelFilter::Debug));
    assert_eq!(max_level, LevelFilter::Debug);
}

#[test]
fn level_names() {
    assert_eq!(Level::Error.text(), "ERROR");
    assert_eq!(Level::Warn.text(), "WARNING");
    assert_eq!(Level::Info.text(), "INFO");
    assert_eq!(Level::Debug.text(), "DEBUG");
    assert_eq!(Level::Trace.text(), "TRACE");
}

#[test]
fn log_line_format() {
    assert_eq!(
        format_line("2018-02-14T00:28:07Z", Some("waylock::lock"), Level::Warn, "Authentication failure"),
        "[2018-02-14T00:28:07Z][waylock::lock] WARNING: Authentication failure"
    );
    assert_eq!(format_line("t", None, Level::Error, ""), "[t][<unknown>] ERROR: ");
}

#[test]
fn log_line_carries_the_timestamp() {
    let logger = Logger::new(LevelFilter::Info);
    assert_eq!(
        logger.log(1_518_568_087, Level::Info, Some("waylock"), "locked"),
        Some("[2018-02-14T00:28:07Z][waylock] INFO: locked".to_owned())
    );
    assert_eq!(
        logger.log(0, Level::Error, None, "early"),
        Some("[1970-01-01T00:00:00Z][<unknown>] ERROR: early".to_owned())
    );
    assert_eq!(
        logger.log(TIMESTAMP_END - 1, Level::Warn, None, "late"),
        Some("[9999-12-31T23:59:59Z][<unknown>] WARNING: late".to_owned())
    );
    assert_eq!(logger.log(1_518_568_087, Level::Debug, Some("waylock"), "quiet"), None);
}
