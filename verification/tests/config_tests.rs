use common_x::log::{init_log, init_log_file, init_log_filter, LogConfig, LogSink};
use common_x::mailer::MailerConfig;

/// The default log configuration: `info` to stdout, with colours.
#[test]
fn default_log_config_plan() {
    let plan = init_log(LogConfig::default());
    assert_eq!(plan.filter, "info");
    assert!(matches!(plan.sink, LogSink::Stdout));
    assert!(plan.ansi);
}

/// A bare filter keeps stdout as the destination.
#[test]
fn filter_only_plan() {
    let plan = init_log_filter("debug,hyper=warn");
    assert_eq!(plan.filter, "debug,hyper=warn");
    assert!(matches!(plan.sink, LogSink::Stdout));
    assert!(plan.ansi);
}

/// A rolling-file request carries directory and prefix through, uncoloured.
#[test]
fn rolling_file_plan() {
    let plan = init_log_file("info", "/var/log/app", "server");
    assert_eq!(plan.filter, "info");
    match plan.sink {
        LogSink::DailyFile { directory, prefix } => {
            assert_eq!(directory, "/var/log/app");
            assert_eq!(prefix, "server");
        }
        LogSink::Stdout => panic!("expected a file sink"),
    }
    assert!(!plan.ansi);
}

/// An explicit configuration is planned as written.
#[test]
fn explicit_config_plan() {
    let config = LogConfig::new(
        "trace".to_owned(),
        Some(("./logs".to_owned(), "audit".to_owned())),
    );
    let plan = init_log(config);
    assert_eq!(plan.filter, "trace");
    match plan.sink {
        LogSink::DailyFile { directory, prefix } => {
            assert_eq!(directory, "./logs");
            assert_eq!(prefix, "audit");
        }
        LogSink::Stdout => panic!("expected a file sink"),
    }
    assert!(!plan.ansi);
}

/// The default mail configuration.
#[test]
fn default_mailer_config() {
    let config = MailerConfig::default();
    assert_eq!(config.username, "");
    assert_eq!(config.password, "");
    assert_eq!(config.relay, "");
    assert_eq!(config.port, 465);
    assert!(!config.tls);
    assert_eq!(config.timeout, 5000);
}
