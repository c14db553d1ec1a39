use twelve_factor::logging::{logging_plan, MEGA_BYTE};
use twelve_factor::{LoggingConfig, StartupError};

fn base_config() -> LoggingConfig {
    LoggingConfig {
        root_level: "warn".to_string(),
        log_to_file: false,
        directory: None,
        rotate_size_mb: None,
        num_keep_files: None,
        loggers: None,
    }
}

#[test]
fn file_logging_without_directory_is_fatal() {
    let mut config = base_config();
    config.log_to_file = true;
    assert_eq!(logging_plan(&config), Err(StartupError::MissingLogDirectory));
}

#[test]
fn file_logging_with_directory_succeeds() {
    let mut config = base_config();
    config.log_to_file = true;
    config.directory = Some("/var/log/app".to_string());
    config.rotate_size_mb = Some(2);
    config.num_keep_files = Some(7);
    let plan = logging_plan(&config).unwrap();
    let file = plan.file.unwrap();
    assert_eq!(file.directory, "/var/log/app".to_string());
    assert_eq!(file.rotate_bytes, 2 * MEGA_BYTE);
    assert_eq!(file.keep_files, 7);
}

#[test]
fn file_logging_defaults_rotate_and_keep() {
    let mut config = base_config();
    config.log_to_file = true;
    config.directory = Some("/tmp/logs".to_string());
    let plan = logging_plan(&config).unwrap();
    let file = plan.file.unwrap();
    assert_eq!(file.rotate_bytes, MEGA_BYTE);
    assert_eq!(file.keep_files, 5);
}

#[test]
fn console_logging_has_no_file_plan() {
    let config = base_config();
    let plan = logging_plan(&config).unwrap();
    assert!(plan.file.is_none());
    assert_eq!(plan.levels, "warn".to_string());
}

#[test]
fn level_line_lists_overrides_in_order() {
    let mut config = base_config();
    config.root_level = "info".to_string();
    config.loggers = Some(vec![
        ("db".to_string(), "debug".to_string()),
        ("http".to_string(), "trace".to_string()),
    ]);
    let plan = logging_plan(&config).unwrap();
    assert_eq!(plan.levels, "info, db=debug, http=trace".to_string());
}
