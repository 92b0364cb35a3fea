use arcanio::config::{
    log_level_priority, validate_logging_consistency, AppConfig, ParentProbe, PathStatus, Validate,
    WriteAccess,
};
use tempfile::tempdir;

fn writable_parent(path: &str) -> Option<ParentProbe> {
    Some(ParentProbe {
        path: path.to_string(),
        status: PathStatus { exists: true, is_dir: true, access: WriteAccess::Writable },
    })
}

#[test]
fn test_valid_app_config() {
    let config = AppConfig::default();
    let result = config.validate();
    assert!(result.is_ok());
}

#[test]
fn test_invalid_log_level() {
    let mut config = AppConfig::default();
    config.logging.console.level = "invalid".to_string();
    config.logging.file.enabled = false; // Disable file logging to avoid consistency errors

    let result = config.validate();
    assert!(result.is_err());

    let errors = result.unwrap_err();
    assert_eq!(errors.len(), 1);
    assert!(errors.errors[0].field_path.contains("logging.console.level"));
}

#[test]
fn test_invalid_log_format() {
    let mut config = AppConfig::default();
    config.logging.console.format = "xml".to_string();
    config.logging.file.enabled = false; // Disable file logging to avoid consistency errors

    let result = config.validate();
    assert!(result.is_err());

    let errors = result.unwrap_err();
    assert_eq!(errors.len(), 1);
    assert!(errors.errors[0].field_path.contains("logging.console.format"));
}

#[test]
fn test_multiple_validation_errors() {
    let mut config = AppConfig::default();
    config.logging.console.level = "invalid".to_string();
    config.logging.console.format = "xml".to_string();
    config.logging.file.rotation = "never-ever".to_string();
    config.logging.file.enabled = true; // Enable file logging to trigger rotation validation

    // The log directory lies below a directory that exists, as the user's data directory does.
    let dir = tempdir().unwrap();
    config.logging.file.path = dir.path().join("arcanio").to_string_lossy().to_string();

    let result = config.validate();
    assert!(result.is_err());

    let errors = result.unwrap_err();
    assert_eq!(errors.len(), 3);
}

#[test]
fn test_file_logging_consistency() {
    let mut config = AppConfig::default();
    config.logging.file.enabled = true;
    config.logging.file.path = "".to_string(); // Empty path should cause error

    let result = config.validate();
    assert!(result.is_err());

    let errors = result.unwrap_err();
    let file_path_errors = errors.errors_for_field("logging.file.path");
    assert!(!file_path_errors.is_empty());
}

#[test]
fn test_valid_file_logging_config() {
    let dir = tempdir().unwrap();
    let file_path = dir.path().join("test.log");

    let mut config = AppConfig::default();
    config.logging.console.level = "info".to_string(); // Enable console logging
    config.logging.file.enabled = true;
    config.logging.file.path = file_path.to_string_lossy().to_string();
    config.logging.file.level = "info".to_string();

    let result = config.validate();
    assert!(result.is_ok());
}

#[test]
fn test_log_level_priority() {
    assert_eq!(log_level_priority("off"), 0);
    assert_eq!(log_level_priority("error"), 1);
    assert_eq!(log_level_priority("warn"), 2);
    assert_eq!(log_level_priority("info"), 3);
    assert_eq!(log_level_priority("debug"), 4);
    assert_eq!(log_level_priority("trace"), 5);
    assert_eq!(log_level_priority("invalid"), 0);
}

#[test]
fn test_console_vs_file_logging_is_allowed() {
    let mut config = AppConfig::default();
    config.logging.console.level = "off".to_string();
    config.logging.file.enabled = true;
    config.logging.file.level = "info".to_string();

    let result = validate_logging_consistency(&config.logging);
    // This configuration should now be valid - console off, file logging enabled
    assert!(result.is_ok());
}

#[test]
fn defaults_are_valid_whatever_the_disk_says() {
    let config = AppConfig::default();
    assert!(config.validate_with(&None).is_ok());
    assert!(config
        .validate_with(&Some(ParentProbe {
            path: "/nowhere".to_string(),
            status: PathStatus { exists: false, is_dir: false, access: WriteAccess::ReadOnly },
        }))
        .is_ok());
}

#[test]
fn disabled_file_sink_with_empty_path_is_valid() {
    let mut config = AppConfig::default();
    config.logging.file.enabled = false;
    config.logging.file.path = "".to_string();

    assert!(config.validate().is_ok());
    assert!(config.logging.validate().is_ok());
    assert!(config.logging.file.validate().is_ok());
    assert!(validate_logging_consistency(&config.logging).is_ok());
}

#[test]
fn disabled_file_sink_is_never_reported() {
    let mut config = AppConfig::default();
    config.logging.file.enabled = false;
    config.logging.file.path = "".to_string();
    config.logging.file.level = "loud".to_string();
    config.logging.file.rotation = "sometimes".to_string();

    assert!(config.validate().is_ok());
}

#[test]
fn enabled_file_sink_with_empty_path_is_reported_at_the_path() {
    let mut config = AppConfig::default();
    config.logging.file.enabled = true;
    config.logging.file.path = "".to_string();

    let errors = config.validate().unwrap_err();

    assert_eq!(errors.len(), 1);
    let at_path = errors.errors_for_field("logging.file.path");
    assert_eq!(at_path.len(), 1);
    assert!(at_path[0].field_path.ends_with("path"));
    assert_eq!(at_path[0].current_value, "");
    assert_eq!(at_path[0].message, "File path cannot be empty when file logging is enabled");
    assert_eq!(
        at_path[0].suggestions,
        vec!["Provide a valid file path or disable file logging".to_string()]
    );
}

#[test]
fn missing_path_is_left_to_the_rule_across_both_sinks() {
    let mut config = AppConfig::default();
    config.logging.file.enabled = true;
    config.logging.file.path = "".to_string();
    config.logging.file.rotation = "weekly".to_string();

    let of_the_sink = config.logging.file.validate().unwrap_err();
    assert_eq!(of_the_sink.len(), 1);
    assert_eq!(of_the_sink.errors[0].field_path, "logging.file.rotation");

    let of_the_section = config.logging.validate().unwrap_err();
    assert_eq!(of_the_section.len(), 2);
    assert_eq!(of_the_section.errors[0].field_path, "logging.file.rotation");
    assert_eq!(of_the_section.errors[1].field_path, "logging.file.path");

    config.logging.file.rotation = "daily".to_string();
    assert!(config.logging.file.validate().is_ok());
}

#[test]
fn consistency_rule_alone_reports_once() {
    let mut config = AppConfig::default();
    config.logging.file.enabled = true;
    config.logging.file.path = "".to_string();

    let errors = validate_logging_consistency(&config.logging).unwrap_err();

    assert_eq!(errors.len(), 1);
    assert_eq!(errors.errors[0].field_path, "logging.file.path");
    assert_eq!(errors.errors[0].current_value, "");
}

#[test]
fn every_violation_of_both_sections_is_reported_in_order() {
    let mut config = AppConfig::default();
    config.logging.console.level = "loud".to_string();
    config.logging.console.format = "xml".to_string();
    config.logging.file.enabled = true;
    config.logging.file.level = "quiet".to_string();
    config.logging.file.path = "/var/log/arcanio".to_string();
    config.logging.file.rotation = "weekly".to_string();

    let errors = config.validate_with(&writable_parent("/var/log")).unwrap_err();

    assert_eq!(errors.len(), 4);
    assert_eq!(errors.errors[0].field_path, "logging.console.level");
    assert_eq!(errors.errors[1].field_path, "logging.console.format");
    assert_eq!(errors.errors[2].field_path, "logging.file.level");
    assert_eq!(errors.errors[3].field_path, "logging.file.rotation");
}

#[test]
fn path_violation_sits_between_level_and_rotation() {
    let mut config = AppConfig::default();
    config.logging.file.enabled = true;
    config.logging.file.level = "quiet".to_string();
    config.logging.file.path = "/missing/arcanio".to_string();
    config.logging.file.rotation = "weekly".to_string();

    let missing = Some(ParentProbe {
        path: "/missing".to_string(),
        status: PathStatus { exists: false, is_dir: false, access: WriteAccess::Writable },
    });
    let errors = config.logging.file.validate_with(&missing).unwrap_err();

    assert_eq!(errors.len(), 3);
    assert_eq!(errors.errors[0].field_path, "logging.file.level");
    assert_eq!(errors.errors[1].field_path, "logging.file.path");
    assert_eq!(errors.errors[1].message, "Parent directory does not exist");
    assert_eq!(errors.errors[2].field_path, "logging.file.rotation");
}

#[test]
fn console_section_reports_both_fields() {
    let mut config = AppConfig::default();
    config.logging.console.level = "loud".to_string();
    config.logging.console.format = "xml".to_string();

    let errors = config.logging.console.validate().unwrap_err();

    assert_eq!(errors.len(), 2);
    assert_eq!(errors.errors[0].field_path, "logging.console.level");
    assert_eq!(errors.errors[1].field_path, "logging.console.format");
}

#[test]
fn file_sink_below_a_missing_directory_is_invalid() {
    let mut config = AppConfig::default();
    config.logging.file.enabled = true;
    config.logging.file.path = "/nonexistent/path/logs".to_string();

    let errors = config.validate().unwrap_err();

    assert_eq!(errors.len(), 1);
    assert_eq!(errors.errors[0].field_path, "logging.file.path");
    assert_eq!(errors.errors[0].message, "Parent directory does not exist");
}

#[test]
fn priority_is_case_sensitive() {
    assert_eq!(log_level_priority("TRACE"), 0);
    assert_eq!(log_level_priority(""), 0);
}
