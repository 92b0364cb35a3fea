use arcanio::config::validation::probe::{probe_parent, probe_path};
use arcanio::config::validation::validators::{levenshtein_distance, suggest_closest_match};
use arcanio::config::{
    DirectoryPathValidator, FilePathValidator, FileRotationValidator, LogFormatValidator,
    LogLevelValidator, ParentProbe, PathFacts, PathStatus, ValidateField, WriteAccess,
};
use tempfile::tempdir;

#[test]
fn test_log_level_validator_valid() {
    let result = LogLevelValidator::validate_field(&"info".to_string(), "logging.level");
    assert!(result.is_ok());
}

#[test]
fn test_log_level_validator_invalid() {
    let result = LogLevelValidator::validate_field(&"invalid".to_string(), "logging.level");
    assert!(result.is_err());

    let errors = result.unwrap_err();
    assert_eq!(errors.len(), 1);
    assert!(errors.errors[0].message.contains("Invalid log level"));
}

#[test]
fn test_log_format_validator_valid() {
    let result = LogFormatValidator::validate_field(&"json".to_string(), "logging.format");
    assert!(result.is_ok());
}

#[test]
fn test_log_format_validator_invalid() {
    let result = LogFormatValidator::validate_field(&"xml".to_string(), "logging.format");
    assert!(result.is_err());
}

#[test]
fn test_file_rotation_validator_valid() {
    let result = FileRotationValidator::validate_field(&"daily".to_string(), "logging.file_rotation");
    assert!(result.is_ok());
}

#[test]
fn test_file_path_validator_empty() {
    let result = FilePathValidator::validate_field(&"".to_string(), "logging.file_path");
    assert!(result.is_err());
}

#[test]
fn test_file_path_validator_valid() {
    let dir = tempdir().unwrap();
    let file_path = dir.path().join("test.log");

    let result = FilePathValidator::validate_field(
        &file_path.to_string_lossy().to_string(),
        "logging.file_path",
    );
    assert!(result.is_ok());
}

#[test]
fn test_directory_path_validator_valid() {
    let dir = tempdir().unwrap();

    let result = DirectoryPathValidator::validate_field(
        &dir.path().to_string_lossy().to_string(),
        "logging.file_path",
    );
    assert!(result.is_ok());
}

#[test]
fn test_directory_path_validator_nonexistent() {
    let result =
        DirectoryPathValidator::validate_field(&"/nonexistent/path".to_string(), "logging.file_path");
    assert!(result.is_err());
}

#[test]
fn test_levenshtein_distance() {
    assert_eq!(levenshtein_distance("info", "info"), 0);
    assert_eq!(levenshtein_distance("info", "warn"), 4);
    assert_eq!(levenshtein_distance("debug", "trace"), 5);
}

#[test]
fn test_suggest_closest_match() {
    let options = &["info", "debug", "warn", "error"];
    assert_eq!(suggest_closest_match("inf", options), "info");
    assert_eq!(suggest_closest_match("debg", options), "debug");
    assert_eq!(suggest_closest_match("warning", options), "warn");
}

#[test]
fn distance_to_and_from_the_empty_string_is_the_length() {
    assert_eq!(levenshtein_distance("", ""), 0);
    assert_eq!(levenshtein_distance("", "abc"), 3);
    assert_eq!(levenshtein_distance("abcd", ""), 4);
}

#[test]
fn distance_counts_insertions_deletions_and_substitutions() {
    assert_eq!(levenshtein_distance("kitten", "sitting"), 3);
    assert_eq!(levenshtein_distance("flaw", "lawn"), 2);
    assert_eq!(levenshtein_distance("inf", "info"), 1);
    assert_eq!(levenshtein_distance("xml", "json"), 4);
    assert_eq!(levenshtein_distance("xml", "compact"), 6);
    assert_eq!(levenshtein_distance("xml", "pretty"), 6);
}

#[test]
fn distance_counts_characters_not_bytes() {
    assert_eq!(levenshtein_distance("é", "e"), 1);
    assert_eq!(levenshtein_distance("naïve", "naive"), 1);
}

#[test]
fn suggestion_for_an_unknown_format_is_json() {
    let formats = &["compact", "pretty", "json"];
    assert_eq!(suggest_closest_match("xml", formats), "json");
}

#[test]
fn suggestion_prefers_the_first_of_equally_near_options() {
    let options = &["abc", "abd", "abe"];
    assert_eq!(suggest_closest_match("abx", options), "abc");
    assert_eq!(suggest_closest_match("", &["bb", "aa", "c"]), "c");
    assert_eq!(suggest_closest_match("zz", &["only"]), "only");
}

#[test]
fn invalid_log_level_is_explained_and_the_nearest_level_suggested() {
    let errors =
        LogLevelValidator::validate_field(&"inf".to_string(), "logging.console.level").unwrap_err();

    assert_eq!(errors.len(), 1);
    let error = &errors.errors[0];
    assert_eq!(error.field_path, "logging.console.level");
    assert_eq!(error.current_value, "inf");
    assert_eq!(error.message, "Invalid log level");
    assert_eq!(
        error.context,
        vec!["Valid log levels are: off, error, warn, info, debug, trace".to_string()]
    );
    assert_eq!(error.suggestions, vec!["Try using 'info' instead".to_string()]);
}

#[test]
fn invalid_log_format_is_explained_and_the_nearest_format_suggested() {
    let errors =
        LogFormatValidator::validate_field(&"xml".to_string(), "logging.console.format").unwrap_err();

    assert_eq!(errors.len(), 1);
    let error = &errors.errors[0];
    assert_eq!(error.message, "Invalid log format");
    assert_eq!(error.context, vec!["Valid log formats are: compact, pretty, json".to_string()]);
    assert_eq!(error.suggestions, vec!["Try using 'json' instead".to_string()]);
}

#[test]
fn invalid_rotation_is_explained_and_the_nearest_policy_suggested() {
    let errors = FileRotationValidator::validate_field(&"never-ever".to_string(), "logging.file.rotation")
        .unwrap_err();

    assert_eq!(errors.len(), 1);
    let error = &errors.errors[0];
    assert_eq!(error.message, "Invalid file rotation setting");
    assert_eq!(
        error.context,
        vec!["Valid rotation settings are: daily, hourly, size-based, never".to_string()]
    );
    assert_eq!(error.suggestions, vec!["Try using 'never' instead".to_string()]);
}

#[test]
fn every_allowed_value_is_accepted_and_case_matters() {
    for level in ["off", "error", "warn", "info", "debug", "trace"] {
        assert!(LogLevelValidator::validate_field(&level.to_string(), "f").is_ok());
    }
    for format in ["compact", "pretty", "json"] {
        assert!(LogFormatValidator::validate_field(&format.to_string(), "f").is_ok());
    }
    for rotation in ["daily", "hourly", "size-based", "never"] {
        assert!(FileRotationValidator::validate_field(&rotation.to_string(), "f").is_ok());
    }
    assert!(LogLevelValidator::validate_field(&"INFO".to_string(), "f").is_err());
    assert!(LogLevelValidator::validate_field(&"".to_string(), "f").is_err());
}

fn status(exists: bool, is_dir: bool, access: WriteAccess) -> PathStatus {
    PathStatus { exists, is_dir, access }
}

fn parent(path: &str, exists: bool, access: WriteAccess) -> Option<ParentProbe> {
    Some(ParentProbe { path: path.to_string(), status: status(exists, true, access) })
}

#[test]
fn empty_file_path_is_rejected_whatever_the_disk_says() {
    let errors = FilePathValidator::check("", "logging.file.path", &parent("/", true, WriteAccess::Writable))
        .unwrap_err();

    assert_eq!(errors.len(), 1);
    assert_eq!(errors.errors[0].field_path, "logging.file.path");
    assert_eq!(errors.errors[0].current_value, "");
    assert_eq!(errors.errors[0].message, "File path cannot be empty");
    assert!(errors.errors[0].context.is_empty());
    assert_eq!(errors.errors[0].suggestions, vec!["Provide a valid file path".to_string()]);
}

#[test]
fn file_path_without_parent_passes() {
    assert!(FilePathValidator::check("/", "logging.file.path", &None).is_ok());
}

#[test]
fn file_path_with_missing_parent_is_rejected() {
    let errors = FilePathValidator::check(
        "/missing/app.log",
        "logging.file.path",
        &parent("/missing", false, WriteAccess::Writable),
    )
    .unwrap_err();

    assert_eq!(errors.len(), 1);
    assert_eq!(errors.errors[0].current_value, "/missing/app.log");
    assert_eq!(errors.errors[0].message, "Parent directory does not exist");
    assert_eq!(errors.errors[0].context, vec!["Parent directory: /missing".to_string()]);
    assert_eq!(
        errors.errors[0].suggestions,
        vec!["Create the parent directory first or use a different path".to_string()]
    );
}

#[test]
fn file_path_with_read_only_parent_is_rejected() {
    let errors = FilePathValidator::check(
        "/ro/app.log",
        "logging.file.path",
        &parent("/ro", true, WriteAccess::ReadOnly),
    )
    .unwrap_err();

    assert_eq!(errors.len(), 1);
    assert_eq!(errors.errors[0].message, "Cannot write to parent directory");
    assert_eq!(errors.errors[0].context, vec!["Error: Directory is readonly".to_string()]);
    assert_eq!(
        errors.errors[0].suggestions,
        vec!["Choose a writable directory or fix permissions".to_string()]
    );
}

#[test]
fn file_path_with_unreadable_parent_reports_the_reason() {
    let errors = FilePathValidator::check(
        "/locked/app.log",
        "logging.file.path",
        &parent("/locked", true, WriteAccess::Unknown("permission denied".to_string())),
    )
    .unwrap_err();

    assert_eq!(errors.errors[0].message, "Cannot write to parent directory");
    assert_eq!(errors.errors[0].context, vec!["Error: permission denied".to_string()]);
}

#[test]
fn file_path_with_writable_parent_passes() {
    let result =
        FilePathValidator::check("/var/log/app.log", "f", &parent("/var/log", true, WriteAccess::Writable));
    assert!(result.is_ok());
}

#[test]
fn directory_path_is_checked_in_order() {
    let empty = DirectoryPathValidator::check("", "d", &status(true, true, WriteAccess::Writable))
        .unwrap_err();
    assert_eq!(empty.errors[0].message, "Directory path cannot be empty");
    assert_eq!(empty.errors[0].suggestions, vec!["Provide a valid directory path".to_string()]);

    let missing = DirectoryPathValidator::check("/x", "d", &status(false, false, WriteAccess::ReadOnly))
        .unwrap_err();
    assert_eq!(missing.len(), 1);
    assert_eq!(missing.errors[0].message, "Directory does not exist");
    assert_eq!(
        missing.errors[0].suggestions,
        vec!["Create the directory first or use a different path".to_string()]
    );

    let file = DirectoryPathValidator::check("/x", "d", &status(true, false, WriteAccess::ReadOnly))
        .unwrap_err();
    assert_eq!(file.len(), 1);
    assert_eq!(file.errors[0].message, "Path is not a directory");
    assert_eq!(
        file.errors[0].suggestions,
        vec!["Provide a path to a directory, not a file".to_string()]
    );

    let read_only = DirectoryPathValidator::check("/x", "d", &status(true, true, WriteAccess::ReadOnly))
        .unwrap_err();
    assert_eq!(read_only.errors[0].message, "Directory is not writable");
    assert_eq!(read_only.errors[0].context, vec!["Error: Directory is readonly".to_string()]);
    assert_eq!(
        read_only.errors[0].suggestions,
        vec!["Fix directory permissions or choose a different directory".to_string()]
    );

    assert!(DirectoryPathValidator::check("/x", "d", &status(true, true, WriteAccess::Writable)).is_ok());
}

#[test]
fn empty_directory_path_is_rejected() {
    let errors = DirectoryPathValidator::validate_field(&"".to_string(), "logging.dir").unwrap_err();
    assert_eq!(errors.len(), 1);
    assert_eq!(errors.errors[0].field_path, "logging.dir");
    assert_eq!(errors.errors[0].message, "Directory path cannot be empty");
}

#[test]
fn missing_directory_is_reported_as_missing() {
    let errors =
        DirectoryPathValidator::validate_field(&"/nonexistent/path".to_string(), "logging.dir")
            .unwrap_err();
    assert_eq!(errors.len(), 1);
    assert_eq!(errors.errors[0].message, "Directory does not exist");
}

#[test]
fn file_below_a_missing_directory_is_reported() {
    let errors =
        FilePathValidator::validate_field(&"/nonexistent/path/app.log".to_string(), "logging.file.path")
            .unwrap_err();
    assert_eq!(errors.len(), 1);
    assert_eq!(errors.errors[0].message, "Parent directory does not exist");
    assert_eq!(errors.errors[0].context, vec!["Parent directory: /nonexistent/path".to_string()]);
}

#[test]
fn probe_reports_what_is_on_disk() {
    let dir = tempdir().unwrap();
    let path = dir.path().to_string_lossy().to_string();

    let here = probe_path(&path);
    assert!(here.exists);
    assert!(here.is_dir);
    assert!(matches!(here.access, WriteAccess::Writable));

    let gone = probe_path("/nonexistent/path");
    assert!(!gone.exists);
    assert!(!gone.is_dir);
    assert!(matches!(gone.access, WriteAccess::Unknown(_)));

    let file = dir.path().join("test.log").to_string_lossy().to_string();
    let parent = probe_parent(&file).unwrap();
    assert_eq!(parent.path, path);
    assert!(parent.status.exists);
    assert!(parent.status.is_dir);

    assert!(probe_parent("/").is_none());
    assert!(probe_parent("").is_none());
}

#[test]
fn a_file_is_no_directory() {
    let file = tempfile::NamedTempFile::new().unwrap();
    let path = file.path().to_string_lossy().to_string();

    let errors = DirectoryPathValidator::validate_field(&path, "logging.dir").unwrap_err();
    assert_eq!(errors.len(), 1);
    assert_eq!(errors.errors[0].message, "Path is not a directory");
}

#[test]
fn status_follows_the_metadata() {
    let directory = PathStatus::of_lookup(Ok(PathFacts { is_dir: true, readonly: false }));
    assert!(directory.exists);
    assert!(directory.is_dir);
    assert!(matches!(directory.access, WriteAccess::Writable));

    let file = PathStatus::of_lookup(Ok(PathFacts { is_dir: false, readonly: true }));
    assert!(file.exists);
    assert!(!file.is_dir);
    assert!(matches!(file.access, WriteAccess::ReadOnly));

    let missing = PathStatus::of_lookup(Err("No such file or directory".to_string()));
    assert!(!missing.exists);
    assert!(!missing.is_dir);
    assert!(matches!(missing.access, WriteAccess::Unknown(reason) if reason == "No such file or directory"));
}

#[test]
fn parent_of_a_relative_name_is_the_empty_path() {
    let parent = probe_parent("arcanio.log").unwrap();
    assert_eq!(parent.path, "");
    assert!(!parent.status.exists);
    assert!(!parent.status.is_dir);
    assert!(matches!(parent.status.access, WriteAccess::Unknown(_)));
}
