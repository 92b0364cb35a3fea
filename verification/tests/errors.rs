use arcanio::config::{ValidationContext, ValidationError, ValidationErrors};
use arcanio::Error;

#[test]
fn test_validation_error_creation() {
    let error = ValidationError::new("logging.level", "invalid", "Invalid log level")
        .with_context("Must be one of: off, error, warn, info, debug, trace")
        .with_suggestion("Try using 'info' instead");

    assert_eq!(error.field_path, "logging.level");
    assert_eq!(error.current_value, "invalid");
    assert_eq!(error.message, "Invalid log level");
    assert_eq!(error.context.len(), 1);
    assert_eq!(error.suggestions.len(), 1);
}

#[test]
fn test_validation_errors_collection() {
    let error1 = ValidationError::new("field1", "value1", "error1");
    let error2 = ValidationError::new("field2", "value2", "error2");

    let mut errors = ValidationErrors::new(vec![error1]);
    errors.push(error2);

    assert_eq!(errors.len(), 2);
    assert!(!errors.is_empty());
}

#[test]
fn test_validation_errors_display() {
    let error = ValidationError::new("logging.level", "invalid", "Invalid log level")
        .with_suggestion("Try using 'info' instead");

    let errors = ValidationErrors::single(error);
    let display = errors.render();

    assert!(display.contains("Configuration validation failed"));
    assert!(display.contains("logging.level"));
    assert!(display.contains("Invalid log level"));
    assert!(display.contains("Try using 'info' instead"));
}

#[test]
fn test_errors_for_field() {
    let error1 = ValidationError::new("logging.level", "invalid", "error1");
    let error2 = ValidationError::new("logging.format", "invalid", "error2");
    let error3 = ValidationError::new("logging.level", "another", "error3");

    let errors = ValidationErrors::new(vec![error1, error2, error3]);
    let level_errors = errors.errors_for_field("logging.level");

    assert_eq!(level_errors.len(), 2);
    assert_eq!(level_errors[0].message, "error1");
    assert_eq!(level_errors[1].message, "error3");
}

#[test]
fn test_validation_context() {
    let context = ValidationContext::new("logging.level", "invalid")
        .with_context("Log level must be one of: off, error, warn, info, debug, trace");

    assert_eq!(context.field_path, "logging.level");
    assert_eq!(context.current_value, "invalid");
    assert_eq!(context.context.len(), 1);
}

#[test]
fn error_from_context_takes_field_value_and_lines() {
    let context = ValidationContext::new("logging.level", "invalid")
        .with_context("first line")
        .with_context("second line");
    let error = ValidationError::from_context(context, "Invalid log level");

    assert_eq!(error.field_path, "logging.level");
    assert_eq!(error.current_value, "invalid");
    assert_eq!(error.message, "Invalid log level");
    assert_eq!(error.context, vec!["first line".to_string(), "second line".to_string()]);
    assert!(error.suggestions.is_empty());
}

#[test]
fn error_renders_value_context_and_suggestions() {
    let error = ValidationError::new("logging.level", "invalid", "Invalid log level")
        .with_context("Must be one of: off, error")
        .with_context("See the manual")
        .with_suggestion("Try using 'info' instead")
        .with_suggestion("Or remove the setting");

    assert_eq!(
        error.render(),
        "Validation error in field 'logging.level': Invalid log level (current value: 'invalid')\
         \n  Context: Must be one of: off, error\
         \n  Context: See the manual\
         \n  Suggestions:\
         \n    - Try using 'info' instead\
         \n    - Or remove the setting"
    );
}

#[test]
fn error_without_value_renders_no_value() {
    let error = ValidationError::new("logging.file.path", "", "File path cannot be empty");

    assert_eq!(
        error.render(),
        "Validation error in field 'logging.file.path': File path cannot be empty"
    );
}

#[test]
fn report_renders_every_error_below_a_heading() {
    let errors = ValidationErrors::new(vec![
        ValidationError::new("a", "1", "first"),
        ValidationError::new("b", "", "second").with_suggestion("fix it"),
    ]);

    assert_eq!(
        errors.render(),
        "Configuration validation failed with 2 error(s):\n\
         Validation error in field 'a': first (current value: '1')\n\
         Validation error in field 'b': second\n  Suggestions:\n    - fix it"
    );
}

#[test]
fn empty_report_renders_as_no_errors() {
    let errors = ValidationErrors::new(Vec::new());

    assert!(errors.is_empty());
    assert_eq!(errors.len(), 0);
    assert_eq!(errors.render(), "No validation errors");
    assert_eq!(errors.summary(), "No validation errors");
}

#[test]
fn summary_lists_field_and_message() {
    let errors = ValidationErrors::new(vec![
        ValidationError::new("logging.level", "x", "Invalid log level"),
        ValidationError::new("logging.format", "y", "Invalid log format"),
    ]);

    assert_eq!(
        errors.summary(),
        "Found 2 validation error(s):\n  - logging.level: Invalid log level\n  - logging.format: Invalid log format"
    );
}

#[test]
fn counts_are_written_in_decimal() {
    let mut errors = ValidationErrors::new(Vec::new());
    for _ in 0..120 {
        errors.push(ValidationError::new("f", "v", "m"));
    }

    assert!(errors.summary().starts_with("Found 120 validation error(s):"));
    assert!(errors.render().starts_with("Configuration validation failed with 120 error(s):\n"));
}

#[test]
fn merge_appends_in_order() {
    let mut errors = ValidationErrors::single(ValidationError::new("a", "", "first"));
    let other = ValidationErrors::new(vec![
        ValidationError::new("b", "", "second"),
        ValidationError::new("c", "", "third"),
    ]);

    errors.merge(other);

    assert_eq!(errors.len(), 3);
    assert_eq!(errors.errors[0].field_path, "a");
    assert_eq!(errors.errors[1].field_path, "b");
    assert_eq!(errors.errors[2].field_path, "c");
}

#[test]
fn errors_for_an_unknown_field_are_none() {
    let errors = ValidationErrors::single(ValidationError::new("a", "", "first"));

    assert!(errors.errors_for_field("b").is_empty());
    assert!(errors.errors_for_field("").is_empty());
}

#[test]
fn exit_codes_are_distinct_and_stable() {
    let errors = vec![
        (Error::Eyre("x".to_string()), 1),
        (Error::IoError("x".to_string()), 2),
        (Error::InvalidConfig, 3),
        (Error::LoggingSetupError, 4),
        (Error::LibError("x".to_string()), 5),
        (Error::ConfigLoadError("x".to_string()), 6),
        (Error::ConfigParseError("x".to_string()), 7),
        (Error::ConfigValidationError("x".to_string()), 8),
        (Error::ConfigFileNotFoundError("x".to_string()), 9),
        (Error::ConfigSerializationError("x".to_string()), 10),
        (Error::ControlC, 130),
        (Error::PanicHandlerSetupError, 205),
    ];

    for (error, code) in &errors {
        assert_eq!(error.exit_code(), *code);
    }
    for (i, (_, a)) in errors.iter().enumerate() {
        for (j, (_, b)) in errors.iter().enumerate() {
            assert_eq!(i == j, a == b);
        }
    }
}

#[test]
fn detail_is_the_text_of_the_failure() {
    assert_eq!(Error::ConfigParseError("bad file".to_string()).detail(), "bad file");
    assert_eq!(Error::ConfigFileNotFoundError("/x".to_string()).detail(), "/x");
    assert_eq!(Error::ControlC.detail(), "");
}
