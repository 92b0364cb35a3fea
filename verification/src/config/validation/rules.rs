//! The rules of the configuration tree: every section checks its own
//! fields, the logging section adds the rules that span both sinks, and all
//! violations are reported together.

use vstd::prelude::*;
use crate::config::defaults::{
    default_config, default_console, default_file, AppConfig, AppConfigView, ConsoleLoggingConfig,
    ConsoleLoggingView, FileLoggingConfig, FileLoggingView, LoggingConfig, LoggingView,
};
use crate::config::validation::errors::{error_views, ValidationError, ValidationErrorView};
use crate::config::validation::probe::{
    parent_looked_up, parent_view, probe_parent, ParentProbe, ParentProbeView,
};
use crate::config::validation::validators::{
    file_path_report, file_rotation_report, log_format_report, log_level_report, suggested_error,
    FilePathValidator, FileRotationValidator, LogFormatValidator, LogLevelValidator,
};
use crate::config::validation::{
    collect, finish, matches_report, Validate, ValidateField, ValidationResult,
};
use crate::text::text_eq;

verus! {

/// What the console sink's validation reports: its level, then its format.
pub open spec fn console_report(console: ConsoleLoggingView) -> Seq<ValidationErrorView> {
    log_level_report(console.level, "logging.console.level"@) + log_format_report(
        console.format,
        "logging.console.format"@,
    )
}

/// What the path of an enabled file sink reports, given what the file
/// system says about its parent. A missing path is no finding of the sink
/// itself: the rule that an enabled sink needs a path spans both sinks and
/// reports it once.
pub open spec fn sink_path_report(path: Seq<char>, parent: Option<ParentProbeView>) -> Seq<
    ValidationErrorView,
> {
    if path.len() > 0 {
        file_path_report(path, "logging.file.path"@, parent)
    } else {
        Seq::empty()
    }
}

/// What the file sink's validation reports, given what the file system
/// says about the parent of its path: nothing while the sink is disabled;
/// otherwise its level, its path and its rotation, in that order.
pub open spec fn file_report(file: FileLoggingView, parent: Option<ParentProbeView>) -> Seq<
    ValidationErrorView,
> {
    if file.enabled {
        log_level_report(file.level, "logging.file.level"@) + sink_path_report(file.path, parent)
            + file_rotation_report(file.rotation, "logging.file.rotation"@)
    } else {
        Seq::empty()
    }
}

/// What the rules across both sinks report: an enabled file sink must
/// have a path.
pub open spec fn consistency_report(logging: LoggingView) -> Seq<ValidationErrorView> {
    if logging.file.enabled && logging.file.path.len() == 0 {
        seq![
            suggested_error(
                "logging.file.path"@,
                logging.file.path,
                "File path cannot be empty when file logging is enabled"@,
                "Provide a valid file path or disable file logging"@,
            ),
        ]
    } else {
        Seq::empty()
    }
}

/// What the logging section's validation reports: the console sink, the
/// file sink, then the rules across both.
pub open spec fn logging_report(logging: LoggingView, parent: Option<ParentProbeView>) -> Seq<
    ValidationErrorView,
> {
    console_report(logging.console) + file_report(logging.file, parent) + consistency_report(
        logging,
    )
}

/// What the validation of a whole configuration reports.
pub open spec fn config_report(config: AppConfigView, parent: Option<ParentProbeView>) -> Seq<
    ValidationErrorView,
> {
    logging_report(config.logging, parent)
}

/// Whether `result` is what validating the file sink returns for some
/// answer of the file system.
pub open spec fn file_outcome(
    result: ValidationResult<()>,
    file: FileLoggingView,
    parent: Option<ParentProbeView>,
) -> bool {
    matches_report(result, file_report(file, parent))
}

/// Whether `result` is what validating the logging section returns for
/// some answer of the file system.
pub open spec fn logging_outcome(
    result: ValidationResult<()>,
    logging: LoggingView,
    parent: Option<ParentProbeView>,
) -> bool {
    matches_report(result, logging_report(logging, parent))
}

/// Whether `result` is what validating the configuration returns for some
/// answer of the file system.
pub open spec fn config_outcome(
    result: ValidationResult<()>,
    config: AppConfigView,
    parent: Option<ParentProbeView>,
) -> bool {
    matches_report(result, config_report(config, parent))
}

/// One for a report that holds an error, zero for an empty one.
pub open spec fn violated(report: Seq<ValidationErrorView>) -> nat {
    if report.len() > 0 {
        1
    } else {
        0
    }
}

/// The number of rules that `config` violates, given what the file system
/// says about the parent of the file sink's path.
pub open spec fn violation_count(config: AppConfigView, parent: Option<ParentProbeView>) -> nat {
    let console = config.logging.console;
    let file = config.logging.file;
    violated(log_level_report(console.level, "logging.console.level"@)) + violated(
        log_format_report(console.format, "logging.console.format"@),
    ) + (if file.enabled {
        violated(log_level_report(file.level, "logging.file.level"@)) + violated(
            sink_path_report(file.path, parent),
        ) + violated(file_rotation_report(file.rotation, "logging.file.rotation"@))
    } else {
        0
    }) + violated(consistency_report(config.logging))
}

/// The report holds one error for every violated rule, in whichever
/// section it lies: nothing is dropped after the first.
pub proof fn lemma_report_counts_every_violation(
    config: AppConfigView,
    parent: Option<ParentProbeView>,
)
    ensures
        config_report(config, parent).len() == violation_count(config, parent),
{
}

/// The defaults violate no rule, wherever the platform puts the file
/// sink's directory and whatever the file system says about it.
pub proof fn lemma_defaults_are_valid(path: Seq<char>, parent: Option<ParentProbeView>)
    ensures
        config_report(default_config(path), parent) == Seq::<ValidationErrorView>::empty(),
{
}

/// An enabled file sink without a path, in a configuration that is
/// otherwise at its defaults, is reported exactly once, at the path.
pub proof fn lemma_enabled_sink_without_path_reports_once(
    config: AppConfigView,
    parent: Option<ParentProbeView>,
)
    requires
        config.logging.console == default_console(),
        config.logging.file == (FileLoggingView {
            enabled: true,
            path: Seq::empty(),
            ..default_file(Seq::empty())
        }),
    ensures
        config_report(config, parent).len() == 1,
        config_report(config, parent)[0].field_path == "logging.file.path"@,
{
}

/// A disabled file sink is never reported, whatever its fields hold.
pub proof fn lemma_disabled_sink_is_skipped(
    logging: LoggingView,
    parent: Option<ParentProbeView>,
)
    requires
        !logging.file.enabled,
    ensures
        logging_report(logging, parent) == console_report(logging.console),
{
}

impl Validate for ConsoleLoggingConfig {
    /// Checks the level and the format and reports both where both fail.
    fn validate(&self) -> (result: ValidationResult<()>)
        ensures
            matches_report(result, console_report(self@)),
    {
        let mut errors: Vec<ValidationError> = Vec::new();
        collect(
            &mut errors,
            LogLevelValidator::validate_field(&self.level, "logging.console.level"),
        );
        collect(
            &mut errors,
            LogFormatValidator::validate_field(&self.format, "logging.console.format"),
        );
        finish(errors)
    }
}

/// Whether a probe is what asking about a file sink gives: the parent of
/// the sink's path looked up for an enabled sink with a path, and nothing
/// for any other sink.
pub open spec fn sink_probed(file: FileLoggingView, parent: Option<ParentProbeView>) -> bool {
    if file.enabled && file.path.len() > 0 {
        parent_looked_up(file.path, parent)
    } else {
        parent is None
    }
}

impl FileLoggingConfig {
    /// Asks the file system about the parent of the sink's path, where
    /// validation will need it: for an enabled sink with a path.
    pub fn probe(&self) -> (parent: Option<ParentProbe>)
        ensures
            sink_probed(self@, parent_view(parent)),
    {
        if self.enabled && !self.path.as_str().is_empty() {
            probe_parent(self.path.as_str())
        } else {
            None
        }
    }

    /// Validates the sink against what the file system said about the
    /// parent of its path.
    pub fn validate_with(&self, parent: &Option<ParentProbe>) -> (result: ValidationResult<()>)
        ensures
            matches_report(result, file_report(self@, parent_view(*parent))),
    {
        let mut errors: Vec<ValidationError> = Vec::new();
        if self.enabled {
            collect(
                &mut errors,
                LogLevelValidator::validate_field(&self.level, "logging.file.level"),
            );
            if !self.path.as_str().is_empty() {
                collect(
                    &mut errors,
                    FilePathValidator::check(self.path.as_str(), "logging.file.path", parent),
                );
            }
            collect(
                &mut errors,
                FileRotationValidator::validate_field(&self.rotation, "logging.file.rotation"),
            );
        }
        finish(errors)
    }
}

impl Validate for FileLoggingConfig {
    /// Checks nothing while the sink is disabled. For an enabled sink the
    /// level, the path and the rotation are checked and all failures are
    /// reported; the parent of the path is looked up on disk, and the
    /// result is what [`FileLoggingConfig::validate_with`] returns for the
    /// answer.
    fn validate(&self) -> (result: ValidationResult<()>)
        ensures
            exists|parent: Option<ParentProbeView>| #[trigger]
                file_outcome(result, self@, parent) && sink_probed(self@, parent),
    {
        let parent = self.probe();
        let result = self.validate_with(&parent);
        assert(file_outcome(result, self@, parent_view(parent)));
        result
    }
}

/// Checks the rules that span both sinks: an enabled file sink must have
/// a path.
pub fn validate_logging_consistency(config: &LoggingConfig) -> (result: ValidationResult<()>)
    ensures
        matches_report(result, consistency_report(config@)),
{
    let mut errors: Vec<ValidationError> = Vec::new();
    if config.file.enabled && config.file.path.as_str().is_empty() {
        errors.push(
            ValidationError::new(
                "logging.file.path",
                config.file.path.as_str(),
                "File path cannot be empty when file logging is enabled",
            ).with_suggestion("Provide a valid file path or disable file logging"),
        );
    }
    assert(error_views(errors@) =~= consistency_report(config@));
    finish(errors)
}

impl LoggingConfig {
    /// Validates the section against what the file system said about the
    /// parent of the file sink's path.
    pub fn validate_with(&self, parent: &Option<ParentProbe>) -> (result: ValidationResult<()>)
        ensures
            matches_report(result, logging_report(self@, parent_view(*parent))),
    {
        let mut errors: Vec<ValidationError> = Vec::new();
        collect(&mut errors, self.console.validate());
        collect(&mut errors, self.file.validate_with(parent));
        collect(&mut errors, validate_logging_consistency(self));
        finish(errors)
    }
}

impl Validate for LoggingConfig {
    /// Validates both sinks and the rules across them and reports every
    /// failure. The parent of an enabled file sink's path is looked up on
    /// disk, and the result is what [`LoggingConfig::validate_with`]
    /// returns for the answer.
    fn validate(&self) -> (result: ValidationResult<()>)
        ensures
            exists|parent: Option<ParentProbeView>| #[trigger]
                logging_outcome(result, self@, parent) && sink_probed(self@.file, parent),
    {
        let parent = self.file.probe();
        let result = self.validate_with(&parent);
        assert(logging_outcome(result, self@, parent_view(parent)));
        result
    }
}

impl AppConfig {
    /// Validates the configuration against what the file system said about
    /// the parent of the file sink's path.
    pub fn validate_with(&self, parent: &Option<ParentProbe>) -> (result: ValidationResult<()>)
        ensures
            matches_report(result, config_report(self@, parent_view(*parent))),
    {
        let mut errors: Vec<ValidationError> = Vec::new();
        collect(&mut errors, self.logging.validate_with(parent));
        finish(errors)
    }
}

impl Validate for AppConfig {
    /// Validates every section and reports every failure. The parent of
    /// an enabled file sink's path is looked up on disk, and the result is
    /// what [`AppConfig::validate_with`] returns for the answer.
    fn validate(&self) -> (result: ValidationResult<()>)
        ensures
            exists|parent: Option<ParentProbeView>| #[trigger]
                config_outcome(result, self@, parent) && sink_probed(self@.logging.file, parent),
    {
        let parent = self.logging.file.probe();
        let result = self.validate_with(&parent);
        assert(config_outcome(result, self@, parent_view(parent)));
        result
    }
}

/// The rank of a log level: zero for `off` and for anything that is no
/// level, rising with verbosity up to five for `trace`.
pub open spec fn priority_of(level: Seq<char>) -> int {
    if level == "error"@ {
        1
    } else if level == "warn"@ {
        2
    } else if level == "info"@ {
        3
    } else if level == "debug"@ {
        4
    } else if level == "trace"@ {
        5
    } else {
        0
    }
}

/// Ranks a log level by verbosity.
pub fn log_level_priority(level: &str) -> (priority: u8)
    ensures
        priority == priority_of(level@),
{
    if text_eq(level, "error") {
        1
    } else if text_eq(level, "warn") {
        2
    } else if text_eq(level, "info") {
        3
    } else if text_eq(level, "debug") {
        4
    } else if text_eq(level, "trace") {
        5
    } else {
        0
    }
}

} // verus!
