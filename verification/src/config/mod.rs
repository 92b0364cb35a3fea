//! The configuration tree, its sources and the rules it must satisfy.

pub mod builder;
pub mod defaults;
pub mod document;
pub mod merge;
pub mod paths;
pub mod resolve;
pub mod sources;
pub mod validation;

pub use builder::ConfigBuilder;
pub use defaults::{AppConfig, ConsoleLoggingConfig, FileLoggingConfig, LoggingConfig};
pub use document::Node;
pub use merge::{verbosity_to_log_level, FromCli, Merge};
pub use paths::ConfigPaths;
pub use resolve::{load_config_with_cli_override, ConfigSources};
pub use sources::{FileState, SourceFile};
pub use validation::{
    log_level_priority, validate_logging_consistency, DirectoryPathValidator, FilePathValidator,
    FileRotationValidator, LogFormatValidator, LogLevelValidator, ParentProbe, PathFacts,
    PathStatus, Validate, ValidateField, ValidationContext, ValidationError, ValidationErrors,
    ValidationResult, WriteAccess,
};
