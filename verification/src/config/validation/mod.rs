//! Validation of a merged configuration.

pub mod errors;
pub mod probe;
pub mod rules;
pub mod validators;

pub use errors::{ValidationContext, ValidationError, ValidationErrorView, ValidationErrors};
pub use rules::{log_level_priority, validate_logging_consistency};
pub use probe::{ParentProbe, PathFacts, PathStatus, WriteAccess};
pub use validators::{
    DirectoryPathValidator, FilePathValidator, FileRotationValidator, LogFormatValidator,
    LogLevelValidator,
};

use vstd::prelude::*;
use errors::error_views;

verus! {

/// What a validation returns: the value, or every violated rule.
pub type ValidationResult<T> = Result<T, ValidationErrors>;

/// A result agrees with a report when it is `Ok` for the empty report and
/// otherwise carries exactly the report's errors, in order.
pub open spec fn matches_report(
    result: ValidationResult<()>,
    report: Seq<ValidationErrorView>,
) -> bool {
    match result {
        Ok(_) => report.len() == 0,
        Err(errors) => report.len() > 0 && errors@ == report,
    }
}

/// Validation of a whole configuration section.
pub trait Validate {
    /// Checks every rule of the section and returns all violations found.
    fn validate(&self) -> ValidationResult<()>;
}

/// Validation of one field.
pub trait ValidateField<T> {
    /// Checks `value`, which sits at `field_name` in the configuration.
    fn validate_field(value: &T, field_name: &str) -> ValidationResult<()>;
}

/// Turns a list of collected errors into a result: `Ok` when nothing was
/// collected.
pub fn finish(errors: Vec<ValidationError>) -> (result: ValidationResult<()>)
    ensures
        matches_report(result, error_views(errors@)),
{
    if errors.len() == 0 {
        Ok(())
    } else {
        Err(ValidationErrors::new(errors))
    }
}

/// The errors that a result carries; none for `Ok`.
pub open spec fn reported(result: ValidationResult<()>) -> Seq<ValidationErrorView> {
    match result {
        Ok(_) => Seq::empty(),
        Err(found) => found@,
    }
}

/// Moves the errors of `result`, if any, to the end of `errors`.
pub fn collect(errors: &mut Vec<ValidationError>, result: ValidationResult<()>)
    ensures
        error_views(final(errors)@) == error_views(old(errors)@) + reported(result),
{
    if let Err(found) = result {
        let mut rest = found.errors;
        errors.append(&mut rest);
    }
}

} // verus!
