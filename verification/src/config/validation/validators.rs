//! Validators for single fields, and the string distance that picks their
//! suggestions.

use vstd::prelude::*;
use crate::text::{chars_of, is_one_of, join, joined, words};
use crate::config::validation::errors::{ValidationError, ValidationErrorView, ValidationErrors};
use crate::config::validation::probe::{
    looked_up, parent_looked_up, parent_view, path_parent_of, probe_parent, probe_path,
    ParentProbe, ParentProbeView, PathStatus, PathStatusView, WriteAccess, WriteAccessView,
};
use crate::config::validation::{matches_report, ValidateField, ValidationResult};

verus! {

/// The least of three numbers.
pub open spec fn min3(a: nat, b: nat, c: nat) -> nat {
    if a <= b && a <= c {
        a
    } else if b <= c {
        b
    } else {
        c
    }
}

/// The Levenshtein distance: the least number of single-character
/// insertions, deletions and substitutions that turn `a` into `b`.
pub open spec fn edit_distance(a: Seq<char>, b: Seq<char>) -> nat
    decreases a.len() + b.len(),
{
    if a.len() == 0 {
        b.len()
    } else if b.len() == 0 {
        a.len()
    } else {
        let cost: nat = if a.last() == b.last() {
            0
        } else {
            1
        };
        min3(
            edit_distance(a.drop_last(), b) + 1,
            edit_distance(a, b.drop_last()) + 1,
            edit_distance(a.drop_last(), b.drop_last()) + cost,
        )
    }
}

/// The distance never exceeds the length of the longer string.
pub proof fn lemma_edit_distance_bound(a: Seq<char>, b: Seq<char>)
    ensures
        edit_distance(a, b) <= a.len() || edit_distance(a, b) <= b.len(),
    decreases a.len() + b.len(),
{
    if a.len() != 0 && b.len() != 0 {
        lemma_edit_distance_bound(a.drop_last(), b.drop_last());
    }
}

/// Computes the Levenshtein distance of two strings, row by row.
pub fn levenshtein_distance(s1: &str, s2: &str) -> (distance: usize)
    ensures
        distance == edit_distance(s1@, s2@),
{
    let a = chars_of(s1);
    let b = chars_of(s2);
    let n = a.len();
    let m = b.len();
    if n == 0 {
        return m;
    }
    if m == 0 {
        return n;
    }
    let mut prev: Vec<usize> = Vec::new();
    prev.push(0);
    let mut j: usize = 0;
    while j < m
        invariant
            j <= m,
            m == b@.len(),
            prev@.len() == j + 1,
            forall|k: int| 0 <= k <= j ==> prev@[k] == #[trigger] edit_distance(
                a@.take(0),
                b@.take(k),
            ),
        decreases m - j,
    {
        j += 1;
        prev.push(j);
    }
    let mut i: usize = 0;
    while i < n
        invariant
            i <= n,
            n == a@.len(),
            m == b@.len(),
            0 < m,
            prev@.len() == m + 1,
            forall|k: int| 0 <= k <= m ==> prev@[k] == #[trigger] edit_distance(
                a@.take(i as int),
                b@.take(k),
            ),
        decreases n - i,
    {
        let mut cur: Vec<usize> = Vec::new();
        cur.push(i + 1);
        let mut j: usize = 0;
        while j < m
            invariant
                j <= m,
                i < n,
                n == a@.len(),
                m == b@.len(),
                prev@.len() == m + 1,
                cur@.len() == j + 1,
                forall|k: int| 0 <= k <= m ==> prev@[k] == #[trigger] edit_distance(
                    a@.take(i as int),
                    b@.take(k),
                ),
                forall|k: int| 0 <= k <= j ==> cur@[k] == #[trigger] edit_distance(
                    a@.take(i + 1),
                    b@.take(k),
                ),
            decreases m - j,
        {
            proof {
                let above = a@.take(i as int);
                let here = a@.take(i + 1);
                let left = b@.take(j as int);
                let right = b@.take(j + 1);
                assert(here.drop_last() =~= above);
                assert(right.drop_last() =~= left);
                lemma_edit_distance_bound(above, left);
                assert(prev@[j + 1] == edit_distance(above, right));
                assert(cur@[j as int] == edit_distance(here, left));
            }
            let cost: usize = if a[i] == b[j] {
                0
            } else {
                1
            };
            let replaced = prev[j] + cost;
            let deleted = prev[j + 1];
            let inserted = cur[j];
            let shorter = if deleted < inserted {
                deleted
            } else {
                inserted
            };
            let best = if shorter < replaced {
                shorter + 1
            } else {
                replaced
            };
            cur.push(best);
            j += 1;
        }
        prev = cur;
        i += 1;
    }
    assert(a@.take(n as int) =~= a@);
    assert(b@.take(m as int) =~= b@);
    prev[m]
}

/// The position of the option nearest to `input`; of several at the same
/// distance, the first.
pub open spec fn closest_index(input: Seq<char>, options: Seq<Seq<char>>) -> int
    decreases options.len(),
{
    if options.len() <= 1 {
        0
    } else {
        let earlier = closest_index(input, options.drop_last());
        if edit_distance(input, options.last()) < edit_distance(input, options[earlier]) {
            options.len() - 1
        } else {
            earlier
        }
    }
}

/// The option nearest to `input`; of several at the same distance, the
/// first.
pub open spec fn closest_match(input: Seq<char>, options: Seq<Seq<char>>) -> Seq<char> {
    options[closest_index(input, options)]
}

/// The chosen position lies within the options, no option is nearer to the
/// input, and every option before it is strictly farther away.
pub proof fn lemma_closest_index_is_first_minimum(input: Seq<char>, options: Seq<Seq<char>>)
    requires
        options.len() > 0,
    ensures
        0 <= closest_index(input, options) < options.len(),
        forall|j: int|
            0 <= j < options.len() ==> edit_distance(input, closest_match(input, options))
                <= edit_distance(input, #[trigger] options[j]),
        forall|j: int|
            0 <= j < closest_index(input, options) ==> edit_distance(
                input,
                closest_match(input, options),
            ) < edit_distance(input, #[trigger] options[j]),
    decreases options.len(),
{
    if options.len() > 1 {
        let front = options.drop_last();
        lemma_closest_index_is_first_minimum(input, front);
        assert(forall|j: int| 0 <= j < front.len() ==> front[j] == options[j]);
    }
}

/// Picks the option nearest to `input` by Levenshtein distance; of several
/// at the same distance, the one that comes first.
pub fn suggest_closest_match<'a>(input: &str, valid_options: &'a [&str]) -> (choice: &'a str)
    requires
        valid_options@.len() > 0,
    ensures
        choice@ == closest_match(input@, words(valid_options@)),
{
    let mut best: usize = 0;
    let mut best_distance = levenshtein_distance(input, valid_options[0]);
    let mut i: usize = 1;
    while i < valid_options.len()
        invariant
            1 <= i <= valid_options@.len(),
            best < i,
            best == closest_index(input@, words(valid_options@).take(i as int)),
            best_distance == edit_distance(input@, valid_options@[best as int]@),
        decreases valid_options@.len() - i,
    {
        assert(words(valid_options@).take(i + 1).drop_last() =~= words(valid_options@).take(
            i as int,
        ));
        let distance = levenshtein_distance(input, valid_options[i]);
        if distance < best_distance {
            best = i;
            best_distance = distance;
        }
        i += 1;
    }
    assert(words(valid_options@).take(valid_options@.len() as int) =~= words(valid_options@));
    valid_options[best]
}

/// The log levels a sink accepts.
pub open spec fn log_levels() -> Seq<Seq<char>> {
    seq!["off"@, "error"@, "warn"@, "info"@, "debug"@, "trace"@]
}

/// The formats the console sink accepts.
pub open spec fn log_formats() -> Seq<Seq<char>> {
    seq!["compact"@, "pretty"@, "json"@]
}

/// The rotation policies the file sink accepts.
pub open spec fn file_rotations() -> Seq<Seq<char>> {
    seq!["daily"@, "hourly"@, "size-based"@, "never"@]
}

/// The suggestion that proposes `option`.
pub open spec fn try_using(option: Seq<char>) -> Seq<char> {
    "Try using '"@ + option + "' instead"@
}

/// What the validator of an enumerated field reports: nothing for an
/// allowed value; otherwise one error that lists the allowed values after
/// `heading` and suggests the nearest of them.
pub open spec fn enumerated_report(
    value: Seq<char>,
    field: Seq<char>,
    allowed: Seq<Seq<char>>,
    message: Seq<char>,
    heading: Seq<char>,
) -> Seq<ValidationErrorView> {
    if allowed.contains(value) {
        Seq::empty()
    } else {
        seq![
            ValidationErrorView {
                field_path: field,
                current_value: value,
                message,
                context: seq![heading + joined(allowed, ", "@)],
                suggestions: seq![try_using(closest_match(value, allowed))],
            },
        ]
    }
}

/// What the log level validator reports for `value` at `field`.
pub open spec fn log_level_report(value: Seq<char>, field: Seq<char>) -> Seq<
    ValidationErrorView,
> {
    enumerated_report(value, field, log_levels(), "Invalid log level"@, "Valid log levels are: "@)
}

/// What the log format validator reports for `value` at `field`.
pub open spec fn log_format_report(value: Seq<char>, field: Seq<char>) -> Seq<
    ValidationErrorView,
> {
    enumerated_report(
        value,
        field,
        log_formats(),
        "Invalid log format"@,
        "Valid log formats are: "@,
    )
}

/// What the rotation validator reports for `value` at `field`.
pub open spec fn file_rotation_report(value: Seq<char>, field: Seq<char>) -> Seq<
    ValidationErrorView,
> {
    enumerated_report(
        value,
        field,
        file_rotations(),
        "Invalid file rotation setting"@,
        "Valid rotation settings are: "@,
    )
}

/// Checks `value` against the allowed values of an enumerated field.
pub fn validate_enumerated(
    value: &str,
    field_name: &str,
    allowed: &[&str],
    message: &str,
    heading: &str,
) -> (result: ValidationResult<()>)
    requires
        allowed@.len() > 0,
    ensures
        matches_report(
            result,
            enumerated_report(value@, field_name@, words(allowed@), message@, heading@),
        ),
{
    if is_one_of(value, allowed) {
        Ok(())
    } else {
        let mut context = String::from_str(heading);
        let listed = join(allowed, ", ");
        context.append(listed.as_str());
        let mut suggestion = String::from_str("Try using '");
        suggestion.append(suggest_closest_match(value, allowed));
        suggestion.append("' instead");
        let error = ValidationError::new(field_name, value, message).with_context(
            context.as_str(),
        ).with_suggestion(suggestion.as_str());
        let errors = ValidationErrors::single(error);
        Err(errors)
    }
}

/// Validator for log levels.
pub struct LogLevelValidator;

impl ValidateField<String> for LogLevelValidator {
    /// Accepts exactly the six log levels.
    fn validate_field(value: &String, field_name: &str) -> (result: ValidationResult<()>)
        ensures
            matches_report(result, log_level_report(value@, field_name@)),
    {
        let levels: [&str; 6] = ["off", "error", "warn", "info", "debug", "trace"];
        assert(words(levels@) =~= log_levels());
        validate_enumerated(
            value.as_str(),
            field_name,
            levels.as_slice(),
            "Invalid log level",
            "Valid log levels are: ",
        )
    }
}

/// Validator for log formats.
pub struct LogFormatValidator;

impl ValidateField<String> for LogFormatValidator {
    /// Accepts exactly the three console formats.
    fn validate_field(value: &String, field_name: &str) -> (result: ValidationResult<()>)
        ensures
            matches_report(result, log_format_report(value@, field_name@)),
    {
        let formats: [&str; 3] = ["compact", "pretty", "json"];
        assert(words(formats@) =~= log_formats());
        validate_enumerated(
            value.as_str(),
            field_name,
            formats.as_slice(),
            "Invalid log format",
            "Valid log formats are: ",
        )
    }
}

/// Validator for file rotation settings.
pub struct FileRotationValidator;

impl ValidateField<String> for FileRotationValidator {
    /// Accepts exactly the four rotation policies.
    fn validate_field(value: &String, field_name: &str) -> (result: ValidationResult<()>)
        ensures
            matches_report(result, file_rotation_report(value@, field_name@)),
    {
        let rotations: [&str; 4] = ["daily", "hourly", "size-based", "never"];
        assert(words(rotations@) =~= file_rotations());
        validate_enumerated(
            value.as_str(),
            field_name,
            rotations.as_slice(),
            "Invalid file rotation setting",
            "Valid rotation settings are: ",
        )
    }
}

/// The context line that reports why a path cannot be written to.
pub open spec fn access_failure(access: WriteAccessView) -> Seq<char> {
    match access {
        WriteAccessView::Unknown(reason) => "Error: "@ + reason,
        _ => "Error: Directory is readonly"@,
    }
}

/// An error with one suggestion and no context.
pub open spec fn suggested_error(
    field: Seq<char>,
    value: Seq<char>,
    message: Seq<char>,
    suggestion: Seq<char>,
) -> ValidationErrorView {
    ValidationErrorView {
        field_path: field,
        current_value: value,
        message,
        context: Seq::empty(),
        suggestions: seq![suggestion],
    }
}

/// An error with one line of context and one suggestion.
pub open spec fn explained_error(
    field: Seq<char>,
    value: Seq<char>,
    message: Seq<char>,
    context: Seq<char>,
    suggestion: Seq<char>,
) -> ValidationErrorView {
    ValidationErrorView {
        field_path: field,
        current_value: value,
        message,
        context: seq![context],
        suggestions: seq![suggestion],
    }
}

/// What the file path validator reports for `value` at `field`, given what
/// the file system says about the parent directory. An empty path is an
/// error whatever the file system says; a path without a parent passes; a
/// parent that is missing, and one that cannot be written to, are errors of
/// their own.
pub open spec fn file_path_report(
    value: Seq<char>,
    field: Seq<char>,
    parent: Option<ParentProbeView>,
) -> Seq<ValidationErrorView> {
    if value.len() == 0 {
        seq![
            suggested_error(
                field,
                value,
                "File path cannot be empty"@,
                "Provide a valid file path"@,
            ),
        ]
    } else {
        match parent {
            None => Seq::empty(),
            Some(probe) => if !probe.status.exists {
                seq![
                    explained_error(
                        field,
                        value,
                        "Parent directory does not exist"@,
                        "Parent directory: "@ + probe.path,
                        "Create the parent directory first or use a different path"@,
                    ),
                ]
            } else if probe.status.access != WriteAccessView::Writable {
                seq![
                    explained_error(
                        field,
                        value,
                        "Cannot write to parent directory"@,
                        access_failure(probe.status.access),
                        "Choose a writable directory or fix permissions"@,
                    ),
                ]
            } else {
                Seq::empty()
            },
        }
    }
}

/// What the directory path validator reports for `value` at `field`, given
/// what the file system says about the path itself: it must not be empty,
/// must exist, must be a directory and must be writable, in that order.
pub open spec fn directory_path_report(
    value: Seq<char>,
    field: Seq<char>,
    status: PathStatusView,
) -> Seq<ValidationErrorView> {
    if value.len() == 0 {
        seq![
            suggested_error(
                field,
                value,
                "Directory path cannot be empty"@,
                "Provide a valid directory path"@,
            ),
        ]
    } else if !status.exists {
        seq![
            suggested_error(
                field,
                value,
                "Directory does not exist"@,
                "Create the directory first or use a different path"@,
            ),
        ]
    } else if !status.is_dir {
        seq![
            suggested_error(
                field,
                value,
                "Path is not a directory"@,
                "Provide a path to a directory, not a file"@,
            ),
        ]
    } else if status.access != WriteAccessView::Writable {
        seq![
            explained_error(
                field,
                value,
                "Directory is not writable"@,
                access_failure(status.access),
                "Fix directory permissions or choose a different directory"@,
            ),
        ]
    } else {
        Seq::empty()
    }
}

/// Whether `result` is what the file path validator returns for some
/// answer of the file system.
pub open spec fn file_path_outcome(
    result: ValidationResult<()>,
    value: Seq<char>,
    field: Seq<char>,
    parent: Option<ParentProbeView>,
) -> bool {
    matches_report(result, file_path_report(value, field, parent))
}

/// Whether `result` is what the directory path validator returns for some
/// answer of the file system.
pub open spec fn directory_path_outcome(
    result: ValidationResult<()>,
    value: Seq<char>,
    field: Seq<char>,
    status: PathStatusView,
) -> bool {
    matches_report(result, directory_path_report(value, field, status))
}

fn access_line(access: &WriteAccess) -> (line: String)
    ensures
        line@ == access_failure(access@),
{
    match access {
        WriteAccess::Unknown(reason) => {
            let mut line = String::from_str("Error: ");
            line.append(reason.as_str());
            line
        },
        _ => String::from_str("Error: Directory is readonly"),
    }
}

fn is_writable(access: &WriteAccess) -> (writable: bool)
    ensures
        writable == (access@ == WriteAccessView::Writable),
{
    match access {
        WriteAccess::Writable => true,
        _ => false,
    }
}

fn reject_with_suggestion(
    field_name: &str,
    value: &str,
    message: &str,
    suggestion: &str,
) -> (result: ValidationResult<()>)
    ensures
        matches_report(
            result,
            seq![suggested_error(field_name@, value@, message@, suggestion@)],
        ),
{
    let error = ValidationError::new(field_name, value, message).with_suggestion(suggestion);
    let errors = ValidationErrors::single(error);
    Err(errors)
}

fn reject_with_context(
    field_name: &str,
    value: &str,
    message: &str,
    context: &str,
    suggestion: &str,
) -> (result: ValidationResult<()>)
    ensures
        matches_report(
            result,
            seq![explained_error(field_name@, value@, message@, context@, suggestion@)],
        ),
{
    let error = ValidationError::new(field_name, value, message).with_context(
        context,
    ).with_suggestion(suggestion);
    let errors = ValidationErrors::single(error);
    Err(errors)
}

/// Validator for paths that name a file to be written.
pub struct FilePathValidator;

impl FilePathValidator {
    /// Judges `value` from what the file system said about its parent
    /// directory.
    pub fn check(value: &str, field_name: &str, parent: &Option<ParentProbe>) -> (result:
        ValidationResult<()>)
        ensures
            matches_report(result, file_path_report(value@, field_name@, parent_view(*parent))),
    {
        if value.is_empty() {
            return reject_with_suggestion(
                field_name,
                value,
                "File path cannot be empty",
                "Provide a valid file path",
            );
        }
        match parent {
            None => Ok(()),
            Some(probe) => {
                if !probe.status.exists {
                    let mut context = String::from_str("Parent directory: ");
                    context.append(probe.path.as_str());
                    reject_with_context(
                        field_name,
                        value,
                        "Parent directory does not exist",
                        context.as_str(),
                        "Create the parent directory first or use a different path",
                    )
                } else if !is_writable(&probe.status.access) {
                    let context = access_line(&probe.status.access);
                    reject_with_context(
                        field_name,
                        value,
                        "Cannot write to parent directory",
                        context.as_str(),
                        "Choose a writable directory or fix permissions",
                    )
                } else {
                    Ok(())
                }
            },
        }
    }
}

impl ValidateField<String> for FilePathValidator {
    /// Rejects the empty path. For any other path the parent directory is
    /// looked up on disk, and the result is what [`FilePathValidator::check`]
    /// returns for the answer.
    fn validate_field(value: &String, field_name: &str) -> (result: ValidationResult<()>)
        ensures
            exists|parent: Option<ParentProbeView>| #[trigger]
                file_path_outcome(result, value@, field_name@, parent) && (value@.len() > 0
                    ==> parent_looked_up(value@, parent)),
            value@.len() > 0 && path_parent_of(value@) is None ==> result is Ok,
    {
        let parent = if value.as_str().is_empty() {
            None
        } else {
            probe_parent(value.as_str())
        };
        let result = Self::check(value.as_str(), field_name, &parent);
        assert(file_path_outcome(result, value@, field_name@, parent_view(parent)));
        result
    }
}

/// Validator for paths that name a directory.
pub struct DirectoryPathValidator;

impl DirectoryPathValidator {
    /// Judges `value` from what the file system said about it.
    pub fn check(value: &str, field_name: &str, status: &PathStatus) -> (result:
        ValidationResult<()>)
        ensures
            matches_report(result, directory_path_report(value@, field_name@, status@)),
    {
        if value.is_empty() {
            reject_with_suggestion(
                field_name,
                value,
                "Directory path cannot be empty",
                "Provide a valid directory path",
            )
        } else if !status.exists {
            reject_with_suggestion(
                field_name,
                value,
                "Directory does not exist",
                "Create the directory first or use a different path",
            )
        } else if !status.is_dir {
            reject_with_suggestion(
                field_name,
                value,
                "Path is not a directory",
                "Provide a path to a directory, not a file",
            )
        } else if !is_writable(&status.access) {
            let context = access_line(&status.access);
            reject_with_context(
                field_name,
                value,
                "Directory is not writable",
                context.as_str(),
                "Fix directory permissions or choose a different directory",
            )
        } else {
            Ok(())
        }
    }
}

impl ValidateField<String> for DirectoryPathValidator {
    /// Rejects the empty path. For any other path the file system is asked
    /// about it, and the result is what [`DirectoryPathValidator::check`]
    /// returns for the answer.
    fn validate_field(value: &String, field_name: &str) -> (result: ValidationResult<()>)
        ensures
            exists|status: PathStatusView| #[trigger]
                directory_path_outcome(result, value@, field_name@, status) && (value@.len() > 0
                    ==> looked_up(status)),
    {
        let status = if value.as_str().is_empty() {
            PathStatus { exists: false, is_dir: false, access: WriteAccess::Writable }
        } else {
            probe_path(value.as_str())
        };
        let result = Self::check(value.as_str(), field_name, &status);
        assert(directory_path_outcome(result, value@, field_name@, status@));
        result
    }
}

} // verus!
