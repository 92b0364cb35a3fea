//! The report of a failed validation: one entry per violated rule.

use vstd::prelude::*;
use crate::text::{decimal, decimal_string, joined, lines, text_eq};

verus! {

/// One violated rule.
#[derive(Debug, Clone)]
pub struct ValidationError {
    /// Dotted path of the field that failed, such as `logging.console.level`.
    pub field_path: String,
    /// The offending value, as text.
    pub current_value: String,
    /// What is wrong with it.
    pub message: String,
    /// Free-form lines that explain the rule.
    pub context: Vec<String>,
    /// Proposed fixes, the most likely first.
    pub suggestions: Vec<String>,
}

/// The mathematical content of a [`ValidationError`].
pub struct ValidationErrorView {
    pub field_path: Seq<char>,
    pub current_value: Seq<char>,
    pub message: Seq<char>,
    pub context: Seq<Seq<char>>,
    pub suggestions: Seq<Seq<char>>,
}

impl View for ValidationError {
    type V = ValidationErrorView;

    open spec fn view(&self) -> ValidationErrorView {
        ValidationErrorView {
            field_path: self.field_path@,
            current_value: self.current_value@,
            message: self.message@,
            context: lines(self.context@),
            suggestions: lines(self.suggestions@),
        }
    }
}

/// An error that carries neither context nor suggestions.
pub open spec fn plain_error(
    field_path: Seq<char>,
    current_value: Seq<char>,
    message: Seq<char>,
) -> ValidationErrorView {
    ValidationErrorView {
        field_path,
        current_value,
        message,
        context: Seq::empty(),
        suggestions: Seq::empty(),
    }
}

impl ValidationError {
    /// An error for `field_path` with no context and no suggestion yet.
    pub fn new(field_path: &str, current_value: &str, message: &str) -> (error: Self)
        ensures
            error@ == plain_error(field_path@, current_value@, message@),
    {
        let error = ValidationError {
            field_path: String::from_str(field_path),
            current_value: String::from_str(current_value),
            message: String::from_str(message),
            context: Vec::new(),
            suggestions: Vec::new(),
        };
        assert(lines(error.context@) =~= Seq::empty());
        error
    }

    /// Appends one line of context; everything else is kept.
    pub fn with_context(self, context: &str) -> (error: Self)
        ensures
            error@ == (ValidationErrorView { context: self@.context.push(context@), ..self@ }),
    {
        let mut error = self;
        error.context.push(String::from_str(context));
        assert(lines(error.context@) =~= lines(self.context@).push(context@));
        error
    }

    /// Appends one suggestion; everything else is kept.
    pub fn with_suggestion(self, suggestion: &str) -> (error: Self)
        ensures
            error@ == (ValidationErrorView {
                suggestions: self@.suggestions.push(suggestion@),
                ..self@
            }),
    {
        let mut error = self;
        error.suggestions.push(String::from_str(suggestion));
        assert(lines(error.suggestions@) =~= lines(self.suggestions@).push(suggestion@));
        error
    }

    /// Builds an error from a validation context: the context's field,
    /// value and lines, with `message` and no suggestion.
    pub fn from_context(context: ValidationContext, message: &str) -> (error: Self)
        ensures
            error@ == (ValidationErrorView {
                field_path: context@.field_path,
                current_value: context@.current_value,
                message: message@,
                context: context@.context,
                suggestions: Seq::empty(),
            }),
    {
        let error = ValidationError {
            field_path: context.field_path,
            current_value: context.current_value,
            message: String::from_str(message),
            context: context.context,
            suggestions: Vec::new(),
        };
        assert(lines(error.suggestions@) =~= Seq::empty());
        error
    }

    /// Writes the error out for a reader.
    pub fn render(&self) -> (text: String)
        ensures
            text@ == rendered_error(self@),
    {
        let mut text = String::from_str("Validation error in field '");
        text.append(self.field_path.as_str());
        text.append("': ");
        text.append(self.message.as_str());
        if !self.current_value.as_str().is_empty() {
            text.append(" (current value: '");
            text.append(self.current_value.as_str());
            text.append("')");
        }
        append_each(&mut text, &self.context, "\n  Context: ");
        if self.suggestions.len() > 0 {
            text.append("\n  Suggestions:");
            append_each(&mut text, &self.suggestions, "\n    - ");
        }
        text
    }
}

/// The field, the value and the explanatory lines that an error is built
/// from.
#[derive(Debug, Clone)]
pub struct ValidationContext {
    /// Dotted path of the field under validation.
    pub field_path: String,
    /// The value under validation, as text.
    pub current_value: String,
    /// Lines that explain the rule.
    pub context: Vec<String>,
}

/// The mathematical content of a [`ValidationContext`].
pub struct ValidationContextView {
    pub field_path: Seq<char>,
    pub current_value: Seq<char>,
    pub context: Seq<Seq<char>>,
}

impl View for ValidationContext {
    type V = ValidationContextView;

    open spec fn view(&self) -> ValidationContextView {
        ValidationContextView {
            field_path: self.field_path@,
            current_value: self.current_value@,
            context: lines(self.context@),
        }
    }
}

impl ValidationContext {
    /// A context for `field_path` and its value, with no lines yet.
    pub fn new(field_path: &str, current_value: &str) -> (context: Self)
        ensures
            context@ == (ValidationContextView {
                field_path: field_path@,
                current_value: current_value@,
                context: Seq::empty(),
            }),
    {
        let context = ValidationContext {
            field_path: String::from_str(field_path),
            current_value: String::from_str(current_value),
            context: Vec::new(),
        };
        assert(lines(context.context@) =~= Seq::empty());
        context
    }

    /// Appends one line; the field and the value are kept.
    pub fn with_context(self, context: &str) -> (extended: Self)
        ensures
            extended@ == (ValidationContextView {
                context: self@.context.push(context@),
                ..self@
            }),
    {
        let mut extended = self;
        extended.context.push(String::from_str(context));
        assert(lines(extended.context@) =~= lines(self.context@).push(context@));
        extended
    }
}

/// Every item written after `lead`, one after another.
pub open spec fn prefixed(items: Seq<Seq<char>>, lead: Seq<char>) -> Seq<char>
    decreases items.len(),
{
    if items.len() == 0 {
        Seq::empty()
    } else {
        prefixed(items.drop_last(), lead) + lead + items.last()
    }
}

/// The text of one error: the field and the message, the current value
/// unless it is empty, a line for each piece of context, and the
/// suggestions as a list under a heading of their own.
pub open spec fn rendered_error(error: ValidationErrorView) -> Seq<char> {
    let head = "Validation error in field '"@ + error.field_path + "': "@ + error.message;
    let valued = if error.current_value.len() > 0 {
        head + " (current value: '"@ + error.current_value + "')"@
    } else {
        head
    };
    let explained = valued + prefixed(error.context, "\n  Context: "@);
    if error.suggestions.len() > 0 {
        explained + "\n  Suggestions:"@ + prefixed(error.suggestions, "\n    - "@)
    } else {
        explained
    }
}

/// Appends every item to `text`, each after `lead`.
fn append_each(text: &mut String, items: &Vec<String>, lead: &str)
    ensures
        final(text)@ == old(text)@ + prefixed(lines(items@), lead@),
{
    let mut i: usize = 0;
    while i < items.len()
        invariant
            i <= items@.len(),
            text@ == old(text)@ + prefixed(lines(items@).take(i as int), lead@),
        decreases items@.len() - i,
    {
        assert(lines(items@).take(i + 1).drop_last() =~= lines(items@).take(i as int));
        text.append(lead);
        text.append(items[i].as_str());
        i += 1;
    }
    assert(lines(items@).take(items@.len() as int) =~= lines(items@));
}

/// The views of a sequence of errors, in order.
pub open spec fn error_views(errors: Seq<ValidationError>) -> Seq<ValidationErrorView> {
    errors.map_values(|e: ValidationError| e@)
}

/// An ordered collection of violated rules.
#[derive(Debug, Clone)]
pub struct ValidationErrors {
    pub errors: Vec<ValidationError>,
}

impl View for ValidationErrors {
    type V = Seq<ValidationErrorView>;

    open spec fn view(&self) -> Seq<ValidationErrorView> {
        error_views(self.errors@)
    }
}

impl ValidationErrors {
    /// Wraps a list of errors, keeping their order.
    pub fn new(errors: Vec<ValidationError>) -> (all: Self)
        ensures
            all@ == error_views(errors@),
            all.errors == errors,
    {
        ValidationErrors { errors }
    }

    /// A collection that holds exactly `error`.
    pub fn single(error: ValidationError) -> (all: Self)
        ensures
            all@ == seq![error@],
    {
        let mut errors: Vec<ValidationError> = Vec::new();
        errors.push(error);
        ValidationErrors { errors }
    }

    /// Whether the collection holds no error.
    pub fn is_empty(&self) -> (empty: bool)
        ensures
            empty == (self@.len() == 0),
    {
        self.errors.len() == 0
    }

    /// The number of errors.
    pub fn len(&self) -> (n: usize)
        ensures
            n == self@.len(),
    {
        self.errors.len()
    }

    /// Appends one error at the end.
    pub fn push(&mut self, error: ValidationError)
        ensures
            final(self)@ == old(self)@.push(error@),
    {
        self.errors.push(error);
    }

    /// Appends all errors of `other`, in their order, after those already
    /// held.
    pub fn merge(&mut self, other: ValidationErrors)
        ensures
            final(self)@ == old(self)@ + other@,
    {
        let mut rest = other.errors;
        self.errors.append(&mut rest);
    }

    /// The errors reported for `field_path`, in their order.
    pub fn errors_for_field(&self, field_path: &str) -> (found: Vec<&ValidationError>)
        ensures
            borrowed_views(found@) == self@.filter(at_field(field_path@)),
    {
        let mut found: Vec<&ValidationError> = Vec::new();
        let mut i: usize = 0;
        proof {
            reveal(Seq::filter);
        }
        while i < self.errors.len()
            invariant
                i <= self.errors@.len(),
                borrowed_views(found@) == self@.take(i as int).filter(at_field(field_path@)),
            decreases self.errors@.len() - i,
        {
            let error = &self.errors[i];
            proof {
                reveal(Seq::filter);
                assert(self@.take(i + 1).drop_last() =~= self@.take(i as int));
            }
            if text_eq(error.field_path.as_str(), field_path) {
                found.push(error);
            }
            i += 1;
        }
        assert(self@.take(self.errors@.len() as int) =~= self@);
        found
    }

    /// One line that counts the errors, then one line for each with its
    /// field and message.
    pub fn summary(&self) -> (text: String)
        ensures
            text@ == summarized(self@),
    {
        if self.errors.len() == 0 {
            return String::from_str("No validation errors");
        }
        let mut text = String::from_str("Found ");
        let count = decimal_string(self.errors.len());
        text.append(count.as_str());
        text.append(" validation error(s):");
        let mut i: usize = 0;
        while i < self.errors.len()
            invariant
                i <= self.errors@.len(),
                text@ == "Found "@ + decimal(self@.len()) + " validation error(s):"@
                    + summary_items(self@.take(i as int)),
            decreases self.errors@.len() - i,
        {
            assert(self@.take(i + 1).drop_last() =~= self@.take(i as int));
            text.append("\n  - ");
            text.append(self.errors[i].field_path.as_str());
            text.append(": ");
            text.append(self.errors[i].message.as_str());
            i += 1;
        }
        assert(self@.take(self.errors@.len() as int) =~= self@);
        text
    }

    /// Writes the whole report out for a reader: a heading that counts
    /// the errors, then every error in full, one below the other.
    pub fn render(&self) -> (text: String)
        ensures
            text@ == rendered_report(self@),
    {
        if self.errors.len() == 0 {
            return String::from_str("No validation errors");
        }
        let mut text = String::from_str("Configuration validation failed with ");
        let count = decimal_string(self.errors.len());
        text.append(count.as_str());
        text.append(" error(s):\n");
        let mut i: usize = 0;
        while i < self.errors.len()
            invariant
                i <= self.errors@.len(),
                text@ == "Configuration validation failed with "@ + decimal(self@.len())
                    + " error(s):\n"@ + joined(rendered_errors(self@).take(i as int), "\n"@),
            decreases self.errors@.len() - i,
        {
            let one = self.errors[i].render();
            assert(rendered_errors(self@).take(i + 1).drop_last() =~= rendered_errors(self@).take(
                i as int,
            ));
            if i > 0 {
                text.append("\n");
            }
            text.append(one.as_str());
            i += 1;
        }
        assert(rendered_errors(self@).take(self.errors@.len() as int) =~= rendered_errors(
            self@,
        ));
        text
    }
}

/// The views of a sequence of borrowed errors, in order.
pub open spec fn borrowed_views(errors: Seq<&ValidationError>) -> Seq<ValidationErrorView> {
    errors.map_values(|e: &ValidationError| e@)
}

/// The test for an error that was reported for `field`.
pub open spec fn at_field(field: Seq<char>) -> spec_fn(ValidationErrorView) -> bool {
    |error: ValidationErrorView| error.field_path == field
}

/// A line for each error, with its field and message.
pub open spec fn summary_items(errors: Seq<ValidationErrorView>) -> Seq<char>
    decreases errors.len(),
{
    if errors.len() == 0 {
        Seq::empty()
    } else {
        summary_items(errors.drop_last()) + "\n  - "@ + errors.last().field_path + ": "@
            + errors.last().message
    }
}

/// The summary of a report.
pub open spec fn summarized(errors: Seq<ValidationErrorView>) -> Seq<char> {
    if errors.len() == 0 {
        "No validation errors"@
    } else {
        "Found "@ + decimal(errors.len()) + " validation error(s):"@ + summary_items(errors)
    }
}

/// The text of every error, in order.
pub open spec fn rendered_errors(errors: Seq<ValidationErrorView>) -> Seq<Seq<char>> {
    errors.map_values(|e: ValidationErrorView| rendered_error(e))
}

/// The text of a whole report.
pub open spec fn rendered_report(errors: Seq<ValidationErrorView>) -> Seq<char> {
    if errors.len() == 0 {
        "No validation errors"@
    } else {
        "Configuration validation failed with "@ + decimal(errors.len()) + " error(s):\n"@
            + joined(rendered_errors(errors), "\n"@)
    }
}

} // verus!
