//! The failures of the application, each with its exit code.

use vstd::prelude::*;

verus! {

/// A failure of the application.
#[derive(Debug)]
pub enum Error {
    /// A failure that belongs to no other class; the text describes it.
    Eyre(String),
    /// An I/O failure; the text describes it.
    IoError(String),
    /// The user interrupted the program.
    ControlC,
    /// The configuration is unusable.
    InvalidConfig,
    /// The panic handler could not be installed.
    PanicHandlerSetupError,
    /// The logging sinks could not be set up.
    LoggingSetupError,
    /// The file system failed while the search list was read.
    ConfigLoadError(String),
    /// A configuration file is malformed.
    ConfigParseError(String),
    /// The merged configuration violates one or more rules.
    ConfigValidationError(String),
    /// The explicitly named configuration file does not exist.
    ConfigFileNotFoundError(String),
    /// The configuration could not be written out for display.
    ConfigSerializationError(String),
    /// A failure of the media library; the text describes it.
    LibError(String),
}

/// The mathematical content of an [`Error`].
pub enum ErrorView {
    Eyre(Seq<char>),
    IoError(Seq<char>),
    ControlC,
    InvalidConfig,
    PanicHandlerSetupError,
    LoggingSetupError,
    ConfigLoadError(Seq<char>),
    ConfigParseError(Seq<char>),
    ConfigValidationError(Seq<char>),
    ConfigFileNotFoundError(Seq<char>),
    ConfigSerializationError(Seq<char>),
    LibError(Seq<char>),
}

impl View for Error {
    type V = ErrorView;

    open spec fn view(&self) -> ErrorView {
        match self {
            Error::Eyre(text) => ErrorView::Eyre(text@),
            Error::IoError(text) => ErrorView::IoError(text@),
            Error::ControlC => ErrorView::ControlC,
            Error::InvalidConfig => ErrorView::InvalidConfig,
            Error::PanicHandlerSetupError => ErrorView::PanicHandlerSetupError,
            Error::LoggingSetupError => ErrorView::LoggingSetupError,
            Error::ConfigLoadError(text) => ErrorView::ConfigLoadError(text@),
            Error::ConfigParseError(text) => ErrorView::ConfigParseError(text@),
            Error::ConfigValidationError(text) => ErrorView::ConfigValidationError(text@),
            Error::ConfigFileNotFoundError(text) => ErrorView::ConfigFileNotFoundError(text@),
            Error::ConfigSerializationError(text) => ErrorView::ConfigSerializationError(text@),
            Error::LibError(text) => ErrorView::LibError(text@),
        }
    }
}

/// The exit code of each class of failure.
pub open spec fn exit_code_of(error: ErrorView) -> int {
    match error {
        ErrorView::Eyre(_) => 1,
        ErrorView::IoError(_) => 2,
        ErrorView::InvalidConfig => 3,
        ErrorView::LoggingSetupError => 4,
        ErrorView::LibError(_) => 5,
        ErrorView::ConfigLoadError(_) => 6,
        ErrorView::ConfigParseError(_) => 7,
        ErrorView::ConfigValidationError(_) => 8,
        ErrorView::ConfigFileNotFoundError(_) => 9,
        ErrorView::ConfigSerializationError(_) => 10,
        ErrorView::ControlC => 130,
        ErrorView::PanicHandlerSetupError => 205,
    }
}

/// Whether two failures belong to the same class, whatever their texts.
pub open spec fn same_class(a: ErrorView, b: ErrorView) -> bool {
    match (a, b) {
        (ErrorView::Eyre(_), ErrorView::Eyre(_)) => true,
        (ErrorView::IoError(_), ErrorView::IoError(_)) => true,
        (ErrorView::ControlC, ErrorView::ControlC) => true,
        (ErrorView::InvalidConfig, ErrorView::InvalidConfig) => true,
        (ErrorView::PanicHandlerSetupError, ErrorView::PanicHandlerSetupError) => true,
        (ErrorView::LoggingSetupError, ErrorView::LoggingSetupError) => true,
        (ErrorView::ConfigLoadError(_), ErrorView::ConfigLoadError(_)) => true,
        (ErrorView::ConfigParseError(_), ErrorView::ConfigParseError(_)) => true,
        (ErrorView::ConfigValidationError(_), ErrorView::ConfigValidationError(_)) => true,
        (ErrorView::ConfigFileNotFoundError(_), ErrorView::ConfigFileNotFoundError(_)) => true,
        (ErrorView::ConfigSerializationError(_), ErrorView::ConfigSerializationError(_)) => true,
        (ErrorView::LibError(_), ErrorView::LibError(_)) => true,
        _ => false,
    }
}

/// The text a failure carries; empty for a class without one.
pub open spec fn detail_of(error: ErrorView) -> Seq<char> {
    match error {
        ErrorView::Eyre(text) => text,
        ErrorView::IoError(text) => text,
        ErrorView::ConfigLoadError(text) => text,
        ErrorView::ConfigParseError(text) => text,
        ErrorView::ConfigValidationError(text) => text,
        ErrorView::ConfigFileNotFoundError(text) => text,
        ErrorView::ConfigSerializationError(text) => text,
        ErrorView::LibError(text) => text,
        _ => Seq::empty(),
    }
}

/// Two failures have the same exit code exactly when they belong to the
/// same class, and no failure exits with zero.
pub proof fn lemma_exit_codes_tell_classes_apart(a: ErrorView, b: ErrorView)
    ensures
        exit_code_of(a) == exit_code_of(b) <==> same_class(a, b),
        exit_code_of(a) != 0,
{
}

impl Error {
    /// The process exit code for this failure.
    pub fn exit_code(&self) -> (code: i32)
        ensures
            code == exit_code_of(self@),
    {
        match self {
            Error::PanicHandlerSetupError => 205,
            Error::ControlC => 130,
            Error::LoggingSetupError => 4,
            Error::InvalidConfig => 3,
            Error::ConfigLoadError(_) => 6,
            Error::ConfigParseError(_) => 7,
            Error::ConfigValidationError(_) => 8,
            Error::ConfigFileNotFoundError(_) => 9,
            Error::ConfigSerializationError(_) => 10,
            Error::LibError(_) => 5,
            Error::IoError(_) => 2,
            Error::Eyre(_) => 1,
        }
    }

    /// The text the failure carries; empty for a class without one.
    pub fn detail(&self) -> (text: &str)
        ensures
            text@ == detail_of(self@),
    {
        proof {
            reveal_strlit("");
        }
        match self {
            Error::Eyre(text) => text.as_str(),
            Error::IoError(text) => text.as_str(),
            Error::ConfigLoadError(text) => text.as_str(),
            Error::ConfigParseError(text) => text.as_str(),
            Error::ConfigValidationError(text) => text.as_str(),
            Error::ConfigFileNotFoundError(text) => text.as_str(),
            Error::ConfigSerializationError(text) => text.as_str(),
            Error::LibError(text) => text.as_str(),
            _ => "",
        }
    }
}

} // verus!
