//! Merging of configuration fragments.
//!
//! A fragment overrides a field of the base only where it differs from the
//! defaults: a value equal to the default counts as "not set". A source can
//! therefore not bring a field back to its default once an earlier source
//! has changed it.

use vstd::prelude::*;
use crate::cli::Cli;
use crate::config::defaults::{
    default_config, default_log_directory, AppConfig, AppConfigView, ConsoleLoggingConfig,
    ConsoleLoggingView, FileLoggingConfig, FileLoggingView, LoggingConfig, LoggingView,
};

verus! {

/// Merging of a value from another source into this one.
pub trait Merge<T> {
    /// Takes from `other` every field that differs from `defaults` and
    /// leaves the other fields as they are.
    fn merge_with(&mut self, other: T, defaults: &Self);
}

/// Conversion of command-line options into a configuration fragment.
pub trait FromCli<T>: Sized {
    /// The fragment that the options stand for.
    fn from_cli(cli: &T) -> Self;
}

/// The merge rule for one leaf: the incoming value where it differs from
/// the default, else the base value.
pub open spec fn merged_leaf<A>(base: A, incoming: A, defaults: A) -> A {
    if incoming != defaults {
        incoming
    } else {
        base
    }
}

/// The merge rule applied to every leaf of the console sink.
pub open spec fn merged_console(
    base: ConsoleLoggingView,
    incoming: ConsoleLoggingView,
    defaults: ConsoleLoggingView,
) -> ConsoleLoggingView {
    ConsoleLoggingView {
        level: merged_leaf(base.level, incoming.level, defaults.level),
        format: merged_leaf(base.format, incoming.format, defaults.format),
        show_file: merged_leaf(base.show_file, incoming.show_file, defaults.show_file),
        show_line_numbers: merged_leaf(
            base.show_line_numbers,
            incoming.show_line_numbers,
            defaults.show_line_numbers,
        ),
        show_thread_ids: merged_leaf(
            base.show_thread_ids,
            incoming.show_thread_ids,
            defaults.show_thread_ids,
        ),
        show_target: merged_leaf(base.show_target, incoming.show_target, defaults.show_target),
    }
}

/// The merge rule applied to every leaf of the file sink.
pub open spec fn merged_file(
    base: FileLoggingView,
    incoming: FileLoggingView,
    defaults: FileLoggingView,
) -> FileLoggingView {
    FileLoggingView {
        enabled: merged_leaf(base.enabled, incoming.enabled, defaults.enabled),
        level: merged_leaf(base.level, incoming.level, defaults.level),
        path: merged_leaf(base.path, incoming.path, defaults.path),
        rotation: merged_leaf(base.rotation, incoming.rotation, defaults.rotation),
    }
}

/// The merge rule applied to both sinks.
pub open spec fn merged_logging(
    base: LoggingView,
    incoming: LoggingView,
    defaults: LoggingView,
) -> LoggingView {
    LoggingView {
        console: merged_console(base.console, incoming.console, defaults.console),
        file: merged_file(base.file, incoming.file, defaults.file),
    }
}

/// The merge rule applied to the whole configuration.
pub open spec fn merged(
    base: AppConfigView,
    incoming: AppConfigView,
    defaults: AppConfigView,
) -> AppConfigView {
    AppConfigView { logging: merged_logging(base.logging, incoming.logging, defaults.logging) }
}

impl Merge<ConsoleLoggingConfig> for ConsoleLoggingConfig {
    fn merge_with(&mut self, other: ConsoleLoggingConfig, defaults: &Self)
        ensures
            final(self)@ == merged_console(old(self)@, other@, defaults@),
    {
        if other.level != defaults.level {
            self.level = other.level;
        }
        if other.format != defaults.format {
            self.format = other.format;
        }
        if other.show_file != defaults.show_file {
            self.show_file = other.show_file;
        }
        if other.show_line_numbers != defaults.show_line_numbers {
            self.show_line_numbers = other.show_line_numbers;
        }
        if other.show_thread_ids != defaults.show_thread_ids {
            self.show_thread_ids = other.show_thread_ids;
        }
        if other.show_target != defaults.show_target {
            self.show_target = other.show_target;
        }
    }
}

impl Merge<FileLoggingConfig> for FileLoggingConfig {
    fn merge_with(&mut self, other: FileLoggingConfig, defaults: &Self)
        ensures
            final(self)@ == merged_file(old(self)@, other@, defaults@),
    {
        if other.enabled != defaults.enabled {
            self.enabled = other.enabled;
        }
        if other.level != defaults.level {
            self.level = other.level;
        }
        if other.path != defaults.path {
            self.path = other.path;
        }
        if other.rotation != defaults.rotation {
            self.rotation = other.rotation;
        }
    }
}

impl Merge<LoggingConfig> for LoggingConfig {
    fn merge_with(&mut self, other: LoggingConfig, defaults: &Self)
        ensures
            final(self)@ == merged_logging(old(self)@, other@, defaults@),
    {
        self.console.merge_with(other.console, &defaults.console);
        self.file.merge_with(other.file, &defaults.file);
    }
}

impl Merge<AppConfig> for AppConfig {
    fn merge_with(&mut self, other: AppConfig, defaults: &Self)
        ensures
            final(self)@ == merged(old(self)@, other@, defaults@),
    {
        self.logging.merge_with(other.logging, &defaults.logging);
    }
}

/// The leaves of the configuration tree.
pub enum Leaf {
    ConsoleLevel,
    ConsoleFormat,
    ConsoleShowFile,
    ConsoleShowLineNumbers,
    ConsoleShowThreadIds,
    ConsoleShowTarget,
    FileEnabled,
    FileLevel,
    FilePath,
    FileRotation,
}

/// The value of a leaf: a text or a flag.
pub enum LeafValue {
    Text(Seq<char>),
    Flag(bool),
}

/// The value that `config` holds at `leaf`.
pub open spec fn leaf_value(config: AppConfigView, leaf: Leaf) -> LeafValue {
    match leaf {
        Leaf::ConsoleLevel => LeafValue::Text(config.logging.console.level),
        Leaf::ConsoleFormat => LeafValue::Text(config.logging.console.format),
        Leaf::ConsoleShowFile => LeafValue::Flag(config.logging.console.show_file),
        Leaf::ConsoleShowLineNumbers => LeafValue::Flag(config.logging.console.show_line_numbers),
        Leaf::ConsoleShowThreadIds => LeafValue::Flag(config.logging.console.show_thread_ids),
        Leaf::ConsoleShowTarget => LeafValue::Flag(config.logging.console.show_target),
        Leaf::FileEnabled => LeafValue::Flag(config.logging.file.enabled),
        Leaf::FileLevel => LeafValue::Text(config.logging.file.level),
        Leaf::FilePath => LeafValue::Text(config.logging.file.path),
        Leaf::FileRotation => LeafValue::Text(config.logging.file.rotation),
    }
}

/// Every leaf of a merge follows the merge rule: where the incoming value
/// equals the default the base value stays, and where it differs the
/// incoming value is taken exactly.
pub proof fn lemma_merge_decides_leaf_by_leaf(
    base: AppConfigView,
    incoming: AppConfigView,
    defaults: AppConfigView,
    leaf: Leaf,
)
    ensures
        leaf_value(incoming, leaf) == leaf_value(defaults, leaf) ==> leaf_value(
            merged(base, incoming, defaults),
            leaf,
        ) == leaf_value(base, leaf),
        leaf_value(incoming, leaf) != leaf_value(defaults, leaf) ==> leaf_value(
            merged(base, incoming, defaults),
            leaf,
        ) == leaf_value(incoming, leaf),
{
}

/// A fragment that differs from the defaults in one leaf at most leaves
/// every other leaf of the base untouched.
pub proof fn lemma_merge_spares_siblings(
    base: AppConfigView,
    incoming: AppConfigView,
    defaults: AppConfigView,
    changed: Leaf,
)
    requires
        forall|leaf: Leaf|
            leaf != changed ==> leaf_value(incoming, leaf) == leaf_value(defaults, leaf),
    ensures
        forall|leaf: Leaf|
            leaf != changed ==> leaf_value(merged(base, incoming, defaults), leaf) == leaf_value(
                base,
                leaf,
            ),
{
    assert forall|leaf: Leaf| leaf != changed implies leaf_value(
        merged(base, incoming, defaults),
        leaf,
    ) == leaf_value(base, leaf) by {
        lemma_merge_decides_leaf_by_leaf(base, incoming, defaults, leaf);
    }
}

/// Merging the same fragment a second time changes nothing.
pub proof fn lemma_merge_idempotent(
    base: AppConfigView,
    incoming: AppConfigView,
    defaults: AppConfigView,
)
    ensures
        merged(merged(base, incoming, defaults), incoming, defaults) == merged(
            base,
            incoming,
            defaults,
        ),
{
}

/// Of two fragments merged one after the other, the later one decides
/// every leaf that it sets, the earlier one the leaves that it alone sets,
/// and the base keeps the rest: precedence rises with the order of merging.
pub proof fn lemma_later_fragment_wins(
    base: AppConfigView,
    earlier: AppConfigView,
    later: AppConfigView,
    defaults: AppConfigView,
    leaf: Leaf,
)
    ensures
        leaf_value(merged(merged(base, earlier, defaults), later, defaults), leaf) == (if
            leaf_value(later, leaf) != leaf_value(defaults, leaf) {
            leaf_value(later, leaf)
        } else if leaf_value(earlier, leaf) != leaf_value(defaults, leaf) {
            leaf_value(earlier, leaf)
        } else {
            leaf_value(base, leaf)
        }),
{
    let first = merged(base, earlier, defaults);
    lemma_merge_decides_leaf_by_leaf(base, earlier, defaults, leaf);
    lemma_merge_decides_leaf_by_leaf(first, later, defaults, leaf);
}

/// Merging the defaults themselves changes nothing.
pub proof fn lemma_merge_of_defaults_is_noop(base: AppConfigView, defaults: AppConfigView)
    ensures
        merged(base, defaults, defaults) == base,
{
}

/// The log level that a verbosity count stands for.
pub open spec fn verbosity_level(verbose: u8) -> Seq<char> {
    if verbose == 0 {
        "off"@
    } else if verbose == 1 {
        "error"@
    } else if verbose == 2 {
        "info"@
    } else if verbose == 3 {
        "debug"@
    } else {
        "trace"@
    }
}

/// Maps a verbosity count to a log level.
pub fn verbosity_to_log_level(verbose: u8) -> (level: String)
    ensures
        level@ == verbosity_level(verbose),
{
    match verbose {
        0 => String::from_str("off"),
        1 => String::from_str("error"),
        2 => String::from_str("info"),
        3 => String::from_str("debug"),
        _ => String::from_str("trace"),
    }
}

/// The fragment of a verbosity count over the given defaults: the console
/// level where the count is positive, and the defaults everywhere else.
pub open spec fn cli_fragment(verbose: u8, defaults: AppConfigView) -> AppConfigView {
    if verbose > 0 {
        AppConfigView {
            logging: LoggingView {
                console: ConsoleLoggingView {
                    level: verbosity_level(verbose),
                    ..defaults.logging.console
                },
                ..defaults.logging
            },
        }
    } else {
        defaults
    }
}

/// Builds the fragment of a verbosity count over the given defaults.
pub fn fragment_from_verbosity(verbose: u8, defaults: &AppConfig) -> (fragment: AppConfig)
    ensures
        fragment@ == cli_fragment(verbose, defaults@),
{
    let mut fragment = defaults.clone();
    if verbose > 0 {
        fragment.logging.console.level = verbosity_to_log_level(verbose);
    }
    fragment
}

impl FromCli<Cli> for AppConfig {
    /// The platform's defaults, with the console level set from the
    /// verbosity count where that is positive.
    fn from_cli(cli: &Cli) -> (config: Self)
        ensures
            exists|data_dir: Option<Seq<char>>|
                config@ == cli_fragment(
                    cli.verbose,
                    default_config(#[trigger] default_log_directory(data_dir)),
                ),
    {
        let defaults = AppConfig::default();
        fragment_from_verbosity(cli.verbose, &defaults)
    }
}

} // verus!
