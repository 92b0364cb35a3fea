//! The resolution of the final configuration: defaults, then the
//! configuration files, then the environment, then the command line, and
//! the validation of the result.

use vstd::prelude::*;
use crate::cli::Cli;
use crate::config::builder::{
    config_result, validation_failure, with_explicit_file, with_search_files, ConfigBuilder,
};
use crate::config::defaults::{is_platform_default, AppConfig, AppConfigView};
use crate::config::merge::{cli_fragment, merged};
use crate::config::sources::{
    env_fragment, file_views, variable_views, FileState, FileStateView, SourceFile, SourceFileView,
};
use crate::config::validation::probe::{parent_view, ParentProbe, ParentProbeView};
use crate::config::validation::rules::{config_report, sink_probed};
use crate::error::{Error, ErrorView};

verus! {

/// What was read for one resolution, before any of it is judged.
#[derive(Debug)]
pub struct ConfigSources {
    /// The files of the search list, least specific first.
    pub search: Vec<SourceFile>,
    /// What was found at the explicitly named file; looked at only where
    /// the command line names one.
    pub explicit: FileState,
    /// The names and values of the environment.
    pub environment: Vec<(String, String)>,
}

/// The mathematical content of a [`ConfigSources`].
pub struct SourcesView {
    pub search: Seq<SourceFileView>,
    pub explicit: FileStateView,
    pub environment: Seq<(Seq<char>, Seq<char>)>,
}

impl View for ConfigSources {
    type V = SourcesView;

    open spec fn view(&self) -> SourcesView {
        SourcesView {
            search: file_views(self.search@),
            explicit: self.explicit@,
            environment: variable_views(self.environment@),
        }
    }
}

/// The view of an optional path.
pub open spec fn path_view(path: Option<String>) -> Option<Seq<char>> {
    match path {
        Some(path) => Some(path@),
        None => None,
    }
}

/// The configuration that the sources add up to, before validation. The
/// files come first: the explicitly named one where there is one, else the
/// search list. The environment overrides the files, and the command line
/// overrides both. A failure to load a file ends the resolution.
pub open spec fn gathered(
    verbose: u8,
    explicit: Option<Seq<char>>,
    sources: SourcesView,
    defaults: AppConfigView,
) -> Result<AppConfigView, ErrorView> {
    let loaded = match explicit {
        Some(path) => with_explicit_file(defaults, defaults, path, sources.explicit),
        None => with_search_files(defaults, defaults, sources.search),
    };
    match loaded {
        Ok(config) => Ok(
            merged(
                merged(config, env_fragment(sources.environment, defaults), defaults),
                cli_fragment(verbose, defaults),
                defaults,
            ),
        ),
        Err(error) => Err(error),
    }
}

/// A gathered configuration after validation, given what the file system
/// says about the parent of the file sink's path: the configuration itself
/// where it violates no rule, else a failure that carries the whole report.
pub open spec fn checked(config: AppConfigView, parent: Option<ParentProbeView>) -> Result<
    AppConfigView,
    ErrorView,
> {
    if config_report(config, parent).len() == 0 {
        Ok(config)
    } else {
        Err(validation_failure("Final config validation failed: "@, config_report(config, parent)))
    }
}

/// The outcome of a resolution over the given defaults.
pub open spec fn resolved(
    verbose: u8,
    explicit: Option<Seq<char>>,
    sources: SourcesView,
    defaults: AppConfigView,
    parent: Option<ParentProbeView>,
) -> Result<AppConfigView, ErrorView> {
    match gathered(verbose, explicit, sources, defaults) {
        Ok(config) => checked(config, parent),
        Err(error) => Err(error),
    }
}

/// Whether `result` is the outcome of a resolution for some directory
/// that the platform chose for the defaults and some answer of the file
/// system.
pub open spec fn resolution_outcome(
    result: Result<AppConfig, Error>,
    verbose: u8,
    explicit: Option<Seq<char>>,
    sources: SourcesView,
    defaults: AppConfigView,
    parent: Option<ParentProbeView>,
) -> bool {
    is_platform_default(defaults) && config_result(result) == resolved(
        verbose,
        explicit,
        sources,
        defaults,
        parent,
    )
}

/// Whether a probe is what the resolution asks of the file system: the
/// parent of the gathered configuration's file sink, and nothing where the
/// sources failed to load.
pub open spec fn resolution_probed(
    verbose: u8,
    explicit: Option<Seq<char>>,
    sources: SourcesView,
    defaults: AppConfigView,
    parent: Option<ParentProbeView>,
) -> bool {
    match gathered(verbose, explicit, sources, defaults) {
        Ok(config) => sink_probed(config.logging.file, parent),
        Err(_) => parent is None,
    }
}

/// An explicitly named file that does not exist ends the resolution with
/// a failure of its own class, whatever the other sources hold; nothing is
/// validated.
pub proof fn lemma_missing_explicit_file_is_fatal(
    verbose: u8,
    path: Seq<char>,
    sources: SourcesView,
    defaults: AppConfigView,
    parent: Option<ParentProbeView>,
)
    requires
        sources.explicit == FileStateView::Missing,
    ensures
        resolved(verbose, Some(path), sources, defaults, parent) == Err::<
            AppConfigView,
            ErrorView,
        >(ErrorView::ConfigFileNotFoundError(path)),
{
}

/// Merges the sources over the given defaults, lowest precedence first.
pub fn gather_config(cli: &Cli, sources: &ConfigSources, defaults: AppConfig) -> (result: Result<
    AppConfig,
    Error,
>)
    ensures
        config_result(result) == gathered(cli.verbose, path_view(cli.config), sources@, defaults@),
{
    let builder = ConfigBuilder::with_defaults(defaults).load_defaults();
    let loaded = match &cli.config {
        Some(path) => builder.load_from_file(path.as_str(), &sources.explicit),
        None => builder.load_from_files(&sources.search),
    };
    match loaded {
        Ok(builder) => Ok(
            builder.load_from_env(&sources.environment).load_from_cli_args(
                cli.verbose,
            ).into_config(),
        ),
        Err(error) => Err(error),
    }
}

/// Validates a gathered configuration against what the file system said
/// about the parent of the file sink's path.
pub fn check_config(config: AppConfig, parent: &Option<ParentProbe>) -> (result: Result<
    AppConfig,
    Error,
>)
    ensures
        config_result(result) == checked(config@, parent_view(*parent)),
{
    match config.validate_with(parent) {
        Ok(_) => Ok(config),
        Err(errors) => {
            let mut message = String::from_str("Final config validation failed: ");
            message.append(errors.render().as_str());
            Err(Error::ConfigValidationError(message))
        },
    }
}

/// Resolves the configuration for the given command line from what was
/// read of the files and the environment. The defaults are looked up on
/// the platform, and the parent of an enabled file sink's path is looked up
/// on disk; the result is what [`gather_config`] and [`check_config`]
/// return for the answers.
pub fn load_config_with_cli_override(cli: &Cli, sources: &ConfigSources) -> (result: Result<
    AppConfig,
    Error,
>)
    ensures
        exists|defaults: AppConfigView, parent: Option<ParentProbeView>| #[trigger]
            resolution_outcome(
                result,
                cli.verbose,
                path_view(cli.config),
                sources@,
                defaults,
                parent,
            ) && resolution_probed(
                cli.verbose,
                path_view(cli.config),
                sources@,
                defaults,
                parent,
            ),
{
    let defaults = AppConfig::default();
    let ghost baseline = defaults@;
    match gather_config(cli, sources, defaults) {
        Ok(config) => {
            let parent = config.logging.file.probe();
            let result = check_config(config, &parent);
            assert(resolution_outcome(
                result,
                cli.verbose,
                path_view(cli.config),
                sources@,
                baseline,
                parent_view(parent),
            ));
            result
        },
        Err(error) => {
            let result: Result<AppConfig, Error> = Err(error);
            assert(resolution_outcome(
                result,
                cli.verbose,
                path_view(cli.config),
                sources@,
                baseline,
                None,
            ));
            result
        },
    }
}

} // verus!
