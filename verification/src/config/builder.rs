//! Step-by-step assembly of a configuration from its sources, lowest
//! precedence first.

use vstd::prelude::*;
use crate::config::defaults::{is_default, is_platform_default, AppConfig, AppConfigView};
use crate::config::document::{parse_document, parsed_view, toml_document, Node, NodeView};
use crate::config::merge::{cli_fragment, fragment_from_verbosity, merged, Merge};
use crate::config::sources::{
    decoded, env_fragment, file_views, fragment_from_document, fragment_from_env, variable_views,
    FileState, FileStateView, SourceFile, SourceFileView,
};
use crate::config::validation::errors::{rendered_report, ValidationErrorView};
use crate::config::validation::probe::{parent_view, ParentProbe, ParentProbeView};
use crate::config::validation::rules::{config_report, sink_probed};
use crate::error::{Error, ErrorView};

verus! {

/// The view of a result that carries a configuration.
pub open spec fn config_result(result: Result<AppConfig, Error>) -> Result<
    AppConfigView,
    ErrorView,
> {
    match result {
        Ok(config) => Ok(config@),
        Err(error) => Err(error@),
    }
}

/// The failure for a configuration file that is malformed or cannot be
/// read; the message names the file.
pub open spec fn parse_failure(path: Seq<char>, reason: Seq<char>) -> ErrorView {
    ErrorView::ConfigParseError("Failed to parse config file "@ + path + ": "@ + reason)
}

/// The failure for a file of the search list that cannot be read.
pub open spec fn load_failure(reason: Seq<char>) -> ErrorView {
    ErrorView::ConfigLoadError("Failed to load config files: "@ + reason)
}

/// The failure for a configuration that violates its rules, reported at
/// the named stage.
pub open spec fn validation_failure(
    stage: Seq<char>,
    report: Seq<ValidationErrorView>,
) -> ErrorView {
    ErrorView::ConfigValidationError(stage + rendered_report(report))
}

/// A configuration after a parsed document from `path` was applied: the
/// document's fragment merged in, or the failure that names the file where
/// the text is no document or the document does not fit the configuration.
pub open spec fn with_parsed(
    config: AppConfigView,
    defaults: AppConfigView,
    path: Seq<char>,
    parsed: Result<NodeView, Seq<char>>,
) -> Result<AppConfigView, ErrorView> {
    match parsed {
        Ok(document) => match decoded(document, defaults) {
            Ok(fragment) => Ok(merged(config, fragment, defaults)),
            Err(reason) => Err(parse_failure(path, reason)),
        },
        Err(reason) => Err(parse_failure(path, reason)),
    }
}

/// A configuration after one file of the search list was applied: a
/// missing file changes nothing, an unreadable one is a load failure, and a
/// text is parsed and merged in.
pub open spec fn with_search_file(
    config: AppConfigView,
    defaults: AppConfigView,
    file: SourceFileView,
) -> Result<AppConfigView, ErrorView> {
    match file.state {
        FileStateView::Missing => Ok(config),
        FileStateView::Unreadable(reason) => Err(load_failure(reason)),
        FileStateView::Contents(text) => with_parsed(
            config,
            defaults,
            file.path,
            toml_document(text),
        ),
    }
}

/// A configuration after the search list was applied in order, so that a
/// later file overrides an earlier one; the first failure ends it.
pub open spec fn with_search_files(
    config: AppConfigView,
    defaults: AppConfigView,
    files: Seq<SourceFileView>,
) -> Result<AppConfigView, ErrorView>
    decreases files.len(),
{
    if files.len() == 0 {
        Ok(config)
    } else {
        match with_search_files(config, defaults, files.drop_last()) {
            Ok(earlier) => with_search_file(earlier, defaults, files.last()),
            Err(error) => Err(error),
        }
    }
}

/// A configuration after an explicitly named file was applied. The file
/// must exist: a missing one is a failure of its own class.
pub open spec fn with_explicit_file(
    config: AppConfigView,
    defaults: AppConfigView,
    path: Seq<char>,
    state: FileStateView,
) -> Result<AppConfigView, ErrorView> {
    match state {
        FileStateView::Missing => Err(ErrorView::ConfigFileNotFoundError(path)),
        FileStateView::Unreadable(reason) => Err(parse_failure(path, reason)),
        FileStateView::Contents(text) => with_parsed(config, defaults, path, toml_document(text)),
    }
}

/// Applies the outcome of parsing the file at `path` to a configuration.
pub fn apply_parsed(
    config: AppConfig,
    defaults: &AppConfig,
    path: &str,
    parsed: Result<Node, String>,
) -> (result: Result<AppConfig, Error>)
    ensures
        config_result(result) == with_parsed(config@, defaults@, path@, parsed_view(parsed)),
{
    let decoded = match parsed {
        Ok(document) => fragment_from_document(&document, defaults),
        Err(reason) => Err(reason),
    };
    match decoded {
        Ok(fragment) => {
            let mut config = config;
            config.merge_with(fragment, defaults);
            Ok(config)
        },
        Err(reason) => {
            let mut message = String::from_str("Failed to parse config file ");
            message.append(path);
            message.append(": ");
            message.append(reason.as_str());
            Err(Error::ConfigParseError(message))
        },
    }
}

/// Applies one file of the search list to a configuration.
pub fn apply_search_file(config: AppConfig, defaults: &AppConfig, file: &SourceFile) -> (result:
    Result<AppConfig, Error>)
    ensures
        config_result(result) == with_search_file(config@, defaults@, file@),
{
    match &file.state {
        FileState::Missing => Ok(config),
        FileState::Unreadable(reason) => {
            let mut message = String::from_str("Failed to load config files: ");
            message.append(reason.as_str());
            Err(Error::ConfigLoadError(message))
        },
        FileState::Contents(text) => apply_parsed(
            config,
            defaults,
            file.path.as_str(),
            parse_document(text.as_str()),
        ),
    }
}

/// Applies the search list to a configuration, in order.
pub fn apply_search_files(
    config: AppConfig,
    defaults: &AppConfig,
    files: &Vec<SourceFile>,
) -> (result: Result<AppConfig, Error>)
    ensures
        config_result(result) == with_search_files(config@, defaults@, file_views(files@)),
{
    let mut current = config;
    let mut i: usize = 0;
    while i < files.len()
        invariant
            i <= files@.len(),
            with_search_files(config@, defaults@, file_views(files@).take(i as int)) == Ok::<
                AppConfigView,
                ErrorView,
            >(current@),
        decreases files@.len() - i,
    {
        assert(file_views(files@).take(i + 1).drop_last() =~= file_views(files@).take(i as int));
        match apply_search_file(current, defaults, &files[i]) {
            Ok(next) => {
                current = next;
            },
            Err(error) => {
                proof {
                    lemma_failure_is_final(config@, defaults@, file_views(files@), i + 1);
                }
                return Err(error);
            },
        }
        i += 1;
    }
    assert(file_views(files@).take(files@.len() as int) =~= file_views(files@));
    Ok(current)
}

/// Once a file of the search list has failed, the files after it are not
/// looked at: the failure is the outcome of the whole list.
pub proof fn lemma_failure_is_final(
    config: AppConfigView,
    defaults: AppConfigView,
    files: Seq<SourceFileView>,
    n: int,
)
    requires
        0 <= n <= files.len(),
        with_search_files(config, defaults, files.take(n)) is Err,
    ensures
        with_search_files(config, defaults, files) == with_search_files(
            config,
            defaults,
            files.take(n),
        ),
    decreases files.len() - n,
{
    if n < files.len() {
        assert(files.take(n + 1).drop_last() =~= files.take(n));
        lemma_failure_is_final(config, defaults, files, n + 1);
    } else {
        assert(files.take(n) =~= files);
    }
}

/// Applies an explicitly named file to a configuration.
pub fn apply_explicit_file(
    config: AppConfig,
    defaults: &AppConfig,
    path: &str,
    state: &FileState,
) -> (result: Result<AppConfig, Error>)
    ensures
        config_result(result) == with_explicit_file(config@, defaults@, path@, state@),
{
    match state {
        FileState::Missing => Err(Error::ConfigFileNotFoundError(String::from_str(path))),
        FileState::Unreadable(reason) => {
            let mut message = String::from_str("Failed to parse config file ");
            message.append(path);
            message.append(": ");
            message.append(reason.as_str());
            Err(Error::ConfigParseError(message))
        },
        FileState::Contents(text) => apply_parsed(
            config,
            defaults,
            path,
            parse_document(text.as_str()),
        ),
    }
}

/// Assembles a configuration from its sources.
#[derive(Debug)]
pub struct ConfigBuilder {
    config: AppConfig,
    defaults: AppConfig,
    populated: bool,
}

/// The mathematical content of a [`ConfigBuilder`].
pub struct BuilderView {
    /// The configuration assembled so far.
    pub config: AppConfigView,
    /// The baseline that fragments are compared with.
    pub defaults: AppConfigView,
    /// Whether the defaults have been loaded, so that every leaf holds a
    /// value.
    pub populated: bool,
}

/// The view of a result that carries a builder.
pub open spec fn builder_result(result: Result<ConfigBuilder, Error>) -> Result<
    BuilderView,
    ErrorView,
> {
    match result {
        Ok(builder) => Ok(builder@),
        Err(error) => Err(error@),
    }
}

/// A builder whose configuration was replaced by the outcome of applying a
/// source.
pub open spec fn carried(builder: BuilderView, outcome: Result<AppConfigView, ErrorView>) -> Result<
    BuilderView,
    ErrorView,
> {
    match outcome {
        Ok(config) => Ok(BuilderView { config, ..builder }),
        Err(error) => Err(error),
    }
}

/// What building returns, given what the file system says about the
/// parent of the file sink's path: a builder without defaults has leaves
/// that no source has set; a configuration that violates a rule is a
/// failure that carries the whole report.
pub open spec fn built(builder: BuilderView, parent: Option<ParentProbeView>) -> Result<
    AppConfigView,
    ErrorView,
> {
    if !builder.populated {
        Err(
            ErrorView::ConfigValidationError(
                "Config deserialization failed: missing field `logging`"@,
            ),
        )
    } else if config_report(builder.config, parent).len() == 0 {
        Ok(builder.config)
    } else {
        Err(
            validation_failure(
                "Config validation failed: "@,
                config_report(builder.config, parent),
            ),
        )
    }
}

/// Whether `result` is what building returns for some answer of the file
/// system.
pub open spec fn build_outcome(
    result: Result<AppConfig, Error>,
    builder: BuilderView,
    parent: Option<ParentProbeView>,
) -> bool {
    config_result(result) == built(builder, parent)
}

impl View for ConfigBuilder {
    type V = BuilderView;

    closed spec fn view(&self) -> BuilderView {
        BuilderView { config: self.config@, defaults: self.defaults@, populated: self.populated }
    }
}

impl ConfigBuilder {
    /// An empty builder over the platform's defaults.
    pub fn new() -> (builder: Self)
        ensures
            !builder@.populated,
            is_default(builder@.defaults),
            is_platform_default(builder@.defaults),
            builder@.config == builder@.defaults,
    {
        ConfigBuilder::with_defaults(AppConfig::default())
    }

    /// An empty builder over the given defaults.
    pub fn with_defaults(defaults: AppConfig) -> (builder: Self)
        ensures
            builder@ == (BuilderView {
                config: defaults@,
                defaults: defaults@,
                populated: false,
            }),
    {
        let config = defaults.clone();
        ConfigBuilder { config, defaults, populated: false }
    }

    /// Replaces whatever was assembled by the defaults.
    pub fn load_defaults(self) -> (builder: Self)
        ensures
            builder@ == (BuilderView {
                config: self@.defaults,
                defaults: self@.defaults,
                populated: true,
            }),
    {
        let config = self.defaults.clone();
        ConfigBuilder { config, defaults: self.defaults, populated: true }
    }

    /// Applies the files of the search list in order, so that a later
    /// file overrides an earlier one. A missing file is passed over; an
    /// unreadable or malformed one ends the loading with its failure.
    pub fn load_from_files(self, files: &Vec<SourceFile>) -> (result: Result<Self, Error>)
        ensures
            builder_result(result) == carried(
                self@,
                with_search_files(self@.config, self@.defaults, file_views(files@)),
            ),
    {
        match apply_search_files(self.config, &self.defaults, files) {
            Ok(config) => Ok(
                ConfigBuilder { config, defaults: self.defaults, populated: self.populated },
            ),
            Err(error) => Err(error),
        }
    }

    /// Applies the explicitly named file at `path`, which must exist.
    pub fn load_from_file(self, path: &str, state: &FileState) -> (result: Result<Self, Error>)
        ensures
            builder_result(result) == carried(
                self@,
                with_explicit_file(self@.config, self@.defaults, path@, state@),
            ),
    {
        match apply_explicit_file(self.config, &self.defaults, path, state) {
            Ok(config) => Ok(
                ConfigBuilder { config, defaults: self.defaults, populated: self.populated },
            ),
            Err(error) => Err(error),
        }
    }

    /// Applies a snapshot of the environment. A variable whose value
    /// cannot be read as the kind of its leaf is passed over.
    pub fn load_from_env(self, variables: &Vec<(String, String)>) -> (builder: Self)
        ensures
            builder@ == (BuilderView {
                config: merged(
                    self@.config,
                    env_fragment(variable_views(variables@), self@.defaults),
                    self@.defaults,
                ),
                ..self@
            }),
    {
        let mut config = self.config;
        config.merge_with(fragment_from_env(variables, &self.defaults), &self.defaults);
        ConfigBuilder { config, defaults: self.defaults, populated: self.populated }
    }

    /// Applies the verbosity count of the command line.
    pub fn load_from_cli_args(self, verbose: u8) -> (builder: Self)
        ensures
            builder@ == (BuilderView {
                config: merged(
                    self@.config,
                    cli_fragment(verbose, self@.defaults),
                    self@.defaults,
                ),
                ..self@
            }),
    {
        let mut config = self.config;
        config.merge_with(fragment_from_verbosity(verbose, &self.defaults), &self.defaults);
        ConfigBuilder { config, defaults: self.defaults, populated: self.populated }
    }

    /// The configuration assembled so far, not validated.
    pub fn into_config(self) -> (config: AppConfig)
        ensures
            config@ == self@.config,
    {
        self.config
    }

    /// Validates what was assembled against what the file system said
    /// about the parent of the file sink's path.
    pub fn build_with(self, parent: &Option<ParentProbe>) -> (result: Result<AppConfig, Error>)
        ensures
            config_result(result) == built(self@, parent_view(*parent)),
    {
        if !self.populated {
            return Err(
                Error::ConfigValidationError(
                    String::from_str("Config deserialization failed: missing field `logging`"),
                ),
            );
        }
        match self.config.validate_with(parent) {
            Ok(_) => Ok(self.config),
            Err(errors) => {
                let mut message = String::from_str("Config validation failed: ");
                message.append(errors.render().as_str());
                Err(Error::ConfigValidationError(message))
            },
        }
    }

    /// Validates what was assembled and hands it out. The parent of an
    /// enabled file sink's path is looked up on disk, and the result is
    /// what [`ConfigBuilder::build_with`] returns for the answer.
    pub fn build(self) -> (result: Result<AppConfig, Error>)
        ensures
            exists|parent: Option<ParentProbeView>| #[trigger]
                build_outcome(result, self@, parent) && sink_probed(
                    self@.config.logging.file,
                    parent,
                ),
    {
        let parent = self.config.logging.file.probe();
        let ghost before = self@;
        let result = self.build_with(&parent);
        assert(build_outcome(result, before, parent_view(parent)));
        result
    }
}

} // verus!
