//! The configuration tree and its built-in defaults.

use vstd::prelude::*;

verus! {

/// Settings of the console sink.
#[derive(Debug)]
pub struct ConsoleLoggingConfig {
    pub level: String,
    pub format: String,
    pub show_file: bool,
    pub show_line_numbers: bool,
    pub show_thread_ids: bool,
    pub show_target: bool,
}

/// Settings of the file sink.
#[derive(Debug)]
pub struct FileLoggingConfig {
    pub enabled: bool,
    pub level: String,
    pub path: String,
    pub rotation: String,
}

/// The logging section.
#[derive(Debug)]
pub struct LoggingConfig {
    pub console: ConsoleLoggingConfig,
    pub file: FileLoggingConfig,
}

/// The whole configuration.
#[derive(Debug)]
pub struct AppConfig {
    pub logging: LoggingConfig,
}

/// The mathematical content of a [`ConsoleLoggingConfig`].
pub struct ConsoleLoggingView {
    pub level: Seq<char>,
    pub format: Seq<char>,
    pub show_file: bool,
    pub show_line_numbers: bool,
    pub show_thread_ids: bool,
    pub show_target: bool,
}

/// The mathematical content of a [`FileLoggingConfig`].
pub struct FileLoggingView {
    pub enabled: bool,
    pub level: Seq<char>,
    pub path: Seq<char>,
    pub rotation: Seq<char>,
}

/// The mathematical content of a [`LoggingConfig`].
pub struct LoggingView {
    pub console: ConsoleLoggingView,
    pub file: FileLoggingView,
}

/// The mathematical content of an [`AppConfig`].
pub struct AppConfigView {
    pub logging: LoggingView,
}

impl View for ConsoleLoggingConfig {
    type V = ConsoleLoggingView;

    open spec fn view(&self) -> ConsoleLoggingView {
        ConsoleLoggingView {
            level: self.level@,
            format: self.format@,
            show_file: self.show_file,
            show_line_numbers: self.show_line_numbers,
            show_thread_ids: self.show_thread_ids,
            show_target: self.show_target,
        }
    }
}

impl View for FileLoggingConfig {
    type V = FileLoggingView;

    open spec fn view(&self) -> FileLoggingView {
        FileLoggingView {
            enabled: self.enabled,
            level: self.level@,
            path: self.path@,
            rotation: self.rotation@,
        }
    }
}

impl View for LoggingConfig {
    type V = LoggingView;

    open spec fn view(&self) -> LoggingView {
        LoggingView { console: self.console@, file: self.file@ }
    }
}

impl View for AppConfig {
    type V = AppConfigView;

    open spec fn view(&self) -> AppConfigView {
        AppConfigView { logging: self.logging@ }
    }
}

/// The name of the application: it names the configuration files, the
/// directories below the user's directories and the environment prefix.
pub open spec fn app_name() -> Seq<char> {
    "arcanio"@
}

/// The default console sink: silent, compact, every decoration shown.
pub open spec fn default_console() -> ConsoleLoggingView {
    ConsoleLoggingView {
        level: "off"@,
        format: "compact"@,
        show_file: true,
        show_line_numbers: true,
        show_thread_ids: true,
        show_target: true,
    }
}

/// The default file sink, which writes below `path`: disabled, at level
/// `debug`, rotated daily.
pub open spec fn default_file(path: Seq<char>) -> FileLoggingView {
    FileLoggingView { enabled: false, level: "debug"@, path, rotation: "daily"@ }
}

/// The default configuration whose file sink writes below `path`.
pub open spec fn default_config(path: Seq<char>) -> AppConfigView {
    AppConfigView {
        logging: LoggingView { console: default_console(), file: default_file(path) },
    }
}

/// Whether a configuration holds the defaults, whatever the platform chose
/// as the file sink's directory.
pub open spec fn is_default(config: AppConfigView) -> bool {
    config == default_config(config.logging.file.path)
}

/// Whether a configuration holds the defaults for some answer of the
/// platform about the user's data directory.
pub open spec fn is_platform_default(config: AppConfigView) -> bool {
    exists|data_dir: Option<Seq<char>>|
        config == default_config(#[trigger] default_log_directory(data_dir))
}

/// Calls `dirs::data_dir`, which reads the user's data directory from the
/// environment, and turns the path into text. The answer depends on the
/// platform and the environment, so nothing is claimed of it.
#[verifier::external_body]
fn platform_data_dir() -> (dir: Option<String>) {
    dirs::data_dir().map(|p| p.to_string_lossy().to_string())
}

/// The path that names `name` below `base`.
pub uninterp spec fn path_joined(base: Seq<char>, name: Seq<char>) -> Seq<char>;

/// Calls `std::path::Path::join` to append `name` to `base` and turns the
/// path into text. The result is a function of the two texts alone: it is
/// what `path_joined` names.
#[verifier::external_body]
pub(crate) fn join_path(base: &str, name: &str) -> (joined: String)
    ensures
        joined@ == path_joined(base@, name@),
{
    std::path::Path::new(base).join(name).to_string_lossy().to_string()
}

/// The directory that the default file sink writes to: the application's
/// directory below the user's data directory, or below the current
/// directory where the platform names no data directory.
pub open spec fn default_log_directory(data_dir: Option<Seq<char>>) -> Seq<char> {
    match data_dir {
        Some(dir) => path_joined(dir, app_name()),
        None => path_joined("."@, app_name()),
    }
}

/// The view of an optional text.
pub open spec fn optional_text(text: Option<String>) -> Option<Seq<char>> {
    match text {
        Some(text) => Some(text@),
        None => None,
    }
}

impl Clone for ConsoleLoggingConfig {
    fn clone(&self) -> (copy: Self)
        ensures
            copy@ == self@,
    {
        ConsoleLoggingConfig {
            level: self.level.clone(),
            format: self.format.clone(),
            show_file: self.show_file,
            show_line_numbers: self.show_line_numbers,
            show_thread_ids: self.show_thread_ids,
            show_target: self.show_target,
        }
    }
}

impl Clone for FileLoggingConfig {
    fn clone(&self) -> (copy: Self)
        ensures
            copy@ == self@,
    {
        FileLoggingConfig {
            enabled: self.enabled,
            level: self.level.clone(),
            path: self.path.clone(),
            rotation: self.rotation.clone(),
        }
    }
}

impl Clone for LoggingConfig {
    fn clone(&self) -> (copy: Self)
        ensures
            copy@ == self@,
    {
        LoggingConfig { console: self.console.clone(), file: self.file.clone() }
    }
}

impl Clone for AppConfig {
    fn clone(&self) -> (copy: Self)
        ensures
            copy@ == self@,
    {
        AppConfig { logging: self.logging.clone() }
    }
}

impl Default for ConsoleLoggingConfig {
    /// The default console sink.
    fn default() -> (config: Self)
        ensures
            config@ == default_console(),
    {
        ConsoleLoggingConfig {
            level: String::from_str("off"),
            format: String::from_str("compact"),
            show_file: true,
            show_line_numbers: true,
            show_thread_ids: true,
            show_target: true,
        }
    }
}

impl FileLoggingConfig {
    /// The default file sink that writes below `path`.
    pub fn with_path(path: String) -> (config: Self)
        ensures
            config@ == default_file(path@),
    {
        FileLoggingConfig {
            enabled: false,
            level: String::from_str("debug"),
            path,
            rotation: String::from_str("daily"),
        }
    }
}

impl FileLoggingConfig {
    /// The default file sink for a given user data directory; without one
    /// it writes below the current directory.
    pub fn in_data_dir(data_dir: Option<String>) -> (config: Self)
        ensures
            config@ == default_file(default_log_directory(optional_text(data_dir))),
    {
        let base = match data_dir {
            Some(dir) => dir,
            None => String::from_str("."),
        };
        FileLoggingConfig::with_path(join_path(base.as_str(), "arcanio"))
    }
}

impl Default for FileLoggingConfig {
    /// The default file sink. The platform is asked for the user's data
    /// directory, and the result is what [`FileLoggingConfig::in_data_dir`]
    /// returns for the answer.
    fn default() -> (config: Self)
        ensures
            exists|data_dir: Option<Seq<char>>|
                config@ == default_file(#[trigger] default_log_directory(data_dir)),
    {
        let data_dir = platform_data_dir();
        let config = FileLoggingConfig::in_data_dir(data_dir);
        config
    }
}

impl Default for LoggingConfig {
    /// Both sinks at their defaults.
    fn default() -> (config: Self)
        ensures
            config@.console == default_console(),
            exists|data_dir: Option<Seq<char>>|
                config@.file == default_file(#[trigger] default_log_directory(data_dir)),
    {
        LoggingConfig {
            console: ConsoleLoggingConfig::default(),
            file: FileLoggingConfig::default(),
        }
    }
}

impl Default for AppConfig {
    /// The baseline configuration. It is the same on every call but for
    /// the file sink's directory, which the platform decides.
    fn default() -> (config: Self)
        ensures
            is_default(config@),
            is_platform_default(config@),
    {
        AppConfig { logging: LoggingConfig::default() }
    }
}

} // verus!
