use arcanio::cli::{Cli, Command, ConfigCommand};
use arcanio::config::resolve::{check_config, gather_config};
use arcanio::config::{
    load_config_with_cli_override, AppConfig, ConfigSources, FileLoggingConfig, FileState,
    ParentProbe, PathStatus, SourceFile, WriteAccess,
};
use arcanio::Error;

fn cli(verbose: u8, config: Option<&str>) -> Cli {
    Cli { command: Command::Temp, verbose, config: config.map(|path| path.to_string()) }
}

fn no_sources() -> ConfigSources {
    ConfigSources { search: Vec::new(), explicit: FileState::Missing, environment: Vec::new() }
}

fn file(path: &str, text: &str) -> SourceFile {
    SourceFile { path: path.to_string(), state: FileState::Contents(text.to_string()) }
}

fn defaults() -> AppConfig {
    let mut config = AppConfig::default();
    config.logging.file = FileLoggingConfig::with_path("/data/arcanio".to_string());
    config
}

#[test]
fn no_source_resolves_to_the_defaults() {
    let config = load_config_with_cli_override(&cli(0, None), &no_sources()).unwrap();

    assert_eq!(config.logging.console.level, "off");
    assert_eq!(config.logging.console.format, "compact");
    assert!(!config.logging.file.enabled);
    assert_eq!(config.logging.file.level, "debug");
    assert_eq!(config.logging.file.rotation, "daily");
}

#[test]
fn precedence_rises_from_files_over_environment_to_command_line() {
    let sources = ConfigSources {
        search: vec![
            file("./arcanio.toml", "[logging.console]\nlevel = \"warn\"\nformat = \"json\"\nshow_file = false\n"),
            file("/home/a/.config/arcanio/config.toml", "[logging.console]\nformat = \"pretty\"\n"),
        ],
        explicit: FileState::Missing,
        environment: vec![
            ("ARCANIO_LOGGING_CONSOLE_LEVEL".to_string(), "error".to_string()),
            ("ARCANIO_LOGGING_CONSOLE_SHOW_TARGET".to_string(), "false".to_string()),
        ],
    };

    let by_environment = load_config_with_cli_override(&cli(0, None), &sources).unwrap();
    assert_eq!(by_environment.logging.console.level, "error");
    assert_eq!(by_environment.logging.console.format, "pretty");
    assert!(!by_environment.logging.console.show_file);
    assert!(!by_environment.logging.console.show_target);

    let by_command_line = load_config_with_cli_override(&cli(3, None), &sources).unwrap();
    assert_eq!(by_command_line.logging.console.level, "debug");
    assert_eq!(by_command_line.logging.console.format, "pretty");
}

#[test]
fn explicit_file_replaces_the_search_list() {
    let sources = ConfigSources {
        search: vec![file("./arcanio.toml", "[logging.console]\nformat = \"json\"\n")],
        explicit: FileState::Contents("[logging.console]\nlevel = \"info\"\n".to_string()),
        environment: Vec::new(),
    };

    let config = load_config_with_cli_override(&cli(0, Some("/etc/arcanio.toml")), &sources).unwrap();

    assert_eq!(config.logging.console.level, "info");
    assert_eq!(config.logging.console.format, "compact");
}

#[test]
fn malformed_search_file_is_not_read_when_a_file_is_named() {
    let sources = ConfigSources {
        search: vec![file("./arcanio.toml", "[broken")],
        explicit: FileState::Contents("".to_string()),
        environment: Vec::new(),
    };

    assert!(load_config_with_cli_override(&cli(0, Some("/etc/arcanio.toml")), &sources).is_ok());
    assert!(matches!(
        load_config_with_cli_override(&cli(0, None), &sources),
        Err(Error::ConfigParseError(_))
    ));
}

#[test]
fn missing_explicit_file_ends_the_resolution() {
    let sources = ConfigSources {
        search: vec![file("./arcanio.toml", "[logging.console]\nlevel = \"loud\"\n")],
        explicit: FileState::Missing,
        environment: vec![("ARCANIO_LOGGING_CONSOLE_FORMAT".to_string(), "xml".to_string())],
    };

    let error =
        load_config_with_cli_override(&cli(2, Some("/nonexistent/path/config.toml")), &sources)
            .unwrap_err();

    assert!(matches!(&error, Error::ConfigFileNotFoundError(path) if path == "/nonexistent/path/config.toml"));
    assert_eq!(error.exit_code(), 9);
}

#[test]
fn unparseable_flag_in_the_environment_falls_back() {
    let sources = ConfigSources {
        search: vec![file("./arcanio.toml", "[logging.console]\nshow_file = false\n")],
        explicit: FileState::Missing,
        environment: vec![
            ("ARCANIO_LOGGING_CONSOLE_SHOW_FILE".to_string(), "perhaps".to_string()),
            ("ARCANIO_LOGGING_FILE_ENABLED".to_string(), "maybe".to_string()),
        ],
    };

    let config = load_config_with_cli_override(&cli(0, None), &sources).unwrap();

    assert!(!config.logging.console.show_file);
    assert!(!config.logging.file.enabled);
}

#[test]
fn invalid_final_configuration_carries_the_whole_report() {
    let sources = ConfigSources {
        search: vec![file("./arcanio.toml", "[logging.console]\nlevel = \"loud\"\nformat = \"xml\"\n")],
        explicit: FileState::Missing,
        environment: Vec::new(),
    };

    let error = load_config_with_cli_override(&cli(0, None), &sources).unwrap_err();

    assert_eq!(error.exit_code(), 8);
    assert!(error.detail().starts_with(
        "Final config validation failed: Configuration validation failed with 2 error(s):\n"
    ));
    assert!(error.detail().contains("Validation error in field 'logging.console.level': Invalid log level (current value: 'loud')"));
    assert!(error.detail().contains("Validation error in field 'logging.console.format': Invalid log format (current value: 'xml')"));
    assert!(error.detail().contains("Try using 'json' instead"));
}

#[test]
fn command_line_can_repair_an_invalid_level() {
    let sources = ConfigSources {
        search: vec![file("./arcanio.toml", "[logging.console]\nlevel = \"loud\"\n")],
        explicit: FileState::Missing,
        environment: Vec::new(),
    };

    assert!(load_config_with_cli_override(&cli(0, None), &sources).is_err());
    let config = load_config_with_cli_override(&cli(1, None), &sources).unwrap();
    assert_eq!(config.logging.console.level, "error");
}

#[test]
fn gathering_is_exact_over_given_defaults() {
    let sources = ConfigSources {
        search: vec![file("./arcanio.toml", "[logging.file]\nenabled = true\nrotation = \"hourly\"\n")],
        explicit: FileState::Missing,
        environment: vec![("ARCANIO_LOGGING_FILE_PATH".to_string(), "/var/log/arcanio".to_string())],
    };

    let config = gather_config(&cli(4, None), &sources, defaults()).unwrap();

    assert_eq!(config.logging.console.level, "trace");
    assert!(config.logging.file.enabled);
    assert_eq!(config.logging.file.rotation, "hourly");
    assert_eq!(config.logging.file.path, "/var/log/arcanio");
    assert_eq!(config.logging.file.level, "debug");
}

#[test]
fn checking_returns_the_configuration_or_the_report() {
    let writable = Some(ParentProbe {
        path: "/data".to_string(),
        status: PathStatus { exists: true, is_dir: true, access: WriteAccess::Writable },
    });
    let missing = Some(ParentProbe {
        path: "/data".to_string(),
        status: PathStatus { exists: false, is_dir: false, access: WriteAccess::Writable },
    });
    let mut config = defaults();
    config.logging.file.enabled = true;

    let accepted = check_config(config.clone(), &writable).unwrap();
    assert_eq!(accepted.logging.file.path, "/data/arcanio");

    match check_config(config, &missing) {
        Err(Error::ConfigValidationError(message)) => {
            assert_eq!(
                message,
                "Final config validation failed: Configuration validation failed with 1 error(s):\n\
                 Validation error in field 'logging.file.path': Parent directory does not exist \
                 (current value: '/data/arcanio')\n  Context: Parent directory: /data\n  Suggestions:\n    \
                 - Create the parent directory first or use a different path"
            );
        }
        other => panic!("unexpected result: {:?}", other),
    }
}

#[test]
fn command_is_carried_through() {
    let options = Cli { command: Command::Config { command: ConfigCommand::Default }, verbose: 0, config: None };
    assert_eq!(options.command, Command::Config { command: ConfigCommand::Default });
    assert_ne!(options.command, Command::Temp);
    assert_ne!(ConfigCommand::Default, ConfigCommand::Current);
}
