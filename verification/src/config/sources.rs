//! The sources of configuration values, each turned into a fragment: a
//! full configuration that holds the source's values where it names a leaf
//! and the defaults everywhere else.

use vstd::prelude::*;
use crate::config::defaults::{
    AppConfig, AppConfigView, ConsoleLoggingConfig, ConsoleLoggingView, FileLoggingConfig,
    FileLoggingView, LoggingConfig, LoggingView,
};
use crate::config::document::{
    entry_views, find_entry, first_entry, first_unknown_key, lemma_table_view, Node, NodeView,
};
use crate::text::{eq_ignore_ascii_case, folded, is_one_of, words};

verus! {

/// What was found at the place of a configuration file.
#[derive(Debug)]
pub enum FileState {
    /// No file exists there.
    Missing,
    /// A file exists but could not be read; the text says why.
    Unreadable(String),
    /// The text of the file.
    Contents(String),
}

/// The mathematical content of a [`FileState`].
pub enum FileStateView {
    Missing,
    Unreadable(Seq<char>),
    Contents(Seq<char>),
}

impl View for FileState {
    type V = FileStateView;

    open spec fn view(&self) -> FileStateView {
        match self {
            FileState::Missing => FileStateView::Missing,
            FileState::Unreadable(reason) => FileStateView::Unreadable(reason@),
            FileState::Contents(text) => FileStateView::Contents(text@),
        }
    }
}

/// A candidate configuration file with what was found at its place.
#[derive(Debug)]
pub struct SourceFile {
    /// Where the file is looked for.
    pub path: String,
    /// What was found there.
    pub state: FileState,
}

/// The mathematical content of a [`SourceFile`].
pub struct SourceFileView {
    pub path: Seq<char>,
    pub state: FileStateView,
}

impl View for SourceFile {
    type V = SourceFileView;

    open spec fn view(&self) -> SourceFileView {
        SourceFileView { path: self.path@, state: self.state@ }
    }
}

/// The views of a list of candidate files, in order.
pub open spec fn file_views(files: Seq<SourceFile>) -> Seq<SourceFileView> {
    files.map_values(|file: SourceFile| file@)
}

/// The complaint about a value of the wrong kind at `path`.
pub open spec fn mistyped(path: Seq<char>, expected: Seq<char>) -> Seq<char> {
    "invalid type for `"@ + path + "`: expected "@ + expected
}

/// The complaint about a key that the logging section does not know.
pub open spec fn unknown_field(key: Seq<char>) -> Seq<char> {
    "unknown field `"@ + key + "` in `logging`, expected `console` or `file`"@
}

/// The text at `key`: the fallback where the key is absent, a complaint
/// where the value is no string.
pub open spec fn text_or(
    entries: Seq<(Seq<char>, NodeView)>,
    key: Seq<char>,
    path: Seq<char>,
    fallback: Seq<char>,
) -> Result<Seq<char>, Seq<char>> {
    match first_entry(entries, key) {
        None => Ok(fallback),
        Some(NodeView::Text(text)) => Ok(text),
        Some(_) => Err(mistyped(path, "a string"@)),
    }
}

/// The flag at `key`: the fallback where the key is absent, a complaint
/// where the value is no boolean.
pub open spec fn flag_or(
    entries: Seq<(Seq<char>, NodeView)>,
    key: Seq<char>,
    path: Seq<char>,
    fallback: bool,
) -> Result<bool, Seq<char>> {
    match first_entry(entries, key) {
        None => Ok(fallback),
        Some(NodeView::Flag(flag)) => Ok(flag),
        Some(_) => Err(mistyped(path, "a boolean"@)),
    }
}

/// The entries of the table at `key`: none where the key is absent, a
/// complaint where the value is no table.
pub open spec fn table_or_empty(
    entries: Seq<(Seq<char>, NodeView)>,
    key: Seq<char>,
    path: Seq<char>,
) -> Result<Seq<(Seq<char>, NodeView)>, Seq<char>> {
    match first_entry(entries, key) {
        None => Ok(Seq::empty()),
        Some(NodeView::Table(inner)) => Ok(inner),
        Some(_) => Err(mistyped(path, "a table"@)),
    }
}

/// The console sink that a `[logging.console]` table stands for, over the
/// given defaults; the first complaint in the order of the fields where a
/// value has the wrong kind.
pub open spec fn decoded_console(
    entries: Seq<(Seq<char>, NodeView)>,
    defaults: ConsoleLoggingView,
) -> Result<ConsoleLoggingView, Seq<char>> {
    let level = text_or(entries, "level"@, "logging.console.level"@, defaults.level);
    let format = text_or(entries, "format"@, "logging.console.format"@, defaults.format);
    let show_file = flag_or(
        entries,
        "show_file"@,
        "logging.console.show_file"@,
        defaults.show_file,
    );
    let show_line_numbers = flag_or(
        entries,
        "show_line_numbers"@,
        "logging.console.show_line_numbers"@,
        defaults.show_line_numbers,
    );
    let show_thread_ids = flag_or(
        entries,
        "show_thread_ids"@,
        "logging.console.show_thread_ids"@,
        defaults.show_thread_ids,
    );
    let show_target = flag_or(
        entries,
        "show_target"@,
        "logging.console.show_target"@,
        defaults.show_target,
    );
    if level is Err {
        Err(level->Err_0)
    } else if format is Err {
        Err(format->Err_0)
    } else if show_file is Err {
        Err(show_file->Err_0)
    } else if show_line_numbers is Err {
        Err(show_line_numbers->Err_0)
    } else if show_thread_ids is Err {
        Err(show_thread_ids->Err_0)
    } else if show_target is Err {
        Err(show_target->Err_0)
    } else {
        Ok(
            ConsoleLoggingView {
                level: level->Ok_0,
                format: format->Ok_0,
                show_file: show_file->Ok_0,
                show_line_numbers: show_line_numbers->Ok_0,
                show_thread_ids: show_thread_ids->Ok_0,
                show_target: show_target->Ok_0,
            },
        )
    }
}

/// The file sink that a `[logging.file]` table stands for, over the given
/// defaults; the first complaint in the order of the fields where a value
/// has the wrong kind.
pub open spec fn decoded_file(
    entries: Seq<(Seq<char>, NodeView)>,
    defaults: FileLoggingView,
) -> Result<FileLoggingView, Seq<char>> {
    let enabled = flag_or(entries, "enabled"@, "logging.file.enabled"@, defaults.enabled);
    let level = text_or(entries, "level"@, "logging.file.level"@, defaults.level);
    let path = text_or(entries, "path"@, "logging.file.path"@, defaults.path);
    let rotation = text_or(entries, "rotation"@, "logging.file.rotation"@, defaults.rotation);
    if enabled is Err {
        Err(enabled->Err_0)
    } else if level is Err {
        Err(level->Err_0)
    } else if path is Err {
        Err(path->Err_0)
    } else if rotation is Err {
        Err(rotation->Err_0)
    } else {
        Ok(
            FileLoggingView {
                enabled: enabled->Ok_0,
                level: level->Ok_0,
                path: path->Ok_0,
                rotation: rotation->Ok_0,
            },
        )
    }
}

/// The keys that the logging section knows.
pub open spec fn logging_keys() -> Seq<Seq<char>> {
    seq!["console"@, "file"@]
}

/// The logging section that a `[logging]` table stands for, over the
/// given defaults. A key other than the two sinks is a complaint; keys that
/// a sink does not know are passed over.
pub open spec fn decoded_logging(
    entries: Seq<(Seq<char>, NodeView)>,
    defaults: LoggingView,
) -> Result<LoggingView, Seq<char>> {
    match first_unknown_key(entries, logging_keys()) {
        Some(key) => Err(unknown_field(key)),
        None => {
            let console_table = table_or_empty(entries, "console"@, "logging.console"@);
            let file_table = table_or_empty(entries, "file"@, "logging.file"@);
            if console_table is Err {
                Err(console_table->Err_0)
            } else {
                let console = decoded_console(console_table->Ok_0, defaults.console);
                if console is Err {
                    Err(console->Err_0)
                } else if file_table is Err {
                    Err(file_table->Err_0)
                } else {
                    let file = decoded_file(file_table->Ok_0, defaults.file);
                    if file is Err {
                        Err(file->Err_0)
                    } else {
                        Ok(LoggingView { console: console->Ok_0, file: file->Ok_0 })
                    }
                }
            }
        },
    }
}

/// The fragment that a document stands for, over the given defaults: each
/// leaf that the document names holds the document's value, every other
/// leaf the default. A value of the wrong kind, an unknown key in the
/// logging section and a document that is no table are complaints.
pub open spec fn decoded(document: NodeView, defaults: AppConfigView) -> Result<
    AppConfigView,
    Seq<char>,
> {
    match document {
        NodeView::Table(top) => {
            let logging_table = table_or_empty(top, "logging"@, "logging"@);
            if logging_table is Err {
                Err(logging_table->Err_0)
            } else {
                let logging = decoded_logging(logging_table->Ok_0, defaults.logging);
                if logging is Err {
                    Err(logging->Err_0)
                } else {
                    Ok(AppConfigView { logging: logging->Ok_0 })
                }
            }
        },
        _ => Err("the document is not a table"@),
    }
}

/// The entries of an optional table; none for an absent one.
pub open spec fn section_views(section: Option<&Vec<(String, Node)>>) -> Seq<
    (Seq<char>, NodeView),
> {
    match section {
        Some(entries) => entry_views(entries@),
        None => Seq::empty(),
    }
}

fn complaint(path: &str, expected: &str) -> (message: String)
    ensures
        message@ == mistyped(path@, expected@),
{
    let mut message = String::from_str("invalid type for `");
    message.append(path);
    message.append("`: expected ");
    message.append(expected);
    message
}

fn lookup<'a>(section: Option<&'a Vec<(String, Node)>>, key: &str) -> (found: Option<&'a Node>)
    ensures
        crate::config::document::found_view(found) == first_entry(section_views(section), key@),
{
    match section {
        Some(entries) => find_entry(entries, key),
        None => None,
    }
}

fn read_text(
    section: Option<&Vec<(String, Node)>>,
    key: &str,
    path: &str,
    fallback: &String,
) -> (value: Result<String, String>)
    ensures
        match value {
            Ok(text) => text_or(section_views(section), key@, path@, fallback@) == Ok::<
                Seq<char>,
                Seq<char>,
            >(text@),
            Err(message) => text_or(section_views(section), key@, path@, fallback@) == Err::<
                Seq<char>,
                Seq<char>,
            >(message@),
        },
{
    match lookup(section, key) {
        None => Ok(fallback.clone()),
        Some(Node::Text(text)) => Ok(text.clone()),
        Some(other) => {
            proof {
                if let Node::Table(inner) = other {
                    lemma_table_view(*inner);
                }
            }
            Err(complaint(path, "a string"))
        },
    }
}

fn read_flag(
    section: Option<&Vec<(String, Node)>>,
    key: &str,
    path: &str,
    fallback: bool,
) -> (value: Result<bool, String>)
    ensures
        match value {
            Ok(flag) => flag_or(section_views(section), key@, path@, fallback) == Ok::<
                bool,
                Seq<char>,
            >(flag),
            Err(message) => flag_or(section_views(section), key@, path@, fallback) == Err::<
                bool,
                Seq<char>,
            >(message@),
        },
{
    match lookup(section, key) {
        None => Ok(fallback),
        Some(Node::Flag(flag)) => Ok(*flag),
        Some(other) => {
            proof {
                if let Node::Table(inner) = other {
                    lemma_table_view(*inner);
                }
            }
            Err(complaint(path, "a boolean"))
        },
    }
}

fn read_table<'a>(section: Option<&'a Vec<(String, Node)>>, key: &str, path: &str) -> (value:
    Result<Option<&'a Vec<(String, Node)>>, String>)
    ensures
        match value {
            Ok(inner) => table_or_empty(section_views(section), key@, path@) == Ok::<
                Seq<(Seq<char>, NodeView)>,
                Seq<char>,
            >(section_views(inner)),
            Err(message) => table_or_empty(section_views(section), key@, path@) == Err::<
                Seq<(Seq<char>, NodeView)>,
                Seq<char>,
            >(message@),
        },
{
    match lookup(section, key) {
        None => Ok(None),
        Some(Node::Table(inner)) => {
            proof {
                lemma_table_view(*inner);
            }
            Ok(Some(inner))
        },
        Some(_) => Err(complaint(path, "a table")),
    }
}

fn find_unknown_key<'a>(section: Option<&'a Vec<(String, Node)>>, known: &[&str]) -> (found:
    Option<&'a str>)
    ensures
        match found {
            Some(key) => first_unknown_key(section_views(section), words(known@)) == Some(key@),
            None => first_unknown_key(section_views(section), words(known@)) is None,
        },
{
    match section {
        None => None,
        Some(entries) => {
            let mut i: usize = 0;
            assert(entry_views(entries@).skip(0) =~= entry_views(entries@));
            while i < entries.len()
                invariant
                    i <= entries@.len(),
                    section == Some(entries),
                    first_unknown_key(entry_views(entries@), words(known@)) == first_unknown_key(
                        entry_views(entries@).skip(i as int),
                        words(known@),
                    ),
                decreases entries@.len() - i,
            {
                assert(entry_views(entries@).skip(i as int).drop_first() =~= entry_views(
                    entries@,
                ).skip(i + 1));
                if !is_one_of(entries[i].0.as_str(), known) {
                    return Some(entries[i].0.as_str());
                }
                i += 1;
            }
            None
        },
    }
}

/// The view of a decoding result.
pub open spec fn console_result(value: Result<ConsoleLoggingConfig, String>) -> Result<
    ConsoleLoggingView,
    Seq<char>,
> {
    match value {
        Ok(config) => Ok(config@),
        Err(message) => Err(message@),
    }
}

/// The view of a decoding result.
pub open spec fn file_result(value: Result<FileLoggingConfig, String>) -> Result<
    FileLoggingView,
    Seq<char>,
> {
    match value {
        Ok(config) => Ok(config@),
        Err(message) => Err(message@),
    }
}

/// The view of a decoding result.
pub open spec fn logging_result(value: Result<LoggingConfig, String>) -> Result<
    LoggingView,
    Seq<char>,
> {
    match value {
        Ok(config) => Ok(config@),
        Err(message) => Err(message@),
    }
}

/// The view of a decoding result.
pub open spec fn fragment_result(value: Result<AppConfig, String>) -> Result<
    AppConfigView,
    Seq<char>,
> {
    match value {
        Ok(config) => Ok(config@),
        Err(message) => Err(message@),
    }
}

fn decode_console(section: Option<&Vec<(String, Node)>>, defaults: &ConsoleLoggingConfig) -> (value:
    Result<ConsoleLoggingConfig, String>)
    ensures
        console_result(value) == decoded_console(section_views(section), defaults@),
{
    let level = match read_text(section, "level", "logging.console.level", &defaults.level) {
        Ok(value) => value,
        Err(message) => {
            return Err(message);
        },
    };
    let format = match read_text(section, "format", "logging.console.format", &defaults.format) {
        Ok(value) => value,
        Err(message) => {
            return Err(message);
        },
    };
    let show_file = match read_flag(
        section,
        "show_file",
        "logging.console.show_file",
        defaults.show_file,
    ) {
        Ok(value) => value,
        Err(message) => {
            return Err(message);
        },
    };
    let show_line_numbers = match read_flag(
        section,
        "show_line_numbers",
        "logging.console.show_line_numbers",
        defaults.show_line_numbers,
    ) {
        Ok(value) => value,
        Err(message) => {
            return Err(message);
        },
    };
    let show_thread_ids = match read_flag(
        section,
        "show_thread_ids",
        "logging.console.show_thread_ids",
        defaults.show_thread_ids,
    ) {
        Ok(value) => value,
        Err(message) => {
            return Err(message);
        },
    };
    let show_target = match read_flag(
        section,
        "show_target",
        "logging.console.show_target",
        defaults.show_target,
    ) {
        Ok(value) => value,
        Err(message) => {
            return Err(message);
        },
    };
    Ok(
        ConsoleLoggingConfig {
            level,
            format,
            show_file,
            show_line_numbers,
            show_thread_ids,
            show_target,
        },
    )
}

fn decode_file(section: Option<&Vec<(String, Node)>>, defaults: &FileLoggingConfig) -> (value:
    Result<FileLoggingConfig, String>)
    ensures
        file_result(value) == decoded_file(section_views(section), defaults@),
{
    let enabled = match read_flag(section, "enabled", "logging.file.enabled", defaults.enabled) {
        Ok(value) => value,
        Err(message) => {
            return Err(message);
        },
    };
    let level = match read_text(section, "level", "logging.file.level", &defaults.level) {
        Ok(value) => value,
        Err(message) => {
            return Err(message);
        },
    };
    let path = match read_text(section, "path", "logging.file.path", &defaults.path) {
        Ok(value) => value,
        Err(message) => {
            return Err(message);
        },
    };
    let rotation = match read_text(
        section,
        "rotation",
        "logging.file.rotation",
        &defaults.rotation,
    ) {
        Ok(value) => value,
        Err(message) => {
            return Err(message);
        },
    };
    Ok(FileLoggingConfig { enabled, level, path, rotation })
}

fn decode_logging(section: Option<&Vec<(String, Node)>>, defaults: &LoggingConfig) -> (value:
    Result<LoggingConfig, String>)
    ensures
        logging_result(value) == decoded_logging(section_views(section), defaults@),
{
    let known: [&str; 2] = ["console", "file"];
    assert(words(known@) =~= logging_keys());
    if let Some(key) = find_unknown_key(section, known.as_slice()) {
        let mut message = String::from_str("unknown field `");
        message.append(key);
        message.append("` in `logging`, expected `console` or `file`");
        return Err(message);
    }
    let console_table = match read_table(section, "console", "logging.console") {
        Ok(value) => value,
        Err(message) => {
            return Err(message);
        },
    };
    let console = match decode_console(console_table, &defaults.console) {
        Ok(value) => value,
        Err(message) => {
            return Err(message);
        },
    };
    let file_table = match read_table(section, "file", "logging.file") {
        Ok(value) => value,
        Err(message) => {
            return Err(message);
        },
    };
    let file = match decode_file(file_table, &defaults.file) {
        Ok(value) => value,
        Err(message) => {
            return Err(message);
        },
    };
    Ok(LoggingConfig { console, file })
}

/// Decodes a parsed document into a fragment over the given defaults.
pub fn fragment_from_document(document: &Node, defaults: &AppConfig) -> (value: Result<
    AppConfig,
    String,
>)
    ensures
        fragment_result(value) == decoded(document@, defaults@),
{
    match document {
        Node::Table(top) => {
            proof {
                lemma_table_view(*top);
            }
            let logging_table = match read_table(Some(top), "logging", "logging") {
                Ok(value) => value,
                Err(message) => {
                    return Err(message);
                },
            };
            match decode_logging(logging_table, &defaults.logging) {
                Ok(logging) => Ok(AppConfig { logging }),
                Err(message) => Err(message),
            }
        },
        _ => Err(String::from_str("the document is not a table")),
    }
}

/// The names and values of a snapshot of the environment, in order.
pub open spec fn variable_views(variables: Seq<(String, String)>) -> Seq<
    (Seq<char>, Seq<char>),
> {
    variables.map_values(|variable: (String, String)| (variable.0@, variable.1@))
}

/// The value of the variable called `name`, whatever the case of its
/// letters; of several such variables, the last.
pub open spec fn variable(variables: Seq<(Seq<char>, Seq<char>)>, name: Seq<char>) -> Option<
    Seq<char>,
>
    decreases variables.len(),
{
    if variables.len() == 0 {
        None
    } else if folded(variables.last().0) == folded(name) {
        Some(variables.last().1)
    } else {
        variable(variables.drop_last(), name)
    }
}

/// The flag that a text stands for, whatever the case of its letters:
/// `true`, `1`, `yes` and `on` are true, `false`, `0`, `no` and `off` are
/// false, and any other text is no flag.
pub open spec fn flag_of(text: Seq<char>) -> Option<bool> {
    let word = folded(text);
    if word == "true"@ || word == "1"@ || word == "yes"@ || word == "on"@ {
        Some(true)
    } else if word == "false"@ || word == "0"@ || word == "no"@ || word == "off"@ {
        Some(false)
    } else {
        None
    }
}

/// A text leaf as the environment sets it: the variable's value, or the
/// fallback where the variable is not set.
pub open spec fn text_from(
    variables: Seq<(Seq<char>, Seq<char>)>,
    name: Seq<char>,
    fallback: Seq<char>,
) -> Seq<char> {
    match variable(variables, name) {
        Some(value) => value,
        None => fallback,
    }
}

/// A flag leaf as the environment sets it: the flag that the variable's
/// value stands for, or the fallback where the variable is not set or its
/// value is no flag.
pub open spec fn flag_from(
    variables: Seq<(Seq<char>, Seq<char>)>,
    name: Seq<char>,
    fallback: bool,
) -> bool {
    match variable(variables, name) {
        Some(value) => match flag_of(value) {
            Some(flag) => flag,
            None => fallback,
        },
        None => fallback,
    }
}

/// The fragment that a snapshot of the environment stands for, over the
/// given defaults. Each leaf has a variable of its own: the application's
/// name and the leaf's path, joined by underscores.
pub open spec fn env_fragment(
    variables: Seq<(Seq<char>, Seq<char>)>,
    defaults: AppConfigView,
) -> AppConfigView {
    let console = defaults.logging.console;
    let file = defaults.logging.file;
    AppConfigView {
        logging: LoggingView {
            console: ConsoleLoggingView {
                level: text_from(variables, "ARCANIO_LOGGING_CONSOLE_LEVEL"@, console.level),
                format: text_from(variables, "ARCANIO_LOGGING_CONSOLE_FORMAT"@, console.format),
                show_file: flag_from(
                    variables,
                    "ARCANIO_LOGGING_CONSOLE_SHOW_FILE"@,
                    console.show_file,
                ),
                show_line_numbers: flag_from(
                    variables,
                    "ARCANIO_LOGGING_CONSOLE_SHOW_LINE_NUMBERS"@,
                    console.show_line_numbers,
                ),
                show_thread_ids: flag_from(
                    variables,
                    "ARCANIO_LOGGING_CONSOLE_SHOW_THREAD_IDS"@,
                    console.show_thread_ids,
                ),
                show_target: flag_from(
                    variables,
                    "ARCANIO_LOGGING_CONSOLE_SHOW_TARGET"@,
                    console.show_target,
                ),
            },
            file: FileLoggingView {
                enabled: flag_from(variables, "ARCANIO_LOGGING_FILE_ENABLED"@, file.enabled),
                level: text_from(variables, "ARCANIO_LOGGING_FILE_LEVEL"@, file.level),
                path: text_from(variables, "ARCANIO_LOGGING_FILE_PATH"@, file.path),
                rotation: text_from(variables, "ARCANIO_LOGGING_FILE_ROTATION"@, file.rotation),
            },
        },
    }
}

/// The view of an optional text.
pub open spec fn text_view(text: Option<&str>) -> Option<Seq<char>> {
    match text {
        Some(text) => Some(text@),
        None => None,
    }
}

/// Looks up a variable by name, whatever the case of its letters; of
/// several such variables, the last.
pub fn find_variable<'a>(variables: &'a Vec<(String, String)>, name: &str) -> (value: Option<
    &'a str,
>)
    ensures
        text_view(value) == variable(variable_views(variables@), name@),
{
    let mut value: Option<&'a str> = None;
    let mut i: usize = 0;
    while i < variables.len()
        invariant
            i <= variables@.len(),
            text_view(value) == variable(variable_views(variables@).take(i as int), name@),
        decreases variables@.len() - i,
    {
        assert(variable_views(variables@).take(i + 1).drop_last() =~= variable_views(
            variables@,
        ).take(i as int));
        if eq_ignore_ascii_case(variables[i].0.as_str(), name) {
            value = Some(variables[i].1.as_str());
        }
        i += 1;
    }
    assert(variable_views(variables@).take(variables@.len() as int) =~= variable_views(
        variables@,
    ));
    value
}

fn is_word(text: &str, word: &str) -> (same: bool)
    requires
        folded(word@) == word@,
    ensures
        same == (folded(text@) == word@),
{
    eq_ignore_ascii_case(text, word)
}

/// Reads a flag from a text, whatever the case of its letters.
pub fn parse_flag(text: &str) -> (flag: Option<bool>)
    ensures
        flag == flag_of(text@),
{
    proof {
        reveal_strlit("true");
        reveal_strlit("1");
        reveal_strlit("yes");
        reveal_strlit("on");
        reveal_strlit("false");
        reveal_strlit("0");
        reveal_strlit("no");
        reveal_strlit("off");
        assert(folded("true"@) =~= "true"@);
        assert(folded("1"@) =~= "1"@);
        assert(folded("yes"@) =~= "yes"@);
        assert(folded("on"@) =~= "on"@);
        assert(folded("false"@) =~= "false"@);
        assert(folded("0"@) =~= "0"@);
        assert(folded("no"@) =~= "no"@);
        assert(folded("off"@) =~= "off"@);
    }
    if is_word(text, "true") || is_word(text, "1") || is_word(text, "yes") || is_word(text, "on") {
        Some(true)
    } else if is_word(text, "false") || is_word(text, "0") || is_word(text, "no") || is_word(
        text,
        "off",
    ) {
        Some(false)
    } else {
        None
    }
}

fn env_text(variables: &Vec<(String, String)>, name: &str, fallback: &String) -> (value: String)
    ensures
        value@ == text_from(variable_views(variables@), name@, fallback@),
{
    match find_variable(variables, name) {
        Some(value) => String::from_str(value),
        None => fallback.clone(),
    }
}

fn env_flag(variables: &Vec<(String, String)>, name: &str, fallback: bool) -> (value: bool)
    ensures
        value == flag_from(variable_views(variables@), name@, fallback),
{
    match find_variable(variables, name) {
        Some(value) => match parse_flag(value) {
            Some(flag) => flag,
            None => fallback,
        },
        None => fallback,
    }
}

/// Reads a fragment from a snapshot of the environment, over the given
/// defaults. A variable whose value cannot be read as the kind of its leaf
/// is passed over.
pub fn fragment_from_env(variables: &Vec<(String, String)>, defaults: &AppConfig) -> (fragment:
    AppConfig)
    ensures
        fragment@ == env_fragment(variable_views(variables@), defaults@),
{
    let console = &defaults.logging.console;
    let file = &defaults.logging.file;
    AppConfig {
        logging: LoggingConfig {
            console: ConsoleLoggingConfig {
                level: env_text(variables, "ARCANIO_LOGGING_CONSOLE_LEVEL", &console.level),
                format: env_text(variables, "ARCANIO_LOGGING_CONSOLE_FORMAT", &console.format),
                show_file: env_flag(
                    variables,
                    "ARCANIO_LOGGING_CONSOLE_SHOW_FILE",
                    console.show_file,
                ),
                show_line_numbers: env_flag(
                    variables,
                    "ARCANIO_LOGGING_CONSOLE_SHOW_LINE_NUMBERS",
                    console.show_line_numbers,
                ),
                show_thread_ids: env_flag(
                    variables,
                    "ARCANIO_LOGGING_CONSOLE_SHOW_THREAD_IDS",
                    console.show_thread_ids,
                ),
                show_target: env_flag(
                    variables,
                    "ARCANIO_LOGGING_CONSOLE_SHOW_TARGET",
                    console.show_target,
                ),
            },
            file: FileLoggingConfig {
                enabled: env_flag(variables, "ARCANIO_LOGGING_FILE_ENABLED", file.enabled),
                level: env_text(variables, "ARCANIO_LOGGING_FILE_LEVEL", &file.level),
                path: env_text(variables, "ARCANIO_LOGGING_FILE_PATH", &file.path),
                rotation: env_text(variables, "ARCANIO_LOGGING_FILE_ROTATION", &file.rotation),
            },
        },
    }
}

} // verus!
