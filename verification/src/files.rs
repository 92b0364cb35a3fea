//! The kinds of media file the application knows.

use vstd::prelude::*;
use vstd::std_specs::convert::FromSpecImpl;
use crate::text::{chars_of, lines, text_eq};

verus! {

/// The kinds of media.
#[derive(Debug, Clone, Copy, PartialEq, Eq)]
pub enum SupportedMediaType {
    Music,
    Audiobook,
    Ebook,
    TVShow,
    Movie,
}

/// The file types the application can handle.
#[derive(Debug, Clone, Copy, PartialEq, Eq)]
pub enum SupportedFiletype {
    Flac,
    M4a,
}

/// The file types the application can handle, as the top level of the
/// library names them.
#[derive(Debug, Clone, Copy, PartialEq, Eq)]
pub enum SupportedFiletypes {
    Flac,
    M4a,
}

/// The extension of a file type, with its dot.
pub open spec fn extension_of(filetype: SupportedFiletype) -> Seq<char> {
    match filetype {
        SupportedFiletype::Flac => ".flac"@,
        SupportedFiletype::M4a => ".m4a"@,
    }
}

/// The kind of media that a file type holds.
pub open spec fn media_of(filetype: SupportedFiletype) -> SupportedMediaType {
    match filetype {
        SupportedFiletype::Flac => SupportedMediaType::Music,
        SupportedFiletype::M4a => SupportedMediaType::Music,
    }
}

impl SupportedFiletype {
    /// The extension of the file type, with its dot.
    pub fn get_extension(self) -> (extension: String)
        ensures
            extension@ == extension_of(self),
    {
        match self {
            SupportedFiletype::Flac => String::from_str(".flac"),
            SupportedFiletype::M4a => String::from_str(".m4a"),
        }
    }

    /// The file type that files with the given extension, written without
    /// its dot, hold; `None` for an extension that the application does not
    /// handle.
    pub fn of_extension(extension: &str) -> (filetype: Option<SupportedFiletype>)
        ensures
            filetype == filetype_of(extension@),
    {
        proof {
            reveal_strlit(".");
            reveal_strlit(".flac");
            reveal_strlit(".m4a");
            reveal_strlit("flac");
            reveal_strlit("m4a");
            assert("."@ + "flac"@ =~= ".flac"@);
            assert("."@ + "m4a"@ =~= ".m4a"@);
            assert(("."@ + extension@).skip(1) =~= extension@);
            assert(".flac"@.skip(1) =~= "flac"@);
            assert(".m4a"@.skip(1) =~= "m4a"@);
        }
        if text_eq(extension, "flac") {
            Some(SupportedFiletype::Flac)
        } else if text_eq(extension, "m4a") {
            Some(SupportedFiletype::M4a)
        } else {
            None
        }
    }
}

/// The file type whose extension is a dot and then `extension`.
pub open spec fn filetype_of(extension: Seq<char>) -> Option<SupportedFiletype> {
    if "."@ + extension == extension_of(SupportedFiletype::Flac) {
        Some(SupportedFiletype::Flac)
    } else if "."@ + extension == extension_of(SupportedFiletype::M4a) {
        Some(SupportedFiletype::M4a)
    } else {
        None
    }
}

impl From<SupportedFiletype> for SupportedMediaType {
    /// The kind of media that a file type holds.
    fn from(filetype: SupportedFiletype) -> (media: Self) {
        match filetype {
            SupportedFiletype::Flac => SupportedMediaType::Music,
            SupportedFiletype::M4a => SupportedMediaType::Music,
        }
    }
}

impl FromSpecImpl<SupportedFiletype> for SupportedMediaType {
    open spec fn obeys_from_spec() -> bool {
        true
    }

    open spec fn from_spec(filetype: SupportedFiletype) -> Self {
        media_of(filetype)
    }
}

/// The arguments that make `ffprobe` print the container brand of a file
/// and nothing else.
pub open spec fn probe_arguments(file_path: Seq<char>) -> Seq<Seq<char>> {
    seq![
        "-v"@,
        "quiet"@,
        "-show_entries"@,
        "format_tags=major_brand"@,
        "-of"@,
        "csv=p=0"@,
        file_path,
    ]
}

impl SupportedFiletype {
    /// The arguments of the `ffprobe` call that checks whether the file at
    /// `file_path` really holds this file type. They are the same for every
    /// file type.
    pub fn validation_arguments(self, file_path: &str) -> (arguments: Vec<String>)
        ensures
            lines(arguments@) == probe_arguments(file_path@),
    {
        let mut arguments: Vec<String> = Vec::new();
        arguments.push(String::from_str("-v"));
        arguments.push(String::from_str("quiet"));
        arguments.push(String::from_str("-show_entries"));
        arguments.push(String::from_str("format_tags=major_brand"));
        arguments.push(String::from_str("-of"));
        arguments.push(String::from_str("csv=p=0"));
        arguments.push(String::from_str(file_path));
        arguments
    }
}

/// A text without the slashes at its end.
pub open spec fn without_trailing_slashes(text: Seq<char>) -> Seq<char>
    decreases text.len(),
{
    if text.len() > 0 && text.last() == '/' {
        without_trailing_slashes(text.drop_last())
    } else {
        text
    }
}

/// The pattern that matches everything below a directory, at any depth.
pub fn recursive_pattern(directory: &str) -> (pattern: String)
    ensures
        pattern@ == without_trailing_slashes(directory@) + "/**/*"@,
{
    let letters = chars_of(directory);
    let mut kept: usize = letters.len();
    assert(directory@.take(letters@.len() as int) =~= directory@);
    while kept > 0 && letters[kept - 1] == '/'
        invariant
            kept <= letters@.len(),
            letters@ == directory@,
            without_trailing_slashes(directory@) == without_trailing_slashes(
                directory@.take(kept as int),
            ),
        decreases kept,
    {
        assert(directory@.take(kept as int).drop_last() =~= directory@.take(kept - 1));
        kept -= 1;
    }
    let mut pattern = String::from_str(directory.substring_char(0, kept));
    pattern.append("/**/*");
    pattern
}

impl SupportedFiletypes {
    /// The extension of the file type, with its dot.
    pub fn get_extension(self) -> (extension: String)
        ensures
            extension@ == match self {
                SupportedFiletypes::Flac => ".flac"@,
                SupportedFiletypes::M4a => ".m4a"@,
            },
    {
        match self {
            SupportedFiletypes::Flac => String::from_str(".flac"),
            SupportedFiletypes::M4a => String::from_str(".m4a"),
        }
    }
}

} // verus!
