//! What the file system says about a path. The answers are gathered here
//! and judged by the validators.

use vstd::prelude::*;
use crate::config::defaults::optional_text;

verus! {

/// Whether a path can be written to.
#[derive(Debug, Clone)]
pub enum WriteAccess {
    /// The path's permissions allow writing.
    Writable,
    /// The path is marked read-only.
    ReadOnly,
    /// The permissions could not be read; the text says why.
    Unknown(String),
}

/// The mathematical content of a [`WriteAccess`].
pub enum WriteAccessView {
    Writable,
    ReadOnly,
    Unknown(Seq<char>),
}

impl View for WriteAccess {
    type V = WriteAccessView;

    open spec fn view(&self) -> WriteAccessView {
        match self {
            WriteAccess::Writable => WriteAccessView::Writable,
            WriteAccess::ReadOnly => WriteAccessView::ReadOnly,
            WriteAccess::Unknown(reason) => WriteAccessView::Unknown(reason@),
        }
    }
}

/// What the file system says about one path.
#[derive(Debug, Clone)]
pub struct PathStatus {
    /// Something exists at the path.
    pub exists: bool,
    /// The path names a directory.
    pub is_dir: bool,
    /// Whether the path can be written to.
    pub access: WriteAccess,
}

/// The mathematical content of a [`PathStatus`].
pub struct PathStatusView {
    pub exists: bool,
    pub is_dir: bool,
    pub access: WriteAccessView,
}

impl View for PathStatus {
    type V = PathStatusView;

    open spec fn view(&self) -> PathStatusView {
        PathStatusView { exists: self.exists, is_dir: self.is_dir, access: self.access@ }
    }
}

/// The parent directory of a path, with what the file system says about it.
#[derive(Debug, Clone)]
pub struct ParentProbe {
    /// The parent directory, as text.
    pub path: String,
    /// Its status.
    pub status: PathStatus,
}

/// The mathematical content of a [`ParentProbe`].
pub struct ParentProbeView {
    pub path: Seq<char>,
    pub status: PathStatusView,
}

impl View for ParentProbe {
    type V = ParentProbeView;

    open spec fn view(&self) -> ParentProbeView {
        ParentProbeView { path: self.path@, status: self.status@ }
    }
}

/// The view of an optional parent probe.
pub open spec fn parent_view(parent: Option<ParentProbe>) -> Option<ParentProbeView> {
    match parent {
        Some(probe) => Some(probe@),
        None => None,
    }
}

/// The parent directory of a path, where it has one.
pub uninterp spec fn path_parent_of(path: Seq<char>) -> Option<Seq<char>>;

/// Calls `std::path::Path::parent` on `path` and turns the parent into
/// text. The result is a function of the path's text alone: it is what
/// `path_parent_of` names.
#[verifier::external_body]
fn path_parent(path: &str) -> (parent: Option<String>)
    ensures
        optional_text(parent) == path_parent_of(path@),
{
    std::path::Path::new(path).parent().map(|p| p.display().to_string())
}

/// What the metadata of a path says.
#[derive(Debug, Clone, Copy)]
pub struct PathFacts {
    /// The path names a directory.
    pub is_dir: bool,
    /// The path is marked read-only.
    pub readonly: bool,
}

/// Calls `std::path::Path::metadata` on `path` and reads from it whether
/// the path is a directory and whether its permissions are read-only; a
/// failure is handed on as the text of the I/O error. The answer depends on
/// the file system at the moment of the call, so nothing is claimed of it.
#[verifier::external_body]
fn path_facts(path: &str) -> (lookup: Result<PathFacts, String>) {
    std::path::Path::new(path).metadata().map(
        |m| PathFacts { is_dir: m.is_dir(), readonly: m.permissions().readonly() },
    ).map_err(|e| e.to_string())
}

/// The view of a look at a path's metadata.
pub open spec fn lookup_view(lookup: Result<PathFacts, String>) -> Result<PathFacts, Seq<char>> {
    match lookup {
        Ok(facts) => Ok(facts),
        Err(reason) => Err(reason@),
    }
}

/// The status that a look at a path's metadata stands for. A path whose
/// metadata can be read exists, is a directory or not as the metadata says,
/// and is writable unless it is marked read-only. A path whose metadata
/// cannot be read counts as missing, and the reason is kept.
pub open spec fn status_of(lookup: Result<PathFacts, Seq<char>>) -> PathStatusView {
    match lookup {
        Ok(facts) => PathStatusView {
            exists: true,
            is_dir: facts.is_dir,
            access: if facts.readonly {
                WriteAccessView::ReadOnly
            } else {
                WriteAccessView::Writable
            },
        },
        Err(reason) => PathStatusView {
            exists: false,
            is_dir: false,
            access: WriteAccessView::Unknown(reason),
        },
    }
}

/// Whether a status is what some look at a path's metadata stands for.
pub open spec fn looked_up(status: PathStatusView) -> bool {
    exists|lookup: Result<PathFacts, Seq<char>>| status == #[trigger] status_of(lookup)
}

/// Whether a probe is what looking up the parent of `path` gives: none for
/// a path without a parent; otherwise the parent's name with a status that
/// some look at its metadata stands for.
pub open spec fn parent_looked_up(path: Seq<char>, parent: Option<ParentProbeView>) -> bool {
    match parent {
        Some(probe) => path_parent_of(path) == Some(probe.path) && looked_up(probe.status),
        None => path_parent_of(path) is None,
    }
}

impl PathStatus {
    /// Judges a path from a look at its metadata.
    pub fn of_lookup(lookup: Result<PathFacts, String>) -> (status: PathStatus)
        ensures
            status@ == status_of(lookup_view(lookup)),
    {
        match lookup {
            Ok(facts) => PathStatus {
                exists: true,
                is_dir: facts.is_dir,
                access: if facts.readonly {
                    WriteAccess::ReadOnly
                } else {
                    WriteAccess::Writable
                },
            },
            Err(reason) => PathStatus {
                exists: false,
                is_dir: false,
                access: WriteAccess::Unknown(reason),
            },
        }
    }
}

/// Asks the file system about `path`, with one look at its metadata.
pub fn probe_path(path: &str) -> (status: PathStatus)
    ensures
        looked_up(status@),
{
    PathStatus::of_lookup(path_facts(path))
}

/// Asks the file system about the parent directory of `path`; `None` when
/// the path has no parent.
pub fn probe_parent(path: &str) -> (parent: Option<ParentProbe>)
    ensures
        parent_looked_up(path@, parent_view(parent)),
{
    match path_parent(path) {
        Some(parent) => {
            let status = probe_path(parent.as_str());
            Some(ParentProbe { path: parent, status })
        },
        None => None,
    }
}

} // verus!
