//! Where configuration files are looked for.

use vstd::prelude::*;
use crate::config::defaults::{app_name, join_path, optional_text, path_joined};
use crate::text::lines;

verus! {

/// The places where configuration files are looked for.
pub struct ConfigPaths;

/// Calls `dirs::config_dir`, which reads the user's configuration directory
/// from the environment, and turns the path into text. The answer depends
/// on the platform and the environment, so nothing is claimed of it.
#[verifier::external_body]
fn platform_config_dir() -> (dir: Option<String>) {
    dirs::config_dir().map(|p| p.to_string_lossy().to_string())
}

/// The search list for a given user configuration directory, least
/// specific place first: the file in the working directory, then the
/// application's file below the user's configuration directory where the
/// platform names one.
pub open spec fn candidate_paths(config_dir: Option<Seq<char>>) -> Seq<Seq<char>> {
    match config_dir {
        Some(dir) => seq![
            "./arcanio.toml"@,
            path_joined(path_joined(dir, app_name()), "config.toml"@),
        ],
        None => seq!["./arcanio.toml"@],
    }
}

impl ConfigPaths {
    /// The search list for a given user configuration directory, least
    /// specific place first.
    pub fn candidates(config_dir: Option<String>) -> (paths: Vec<String>)
        ensures
            lines(paths@) == candidate_paths(optional_text(config_dir)),
    {
        let mut paths: Vec<String> = Vec::new();
        paths.push(String::from_str("./arcanio.toml"));
        if let Some(dir) = config_dir {
            let application = join_path(dir.as_str(), "arcanio");
            paths.push(join_path(application.as_str(), "config.toml"));
        }
        paths
    }

    /// The search list on this platform, least specific place first. The
    /// platform is asked for the user's configuration directory, and the
    /// result is what [`ConfigPaths::candidates`] returns for the answer.
    pub fn get_config_file_paths() -> (paths: Vec<String>)
        ensures
            exists|config_dir: Option<Seq<char>>|
                lines(paths@) == #[trigger] candidate_paths(config_dir),
    {
        ConfigPaths::candidates(platform_config_dir())
    }
}

} // verus!
