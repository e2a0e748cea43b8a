//! Command-line arguments of the gateway server.

use vstd::prelude::*;
use vstd::string::StringExecFns;
use crate::data_source::path::{path_exists, path_from_str, path_is_dir, path_named};
use crate::text::concat2;
use std::path::PathBuf;

verus! {

/// Semantic gateway server arguments: where the model files and the data files are.
#[derive(Debug)]
pub struct ServerArguments {
    models_dir: PathBuf,
    data_dir: PathBuf,
}

/// What the server arguments hold: the models directory and the data directory.
pub struct ServerArgumentsView {
    pub models_dir: PathBuf,
    pub data_dir: PathBuf,
}

impl View for ServerArguments {
    type V = ServerArgumentsView;

    closed spec fn view(&self) -> ServerArgumentsView {
        ServerArgumentsView { models_dir: self.models_dir, data_dir: self.data_dir }
    }
}

impl ServerArguments {
    /// The arguments naming these directories.
    pub fn new(models_dir: PathBuf, data_dir: PathBuf) -> (res: Self)
        ensures
            res@ == (ServerArgumentsView { models_dir, data_dir }),
    {
        ServerArguments { models_dir, data_dir }
    }

    /// The directory containing the models.
    pub fn models_dir(&self) -> (res: &PathBuf)
        ensures
            *res == self@.models_dir,
    {
        &self.models_dir
    }

    /// The directory containing the Parquet data files.
    pub fn data_dir(&self) -> (res: &PathBuf)
        ensures
            *res == self@.data_dir,
    {
        &self.data_dir
    }
}

/// The message refusing a models directory path, given whether the path exists and
/// whether it is a directory; `None` when the path is accepted.
pub open spec fn models_dir_refusal(path: Seq<char>, exists: bool, is_dir: bool) -> Option<Seq<char>> {
    if path.len() == 0 {
        Some("models directory path is empty"@)
    } else if !exists {
        Some("models directory '"@ + path + "' does not exist"@)
    } else if !is_dir {
        Some("models path '"@ + path + "' is not a directory"@)
    } else {
        None
    }
}

/// Decides on the models directory `path`, given whether it exists and whether it is a
/// directory: an empty path is refused first, then a missing one, then one that is no
/// directory.
pub fn check_models_dir(path: &str, exists: bool, is_dir: bool) -> (res: Result<(), String>)
    ensures
        match res {
            Ok(()) => models_dir_refusal(path@, exists, is_dir) is None,
            Err(m) => models_dir_refusal(path@, exists, is_dir) == Some(m@),
        },
{
    if path.unicode_len() == 0 {
        return Err(String::from_str("models directory path is empty"));
    }
    if !exists {
        let mut m = concat2("models directory '", path);
        m.append("' does not exist");
        return Err(m);
    }
    if !is_dir {
        let mut m = concat2("models path '", path);
        m.append("' is not a directory");
        return Err(m);
    }
    Ok(())
}

/// Parses the `--models-dir` argument: the path must be non-empty, exist, and be a
/// directory. An empty path is refused without asking the disk; otherwise the answer
/// rests on what the disk says at the moment of the call, and an accepted path is the
/// path spelled by `path`.
pub fn parse_models_dir(path: &str) -> (res: Result<PathBuf, String>)
    ensures
        path@.len() == 0 ==> (res matches Err(m) && m@ == "models directory path is empty"@),
        path@.len() > 0 ==> match res {
            Ok(p) => p == path_named(path@),
            Err(m) => m@ == "models directory '"@ + path@ + "' does not exist"@ || m@
                == "models path '"@ + path@ + "' is not a directory"@,
        },
{
    if path.unicode_len() == 0 {
        return Err(String::from_str("models directory path is empty"));
    }
    let dir = path_from_str(path);
    let exists = path_exists(&dir);
    let is_dir = if exists { path_is_dir(&dir) } else { false };
    match check_models_dir(path, exists, is_dir) {
        Ok(()) => Ok(dir),
        Err(m) => Err(m),
    }
}

} // verus!
