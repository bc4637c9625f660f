//! Where the store lives: one file in the user's data directory.

use vstd::prelude::*;

use crate::error::{outcome, Error};
use crate::outside::{join_path, path_joined, path_text, user_data_dir};

verus! {

/// How the program was built. A development build keeps its tasks in a file
/// of its own, so that trying things out never touches the real list.
#[derive(Clone, Copy, Debug, PartialEq, Eq, Structural)]
pub enum BuildMode {
    Debug,
    Release,
}

/// The name of the store's file: `later` with the extension of the build
/// mode.
pub open spec fn data_file_name(mode: BuildMode) -> Seq<char> {
    match mode {
        BuildMode::Debug => "later.dbg.txt"@,
        BuildMode::Release => "later.txt"@,
    }
}

/// The name of the store's file.
pub fn file_name(mode: BuildMode) -> (out: &'static str)
    ensures
        out@ == data_file_name(mode),
{
    match mode {
        BuildMode::Debug => "later.dbg.txt",
        BuildMode::Release => "later.txt",
    }
}

/// The two build modes never share a file: their file names differ.
pub proof fn lemma_build_modes_keep_apart()
    ensures
        data_file_name(BuildMode::Debug) != data_file_name(BuildMode::Release),
{
    reveal_strlit("later.dbg.txt");
    reveal_strlit("later.txt");
    assert(data_file_name(BuildMode::Debug).len() != data_file_name(BuildMode::Release).len());
}

/// The path of the store's file, given the user's data directory: the
/// file's name inside that directory. Without a data directory there is no
/// such path.
pub open spec fn data_path(dir: Option<Seq<char>>, mode: BuildMode) -> Result<Seq<char>, Error> {
    match dir {
        Some(dir) => Ok(path_joined(dir, data_file_name(mode))),
        None => Err(Error::Config),
    }
}

/// The path of the store's file, given the user's data directory.
pub fn data_path_in(dir: Option<String>, mode: BuildMode) -> (out: Result<String, Error>)
    ensures
        outcome(out) == data_path(dir.deep_view(), mode),
{
    match dir {
        Some(dir) => Ok(join_path(dir.as_str(), file_name(mode))),
        None => Err(Error::Config),
    }
}

/// The path of the store's file in the data directory of the user who runs
/// the process. It fails where the platform names no such directory, or
/// names one that is not text.
pub fn get_data_path(mode: BuildMode) -> (out: Result<String, Error>)
    ensures
        exists|dir: Option<Seq<char>>| outcome(out) == #[trigger] data_path(dir, mode),
{
    let dir = match user_data_dir() {
        Some(path) => path_text(&path),
        None => None,
    };
    data_path_in(dir, mode)
}

} // verus!
