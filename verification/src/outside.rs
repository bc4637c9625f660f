//! What this library takes on trust from code it does not verify.

use vstd::prelude::*;

use crate::line::{may_paint, Tint};
use colored::{Color, Colorize};
use std::path::{Path, PathBuf};

verus! {

/// `String::push` puts one character at the end of the string and leaves the
/// rest as it was.
pub assume_specification[ String::push ](s: &mut String, ch: char)
    ensures
        final(s)@ == old(s)@.push(ch),
;

/// Styles `text` as bold in the colour of `tint`, with `colored`'s
/// `Colorize::color` and `Colorize::bold`, and formats the styled value with
/// its `Display` impl.
///
/// Whether `colored` writes escape sequences is settled while the process
/// runs (by the terminal, by `NO_COLOR` and its like, by an override), so
/// the contract admits both outcomes: the text unchanged, or the text
/// between the sequence that selects bold and the colour and the sequence
/// that resets them. Of a text that itself holds an escape character
/// nothing is claimed: `colored` rewrites reset sequences inside such a
/// text.
#[verifier::external_body]
pub(crate) fn paint(text: &str, tint: Tint) -> (out: String)
    ensures
        may_paint(text@, tint, out@),
{
    let colour = match tint {
        Tint::Red => Color::Red,
        Tint::Green => Color::Green,
        Tint::Yellow => Color::Yellow,
        Tint::Blue => Color::Blue,
    };
    text.color(colour).bold().to_string()
}

/// `std::path::PathBuf`, an owned file system path. Verus sees nothing
/// inside such a value.
#[verifier::external_type_specification]
#[verifier::external_body]
pub struct ExPathBuf(PathBuf);

/// `dirs::data_dir`: the user's data directory, as the platform and the
/// variables of the process give it, or nothing where they give none.
/// Nothing is claimed of the answer.
#[verifier::external_body]
pub(crate) fn user_data_dir() -> (out: Option<PathBuf>) {
    dirs::data_dir()
}

/// `Path::to_str`: the path as text, or nothing where the path is not valid
/// Unicode. Nothing is claimed of the answer.
#[verifier::external_body]
pub(crate) fn path_text(path: &PathBuf) -> (out: Option<String>) {
    match path.to_str() {
        Some(text) => Some(text.to_owned()),
        None => None,
    }
}

/// The path that `Path::join` makes of the directory `dir` and the file
/// name `name`, both as text, on the platform that the library is built
/// for.
pub uninterp spec fn path_joined(dir: Seq<char>, name: Seq<char>) -> Seq<char>;

/// `Path::join`: the path of `name` inside `dir`, as text.
#[verifier::external_body]
pub(crate) fn join_path(dir: &str, name: &str) -> (out: String)
    ensures
        out@ == path_joined(dir@, name@),
{
    Path::new(dir).join(name).to_string_lossy().into_owned()
}

} // verus!
