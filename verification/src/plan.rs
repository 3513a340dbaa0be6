//! What a run does with each thing it finds.
//!
//! A run empties its two output directories and then takes every file of the
//! input directory whose extension names a vector document, whatever the case
//! of its letters. Each such file gives one raster and one icon, named after
//! it.

use vstd::prelude::*;
use vstd::string::*;

verus! {

/// Whether `extension` is `svg` in any mix of upper and lower case.
pub open spec fn names_vector(extension: Seq<char>) -> bool {
    &&& extension.len() == 3
    &&& (extension[0] == 's' || extension[0] == 'S')
    &&& (extension[1] == 'v' || extension[1] == 'V')
    &&& (extension[2] == 'g' || extension[2] == 'G')
}

/// Whether a file with this extension is a vector document to convert.
pub fn is_vector_extension(extension: &str) -> (r: bool)
    ensures
        r == names_vector(extension@),
{
    if extension.unicode_len() != 3 {
        return false;
    }
    let first = extension.get_char(0);
    let second = extension.get_char(1);
    let third = extension.get_char(2);
    (first == 's' || first == 'S') && (second == 'v' || second == 'V') && (third == 'g' || third
        == 'G')
}

/// The name of the raster made from the file with this stem.
pub open spec fn raster_name_of(stem: Seq<char>) -> Seq<char> {
    stem + ".png"@
}

/// The name of the icon made from the file with this stem.
pub open spec fn icon_name_of(stem: Seq<char>) -> Seq<char> {
    stem + ".ico"@
}

/// The line that announces the file at `path`.
pub open spec fn progress_line_of(path: Seq<char>) -> Seq<char> {
    "Processing: "@ + path
}

/// The two files that one vector document gives.
pub struct Outputs {
    pub raster_name: String,
    pub icon_name: String,
}

/// Names the outputs of the file with the given stem and extension, if it is
/// a vector document; any other file gives none.
pub fn plan_outputs(stem: &str, extension: Option<&str>) -> (r: Option<Outputs>)
    ensures
        r is Some <==> (extension matches Some(e) && names_vector(e@)),
        r matches Some(outputs) ==> {
            &&& outputs.raster_name@ == raster_name_of(stem@)
            &&& outputs.icon_name@ == icon_name_of(stem@)
        },
{
    match extension {
        Some(e) => {
            if is_vector_extension(e) {
                Some(
                    Outputs {
                        raster_name: String::from_str(stem).concat(".png"),
                        icon_name: String::from_str(stem).concat(".ico"),
                    },
                )
            } else {
                None
            }
        },
        None => None,
    }
}

/// Announces the file at `path`.
pub fn progress_line(path: &str) -> (line: String)
    ensures
        line@ == progress_line_of(path@),
{
    String::from_str("Processing: ").concat(path)
}

/// What an output directory may hold before a run.
#[derive(Clone, Copy, Debug, PartialEq, Eq, Structural)]
pub enum EntryKind {
    File,
    Directory,
    Other,
}

/// How clearing removes one entry of an output directory.
#[derive(Clone, Copy, Debug, PartialEq, Eq, Structural)]
pub enum Removal {
    /// Remove the one entry.
    RemoveFile,
    /// Remove the directory and all that is below it.
    RemoveTree,
}

/// Clearing leaves nothing: a directory goes with all that is below it, and
/// anything else, a file or not, goes as one entry.
pub open spec fn removal_of(kind: EntryKind) -> Removal {
    match kind {
        EntryKind::Directory => Removal::RemoveTree,
        EntryKind::File => Removal::RemoveFile,
        EntryKind::Other => Removal::RemoveFile,
    }
}

/// Decides how clearing removes an entry of the given kind.
pub fn removal_for(kind: EntryKind) -> (removal: Removal)
    ensures
        removal == removal_of(kind),
{
    match kind {
        EntryKind::Directory => Removal::RemoveTree,
        EntryKind::File => Removal::RemoveFile,
        EntryKind::Other => Removal::RemoveFile,
    }
}

} // verus!
