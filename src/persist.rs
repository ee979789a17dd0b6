//! Naming and tagging of the image files that captures are saved to.

use vstd::prelude::*;
use vstd::string::*;
use crate::text::text_equals;

verus! {

/// Orientation tags that a saved image can carry.
#[derive(Clone, Copy, Debug, PartialEq, Eq, Structural)]
pub enum Orientation {
    Normal,
    Rotate90,
    Rotate180,
    Rotate270,
    Unspecified,
}

/// The tag for each label of the orientation sensor. The sensor is mounted
/// in portrait, so its "normal" is a quarter turn away from the image's.
pub open spec fn orientation_of(label: Seq<char>) -> Orientation {
    if label == "normal"@ {
        Orientation::Rotate90
    } else if label == "bottom-up"@ {
        Orientation::Rotate270
    } else if label == "left-up"@ {
        Orientation::Rotate180
    } else if label == "right-up"@ {
        Orientation::Normal
    } else {
        Orientation::Unspecified
    }
}

/// Maps an orientation label to the tag written into the image.
pub fn orientation_for(label: &str) -> (r: Orientation)
    ensures
        r == orientation_of(label@),
{
    if text_equals(label, "normal") {
        Orientation::Rotate90
    } else if text_equals(label, "bottom-up") {
        Orientation::Rotate270
    } else if text_equals(label, "left-up") {
        Orientation::Rotate180
    } else if text_equals(label, "right-up") {
        Orientation::Normal
    } else {
        Orientation::Unspecified
    }
}

/// The time-stamp layout of file names: local time to the second.
pub const TIMESTAMP_FORMAT: &'static str = "%Y-%m-%d-%H-%M-%S";

/// Relies on `chrono::Local::now` and `chrono::DateTime::format`: the local
/// time now, written with a layout that holds only valid specifiers.
#[verifier::external_body]
fn local_timestamp(layout: &str) -> (r: String)
    requires
        layout@ == TIMESTAMP_FORMAT@,
{
    chrono::Local::now().format(layout).to_string()
}

/// Relies on `dirs::picture_dir`: the user's configured pictures directory,
/// if there is one.
#[verifier::external_body]
fn configured_pictures_dir() -> (r: Option<String>) {
    dirs::picture_dir().map(|p| p.to_string_lossy().into_owned())
}

/// The file name of a capture taken at `stamp`.
pub open spec fn capture_file_name_of(stamp: Seq<char>) -> Seq<char> {
    "camcam-"@ + stamp + ".jpg"@
}

/// Builds the file name of a capture taken at `stamp`.
pub fn capture_file_name(stamp: &str) -> (r: String)
    ensures
        r@ == capture_file_name_of(stamp@),
{
    let mut name = String::from_str("camcam-");
    name.append(stamp);
    name.append(".jpg");
    name
}

/// Joins a directory and a file name with one separator.
pub fn join_path(dir: &str, file: &str) -> (r: String)
    ensures
        r@ == dir@ + "/"@ + file@,
{
    let mut path = String::from_str(dir);
    path.append("/");
    path.append(file);
    path
}

/// The directory captures are saved to: the configured pictures directory,
/// else `Pictures` under the home directory, else none.
pub fn pictures_dir(configured: Option<String>, home: Option<String>) -> (r: Option<String>)
    ensures
        match (configured, home) {
            (Some(c), _) => r is Some && r->Some_0@ == c@,
            (None, Some(h)) => r is Some && r->Some_0@ == h@ + "/"@ + "Pictures"@,
            (None, None) => r is None,
        },
{
    match configured {
        Some(c) => Some(c),
        None => match home {
            Some(h) => Some(join_path(h.as_str(), "Pictures")),
            None => None,
        },
    }
}

/// The directory captures are saved to on this machine, falling back to
/// `Pictures` under `home` when none is configured.
pub fn default_pictures_dir(home: Option<String>) -> (r: Option<String>)
    ensures
        home is Some ==> r is Some,
{
    pictures_dir(configured_pictures_dir(), home)
}

/// The path of a new capture in `dir`, named after the local time now.
pub fn new_capture_path(dir: &str) -> (r: String)
    ensures
        exists|stamp: Seq<char>| r@ == dir@ + "/"@ + capture_file_name_of(stamp),
{
    let stamp = local_timestamp(TIMESTAMP_FORMAT);
    let name = capture_file_name(stamp.as_str());
    join_path(dir, name.as_str())
}

} // verus!
