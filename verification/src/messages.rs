//! The exact text of every line the tool can print.

use vstd::prelude::*;
use vstd::string::StringExecFns;

verus! {

/// The header printed before a directory's entries.
pub open spec fn list_header_text(path: Seq<char>) -> Seq<char> {
    "Contents of directory '"@ + path + "':"@
}

/// The complaint when the target of a listing is not a directory.
pub open spec fn not_a_directory_text(path: Seq<char>) -> Seq<char> {
    "'"@ + path + "' is not a directory."@
}

/// The confirmation after a directory was created.
pub open spec fn created_text(path: Seq<char>) -> Seq<char> {
    "Directory '"@ + path + "' created successfully."@
}

/// The complaint when the create primitive failed; `detail` is the
/// description the system gave.
pub open spec fn create_failed_text(path: Seq<char>, detail: Seq<char>) -> Seq<char> {
    "Failed to create directory '"@ + path + "': "@ + detail
}

/// The confirmation after a directory or a file was removed.
pub open spec fn removed_text(was_directory: bool, path: Seq<char>) -> Seq<char> {
    if was_directory {
        "Directory '"@ + path + "' removed successfully."@
    } else {
        "File '"@ + path + "' removed successfully."@
    }
}

/// The complaint when a remove primitive failed; `detail` is the description
/// the system gave.
pub open spec fn remove_failed_text(was_directory: bool, path: Seq<char>, detail: Seq<char>) -> Seq<char> {
    if was_directory {
        "Failed to remove directory '"@ + path + "': "@ + detail
    } else {
        "Failed to remove file '"@ + path + "': "@ + detail
    }
}

/// The complaint when the target of a removal does not exist.
pub open spec fn does_not_exist_text(path: Seq<char>) -> Seq<char> {
    "'"@ + path + "' does not exist."@
}

/// Builds `prefix + body + suffix`: every line the tool prints has this
/// shape, possibly with a detail appended.
pub(crate) fn enclose(prefix: &str, body: &str, suffix: &str) -> (r: String)
    ensures
        r@ == prefix@ + body@ + suffix@,
{
    let mut s = String::from_str(prefix);
    s.append(body);
    s.append(suffix);
    s
}

} // verus!
