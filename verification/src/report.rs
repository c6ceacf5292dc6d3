//! Reports: one printed line per operation outcome, and the errors a run can
//! end in.

use vstd::prelude::*;
use vstd::string::StringExecFns;
use crate::messages::{
    create_failed_text, does_not_exist_text, enclose, not_a_directory_text, remove_failed_text,
};

verus! {

/// The stream a report line belongs on: successes go to standard output,
/// failures to standard error.
#[derive(Clone, Copy, PartialEq, Eq, Structural, Debug)]
pub enum Channel {
    Stdout,
    Stderr,
}

/// One line of output, together with the stream it belongs on.
pub struct Report {
    pub text: String,
    pub channel: Channel,
}

/// The mathematical shape of a report: its characters and its stream.
#[verifier::ext_equal]
pub ghost struct SpecReport {
    pub text: Seq<char>,
    pub channel: Channel,
}

impl View for Report {
    type V = SpecReport;

    open spec fn view(&self) -> SpecReport {
        SpecReport { text: self.text@, channel: self.channel }
    }
}

/// Everything that can go wrong, each variant carrying what its report line
/// needs. No error is fatal: each becomes a single line on standard error.
pub enum FmError {
    /// The target of a listing is not a directory (a file, or absent).
    NotADirectory { path: String },
    /// The create primitive failed; `detail` is the system's description.
    CreateFailed { path: String, detail: String },
    /// A remove primitive failed; `was_directory` says which primitive ran,
    /// `detail` is the system's description.
    RemoveFailed { path: String, was_directory: bool, detail: String },
    /// The target of a removal is neither an existing file nor an existing
    /// directory.
    PathNotFound { path: String },
}

impl FmError {
    /// The single line that describes this error to the operator.
    pub open spec fn spec_message(&self) -> Seq<char> {
        match self {
            FmError::NotADirectory { path } => not_a_directory_text(path@),
            FmError::CreateFailed { path, detail } => create_failed_text(path@, detail@),
            FmError::RemoveFailed { path, was_directory, detail } => remove_failed_text(
                *was_directory,
                path@,
                detail@,
            ),
            FmError::PathNotFound { path } => does_not_exist_text(path@),
        }
    }

    /// Renders the error as its message line.
    pub fn message(&self) -> (r: String)
        ensures
            r@ == self.spec_message(),
    {
        match self {
            FmError::NotADirectory { path } => enclose("'", path.as_str(), "' is not a directory."),
            FmError::CreateFailed { path, detail } => {
                let mut s = enclose("Failed to create directory '", path.as_str(), "': ");
                s.append(detail.as_str());
                s
            },
            FmError::RemoveFailed { path, was_directory, detail } => {
                let mut s = if *was_directory {
                    enclose("Failed to remove directory '", path.as_str(), "': ")
                } else {
                    enclose("Failed to remove file '", path.as_str(), "': ")
                };
                s.append(detail.as_str());
                s
            },
            FmError::PathNotFound { path } => enclose("'", path.as_str(), "' does not exist."),
        }
    }

    /// The report for this error: its message, on standard error.
    pub fn report(self) -> (r: Report)
        ensures
            r@.channel is Stderr,
            r@.text == self.spec_message(),
    {
        let text = self.message();
        Report { text, channel: Channel::Stderr }
    }
}

} // verus!
