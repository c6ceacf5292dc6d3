//! The three operations and what each decides: the filesystem step it needs,
//! and the report for every outcome of that step.

use vstd::prelude::*;
use vstd::string::StringExecFns;
use crate::messages::{
    create_failed_text, created_text, does_not_exist_text, enclose, list_header_text,
    not_a_directory_text, remove_failed_text, removed_text,
};
use crate::report::{Channel, FmError, Report, SpecReport};

verus! {

/// One parsed command-line invocation. Exactly one variant is active per run.
pub enum Operation {
    /// List the immediate children of a directory; an absent path means the
    /// current working directory.
    List { path: Option<String> },
    /// Create one directory level (missing parents are not created).
    Mkdir { path: String },
    /// Remove an empty directory or a single file (never recursive).
    Remove { path: String },
}

/// What a path turned out to be when the filesystem was asked.
#[derive(Clone, Copy, PartialEq, Eq, Structural, Debug)]
pub enum PathKind {
    Directory,
    File,
    Missing,
}

/// The single filesystem step an operation asks its runner to perform.
pub enum Probe {
    /// Observe whether `path` is a directory and, when it is, enumerate its
    /// immediate children; then ask `list_output`.
    IsDirectory { path: String },
    /// Attempt to create a directory at `path`; then ask `mkdir_report`.
    CreateDirectory { path: String },
    /// Observe whether `path` is a directory, a file, or absent; then ask
    /// `remove_step`.
    ClassifyPath { path: String },
}

/// Which remove primitive to attempt.
#[derive(Clone, Copy, PartialEq, Eq, Structural, Debug)]
pub enum RemoveAction {
    RemoveDir,
    RemoveFile,
}

/// What a removal does once the path is classified.
pub enum RemoveStep {
    /// Perform this primitive on the path, then ask `remove_report`.
    Attempt(RemoveAction),
    /// Nothing to attempt: the report is already decided.
    Done(Report),
}

/// The full output of a listing.
pub enum ListOutcome {
    /// Lines for standard output: the header, then one line per child.
    Listing { lines: Vec<String> },
    /// The single standard-error line: the target is not a directory.
    Refused { error: Report },
}

/// The directory a listing addresses: the given path, or the current working
/// directory when none was given.
pub open spec fn spec_list_target(path: Option<String>) -> Seq<char> {
    match path {
        Some(p) => p@,
        None => "."@,
    }
}

/// Turns an operation into the one filesystem step it needs.
pub fn probe(op: Operation) -> (p: Probe)
    ensures
        (op matches Operation::List { path } ==> p matches Probe::IsDirectory { path: target }
            && target@ == spec_list_target(path)),
        (op matches Operation::Mkdir { path } ==> p matches Probe::CreateDirectory { path: target }
            && target@ == path@),
        (op matches Operation::Remove { path } ==> p matches Probe::ClassifyPath { path: target }
            && target@ == path@),
{
    match op {
        Operation::List { path } => {
            let target = match path {
                Some(p) => p,
                None => String::from_str("."),
            };
            Probe::IsDirectory { path: target }
        },
        Operation::Mkdir { path } => Probe::CreateDirectory { path },
        Operation::Remove { path } => Probe::ClassifyPath { path },
    }
}

/// The lines a listing prints. `is_dir` is what the filesystem said of the
/// target; `entries` are the children the enumeration yielded, one full path
/// each, in the order they came (children that failed to read are already
/// absent). A directory gets its header and then every entry, unchanged; a
/// non-directory gets exactly one error line and no content lines.
pub fn list_output(path: &String, is_dir: bool, entries: &Vec<String>) -> (r: ListOutcome)
    ensures
        is_dir ==> (r matches ListOutcome::Listing { lines }
            && lines@.len() == entries@.len() + 1
            && lines@[0]@ == list_header_text(path@)
            && (forall|i: int| #![auto] 0 <= i < entries@.len() ==> lines@[i + 1]@ == entries@[i]@)),
        !is_dir ==> (r matches ListOutcome::Refused { error }
            && error@.channel is Stderr
            && error@.text == not_a_directory_text(path@)),
{
    if is_dir {
        let mut lines: Vec<String> = Vec::new();
        lines.push(enclose("Contents of directory '", path.as_str(), "':"));
        let mut i: usize = 0;
        while i < entries.len()
            invariant
                i <= entries@.len(),
                lines@.len() == i + 1,
                lines@[0]@ == list_header_text(path@),
                forall|j: int| #![auto] 0 <= j < i ==> lines@[j + 1]@ == entries@[j]@,
            decreases entries@.len() - i,
        {
            lines.push(entries[i].clone());
            i += 1;
        }
        ListOutcome::Listing { lines }
    } else {
        let error = FmError::NotADirectory { path: path.clone() }.report();
        ListOutcome::Refused { error }
    }
}

/// What an attempted primitive came to: `Err` carries the description the
/// system gave.
pub open spec fn spec_outcome(result: Result<(), String>) -> Result<(), Seq<char>> {
    match result {
        Ok(_) => Ok(()),
        Err(detail) => Err(detail@),
    }
}

/// The report of a create attempt, as a function of its outcome.
pub open spec fn spec_mkdir_report(path: Seq<char>, outcome: Result<(), Seq<char>>) -> SpecReport {
    match outcome {
        Ok(_) => SpecReport { text: created_text(path), channel: Channel::Stdout },
        Err(detail) => SpecReport {
            text: create_failed_text(path, detail),
            channel: Channel::Stderr,
        },
    }
}

/// The report for a create attempt: a confirmation on standard output when
/// the primitive succeeded, the failure with the system's description on
/// standard error otherwise.
pub fn mkdir_report(path: &String, result: Result<(), String>) -> (r: Report)
    ensures
        r@ == spec_mkdir_report(path@, spec_outcome(result)),
{
    match result {
        Ok(_) => Report {
            text: enclose("Directory '", path.as_str(), "' created successfully."),
            channel: Channel::Stdout,
        },
        Err(detail) => FmError::CreateFailed { path: path.clone(), detail }.report(),
    }
}

/// The first step of a removal: which primitive fits what the path turned out
/// to be. A missing path attempts nothing — its report is final as it stands,
/// so no filesystem change is ever requested for it.
pub fn remove_step(path: &String, kind: PathKind) -> (r: RemoveStep)
    ensures
        kind is Directory ==> (r matches RemoveStep::Attempt(a) && a is RemoveDir),
        kind is File ==> (r matches RemoveStep::Attempt(a) && a is RemoveFile),
        kind is Missing ==> (r matches RemoveStep::Done(rep)
            && rep@.channel is Stderr
            && rep@.text == does_not_exist_text(path@)),
{
    match kind {
        PathKind::Directory => RemoveStep::Attempt(RemoveAction::RemoveDir),
        PathKind::File => RemoveStep::Attempt(RemoveAction::RemoveFile),
        PathKind::Missing => {
            let error = FmError::PathNotFound { path: path.clone() }.report();
            RemoveStep::Done(error)
        },
    }
}

/// The report of a remove attempt, as a function of the primitive that ran
/// and its outcome.
pub open spec fn spec_remove_report(
    action: RemoveAction,
    path: Seq<char>,
    outcome: Result<(), Seq<char>>,
) -> SpecReport {
    match outcome {
        Ok(_) => SpecReport { text: removed_text(action is RemoveDir, path), channel: Channel::Stdout },
        Err(detail) => SpecReport {
            text: remove_failed_text(action is RemoveDir, path, detail),
            channel: Channel::Stderr,
        },
    }
}

/// The report for a remove attempt: a confirmation on standard output when
/// the primitive succeeded, the failure with the system's description on
/// standard error otherwise. The wording names a directory or a file
/// according to the primitive that ran.
pub fn remove_report(path: &String, action: RemoveAction, result: Result<(), String>) -> (r: Report)
    ensures
        r@ == spec_remove_report(action, path@, spec_outcome(result)),
{
    match result {
        Ok(_) => {
            let text = match action {
                RemoveAction::RemoveDir => enclose(
                    "Directory '",
                    path.as_str(),
                    "' removed successfully.",
                ),
                RemoveAction::RemoveFile => enclose(
                    "File '",
                    path.as_str(),
                    "' removed successfully.",
                ),
            };
            Report { text, channel: Channel::Stdout }
        },
        Err(detail) => {
            let was_directory = match action {
                RemoveAction::RemoveDir => true,
                RemoveAction::RemoveFile => false,
            };
            FmError::RemoveFailed { path: path.clone(), was_directory, detail }.report()
        },
    }
}

/// Creating a directory at a path and then creating it again at the same
/// path: the first outcome is confirmed on standard output, the repeat's
/// failure is reported on standard error, and the two lines can never be
/// confused, whatever description the system attached to the failure. That
/// the directory made by the first call persists through the second call's
/// failure is the filesystem's affair, outside this library.
pub proof fn lemma_mkdir_repeat_reports(path: Seq<char>, detail: Seq<char>)
    ensures
        spec_mkdir_report(path, Ok(())).channel is Stdout,
        spec_mkdir_report(path, Err(detail)).channel is Stderr,
        spec_mkdir_report(path, Ok(())).text != spec_mkdir_report(path, Err(detail)).text,
{
    reveal_strlit("Directory '");
    reveal_strlit("Failed to create directory '");
    assert(created_text(path)[0] == 'D');
    assert(create_failed_text(path, detail)[0] == 'F');
}

/// A directory created and then removed, both primitives succeeding: both
/// steps are confirmed on standard output, and a path that now stands as a
/// directory is removed through the directory primitive, never the file one.
/// That the filesystem itself returns to its prior state is the filesystem's
/// affair, outside this library.
pub proof fn lemma_mkdir_remove_round_trip(path: Seq<char>)
    ensures
        spec_mkdir_report(path, Ok(())).channel is Stdout,
        spec_mkdir_report(path, Ok(())).text == created_text(path),
        spec_remove_report(RemoveAction::RemoveDir, path, Ok(())).channel is Stdout,
        spec_remove_report(RemoveAction::RemoveDir, path, Ok(())).text == removed_text(true, path),
{
}

} // verus!
