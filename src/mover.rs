//! The steps of sorting one file, as decisions from what the filesystem
//! reported to what is done next.
//!
//! A driver starts with [`categorise`], performs each [`Action`] it is handed,
//! and reports the result to the function that judges that step, until it is
//! handed [`Action::Finish`]. No step ever overwrites an existing file, and
//! every failure ends the file's sorting with an [`Outcome`] that names it.

use vstd::prelude::*;
use crate::category::{plan_move, plan_of, plan_view, MovePlan, PlanView};

verus! {

/// How a filesystem operation failed.
#[derive(Clone, Copy, Debug, PartialEq, Eq, Structural)]
pub enum IoFailure {
    NotFound,
    AlreadyExists,
    Other,
}

/// How the sorting of one file ended.
#[derive(Clone, Copy, Debug, PartialEq, Eq, Structural)]
pub enum Outcome {
    /// The file has no category; it stays where it is.
    NoCategory,
    /// The file now stands in its category directory.
    Moved,
    /// The file was gone before it could be moved, as when a creation is
    /// reported twice.
    SourceNotFound,
    /// A file of that name already stands in the category directory; it is
    /// left as it is, and so is the new file.
    DestinationExists,
    /// The category directory could not be made; the file stays where it is.
    DirectoryFailed,
    /// The move failed for another reason; the file stays where it is.
    MoveFailed,
}

/// What a driver does next.
pub enum Action {
    /// Make sure the plan's directory exists, with any missing parents, and
    /// report the result to [`after_create_dir`].
    EnsureDir(MovePlan),
    /// Look whether the plan's source and destination exist, and report both
    /// to [`check_before_rename`].
    Probe(MovePlan),
    /// Rename the plan's source to its destination, and report the result to
    /// [`handle_rename`].
    Rename(MovePlan),
    /// Nothing more is done for this file.
    Finish(Outcome),
}

/// An action, as a value.
pub enum Step {
    EnsureDir(PlanView),
    Probe(PlanView),
    Rename(PlanView),
    Finish(Outcome),
}

impl View for Action {
    type V = Step;

    open spec fn view(&self) -> Step {
        match self {
            Action::EnsureDir(p) => Step::EnsureDir(p@),
            Action::Probe(p) => Step::Probe(p@),
            Action::Rename(p) => Step::Rename(p@),
            Action::Finish(o) => Step::Finish(*o),
        }
    }
}

/// The first step for a new file at `source` under the watch root `root`.
pub open spec fn first_step(root: Seq<char>, source: Seq<char>) -> Step {
    match plan_of(root, source) {
        Some(p) => Step::EnsureDir(p),
        None => Step::Finish(Outcome::NoCategory),
    }
}

/// The step after the category directory was made, or was not.
pub open spec fn step_after_dir(p: PlanView, res: Result<(), IoFailure>) -> Step {
    match res {
        Ok(()) => Step::Probe(p),
        Err(_) => Step::Finish(Outcome::DirectoryFailed),
    }
}

/// The step once it is known whether the source and the destination exist.
pub open spec fn step_after_probe(p: PlanView, source_exists: bool, dest_exists: bool) -> Step {
    if !source_exists {
        Step::Finish(Outcome::SourceNotFound)
    } else if dest_exists {
        Step::Finish(Outcome::DestinationExists)
    } else {
        Step::Rename(p)
    }
}

/// What the result of the rename means.
pub open spec fn rename_outcome(res: Result<(), IoFailure>) -> Outcome {
    match res {
        Ok(()) => Outcome::Moved,
        Err(IoFailure::NotFound) => Outcome::SourceNotFound,
        Err(IoFailure::AlreadyExists) => Outcome::DestinationExists,
        Err(IoFailure::Other) => Outcome::MoveFailed,
    }
}

/// The first action for a new file at `source` under the watch root `watch_dir`.
pub fn categorise(watch_dir: &str, source: &str) -> (r: Action)
    ensures
        r@ == first_step(watch_dir@, source@),
{
    let plan = plan_move(watch_dir, source);
    assert(plan_view(plan) == plan_of(watch_dir@, source@));
    match plan {
        Some(p) => Action::EnsureDir(p),
        None => Action::Finish(Outcome::NoCategory),
    }
}

/// The action after the category directory of `plan` was made, or was not.
pub fn after_create_dir(plan: MovePlan, res: Result<(), IoFailure>) -> (r: Action)
    ensures
        r@ == step_after_dir(plan@, res),
{
    match res {
        Ok(()) => Action::Probe(plan),
        Err(_) => Action::Finish(Outcome::DirectoryFailed),
    }
}

/// The action once it is known whether the source and the destination of
/// `plan` exist: a move only where the source is there and the destination is
/// free.
pub fn check_before_rename(plan: MovePlan, source_exists: bool, dest_exists: bool) -> (r: Action)
    ensures
        r@ == step_after_probe(plan@, source_exists, dest_exists),
{
    if !source_exists {
        Action::Finish(Outcome::SourceNotFound)
    } else if dest_exists {
        Action::Finish(Outcome::DestinationExists)
    } else {
        Action::Rename(plan)
    }
}

/// What the result of the rename means.
pub fn handle_rename(res: Result<(), IoFailure>) -> (r: Outcome)
    ensures
        r == rename_outcome(res),
{
    match res {
        Ok(()) => Outcome::Moved,
        Err(IoFailure::NotFound) => Outcome::SourceNotFound,
        Err(IoFailure::AlreadyExists) => Outcome::DestinationExists,
        Err(IoFailure::Other) => Outcome::MoveFailed,
    }
}

} // verus!
