//! The requests that the engine makes of its environment.
//!
//! The engine decides; it touches neither disk nor processes. Each step of an
//! installation hands out one `Action`, the environment carries it out and
//! reports back, and the kind of the action says what a failure of it means.

use vstd::prelude::*;
use crate::error::{
    handle_notfound, not_found_error, ErrorKind, Failure, FailureKind, FailureModel, InstallError,
    InstallErrorModel,
};
use crate::path::{FsPath, PathModel};
use crate::text::views_of;

verus! {

/// The label wrapped round the failure to move an installed module.
pub open spec fn rename_label() -> Seq<char> {
    "failed to rename installed module"@
}

/// One request to the environment.
#[derive(Debug)]
pub enum Action {
    /// There is nothing to do.
    Nothing,
    /// Empty the directory: remove it with all it holds if it is there, and
    /// leave an empty directory in its place.
    CleanDirectory { path: FsPath },
    /// Create the directory and every missing directory above it.
    CreateDirectory { path: FsPath },
    /// Run `program` with `arguments`, its input closed and its output
    /// captured, and wait for it to end.
    Extract { program: String, arguments: Vec<String> },
    /// Move the directory tree at `from` to `to`.
    MoveDirectory { from: FsPath, to: FsPath },
    /// Remove the directory with all it holds, if it is there.
    RemoveDirectory { path: FsPath },
}

/// The mathematical value of an `Action`.
pub enum ActionModel {
    Nothing,
    CleanDirectory { path: PathModel },
    CreateDirectory { path: PathModel },
    Extract { program: Seq<char>, arguments: Seq<Seq<char>> },
    MoveDirectory { from: PathModel, to: PathModel },
    RemoveDirectory { path: PathModel },
}

impl View for Action {
    type V = ActionModel;

    open spec fn view(&self) -> ActionModel {
        match self {
            Action::Nothing => ActionModel::Nothing,
            Action::CleanDirectory { path } => ActionModel::CleanDirectory { path: path@ },
            Action::CreateDirectory { path } => ActionModel::CreateDirectory { path: path@ },
            Action::Extract { program, arguments } => ActionModel::Extract {
                program: program@,
                arguments: views_of(arguments@),
            },
            Action::MoveDirectory { from, to } => ActionModel::MoveDirectory {
                from: from@,
                to: to@,
            },
            Action::RemoveDirectory { path } => ActionModel::RemoveDirectory { path: path@ },
        }
    }
}

impl ActionModel {
    /// The error that a failure of this action is.
    ///
    /// Removing a directory fails as `CleanupFailed` and moving one as
    /// `RenameFailed`, under the label for renaming. A program that cannot be
    /// found is `ToolNotFound` and names the program; one that ran and ended
    /// unsuccessfully is `ExtractionFailed` with what it wrote to standard
    /// error. Everything else is passed on as `Io`.
    pub open spec fn failure(self, failure: FailureModel) -> InstallErrorModel {
        match self {
            ActionModel::Nothing => InstallErrorModel::root(ErrorKind::Io, failure.message),
            ActionModel::CleanDirectory { .. } => InstallErrorModel::root(
                ErrorKind::CleanupFailed,
                failure.message,
            ),
            ActionModel::CreateDirectory { .. } => InstallErrorModel::root(
                ErrorKind::Io,
                failure.message,
            ),
            ActionModel::Extract { program, .. } => if failure.kind == FailureKind::ExitStatus {
                InstallErrorModel::root(ErrorKind::ExtractionFailed, failure.message)
            } else {
                not_found_error(program, failure)
            },
            ActionModel::MoveDirectory { .. } => InstallErrorModel::root(
                ErrorKind::RenameFailed,
                failure.message,
            ).wrapped(rename_label()),
            ActionModel::RemoveDirectory { .. } => InstallErrorModel::root(
                ErrorKind::CleanupFailed,
                failure.message,
            ),
        }
    }
}

impl Action {
    /// The error that `failure` of this action is.
    pub fn failure(&self, failure: Failure) -> (error: InstallError)
        ensures
            error@ == self@.failure(failure@),
    {
        match self {
            Action::Nothing => InstallError::new(ErrorKind::Io, failure.message),
            Action::CleanDirectory { .. } => InstallError::new(
                ErrorKind::CleanupFailed,
                failure.message,
            ),
            Action::CreateDirectory { .. } => InstallError::new(ErrorKind::Io, failure.message),
            Action::Extract { program, .. } => {
                if failure.kind == FailureKind::ExitStatus {
                    InstallError::new(ErrorKind::ExtractionFailed, failure.message)
                } else {
                    handle_notfound(program.as_str(), failure)
                }
            },
            Action::MoveDirectory { .. } => InstallError::new(
                ErrorKind::RenameFailed,
                failure.message,
            ).chain_err("failed to rename installed module"),
            Action::RemoveDirectory { .. } => InstallError::new(
                ErrorKind::CleanupFailed,
                failure.message,
            ),
        }
    }
}

} // verus!
