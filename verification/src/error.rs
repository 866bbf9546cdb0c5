//! What can go wrong during an installation, and how it is reported.
//!
//! An `InstallError` is a root cause with the stage labels that were wrapped
//! round it on the way up, outermost first. The environment reports what it
//! could not do as a `Failure`; the engine turns that into a root cause.

use vstd::prelude::*;
use vstd::string::*;
use crate::text::{copy_strings, views_of};

verus! {

/// The root cause of a failed installation.
#[derive(Clone, Copy, Debug, PartialEq, Eq, Structural)]
pub enum ErrorKind {
    /// A required external program is missing; the detail names it.
    ToolNotFound,
    /// The extraction program ran and reported failure; the detail is what it
    /// wrote to standard error.
    ExtractionFailed,
    /// A path is not where an installation may work; the detail is the path.
    PathError,
    /// The lock file could not be created or opened.
    LockError,
    /// The installed tree could not be moved to its final place.
    RenameFailed,
    /// A directory could not be removed.
    CleanupFailed,
    /// Any other refusal by the operating system.
    Io,
}

/// How the environment failed to carry out a request.
#[derive(Clone, Copy, Debug, PartialEq, Eq, Structural)]
pub enum FailureKind {
    /// The operating system found no such program or file.
    NotFound,
    /// A program ran and ended unsuccessfully, or was killed.
    ExitStatus,
    /// Anything else.
    Other,
}

/// A failure as the environment reports it.
#[derive(Debug)]
pub struct Failure {
    pub kind: FailureKind,
    /// The system's message, or what the program wrote to standard error.
    pub message: String,
}

/// The mathematical value of a `Failure`.
pub struct FailureModel {
    pub kind: FailureKind,
    pub message: Seq<char>,
}

impl View for Failure {
    type V = FailureModel;

    open spec fn view(&self) -> FailureModel {
        FailureModel { kind: self.kind, message: self.message@ }
    }
}

impl Failure {
    /// A failure of the given kind with the given message.
    pub fn new(kind: FailureKind, message: &str) -> (failure: Failure)
        ensures
            failure@ == (FailureModel { kind, message: message@ }),
    {
        Failure { kind, message: String::from_str(message) }
    }
}

/// An error with its chain of stage labels.
#[derive(Debug)]
pub struct InstallError {
    pub kind: ErrorKind,
    /// What the kind is about: a tool, a path, or a message.
    pub detail: String,
    /// The stage labels wrapped round the cause, outermost first.
    pub context: Vec<String>,
}

/// The mathematical value of an `InstallError`.
pub struct InstallErrorModel {
    pub kind: ErrorKind,
    pub detail: Seq<char>,
    pub context: Seq<Seq<char>>,
}

impl InstallErrorModel {
    /// A bare cause, with no label round it.
    pub open spec fn root(kind: ErrorKind, detail: Seq<char>) -> InstallErrorModel {
        InstallErrorModel { kind, detail, context: Seq::empty() }
    }

    /// The same cause with `label` wrapped round everything so far.
    pub open spec fn wrapped(self, label: Seq<char>) -> InstallErrorModel {
        InstallErrorModel { context: seq![label] + self.context, ..self }
    }

    /// The text shown for the root cause.
    pub open spec fn message(self) -> Seq<char> {
        match self.kind {
            ErrorKind::ToolNotFound => "Error: '"@ + self.detail
                + "' command not found.\nuvm requires '"@ + self.detail
                + "' to install modules. Please ensure '"@ + self.detail
                + "' is installed and accessible in your PATH."@,
            ErrorKind::ExtractionFailed => "failed to untar payload:/n"@ + self.detail,
            _ => self.detail,
        }
    }
}

impl View for InstallError {
    type V = InstallErrorModel;

    open spec fn view(&self) -> InstallErrorModel {
        InstallErrorModel {
            kind: self.kind,
            detail: self.detail@,
            context: views_of(self.context@),
        }
    }
}

impl InstallError {
    /// A bare cause of the given kind.
    pub fn new(kind: ErrorKind, detail: String) -> (error: InstallError)
        ensures
            error@ == InstallErrorModel::root(kind, detail@),
    {
        let error = InstallError { kind, detail, context: Vec::new() };
        assert(error@.context =~= Seq::<Seq<char>>::empty());
        error
    }

    /// Wraps `label` round the error: it becomes the outermost label, and the
    /// cause and the labels already there are kept.
    pub fn chain_err(self, label: &str) -> (error: InstallError)
        ensures
            error@ == self@.wrapped(label@),
    {
        let mut context = self.context;
        context.insert(0, String::from_str(label));
        let error = InstallError { kind: self.kind, detail: self.detail, context };
        assert(error@.context =~= seq![label@] + self@.context);
        error
    }

    /// The text shown for the root cause.
    pub fn message(&self) -> (text: String)
        ensures
            text@ == self@.message(),
    {
        match self.kind {
            ErrorKind::ToolNotFound => {
                let mut text = String::from_str("Error: '");
                text.append(self.detail.as_str());
                text.append("' command not found.\nuvm requires '");
                text.append(self.detail.as_str());
                text.append("' to install modules. Please ensure '");
                text.append(self.detail.as_str());
                text.append("' is installed and accessible in your PATH.");
                text
            },
            ErrorKind::ExtractionFailed => {
                let mut text = String::from_str("failed to untar payload:/n");
                text.append(self.detail.as_str());
                text
            },
            _ => self.detail.clone(),
        }
    }

    /// A copy of the error.
    pub fn duplicate(&self) -> (copy: InstallError)
        ensures
            copy@ == self@,
    {
        InstallError {
            kind: self.kind,
            detail: self.detail.clone(),
            context: copy_strings(&self.context),
        }
    }
}

/// The model of `handle_notfound`.
pub open spec fn not_found_error(program: Seq<char>, failure: FailureModel) -> InstallErrorModel {
    if failure.kind == FailureKind::NotFound {
        InstallErrorModel::root(ErrorKind::ToolNotFound, program)
    } else {
        InstallErrorModel::root(ErrorKind::Io, failure.message)
    }
}

/// Turns the failure to start `program` into an error. Where the operating
/// system found no such program, the error is `ToolNotFound` and names the
/// program; any other failure is passed on as it was reported.
pub fn handle_notfound(program: &str, e: Failure) -> (error: InstallError)
    ensures
        error@ == not_found_error(program@, e@),
{
    if e.kind == FailureKind::NotFound {
        InstallError::new(ErrorKind::ToolNotFound, String::from_str(program))
    } else {
        InstallError::new(ErrorKind::Io, e.message)
    }
}

} // verus!
