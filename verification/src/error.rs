//! The failures of the orchestrator and the messages they are reported with.

use vstd::prelude::*;
use vstd::string::StringExecFns;

verus! {

/// What went wrong. Each kind has a fixed text that its messages begin with.
#[derive(Clone, Copy, Debug, PartialEq, Eq, Structural)]
pub enum ErrorKind {
    /// The lock around the task slot was found poisoned.
    LockPoisoned,
    /// The input image could not be decoded.
    InputUnreadable,
    /// The working directory, from which the fallback locations of a model
    /// are formed, could not be determined.
    WorkingDirUnavailable,
    /// The model exists neither under its identifier nor at a fallback
    /// location.
    ModelNotFound,
    /// The model file was found but could not be loaded.
    ModelLoadFailed,
    /// The pipeline ended with an error; a run that was cancelled ends so.
    PipelineFailed,
    /// The output directory was missing and could not be created.
    OutputDirFailed,
    /// The upscaled image could not be encoded or written.
    OutputWriteFailed,
    /// The worker ended abnormally before it produced a result.
    WorkerJoinFailed,
    /// Cancellation was asked for while no task was registered.
    NoActiveTask,
}

impl ErrorKind {
    /// The text that a message of this kind begins with.
    pub open spec fn prefix(self) -> Seq<char> {
        match self {
            ErrorKind::LockPoisoned => "lock poisoned"@,
            ErrorKind::InputUnreadable => "Failed to read input image: "@,
            ErrorKind::WorkingDirUnavailable => "resolve cwd failed: "@,
            ErrorKind::ModelNotFound => "model file not found: "@,
            ErrorKind::ModelLoadFailed => "Failed to load model: "@,
            ErrorKind::PipelineFailed => "Upscale failed: "@,
            ErrorKind::OutputDirFailed => "Failed to create output dir: "@,
            ErrorKind::OutputWriteFailed => "Failed to save output: "@,
            ErrorKind::WorkerJoinFailed => "spawn_blocking join error: "@,
            ErrorKind::NoActiveTask => "no active task"@,
        }
    }

    /// The text that a message of this kind begins with.
    pub fn prefix_text(self) -> (text: &'static str)
        ensures
            text@ == self.prefix(),
    {
        match self {
            ErrorKind::LockPoisoned => "lock poisoned",
            ErrorKind::InputUnreadable => "Failed to read input image: ",
            ErrorKind::WorkingDirUnavailable => "resolve cwd failed: ",
            ErrorKind::ModelNotFound => "model file not found: ",
            ErrorKind::ModelLoadFailed => "Failed to load model: ",
            ErrorKind::PipelineFailed => "Upscale failed: ",
            ErrorKind::OutputDirFailed => "Failed to create output dir: ",
            ErrorKind::OutputWriteFailed => "Failed to save output: ",
            ErrorKind::WorkerJoinFailed => "spawn_blocking join error: ",
            ErrorKind::NoActiveTask => "no active task",
        }
    }
}

/// A failure: its kind and the detail that the failed step reported.
#[derive(Debug)]
pub struct UpscaleError {
    kind: ErrorKind,
    detail: String,
}

/// The mathematical value of an [`UpscaleError`].
pub struct ErrorView {
    pub kind: ErrorKind,
    pub detail: Seq<char>,
}

impl ErrorView {
    /// The message: the text of the kind, followed by the detail.
    pub open spec fn message(self) -> Seq<char> {
        self.kind.prefix() + self.detail
    }
}

impl View for UpscaleError {
    type V = ErrorView;

    closed spec fn view(&self) -> ErrorView {
        ErrorView { kind: self.kind, detail: self.detail@ }
    }
}

impl UpscaleError {
    /// A failure of the given kind with the given detail.
    pub fn new(kind: ErrorKind, detail: String) -> (error: UpscaleError)
        ensures
            error@ == (ErrorView { kind, detail: detail@ }),
    {
        UpscaleError { kind, detail }
    }

    /// A failure of a kind that carries no detail.
    pub fn bare(kind: ErrorKind) -> (error: UpscaleError)
        ensures
            error@ == (ErrorView { kind, detail: Seq::<char>::empty() }),
    {
        UpscaleError { kind, detail: String::new() }
    }

    /// The kind of the failure.
    pub fn kind(&self) -> (kind: ErrorKind)
        ensures
            kind == self@.kind,
    {
        self.kind
    }

    /// The detail that the failed step reported.
    pub fn detail(&self) -> (detail: &str)
        ensures
            detail@ == self@.detail,
    {
        self.detail.as_str()
    }

    /// The message that the caller is shown.
    pub fn message(&self) -> (message: String)
        ensures
            message@ == self@.message(),
    {
        let mut message = String::from_str(self.kind.prefix_text());
        message.append(self.detail.as_str());
        message
    }
}

} // verus!
