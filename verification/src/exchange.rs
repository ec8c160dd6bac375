//! What passes between a session and whoever performs its work: the actions
//! a session asks for, and the events that answer them.

use vstd::prelude::*;
use crate::outcome::{Report, SyncResult};

verus! {

/// The permission bits a remote directory is created with.
pub const DIRECTORY_MODE: i32 = 0o755;

/// One piece of outside work: on the filesystem down to `ReadFile`, on a
/// secure-shell connection from `Connect` on.
#[derive(PartialEq, Eq)]
pub enum Action {
    /// Find out whether `path` exists.
    ProbePath { path: String },
    /// Find out whether the file `name` exists in `dir`.
    ProbeFile { dir: String, name: String },
    /// Create the directory `path` and its missing parents.
    CreateDirAll { path: String },
    /// Replace the file `name` in `dir` by `content`.
    WriteFile { dir: String, name: String, content: String },
    /// Read the file `name` in `dir` as text.
    ReadFile { dir: String, name: String },
    /// Open a TCP connection to `address`.
    Connect { address: String },
    /// Perform the secure-shell handshake on the open connection.
    Handshake,
    /// Submit the credentials for password authentication.
    SubmitPassword { username: String, password: String },
    /// Ask the session whether it is authenticated.
    QueryAuthenticated,
    /// Open the file-transfer sub-channel.
    OpenFileSubsystem,
    /// Create the remote directory `path` with the given permission bits.
    MakeDirectory { path: String, mode: i32 },
    /// Create the remote file `path`, or truncate it, for writing.
    CreateFile { path: String },
    /// Write `content` to the file just created.
    WriteAll { content: String },
    /// Open the remote file `path` for reading.
    OpenFile { path: String },
    /// Read the file just opened to its end, as text.
    ReadAll,
}

/// An [`Action`] over mathematical text.
pub enum ActionView {
    ProbePath { path: Seq<char> },
    ProbeFile { dir: Seq<char>, name: Seq<char> },
    CreateDirAll { path: Seq<char> },
    WriteFile { dir: Seq<char>, name: Seq<char>, content: Seq<char> },
    ReadFile { dir: Seq<char>, name: Seq<char> },
    Connect { address: Seq<char> },
    Handshake,
    SubmitPassword { username: Seq<char>, password: Seq<char> },
    QueryAuthenticated,
    OpenFileSubsystem,
    MakeDirectory { path: Seq<char>, mode: i32 },
    CreateFile { path: Seq<char> },
    WriteAll { content: Seq<char> },
    OpenFile { path: Seq<char> },
    ReadAll,
}

/// What became of an action.
#[derive(PartialEq, Eq, Debug)]
pub enum Event {
    /// It completed and has nothing to report.
    Done,
    /// It completed and answers a yes-or-no question.
    Answer(bool),
    /// It completed and yields text.
    Text(String),
    /// It failed; the text is the underlying error's description.
    Failed(String),
}

/// An [`Event`] over mathematical text.
pub enum EventView {
    Done,
    Answer(bool),
    Text(Seq<char>),
    Failed(Seq<char>),
}

/// What a session wants next.
#[derive(PartialEq, Eq)]
pub enum Step {
    /// Perform the action and report the event that answers it.
    Perform(Action),
    /// The operation is over, with this result.
    Finish(SyncResult),
}

/// A [`Step`] over mathematical text.
pub enum StepView {
    Perform(ActionView),
    Finish(Report),
}

/// Why a session refused an event.
#[derive(Clone, Copy, PartialEq, Eq, Debug)]
pub enum Rejected {
    /// The session had already finished.
    Finished,
    /// The event does not answer the action that is pending.
    Unexpected,
}

impl View for Action {
    type V = ActionView;

    open spec fn view(&self) -> ActionView {
        match self {
            Action::ProbePath { path } => ActionView::ProbePath { path: path@ },
            Action::ProbeFile { dir, name } => ActionView::ProbeFile { dir: dir@, name: name@ },
            Action::CreateDirAll { path } => ActionView::CreateDirAll { path: path@ },
            Action::WriteFile { dir, name, content } => ActionView::WriteFile {
                dir: dir@,
                name: name@,
                content: content@,
            },
            Action::ReadFile { dir, name } => ActionView::ReadFile { dir: dir@, name: name@ },
            Action::Connect { address } => ActionView::Connect { address: address@ },
            Action::Handshake => ActionView::Handshake,
            Action::SubmitPassword { username, password } => ActionView::SubmitPassword {
                username: username@,
                password: password@,
            },
            Action::QueryAuthenticated => ActionView::QueryAuthenticated,
            Action::OpenFileSubsystem => ActionView::OpenFileSubsystem,
            Action::MakeDirectory { path, mode } => ActionView::MakeDirectory {
                path: path@,
                mode: *mode,
            },
            Action::CreateFile { path } => ActionView::CreateFile { path: path@ },
            Action::WriteAll { content } => ActionView::WriteAll { content: content@ },
            Action::OpenFile { path } => ActionView::OpenFile { path: path@ },
            Action::ReadAll => ActionView::ReadAll,
        }
    }
}

impl View for Event {
    type V = EventView;

    open spec fn view(&self) -> EventView {
        match self {
            Event::Done => EventView::Done,
            Event::Answer(yes) => EventView::Answer(*yes),
            Event::Text(text) => EventView::Text(text@),
            Event::Failed(detail) => EventView::Failed(detail@),
        }
    }
}

impl View for Step {
    type V = StepView;

    open spec fn view(&self) -> StepView {
        match self {
            Step::Perform(action) => StepView::Perform(action@),
            Step::Finish(result) => StepView::Finish(result@),
        }
    }
}

impl EventView {
    /// The text an event yields; only a `Text` event yields any.
    pub open spec fn text(self) -> Option<Seq<char>> {
        match self {
            EventView::Text(text) => Some(text),
            _ => None,
        }
    }
}

impl ActionView {
    /// Whether the action is work on the filesystem.
    pub open spec fn on_filesystem(self) -> bool {
        self is ProbePath || self is ProbeFile || self is CreateDirAll || self is WriteFile
            || self is ReadFile
    }

    /// Whether the action needs the file-transfer sub-channel, or opens it.
    pub open spec fn of_file_subsystem(self) -> bool {
        self is OpenFileSubsystem || self is MakeDirectory || self is CreateFile
            || self is WriteAll || self is OpenFile || self is ReadAll
    }

    /// Whether `event` is an answer to this action: a question is answered
    /// by yes or no, a read by text or a failure, anything else by its
    /// completion or a failure.
    pub open spec fn answered_by(self, event: EventView) -> bool {
        match self {
            ActionView::ProbePath { .. }
            | ActionView::ProbeFile { .. }
            | ActionView::QueryAuthenticated => event is Answer,
            ActionView::ReadFile { .. } | ActionView::ReadAll => event is Text || event is Failed,
            _ => event is Done || event is Failed,
        }
    }
}

impl Action {
    /// Whether `event` is an answer to this action.
    pub fn accepts(&self, event: &Event) -> (b: bool)
        ensures
            b == self@.answered_by(event@),
    {
        match self {
            Action::ProbePath { .. }
            | Action::ProbeFile { .. }
            | Action::QueryAuthenticated => match event {
                Event::Answer(_) => true,
                _ => false,
            },
            Action::ReadFile { .. } | Action::ReadAll => match event {
                Event::Text(_) | Event::Failed(_) => true,
                _ => false,
            },
            _ => match event {
                Event::Done | Event::Failed(_) => true,
                _ => false,
            },
        }
    }
}

} // verus!
