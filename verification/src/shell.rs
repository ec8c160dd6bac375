//! The remote-shell backend: one connection per operation, taken through
//! TCP connect, handshake and password authentication, and, for a transfer,
//! through the file-transfer sub-channel to the document.

use vstd::pervasive::unreached;
use vstd::prelude::*;
use crate::exchange::{Action, ActionView, Event, EventView, Rejected, Step, StepView, DIRECTORY_MODE};
use crate::outcome::{Report, SyncResult};
use crate::text::{address_of, file_path_of, remote_file_path, socket_address};
use crate::vocabulary::{
    SHELL_AUTH_ERROR, SHELL_AUTH_REJECTED, SHELL_CONNECTED, SHELL_CREATE_FAILED,
    SHELL_DOWNLOADED, SHELL_NO_CONNECTION, SHELL_NO_HANDSHAKE, SHELL_NO_SUBSYSTEM,
    SHELL_OPEN_FAILED, SHELL_READ_FAILED, SHELL_UNREACHABLE, SHELL_UPLOADED,
    SHELL_WRITE_FAILED,
};

verus! {

/// What a session is for.
pub enum ShellTask {
    /// Check that the host can be reached and accepts the credentials.
    Test,
    /// Write `payload` as the document in `remote_dir`.
    Upload { remote_dir: String, payload: String },
    /// Read the document in `remote_dir`.
    Download { remote_dir: String },
}

/// A [`ShellTask`] over mathematical text.
pub enum ShellTaskView {
    Test,
    Upload { remote_dir: Seq<char>, payload: Seq<char> },
    Download { remote_dir: Seq<char> },
}

/// The parameters of one operation. They live as long as its session.
pub struct ShellJob {
    pub host: String,
    pub port: u16,
    pub username: String,
    pub password: String,
    pub task: ShellTask,
}

/// A [`ShellJob`] over mathematical text.
pub struct ShellJobView {
    pub host: Seq<char>,
    pub port: u16,
    pub username: Seq<char>,
    pub password: Seq<char>,
    pub task: ShellTaskView,
}

/// Where a session stands: at each stage but the last, the action of that
/// stage has been handed out and its answer is awaited.
#[derive(Clone, Copy, PartialEq, Eq, Structural, Debug)]
pub enum ShellStage {
    /// Opening the TCP connection.
    TcpConnect,
    /// Performing the protocol handshake.
    Handshake,
    /// Submitting the credentials.
    Authenticate,
    /// Asking whether the credentials were accepted.
    Confirm,
    /// Opening the file-transfer sub-channel.
    FileSubsystem,
    /// Upload only: creating the remote directory.
    EnsureDirectory,
    /// Creating the remote document, or opening it for reading.
    OpenFile,
    /// Writing the payload, or reading the document.
    Transfer,
    /// The result has been handed out.
    Done,
}

impl View for ShellTask {
    type V = ShellTaskView;

    open spec fn view(&self) -> ShellTaskView {
        match self {
            ShellTask::Test => ShellTaskView::Test,
            ShellTask::Upload { remote_dir, payload } => ShellTaskView::Upload {
                remote_dir: remote_dir@,
                payload: payload@,
            },
            ShellTask::Download { remote_dir } => ShellTaskView::Download { remote_dir: remote_dir@ },
        }
    }
}

impl View for ShellJob {
    type V = ShellJobView;

    open spec fn view(&self) -> ShellJobView {
        ShellJobView {
            host: self.host@,
            port: self.port,
            username: self.username@,
            password: self.password@,
            task: self.task@,
        }
    }
}

impl ShellTaskView {
    /// The remote directory of a transfer; a connection test has none.
    pub open spec fn remote_dir(self) -> Seq<char> {
        match self {
            ShellTaskView::Test => Seq::empty(),
            ShellTaskView::Upload { remote_dir, .. } => remote_dir,
            ShellTaskView::Download { remote_dir } => remote_dir,
        }
    }

    /// The payload of an upload; no other task has one.
    pub open spec fn payload(self) -> Seq<char> {
        match self {
            ShellTaskView::Upload { payload, .. } => payload,
            _ => Seq::empty(),
        }
    }

    /// The stages that a session can be in, given what it is for: a test never
    /// goes past the confirmation, and only an upload creates a directory.
    pub open spec fn visits(self, stage: ShellStage) -> bool {
        match stage {
            ShellStage::FileSubsystem | ShellStage::OpenFile | ShellStage::Transfer => !(self is Test),
            ShellStage::EnsureDirectory => self is Upload,
            _ => true,
        }
    }

    /// The stage after `stage` when the action of `stage` went well.
    pub open spec fn following(self, stage: ShellStage) -> ShellStage {
        match stage {
            ShellStage::TcpConnect => ShellStage::Handshake,
            ShellStage::Handshake => ShellStage::Authenticate,
            ShellStage::Authenticate => ShellStage::Confirm,
            ShellStage::Confirm => if self is Test {
                ShellStage::Done
            } else {
                ShellStage::FileSubsystem
            },
            ShellStage::FileSubsystem => if self is Upload {
                ShellStage::EnsureDirectory
            } else {
                ShellStage::OpenFile
            },
            ShellStage::EnsureDirectory => ShellStage::OpenFile,
            ShellStage::OpenFile => ShellStage::Transfer,
            ShellStage::Transfer => ShellStage::Done,
            ShellStage::Done => ShellStage::Done,
        }
    }

    /// What a failure at `stage` is called, before the error's own text.
    pub open spec fn complaint(self, stage: ShellStage) -> Seq<char> {
        match stage {
            ShellStage::TcpConnect => if self is Test {
                SHELL_UNREACHABLE@
            } else {
                SHELL_NO_CONNECTION@
            },
            ShellStage::Handshake => SHELL_NO_HANDSHAKE@,
            ShellStage::Authenticate => SHELL_AUTH_ERROR@,
            ShellStage::FileSubsystem => SHELL_NO_SUBSYSTEM@,
            ShellStage::OpenFile => if self is Upload {
                SHELL_CREATE_FAILED@
            } else {
                SHELL_OPEN_FAILED@
            },
            ShellStage::Transfer => if self is Upload {
                SHELL_WRITE_FAILED@
            } else {
                SHELL_READ_FAILED@
            },
            _ => Seq::empty(),
        }
    }

    /// The result of a session that ends well, after `event` at its last
    /// stage: a download hands on the text that the event yields, unchanged.
    pub open spec fn reward(self, event: EventView) -> Report {
        match self {
            ShellTaskView::Test => Report::succeeded(SHELL_CONNECTED@),
            ShellTaskView::Upload { .. } => Report::succeeded(SHELL_UPLOADED@),
            ShellTaskView::Download { .. } => Report {
                success: true,
                message: SHELL_DOWNLOADED@,
                data: event.text(),
            },
        }
    }
}

/// Whether `event` at `stage` ends the session in failure. What becomes of
/// the remote directory never does: the file's creation decides.
pub open spec fn stops(stage: ShellStage, event: EventView) -> bool {
    match stage {
        ShellStage::EnsureDirectory => false,
        ShellStage::Confirm => event != EventView::Answer(true),
        _ => event is Failed,
    }
}

/// The result of a session that `event` stops at `stage`. A rejection of
/// the credentials is reported without any detail.
pub open spec fn penalty(task: ShellTaskView, stage: ShellStage, event: EventView) -> Report {
    match event {
        EventView::Failed(detail) => Report::failed(task.complaint(stage), detail),
        _ => Report::refused(SHELL_AUTH_REJECTED@),
    }
}

impl ShellJobView {
    /// The action whose answer is awaited at `stage`.
    pub open spec fn pending(self, stage: ShellStage) -> Option<ActionView> {
        match stage {
            ShellStage::TcpConnect => Some(
                ActionView::Connect { address: address_of(self.host, self.port) },
            ),
            ShellStage::Handshake => Some(ActionView::Handshake),
            ShellStage::Authenticate => Some(
                ActionView::SubmitPassword { username: self.username, password: self.password },
            ),
            ShellStage::Confirm => Some(ActionView::QueryAuthenticated),
            ShellStage::FileSubsystem => Some(ActionView::OpenFileSubsystem),
            ShellStage::EnsureDirectory => Some(
                ActionView::MakeDirectory { path: self.task.remote_dir(), mode: DIRECTORY_MODE },
            ),
            ShellStage::OpenFile => Some(
                if self.task is Upload {
                    ActionView::CreateFile { path: file_path_of(self.task.remote_dir()) }
                } else {
                    ActionView::OpenFile { path: file_path_of(self.task.remote_dir()) }
                },
            ),
            ShellStage::Transfer => Some(
                if self.task is Upload {
                    ActionView::WriteAll { content: self.task.payload() }
                } else {
                    ActionView::ReadAll
                },
            ),
            ShellStage::Done => None,
        }
    }
}

/// A session as its job and its stage.
pub struct ShellSessionView {
    pub job: ShellJobView,
    pub stage: ShellStage,
}

impl ShellSessionView {
    /// Whether the session is at a stage that its task visits.
    pub open spec fn on_course(self) -> bool {
        self.job.task.visits(self.stage)
    }

    /// How many answers the session can still take, at most.
    pub open spec fn steps_left(self) -> nat {
        match self.stage {
            ShellStage::TcpConnect => 8,
            ShellStage::Handshake => 7,
            ShellStage::Authenticate => 6,
            ShellStage::Confirm => 5,
            ShellStage::FileSubsystem => 4,
            ShellStage::EnsureDirectory => 3,
            ShellStage::OpenFile => 2,
            ShellStage::Transfer => 1,
            ShellStage::Done => 0,
        }
    }

    /// The session a job starts with.
    pub open spec fn initial(job: ShellJobView) -> ShellSessionView {
        ShellSessionView { job, stage: ShellStage::TcpConnect }
    }

    /// The action whose answer the session awaits; none once it is over.
    pub open spec fn pending(self) -> Option<ActionView> {
        self.job.pending(self.stage)
    }

    /// Whether the session takes `event`: it is not over, and the event
    /// answers the pending action.
    pub open spec fn awaits(self, event: EventView) -> bool {
        match self.pending() {
            Some(action) => action.answered_by(event),
            None => false,
        }
    }

    /// The session after `event`.
    pub open spec fn after(self, event: EventView) -> ShellSessionView {
        ShellSessionView {
            job: self.job,
            stage: if stops(self.stage, event) {
                ShellStage::Done
            } else {
                self.job.task.following(self.stage)
            },
        }
    }

    /// What the session wants once it has taken `event`: the action of its
    /// new stage, or, at the end, its result.
    pub open spec fn reply(self, event: EventView) -> StepView {
        match self.after(event).pending() {
            Some(action) => StepView::Perform(action),
            None => StepView::Finish(
                if stops(self.stage, event) {
                    penalty(self.job.task, self.stage, event)
                } else {
                    self.job.task.reward(event)
                },
            ),
        }
    }
}

/// One operation of the remote-shell backend under way.
pub struct ShellSession {
    job: ShellJob,
    stage: ShellStage,
}

impl View for ShellSession {
    type V = ShellSessionView;

    closed spec fn view(&self) -> ShellSessionView {
        ShellSessionView { job: self.job@, stage: self.stage }
    }
}

impl ShellSession {
    #[verifier::type_invariant]
    spec fn stays_on_course(self) -> bool {
        self@.on_course()
    }

    /// Starts the session for `job`, and hands out its first action.
    pub fn start(job: ShellJob) -> (r: (ShellSession, Action))
        ensures
            r.0@ == ShellSessionView::initial(job@),
            r.0@.pending() == Some(r.1@),
            r.0@.on_course(),
    {
        let action = Action::Connect { address: socket_address(job.host.as_str(), job.port) };
        (ShellSession { job, stage: ShellStage::TcpConnect }, action)
    }

    /// The stage the session is in.
    pub fn stage(&self) -> (stage: ShellStage)
        ensures
            stage == self@.stage,
            self@.on_course(),
    {
        proof {
            use_type_invariant(self);
        }
        self.stage
    }

    /// Whether the result has been handed out.
    pub fn is_finished(&self) -> (b: bool)
        ensures
            b == (self@.stage is Done),
    {
        self.stage == ShellStage::Done
    }

    fn takes(&self, event: &Event) -> (b: bool)
        requires
            self@.on_course(),
        ensures
            b == self@.awaits(event@),
    {
        match self.stage {
            ShellStage::Done => false,
            ShellStage::Confirm => match event {
                Event::Answer(_) => true,
                _ => false,
            },
            ShellStage::Transfer => match (&self.job.task, event) {
                (ShellTask::Upload { .. }, Event::Done) => true,
                (ShellTask::Download { .. }, Event::Text(_)) => true,
                (_, Event::Failed(_)) => true,
                _ => false,
            },
            _ => match event {
                Event::Done | Event::Failed(_) => true,
                _ => false,
            },
        }
    }

    fn action_at(&self, stage: ShellStage) -> (action: Action)
        requires
            stage != ShellStage::Done,
            self.job.task@.visits(stage),
        ensures
            Some(action@) == self@.job.pending(stage),
    {
        match stage {
            ShellStage::TcpConnect => Action::Connect {
                address: socket_address(self.job.host.as_str(), self.job.port),
            },
            ShellStage::Handshake => Action::Handshake,
            ShellStage::Authenticate => Action::SubmitPassword {
                username: self.job.username.clone(),
                password: self.job.password.clone(),
            },
            ShellStage::Confirm => Action::QueryAuthenticated,
            ShellStage::FileSubsystem => Action::OpenFileSubsystem,
            ShellStage::EnsureDirectory => match &self.job.task {
                ShellTask::Upload { remote_dir, .. } => Action::MakeDirectory {
                    path: remote_dir.clone(),
                    mode: DIRECTORY_MODE,
                },
                _ => unreached(),
            },
            ShellStage::OpenFile => match &self.job.task {
                ShellTask::Upload { remote_dir, .. } => Action::CreateFile {
                    path: remote_file_path(remote_dir.as_str()),
                },
                ShellTask::Download { remote_dir } => Action::OpenFile {
                    path: remote_file_path(remote_dir.as_str()),
                },
                ShellTask::Test => unreached(),
            },
            ShellStage::Transfer => match &self.job.task {
                ShellTask::Upload { payload, .. } => Action::WriteAll { content: payload.clone() },
                _ => Action::ReadAll,
            },
            ShellStage::Done => unreached(),
        }
    }

    /// Takes the answer to the pending action and says what comes next.
    ///
    /// An event that does not answer the pending action, or any event once
    /// the session is over, is refused and changes nothing.
    pub fn advance(&mut self, event: Event) -> (r: Result<Step, Rejected>)
        ensures
            final(self)@.on_course(),
            match r {
                Ok(step) => {
                    &&& old(self)@.awaits(event@)
                    &&& final(self)@ == old(self)@.after(event@)
                    &&& step@ == old(self)@.reply(event@)
                },
                Err(Rejected::Finished) => {
                    &&& old(self)@.stage is Done
                    &&& final(self)@ == old(self)@
                },
                Err(Rejected::Unexpected) => {
                    &&& !(old(self)@.stage is Done)
                    &&& !old(self)@.awaits(event@)
                    &&& final(self)@ == old(self)@
                },
            },
    {
        proof {
            use_type_invariant(&*self);
        }
        let stage = self.stage;
        if stage == ShellStage::Done {
            return Err(Rejected::Finished);
        }
        if !self.takes(&event) {
            return Err(Rejected::Unexpected);
        }
        let is_test = match &self.job.task {
            ShellTask::Test => true,
            _ => false,
        };
        let is_upload = match &self.job.task {
            ShellTask::Upload { .. } => true,
            _ => false,
        };
        match event {
            Event::Failed(detail) => {
                if stage == ShellStage::EnsureDirectory {
                    self.stage = ShellStage::OpenFile;
                    Ok(Step::Perform(self.action_at(ShellStage::OpenFile)))
                } else {
                    let complaint = match stage {
                        ShellStage::TcpConnect => if is_test {
                            SHELL_UNREACHABLE
                        } else {
                            SHELL_NO_CONNECTION
                        },
                        ShellStage::Handshake => SHELL_NO_HANDSHAKE,
                        ShellStage::Authenticate => SHELL_AUTH_ERROR,
                        ShellStage::FileSubsystem => SHELL_NO_SUBSYSTEM,
                        ShellStage::OpenFile => if is_upload {
                            SHELL_CREATE_FAILED
                        } else {
                            SHELL_OPEN_FAILED
                        },
                        _ => if is_upload {
                            SHELL_WRITE_FAILED
                        } else {
                            SHELL_READ_FAILED
                        },
                    };
                    self.stage = ShellStage::Done;
                    Ok(Step::Finish(SyncResult::failed(complaint, detail.as_str())))
                }
            },
            Event::Answer(false) => {
                self.stage = ShellStage::Done;
                Ok(Step::Finish(SyncResult::refused(SHELL_AUTH_REJECTED)))
            },
            Event::Answer(true) => {
                if is_test {
                    self.stage = ShellStage::Done;
                    Ok(Step::Finish(SyncResult::succeeded(SHELL_CONNECTED)))
                } else {
                    self.stage = ShellStage::FileSubsystem;
                    Ok(Step::Perform(Action::OpenFileSubsystem))
                }
            },
            Event::Text(text) => {
                self.stage = ShellStage::Done;
                Ok(Step::Finish(SyncResult::delivered(SHELL_DOWNLOADED, text)))
            },
            Event::Done => {
                let next = match stage {
                    ShellStage::TcpConnect => ShellStage::Handshake,
                    ShellStage::Handshake => ShellStage::Authenticate,
                    ShellStage::Authenticate => ShellStage::Confirm,
                    ShellStage::FileSubsystem => if is_upload {
                        ShellStage::EnsureDirectory
                    } else {
                        ShellStage::OpenFile
                    },
                    ShellStage::EnsureDirectory => ShellStage::OpenFile,
                    ShellStage::OpenFile => ShellStage::Transfer,
                    _ => ShellStage::Done,
                };
                self.stage = next;
                if next == ShellStage::Done {
                    Ok(Step::Finish(SyncResult::succeeded(SHELL_UPLOADED)))
                } else {
                    Ok(Step::Perform(self.action_at(next)))
                }
            },
        }
    }
}

} // verus!
