//! The one surface over both backends: three operations each, started here
//! and carried on through a [`Session`] that hands every event to the
//! backend it belongs to and passes the answer back as it is.

use vstd::prelude::*;
use crate::exchange::{Action, ActionView, Event, EventView, Rejected, Step, StepView};
use crate::share::{ShareJob, ShareJobView, ShareSession, ShareSessionView, ShareTask, ShareTaskView};
use crate::shell::{ShellJob, ShellJobView, ShellSession, ShellSessionView, ShellTask, ShellTaskView};

verus! {

/// One operation asked of one backend: the backend is chosen by the
/// variant, the operation and its parameters by the job.
pub enum Request {
    Share(ShareJob),
    Shell(ShellJob),
}

/// A [`Request`] over mathematical text.
pub enum RequestView {
    Share(ShareJobView),
    Shell(ShellJobView),
}

impl View for Request {
    type V = RequestView;

    open spec fn view(&self) -> RequestView {
        match self {
            Request::Share(job) => RequestView::Share(job@),
            Request::Shell(job) => RequestView::Shell(job@),
        }
    }
}

/// An operation under way on one of the backends.
pub enum Session {
    Share(ShareSession),
    Shell(ShellSession),
}

/// A [`Session`] as the view of its backend's session.
pub enum SessionView {
    Share(ShareSessionView),
    Shell(ShellSessionView),
}

impl View for Session {
    type V = SessionView;

    open spec fn view(&self) -> SessionView {
        match self {
            Session::Share(session) => SessionView::Share(session@),
            Session::Shell(session) => SessionView::Shell(session@),
        }
    }
}

impl SessionView {
    /// The session with which the chosen backend starts on `request`.
    pub open spec fn initial(request: RequestView) -> SessionView {
        match request {
            RequestView::Share(job) => SessionView::Share(ShareSessionView::initial(job)),
            RequestView::Shell(job) => SessionView::Shell(ShellSessionView::initial(job)),
        }
    }

    /// Whether the backend's session is at a stage that its task visits.
    pub open spec fn on_course(self) -> bool {
        match self {
            SessionView::Share(session) => session.on_course(),
            SessionView::Shell(session) => session.on_course(),
        }
    }

    /// Whether the result has been handed out.
    pub open spec fn finished(self) -> bool {
        match self {
            SessionView::Share(session) => session.stage is Done,
            SessionView::Shell(session) => session.stage is Done,
        }
    }

    /// How many answers the session can still take, at most.
    pub open spec fn steps_left(self) -> nat {
        match self {
            SessionView::Share(session) => session.steps_left(),
            SessionView::Shell(session) => session.steps_left(),
        }
    }

    /// The action whose answer is awaited; none once the session is over.
    pub open spec fn pending(self) -> Option<ActionView> {
        match self {
            SessionView::Share(session) => session.pending(),
            SessionView::Shell(session) => session.pending(),
        }
    }

    /// Whether the backend's session takes `event`.
    pub open spec fn awaits(self, event: EventView) -> bool {
        match self {
            SessionView::Share(session) => session.awaits(event),
            SessionView::Shell(session) => session.awaits(event),
        }
    }

    /// The session after `event`, as its backend has it.
    pub open spec fn after(self, event: EventView) -> SessionView {
        match self {
            SessionView::Share(session) => SessionView::Share(session.after(event)),
            SessionView::Shell(session) => SessionView::Shell(session.after(event)),
        }
    }

    /// What the backend's session wants once it has taken `event`.
    pub open spec fn reply(self, event: EventView) -> StepView {
        match self {
            SessionView::Share(session) => session.reply(event),
            SessionView::Shell(session) => session.reply(event),
        }
    }
}

impl Session {
    /// Starts the session for `request` on the backend it names, and hands
    /// out the first action.
    pub fn start(request: Request) -> (r: (Session, Action))
        ensures
            r.0@ == SessionView::initial(request@),
            r.0@.pending() == Some(r.1@),
            r.0@.on_course(),
    {
        match request {
            Request::Share(job) => {
                let (session, action) = ShareSession::start(job);
                (Session::Share(session), action)
            },
            Request::Shell(job) => {
                let (session, action) = ShellSession::start(job);
                (Session::Shell(session), action)
            },
        }
    }

    /// Whether the result has been handed out.
    pub fn is_finished(&self) -> (b: bool)
        ensures
            b == self@.finished(),
    {
        match self {
            Session::Share(session) => session.is_finished(),
            Session::Shell(session) => session.is_finished(),
        }
    }

    /// Hands the answer to the pending action to the backend, and passes on
    /// what the backend says comes next.
    pub fn advance(&mut self, event: Event) -> (r: Result<Step, Rejected>)
        ensures
            final(self)@.on_course(),
            match r {
                Ok(step) => {
                    &&& old(self)@.awaits(event@)
                    &&& final(self)@ == old(self)@.after(event@)
                    &&& step@ == old(self)@.reply(event@)
                },
                Err(Rejected::Finished) => {
                    &&& old(self)@.finished()
                    &&& final(self)@ == old(self)@
                },
                Err(Rejected::Unexpected) => {
                    &&& !old(self)@.finished()
                    &&& !old(self)@.awaits(event@)
                    &&& final(self)@ == old(self)@
                },
            },
    {
        match self {
            Session::Share(session) => session.advance(event),
            Session::Shell(session) => session.advance(event),
        }
    }
}

/// Filesystem backend: starts a check that `path` exists or can be created.
/// The credentials are taken for uniformity and not used.
pub fn smb_test_connection(path: String, _username: String, _password: String) -> (r: (
    Session,
    Action,
))
    ensures
        r.0@ == SessionView::Share(
            ShareSessionView::initial(ShareJobView { path: path@, task: ShareTaskView::Test }),
        ),
        r.0@.pending() == Some(r.1@),
        r.0@.on_course(),
{
    Session::start(Request::Share(ShareJob { path, task: ShareTask::Test }))
}

/// Filesystem backend: starts writing `data` as the document in `path`.
/// The credentials are taken for uniformity and not used.
pub fn smb_upload(path: String, _username: String, _password: String, data: String) -> (r: (
    Session,
    Action,
))
    ensures
        r.0@ == SessionView::Share(
            ShareSessionView::initial(
                ShareJobView { path: path@, task: ShareTaskView::Upload { payload: data@ } },
            ),
        ),
        r.0@.pending() == Some(r.1@),
        r.0@.on_course(),
{
    Session::start(Request::Share(ShareJob { path, task: ShareTask::Upload { payload: data } }))
}

/// Filesystem backend: starts reading the document in `path`.
/// The credentials are taken for uniformity and not used.
pub fn smb_download(path: String, _username: String, _password: String) -> (r: (
    Session,
    Action,
))
    ensures
        r.0@ == SessionView::Share(
            ShareSessionView::initial(
                ShareJobView { path: path@, task: ShareTaskView::Download },
            ),
        ),
        r.0@.pending() == Some(r.1@),
        r.0@.on_course(),
{
    Session::start(Request::Share(ShareJob { path, task: ShareTask::Download }))
}

/// Remote shell: starts a check that `host` can be reached on `port` and
/// accepts the credentials.
pub fn ssh_test_connection(host: String, port: u16, username: String, password: String) -> (r: (
    Session,
    Action,
))
    ensures
        r.0@ == SessionView::Shell(
            ShellSessionView::initial(
                ShellJobView {
                    host: host@,
                    port,
                    username: username@,
                    password: password@,
                    task: ShellTaskView::Test,
                },
            ),
        ),
        r.0@.pending() == Some(r.1@),
        r.0@.on_course(),
{
    Session::start(
        Request::Shell(ShellJob { host, port, username, password, task: ShellTask::Test }),
    )
}

/// Remote shell: starts writing `data` as the document in `remote_path`.
pub fn ssh_upload(
    host: String,
    port: u16,
    username: String,
    password: String,
    remote_path: String,
    data: String,
) -> (r: (Session, Action))
    ensures
        r.0@ == SessionView::Shell(
            ShellSessionView::initial(
                ShellJobView {
                    host: host@,
                    port,
                    username: username@,
                    password: password@,
                    task: ShellTaskView::Upload { remote_dir: remote_path@, payload: data@ },
                },
            ),
        ),
        r.0@.pending() == Some(r.1@),
        r.0@.on_course(),
{
    let task = ShellTask::Upload { remote_dir: remote_path, payload: data };
    Session::start(Request::Shell(ShellJob { host, port, username, password, task }))
}

/// Remote shell: starts reading the document in `remote_path`.
pub fn ssh_download(
    host: String,
    port: u16,
    username: String,
    password: String,
    remote_path: String,
) -> (r: (Session, Action))
    ensures
        r.0@ == SessionView::Shell(
            ShellSessionView::initial(
                ShellJobView {
                    host: host@,
                    port,
                    username: username@,
                    password: password@,
                    task: ShellTaskView::Download { remote_dir: remote_path@ },
                },
            ),
        ),
        r.0@.pending() == Some(r.1@),
        r.0@.on_course(),
{
    let task = ShellTask::Download { remote_dir: remote_path };
    Session::start(Request::Shell(ShellJob { host, port, username, password, task }))
}

} // verus!
