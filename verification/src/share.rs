//! The filesystem backend: the remote location is a directory that the
//! local filesystem can address, such as a mounted share.

use vstd::pervasive::unreached;
use vstd::prelude::*;
use crate::exchange::{Action, ActionView, Event, EventView, Rejected, Step, StepView};
use crate::outcome::{Report, SyncResult};
use crate::text::FILE_NAME;
use crate::vocabulary::{
    SHARE_ACCESSIBLE, SHARE_CREATED, SHARE_LOADED, SHARE_NO_DIRECTORY, SHARE_READ_FAILED,
    SHARE_SAVED, SHARE_UNREACHABLE, SHARE_WRITE_FAILED,
};

verus! {

/// What a session is for.
pub enum ShareTask {
    /// Check that the location exists, and create it if it does not.
    Test,
    /// Write `payload` as the document in the location.
    Upload { payload: String },
    /// Read the document in the location.
    Download,
}

/// A [`ShareTask`] over mathematical text.
pub enum ShareTaskView {
    Test,
    Upload { payload: Seq<char> },
    Download,
}

/// The parameters of one operation: the location and what to do there.
pub struct ShareJob {
    pub path: String,
    pub task: ShareTask,
}

/// A [`ShareJob`] over mathematical text.
pub struct ShareJobView {
    pub path: Seq<char>,
    pub task: ShareTaskView,
}

/// Where a session stands: at each stage but the last, the action of that
/// stage has been handed out and its answer is awaited.
#[derive(Clone, Copy, PartialEq, Eq, Structural, Debug)]
pub enum ShareStage {
    /// Connection test: asking whether the location exists.
    Probe,
    /// Creating the location and its missing parents.
    CreateDirectory,
    /// Upload: writing the document.
    Write,
    /// Download: reading the document.
    Read,
    /// The result has been handed out.
    Done,
}

impl View for ShareTask {
    type V = ShareTaskView;

    open spec fn view(&self) -> ShareTaskView {
        match self {
            ShareTask::Test => ShareTaskView::Test,
            ShareTask::Upload { payload } => ShareTaskView::Upload { payload: payload@ },
            ShareTask::Download => ShareTaskView::Download,
        }
    }
}

impl View for ShareJob {
    type V = ShareJobView;

    open spec fn view(&self) -> ShareJobView {
        ShareJobView { path: self.path@, task: self.task@ }
    }
}

impl ShareTaskView {
    /// The payload of an upload; no other task has one.
    pub open spec fn payload(self) -> Seq<char> {
        match self {
            ShareTaskView::Upload { payload } => payload,
            _ => Seq::empty(),
        }
    }

    /// The stage in which a session starts.
    pub open spec fn first(self) -> ShareStage {
        match self {
            ShareTaskView::Test => ShareStage::Probe,
            ShareTaskView::Upload { .. } => ShareStage::CreateDirectory,
            ShareTaskView::Download => ShareStage::Read,
        }
    }

    /// The stages that a session can be in, given what it is for.
    pub open spec fn visits(self, stage: ShareStage) -> bool {
        match stage {
            ShareStage::Probe => self is Test,
            ShareStage::CreateDirectory => self is Test || self is Upload,
            ShareStage::Write => self is Upload,
            ShareStage::Read => self is Download,
            ShareStage::Done => true,
        }
    }

    /// The stage after `stage` when `event` reports no failure: a location
    /// that does not exist is created, and an upload writes once its
    /// directory is there.
    pub open spec fn following(self, stage: ShareStage, event: EventView) -> ShareStage {
        match stage {
            ShareStage::Probe => if event == EventView::Answer(true) {
                ShareStage::Done
            } else {
                ShareStage::CreateDirectory
            },
            ShareStage::CreateDirectory => if self is Upload {
                ShareStage::Write
            } else {
                ShareStage::Done
            },
            _ => ShareStage::Done,
        }
    }

    /// What a failure at `stage` is called, before the error's own text.
    pub open spec fn complaint(self, stage: ShareStage) -> Seq<char> {
        match stage {
            ShareStage::CreateDirectory => if self is Upload {
                SHARE_NO_DIRECTORY@
            } else {
                SHARE_UNREACHABLE@
            },
            ShareStage::Write => SHARE_WRITE_FAILED@,
            ShareStage::Read => SHARE_READ_FAILED@,
            _ => Seq::empty(),
        }
    }

    /// The result of a session that ends well at `stage`, after `event`: a
    /// download hands on the text that the event yields, unchanged.
    pub open spec fn reward(self, stage: ShareStage, event: EventView) -> Report {
        match self {
            ShareTaskView::Test => if stage is Probe {
                Report::succeeded(SHARE_ACCESSIBLE@)
            } else {
                Report::succeeded(SHARE_CREATED@)
            },
            ShareTaskView::Upload { .. } => Report::succeeded(SHARE_SAVED@),
            ShareTaskView::Download => Report {
                success: true,
                message: SHARE_LOADED@,
                data: event.text(),
            },
        }
    }
}

impl ShareJobView {
    /// The action whose answer is awaited at `stage`.
    pub open spec fn pending(self, stage: ShareStage) -> Option<ActionView> {
        match stage {
            ShareStage::Probe => Some(ActionView::ProbePath { path: self.path }),
            ShareStage::CreateDirectory => Some(ActionView::CreateDirAll { path: self.path }),
            ShareStage::Write => Some(
                ActionView::WriteFile {
                    dir: self.path,
                    name: FILE_NAME@,
                    content: self.task.payload(),
                },
            ),
            ShareStage::Read => Some(ActionView::ReadFile { dir: self.path, name: FILE_NAME@ }),
            ShareStage::Done => None,
        }
    }
}

/// A session as its job and its stage.
pub struct ShareSessionView {
    pub job: ShareJobView,
    pub stage: ShareStage,
}

impl ShareSessionView {
    /// Whether the session is at a stage that its task visits.
    pub open spec fn on_course(self) -> bool {
        self.job.task.visits(self.stage)
    }

    /// How many answers the session can still take, at most.
    pub open spec fn steps_left(self) -> nat {
        match self.stage {
            ShareStage::Probe => 2,
            ShareStage::CreateDirectory => if self.job.task is Upload {
                2
            } else {
                1
            },
            ShareStage::Write | ShareStage::Read => 1,
            ShareStage::Done => 0,
        }
    }

    /// The session a job starts with.
    pub open spec fn initial(job: ShareJobView) -> ShareSessionView {
        ShareSessionView { job, stage: job.task.first() }
    }

    /// The action whose answer the session awaits; none once it is over.
    pub open spec fn pending(self) -> Option<ActionView> {
        self.job.pending(self.stage)
    }

    /// Whether the session takes `event`: it is not over, and the event
    /// answers the pending action.
    pub open spec fn awaits(self, event: EventView) -> bool {
        match self.pending() {
            Some(action) => action.answered_by(event),
            None => false,
        }
    }

    /// The session after `event`: any failure ends it.
    pub open spec fn after(self, event: EventView) -> ShareSessionView {
        ShareSessionView {
            job: self.job,
            stage: if event is Failed {
                ShareStage::Done
            } else {
                self.job.task.following(self.stage, event)
            },
        }
    }

    /// What the session wants once it has taken `event`: the action of its
    /// new stage, or, at the end, its result.
    pub open spec fn reply(self, event: EventView) -> StepView {
        match self.after(event).pending() {
            Some(action) => StepView::Perform(action),
            None => StepView::Finish(
                match event {
                    EventView::Failed(detail) => Report::failed(
                        self.job.task.complaint(self.stage),
                        detail,
                    ),
                    _ => self.job.task.reward(self.stage, event),
                },
            ),
        }
    }
}

/// One operation of the filesystem backend under way.
pub struct ShareSession {
    job: ShareJob,
    stage: ShareStage,
}

impl View for ShareSession {
    type V = ShareSessionView;

    closed spec fn view(&self) -> ShareSessionView {
        ShareSessionView { job: self.job@, stage: self.stage }
    }
}

impl ShareSession {
    #[verifier::type_invariant]
    spec fn stays_on_course(self) -> bool {
        self@.on_course()
    }

    /// Starts the session for `job`, and hands out its first action.
    pub fn start(job: ShareJob) -> (r: (ShareSession, Action))
        ensures
            r.0@ == ShareSessionView::initial(job@),
            r.0@.pending() == Some(r.1@),
            r.0@.on_course(),
    {
        let stage = match &job.task {
            ShareTask::Test => ShareStage::Probe,
            ShareTask::Upload { .. } => ShareStage::CreateDirectory,
            ShareTask::Download => ShareStage::Read,
        };
        let session = ShareSession { job, stage };
        let action = session.action_at(stage);
        (session, action)
    }

    /// The stage the session is in.
    pub fn stage(&self) -> (stage: ShareStage)
        ensures
            stage == self@.stage,
            self@.on_course(),
    {
        proof {
            use_type_invariant(self);
        }
        self.stage
    }

    /// Whether the result has been handed out.
    pub fn is_finished(&self) -> (b: bool)
        ensures
            b == (self@.stage is Done),
    {
        self.stage == ShareStage::Done
    }

    fn takes(&self, event: &Event) -> (b: bool)
        ensures
            b == self@.awaits(event@),
    {
        match self.stage {
            ShareStage::Done => false,
            ShareStage::Probe => match event {
                Event::Answer(_) => true,
                _ => false,
            },
            ShareStage::Read => match event {
                Event::Text(_) | Event::Failed(_) => true,
                _ => false,
            },
            _ => match event {
                Event::Done | Event::Failed(_) => true,
                _ => false,
            },
        }
    }

    fn action_at(&self, stage: ShareStage) -> (action: Action)
        requires
            stage != ShareStage::Done,
            self.job.task@.visits(stage),
        ensures
            Some(action@) == self@.job.pending(stage),
    {
        match stage {
            ShareStage::Probe => Action::ProbePath { path: self.job.path.clone() },
            ShareStage::CreateDirectory => Action::CreateDirAll { path: self.job.path.clone() },
            ShareStage::Write => match &self.job.task {
                ShareTask::Upload { payload } => Action::WriteFile {
                    dir: self.job.path.clone(),
                    name: String::from_str(FILE_NAME),
                    content: payload.clone(),
                },
                _ => unreached(),
            },
            ShareStage::Read => Action::ReadFile {
                dir: self.job.path.clone(),
                name: String::from_str(FILE_NAME),
            },
            ShareStage::Done => unreached(),
        }
    }

    /// Takes the answer to the pending action and says what comes next.
    ///
    /// An event that does not answer the pending action, or any event once
    /// the session is over, is refused and changes nothing.
    pub fn advance(&mut self, event: Event) -> (r: Result<Step, Rejected>)
        ensures
            final(self)@.on_course(),
            match r {
                Ok(step) => {
                    &&& old(self)@.awaits(event@)
                    &&& final(self)@ == old(self)@.after(event@)
                    &&& step@ == old(self)@.reply(event@)
                },
                Err(Rejected::Finished) => {
                    &&& old(self)@.stage is Done
                    &&& final(self)@ == old(self)@
                },
                Err(Rejected::Unexpected) => {
                    &&& !(old(self)@.stage is Done)
                    &&& !old(self)@.awaits(event@)
                    &&& final(self)@ == old(self)@
                },
            },
    {
        proof {
            use_type_invariant(&*self);
        }
        let stage = self.stage;
        if stage == ShareStage::Done {
            return Err(Rejected::Finished);
        }
        if !self.takes(&event) {
            return Err(Rejected::Unexpected);
        }
        let is_upload = match &self.job.task {
            ShareTask::Upload { .. } => true,
            _ => false,
        };
        match event {
            Event::Failed(detail) => {
                let complaint = match stage {
                    ShareStage::CreateDirectory => if is_upload {
                        SHARE_NO_DIRECTORY
                    } else {
                        SHARE_UNREACHABLE
                    },
                    ShareStage::Write => SHARE_WRITE_FAILED,
                    _ => SHARE_READ_FAILED,
                };
                self.stage = ShareStage::Done;
                Ok(Step::Finish(SyncResult::failed(complaint, detail.as_str())))
            },
            Event::Answer(true) => {
                self.stage = ShareStage::Done;
                Ok(Step::Finish(SyncResult::succeeded(SHARE_ACCESSIBLE)))
            },
            Event::Answer(false) => {
                self.stage = ShareStage::CreateDirectory;
                Ok(Step::Perform(self.action_at(ShareStage::CreateDirectory)))
            },
            Event::Text(text) => {
                self.stage = ShareStage::Done;
                Ok(Step::Finish(SyncResult::delivered(SHARE_LOADED, text)))
            },
            Event::Done => {
                if stage == ShareStage::CreateDirectory && is_upload {
                    self.stage = ShareStage::Write;
                    Ok(Step::Perform(self.action_at(ShareStage::Write)))
                } else if stage == ShareStage::CreateDirectory {
                    self.stage = ShareStage::Done;
                    Ok(Step::Finish(SyncResult::succeeded(SHARE_CREATED)))
                } else {
                    self.stage = ShareStage::Done;
                    Ok(Step::Finish(SyncResult::succeeded(SHARE_SAVED)))
                }
            },
        }
    }
}

} // verus!
