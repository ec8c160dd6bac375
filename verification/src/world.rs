//! A model of the far side, to state what whole operations achieve.
//!
//! A `World` holds what is known of the remote location: which places
//! exist and what each file contains. It says which events can answer an
//! action, and what is known once the action has been answered. Names that
//! differ are taken to name different things. Nothing here is executable:
//! the model serves the laws.

use vstd::prelude::*;
use crate::exchange::{ActionView, EventView, StepView};
use crate::facade::SessionView;
use crate::outcome::Report;
use crate::share::{ShareJobView, ShareSessionView};
use crate::shell::{ShellJobView, ShellSessionView};

verus! {

/// The file that a connection has open.
pub enum Handle {
    /// Created or truncated, and written from its start.
    Writing(Seq<char>),
    /// Opened and not yet read.
    Reading(Seq<char>),
}

/// What is known of the far side.
pub struct World {
    /// Filesystem backend: whether a location exists, where that is known.
    pub locations: Map<Seq<char>, bool>,
    /// Filesystem backend: the content of a file, by directory and name,
    /// where that is known.
    pub documents: Map<(Seq<char>, Seq<char>), Seq<char>>,
    /// Remote shell: the directories that were created.
    pub directories: Set<Seq<char>>,
    /// Remote shell: the content of a file, by path, where that is known.
    pub files: Map<Seq<char>, Seq<char>>,
    /// Remote shell: the file that the connection has open, if any.
    pub open: Option<Handle>,
}

impl World {
    /// Whether `event` can answer `action` here. A question about a known
    /// location has one answer, and a file of known content is there. A
    /// read of a known file yields its content. A write needs a file open
    /// for writing, and a read one open for reading. A failure is always
    /// possible.
    pub open spec fn allows(self, action: ActionView, event: EventView) -> bool {
        &&& action.answered_by(event)
        &&& match action {
            ActionView::ProbePath { path } => self.locations.contains_key(path) ==> event
                == EventView::Answer(self.locations[path]),
            ActionView::ProbeFile { dir, name } => self.documents.contains_key((dir, name))
                ==> event == EventView::Answer(true),
            ActionView::ReadFile { dir, name } => match event {
                EventView::Text(text) => self.documents.contains_key((dir, name)) ==> text
                    == self.documents[(dir, name)],
                _ => true,
            },
            ActionView::WriteAll { .. } => event is Done ==> self.open is Some
                && self.open->0 is Writing,
            ActionView::ReadAll => match event {
                EventView::Text(text) => {
                    &&& self.open matches Some(Handle::Reading(path))
                    &&& self.files.contains_key(path) ==> text == self.files[path]
                },
                _ => true,
            },
            _ => true,
        }
    }

    /// What is known once `event` has answered `action`.
    ///
    /// A directory that was created exists. A file that was written holds
    /// what was written; after a write that failed, its content is no
    /// longer known. A file that was created is empty and open for writing,
    /// and each write adds to its end. A new connection has no file open.
    pub open spec fn after(self, action: ActionView, event: EventView) -> World {
        match action {
            ActionView::CreateDirAll { path } => if event is Done {
                self.with_location(path)
            } else {
                self
            },
            ActionView::WriteFile { dir, name, content } => if event is Done {
                World { documents: self.documents.insert((dir, name), content), ..self }
            } else {
                World { documents: self.documents.remove((dir, name)), ..self }
            },
            ActionView::Connect { .. } => World { open: None, ..self },
            ActionView::MakeDirectory { path, .. } => if event is Done {
                World { directories: self.directories.insert(path), ..self }
            } else {
                self
            },
            ActionView::CreateFile { path } => if event is Done {
                World {
                    files: self.files.insert(path, Seq::empty()),
                    open: Some(Handle::Writing(path)),
                    ..self
                }
            } else {
                World { open: None, ..self }
            },
            ActionView::WriteAll { content } => match self.open {
                Some(Handle::Writing(path)) => if event is Done && self.files.contains_key(path) {
                    World { files: self.files.insert(path, self.files[path] + content), ..self }
                } else {
                    World { files: self.files.remove(path), ..self }
                },
                _ => self,
            },
            ActionView::OpenFile { path } => if event is Done {
                World { open: Some(Handle::Reading(path)), ..self }
            } else {
                World { open: None, ..self }
            },
            ActionView::ReadAll => World { open: None, ..self },
            _ => self,
        }
    }

    /// This world with `path` known to exist.
    pub open spec fn with_location(self, path: Seq<char>) -> World {
        World { locations: self.locations.insert(path, true), ..self }
    }

    /// Whether nothing that outlasts a connection differs from `other`.
    pub open spec fn same_content(self, other: World) -> bool {
        &&& self.locations == other.locations
        &&& self.documents == other.documents
        &&& self.directories == other.directories
        &&& self.files == other.files
    }
}

/// The result and the world at the end of the operation that `session`
/// carries on with, when `events` answer its actions one after the other.
///
/// There is a result only if each event can answer the action it meets, and
/// if the session ends with the last of them.
pub open spec fn run(session: SessionView, world: World, events: Seq<EventView>) -> Option<
    (Report, World),
>
    decreases events.len(),
{
    if events.len() == 0 {
        None
    } else {
        match session.pending() {
            None => None,
            Some(action) => if !world.allows(action, events[0]) {
                None
            } else {
                match session.reply(events[0]) {
                    StepView::Finish(report) => if events.len() == 1 {
                        Some((report, world.after(action, events[0])))
                    } else {
                        None
                    },
                    StepView::Perform(_) => run(
                        session.after(events[0]),
                        world.after(action, events[0]),
                        events.drop_first(),
                    ),
                }
            },
        }
    }
}

/// The actions that `session` hands out when `events` answer them one after
/// the other, the pending one first. It ends at the first event that does
/// not answer the action it meets.
pub open spec fn actions(session: SessionView, events: Seq<EventView>) -> Seq<ActionView>
    decreases events.len(),
{
    match session.pending() {
        None => Seq::empty(),
        Some(action) => if events.len() == 0 || !action.answered_by(events[0]) {
            seq![action]
        } else {
            seq![action] + actions(session.after(events[0]), events.drop_first())
        },
    }
}

/// Whether `events` take `session` from `world` through to the end, with
/// `report` as the result and `end` as the world.
pub open spec fn yields(
    session: SessionView,
    world: World,
    events: Seq<EventView>,
    report: Report,
    end: World,
) -> bool {
    run(session, world, events) == Some((report, end))
}

/// The session with which an operation of the remote-shell backend starts.
pub open spec fn shell_session(job: ShellJobView) -> SessionView {
    SessionView::Shell(ShellSessionView::initial(job))
}

/// The session with which an operation of the filesystem backend starts.
pub open spec fn share_session(job: ShareJobView) -> SessionView {
    SessionView::Share(ShareSessionView::initial(job))
}

/// The answers of a far side that grants an upload every step, with
/// `directory` as its answer to the request for the directory.
pub open spec fn granted_upload(directory: EventView) -> Seq<EventView> {
    seq![
        EventView::Done,
        EventView::Done,
        EventView::Done,
        EventView::Answer(true),
        EventView::Done,
        directory,
        EventView::Done,
        EventView::Done,
    ]
}

/// The answers of a far side that grants a download every step and
/// yields `content` as the file's text.
pub open spec fn granted_download(content: Seq<char>) -> Seq<EventView> {
    seq![
        EventView::Done,
        EventView::Done,
        EventView::Done,
        EventView::Answer(true),
        EventView::Done,
        EventView::Done,
        EventView::Text(content),
    ]
}

} // verus!
