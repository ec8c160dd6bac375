//! The document's home on this machine: a directory shared by every
//! installation, and the directory of the program itself, where the
//! document used to be kept. Loading moves a document found only in the
//! second place to the first.

use vstd::pervasive::unreached;
use vstd::prelude::*;
use crate::exchange::{Action, ActionView, Event, EventView, Rejected};
use crate::text::FILE_NAME;

verus! {

/// The folder, inside the user's documents, that holds the document.
pub const APP_FOLDER: &'static str = "ProjectTodo";

/// What saving reports when there is no place to save to.
pub const NO_HOME: &'static str = "Failed to determine data path";

/// Where loading stands.
#[derive(Clone, Copy, PartialEq, Eq, Structural, Debug)]
pub enum LoadStage {
    /// Asking whether the shared directory holds the document.
    ProbeUnified,
    /// Reading the document from the shared directory.
    ReadUnified,
    /// Asking whether the program's directory holds the document.
    ProbeLegacy,
    /// Reading the document from the program's directory.
    ReadLegacy,
    /// Creating the shared directory for the document that was found.
    MigrateDirectory,
    /// Writing the document that was found to the shared directory.
    MigrateFile,
    /// The result has been handed out.
    Done,
}

/// What loading wants next.
#[derive(PartialEq, Eq)]
pub enum LoadStep {
    /// Perform the action and report the event that answers it.
    Perform(Action),
    /// Loading is over: the document, or the text of the error.
    Finish(Result<String, String>),
}

/// A [`LoadStep`] over mathematical text.
pub enum LoadStepView {
    Perform(ActionView),
    Finish(Result<Seq<char>, Seq<char>>),
}

impl View for LoadStep {
    type V = LoadStepView;

    open spec fn view(&self) -> LoadStepView {
        match self {
            LoadStep::Perform(action) => LoadStepView::Perform(action@),
            LoadStep::Finish(Ok(data)) => LoadStepView::Finish(Ok(data@)),
            LoadStep::Finish(Err(detail)) => LoadStepView::Finish(Err(detail@)),
        }
    }
}

/// Loading as the two directories, where they could be determined, the
/// stage, and the document read from the program's directory.
pub struct LoadView {
    pub unified: Option<Seq<char>>,
    pub legacy: Option<Seq<char>>,
    pub stage: LoadStage,
    pub found: Seq<char>,
}

impl LoadView {
    /// The stage at which loading starts from these directories: at the
    /// first of them that could be determined.
    pub open spec fn entry(unified: Option<Seq<char>>, legacy: Option<Seq<char>>) -> LoadStage {
        if unified is Some {
            LoadStage::ProbeUnified
        } else if legacy is Some {
            LoadStage::ProbeLegacy
        } else {
            LoadStage::Done
        }
    }

    /// Loading at its start.
    pub open spec fn initial(unified: Option<Seq<char>>, legacy: Option<Seq<char>>) -> LoadView {
        LoadView { unified, legacy, stage: Self::entry(unified, legacy), found: Seq::empty() }
    }

    /// Whether each directory that the stage works on could be determined.
    pub open spec fn on_course(self) -> bool {
        match self.stage {
            LoadStage::ProbeUnified | LoadStage::ReadUnified => self.unified is Some,
            LoadStage::ProbeLegacy | LoadStage::ReadLegacy => self.legacy is Some,
            LoadStage::MigrateDirectory | LoadStage::MigrateFile => self.unified is Some
                && self.legacy is Some,
            LoadStage::Done => true,
        }
    }

    /// The action whose answer is awaited; none once loading is over.
    pub open spec fn pending(self) -> Option<ActionView> {
        match self.stage {
            LoadStage::ProbeUnified => Some(
                ActionView::ProbeFile { dir: self.unified->0, name: FILE_NAME@ },
            ),
            LoadStage::ReadUnified => Some(
                ActionView::ReadFile { dir: self.unified->0, name: FILE_NAME@ },
            ),
            LoadStage::ProbeLegacy => Some(
                ActionView::ProbeFile { dir: self.legacy->0, name: FILE_NAME@ },
            ),
            LoadStage::ReadLegacy => Some(
                ActionView::ReadFile { dir: self.legacy->0, name: FILE_NAME@ },
            ),
            LoadStage::MigrateDirectory => Some(ActionView::CreateDirAll { path: self.unified->0 }),
            LoadStage::MigrateFile => Some(
                ActionView::WriteFile {
                    dir: self.unified->0,
                    name: FILE_NAME@,
                    content: self.found,
                },
            ),
            LoadStage::Done => None,
        }
    }

    /// Whether loading takes `event`: it is not over, and the event answers
    /// the pending action.
    pub open spec fn awaits(self, event: EventView) -> bool {
        match self.pending() {
            Some(action) => action.answered_by(event),
            None => false,
        }
    }

    /// The stage after `event`. A document in the shared directory is read
    /// from there, and the program's directory is looked at only if there
    /// is none. A read that fails ends loading. What becomes of the move to
    /// the shared directory decides nothing.
    pub open spec fn next_stage(self, event: EventView) -> LoadStage {
        match self.stage {
            LoadStage::ProbeUnified => if event == EventView::Answer(true) {
                LoadStage::ReadUnified
            } else if self.legacy is Some {
                LoadStage::ProbeLegacy
            } else {
                LoadStage::Done
            },
            LoadStage::ProbeLegacy => if event == EventView::Answer(true) {
                LoadStage::ReadLegacy
            } else {
                LoadStage::Done
            },
            LoadStage::ReadLegacy => if event is Text && self.unified is Some {
                LoadStage::MigrateDirectory
            } else {
                LoadStage::Done
            },
            LoadStage::MigrateDirectory => LoadStage::MigrateFile,
            _ => LoadStage::Done,
        }
    }

    /// Loading after `event`: the text read from the program's directory
    /// is kept, for the move and for the result.
    pub open spec fn after(self, event: EventView) -> LoadView {
        LoadView {
            stage: self.next_stage(event),
            found: match event {
                EventView::Text(text) => if self.stage is ReadLegacy {
                    text
                } else {
                    self.found
                },
                _ => self.found,
            },
            ..self
        }
    }

    /// The result when `event` ends loading: the text that was read, the
    /// error's text where a read failed, the document that was found where
    /// the move has been tried, and the empty document where there is none.
    pub open spec fn verdict(self, event: EventView) -> Result<Seq<char>, Seq<char>> {
        match event {
            EventView::Text(text) => Ok(text),
            EventView::Failed(detail) => if self.stage is MigrateFile {
                Ok(self.found)
            } else {
                Err(detail)
            },
            EventView::Done => Ok(self.found),
            EventView::Answer(_) => Ok(Seq::empty()),
        }
    }

    /// What loading wants once it has taken `event`.
    pub open spec fn reply(self, event: EventView) -> LoadStepView {
        match self.after(event).pending() {
            Some(action) => LoadStepView::Perform(action),
            None => LoadStepView::Finish(self.verdict(event)),
        }
    }
}

/// The text of a directory that may be missing.
pub open spec fn text_of(dir: Option<String>) -> Option<Seq<char>> {
    match dir {
        Some(dir) => Some(dir@),
        None => None,
    }
}

/// Loading the document under way.
pub struct LoadSession {
    unified: Option<String>,
    legacy: Option<String>,
    stage: LoadStage,
    found: String,
}

impl View for LoadSession {
    type V = LoadView;

    closed spec fn view(&self) -> LoadView {
        LoadView {
            unified: text_of(self.unified),
            legacy: text_of(self.legacy),
            stage: self.stage,
            found: self.found@,
        }
    }
}

impl LoadSession {
    #[verifier::type_invariant]
    spec fn stays_on_course(self) -> bool {
        self@.on_course()
    }

    /// Starts loading from the shared directory `unified` and the program's
    /// directory `legacy`, each as far as it could be determined. Where
    /// neither could, there is nothing to do and the document is empty.
    pub fn start(unified: Option<String>, legacy: Option<String>) -> (r: (LoadSession, LoadStep))
        ensures
            r.0@ == LoadView::initial(text_of(unified), text_of(legacy)),
            r.0@.on_course(),
            r.1@ == match r.0@.pending() {
                Some(action) => LoadStepView::Perform(action),
                None => LoadStepView::Finish(Ok(Seq::empty())),
            },
    {
        let stage = if unified.is_some() {
            LoadStage::ProbeUnified
        } else if legacy.is_some() {
            LoadStage::ProbeLegacy
        } else {
            LoadStage::Done
        };
        let session = LoadSession { unified, legacy, stage, found: String::new() };
        let step = if stage == LoadStage::Done {
            LoadStep::Finish(Ok(String::new()))
        } else {
            LoadStep::Perform(session.action_at(stage))
        };
        (session, step)
    }

    /// The stage loading is in.
    pub fn stage(&self) -> (stage: LoadStage)
        ensures
            stage == self@.stage,
            self@.on_course(),
    {
        proof {
            use_type_invariant(self);
        }
        self.stage
    }

    fn takes(&self, event: &Event) -> (b: bool)
        ensures
            b == self@.awaits(event@),
    {
        match self.stage {
            LoadStage::Done => false,
            LoadStage::ProbeUnified | LoadStage::ProbeLegacy => match event {
                Event::Answer(_) => true,
                _ => false,
            },
            LoadStage::ReadUnified | LoadStage::ReadLegacy => match event {
                Event::Text(_) | Event::Failed(_) => true,
                _ => false,
            },
            _ => match event {
                Event::Done | Event::Failed(_) => true,
                _ => false,
            },
        }
    }

    fn action_at(&self, stage: LoadStage) -> (action: Action)
        requires
            stage != LoadStage::Done,
            (LoadView { stage, ..self@ }).on_course(),
        ensures
            Some(action@) == (LoadView { stage, ..self@ }).pending(),
    {
        let name = String::from_str(FILE_NAME);
        match stage {
            LoadStage::ProbeUnified => match &self.unified {
                Some(dir) => Action::ProbeFile { dir: dir.clone(), name },
                None => unreached(),
            },
            LoadStage::ReadUnified => match &self.unified {
                Some(dir) => Action::ReadFile { dir: dir.clone(), name },
                None => unreached(),
            },
            LoadStage::ProbeLegacy => match &self.legacy {
                Some(dir) => Action::ProbeFile { dir: dir.clone(), name },
                None => unreached(),
            },
            LoadStage::ReadLegacy => match &self.legacy {
                Some(dir) => Action::ReadFile { dir: dir.clone(), name },
                None => unreached(),
            },
            LoadStage::MigrateDirectory => match &self.unified {
                Some(dir) => Action::CreateDirAll { path: dir.clone() },
                None => unreached(),
            },
            LoadStage::MigrateFile => match &self.unified {
                Some(dir) => Action::WriteFile {
                    dir: dir.clone(),
                    name,
                    content: self.found.clone(),
                },
                None => unreached(),
            },
            LoadStage::Done => unreached(),
        }
    }

    /// Takes the answer to the pending action and says what comes next.
    ///
    /// An event that does not answer the pending action, or any event once
    /// loading is over, is refused and changes nothing.
    pub fn advance(&mut self, event: Event) -> (r: Result<LoadStep, Rejected>)
        ensures
            final(self)@.on_course(),
            match r {
                Ok(step) => {
                    &&& old(self)@.awaits(event@)
                    &&& final(self)@ == old(self)@.after(event@)
                    &&& step@ == old(self)@.reply(event@)
                },
                Err(Rejected::Finished) => {
                    &&& old(self)@.stage is Done
                    &&& final(self)@ == old(self)@
                },
                Err(Rejected::Unexpected) => {
                    &&& !(old(self)@.stage is Done)
                    &&& !old(self)@.awaits(event@)
                    &&& final(self)@ == old(self)@
                },
            },
    {
        proof {
            use_type_invariant(&*self);
        }
        let stage = self.stage;
        if stage == LoadStage::Done {
            return Err(Rejected::Finished);
        }
        if !self.takes(&event) {
            return Err(Rejected::Unexpected);
        }
        match event {
            Event::Answer(true) => {
                let next = if stage == LoadStage::ProbeUnified {
                    LoadStage::ReadUnified
                } else {
                    LoadStage::ReadLegacy
                };
                self.stage = next;
                Ok(LoadStep::Perform(self.action_at(next)))
            },
            Event::Answer(false) => {
                if stage == LoadStage::ProbeUnified && self.legacy.is_some() {
                    self.stage = LoadStage::ProbeLegacy;
                    Ok(LoadStep::Perform(self.action_at(LoadStage::ProbeLegacy)))
                } else {
                    self.stage = LoadStage::Done;
                    Ok(LoadStep::Finish(Ok(String::new())))
                }
            },
            Event::Text(text) => {
                if stage == LoadStage::ReadLegacy && self.unified.is_some() {
                    self.found = text;
                    self.stage = LoadStage::MigrateDirectory;
                    Ok(LoadStep::Perform(self.action_at(LoadStage::MigrateDirectory)))
                } else {
                    if stage == LoadStage::ReadLegacy {
                        self.found = text.clone();
                    }
                    self.stage = LoadStage::Done;
                    Ok(LoadStep::Finish(Ok(text)))
                }
            },
            Event::Failed(detail) => {
                if stage == LoadStage::MigrateDirectory {
                    self.stage = LoadStage::MigrateFile;
                    Ok(LoadStep::Perform(self.action_at(LoadStage::MigrateFile)))
                } else if stage == LoadStage::MigrateFile {
                    self.stage = LoadStage::Done;
                    Ok(LoadStep::Finish(Ok(self.found.clone())))
                } else {
                    self.stage = LoadStage::Done;
                    Ok(LoadStep::Finish(Err(detail)))
                }
            },
            Event::Done => {
                if stage == LoadStage::MigrateDirectory {
                    self.stage = LoadStage::MigrateFile;
                    Ok(LoadStep::Perform(self.action_at(LoadStage::MigrateFile)))
                } else {
                    self.stage = LoadStage::Done;
                    Ok(LoadStep::Finish(Ok(self.found.clone())))
                }
            },
        }
    }
}

/// Where saving stands.
#[derive(Clone, Copy, PartialEq, Eq, Structural, Debug)]
pub enum SaveStage {
    /// Creating the shared directory.
    CreateDirectory,
    /// Writing the document.
    Write,
    /// The result has been handed out.
    Done,
}

/// What saving wants next.
#[derive(PartialEq, Eq)]
pub enum SaveStep {
    /// Perform the action and report the event that answers it.
    Perform(Action),
    /// Saving is over: done, or the text of the error.
    Finish(Result<(), String>),
}

/// A [`SaveStep`] over mathematical text.
pub enum SaveStepView {
    Perform(ActionView),
    Finish(Result<(), Seq<char>>),
}

impl View for SaveStep {
    type V = SaveStepView;

    open spec fn view(&self) -> SaveStepView {
        match self {
            SaveStep::Perform(action) => SaveStepView::Perform(action@),
            SaveStep::Finish(Ok(())) => SaveStepView::Finish(Ok(())),
            SaveStep::Finish(Err(detail)) => SaveStepView::Finish(Err(detail@)),
        }
    }
}

/// Saving as the shared directory, the document and the stage.
pub struct SaveView {
    pub dir: Seq<char>,
    pub data: Seq<char>,
    pub stage: SaveStage,
}

impl SaveView {
    /// The action whose answer is awaited; none once saving is over.
    pub open spec fn pending(self) -> Option<ActionView> {
        match self.stage {
            SaveStage::CreateDirectory => Some(ActionView::CreateDirAll { path: self.dir }),
            SaveStage::Write => Some(
                ActionView::WriteFile { dir: self.dir, name: FILE_NAME@, content: self.data },
            ),
            SaveStage::Done => None,
        }
    }

    /// Whether saving takes `event`: it is not over, and the event answers
    /// the pending action.
    pub open spec fn awaits(self, event: EventView) -> bool {
        match self.pending() {
            Some(action) => action.answered_by(event),
            None => false,
        }
    }

    /// Saving after `event`: the document is written once its directory is
    /// there, and any failure ends saving.
    pub open spec fn after(self, event: EventView) -> SaveView {
        SaveView {
            stage: if self.stage is CreateDirectory && event is Done {
                SaveStage::Write
            } else {
                SaveStage::Done
            },
            ..self
        }
    }

    /// What saving wants once it has taken `event`.
    pub open spec fn reply(self, event: EventView) -> SaveStepView {
        match self.after(event).pending() {
            Some(action) => SaveStepView::Perform(action),
            None => SaveStepView::Finish(
                match event {
                    EventView::Failed(detail) => Err(detail),
                    _ => Ok(()),
                },
            ),
        }
    }
}

/// Saving the document under way.
pub struct SaveSession {
    dir: String,
    data: String,
    stage: SaveStage,
}

impl View for SaveSession {
    type V = SaveView;

    closed spec fn view(&self) -> SaveView {
        SaveView { dir: self.dir@, data: self.data@, stage: self.stage }
    }
}

impl SaveSession {
    /// Starts saving `data` in the shared directory `unified`. Where that
    /// directory could not be determined, saving ends at once in that error.
    pub fn start(unified: Option<String>, data: String) -> (r: Result<
        (SaveSession, Action),
        String,
    >)
        ensures
            match r {
                Ok((session, action)) => {
                    &&& text_of(unified) == Some(session@.dir)
                    &&& session@.data == data@
                    &&& session@.stage is CreateDirectory
                    &&& session@.pending() == Some(action@)
                },
                Err(detail) => unified is None && detail@ == NO_HOME@,
            },
    {
        match unified {
            Some(dir) => {
                let action = Action::CreateDirAll { path: dir.clone() };
                Ok((SaveSession { dir, data, stage: SaveStage::CreateDirectory }, action))
            },
            None => Err(String::from_str(NO_HOME)),
        }
    }

    /// The stage saving is in.
    pub fn stage(&self) -> (stage: SaveStage)
        ensures
            stage == self@.stage,
    {
        self.stage
    }

    /// Takes the answer to the pending action and says what comes next.
    ///
    /// An event that does not answer the pending action, or any event once
    /// saving is over, is refused and changes nothing.
    pub fn advance(&mut self, event: Event) -> (r: Result<SaveStep, Rejected>)
        ensures
            match r {
                Ok(step) => {
                    &&& old(self)@.awaits(event@)
                    &&& final(self)@ == old(self)@.after(event@)
                    &&& step@ == old(self)@.reply(event@)
                },
                Err(Rejected::Finished) => {
                    &&& old(self)@.stage is Done
                    &&& final(self)@ == old(self)@
                },
                Err(Rejected::Unexpected) => {
                    &&& !(old(self)@.stage is Done)
                    &&& !old(self)@.awaits(event@)
                    &&& final(self)@ == old(self)@
                },
            },
    {
        let stage = self.stage;
        if stage == SaveStage::Done {
            return Err(Rejected::Finished);
        }
        match event {
            Event::Done => {
                if stage == SaveStage::CreateDirectory {
                    self.stage = SaveStage::Write;
                    Ok(
                        SaveStep::Perform(
                            Action::WriteFile {
                                dir: self.dir.clone(),
                                name: String::from_str(FILE_NAME),
                                content: self.data.clone(),
                            },
                        ),
                    )
                } else {
                    self.stage = SaveStage::Done;
                    Ok(SaveStep::Finish(Ok(())))
                }
            },
            Event::Failed(detail) => {
                self.stage = SaveStage::Done;
                Ok(SaveStep::Finish(Err(detail)))
            },
            _ => Err(Rejected::Unexpected),
        }
    }
}

} // verus!
