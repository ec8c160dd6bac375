//! What holds of every operation, whatever the far side answers.

use vstd::prelude::*;
use crate::exchange::{ActionView, EventView, StepView, DIRECTORY_MODE};
use crate::facade::SessionView;
use crate::outcome::Report;
use crate::share::{ShareJobView, ShareSessionView, ShareTaskView};
use crate::shell::{ShellJobView, ShellSessionView};
use crate::text::{address_of, file_path_of, FILE_NAME};
use crate::vocabulary::{
    share_success_text, shell_success_text, SHARE_ACCESSIBLE, SHARE_CREATED, SHARE_LOADED,
    SHARE_SAVED, SHARE_UNREACHABLE, SHELL_AUTH_ERROR, SHELL_AUTH_REJECTED, SHELL_DOWNLOADED,
    SHELL_UPLOADED,
};
use crate::world::{
    actions, granted_download, granted_upload, run, share_session, shell_session, yields, Handle,
    World,
};

verus! {

/// Every answer that a session takes brings its end nearer: nothing is
/// tried twice.
pub proof fn lemma_every_answer_brings_the_end_nearer(session: SessionView, event: EventView)
    requires
        session.on_course(),
        session.awaits(event),
    ensures
        session.after(event).steps_left() < session.steps_left(),
        session.after(event).on_course(),
{
}

/// An operation is over after eight answers at most on the remote shell,
/// and after two on the filesystem.
pub proof fn lemma_operations_are_short(
    session: SessionView,
    world: World,
    events: Seq<EventView>,
)
    requires
        session.on_course(),
    ensures
        run(session, world, events) is Some ==> events.len() <= session.steps_left(),
        session.steps_left() <= 8,
        session is Share ==> session.steps_left() <= 2,
    decreases events.len(),
{
    if events.len() > 0 && session.pending() is Some {
        let action = session.pending()->0;
        if world.allows(action, events[0]) && session.reply(events[0]) is Perform {
            lemma_every_answer_brings_the_end_nearer(session, events[0]);
            lemma_operations_are_short(
                session.after(events[0]),
                world.after(action, events[0]),
                events.drop_first(),
            );
        }
    }
}

/// Each backend asks only for its own kind of work: the filesystem backend
/// for work on the filesystem, the remote shell for none of that.
pub proof fn lemma_backends_keep_to_their_actions(session: SessionView)
    requires
        session.on_course(),
    ensures
        session.pending() matches Some(action) ==> (action.on_filesystem() <==> session is Share),
{
}

/// Every result is well formed, whichever backend gave it and whatever
/// happened: a failure carries no payload, and a payload comes only from a
/// download that succeeded.
pub proof fn lemma_failure_never_carries_data(
    session: SessionView,
    world: World,
    events: Seq<EventView>,
)
    ensures
        run(session, world, events) matches Some((report, _)) ==> {
            &&& report.wf()
            &&& !report.success ==> report.data is None
            &&& report.data is Some ==> match session {
                SessionView::Share(s) => s.job.task is Download,
                SessionView::Shell(s) => s.job.task is Download,
            }
        },
    decreases events.len(),
{
    if events.len() > 0 && session.pending() is Some {
        let action = session.pending()->0;
        if world.allows(action, events[0]) && session.reply(events[0]) is Perform {
            lemma_failure_never_carries_data(
                session.after(events[0]),
                world.after(action, events[0]),
                events.drop_first(),
            );
        }
    }
}

/// A success is reported in the words of the backend that achieved it.
pub proof fn lemma_success_speaks_its_backend(
    session: SessionView,
    world: World,
    events: Seq<EventView>,
)
    requires
        session.on_course(),
    ensures
        run(session, world, events) matches Some((report, _)) ==> (report.success ==> match session {
            SessionView::Share(_) => share_success_text(report.message),
            SessionView::Shell(_) => shell_success_text(report.message),
        }),
    decreases events.len(),
{
    if events.len() > 0 && session.pending() is Some {
        let action = session.pending()->0;
        if world.allows(action, events[0]) && session.reply(events[0]) is Perform {
            lemma_success_speaks_its_backend(
                session.after(events[0]),
                world.after(action, events[0]),
                events.drop_first(),
            );
        }
    }
}

proof fn lemma_shell_upload_from(
    session: ShellSessionView,
    world: World,
    events: Seq<EventView>,
    report: Report,
    end: World,
)
    requires
        session.on_course(),
        session.job.task is Upload,
        yields(SessionView::Shell(session), world, events, report, end),
        report.success,
        session.stage is Transfer ==> {
            &&& world.open == Some(Handle::Writing(file_path_of(session.job.task.remote_dir())))
            &&& world.files.contains_key(file_path_of(session.job.task.remote_dir()))
            &&& world.files[file_path_of(session.job.task.remote_dir())] == Seq::<char>::empty()
        },
    ensures
        end.files == world.files.insert(
            file_path_of(session.job.task.remote_dir()),
            session.job.task.payload(),
        ),
        end.locations == world.locations,
        end.documents == world.documents,
        report == Report::succeeded(SHELL_UPLOADED@),
    decreases events.len(),
{
    let path = file_path_of(session.job.task.remote_dir());
    let payload = session.job.task.payload();
    let whole = SessionView::Shell(session);
    let action = whole.pending()->0;
    let next = world.after(action, events[0]);
    if whole.reply(events[0]) is Perform {
        lemma_shell_upload_from(session.after(events[0]), next, events.drop_first(), report, end);
        assert(next.files.insert(path, payload) =~= world.files.insert(path, payload));
    } else {
        assert(Seq::<char>::empty() + payload =~= payload);
        assert(end.files =~= world.files.insert(path, payload));
    }
}

proof fn lemma_shell_download_from(
    session: ShellSessionView,
    world: World,
    events: Seq<EventView>,
    report: Report,
    end: World,
)
    requires
        session.on_course(),
        session.job.task is Download,
        yields(SessionView::Shell(session), world, events, report, end),
        report.success,
        world.files.contains_key(file_path_of(session.job.task.remote_dir())),
        session.stage is Transfer ==> world.open == Some(
            Handle::Reading(file_path_of(session.job.task.remote_dir())),
        ),
    ensures
        report.data == Some(world.files[file_path_of(session.job.task.remote_dir())]),
        end.same_content(world),
    decreases events.len(),
{
    let whole = SessionView::Shell(session);
    let action = whole.pending()->0;
    let next = world.after(action, events[0]);
    if whole.reply(events[0]) is Perform {
        lemma_shell_download_from(session.after(events[0]), next, events.drop_first(), report, end);
    }
}

/// Remote shell: what a download fetches is what the upload before it
/// stored, character for character, whichever hosts and credentials the two
/// were given, as long as both succeeded and named the same directory. The
/// directory need not have been there: the upload asks for it first and
/// goes on whatever the answer.
pub proof fn lemma_shell_round_trip(
    up: ShellJobView,
    down: ShellJobView,
    world: World,
    storing: Seq<EventView>,
    stored: Report,
    between: World,
    fetching: Seq<EventView>,
    fetched: Report,
    end: World,
)
    requires
        up.task is Upload,
        down.task is Download,
        up.task.remote_dir() == down.task.remote_dir(),
        yields(shell_session(up), world, storing, stored, between),
        stored.success,
        yields(shell_session(down), between, fetching, fetched, end),
        fetched.success,
    ensures
        fetched.data == Some(up.task.payload()),
        end.same_content(between),
{
    lemma_shell_upload_from(ShellSessionView::initial(up), world, storing, stored, between);
    lemma_shell_download_from(ShellSessionView::initial(down), between, fetching, fetched, end);
}

/// Remote shell: an upload that follows an upload of the same payload to
/// the same directory leaves every file as it found it.
pub proof fn lemma_shell_upload_is_idempotent(
    first: ShellJobView,
    second: ShellJobView,
    world: World,
    once: Seq<EventView>,
    stored: Report,
    between: World,
    again: Seq<EventView>,
    restored: Report,
    end: World,
)
    requires
        first.task is Upload,
        second.task == first.task,
        yields(shell_session(first), world, once, stored, between),
        stored.success,
        yields(shell_session(second), between, again, restored, end),
        restored.success,
    ensures
        end.files == between.files,
        restored == stored,
{
    lemma_shell_upload_from(ShellSessionView::initial(first), world, once, stored, between);
    lemma_shell_upload_from(ShellSessionView::initial(second), between, again, restored, end);
    assert(end.files =~= between.files);
}

/// Remote shell: where every step is answered well, an upload ends in
/// success with the payload as the file's content, whether or not the
/// directory could be created: what becomes of that request decides
/// nothing. Where it was granted, the directory is there.
pub proof fn lemma_shell_upload_brings_its_directory(
    job: ShellJobView,
    world: World,
    directory: EventView,
)
    requires
        job.task is Upload,
        directory is Done || directory is Failed,
    ensures
        (run(shell_session(job), world, granted_upload(directory)) matches Some((report, end)) && {
            &&& report.success
            &&& end.files == world.files.insert(
                file_path_of(job.task.remote_dir()),
                job.task.payload(),
            )
            &&& directory is Done ==> end.directories.contains(job.task.remote_dir())
        }),
{
    reveal_with_fuel(run, 9);
    let events = granted_upload(directory);
    match run(shell_session(job), world, events) {
        Some((report, end)) => {
            lemma_shell_upload_from(ShellSessionView::initial(job), world, events, report, end);
        },
        None => {},
    }
}

/// Remote shell: the work of an upload, where every step is answered well,
/// in its order: the connection to host and port, the handshake, the
/// credentials, the question whether they were accepted, the sub-channel,
/// the directory as it was named, the file inside it, and the payload.
pub proof fn lemma_shell_upload_takes_these_steps(job: ShellJobView, directory: EventView)
    requires
        job.task is Upload,
        directory is Done || directory is Failed,
    ensures
        actions(shell_session(job), granted_upload(directory).drop_last()) == seq![
            (ActionView::Connect { address: address_of(job.host, job.port) }),
            ActionView::Handshake,
            (ActionView::SubmitPassword { username: job.username, password: job.password }),
            ActionView::QueryAuthenticated,
            ActionView::OpenFileSubsystem,
            (ActionView::MakeDirectory { path: job.task.remote_dir(), mode: DIRECTORY_MODE }),
            (ActionView::CreateFile { path: file_path_of(job.task.remote_dir()) }),
            (ActionView::WriteAll { content: job.task.payload() }),
        ],
{
    reveal_with_fuel(actions, 9);
    let taken = actions(shell_session(job), granted_upload(directory).drop_last());
    assert(taken.len() == 8);
    assert(taken =~= seq![
        ActionView::Connect { address: address_of(job.host, job.port) },
        ActionView::Handshake,
        ActionView::SubmitPassword { username: job.username, password: job.password },
        ActionView::QueryAuthenticated,
        ActionView::OpenFileSubsystem,
        ActionView::MakeDirectory { path: job.task.remote_dir(), mode: DIRECTORY_MODE },
        ActionView::CreateFile { path: file_path_of(job.task.remote_dir()) },
        ActionView::WriteAll { content: job.task.payload() },
    ]);
}

/// Remote shell: the work of a download, where every step is answered
/// well, in its order. It asks for no directory, and for the same file as
/// an upload to the same directory.
pub proof fn lemma_shell_download_takes_these_steps(job: ShellJobView, content: Seq<char>)
    requires
        job.task is Download,
    ensures
        actions(shell_session(job), granted_download(content).drop_last()) == seq![
            (ActionView::Connect { address: address_of(job.host, job.port) }),
            ActionView::Handshake,
            (ActionView::SubmitPassword { username: job.username, password: job.password }),
            ActionView::QueryAuthenticated,
            ActionView::OpenFileSubsystem,
            (ActionView::OpenFile { path: file_path_of(job.task.remote_dir()) }),
            ActionView::ReadAll,
        ],
{
    reveal_with_fuel(actions, 8);
    let taken = actions(shell_session(job), granted_download(content).drop_last());
    assert(taken.len() == 7);
    assert(taken =~= seq![
        ActionView::Connect { address: address_of(job.host, job.port) },
        ActionView::Handshake,
        ActionView::SubmitPassword { username: job.username, password: job.password },
        ActionView::QueryAuthenticated,
        ActionView::OpenFileSubsystem,
        ActionView::OpenFile { path: file_path_of(job.task.remote_dir()) },
        ActionView::ReadAll,
    ]);
}

proof fn lemma_shell_test_from(
    session: ShellSessionView,
    world: World,
    events: Seq<EventView>,
)
    requires
        session.on_course(),
        session.job.task is Test,
    ensures
        forall|i: int|
            0 <= i < actions(SessionView::Shell(session), events).len() ==> !(#[trigger] actions(
                SessionView::Shell(session),
                events,
            )[i]).of_file_subsystem(),
        run(SessionView::Shell(session), world, events) matches Some((_, end))
            ==> end.same_content(world),
    decreases events.len(),
{
    let whole = SessionView::Shell(session);
    if whole.pending() is Some && events.len() > 0 {
        let action = whole.pending()->0;
        let later = SessionView::Shell(session.after(events[0]));
        lemma_shell_test_from(
            session.after(events[0]),
            world.after(action, events[0]),
            events.drop_first(),
        );
        assert forall|i: int| 0 <= i < actions(whole, events).len() implies !(#[trigger] actions(
            whole,
            events,
        )[i]).of_file_subsystem() by {
            if i > 0 {
                assert(actions(whole, events)[i] == actions(later, events.drop_first())[i - 1]);
            }
        }
    }
}

/// Remote shell: a connection test, whatever it is answered, asks for
/// nothing that needs the file-transfer sub-channel, and leaves every
/// directory and file as it was.
pub proof fn lemma_shell_test_keeps_clear_of_files(
    job: ShellJobView,
    world: World,
    events: Seq<EventView>,
)
    requires
        job.task is Test,
    ensures
        forall|i: int|
            0 <= i < actions(shell_session(job), events).len() ==> !(#[trigger] actions(
                shell_session(job),
                events,
            )[i]).of_file_subsystem(),
        run(shell_session(job), world, events) matches Some((_, end)) ==> end.same_content(
            world,
        ),
{
    lemma_shell_test_from(ShellSessionView::initial(job), world, events);
}

/// Remote shell: credentials that are not accepted end a session in
/// failure, with the message of a failed authentication. Where the exchange
/// itself failed, the error's text follows the message; where the exchange
/// went through and the session is not authenticated, nothing does.
pub proof fn lemma_shell_rejects_wrong_password(session: ShellSessionView, detail: Seq<char>)
    requires
        session.on_course(),
    ensures
        session.stage is Authenticate ==> session.reply(EventView::Failed(detail))
            == StepView::Finish(Report::failed(SHELL_AUTH_ERROR@, detail)),
        session.stage is Confirm ==> session.reply(EventView::Answer(false)) == StepView::Finish(
            Report::refused(SHELL_AUTH_REJECTED@),
        ),
{
}

/// Remote shell: a connection test on a host that is reached and does not
/// accept the password ends in failure, with the message of a failed
/// authentication and without payload, and has changed nothing.
pub proof fn lemma_shell_test_with_wrong_password(
    job: ShellJobView,
    world: World,
    events: Seq<EventView>,
    report: Report,
    end: World,
)
    requires
        job.task is Test,
        yields(shell_session(job), world, events, report, end),
        events.len() >= 3,
        events[0] is Done,
        events[1] is Done,
        events[2] is Failed || (events.len() >= 4 && events[3] == EventView::Answer(false)),
    ensures
        !report.success,
        report.data is None,
        events[2] matches EventView::Failed(detail) ==> report.message == SHELL_AUTH_ERROR@
            + detail,
        events[2] is Done ==> report.message == SHELL_AUTH_REJECTED@,
        end.same_content(world),
{
    reveal_with_fuel(run, 5);
}

proof fn lemma_share_upload_from(
    session: ShareSessionView,
    world: World,
    events: Seq<EventView>,
    report: Report,
    end: World,
)
    requires
        session.on_course(),
        session.job.task is Upload,
        yields(SessionView::Share(session), world, events, report, end),
        report.success,
    ensures
        end.documents == world.documents.insert(
            (session.job.path, FILE_NAME@),
            session.job.task.payload(),
        ),
        session.stage is CreateDirectory ==> end.locations == world.with_location(
            session.job.path,
        ).locations,
        session.stage is Write ==> end.locations == world.locations,
        end.files == world.files,
        end.directories == world.directories,
        end.open == world.open,
        report == Report::succeeded(SHARE_SAVED@),
    decreases events.len(),
{
    let whole = SessionView::Share(session);
    let action = whole.pending()->0;
    if whole.reply(events[0]) is Perform {
        lemma_share_upload_from(
            session.after(events[0]),
            world.after(action, events[0]),
            events.drop_first(),
            report,
            end,
        );
    }
}

/// Filesystem backend: what a download fetches is what the upload before
/// it stored in the same location, character for character, as long as both
/// succeeded.
pub proof fn lemma_share_round_trip(
    path: Seq<char>,
    payload: Seq<char>,
    world: World,
    storing: Seq<EventView>,
    stored: Report,
    between: World,
    fetching: Seq<EventView>,
    fetched: Report,
    end: World,
)
    requires
        yields(
            share_session(ShareJobView { path, task: ShareTaskView::Upload { payload } }),
            world,
            storing,
            stored,
            between,
        ),
        stored.success,
        yields(
            share_session(ShareJobView { path, task: ShareTaskView::Download }),
            between,
            fetching,
            fetched,
            end,
        ),
        fetched.success,
    ensures
        fetched.data == Some(payload),
        end == between,
{
    let up = ShareJobView { path, task: ShareTaskView::Upload { payload } };
    lemma_share_upload_from(ShareSessionView::initial(up), world, storing, stored, between);
    reveal_with_fuel(run, 2);
}

/// Filesystem backend: an upload that follows an upload of the same payload
/// to the same location changes nothing.
pub proof fn lemma_share_upload_is_idempotent(
    path: Seq<char>,
    payload: Seq<char>,
    world: World,
    once: Seq<EventView>,
    stored: Report,
    between: World,
    again: Seq<EventView>,
    restored: Report,
    end: World,
)
    requires
        yields(
            share_session(ShareJobView { path, task: ShareTaskView::Upload { payload } }),
            world,
            once,
            stored,
            between,
        ),
        stored.success,
        yields(
            share_session(ShareJobView { path, task: ShareTaskView::Upload { payload } }),
            between,
            again,
            restored,
            end,
        ),
        restored.success,
    ensures
        end == between,
        restored == stored,
{
    let up = ShareJobView { path, task: ShareTaskView::Upload { payload } };
    lemma_share_upload_from(ShareSessionView::initial(up), world, once, stored, between);
    lemma_share_upload_from(ShareSessionView::initial(up), between, again, restored, end);
    assert(end.documents =~= between.documents);
    assert(end.locations =~= between.locations);
}

/// Filesystem backend: a connection test on a location that does not exist
/// asks for it to be created, and succeeds exactly if that is granted; the
/// location then exists, and nothing else has changed.
pub proof fn lemma_share_test_creates_what_is_missing(
    path: Seq<char>,
    world: World,
    events: Seq<EventView>,
    report: Report,
    end: World,
)
    requires
        world.locations.contains_key(path),
        !world.locations[path],
        yields(
            share_session(ShareJobView { path, task: ShareTaskView::Test }),
            world,
            events,
            report,
            end,
        ),
    ensures
        actions(share_session(ShareJobView { path, task: ShareTaskView::Test }), events) == seq![
            (ActionView::ProbePath { path }),
            (ActionView::CreateDirAll { path }),
        ],
        events.len() == 2,
        report.success <==> events[1] is Done,
        report.success ==> report == Report::succeeded(SHARE_CREATED@) && end
            == world.with_location(path),
        (events[1] matches EventView::Failed(detail) ==> report == Report::failed(
            SHARE_UNREACHABLE@,
            detail,
        ) && end == world),
{
    reveal_with_fuel(run, 3);
    reveal_with_fuel(actions, 3);
    let session = share_session(ShareJobView { path, task: ShareTaskView::Test });
    assert(actions(session, events) =~= seq![
        ActionView::ProbePath { path },
        ActionView::CreateDirAll { path },
    ]);
}

/// Filesystem backend: a connection test on a location that exists
/// succeeds on the one question it asks, and changes nothing.
pub proof fn lemma_share_test_finds_what_is_there(
    path: Seq<char>,
    world: World,
    events: Seq<EventView>,
    report: Report,
    end: World,
)
    requires
        world.locations.contains_key(path),
        world.locations[path],
        yields(
            share_session(ShareJobView { path, task: ShareTaskView::Test }),
            world,
            events,
            report,
            end,
        ),
    ensures
        actions(share_session(ShareJobView { path, task: ShareTaskView::Test }), events) == seq![
            (ActionView::ProbePath { path }),
        ],
        report == Report::succeeded(SHARE_ACCESSIBLE@),
        end == world,
{
    reveal_with_fuel(run, 2);
    reveal_with_fuel(actions, 2);
    let session = share_session(ShareJobView { path, task: ShareTaskView::Test });
    assert(actions(session, events) =~= seq![ActionView::ProbePath { path }]);
}

/// Filesystem backend: after a connection test has created a location that
/// did not exist, a second test finds it, succeeds, and changes nothing.
pub proof fn lemma_share_test_twice(
    path: Seq<char>,
    world: World,
    first: Seq<EventView>,
    created: Report,
    between: World,
    second: Seq<EventView>,
    found: Report,
    end: World,
)
    requires
        world.locations.contains_key(path),
        !world.locations[path],
        yields(
            share_session(ShareJobView { path, task: ShareTaskView::Test }),
            world,
            first,
            created,
            between,
        ),
        created.success,
        yields(
            share_session(ShareJobView { path, task: ShareTaskView::Test }),
            between,
            second,
            found,
            end,
        ),
    ensures
        between.locations[path],
        found.success,
        end == between,
{
    lemma_share_test_creates_what_is_missing(path, world, first, created, between);
    lemma_share_test_finds_what_is_there(path, between, second, found, end);
}

/// Remote shell: where every step is answered well, a download ends in
/// success with the file's content as its payload, and changes nothing.
pub proof fn lemma_shell_download_fetches_the_file(job: ShellJobView, world: World)
    requires
        job.task is Download,
        world.files.contains_key(file_path_of(job.task.remote_dir())),
    ensures
        (run(
            shell_session(job),
            world,
            granted_download(world.files[file_path_of(job.task.remote_dir())]),
        ) matches Some((report, end)) && {
            &&& report == Report::delivered(
                SHELL_DOWNLOADED@,
                world.files[file_path_of(job.task.remote_dir())],
            )
            &&& end.same_content(world)
        }),
{
    reveal_with_fuel(run, 8);
}

/// Filesystem backend: where the directory and the write are granted, an
/// upload ends in success; and where the read is then answered, a download
/// ends in success with the payload.
pub proof fn lemma_share_transfers_can_succeed(path: Seq<char>, payload: Seq<char>, world: World)
    ensures
        ({
            let up = share_session(ShareJobView { path, task: ShareTaskView::Upload { payload } });
            let down = share_session(ShareJobView { path, task: ShareTaskView::Download });
            run(up, world, seq![EventView::Done, EventView::Done]) matches Some((stored, between))
                && stored.success && run(down, between, seq![EventView::Text(payload)])
                == Some((Report::delivered(SHARE_LOADED@, payload), between))
        }),
{
    reveal_with_fuel(run, 3);
}

/// A download, on either backend and whatever it is answered, leaves every
/// location, directory and file as it found it.
pub proof fn lemma_download_changes_nothing(
    session: SessionView,
    world: World,
    events: Seq<EventView>,
)
    requires
        session.on_course(),
        match session {
            SessionView::Share(s) => s.job.task is Download,
            SessionView::Shell(s) => s.job.task is Download,
        },
    ensures
        run(session, world, events) matches Some((_, end)) ==> end.same_content(world),
    decreases events.len(),
{
    if events.len() > 0 && session.pending() is Some {
        let action = session.pending()->0;
        if world.allows(action, events[0]) && session.reply(events[0]) is Perform {
            lemma_download_changes_nothing(
                session.after(events[0]),
                world.after(action, events[0]),
                events.drop_first(),
            );
        }
    }
}

proof fn lemma_shell_upload_touches_from(
    session: ShellSessionView,
    world: World,
    events: Seq<EventView>,
    other: Seq<char>,
)
    requires
        session.on_course(),
        session.job.task is Upload,
        other != file_path_of(session.job.task.remote_dir()),
        session.stage is Transfer ==> (world.open matches Some(handle) ==> handle
            == Handle::Writing(file_path_of(session.job.task.remote_dir()))),
    ensures
        run(SessionView::Shell(session), world, events) matches Some((_, end)) ==> {
            &&& end.files.contains_key(other) == world.files.contains_key(other)
            &&& end.files[other] == world.files[other]
            &&& end.locations == world.locations
            &&& end.documents == world.documents
        },
    decreases events.len(),
{
    let whole = SessionView::Shell(session);
    if events.len() > 0 && whole.pending() is Some {
        let action = whole.pending()->0;
        if world.allows(action, events[0]) && whole.reply(events[0]) is Perform {
            lemma_shell_upload_touches_from(
                session.after(events[0]),
                world.after(action, events[0]),
                events.drop_first(),
                other,
            );
        }
    }
}

/// Remote shell: an upload, whatever it is answered, touches no file but
/// the document in its own directory.
pub proof fn lemma_shell_upload_touches_its_document_only(
    job: ShellJobView,
    world: World,
    events: Seq<EventView>,
    other: Seq<char>,
)
    requires
        job.task is Upload,
        other != file_path_of(job.task.remote_dir()),
    ensures
        run(shell_session(job), world, events) matches Some((_, end)) ==> {
            &&& end.files.contains_key(other) == world.files.contains_key(other)
            &&& end.files[other] == world.files[other]
        },
{
    lemma_shell_upload_touches_from(ShellSessionView::initial(job), world, events, other);
}

/// Filesystem backend: an upload, whatever it is answered, touches no file
/// but the document in its own location.
pub proof fn lemma_share_upload_touches_its_document_only(
    path: Seq<char>,
    payload: Seq<char>,
    world: World,
    events: Seq<EventView>,
    other: (Seq<char>, Seq<char>),
)
    requires
        other != (path, FILE_NAME@),
    ensures
        run(
            share_session(ShareJobView { path, task: ShareTaskView::Upload { payload } }),
            world,
            events,
        ) matches Some((_, end)) ==> {
            &&& end.documents.contains_key(other) == world.documents.contains_key(other)
            &&& end.documents[other] == world.documents[other]
            &&& end.files == world.files
            &&& end.directories == world.directories
        },
{
    reveal_with_fuel(run, 3);
}

} // verus!
