use todo_sync::exchange::{Action, Event, Step};
use todo_sync::facade::{
    smb_download, smb_test_connection, smb_upload, ssh_download, ssh_test_connection, ssh_upload,
    Session,
};
use todo_sync::outcome::SyncResult;

#[derive(Clone, Copy, PartialEq, Debug)]
enum Operation {
    ShareTest,
    ShareUpload,
    ShareDownload,
    ShellTest,
    ShellUpload,
    ShellDownload,
}

fn start(operation: Operation) -> (Session, Action) {
    let s = |t: &str| t.to_string();
    match operation {
        Operation::ShareTest => smb_test_connection(s("/p"), s("u"), s("pw")),
        Operation::ShareUpload => smb_upload(s("/p"), s("u"), s("pw"), s("payload")),
        Operation::ShareDownload => smb_download(s("/p"), s("u"), s("pw")),
        Operation::ShellTest => ssh_test_connection(s("h"), 22, s("u"), s("pw")),
        Operation::ShellUpload => ssh_upload(s("h"), 22, s("u"), s("pw"), s("/d"), s("payload")),
        Operation::ShellDownload => ssh_download(s("h"), 22, s("u"), s("pw"), s("/d")),
    }
}

fn every_event() -> Vec<Event> {
    vec![
        Event::Done,
        Event::Answer(true),
        Event::Answer(false),
        Event::Text("text".to_string()),
        Event::Failed("detail".to_string()),
    ]
}

fn copy(event: &Event) -> Event {
    match event {
        Event::Done => Event::Done,
        Event::Answer(yes) => Event::Answer(*yes),
        Event::Text(text) => Event::Text(text.clone()),
        Event::Failed(detail) => Event::Failed(detail.clone()),
    }
}

fn on_filesystem(action: &Action) -> bool {
    matches!(
        action,
        Action::ProbePath { .. }
            | Action::ProbeFile { .. }
            | Action::CreateDirAll { .. }
            | Action::WriteFile { .. }
            | Action::ReadFile { .. }
    )
}

fn of_file_subsystem(action: &Action) -> bool {
    matches!(
        action,
        Action::OpenFileSubsystem
            | Action::MakeDirectory { .. }
            | Action::CreateFile { .. }
            | Action::WriteAll { .. }
            | Action::OpenFile { .. }
            | Action::ReadAll
    )
}

/// One complete way through an operation: the actions it asked for and the
/// result it ended with.
struct Walk {
    actions: Vec<Action>,
    result: SyncResult,
}

/// Every way through `operation`, over every event that the session takes
/// at each step.
fn every_walk(operation: Operation) -> Vec<Walk> {
    let mut found = Vec::new();
    let mut prefixes: Vec<Vec<Event>> = vec![Vec::new()];
    while let Some(prefix) = prefixes.pop() {
        for event in every_event() {
            let (mut session, first) = start(operation);
            let mut actions = vec![first];
            for earlier in prefix.iter() {
                match session.advance(copy(earlier)) {
                    Ok(Step::Perform(action)) => actions.push(action),
                    _ => panic!("a prefix that was taken once is taken again"),
                }
            }
            match session.advance(copy(&event)) {
                Err(_) => {}
                Ok(Step::Finish(result)) => found.push(Walk { actions, result }),
                Ok(Step::Perform(action)) => {
                    actions.push(action);
                    let mut longer: Vec<Event> = prefix.iter().map(copy).collect();
                    longer.push(event);
                    assert!(longer.len() < 8, "no operation takes more than eight answers");
                    prefixes.push(longer);
                }
            }
        }
    }
    found
}

const OPERATIONS: [Operation; 6] = [
    Operation::ShareTest,
    Operation::ShareUpload,
    Operation::ShareDownload,
    Operation::ShellTest,
    Operation::ShellUpload,
    Operation::ShellDownload,
];

#[test]
fn every_operation_has_its_number_of_ways_through() {
    let counts: Vec<usize> = OPERATIONS.iter().map(|op| every_walk(*op).len()).collect();
    // filesystem: a test ends in three ways (there; created; not created),
    // an upload in three, a download in two; remote shell: a test ends in
    // five ways, a download in eight, and an upload in five before the
    // directory and in three after each of the two answers about it
    assert_eq!(counts, vec![3, 3, 2, 5, 11, 8]);
}

#[test]
fn no_failure_carries_data_on_any_way_through() {
    for operation in OPERATIONS {
        for walk in every_walk(operation) {
            if !walk.result.success() {
                assert!(walk.result.data().is_none());
            }
            if walk.result.data().is_some() {
                assert!(walk.result.success());
                assert!(matches!(operation, Operation::ShareDownload | Operation::ShellDownload));
                assert_eq!(walk.result.data().map(|s| s.as_str()), Some("text"));
            }
        }
    }
}

#[test]
fn a_successful_download_always_carries_data() {
    for operation in [Operation::ShareDownload, Operation::ShellDownload] {
        for walk in every_walk(operation) {
            assert_eq!(walk.result.success(), walk.result.data().is_some());
        }
    }
}

#[test]
fn every_operation_is_short() {
    for operation in OPERATIONS {
        let share = matches!(operation, Operation::ShareTest | Operation::ShareUpload | Operation::ShareDownload);
        for walk in every_walk(operation) {
            assert!(walk.actions.len() <= if share { 2 } else { 8 });
        }
    }
}

#[test]
fn each_backend_keeps_to_its_own_work_and_words() {
    let share_words = ["SMB 路径可访问", "SMB 路径已创建", "数据已保存", "数据已读取"];
    let shell_words = ["SSH 连接成功", "数据已上传", "数据已下载"];
    for operation in OPERATIONS {
        let share = matches!(operation, Operation::ShareTest | Operation::ShareUpload | Operation::ShareDownload);
        for walk in every_walk(operation) {
            for action in walk.actions.iter() {
                assert_eq!(on_filesystem(action), share);
            }
            if walk.result.success() {
                let message = walk.result.message().as_str();
                assert_eq!(share_words.contains(&message), share);
                assert_eq!(shell_words.contains(&message), !share);
            }
        }
    }
}

#[test]
fn a_connection_test_never_asks_for_the_file_sub_channel() {
    let walks = every_walk(Operation::ShellTest);
    assert!(!walks.is_empty());
    for walk in walks {
        for action in walk.actions.iter() {
            assert!(!of_file_subsystem(action));
        }
    }
}

#[test]
fn a_transfer_asks_for_the_file_sub_channel_only_once_authenticated() {
    for operation in [Operation::ShellUpload, Operation::ShellDownload] {
        for walk in every_walk(operation) {
            for (at, action) in walk.actions.iter().enumerate() {
                if of_file_subsystem(action) {
                    assert!(at >= 4);
                    assert!(walk.actions[3] == Action::QueryAuthenticated);
                }
            }
        }
    }
}
