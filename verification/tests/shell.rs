use std::collections::{HashMap, HashSet};
use todo_sync::exchange::{Action, Event, Rejected, Step, DIRECTORY_MODE};
use todo_sync::facade::{ssh_download, ssh_test_connection, ssh_upload, Session};
use todo_sync::outcome::SyncResult;
use todo_sync::shell::{ShellJob, ShellSession, ShellStage, ShellTask};

/// A host in memory. It knows one account, keeps directories and files by
/// path, and can be told to fail at one kind of action.
struct Host {
    address: String,
    user: String,
    password: String,
    quiet_rejection: bool,
    fails_at: Option<&'static str>,
    dirs: HashSet<String>,
    files: HashMap<String, String>,
    authenticated: bool,
    open: Option<String>,
    seen: Vec<&'static str>,
    modes: Vec<i32>,
}

impl Host {
    fn new() -> Host {
        Host {
            address: "nas.local:22".to_string(),
            user: "alice".to_string(),
            password: "secret".to_string(),
            quiet_rejection: false,
            fails_at: None,
            dirs: HashSet::new(),
            files: HashMap::new(),
            authenticated: false,
            open: None,
            seen: Vec::new(),
            modes: Vec::new(),
        }
    }

    fn broken(&self, what: &'static str) -> Option<Event> {
        if self.fails_at == Some(what) {
            Some(Event::Failed(format!("{} broke", what)))
        } else {
            None
        }
    }

    fn answer(&mut self, action: Action) -> Event {
        match action {
            Action::Connect { address } => {
                self.seen.push("connect");
                self.authenticated = false;
                self.open = None;
                if address != self.address {
                    return Event::Failed("connection refused".to_string());
                }
                self.broken("connect").unwrap_or(Event::Done)
            }
            Action::Handshake => {
                self.seen.push("handshake");
                self.broken("handshake").unwrap_or(Event::Done)
            }
            Action::SubmitPassword { username, password } => {
                self.seen.push("password");
                if username == self.user && password == self.password {
                    self.authenticated = true;
                    Event::Done
                } else if self.quiet_rejection {
                    Event::Done
                } else {
                    Event::Failed("[Session(-18)] Authentication failed (username/password)".to_string())
                }
            }
            Action::QueryAuthenticated => {
                self.seen.push("authenticated");
                Event::Answer(self.authenticated)
            }
            Action::OpenFileSubsystem => {
                self.seen.push("sftp");
                self.broken("sftp").unwrap_or(Event::Done)
            }
            Action::MakeDirectory { path, mode } => {
                self.seen.push("mkdir");
                self.modes.push(mode);
                if self.dirs.contains(&path) {
                    Event::Failed("[SFTP(4)] already exists".to_string())
                } else {
                    self.dirs.insert(path);
                    Event::Done
                }
            }
            Action::CreateFile { path } => {
                self.seen.push("create");
                if let Some(event) = self.broken("create") {
                    return event;
                }
                self.files.insert(path.clone(), String::new());
                self.open = Some(path);
                Event::Done
            }
            Action::WriteAll { content } => {
                self.seen.push("write");
                if let Some(event) = self.broken("write") {
                    return event;
                }
                let path = self.open.clone().unwrap();
                self.files.get_mut(&path).unwrap().push_str(&content);
                Event::Done
            }
            Action::OpenFile { path } => {
                self.seen.push("open");
                if self.files.contains_key(&path) {
                    self.open = Some(path);
                    Event::Done
                } else {
                    Event::Failed("[SFTP(2)] no such file".to_string())
                }
            }
            Action::ReadAll => {
                self.seen.push("read");
                if let Some(event) = self.broken("read") {
                    return event;
                }
                let path = self.open.clone().unwrap();
                Event::Text(self.files.get(&path).unwrap().clone())
            }
            _ => panic!("the remote shell asked for work on the local filesystem"),
        }
    }

    fn carry_out(&mut self, start: (Session, Action)) -> SyncResult {
        let (mut session, mut action) = start;
        loop {
            let event = self.answer(action);
            match session.advance(event) {
                Ok(Step::Perform(next)) => action = next,
                Ok(Step::Finish(result)) => {
                    assert!(session.is_finished());
                    return result;
                }
                Err(_) => panic!("the session refused the answer to its own action"),
            }
        }
    }

    fn test(&mut self, password: &str) -> SyncResult {
        self.carry_out(ssh_test_connection("nas.local".to_string(), 22, "alice".to_string(), password.to_string()))
    }

    fn upload(&mut self, dir: &str, payload: &str) -> SyncResult {
        self.carry_out(ssh_upload(
            "nas.local".to_string(),
            22,
            "alice".to_string(),
            "secret".to_string(),
            dir.to_string(),
            payload.to_string(),
        ))
    }

    fn download(&mut self, dir: &str) -> SyncResult {
        self.carry_out(ssh_download(
            "nas.local".to_string(),
            22,
            "alice".to_string(),
            "secret".to_string(),
            dir.to_string(),
        ))
    }
}

fn failure(message: &str) -> SyncResult {
    SyncResult::Failure { message: message.to_string() }
}

#[test]
fn shell_test_connection_succeeds_once_authenticated() {
    let mut host = Host::new();
    let r = host.test("secret");
    assert_eq!(r, SyncResult::succeeded("SSH 连接成功"));
    assert_eq!(host.seen, vec!["connect", "handshake", "password", "authenticated"]);
}

#[test]
fn shell_test_connection_with_a_wrong_password_fails_and_stays_out_of_files() {
    let mut host = Host::new();
    let r = host.test("guess");
    assert_eq!(r, failure("认证失败: [Session(-18)] Authentication failed (username/password)"));
    assert!(r.data().is_none());
    assert_eq!(host.seen, vec!["connect", "handshake", "password"]);
    assert!(host.dirs.is_empty());
    assert!(host.files.is_empty());
}

#[test]
fn shell_test_connection_with_a_quietly_rejected_password_gives_no_detail() {
    let mut host = Host::new();
    host.quiet_rejection = true;
    let r = host.test("guess");
    assert_eq!(r, failure("认证失败"));
    assert_eq!(host.seen, vec!["connect", "handshake", "password", "authenticated"]);
    assert!(host.dirs.is_empty());
    assert!(host.files.is_empty());
}

#[test]
fn shell_a_transfer_with_a_quietly_rejected_password_stops_before_the_files() {
    let mut host = Host::new();
    host.quiet_rejection = true;
    let r = host.carry_out(ssh_upload(
        "nas.local".to_string(),
        22,
        "alice".to_string(),
        "guess".to_string(),
        "/srv".to_string(),
        "x".to_string(),
    ));
    assert_eq!(r, failure("认证失败"));
    assert_eq!(host.seen, vec!["connect", "handshake", "password", "authenticated"]);
    assert!(host.files.is_empty());
}

#[test]
fn shell_an_unreachable_host_is_named_differently_by_test_and_transfer() {
    let mut host = Host::new();
    host.fails_at = Some("connect");
    assert_eq!(host.test("secret"), failure("无法连接服务器: connect broke"));
    assert_eq!(host.upload("/srv", "x"), failure("连接失败: connect broke"));
    assert_eq!(host.download("/srv"), failure("连接失败: connect broke"));
    assert_eq!(host.seen, vec!["connect", "connect", "connect"]);
}

#[test]
fn shell_the_connection_goes_to_host_and_port() {
    let mut host = Host::new();
    host.address = "nas.local:2222".to_string();
    assert_eq!(host.test("secret"), failure("无法连接服务器: connection refused"));
    let r = host.carry_out(ssh_test_connection(
        "nas.local".to_string(),
        2222,
        "alice".to_string(),
        "secret".to_string(),
    ));
    assert!(r.success());
}

#[test]
fn shell_a_failed_handshake_ends_every_operation() {
    let mut host = Host::new();
    host.fails_at = Some("handshake");
    assert_eq!(host.test("secret"), failure("SSH 握手失败: handshake broke"));
    assert_eq!(host.upload("/srv", "x"), failure("SSH 握手失败: handshake broke"));
    assert_eq!(host.download("/srv"), failure("SSH 握手失败: handshake broke"));
    assert_eq!(host.seen, vec!["connect", "handshake", "connect", "handshake", "connect", "handshake"]);
}

#[test]
fn shell_a_failed_sub_channel_ends_a_transfer() {
    let mut host = Host::new();
    host.fails_at = Some("sftp");
    assert_eq!(host.upload("/srv", "x"), failure("SFTP 初始化失败: sftp broke"));
    assert_eq!(host.download("/srv"), failure("SFTP 初始化失败: sftp broke"));
    assert!(host.dirs.is_empty());
    assert!(host.test("secret").success());
}

#[test]
fn shell_upload_walks_through_every_stage_in_order() {
    let mut host = Host::new();
    let r = host.upload("/srv/todo", "[]");
    assert_eq!(r, SyncResult::succeeded("数据已上传"));
    assert!(r.data().is_none());
    assert_eq!(
        host.seen,
        vec!["connect", "handshake", "password", "authenticated", "sftp", "mkdir", "create", "write"]
    );
    assert_eq!(host.modes, vec![0o755]);
    assert_eq!(DIRECTORY_MODE, 0o755);
}

#[test]
fn shell_upload_to_a_missing_directory_creates_it_and_download_finds_the_content() {
    let mut host = Host::new();
    assert!(!host.dirs.contains("/srv/new"));
    let up = host.upload("/srv/new", "{\"v\":1}");
    assert!(up.success());
    assert!(host.dirs.contains("/srv/new"));
    let down = host.download("/srv/new");
    assert_eq!(down, SyncResult::delivered("数据已下载", "{\"v\":1}".to_string()));
}

#[test]
fn shell_upload_goes_on_when_the_directory_is_already_there() {
    let mut host = Host::new();
    host.dirs.insert("/srv/todo".to_string());
    let r = host.upload("/srv/todo", "x");
    assert_eq!(r, SyncResult::succeeded("数据已上传"));
    assert_eq!(host.files.get("/srv/todo/data.json"), Some(&"x".to_string()));
}

#[test]
fn shell_the_directory_is_asked_for_as_given_and_the_file_with_slashes_trimmed() {
    let (mut session, _) = ssh_upload(
        "h".to_string(),
        22,
        "u".to_string(),
        "p".to_string(),
        "/srv/todo//".to_string(),
        "x".to_string(),
    );
    for event in [Event::Done, Event::Done, Event::Done, Event::Answer(true)] {
        assert!(session.advance(event).is_ok());
    }
    let mkdir = session.advance(Event::Done);
    assert!(mkdir == Ok(Step::Perform(Action::MakeDirectory { path: "/srv/todo//".to_string(), mode: 0o755 })));
    let create = session.advance(Event::Failed("exists".to_string()));
    assert!(create == Ok(Step::Perform(Action::CreateFile { path: "/srv/todo/data.json".to_string() })));
    let write = session.advance(Event::Done);
    assert!(write == Ok(Step::Perform(Action::WriteAll { content: "x".to_string() })));
}

#[test]
fn shell_upload_reports_a_file_that_cannot_be_created() {
    let mut host = Host::new();
    host.fails_at = Some("create");
    assert_eq!(host.upload("/srv", "x"), failure("创建文件失败: create broke"));
    assert!(host.files.is_empty());
}

#[test]
fn shell_upload_reports_a_failed_write() {
    let mut host = Host::new();
    host.fails_at = Some("write");
    assert_eq!(host.upload("/srv", "x"), failure("写入失败: write broke"));
}

#[test]
fn shell_download_walks_through_every_stage_in_order() {
    let mut host = Host::new();
    host.files.insert("/srv/todo/data.json".to_string(), "content".to_string());
    let r = host.download("/srv/todo/");
    assert_eq!(r, SyncResult::delivered("数据已下载", "content".to_string()));
    assert_eq!(host.seen, vec!["connect", "handshake", "password", "authenticated", "sftp", "open", "read"]);
    assert!(host.dirs.is_empty());
}

#[test]
fn shell_download_of_a_missing_document_fails_without_data() {
    let mut host = Host::new();
    let r = host.download("/srv/none");
    assert_eq!(r, failure("文件不存在或无法读取: [SFTP(2)] no such file"));
    assert!(!r.success());
    assert!(r.data().is_none());
}

#[test]
fn shell_download_reports_a_failed_read() {
    let mut host = Host::new();
    host.files.insert("/srv/data.json".to_string(), "content".to_string());
    host.fails_at = Some("read");
    let r = host.download("/srv");
    assert_eq!(r, failure("读取失败: read broke"));
    assert!(r.data().is_none());
}

#[test]
fn shell_download_after_upload_returns_the_payload() {
    for payload in ["", "plain", "多字节 ✓ 字符 🙂", "line one\nline two\n", "{\"todos\":[]}"] {
        let mut host = Host::new();
        assert!(host.upload("/srv/todo", payload).success());
        let down = host.download("/srv/todo");
        assert!(down.success());
        assert_eq!(down.data().map(|s| s.as_str()), Some(payload));
    }
}

#[test]
fn shell_download_returns_the_most_recent_upload() {
    let mut host = Host::new();
    assert!(host.upload("/srv/todo", "a first and longer version").success());
    assert!(host.upload("/srv/todo/", "second").success());
    let down = host.download("/srv/todo");
    assert_eq!(down.data().map(|s| s.as_str()), Some("second"));
}

#[test]
fn shell_uploading_twice_is_uploading_once() {
    let mut once = Host::new();
    once.upload("/srv/todo", "same");
    let mut twice = Host::new();
    let a = twice.upload("/srv/todo", "same");
    let b = twice.upload("/srv/todo", "same");
    assert_eq!(a, b);
    assert_eq!(once.files, twice.files);
    assert_eq!(once.dirs, twice.dirs);
}

#[test]
fn shell_credentials_are_handed_out_as_given() {
    let (mut session, first) = ssh_test_connection("h".to_string(), 22, "乌鸦".to_string(), "p w".to_string());
    assert!(first == Action::Connect { address: "h:22".to_string() });
    assert!(session.advance(Event::Done) == Ok(Step::Perform(Action::Handshake)));
    let submit = session.advance(Event::Done);
    assert!(
        submit
            == Ok(Step::Perform(Action::SubmitPassword { username: "乌鸦".to_string(), password: "p w".to_string() }))
    );
    assert!(session.advance(Event::Done) == Ok(Step::Perform(Action::QueryAuthenticated)));
    assert!(session.advance(Event::Answer(true)) == Ok(Step::Finish(SyncResult::succeeded("SSH 连接成功"))));
}

#[test]
fn shell_an_answer_of_the_wrong_kind_is_refused_and_changes_nothing() {
    let (mut session, _) = ssh_download("h".to_string(), 22, "u".to_string(), "p".to_string(), "/d".to_string());
    assert_eq!(session.advance(Event::Answer(true)).err(), Some(Rejected::Unexpected));
    assert_eq!(session.advance(Event::Text("t".to_string())).err(), Some(Rejected::Unexpected));
    assert!(session.advance(Event::Done).is_ok());
    assert!(session.advance(Event::Done).is_ok());
    assert!(session.advance(Event::Done).is_ok());
    assert_eq!(session.advance(Event::Done).err(), Some(Rejected::Unexpected));
    assert_eq!(session.advance(Event::Failed("f".to_string())).err(), Some(Rejected::Unexpected));
    assert!(session.advance(Event::Answer(true)) == Ok(Step::Perform(Action::OpenFileSubsystem)));
    assert!(session.advance(Event::Done) == Ok(Step::Perform(Action::OpenFile { path: "/d/data.json".to_string() })));
    assert!(session.advance(Event::Done) == Ok(Step::Perform(Action::ReadAll)));
    assert_eq!(session.advance(Event::Done).err(), Some(Rejected::Unexpected));
    assert_eq!(session.advance(Event::Answer(true)).err(), Some(Rejected::Unexpected));
    assert!(!session.is_finished());
    let last = session.advance(Event::Text("body".to_string()));
    assert!(last == Ok(Step::Finish(SyncResult::delivered("数据已下载", "body".to_string()))));
}

#[test]
fn shell_a_write_is_not_answered_by_text() {
    let (mut session, _) =
        ssh_upload("h".to_string(), 22, "u".to_string(), "p".to_string(), "/d".to_string(), "x".to_string());
    for event in [Event::Done, Event::Done, Event::Done, Event::Answer(true), Event::Done, Event::Done, Event::Done] {
        assert!(session.advance(event).is_ok());
    }
    assert_eq!(session.advance(Event::Text("t".to_string())).err(), Some(Rejected::Unexpected));
    assert!(session.advance(Event::Done) == Ok(Step::Finish(SyncResult::succeeded("数据已上传"))));
}

#[test]
fn shell_a_finished_session_refuses_every_event() {
    let (mut session, _) = ssh_test_connection("h".to_string(), 22, "u".to_string(), "p".to_string());
    assert!(session.advance(Event::Failed("down".to_string())).is_ok());
    assert!(session.is_finished());
    for event in [Event::Done, Event::Answer(true), Event::Text("t".to_string()), Event::Failed("f".to_string())] {
        assert_eq!(session.advance(event).err(), Some(Rejected::Finished));
    }
}

#[test]
fn shell_a_backend_session_walks_its_stages() {
    let job = ShellJob {
        host: "h".to_string(),
        port: 22,
        username: "u".to_string(),
        password: "p".to_string(),
        task: ShellTask::Upload { remote_dir: "/d".to_string(), payload: "x".to_string() },
    };
    let (mut session, _) = ShellSession::start(job);
    let expected = [
        (Event::Done, ShellStage::Handshake),
        (Event::Done, ShellStage::Authenticate),
        (Event::Done, ShellStage::Confirm),
        (Event::Answer(true), ShellStage::FileSubsystem),
        (Event::Done, ShellStage::EnsureDirectory),
        (Event::Done, ShellStage::OpenFile),
        (Event::Done, ShellStage::Transfer),
        (Event::Done, ShellStage::Done),
    ];
    assert_eq!(session.stage(), ShellStage::TcpConnect);
    for (event, stage) in expected {
        assert!(session.advance(event).is_ok());
        assert_eq!(session.stage(), stage);
    }
    assert!(session.is_finished());
}

#[test]
fn shell_a_download_skips_the_directory() {
    let job = ShellJob {
        host: "h".to_string(),
        port: 22,
        username: "u".to_string(),
        password: "p".to_string(),
        task: ShellTask::Download { remote_dir: "/d".to_string() },
    };
    let (mut session, _) = ShellSession::start(job);
    for event in [Event::Done, Event::Done, Event::Done, Event::Answer(true), Event::Done] {
        assert!(session.advance(event).is_ok());
    }
    assert_eq!(session.stage(), ShellStage::OpenFile);
}
