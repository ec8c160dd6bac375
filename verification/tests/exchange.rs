use todo_sync::exchange::{Action, Event};

fn all_actions() -> Vec<Action> {
    vec![
        Action::ProbePath { path: "p".to_string() },
        Action::ProbeFile { dir: "d".to_string(), name: "n".to_string() },
        Action::CreateDirAll { path: "p".to_string() },
        Action::WriteFile { dir: "d".to_string(), name: "n".to_string(), content: "c".to_string() },
        Action::ReadFile { dir: "d".to_string(), name: "n".to_string() },
        Action::Connect { address: "a".to_string() },
        Action::Handshake,
        Action::SubmitPassword { username: "u".to_string(), password: "p".to_string() },
        Action::QueryAuthenticated,
        Action::OpenFileSubsystem,
        Action::MakeDirectory { path: "p".to_string(), mode: 0o755 },
        Action::CreateFile { path: "p".to_string() },
        Action::WriteAll { content: "c".to_string() },
        Action::OpenFile { path: "p".to_string() },
        Action::ReadAll,
    ]
}

#[test]
fn a_question_is_answered_by_yes_or_no_only() {
    let questions = [
        Action::ProbePath { path: "p".to_string() },
        Action::ProbeFile { dir: "d".to_string(), name: "n".to_string() },
        Action::QueryAuthenticated,
    ];
    for action in questions {
        assert!(action.accepts(&Event::Answer(true)));
        assert!(action.accepts(&Event::Answer(false)));
        assert!(!action.accepts(&Event::Done));
        assert!(!action.accepts(&Event::Text("t".to_string())));
        assert!(!action.accepts(&Event::Failed("f".to_string())));
    }
}

#[test]
fn a_read_is_answered_by_text_or_a_failure() {
    for action in [Action::ReadFile { dir: "d".to_string(), name: "n".to_string() }, Action::ReadAll] {
        assert!(action.accepts(&Event::Text(String::new())));
        assert!(action.accepts(&Event::Failed("f".to_string())));
        assert!(!action.accepts(&Event::Done));
        assert!(!action.accepts(&Event::Answer(true)));
    }
}

#[test]
fn every_other_action_is_answered_by_completion_or_a_failure() {
    let mut counted = 0;
    for action in all_actions() {
        let question = matches!(
            action,
            Action::ProbePath { .. } | Action::ProbeFile { .. } | Action::QueryAuthenticated
        );
        let read = matches!(action, Action::ReadFile { .. } | Action::ReadAll);
        if question || read {
            continue;
        }
        counted += 1;
        assert!(action.accepts(&Event::Done));
        assert!(action.accepts(&Event::Failed("f".to_string())));
        assert!(!action.accepts(&Event::Answer(true)));
        assert!(!action.accepts(&Event::Text("t".to_string())));
    }
    assert_eq!(counted, 10);
}
