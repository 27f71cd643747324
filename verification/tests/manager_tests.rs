use agent_sessions::events::Event;
use agent_sessions::manager::{ProcessManager, SendPlan, SpawnOptions, spawn_args, suppressed_env_vars};
use agent_sessions::status::ProcessStatus;

fn opts(session_id: &str, path: &str) -> SpawnOptions {
    SpawnOptions {
        session_id: session_id.to_string(),
        project_path: path.to_string(),
        claude_cli_path: None,
        resume_session_id: None,
        model: None,
    }
}

#[test]
fn fresh_session_runs_after_promote() {
    let mut m = ProcessManager::new();
    let _inst = m.register_process(&opts("s1", "/proj"));
    assert_eq!(m.get_status("s1"), Some(ProcessStatus::Starting));
    let ev = m.promote_to_running("s1");
    assert_eq!(
        ev,
        vec![Event::SessionStatus { session_id: "s1".to_string(), status: ProcessStatus::Running }]
    );
    assert_eq!(m.get_status("s1"), Some(ProcessStatus::Running));
    assert!(m.is_active("s1"));
}

#[test]
fn first_message_writes_to_original_pipe() {
    let mut m = ProcessManager::new();
    let inst = m.register_process(&opts("s1", "/proj"));
    m.promote_to_running("s1");
    // no respawn: the plan names the originally spawned instance
    assert_eq!(m.plan_send("s1", "/fallback"), SendPlan::WriteExisting { instance: inst });
}

#[test]
fn second_message_respawns_with_recorded_id() {
    let mut m = ProcessManager::new();
    let inst = m.register_process(&opts("s1", "/proj"));
    m.promote_to_running("s1");
    m.register_claude_session_id("s1", "ext-9".to_string());
    m.note_message_written("s1");
    // the pipe is gone: exactly one kill-then-respawn cycle
    let plan = m.plan_send("s1", "/fallback");
    assert_eq!(
        plan,
        SendPlan::Respawn { project_path: "/proj".to_string(), resume_id: "ext-9".to_string() }
    );
    assert_eq!(m.kill("s1"), Some(inst));
    let inst2 = m.register_process(&SpawnOptions {
        resume_session_id: Some("ext-9".to_string()),
        ..opts("s1", "/proj")
    });
    m.promote_to_running("s1");
    assert_ne!(inst, inst2);
    // the respawned session needs no further respawn
    assert_eq!(m.plan_send("s1", "/fallback"), SendPlan::WriteExisting { instance: inst2 });
    // and exactly one record exists for the handle
    assert_eq!(m.active_sessions(), vec!["s1".to_string()]);
}

#[test]
fn respawn_without_recorded_id_resumes_under_the_handle() {
    let mut m = ProcessManager::new();
    m.register_process(&opts("disc-42", "/proj"));
    m.note_message_written("disc-42");
    // a session discovered from logs was seeded with its handle equal to
    // the external conversation id
    assert_eq!(
        m.plan_send("disc-42", "/fallback"),
        SendPlan::Respawn { project_path: "/proj".to_string(), resume_id: "disc-42".to_string() }
    );
}

#[test]
fn unknown_session_respawns_with_fallback_path() {
    let m = ProcessManager::new();
    assert_eq!(
        m.plan_send("s1", "/fallback"),
        SendPlan::Respawn { project_path: "/fallback".to_string(), resume_id: "s1".to_string() }
    );
}

#[test]
fn completed_session_respawns_with_recorded_id() {
    let mut m = ProcessManager::new();
    m.register_process(&opts("s1", "/proj"));
    m.promote_to_running("s1");
    let init = "{\"type\":\"system\",\"subtype\":\"init\",\"session_id\":\"ext-1\"}";
    m.handle_stdout_line("s1", init);
    let ev = m.mark_completed("s1");
    assert_eq!(
        ev,
        vec![Event::SessionStatus {
            session_id: "s1".to_string(),
            status: ProcessStatus::Completed,
        }]
    );
    assert_eq!(m.get_status("s1"), Some(ProcessStatus::Completed));
    assert!(!m.is_active("s1"));
    // exactly one respawn, resuming the previously recorded external id
    assert_eq!(
        m.plan_send("s1", "/fallback"),
        SendPlan::Respawn { project_path: "/proj".to_string(), resume_id: "ext-1".to_string() }
    );
}

#[test]
fn kill_without_record_is_a_successful_noop() {
    let mut m = ProcessManager::new();
    assert_eq!(m.kill("never-spawned"), None);
    assert_eq!(m.get_status("never-spawned"), None);
    assert_eq!(m.active_sessions(), Vec::<String>::new());
}

#[test]
fn kill_removes_the_record() {
    let mut m = ProcessManager::new();
    let inst = m.register_process(&opts("s1", "/proj"));
    assert_eq!(m.kill("s1"), Some(inst));
    assert_eq!(m.get_status("s1"), None);
    assert_eq!(m.kill("s1"), None);
}

#[test]
fn conversation_id_resolves_at_most_once() {
    let mut m = ProcessManager::new();
    m.register_process(&opts("s1", "/proj"));
    let line1 = "{\"type\":\"system\",\"subtype\":\"init\",\"session_id\":\"ext-1\"}";
    let line2 = "{\"type\":\"assistant\",\"session_id\":\"ext-1\"}";
    let ev1 = m.handle_stdout_line("s1", line1);
    assert_eq!(
        ev1[0],
        Event::ConversationIdResolved {
            session_id: "s1".to_string(),
            external_id: "ext-1".to_string(),
        }
    );
    // a later line carrying the id resolves nothing further
    let ev2 = m.handle_stdout_line("s1", line2);
    assert!(ev2
        .iter()
        .all(|e| !matches!(e, Event::ConversationIdResolved { .. })));
    assert_eq!(m.get_claude_session_id("s1"), Some("ext-1".to_string()));
}

#[test]
fn seeded_resume_id_is_not_overwritten_by_the_stream() {
    let mut m = ProcessManager::new();
    m.register_process(&SpawnOptions {
        resume_session_id: Some("ext-old".to_string()),
        ..opts("s1", "/proj")
    });
    let line = "{\"type\":\"system\",\"subtype\":\"init\",\"session_id\":\"ext-new\"}";
    let ev = m.handle_stdout_line("s1", line);
    assert!(ev
        .iter()
        .all(|e| !matches!(e, Event::ConversationIdResolved { .. })));
    assert_eq!(m.get_claude_session_id("s1"), Some("ext-old".to_string()));
}

#[test]
fn init_then_result_scenario() {
    let mut m = ProcessManager::new();
    m.register_process(&opts("s1", "/dir"));
    m.promote_to_running("s1");
    let line1 = "{\"type\":\"system\",\"subtype\":\"init\",\"session_id\":\"ext-1\"}";
    let line2 = "{\"type\":\"result\",\"usage\":{\"input_tokens\":10,\"output_tokens\":5}}";
    let ev1 = m.handle_stdout_line("s1", line1);
    assert_eq!(
        ev1,
        vec![
            Event::ConversationIdResolved {
                session_id: "s1".to_string(),
                external_id: "ext-1".to_string(),
            },
            Event::StreamEvent { session_id: "s1".to_string(), payload: line1.to_string() },
        ]
    );
    let ev2 = m.handle_stdout_line("s1", line2);
    assert_eq!(
        ev2,
        vec![
            Event::StreamEvent { session_id: "s1".to_string(), payload: line2.to_string() },
            Event::UsageUpdate {
                session_id: "s1".to_string(),
                input_tokens: 10,
                output_tokens: 5,
                cache_creation_input_tokens: 0,
                cache_read_input_tokens: 0,
            },
            Event::MessageComplete { session_id: "s1".to_string() },
        ]
    );
}

#[test]
fn stderr_while_running_errors_exactly_once() {
    let mut m = ProcessManager::new();
    m.register_process(&opts("s1", "/proj"));
    m.promote_to_running("s1");
    let ev1 = m.on_stderr_line("s1", "boom");
    assert_eq!(
        ev1,
        vec![
            Event::StderrLine { session_id: "s1".to_string(), text: "boom".to_string() },
            Event::SessionStatus {
                session_id: "s1".to_string(),
                status: ProcessStatus::Error,
            },
        ]
    );
    assert_eq!(m.get_status("s1"), Some(ProcessStatus::Error));
    // more stderr republishes the text but never a second error status
    let ev2 = m.on_stderr_line("s1", "more");
    assert_eq!(
        ev2,
        vec![Event::StderrLine { session_id: "s1".to_string(), text: "more".to_string() }]
    );
    assert_eq!(m.get_status("s1"), Some(ProcessStatus::Error));
}

#[test]
fn stderr_after_completion_only_republishes() {
    let mut m = ProcessManager::new();
    m.register_process(&opts("s1", "/proj"));
    m.mark_completed("s1");
    let ev = m.on_stderr_line("s1", "late words");
    assert_eq!(
        ev,
        vec![Event::StderrLine { session_id: "s1".to_string(), text: "late words".to_string() }]
    );
    assert_eq!(m.get_status("s1"), Some(ProcessStatus::Completed));
}

#[test]
fn malformed_stdout_line_changes_nothing() {
    let mut m = ProcessManager::new();
    m.register_process(&opts("s1", "/proj"));
    let ev = m.handle_stdout_line("s1", "{{{ nope");
    assert_eq!(ev, vec![]);
    assert_eq!(m.get_claude_session_id("s1"), None);
}

#[test]
fn spawn_args_basic() {
    let args = spawn_args(&opts("s1", "/proj"));
    assert_eq!(
        args,
        vec![
            "-p".to_string(),
            "--output-format".to_string(),
            "stream-json".to_string(),
            "--verbose".to_string(),
            "--include-partial-messages".to_string(),
        ]
    );
}

#[test]
fn spawn_args_with_resume_and_model() {
    let args = spawn_args(&SpawnOptions {
        resume_session_id: Some("ext-1".to_string()),
        model: Some("fast".to_string()),
        ..opts("s1", "/proj")
    });
    assert_eq!(
        args,
        vec![
            "-p".to_string(),
            "--output-format".to_string(),
            "stream-json".to_string(),
            "--verbose".to_string(),
            "--include-partial-messages".to_string(),
            "--resume".to_string(),
            "ext-1".to_string(),
            "--model".to_string(),
            "fast".to_string(),
        ]
    );
}

#[test]
fn suppressed_env_vars_names() {
    assert_eq!(
        suppressed_env_vars(),
        vec!["CLAUDECODE".to_string(), "CLAUDE_CODE_ENTRY_POINT".to_string()]
    );
}

#[test]
fn status_labels() {
    assert_eq!(ProcessStatus::Starting.label(), "starting".to_string());
    assert_eq!(ProcessStatus::Running.label(), "active".to_string());
    assert_eq!(ProcessStatus::WaitingInput.label(), "waiting_input".to_string());
    assert_eq!(ProcessStatus::Paused.label(), "paused".to_string());
    assert_eq!(ProcessStatus::Completed.label(), "completed".to_string());
    assert_eq!(ProcessStatus::Error.label(), "error".to_string());
}
