use gitfox::runner::{RunnerMessage, ServerMessage, TimerAction};
use gitfox::runner_session::{session_step, RunnerSession, SessionAction, SessionEvent};

fn fresh() -> RunnerSession {
    RunnerSession { runner_id: None, last_heartbeat: 1000 }
}

#[test]
fn ping_is_answered_and_refreshes_heartbeat() {
    let (s, acts) = session_step(fresh(), SessionEvent::Ping(vec![1, 2]), 5000);
    assert_eq!(s.last_heartbeat, 5000);
    assert_eq!(acts.len(), 1);
    assert!(matches!(&acts[0], SessionAction::SendPong(d) if d == &vec![1u8, 2]));
}

#[test]
fn heartbeat_tick_pings_or_drops() {
    let (_, acts) = session_step(fresh(), SessionEvent::HeartbeatTick, 1000 + 90_000_000_000);
    assert!(matches!(acts.as_slice(), [SessionAction::SendPing]));
    let (_, acts) = session_step(fresh(), SessionEvent::HeartbeatTick, 1000 + 90_000_000_001);
    assert!(matches!(acts.as_slice(), [SessionAction::Stop]));
}

#[test]
fn close_and_errors_stop() {
    let (_, acts) = session_step(fresh(), SessionEvent::Close, 0);
    assert!(matches!(acts.as_slice(), [SessionAction::Stop]));
    let (_, acts) = session_step(fresh(), SessionEvent::ProtocolError, 0);
    assert!(matches!(acts.as_slice(), [SessionAction::Stop]));
    let (_, acts) = session_step(fresh(), SessionEvent::Text(None), 0);
    assert!(acts.is_empty());
    let (_, acts) = session_step(fresh(), SessionEvent::Binary, 0);
    assert!(acts.is_empty());
}

#[test]
fn unregistered_runner_gets_no_work() {
    let (s, acts) = session_step(fresh(), SessionEvent::Text(Some(RunnerMessage::RequestJob)), 2000);
    assert!(acts.is_empty());
    assert_eq!(s.runner_id, None);
    let (s, acts) = session_step(fresh(), SessionEvent::Text(Some(RunnerMessage::Heartbeat)), 2000);
    assert!(acts.is_empty());
    assert_eq!(s.last_heartbeat, 2000);
}

#[test]
fn registration_then_work_then_stop() {
    let msg = RunnerMessage::Register {
        token: "tok".to_string(),
        name: "r1".to_string(),
        tags: vec![],
        executor: "shell".to_string(),
    };
    let (s, acts) = session_step(fresh(), SessionEvent::Text(Some(msg)), 0);
    assert!(matches!(&acts[0], SessionAction::Register { token, name, .. } if token == "tok" && name == "r1"));
    let (s, acts) = session_step(s, SessionEvent::Registration(Ok(9)), 0);
    assert_eq!(s.runner_id, Some(9));
    assert!(matches!(acts[0], SessionAction::Track { runner_id: 9 }));
    assert!(matches!(acts[1], SessionAction::Send(ServerMessage::Registered { runner_id: 9 })));
    let (s, acts) = session_step(s, SessionEvent::Text(Some(RunnerMessage::RequestJob)), 0);
    assert!(matches!(acts.as_slice(), [SessionAction::FetchJob { runner_id: 9 }]));
    let (s, acts) = session_step(s, SessionEvent::JobLookup(Ok(None)), 0);
    assert!(matches!(acts.as_slice(), [SessionAction::Send(ServerMessage::NoJobs)]));
    let (s, acts) = session_step(s, SessionEvent::Text(Some(RunnerMessage::Heartbeat)), 777);
    assert!(matches!(acts.as_slice(), [SessionAction::TouchRunner { runner_id: 9 }]));
    assert_eq!(s.last_heartbeat, 777);
    let (_, acts) = session_step(s, SessionEvent::Stopped, 0);
    assert!(matches!(acts.as_slice(), [SessionAction::MarkOffline { runner_id: 9 }, SessionAction::Untrack { runner_id: 9 }]));
}

#[test]
fn failed_registration_is_reported() {
    let (s, acts) = session_step(fresh(), SessionEvent::Registration(Err("Invalid authentication token".to_string())), 0);
    assert_eq!(s.runner_id, None);
    match &acts[0] {
        SessionAction::Send(ServerMessage::Error { message }) => {
            assert_eq!(message, "Registration failed: Invalid authentication token")
        }
        _ => panic!(),
    }
}

#[test]
fn job_update_starts_or_stops_timer() {
    let msg = RunnerMessage::JobUpdate {
        job_id: 5,
        status: "running".to_string(),
        exit_code: None,
        error_message: None,
    };
    let (_, acts) = session_step(fresh(), SessionEvent::Text(Some(msg)), 0);
    assert!(matches!(&acts[0], SessionAction::UpdateJob { job_id: 5, watch: true, timer: TimerAction::Start, .. }));
    let msg = RunnerMessage::JobUpdate {
        job_id: 5,
        status: "failed".to_string(),
        exit_code: Some(1),
        error_message: Some("boom".to_string()),
    };
    let (_, acts) = session_step(fresh(), SessionEvent::Text(Some(msg)), 0);
    assert!(matches!(&acts[0], SessionAction::UpdateJob { watch: false, timer: TimerAction::Stop, exit_code: Some(1), .. }));
    let (_, acts) = session_step(fresh(), SessionEvent::JobUpdateStored, 0);
    assert!(matches!(acts.as_slice(), [SessionAction::Send(ServerMessage::Ack)]));
}

#[test]
fn job_log_is_appended() {
    let msg = RunnerMessage::JobLog { job_id: 4, output: "hello\n".to_string() };
    let (_, acts) = session_step(fresh(), SessionEvent::Text(Some(msg)), 0);
    assert!(matches!(&acts[0], SessionAction::AppendLog { job_id: 4, output } if output == "hello\n"));
}
