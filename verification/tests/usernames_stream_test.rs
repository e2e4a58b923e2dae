use gitfox::error::AppError;
use gitfox::log_stream::{log_step, new_log_stream, LogAction, LogEvent};
use gitfox::usernames::{next_username_step, username_base, username_candidate, UsernameStep};

#[test]
fn username_bases() {
    assert_eq!(username_base(Some("John.Doe"), "12345"), "johndoe");
    assert_eq!(username_base(Some("Jürgen_K"), "1"), "jürgen_k");
    assert_eq!(username_base(None, "123456789"), "user_12345678");
    assert_eq!(username_base(None, "42"), "user_42");
    assert_eq!(username_base(Some("!!!"), "abc"), "user_abc");
    let long = "a".repeat(40);
    assert_eq!(username_base(Some(&long), "1"), "a".repeat(30));
}

#[test]
fn username_candidates() {
    assert_eq!(username_candidate("bob", 0), "bob");
    assert_eq!(username_candidate("bob", 3), "bob_3");
    assert!(matches!(next_username_step("bob", 0, false), Ok(UsernameStep::Take(n)) if n == "bob"));
    assert!(matches!(next_username_step("bob", 0, true), Ok(UsernameStep::Try { name, suffix: 1 }) if name == "bob_1"));
    assert!(matches!(next_username_step("bob", 998, true), Ok(UsernameStep::Try { name, suffix: 999 }) if name == "bob_999"));
    match next_username_step("bob", 999, true) {
        Err(AppError::InternalError(m)) => assert_eq!(m, "Failed to generate unique username"),
        _ => panic!(),
    }
    assert!(matches!(next_username_step("bob", 999, false), Ok(UsernameStep::Take(n)) if n == "bob_999"));
}

#[test]
fn log_stream_sends_new_lines_once() {
    let s = new_log_stream(7, 0);
    let (s, acts) = log_step(s, LogEvent::Started, 0);
    assert!(matches!(acts.as_slice(), [LogAction::FetchLogs { job_id: 7, since: 0 }]));
    let lines = vec![(3, "a\n".to_string()), (5, "b\n".to_string())];
    let (s, acts) = log_step(s, LogEvent::LogsFetched(lines), 0);
    assert!(matches!(acts.as_slice(), [LogAction::SendText(t)] if t == "a\nb\n"));
    assert_eq!(s.last_log_id, 5);
    let (s, acts) = log_step(s, LogEvent::Text, 0);
    assert!(matches!(acts.as_slice(), [LogAction::FetchLogs { job_id: 7, since: 5 }]));
    let (s, acts) = log_step(s, LogEvent::LogsFetched(vec![]), 0);
    assert!(acts.is_empty());
    assert_eq!(s.last_log_id, 5);
}

#[test]
fn log_stream_heartbeat() {
    let s = new_log_stream(1, 1000);
    let (s, acts) = log_step(s, LogEvent::HeartbeatTick, 30_000_001_000);
    assert!(matches!(acts.as_slice(), [LogAction::SendPing]));
    let (s, acts) = log_step(s, LogEvent::Ping(vec![9]), 40_000_000_000);
    assert!(matches!(acts.as_slice(), [LogAction::SendPong(d)] if d == &vec![9u8]));
    assert_eq!(s.last_heartbeat, 40_000_000_000);
    let (_, acts) = log_step(s, LogEvent::HeartbeatTick, 70_000_000_001);
    assert!(matches!(acts.as_slice(), [LogAction::Stop]));
}
