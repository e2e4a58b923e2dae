//! Streaming a job's log to a browser, as a state machine: the log lines
//! already sent, the heartbeat, and what each event leads to.
use vstd::prelude::*;

verus! {

/// How long a viewer may stay silent before the stream is closed, in
/// nanoseconds.
pub const LOG_CLIENT_TIMEOUT_NANOS: u64 = 30_000_000_000;

/// What the server knows of a log stream.
pub struct LogStream {
    pub job_id: i64,
    /// The id of the last log line sent.
    pub last_log_id: i64,
    /// When the viewer was last heard from, in nanoseconds.
    pub last_heartbeat: u64,
}

/// A new stream of a job's log: nothing sent yet.
pub fn new_log_stream(job_id: i64, now: u64) -> (s: LogStream)
    ensures
        s.job_id == job_id,
        s.last_log_id == 0,
        s.last_heartbeat == now,
{
    LogStream { job_id, last_log_id: 0, last_heartbeat: now }
}

/// Something that happened on a log stream.
pub enum LogEvent {
    /// The stream opened.
    Started,
    /// A ping frame with its payload.
    Ping(Vec<u8>),
    /// A pong frame.
    Pong,
    /// Any text: the viewer asks for new lines.
    Text,
    /// The viewer closed the stream.
    Close,
    /// The connection broke.
    ProtocolError,
    /// The periodic heartbeat check.
    HeartbeatTick,
    /// New log lines, as id and output, in order.
    LogsFetched(Vec<(i64, String)>),
}

/// Something to do for a log stream.
pub enum LogAction {
    SendPong(Vec<u8>),
    SendPing,
    Stop,
    /// Fetch the lines of the job after this id.
    FetchLogs { job_id: i64, since: i64 },
    /// Send text to the viewer.
    SendText(String),
}

/// The outputs of log lines, one after the other.
pub open spec fn concat_outputs(lines: Seq<(i64, String)>) -> Seq<char>
    decreases lines.len(),
{
    if lines.len() == 0 {
        Seq::empty()
    } else {
        concat_outputs(lines.drop_last()) + lines.last().1@
    }
}

/// What a log stream does on an event at time `now`.
pub open spec fn log_step_ok(s: LogStream, e: LogEvent, now: u64, next: LogStream, acts: Seq<LogAction>) -> bool {
    match e {
        LogEvent::Started => next == s && acts == seq![LogAction::FetchLogs { job_id: s.job_id, since: s.last_log_id }],
        LogEvent::Ping(data) => next == (LogStream { last_heartbeat: now, ..s }) && acts == seq![LogAction::SendPong(data)],
        LogEvent::Pong => next == (LogStream { last_heartbeat: now, ..s }) && acts == Seq::<LogAction>::empty(),
        LogEvent::Text => next == s && acts == seq![LogAction::FetchLogs { job_id: s.job_id, since: s.last_log_id }],
        LogEvent::Close => next == s && acts == seq![LogAction::Stop],
        LogEvent::ProtocolError => next == s && acts == seq![LogAction::Stop],
        LogEvent::HeartbeatTick => next == s && acts == if now > s.last_heartbeat && now - s.last_heartbeat
            > LOG_CLIENT_TIMEOUT_NANOS {
            seq![LogAction::Stop]
        } else {
            seq![LogAction::SendPing]
        },
        LogEvent::LogsFetched(lines) => if lines@.len() == 0 {
            next == s && acts == Seq::<LogAction>::empty()
        } else {
            next == (LogStream { last_log_id: lines@.last().0, ..s }) && acts.len() == 1 && (
            acts[0] matches LogAction::SendText(t) && t@ == concat_outputs(lines@))
        },
    }
}

/// The next state of a log stream and the actions to perform.
pub fn log_step(s: LogStream, e: LogEvent, now: u64) -> (r: (LogStream, Vec<LogAction>))
    ensures
        log_step_ok(s, e, now, r.0, r.1@),
{
    let mut acts: Vec<LogAction> = Vec::new();
    match e {
        LogEvent::Started => {
            acts.push(LogAction::FetchLogs { job_id: s.job_id, since: s.last_log_id });
            assert(acts@ =~= seq![LogAction::FetchLogs { job_id: s.job_id, since: s.last_log_id }]);
            (s, acts)
        },
        LogEvent::Ping(data) => {
            acts.push(LogAction::SendPong(data));
            assert(acts@ =~= seq![LogAction::SendPong(data)]);
            (LogStream { job_id: s.job_id, last_log_id: s.last_log_id, last_heartbeat: now }, acts)
        },
        LogEvent::Pong => {
            assert(acts@ =~= Seq::<LogAction>::empty());
            (LogStream { job_id: s.job_id, last_log_id: s.last_log_id, last_heartbeat: now }, acts)
        },
        LogEvent::Text => {
            acts.push(LogAction::FetchLogs { job_id: s.job_id, since: s.last_log_id });
            assert(acts@ =~= seq![LogAction::FetchLogs { job_id: s.job_id, since: s.last_log_id }]);
            (s, acts)
        },
        LogEvent::Close => {
            acts.push(LogAction::Stop);
            assert(acts@ =~= seq![LogAction::Stop]);
            (s, acts)
        },
        LogEvent::ProtocolError => {
            acts.push(LogAction::Stop);
            assert(acts@ =~= seq![LogAction::Stop]);
            (s, acts)
        },
        LogEvent::HeartbeatTick => {
            if now > s.last_heartbeat && now - s.last_heartbeat > LOG_CLIENT_TIMEOUT_NANOS {
                acts.push(LogAction::Stop);
                assert(acts@ =~= seq![LogAction::Stop]);
            } else {
                acts.push(LogAction::SendPing);
                assert(acts@ =~= seq![LogAction::SendPing]);
            }
            (s, acts)
        },
        LogEvent::LogsFetched(lines) => {
            if lines.len() == 0 {
                assert(acts@ =~= Seq::<LogAction>::empty());
                return (s, acts);
            }
            let mut out = String::new();
            let mut i: usize = 0;
            while i < lines.len()
                invariant
                    i <= lines.len(),
                    out@ == concat_outputs(lines@.take(i as int)),
                decreases lines.len() - i,
            {
                assert(lines@.take(i + 1).drop_last() =~= lines@.take(i as int));
                out.append(lines[i].1.as_str());
                i = i + 1;
            }
            assert(lines@.take(lines@.len() as int) =~= lines@);
            let last = lines[lines.len() - 1].0;
            acts.push(LogAction::SendText(out));
            (LogStream { job_id: s.job_id, last_log_id: last, last_heartbeat: s.last_heartbeat }, acts)
        },
    }
}

/// Lines are sent once: after new lines were sent, the next fetch asks
/// only for lines after the last of them.
pub proof fn law_next_fetch_starts_after_sent_lines(
    s: LogStream,
    lines: Vec<(i64, String)>,
    now: u64,
    mid: LogStream,
    acts1: Seq<LogAction>,
    later: u64,
    end: LogStream,
    acts2: Seq<LogAction>,
)
    requires
        lines@.len() > 0,
        log_step_ok(s, LogEvent::LogsFetched(lines), now, mid, acts1),
        log_step_ok(mid, LogEvent::Text, later, end, acts2),
    ensures
        acts2 == seq![LogAction::FetchLogs { job_id: s.job_id, since: lines@.last().0 }],
{
}

} // verus!
