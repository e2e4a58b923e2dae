//! The conversation with one connected runner, as a state machine: each
//! event (a frame from the runner, a heartbeat tick, the outcome of work the
//! server did) gives the next state of the session and the actions to
//! perform.
use vstd::prelude::*;
use crate::runner::{timer_action, timer_action_of, Job, RunnerMessage, ServerMessage, TimerAction};
use crate::text::join2;

verus! {

/// How long a runner may stay silent before it is dropped, in nanoseconds.
pub const CLIENT_TIMEOUT_NANOS: u64 = 90_000_000_000;

/// What the server knows of a connection.
pub struct RunnerSession {
    /// The runner's id, once it registered.
    pub runner_id: Option<i64>,
    /// When the runner was last heard from, in nanoseconds.
    pub last_heartbeat: u64,
}

/// Something that happened on a connection.
pub enum SessionEvent {
    /// A ping frame with its payload.
    Ping(Vec<u8>),
    /// A pong frame.
    Pong,
    /// A text frame: the message it holds, or `None` when it is not one.
    Text(Option<RunnerMessage>),
    /// A binary frame, which runners do not send.
    Binary,
    /// The runner closed the connection.
    Close,
    /// The connection broke.
    ProtocolError,
    /// The periodic heartbeat check.
    HeartbeatTick,
    /// The connection ended.
    Stopped,
    /// The registration the runner asked for succeeded with this id, or
    /// failed for this reason.
    Registration(Result<i64, String>),
    /// A job update was stored.
    JobUpdateStored,
    /// The search for a pending job found one, none, or failed.
    JobLookup(Result<Option<Job>, String>),
}

/// Something the server does for a connection.
pub enum SessionAction {
    /// Answer a ping.
    SendPong(Vec<u8>),
    /// Ping the runner.
    SendPing,
    /// Close the connection.
    Stop,
    /// Register the runner that presented this token.
    Register { token: String, name: String, tags: Vec<String>, executor: String },
    /// Store a job's new status; `watch` tells whether this instance now
    /// watches the job's timeout; `timer` what happens to that timer.
    UpdateJob {
        job_id: i64,
        status: String,
        exit_code: Option<i32>,
        error_message: Option<String>,
        watch: bool,
        timer: TimerAction,
    },
    /// Append output to a job's log.
    AppendLog { job_id: i64, output: String },
    /// Record that the runner was heard from.
    TouchRunner { runner_id: i64 },
    /// Claim a pending job for the runner.
    FetchJob { runner_id: i64 },
    /// Record the connection among the connected runners.
    Track { runner_id: i64 },
    /// Remove the connection from the connected runners.
    Untrack { runner_id: i64 },
    /// Mark the runner offline.
    MarkOffline { runner_id: i64 },
    /// Send a message to the runner.
    Send(ServerMessage),
}

/// The heartbeat has expired: more than the timeout passed since the
/// runner was last heard from.
pub open spec fn heartbeat_expired(last: u64, now: u64) -> bool {
    now > last && now - last > CLIENT_TIMEOUT_NANOS
}

/// What a session does with a message from its runner: the next state and
/// the actions.
pub open spec fn message_step(
    s: RunnerSession,
    m: RunnerMessage,
    now: u64,
    next: RunnerSession,
    acts: Seq<SessionAction>,
) -> bool {
    match m {
        RunnerMessage::Register { token, name, tags, executor } => next == s && acts == seq![
            SessionAction::Register { token, name, tags, executor },
        ],
        RunnerMessage::JobUpdate { job_id, status, exit_code, error_message } => next == s && acts.len() == 1
            && acts[0] == (SessionAction::UpdateJob {
            job_id,
            status,
            exit_code,
            error_message,
            watch: status@ == "running"@,
            timer: timer_action_of(status@),
        }),
        RunnerMessage::JobLog { job_id, output } => next == s && acts == seq![
            SessionAction::AppendLog { job_id, output },
        ],
        RunnerMessage::Heartbeat => next == (RunnerSession { last_heartbeat: now, ..s }) && acts == match s.runner_id {
            Some(id) => seq![SessionAction::TouchRunner { runner_id: id }],
            None => Seq::empty(),
        },
        RunnerMessage::RequestJob => next == s && acts == match s.runner_id {
            Some(id) => seq![SessionAction::FetchJob { runner_id: id }],
            None => Seq::empty(),
        },
    }
}

/// What a session does on an event at time `now`.
pub open spec fn session_step_ok(
    s: RunnerSession,
    e: SessionEvent,
    now: u64,
    next: RunnerSession,
    acts: Seq<SessionAction>,
) -> bool {
    match e {
        SessionEvent::Ping(data) => next == (RunnerSession { last_heartbeat: now, ..s }) && acts == seq![
            SessionAction::SendPong(data),
        ],
        SessionEvent::Pong => next == (RunnerSession { last_heartbeat: now, ..s }) && acts == Seq::<
            SessionAction,
        >::empty(),
        SessionEvent::Text(Some(m)) => message_step(s, m, now, next, acts),
        SessionEvent::Text(None) => next == s && acts == Seq::<SessionAction>::empty(),
        SessionEvent::Binary => next == s && acts == Seq::<SessionAction>::empty(),
        SessionEvent::Close => next == s && acts == seq![SessionAction::Stop],
        SessionEvent::ProtocolError => next == s && acts == seq![SessionAction::Stop],
        SessionEvent::HeartbeatTick => next == s && acts == if heartbeat_expired(s.last_heartbeat, now) {
            seq![SessionAction::Stop]
        } else {
            seq![SessionAction::SendPing]
        },
        SessionEvent::Stopped => next == s && acts == match s.runner_id {
            Some(id) => seq![SessionAction::MarkOffline { runner_id: id }, SessionAction::Untrack { runner_id: id }],
            None => Seq::empty(),
        },
        SessionEvent::Registration(Ok(id)) => next == (RunnerSession { runner_id: Some(id), ..s }) && acts == seq![
            SessionAction::Track { runner_id: id },
            SessionAction::Send(ServerMessage::Registered { runner_id: id }),
        ],
        SessionEvent::Registration(Err(reason)) => next == s && acts.len() == 1 && (acts[0] matches SessionAction::Send(
            ServerMessage::Error { message },
        ) && message@ == "Registration failed: "@ + reason@),
        SessionEvent::JobUpdateStored => next == s && acts == seq![SessionAction::Send(ServerMessage::Ack)],
        SessionEvent::JobLookup(Ok(Some(job))) => next == s && acts == seq![
            SessionAction::Send(ServerMessage::JobAssigned { job }),
        ],
        SessionEvent::JobLookup(Ok(None)) => next == s && acts == seq![SessionAction::Send(ServerMessage::NoJobs)],
        SessionEvent::JobLookup(Err(_)) => next == s && acts == Seq::<SessionAction>::empty(),
    }
}

fn handle_message(s: RunnerSession, m: RunnerMessage, now: u64) -> (r: (RunnerSession, Vec<SessionAction>))
    ensures
        message_step(s, m, now, r.0, r.1@),
{
    let mut acts: Vec<SessionAction> = Vec::new();
    match m {
        RunnerMessage::Register { token, name, tags, executor } => {
            acts.push(SessionAction::Register { token, name, tags, executor });
            (s, acts)
        },
        RunnerMessage::JobUpdate { job_id, status, exit_code, error_message } => {
            let watch = crate::text::str_eq(status.as_str(), "running");
            let timer = timer_action(status.as_str());
            acts.push(SessionAction::UpdateJob { job_id, status, exit_code, error_message, watch, timer });
            (s, acts)
        },
        RunnerMessage::JobLog { job_id, output } => {
            acts.push(SessionAction::AppendLog { job_id, output });
            (s, acts)
        },
        RunnerMessage::Heartbeat => {
            if let Some(id) = s.runner_id {
                acts.push(SessionAction::TouchRunner { runner_id: id });
            }
            (RunnerSession { runner_id: s.runner_id, last_heartbeat: now }, acts)
        },
        RunnerMessage::RequestJob => {
            if let Some(id) = s.runner_id {
                acts.push(SessionAction::FetchJob { runner_id: id });
            }
            (s, acts)
        },
    }
}

/// The next state of a session and the actions to perform, for an event
/// at time `now` (nanoseconds on the same clock as the heartbeats).
pub fn session_step(s: RunnerSession, e: SessionEvent, now: u64) -> (r: (RunnerSession, Vec<SessionAction>))
    ensures
        session_step_ok(s, e, now, r.0, r.1@),
{
    let mut acts: Vec<SessionAction> = Vec::new();
    match e {
        SessionEvent::Ping(data) => {
            acts.push(SessionAction::SendPong(data));
            assert(acts@ =~= seq![SessionAction::SendPong(data)]);
            (RunnerSession { runner_id: s.runner_id, last_heartbeat: now }, acts)
        },
        SessionEvent::Pong => {
            assert(acts@ =~= Seq::<SessionAction>::empty());
            (RunnerSession { runner_id: s.runner_id, last_heartbeat: now }, acts)
        },
        SessionEvent::Text(Some(m)) => handle_message(s, m, now),
        SessionEvent::Text(None) => {
            assert(acts@ =~= Seq::<SessionAction>::empty());
            (s, acts)
        },
        SessionEvent::Binary => {
            assert(acts@ =~= Seq::<SessionAction>::empty());
            (s, acts)
        },
        SessionEvent::Close => {
            acts.push(SessionAction::Stop);
            assert(acts@ =~= seq![SessionAction::Stop]);
            (s, acts)
        },
        SessionEvent::ProtocolError => {
            acts.push(SessionAction::Stop);
            assert(acts@ =~= seq![SessionAction::Stop]);
            (s, acts)
        },
        SessionEvent::HeartbeatTick => {
            if now > s.last_heartbeat && now - s.last_heartbeat > CLIENT_TIMEOUT_NANOS {
                acts.push(SessionAction::Stop);
                assert(acts@ =~= seq![SessionAction::Stop]);
            } else {
                acts.push(SessionAction::SendPing);
                assert(acts@ =~= seq![SessionAction::SendPing]);
            }
            (s, acts)
        },
        SessionEvent::Stopped => {
            if let Some(id) = s.runner_id {
                acts.push(SessionAction::MarkOffline { runner_id: id });
                acts.push(SessionAction::Untrack { runner_id: id });
                assert(acts@ =~= seq![SessionAction::MarkOffline { runner_id: id }, SessionAction::Untrack { runner_id: id }]);
            } else {
                assert(acts@ =~= Seq::<SessionAction>::empty());
            }
            (s, acts)
        },
        SessionEvent::Registration(Ok(id)) => {
            acts.push(SessionAction::Track { runner_id: id });
            acts.push(SessionAction::Send(ServerMessage::Registered { runner_id: id }));
            assert(acts@ =~= seq![
                SessionAction::Track { runner_id: id },
                SessionAction::Send(ServerMessage::Registered { runner_id: id }),
            ]);
            (RunnerSession { runner_id: Some(id), last_heartbeat: s.last_heartbeat }, acts)
        },
        SessionEvent::Registration(Err(reason)) => {
            let message = join2("Registration failed: ", reason.as_str());
            acts.push(SessionAction::Send(ServerMessage::Error { message }));
            (s, acts)
        },
        SessionEvent::JobUpdateStored => {
            acts.push(SessionAction::Send(ServerMessage::Ack));
            assert(acts@ =~= seq![SessionAction::Send(ServerMessage::Ack)]);
            (s, acts)
        },
        SessionEvent::JobLookup(Ok(Some(job))) => {
            acts.push(SessionAction::Send(ServerMessage::JobAssigned { job }));
            assert(acts@ =~= seq![SessionAction::Send(ServerMessage::JobAssigned { job })]);
            (s, acts)
        },
        SessionEvent::JobLookup(Ok(None)) => {
            acts.push(SessionAction::Send(ServerMessage::NoJobs));
            assert(acts@ =~= seq![SessionAction::Send(ServerMessage::NoJobs)]);
            (s, acts)
        },
        SessionEvent::JobLookup(Err(_)) => {
            assert(acts@ =~= Seq::<SessionAction>::empty());
            (s, acts)
        },
    }
}

/// A runner heard from at `t` is not dropped by a heartbeat check made
/// within the timeout after `t`.
pub proof fn law_recent_heartbeat_keeps_connection(s: RunnerSession, now: u64, next: RunnerSession, acts: Seq<SessionAction>)
    requires
        now <= s.last_heartbeat + CLIENT_TIMEOUT_NANOS,
        session_step_ok(s, SessionEvent::HeartbeatTick, now, next, acts),
    ensures
        acts == seq![SessionAction::SendPing],
        next == s,
{
}

/// A runner that has not registered gets no job and is not recorded as
/// heard from.
pub proof fn law_unregistered_runner_gets_no_work(
    s: RunnerSession,
    m: RunnerMessage,
    now: u64,
    next: RunnerSession,
    acts: Seq<SessionAction>,
)
    requires
        s.runner_id is None,
        m is RequestJob || m is Heartbeat,
        message_step(s, m, now, next, acts),
    ensures
        acts.len() == 0,
        next.runner_id is None,
{
}

/// After a successful registration the session knows its runner, and when
/// it ends that runner is marked offline and forgotten.
pub proof fn law_registered_runner_is_released(
    s: RunnerSession,
    id: i64,
    now: u64,
    mid: RunnerSession,
    acts1: Seq<SessionAction>,
    later: u64,
    end: RunnerSession,
    acts2: Seq<SessionAction>,
)
    requires
        session_step_ok(s, SessionEvent::Registration(Ok(id)), now, mid, acts1),
        session_step_ok(mid, SessionEvent::Stopped, later, end, acts2),
    ensures
        mid.runner_id == Some(id),
        acts1[0] == (SessionAction::Track { runner_id: id }),
        acts2 == seq![SessionAction::MarkOffline { runner_id: id }, SessionAction::Untrack { runner_id: id }],
{
}

} // verus!
