//! CI runners: the messages exchanged with a runner, jobs and their
//! configuration, the registry of connected runners, and the decisions that
//! the server makes about job status, pipeline status and job timeouts.
use vstd::prelude::*;
use crate::oauth::{opt_view, string_views};
use crate::text::{chars_of, decimal_of, has_prefix, i64_to_decimal, join2, join3, owned, parse_in_range,
    parse_integer, signed_decimal_of, slice_chars, starts_with, str_eq, string_of, all_digits, digits_value,
    digit_value, decimal_char, parsed_integer};
use crate::ids::{new_uuid_simple, uuid_simple_text};
use std::collections::HashMap;

verus! {

// ---------------------------------------------------------------------------
// Messages and jobs
// ---------------------------------------------------------------------------

/// Text to send to a runner over its connection.
pub struct SendText(pub String);

/// A message from a runner.
pub enum RunnerMessage {
    /// The runner presents its token and describes itself.
    Register { token: String, name: String, tags: Vec<String>, executor: String },
    /// A job changed status.
    JobUpdate { job_id: i64, status: String, exit_code: Option<i32>, error_message: Option<String> },
    /// Output of a job.
    JobLog { job_id: i64, output: String },
    /// The runner is alive.
    Heartbeat,
    /// The runner asks for work.
    RequestJob,
}

/// A message to a runner.
pub enum ServerMessage {
    /// The registration succeeded.
    Registered { runner_id: i64 },
    /// Something went wrong.
    Error { message: String },
    /// A job for the runner to run.
    JobAssigned { job: Job },
    /// There is no job for the runner.
    NoJobs,
    /// A job update was handled.
    Ack,
    /// The runner's settings changed.
    ConfigUpdate {
        tags: Option<Vec<String>>,
        description: Option<String>,
        run_untagged: Option<bool>,
        maximum_timeout: Option<i32>,
    },
}

/// When a job runs, relative to the jobs before it.
#[derive(PartialEq, Eq, Structural, Debug, Clone, Copy)]
pub enum WhenCondition {
    OnSuccess,
    OnFailure,
    Always,
    Manual,
}

/// The condition that a `when` text names; anything unknown means
/// `on_success`.
pub open spec fn when_of(s: Seq<char>) -> WhenCondition {
    if s == "on_failure"@ {
        WhenCondition::OnFailure
    } else if s == "always"@ {
        WhenCondition::Always
    } else if s == "manual"@ {
        WhenCondition::Manual
    } else {
        WhenCondition::OnSuccess
    }
}

impl WhenCondition {
    /// Reads a `when` condition.
    pub fn from_str(s: &str) -> (r: WhenCondition)
        ensures
            r == when_of(s@),
    {
        if str_eq(s, "on_failure") {
            WhenCondition::OnFailure
        } else if str_eq(s, "always") {
            WhenCondition::Always
        } else if str_eq(s, "manual") {
            WhenCondition::Manual
        } else {
            WhenCondition::OnSuccess
        }
    }
}

/// Files kept after a job.
pub struct ArtifactsConfig {
    pub paths: Vec<String>,
    pub expire_in: Option<String>,
    pub name: Option<String>,
}

/// Files cached between jobs.
pub struct CacheConfig {
    pub paths: Vec<String>,
    pub key: String,
}

/// How often, and on which failures, a job is retried.
pub struct RetryConfig {
    pub max: i32,
    pub when: Vec<String>,
}

/// The configuration of a job as stored with it.
pub struct JobConfig {
    pub script: Vec<String>,
    /// Environment variables, as name and value.
    pub variables: Option<Vec<(String, String)>>,
    pub artifacts: Option<ArtifactsConfig>,
    pub cache: Option<CacheConfig>,
    pub retry: Option<RetryConfig>,
    pub timeout: Option<i32>,
    pub tags: Option<Vec<String>>,
}

/// A job as handed to a runner.
pub struct Job {
    pub id: i64,
    pub pipeline_id: i64,
    pub project_id: i64,
    pub name: String,
    pub stage: String,
    pub script: Vec<String>,
    /// Environment variables, as name and value.
    pub variables: Vec<(String, String)>,
    pub artifacts: Option<ArtifactsConfig>,
    pub cache: Option<CacheConfig>,
    pub retry: Option<RetryConfig>,
    pub timeout: Option<i32>,
    pub allow_failure: bool,
    pub when: WhenCondition,
    pub repository_url: String,
    pub ref_name: String,
    pub commit_sha: String,
    pub before_sha: String,
}

/// What is stored about a claimed job, besides its configuration.
pub struct ClaimedJob {
    pub id: i64,
    pub pipeline_id: i64,
    pub project_id: i64,
    pub name: String,
    pub stage: String,
    pub allow_failure: Option<bool>,
    pub when_condition: Option<String>,
    /// Path of the project's namespace.
    pub namespace_path: String,
    pub project_name: String,
    pub ref_name: String,
    pub commit_sha: String,
}

/// The clone URL of a project as runners reach it.
pub open spec fn repository_url_of(namespace_path: Seq<char>, project_name: Seq<char>) -> Seq<char> {
    "http://localhost:8081/"@ + namespace_path + "/"@ + project_name + ".git"@
}

/// The job handed to a runner for a claimed job: the configuration's script,
/// variables (none when unset) and settings, `allow_failure` false and
/// `when` `on_success` when unset, the project's clone URL and no
/// `before_sha`.
pub open spec fn job_built(j: Job, c: ClaimedJob, config: JobConfig) -> bool {
    &&& j.id == c.id
    &&& j.pipeline_id == c.pipeline_id
    &&& j.project_id == c.project_id
    &&& j.name == c.name
    &&& j.stage == c.stage
    &&& j.script == config.script
    &&& j.variables@ == (match config.variables {
        Some(v) => v@,
        None => Seq::<(String, String)>::empty(),
    })
    &&& j.artifacts == config.artifacts
    &&& j.cache == config.cache
    &&& j.retry == config.retry
    &&& j.timeout == config.timeout
    &&& j.allow_failure == (match c.allow_failure {
        Some(b) => b,
        None => false,
    })
    &&& j.when == (match c.when_condition {
        Some(w) => when_of(w@),
        None => WhenCondition::OnSuccess,
    })
    &&& j.repository_url@ == repository_url_of(c.namespace_path@, c.project_name@)
    &&& j.ref_name == c.ref_name
    &&& j.commit_sha == c.commit_sha
    &&& j.before_sha@ == Seq::<char>::empty()
}

/// Builds the job that a runner is given for a claimed job.
pub fn assemble_job(c: ClaimedJob, config: JobConfig) -> (j: Job)
    ensures
        job_built(j, c, config),
{
    let url = {
        let a = join3("http://localhost:8081/", c.namespace_path.as_str(), "/");
        join3(a.as_str(), c.project_name.as_str(), ".git")
    };
    let when = match &c.when_condition {
        Some(w) => WhenCondition::from_str(w.as_str()),
        None => WhenCondition::OnSuccess,
    };
    let allow_failure = match c.allow_failure {
        Some(b) => b,
        None => false,
    };
    let variables = match config.variables {
        Some(v) => v,
        None => Vec::new(),
    };
    Job {
        id: c.id,
        pipeline_id: c.pipeline_id,
        project_id: c.project_id,
        name: c.name,
        stage: c.stage,
        script: config.script,
        variables,
        artifacts: config.artifacts,
        cache: config.cache,
        retry: config.retry,
        timeout: config.timeout,
        allow_failure,
        when,
        repository_url: url,
        ref_name: c.ref_name,
        commit_sha: c.commit_sha,
        before_sha: String::new(),
    }
}

// ---------------------------------------------------------------------------
// Registration and runner settings
// ---------------------------------------------------------------------------

/// A runner's registration request.
pub struct RegisterRunnerRequest {
    /// The registration token.
    pub token: String,
    pub name: String,
    pub description: Option<String>,
    pub tags: Option<Vec<String>>,
    pub executor: Option<String>,
}

/// The answer to a registration.
pub struct RegisterRunnerResponse {
    pub runner_id: i64,
    /// The token the runner authenticates its connection with.
    pub auth_token: String,
    pub websocket_url: String,
}

/// A request to create a runner.
pub struct CreateRunnerRequest {
    pub name: String,
    pub description: Option<String>,
    pub tags: Option<Vec<String>>,
    /// `shell` or `docker`.
    pub executor: Option<String>,
    pub run_untagged: Option<bool>,
    pub locked: Option<bool>,
    pub maximum_timeout: Option<i32>,
}

/// A request to change a runner; unset fields stay as they are.
pub struct UpdateRunnerRequest {
    pub description: Option<String>,
    pub tags: Option<Vec<String>>,
    pub is_active: Option<bool>,
    pub run_untagged: Option<bool>,
    pub locked: Option<bool>,
    pub maximum_timeout: Option<i32>,
}

/// The executor of a runner that names none.
pub open spec fn executor_or_default(e: Option<Seq<char>>) -> Seq<char> {
    match e {
        Some(x) => x,
        None => "shell"@,
    }
}

fn copy_strings(v: &Vec<String>) -> (r: Vec<String>)
    ensures
        string_views(r@) == string_views(v@),
{
    let mut out: Vec<String> = Vec::new();
    let mut i: usize = 0;
    while i < v.len()
        invariant
            i <= v.len(),
            string_views(out@) == string_views(v@).take(i as int),
        decreases v.len() - i,
    {
        let ghost before = out@;
        out.push(owned(v[i].as_str()));
        proof {
            assert(string_views(out@) =~= string_views(before).push(v@[i as int]@));
            assert(string_views(v@).take(i + 1) =~= string_views(v@).take(i as int).push(v@[i as int]@));
        }
        i = i + 1;
    }
    assert(string_views(v@).take(v@.len() as int) =~= string_views(v@));
    out
}

/// The tags a runner is stored with (none when unset).
pub open spec fn tags_or_empty(t: Option<Vec<String>>) -> Seq<Seq<char>> {
    match t {
        Some(v) => string_views(v@),
        None => Seq::empty(),
    }
}

/// The tags and executor stored for a registering runner: none and `shell`
/// when unset.
pub fn registration_settings(req: &RegisterRunnerRequest) -> (r: (Vec<String>, String))
    ensures
        string_views(r.0@) == tags_or_empty(req.tags),
        r.1@ == executor_or_default(opt_view(req.executor)),
{
    let tags = match &req.tags {
        Some(t) => copy_strings(t),
        None => Vec::new(),
    };
    let executor = match &req.executor {
        Some(e) => owned(e.as_str()),
        None => owned("shell"),
    };
    proof {
        if req.tags is None {
            assert(string_views(tags@) =~= Seq::<Seq<char>>::empty());
        }
    }
    (tags, executor)
}

/// The settings a new runner is stored with.
pub struct NewRunnerSettings {
    pub tags: Vec<String>,
    pub executor: String,
    pub run_untagged: bool,
    pub locked: bool,
}

/// The settings of a new runner: no tags, the `shell` executor, running
/// untagged jobs and unlocked, unless the request says otherwise.
pub fn new_runner_settings(req: &CreateRunnerRequest) -> (r: NewRunnerSettings)
    ensures
        string_views(r.tags@) == tags_or_empty(req.tags),
        r.executor@ == executor_or_default(opt_view(req.executor)),
        r.run_untagged == (match req.run_untagged {
            Some(b) => b,
            None => true,
        }),
        r.locked == (match req.locked {
            Some(b) => b,
            None => false,
        }),
{
    let tags = match &req.tags {
        Some(t) => copy_strings(t),
        None => Vec::new(),
    };
    let executor = match &req.executor {
        Some(e) => owned(e.as_str()),
        None => owned("shell"),
    };
    proof {
        if req.tags is None {
            assert(string_views(tags@) =~= Seq::<Seq<char>>::empty());
        }
    }
    NewRunnerSettings {
        tags,
        executor,
        run_untagged: match req.run_untagged {
            Some(b) => b,
            None => true,
        },
        locked: match req.locked {
            Some(b) => b,
            None => false,
        },
    }
}

/// A new registration token of a runner: `glrt-` and a random UUID in the
/// simple form.
pub fn new_runner_token() -> (r: String)
    ensures
        exists|n: u128| r@ == "glrt-"@ + uuid_simple_text(n),
{
    let u = new_uuid_simple();
    join2("glrt-", u.as_str())
}

/// A new connection token given to a runner that registers:
/// `glrt-auth-` and a random UUID in the simple form.
pub fn new_runner_auth_token() -> (r: String)
    ensures
        exists|n: u128| r@ == "glrt-auth-"@ + uuid_simple_text(n),
{
    let u = new_uuid_simple();
    join2("glrt-auth-", u.as_str())
}

/// The address runners open their connection to.
pub fn runner_websocket_url() -> (r: String)
    ensures
        r@ == "ws://localhost:8081/api/v1/runner/connect"@,
{
    owned("ws://localhost:8081/api/v1/runner/connect")
}

// ---------------------------------------------------------------------------
// Connected runners
// ---------------------------------------------------------------------------

/// The connected runners, by id, with the address each is reached at.
pub struct RunnerManager<A> {
    runners: HashMap<i64, A>,
}

impl<A> View for RunnerManager<A> {
    type V = Map<i64, A>;

    closed spec fn view(&self) -> Map<i64, A> {
        self.runners@
    }
}

impl<A> RunnerManager<A> {
    /// No runner is connected.
    pub fn new() -> (m: Self)
        ensures
            m@ == Map::<i64, A>::empty(),
    {
        RunnerManager { runners: HashMap::new() }
    }

    /// Records a connected runner; one already recorded under that id is
    /// replaced.
    pub fn add_runner(&mut self, runner_id: i64, addr: A)
        ensures
            final(self)@ == old(self)@.insert(runner_id, addr),
    {
        broadcast use vstd::std_specs::hash::group_hash_axioms;
        self.runners.insert(runner_id, addr);
    }

    /// Forgets a runner.
    pub fn remove_runner(&mut self, runner_id: i64)
        ensures
            final(self)@ == old(self)@.remove(runner_id),
    {
        broadcast use vstd::std_specs::hash::group_hash_axioms;
        self.runners.remove(&runner_id);
    }

    /// The address of a connected runner.
    pub fn get_runner(&self, runner_id: i64) -> (r: Option<&A>)
        ensures
            match r {
                Some(a) => self@.contains_key(runner_id) && *a == self@[runner_id],
                None => !self@.contains_key(runner_id),
            },
    {
        broadcast use vstd::std_specs::hash::group_hash_axioms;
        self.runners.get(&runner_id)
    }

    /// How many runners are connected.
    pub fn active_count(&self) -> (n: usize)
        ensures
            n == self@.len(),
    {
        broadcast use vstd::std_specs::hash::group_hash_axioms;
        self.runners.len()
    }
}

/// A runner that was just added is found, at the address it was added
/// with.
pub proof fn law_get_after_add<A>(before: Map<i64, A>, runner_id: i64, addr: A)
    ensures
        before.insert(runner_id, addr).contains_key(runner_id),
        before.insert(runner_id, addr)[runner_id] == addr,
{
}

/// A runner that was just removed is not found, and the others are left
/// as they were.
pub proof fn law_get_after_remove<A>(before: Map<i64, A>, runner_id: i64, other: i64)
    requires
        other != runner_id,
    ensures
        !before.remove(runner_id).contains_key(runner_id),
        before.remove(runner_id).contains_key(other) == before.contains_key(other),
        before.contains_key(other) ==> before.remove(runner_id)[other] == before[other],
{
}

/// Adding a runner that was not connected, then removing it, leaves the
/// registry as it was; the count goes up by one in between.
pub proof fn law_add_then_remove<A>(before: Map<i64, A>, runner_id: i64, addr: A)
    requires
        before.dom().finite(),
        !before.contains_key(runner_id),
    ensures
        before.insert(runner_id, addr).remove(runner_id) == before,
        before.insert(runner_id, addr).len() == before.len() + 1,
{
    assert(before.insert(runner_id, addr).remove(runner_id) =~= before);
}

// ---------------------------------------------------------------------------
// Job and pipeline status
// ---------------------------------------------------------------------------

/// The status and the `allow_failure` flag of each job of a pipeline.
pub open spec fn job_views(jobs: Seq<(String, bool)>) -> Seq<(Seq<char>, bool)> {
    jobs.map_values(|j: (String, bool)| (j.0@, j.1))
}

/// Some job has this status.
pub open spec fn some_job_is(jobs: Seq<(Seq<char>, bool)>, status: Seq<char>) -> bool {
    exists|i: int| 0 <= i < jobs.len() && (#[trigger] jobs[i]).0 == status
}

/// Some job failed without being allowed to.
pub open spec fn some_hard_failure(jobs: Seq<(Seq<char>, bool)>) -> bool {
    exists|i: int| 0 <= i < jobs.len() && (#[trigger] jobs[i]).0 == "failed"@ && !jobs[i].1
}

/// A job that passed: it succeeded, was skipped, or failed where failure
/// is allowed.
pub open spec fn job_passed(j: (Seq<char>, bool)) -> bool {
    j.0 == "success"@ || j.0 == "skipped"@ || (j.0 == "failed"@ && j.1)
}

/// Every job passed.
pub open spec fn all_passed(jobs: Seq<(Seq<char>, bool)>) -> bool {
    forall|i: int| 0 <= i < jobs.len() ==> job_passed(#[trigger] jobs[i])
}

/// The status of a pipeline from those of its jobs (none without jobs): a
/// running job makes it running, then a pending one pending, then a canceled
/// one canceled, then a failure that is not allowed failed; when every job
/// passed it succeeded, and otherwise it is pending.
pub open spec fn pipeline_status_of(jobs: Seq<(Seq<char>, bool)>) -> Option<Seq<char>> {
    if jobs.len() == 0 {
        None
    } else if some_job_is(jobs, "running"@) {
        Some("running"@)
    } else if some_job_is(jobs, "pending"@) {
        Some("pending"@)
    } else if some_job_is(jobs, "canceled"@) {
        Some("canceled"@)
    } else if some_hard_failure(jobs) {
        Some("failed"@)
    } else if all_passed(jobs) {
        Some("success"@)
    } else {
        Some("pending"@)
    }
}

/// The status a pipeline takes from the status and `allow_failure` flag of
/// each of its jobs; `None` when it has no job.
pub fn pipeline_status(jobs: &Vec<(String, bool)>) -> (r: Option<&'static str>)
    ensures
        match r {
            Some(s) => pipeline_status_of(job_views(jobs@)) == Some(s@),
            None => pipeline_status_of(job_views(jobs@)) is None,
        },
{
    let ghost v = job_views(jobs@);
    if jobs.len() == 0 {
        return None;
    }
    let mut running = false;
    let mut pending = false;
    let mut canceled = false;
    let mut hard = false;
    let mut passed = true;
    let mut i: usize = 0;
    while i < jobs.len()
        invariant
            v == job_views(jobs@),
            i <= jobs.len(),
            running == some_job_is(v.take(i as int), "running"@),
            pending == some_job_is(v.take(i as int), "pending"@),
            canceled == some_job_is(v.take(i as int), "canceled"@),
            hard == some_hard_failure(v.take(i as int)),
            passed == all_passed(v.take(i as int)),
        decreases jobs.len() - i,
    {
        let st = jobs[i].0.as_str();
        let allow = jobs[i].1;
        let ghost t = v.take(i + 1);
        proof {
            assert(v[i as int] == (jobs@[i as int].0@, jobs@[i as int].1));
            assert(t =~= v.take(i as int).push(v[i as int]));
            assert(t[i as int] == v[i as int]);
            assert(forall|k: int| 0 <= k < i ==> #[trigger] t[k] == v.take(i as int)[k]);
        }
        let is_running = str_eq(st, "running");
        let is_pending = str_eq(st, "pending");
        let is_canceled = str_eq(st, "canceled");
        let is_failed = str_eq(st, "failed");
        let is_ok = str_eq(st, "success") || str_eq(st, "skipped") || (is_failed && allow);
        proof {
            if is_running {
                assert(some_job_is(t, "running"@));
            }
            if running {
                let k = choose|k: int| 0 <= k < i && (#[trigger] v.take(i as int)[k]).0 == "running"@;
                assert(t[k].0 == "running"@);
            }
            if some_job_is(t, "running"@) && !is_running {
                let k = choose|k: int| 0 <= k < t.len() && (#[trigger] t[k]).0 == "running"@;
                assert(k < i);
                assert(v.take(i as int)[k].0 == "running"@);
            }
            if is_pending {
                assert(some_job_is(t, "pending"@));
            }
            if pending {
                let k = choose|k: int| 0 <= k < i && (#[trigger] v.take(i as int)[k]).0 == "pending"@;
                assert(t[k].0 == "pending"@);
            }
            if some_job_is(t, "pending"@) && !is_pending {
                let k = choose|k: int| 0 <= k < t.len() && (#[trigger] t[k]).0 == "pending"@;
                assert(k < i);
                assert(v.take(i as int)[k].0 == "pending"@);
            }
            if is_canceled {
                assert(some_job_is(t, "canceled"@));
            }
            if canceled {
                let k = choose|k: int| 0 <= k < i && (#[trigger] v.take(i as int)[k]).0 == "canceled"@;
                assert(t[k].0 == "canceled"@);
            }
            if some_job_is(t, "canceled"@) && !is_canceled {
                let k = choose|k: int| 0 <= k < t.len() && (#[trigger] t[k]).0 == "canceled"@;
                assert(k < i);
                assert(v.take(i as int)[k].0 == "canceled"@);
            }
            if is_failed && !allow {
                assert(some_hard_failure(t));
            }
            if hard {
                let k = choose|k: int| 0 <= k < i && (#[trigger] v.take(i as int)[k]).0 == "failed"@ && !v.take(i as int)[k].1;
                assert(t[k].0 == "failed"@ && !t[k].1);
            }
            if some_hard_failure(t) && !(is_failed && !allow) {
                let k = choose|k: int| 0 <= k < t.len() && (#[trigger] t[k]).0 == "failed"@ && !t[k].1;
                assert(k < i);
                assert(v.take(i as int)[k].0 == "failed"@ && !v.take(i as int)[k].1);
            }
            if passed && is_ok {
                assert forall|k: int| 0 <= k < t.len() implies job_passed(#[trigger] t[k]) by {
                    if k < i {
                        assert(job_passed(v.take(i as int)[k]));
                    }
                }
            }
            if !passed {
                let k = choose|k: int| 0 <= k < i && !job_passed(#[trigger] v.take(i as int)[k]);
                assert(!job_passed(t[k]));
            }
            if !is_ok {
                assert(!job_passed(t[i as int]));
            }
        }
        running = running || is_running;
        pending = pending || is_pending;
        canceled = canceled || is_canceled;
        hard = hard || (is_failed && !allow);
        passed = passed && is_ok;
        i = i + 1;
    }
    assert(v.take(i as int) =~= v);
    if running {
        Some("running")
    } else if pending {
        Some("pending")
    } else if canceled {
        Some("canceled")
    } else if hard {
        Some("failed")
    } else if passed {
        Some("success")
    } else {
        Some("pending")
    }
}

/// A pipeline in one of these states is over: its end time and duration
/// are recorded.
pub fn pipeline_finished(status: &str) -> (r: bool)
    ensures
        r == (status@ == "success"@ || status@ == "failed"@ || status@ == "canceled"@),
{
    str_eq(status, "success") || str_eq(status, "failed") || str_eq(status, "canceled")
}

/// A running job keeps its pipeline running.
pub proof fn law_running_job_keeps_pipeline_running(jobs: Seq<(Seq<char>, bool)>, i: int)
    requires
        0 <= i < jobs.len(),
        jobs[i].0 == "running"@,
    ensures
        pipeline_status_of(jobs) == Some("running"@),
{
    assert(some_job_is(jobs, "running"@));
}

/// A pipeline succeeds only when every one of its jobs succeeded, was
/// skipped or failed where failure is allowed.
pub proof fn law_success_means_every_job_passed(jobs: Seq<(Seq<char>, bool)>)
    requires
        pipeline_status_of(jobs) == Some("success"@),
    ensures
        all_passed(jobs),
{
    reveal_strlit("success");
    reveal_strlit("pending");
    reveal_strlit("failed");
    reveal_strlit("canceled");
    reveal_strlit("running");
    assert("success"@[0] != "running"@[0] && "success"@[0] != "pending"@[0]);
    assert("failed"@.len() != "running"@.len() && "failed"@.len() != "success"@.len());
    assert("canceled"@.len() != "running"@.len() && "canceled"@.len() != "success"@.len());
    assert("running"@[0] != "pending"@[0]);
    assert("success"@ != "running"@ && "success"@ != "pending"@ && "success"@ != "canceled"@ && "success"@ != "failed"@);
    assert("failed"@ != "running"@ && "failed"@ != "pending"@ && "failed"@ != "canceled"@);
}

/// A pipeline fails only through a job that failed without being allowed
/// to, once no job is running, pending or canceled.
pub proof fn law_failure_needs_hard_failure(jobs: Seq<(Seq<char>, bool)>)
    requires
        pipeline_status_of(jobs) == Some("failed"@),
    ensures
        some_hard_failure(jobs),
        !some_job_is(jobs, "running"@),
        !some_job_is(jobs, "pending"@),
        !some_job_is(jobs, "canceled"@),
{
    reveal_strlit("success");
    reveal_strlit("pending");
    reveal_strlit("failed");
    reveal_strlit("canceled");
    reveal_strlit("running");
    assert("success"@[0] != "running"@[0] && "success"@[0] != "pending"@[0]);
    assert("failed"@.len() != "running"@.len() && "failed"@.len() != "success"@.len());
    assert("canceled"@.len() != "running"@.len() && "canceled"@.len() != "success"@.len());
    assert("running"@[0] != "pending"@[0]);
    assert("success"@ != "running"@ && "success"@ != "pending"@ && "success"@ != "canceled"@ && "success"@ != "failed"@);
    assert("failed"@ != "running"@ && "failed"@ != "pending"@ && "failed"@ != "canceled"@);
}

/// What a job status update does to the job's timeout timer.
#[derive(PartialEq, Eq, Structural, Debug, Clone, Copy)]
pub enum TimerAction {
    /// Start the timer: the job began running.
    Start,
    /// Stop the timer: the job is over.
    Stop,
    /// Leave the timer as it is.
    Keep,
}

/// The timer action for a status: `running` starts it; `success`,
/// `failed`, `canceled` and `skipped` stop it.
pub open spec fn timer_action_of(status: Seq<char>) -> TimerAction {
    if status == "running"@ {
        TimerAction::Start
    } else if status == "success"@ || status == "failed"@ || status == "canceled"@ || status == "skipped"@ {
        TimerAction::Stop
    } else {
        TimerAction::Keep
    }
}

/// What to do with the timeout timer when a job reports a status.
pub fn timer_action(status: &str) -> (r: TimerAction)
    ensures
        r == timer_action_of(status@),
{
    if str_eq(status, "running") {
        TimerAction::Start
    } else if str_eq(status, "success") || str_eq(status, "failed") || str_eq(status, "canceled") || str_eq(
        status,
        "skipped",
    ) {
        TimerAction::Stop
    } else {
        TimerAction::Keep
    }
}

/// The default job timeout: the configured value cut to 32 bits, or an
/// hour when none is configured.
pub open spec fn default_timeout_of(configured: Option<i64>) -> i32 {
    match configured {
        Some(v) => v as i32,
        None => 3600,
    }
}

/// The default job timeout in seconds.
pub fn default_job_timeout(configured: Option<i64>) -> (r: i32)
    ensures
        r == default_timeout_of(configured),
{
    match configured {
        Some(v) => v as i32,
        None => 3600,
    }
}

/// The timeout of a job in seconds: its own setting when it reads as a
/// 32-bit integer, else the runner's maximum, else the default.
pub open spec fn job_timeout_of(job_timeout: Option<Seq<char>>, runner_max: Option<i32>, default: i32) -> i32 {
    match job_timeout {
        Some(t) if parse_in_range(t, true, i32::MIN as int, i32::MAX as int) is Some =>
            parse_in_range(t, true, i32::MIN as int, i32::MAX as int)->0 as i32,
        _ => match runner_max {
            Some(m) => m,
            None => default,
        },
    }
}

/// The timeout of a job: job setting, then runner maximum, then default.
pub fn job_timeout(configured: Option<&str>, runner_max: Option<i32>, default: i32) -> (r: i32)
    ensures
        r == job_timeout_of(opt_str(configured), runner_max, default),
{
    if let Some(t) = configured {
        let cs = chars_of(t);
        if let Some(v) = parse_integer(&cs, true, -0x8000_0000, 0x7fff_ffff) {
            return v as i32;
        }
    }
    match runner_max {
        Some(m) => m,
        None => default,
    }
}

/// The view of an optional string slice.
pub open spec fn opt_str(o: Option<&str>) -> Option<Seq<char>> {
    match o {
        Some(s) => Some(s@),
        None => None,
    }
}

/// The prefix of the keys whose expiry marks a job's timeout.
pub open spec fn timeout_key_prefix() -> Seq<char> {
    "job:timeout:"@
}

/// The key whose expiry marks the timeout of a job.
pub fn timeout_key(job_id: i64) -> (r: String)
    ensures
        r@ == timeout_key_prefix() + signed_decimal_of(job_id as int),
{
    let d = string_of(&i64_to_decimal(job_id));
    join2("job:timeout:", d.as_str())
}

/// The job whose timeout an expired key marks, if it is such a key.
pub open spec fn timeout_job_of(key: Seq<char>) -> Option<i64> {
    if has_prefix(key, timeout_key_prefix()) {
        match parse_in_range(key.skip(12), true, i64::MIN as int, i64::MAX as int) {
            Some(v) => Some(v as i64),
            None => None,
        }
    } else {
        None
    }
}

/// Reads the job id of an expired timeout key.
pub fn parse_timeout_key(key: &str) -> (r: Option<i64>)
    ensures
        r == timeout_job_of(key@),
{
    let cs = chars_of(key);
    let p = chars_of("job:timeout:");
    proof {
        reveal_strlit("job:timeout:");
    }
    if !starts_with(&cs, &p) {
        return None;
    }
    let rest = slice_chars(&cs, 12, cs.len());
    assert(rest@ =~= key@.skip(12));
    match parse_integer(&rest, true, -0x8000_0000_0000_0000, 0x7fff_ffff_ffff_ffff) {
        Some(v) => Some(v as i64),
        None => None,
    }
}

/// A decimal digit character is a digit and has its value.
proof fn lemma_decimal_char(d: int)
    requires
        0 <= d < 10,
    ensures
        '0' <= decimal_char(d) <= '9',
        digit_value(decimal_char(d)) == d,
{
    if d == 0 {
        assert(decimal_char(d) == '0');
    } else if d == 1 {
        assert(decimal_char(d) == '1');
    } else if d == 2 {
        assert(decimal_char(d) == '2');
    } else if d == 3 {
        assert(decimal_char(d) == '3');
    } else if d == 4 {
        assert(decimal_char(d) == '4');
    } else if d == 5 {
        assert(decimal_char(d) == '5');
    } else if d == 6 {
        assert(decimal_char(d) == '6');
    } else if d == 7 {
        assert(decimal_char(d) == '7');
    } else if d == 8 {
        assert(decimal_char(d) == '8');
    } else {
        assert(decimal_char(d) == '9');
    }
}

/// The decimal writing of a number is made of digits and reads back as it.
pub proof fn lemma_decimal_reads_back(n: nat)
    ensures
        all_digits(decimal_of(n)),
        digits_value(decimal_of(n)) == n,
        decimal_of(n).len() >= 1,
    decreases n,
{
    if n < 10 {
        lemma_decimal_char(n as int);
        let d = decimal_of(n);
        assert(d.drop_last() =~= Seq::<char>::empty());
        assert(digits_value(d) == digits_value(d.drop_last()) * 10 + digit_value(d.last()));
    } else {
        lemma_decimal_reads_back(n / 10);
        lemma_decimal_char((n % 10) as int);
        let d = decimal_of(n);
        assert(d.drop_last() =~= decimal_of(n / 10));
        assert(d.last() == decimal_char((n % 10) as int));
        assert(n == (n / 10) * 10 + n % 10) by (nonlinear_arith);
        assert(digits_value(d) == digits_value(decimal_of(n / 10)) * 10 + digit_value(d.last()));
        assert forall|i: int| 0 <= i < d.len() implies '0' <= #[trigger] d[i] <= '9' by {
            if i < d.len() - 1 {
                assert(d[i] == decimal_of(n / 10)[i]);
            }
        }
    }
}

/// The decimal writing of an integer reads back as it.
pub proof fn lemma_signed_decimal_reads_back(n: int)
    ensures
        parsed_integer(signed_decimal_of(n), true) == Some(n),
{
    if n < 0 {
        let m = (-n) as nat;
        lemma_decimal_reads_back(m);
        let s = signed_decimal_of(n);
        assert(s.drop_first() =~= decimal_of(m));
    } else {
        let m = n as nat;
        lemma_decimal_reads_back(m);
        let s = decimal_of(m);
        assert('0' <= s[0] <= '9');
    }
}

/// The timeout key of a job names that job again.
pub proof fn law_timeout_key_round_trip(job_id: i64)
    ensures
        timeout_job_of(timeout_key_prefix() + signed_decimal_of(job_id as int)) == Some(job_id),
{
    reveal_strlit("job:timeout:");
    let key = timeout_key_prefix() + signed_decimal_of(job_id as int);
    assert(key.take(12) =~= timeout_key_prefix());
    assert(key.skip(12) =~= signed_decimal_of(job_id as int));
    lemma_signed_decimal_reads_back(job_id as int);
}

/// A timed-out job is failed by this instance only when it is still
/// running and no other instance watches it.
pub open spec fn timeout_applies_to(status: Seq<char>, watcher: Option<Seq<char>>, instance_id: Seq<char>) -> bool {
    status == "running"@ && match watcher {
        Some(w) => w == instance_id,
        None => true,
    }
}

/// Whether this instance fails a job whose timeout expired.
pub fn timeout_applies(status: &str, watcher: Option<&str>, instance_id: &str) -> (r: bool)
    ensures
        r == timeout_applies_to(status@, opt_str(watcher), instance_id@),
{
    if !str_eq(status, "running") {
        return false;
    }
    match watcher {
        Some(w) => str_eq(w, instance_id),
        None => true,
    }
}

/// Whole seconds in a span of nanoseconds, cut toward zero.
pub open spec fn whole_seconds(nanos: int) -> int {
    if nanos >= 0 {
        nanos / 1_000_000_000
    } else {
        -((-nanos) / 1_000_000_000)
    }
}

/// How long a timed-out job ran, in whole seconds cut toward zero (zero
/// when it never started); the start and now are in nanoseconds since the
/// Unix epoch.
pub fn running_seconds(started_at: Option<i128>, now: i128) -> (r: i64)
    requires
        started_at matches Some(s) ==> i128::MIN <= now - s <= i128::MAX && i64::MIN <= whole_seconds(now - s)
            <= i64::MAX,
    ensures
        r == (match started_at {
            Some(s) => whole_seconds(now - s),
            None => 0,
        }),
{
    match started_at {
        Some(s) => {
            let d = now - s;
            if d >= 0 {
                let q: i128 = d / 1_000_000_000;
                q as i64
            } else {
                assert(d > i128::MIN);
                let q: i128 = (-d) / 1_000_000_000;
                let r: i128 = -q;
                r as i64
            }
        },
        None => 0,
    }
}

/// The log lines appended to a job that timed out.
pub fn timeout_log(running_seconds: i64) -> (r: String)
    ensures
        r@ == "\n\n=== Job Timeout ===\nJob exceeded maximum execution time limit\nJob ran for "@
            + signed_decimal_of(running_seconds as int) + " seconds before being terminated\n"@,
{
    let d = string_of(&i64_to_decimal(running_seconds));
    join3(
        "\n\n=== Job Timeout ===\nJob exceeded maximum execution time limit\nJob ran for ",
        d.as_str(),
        " seconds before being terminated\n",
    )
}

} // verus!
