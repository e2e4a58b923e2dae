use gitfox::runner::{
    assemble_job, default_job_timeout, job_timeout, new_runner_auth_token, new_runner_settings, new_runner_token,
    parse_timeout_key, pipeline_finished, pipeline_status, registration_settings, running_seconds, runner_websocket_url,
    timeout_applies, timeout_key, timeout_log, timer_action, ClaimedJob, CreateRunnerRequest, JobConfig,
    RegisterRunnerRequest, RunnerManager, TimerAction, WhenCondition,
};

fn jobs(v: &[(&str, bool)]) -> Vec<(String, bool)> {
    v.iter().map(|(s, b)| (s.to_string(), *b)).collect()
}

#[test]
fn when_condition_from_text() {
    assert_eq!(WhenCondition::from_str("on_failure"), WhenCondition::OnFailure);
    assert_eq!(WhenCondition::from_str("always"), WhenCondition::Always);
    assert_eq!(WhenCondition::from_str("manual"), WhenCondition::Manual);
    assert_eq!(WhenCondition::from_str("on_success"), WhenCondition::OnSuccess);
    assert_eq!(WhenCondition::from_str("whenever"), WhenCondition::OnSuccess);
}

#[test]
fn pipeline_without_jobs_has_no_status() {
    assert_eq!(pipeline_status(&jobs(&[])), None);
}

#[test]
fn running_job_keeps_pipeline_running() {
    assert_eq!(pipeline_status(&jobs(&[("success", false), ("running", false)])), Some("running"));
    assert_eq!(pipeline_status(&jobs(&[("pending", false), ("running", false), ("failed", false)])), Some("running"));
}

#[test]
fn pipeline_status_order() {
    assert_eq!(pipeline_status(&jobs(&[("pending", false), ("canceled", false)])), Some("pending"));
    assert_eq!(pipeline_status(&jobs(&[("canceled", false), ("failed", false)])), Some("canceled"));
    assert_eq!(pipeline_status(&jobs(&[("failed", false), ("success", false)])), Some("failed"));
    assert_eq!(pipeline_status(&jobs(&[("failed", true), ("success", false), ("skipped", false)])), Some("success"));
    assert_eq!(pipeline_status(&jobs(&[("success", false), ("created", false)])), Some("pending"));
}

#[test]
fn finished_pipeline_states() {
    assert!(pipeline_finished("success"));
    assert!(pipeline_finished("failed"));
    assert!(pipeline_finished("canceled"));
    assert!(!pipeline_finished("running"));
    assert!(!pipeline_finished("skipped"));
}

#[test]
fn timer_actions_by_status() {
    assert_eq!(timer_action("running"), TimerAction::Start);
    for s in ["success", "failed", "canceled", "skipped"] {
        assert_eq!(timer_action(s), TimerAction::Stop);
    }
    assert_eq!(timer_action("pending"), TimerAction::Keep);
}

#[test]
fn job_timeout_priority() {
    assert_eq!(job_timeout(Some("120"), Some(600), 3600), 120);
    assert_eq!(job_timeout(Some("abc"), Some(600), 3600), 600);
    assert_eq!(job_timeout(None, None, 3600), 3600);
    assert_eq!(job_timeout(Some("99999999999"), None, 7), 7);
    assert_eq!(job_timeout(Some("-5"), None, 7), -5);
}

#[test]
fn default_timeout_from_configuration() {
    assert_eq!(default_job_timeout(None), 3600);
    assert_eq!(default_job_timeout(Some(7200)), 7200);
    assert_eq!(default_job_timeout(Some(4294967297)), 1);
}

#[test]
fn timeout_key_round_trip() {
    assert_eq!(timeout_key(42), "job:timeout:42");
    for id in [0i64, 42, -5, i64::MAX, i64::MIN] {
        assert_eq!(parse_timeout_key(&timeout_key(id)), Some(id));
    }
    assert_eq!(parse_timeout_key("job:timeout:x"), None);
    assert_eq!(parse_timeout_key("other:timeout:1"), None);
    assert_eq!(parse_timeout_key("job:timeout:"), None);
}

#[test]
fn timeout_responsibility() {
    assert!(timeout_applies("running", None, "a:1"));
    assert!(timeout_applies("running", Some("a:1"), "a:1"));
    assert!(!timeout_applies("running", Some("b:2"), "a:1"));
    assert!(!timeout_applies("success", None, "a:1"));
}

#[test]
fn running_time_and_log() {
    assert_eq!(running_seconds(Some(100_000_000_000), 160_000_000_000), 60);
    assert_eq!(running_seconds(Some(100_700_000_000), 105_200_000_000), 4);
    assert_eq!(running_seconds(Some(105_200_000_000), 100_700_000_000), -4);
    assert_eq!(running_seconds(None, 160), 0);
    assert_eq!(
        timeout_log(60),
        "\n\n=== Job Timeout ===\nJob exceeded maximum execution time limit\nJob ran for 60 seconds before being terminated\n"
    );
}

fn claimed(when: Option<&str>, allow: Option<bool>) -> ClaimedJob {
    ClaimedJob {
        id: 7,
        pipeline_id: 3,
        project_id: 9,
        name: "build".to_string(),
        stage: "test".to_string(),
        allow_failure: allow,
        when_condition: when.map(|s| s.to_string()),
        namespace_path: "team".to_string(),
        project_name: "app".to_string(),
        ref_name: "main".to_string(),
        commit_sha: "abc123".to_string(),
    }
}

fn config(vars: Option<Vec<(String, String)>>) -> JobConfig {
    JobConfig {
        script: vec!["make".to_string()],
        variables: vars,
        artifacts: None,
        cache: None,
        retry: None,
        timeout: Some(30),
        tags: None,
    }
}

#[test]
fn assembled_job_defaults() {
    let j = assemble_job(claimed(None, None), config(None));
    assert_eq!(j.id, 7);
    assert_eq!(j.pipeline_id, 3);
    assert_eq!(j.project_id, 9);
    assert_eq!(j.script, vec!["make".to_string()]);
    assert!(j.variables.is_empty());
    assert!(!j.allow_failure);
    assert_eq!(j.when, WhenCondition::OnSuccess);
    assert_eq!(j.repository_url, "http://localhost:8081/team/app.git");
    assert_eq!(j.timeout, Some(30));
    assert_eq!(j.before_sha, "");
}

#[test]
fn assembled_job_keeps_settings() {
    let j = assemble_job(
        claimed(Some("manual"), Some(true)),
        config(Some(vec![("A".to_string(), "1".to_string())])),
    );
    assert!(j.allow_failure);
    assert_eq!(j.when, WhenCondition::Manual);
    assert_eq!(j.variables, vec![("A".to_string(), "1".to_string())]);
}

#[test]
fn registration_defaults() {
    let req = RegisterRunnerRequest {
        token: "t".to_string(),
        name: "r".to_string(),
        description: None,
        tags: None,
        executor: None,
    };
    let (tags, exec) = registration_settings(&req);
    assert!(tags.is_empty());
    assert_eq!(exec, "shell");
    let req = RegisterRunnerRequest {
        token: "t".to_string(),
        name: "r".to_string(),
        description: None,
        tags: Some(vec!["linux".to_string()]),
        executor: Some("docker".to_string()),
    };
    let (tags, exec) = registration_settings(&req);
    assert_eq!(tags, vec!["linux".to_string()]);
    assert_eq!(exec, "docker");
}

#[test]
fn new_runner_defaults() {
    let req = CreateRunnerRequest {
        name: "r".to_string(),
        description: None,
        tags: None,
        executor: None,
        run_untagged: None,
        locked: None,
        maximum_timeout: None,
    };
    let s = new_runner_settings(&req);
    assert!(s.tags.is_empty());
    assert_eq!(s.executor, "shell");
    assert!(s.run_untagged);
    assert!(!s.locked);
}

#[test]
fn runner_tokens_have_their_shapes() {
    let t = new_runner_token();
    assert!(t.starts_with("glrt-"));
    assert_eq!(t.len(), 5 + 32);
    let a = new_runner_auth_token();
    assert!(a.starts_with("glrt-auth-"));
    assert_eq!(a.len(), 10 + 32);
    assert!(a[10..].chars().all(|c| c.is_ascii_hexdigit() && !c.is_ascii_uppercase()));
    assert_eq!(runner_websocket_url(), "ws://localhost:8081/api/v1/runner/connect");
}

#[test]
fn runner_manager_add_get_remove() {
    let mut m: RunnerManager<u32> = RunnerManager::new();
    assert_eq!(m.active_count(), 0);
    m.add_runner(1, 10);
    m.add_runner(2, 20);
    assert_eq!(m.get_runner(1), Some(&10));
    assert_eq!(m.active_count(), 2);
    m.add_runner(1, 11);
    assert_eq!(m.get_runner(1), Some(&11));
    assert_eq!(m.active_count(), 2);
    m.remove_runner(1);
    assert_eq!(m.get_runner(1), None);
    assert_eq!(m.get_runner(2), Some(&20));
    assert_eq!(m.active_count(), 1);
}
