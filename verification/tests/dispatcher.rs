use graft_hook::config::load_registry;
use graft_hook::credentials::Defaults;
use graft_hook::dispatcher::Dispatcher;
use graft_hook::outcome::{DeploymentOutcome, FailureReason};
use graft_hook::registry::{ProjectConfig, ProjectRegistry};
use graft_hook::request::RawRequest;
use graft_hook::strategy::{DeployState, StepEvent};

const OK: StepEvent = StepEvent::Exited { success: true };
const FAILED: StepEvent = StepEvent::Exited { success: false };

fn dispatcher(user: Option<&str>, token: Option<&str>) -> Dispatcher {
    let registry = ProjectRegistry::from_entries(vec![ProjectConfig {
        name: "blog".to_string(),
        path: "/srv/blog".to_string(),
    }])
    .unwrap();
    Dispatcher::new(
        registry,
        Defaults { user: user.map(str::to_string), token: token.map(str::to_string) },
    )
}

fn raw(project: &str, mode: &str, user: Option<&str>, token: Option<&str>) -> RawRequest {
    RawRequest {
        project: Some(project.to_string()),
        mode: Some(mode.to_string()),
        user: user.map(str::to_string),
        token: token.map(str::to_string),
        registry: None,
    }
}

fn failure(reason: FailureReason) -> DeployState {
    DeployState::Finished(DeploymentOutcome::Failure { reason, timed_out: false })
}

#[test]
fn source_deployment_succeeds() {
    let transcript = dispatcher(None, None)
        .replay(raw("blog", "repo", Some("alice"), Some("tok")), &vec![OK, OK]);
    assert_eq!(
        transcript.state,
        DeployState::Finished(DeploymentOutcome::Success(
            "source synced and containers rebuilt".to_string()
        ))
    );
    assert_eq!(transcript.commands.len(), 2);
    assert_eq!(transcript.commands[0].program, "git");
    assert_eq!(transcript.commands[0].working_dir, Some("/srv/blog".to_string()));
    assert_eq!(
        transcript.commands[0].env,
        vec![
            ("GRAFT_HOOK_USER".to_string(), "alice".to_string()),
            ("GRAFT_HOOK_TOKEN".to_string(), "tok".to_string()),
        ]
    );
    assert_eq!(transcript.commands[1].program, "docker");
    assert_eq!(transcript.commands[1].args, vec!["compose", "up", "-d", "--build"]);
    assert_eq!(transcript.commands[1].working_dir, Some("/srv/blog".to_string()));
}

#[test]
fn image_deployment_without_credentials_runs_nothing() {
    let transcript = dispatcher(None, None).replay(raw("blog", "image", None, None), &vec![OK, OK]);
    assert_eq!(transcript.state, failure(FailureReason::MissingCredentials));
    assert!(transcript.commands.is_empty());
}

#[test]
fn unknown_project_runs_nothing() {
    let transcript =
        dispatcher(None, None).replay(raw("unknown", "repo", Some("a"), Some("t")), &vec![OK, OK]);
    assert_eq!(transcript.state, failure(FailureReason::ProjectNotFound));
    assert!(transcript.commands.is_empty());
}

#[test]
fn image_pull_failure_after_login_is_rebuild_failed() {
    let transcript =
        dispatcher(None, None).replay(raw("blog", "image", Some("a"), Some("t")), &vec![OK, FAILED]);
    assert_eq!(transcript.state, failure(FailureReason::RebuildFailed));
    let logins = transcript
        .commands
        .iter()
        .filter(|command| command.args.first().map(String::as_str) == Some("login"))
        .count();
    assert_eq!(logins, 1);
    assert_eq!(transcript.commands.len(), 2);
    assert_eq!(transcript.commands[0].args, vec!["login", "ghcr.io", "-u", "a", "--password-stdin"]);
    assert_eq!(transcript.commands[0].stdin, Some("t".to_string()));
    assert_eq!(transcript.commands[1].args, vec!["compose", "up", "-d", "--pull", "always"]);
}

#[test]
fn image_deployment_succeeds() {
    let mut request = raw("blog", "image", Some("a"), Some("t"));
    request.registry = Some("quay.io".to_string());
    let transcript = dispatcher(None, None).replay(request, &vec![OK, OK]);
    assert_eq!(
        transcript.state,
        DeployState::Finished(DeploymentOutcome::Success(
            "images pulled and containers restarted".to_string()
        ))
    );
    assert_eq!(transcript.commands[0].args[1], "quay.io");
}

#[test]
fn same_request_twice_succeeds_twice() {
    let dispatcher = dispatcher(None, None);
    let first = dispatcher.replay(raw("blog", "repo", Some("alice"), Some("tok")), &vec![OK, OK]);
    let second = dispatcher.replay(raw("blog", "repo", Some("alice"), Some("tok")), &vec![OK, OK]);
    assert!(first.state.outcome().unwrap().is_success());
    assert!(second.state.outcome().unwrap().is_success());
    assert_eq!(first, second);
}

#[test]
fn missing_required_field_is_invalid_request() {
    let dispatcher = dispatcher(Some("du"), Some("dt"));
    let mut request = raw("blog", "repo", None, None);
    request.project = None;
    assert_eq!(dispatcher.start(request), failure(FailureReason::InvalidRequest));
    let mut request = raw("blog", "repo", None, None);
    request.mode = None;
    assert_eq!(dispatcher.start(request), failure(FailureReason::InvalidRequest));
}

#[test]
fn unrecognised_mode_is_invalid_request() {
    let transcript =
        dispatcher(Some("du"), Some("dt")).replay(raw("blog", "binary", None, None), &vec![OK, OK]);
    assert_eq!(transcript.state, failure(FailureReason::InvalidRequest));
    assert!(transcript.commands.is_empty());
}

#[test]
fn shape_is_checked_before_the_project() {
    let state = dispatcher(None, None).start(raw("unknown", "binary", Some("a"), Some("t")));
    assert_eq!(state, failure(FailureReason::InvalidRequest));
}

#[test]
fn project_is_checked_before_the_credentials() {
    let state = dispatcher(None, None).start(raw("unknown", "image", None, None));
    assert_eq!(state, failure(FailureReason::ProjectNotFound));
}

#[test]
fn defaults_serve_a_request_without_credentials() {
    let dispatcher = dispatcher(Some("du"), Some("dt"));
    let transcript = dispatcher.replay(raw("blog", "image", None, None), &vec![OK, OK]);
    assert!(transcript.state.outcome().unwrap().is_success());
    assert_eq!(transcript.commands[0].args, vec!["login", "ghcr.io", "-u", "du", "--password-stdin"]);
    assert_eq!(transcript.commands[0].stdin, Some("dt".to_string()));
    assert_eq!(dispatcher.defaults().user, Some("du".to_string()));
    assert_eq!(dispatcher.registry().len(), 1);
}

#[test]
fn loaded_registry_serves_the_dispatcher() {
    let registry = load_registry(r#"{"blog": "/srv/blog", "shop": "/srv/shop"}"#).unwrap();
    let dispatcher = Dispatcher::new(registry, Defaults { user: None, token: None });
    let state = dispatcher.start(raw("shop", "repo", Some("a"), Some("t")));
    match state {
        DeployState::Running { path, .. } => assert_eq!(path, "/srv/shop"),
        DeployState::Finished(outcome) => panic!("{:?}", outcome),
    }
}

#[test]
fn step_by_step_dispatch_matches_the_replay() {
    let dispatcher = dispatcher(None, None);
    let mut state = dispatcher.start(raw("blog", "image", Some("a"), Some("t")));
    let mut issued = Vec::new();
    let mut events = vec![OK, StepEvent::TimedOut].into_iter();
    while let Some(command) = state.pending_command() {
        issued.push(command);
        state = state.advance(events.next().unwrap());
    }
    let transcript =
        dispatcher.replay(raw("blog", "image", Some("a"), Some("t")), &vec![OK, StepEvent::TimedOut]);
    assert_eq!(issued, transcript.commands);
    assert_eq!(state, transcript.state);
    assert_eq!(
        state,
        DeployState::Finished(DeploymentOutcome::Failure {
            reason: FailureReason::RebuildFailed,
            timed_out: true
        })
    );
}
