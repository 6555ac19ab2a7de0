use graft_hook::command::{
    plan, PlannedCommand, Step, COMPOSE_TIMEOUT_SECS, LOGIN_TIMEOUT_SECS, PULL_TIMEOUT_SECS,
};
use graft_hook::credentials::Credentials;
use graft_hook::request::Mode;

fn credentials() -> Credentials {
    Credentials {
        user: "alice".to_string(),
        token: "s3cr3t; rm -rf /".to_string(),
        registry: "ghcr.io".to_string(),
    }
}

fn strings(items: &[&str]) -> Vec<String> {
    items.iter().map(|item| item.to_string()).collect()
}

#[test]
fn pull_is_planned_with_an_environment_helper() {
    let command = plan(Step::Pull, &"/srv/blog".to_string(), &credentials());
    assert_eq!(
        command,
        PlannedCommand {
            program: "git".to_string(),
            args: strings(&[
                "-c",
                "credential.helper=",
                "-c",
                "credential.helper=!f() { echo \"username=${GRAFT_HOOK_USER}\"; echo \"password=${GRAFT_HOOK_TOKEN}\"; }; f",
                "pull",
                "origin",
                "main",
            ]),
            working_dir: Some("/srv/blog".to_string()),
            env: vec![
                ("GRAFT_HOOK_USER".to_string(), "alice".to_string()),
                ("GRAFT_HOOK_TOKEN".to_string(), "s3cr3t; rm -rf /".to_string()),
            ],
            stdin: None,
            timeout_secs: 300,
        }
    );
}

#[test]
fn rebuild_is_planned_in_the_project_directory() {
    let command = plan(Step::Rebuild, &"/srv/blog".to_string(), &credentials());
    assert_eq!(
        command,
        PlannedCommand {
            program: "docker".to_string(),
            args: strings(&["compose", "up", "-d", "--build"]),
            working_dir: Some("/srv/blog".to_string()),
            env: Vec::new(),
            stdin: None,
            timeout_secs: 1800,
        }
    );
}

#[test]
fn login_is_planned_with_the_token_on_stdin() {
    let command = plan(Step::RegistryLogin, &"/srv/blog".to_string(), &credentials());
    assert_eq!(
        command,
        PlannedCommand {
            program: "docker".to_string(),
            args: strings(&["login", "ghcr.io", "-u", "alice", "--password-stdin"]),
            working_dir: None,
            env: Vec::new(),
            stdin: Some("s3cr3t; rm -rf /".to_string()),
            timeout_secs: 60,
        }
    );
}

#[test]
fn pull_and_restart_is_planned_in_the_project_directory() {
    let command = plan(Step::PullAndRestart, &"/srv/my blog".to_string(), &credentials());
    assert_eq!(
        command,
        PlannedCommand {
            program: "docker".to_string(),
            args: strings(&["compose", "up", "-d", "--pull", "always"]),
            working_dir: Some("/srv/my blog".to_string()),
            env: Vec::new(),
            stdin: None,
            timeout_secs: 1800,
        }
    );
}

#[test]
fn token_is_never_an_argument() {
    let credentials = credentials();
    for step in [Step::Pull, Step::Rebuild, Step::RegistryLogin, Step::PullAndRestart] {
        let command = plan(step, &"/srv/blog".to_string(), &credentials);
        assert!(!command.program.contains(&credentials.token));
        for arg in &command.args {
            assert!(!arg.contains(&credentials.token), "{:?}", step);
        }
    }
}

#[test]
fn arguments_do_not_depend_on_the_token() {
    let one = credentials();
    let mut other = credentials();
    other.token = "another".to_string();
    for step in [Step::Pull, Step::Rebuild, Step::RegistryLogin, Step::PullAndRestart] {
        let first = plan(step, &"/srv/blog".to_string(), &one);
        let second = plan(step, &"/srv/blog".to_string(), &other);
        assert_eq!(first.program, second.program);
        assert_eq!(first.args, second.args);
        assert_eq!(first.working_dir, second.working_dir);
    }
}

#[test]
fn steps_follow_each_other_by_mode() {
    assert_eq!(Step::first(Mode::Source), Step::Pull);
    assert_eq!(Step::first(Mode::Image), Step::RegistryLogin);
    assert_eq!(Step::Pull.next(), Some(Step::Rebuild));
    assert_eq!(Step::RegistryLogin.next(), Some(Step::PullAndRestart));
    assert_eq!(Step::Rebuild.next(), None);
    assert_eq!(Step::PullAndRestart.next(), None);
}

#[test]
fn time_limits_are_fixed() {
    assert_eq!(PULL_TIMEOUT_SECS, 300);
    assert_eq!(LOGIN_TIMEOUT_SECS, 60);
    assert_eq!(COMPOSE_TIMEOUT_SECS, 1800);
}
