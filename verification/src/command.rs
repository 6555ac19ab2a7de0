//! The external commands of a deployment, planned as argument vectors.
//!
//! A planned command is never a line for a shell: the program and each
//! argument stand on their own, and the token travels in the child's
//! environment or on its standard input, never among the arguments.

use vstd::prelude::*;
use vstd::string::StringExecFns;
use crate::credentials::{Credentials, CredentialsView};
use crate::request::Mode;
use crate::text::{pairs_of, text_of, texts_of};

verus! {

/// Seconds that the source-control step may take.
pub const PULL_TIMEOUT_SECS: u64 = 300;

/// Seconds that the registry login may take.
pub const LOGIN_TIMEOUT_SECS: u64 = 60;

/// Seconds that the orchestrator may take.
pub const COMPOSE_TIMEOUT_SECS: u64 = 1800;

/// One external operation of a deployment.
#[derive(Clone, Copy, Debug, PartialEq, Eq, Hash, Structural)]
pub enum Step {
    /// Fetch and integrate the latest changes of the fixed branch.
    Pull,
    /// Rebuild and restart the project's containers.
    Rebuild,
    /// Authenticate to the registry.
    RegistryLogin,
    /// Pull the latest images and restart the project's containers.
    PullAndRestart,
}

/// The step that a deployment of the given mode begins with.
pub open spec fn first_step(mode: Mode) -> Step {
    match mode {
        Mode::Source => Step::Pull,
        Mode::Image => Step::RegistryLogin,
    }
}

/// The step that follows a step that succeeded, or `None` after the last.
pub open spec fn step_after(step: Step) -> Option<Step> {
    match step {
        Step::Pull => Some(Step::Rebuild),
        Step::RegistryLogin => Some(Step::PullAndRestart),
        Step::Rebuild => None,
        Step::PullAndRestart => None,
    }
}

/// Mathematical value of a [`PlannedCommand`].
pub struct CommandView {
    pub program: Seq<char>,
    pub args: Seq<Seq<char>>,
    pub working_dir: Option<Seq<char>>,
    pub env: Seq<(Seq<char>, Seq<char>)>,
    pub stdin: Option<Seq<char>>,
    pub timeout_secs: u64,
}

/// An external command, ready to be started without a shell: the program,
/// its arguments one by one, the directory to run it in, the variables to add
/// to its environment, the text to write to its standard input, and the
/// seconds after which it is given up.
#[derive(Clone, Debug, PartialEq, Eq)]
pub struct PlannedCommand {
    pub program: String,
    pub args: Vec<String>,
    pub working_dir: Option<String>,
    pub env: Vec<(String, String)>,
    pub stdin: Option<String>,
    pub timeout_secs: u64,
}

impl View for PlannedCommand {
    type V = CommandView;

    open spec fn view(&self) -> CommandView {
        CommandView {
            program: self.program@,
            args: texts_of(self.args@),
            working_dir: text_of(self.working_dir),
            env: pairs_of(self.env@),
            stdin: text_of(self.stdin),
            timeout_secs: self.timeout_secs,
        }
    }
}

/// The pull of the branch `main` from `origin`, in the project's directory.
/// The stored credential helpers are switched off for this one call, and a
/// helper that answers from the child's environment takes their place, so the
/// remote URL stays as it is and neither user nor token is an argument.
pub open spec fn pull_command(path: Seq<char>, credentials: CredentialsView) -> CommandView {
    CommandView {
        program: "git"@,
        args: seq![
            "-c"@,
            "credential.helper="@,
            "-c"@,
            "credential.helper=!f() { echo \"username=${GRAFT_HOOK_USER}\"; echo \"password=${GRAFT_HOOK_TOKEN}\"; }; f"@,
            "pull"@,
            "origin"@,
            "main"@,
        ],
        working_dir: Some(path),
        env: seq![
            ("GRAFT_HOOK_USER"@, credentials.user),
            ("GRAFT_HOOK_TOKEN"@, credentials.token),
        ],
        stdin: None,
        timeout_secs: PULL_TIMEOUT_SECS,
    }
}

/// The orchestrator's `up`, detached and forcing a rebuild, in the project's
/// directory.
pub open spec fn rebuild_command(path: Seq<char>) -> CommandView {
    CommandView {
        program: "docker"@,
        args: seq!["compose"@, "up"@, "-d"@, "--build"@],
        working_dir: Some(path),
        env: Seq::empty(),
        stdin: None,
        timeout_secs: COMPOSE_TIMEOUT_SECS,
    }
}

/// The login to the resolved registry as the resolved user. The token is
/// written to the command's standard input.
pub open spec fn login_command(credentials: CredentialsView) -> CommandView {
    CommandView {
        program: "docker"@,
        args: seq!["login"@, credentials.registry, "-u"@, credentials.user, "--password-stdin"@],
        working_dir: None,
        env: Seq::empty(),
        stdin: Some(credentials.token),
        timeout_secs: LOGIN_TIMEOUT_SECS,
    }
}

/// The orchestrator's `up`, detached and forcing a pull of the images, in the
/// project's directory.
pub open spec fn pull_and_restart_command(path: Seq<char>) -> CommandView {
    CommandView {
        program: "docker"@,
        args: seq!["compose"@, "up"@, "-d"@, "--pull"@, "always"@],
        working_dir: Some(path),
        env: Seq::empty(),
        stdin: None,
        timeout_secs: COMPOSE_TIMEOUT_SECS,
    }
}

/// The command of a step, for a project's directory and resolved credentials.
pub open spec fn command_of(step: Step, path: Seq<char>, credentials: CredentialsView)
    -> CommandView {
    match step {
        Step::Pull => pull_command(path, credentials),
        Step::Rebuild => rebuild_command(path),
        Step::RegistryLogin => login_command(credentials),
        Step::PullAndRestart => pull_and_restart_command(path),
    }
}

/// The token is no argument of any command, nor its program or directory:
/// credentials that differ in the token alone give the same program, the same
/// arguments and the same directory.
pub proof fn lemma_token_is_no_argument(
    step: Step,
    path: Seq<char>,
    one: CredentialsView,
    other: CredentialsView,
)
    requires
        one.user == other.user,
        one.registry == other.registry,
    ensures
        command_of(step, path, one).program == command_of(step, path, other).program,
        command_of(step, path, one).args == command_of(step, path, other).args,
        command_of(step, path, one).working_dir == command_of(step, path, other).working_dir,
{
}

/// No directory and no credentials add, remove or split an argument: the
/// program, the count of arguments and the time limit of a command depend on
/// its step alone.
pub proof fn lemma_command_shape(
    step: Step,
    path: Seq<char>,
    credentials: CredentialsView,
    other_path: Seq<char>,
    other: CredentialsView,
)
    ensures
        command_of(step, path, credentials).program == command_of(
            step,
            other_path,
            other,
        ).program,
        command_of(step, path, credentials).args.len() == command_of(
            step,
            other_path,
            other,
        ).args.len(),
        command_of(step, path, credentials).timeout_secs == command_of(
            step,
            other_path,
            other,
        ).timeout_secs,
{
}

impl Step {
    /// The step that a deployment of the given mode begins with.
    pub fn first(mode: Mode) -> (step: Step)
        ensures
            step == first_step(mode),
    {
        match mode {
            Mode::Source => Step::Pull,
            Mode::Image => Step::RegistryLogin,
        }
    }

    /// The step that follows this one once it has succeeded, or `None` after
    /// the last.
    pub fn next(self) -> (following: Option<Step>)
        ensures
            following == step_after(self),
    {
        match self {
            Step::Pull => Some(Step::Rebuild),
            Step::RegistryLogin => Some(Step::PullAndRestart),
            Step::Rebuild => None,
            Step::PullAndRestart => None,
        }
    }
}

/// An orchestrator call in the project's directory, with the given arguments.
fn compose(path: &String, args: Vec<String>) -> (command: PlannedCommand)
    ensures
        command@ == (CommandView {
            program: "docker"@,
            args: texts_of(args@),
            working_dir: Some(path@),
            env: Seq::empty(),
            stdin: None,
            timeout_secs: COMPOSE_TIMEOUT_SECS,
        }),
{
    let command = PlannedCommand {
        program: String::from_str("docker"),
        args,
        working_dir: Some(path.clone()),
        env: Vec::new(),
        stdin: None,
        timeout_secs: COMPOSE_TIMEOUT_SECS,
    };
    assert(command@.env =~= Seq::empty());
    command
}

/// Plans the command of a step.
pub fn plan(step: Step, path: &String, credentials: &Credentials) -> (command: PlannedCommand)
    ensures
        command@ == command_of(step, path@, credentials@),
{
    match step {
        Step::Pull => {
            let mut args: Vec<String> = Vec::new();
            args.push(String::from_str("-c"));
            args.push(String::from_str("credential.helper="));
            args.push(String::from_str("-c"));
            args.push(
                String::from_str(
                    "credential.helper=!f() { echo \"username=${GRAFT_HOOK_USER}\"; echo \"password=${GRAFT_HOOK_TOKEN}\"; }; f",
                ),
            );
            args.push(String::from_str("pull"));
            args.push(String::from_str("origin"));
            args.push(String::from_str("main"));
            let mut env: Vec<(String, String)> = Vec::new();
            env.push((String::from_str("GRAFT_HOOK_USER"), credentials.user.clone()));
            env.push((String::from_str("GRAFT_HOOK_TOKEN"), credentials.token.clone()));
            let command = PlannedCommand {
                program: String::from_str("git"),
                args,
                working_dir: Some(path.clone()),
                env,
                stdin: None,
                timeout_secs: PULL_TIMEOUT_SECS,
            };
            assert(command@.args =~= pull_command(path@, credentials@).args);
            assert(command@.env =~= pull_command(path@, credentials@).env);
            command
        },
        Step::Rebuild => {
            let mut args: Vec<String> = Vec::new();
            args.push(String::from_str("compose"));
            args.push(String::from_str("up"));
            args.push(String::from_str("-d"));
            args.push(String::from_str("--build"));
            let command = compose(path, args);
            assert(command@.args =~= rebuild_command(path@).args);
            command
        },
        Step::RegistryLogin => {
            let mut args: Vec<String> = Vec::new();
            args.push(String::from_str("login"));
            args.push(credentials.registry.clone());
            args.push(String::from_str("-u"));
            args.push(credentials.user.clone());
            args.push(String::from_str("--password-stdin"));
            let command = PlannedCommand {
                program: String::from_str("docker"),
                args,
                working_dir: None,
                env: Vec::new(),
                stdin: Some(credentials.token.clone()),
                timeout_secs: LOGIN_TIMEOUT_SECS,
            };
            assert(command@.args =~= login_command(credentials@).args);
            assert(command@.env =~= login_command(credentials@).env);
            command
        },
        Step::PullAndRestart => {
            let mut args: Vec<String> = Vec::new();
            args.push(String::from_str("compose"));
            args.push(String::from_str("up"));
            args.push(String::from_str("-d"));
            args.push(String::from_str("--pull"));
            args.push(String::from_str("always"));
            let command = compose(path, args);
            assert(command@.args =~= pull_and_restart_command(path@).args);
            command
        },
    }
}

} // verus!
