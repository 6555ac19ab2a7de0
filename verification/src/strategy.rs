//! The two deployment strategies as one state machine.
//!
//! A deployment is either running, about to issue the command of a step, or
//! finished with its outcome. The caller runs the pending command and reports
//! how it ended; the machine answers with the next state. The first failure
//! finishes the deployment: nothing is retried, and no later step is planned.

use vstd::prelude::*;
use vstd::string::StringExecFns;
use crate::command::{
    command_of, first_step, login_command, plan, pull_and_restart_command, pull_command,
    rebuild_command, step_after, CommandView, PlannedCommand, Step,
};
use crate::credentials::{resolve, resolved, Credentials, CredentialsView, Defaults, DefaultsView};
use crate::outcome::{failed, DeploymentOutcome, FailureReason, OutcomeView};
use crate::request::{DeploymentRequest, Mode, RequestView};

verus! {

/// How a command ended, as its executor reports it.
#[derive(Clone, Copy, Debug, PartialEq, Eq, Hash, Structural)]
pub enum StepEvent {
    /// The process ran to its end; `success` tells whether it exited with
    /// success.
    Exited { success: bool },
    /// The process could not be started.
    SpawnError,
    /// The process was given up after its time limit.
    TimedOut,
}

/// The event of a command that ran and exited with success.
pub open spec fn succeeded(event: StepEvent) -> bool {
    event == (StepEvent::Exited { success: true })
}

/// The message of a deployment whose last step was `step`.
pub open spec fn success_text(step: Step) -> Seq<char> {
    match step {
        Step::Pull | Step::Rebuild => "source synced and containers rebuilt"@,
        Step::RegistryLogin | Step::PullAndRestart => "images pulled and containers restarted"@,
    }
}

/// The outcome of a deployment whose step `step` ended with an event other
/// than success.
///
/// A failed source-control step is `SourceSyncFailed` and a failed login is
/// `RegistryAuthFailed`, however they failed. An orchestrator step that ran
/// and failed, or ran out of time, is `RebuildFailed`; one that could not be
/// started is `ExecutionError`.
pub open spec fn failure_of(step: Step, event: StepEvent) -> OutcomeView {
    let timed_out = event is TimedOut;
    match step {
        Step::Pull => OutcomeView::Failure { reason: FailureReason::SourceSyncFailed, timed_out },
        Step::RegistryLogin => OutcomeView::Failure {
            reason: FailureReason::RegistryAuthFailed,
            timed_out,
        },
        Step::Rebuild | Step::PullAndRestart => if event is SpawnError {
            failed(FailureReason::ExecutionError)
        } else {
            OutcomeView::Failure { reason: FailureReason::RebuildFailed, timed_out }
        },
    }
}

/// Mathematical value of a [`DeployState`].
pub enum StateView {
    Running { step: Step, path: Seq<char>, credentials: CredentialsView },
    Finished(OutcomeView),
}

/// The state of one deployment.
#[derive(Clone, Debug, PartialEq, Eq)]
pub enum DeployState {
    /// The command of `step` is to be run next, in the project's directory
    /// `path` and with the resolved credentials.
    Running { step: Step, path: String, credentials: Credentials },
    /// The deployment has ended with this outcome.
    Finished(DeploymentOutcome),
}

impl View for DeployState {
    type V = StateView;

    open spec fn view(&self) -> StateView {
        match self {
            DeployState::Running { step, path, credentials } => StateView::Running {
                step: *step,
                path: path@,
                credentials: credentials@,
            },
            DeployState::Finished(outcome) => StateView::Finished(outcome@),
        }
    }
}

/// The state in which the deployment of a request begins, once its project's
/// directory is known: finished with `MissingCredentials` where the
/// credentials do not resolve, else about to run the first step of the mode.
pub open spec fn started(
    mode: Mode,
    path: Seq<char>,
    request: RequestView,
    defaults: DefaultsView,
) -> StateView {
    match resolved(request, defaults) {
        Some(credentials) => StateView::Running { step: first_step(mode), path, credentials },
        None => StateView::Finished(failed(FailureReason::MissingCredentials)),
    }
}

/// The command that a state waits for: the command of its step while it is
/// running, none once it has finished.
pub open spec fn pending(state: StateView) -> Option<CommandView> {
    match state {
        StateView::Running { step, path, credentials } => Some(
            command_of(step, path, credentials),
        ),
        StateView::Finished(_) => None,
    }
}

/// The state after the pending command ended with `event`.
///
/// After a success the next step is pending, or the deployment has finished
/// with the success message where the step was the last. After any other
/// event the deployment has finished with the failure of that step. A
/// finished state stays as it is.
pub open spec fn advanced(state: StateView, event: StepEvent) -> StateView {
    match state {
        StateView::Running { step, path, credentials } => if succeeded(event) {
            match step_after(step) {
                Some(following) => StateView::Running { step: following, path, credentials },
                None => StateView::Finished(OutcomeView::Success(success_text(step))),
            }
        } else {
            StateView::Finished(failure_of(step, event))
        },
        StateView::Finished(outcome) => StateView::Finished(outcome),
    }
}

/// Mathematical value of a [`Transcript`].
pub struct TranscriptView {
    pub state: StateView,
    pub commands: Seq<CommandView>,
}

/// What a deployment does when its commands end as `events` say, one event
/// for each command in turn: the commands that it issues, in order, and the
/// state that it reaches. It stops at the first finished state, or where the
/// events run out; events that are left over are not looked at.
pub open spec fn run(state: StateView, events: Seq<StepEvent>) -> TranscriptView
    decreases events.len(),
{
    if state is Finished || events.len() == 0 {
        TranscriptView { state, commands: Seq::empty() }
    } else {
        let rest = run(advanced(state, events[0]), events.skip(1));
        TranscriptView { state: rest.state, commands: seq![pending(state)->0] + rest.commands }
    }
}

/// A finished deployment issues no command and stays as it is, whatever
/// events are offered to it.
pub proof fn lemma_finished_runs_nothing(state: StateView, events: Seq<StepEvent>)
    requires
        state is Finished,
    ensures
        run(state, events).commands == Seq::<CommandView>::empty(),
        run(state, events).state == state,
{
}

/// The first failure ends a deployment: where the pending command does not
/// end with success, that command is the only one issued, however many events
/// follow, and the deployment has finished with the failure of its step.
pub proof fn lemma_first_failure_ends_run(state: StateView, events: Seq<StepEvent>)
    requires
        state is Running,
        events.len() > 0,
        !succeeded(events[0]),
    ensures
        run(state, events).commands == seq![pending(state)->0],
        run(state, events).state == StateView::Finished(failure_of(state->step, events[0])),
{
    let after = advanced(state, events[0]);
    lemma_finished_runs_nothing(after, events.skip(1));
    assert(seq![pending(state)->0] + Seq::<CommandView>::empty() =~= seq![pending(state)->0]);
}

/// A pull that fails ends the deployment before the rebuild: the pull is the
/// only command issued, and the outcome is `SourceSyncFailed`.
pub proof fn lemma_failed_pull_skips_rebuild(
    path: Seq<char>,
    credentials: CredentialsView,
    events: Seq<StepEvent>,
)
    requires
        events.len() > 0,
        !succeeded(events[0]),
    ensures
        ({
            let state = StateView::Running { step: Step::Pull, path, credentials };
            &&& run(state, events).commands == seq![command_of(Step::Pull, path, credentials)]
            &&& run(state, events).state == StateView::Finished(
                OutcomeView::Failure {
                    reason: FailureReason::SourceSyncFailed,
                    timed_out: events[0] is TimedOut,
                },
            )
        }),
{
    lemma_first_failure_ends_run(
        StateView::Running { step: Step::Pull, path, credentials },
        events,
    );
}

/// A deployment whose first step succeeds issues the two commands of its
/// mode, each once and in order, and finishes with its second step: with the
/// success message of the mode where that step succeeded too, else with the
/// failure of that step.
pub proof fn lemma_two_steps(
    mode: Mode,
    path: Seq<char>,
    credentials: CredentialsView,
    events: Seq<StepEvent>,
)
    requires
        events.len() >= 2,
        succeeded(events[0]),
    ensures
        ({
            let first = first_step(mode);
            let second = step_after(first)->0;
            let state = StateView::Running { step: first, path, credentials };
            &&& step_after(first) is Some
            &&& run(state, events).commands == seq![
                command_of(first, path, credentials),
                command_of(second, path, credentials),
            ]
            &&& run(state, events).state == StateView::Finished(
                if succeeded(events[1]) {
                    OutcomeView::Success(success_text(second))
                } else {
                    failure_of(second, events[1])
                },
            )
        }),
{
    let first = first_step(mode);
    let second = step_after(first)->0;
    let state = StateView::Running { step: first, path, credentials };
    let middle = StateView::Running { step: second, path, credentials };
    let rest = events.skip(1);
    assert(advanced(state, events[0]) == middle);
    assert(rest[0] == events[1]);
    let last = advanced(middle, rest[0]);
    lemma_finished_runs_nothing(last, rest.skip(1));
    assert(run(middle, rest).commands =~= seq![command_of(second, path, credentials)]);
    assert(run(state, events).commands =~= seq![
        command_of(first, path, credentials),
        command_of(second, path, credentials),
    ]);
}

/// A source deployment whose commands both succeed issues the pull and then
/// the rebuild, in the project's directory, and ends with the message that
/// the sources were synced and the containers rebuilt.
pub proof fn lemma_source_deployment(
    path: Seq<char>,
    credentials: CredentialsView,
    events: Seq<StepEvent>,
)
    requires
        events.len() >= 2,
        succeeded(events[0]),
        succeeded(events[1]),
    ensures
        ({
            let state = StateView::Running { step: Step::Pull, path, credentials };
            &&& run(state, events).commands == seq![
                pull_command(path, credentials),
                rebuild_command(path),
            ]
            &&& run(state, events).state == StateView::Finished(
                OutcomeView::Success("source synced and containers rebuilt"@),
            )
        }),
{
    lemma_two_steps(Mode::Source, path, credentials, events);
}

/// An image deployment whose login succeeds and whose orchestrator call ran
/// and failed has logged in exactly once, has called the orchestrator once
/// after that, and ends with `RebuildFailed`.
pub proof fn lemma_image_pull_failure(
    path: Seq<char>,
    credentials: CredentialsView,
    events: Seq<StepEvent>,
)
    requires
        events.len() >= 2,
        succeeded(events[0]),
        events[1] == (StepEvent::Exited { success: false }),
    ensures
        ({
            let state = StateView::Running { step: Step::RegistryLogin, path, credentials };
            &&& run(state, events).commands == seq![
                login_command(credentials),
                pull_and_restart_command(path),
            ]
            &&& run(state, events).state == StateView::Finished(
                failed(FailureReason::RebuildFailed),
            )
        }),
{
    lemma_two_steps(Mode::Image, path, credentials, events);
}

/// No deployment issues more than two commands, and it issues no more
/// commands than events were reported to it.
pub proof fn lemma_commands_are_bounded(state: StateView, events: Seq<StepEvent>)
    ensures
        run(state, events).commands.len() <= 2,
        run(state, events).commands.len() <= events.len(),
    decreases events.len(),
{
    if state is Running && events.len() > 0 {
        let next = advanced(state, events[0]);
        lemma_commands_are_bounded(next, events.skip(1));
        if next is Running && events.len() > 1 {
            let last = advanced(next, events[1]);
            assert(last is Finished);
            assert(events.skip(1)[0] == events[1]);
            lemma_finished_runs_nothing(last, events.skip(1).skip(1));
        }
    }
}

/// The commands that a deployment issued, in order, and the state that it
/// reached.
#[derive(Clone, Debug, PartialEq, Eq)]
pub struct Transcript {
    pub state: DeployState,
    pub commands: Vec<PlannedCommand>,
}

/// The values of a list of commands, in the list's order.
pub open spec fn commands_of(list: Seq<PlannedCommand>) -> Seq<CommandView> {
    Seq::new(list.len(), |i: int| list[i]@)
}

impl View for Transcript {
    type V = TranscriptView;

    open spec fn view(&self) -> TranscriptView {
        TranscriptView { state: self.state@, commands: commands_of(self.commands@) }
    }
}

/// The outcome of a deployment whose step `step` ended with `event`, an
/// event other than success.
fn classify_failure(step: Step, event: StepEvent) -> (outcome: DeploymentOutcome)
    requires
        !succeeded(event),
    ensures
        outcome@ == failure_of(step, event),
{
    let timed_out = match event {
        StepEvent::TimedOut => true,
        _ => false,
    };
    let spawn_error = match event {
        StepEvent::SpawnError => true,
        _ => false,
    };
    match step {
        Step::Pull => DeploymentOutcome::Failure {
            reason: FailureReason::SourceSyncFailed,
            timed_out,
        },
        Step::RegistryLogin => DeploymentOutcome::Failure {
            reason: FailureReason::RegistryAuthFailed,
            timed_out,
        },
        Step::Rebuild | Step::PullAndRestart => if spawn_error {
            DeploymentOutcome::failure(FailureReason::ExecutionError)
        } else {
            DeploymentOutcome::Failure { reason: FailureReason::RebuildFailed, timed_out }
        },
    }
}

/// The message of a deployment whose last step was `step`.
pub fn success_message(step: Step) -> (message: String)
    ensures
        message@ == success_text(step),
{
    match step {
        Step::Pull | Step::Rebuild => String::from_str("source synced and containers rebuilt"),
        Step::RegistryLogin | Step::PullAndRestart => String::from_str(
            "images pulled and containers restarted",
        ),
    }
}

impl DeployState {
    /// Begins the deployment of a request in the project's directory `path`:
    /// resolves the credentials, and plans the first step of the mode.
    pub fn begin(mode: Mode, path: String, request: &DeploymentRequest, defaults: &Defaults) -> (state:
        DeployState)
        ensures
            state@ == started(mode, path@, request@, defaults@),
    {
        match resolve(request, defaults) {
            Ok(credentials) => DeployState::Running { step: Step::first(mode), path, credentials },
            Err(_) => DeployState::Finished(
                DeploymentOutcome::failure(FailureReason::MissingCredentials),
            ),
        }
    }

    /// Whether the deployment has ended.
    pub fn is_finished(&self) -> (yes: bool)
        ensures
            yes == (self@ is Finished),
    {
        match self {
            DeployState::Running { .. } => false,
            DeployState::Finished(_) => true,
        }
    }

    /// The outcome, once the deployment has ended.
    pub fn outcome(&self) -> (outcome: Option<&DeploymentOutcome>)
        ensures
            match outcome {
                Some(outcome) => self@ == StateView::Finished(outcome@),
                None => self@ is Running,
            },
    {
        match self {
            DeployState::Running { .. } => None,
            DeployState::Finished(outcome) => Some(outcome),
        }
    }

    /// The command that is to be run next, or `None` once the deployment has
    /// ended.
    pub fn pending_command(&self) -> (command: Option<PlannedCommand>)
        ensures
            match command {
                Some(command) => pending(self@) == Some(command@),
                None => pending(self@) is None,
            },
    {
        match self {
            DeployState::Running { step, path, credentials } => Some(
                plan(*step, path, credentials),
            ),
            DeployState::Finished(_) => None,
        }
    }

    /// The state after the pending command ended with `event`.
    pub fn advance(self, event: StepEvent) -> (next: DeployState)
        ensures
            next@ == advanced(self@, event),
    {
        match self {
            DeployState::Running { step, path, credentials } => {
                let success = match event {
                    StepEvent::Exited { success } => success,
                    _ => false,
                };
                if success {
                    match step.next() {
                        Some(following) => DeployState::Running {
                            step: following,
                            path,
                            credentials,
                        },
                        None => DeployState::Finished(
                            DeploymentOutcome::Success(success_message(step)),
                        ),
                    }
                } else {
                    DeployState::Finished(classify_failure(step, event))
                }
            },
            DeployState::Finished(outcome) => DeployState::Finished(outcome),
        }
    }

    /// Drives the deployment through a list of events, one for each command
    /// that it issues, and records the commands.
    pub fn replay(self, events: &Vec<StepEvent>) -> (transcript: Transcript)
        ensures
            transcript@ == run(self@, events@),
    {
        let ghost begin = self@;
        let mut state = self;
        let mut commands: Vec<PlannedCommand> = Vec::new();
        let mut at: usize = 0;
        assert(events@.skip(0) =~= events@);
        loop
            invariant
                at <= events.len(),
                run(begin, events@) == (TranscriptView {
                    state: run(state@, events@.skip(at as int)).state,
                    commands: commands_of(commands@) + run(
                        state@,
                        events@.skip(at as int),
                    ).commands,
                }),
            ensures
                at == events.len() || state@ is Finished,
            decreases events.len() - at,
        {
            if at >= events.len() {
                break ;
            }
            match state.pending_command() {
                None => {
                    break ;
                },
                Some(command) => {
                    proof {
                        let rest = events@.skip(at as int);
                        assert(rest.skip(1) =~= events@.skip(at + 1));
                        assert(rest[0] == events@[at as int]);
                        let later = run(advanced(state@, rest[0]), rest.skip(1));
                        assert(commands_of(commands@.push(command)) + later.commands
                            =~= commands_of(commands@) + (seq![command@] + later.commands));
                    }
                    commands.push(command);
                    state = state.advance(events[at]);
                    at += 1;
                },
            }
        }
        assert(run(state@, events@.skip(at as int)).commands =~= Seq::empty());
        assert(commands_of(commands@) + Seq::<CommandView>::empty() =~= commands_of(commands@));
        Transcript { state, commands }
    }
}

} // verus!
