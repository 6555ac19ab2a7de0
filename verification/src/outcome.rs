//! The classified result of one dispatch.

use vstd::prelude::*;
use vstd::string::StringExecFns;

verus! {

/// Why a deployment did not go through. The reasons are mutually exclusive;
/// a deployment reports the first one it meets.
#[derive(Clone, Copy, Debug, PartialEq, Eq, Hash, Structural)]
pub enum FailureReason {
    /// A required field is missing, or the mode is not a recognised one.
    InvalidRequest,
    /// The project name is not in the registry.
    ProjectNotFound,
    /// Neither the request nor the defaults give both a user and a token.
    MissingCredentials,
    /// The source-control step could not be run, or ended with a failure.
    SourceSyncFailed,
    /// The registry login could not be run, or ended with a failure.
    RegistryAuthFailed,
    /// The orchestrator ran and reported a failure, or ran out of time.
    RebuildFailed,
    /// The orchestrator's process could not be started at all.
    ExecutionError,
}

/// Mathematical value of a [`DeploymentOutcome`].
pub enum OutcomeView {
    Success(Seq<char>),
    Failure { reason: FailureReason, timed_out: bool },
}

/// Terminal result of one dispatch: a success message, or a failure reason.
/// `timed_out` tells a command that ran out of time from one that failed.
#[derive(Clone, Debug, PartialEq, Eq)]
pub enum DeploymentOutcome {
    Success(String),
    Failure { reason: FailureReason, timed_out: bool },
}

impl View for DeploymentOutcome {
    type V = OutcomeView;

    open spec fn view(&self) -> OutcomeView {
        match self {
            DeploymentOutcome::Success(message) => OutcomeView::Success(message@),
            DeploymentOutcome::Failure { reason, timed_out } => OutcomeView::Failure {
                reason: *reason,
                timed_out: *timed_out,
            },
        }
    }
}

/// A failure that no timeout caused.
pub open spec fn failed(reason: FailureReason) -> OutcomeView {
    OutcomeView::Failure { reason, timed_out: false }
}

/// The text that describes a failure to the caller of the webhook.
pub open spec fn failure_text(reason: FailureReason, timed_out: bool) -> Seq<char> {
    match reason {
        FailureReason::InvalidRequest => "invalid request"@,
        FailureReason::ProjectNotFound => "project not found"@,
        FailureReason::MissingCredentials => "missing credentials"@,
        FailureReason::SourceSyncFailed => if timed_out {
            "source sync timed out"@
        } else {
            "source sync failed"@
        },
        FailureReason::RegistryAuthFailed => if timed_out {
            "registry login timed out"@
        } else {
            "registry login failed"@
        },
        FailureReason::RebuildFailed => if timed_out {
            "container rebuild timed out"@
        } else {
            "container rebuild failed"@
        },
        FailureReason::ExecutionError => "command execution error"@,
    }
}

/// The response text of an outcome: the success message itself, or the text
/// of the failure.
pub open spec fn message_of(outcome: OutcomeView) -> Seq<char> {
    match outcome {
        OutcomeView::Success(message) => message,
        OutcomeView::Failure { reason, timed_out } => failure_text(reason, timed_out),
    }
}

impl DeploymentOutcome {
    /// An outcome that reports `reason`, with no timeout involved.
    pub fn failure(reason: FailureReason) -> (outcome: DeploymentOutcome)
        ensures
            outcome@ == failed(reason),
    {
        DeploymentOutcome::Failure { reason, timed_out: false }
    }

    /// Whether the deployment went through.
    pub fn is_success(&self) -> (yes: bool)
        ensures
            yes == (self@ is Success),
    {
        match self {
            DeploymentOutcome::Success(_) => true,
            DeploymentOutcome::Failure { .. } => false,
        }
    }

    /// The failure reason, if the deployment failed.
    pub fn reason(&self) -> (reason: Option<FailureReason>)
        ensures
            reason == (match self@ {
                OutcomeView::Success(_) => None,
                OutcomeView::Failure { reason, .. } => Some(reason),
            }),
    {
        match self {
            DeploymentOutcome::Success(_) => None,
            DeploymentOutcome::Failure { reason, .. } => Some(*reason),
        }
    }

    /// The plain-text message that answers the webhook.
    pub fn message(&self) -> (text: String)
        ensures
            text@ == message_of(self@),
    {
        match self {
            DeploymentOutcome::Success(message) => message.clone(),
            DeploymentOutcome::Failure { reason, timed_out } => describe_failure(
                *reason,
                *timed_out,
            ),
        }
    }
}

/// The text that describes a failure to the caller of the webhook.
pub fn describe_failure(reason: FailureReason, timed_out: bool) -> (text: String)
    ensures
        text@ == failure_text(reason, timed_out),
{
    match reason {
        FailureReason::InvalidRequest => String::from_str("invalid request"),
        FailureReason::ProjectNotFound => String::from_str("project not found"),
        FailureReason::MissingCredentials => String::from_str("missing credentials"),
        FailureReason::SourceSyncFailed => if timed_out {
            String::from_str("source sync timed out")
        } else {
            String::from_str("source sync failed")
        },
        FailureReason::RegistryAuthFailed => if timed_out {
            String::from_str("registry login timed out")
        } else {
            String::from_str("registry login failed")
        },
        FailureReason::RebuildFailed => if timed_out {
            String::from_str("container rebuild timed out")
        } else {
            String::from_str("container rebuild failed")
        },
        FailureReason::ExecutionError => String::from_str("command execution error"),
    }
}

} // verus!
