//! The deployment request: its raw shape, and its validated form.

use vstd::prelude::*;
use vstd::string::StringExecFns;
use crate::outcome::FailureReason;
use crate::text::text_of;

verus! {

/// How a project is brought up to date.
#[derive(Clone, Copy, Debug, PartialEq, Eq, Hash, Structural)]
pub enum Mode {
    /// Pull the sources, then rebuild and restart the containers.
    Source,
    /// Log in to the registry, then pull the images and restart the containers.
    Image,
}

/// The mode that a mode word names: `repo` is `Source`, `image` is `Image`,
/// and no other word names a mode.
pub open spec fn mode_of(word: Seq<char>) -> Option<Mode> {
    if word == "repo"@ {
        Some(Mode::Source)
    } else if word == "image"@ {
        Some(Mode::Image)
    } else {
        None
    }
}

/// Reads a mode word.
pub fn parse_mode(word: &String) -> (mode: Option<Mode>)
    ensures
        mode == mode_of(word@),
{
    let repo = String::from_str("repo");
    let image = String::from_str("image");
    if *word == repo {
        Some(Mode::Source)
    } else if *word == image {
        Some(Mode::Image)
    } else {
        None
    }
}

/// Mathematical value of a [`RawRequest`].
pub struct RawRequestView {
    pub project: Option<Seq<char>>,
    pub mode: Option<Seq<char>>,
    pub user: Option<Seq<char>>,
    pub token: Option<Seq<char>>,
    pub registry: Option<Seq<char>>,
}

/// A notification as it arrives: every field may be missing, and the mode is
/// still a word.
#[derive(Clone, Debug, PartialEq, Eq)]
pub struct RawRequest {
    pub project: Option<String>,
    pub mode: Option<String>,
    pub user: Option<String>,
    pub token: Option<String>,
    pub registry: Option<String>,
}

impl View for RawRequest {
    type V = RawRequestView;

    open spec fn view(&self) -> RawRequestView {
        RawRequestView {
            project: text_of(self.project),
            mode: text_of(self.mode),
            user: text_of(self.user),
            token: text_of(self.token),
            registry: text_of(self.registry),
        }
    }
}

/// Mathematical value of a [`DeploymentRequest`].
pub struct RequestView {
    pub project: Seq<char>,
    pub mode: Mode,
    pub user: Option<Seq<char>>,
    pub token: Option<Seq<char>>,
    pub registry: Option<Seq<char>>,
}

/// A request whose required fields are present and whose mode is recognised.
#[derive(Clone, Debug, PartialEq, Eq)]
pub struct DeploymentRequest {
    pub project: String,
    pub mode: Mode,
    pub user: Option<String>,
    pub token: Option<String>,
    pub registry: Option<String>,
}

impl View for DeploymentRequest {
    type V = RequestView;

    open spec fn view(&self) -> RequestView {
        RequestView {
            project: self.project@,
            mode: self.mode,
            user: text_of(self.user),
            token: text_of(self.token),
            registry: text_of(self.registry),
        }
    }
}

/// The validated form of a raw request: it exists where the project is
/// present and the mode is present and names a mode, and it keeps the optional
/// fields as they came.
pub open spec fn validated(raw: RawRequestView) -> Option<RequestView> {
    if raw.project is Some && raw.mode is Some && mode_of(raw.mode->0) is Some {
        Some(
            RequestView {
                project: raw.project->0,
                mode: mode_of(raw.mode->0)->0,
                user: raw.user,
                token: raw.token,
                registry: raw.registry,
            },
        )
    } else {
        None
    }
}

/// Checks the shape of a raw request. The only error is `InvalidRequest`, and
/// it comes exactly where a required field is missing or the mode word names
/// no mode.
pub fn validate(raw: RawRequest) -> (checked: Result<DeploymentRequest, FailureReason>)
    ensures
        match checked {
            Ok(request) => validated(raw@) == Some(request@),
            Err(reason) => validated(raw@) is None && reason == FailureReason::InvalidRequest,
        },
{
    let RawRequest { project, mode, user, token, registry } = raw;
    match (project, mode) {
        (Some(project), Some(word)) => match parse_mode(&word) {
            Some(mode) => Ok(DeploymentRequest { project, mode, user, token, registry }),
            None => Err(FailureReason::InvalidRequest),
        },
        _ => Err(FailureReason::InvalidRequest),
    }
}

} // verus!
