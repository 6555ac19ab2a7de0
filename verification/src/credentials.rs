//! Credential resolution: request fields first, process-wide defaults second.

use vstd::prelude::*;
use vstd::string::StringExecFns;
use crate::request::{DeploymentRequest, RequestView};
use crate::text::{clone_text, text_of};

verus! {

/// The registry host that is used where a request names none.
pub open spec fn default_registry_host() -> Seq<char> {
    "ghcr.io"@
}

/// The registry host that is used where a request names none.
pub fn default_registry() -> (host: String)
    ensures
        host@ == default_registry_host(),
{
    String::from_str("ghcr.io")
}

/// Mathematical value of [`Defaults`].
pub struct DefaultsView {
    pub user: Option<Seq<char>>,
    pub token: Option<Seq<char>>,
}

/// The process-wide default user and token, each of which may be unset.
#[derive(Clone, Debug, PartialEq, Eq)]
pub struct Defaults {
    pub user: Option<String>,
    pub token: Option<String>,
}

impl View for Defaults {
    type V = DefaultsView;

    open spec fn view(&self) -> DefaultsView {
        DefaultsView { user: text_of(self.user), token: text_of(self.token) }
    }
}

/// Mathematical value of [`Credentials`].
pub struct CredentialsView {
    pub user: Seq<char>,
    pub token: Seq<char>,
    pub registry: Seq<char>,
}

/// The resolved user, token and registry host of one request.
#[derive(Clone, Debug, PartialEq, Eq)]
pub struct Credentials {
    pub user: String,
    pub token: String,
    pub registry: String,
}

impl View for Credentials {
    type V = CredentialsView;

    open spec fn view(&self) -> CredentialsView {
        CredentialsView { user: self.user@, token: self.token@, registry: self.registry@ }
    }
}

/// The error of [`resolve`]: after the fallback a user or a token is still
/// missing.
#[derive(Clone, Copy, Debug, PartialEq, Eq, Structural)]
pub struct MissingCredentials;

/// A request field where it is present, else the default.
pub open spec fn preferred(field: Option<Seq<char>>, fallback: Option<Seq<char>>) -> Option<
    Seq<char>,
> {
    if field is Some {
        field
    } else {
        fallback
    }
}

/// The credentials of a request under given defaults. User and token are
/// resolved each on its own, the request's value before the default; the
/// registry is the request's, or the default host. There are credentials
/// exactly where both a user and a token are found.
pub open spec fn resolved(request: RequestView, defaults: DefaultsView) -> Option<
    CredentialsView,
> {
    let user = preferred(request.user, defaults.user);
    let token = preferred(request.token, defaults.token);
    if user is Some && token is Some {
        Some(
            CredentialsView {
                user: user->0,
                token: token->0,
                registry: if request.registry is Some {
                    request.registry->0
                } else {
                    default_registry_host()
                },
            },
        )
    } else {
        None
    }
}

/// A copy of a request field where it is present, else a copy of the default.
fn prefer(field: &Option<String>, fallback: &Option<String>) -> (choice: Option<String>)
    ensures
        text_of(choice) == preferred(text_of(*field), text_of(*fallback)),
{
    match field {
        Some(text) => Some(text.clone()),
        None => clone_text(fallback),
    }
}

/// Resolves the credentials of a request, falling back to the defaults field
/// by field.
pub fn resolve(request: &DeploymentRequest, defaults: &Defaults) -> (found: Result<
    Credentials,
    MissingCredentials,
>)
    ensures
        match found {
            Ok(credentials) => resolved(request@, defaults@) == Some(credentials@),
            Err(_) => resolved(request@, defaults@) is None,
        },
{
    let user = prefer(&request.user, &defaults.user);
    let token = prefer(&request.token, &defaults.token);
    match (user, token) {
        (Some(user), Some(token)) => {
            let registry = match &request.registry {
                Some(host) => host.clone(),
                None => default_registry(),
            };
            Ok(Credentials { user, token, registry })
        },
        _ => Err(MissingCredentials),
    }
}

/// A user that the request gives is used, whatever the defaults hold; a token
/// that it leaves out comes from the defaults.
pub proof fn lemma_request_user_with_default_token(
    request: RequestView,
    defaults: DefaultsView,
    user: Seq<char>,
    token: Seq<char>,
)
    requires
        request.user == Some(user),
        request.token is None,
        defaults.token == Some(token),
    ensures
        resolved(request, defaults) is Some,
        resolved(request, defaults)->0.user == user,
        resolved(request, defaults)->0.token == token,
{
}

/// Each of user and token is resolved on its own: the request's value wins
/// over the default, and the default is used only where the request has none.
pub proof fn lemma_request_over_default(request: RequestView, defaults: DefaultsView)
    requires
        resolved(request, defaults) is Some,
    ensures
        request.user is Some ==> resolved(request, defaults)->0.user == request.user->0,
        request.user is None ==> Some(resolved(request, defaults)->0.user) == defaults.user,
        request.token is Some ==> resolved(request, defaults)->0.token == request.token->0,
        request.token is None ==> Some(resolved(request, defaults)->0.token) == defaults.token,
{
}

/// Resolution fails exactly where the user, or the token, is missing from
/// both the request and the defaults.
pub proof fn lemma_missing_credentials(request: RequestView, defaults: DefaultsView)
    ensures
        resolved(request, defaults) is None <==> (request.user is None && defaults.user is None)
            || (request.token is None && defaults.token is None),
{
}

/// A request that names no registry resolves to the default host, and one
/// that names a registry resolves to that one. The registry never makes
/// resolution fail.
pub proof fn lemma_registry_default(request: RequestView, defaults: DefaultsView)
    requires
        resolved(request, defaults) is Some,
    ensures
        request.registry is None ==> resolved(request, defaults)->0.registry == "ghcr.io"@,
        request.registry is Some ==> resolved(request, defaults)->0.registry
            == request.registry->0,
{
}

} // verus!
