//! The entry point: from a raw request to a deployment that is under way, or
//! that has ended before any command was planned.

use vstd::prelude::*;
use crate::command::{first_step, CommandView};
use crate::credentials::{resolved, Defaults, DefaultsView};
use crate::outcome::{failed, DeploymentOutcome, FailureReason, OutcomeView};
use crate::registry::ProjectRegistry;
use crate::request::{mode_of, validate, validated, RawRequest, RawRequestView};
use crate::strategy::{lemma_two_steps, run, started, succeeded, success_text, DeployState,
    StateView, StepEvent, Transcript};

verus! {

/// The state in which the dispatch of a raw request begins, over a table of
/// projects and the default credentials.
///
/// A request of the wrong shape has finished with `InvalidRequest`, whatever
/// its project. A request for a name that the table lacks has finished with
/// `ProjectNotFound`. Every other request begins the strategy of its mode in
/// the project's directory.
pub open spec fn dispatched(
    table: Map<Seq<char>, Seq<char>>,
    defaults: DefaultsView,
    raw: RawRequestView,
) -> StateView {
    match validated(raw) {
        None => StateView::Finished(failed(FailureReason::InvalidRequest)),
        Some(request) => if table.contains_key(request.project) {
            started(request.mode, table[request.project], request, defaults)
        } else {
            StateView::Finished(failed(FailureReason::ProjectNotFound))
        },
    }
}

/// The shape of a request is checked before its project is looked up: a
/// request that lacks a required field, or whose mode word names no mode, has
/// finished with `InvalidRequest` and issues no command, whether or not its
/// project is registered.
pub proof fn lemma_invalid_request_runs_nothing(
    table: Map<Seq<char>, Seq<char>>,
    defaults: DefaultsView,
    raw: RawRequestView,
    events: Seq<StepEvent>,
)
    requires
        raw.project is None || raw.mode is None || mode_of(raw.mode->0) is None,
    ensures
        dispatched(table, defaults, raw) == StateView::Finished(
            failed(FailureReason::InvalidRequest),
        ),
        run(dispatched(table, defaults, raw), events).commands == Seq::<CommandView>::empty(),
{
}

/// A well-formed request for a name that is not registered has finished with
/// `ProjectNotFound` and issues no command, whatever its credentials.
pub proof fn lemma_unknown_project_runs_nothing(
    table: Map<Seq<char>, Seq<char>>,
    defaults: DefaultsView,
    raw: RawRequestView,
    events: Seq<StepEvent>,
)
    requires
        validated(raw) is Some,
        !table.contains_key(validated(raw)->0.project),
    ensures
        dispatched(table, defaults, raw) == StateView::Finished(
            failed(FailureReason::ProjectNotFound),
        ),
        run(dispatched(table, defaults, raw), events).commands == Seq::<CommandView>::empty(),
{
}

/// A well-formed request for a registered project whose credentials do not
/// resolve has finished with `MissingCredentials` and issues no command.
pub proof fn lemma_missing_credentials_run_nothing(
    table: Map<Seq<char>, Seq<char>>,
    defaults: DefaultsView,
    raw: RawRequestView,
    events: Seq<StepEvent>,
)
    requires
        validated(raw) is Some,
        table.contains_key(validated(raw)->0.project),
        resolved(validated(raw)->0, defaults) is None,
    ensures
        dispatched(table, defaults, raw) == StateView::Finished(
            failed(FailureReason::MissingCredentials),
        ),
        run(dispatched(table, defaults, raw), events).commands == Seq::<CommandView>::empty(),
{
}

/// A well-formed request for a registered project whose credentials resolve
/// begins with the first step of its mode, in the directory that the table
/// gives for the project and with the resolved credentials.
pub proof fn lemma_dispatch_begins_strategy(
    table: Map<Seq<char>, Seq<char>>,
    defaults: DefaultsView,
    raw: RawRequestView,
)
    requires
        validated(raw) is Some,
        table.contains_key(validated(raw)->0.project),
        resolved(validated(raw)->0, defaults) is Some,
    ensures
        dispatched(table, defaults, raw) == (StateView::Running {
            step: first_step(validated(raw)->0.mode),
            path: table[validated(raw)->0.project],
            credentials: resolved(validated(raw)->0, defaults)->0,
        }),
{
}

/// The same request, dispatched twice over the same table and defaults while
/// every command succeeds, succeeds both times: each run issues the same two
/// commands and ends with the success message of the mode. The dispatcher
/// keeps nothing from one request to the next.
pub proof fn lemma_repeated_request_succeeds(
    table: Map<Seq<char>, Seq<char>>,
    defaults: DefaultsView,
    raw: RawRequestView,
    once: Seq<StepEvent>,
    again: Seq<StepEvent>,
)
    requires
        dispatched(table, defaults, raw) is Running,
        once.len() >= 2,
        again.len() >= 2,
        succeeded(once[0]) && succeeded(once[1]),
        succeeded(again[0]) && succeeded(again[1]),
    ensures
        run(dispatched(table, defaults, raw), once) == run(
            dispatched(table, defaults, raw),
            again,
        ),
        run(dispatched(table, defaults, raw), once).commands.len() == 2,
        run(dispatched(table, defaults, raw), once).state == StateView::Finished(
            OutcomeView::Success(success_text(first_step(validated(raw)->0.mode))),
        ),
{
    let request = validated(raw)->0;
    let credentials = resolved(request, defaults)->0;
    let path = table[request.project];
    lemma_two_steps(request.mode, path, credentials, once);
    lemma_two_steps(request.mode, path, credentials, again);
}

/// The dispatcher: the registry and the default credentials, fixed when it is
/// made and shared by every request.
#[derive(Debug)]
pub struct Dispatcher {
    registry: ProjectRegistry,
    defaults: Defaults,
}

impl Dispatcher {
    /// The table of projects that requests are resolved against.
    pub closed spec fn table(&self) -> Map<Seq<char>, Seq<char>> {
        self.registry@
    }

    /// The credentials that are used where a request gives none.
    pub closed spec fn fallback(&self) -> DefaultsView {
        self.defaults@
    }

    /// A dispatcher over a registry and default credentials.
    pub fn new(registry: ProjectRegistry, defaults: Defaults) -> (dispatcher: Dispatcher)
        ensures
            dispatcher.table() == registry@,
            dispatcher.fallback() == defaults@,
    {
        Dispatcher { registry, defaults }
    }

    /// The registry.
    pub fn registry(&self) -> (registry: &ProjectRegistry)
        ensures
            registry@ == self.table(),
    {
        &self.registry
    }

    /// The default credentials.
    pub fn defaults(&self) -> (defaults: &Defaults)
        ensures
            defaults@ == self.fallback(),
    {
        &self.defaults
    }

    /// Takes a raw request up to its first command: checks its shape, looks
    /// its project up, resolves its credentials and selects the strategy of
    /// its mode.
    pub fn start(&self, raw: RawRequest) -> (state: DeployState)
        ensures
            state@ == dispatched(self.table(), self.fallback(), raw@),
    {
        match validate(raw) {
            Err(reason) => DeployState::Finished(DeploymentOutcome::failure(reason)),
            Ok(request) => match self.registry.lookup(request.project.as_str()) {
                None => DeployState::Finished(
                    DeploymentOutcome::failure(FailureReason::ProjectNotFound),
                ),
                Some(project) => DeployState::begin(
                    request.mode,
                    project.path.clone(),
                    &request,
                    &self.defaults,
                ),
            },
        }
    }

    /// Dispatches a raw request against a list of events, one for each
    /// command in turn, and records the commands that the deployment issues.
    pub fn replay(&self, raw: RawRequest, events: &Vec<StepEvent>) -> (transcript: Transcript)
        ensures
            transcript@ == run(dispatched(self.table(), self.fallback(), raw@), events@),
    {
        self.start(raw).replay(events)
    }
}

} // verus!
