//! The run as a decision procedure. The caller does the outside work (asks
//! the credential store, opens the connection, binds, searches) and reports
//! what came of it; the pipeline decides what is to be done next.
//!
//! A run asks for the secret first, then for the connection, the bind and the
//! search, strictly in that order, and ends with records or with one failure.

use crate::config::{BindPolicy, ConfigView, DirectoryConfig};
use crate::credential::{
    credential_of, key_for, lookup_key, resolve, Credential, CredentialKey, CredentialView, KeyView,
};
use crate::entry::{DirectoryEntry, EntryView};
use crate::failure::{PipelineError, StoreFault};
use crate::identity::current_username;
use crate::projection::{project, project_all, ProjectedRecord, RecordView};
use crate::request::{
    bind_for, bind_request, connection_target, search_for, search_request, target_for, text_of,
    BindRequest, BindView, ConnectionTarget, SearchRequest, SearchView,
};
use vstd::prelude::*;

verus! {

/// What the caller reports back after doing what it was asked to do.
pub enum Event {
    /// The credential store answered: the secret, or how the lookup failed.
    Lookup(Result<String, StoreFault>),
    /// The connection is open.
    Connected,
    /// The endpoint is ill-formed or could not be reached.
    ConnectFailed,
    /// The server accepted the bind.
    BindAccepted,
    /// The bind did not succeed.
    BindRejected,
    /// The search succeeded with these entries, in the server's order.
    SearchCompleted(Vec<DirectoryEntry>),
    /// The server rejected the filter, or the search failed while it ran.
    SearchFailed,
}

/// What the caller is to do next.
pub enum Action {
    /// Ask the credential store for the secret under this key.
    FetchSecret(CredentialKey),
    /// Open a connection to this endpoint.
    Connect(ConnectionTarget),
    /// Bind on the open connection.
    Bind(BindRequest),
    /// Search on the open connection.
    Search(SearchRequest),
    /// The run is over: hand these records to the host.
    Deliver(Vec<ProjectedRecord>),
    /// The run is over: report this failure to the host.
    Fail(PipelineError),
}

/// How far a run has come.
enum Stage {
    AwaitingSecret(CredentialKey),
    AwaitingConnection(Credential),
    AwaitingBind,
    AwaitingSearch,
    Finished,
}

/// One run of the pipeline.
pub struct Pipeline {
    config: DirectoryConfig,
    target: ConnectionTarget,
    filter: String,
    stage: Stage,
}

/// An event as plain mathematical values.
pub enum EventView {
    Lookup(Result<Seq<char>, StoreFault>),
    Connected,
    ConnectFailed,
    BindAccepted,
    BindRejected,
    SearchCompleted(Seq<EntryView>),
    SearchFailed,
}

/// An action as plain mathematical values.
pub enum ActionView {
    FetchSecret(KeyView),
    Connect(Seq<char>),
    Bind(BindView),
    Search(SearchView),
    Deliver(Seq<RecordView>),
    Fail(PipelineError),
}

/// A stage as plain mathematical values. The secret is held from the moment
/// it was read until the bind is requested, and no longer.
pub enum StageView {
    AwaitingSecret(KeyView),
    AwaitingConnection(CredentialView),
    AwaitingBind,
    AwaitingSearch,
    Finished,
}

/// A run as plain mathematical values.
pub struct PipelineView {
    pub config: ConfigView,
    pub target: Seq<char>,
    pub filter: Seq<char>,
    pub stage: StageView,
}

impl View for Event {
    type V = EventView;

    open spec fn view(&self) -> EventView {
        match self {
            Event::Lookup(Ok(secret)) => EventView::Lookup(Ok(secret@)),
            Event::Lookup(Err(fault)) => EventView::Lookup(Err(*fault)),
            Event::Connected => EventView::Connected,
            Event::ConnectFailed => EventView::ConnectFailed,
            Event::BindAccepted => EventView::BindAccepted,
            Event::BindRejected => EventView::BindRejected,
            Event::SearchCompleted(entries) => EventView::SearchCompleted(entries.deep_view()),
            Event::SearchFailed => EventView::SearchFailed,
        }
    }
}

impl View for Action {
    type V = ActionView;

    open spec fn view(&self) -> ActionView {
        match self {
            Action::FetchSecret(key) => ActionView::FetchSecret(key@),
            Action::Connect(target) => ActionView::Connect(target@),
            Action::Bind(request) => ActionView::Bind(request@),
            Action::Search(request) => ActionView::Search(request@),
            Action::Deliver(records) => ActionView::Deliver(records.deep_view()),
            Action::Fail(error) => ActionView::Fail(*error),
        }
    }
}

impl View for Stage {
    type V = StageView;

    closed spec fn view(&self) -> StageView {
        match self {
            Stage::AwaitingSecret(key) => StageView::AwaitingSecret(key@),
            Stage::AwaitingConnection(credential) => StageView::AwaitingConnection(credential@),
            Stage::AwaitingBind => StageView::AwaitingBind,
            Stage::AwaitingSearch => StageView::AwaitingSearch,
            Stage::Finished => StageView::Finished,
        }
    }
}

impl View for Pipeline {
    type V = PipelineView;

    closed spec fn view(&self) -> PipelineView {
        PipelineView {
            config: self.config@,
            target: self.target@,
            filter: self.filter@,
            stage: self.stage@,
        }
    }
}

/// The run in another stage.
pub open spec fn at_stage(run: PipelineView, stage: StageView) -> PipelineView {
    PipelineView { stage, ..run }
}

/// The end of a run by a failure.
pub open spec fn halt(run: PipelineView, error: PipelineError) -> (PipelineView, ActionView) {
    (at_stage(run, StageView::Finished), ActionView::Fail(error))
}

/// The start of a run for `username`: nothing has happened but the request
/// for the secret under the user's key.
pub open spec fn start(
    config: ConfigView,
    filter: Seq<char>,
    endpoint: Option<Seq<char>>,
    username: Seq<char>,
) -> (PipelineView, ActionView) {
    let key = key_for(config, username);
    (
        PipelineView {
            config,
            target: target_for(config, endpoint),
            filter,
            stage: StageView::AwaitingSecret(key),
        },
        ActionView::FetchSecret(key),
    )
}

/// The step of a run on an event: the run afterwards, and what is to be done
/// next.
///
/// - The secret was read: connect. The lookup failed: the run fails with
///   `CredentialUnavailable`, and nothing was connected to.
/// - The connection is open: bind as the configured account with the secret.
///   It could not be opened: the run fails with `ConnectionError`.
/// - The bind was accepted: search. It was rejected: the run fails with
///   `AuthenticationFailed`, unless the configuration says to proceed.
/// - The search completed: its entries are projected and delivered, however
///   many there are. It failed: the run fails with `SearchError`, and no
///   record is delivered.
/// - Any event that the stage does not wait for, and any event after the end:
///   the run fails with `SignatureMismatch`.
pub open spec fn react(run: PipelineView, event: EventView) -> (PipelineView, ActionView) {
    match (run.stage, event) {
        (StageView::AwaitingSecret(key), EventView::Lookup(Ok(secret))) => (
            at_stage(run, StageView::AwaitingConnection(credential_of(key, secret))),
            ActionView::Connect(run.target),
        ),
        (StageView::AwaitingSecret(_), EventView::Lookup(Err(fault))) => halt(
            run,
            PipelineError::CredentialUnavailable(fault),
        ),
        (StageView::AwaitingConnection(credential), EventView::Connected) => (
            at_stage(run, StageView::AwaitingBind),
            ActionView::Bind(bind_for(run.config, credential.secret)),
        ),
        (StageView::AwaitingConnection(_), EventView::ConnectFailed) => halt(
            run,
            PipelineError::ConnectionError,
        ),
        (StageView::AwaitingBind, EventView::BindAccepted) => (
            at_stage(run, StageView::AwaitingSearch),
            ActionView::Search(search_for(run.config, run.filter)),
        ),
        (StageView::AwaitingBind, EventView::BindRejected) => match run.config.on_bind_failure {
            BindPolicy::Proceed => (
                at_stage(run, StageView::AwaitingSearch),
                ActionView::Search(search_for(run.config, run.filter)),
            ),
            BindPolicy::Abort => halt(run, PipelineError::AuthenticationFailed),
        },
        (StageView::AwaitingSearch, EventView::SearchCompleted(entries)) => (
            at_stage(run, StageView::Finished),
            ActionView::Deliver(project_all(entries)),
        ),
        (StageView::AwaitingSearch, EventView::SearchFailed) => halt(
            run,
            PipelineError::SearchError,
        ),
        _ => halt(run, PipelineError::SignatureMismatch),
    }
}

impl Pipeline {
    /// Starts a run for the given user: picks the endpoint, keeps the filter
    /// as it is, and asks for the secret under the user's key.
    pub fn begin_as(
        config: DirectoryConfig,
        filter: String,
        endpoint: Option<String>,
        username: String,
    ) -> (started: (Pipeline, Action))
        ensures
            (started.0@, started.1@) == start(config@, filter@, text_of(endpoint), username@),
    {
        let target = connection_target(&config, endpoint);
        let key = lookup_key(&config, username);
        let asked = CredentialKey {
            namespace: key.namespace.clone(),
            service: key.service.clone(),
            account: key.account.clone(),
        };
        (
            Pipeline { config, target, filter, stage: Stage::AwaitingSecret(key) },
            Action::FetchSecret(asked),
        )
    }

    /// Starts a run for the user who owns the process. Who that is, the
    /// operating system says: the run starts as `begin_as` starts it for the
    /// account named in the key that is asked for.
    pub fn begin(config: DirectoryConfig, filter: String, endpoint: Option<String>) -> (started: (
        Pipeline,
        Action,
    ))
        ensures
            started.1@ matches ActionView::FetchSecret(key) && (started.0@, started.1@) == start(
                config@,
                filter@,
                text_of(endpoint),
                key.account,
            ),
    {
        let username = current_username();
        Pipeline::begin_as(config, filter, endpoint, username)
    }

    /// Whether the run is over: records were delivered, or it failed.
    pub fn is_finished(&self) -> (over: bool)
        ensures
            over == (self@.stage is Finished),
    {
        match self.stage {
            Stage::Finished => true,
            _ => false,
        }
    }

    /// Takes the report of what came of the last action and decides what is
    /// to be done next.
    pub fn step(self, event: Event) -> (next: (Pipeline, Action))
        ensures
            (next.0@, next.1@) == react(self@, event@),
    {
        let Pipeline { config, target, filter, stage } = self;
        let (stage, action) = match stage {
            Stage::AwaitingSecret(key) => match event {
                Event::Lookup(answer) => match resolve(key, answer) {
                    Ok(credential) => (
                        Stage::AwaitingConnection(credential),
                        Action::Connect(ConnectionTarget { endpoint: target.endpoint.clone() }),
                    ),
                    Err(error) => (Stage::Finished, Action::Fail(error)),
                },
                _ => (Stage::Finished, Action::Fail(PipelineError::SignatureMismatch)),
            },
            Stage::AwaitingConnection(credential) => match event {
                Event::Connected => (
                    Stage::AwaitingBind,
                    Action::Bind(bind_request(&config, credential.into_secret())),
                ),
                Event::ConnectFailed => (
                    Stage::Finished,
                    Action::Fail(PipelineError::ConnectionError),
                ),
                _ => (Stage::Finished, Action::Fail(PipelineError::SignatureMismatch)),
            },
            Stage::AwaitingBind => match event {
                Event::BindAccepted => (
                    Stage::AwaitingSearch,
                    Action::Search(search_request(&config, &filter)),
                ),
                Event::BindRejected => match config.on_bind_failure {
                    BindPolicy::Proceed => (
                        Stage::AwaitingSearch,
                        Action::Search(search_request(&config, &filter)),
                    ),
                    BindPolicy::Abort => (
                        Stage::Finished,
                        Action::Fail(PipelineError::AuthenticationFailed),
                    ),
                },
                _ => (Stage::Finished, Action::Fail(PipelineError::SignatureMismatch)),
            },
            Stage::AwaitingSearch => match event {
                Event::SearchCompleted(entries) => (
                    Stage::Finished,
                    Action::Deliver(project(&entries)),
                ),
                Event::SearchFailed => (Stage::Finished, Action::Fail(PipelineError::SearchError)),
                _ => (Stage::Finished, Action::Fail(PipelineError::SignatureMismatch)),
            },
            Stage::Finished => (Stage::Finished, Action::Fail(PipelineError::SignatureMismatch)),
        };
        (Pipeline { config, target, filter, stage }, action)
    }
}

} // verus!
