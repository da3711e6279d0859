//! Requests, replies and notifications, and what each reply means.

use crate::workspace::{Workspace, WorkspaceView};
use vstd::prelude::*;

verus! {

/// What a notification of the compositor is about.
#[derive(Clone, Copy, Debug, PartialEq, Eq, Structural)]
pub enum Event {
    /// The set of workspaces has changed.
    WorkspacesChanged,
    /// Another workspace has become the active one of its output.
    WorkspaceActivated,
    /// Another window has become the active one of a workspace.
    WorkspaceActiveWindowChanged,
    /// Anything else that the compositor reports.
    Other,
}

impl Event {
    /// Whether the notification can change what the bar shows.
    pub open spec fn relevant(self) -> bool {
        self == Event::WorkspacesChanged || self == Event::WorkspaceActivated || self
            == Event::WorkspaceActiveWindowChanged
    }

    /// Whether the notification can change what the bar shows.
    pub fn is_relevant(&self) -> (relevant: bool)
        ensures
            relevant == self.relevant(),
    {
        match self {
            Event::WorkspacesChanged => true,
            Event::WorkspaceActivated => true,
            Event::WorkspaceActiveWindowChanged => true,
            Event::Other => false,
        }
    }
}

/// What the bar can ask the compositor to do.
#[derive(Clone, Copy, Debug, PartialEq, Eq, Structural)]
pub enum Command {
    /// Switch to the workspace with this identifier.
    FocusWorkspace { id: u64 },
}

/// What can be sent to the compositor.
#[derive(Clone, Copy, Debug, PartialEq, Eq, Structural)]
pub enum Request {
    /// Ask for the list of workspaces.
    ListWorkspaces,
    /// Ask for notifications from now on.
    SubscribeEvents,
    /// Ask for a command to be carried out.
    Action(Command),
}

/// What the compositor answers.
#[derive(Debug, PartialEq, Eq)]
pub enum Response {
    /// The list of workspaces.
    Workspaces(Vec<Workspace>),
    /// The request was carried out and there is nothing to report.
    Handled,
    /// The compositor refused the request, with its reason.
    Error(String),
    /// An answer to some other kind of request.
    Other,
}

/// What a [`Response`] holds.
pub enum ResponseView {
    Workspaces(Seq<WorkspaceView>),
    Handled,
    Error(Seq<char>),
    Other,
}

impl View for Response {
    type V = ResponseView;

    open spec fn view(&self) -> ResponseView {
        match self {
            Response::Workspaces(list) => ResponseView::Workspaces(list.deep_view()),
            Response::Handled => ResponseView::Handled,
            Response::Error(reason) => ResponseView::Error(reason@),
            Response::Other => ResponseView::Other,
        }
    }
}

/// How one exchange of a request and its answer over a fresh connection ended.
#[derive(Debug, PartialEq, Eq)]
pub enum Exchange {
    /// The compositor could not be reached, or the connection broke.
    Unreachable,
    /// Something came back that could not be read as an answer.
    Malformed,
    /// The compositor answered.
    Answered(Response),
}

/// What an [`Exchange`] holds.
pub enum ExchangeView {
    Unreachable,
    Malformed,
    Answered(ResponseView),
}

impl View for Exchange {
    type V = ExchangeView;

    open spec fn view(&self) -> ExchangeView {
        match self {
            Exchange::Unreachable => ExchangeView::Unreachable,
            Exchange::Malformed => ExchangeView::Malformed,
            Exchange::Answered(response) => ExchangeView::Answered(response@),
        }
    }
}

/// Why an operation of the engine failed.
#[derive(Debug, PartialEq, Eq)]
pub enum EngineError {
    /// The compositor could not be reached, or the connection broke.
    Connection,
    /// The compositor answered with something that nobody had asked for, or
    /// with something that could not be read.
    Protocol,
    /// The compositor refused the request, with its reason.
    Application(String),
}

/// What an [`EngineError`] holds.
pub enum EngineErrorView {
    Connection,
    Protocol,
    Application(Seq<char>),
}

impl View for EngineError {
    type V = EngineErrorView;

    open spec fn view(&self) -> EngineErrorView {
        match self {
            EngineError::Connection => EngineErrorView::Connection,
            EngineError::Protocol => EngineErrorView::Protocol,
            EngineError::Application(reason) => EngineErrorView::Application(reason@),
        }
    }
}

impl Clone for EngineError {
    fn clone(&self) -> (copy: Self)
        ensures
            copy@ == self@,
    {
        match self {
            EngineError::Connection => EngineError::Connection,
            EngineError::Protocol => EngineError::Protocol,
            EngineError::Application(reason) => EngineError::Application(reason.clone()),
        }
    }
}

/// The request that asks the compositor to switch to a workspace.
pub fn focus_request(workspace_id: u64) -> (request: Request)
    ensures
        request == Request::Action((Command::FocusWorkspace { id: workspace_id })),
{
    Request::Action(Command::FocusWorkspace { id: workspace_id })
}

/// What an exchange that asked for the list of workspaces has brought: the
/// list, or the reason why there is none.
pub open spec fn workspaces_in(exchange: ExchangeView) -> Result<
    Seq<WorkspaceView>,
    EngineErrorView,
> {
    match exchange {
        ExchangeView::Unreachable => Err(EngineErrorView::Connection),
        ExchangeView::Malformed => Err(EngineErrorView::Protocol),
        ExchangeView::Answered(ResponseView::Workspaces(list)) => Ok(list),
        ExchangeView::Answered(ResponseView::Error(reason)) => Err(
            EngineErrorView::Application(reason),
        ),
        ExchangeView::Answered(_) => Err(EngineErrorView::Protocol),
    }
}

/// Whether an exchange that asked for something to be done was acknowledged,
/// and if not, why.
pub open spec fn acknowledgment_in(exchange: ExchangeView) -> Result<(), EngineErrorView> {
    match exchange {
        ExchangeView::Unreachable => Err(EngineErrorView::Connection),
        ExchangeView::Malformed => Err(EngineErrorView::Protocol),
        ExchangeView::Answered(ResponseView::Handled) => Ok(()),
        ExchangeView::Answered(ResponseView::Error(reason)) => Err(
            EngineErrorView::Application(reason),
        ),
        ExchangeView::Answered(_) => Err(EngineErrorView::Protocol),
    }
}

/// The snapshot that the bar starts with: the list that was fetched, or an
/// empty one where the compositor refused to give it. Any other failure
/// leaves the bar with nothing to start from.
pub open spec fn initial_list(exchange: ExchangeView) -> Result<
    Seq<WorkspaceView>,
    EngineErrorView,
> {
    match workspaces_in(exchange) {
        Ok(list) => Ok(list),
        Err(EngineErrorView::Application(_)) => Ok(Seq::empty()),
        Err(error) => Err(error),
    }
}

/// Reads the outcome of an exchange that asked for the list of workspaces.
///
/// The list comes back only from an answer that holds one. A refusal gives
/// [`EngineError::Application`] with the compositor's reason, a connection
/// that failed gives [`EngineError::Connection`], and an unreadable answer or
/// an answer of another kind gives [`EngineError::Protocol`].
pub fn read_workspaces(exchange: Exchange) -> (outcome: Result<Vec<Workspace>, EngineError>)
    ensures
        match outcome {
            Ok(list) => workspaces_in(exchange@) == Ok::<Seq<WorkspaceView>, EngineErrorView>(
                list.deep_view(),
            ),
            Err(error) => workspaces_in(exchange@) == Err::<Seq<WorkspaceView>, EngineErrorView>(
                error@,
            ),
        },
{
    match exchange {
        Exchange::Unreachable => Err(EngineError::Connection),
        Exchange::Malformed => Err(EngineError::Protocol),
        Exchange::Answered(response) => match response {
            Response::Workspaces(list) => Ok(list),
            Response::Error(reason) => Err(EngineError::Application(reason)),
            Response::Handled => Err(EngineError::Protocol),
            Response::Other => Err(EngineError::Protocol),
        },
    }
}

/// Reads the outcome of an exchange that asked for something to be done: a
/// subscription to notifications, or a switch to a workspace.
///
/// Only the plain acknowledgment counts as success. The errors are those of
/// [`read_workspaces`].
pub fn read_acknowledgment(exchange: Exchange) -> (outcome: Result<(), EngineError>)
    ensures
        match outcome {
            Ok(_) => acknowledgment_in(exchange@) == Ok::<(), EngineErrorView>(()),
            Err(error) => acknowledgment_in(exchange@) == Err::<(), EngineErrorView>(error@),
        },
{
    match exchange {
        Exchange::Unreachable => Err(EngineError::Connection),
        Exchange::Malformed => Err(EngineError::Protocol),
        Exchange::Answered(response) => match response {
            Response::Handled => Ok(()),
            Response::Error(reason) => Err(EngineError::Application(reason)),
            Response::Workspaces(_) => Err(EngineError::Protocol),
            Response::Other => Err(EngineError::Protocol),
        },
    }
}

/// The snapshot to show first, from the exchange that fetched it when the bar
/// started.
///
/// A refusal by the compositor is no reason not to start: the bar then
/// starts empty. `Err` means that the bar cannot start at all.
pub fn initial_snapshot(exchange: Exchange) -> (outcome: Result<Vec<Workspace>, EngineError>)
    ensures
        match outcome {
            Ok(list) => initial_list(exchange@) == Ok::<Seq<WorkspaceView>, EngineErrorView>(
                list.deep_view(),
            ),
            Err(error) => initial_list(exchange@) == Err::<Seq<WorkspaceView>, EngineErrorView>(
                error@,
            ),
        },
{
    match read_workspaces(exchange) {
        Ok(list) => Ok(list),
        Err(EngineError::Application(_)) => {
            let empty: Vec<Workspace> = Vec::new();
            assert(empty.deep_view() =~= Seq::<WorkspaceView>::empty());
            Ok(empty)
        },
        Err(error) => Err(error),
    }
}

} // verus!
