use niri_waybar::display::DisplaySpec;
use niri_waybar::panel::Panel;
use niri_waybar::protocol::{
    focus_request, initial_snapshot, read_acknowledgment, read_workspaces, Command, EngineError,
    Event, Exchange, Request, Response,
};
use niri_waybar::workspace::Workspace;

fn two_workspaces() -> Vec<Workspace> {
    vec![Workspace::new(1, None, true), Workspace::new(2, Some("web".to_string()), false)]
}

#[test]
fn only_three_kinds_of_notification_matter() {
    assert!(Event::WorkspacesChanged.is_relevant());
    assert!(Event::WorkspaceActivated.is_relevant());
    assert!(Event::WorkspaceActiveWindowChanged.is_relevant());
    assert!(!Event::Other.is_relevant());
}

#[test]
fn focus_request_names_the_workspace() {
    assert_eq!(focus_request(2), Request::Action(Command::FocusWorkspace { id: 2 }));
    assert_eq!(focus_request(u64::MAX), Request::Action(Command::FocusWorkspace { id: u64::MAX }));
    assert_ne!(focus_request(2), focus_request(3));
}

#[test]
fn a_list_is_read_from_an_answer_that_holds_one() {
    let outcome = read_workspaces(Exchange::Answered(Response::Workspaces(two_workspaces())));
    assert_eq!(outcome, Ok(two_workspaces()));
}

#[test]
fn a_refused_fetch_gives_the_compositors_reason() {
    let outcome = read_workspaces(Exchange::Answered(Response::Error("busy".to_string())));
    assert_eq!(outcome, Err(EngineError::Application("busy".to_string())));
}

#[test]
fn a_fetch_that_could_not_connect_gives_a_connection_error() {
    assert_eq!(read_workspaces(Exchange::Unreachable), Err(EngineError::Connection));
}

#[test]
fn a_fetch_with_an_unreadable_or_wrong_answer_gives_a_protocol_error() {
    assert_eq!(read_workspaces(Exchange::Malformed), Err(EngineError::Protocol));
    assert_eq!(read_workspaces(Exchange::Answered(Response::Handled)), Err(EngineError::Protocol));
    assert_eq!(read_workspaces(Exchange::Answered(Response::Other)), Err(EngineError::Protocol));
}

#[test]
fn only_the_plain_acknowledgment_counts() {
    assert_eq!(read_acknowledgment(Exchange::Answered(Response::Handled)), Ok(()));
    assert_eq!(
        read_acknowledgment(Exchange::Answered(Response::Workspaces(two_workspaces()))),
        Err(EngineError::Protocol)
    );
    assert_eq!(read_acknowledgment(Exchange::Answered(Response::Other)), Err(EngineError::Protocol));
    assert_eq!(read_acknowledgment(Exchange::Malformed), Err(EngineError::Protocol));
    assert_eq!(read_acknowledgment(Exchange::Unreachable), Err(EngineError::Connection));
    assert_eq!(
        read_acknowledgment(Exchange::Answered(Response::Error("no such workspace".to_string()))),
        Err(EngineError::Application("no such workspace".to_string()))
    );
}

#[test]
fn the_bar_starts_with_the_fetched_list() {
    let outcome = initial_snapshot(Exchange::Answered(Response::Workspaces(two_workspaces())));
    assert_eq!(outcome, Ok(two_workspaces()));
}

#[test]
fn the_bar_starts_empty_where_the_compositor_refuses() {
    let outcome = initial_snapshot(Exchange::Answered(Response::Error("later".to_string())));
    assert_eq!(outcome, Ok(Vec::new()));
}

#[test]
fn the_bar_cannot_start_without_a_connection_or_a_proper_answer() {
    assert_eq!(initial_snapshot(Exchange::Unreachable), Err(EngineError::Connection));
    assert_eq!(initial_snapshot(Exchange::Malformed), Err(EngineError::Protocol));
    assert_eq!(initial_snapshot(Exchange::Answered(Response::Handled)), Err(EngineError::Protocol));
    assert_eq!(initial_snapshot(Exchange::Answered(Response::Other)), Err(EngineError::Protocol));
}

#[test]
fn a_focus_that_cannot_connect_fails_and_leaves_the_display_alone() {
    let mut panel = Panel::new(DisplaySpec::default());
    panel.show(&two_workspaces());
    let before = panel.labels().clone();

    let request = focus_request(2);
    assert_eq!(request, Request::Action(Command::FocusWorkspace { id: 2 }));
    let outcome = read_acknowledgment(Exchange::Unreachable);

    assert_eq!(outcome, Err(EngineError::Connection));
    assert_eq!(panel.labels(), &before);
}

#[test]
fn errors_can_be_copied() {
    let e = EngineError::Application("why".to_string());
    assert_eq!(e.clone(), e);
    assert_eq!(EngineError::Connection.clone(), EngineError::Connection);
    assert_eq!(EngineError::Protocol.clone(), EngineError::Protocol);
}
