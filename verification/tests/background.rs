use niri_waybar::protocol::{EngineError, Event, Exchange, Response};
use niri_waybar::relay::{open_relay, Relay};
use niri_waybar::subscriber::{Directive, Phase, Signal, Subscriber};
use niri_waybar::workspace::Workspace;

fn list(tag: u64) -> Vec<Workspace> {
    vec![Workspace::new(tag, Some(format!("w{}", tag)), true), Workspace::new(tag + 100, None, false)]
}

fn fetched(tag: u64) -> Signal {
    Signal::Refetched(Exchange::Answered(Response::Workspaces(list(tag))))
}

fn acknowledged() -> Signal {
    Signal::Acknowledged(Exchange::Answered(Response::Handled))
}

#[test]
fn the_loop_begins_by_subscribing() {
    let (relay, _receiver) = open_relay();
    let (subscriber, first) = Subscriber::start(relay);
    assert_eq!(first, Directive::Subscribe);
    assert_eq!(subscriber.phase(), Phase::Subscribing);
    assert!(subscriber.awaits(&acknowledged()));
    assert!(!subscriber.awaits(&Signal::Notified(Event::WorkspacesChanged)));
    assert!(!subscriber.awaits(&Signal::StreamEnded));
    assert!(!subscriber.awaits(&fetched(1)));
}

#[test]
fn an_acknowledged_subscription_starts_listening() {
    let (relay, receiver) = open_relay();
    let (mut subscriber, _) = Subscriber::start(relay);
    assert_eq!(subscriber.step(acknowledged()), Directive::AwaitEvent);
    assert_eq!(subscriber.phase(), Phase::Listening);
    assert!(subscriber.awaits(&Signal::Notified(Event::Other)));
    assert!(subscriber.awaits(&Signal::StreamEnded));
    assert!(!subscriber.awaits(&acknowledged()));
    assert!(!subscriber.awaits(&fetched(1)));
    assert!(receiver.try_recv().is_err());
}

#[test]
fn a_subscription_that_is_not_acknowledged_ends_the_loop_with_the_reason() {
    let cases = vec![
        (Exchange::Unreachable, EngineError::Connection),
        (Exchange::Malformed, EngineError::Protocol),
        (Exchange::Answered(Response::Other), EngineError::Protocol),
        (Exchange::Answered(Response::Workspaces(list(1))), EngineError::Protocol),
        (
            Exchange::Answered(Response::Error("no".to_string())),
            EngineError::Application("no".to_string()),
        ),
    ];
    for (exchange, error) in cases {
        let (relay, receiver) = open_relay();
        let (mut subscriber, _) = Subscriber::start(relay);
        assert_eq!(subscriber.step(Signal::Acknowledged(exchange)), Directive::Stop(Err(error)));
        assert_eq!(subscriber.phase(), Phase::Finished);
        assert!(!subscriber.awaits(&Signal::StreamEnded));
        assert!(receiver.try_recv().is_err());
    }
}

#[test]
fn notifications_that_do_not_matter_never_lead_to_a_fetch() {
    let (relay, receiver) = open_relay();
    let (mut subscriber, _) = Subscriber::start(relay);
    subscriber.step(acknowledged());
    let mut fetches = 0;
    for _ in 0..50 {
        let directive = subscriber.step(Signal::Notified(Event::Other));
        if directive == Directive::Refetch {
            fetches += 1;
        }
        assert_eq!(directive, Directive::AwaitEvent);
        assert_eq!(subscriber.phase(), Phase::Listening);
    }
    assert_eq!(fetches, 0);
    assert!(receiver.try_recv().is_err());
}

#[test]
fn each_notification_that_matters_leads_to_one_fetch() {
    let (relay, _receiver) = open_relay();
    let (mut subscriber, _) = Subscriber::start(relay);
    subscriber.step(acknowledged());
    let events = [
        Event::WorkspacesChanged,
        Event::Other,
        Event::WorkspaceActivated,
        Event::WorkspaceActiveWindowChanged,
        Event::Other,
    ];
    let mut fetches = 0;
    for (i, event) in events.iter().enumerate() {
        match subscriber.step(Signal::Notified(*event)) {
            Directive::Refetch => {
                fetches += 1;
                assert_eq!(subscriber.phase(), Phase::Refetching);
                assert!(subscriber.awaits(&fetched(0)));
                assert!(!subscriber.awaits(&Signal::Notified(Event::Other)));
                assert_eq!(subscriber.step(fetched(i as u64)), Directive::AwaitEvent);
            }
            Directive::AwaitEvent => assert_eq!(*event, Event::Other),
            other => panic!("unexpected directive {:?}", other),
        }
        assert_eq!(subscriber.phase(), Phase::Listening);
    }
    assert_eq!(fetches, 3);
}

#[test]
fn fetched_lists_reach_the_consumer_in_their_order() {
    let (relay, receiver) = open_relay();
    let (mut subscriber, _) = Subscriber::start(relay);
    subscriber.step(acknowledged());
    let events = [Event::WorkspacesChanged, Event::WorkspaceActivated, Event::WorkspaceActiveWindowChanged];
    for tag in 1..=30u64 {
        let event = events[(tag % 3) as usize];
        assert_eq!(subscriber.step(Signal::Notified(event)), Directive::Refetch);
        assert_eq!(subscriber.step(fetched(tag)), Directive::AwaitEvent);
    }
    for tag in 1..=30u64 {
        assert_eq!(receiver.try_recv(), Ok(list(tag)));
    }
    assert!(receiver.try_recv().is_err());
}

#[test]
fn equal_lists_are_all_handed_over() {
    let (relay, receiver) = open_relay();
    let (mut subscriber, _) = Subscriber::start(relay);
    subscriber.step(acknowledged());
    for _ in 0..3 {
        subscriber.step(Signal::Notified(Event::WorkspacesChanged));
        subscriber.step(fetched(7));
    }
    assert_eq!(receiver.len(), 3);
    for _ in 0..3 {
        assert_eq!(receiver.try_recv(), Ok(list(7)));
    }
}

#[test]
fn a_failed_fetch_is_passed_over_and_the_next_one_counts() {
    let (relay, receiver) = open_relay();
    let (mut subscriber, _) = Subscriber::start(relay);
    subscriber.step(acknowledged());
    let failures = vec![
        Exchange::Unreachable,
        Exchange::Malformed,
        Exchange::Answered(Response::Handled),
        Exchange::Answered(Response::Other),
        Exchange::Answered(Response::Error("busy".to_string())),
    ];
    for failure in failures {
        assert_eq!(subscriber.step(Signal::Notified(Event::WorkspaceActivated)), Directive::Refetch);
        assert_eq!(subscriber.step(Signal::Refetched(failure)), Directive::AwaitEvent);
        assert_eq!(subscriber.phase(), Phase::Listening);
        assert!(receiver.try_recv().is_err());
    }
    assert_eq!(subscriber.step(Signal::Notified(Event::WorkspaceActivated)), Directive::Refetch);
    assert_eq!(subscriber.step(fetched(9)), Directive::AwaitEvent);
    assert_eq!(receiver.try_recv(), Ok(list(9)));
    assert!(receiver.try_recv().is_err());
}

#[test]
fn the_end_of_the_notifications_ends_the_loop_without_an_error() {
    let (relay, _receiver) = open_relay();
    let (mut subscriber, _) = Subscriber::start(relay);
    subscriber.step(acknowledged());
    subscriber.step(Signal::Notified(Event::Other));
    assert_eq!(subscriber.step(Signal::StreamEnded), Directive::Stop(Ok(())));
    assert_eq!(subscriber.phase(), Phase::Finished);
    assert!(!subscriber.awaits(&Signal::Notified(Event::Other)));
    assert!(!subscriber.awaits(&Signal::StreamEnded));
}

#[test]
fn a_consumer_that_is_gone_does_not_stop_the_loop() {
    let (relay, receiver) = open_relay();
    let (mut subscriber, _) = Subscriber::start(relay);
    subscriber.step(acknowledged());
    drop(receiver);
    for tag in 0..5u64 {
        assert_eq!(subscriber.step(Signal::Notified(Event::WorkspacesChanged)), Directive::Refetch);
        assert_eq!(subscriber.step(fetched(tag)), Directive::AwaitEvent);
        assert_eq!(subscriber.phase(), Phase::Listening);
    }
}

#[test]
fn the_relay_takes_lists_while_the_consumer_lives() {
    let (mut relay, receiver) = open_relay();
    assert!(relay.forward(list(1)));
    assert!(relay.forward(Vec::new()));
    assert!(relay.forward(list(2)));
    assert_eq!(receiver.try_recv(), Ok(list(1)));
    assert_eq!(receiver.try_recv(), Ok(Vec::new()));
    assert_eq!(receiver.try_recv(), Ok(list(2)));
    assert!(receiver.try_recv().is_err());
}

#[test]
fn the_relay_reports_a_consumer_that_is_gone() {
    let (mut relay, receiver) = open_relay();
    assert!(relay.forward(list(1)));
    drop(receiver);
    assert!(!relay.forward(list(2)));
    assert!(!relay.forward(list(3)));
}

#[test]
fn the_relay_never_waits_for_the_consumer() {
    let (mut relay, receiver) = open_relay();
    for tag in 0..10_000u64 {
        assert!(relay.forward(list(tag)));
    }
    assert_eq!(receiver.len(), 10_000);
    assert_eq!(receiver.capacity(), None);
    assert_eq!(receiver.try_recv(), Ok(list(0)));
}

fn must_be_send<T: Send>(value: T) -> T {
    value
}

#[test]
fn the_producers_end_can_move_to_another_thread() {
    let (relay, receiver) = open_relay();
    let mut relay: Relay = must_be_send(relay);
    assert!(relay.forward(list(4)));
    let (subscriber, _) = Subscriber::start(relay);
    let mut subscriber = must_be_send(subscriber);
    subscriber.step(acknowledged());
    assert_eq!(receiver.try_recv(), Ok(list(4)));
}
