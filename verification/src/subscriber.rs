//! The background loop: subscribe, listen, and fetch anew whenever a
//! notification matters.
//!
//! The loop itself waits on sockets and so runs outside this library. Here
//! stands what it decides: [`Subscriber::step`] takes what has just happened
//! and says what to do next.

use crate::protocol::{
    acknowledgment_in, read_acknowledgment, read_workspaces, workspaces_in, EngineError,
    EngineErrorView, Event, Exchange, ExchangeView,
};
use crate::relay::Relay;
use crate::workspace::WorkspaceView;
use vstd::prelude::*;

verus! {

/// Where the background loop stands.
#[derive(Clone, Copy, Debug, PartialEq, Eq, Structural)]
pub enum Phase {
    /// The request for notifications is under way.
    Subscribing,
    /// The subscription stands, and the next notification is awaited.
    Listening,
    /// A notification mattered, and the list of workspaces is being fetched.
    Refetching,
    /// The loop has ended.
    Finished,
}

/// What has just happened, as the loop reports it.
#[derive(Debug, PartialEq, Eq)]
pub enum Signal {
    /// The exchange that asked for notifications has ended.
    Acknowledged(Exchange),
    /// A notification has arrived.
    Notified(Event),
    /// No more notifications will come: the compositor has closed the
    /// connection, or has sent something unreadable.
    StreamEnded,
    /// The exchange that asked for the list of workspaces has ended.
    Refetched(Exchange),
}

/// What a [`Signal`] holds.
pub enum SignalView {
    Acknowledged(ExchangeView),
    Notified(Event),
    StreamEnded,
    Refetched(ExchangeView),
}

impl View for Signal {
    type V = SignalView;

    open spec fn view(&self) -> SignalView {
        match self {
            Signal::Acknowledged(exchange) => SignalView::Acknowledged(exchange@),
            Signal::Notified(event) => SignalView::Notified(*event),
            Signal::StreamEnded => SignalView::StreamEnded,
            Signal::Refetched(exchange) => SignalView::Refetched(exchange@),
        }
    }
}

/// What the loop is to do next.
#[derive(Debug, PartialEq, Eq)]
pub enum Directive {
    /// Open a connection of its own for the notifications and ask for them;
    /// report the outcome as [`Signal::Acknowledged`].
    Subscribe,
    /// Wait for the next notification; report it as [`Signal::Notified`], or
    /// [`Signal::StreamEnded`] where none can come any more.
    AwaitEvent,
    /// Ask for the list of workspaces over a fresh connection; report the
    /// outcome as [`Signal::Refetched`].
    Refetch,
    /// Leave the loop with this result.
    Stop(Result<(), EngineError>),
}

/// What a [`Directive`] holds.
pub enum DirectiveView {
    Subscribe,
    AwaitEvent,
    Refetch,
    Stop(Result<(), EngineErrorView>),
}

impl View for Directive {
    type V = DirectiveView;

    open spec fn view(&self) -> DirectiveView {
        match self {
            Directive::Subscribe => DirectiveView::Subscribe,
            Directive::AwaitEvent => DirectiveView::AwaitEvent,
            Directive::Refetch => DirectiveView::Refetch,
            Directive::Stop(Ok(_)) => DirectiveView::Stop(Ok(())),
            Directive::Stop(Err(error)) => DirectiveView::Stop(Err(error@)),
        }
    }
}

/// Whether `signal` is one that the loop can report while in `phase`.
pub open spec fn accepts(phase: Phase, signal: SignalView) -> bool {
    match (phase, signal) {
        (Phase::Subscribing, SignalView::Acknowledged(_)) => true,
        (Phase::Listening, SignalView::Notified(_)) => true,
        (Phase::Listening, SignalView::StreamEnded) => true,
        (Phase::Refetching, SignalView::Refetched(_)) => true,
        _ => false,
    }
}

/// The phase that follows `phase` once `signal` has been reported.
///
/// The subscription stands only once the compositor has acknowledged it.
/// While it stands, a notification that matters starts a fetch, any other
/// changes nothing, and the end of the notifications ends the loop. A fetch,
/// however it ends, leads back to listening.
pub open spec fn next_phase(phase: Phase, signal: SignalView) -> Phase
    recommends
        accepts(phase, signal),
{
    match (phase, signal) {
        (Phase::Subscribing, SignalView::Acknowledged(exchange)) => if acknowledgment_in(
            exchange,
        ) is Ok {
            Phase::Listening
        } else {
            Phase::Finished
        },
        (Phase::Listening, SignalView::Notified(event)) => if event.relevant() {
            Phase::Refetching
        } else {
            Phase::Listening
        },
        (Phase::Listening, SignalView::StreamEnded) => Phase::Finished,
        (Phase::Refetching, SignalView::Refetched(_)) => Phase::Listening,
        _ => phase,
    }
}

/// The snapshot that is handed to the consumer when `signal` is reported in
/// `phase`: the list that a fetch has brought, and nothing in any other case.
pub open spec fn forwarded_by(phase: Phase, signal: SignalView) -> Option<Seq<WorkspaceView>>
    recommends
        accepts(phase, signal),
{
    match (phase, signal) {
        (Phase::Refetching, SignalView::Refetched(exchange)) => match workspaces_in(exchange) {
            Ok(list) => Some(list),
            Err(_) => None,
        },
        _ => None,
    }
}

/// What the loop is told to do when it reports `signal` in `phase`.
///
/// A subscription that was not acknowledged ends the loop with the reason;
/// the end of the notifications ends it without one.
pub open spec fn directive_for(phase: Phase, signal: SignalView) -> DirectiveView
    recommends
        accepts(phase, signal),
{
    match (phase, signal) {
        (Phase::Subscribing, SignalView::Acknowledged(exchange)) => match acknowledgment_in(
            exchange,
        ) {
            Ok(_) => DirectiveView::AwaitEvent,
            Err(error) => DirectiveView::Stop(Err(error)),
        },
        (Phase::Listening, SignalView::Notified(event)) => if event.relevant() {
            DirectiveView::Refetch
        } else {
            DirectiveView::AwaitEvent
        },
        (Phase::Listening, SignalView::StreamEnded) => DirectiveView::Stop(Ok(())),
        (Phase::Refetching, SignalView::Refetched(_)) => DirectiveView::AwaitEvent,
        _ => DirectiveView::Stop(Ok(())),
    }
}

/// The state of the background loop, as far as contracts speak of it.
pub struct SubscriberView {
    /// Where the loop stands.
    pub phase: Phase,
    /// The snapshots handed to the consumer so far, oldest first.
    pub forwarded: Seq<Seq<WorkspaceView>>,
}

impl SubscriberView {
    /// The state after `signal` has been reported.
    pub open spec fn advance(self, signal: SignalView) -> SubscriberView
        recommends
            accepts(self.phase, signal),
    {
        SubscriberView {
            phase: next_phase(self.phase, signal),
            forwarded: match forwarded_by(self.phase, signal) {
                Some(list) => self.forwarded.push(list),
                None => self.forwarded,
            },
        }
    }
}

/// The background loop's state: where it stands, and the channel through
/// which it hands snapshots to the consumer.
pub struct Subscriber {
    phase: Phase,
    relay: Relay,
}

impl View for Subscriber {
    type V = SubscriberView;

    closed spec fn view(&self) -> SubscriberView {
        SubscriberView { phase: self.phase, forwarded: self.relay.offered() }
    }
}

impl Subscriber {
    /// A loop that has not begun, and what it is to do first: subscribe.
    pub fn start(relay: Relay) -> (begun: (Subscriber, Directive))
        ensures
            begun.0@.phase == Phase::Subscribing,
            begun.0@.forwarded == relay.offered(),
            begun.1@ == DirectiveView::Subscribe,
    {
        (Subscriber { phase: Phase::Subscribing, relay }, Directive::Subscribe)
    }

    /// Where the loop stands.
    pub fn phase(&self) -> (phase: Phase)
        ensures
            phase == self@.phase,
    {
        self.phase
    }

    /// Whether `signal` is one that the loop can report now.
    pub fn awaits(&self, signal: &Signal) -> (awaited: bool)
        ensures
            awaited == accepts(self@.phase, signal@),
    {
        match (self.phase, signal) {
            (Phase::Subscribing, Signal::Acknowledged(_)) => true,
            (Phase::Listening, Signal::Notified(_)) => true,
            (Phase::Listening, Signal::StreamEnded) => true,
            (Phase::Refetching, Signal::Refetched(_)) => true,
            _ => false,
        }
    }

    /// Takes note of what has just happened and says what to do next.
    ///
    /// A list that a fetch has brought is handed to the consumer at once, as
    /// it is and after all that were handed over before. A fetch that failed
    /// is passed over in silence: the bar stays as it is until the next
    /// notification that matters. Only a notification that matters leads to a
    /// fetch.
    pub fn step(&mut self, signal: Signal) -> (directive: Directive)
        requires
            accepts(old(self)@.phase, signal@),
        ensures
            final(self)@ == old(self)@.advance(signal@),
            directive@ == directive_for(old(self)@.phase, signal@),
    {
        match signal {
            Signal::Acknowledged(exchange) => match read_acknowledgment(exchange) {
                Ok(_) => {
                    self.phase = Phase::Listening;
                    Directive::AwaitEvent
                },
                Err(error) => {
                    self.phase = Phase::Finished;
                    Directive::Stop(Err(error))
                },
            },
            Signal::Notified(event) => {
                if event.is_relevant() {
                    self.phase = Phase::Refetching;
                    Directive::Refetch
                } else {
                    Directive::AwaitEvent
                }
            },
            Signal::StreamEnded => {
                self.phase = Phase::Finished;
                Directive::Stop(Ok(()))
            },
            Signal::Refetched(exchange) => {
                self.phase = Phase::Listening;
                match read_workspaces(exchange) {
                    Ok(list) => {
                        let _ = self.relay.forward(list);
                    },
                    Err(_) => {},
                }
                Directive::AwaitEvent
            },
        }
    }
}

} // verus!
