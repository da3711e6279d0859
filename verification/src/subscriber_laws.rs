//! What holds of every run of the background loop.

use crate::protocol::{Event, ExchangeView, ResponseView};
use crate::subscriber::{
    accepts, directive_for, forwarded_by, next_phase, DirectiveView, Phase, SignalView,
    SubscriberView,
};
use crate::workspace::WorkspaceView;
use vstd::prelude::*;

verus! {

/// The state that a run of signals leads to.
pub open spec fn run(state: SubscriberView, signals: Seq<SignalView>) -> SubscriberView
    decreases signals.len(),
{
    if signals.len() == 0 {
        state
    } else {
        run(state, signals.drop_last()).advance(signals.last())
    }
}

/// Whether each signal of a run is reported in a phase that accepts it.
pub open spec fn in_turn(state: SubscriberView, signals: Seq<SignalView>) -> bool
    decreases signals.len(),
{
    if signals.len() == 0 {
        true
    } else {
        in_turn(state, signals.drop_last()) && accepts(
            run(state, signals.drop_last()).phase,
            signals.last(),
        )
    }
}

/// How many fetches a run of signals asks for.
pub open spec fn refetches(state: SubscriberView, signals: Seq<SignalView>) -> nat
    decreases signals.len(),
{
    if signals.len() == 0 {
        0
    } else {
        let before = refetches(state, signals.drop_last());
        if directive_for(run(state, signals.drop_last()).phase, signals.last())
            == DirectiveView::Refetch {
            before + 1
        } else {
            before
        }
    }
}

/// The signals of a run in which nothing but notifications arrive.
pub open spec fn notifications(events: Seq<Event>) -> Seq<SignalView> {
    Seq::new(events.len(), |i: int| SignalView::Notified(events[i]))
}

/// The signals of a run in which each notification is followed by a fetch
/// that brings a list: the first notification, the first list, the second
/// notification, the second list, and so on.
pub open spec fn rounds(events: Seq<Event>, lists: Seq<Seq<WorkspaceView>>) -> Seq<SignalView>
    recommends
        events.len() == lists.len(),
    decreases events.len(),
{
    if events.len() == 0 {
        Seq::empty()
    } else {
        rounds(events.drop_last(), lists.drop_last()).push(
            SignalView::Notified(events.last()),
        ).push(
            SignalView::Refetched(ExchangeView::Answered(ResponseView::Workspaces(lists.last()))),
        )
    }
}

/// A fetch is asked for in one case only: a notification that matters has
/// arrived while the subscription stands. And a snapshot is handed to the
/// consumer in one case only: a fetch has brought a list.
pub proof fn lemma_fetch_only_when_relevant(phase: Phase, signal: SignalView)
    ensures
        directive_for(phase, signal) == DirectiveView::Refetch <==> phase == Phase::Listening && (
        signal matches SignalView::Notified(event) && event.relevant()),
        next_phase(phase, signal) == Phase::Refetching && phase != Phase::Refetching ==> (
        signal matches SignalView::Notified(event) && event.relevant()),
        forwarded_by(phase, signal) is Some ==> phase == Phase::Refetching
            && signal is Refetched,
{
}

/// Notifications that do not matter change nothing: however many arrive
/// while the subscription stands, no fetch is asked for, nothing is handed to
/// the consumer, and the loop goes on listening.
pub proof fn lemma_irrelevant_events_never_refetch(
    state: SubscriberView,
    events: Seq<Event>,
)
    requires
        state.phase == Phase::Listening,
        forall|i: int| 0 <= i < events.len() ==> !(#[trigger] events[i]).relevant(),
    ensures
        in_turn(state, notifications(events)),
        refetches(state, notifications(events)) == 0,
        run(state, notifications(events)) == state,
    decreases events.len(),
{
    let signals = notifications(events);
    if events.len() > 0 {
        let front = events.drop_last();
        assert(signals.drop_last() =~= notifications(front));
        assert forall|i: int| 0 <= i < front.len() implies !(#[trigger] front[i]).relevant() by {
            assert(!events[i].relevant());
        }
        lemma_irrelevant_events_never_refetch(state, front);
        assert(signals.last() == SignalView::Notified(events[events.len() - 1]));
        assert(!events[events.len() - 1].relevant());
    }
}

/// The snapshots that were handed to the consumer stay handed over, in
/// their order: a run only ever adds to their end.
pub proof fn lemma_forwarded_only_grows(state: SubscriberView, signals: Seq<SignalView>)
    ensures
        state.forwarded.len() <= run(state, signals).forwarded.len(),
        run(state, signals).forwarded.take(state.forwarded.len() as int) == state.forwarded,
    decreases signals.len(),
{
    if signals.len() > 0 {
        lemma_forwarded_only_grows(state, signals.drop_last());
        let before = run(state, signals.drop_last());
        assert(run(state, signals).forwarded.take(state.forwarded.len() as int)
            =~= before.forwarded.take(state.forwarded.len() as int));
    } else {
        assert(state.forwarded.take(state.forwarded.len() as int) =~= state.forwarded);
    }
}

/// Where each notification matters and each fetch brings a list, the
/// consumer is handed exactly those lists, in the order of the
/// notifications: one fetch for each notification, none passed over, none
/// twice, none out of turn.
pub proof fn lemma_snapshots_forwarded_in_order(
    state: SubscriberView,
    events: Seq<Event>,
    lists: Seq<Seq<WorkspaceView>>,
)
    requires
        state.phase == Phase::Listening,
        events.len() == lists.len(),
        forall|i: int| 0 <= i < events.len() ==> (#[trigger] events[i]).relevant(),
    ensures
        in_turn(state, rounds(events, lists)),
        run(state, rounds(events, lists)).phase == Phase::Listening,
        run(state, rounds(events, lists)).forwarded == state.forwarded + lists,
        refetches(state, rounds(events, lists)) == events.len(),
    decreases events.len(),
{
    let signals = rounds(events, lists);
    if events.len() > 0 {
        let front = events.drop_last();
        let front_lists = lists.drop_last();
        assert forall|i: int| 0 <= i < front.len() implies (#[trigger] front[i]).relevant() by {
            assert(events[i].relevant());
        }
        lemma_snapshots_forwarded_in_order(state, front, front_lists);
        let earlier = rounds(front, front_lists);
        let notified = earlier.push(SignalView::Notified(events.last()));
        let refetched = SignalView::Refetched(
            ExchangeView::Answered(ResponseView::Workspaces(lists.last())),
        );
        assert(events[events.len() - 1].relevant());
        assert(signals == notified.push(refetched));
        assert(signals.drop_last() =~= notified);
        assert(notified.drop_last() =~= earlier);
        assert(in_turn(state, notified));
        assert(run(state, notified).phase == Phase::Refetching);
        assert(run(state, notified).forwarded == state.forwarded + front_lists);
        assert(refetches(state, notified) == front.len() + 1);
        assert(state.forwarded + lists =~= (state.forwarded + front_lists).push(lists.last()));
    } else {
        assert(state.forwarded + lists =~= state.forwarded);
    }
}

} // verus!
