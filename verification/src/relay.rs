//! The channel that carries fresh snapshots from the background thread to
//! the thread that draws.

use crate::workspace::{Workspace, WorkspaceView};
use vstd::prelude::*;

verus! {

/// The sending end of a channel of the `async_channel` crate. Nothing is
/// known about what is inside.
#[verifier::external_type_specification]
#[verifier::external_body]
#[verifier::reject_recursive_types(T)]
pub struct ExSender<T>(async_channel::Sender<T>);

/// The receiving end of a channel of the `async_channel` crate. Nothing is
/// known about what is inside.
#[verifier::external_type_specification]
#[verifier::external_body]
#[verifier::reject_recursive_types(T)]
pub struct ExReceiver<T>(async_channel::Receiver<T>);

/// `async_channel::unbounded` makes a channel without a limit on the number
/// of messages that wait in it, and returns its two ends. Nothing is claimed
/// about them.
pub assume_specification<T>[ async_channel::unbounded::<T> ]() -> (ends: (
    async_channel::Sender<T>,
    async_channel::Receiver<T>,
));

/// `async_channel::Sender::try_send` puts a message into the channel without
/// ever waiting, and reports failure where the channel is closed or full. The
/// result here is whether it reported success. Whether it does depends on
/// what the other end has done, so nothing is claimed about the result.
#[verifier::external_body]
fn try_send(sender: &async_channel::Sender<Vec<Workspace>>, list: Vec<Workspace>) -> (queued: bool) {
    sender.try_send(list).is_ok()
}

/// The producer's end of the channel for snapshots.
///
/// Handing a snapshot over never waits, so a consumer that is slow or gone
/// cannot hold up the thread that listens to the compositor.
pub struct Relay {
    sender: async_channel::Sender<Vec<Workspace>>,
    offered: Ghost<Seq<Seq<WorkspaceView>>>,
}

impl Relay {
    /// The snapshots that were handed to the channel through this end so
    /// far, oldest first.
    pub closed spec fn offered(&self) -> Seq<Seq<WorkspaceView>> {
        self.offered@
    }

    /// Hands a snapshot to the channel, after all that were handed over
    /// before.
    ///
    /// Returns whether the channel took it. It does not where the consumer
    /// is gone; the snapshot is then lost, which is what is wanted while the
    /// bar is being torn down.
    pub fn forward(&mut self, list: Vec<Workspace>) -> (queued: bool)
        ensures
            final(self).offered() == old(self).offered().push(list.deep_view()),
    {
        let ghost snapshot = list.deep_view();
        let queued = try_send(&self.sender, list);
        self.offered = Ghost(self.offered@.push(snapshot));
        queued
    }
}

/// Opens the channel for snapshots: one without a limit, so that handing a
/// snapshot over never has to wait for room.
///
/// Returns the producer's end, through which nothing has been handed over
/// yet, and the consumer's end. In which order the snapshots come out there
/// is the channel's own affair: `async_channel` documents a queue.
pub fn open_relay() -> (ends: (Relay, async_channel::Receiver<Vec<Workspace>>))
    ensures
        ends.0.offered() == Seq::<Seq<WorkspaceView>>::empty(),
{
    let (sender, receiver) = async_channel::unbounded();
    (Relay { sender, offered: Ghost(Seq::empty()) }, receiver)
}

} // verus!
