//! The fan-out registry: one bounded outbound queue per subscriber stream,
//! keyed by [`StreamId`]. The observer publishes once; the registry
//! attempts a non-blocking delivery to every registered queue. A queue that
//! is full at publish time simply misses that value — slow consumers lose
//! updates rather than ever blocking the native observer thread.

use vstd::prelude::*;

use futures::channel::mpsc::{Receiver, Sender};

use crate::error::ClipboardResult;
use crate::stream::StreamId;

verus! {

/// Declares futures_channel::mpsc::Sender, the sending end of one
/// bounded subscriber queue, as an opaque outside type.
#[verifier::external_type_specification]
#[verifier::external_body]
#[verifier::reject_recursive_types(T)]
pub struct ExSender<T>(Sender<T>);

/// Declares futures_channel::mpsc::Receiver, the receiving end of one
/// bounded subscriber queue, as an opaque outside type.
#[verifier::external_type_specification]
#[verifier::external_body]
#[verifier::reject_recursive_types(T)]
pub struct ExReceiver<T>(Receiver<T>);

/// Relies on futures_channel::mpsc::channel: creates one bounded queue,
/// returning its sending and receiving end. The capacity bound keeps the
/// call below the implementation's maximum buffer size; at or beyond that
/// size the call would panic.
#[verifier::external_body]
fn channel_pair(buffer: usize) -> (r: (Sender<ClipboardResult>, Receiver<ClipboardResult>))
    requires
        buffer < usize::MAX / 4,
{
    futures::channel::mpsc::channel(buffer)
}

/// Relies on futures_channel::mpsc::Sender::try_send: queues a copy of the
/// value without ever blocking, reporting whether the queue accepted it; a
/// queue that is full or whose receiving end is gone refuses the value.
#[verifier::external_body]
fn try_send_copy(tx: &mut Sender<ClipboardResult>, value: &ClipboardResult) -> (accepted: bool) {
    tx.try_send(value.clone()).is_ok()
}

/// The fan-out registry: every registered subscriber queue, keyed by
/// [`StreamId`]. Identifiers are handed out by the registry itself,
/// monotonically, so no two live entries ever share one. The platform
/// driver shares the registry with every stream behind one lock.
pub struct BodySenders {
    entries: Vec<(StreamId, Sender<ClipboardResult>)>,
    next_id: usize,
}

impl BodySenders {
    /// The registered stream identifiers, in registration order.
    pub closed spec fn ids(&self) -> Seq<usize> {
        self.entries@.map_values(|e: (StreamId, Sender<ClipboardResult>)| e.0.0)
    }

    /// The identifier the next registration will receive.
    pub closed spec fn counter(&self) -> usize {
        self.next_id
    }

    /// Structural invariant: every registered identifier was handed out by
    /// the counter, so the entries are pairwise distinct.
    pub closed spec fn wf(&self) -> bool {
        &&& forall|i: int| 0 <= i < self.ids().len() ==> #[trigger] self.ids()[i] < self.next_id
        &&& forall|i: int, j: int|
            0 <= i < j < self.ids().len() ==> #[trigger] self.ids()[i] != #[trigger] self.ids()[j]
    }

    /// An empty registry.
    pub fn new() -> (r: BodySenders)
        ensures
            r.wf(),
            r.ids() == Seq::<usize>::empty(),
            r.counter() == 0,
    {
        let r = BodySenders { entries: Vec::new(), next_id: 0 };
        proof {
            assert(r.ids() =~= Seq::<usize>::empty());
        }
        r
    }

    /// Registers one new subscriber: creates its bounded queue, assigns the
    /// next fresh identifier, and returns the identifier with the receiving
    /// end of the queue. The identifier is not shared with any live entry.
    pub fn register(&mut self, buffer: usize) -> (r: (StreamId, Receiver<ClipboardResult>))
        requires
            old(self).wf(),
            old(self).counter() < usize::MAX,
            buffer < usize::MAX / 4,
        ensures
            final(self).wf(),
            r.0.0 == old(self).counter(),
            final(self).counter() == old(self).counter() + 1,
            final(self).ids() == old(self).ids().push(r.0.0),
            !old(self).ids().contains(r.0.0),
    {
        let idv = self.next_id;
        self.next_id = idv + 1;
        let (tx, rx) = channel_pair(buffer);
        self.entries.push((StreamId(idv), tx));
        proof {
            assert(self.ids() =~= old(self).ids().push(idv));
        }
        (StreamId(idv), rx)
    }

    /// Removes the entry of one subscriber, dropping the sending end of its
    /// queue: later publishes no longer attempt delivery to it, and its
    /// receiver sees the end of the stream once drained.
    pub fn unregister(&mut self, id: &StreamId)
        requires
            old(self).wf(),
        ensures
            final(self).wf(),
            final(self).counter() == old(self).counter(),
            !final(self).ids().contains(id.0),
            old(self).ids().contains(id.0) ==> exists|i: int|
                0 <= i < old(self).ids().len() && old(self).ids()[i] == id.0 && final(self).ids()
                    == #[trigger] old(self).ids().remove(i),
            !old(self).ids().contains(id.0) ==> final(self).ids() == old(self).ids(),
    {
        let ghost old_ids = self.ids();
        let n = self.entries.len();
        let mut i: usize = 0;
        while i < n
            invariant
                self == old(self),
                old(self).wf(),
                old_ids == old(self).ids(),
                n == self.entries@.len(),
                0 <= i <= n,
                forall|k: int| 0 <= k < i ==> #[trigger] old_ids[k] != id.0,
            decreases n - i,
        {
            if self.entries[i].0.0 == id.0 {
                proof {
                    assert(old_ids[i as int] == id.0);
                }
                self.entries.remove(i);
                proof {
                    assert(self.ids() =~= old_ids.remove(i as int));
                    assert forall|k: int|
                        0 <= k < self.ids().len() implies #[trigger] self.ids()[k] != id.0 by {
                        if k < i {
                            assert(self.ids()[k] == old_ids[k]);
                        } else {
                            assert(self.ids()[k] == old_ids[k + 1]);
                            assert(old_ids[k + 1] != old_ids[i as int]);
                        }
                    }
                }
                return ;
            }
            i = i + 1;
        }
        proof {
            assert(!old_ids.contains(id.0));
        }
    }

    /// Attempts one non-blocking delivery of the result to every registered
    /// queue, in registration order, and reports how many queues accepted
    /// it. No entry is added or removed: a full queue only misses this one
    /// value, and never delays the others.
    pub fn send_all(&mut self, result: &ClipboardResult) -> (delivered: usize)
        requires
            old(self).wf(),
        ensures
            final(self).wf(),
            final(self).ids() == old(self).ids(),
            final(self).counter() == old(self).counter(),
            delivered <= old(self).ids().len(),
    {
        let ghost old_ids = self.ids();
        let n = self.entries.len();
        let mut delivered: usize = 0;
        let mut i: usize = 0;
        while i < n
            invariant
                self.wf(),
                old_ids == old(self).ids(),
                self.ids() == old_ids,
                self.counter() == old(self).counter(),
                n == self.entries@.len(),
                0 <= i <= n,
                delivered <= i,
            decreases n - i,
        {
            let entry = &mut self.entries[i];
            let accepted = try_send_copy(&mut entry.1, result);
            proof {
                assert(self.ids() =~= old_ids);
            }
            if accepted {
                delivered = delivered + 1;
            }
            i = i + 1;
        }
        delivered
    }

    /// How many subscribers are registered.
    pub fn len(&self) -> (r: usize)
        ensures
            r == self.ids().len(),
    {
        self.entries.len()
    }
}

} // verus!
