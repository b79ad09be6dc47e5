//! The Progress Bus: a per-operation registry that fans progress messages
//! out to the operation's subscriber.
//!
//! Each operation id owns one single-producer/single-consumer channel.  The
//! sending half is the registration (`register` creates it, `unregister`
//! removes it); the receiving half is polled with `drain`.  Sending to an id
//! with no registered sender is a silent no-op: progress delivery is
//! best-effort and never a cause of transfer failure.

use vstd::prelude::*;
use vstd::map::*;
use crate::progress::ProgressMessage;

verus! {

/// Ghost model of one operation's channel: whether a sender is currently
/// registered, and the messages queued for the receiver, oldest first.
pub struct ChannelModel {
    pub open: bool,
    pub queue: Seq<ProgressMessage>,
}

struct Entry {
    id: String,
    open: bool,
    queue: Vec<ProgressMessage>,
}

impl Entry {
    spec fn model(&self) -> ChannelModel {
        ChannelModel { open: self.open, queue: self.queue@ }
    }
}

spec fn has_id(es: Seq<Entry>, id: Seq<char>) -> bool {
    exists|i: int| 0 <= i < es.len() && es[i].id@ == id
}

spec fn index_of(es: Seq<Entry>, id: Seq<char>) -> int {
    choose|i: int| 0 <= i < es.len() && es[i].id@ == id
}

spec fn ids_unique(es: Seq<Entry>) -> bool {
    forall|i: int, j: int| 0 <= i < j < es.len() ==> es[i].id@ != es[j].id@
}

spec fn view_of(es: Seq<Entry>) -> Map<Seq<char>, ChannelModel> {
    Map::new(|id: Seq<char>| has_id(es, id), |id: Seq<char>| es[index_of(es, id)].model())
}

/// What `register` does to the bus model: the id gets a fresh open channel,
/// replacing any earlier one under the same id.
pub open spec fn register_model(
    b: Map<Seq<char>, ChannelModel>,
    id: Seq<char>,
) -> Map<Seq<char>, ChannelModel> {
    b.insert(id, (ChannelModel { open: true, queue: Seq::empty() }))
}

/// What `send` does to the bus model: the message is queued exactly when a
/// sender is registered under the id, and nothing else changes.
pub open spec fn send_model(
    b: Map<Seq<char>, ChannelModel>,
    id: Seq<char>,
    m: ProgressMessage,
) -> Map<Seq<char>, ChannelModel> {
    if b.contains_key(id) && b[id].open {
        b.insert(id, (ChannelModel { open: true, queue: b[id].queue.push(m) }))
    } else {
        b
    }
}

/// What `unregister` does to the bus model: the sender is removed; messages
/// already queued stay for the receiver.
pub open spec fn unregister_model(
    b: Map<Seq<char>, ChannelModel>,
    id: Seq<char>,
) -> Map<Seq<char>, ChannelModel> {
    if b.contains_key(id) {
        b.insert(id, (ChannelModel { open: false, queue: b[id].queue }))
    } else {
        b
    }
}

/// What `drain` does to the bus model: the id's queue empties.  A channel
/// whose sender is already unregistered is finished once drained, so its
/// record is removed entirely — nothing stays behind after an operation
/// ends.
pub open spec fn drain_model(
    b: Map<Seq<char>, ChannelModel>,
    id: Seq<char>,
) -> Map<Seq<char>, ChannelModel> {
    if b.contains_key(id) {
        if b[id].open {
            b.insert(id, (ChannelModel { open: true, queue: Seq::empty() }))
        } else {
            b.remove(id)
        }
    } else {
        b
    }
}

/// What `drain` hands the receiver: everything queued under the id, in send
/// order.
pub open spec fn drained_messages(
    b: Map<Seq<char>, ChannelModel>,
    id: Seq<char>,
) -> Seq<ProgressMessage> {
    if b.contains_key(id) {
        b[id].queue
    } else {
        Seq::empty()
    }
}

/// The channel registered under `id`, if any: the observation the
/// cross-talk statements are made over.
pub open spec fn channel_at(b: Map<Seq<char>, ChannelModel>, id: Seq<char>) -> Option<
    ChannelModel,
> {
    if b.contains_key(id) {
        Some(b[id])
    } else {
        None
    }
}

/// The two bus models agree on every channel but the one under `id`.
pub open spec fn same_except(
    b1: Map<Seq<char>, ChannelModel>,
    b2: Map<Seq<char>, ChannelModel>,
    id: Seq<char>,
) -> bool {
    forall|k: Seq<char>| k != id ==> #[trigger] channel_at(b1, k) == channel_at(b2, k)
}

/// Every model operation touches only its own id's channel.
pub proof fn lemma_models_same_except(b: Map<Seq<char>, ChannelModel>, id: Seq<char>, m: ProgressMessage)
    ensures
        same_except(b, b, id),
        same_except(register_model(b, id), b, id),
        same_except(send_model(b, id, m), b, id),
        same_except(unregister_model(b, id), b, id),
        same_except(drain_model(b, id), b, id),
{
    assert forall|k: Seq<char>| k != id implies #[trigger] channel_at(register_model(b, id), k)
        == channel_at(b, k) by {}
    assert forall|k: Seq<char>| k != id implies #[trigger] channel_at(send_model(b, id, m), k)
        == channel_at(b, k) by {}
    assert forall|k: Seq<char>| k != id implies #[trigger] channel_at(unregister_model(b, id), k)
        == channel_at(b, k) by {}
    assert forall|k: Seq<char>| k != id implies #[trigger] channel_at(drain_model(b, id), k)
        == channel_at(b, k) by {}
}

/// `same_except` composes along a chain of operations on the same id.
pub proof fn lemma_same_except_trans(
    b1: Map<Seq<char>, ChannelModel>,
    b2: Map<Seq<char>, ChannelModel>,
    b3: Map<Seq<char>, ChannelModel>,
    id: Seq<char>,
)
    requires
        same_except(b1, b2, id),
        same_except(b2, b3, id),
    ensures
        same_except(b1, b3, id),
{
}

proof fn lemma_index_of_is(es: Seq<Entry>, id: Seq<char>, i: int)
    requires
        ids_unique(es),
        0 <= i < es.len(),
        es[i].id@ == id,
    ensures
        has_id(es, id),
        index_of(es, id) == i,
{
    assert(has_id(es, id));
    let j = index_of(es, id);
    assert(0 <= j < es.len() && es[j].id@ == id);
    if i < j {
        assert(es[i].id@ != es[j].id@);
    } else if j < i {
        assert(es[j].id@ != es[i].id@);
    }
}

proof fn lemma_view_update(es: Seq<Entry>, i: int, e: Entry)
    requires
        ids_unique(es),
        0 <= i < es.len(),
        e.id@ == es[i].id@,
    ensures
        ids_unique(es.update(i, e)),
        view_of(es.update(i, e)) == view_of(es).insert(e.id@, e.model()),
{
    let es1 = es.update(i, e);
    assert(forall|k: int| 0 <= k < es1.len() ==> es1[k].id@ == es[k].id@);
    assert(ids_unique(es1));
    assert_maps_equal!(view_of(es1), view_of(es).insert(e.id@, e.model()), id => {
        if id == e.id@ {
            lemma_index_of_is(es1, id, i);
        } else {
            if has_id(es, id) {
                let j = index_of(es, id);
                assert(0 <= j < es.len() && es[j].id@ == id);
                assert(j != i);
                lemma_index_of_is(es1, id, j);
                lemma_index_of_is(es, id, j);
            }
            if has_id(es1, id) {
                let j = index_of(es1, id);
                assert(0 <= j < es1.len() && es1[j].id@ == id);
                assert(es[j].id@ == id);
                lemma_index_of_is(es, id, j);
                lemma_index_of_is(es1, id, j);
            }
        }
    });
}

proof fn lemma_view_push(es: Seq<Entry>, e: Entry)
    requires
        ids_unique(es),
        !has_id(es, e.id@),
    ensures
        ids_unique(es.push(e)),
        view_of(es.push(e)) == view_of(es).insert(e.id@, e.model()),
{
    let es1 = es.push(e);
    let n = es.len() as int;
    assert(es1[n].id@ == e.id@);
    assert(forall|k: int| 0 <= k < n ==> es1[k] == es[k]);
    assert forall|i: int, j: int| 0 <= i < j < es1.len() implies es1[i].id@ != es1[j].id@ by {
        if j < n {
            assert(es[i].id@ != es[j].id@);
        } else {
            assert(es1[i].id@ == es[i].id@);
            if es1[i].id@ == e.id@ {
                assert(has_id(es, e.id@));
            }
        }
    }
    assert_maps_equal!(view_of(es1), view_of(es).insert(e.id@, e.model()), id => {
        if id == e.id@ {
            lemma_index_of_is(es1, id, n);
        } else {
            if has_id(es, id) {
                let j = index_of(es, id);
                assert(0 <= j < es.len() && es[j].id@ == id);
                lemma_index_of_is(es1, id, j);
                lemma_index_of_is(es, id, j);
            }
            if has_id(es1, id) {
                let j = index_of(es1, id);
                assert(0 <= j < es1.len() && es1[j].id@ == id);
                assert(j != n);
                assert(es[j].id@ == id);
                lemma_index_of_is(es, id, j);
                lemma_index_of_is(es1, id, j);
            }
        }
    });
}

proof fn lemma_view_remove(es: Seq<Entry>, i: int)
    requires
        ids_unique(es),
        0 <= i < es.len(),
    ensures
        ids_unique(es.remove(i)),
        view_of(es.remove(i)) == view_of(es).remove(es[i].id@),
{
    let es1 = es.remove(i);
    es.remove_ensures(i);
    let eid = es[i].id@;
    assert forall|a: int, b: int| 0 <= a < b < es1.len() implies es1[a].id@ != es1[b].id@ by {
        let a0 = if a < i {
            a
        } else {
            a + 1
        };
        let b0 = if b < i {
            b
        } else {
            b + 1
        };
        assert(es1[a] == es[a0]);
        assert(es1[b] == es[b0]);
        assert(es[a0].id@ != es[b0].id@);
    }
    assert_maps_equal!(view_of(es1), view_of(es).remove(eid), id => {
        if id == eid {
            if has_id(es1, id) {
                let j = index_of(es1, id);
                assert(0 <= j < es1.len() && es1[j].id@ == id);
                let j0 = if j < i { j } else { j + 1 };
                assert(es1[j] == es[j0]);
                assert(j0 != i);
                lemma_index_of_is(es, id, j0);
                lemma_index_of_is(es, id, i);
            }
        } else {
            if has_id(es, id) {
                let j0 = index_of(es, id);
                assert(0 <= j0 < es.len() && es[j0].id@ == id);
                assert(j0 != i);
                let j = if j0 < i { j0 } else { j0 - 1 };
                assert(es1[j] == es[j0]);
                lemma_index_of_is(es1, id, j);
                lemma_index_of_is(es, id, j0);
            }
            if has_id(es1, id) {
                let j = index_of(es1, id);
                assert(0 <= j < es1.len() && es1[j].id@ == id);
                let j0 = if j < i { j } else { j + 1 };
                assert(es1[j] == es[j0]);
                lemma_index_of_is(es, id, j0);
                lemma_index_of_is(es1, id, j);
            }
        }
    });
}

/// The registry of in-flight operations' channels.
pub struct ProgressBus {
    entries: Vec<Entry>,
}

impl View for ProgressBus {
    type V = Map<Seq<char>, ChannelModel>;

    closed spec fn view(&self) -> Map<Seq<char>, ChannelModel> {
        view_of(self.entries@)
    }
}

impl ProgressBus {
    /// The ids stored inside are pairwise distinct, so each operation id
    /// denotes at most one channel.
    pub closed spec fn wf(&self) -> bool {
        ids_unique(self.entries@)
    }

    /// An empty bus: no operation is registered.
    pub fn new() -> (r: Self)
        ensures
            r.wf(),
            r@ == Map::<Seq<char>, ChannelModel>::empty(),
    {
        let r = ProgressBus { entries: Vec::new() };
        proof {
            assert_maps_equal!(view_of(r.entries@), Map::<Seq<char>, ChannelModel>::empty(), id => {});
        }
        r
    }

    fn find(&self, operation_id: &String) -> (r: Option<usize>)
        requires
            self.wf(),
        ensures
            match r {
                Some(i) => i < self.entries@.len() && self.entries@[i as int].id@
                    == operation_id@ && index_of(self.entries@, operation_id@) == i,
                None => !has_id(self.entries@, operation_id@),
            },
    {
        let n = self.entries.len();
        let mut i: usize = 0;
        while i < n
            invariant
                i <= n,
                n == self.entries@.len(),
                self.wf(),
                forall|j: int| 0 <= j < i ==> self.entries@[j].id@ != operation_id@,
            decreases n - i,
        {
            if self.entries[i].id == *operation_id {
                proof {
                    lemma_index_of_is(self.entries@, operation_id@, i as int);
                }
                return Some(i);
            }
            i += 1;
        }
        None
    }

    /// Whether a sender is currently registered under the id.
    pub fn is_registered(&self, operation_id: &String) -> (r: bool)
        requires
            self.wf(),
        ensures
            r == (self@.contains_key(operation_id@) && self@[operation_id@].open),
    {
        match self.find(operation_id) {
            Some(i) => {
                proof {
                    lemma_index_of_is(self.entries@, operation_id@, i as int);
                }
                self.entries[i].open
            },
            None => false,
        }
    }

    /// Creates the channel for an operation and registers its sending half.
    /// A leftover channel under the same id is replaced by the fresh one.
    pub fn register(&mut self, operation_id: String)
        requires
            old(self).wf(),
        ensures
            final(self).wf(),
            final(self)@ == register_model(old(self)@, operation_id@),
    {
        let ghost es0 = self.entries@;
        match self.find(&operation_id) {
            Some(i) => {
                self.entries[i].open = true;
                self.entries[i].queue = Vec::new();
                proof {
                    let e1 = self.entries@[i as int];
                    assert(self.entries@ == es0.update(i as int, e1).update(i as int, e1));
                    assert(self.entries@ =~= es0.update(i as int, e1));
                    lemma_view_update(es0, i as int, e1);
                }
            },
            None => {
                let e = Entry { id: operation_id, open: true, queue: Vec::new() };
                proof {
                    assert(!has_id(es0, e.id@));
                }
                self.entries.push(e);
                proof {
                    lemma_view_push(es0, self.entries@[es0.len() as int]);
                }
            },
        }
    }

    /// Queues a message for the operation's receiver.  Best-effort: with no
    /// sender registered under the id, the message is silently dropped and
    /// the bus is unchanged.
    pub fn send(&mut self, operation_id: &String, message: ProgressMessage)
        requires
            old(self).wf(),
        ensures
            final(self).wf(),
            final(self)@ == send_model(old(self)@, operation_id@, message),
    {
        let ghost es0 = self.entries@;
        match self.find(operation_id) {
            Some(i) => {
                proof {
                    lemma_index_of_is(es0, operation_id@, i as int);
                }
                if self.entries[i].open {
                    self.entries[i].queue.push(message);
                    proof {
                        let e1 = self.entries@[i as int];
                        assert(self.entries@ =~= es0.update(i as int, e1));
                        lemma_view_update(es0, i as int, e1);
                    }
                }
            },
            None => {},
        }
    }

    /// Removes the operation's sending half: later sends under the id are
    /// no-ops.  Messages already queued stay for the receiver.
    pub fn unregister(&mut self, operation_id: &String)
        requires
            old(self).wf(),
        ensures
            final(self).wf(),
            final(self)@ == unregister_model(old(self)@, operation_id@),
    {
        let ghost es0 = self.entries@;
        match self.find(operation_id) {
            Some(i) => {
                proof {
                    lemma_index_of_is(es0, operation_id@, i as int);
                }
                self.entries[i].open = false;
                proof {
                    let e1 = self.entries@[i as int];
                    assert(self.entries@ =~= es0.update(i as int, e1));
                    lemma_view_update(es0, i as int, e1);
                }
            },
            None => {},
        }
    }

    /// Hands the receiver everything queued under the id, in send order.
    /// An open channel stays registered with an empty queue; one whose
    /// sender is already unregistered is finished and its record is
    /// removed — no operation leaves anything behind.
    pub fn drain(&mut self, operation_id: &String) -> (msgs: Vec<ProgressMessage>)
        requires
            old(self).wf(),
        ensures
            final(self).wf(),
            msgs@ == drained_messages(old(self)@, operation_id@),
            final(self)@ == drain_model(old(self)@, operation_id@),
    {
        let ghost es0 = self.entries@;
        match self.find(operation_id) {
            Some(i) => {
                proof {
                    lemma_index_of_is(es0, operation_id@, i as int);
                }
                if self.entries[i].open {
                    let mut q: Vec<ProgressMessage> = Vec::new();
                    core::mem::swap(&mut self.entries[i].queue, &mut q);
                    proof {
                        let e1 = self.entries@[i as int];
                        assert(self.entries@ =~= es0.update(i as int, e1));
                        lemma_view_update(es0, i as int, e1);
                    }
                    q
                } else {
                    let e = self.entries.remove(i);
                    proof {
                        lemma_view_remove(es0, i as int);
                    }
                    e.queue
                }
            },
            None => Vec::new(),
        }
    }
}

} // verus!
