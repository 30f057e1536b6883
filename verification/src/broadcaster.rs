//! The event hub.
//!
//! The [`Broadcaster`] holds the set of currently connected subscriber
//! channels, keyed by connection id. `register_sender` overwrites any
//! earlier registration under the same id (last writer wins),
//! `deregister_sender` is a no-op for an absent id, and `send` delivers
//! one clone of an event to every currently registered channel and to
//! nothing else. A channel whose receiving side has gone away is silently
//! skipped: a failed delivery never blocks, raises or crashes the sender.
//!
//! Each subscriber carries a ghost log of the events handed to its
//! channel, in order. The contracts of the hub are stated over those
//! logs: one `send` appends the event to the log of every registered
//! channel exactly once, preserving per-channel order, and touches no
//! other channel.

use vstd::prelude::*;

verus! {

/// A wire event pushed to WebSocket subscribers: a topic name that alone
/// suffices for client-side routing, and a payload.
#[derive(Debug, PartialEq)]
pub struct FrontendEvent {
    pub name: String,
    pub payload: EventPayload,
}

/// The payload shapes the gateway puts on the wire: an empty object, the
/// head-change fields, or an opaque value carried through from a domain
/// notification.
#[derive(Debug, PartialEq)]
pub enum EventPayload {
    Empty,
    Head { head: String, operating_mode: String },
    Data(serde_json::Value),
}

impl EventPayload {
    /// An equal copy of the payload.
    pub fn duplicate(&self) -> (r: EventPayload)
        ensures
            r == *self,
    {
        match self {
            EventPayload::Empty => EventPayload::Empty,
            EventPayload::Head { head, operating_mode } => EventPayload::Head {
                head: head.clone(),
                operating_mode: operating_mode.clone(),
            },
            EventPayload::Data(v) => EventPayload::Data(v.clone()),
        }
    }
}

impl FrontendEvent {
    /// An equal copy of the event: this is the clone that fan-out hands
    /// to each subscriber.
    pub fn duplicate(&self) -> (r: FrontendEvent)
        ensures
            r == *self,
    {
        FrontendEvent { name: self.name.clone(), payload: self.payload.duplicate() }
    }
}

/// Declares `tokio::sync::mpsc::UnboundedSender` so that a subscriber
/// can hold its outbound channel. The channel is opaque; everything the
/// hub claims about deliveries is said over the subscriber's ghost log.
#[verifier::external_type_specification]
#[verifier::external_body]
#[verifier::reject_recursive_types(T)]
pub struct ExUnboundedSender<T>(tokio::sync::mpsc::UnboundedSender<T>);

/// Relies on `tokio::sync::mpsc::UnboundedSender::send`: it hands the
/// message to the channel and reports whether the receiving side was
/// still there; on an unbounded channel it never waits, and it returns
/// the message inside an error instead of panicking when the receiver is
/// gone. Nothing is promised of the result: whether the receiver is
/// alive is outside this crate's view.
#[verifier::external_body]
fn channel_send(
    sender: &tokio::sync::mpsc::UnboundedSender<FrontendEvent>,
    event: FrontendEvent,
) -> (delivered: bool) {
    sender.send(event).is_ok()
}

/// One registered subscriber: its outbound channel and the ghost log of
/// the events handed to that channel, in order.
pub struct Subscriber {
    sender: tokio::sync::mpsc::UnboundedSender<FrontendEvent>,
    delivered: Ghost<Seq<FrontendEvent>>,
}

impl Subscriber {
    /// The events handed to this subscriber's channel, in the order they
    /// were handed over.
    pub closed spec fn log(&self) -> Seq<FrontendEvent> {
        self.delivered@
    }

    /// A fresh subscriber around an outbound channel: nothing delivered
    /// yet.
    pub fn new(sender: tokio::sync::mpsc::UnboundedSender<FrontendEvent>) -> (r: Subscriber)
        ensures
            r.log() == Seq::<FrontendEvent>::empty(),
    {
        Subscriber { sender, delivered: Ghost(Seq::empty()) }
    }

    /// Hands one event to the channel. Whether the receiving side still
    /// listens does not matter to the caller: the handover never blocks
    /// and never fails.
    fn deliver(&mut self, event: FrontendEvent)
        ensures
            final(self).log() == old(self).log().push(event),
    {
        let ghost e = event;
        let _receiver_live = channel_send(&self.sender, event);
        self.delivered = Ghost(self.delivered@.push(e));
    }
}

/// The fan-out hub: the currently registered subscriber channels, keyed
/// by connection id. The id list is duplicate-free; the hub has no topic
/// concept and broadcasts unconditionally to all registrations.
pub struct Broadcaster {
    senders: Vec<(u128, Subscriber)>,
}

impl Broadcaster {
    /// The registered connection ids, in registration order.
    pub closed spec fn ids(&self) -> Seq<u128> {
        self.senders@.map_values(|p: (u128, Subscriber)| p.0)
    }

    /// Well-formed: each connection id is registered at most once.
    pub closed spec fn wf(&self) -> bool {
        forall|i: int, j: int|
            0 <= i < j < self.ids().len() ==> self.ids()[i] != self.ids()[j]
    }

    /// Whether a connection id is currently registered.
    pub open spec fn registered(&self, id: u128) -> bool {
        self.ids().contains(id)
    }

    /// The position of a registered id.
    pub closed spec fn index_of(&self, id: u128) -> int {
        choose|i: int| 0 <= i < self.ids().len() && self.ids()[i] == id
    }

    /// The delivery log of the channel registered under an id.
    pub closed spec fn log_of(&self, id: u128) -> Seq<FrontendEvent> {
        self.senders@[self.index_of(id)].1.log()
    }

    /// A registered id has exactly one position.
    proof fn lemma_index_of(&self, id: u128)
        requires
            self.wf(),
            self.registered(id),
        ensures
            0 <= self.index_of(id) < self.senders@.len(),
            self.ids()[self.index_of(id)] == id,
            forall|i: int|
                0 <= i < self.ids().len() && self.ids()[i] == id ==> i == self.index_of(id),
    {
        let w = choose|i: int| 0 <= i < self.ids().len() && self.ids()[i] == id;
        assert(self.ids()[w] == id);
        assert forall|i: int|
            0 <= i < self.ids().len() && self.ids()[i] == id implies i == self.index_of(id) by {
            if i < self.index_of(id) {
                assert(self.ids()[i] != self.ids()[self.index_of(id)]);
            } else if i > self.index_of(id) {
                assert(self.ids()[self.index_of(id)] != self.ids()[i]);
            }
        }
    }

    /// An empty hub: nothing registered.
    pub fn new() -> (r: Broadcaster)
        ensures
            r.wf(),
            r.ids() == Seq::<u128>::empty(),
    {
        let r = Broadcaster { senders: Vec::new() };
        proof {
            assert(r.ids() =~= Seq::<u128>::empty());
        }
        r
    }

    /// The position of an id in the backing vector, if it is registered.
    fn find(&self, id: u128) -> (r: Option<usize>)
        ensures
            match r {
                Some(i) => i < self.senders@.len() && self.ids()[i as int] == id,
                None => !self.registered(id),
            },
    {
        let n = self.senders.len();
        let mut i: usize = 0;
        while i < n
            invariant
                n == self.senders@.len(),
                i <= n,
                forall|j: int| 0 <= j < i ==> self.ids()[j] != id,
            decreases n - i,
        {
            if self.senders[i].0 == id {
                return Some(i);
            }
            i += 1;
        }
        None
    }

    /// Registers a channel under a connection id. Registering an id that
    /// is already present overwrites the earlier entry: last writer wins,
    /// and the fresh channel starts with an empty delivery log. Every
    /// other registration is untouched.
    pub fn register_sender(
        &mut self,
        id: u128,
        sender: tokio::sync::mpsc::UnboundedSender<FrontendEvent>,
    )
        requires
            old(self).wf(),
        ensures
            final(self).wf(),
            final(self).registered(id),
            final(self).log_of(id) == Seq::<FrontendEvent>::empty(),
            forall|k: u128|
                k != id ==> (final(self).registered(k) <==> old(self).registered(k)),
            forall|k: u128|
                k != id && old(self).registered(k) ==> final(self).log_of(k) == old(
                    self,
                ).log_of(k),
    {
        let sub = Subscriber::new(sender);
        match self.find(id) {
            Some(i) => {
                let _previous = self.senders.remove(i);
                self.senders.insert(i, (id, sub));
                proof {
                    self.lemma_replace_preserves(*old(self), i as int, id);
                }
            },
            None => {
                self.senders.push((id, sub));
                proof {
                    self.lemma_push_preserves(*old(self), id);
                }
            },
        }
    }

    /// After replacing the entry at a position that held `id` with a
    /// fresh subscriber under the same id, the hub's view is: `id` maps
    /// to an empty log, everything else is as before.
    proof fn lemma_replace_preserves(&self, pre: Broadcaster, i: int, id: u128)
        requires
            pre.wf(),
            0 <= i < pre.senders@.len(),
            pre.ids()[i] == id,
            self.senders@ == pre.senders@.remove(i).insert(
                i,
                (id, self.senders@[i].1),
            ),
            self.senders@[i].1.log() == Seq::<FrontendEvent>::empty(),
        ensures
            self.wf(),
            self.registered(id),
            self.log_of(id) == Seq::<FrontendEvent>::empty(),
            forall|k: u128| k != id ==> (self.registered(k) <==> pre.registered(k)),
            forall|k: u128|
                k != id && pre.registered(k) ==> self.log_of(k) == pre.log_of(k),
    {
        assert(self.senders@ =~= pre.senders@.update(i, (id, self.senders@[i].1)));
        assert(self.ids() =~= pre.ids());
        assert(self.registered(id)) by {
            assert(self.ids()[i] == id);
        }
        self.lemma_index_of(id);
        pre.lemma_index_of(id);
        assert(self.index_of(id) == i);
        assert forall|k: u128|
            k != id && pre.registered(k) implies self.log_of(k) == pre.log_of(k) by {
            pre.lemma_index_of(k);
            assert(self.registered(k));
            self.lemma_index_of(k);
            let j = pre.index_of(k);
            assert(self.ids()[j] == k);
            assert(self.index_of(k) == j);
            assert(j != i);
            assert(self.senders@[j] == pre.senders@[j]);
        }
    }

    /// After appending an entry with a fresh id, the hub's view is: the
    /// new id maps to an empty log, everything else is as before.
    proof fn lemma_push_preserves(&self, pre: Broadcaster, id: u128)
        requires
            pre.wf(),
            !pre.registered(id),
            self.senders@ == pre.senders@.push(
                (id, self.senders@[pre.senders@.len() as int].1),
            ),
            self.senders@[pre.senders@.len() as int].1.log() == Seq::<
                FrontendEvent,
            >::empty(),
        ensures
            self.wf(),
            self.registered(id),
            self.log_of(id) == Seq::<FrontendEvent>::empty(),
            forall|k: u128| k != id ==> (self.registered(k) <==> pre.registered(k)),
            forall|k: u128|
                k != id && pre.registered(k) ==> self.log_of(k) == pre.log_of(k),
    {
        let n = pre.senders@.len() as int;
        assert(self.ids() =~= pre.ids().push(id));
        assert(self.wf()) by {
            assert forall|i: int, j: int|
                0 <= i < j < self.ids().len() implies self.ids()[i] != self.ids()[j] by {
                if j < n {
                    assert(pre.ids()[i] != pre.ids()[j]);
                } else {
                    assert(self.ids()[j] == id);
                    assert(self.ids()[i] == pre.ids()[i]);
                    assert(pre.ids().contains(pre.ids()[i]));
                }
            }
        }
        assert(self.registered(id)) by {
            assert(self.ids()[n] == id);
        }
        self.lemma_index_of(id);
        assert(self.index_of(id) == n);
        assert forall|k: u128|
            k != id ==> (self.registered(k) <==> pre.registered(k)) by {
            if self.registered(k) && k != id {
                let w = choose|i: int|
                    0 <= i < self.ids().len() && self.ids()[i] == k;
                assert(w != n);
                assert(pre.ids()[w] == k);
                assert(pre.registered(k));
            }
            if pre.registered(k) {
                let w = choose|i: int|
                    0 <= i < pre.ids().len() && pre.ids()[i] == k;
                assert(self.ids()[w] == k);
                assert(self.registered(k));
            }
        }
        assert forall|k: u128|
            k != id && pre.registered(k) implies self.log_of(k) == pre.log_of(k) by {
            pre.lemma_index_of(k);
            assert(self.registered(k));
            self.lemma_index_of(k);
            let j = pre.index_of(k);
            assert(self.ids()[j] == k);
            assert(self.index_of(k) == j);
            assert(self.senders@[j] == pre.senders@[j]);
        }
    }

    /// Removes the registration under a connection id; a no-op if the id
    /// is absent. Every other registration is untouched.
    pub fn deregister_sender(&mut self, id: u128)
        requires
            old(self).wf(),
        ensures
            final(self).wf(),
            !final(self).registered(id),
            forall|k: u128|
                k != id ==> (final(self).registered(k) <==> old(self).registered(k)),
            forall|k: u128|
                k != id && old(self).registered(k) ==> final(self).log_of(k) == old(
                    self,
                ).log_of(k),
    {
        match self.find(id) {
            Some(i) => {
                let _removed = self.senders.remove(i);
                proof {
                    self.lemma_remove_preserves(*old(self), i as int, id);
                }
            },
            None => {},
        }
    }

    /// After removing the entry at the position that held `id`, the
    /// hub's view is: `id` is gone, everything else is as before.
    proof fn lemma_remove_preserves(&self, pre: Broadcaster, i: int, id: u128)
        requires
            pre.wf(),
            0 <= i < pre.senders@.len(),
            pre.ids()[i] == id,
            self.senders@ == pre.senders@.remove(i),
        ensures
            self.wf(),
            !self.registered(id),
            forall|k: u128| k != id ==> (self.registered(k) <==> pre.registered(k)),
            forall|k: u128|
                k != id && pre.registered(k) ==> self.log_of(k) == pre.log_of(k),
    {
        assert(self.ids() =~= pre.ids().remove(i));
        pre.lemma_index_of(id);
        assert(self.wf()) by {
            assert forall|a: int, b: int|
                0 <= a < b < self.ids().len() implies self.ids()[a] != self.ids()[b] by {
                let a0 = if a < i { a } else { a + 1 };
                let b0 = if b < i { b } else { b + 1 };
                assert(self.ids()[a] == pre.ids()[a0]);
                assert(self.ids()[b] == pre.ids()[b0]);
                assert(pre.ids()[a0] != pre.ids()[b0]);
            }
        }
        assert(!self.registered(id)) by {
            if self.registered(id) {
                let w = choose|j: int|
                    0 <= j < self.ids().len() && self.ids()[j] == id;
                let w0 = if w < i { w } else { w + 1 };
                assert(pre.ids()[w0] == id);
                assert(w0 == i);
            }
        }
        assert forall|k: u128|
            k != id ==> (self.registered(k) <==> pre.registered(k)) by {
            if k != id && self.registered(k) {
                let w = choose|j: int|
                    0 <= j < self.ids().len() && self.ids()[j] == k;
                let w0 = if w < i { w } else { w + 1 };
                assert(pre.ids()[w0] == k);
                assert(pre.registered(k));
            }
            if k != id && pre.registered(k) {
                let w = choose|j: int|
                    0 <= j < pre.ids().len() && pre.ids()[j] == k;
                assert(w != i);
                if w < i {
                    assert(self.ids()[w] == k);
                } else {
                    assert(self.ids()[w - 1] == k);
                }
                assert(self.registered(k));
            }
        }
        assert forall|k: u128|
            k != id && pre.registered(k) implies self.log_of(k) == pre.log_of(k) by {
            pre.lemma_index_of(k);
            assert(self.registered(k));
            self.lemma_index_of(k);
            let j0 = pre.index_of(k);
            let j1 = if j0 < i { j0 } else { j0 - 1 };
            assert(self.senders@[j1] == pre.senders@[j0]);
            assert(self.ids()[j1] == k);
            assert(self.index_of(k) == j1);
        }
    }

    /// Fan-out: delivers one clone of the event to every currently
    /// registered channel, appending it to each channel's log exactly
    /// once, in send order, and reaches no channel outside the
    /// registration map. No registration is added, dropped or replaced,
    /// and a dead receiving side on any channel neither blocks nor fails
    /// the delivery to the others.
    pub fn send(&mut self, event: FrontendEvent)
        requires
            old(self).wf(),
        ensures
            final(self).wf(),
            final(self).ids() == old(self).ids(),
            forall|k: u128|
                final(self).registered(k) <==> old(self).registered(k),
            forall|k: u128|
                old(self).registered(k) ==> final(self).log_of(k) == old(self).log_of(
                    k,
                ).push(event),
    {
        let ghost ev = event;
        let n = self.senders.len();
        let mut i: usize = 0;
        while i < n
            invariant
                old(self).wf(),
                n == self.senders@.len(),
                n == old(self).senders@.len(),
                i <= n,
                self.ids() == old(self).ids(),
                event == ev,
                forall|j: int|
                    0 <= j < i ==> self.senders@[j].1.log() == old(self).senders@[j].1.log().push(
                        ev,
                    ),
                forall|j: int| i <= j < n ==> self.senders@[j] == old(self).senders@[j],
            decreases n - i,
        {
            let ghost entries_before = self.senders@;
            let copy = event.duplicate();
            let mut pair = self.senders.remove(i);
            pair.1.deliver(copy);
            self.senders.insert(i, pair);
            proof {
                assert(self.senders@ =~= entries_before.update(
                    i as int,
                    (entries_before[i as int].0, self.senders@[i as int].1),
                ));
                assert(self.ids() =~= old(self).ids());
            }
            i += 1;
        }
        proof {
            assert(self.wf());
            assert forall|k: u128|
                old(self).registered(k) implies self.log_of(k) == old(self).log_of(k).push(
                event,
            ) by {
                old(self).lemma_index_of(k);
                assert(self.registered(k));
                self.lemma_index_of(k);
                let j = old(self).index_of(k);
                assert(self.ids()[j] == k);
                assert(self.index_of(k) == j);
            }
        }
    }
}

/// Deregistration, stated across the hub's operations: `deregister_sender`
/// leaves an id outside the registration map, and `send` fans out exactly
/// over that map without changing it. So once an id is out of the map it
/// stays unreached by every later fan-out, until someone registers it
/// anew: no send after a deregistration reaches the channel formerly
/// registered under the id.
pub proof fn lemma_deregistered_stays_unreached(pre: Broadcaster, post: Broadcaster, id: u128)
    requires
        !pre.registered(id),
        post.ids() == pre.ids(),
    ensures
        !post.registered(id),
{
}

} // verus!
