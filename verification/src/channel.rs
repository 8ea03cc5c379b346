//! The bounded backpressure channel that event streams, call streams and
//! application message channels are delivered over.
//!
//! Every operation is non-blocking and reports suspension explicitly: a
//! producer facing a full buffer gets [`SendOutcome::Full`] and retries once
//! the consumer has made room — nothing is ever dropped. Once the consumer
//! is gone, further sends fail immediately with
//! [`SendOutcome::Disconnected`], while items buffered before that moment
//! remain retrievable, in order, until the stream ends
//! ([`RecvOutcome::Closed`]): drain, then fail. Within one channel,
//! delivery order is production order.

use vstd::prelude::*;

verus! {

/// The mathematical state of a channel.
#[verifier::ext_equal]
pub struct ChannelModel<T> {
    /// The buffered, not yet delivered items, oldest first.
    pub queue: Seq<T>,
    /// How many items may be buffered before the producer suspends.
    pub capacity: nat,
    /// Whether the producer end is still open.
    pub sender_alive: bool,
    /// Whether the consumer end still accepts new traffic.
    pub receiver_alive: bool,
}

/// What one send attempt did.
#[derive(Clone, Copy, Debug, PartialEq, Eq, Structural)]
pub enum SendOutcome {
    /// The item was buffered.
    Sent,
    /// The buffer is at capacity: the producer suspends and must retry
    /// after the consumer has received an item; the attempt changed
    /// nothing.
    Full,
    /// The consumer is gone: the send failed immediately and the item was
    /// not buffered.
    Disconnected,
}

/// What one receive attempt returned.
#[derive(Debug)]
pub enum RecvOutcome<T> {
    /// The oldest buffered item.
    Item(T),
    /// Nothing is buffered but the producer is still live: the consumer
    /// suspends and must retry after a send.
    Empty,
    /// Nothing is buffered and no more traffic can arrive: the stream has
    /// ended.
    Closed,
}

/// The state and outcome one send attempt leaves: fail immediately when the
/// consumer is gone, suspend without change when the buffer is full, buffer
/// the item otherwise.
pub open spec fn spec_send<T>(m: ChannelModel<T>, item: T) -> (ChannelModel<T>, SendOutcome) {
    if !m.receiver_alive {
        (m, SendOutcome::Disconnected)
    } else if m.queue.len() >= m.capacity {
        (m, SendOutcome::Full)
    } else {
        (
            ChannelModel {
                queue: m.queue.push(item),
                capacity: m.capacity,
                sender_alive: m.sender_alive,
                receiver_alive: m.receiver_alive,
            },
            SendOutcome::Sent,
        )
    }
}

/// The state and outcome one receive attempt leaves: deliver the oldest
/// buffered item while any is left — also after the producer or the consumer
/// end closed — suspend while the channel is open and empty, and end the
/// stream otherwise.
pub open spec fn spec_recv<T>(m: ChannelModel<T>) -> (ChannelModel<T>, RecvOutcome<T>) {
    if m.queue.len() > 0 {
        (
            ChannelModel {
                queue: m.queue.drop_first(),
                capacity: m.capacity,
                sender_alive: m.sender_alive,
                receiver_alive: m.receiver_alive,
            },
            RecvOutcome::Item(m.queue[0]),
        )
    } else if m.sender_alive && m.receiver_alive {
        (m, RecvOutcome::Empty)
    } else {
        (m, RecvOutcome::Closed)
    }
}

/// A bounded in-memory channel: FIFO buffer, explicit suspension, drain-then-
/// fail once either end closes.
#[derive(Debug)]
pub struct BoundedChannel<T> {
    items: Vec<T>,
    capacity: usize,
    sender_alive: bool,
    receiver_alive: bool,
}

impl<T> View for BoundedChannel<T> {
    type V = ChannelModel<T>;

    closed spec fn view(&self) -> ChannelModel<T> {
        ChannelModel {
            queue: self.items@,
            capacity: self.capacity as nat,
            sender_alive: self.sender_alive,
            receiver_alive: self.receiver_alive,
        }
    }
}

impl<T> BoundedChannel<T> {
    /// The buffer never exceeds the capacity, which is at least one.
    pub open spec fn wf(&self) -> bool {
        self@.queue.len() <= self@.capacity && self@.capacity >= 1
    }

    /// An open, empty channel buffering at most `capacity` items.
    pub fn new(capacity: usize) -> (r: Self)
        requires
            capacity >= 1,
        ensures
            r.wf(),
            r@ == (ChannelModel {
                queue: Seq::<T>::empty(),
                capacity: capacity as nat,
                sender_alive: true,
                receiver_alive: true,
            }),
    {
        let r = BoundedChannel {
            items: Vec::new(),
            capacity,
            sender_alive: true,
            receiver_alive: true,
        };
        proof {
            assert(r@ =~= (ChannelModel {
                queue: Seq::<T>::empty(),
                capacity: capacity as nat,
                sender_alive: true,
                receiver_alive: true,
            }));
        }
        r
    }

    /// One send attempt, as [`spec_send`] describes it.
    pub fn send(&mut self, item: T) -> (r: SendOutcome)
        requires
            old(self).wf(),
        ensures
            final(self).wf(),
            final(self)@ == spec_send(old(self)@, item).0,
            r == spec_send(old(self)@, item).1,
    {
        if !self.receiver_alive {
            return SendOutcome::Disconnected;
        }
        if self.items.len() >= self.capacity {
            return SendOutcome::Full;
        }
        self.items.push(item);
        SendOutcome::Sent
    }

    /// One receive attempt, as [`spec_recv`] describes it.
    pub fn recv(&mut self) -> (r: RecvOutcome<T>)
        requires
            old(self).wf(),
        ensures
            final(self).wf(),
            final(self)@ == spec_recv(old(self)@).0,
            r matches RecvOutcome::Item(item) ==> spec_recv(old(self)@).1 == RecvOutcome::Item(
                item,
            ),
            (r is Empty <==> spec_recv(old(self)@).1 is Empty),
            (r is Closed <==> spec_recv(old(self)@).1 is Closed),
    {
        if self.items.len() > 0 {
            let item = self.items.remove(0);
            proof {
                assert(self.items@ =~= old(self).items@.drop_first());
            }
            return RecvOutcome::Item(item);
        }
        if self.sender_alive && self.receiver_alive {
            RecvOutcome::Empty
        } else {
            RecvOutcome::Closed
        }
    }

    /// The producer end goes away: the consumer can still drain what is
    /// buffered, then the stream ends.
    pub fn close_sender(&mut self)
        requires
            old(self).wf(),
        ensures
            final(self).wf(),
            final(self)@ == (ChannelModel {
                sender_alive: false,
                ..old(self)@
            }),
    {
        self.sender_alive = false;
    }

    /// The consumer end goes away: further sends fail immediately, while
    /// items already buffered remain retrievable until the stream ends.
    pub fn close_receiver(&mut self)
        requires
            old(self).wf(),
        ensures
            final(self).wf(),
            final(self)@ == (ChannelModel {
                receiver_alive: false,
                ..old(self)@
            }),
    {
        self.receiver_alive = false;
    }
}

/// Backpressure on a capacity-1 channel: of two sends before any receive,
/// the first is buffered and the second suspends changing nothing; once
/// exactly one item has been received — the first one — the suspended send
/// succeeds. No item is dropped.
pub proof fn lemma_capacity_one_backpressure<T>(m: ChannelModel<T>, x: T, y: T)
    requires
        m.capacity == 1,
        m.queue.len() == 0,
        m.sender_alive,
        m.receiver_alive,
    ensures
        ({
            let (m1, r1) = spec_send(m, x);
            let (m2, r2) = spec_send(m1, y);
            let (m3, r3) = spec_recv(m2);
            let (m4, r4) = spec_send(m3, y);
            r1 == SendOutcome::Sent && r2 == SendOutcome::Full && m2 == m1 && r3
                == RecvOutcome::Item(x) && r4 == SendOutcome::Sent && m4.queue =~= seq![y]
        }),
{
    assert(spec_send(m, x).0.queue =~= seq![x]);
    assert(spec_recv(spec_send(m, x).0).0.queue =~= Seq::<T>::empty());
}

/// Once the consumer is gone, a send fails immediately and changes nothing.
pub proof fn lemma_send_after_consumer_close<T>(m: ChannelModel<T>, item: T)
    requires
        !m.receiver_alive,
    ensures
        spec_send(m, item).0 == m,
        spec_send(m, item).1 == SendOutcome::Disconnected,
{
}

/// The items one-receive-at-a-time draining yields, oldest first, until the
/// buffer is empty.
pub open spec fn drain<T>(m: ChannelModel<T>) -> Seq<T>
    decreases m.queue.len(),
{
    if m.queue.len() == 0 {
        Seq::empty()
    } else {
        seq![m.queue[0]] + drain(spec_recv(m).0)
    }
}

/// Drain, then fail: after either end has closed, every buffered item is
/// still received, in production order, and only once the buffer is empty
/// does the stream report its end.
pub proof fn lemma_drain_then_fail<T>(m: ChannelModel<T>)
    requires
        !m.receiver_alive || !m.sender_alive,
    ensures
        drain(m) == m.queue,
        spec_recv(
            ChannelModel { queue: Seq::<T>::empty(), ..m },
        ).1 is Closed,
    decreases m.queue.len(),
{
    if m.queue.len() == 0 {
        assert(drain(m) =~= m.queue);
    } else {
        lemma_drain_then_fail(spec_recv(m).0);
        assert(drain(m) =~= m.queue);
    }
}

} // verus!
