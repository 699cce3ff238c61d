//! A bounded single-producer single-consumer channel.  The channel state is
//! one value; `Sender` and `Receiver` are the capabilities to act on each of
//! its sides, and each side is released exactly once.
use vstd::prelude::*;
use crate::Poll;
use crate::counter::{Counter, Release};
use crate::event::{Event, EventListener, Status, Entries, has_key, notify_count, mark_notified, notified_prefix, polled, released};
use crate::ring::RingBuffer;
use std::task::Waker;
use std::marker::PhantomData;

verus! {

/// Failure of a waiting send or receive.
#[derive(Debug, PartialEq, Eq, Structural)]
pub enum Error {
    Disconnected,
}

/// Failure of `try_send`.
#[derive(Debug, PartialEq, Eq, Structural)]
pub enum TrySendError {
    Full,
    Disconnected,
}

/// Failure of `try_recv`.
#[derive(Debug)]
pub enum TryRecvError {
    Empty,
    Disconnected,
}

/// The queue and the two notification lists: `recv_ops` wakes waiting
/// receivers, `send_ops` waiting senders.
struct Inner<T> {
    buffer: RingBuffer<T>,
    recv_ops: Event,
    send_ops: Event,
}

/// `(s2, n2)` is the list `(s1, n1)` after `notify(n)`.
pub open spec fn notified_by(s1: Entries, n1: nat, n: nat, s2: Entries, n2: nat) -> bool {
    &&& n2 == notify_count(n1, s1.len(), n)
    &&& s2 == mark_notified(s1, n1, n2, false)
}

impl<T> Inner<T> {
    closed spec fn wf(&self) -> bool {
        &&& self.buffer.wf()
        &&& self.recv_ops.wf()
        &&& self.send_ops.wf()
    }

    fn new(cap: usize) -> (r: Self)
        ensures
            r.wf(),
            r.buffer.capacity() == cap,
            r.buffer@ == Seq::<T>::empty(),
            r.recv_ops@ == Seq::<(u64, Status)>::empty() && r.recv_ops.notified() == 0,
            r.send_ops@ == Seq::<(u64, Status)>::empty() && r.send_ops.notified() == 0,
            r.recv_ops.listens_left() == u64::MAX && r.send_ops.listens_left() == u64::MAX,
    {
        Inner { buffer: RingBuffer::new(cap), recv_ops: Event::new(), send_ops: Event::new() }
    }

    fn is_full(&self) -> (b: bool)
        requires
            self.wf(),
        ensures
            b <==> (self.buffer.capacity() > 0 && self.buffer@.len() == self.buffer.capacity()),
            self.buffer@.len() <= self.buffer.capacity(),
    {
        self.buffer.is_full()
    }

    fn is_empty(&self) -> (b: bool)
        requires
            self.wf(),
        ensures
            b <==> self.buffer@.len() == 0,
    {
        self.buffer.is_empty()
    }

    /// Takes the oldest item and wakes one waiting sender.
    fn recv(&mut self) -> (v: T)
        requires
            old(self).wf(),
            old(self).buffer@.len() > 0,
        ensures
            final(self).wf(),
            v == old(self).buffer@[0],
            final(self).buffer@ == old(self).buffer@.drop_first(),
            final(self).buffer.capacity() == old(self).buffer.capacity(),
            final(self).recv_ops == old(self).recv_ops,
            notified_by(old(self).send_ops@, old(self).send_ops.notified(), 1,
                final(self).send_ops@, final(self).send_ops.notified()),
            final(self).send_ops.listens_left() == old(self).send_ops.listens_left(),
    {
        let v = self.buffer.recv();
        self.send_ops.notify(1);
        v
    }

    /// Queues `v` and wakes one waiting receiver.
    fn send(&mut self, v: T)
        requires
            old(self).wf(),
            old(self).buffer@.len() < old(self).buffer.capacity(),
        ensures
            final(self).wf(),
            final(self).buffer@ == old(self).buffer@.push(v),
            final(self).buffer.capacity() == old(self).buffer.capacity(),
            final(self).send_ops == old(self).send_ops,
            notified_by(old(self).recv_ops@, old(self).recv_ops.notified(), 1,
                final(self).recv_ops@, final(self).recv_ops.notified()),
            final(self).recv_ops.listens_left() == old(self).recv_ops.listens_left(),
    {
        self.buffer.send(v);
        self.recv_ops.notify(1);
    }

    /// Moves the message out of `v` into the queue unless the queue is full.
    fn poll_send(&mut self, v: &mut Option<T>) -> (r: Poll<()>)
        requires
            old(self).wf(),
            old(self).buffer.capacity() > 0,
            old(self).buffer@.len() < old(self).buffer.capacity() ==> *old(v) is Some,
        ensures
            r is Ready <==> old(self).buffer@.len() < old(self).buffer.capacity(),
            r is Ready ==> ({
                &&& final(self).wf()
                &&& *final(v) is None
                &&& final(self).buffer@ == old(self).buffer@.push((*old(v))->Some_0)
                &&& final(self).buffer.capacity() == old(self).buffer.capacity()
                &&& final(self).send_ops == old(self).send_ops
                &&& notified_by(old(self).recv_ops@, old(self).recv_ops.notified(), 1,
                    final(self).recv_ops@, final(self).recv_ops.notified())
                &&& final(self).recv_ops.listens_left() == old(self).recv_ops.listens_left()
            }),
            r is Pending ==> *final(self) == *old(self) && *final(v) == *old(v),
    {
        if self.is_full() {
            Poll::Pending
        } else {
            self.send(v.take().unwrap());
            Poll::Ready(())
        }
    }

    /// Takes the oldest item unless the queue is empty.
    fn poll_recv(&mut self) -> (r: Poll<T>)
        requires
            old(self).wf(),
        ensures
            r is Ready <==> old(self).buffer@.len() > 0,
            r matches Poll::Ready(v) ==> ({
                &&& final(self).wf()
                &&& v == old(self).buffer@[0]
                &&& final(self).buffer@ == old(self).buffer@.drop_first()
                &&& final(self).buffer.capacity() == old(self).buffer.capacity()
                &&& final(self).recv_ops == old(self).recv_ops
                &&& notified_by(old(self).send_ops@, old(self).send_ops.notified(), 1,
                    final(self).send_ops@, final(self).send_ops.notified())
                &&& final(self).send_ops.listens_left() == old(self).send_ops.listens_left()
            }),
            r is Pending ==> *final(self) == *old(self),
    {
        if self.is_empty() {
            Poll::Pending
        } else {
            Poll::Ready(self.recv())
        }
    }

    /// Wakes every waiting sender and receiver.
    fn disconnect(&mut self)
        requires
            old(self).wf(),
        ensures
            final(self).wf(),
            final(self).buffer == old(self).buffer,
            notified_by(old(self).recv_ops@, old(self).recv_ops.notified(), usize::MAX as nat,
                final(self).recv_ops@, final(self).recv_ops.notified()),
            notified_by(old(self).send_ops@, old(self).send_ops.notified(), usize::MAX as nat,
                final(self).send_ops@, final(self).send_ops.notified()),
            final(self).recv_ops.listens_left() == old(self).recv_ops.listens_left(),
            final(self).send_ops.listens_left() == old(self).send_ops.listens_left(),
    {
        self.recv_ops.notify(usize::MAX);
        self.send_ops.notify(usize::MAX);
    }
}

/// The items received so far, followed by the queued ones, are exactly the
/// items sent so far, in order.
pub open spec fn fifo<T>(sent: Seq<T>, received: Seq<T>, queue: Seq<T>) -> bool {
    sent == received + queue
}

/// A channel delivers items in the order they were sent: FIFO order holds of
/// a new channel, and each successful send (which pushes onto the queue) and
/// each successful receive (which takes the queue's first item) keeps it.
pub proof fn law_fifo<T>(sent: Seq<T>, received: Seq<T>, queue: Seq<T>, v: T)
    requires
        fifo(sent, received, queue),
    ensures
        fifo(Seq::<T>::empty(), Seq::<T>::empty(), Seq::<T>::empty()),
        fifo(sent.push(v), received, queue.push(v)),
        queue.len() > 0 ==> fifo(sent, received.push(queue[0]), queue.drop_first()),
        queue.len() > 0 ==> queue[0] == sent[received.len() as int],
        queue.len() == 0 ==> received == sent,
{
    assert(Seq::<T>::empty() =~= Seq::<T>::empty() + Seq::<T>::empty());
    assert(sent.push(v) =~= received + queue.push(v));
    if queue.len() > 0 {
        assert(sent =~= received.push(queue[0]) + queue.drop_first());
    }
}

/// Releasing the last handle of a side wakes every waiting sender and
/// receiver: after `notify(usize::MAX)` all listeners of a list are notified.
pub proof fn law_disconnect_wakes_all(s: Entries, k: nat, s2: Entries, k2: nat)
    requires
        notified_prefix(s, k),
        s.len() <= usize::MAX,
        notified_by(s, k, usize::MAX as nat, s2, k2),
    ensures
        k2 == s.len(),
        forall|i: int| 0 <= i < s2.len() ==> (#[trigger] s2[i]).1 is Notified,
{
}

/// What a future's listener slot looks like: `None` before the first wait,
/// `Some(None)` once its listener completed, `Some(Some(k))` while the
/// listener `k` is registered.
pub open spec fn listener_view(l: Option<EventListener>) -> Option<Option<u64>> {
    match l {
        None => None,
        Some(x) => Some(x.key()),
    }
}

/// Whether a future whose listener slot is `l` can wait on the list `s`: it
/// registers a listener if it has none (which needs room for one more key),
/// and polls its registered listener otherwise.
pub open spec fn can_wait(s: Entries, left: nat, l: Option<Option<u64>>) -> bool {
    match l {
        None => left > 0,
        Some(Some(k)) => has_key(s, k),
        Some(None) => false,
    }
}

/// The list `(s1, n1)` with `left1` free keys became `(s2, n2, left2)` when a
/// future with listener slot `l1`, polled by a task with waker `w`, waited on
/// it, leaving its slot as `l2`: a new listener keeps `w`; a registered one
/// is polled with `w`.
pub open spec fn waited(
    s1: Entries, n1: nat, left1: nat, l1: Option<Option<u64>>, w: Waker,
    s2: Entries, n2: nat, left2: nat, l2: Option<Option<u64>>,
) -> bool {
    match l1 {
        None => l2 matches Some(Some(k)) && !has_key(s1, k)
            && s2 == s1.push((k, Status::Polling(w))) && n2 == n1 && left2 + 1 == left1,
        Some(Some(k)) => l2 matches Some(k2) && polled(s1, n1, k, w, s2, n2, k2) && left2 == left1,
        Some(None) => false,
    }
}

/// Whether a future with listener slot `listener` can wait on `event`.
fn listener_can_wait(listener: &Option<EventListener>, event: &Event) -> (b: bool)
    requires
        event.wf(),
    ensures
        b == can_wait(event@, event.listens_left(), listener_view(*listener)),
{
    match listener {
        None => event.can_listen(),
        Some(l) => match l.entry_key() {
            Some(k) => event.has_listener(k),
            None => false,
        },
    }
}

/// Registers a listener in `listener` if there is none, and polls it.
fn wait_on(listener: &mut Option<EventListener>, event: &mut Event, waker: Waker)
    requires
        old(event).wf(),
        can_wait(old(event)@, old(event).listens_left(), listener_view(*old(listener))),
    ensures
        final(event).wf(),
        waited(old(event)@, old(event).notified(), old(event).listens_left(), listener_view(*old(listener)), waker,
            final(event)@, final(event).notified(), final(event).listens_left(), listener_view(*final(listener))),
{
    let ghost fresh = listener.is_none();
    if listener.is_none() {
        *listener = Some(event.listen());
    }
    let ghost mid = event@;
    let ghost w = waker;
    let mut l = listener.take().unwrap();
    proof {
        if fresh {
            let k = l.key()->Some_0;
            assert(mid[mid.len() - 1].0 == k);
            assert(has_key(mid, k));
            let c = crate::event::position_of(mid, k);
            assert(mid[c].0 == k);
            if c < mid.len() - 1 {
                assert(old(event)@[c] == mid[c]);
                assert(has_key(old(event)@, k));
            }
            assert(c == mid.len() - 1);
            assert(mid.update(c, (k, Status::Polling(w))) =~= old(event)@.push((k, Status::Polling(w))));
        }
    }
    let _ = l.poll(event, waker);
    proof {
        if fresh {
            let k = l.key()->Some_0;
            let c = crate::event::position_of(mid, k);
            assert(event@ =~= old(event)@.push((k, Status::Polling(w))));
        }
    }
    *listener = Some(l);
}

/// A bounded channel: the queue, the lists of waiting receivers and senders,
/// and the count of handles on each side.
pub struct Channel<T> {
    counter: Counter,
    inner: Inner<T>,
}

/// The right to send on a channel.
pub struct Sender<T> {
    marker: PhantomData<T>,
}

/// The right to receive from a channel.
pub struct Receiver<T> {
    marker: PhantomData<T>,
}

/// A send that waits for room in the queue.
pub struct Send<T> {
    listener: Option<EventListener>,
    msg: Option<T>,
}

/// A receive that waits for an item.
pub struct Recv {
    listener: Option<EventListener>,
}

impl<T> Channel<T> {
    /// Queued items, oldest first.
    pub closed spec fn queue(&self) -> Seq<T> {
        self.inner.buffer@
    }

    pub closed spec fn capacity(&self) -> nat {
        self.inner.buffer.capacity()
    }

    /// Live sender handles (0 or 1).
    pub closed spec fn senders(&self) -> nat {
        self.counter.senders()
    }

    /// Live receiver handles (0 or 1).
    pub closed spec fn receivers(&self) -> nat {
        self.counter.receivers()
    }

    /// Waiting receivers.
    pub closed spec fn recv_ops(&self) -> Event {
        self.inner.recv_ops
    }

    /// Waiting senders.
    pub closed spec fn send_ops(&self) -> Event {
        self.inner.send_ops
    }

    pub closed spec fn wf(&self) -> bool {
        &&& self.counter.wf()
        &&& self.inner.wf()
        &&& self.counter.senders() <= 1
        &&& self.counter.receivers() <= 1
    }

    /// Number of slots.
    pub fn cap(&self) -> (c: usize)
        ensures
            c == self.capacity(),
    {
        self.inner.buffer.cap()
    }

    /// Number of queued items.
    pub fn len(&self) -> (n: usize)
        requires
            self.wf(),
        ensures
            n == self.queue().len(),
    {
        self.inner.buffer.len()
    }

    /// Whether the sending side still has its handle.
    pub fn has_sender(&self) -> (b: bool)
        ensures
            b == (self.senders() > 0),
    {
        !self.counter.receiver_disconnected()
    }

    /// Whether the receiving side still has its handle.
    pub fn has_receiver(&self) -> (b: bool)
        ensures
            b == (self.receivers() > 0),
    {
        !self.counter.sender_disconnected()
    }

    /// The lists of waiters and the handle counts of a well-formed channel.
    pub proof fn lemma_wf(&self)
        requires
            self.wf(),
        ensures
            self.recv_ops().wf(),
            self.send_ops().wf(),
            self.queue().len() <= self.capacity(),
            self.senders() <= 1,
            self.receivers() <= 1,
    {
        self.inner.buffer.lemma_len_bound();
    }
}

/// Creates a channel that holds up to `cap` items, with one sender and one
/// receiver.
pub fn bounded<T>(cap: usize) -> (r: (Sender<T>, Receiver<T>, Channel<T>))
    ensures
        r.2.wf(),
        r.2.queue() == Seq::<T>::empty(),
        r.2.capacity() == cap,
        r.2.senders() == 1,
        r.2.receivers() == 1,
        r.2.recv_ops()@ == Seq::<(u64, Status)>::empty() && r.2.recv_ops().notified() == 0,
        r.2.send_ops()@ == Seq::<(u64, Status)>::empty() && r.2.send_ops().notified() == 0,
        r.2.recv_ops().listens_left() == u64::MAX && r.2.send_ops().listens_left() == u64::MAX,
{
    let chan = Channel { counter: Counter::new(), inner: Inner::new(cap) };
    (Sender { marker: PhantomData }, Receiver { marker: PhantomData }, chan)
}

impl<T> Sender<T> {
    /// Queues `v` if a receiver is left and the queue has room, waking one
    /// waiting receiver.
    pub fn try_send(&self, chan: &mut Channel<T>, v: T) -> (r: Result<(), TrySendError>)
        requires
            old(chan).wf(),
            old(chan).capacity() > 0 || old(chan).receivers() == 0,
        ensures
            final(chan).wf(),
            old(chan).receivers() == 0 ==> r == Err::<(), TrySendError>(TrySendError::Disconnected)
                && *final(chan) == *old(chan),
            old(chan).receivers() > 0 && old(chan).queue().len() == old(chan).capacity() ==>
                r == Err::<(), TrySendError>(TrySendError::Full) && *final(chan) == *old(chan),
            old(chan).receivers() > 0 && old(chan).queue().len() < old(chan).capacity() ==> {
                &&& r == Ok::<(), TrySendError>(())
                &&& final(chan).queue() == old(chan).queue().push(v)
                &&& notified_by(old(chan).recv_ops()@, old(chan).recv_ops().notified(), 1,
                    final(chan).recv_ops()@, final(chan).recv_ops().notified())
                &&& final(chan).recv_ops().listens_left() == old(chan).recv_ops().listens_left()
                &&& final(chan).send_ops() == old(chan).send_ops()
                &&& final(chan).capacity() == old(chan).capacity()
                &&& final(chan).senders() == old(chan).senders()
                &&& final(chan).receivers() == old(chan).receivers()
            },
    {
        proof { chan.lemma_wf(); }
        if chan.counter.sender_disconnected() {
            return Err(TrySendError::Disconnected);
        }
        if chan.inner.is_full() {
            return Err(TrySendError::Full);
        }
        chan.inner.send(v);
        Ok(())
    }

    /// A send of `v` that waits for room; see `Send::poll`.
    pub fn send(&self, v: T) -> (s: Send<T>)
        ensures
            s.message() == Some(v),
            s.listener() is None,
    {
        Send { listener: None, msg: Some(v) }
    }

    /// Gives up the sending side: a channel left with no sender wakes all
    /// its waiters, and a channel left with no handle at all drops its items.
    pub fn release(self, chan: &mut Channel<T>)
        requires
            old(chan).wf(),
            old(chan).senders() > 0,
        ensures
            final(chan).wf(),
            final(chan).senders() == 0,
            final(chan).receivers() == old(chan).receivers(),
            final(chan).capacity() == old(chan).capacity(),
            final(chan).queue() == (if old(chan).receivers() == 0 { Seq::<T>::empty() } else { old(chan).queue() }),
            notified_by(old(chan).recv_ops()@, old(chan).recv_ops().notified(), usize::MAX as nat,
                final(chan).recv_ops()@, final(chan).recv_ops().notified()),
            notified_by(old(chan).send_ops()@, old(chan).send_ops().notified(), usize::MAX as nat,
                final(chan).send_ops()@, final(chan).send_ops().notified()),
            final(chan).recv_ops().listens_left() == old(chan).recv_ops().listens_left(),
            final(chan).send_ops().listens_left() == old(chan).send_ops().listens_left(),
    {
        proof { chan.counter.lemma_half_released(); }
        let r = chan.counter.release_sender();
        chan.finish_release(r);
    }
}

impl<T> Receiver<T> {
    /// Takes the oldest item if a sender is left and the queue is not empty,
    /// waking one waiting sender.
    pub fn try_recv(&self, chan: &mut Channel<T>) -> (r: Result<T, TryRecvError>)
        requires
            old(chan).wf(),
        ensures
            final(chan).wf(),
            old(chan).senders() == 0 ==> (r matches Err(TryRecvError::Disconnected)) && *final(chan) == *old(chan),
            old(chan).senders() > 0 && old(chan).queue().len() == 0 ==>
                (r matches Err(TryRecvError::Empty)) && *final(chan) == *old(chan),
            old(chan).senders() > 0 && old(chan).queue().len() > 0 ==> {
                &&& r == Ok::<T, TryRecvError>(old(chan).queue()[0])
                &&& final(chan).queue() == old(chan).queue().drop_first()
                &&& notified_by(old(chan).send_ops()@, old(chan).send_ops().notified(), 1,
                    final(chan).send_ops()@, final(chan).send_ops().notified())
                &&& final(chan).send_ops().listens_left() == old(chan).send_ops().listens_left()
                &&& final(chan).recv_ops() == old(chan).recv_ops()
                &&& final(chan).capacity() == old(chan).capacity()
                &&& final(chan).senders() == old(chan).senders()
                &&& final(chan).receivers() == old(chan).receivers()
            },
    {
        if chan.counter.receiver_disconnected() {
            return Err(TryRecvError::Disconnected);
        }
        if chan.inner.is_empty() {
            return Err(TryRecvError::Empty);
        }
        Ok(chan.inner.recv())
    }

    /// A receive that waits for an item; see `Recv::poll`.
    pub fn recv(&self) -> (r: Recv)
        ensures
            r.listener() is None,
    {
        Recv { listener: None }
    }

    /// Gives up the receiving side: a channel left with no receiver wakes
    /// all its waiters, and a channel left with no handle at all drops its
    /// items.
    pub fn release(self, chan: &mut Channel<T>)
        requires
            old(chan).wf(),
            old(chan).receivers() > 0,
        ensures
            final(chan).wf(),
            final(chan).receivers() == 0,
            final(chan).senders() == old(chan).senders(),
            final(chan).capacity() == old(chan).capacity(),
            final(chan).queue() == (if old(chan).senders() == 0 { Seq::<T>::empty() } else { old(chan).queue() }),
            notified_by(old(chan).recv_ops()@, old(chan).recv_ops().notified(), usize::MAX as nat,
                final(chan).recv_ops()@, final(chan).recv_ops().notified()),
            notified_by(old(chan).send_ops()@, old(chan).send_ops().notified(), usize::MAX as nat,
                final(chan).send_ops()@, final(chan).send_ops().notified()),
            final(chan).recv_ops().listens_left() == old(chan).recv_ops().listens_left(),
            final(chan).send_ops().listens_left() == old(chan).send_ops().listens_left(),
    {
        proof { chan.counter.lemma_half_released(); }
        let r = chan.counter.release_receiver();
        chan.finish_release(r);
    }
}

impl<T> Channel<T> {
    /// Acts on what releasing the last handle of one side calls for.
    fn finish_release(&mut self, r: Release)
        requires
            old(self).inner.wf(),
            old(self).counter.wf(),
            r.disconnect,
        ensures
            final(self).inner.wf(),
            final(self).counter == old(self).counter,
            final(self).inner.buffer.capacity() == old(self).inner.buffer.capacity(),
            final(self).inner.buffer@ == (if r.destroy { Seq::<T>::empty() } else { old(self).inner.buffer@ }),
            notified_by(old(self).recv_ops()@, old(self).recv_ops().notified(), usize::MAX as nat,
                final(self).recv_ops()@, final(self).recv_ops().notified()),
            notified_by(old(self).send_ops()@, old(self).send_ops().notified(), usize::MAX as nat,
                final(self).send_ops()@, final(self).send_ops().notified()),
            final(self).recv_ops().listens_left() == old(self).recv_ops().listens_left(),
            final(self).send_ops().listens_left() == old(self).send_ops().listens_left(),
    {
        if r.disconnect {
            self.inner.disconnect();
        }
        if r.destroy {
            self.inner.buffer.clear();
        }
    }
}

impl<T> Send<T> {
    /// The message not yet queued.
    pub closed spec fn message(&self) -> Option<T> {
        self.msg
    }

    /// The listener slot; see `listener_view`.
    pub closed spec fn listener(&self) -> Option<Option<u64>> {
        listener_view(self.listener)
    }

    /// Whether the send can wait on `chan`, should its poll have to wait.
    pub fn can_wait(&self, chan: &Channel<T>) -> (b: bool)
        requires
            chan.wf(),
        ensures
            b == can_wait(chan.send_ops()@, chan.send_ops().listens_left(), self.listener()),
    {
        listener_can_wait(&self.listener, &chan.inner.send_ops)
    }

    /// Whether the message is still to be queued.
    pub fn has_message(&self) -> (b: bool)
        ensures
            b == self.message() is Some,
    {
        self.msg.is_some()
    }

    /// One poll: the message is queued if there is room; otherwise, if no
    /// receiver is left, the send fails; otherwise the send waits as one of
    /// the channel's waiting senders and `Pending` is returned.
    pub fn poll(&mut self, chan: &mut Channel<T>, waker: Waker) -> (r: Poll<Result<(), Error>>)
        requires
            old(chan).wf(),
            old(chan).capacity() > 0,
            old(chan).queue().len() < old(chan).capacity() ==> old(self).message() is Some,
            old(chan).queue().len() == old(chan).capacity() && old(chan).receivers() > 0 ==>
                can_wait(old(chan).send_ops()@, old(chan).send_ops().listens_left(), old(self).listener()),
        ensures
            final(chan).wf(),
            final(chan).capacity() == old(chan).capacity(),
            final(chan).senders() == old(chan).senders(),
            final(chan).receivers() == old(chan).receivers(),
            old(chan).queue().len() < old(chan).capacity() ==> {
                &&& r == Poll::<Result<(), Error>>::Ready(Ok(()))
                &&& final(self).message() is None
                &&& final(self).listener() == old(self).listener()
                &&& final(chan).queue() == old(chan).queue().push(old(self).message()->Some_0)
                &&& notified_by(old(chan).recv_ops()@, old(chan).recv_ops().notified(), 1,
                    final(chan).recv_ops()@, final(chan).recv_ops().notified())
                &&& final(chan).recv_ops().listens_left() == old(chan).recv_ops().listens_left()
                &&& final(chan).send_ops() == old(chan).send_ops()
            },
            old(chan).queue().len() == old(chan).capacity() && old(chan).receivers() == 0 ==> {
                &&& r == Poll::<Result<(), Error>>::Ready(Err(Error::Disconnected))
                &&& *final(self) == *old(self)
                &&& *final(chan) == *old(chan)
            },
            old(chan).queue().len() == old(chan).capacity() && old(chan).receivers() > 0 ==> {
                &&& r is Pending
                &&& final(self).message() == old(self).message()
                &&& final(chan).queue() == old(chan).queue()
                &&& final(chan).recv_ops() == old(chan).recv_ops()
                &&& waited(old(chan).send_ops()@, old(chan).send_ops().notified(),
                    old(chan).send_ops().listens_left(), old(self).listener(), waker,
                    final(chan).send_ops()@, final(chan).send_ops().notified(),
                    final(chan).send_ops().listens_left(), final(self).listener())
            },
    {
        proof { chan.lemma_wf(); }
        if chan.inner.poll_send(&mut self.msg).is_ready() {
            return Poll::Ready(Ok(()));
        }
        if chan.counter.sender_disconnected() {
            return Poll::Ready(Err(Error::Disconnected));
        }
        wait_on(&mut self.listener, &mut chan.inner.send_ops, waker);
        Poll::Pending
    }

    /// Abandons the send: the message is dropped, and a notification its
    /// listener held is passed on to another waiting sender.
    pub fn release(self, chan: &mut Channel<T>)
        requires
            old(chan).wf(),
        ensures
            final(chan).wf(),
            final(chan).queue() == old(chan).queue(),
            final(chan).capacity() == old(chan).capacity(),
            final(chan).senders() == old(chan).senders(),
            final(chan).receivers() == old(chan).receivers(),
            final(chan).recv_ops() == old(chan).recv_ops(),
            final(chan).send_ops().listens_left() == old(chan).send_ops().listens_left(),
            match self.listener() {
                Some(Some(k)) => if has_key(old(chan).send_ops()@, k) {
                    released(old(chan).send_ops()@, old(chan).send_ops().notified(), k,
                        final(chan).send_ops()@, final(chan).send_ops().notified())
                } else {
                    *final(chan) == *old(chan)
                },
                _ => *final(chan) == *old(chan),
            },
    {
        match self.listener {
            Some(l) => l.release(&mut chan.inner.send_ops),
            None => {},
        }
    }
}

impl Recv {
    /// The listener slot; see `listener_view`.
    pub closed spec fn listener(&self) -> Option<Option<u64>> {
        listener_view(self.listener)
    }

    /// Whether the receive can wait on `chan`, should its poll have to wait.
    pub fn can_wait<T>(&self, chan: &Channel<T>) -> (b: bool)
        requires
            chan.wf(),
        ensures
            b == can_wait(chan.recv_ops()@, chan.recv_ops().listens_left(), self.listener()),
    {
        listener_can_wait(&self.listener, &chan.inner.recv_ops)
    }

    /// One poll: the oldest item is taken if there is one; otherwise, if no
    /// sender is left, the receive fails; otherwise the receive waits as one
    /// of the channel's waiting receivers and `Pending` is returned.
    pub fn poll<T>(&mut self, chan: &mut Channel<T>, waker: Waker) -> (r: Poll<Result<T, Error>>)
        requires
            old(chan).wf(),
            old(chan).queue().len() == 0 && old(chan).senders() > 0 ==>
                can_wait(old(chan).recv_ops()@, old(chan).recv_ops().listens_left(), old(self).listener()),
        ensures
            final(chan).wf(),
            final(chan).capacity() == old(chan).capacity(),
            final(chan).senders() == old(chan).senders(),
            final(chan).receivers() == old(chan).receivers(),
            old(chan).queue().len() > 0 ==> {
                &&& r == Poll::<Result<T, Error>>::Ready(Ok(old(chan).queue()[0]))
                &&& final(self).listener() == old(self).listener()
                &&& final(chan).queue() == old(chan).queue().drop_first()
                &&& notified_by(old(chan).send_ops()@, old(chan).send_ops().notified(), 1,
                    final(chan).send_ops()@, final(chan).send_ops().notified())
                &&& final(chan).send_ops().listens_left() == old(chan).send_ops().listens_left()
                &&& final(chan).recv_ops() == old(chan).recv_ops()
            },
            old(chan).queue().len() == 0 && old(chan).senders() == 0 ==> {
                &&& r == Poll::<Result<T, Error>>::Ready(Err(Error::Disconnected))
                &&& *final(self) == *old(self)
                &&& *final(chan) == *old(chan)
            },
            old(chan).queue().len() == 0 && old(chan).senders() > 0 ==> {
                &&& r is Pending
                &&& final(chan).queue() == old(chan).queue()
                &&& final(chan).send_ops() == old(chan).send_ops()
                &&& waited(old(chan).recv_ops()@, old(chan).recv_ops().notified(),
                    old(chan).recv_ops().listens_left(), old(self).listener(), waker,
                    final(chan).recv_ops()@, final(chan).recv_ops().notified(),
                    final(chan).recv_ops().listens_left(), final(self).listener())
            },
    {
        if let Poll::Ready(v) = chan.inner.poll_recv() {
            return Poll::Ready(Ok(v));
        }
        if chan.counter.receiver_disconnected() {
            return Poll::Ready(Err(Error::Disconnected));
        }
        wait_on(&mut self.listener, &mut chan.inner.recv_ops, waker);
        Poll::Pending
    }

    /// Abandons the receive: a notification its listener held is passed on to
    /// another waiting receiver.
    pub fn release<T>(self, chan: &mut Channel<T>)
        requires
            old(chan).wf(),
        ensures
            final(chan).wf(),
            final(chan).queue() == old(chan).queue(),
            final(chan).capacity() == old(chan).capacity(),
            final(chan).senders() == old(chan).senders(),
            final(chan).receivers() == old(chan).receivers(),
            final(chan).send_ops() == old(chan).send_ops(),
            final(chan).recv_ops().listens_left() == old(chan).recv_ops().listens_left(),
            match self.listener() {
                Some(Some(k)) => if has_key(old(chan).recv_ops()@, k) {
                    released(old(chan).recv_ops()@, old(chan).recv_ops().notified(), k,
                        final(chan).recv_ops()@, final(chan).recv_ops().notified())
                } else {
                    *final(chan) == *old(chan)
                },
                _ => *final(chan) == *old(chan),
            },
    {
        match self.listener {
            Some(l) => l.release(&mut chan.inner.recv_ops),
            None => {},
        }
    }
}

} // verus!
