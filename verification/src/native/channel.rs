//! The queue that carries events from the threads of the operating system to
//! the render thread: unbounded, first in first out, never blocking a sender.
use vstd::prelude::*;
use std::collections::VecDeque;

verus! {

/// Whether the consuming end of a channel exists.
#[derive(Clone, Copy, Debug, PartialEq, Eq, Structural)]
pub enum Link {
    /// No consumer has attached yet.
    Unattached,
    /// A consumer is attached.
    Attached,
    /// The consumer has gone for good.
    Closed,
}

/// What became of an event that was handed to `send`. An event that was not
/// delivered is dropped, and the sender is owed a diagnostic.
#[derive(Clone, Copy, Debug, PartialEq, Eq, Structural)]
pub enum Delivery {
    /// The event is queued behind all earlier ones.
    Delivered,
    /// Dropped: no consumer has attached yet.
    NoConsumer,
    /// Dropped: the consumer has gone.
    Disconnected,
}

/// A channel as a mathematical value: its link and the events that wait,
/// oldest first.
#[verifier::ext_equal]
pub struct ChannelModel<T> {
    pub link: Link,
    pub queued: Seq<T>,
}

impl<T> ChannelModel<T> {
    /// A channel before any consumer exists.
    pub open spec fn unattached() -> ChannelModel<T> {
        ChannelModel { link: Link::Unattached, queued: Seq::empty() }
    }

    /// The channel after a consumer attached. A closed channel stays closed.
    pub open spec fn attach(self) -> ChannelModel<T> {
        if self.link == Link::Unattached {
            ChannelModel { link: Link::Attached, queued: self.queued }
        } else {
            self
        }
    }

    /// The channel after the consumer has gone: what waited is lost.
    pub open spec fn close(self) -> ChannelModel<T> {
        ChannelModel { link: Link::Closed, queued: Seq::empty() }
    }

    /// What becomes of an event that is sent now.
    pub open spec fn delivery(self) -> Delivery {
        match self.link {
            Link::Unattached => Delivery::NoConsumer,
            Link::Attached => Delivery::Delivered,
            Link::Closed => Delivery::Disconnected,
        }
    }

    /// The channel after `event` was sent.
    pub open spec fn send(self, event: T) -> ChannelModel<T> {
        if self.link == Link::Attached {
            ChannelModel { link: self.link, queued: self.queued.push(event) }
        } else {
            self
        }
    }

    /// The channel after each of `events` was sent, first to last.
    pub open spec fn send_all(self, events: Seq<T>) -> ChannelModel<T>
        decreases events.len(),
    {
        if events.len() == 0 {
            self
        } else {
            self.send_all(events.drop_last()).send(events.last())
        }
    }

    /// The event that the consumer receives now, if one waits.
    pub open spec fn front(self) -> Option<T> {
        if self.queued.len() > 0 {
            Some(self.queued[0])
        } else {
            None
        }
    }

    /// The channel after the consumer received once.
    pub open spec fn recv(self) -> ChannelModel<T> {
        if self.queued.len() > 0 {
            ChannelModel { link: self.link, queued: self.queued.drop_first() }
        } else {
            self
        }
    }

    /// The channel after the consumer received `n` times.
    pub open spec fn recv_n(self, n: nat) -> ChannelModel<T>
        decreases n,
    {
        if n == 0 {
            self
        } else {
            self.recv_n((n - 1) as nat).recv()
        }
    }

    /// The events that the consumer gets from `n` receives that each find an
    /// event waiting, in the order in which it gets them.
    pub open spec fn received(self, n: nat) -> Seq<T>
        recommends
            n <= self.queued.len(),
        decreases n,
    {
        if n == 0 {
            Seq::empty()
        } else {
            self.received((n - 1) as nat).push(self.recv_n((n - 1) as nat).queued[0])
        }
    }
}

/// The queue between the producers of events and their one consumer.
pub struct EventChannel<T> {
    link: Link,
    queue: VecDeque<T>,
}

impl<T> View for EventChannel<T> {
    type V = ChannelModel<T>;

    closed spec fn view(&self) -> ChannelModel<T> {
        ChannelModel { link: self.link, queued: self.queue@ }
    }
}

impl<T> EventChannel<T> {
    /// A channel that no consumer has attached to yet.
    pub fn new() -> (channel: EventChannel<T>)
        ensures
            channel@ == ChannelModel::<T>::unattached(),
    {
        EventChannel { link: Link::Unattached, queue: VecDeque::new() }
    }

    /// The state of the consuming end.
    pub fn link(&self) -> (link: Link)
        ensures
            link == self@.link,
    {
        self.link
    }

    /// How many events wait.
    pub fn len(&self) -> (n: usize)
        ensures
            n == self@.queued.len(),
    {
        self.queue.len()
    }

    /// The consumer attaches. From now on events that are sent are queued.
    pub fn attach(&mut self)
        ensures
            final(self)@ == old(self)@.attach(),
    {
        if self.link == Link::Unattached {
            self.link = Link::Attached;
        }
    }

    /// The consumer goes for good. What waited is lost, and what is sent
    /// from now on is dropped.
    pub fn close(&mut self)
        ensures
            final(self)@ == old(self)@.close(),
    {
        self.queue.clear();
        self.link = Link::Closed;
    }

    /// Hands an event to the channel without ever waiting. It is queued
    /// behind all earlier events if a consumer is attached; otherwise it is
    /// dropped, the channel is left as it was, and the result says why.
    pub fn send(&mut self, event: T) -> (delivery: Delivery)
        ensures
            delivery == old(self)@.delivery(),
            final(self)@ == old(self)@.send(event),
    {
        match self.link {
            Link::Unattached => Delivery::NoConsumer,
            Link::Attached => {
                self.queue.push_back(event);
                Delivery::Delivered
            },
            Link::Closed => Delivery::Disconnected,
        }
    }

    /// Takes the oldest waiting event out of the channel, without waiting
    /// for one: `None` says that none waits.
    pub fn try_recv(&mut self) -> (event: Option<T>)
        ensures
            event == old(self)@.front(),
            final(self)@ == old(self)@.recv(),
    {
        let event: Option<T> = self.queue.pop_front();
        proof {
            if old(self)@.queued.len() > 0 {
                assert(self.queue@ =~= old(self)@.queued.drop_first());
            }
        }
        event
    }
}

/// Sending to an attached channel appends the events in the order in which
/// they are sent, and disturbs nothing that waits already.
pub proof fn lemma_send_all_appends<T>(c: ChannelModel<T>, events: Seq<T>)
    requires
        c.link == Link::Attached,
    ensures
        c.send_all(events).link == Link::Attached,
        c.send_all(events).queued == c.queued + events,
    decreases events.len(),
{
    if events.len() > 0 {
        lemma_send_all_appends(c, events.drop_last());
        assert(c.queued + events =~= (c.queued + events.drop_last()).push(events.last()));
    } else {
        assert(c.queued + events =~= c.queued);
    }
}

/// Receiving `n` times, with at least `n` events waiting, hands out the `n`
/// oldest events, oldest first, each once, and leaves the others waiting in
/// their order.
pub proof fn lemma_recv_takes_oldest<T>(c: ChannelModel<T>, n: nat)
    requires
        n <= c.queued.len(),
    ensures
        c.received(n) == c.queued.take(n as int),
        c.recv_n(n).queued == c.queued.skip(n as int),
        c.recv_n(n).link == c.link,
    decreases n,
{
    if n > 0 {
        let m: nat = (n - 1) as nat;
        lemma_recv_takes_oldest(c, m);
        assert(c.recv_n(m).queued[0] == c.queued[m as int]);
        assert(c.queued.take(n as int) =~= c.queued.take(m as int).push(c.queued[m as int]));
        assert(c.queued.skip(m as int).drop_first() =~= c.queued.skip(n as int));
    } else {
        assert(c.queued.take(0) =~= Seq::<T>::empty());
        assert(c.queued.skip(0) =~= c.queued);
    }
}

/// Events come out in the order in which they went in, and none comes out
/// twice: what is sent to an attached, empty channel is what as many
/// receives hand out, after which nothing waits and a further receive finds
/// nothing.
pub proof fn lemma_first_in_first_out<T>(c: ChannelModel<T>, events: Seq<T>)
    requires
        c.link == Link::Attached,
        c.queued.len() == 0,
    ensures
        c.send_all(events).received(events.len()) == events,
        c.send_all(events).recv_n(events.len()).queued.len() == 0,
        c.send_all(events).recv_n(events.len()).front() is None,
{
    lemma_send_all_appends(c, events);
    assert(c.queued + events =~= events);
    lemma_recv_takes_oldest(c.send_all(events), events.len());
    assert(events.take(events.len() as int) =~= events);
}

/// Events that are sent before a consumer exists are dropped and leave no
/// trace: once a consumer attaches, the channel delivers what is sent from
/// then on, in order and complete, as if nothing had been sent before.
pub proof fn lemma_drops_leave_no_trace<T>(dropped: Seq<T>, events: Seq<T>)
    ensures
        ChannelModel::<T>::unattached().send_all(dropped) == ChannelModel::<T>::unattached(),
        ChannelModel::<T>::unattached().send_all(dropped).attach().send_all(events).received(
            events.len(),
        ) == events,
    decreases dropped.len(),
{
    let c = ChannelModel::<T>::unattached();
    if dropped.len() > 0 {
        lemma_drops_leave_no_trace(dropped.drop_last(), events);
    }
    assert(c.send_all(dropped) == c);
    lemma_first_in_first_out(c.attach(), events);
}

/// One use of a channel by one of its two sides.
pub enum ChannelOp<T> {
    /// A producer sends an event.
    Send(T),
    /// The consumer tries to receive.
    Recv,
}

/// A channel after a stretch of use: the channel itself, the events that
/// were delivered to it, and the events that the consumer received, each in
/// order.
#[verifier::ext_equal]
pub struct ChannelRun<T> {
    pub channel: ChannelModel<T>,
    pub delivered: Seq<T>,
    pub received: Seq<T>,
}

/// The channel after `ops`, first to last, in whatever way sends and
/// receives alternate.
pub open spec fn run_ops<T>(channel: ChannelModel<T>, ops: Seq<ChannelOp<T>>) -> ChannelRun<T>
    decreases ops.len(),
{
    if ops.len() == 0 {
        ChannelRun { channel, delivered: Seq::empty(), received: Seq::empty() }
    } else {
        let before = run_ops(channel, ops.drop_last());
        match ops.last() {
            ChannelOp::Send(event) => ChannelRun {
                channel: before.channel.send(event),
                delivered: if before.channel.delivery() == Delivery::Delivered {
                    before.delivered.push(event)
                } else {
                    before.delivered
                },
                received: before.received,
            },
            ChannelOp::Recv => ChannelRun {
                channel: before.channel.recv(),
                delivered: before.delivered,
                received: match before.channel.front() {
                    Some(event) => before.received.push(event),
                    None => before.received,
                },
            },
        }
    }
}

/// However sends and receives alternate, what the consumer has received,
/// followed by what still waits, is what waited at first followed by what
/// was delivered since, in that order: nothing is lost, nothing comes
/// twice, nothing overtakes.
pub proof fn lemma_nothing_lost_nothing_twice<T>(channel: ChannelModel<T>, ops: Seq<ChannelOp<T>>)
    ensures
        run_ops(channel, ops).received + run_ops(channel, ops).channel.queued == channel.queued
            + run_ops(channel, ops).delivered,
        run_ops(channel, ops).channel.link == channel.link,
    decreases ops.len(),
{
    let run = run_ops(channel, ops);
    if ops.len() == 0 {
        assert(run.received + run.channel.queued =~= channel.queued + run.delivered);
    } else {
        let before = run_ops(channel, ops.drop_last());
        lemma_nothing_lost_nothing_twice(channel, ops.drop_last());
        match ops.last() {
            ChannelOp::Send(event) => {
                if before.channel.delivery() == Delivery::Delivered {
                    assert(run.received + run.channel.queued =~= (before.received
                        + before.channel.queued).push(event));
                    assert(channel.queued + run.delivered =~= (channel.queued
                        + before.delivered).push(event));
                }
            },
            ChannelOp::Recv => {
                if before.channel.queued.len() > 0 {
                    assert(run.received + run.channel.queued =~= before.received
                        + before.channel.queued);
                }
            },
        }
    }
}

} // verus!
