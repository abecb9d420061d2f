//! A one-shot channel: a single storage slot handing at most one message
//! from a sender to a receiver.
//!
//! The slot is guarded by two flags. `ready` is set, after the message is
//! written, to publish it to the receiver; `in_use` is set by the first
//! send and never cleared, so a second send on the same channel is refused
//! instead of silently overwriting. Receiving clears `ready` while taking
//! the message, so a second receive is refused instead of returning a
//! stale value.
//!
//! Two shapes share this slot. Used in place, `send` / `receive` /
//! `is_ready` are guarded by the flags alone. Split into a [`Sender`] and
//! a [`Receiver`], each half is consumed by its one operation, so at most
//! one send and one receive exist per split; and each half carries the
//! ghost generation of the split that issued it, which every later split
//! moves on, so a half of an earlier split — or of another channel, whose
//! generation nothing relates to this one — is refused rather than
//! touching a slot it was not issued for. The receiving side blocks by
//! parking its thread until `is_ready` holds — any spurious unpark just
//! re-checks the flag — and the sending side, having set `ready`, must
//! unpark the receiving thread.

use vstd::prelude::*;

verus! {

/// State of a one-shot channel as contracts see it: the slot, the two
/// flags, and the ghost generation of the latest split.
pub struct ChannelView<T> {
    pub message: Option<T>,
    pub ready: bool,
    pub in_use: bool,
    pub generation: int,
}

impl<T> ChannelView<T> {
    /// Well-formed: a message sits in the slot exactly while it is
    /// published, and can only have been written by a send.
    pub open spec fn wf(self) -> bool {
        (self.ready <==> self.message.is_some()) && (self.ready ==> self.in_use)
    }
}

/// What a send does: write the message, publish it, and mark the channel
/// used up for senders.
pub open spec fn spec_send<T>(c: ChannelView<T>, m: T) -> ChannelView<T> {
    ChannelView { message: Some(m), ready: true, in_use: true, generation: c.generation }
}

/// What a receive does: take the message and withdraw the publication;
/// the channel stays used up.
pub open spec fn spec_receive<T>(c: ChannelView<T>) -> (ChannelView<T>, T) {
    (
        ChannelView { message: None, ready: false, in_use: c.in_use, generation: c.generation },
        c.message.unwrap(),
    )
}

/// A single-use slot for one message of type `T`.
pub struct Channel<T> {
    message: Option<T>,
    ready: bool,
    in_use: bool,
    generation: Ghost<int>,
}

/// The sending half of a split channel, consumed by its one send. Its
/// view is the generation of the split that issued it.
pub struct Sender {
    generation: Ghost<int>,
}

/// The receiving half of a split channel, consumed by its one receive.
/// Its view is the generation of the split that issued it.
pub struct Receiver {
    generation: Ghost<int>,
}

impl<T> View for Channel<T> {
    type V = ChannelView<T>;

    closed spec fn view(&self) -> ChannelView<T> {
        ChannelView {
            message: self.message,
            ready: self.ready,
            in_use: self.in_use,
            generation: self.generation@,
        }
    }
}

impl View for Sender {
    type V = int;

    closed spec fn view(&self) -> int {
        self.generation@
    }
}

impl View for Receiver {
    type V = int;

    closed spec fn view(&self) -> int {
        self.generation@
    }
}

impl<T> Channel<T> {
    pub open spec fn wf(&self) -> bool {
        self@.wf()
    }

    /// A new channel is empty, unpublished and never sent on. Nothing is
    /// promised of its generation, so no half of another channel can be
    /// shown current for this one.
    pub fn new() -> (r: Channel<T>)
        ensures
            r.wf(),
            r@.message.is_none(),
            !r@.ready,
            !r@.in_use,
    {
        Channel { message: None, ready: false, in_use: false, generation: Ghost(0) }
    }

    /// Hand out the two single-use halves, resetting the channel; whatever
    /// unreceived message the slot still held is dropped with the reset.
    /// The halves are stamped with this split's generation: each is
    /// consumed by its one operation, and a later split moves the
    /// generation on, so a half left over from an earlier split is refused
    /// rather than reaching the re-armed slot.
    pub fn split(&mut self) -> (r: (Sender, Receiver))
        ensures
            final(self).wf(),
            final(self)@.message.is_none(),
            !final(self)@.ready,
            !final(self)@.in_use,
            final(self)@.generation == old(self)@.generation + 1,
            r.0@ == final(self)@.generation,
            r.1@ == final(self)@.generation,
    {
        self.message = None;
        self.ready = false;
        self.in_use = false;
        self.generation = Ghost(self.generation@ + 1);
        (
            Sender { generation: Ghost(self.generation@) },
            Receiver { generation: Ghost(self.generation@) },
        )
    }

    /// Send in place. The channel must never have been sent on: a second
    /// send is a programmer error and is refused, never a silent
    /// overwrite.
    pub fn send(&mut self, message: T)
        requires
            old(self).wf(),
            !old(self)@.in_use,
        ensures
            final(self).wf(),
            final(self)@ == spec_send(old(self)@, message),
    {
        self.in_use = true;
        self.message = Some(message);
        self.ready = true;
    }

    /// Whether a message is published and waiting. The parking receive
    /// loop blocks while this is false and re-checks it after every
    /// unpark, spurious or not.
    pub fn is_ready(&self) -> (r: bool)
        ensures
            r == self@.ready,
    {
        self.ready
    }

    /// Whether a send would be accepted: only on a channel never sent on.
    pub fn can_send(&self) -> (r: bool)
        ensures
            r == !self@.in_use,
    {
        !self.in_use
    }

    /// Receive in place, exactly once: takes the message and withdraws the
    /// publication. A message must be published; receiving early or twice
    /// is a programmer error and is refused, never a stale value.
    pub fn receive(&mut self) -> (m: T)
        requires
            old(self).wf(),
            old(self)@.ready,
        ensures
            final(self).wf(),
            (final(self)@, m) == spec_receive(old(self)@),
    {
        self.ready = false;
        let m = self.message.take();
        m.unwrap()
    }

    /// Receive if a message is published, with nothing to say otherwise:
    /// the polling caller's fail-fast check.
    pub fn try_receive(&mut self) -> (m: Option<T>)
        requires
            old(self).wf(),
        ensures
            final(self).wf(),
            m.is_some() <==> old(self)@.ready,
            old(self)@.ready ==> (final(self)@, m.unwrap()) == spec_receive(old(self)@),
            !old(self)@.ready ==> final(self)@ == old(self)@,
    {
        if self.ready {
            Some(self.receive())
        } else {
            None
        }
    }

    /// Tear the channel down, handing back whatever message was written
    /// but never received, so its resources are released by the caller
    /// rather than leaked.
    pub fn into_message(self) -> (m: Option<T>)
        ensures
            m == self@.message,
    {
        self.message
    }
}

impl Sender {
    /// Send through the sending half, consuming it. The half must be
    /// current: issued by this channel's latest split. Having published
    /// the message, the sender must unpark the receiving thread, whose
    /// receive loop then finds `is_ready`.
    pub fn send<T>(self, channel: &mut Channel<T>, message: T)
        requires
            old(channel).wf(),
            !old(channel)@.in_use,
            self@ == old(channel)@.generation,
        ensures
            final(channel).wf(),
            final(channel)@ == spec_send(old(channel)@, message),
    {
        channel.send(message)
    }
}

impl Receiver {
    /// Receive through the receiving half, consuming it. The half must be
    /// current — issued by this channel's latest split, so it can never
    /// take a message of a later generation — and a message must be
    /// published; the parking loop around this call blocks until
    /// [`Channel::is_ready`] holds.
    pub fn receive<T>(self, channel: &mut Channel<T>) -> (m: T)
        requires
            old(channel).wf(),
            old(channel)@.ready,
            self@ == old(channel)@.generation,
        ensures
            final(channel).wf(),
            (final(channel)@, m) == spec_receive(old(channel)@),
    {
        channel.receive()
    }
}

/// Exactly-once delivery: on a channel not yet sent on, a send publishes
/// exactly the sent message, the one receive returns exactly that message,
/// and afterwards the channel refuses both a second receive (nothing is
/// published) and a second send (the channel stays used up).
pub proof fn lemma_exactly_once_delivery<T>(c: ChannelView<T>, m: T)
    requires
        c.wf(),
        !c.in_use,
    ensures
        spec_send(c, m).ready,
        spec_send(c, m).in_use,
        spec_receive(spec_send(c, m)).1 == m,
        !spec_receive(spec_send(c, m)).0.ready,
        spec_receive(spec_send(c, m)).0.in_use,
{
}

} // verus!
