//! A bounded single-producer, single-consumer queue of transport commands,
//! cut into a push-only end and a pop-only end. Neither end ever blocks.
//!
//! The ends may live on different threads, so what one end sees depends on
//! what the other has done meanwhile. Each end therefore records, as ghost
//! state, the commands that went through it: the producer the commands it
//! accepted, the consumer the commands it handed out.

use crate::transport::Command;
use ringbuf::{HeapConsumer, HeapProducer, HeapRb};
use vstd::prelude::*;

verus! {

/// A ring buffer of commands, not yet cut into its ends.
#[verifier::external_body]
pub struct RawRing {
    inner: HeapRb<Command>,
}

/// The ring buffer's write end.
#[verifier::external_body]
pub struct RawProducer {
    inner: HeapProducer<Command>,
}

/// The ring buffer's read end.
#[verifier::external_body]
pub struct RawConsumer {
    inner: HeapConsumer<Command>,
}

/// How many slots a ring buffer has.
pub uninterp spec fn ring_capacity(ring: RawRing) -> nat;

/// How many slots the buffer behind a write end has.
pub uninterp spec fn producer_capacity(tx: RawProducer) -> nat;

/// How many items a write end has pushed in all, since the buffer was made.
pub uninterp spec fn producer_pushed(tx: RawProducer) -> nat;

/// Relies on ringbuf's `HeapRb::new`: allocates `capacity` slots, and
/// panics on zero.
#[verifier::external_body]
fn new_ring(capacity: usize) -> (r: RawRing)
    requires
        capacity > 0,
    ensures
        ring_capacity(r) == capacity,
{
    RawRing { inner: HeapRb::new(capacity) }
}

/// Relies on ringbuf's `SharedRb::split`: moves the buffer to the heap and
/// hands out its write end and its read end. The buffer is new, so nothing
/// has been pushed yet.
#[verifier::external_body]
fn split_ring(ring: RawRing) -> (r: (RawProducer, RawConsumer))
    requires
        ring_capacity(ring) > 0,
    ensures
        producer_capacity(r.0) == ring_capacity(ring),
        producer_pushed(r.0) == 0,
{
    let (tx, rx) = ring.inner.split();
    (RawProducer { inner: tx }, RawConsumer { inner: rx })
}

/// Relies on ringbuf's `Producer::push`: it fails only when no slot is
/// free, and then gives the item back in `Err`. Only this end adds items,
/// so while fewer than the capacity have been pushed in all, a slot is free.
#[verifier::external_body]
fn push_raw(tx: &mut RawProducer, c: Command) -> (r: Result<(), Command>)
    ensures
        r matches Err(back) ==> back == c,
        producer_pushed(*old(tx)) < producer_capacity(*old(tx)) ==> r is Ok,
        producer_capacity(*final(tx)) == producer_capacity(*old(tx)),
        r is Ok ==> producer_pushed(*final(tx)) == producer_pushed(*old(tx)) + 1,
        r is Err ==> producer_pushed(*final(tx)) == producer_pushed(*old(tx)),
{
    tx.inner.push(c)
}

/// Relies on ringbuf's `Consumer::pop`: the oldest item, or `None` when the
/// buffer is empty.
#[verifier::external_body]
fn pop_raw(rx: &mut RawConsumer) -> (r: Option<Command>) {
    rx.inner.pop()
}

/// A command could not be queued.
#[derive(Clone, Copy, Debug, PartialEq, Eq, Structural)]
pub enum CommandError {
    /// The channel was at capacity; the command was not queued.
    QueueFull,
}

/// The push-only end of a command channel.
pub struct CommandProducer {
    tx: RawProducer,
    accepted: Ghost<Seq<Command>>,
}

/// The pop-only end of a command channel.
pub struct CommandConsumer {
    rx: RawConsumer,
    delivered: Ghost<Seq<Command>>,
}

/// Creates a channel of `capacity` slots and returns its two ends. Nothing
/// has gone through either end yet.
pub fn command_channel(capacity: usize) -> (r: (CommandProducer, CommandConsumer))
    requires
        capacity > 0,
    ensures
        r.0.wf(),
        r.0.capacity() == capacity,
        r.0.accepted() == Seq::<Command>::empty(),
        r.1.delivered() == Seq::<Command>::empty(),
{
    let (tx, rx) = split_ring(new_ring(capacity));
    (
        CommandProducer { tx, accepted: Ghost(Seq::empty()) },
        CommandConsumer { rx, delivered: Ghost(Seq::empty()) },
    )
}

impl CommandProducer {
    /// The commands this end has queued so far, oldest first.
    pub closed spec fn accepted(&self) -> Seq<Command> {
        self.accepted@
    }

    /// How many slots the channel has.
    pub closed spec fn capacity(&self) -> nat {
        producer_capacity(self.tx)
    }

    /// The record of accepted commands matches what the buffer was given.
    pub closed spec fn wf(&self) -> bool {
        producer_pushed(self.tx) == self.accepted@.len()
    }

    /// Queues `c` without blocking. While fewer commands than the capacity
    /// have been queued, it succeeds; on a full channel nothing is queued
    /// and `QueueFull` comes back.
    pub fn try_push(&mut self, c: Command) -> (r: Result<(), CommandError>)
        requires
            old(self).wf(),
        ensures
            final(self).wf(),
            final(self).capacity() == old(self).capacity(),
            old(self).accepted().len() < old(self).capacity() ==> r is Ok,
            r is Ok ==> final(self).accepted() == old(self).accepted().push(c),
            r is Err ==> final(self).accepted() == old(self).accepted() && r == Err::<(), CommandError>(CommandError::QueueFull),
    {
        match push_raw(&mut self.tx, c) {
            Ok(()) => {
                self.accepted = Ghost(self.accepted@.push(c));
                Ok(())
            },
            Err(_) => Err(CommandError::QueueFull),
        }
    }
}

impl CommandConsumer {
    /// The commands this end has handed out so far, oldest first.
    pub closed spec fn delivered(&self) -> Seq<Command> {
        self.delivered@
    }

    /// Takes the oldest queued command, if any, without blocking.
    pub fn try_pop(&mut self) -> (r: Option<Command>)
        ensures
            r matches Some(c) ==> final(self).delivered() == old(self).delivered().push(c),
            r is None ==> final(self).delivered() == old(self).delivered(),
    {
        let r = pop_raw(&mut self.rx);
        if let Some(c) = r {
            self.delivered = Ghost(self.delivered@.push(c));
        }
        r
    }
}

} // verus!
