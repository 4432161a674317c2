//! A playback unit and its control handle.
//!
//! The unit owns the node and the consumer end of a command channel; the
//! handle owns the producer end. Before each block of audio the unit drains
//! the queued commands and applies them to its state, in the order they were
//! sent. The node produces frames whatever the state: this layer tracks
//! transport state only, not gain.

use crate::channel::{command_channel, CommandConsumer, CommandError, CommandProducer};
use crate::foreign::Foreign;
use crate::transport::{lemma_stopped_is_terminal, run_resets, run_state, Command, State};
use fundsp::audiounit::AudioUnit64;
use fundsp::net::Net64;
use vstd::prelude::*;

verus! {

#[verifier::external_type_specification]
#[verifier::external_body]
pub struct ExNet64(Net64);

/// Slots in each command channel.
pub const COMMAND_BUFFER_CAPACITY: usize = 8;

/// Holds of a network whose reset returns: fundsp orders the network on its
/// first reset and panics if its graph, or that of a network nested in it,
/// has a cycle. A network made by wrapping one acyclic unit, such as an
/// oscillator, has none.
pub uninterp spec fn resets_cleanly(net: Net64) -> bool;

/// Relies on fundsp's `AudioUnit64::reset` for `Net64`: with no sample rate
/// given, every unit of the network returns to its initial condition. The
/// graph is left as it was, so a later reset returns too.
#[verifier::external_body]
fn reset_node(node: &mut Net64)
    requires
        resets_cleanly(*old(node)),
    ensures
        resets_cleanly(*final(node)),
{
    node.reset(None)
}

/// A node waiting to be played.
pub struct FunData(pub Net64);

/// A playback unit: the node, its transport state and the receiving end of
/// its command channel.
pub struct FunSound {
    pub node: Net64,
    state: State,
    rx: CommandConsumer,
    resets: Ghost<nat>,
}

/// The control side of a playback unit: the sending end of its command
/// channel. Dropping it does not stop playback.
pub struct Handle {
    tx: CommandProducer,
}

/// A handle owned on behalf of a garbage-collecting host.
pub struct AbstractHandle(pub Foreign<Handle>);

impl AbstractHandle {
    /// Takes ownership of `handle` on behalf of the host.
    pub fn new(handle: Handle) -> (r: Self)
        ensures
            r.0@ == Some(handle),
    {
        AbstractHandle(Foreign::new(handle))
    }
}

impl FunData {
    /// Builds the playback unit and its paired handle around a fresh command
    /// channel of `COMMAND_BUFFER_CAPACITY` slots. The unit starts `Playing`
    /// and nothing has been sent yet. The network must reset without a
    /// cycle in its graph.
    pub fn into_sound(self) -> (r: (FunSound, Handle))
        requires
            resets_cleanly(self.0),
        ensures
            r.1.wf(),
            r.1.capacity() == COMMAND_BUFFER_CAPACITY,
            r.0.wf(),
            r.0.node_of() == self.0,
            r.0.state() == State::Playing,
            r.0.received() == Seq::<Command>::empty(),
            r.0.node_resets() == 0,
            r.1.sent() == Seq::<Command>::empty(),
    {
        let (tx, rx) = command_channel(COMMAND_BUFFER_CAPACITY);
        (FunSound { node: self.0, state: State::Playing, rx, resets: Ghost(0) }, Handle { tx })
    }
}

impl FunSound {
    /// The transport state.
    pub closed spec fn state(&self) -> State {
        self.state
    }

    /// Every command the unit has taken from its channel, oldest first.
    pub closed spec fn received(&self) -> Seq<Command> {
        self.rx.delivered()
    }

    /// The node being played.
    pub closed spec fn node_of(&self) -> Net64 {
        self.node
    }

    /// How many times the unit has reset its node.
    pub closed spec fn node_resets(&self) -> nat {
        self.resets@
    }

    /// The state and the node resets are exactly those that the received
    /// commands call for, starting from `Playing`.
    pub open spec fn wf(&self) -> bool {
        &&& resets_cleanly(self.node_of())
        &&& self.state() == run_state(State::Playing, self.received())
        &&& self.node_resets() == run_resets(State::Playing, self.received())
    }

    /// The unit may be torn down: its state is `Stopped`.
    pub fn finished(&self) -> (r: bool)
        ensures
            r == (self.state() == State::Stopped),
    {
        self.state.is_stopped()
    }

    /// The transport state.
    pub fn current_state(&self) -> (r: State)
        ensures
            r == self.state(),
    {
        self.state
    }

    /// Drains the command channel before a block is produced, applying each
    /// command in order and resetting the node where a command calls for
    /// it. At most a channel's capacity of commands is taken: that covers
    /// every command queued when the block began, and a command sent later
    /// waits for the next block.
    pub fn on_start_processing(&mut self)
        requires
            old(self).wf(),
        ensures
            final(self).wf(),
            final(self).node_of() == old(self).node_of() || final(self).node_resets() > old(self).node_resets(),
            old(self).received().is_prefix_of(final(self).received()),
            final(self).received().len() <= old(self).received().len() + COMMAND_BUFFER_CAPACITY,
            ({
                let drained = final(self).received().skip(old(self).received().len() as int);
                &&& final(self).state() == run_state(old(self).state(), drained)
                &&& final(self).node_resets() == old(self).node_resets() + run_resets(old(self).state(), drained)
            }),
            old(self).state() == State::Stopped ==> final(self).state() == State::Stopped
                && final(self).node_of() == old(self).node_of(),
    {
        let ghost start = self.rx.delivered();
        let ghost s0 = self.state;
        let ghost r0 = self.resets@;
        let ghost node0 = self.node;
        let mut i: usize = 0;
        while i < COMMAND_BUFFER_CAPACITY
            invariant
                self.wf(),
                i <= COMMAND_BUFFER_CAPACITY,
                start.is_prefix_of(self.received()),
                self.received().len() == start.len() + i,
                self.node == node0 || self.resets@ > r0,
                self.state == run_state(s0, self.received().skip(start.len() as int)),
                self.resets@ == r0 + run_resets(s0, self.received().skip(start.len() as int)),
            decreases COMMAND_BUFFER_CAPACITY - i,
        {
            let ghost before = self.received();
            match self.rx.try_pop() {
                Some(c) => {
                    let (next, reset) = self.state.apply(c);
                    if reset {
                        reset_node(&mut self.node);
                        self.resets = Ghost(self.resets@ + 1);
                    }
                    self.state = next;
                    proof {
                        let d = self.received().skip(start.len() as int);
                        assert(self.received().drop_last() =~= before);
                        assert(d.drop_last() =~= before.skip(start.len() as int));
                        assert(d.last() == c);
                    }
                    i = i + 1;
                },
                None => {
                    break;
                },
            }
        }
        proof {
            lemma_stopped_is_terminal(self.received().skip(start.len() as int));
        }
    }
}

impl Handle {
    /// Every command this handle has queued, oldest first.
    pub closed spec fn sent(&self) -> Seq<Command> {
        self.tx.accepted()
    }

    /// How many slots the handle's channel has.
    pub closed spec fn capacity(&self) -> nat {
        self.tx.capacity()
    }

    /// The record of sent commands matches the channel's.
    pub closed spec fn wf(&self) -> bool {
        self.tx.wf()
    }

    /// Queues `c` for the playback unit. While fewer commands than the
    /// capacity have been sent it succeeds; a full channel gives `QueueFull`
    /// and queues nothing.
    fn send(&mut self, c: Command) -> (r: Result<(), CommandError>)
        requires
            old(self).wf(),
        ensures
            final(self).wf(),
            final(self).capacity() == old(self).capacity(),
            old(self).sent().len() < old(self).capacity() ==> r is Ok,
            r is Ok ==> final(self).sent() == old(self).sent().push(c),
            r is Err ==> final(self).sent() == old(self).sent() && r == Err::<(), CommandError>(CommandError::QueueFull),
    {
        self.tx.try_push(c)
    }

    /// Sends `Stop`: the unit stops at its next block and can then be torn down. Fire and forget: nothing waits for the unit.
    pub fn stop(&mut self) -> (r: Result<(), CommandError>)
        requires
            old(self).wf(),
        ensures
            final(self).wf(),
            final(self).capacity() == old(self).capacity(),
            old(self).sent().len() < old(self).capacity() ==> r is Ok,
            r is Ok ==> final(self).sent() == old(self).sent().push(Command::Stop),
            r is Err ==> final(self).sent() == old(self).sent() && r == Err::<(), CommandError>(CommandError::QueueFull),
    {
        self.send(Command::Stop)
    }

    /// Sends `Pause`. Fire and forget: nothing waits for the unit.
    pub fn pause(&mut self) -> (r: Result<(), CommandError>)
        requires
            old(self).wf(),
        ensures
            final(self).wf(),
            final(self).capacity() == old(self).capacity(),
            old(self).sent().len() < old(self).capacity() ==> r is Ok,
            r is Ok ==> final(self).sent() == old(self).sent().push(Command::Pause),
            r is Err ==> final(self).sent() == old(self).sent() && r == Err::<(), CommandError>(CommandError::QueueFull),
    {
        self.send(Command::Pause)
    }

    /// Sends `Resume`. Fire and forget: nothing waits for the unit.
    pub fn resume(&mut self) -> (r: Result<(), CommandError>)
        requires
            old(self).wf(),
        ensures
            final(self).wf(),
            final(self).capacity() == old(self).capacity(),
            old(self).sent().len() < old(self).capacity() ==> r is Ok,
            r is Ok ==> final(self).sent() == old(self).sent().push(Command::Resume),
            r is Err ==> final(self).sent() == old(self).sent() && r == Err::<(), CommandError>(CommandError::QueueFull),
    {
        self.send(Command::Resume)
    }

    /// Sends `Reset`: a playing or paused unit resets its node. Fire and forget: nothing waits for the unit.
    pub fn reset(&mut self) -> (r: Result<(), CommandError>)
        requires
            old(self).wf(),
        ensures
            final(self).wf(),
            final(self).capacity() == old(self).capacity(),
            old(self).sent().len() < old(self).capacity() ==> r is Ok,
            r is Ok ==> final(self).sent() == old(self).sent().push(Command::Reset),
            r is Err ==> final(self).sent() == old(self).sent() && r == Err::<(), CommandError>(CommandError::QueueFull),
    {
        self.send(Command::Reset)
    }
}

} // verus!
