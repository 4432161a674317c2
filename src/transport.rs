//! The playback state machine: the four transport commands and how each one
//! moves the playback state.

use vstd::prelude::*;

verus! {

/// Where a playback unit stands. `Stopped` is never left once reached.
#[derive(Clone, Copy, Debug, PartialEq, Eq, Structural)]
pub enum State {
    Playing,
    Stopped,
    Paused,
}

/// A transport command sent from the control side to a playback unit.
#[derive(Clone, Copy, Debug, PartialEq, Eq, Structural)]
pub enum Command {
    Stop,
    Pause,
    Resume,
    Reset,
}

impl Default for State {
    fn default() -> (r: State)
        ensures
            r == State::Playing,
    {
        State::Playing
    }
}

/// The state that follows `s` once command `c` has been applied.
pub open spec fn next_state(s: State, c: Command) -> State {
    match c {
        Command::Stop => State::Stopped,
        Command::Pause => if s == State::Playing {
            State::Paused
        } else {
            s
        },
        Command::Resume => if s == State::Paused {
            State::Playing
        } else {
            s
        },
        Command::Reset => s,
    }
}

/// Whether applying `c` in state `s` resets the node to its initial condition.
pub open spec fn resets_node(s: State, c: Command) -> bool {
    c == Command::Reset && s != State::Stopped
}

/// The state reached from `s` by applying `cmds` in order.
pub open spec fn run_state(s: State, cmds: Seq<Command>) -> State
    decreases cmds.len(),
{
    if cmds.len() == 0 {
        s
    } else {
        next_state(run_state(s, cmds.drop_last()), cmds.last())
    }
}

/// How many node resets applying `cmds` in order from `s` performs.
pub open spec fn run_resets(s: State, cmds: Seq<Command>) -> nat
    decreases cmds.len(),
{
    if cmds.len() == 0 {
        0
    } else {
        run_resets(s, cmds.drop_last()) + if resets_node(run_state(s, cmds.drop_last()), cmds.last()) {
            1nat
        } else {
            0nat
        }
    }
}

impl State {
    /// Applies one command: returns the next state, and whether the node has
    /// to be reset.
    pub fn apply(self, c: Command) -> (r: (State, bool))
        ensures
            r.0 == next_state(self, c),
            r.1 == resets_node(self, c),
    {
        match c {
            Command::Stop => (State::Stopped, false),
            Command::Pause => match self {
                State::Playing => (State::Paused, false),
                _ => (self, false),
            },
            Command::Resume => match self {
                State::Paused => (State::Playing, false),
                _ => (self, false),
            },
            Command::Reset => match self {
                State::Stopped => (self, false),
                _ => (self, true),
            },
        }
    }

    /// Whether this is the terminal state.
    pub fn is_stopped(self) -> (r: bool)
        ensures
            r == (self == State::Stopped),
    {
        matches!(self, State::Stopped)
    }
}

/// Applying a command a second time changes nothing: `Pause` and `Resume`
/// from any state, and every command once the unit is stopped.
pub proof fn lemma_repeat_is_idempotent(s: State, c: Command)
    requires
        c == Command::Pause || c == Command::Resume || s == State::Stopped,
    ensures
        next_state(next_state(s, c), c) == next_state(s, c),
        next_state(State::Playing, Command::Pause) == State::Paused,
        next_state(State::Paused, Command::Resume) == State::Playing,
{
}

/// Once stopped, no sequence of further commands leaves `Stopped`, and none
/// of them resets the node.
pub proof fn lemma_stopped_is_terminal(cmds: Seq<Command>)
    ensures
        run_state(State::Stopped, cmds) == State::Stopped,
        run_resets(State::Stopped, cmds) == 0,
    decreases cmds.len(),
{
    if cmds.len() > 0 {
        lemma_stopped_is_terminal(cmds.drop_last());
    }
}

/// A command sequence that contains a `Stop` ends in `Stopped`, whatever
/// follows the `Stop`.
pub proof fn lemma_stop_is_final(s: State, cmds: Seq<Command>, i: int)
    requires
        0 <= i < cmds.len(),
        cmds[i] == Command::Stop,
    ensures
        run_state(s, cmds) == State::Stopped,
    decreases cmds.len(),
{
    if i < cmds.len() - 1 {
        lemma_stop_is_final(s, cmds.drop_last(), i);
    }
}

/// A `Reset` resets the node exactly when the unit is playing or paused.
pub proof fn lemma_reset_only_when_active(s: State)
    ensures
        resets_node(s, Command::Reset) <==> (s == State::Playing || s == State::Paused),
        next_state(s, Command::Reset) == s,
        !resets_node(s, Command::Stop) && !resets_node(s, Command::Pause) && !resets_node(s, Command::Resume),
{
}

} // verus!
