use fundsp::audiounit::AudioUnit64;
use fundsp::hacker::sine_hz;
use fundsp::net::Net64;
use jsyn::channel::{command_channel, CommandError};
use jsyn::foreign::Foreign;
use jsyn::net::Net;
use jsyn::play::{AbstractHandle, FunData, COMMAND_BUFFER_CAPACITY};
use jsyn::transport::{Command, State};
use std::cell::Cell;
use std::rc::Rc;

fn sine() -> Net64 {
    Net64::wrap(Box::new(sine_hz(440.0)))
}

#[test]
fn commands_come_out_in_the_order_pushed() {
    let (mut tx, mut rx) = command_channel(8);
    let sent = [Command::Pause, Command::Reset, Command::Resume, Command::Stop, Command::Pause];
    for c in sent {
        assert_eq!(tx.try_push(c), Ok(()));
    }
    for c in sent {
        assert_eq!(rx.try_pop(), Some(c));
    }
    assert_eq!(rx.try_pop(), None);
}

#[test]
fn push_beyond_capacity_is_refused() {
    let (mut tx, mut rx) = command_channel(COMMAND_BUFFER_CAPACITY);
    let cycle = [Command::Pause, Command::Resume, Command::Reset, Command::Stop];
    for i in 0..COMMAND_BUFFER_CAPACITY {
        assert_eq!(tx.try_push(cycle[i % 4]), Ok(()));
    }
    assert_eq!(tx.try_push(Command::Stop), Err(CommandError::QueueFull));
    for i in 0..COMMAND_BUFFER_CAPACITY {
        assert_eq!(rx.try_pop(), Some(cycle[i % 4]));
    }
    assert_eq!(rx.try_pop(), None);
    assert_eq!(tx.try_push(Command::Pause), Ok(()));
    assert_eq!(rx.try_pop(), Some(Command::Pause));
}

#[test]
fn empty_channel_pops_nothing() {
    let (_tx, mut rx) = command_channel(1);
    assert_eq!(rx.try_pop(), None);
}

#[test]
fn transition_table() {
    assert_eq!(State::Playing.apply(Command::Stop), (State::Stopped, false));
    assert_eq!(State::Paused.apply(Command::Stop), (State::Stopped, false));
    assert_eq!(State::Stopped.apply(Command::Stop), (State::Stopped, false));
    assert_eq!(State::Playing.apply(Command::Pause), (State::Paused, false));
    assert_eq!(State::Paused.apply(Command::Pause), (State::Paused, false));
    assert_eq!(State::Stopped.apply(Command::Pause), (State::Stopped, false));
    assert_eq!(State::Paused.apply(Command::Resume), (State::Playing, false));
    assert_eq!(State::Playing.apply(Command::Resume), (State::Playing, false));
    assert_eq!(State::Stopped.apply(Command::Resume), (State::Stopped, false));
    assert_eq!(State::Playing.apply(Command::Reset), (State::Playing, true));
    assert_eq!(State::Paused.apply(Command::Reset), (State::Paused, true));
    assert_eq!(State::Stopped.apply(Command::Reset), (State::Stopped, false));
    assert_eq!(State::default(), State::Playing);
}

#[test]
fn repeated_commands_are_idempotent() {
    let once = State::Playing.apply(Command::Pause).0;
    assert_eq!(once.apply(Command::Pause).0, once);
    assert_eq!(once, State::Paused);
    let resumed = State::Paused.apply(Command::Resume).0;
    assert_eq!(resumed.apply(Command::Resume).0, State::Playing);
    for c in [Command::Reset, Command::Stop] {
        let s = State::Stopped.apply(c).0;
        assert_eq!(s.apply(c).0, s);
        assert_eq!(s, State::Stopped);
    }
}

#[test]
fn stopped_unit_stays_stopped() {
    let (mut sound, mut handle) = FunData(sine()).into_sound();
    handle.stop().unwrap();
    sound.on_start_processing();
    assert!(sound.finished());
    for c in [Command::Resume, Command::Pause, Command::Reset, Command::Resume] {
        match c {
            Command::Resume => handle.resume().unwrap(),
            Command::Pause => handle.pause().unwrap(),
            Command::Reset => handle.reset().unwrap(),
            Command::Stop => handle.stop().unwrap(),
        }
        sound.on_start_processing();
        assert!(sound.finished());
        assert_eq!(sound.current_state(), State::Stopped);
    }
}

#[test]
fn reset_restarts_a_playing_node() {
    let first = sine().get_stereo();
    let (mut sound, mut handle) = FunData(sine()).into_sound();
    sound.on_start_processing();
    let f0 = sound.node.get_stereo();
    assert_eq!(f0, first);
    for _ in 0..10 {
        sound.node.get_stereo();
    }
    assert_ne!(sound.node.get_stereo(), first);
    handle.pause().unwrap();
    handle.reset().unwrap();
    sound.on_start_processing();
    assert_eq!(sound.current_state(), State::Paused);
    assert_eq!(sound.node.get_stereo(), first);
}

#[test]
fn reset_after_stop_leaves_node_alone() {
    let mut reference = sine();
    let (mut sound, mut handle) = FunData(sine()).into_sound();
    sound.on_start_processing();
    for _ in 0..10 {
        assert_eq!(sound.node.get_stereo(), reference.get_stereo());
    }
    handle.stop().unwrap();
    handle.reset().unwrap();
    sound.on_start_processing();
    assert!(sound.finished());
    assert_eq!(sound.node.get_stereo(), reference.get_stereo());
}

#[test]
fn full_handle_reports_queue_full() {
    let (mut sound, mut handle) = FunData(sine()).into_sound();
    for _ in 0..COMMAND_BUFFER_CAPACITY {
        assert_eq!(handle.pause(), Ok(()));
    }
    assert_eq!(handle.resume(), Err(CommandError::QueueFull));
    assert_eq!(handle.stop(), Err(CommandError::QueueFull));
    assert_eq!(handle.reset(), Err(CommandError::QueueFull));
    sound.on_start_processing();
    assert_eq!(sound.current_state(), State::Paused);
    assert_eq!(handle.stop(), Ok(()));
}

#[test]
fn pause_then_stop_end_to_end() {
    let (mut sound, handle) = FunData(sine()).into_sound();
    let mut abstract_handle = AbstractHandle::new(handle);
    let mut handle = abstract_handle.0.release().unwrap();
    assert!(!abstract_handle.0.is_live());
    assert_eq!(handle.pause(), Ok(()));
    sound.on_start_processing();
    assert_eq!(sound.current_state(), State::Paused);
    assert!(!sound.finished());
    let (l, r) = sound.node.get_stereo();
    assert!(l.is_finite() && r.is_finite());
    assert_eq!(handle.stop(), Ok(()));
    sound.on_start_processing();
    assert!(sound.finished());
}

#[test]
fn dropping_the_handle_does_not_stop() {
    let (mut sound, handle) = FunData(sine()).into_sound();
    drop(handle);
    sound.on_start_processing();
    assert!(!sound.finished());
    assert_eq!(sound.current_state(), State::Playing);
}

struct Counted(Rc<Cell<u32>>);

impl Drop for Counted {
    fn drop(&mut self) {
        self.0.set(self.0.get() + 1);
    }
}

#[test]
fn finalizer_tears_down_once() {
    let count = Rc::new(Cell::new(0));
    let mut wrapped = Foreign::new(Counted(count.clone()));
    assert!(wrapped.is_live());
    assert_eq!(count.get(), 0);
    assert!(wrapped.finalize());
    assert_eq!(count.get(), 1);
    assert!(!wrapped.is_live());
    assert!(!wrapped.finalize());
    assert_eq!(count.get(), 1);
    drop(wrapped);
    assert_eq!(count.get(), 1);
}

#[test]
fn release_hands_the_value_back() {
    let count = Rc::new(Cell::new(0));
    let mut wrapped = Foreign::new(Counted(count.clone()));
    let value = wrapped.release();
    assert!(value.is_some());
    assert_eq!(count.get(), 0);
    assert!(!wrapped.finalize());
    assert!(wrapped.release().is_none());
    drop(value);
    assert_eq!(count.get(), 1);
}

#[test]
fn net_wrapper_gives_access_until_finalized() {
    let mut net = Net::new(sine());
    assert_eq!(net.get().outputs(), 1);
    assert!(net.0.finalize());
    assert!(!net.0.is_live());
    assert!(!net.0.finalize());
}

#[test]
fn one_slot_channel_takes_one_command() {
    let (mut tx, mut rx) = command_channel(1);
    assert_eq!(tx.try_push(Command::Reset), Ok(()));
    assert_eq!(tx.try_push(Command::Stop), Err(CommandError::QueueFull));
    assert_eq!(rx.try_pop(), Some(Command::Reset));
    assert_eq!(rx.try_pop(), None);
}
