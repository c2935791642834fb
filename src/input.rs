use vstd::prelude::*;

use crate::direction::Direction;

verus! {

/// The key of a keyboard event, as far as the game tells keys apart.
#[derive(Clone, Copy, Debug, PartialEq, Eq, Structural)]
pub enum Key {
    Up,
    Down,
    Left,
    Right,
    Char(char),
    Other,
}

/// A key event: the key, and whether Ctrl, and only Ctrl, was held.
#[derive(Clone, Copy, Debug, PartialEq, Eq, Structural)]
pub struct KeyPress {
    pub key: Key,
    pub control: bool,
}

/// What the control flow does in answer to a key.
#[derive(Clone, Copy, Debug, PartialEq, Eq, Structural)]
pub enum Command {
    /// Set the quit flag; the control loop ends once the round is over.
    Quit,
    /// Wait for the finished round, then start a fresh one.
    Restart,
    /// Publish a new requested direction.
    Steer(Direction),
    Ignore,
}

/// The direction an arrow key asks for.
pub open spec fn arrow_of(key: Key) -> Option<Direction> {
    match key {
        Key::Up => Some(Direction::Up),
        Key::Down => Some(Direction::Down),
        Key::Left => Some(Direction::Left),
        Key::Right => Some(Direction::Right),
        _ => None,
    }
}

/// Ctrl+Q quits at any time; Ctrl+A restarts only once the round is over;
/// an arrow steers only while the round runs; every other key is ignored.
pub open spec fn command_for(press: KeyPress, round_finished: bool) -> Command {
    if press.control && press.key == Key::Char('q') {
        Command::Quit
    } else if press.control && press.key == Key::Char('a') {
        if round_finished {
            Command::Restart
        } else {
            Command::Ignore
        }
    } else if arrow_of(press.key) is Some {
        if round_finished {
            Command::Ignore
        } else {
            Command::Steer(arrow_of(press.key)->0)
        }
    } else {
        Command::Ignore
    }
}

impl Direction {
    /// The direction of an arrow key; none for any other key.
    pub fn from_arrow(key: Key) -> (r: Option<Direction>)
        ensures
            r == arrow_of(key),
    {
        match key {
            Key::Up => Some(Direction::Up),
            Key::Down => Some(Direction::Down),
            Key::Left => Some(Direction::Left),
            Key::Right => Some(Direction::Right),
            _ => None,
        }
    }
}

/// Decides what a key event does, given whether the current round is over.
pub fn evaluate_key(press: KeyPress, is_game_finished: bool) -> (c: Command)
    ensures
        c == command_for(press, is_game_finished),
{
    if press.control && press.key == Key::Char('q') {
        Command::Quit
    } else if press.control && press.key == Key::Char('a') {
        if is_game_finished {
            Command::Restart
        } else {
            Command::Ignore
        }
    } else {
        match Direction::from_arrow(press.key) {
            Some(direction) => {
                if is_game_finished {
                    Command::Ignore
                } else {
                    Command::Steer(direction)
                }
            },
            None => Command::Ignore,
        }
    }
}

/// The state that the control flow writes and the simulation reads each
/// tick: only the latest direction and quit flag, no history.
#[derive(Clone, Copy, Debug, PartialEq, Eq, Structural)]
pub struct SharedGameState {
    pub direction: Direction,
    pub should_quit: bool,
}

/// The state of a fresh round: heading right, not quitting.
pub open spec fn fresh_state() -> SharedGameState {
    SharedGameState { direction: Direction::Right, should_quit: false }
}

/// The state after the control flow carried out `command`.
pub open spec fn applied(state: SharedGameState, command: Command) -> SharedGameState {
    match command {
        Command::Quit => SharedGameState { should_quit: true, ..state },
        Command::Restart => fresh_state(),
        Command::Steer(d) => SharedGameState { direction: d, ..state },
        Command::Ignore => state,
    }
}

impl SharedGameState {
    pub fn new() -> (r: SharedGameState)
        ensures
            r == fresh_state(),
    {
        SharedGameState { direction: Direction::default(), should_quit: false }
    }

    pub fn set_new_direction(&mut self, new_direction: Direction)
        ensures
            *final(self) == (SharedGameState { direction: new_direction, ..*old(self) }),
    {
        self.direction = new_direction;
    }

    pub fn set_should_quit(&mut self, should_quit: bool)
        ensures
            *final(self) == (SharedGameState { should_quit, ..*old(self) }),
    {
        self.should_quit = should_quit;
    }

    /// Carries out `command` on the shared state; a restart resets it.
    pub fn apply(&mut self, command: Command)
        ensures
            *final(self) == applied(*old(self), command),
    {
        match command {
            Command::Quit => self.set_should_quit(true),
            Command::Restart => *self = SharedGameState::new(),
            Command::Steer(direction) => self.set_new_direction(direction),
            Command::Ignore => {},
        }
    }
}

/// Once a round is over, Ctrl+A restarts with the state of a fresh game: the
/// initial heading and the quit flag cleared, whatever the state was.
pub proof fn restart_resets_state(state: SharedGameState)
    ensures
        command_for(KeyPress { key: Key::Char('a'), control: true }, true) == Command::Restart,
        applied(state, Command::Restart) == fresh_state(),
        !fresh_state().should_quit,
{
}

} // verus!
