//! The commands that drive a game, and the keys that stand for them.

use crate::game::{Game, GameState, Movement};
use vstd::prelude::*;

verus! {

/// A key press, as far as the game tells keys apart.
#[derive(Clone, Copy, Debug, PartialEq, Eq, Structural)]
pub enum Key {
    Char(char),
    Up,
    Down,
    Left,
    Right,
    Enter,
    Other,
}

/// What the players can ask for.
#[derive(Clone, Copy, Debug, PartialEq, Eq, Structural)]
pub enum Command {
    /// End the session.
    Quit,
    /// Start the game over.
    Reset,
    /// Move the cursor.
    Move(Movement),
    /// Mark the cell under the cursor.
    Place,
}

impl Key {
    /// The command that a key stands for: `q` quits, `r` starts over, the
    /// arrows move the cursor, enter places a mark. Other keys stand for
    /// nothing.
    pub open spec fn command_of(self) -> Option<Command> {
        match self {
            Key::Char(c) => if c == 'q' {
                Some(Command::Quit)
            } else if c == 'r' {
                Some(Command::Reset)
            } else {
                None
            },
            Key::Up => Some(Command::Move(Movement::Up)),
            Key::Down => Some(Command::Move(Movement::Down)),
            Key::Left => Some(Command::Move(Movement::Left)),
            Key::Right => Some(Command::Move(Movement::Right)),
            Key::Enter => Some(Command::Place),
            Key::Other => None,
        }
    }

    /// The command that this key stands for, if any.
    pub fn command(&self) -> (command: Option<Command>)
        ensures
            command == self.command_of(),
    {
        match self {
            Key::Char('q') => Some(Command::Quit),
            Key::Char('r') => Some(Command::Reset),
            Key::Up => Some(Command::Move(Movement::Up)),
            Key::Down => Some(Command::Move(Movement::Down)),
            Key::Left => Some(Command::Move(Movement::Left)),
            Key::Right => Some(Command::Move(Movement::Right)),
            Key::Enter => Some(Command::Place),
            _ => None,
        }
    }
}

impl GameState {
    /// The state after one command. Quitting leaves the game as it is.
    pub open spec fn step(self, command: Command) -> GameState {
        match command {
            Command::Quit => self,
            Command::Reset => GameState::initial(),
            Command::Move(direction) => self.moved(direction),
            Command::Place => self.placed(),
        }
    }
}

impl Game {
    /// Carries out one command and tells whether the session goes on: it
    /// does unless the command was to quit. Only placing a mark needs a
    /// well-formed game.
    pub fn apply(&mut self, command: Command) -> (running: bool)
        requires
            command == Command::Place ==> old(self)@.wf(),
        ensures
            final(self)@ == old(self)@.step(command),
            running == (command != Command::Quit),
            old(self)@.wf() ==> final(self)@.wf(),
            old(self)@.consistent() ==> final(self)@.consistent(),
    {
        match command {
            Command::Quit => false,
            Command::Reset => {
                self.reset();
                true
            },
            Command::Move(direction) => {
                self.move_position(&direction);
                true
            },
            Command::Place => {
                self.enter_position();
                true
            },
        }
    }
}

} // verus!
