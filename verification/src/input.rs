//! What the library needs to know of the keyboard.

use vstd::prelude::*;
use crate::units::Direction;

verus! {

/// A key the game reacts to. Every other key is `Other`.
#[derive(Clone, Copy, Debug, PartialEq, Eq, Structural)]
pub enum Key {
    Left,
    Right,
    Up,
    Down,
    A,
    D,
    W,
    S,
    X,
    Z,
    C,
    Return,
    Space,
    Escape,
    Other,
}

impl Key {
    /// The direction a movement key stands for: the arrows, and A, D, W, S
    /// for left, right, up, down.
    pub open spec fn direction(self) -> Option<Direction> {
        match self {
            Key::Left | Key::A => Some(Direction::Left),
            Key::Right | Key::D => Some(Direction::Right),
            Key::Up | Key::W => Some(Direction::Up),
            Key::Down | Key::S => Some(Direction::Down),
            _ => None,
        }
    }

    /// Computes [`Key::direction`].
    pub fn as_direction(self) -> (d: Option<Direction>)
        ensures
            d == self.direction(),
    {
        match self {
            Key::Left | Key::A => Some(Direction::Left),
            Key::Right | Key::D => Some(Direction::Right),
            Key::Up | Key::W => Some(Direction::Up),
            Key::Down | Key::S => Some(Direction::Down),
            _ => None,
        }
    }
}

/// Which of the four directions are held down at the moment of a tick.
#[derive(Clone, Copy, Debug, PartialEq, Eq, Structural)]
pub struct HeldKeys {
    pub left: bool,
    pub right: bool,
    pub up: bool,
    pub down: bool,
}

impl HeldKeys {
    /// The one direction taken from the held keys: left before right before
    /// up before down. Movement is never diagonal.
    pub open spec fn direction(self) -> Option<Direction> {
        if self.left {
            Some(Direction::Left)
        } else if self.right {
            Some(Direction::Right)
        } else if self.up {
            Some(Direction::Up)
        } else if self.down {
            Some(Direction::Down)
        } else {
            None
        }
    }

    /// Computes [`HeldKeys::direction`].
    pub fn pick(&self) -> (d: Option<Direction>)
        ensures
            d == self.direction(),
    {
        if self.left {
            Some(Direction::Left)
        } else if self.right {
            Some(Direction::Right)
        } else if self.up {
            Some(Direction::Up)
        } else if self.down {
            Some(Direction::Down)
        } else {
            None
        }
    }

    /// No key held.
    pub fn none() -> (k: HeldKeys)
        ensures
            k == (HeldKeys { left: false, right: false, up: false, down: false }),
            k.direction() is None,
    {
        HeldKeys { left: false, right: false, up: false, down: false }
    }

    /// Only the key of direction `d` held.
    pub fn only(d: Direction) -> (k: HeldKeys)
        ensures
            k.direction() == Some(d),
            k.left == (d == Direction::Left),
            k.right == (d == Direction::Right),
            k.up == (d == Direction::Up),
            k.down == (d == Direction::Down),
    {
        HeldKeys {
            left: d == Direction::Left,
            right: d == Direction::Right,
            up: d == Direction::Up,
            down: d == Direction::Down,
        }
    }
}

} // verus!
