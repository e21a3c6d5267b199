//! Keyboard input state for the simulation core.
//!
//! The core distinguishes two facts about the keyboard: whether a movement
//! key is *currently held* (a sustained key-down, tracked per side in
//! [`Holding`]) and which key was *last pressed* (the identity of the most
//! recent discrete key-down event, a [`Key`] value the caller records).
//! The player state machine reads both every tick.

use vstd::prelude::*;

verus! {

/// The identity of a keyboard key, as far as the simulation cares.
///
/// `A` and `D` move left and right, `Space` jumps, `D1` and `D2` switch
/// between menu and play, `C` and `F` ask the surrounding program to toggle
/// cursor capture or close the window.  Every other key is `Other`.
#[derive(Copy, Clone, Debug, PartialEq, Eq, Structural)]
pub enum Key {
    A,
    C,
    D,
    D1,
    D2,
    F,
    Space,
    Other,
}

/// Hold information related to input handling.
pub struct InputHandler {
}

/// Whether each movement key is currently held down.
///
/// Only the current state is kept — a press followed by a release leaves no
/// trace.  Key-repeat events do not reach this type; the caller sets a side
/// on the key-down event and clears it on the key-up event.
#[derive(Copy, Clone, Debug, PartialEq, Eq, Structural)]
pub struct Holding {
    pub right: bool,
    pub left: bool,
}

impl Holding {
    /// A fresh input state: nothing held.
    pub fn new() -> (h: Holding)
        ensures
            !h.right,
            !h.left,
    {
        Holding {
            right: false,
            left: false,
        }
    }

    pub fn get_right(&self) -> (r: &bool)
        ensures
            *r == self.right,
    {
        &self.right
    }

    pub fn get_left(&self) -> (r: &bool)
        ensures
            *r == self.left,
    {
        &self.left
    }

    pub fn set_right(&mut self, b: bool)
        ensures
            final(self).right == b,
            final(self).left == old(self).left,
    {
        self.right = b;
    }

    pub fn set_left(&mut self, b: bool)
        ensures
            final(self).left == b,
            final(self).right == old(self).right,
    {
        self.left = b;
    }
}

} // verus!
