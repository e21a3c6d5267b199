//! Animation phase mapping: elapsed state time to sprite-sheet rectangle.
//!
//! Each movement state owns a row of 64-by-64 frames in the sprite sheet.
//! Walking cycles through 9 frames and jumping through 7, one frame per
//! 0.11 second (11 ticks), with every interval closed at both ends and the
//! earlier interval winning at a shared boundary.  The frame count does not
//! divide the cycle length evenly, so any elapsed time beyond the last
//! enumerated interval — including a timer at the very end of its cycle —
//! falls back to the last frame of the cycle.  Standing and falling use a
//! single static frame per direction.

use vstd::prelude::*;

use crate::Direction;
use crate::player::PlayerState;

verus! {

/// Width and height of one sprite-sheet frame, in source units.
pub const FRAME_SIZE: u32 = 64;

/// Sprite-sheet row (vertical offset) of the right-facing walk cycle.
pub const WALK_RIGHT_ROW: u32 = 704;

/// Sprite-sheet row of the left-facing walk cycle.
pub const WALK_LEFT_ROW: u32 = 576;

/// Sprite-sheet row of the right-facing jump cycle.
pub const JUMP_RIGHT_ROW: u32 = 192;

/// Sprite-sheet row of the left-facing jump cycle.
pub const JUMP_LEFT_ROW: u32 = 64;

/// A rectangular region of the sprite sheet, in source units.
#[derive(Copy, Clone, Debug, PartialEq, Eq, Structural)]
pub struct FrameRect {
    pub x: u32,
    pub y: u32,
    pub width: u32,
    pub height: u32,
}

/// Horizontal offset of the walk-cycle frame for elapsed time `t` ticks:
/// 9 frames of 11 ticks each, intervals closed at both ends, everything
/// outside them — negative or beyond 99 — on the last frame.
pub open spec fn walk_frame_x(t: int) -> int {
    if t < 0 {
        512
    } else if t <= 11 {
        0
    } else if t <= 22 {
        64
    } else if t <= 33 {
        128
    } else if t <= 44 {
        192
    } else if t <= 55 {
        256
    } else if t <= 66 {
        320
    } else if t <= 77 {
        384
    } else if t <= 88 {
        448
    } else {
        512
    }
}

/// Horizontal offset of the jump-cycle frame for elapsed time `t` ticks:
/// 7 frames of 11 ticks each, intervals closed at both ends, everything
/// outside them on the last frame.
pub open spec fn jump_frame_x(t: int) -> int {
    if t < 0 {
        384
    } else if t <= 11 {
        0
    } else if t <= 22 {
        64
    } else if t <= 33 {
        128
    } else if t <= 44 {
        192
    } else if t <= 55 {
        256
    } else if t <= 66 {
        320
    } else {
        384
    }
}

/// The sprite-sheet rectangle shown for a movement state after `t` ticks in
/// it.  A pure function of its two arguments and nothing else.
pub open spec fn spec_frame_rect(state: PlayerState, t: int) -> FrameRect {
    match state {
        PlayerState::Walking(d) => FrameRect {
            x: walk_frame_x(t) as u32,
            y: if d == Direction::Right {
                WALK_RIGHT_ROW
            } else {
                WALK_LEFT_ROW
            },
            width: FRAME_SIZE,
            height: FRAME_SIZE,
        },
        PlayerState::Jumping(d) => FrameRect {
            x: jump_frame_x(t) as u32,
            y: if d == Direction::Right {
                JUMP_RIGHT_ROW
            } else {
                JUMP_LEFT_ROW
            },
            width: FRAME_SIZE,
            height: FRAME_SIZE,
        },
        PlayerState::Falling(d) => FrameRect {
            x: 320,
            y: if d == Direction::Right {
                JUMP_RIGHT_ROW
            } else {
                JUMP_LEFT_ROW
            },
            width: FRAME_SIZE,
            height: FRAME_SIZE,
        },
        PlayerState::Standing(d) => FrameRect {
            x: 0,
            y: if d == Direction::Right {
                WALK_RIGHT_ROW
            } else {
                WALK_LEFT_ROW
            },
            width: FRAME_SIZE,
            height: FRAME_SIZE,
        },
    }
}

/// Walk-cycle frame offset, executable form of [`walk_frame_x`].
fn walk_frame_offset(t: i64) -> (x: u32)
    ensures
        x == walk_frame_x(t as int),
{
    if t < 0 {
        512
    } else if t <= 11 {
        0
    } else if t <= 22 {
        64
    } else if t <= 33 {
        128
    } else if t <= 44 {
        192
    } else if t <= 55 {
        256
    } else if t <= 66 {
        320
    } else if t <= 77 {
        384
    } else if t <= 88 {
        448
    } else {
        512
    }
}

/// Jump-cycle frame offset, executable form of [`jump_frame_x`].
fn jump_frame_offset(t: i64) -> (x: u32)
    ensures
        x == jump_frame_x(t as int),
{
    if t < 0 {
        384
    } else if t <= 11 {
        0
    } else if t <= 22 {
        64
    } else if t <= 33 {
        128
    } else if t <= 44 {
        192
    } else if t <= 55 {
        256
    } else if t <= 66 {
        320
    } else {
        384
    }
}

/// Pick the sprite-sheet rectangle for a movement state after `t` ticks in
/// it.  Total over every state and every `t`, and equal to
/// [`spec_frame_rect`], so two calls on the same inputs always yield the
/// same rectangle.
pub fn frame_rect(state: &PlayerState, t: i64) -> (r: FrameRect)
    ensures
        r == spec_frame_rect(*state, t as int),
{
    match *state {
        PlayerState::Walking(d) => FrameRect {
            x: walk_frame_offset(t),
            y: if d == Direction::Right {
                WALK_RIGHT_ROW
            } else {
                WALK_LEFT_ROW
            },
            width: FRAME_SIZE,
            height: FRAME_SIZE,
        },
        PlayerState::Jumping(d) => FrameRect {
            x: jump_frame_offset(t),
            y: if d == Direction::Right {
                JUMP_RIGHT_ROW
            } else {
                JUMP_LEFT_ROW
            },
            width: FRAME_SIZE,
            height: FRAME_SIZE,
        },
        PlayerState::Falling(d) => FrameRect {
            x: 320,
            y: if d == Direction::Right {
                JUMP_RIGHT_ROW
            } else {
                JUMP_LEFT_ROW
            },
            width: FRAME_SIZE,
            height: FRAME_SIZE,
        },
        PlayerState::Standing(d) => FrameRect {
            x: 0,
            y: if d == Direction::Right {
                WALK_RIGHT_ROW
            } else {
                WALK_LEFT_ROW
            },
            width: FRAME_SIZE,
            height: FRAME_SIZE,
        },
    }
}

/// Any elapsed time outside the enumerated intervals falls back to the last
/// frame of the state's cycle: beyond 99 ticks (or below zero) a walk shows
/// its ninth frame, and beyond 77 ticks a jump shows its seventh.
pub proof fn lemma_frame_fallback(state: PlayerState, t: int)
    ensures
        state matches PlayerState::Walking(_) && (t < 0 || t > 99) ==> spec_frame_rect(state, t)
            == spec_frame_rect(state, 99),
        state matches PlayerState::Jumping(_) && (t < 0 || t > 77) ==> spec_frame_rect(state, t)
            == spec_frame_rect(state, 77),
{
}

} // verus!
