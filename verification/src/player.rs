//! The player: a state machine over movement states, driven once per tick.
//!
//! Each simulation tick takes the elapsed time, the currently-held movement
//! keys and the identity of the last key pressed, resolves which movement
//! state the player is in, and then applies that state's physics: timer
//! advance and wrap, velocity change, and explicit-Euler position
//! integration.  The whole step is specified by [`stepped`], a mathematical
//! function over unbounded integers; the executable update applies it
//! whenever the result is representable and otherwise reports failure and
//! leaves the player untouched.

use vstd::prelude::*;

use crate::Direction;
use crate::GRAVITY;
use crate::POS_SCALE;
use crate::input::Holding;
use crate::input::Key;

verus! {

/// Ticks before the walk animation cycle wraps (1.0 second).
pub const WALK_RESET: i64 = 100;

/// Ticks before the jump animation cycle wraps (0.6 second).
pub const JUMP_RESET: i64 = 60;

/// Horizontal speed while walking: one world unit per second.
pub const WALK_SPEED: i64 = 100;

/// Vertical speed taken away by one jump impulse: two world units per
/// second, upward (upward is negative in this coordinate convention).
pub const JUMP_SPEED: i64 = 200;

/// The player's movement state.  Exactly one variant is active at a time;
/// each carries the direction the player faces while in it.
#[derive(Copy, Clone, Debug, PartialEq, Eq, Structural)]
pub enum PlayerState {
    Walking(Direction),
    Jumping(Direction),
    Standing(Direction),
    Falling(Direction),
}

/// The struct representing the player.
///
/// `dt` counts ticks spent in the current animated state; `position` is in
/// position steps and `velocity` in velocity steps (see the crate root for
/// the scales).  `facing` mirrors the direction embedded in the state after
/// every update.
pub struct Player {
    pub hp: i32,
    pub dt: i64,
    pub state: PlayerState,
    pub position: (i64, i64),
    pub facing: Direction,
    pub velocity: (i64, i64),
    pub jump_speed: i64,
}

/// The direction embedded in a movement state.
pub open spec fn state_direction(s: PlayerState) -> Direction {
    match s {
        PlayerState::Walking(d) => d,
        PlayerState::Jumping(d) => d,
        PlayerState::Standing(d) => d,
        PlayerState::Falling(d) => d,
    }
}

/// The movement state one tick resolves to, before any physics is applied.
///
/// The rules are tried in a fixed order and the first match wins: the jump
/// rule couples the last discrete key event with still-ascending vertical
/// velocity; the walk rules couple a held key with the same key being the
/// most recent press; descending velocity means falling; everything else
/// stands still.
pub open spec fn resolved_state(
    facing: Direction,
    vel_y: int,
    holding: Holding,
    last_pressed: Key,
) -> PlayerState {
    if last_pressed == Key::Space && vel_y < 0 {
        PlayerState::Jumping(facing)
    } else if holding.right && last_pressed == Key::D {
        PlayerState::Walking(Direction::Right)
    } else if holding.left && last_pressed == Key::A {
        PlayerState::Walking(Direction::Left)
    } else if vel_y > 0 {
        PlayerState::Falling(facing)
    } else {
        PlayerState::Standing(facing)
    }
}

/// The facing after state resolution: it turns only when a walk rule fires.
pub open spec fn resolved_facing(
    facing: Direction,
    vel_y: int,
    holding: Holding,
    last_pressed: Key,
) -> Direction {
    if last_pressed == Key::Space && vel_y < 0 {
        facing
    } else if holding.right && last_pressed == Key::D {
        Direction::Right
    } else if holding.left && last_pressed == Key::A {
        Direction::Left
    } else {
        facing
    }
}

/// The outcome of one simulation tick, over unbounded integers.
pub ghost struct PlayerStep {
    pub state: PlayerState,
    pub facing: Direction,
    pub dt: int,
    pub vel_x: int,
    pub vel_y: int,
    pub pos_x: int,
    pub pos_y: int,
}

/// One full tick of the state machine as a mathematical function: resolve
/// the state, advance and wrap the elapsed-state timer, adjust the
/// velocity, and integrate the position with the adjusted velocity.
///
/// The timer wraps by integer modulo on whole ticks — walking wraps at
/// [`WALK_RESET`], jumping at [`JUMP_RESET`], falling accumulates without
/// wrapping, standing resets to zero.  Standing is a hard stop: both
/// velocity components become zero, so the position also stays put.
pub open spec fn stepped(p: Player, dt: int, holding: Holding, last_pressed: Key) -> PlayerStep {
    let state = resolved_state(p.facing, p.velocity.1 as int, holding, last_pressed);
    let facing = resolved_facing(p.facing, p.velocity.1 as int, holding, last_pressed);
    let t = p.dt + dt;
    let new_dt = match state {
        PlayerState::Walking(_) => t % (WALK_RESET as int),
        PlayerState::Jumping(_) => t % (JUMP_RESET as int),
        PlayerState::Falling(_) => t,
        PlayerState::Standing(_) => 0,
    };
    let vel_x = match state {
        PlayerState::Walking(d) => if d == Direction::Right {
            WALK_SPEED as int
        } else {
            -(WALK_SPEED as int)
        },
        PlayerState::Jumping(_) => p.velocity.0 as int,
        PlayerState::Falling(_) => p.velocity.0 as int,
        PlayerState::Standing(_) => 0,
    };
    let vel_y = match state {
        PlayerState::Walking(_) => p.velocity.1 as int,
        PlayerState::Jumping(_) => p.velocity.1 + GRAVITY * dt,
        PlayerState::Falling(_) => p.velocity.1 + GRAVITY * dt,
        PlayerState::Standing(_) => 0,
    };
    PlayerStep {
        state,
        facing,
        dt: new_dt,
        vel_x,
        vel_y,
        pos_x: p.position.0 + vel_x * dt,
        pos_y: p.position.1 + vel_y * dt,
    }
}

/// Whether a tick outcome is representable in the player's fixed-width
/// fields.  A tick is applied in full or not at all; an unrepresentable
/// outcome (an astronomically long frame or an overflowing coordinate) is
/// reported instead of silently propagating degenerate physics.
pub open spec fn step_fits(s: PlayerStep) -> bool {
    &&& s.dt <= i64::MAX
    &&& i64::MIN <= s.vel_x <= i64::MAX
    &&& i64::MIN <= s.vel_y <= i64::MAX
    &&& i64::MIN <= s.pos_x <= i64::MAX
    &&& i64::MIN <= s.pos_y <= i64::MAX
}

/// The vertical velocity after one jump impulse: the impulse subtracts the
/// whole jump speed, saturating only at the representable minimum.
pub open spec fn jumped_vel(vel_y: int, jump_speed: int) -> int {
    if vel_y - jump_speed >= i64::MIN {
        vel_y - jump_speed
    } else {
        i64::MIN as int
    }
}

/// The state a player spawns in: standing, facing right, at rest at
/// (300, 300) world units, with full hit points and the default jump
/// impulse.
pub open spec fn initial_player() -> Player {
    Player {
        hp: 100,
        dt: 0,
        state: PlayerState::Standing(Direction::Right),
        position: ((300 * POS_SCALE) as i64, (300 * POS_SCALE) as i64),
        facing: Direction::Right,
        velocity: (0i64, 0i64),
        jump_speed: JUMP_SPEED,
    }
}

/// The player after one jump impulse: only the vertical velocity changes.
pub open spec fn jumped(p: Player) -> Player {
    Player {
        velocity: (p.velocity.0, jumped_vel(p.velocity.1 as int, p.jump_speed as int) as i64),
        ..p
    }
}

/// Whether `p1` is `p0` with the tick outcome written into its fields:
/// the resolved state and facing, the wrapped timer, the adjusted velocity
/// and the integrated position, with hit points and jump speed untouched.
pub open spec fn step_applied(
    p0: Player,
    p1: Player,
    dt: int,
    holding: Holding,
    last_pressed: Key,
) -> bool {
    let s = stepped(p0, dt, holding, last_pressed);
    &&& p1.state == s.state
    &&& p1.facing == s.facing
    &&& p1.dt == s.dt
    &&& p1.velocity.0 == s.vel_x
    &&& p1.velocity.1 == s.vel_y
    &&& p1.position.0 == s.pos_x
    &&& p1.position.1 == s.pos_y
    &&& p1.hp == p0.hp
    &&& p1.jump_speed == p0.jump_speed
}

/// Whatever the prior state and inputs, a tick that resolves to standing
/// is a hard stop: both velocity components and the elapsed-state timer
/// come out zero, and the position does not move.
pub proof fn lemma_standing_halts(p: Player, dt: int, holding: Holding, last_pressed: Key)
    requires
        p.wf(),
        0 <= dt,
    ensures
        ({
            let s = stepped(p, dt, holding, last_pressed);
            s.state matches PlayerState::Standing(_) ==> {
                &&& s.vel_x == 0
                &&& s.vel_y == 0
                &&& s.dt == 0
                &&& s.pos_x == p.position.0
                &&& s.pos_y == p.position.1
            }
        }),
{
}

/// The elapsed-state timer wraps by integer modulo on whole ticks: after a
/// walking tick it is the accumulated tick count modulo [`WALK_RESET`],
/// after a jumping tick modulo [`JUMP_RESET`], and in either case it lands
/// strictly inside the cycle window.
pub proof fn lemma_timer_wrap(p: Player, dt: int, holding: Holding, last_pressed: Key)
    requires
        p.wf(),
        0 <= dt,
    ensures
        ({
            let s = stepped(p, dt, holding, last_pressed);
            &&& s.state matches PlayerState::Walking(_) ==> s.dt == (p.dt + dt) % (WALK_RESET as int)
                && 0 <= s.dt < WALK_RESET
            &&& s.state matches PlayerState::Jumping(_) ==> s.dt == (p.dt + dt) % (JUMP_RESET as int)
                && 0 <= s.dt < JUMP_RESET
        }),
{
}

/// Two jump impulses with no update in between stack additively: away from
/// the saturation floor, the vertical velocity drops by exactly twice the
/// jump speed.
pub proof fn lemma_jump_stacks(vel_y: int, jump_speed: int)
    requires
        0 <= jump_speed,
        i64::MIN + 2 * jump_speed <= vel_y <= i64::MAX,
    ensures
        jumped_vel(jumped_vel(vel_y, jump_speed), jump_speed) == vel_y - 2 * jump_speed,
{
}

/// With no movement key held and a descending velocity, a tick resolves to
/// falling, keeps the facing, and strictly increases the vertical velocity
/// — so successive same-length ticks accelerate the fall monotonically.
pub proof fn lemma_falling_accelerates(p: Player, dt: int, holding: Holding, last_pressed: Key)
    requires
        p.wf(),
        0 < dt,
        p.velocity.1 > 0,
        !holding.right,
        !holding.left,
    ensures
        ({
            let s = stepped(p, dt, holding, last_pressed);
            &&& s.state == PlayerState::Falling(p.facing)
            &&& s.facing == p.facing
            &&& s.vel_y == p.velocity.1 + GRAVITY * dt
            &&& s.vel_y > p.velocity.1
        }),
{
}

/// After any tick the facing mirrors the direction embedded in the state:
/// the walk rules turn both together, and every other rule embeds the
/// facing it keeps.
pub proof fn lemma_facing_mirrors_state(p: Player, dt: int, holding: Holding, last_pressed: Key)
    ensures
        state_direction(stepped(p, dt, holding, last_pressed).state) == stepped(
            p,
            dt,
            holding,
            last_pressed,
        ).facing,
{
}

/// A product of a velocity in `i64` range and a non-negative time delta in
/// `i64` range stays far inside `i128` range.
proof fn lemma_vel_dt_product_bounds(v: int, d: int)
    by (nonlinear_arith)
    requires
        i64::MIN <= v <= i64::MAX,
        0 <= d <= i64::MAX,
    ensures
        v * d <= i64::MAX * i64::MAX,
        i64::MIN * i64::MAX <= v * d,
{
}

impl Player {
    /// The player's basic well-formedness: the elapsed-state timer never
    /// runs backward and the jump impulse pulls upward.
    pub open spec fn wf(self) -> bool {
        &&& 0 <= self.dt
        &&& 0 <= self.jump_speed
    }

    /// A freshly spawned player: standing, facing right, at rest at
    /// (300, 300) world units.
    pub fn new() -> (p: Player)
        ensures
            p == initial_player(),
            p.hp == 100,
            p.dt == 0,
            p.state == PlayerState::Standing(Direction::Right),
            p.position.0 == 300 * POS_SCALE,
            p.position.1 == 300 * POS_SCALE,
            p.facing == Direction::Right,
            p.velocity == (0i64, 0i64),
            p.jump_speed == JUMP_SPEED,
            p.wf(),
    {
        Player {
            hp: 100,
            dt: 0,
            state: PlayerState::Standing(Direction::Right),
            position: (300 * POS_SCALE, 300 * POS_SCALE),
            facing: Direction::Right,
            velocity: (0, 0),
            jump_speed: JUMP_SPEED,
        }
    }

    /// Ticks spent in the current animated state.
    pub fn get_dt(&self) -> (dt: i64)
        ensures
            dt == self.dt,
    {
        self.dt
    }

    fn get_facing(&self) -> (d: Direction)
        ensures
            d == self.facing,
    {
        self.facing
    }

    pub fn get_position(&self) -> (pos: (i64, i64))
        ensures
            pos == self.position,
    {
        self.position
    }

    pub fn get_state(&self) -> (s: &PlayerState)
        ensures
            *s == self.state,
    {
        &self.state
    }

    /// Apply one jump impulse: subtract the jump speed from the vertical
    /// velocity, independent of the current velocity.  Two impulses with no
    /// update in between therefore stack additively.
    pub fn jump(&mut self)
        requires
            old(self).wf(),
        ensures
            *final(self) == jumped(*old(self)),
            final(self).velocity.1 == jumped_vel(
                old(self).velocity.1 as int,
                old(self).jump_speed as int,
            ),
            final(self).wf(),
    {
        if self.velocity.1 >= i64::MIN + self.jump_speed {
            self.velocity.1 = self.velocity.1 - self.jump_speed;
        } else {
            self.velocity.1 = i64::MIN;
        }
    }

    /// Determine the appropriate state for the player to be in, and the
    /// facing that goes with it, without touching the player.
    fn resolve_state(&self, holding: &Holding, last_pressed: Key) -> (r: (PlayerState, Direction))
        ensures
            r.0 == resolved_state(self.facing, self.velocity.1 as int, *holding, last_pressed),
            r.1 == resolved_facing(self.facing, self.velocity.1 as int, *holding, last_pressed),
    {
        if last_pressed == Key::Space && self.velocity.1 < 0 {
            (PlayerState::Jumping(self.get_facing()), self.facing)
        } else if *holding.get_right() && last_pressed == Key::D {
            (PlayerState::Walking(Direction::Right), Direction::Right)
        } else if *holding.get_left() && last_pressed == Key::A {
            (PlayerState::Walking(Direction::Left), Direction::Left)
        } else if self.velocity.1 > 0 {
            (PlayerState::Falling(self.get_facing()), self.facing)
        } else {
            (PlayerState::Standing(self.get_facing()), self.facing)
        }
    }

    pub fn set_state(&mut self, state: PlayerState)
        ensures
            final(self).state == state,
            final(self).hp == old(self).hp,
            final(self).dt == old(self).dt,
            final(self).position == old(self).position,
            final(self).facing == old(self).facing,
            final(self).velocity == old(self).velocity,
            final(self).jump_speed == old(self).jump_speed,
    {
        self.state = state;
    }

    /// Run one simulation tick: resolve the state from the inputs, then
    /// apply that state's timer, velocity and position rules.
    ///
    /// The tick is the mathematical step [`stepped`]; it is applied exactly
    /// when its outcome fits the fixed-width fields, and otherwise nothing
    /// changes and `false` comes back.
    pub fn update_char(&mut self, dt: i64, holding: &Holding, last_pressed: Key) -> (ok: bool)
        requires
            old(self).wf(),
            0 <= dt,
        ensures
            ok == step_fits(stepped(*old(self), dt as int, *holding, last_pressed)),
            ok ==> step_applied(*old(self), *final(self), dt as int, *holding, last_pressed),
            !ok ==> *final(self) == *old(self),
            final(self).hp == old(self).hp,
            final(self).jump_speed == old(self).jump_speed,
            final(self).wf(),
    {
        let (new_state, new_facing) = self.resolve_state(holding, last_pressed);
        let t: i128 = self.dt as i128 + dt as i128;
        let new_dt: i128;
        let new_vel_x: i128;
        let new_vel_y: i128;
        match new_state {
            PlayerState::Walking(Direction::Right) => {
                new_dt = t % (WALK_RESET as i128);
                new_vel_x = WALK_SPEED as i128;
                new_vel_y = self.velocity.1 as i128;
            },
            PlayerState::Walking(Direction::Left) => {
                new_dt = t % (WALK_RESET as i128);
                new_vel_x = -(WALK_SPEED as i128);
                new_vel_y = self.velocity.1 as i128;
            },
            PlayerState::Jumping(_) => {
                new_dt = t % (JUMP_RESET as i128);
                new_vel_x = self.velocity.0 as i128;
                new_vel_y = self.velocity.1 as i128 + GRAVITY as i128 * dt as i128;
            },
            PlayerState::Falling(_) => {
                new_dt = t;
                new_vel_x = self.velocity.0 as i128;
                new_vel_y = self.velocity.1 as i128 + GRAVITY as i128 * dt as i128;
            },
            PlayerState::Standing(_) => {
                new_dt = 0;
                new_vel_x = 0;
                new_vel_y = 0;
            },
        }
        if new_dt > i64::MAX as i128 {
            return false;
        }
        if new_vel_y > i64::MAX as i128 || new_vel_y < i64::MIN as i128 {
            return false;
        }
        proof {
            lemma_vel_dt_product_bounds(new_vel_x as int, dt as int);
            lemma_vel_dt_product_bounds(new_vel_y as int, dt as int);
        }
        let new_pos_x: i128 = self.position.0 as i128 + new_vel_x * dt as i128;
        let new_pos_y: i128 = self.position.1 as i128 + new_vel_y * dt as i128;
        if new_pos_x > i64::MAX as i128 || new_pos_x < i64::MIN as i128 {
            return false;
        }
        if new_pos_y > i64::MAX as i128 || new_pos_y < i64::MIN as i128 {
            return false;
        }
        self.state = new_state;
        self.facing = new_facing;
        self.dt = new_dt as i64;
        self.velocity = (new_vel_x as i64, new_vel_y as i64);
        self.position = (new_pos_x as i64, new_pos_y as i64);
        true
    }
}

} // verus!
