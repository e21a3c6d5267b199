//! The running game: one player, one level, the current input snapshot,
//! and the menu/playing mode, driven by key events and update ticks.
//!
//! The game decides; the surrounding program performs.  Key events mutate
//! the input snapshot, fire the jump impulse and switch modes here, and
//! anything only a window can do — capturing the cursor, closing — comes
//! back as a [`WindowCommand`] for the caller to carry out.  One update
//! tick per frame drives the player's state machine while playing and is
//! a no-op in the menu.

use vstd::prelude::*;

use crate::input::Holding;
use crate::input::Key;
use crate::level::Level;
use crate::player::Player;
use crate::player::initial_player;
use crate::player::jumped;
use crate::player::step_applied;
use crate::player::step_fits;
use crate::player::stepped;

verus! {

/// Keep track of the current game state.
#[derive(Copy, Clone, Debug, PartialEq, Eq, Structural)]
pub enum GameState {
    Menu,
    Playing,
}

/// What the game asks the surrounding window to do in response to a key
/// press.  The game itself never touches the window.
#[derive(Copy, Clone, Debug, PartialEq, Eq, Structural)]
pub enum WindowCommand {
    NoOp,
    ToggleCaptureCursor,
    CloseWindow,
}

/// Game struct: everything the simulation itself owns.
pub struct Game {
    pub game_state: GameState,
    pub player: Player,
    pub holding: Holding,
    pub last_pressed: Key,
    pub level: Level,
}

impl Game {
    /// A fresh game: in the menu, a newly spawned player, nothing held,
    /// the right-move key on record as last pressed, and an empty level.
    pub fn new() -> (g: Game)
        ensures
            g.game_state == GameState::Menu,
            g.player == initial_player(),
            !g.holding.right,
            !g.holding.left,
            g.last_pressed == Key::D,
            g.level.blocks@.len() == 0,
            g.player.wf(),
    {
        let player = Player::new();
        let holding = Holding::new();
        let level = Level::new();
        Game {
            game_state: GameState::Menu,
            player,
            holding,
            last_pressed: Key::D,
            level,
        }
    }

    /// Handle a keyboard key press event.
    ///
    /// Movement keys update the held snapshot and the last-pressed record;
    /// the jump key records itself and fires the jump impulse; the digit
    /// keys switch between menu and play.  The cursor-capture and close
    /// keys change nothing here and come back as commands for the window.
    pub fn key_press(&mut self, key: Key) -> (cmd: WindowCommand)
        requires
            old(self).player.wf(),
        ensures
            ({
                let g0 = *old(self);
                let g1 = *final(self);
                match key {
                    Key::C => cmd == WindowCommand::ToggleCaptureCursor && g1 == g0,
                    Key::D1 => cmd == WindowCommand::NoOp && g1 == (Game {
                        game_state: GameState::Menu,
                        ..g0
                    }),
                    Key::D2 => cmd == WindowCommand::NoOp && g1 == (Game {
                        game_state: GameState::Playing,
                        ..g0
                    }),
                    Key::F => cmd == WindowCommand::CloseWindow && g1 == g0,
                    Key::D => cmd == WindowCommand::NoOp && g1 == (Game {
                        holding: Holding { right: true, left: g0.holding.left },
                        last_pressed: Key::D,
                        ..g0
                    }),
                    Key::A => cmd == WindowCommand::NoOp && g1 == (Game {
                        holding: Holding { right: g0.holding.right, left: true },
                        last_pressed: Key::A,
                        ..g0
                    }),
                    Key::Space => cmd == WindowCommand::NoOp && g1 == (Game {
                        player: jumped(g0.player),
                        last_pressed: Key::Space,
                        ..g0
                    }),
                    Key::Other => cmd == WindowCommand::NoOp && g1 == g0,
                }
            }),
            final(self).player.wf(),
    {
        match key {
            Key::C => WindowCommand::ToggleCaptureCursor,
            Key::D1 => {
                self.game_state = GameState::Menu;
                WindowCommand::NoOp
            },
            Key::D2 => {
                self.game_state = GameState::Playing;
                WindowCommand::NoOp
            },
            Key::F => WindowCommand::CloseWindow,
            Key::D => {
                self.holding.set_right(true);
                self.last_pressed = Key::D;
                WindowCommand::NoOp
            },
            Key::A => {
                self.holding.set_left(true);
                self.last_pressed = Key::A;
                WindowCommand::NoOp
            },
            Key::Space => {
                self.last_pressed = Key::Space;
                self.player.jump();
                WindowCommand::NoOp
            },
            Key::Other => WindowCommand::NoOp,
        }
    }

    /// Handle the release of a keyboard key: releasing a movement key
    /// clears its held flag and nothing else; the last-pressed record is
    /// a press identity and survives the release.
    pub fn release_key(&mut self, key: Key)
        ensures
            ({
                let g0 = *old(self);
                let g1 = *final(self);
                match key {
                    Key::D => g1 == (Game {
                        holding: Holding { right: false, left: g0.holding.left },
                        ..g0
                    }),
                    Key::A => g1 == (Game {
                        holding: Holding { right: g0.holding.right, left: false },
                        ..g0
                    }),
                    _ => g1 == g0,
                }
            }),
    {
        match key {
            Key::D => {
                self.holding.set_right(false);
            },
            Key::A => {
                self.holding.set_left(false);
            },
            _ => {},
        }
    }

    /// Handle the update event: one simulation tick.  In the menu nothing
    /// moves; while playing, the player steps under the current input
    /// snapshot, and the tick reports whether its outcome was
    /// representable and applied.
    pub fn update(&mut self, dt: i64) -> (ok: bool)
        requires
            old(self).player.wf(),
            0 <= dt,
        ensures
            ({
                let g0 = *old(self);
                let g1 = *final(self);
                match g0.game_state {
                    GameState::Menu => ok && g1 == g0,
                    GameState::Playing => {
                        &&& ok == step_fits(
                            stepped(g0.player, dt as int, g0.holding, g0.last_pressed),
                        )
                        &&& ok ==> step_applied(
                            g0.player,
                            g1.player,
                            dt as int,
                            g0.holding,
                            g0.last_pressed,
                        )
                        &&& !ok ==> g1 == g0
                        &&& g1.game_state == g0.game_state
                        &&& g1.holding == g0.holding
                        &&& g1.last_pressed == g0.last_pressed
                        &&& g1.level == g0.level
                    },
                }
            }),
            final(self).player.wf(),
    {
        match self.game_state {
            GameState::Menu => true,
            GameState::Playing => {
                let holding = self.holding;
                let last_pressed = self.last_pressed;
                self.player.update_char(dt, &holding, last_pressed)
            },
        }
    }
}

} // verus!
