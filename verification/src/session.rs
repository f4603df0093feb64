use crate::inventory::{Inventory, Objectives, objectives_satisfied};
use crate::timers::CountdownTimer;
use vstd::prelude::*;

verus! {

/// The coarse scene the game is showing. The level is where the
/// simulation runs; the others are menus around it.
#[derive(Clone, Copy, PartialEq, Eq, Structural, Debug, Hash)]
pub enum Screen {
    Loading,
    MainMenu,
    Level,
    Win,
    GameOver,
}

/// How long one level lasts.
pub const GAME_DURATION_MS: u64 = 120000;

/// The session clock and outcome resolver: the scene being shown and
/// the level's countdown. Reaching the objectives wins; the countdown
/// running out loses, regardless of objective state, and fires exactly
/// once.
#[derive(Clone, Copy, PartialEq, Eq, Structural, Debug)]
pub struct Session {
    pub screen: Screen,
    pub game_timer: CountdownTimer,
}

impl Session {
    pub open spec fn new_spec() -> Session {
        Session { screen: Screen::Loading, game_timer: CountdownTimer::new_spec(GAME_DURATION_MS) }
    }

    pub fn new() -> (r: Session)
        ensures
            r == Session::new_spec(),
    {
        Session { screen: Screen::Loading, game_timer: CountdownTimer::new(GAME_DURATION_MS) }
    }

    /// Assets are in: move from the loading screen to the main menu.
    pub fn finish_loading(&mut self)
        requires
            old(self).screen is Loading,
        ensures
            final(self).screen is MainMenu,
            final(self).game_timer == old(self).game_timer,
    {
        self.screen = Screen::MainMenu;
    }

    /// Play, try-again or play-again was pressed: enter the level with a
    /// fresh countdown.
    pub fn start_level(&mut self)
        requires
            old(self).screen is MainMenu || old(self).screen is Win || old(
                self,
            ).screen is GameOver,
        ensures
            final(self).screen is Level,
            final(self).game_timer == CountdownTimer::new_spec(GAME_DURATION_MS),
    {
        self.screen = Screen::Level;
        self.game_timer = CountdownTimer::new(GAME_DURATION_MS);
    }

    /// One frame of the session clock. Inside the level the countdown
    /// advances, and on the tick it reaches zero — and only on that one
    /// tick — the session falls to the game-over screen, whatever the
    /// objectives say. Outside the level nothing moves.
    pub fn tick(&mut self, delta_ms: u64) -> (lost: bool)
        ensures
            old(self).screen is Level ==> {
                &&& final(self).game_timer == old(self).game_timer.ticked_spec(delta_ms)
                &&& lost == old(self).game_timer.fires_spec(delta_ms)
                &&& final(self).screen == (if lost {
                    Screen::GameOver
                } else {
                    Screen::Level
                })
            },
            !(old(self).screen is Level) ==> *final(self) == *old(self) && !lost,
    {
        match self.screen {
            Screen::Level => {
                let fired = self.game_timer.tick(delta_ms);
                if fired {
                    self.screen = Screen::GameOver;
                }
                fired
            },
            _ => false,
        }
    }

    /// The player's inventory changed: if the level is running and the
    /// objectives are now met, the session rises to the win screen.
    pub fn inventory_changed(&mut self, inventory: &Inventory, objectives: &Objectives) -> (won:
        bool)
        ensures
            won == (old(self).screen is Level && objectives.satisfied_by(*inventory)),
            final(self).screen == (if won {
                Screen::Win
            } else {
                old(self).screen
            }),
            final(self).game_timer == old(self).game_timer,
    {
        match self.screen {
            Screen::Level => {
                let satisfied = objectives_satisfied(inventory, objectives);
                if satisfied {
                    self.screen = Screen::Win;
                }
                satisfied
            },
            _ => false,
        }
    }

    /// The countdown still to run, for the timer readout.
    pub fn remaining_ms(&self) -> (r: u64)
        ensures
            r == self.game_timer.remaining_ms,
    {
        self.game_timer.remaining()
    }
}

} // verus!
