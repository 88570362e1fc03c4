//! The phases of a game and the rules that lead from one phase to the next.
//!
//! The warm-up and game timers are real-valued and stay with the caller, who reports to the
//! manager whether the warm-up has run out and how much of the floor was seen.

use crate::floor_manager::FloorManager;
use crate::layout::{FloorLayout, RoomType};
use crate::player::{no_direction, Movement, Player, PlayerStatus};
use crate::ratio::Ratio;
use crate::save_game::SaveGame;
use vstd::prelude::*;

verus! {

/// The phase that a game is in.
#[derive(Clone, Copy, Debug, PartialEq, Eq, Structural)]
pub enum GameState {
    Loading,
    WarmUp,
    Running,
    Scoring,
    Paused,
}

/// Whether the timer runs after `next` was entered: the warm-up and the run start it, the
/// other phases leave it as it is.
pub open spec fn spec_timer_after_entering(run_timer: bool, next: GameState) -> bool {
    run_timer || next == GameState::WarmUp || next == GameState::Running
}

/// The phase that follows when a frame finds the timer stopped: the run after the warm-up,
/// the scoring after the run.
pub open spec fn spec_next_phase(game_state: GameState, run_timer: bool) -> Option<GameState> {
    if run_timer {
        None
    } else {
        match game_state {
            GameState::WarmUp => Some(GameState::Running),
            GameState::Running => Some(GameState::Scoring),
            _ => None,
        }
    }
}

/// Whether the timer runs after a physics tick: the warm-up stops it when its time has run
/// out, the run stops it when the whole floor was seen.
pub open spec fn spec_timer_after_tick(
    game_state: GameState,
    run_timer: bool,
    warmup_elapsed: bool,
    completion: Ratio,
) -> bool {
    match game_state {
        GameState::WarmUp => run_timer && !warmup_elapsed,
        GameState::Running => run_timer && completion.numerator < completion.denominator,
        _ => run_timer,
    }
}

/// A game can be paused unless it is being scored or is paused already.
pub open spec fn spec_can_pause(game_state: GameState) -> bool {
    game_state != GameState::Scoring && game_state != GameState::Paused
}

/// Leads a game through its phases.
pub struct GameManager {
    game_state: GameState,
    current_game: SaveGame,
    floor_layout: FloorLayout,
    estimated_completion_time: Ratio,
    run_timer: bool,
}

impl GameManager {
    /// The phase of the game.
    pub closed spec fn spec_game_state(&self) -> GameState {
        self.game_state
    }

    /// The snapshot of the game.
    pub closed spec fn spec_current_game(&self) -> SaveGame {
        self.current_game
    }

    /// The layout of the floor that was last set up.
    pub closed spec fn layout(&self) -> FloorLayout {
        self.floor_layout
    }

    /// The estimated completion time of the floor that was last set up.
    pub closed spec fn spec_estimated_completion_time(&self) -> Ratio {
        self.estimated_completion_time
    }

    /// Whether the timer of the current phase runs.
    pub closed spec fn spec_run_timer(&self) -> bool {
        self.run_timer
    }

    /// The invariant of a manager: its layout is well formed.
    pub open spec fn wf(&self) -> bool {
        self.layout().wf()
    }

    /// Creates a manager that is loading a new game with seed zero.
    pub fn init() -> (manager: GameManager)
        ensures
            manager.wf(),
            manager.spec_game_state() == GameState::Loading,
            manager.spec_current_game() == (SaveGame {
                level_seed: 0,
                current_floor: 0,
                in_shop: false,
                mod_shop_page: 0,
                money: 0,
            }),
            manager.layout()@ == Map::<(i64, i64), RoomType>::empty(),
            manager.spec_estimated_completion_time() == (Ratio { numerator: 0, denominator: 1 }),
            !manager.spec_run_timer(),
    {
        GameManager {
            game_state: GameState::Loading,
            current_game: SaveGame::new(0),
            floor_layout: FloorLayout::new(),
            estimated_completion_time: Ratio::zero(),
            run_timer: false,
        }
    }

    /// Replaces the snapshot of the game.
    pub fn set_current_game(&mut self, save_game: SaveGame)
        ensures
            final(self).spec_current_game() == save_game,
            final(self).spec_game_state() == old(self).spec_game_state(),
            final(self).layout() == old(self).layout(),
            final(self).spec_estimated_completion_time() == old(self).spec_estimated_completion_time(),
            final(self).spec_run_timer() == old(self).spec_run_timer(),
    {
        self.current_game = save_game;
    }

    /// Returns the phase of the game.
    pub fn game_state(&self) -> (game_state: GameState)
        ensures
            game_state == self.spec_game_state(),
    {
        self.game_state
    }

    /// Returns the snapshot of the game.
    pub fn current_game(&self) -> (save_game: SaveGame)
        ensures
            save_game == self.spec_current_game(),
    {
        self.current_game
    }

    /// Returns the layout of the floor that was last set up.
    pub fn floor_layout(&self) -> (layout: &FloorLayout)
        ensures
            *layout == self.layout(),
    {
        &self.floor_layout
    }

    /// Returns the estimated completion time of the floor that was last set up, in seconds.
    pub fn estimated_completion_time(&self) -> (estimate: Ratio)
        ensures
            estimate == self.spec_estimated_completion_time(),
    {
        self.estimated_completion_time
    }

    /// Tells whether the timer of the current phase runs.
    pub fn run_timer(&self) -> (running: bool)
        ensures
            running == self.spec_run_timer(),
    {
        self.run_timer
    }

    /// Enters a phase and tells the player. Entering `Loading` asks the floor manager for the
    /// floor of the current snapshot; the result says whether the caller has to start a worker.
    pub fn change_game_state(
        &mut self,
        next_game_state: GameState,
        player: &mut Player,
        floor_manager: &mut FloorManager,
    ) -> (start_worker: bool)
        ensures
            final(self).spec_game_state() == next_game_state,
            final(self).spec_run_timer() == spec_timer_after_entering(
                old(self).spec_run_timer(),
                next_game_state,
            ),
            final(self).spec_current_game() == old(self).spec_current_game(),
            final(self).layout() == old(self).layout(),
            final(self).spec_estimated_completion_time() == old(self).spec_estimated_completion_time(),
            final(player).spec_game_state() == next_game_state,
            final(player)@ == old(player)@,
            final(player).layout() == old(player).layout(),
            final(player).spec_current_game() == old(player).spec_current_game(),
            start_worker == (next_game_state == GameState::Loading && old(floor_manager).spec_request() is None),
            final(floor_manager).spec_request() == (if start_worker {
                Some(old(self).spec_current_game())
            } else {
                old(floor_manager).spec_request()
            }),
            final(floor_manager).floor() == old(floor_manager).floor(),
            final(floor_manager).layout() == old(floor_manager).layout(),
            final(floor_manager).spec_estimated_completion_time() == old(floor_manager).spec_estimated_completion_time(),
    {
        let start_worker = match next_game_state {
            GameState::Loading => floor_manager.setup_level(self.current_game),
            GameState::WarmUp => {
                self.run_timer = true;
                false
            },
            GameState::Running => {
                self.run_timer = true;
                false
            },
            GameState::Scoring => false,
            GameState::Paused => false,
        };
        self.game_state = next_game_state;
        player.change_game_state(next_game_state);
        start_worker
    }

    /// Takes over a floor that was set up: the player gets the snapshot and the layout and
    /// starts idle on the origin, and the warm-up begins.
    pub fn level_setup_complete(
        &mut self,
        floor_layout: FloorLayout,
        estimated_completion_time: Ratio,
        player: &mut Player,
    )
        requires
            floor_layout.wf(),
        ensures
            final(self).wf(),
            final(self).spec_game_state() == GameState::WarmUp,
            final(self).spec_run_timer(),
            final(self).layout() == floor_layout,
            final(self).spec_estimated_completion_time() == estimated_completion_time,
            final(self).spec_current_game() == old(self).spec_current_game(),
            final(player).wf(),
            final(player).spec_game_state() == GameState::WarmUp,
            final(player).spec_current_game() == old(self).spec_current_game(),
            final(player).layout().wf(),
            final(player).layout()@ == floor_layout@,
            final(player).layout().order() == floor_layout.order(),
            final(player)@ == (Movement {
                status: PlayerStatus::Idle,
                direction: no_direction(),
                target_position: (0, 0),
            }),
    {
        player.set_game_properties(self.current_game, floor_layout.clone());
        player.reset();
        self.floor_layout = floor_layout;
        self.estimated_completion_time = estimated_completion_time;
        self.run_timer = true;
        self.game_state = GameState::WarmUp;
        player.change_game_state(GameState::WarmUp);
    }

    /// Starts level setup over after generation failed; the result says whether the caller has
    /// to start a worker.
    pub fn level_setup_failed(&mut self, player: &mut Player, floor_manager: &mut FloorManager) -> (start_worker: bool)
        ensures
            final(self).spec_game_state() == GameState::Loading,
            final(self).spec_run_timer() == old(self).spec_run_timer(),
            final(self).spec_current_game() == old(self).spec_current_game(),
            final(self).layout() == old(self).layout(),
            final(self).spec_estimated_completion_time() == old(self).spec_estimated_completion_time(),
            final(player).spec_game_state() == GameState::Loading,
            final(player)@ == old(player)@,
            final(player).layout() == old(player).layout(),
            start_worker == (old(floor_manager).spec_request() is None),
            final(floor_manager).spec_request() == (if start_worker {
                Some(old(self).spec_current_game())
            } else {
                old(floor_manager).spec_request()
            }),
            final(floor_manager).floor() == old(floor_manager).floor(),
            final(floor_manager).layout() == old(floor_manager).layout(),
    {
        self.change_game_state(GameState::Loading, player, floor_manager)
    }

    /// Says which phase a frame leads to, if any.
    pub fn process(&self) -> (next: Option<GameState>)
        ensures
            next == spec_next_phase(self.spec_game_state(), self.spec_run_timer()),
    {
        if self.run_timer {
            return None;
        }
        match self.game_state {
            GameState::WarmUp => Some(GameState::Running),
            GameState::Running => Some(GameState::Scoring),
            _ => None,
        }
    }

    /// Takes one physics tick into account. `warmup_elapsed` reports whether the warm-up time
    /// has run out; `completion` is the seen progress of the floor.
    pub fn physics_process(&mut self, warmup_elapsed: bool, completion: Ratio)
        ensures
            final(self).spec_run_timer() == spec_timer_after_tick(
                old(self).spec_game_state(),
                old(self).spec_run_timer(),
                warmup_elapsed,
                completion,
            ),
            final(self).spec_game_state() == old(self).spec_game_state(),
            final(self).spec_current_game() == old(self).spec_current_game(),
            final(self).layout() == old(self).layout(),
            final(self).spec_estimated_completion_time() == old(self).spec_estimated_completion_time(),
    {
        match self.game_state {
            GameState::WarmUp => {
                if warmup_elapsed {
                    self.run_timer = false;
                }
            },
            GameState::Running => {
                if completion.is_at_least_one() {
                    self.run_timer = false;
                }
            },
            _ => {},
        }
    }

    /// Says whether a press of the pause key pauses the game.
    pub fn input(&self, pause_pressed: bool) -> (pause: bool)
        ensures
            pause == (pause_pressed && spec_can_pause(self.spec_game_state())),
    {
        if !pause_pressed {
            return false;
        }
        match self.game_state {
            GameState::Scoring => false,
            GameState::Paused => false,
            _ => true,
        }
    }
}

} // verus!
