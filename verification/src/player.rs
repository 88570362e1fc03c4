//! The player's movement over a floor: a state machine that is stepped once per physics tick.
//!
//! The machine holds the discrete part of the movement: the status, the direction and the
//! target cell. Speed, world position and the cooldown timer are real-valued and stay with the
//! caller, who integrates them as [`Player::motion`] says, reports what came of it to
//! [`Player::physics_process`], and treats the timer as the returned [`PlayerAction`] says.

use crate::game_manager::GameState;
use crate::layout::{neighbour, spec_neighbour, FloorLayout, RoomType};
use crate::save_game::SaveGame;
use vstd::prelude::*;

verus! {

/// What the player is doing.
#[derive(Clone, Copy, Debug, PartialEq, Eq, Structural)]
pub enum PlayerStatus {
    Idle,
    Moving,
    Cooling,
}

/// Which of the four directions are held down.
#[derive(Clone, Copy, Debug, PartialEq, Eq, Structural)]
pub struct HeldDirections {
    pub up: bool,
    pub down: bool,
    pub left: bool,
    pub right: bool,
}

/// The discrete part of the movement.
#[derive(Clone, Copy, Debug, PartialEq, Eq)]
pub struct Movement {
    pub status: PlayerStatus,
    pub direction: (i64, i64),
    pub target_position: (i64, i64),
}

/// What the caller does to position and speed before it reports a tick.
#[derive(Clone, Copy, Debug, PartialEq, Eq)]
pub enum Motion {
    /// Leave position and speed as they are.
    Hold,
    /// Accelerate, advance along `direction`, and see whether `target` was reached or passed.
    Advance { direction: (i64, i64), target: (i64, i64) },
    /// Put the player on `target` and bring the speed to zero.
    Settle { target: (i64, i64) },
}

/// What the caller does to the cooldown timer after a tick.
#[derive(Clone, Copy, Debug, PartialEq, Eq, Structural)]
pub enum PlayerAction {
    /// Leave the timer as it is.
    Rest,
    /// Start the timer from the stopping time of the current speed.
    StartCooldown,
    /// Take the length of the tick off the timer.
    RunCooldown,
}

/// The direction that points up.
pub open spec fn up_direction() -> (i64, i64) {
    (0, 1)
}

/// The direction that points down.
pub open spec fn down_direction() -> (i64, i64) {
    (0, -1i64)
}

/// The direction that points left.
pub open spec fn left_direction() -> (i64, i64) {
    (-1i64, 0)
}

/// The direction that points right.
pub open spec fn right_direction() -> (i64, i64) {
    (1, 0)
}

/// The direction of a player that is not heading anywhere.
pub open spec fn no_direction() -> (i64, i64) {
    (0, 0)
}

/// The values that a direction can take.
pub open spec fn is_direction(direction: (i64, i64)) -> bool {
    ||| direction == up_direction()
    ||| direction == down_direction()
    ||| direction == left_direction()
    ||| direction == right_direction()
    ||| direction == no_direction()
}

impl HeldDirections {
    /// The direction that the held keys ask for: up before down before left before right.
    pub open spec fn spec_chosen(self) -> Option<(i64, i64)> {
        if self.up {
            Some(up_direction())
        } else if self.down {
            Some(down_direction())
        } else if self.left {
            Some(left_direction())
        } else if self.right {
            Some(right_direction())
        } else {
            None
        }
    }

    /// Picks the direction that the held keys ask for.
    pub fn chosen(&self) -> (direction: Option<(i64, i64)>)
        ensures
            direction == self.spec_chosen(),
    {
        if self.up {
            Some((0, 1))
        } else if self.down {
            Some((0, -1))
        } else if self.left {
            Some((-1, 0))
        } else if self.right {
            Some((1, 0))
        } else {
            None
        }
    }
}

/// The player stops on its target and waits for the cooldown, heading for `direction`.
pub open spec fn spec_stop(movement: Movement, direction: (i64, i64)) -> (Movement, PlayerAction) {
    (
        Movement {
            status: PlayerStatus::Cooling,
            direction,
            target_position: movement.target_position,
        },
        PlayerAction::StartCooldown,
    )
}

/// The player commits to the cell next to its target in `direction`. Where the layout has no
/// such cell the move is rejected: the target stays, the direction is cleared, and the player
/// goes into its cooldown.
pub open spec fn spec_commit(
    movement: Movement,
    layout: Map<(i64, i64), RoomType>,
    direction: (i64, i64),
) -> (Movement, PlayerAction) {
    match spec_neighbour(movement.target_position, direction) {
        Some(next) if layout.contains_key(next) => (
            Movement { status: PlayerStatus::Moving, direction, target_position: next },
            PlayerAction::Rest,
        ),
        _ => spec_stop(movement, no_direction()),
    }
}

/// One tick of the movement while the game is running.
///
/// `reached` says whether the advance of this tick reached or passed the target; `cooling`
/// says whether the cooldown timer is still above zero.
pub open spec fn spec_tick(
    movement: Movement,
    layout: Map<(i64, i64), RoomType>,
    held: HeldDirections,
    reached: bool,
    cooling: bool,
) -> (Movement, PlayerAction) {
    match movement.status {
        PlayerStatus::Idle => match held.spec_chosen() {
            Some(direction) => spec_commit(movement, layout, direction),
            None => (movement, PlayerAction::Rest),
        },
        PlayerStatus::Moving => if !reached {
            (movement, PlayerAction::Rest)
        } else {
            match held.spec_chosen() {
                Some(direction) => if direction == movement.direction {
                    spec_commit(movement, layout, direction)
                } else {
                    spec_stop(movement, direction)
                },
                None => spec_stop(movement, no_direction()),
            }
        },
        PlayerStatus::Cooling => match held.spec_chosen() {
            Some(direction) => if cooling {
                (
                    Movement {
                        status: PlayerStatus::Cooling,
                        direction,
                        target_position: movement.target_position,
                    },
                    PlayerAction::RunCooldown,
                )
            } else {
                spec_commit(movement, layout, direction)
            },
            None => if cooling {
                (movement, PlayerAction::RunCooldown)
            } else {
                (
                    Movement {
                        status: PlayerStatus::Idle,
                        direction: no_direction(),
                        target_position: movement.target_position,
                    },
                    PlayerAction::Rest,
                )
            },
        },
    }
}

/// The movements that the machine can be in over a layout: a moving player has a direction,
/// and its target is a cell of the layout; an idle player has no direction.
pub open spec fn movement_fits(movement: Movement, layout: Map<(i64, i64), RoomType>) -> bool {
    &&& is_direction(movement.direction)
    &&& movement.status == PlayerStatus::Moving ==> movement.direction != no_direction()
        && layout.contains_key(movement.target_position)
    &&& movement.status == PlayerStatus::Idle ==> movement.direction == no_direction()
}

/// A tick leads from a movement that fits the layout to one that fits it.
pub proof fn lemma_tick_keeps_target_in_layout(
    movement: Movement,
    layout: Map<(i64, i64), RoomType>,
    held: HeldDirections,
    reached: bool,
    cooling: bool,
)
    requires
        movement_fits(movement, layout),
    ensures
        movement_fits(spec_tick(movement, layout, held, reached, cooling).0, layout),
{
}

/// The player of a game: the floor it walks on and where it is heading.
pub struct Player {
    game_state: GameState,
    current_game: SaveGame,
    floor_layout: FloorLayout,
    movement: Movement,
}

impl View for Player {
    type V = Movement;

    /// The movement of the player.
    closed spec fn view(&self) -> Movement {
        self.movement
    }
}

impl Player {
    /// The layout that the player walks on.
    pub closed spec fn layout(&self) -> FloorLayout {
        self.floor_layout
    }

    /// The phase of the game, as the player was last told.
    pub closed spec fn spec_game_state(&self) -> GameState {
        self.game_state
    }

    /// The snapshot that the player was last given.
    pub closed spec fn spec_current_game(&self) -> SaveGame {
        self.current_game
    }

    /// The invariant of a player: its layout is well formed and its movement fits the layout.
    pub open spec fn wf(&self) -> bool {
        &&& self.layout().wf()
        &&& movement_fits(self@, self.layout()@)
    }

    /// Creates a player that idles on the origin of an empty floor while the game loads.
    pub fn init() -> (player: Player)
        ensures
            player.wf(),
            player@ == (Movement {
                status: PlayerStatus::Idle,
                direction: no_direction(),
                target_position: (0, 0),
            }),
            player.layout()@ == Map::<(i64, i64), RoomType>::empty(),
            player.spec_game_state() == GameState::Loading,
            player.spec_current_game() == (SaveGame {
                level_seed: 0,
                current_floor: 0,
                in_shop: false,
                mod_shop_page: 0,
                money: 0,
            }),
    {
        Player {
            game_state: GameState::Loading,
            current_game: SaveGame::new(0),
            floor_layout: FloorLayout::new(),
            movement: Movement {
                status: PlayerStatus::Idle,
                direction: (0, 0),
                target_position: (0, 0),
            },
        }
    }

    /// Hands the player the snapshot and the layout of a new floor. The player starts the floor
    /// idle on the origin.
    pub fn set_game_properties(&mut self, save_game: SaveGame, floor_layout: FloorLayout)
        requires
            floor_layout.wf(),
        ensures
            final(self).wf(),
            final(self).layout() == floor_layout,
            final(self).spec_current_game() == save_game,
            final(self).spec_game_state() == old(self).spec_game_state(),
            final(self)@ == (Movement {
                status: PlayerStatus::Idle,
                direction: no_direction(),
                target_position: (0, 0),
            }),
    {
        self.current_game = save_game;
        self.floor_layout = floor_layout;
        self.movement = Movement {
            status: PlayerStatus::Idle,
            direction: (0, 0),
            target_position: (0, 0),
        };
    }

    /// Puts the player back on the origin, idle and without a direction.
    pub fn reset(&mut self)
        requires
            old(self).wf(),
        ensures
            final(self).wf(),
            final(self).layout() == old(self).layout(),
            final(self).spec_current_game() == old(self).spec_current_game(),
            final(self).spec_game_state() == old(self).spec_game_state(),
            final(self)@ == (Movement {
                status: PlayerStatus::Idle,
                direction: no_direction(),
                target_position: (0, 0),
            }),
    {
        self.movement = Movement {
            status: PlayerStatus::Idle,
            direction: (0, 0),
            target_position: (0, 0),
        };
    }

    /// Tells the player which phase the game is in.
    pub fn change_game_state(&mut self, next_game_state: GameState)
        ensures
            final(self).spec_game_state() == next_game_state,
            final(self)@ == old(self)@,
            final(self).layout() == old(self).layout(),
            final(self).spec_current_game() == old(self).spec_current_game(),
    {
        self.game_state = next_game_state;
    }

    /// Returns the status of the movement.
    pub fn status(&self) -> (status: PlayerStatus)
        ensures
            status == self@.status,
    {
        self.movement.status
    }

    /// Returns the direction of the movement.
    pub fn direction(&self) -> (direction: (i64, i64))
        ensures
            direction == self@.direction,
    {
        self.movement.direction
    }

    /// Returns the cell that the player stands on or is heading for.
    pub fn target_position(&self) -> (target: (i64, i64))
        ensures
            target == self@.target_position,
    {
        self.movement.target_position
    }

    /// Returns the phase of the game, as the player was last told.
    pub fn game_state(&self) -> (game_state: GameState)
        ensures
            game_state == self.spec_game_state(),
    {
        self.game_state
    }

    /// Returns the snapshot that the player was last given.
    pub fn current_game(&self) -> (save_game: SaveGame)
        ensures
            save_game == self.spec_current_game(),
    {
        self.current_game
    }

    /// What the caller does to position and speed before it reports the tick: nothing unless
    /// the game is running; advance while moving; settle on the target while cooling.
    pub open spec fn spec_motion(&self) -> Motion {
        if self.spec_game_state() != GameState::Running {
            Motion::Hold
        } else {
            match self@.status {
                PlayerStatus::Idle => Motion::Hold,
                PlayerStatus::Moving => Motion::Advance {
                    direction: self@.direction,
                    target: self@.target_position,
                },
                PlayerStatus::Cooling => Motion::Settle { target: self@.target_position },
            }
        }
    }

    /// Says what the caller does to position and speed before it reports the tick.
    pub fn motion(&self) -> (motion: Motion)
        ensures
            motion == self.spec_motion(),
    {
        match self.game_state {
            GameState::Running => match self.movement.status {
                PlayerStatus::Idle => Motion::Hold,
                PlayerStatus::Moving => Motion::Advance {
                    direction: self.movement.direction,
                    target: self.movement.target_position,
                },
                PlayerStatus::Cooling => Motion::Settle { target: self.movement.target_position },
            },
            _ => Motion::Hold,
        }
    }

    /// Commits to the next cell in `direction`, or bounces off the edge of the floor.
    fn change_player_status(&mut self, direction: (i64, i64)) -> (action: PlayerAction)
        requires
            old(self).layout().wf(),
        ensures
            (final(self)@, action) == spec_commit(old(self)@, old(self).layout()@, direction),
            final(self).layout() == old(self).layout(),
            final(self).spec_game_state() == old(self).spec_game_state(),
            final(self).spec_current_game() == old(self).spec_current_game(),
    {
        let target = self.movement.target_position;
        match neighbour(target, direction) {
            Some(cell) => {
                if self.floor_layout.contains_key(&cell) {
                    self.movement = Movement {
                        status: PlayerStatus::Moving,
                        direction,
                        target_position: cell,
                    };
                    return PlayerAction::Rest;
                }
            },
            None => {},
        }
        self.movement = Movement {
            status: PlayerStatus::Cooling,
            direction: (0, 0),
            target_position: target,
        };
        PlayerAction::StartCooldown
    }

    /// Steps the movement by one physics tick and says what to do with the cooldown timer.
    ///
    /// `reached_target` reports whether the advance of this tick reached or passed the target;
    /// `cooldown_running` reports whether the cooldown timer is above zero. Nothing happens
    /// unless the game is running.
    pub fn physics_process(
        &mut self,
        held: HeldDirections,
        reached_target: bool,
        cooldown_running: bool,
    ) -> (action: PlayerAction)
        requires
            old(self).wf(),
        ensures
            final(self).wf(),
            final(self).layout() == old(self).layout(),
            final(self).spec_game_state() == old(self).spec_game_state(),
            final(self).spec_current_game() == old(self).spec_current_game(),
            old(self).spec_game_state() != GameState::Running ==> final(self)@ == old(self)@
                && action == PlayerAction::Rest,
            old(self).spec_game_state() == GameState::Running ==> (final(self)@, action)
                == spec_tick(
                old(self)@,
                old(self).layout()@,
                held,
                reached_target,
                cooldown_running,
            ),
            final(self)@.status == PlayerStatus::Moving ==> final(self).layout()@.contains_key(
                final(self)@.target_position,
            ),
    {
        proof {
            lemma_tick_keeps_target_in_layout(
                self@,
                self.layout()@,
                held,
                reached_target,
                cooldown_running,
            );
        }
        match self.game_state {
            GameState::Running => {},
            _ => {
                return PlayerAction::Rest;
            },
        }
        let chosen = held.chosen();
        let target = self.movement.target_position;
        match self.movement.status {
            PlayerStatus::Idle => match chosen {
                Some(direction) => self.change_player_status(direction),
                None => PlayerAction::Rest,
            },
            PlayerStatus::Moving => {
                if !reached_target {
                    return PlayerAction::Rest;
                }
                match chosen {
                    Some(direction) => {
                        if direction.0 == self.movement.direction.0 && direction.1
                            == self.movement.direction.1 {
                            self.change_player_status(direction)
                        } else {
                            self.movement = Movement {
                                status: PlayerStatus::Cooling,
                                direction,
                                target_position: target,
                            };
                            PlayerAction::StartCooldown
                        }
                    },
                    None => {
                        self.movement = Movement {
                            status: PlayerStatus::Cooling,
                            direction: (0, 0),
                            target_position: target,
                        };
                        PlayerAction::StartCooldown
                    },
                }
            },
            PlayerStatus::Cooling => match chosen {
                Some(direction) => {
                    if cooldown_running {
                        self.movement = Movement {
                            status: PlayerStatus::Cooling,
                            direction,
                            target_position: target,
                        };
                        PlayerAction::RunCooldown
                    } else {
                        self.change_player_status(direction)
                    }
                },
                None => {
                    if cooldown_running {
                        PlayerAction::RunCooldown
                    } else {
                        self.movement = Movement {
                            status: PlayerStatus::Idle,
                            direction: (0, 0),
                            target_position: target,
                        };
                        PlayerAction::Rest
                    }
                },
            },
        }
    }
}

} // verus!
