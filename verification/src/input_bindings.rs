//! Logical input actions and the names under which the host engine knows them.

use vstd::prelude::*;

verus! {

/// A logical input action of the game.
#[derive(Clone, Copy, Debug, PartialEq, Eq, Structural)]
pub enum InputBindings {
    PlayerMoveUp,
    PlayerMoveDown,
    PlayerMoveLeft,
    PlayerMoveRight,
    GamePause,
}

impl InputBindings {
    /// The action name of a binding.
    pub open spec fn spec_action_str(self) -> &'static str {
        match self {
            InputBindings::PlayerMoveUp => "player_move_up",
            InputBindings::PlayerMoveDown => "player_move_down",
            InputBindings::PlayerMoveLeft => "player_move_left",
            InputBindings::PlayerMoveRight => "player_move_right",
            InputBindings::GamePause => "game_pause",
        }
    }

    /// The action name of a binding, as a sequence of characters.
    pub open spec fn spec_action_name(self) -> Seq<char> {
        self.spec_action_str()@
    }

    /// Returns the action name that the input map uses for this binding.
    pub fn action_name(self) -> (name: &'static str)
        ensures
            name == self.spec_action_str(),
            name@ == self.spec_action_name(),
    {
        match self {
            InputBindings::PlayerMoveUp => "player_move_up",
            InputBindings::PlayerMoveDown => "player_move_down",
            InputBindings::PlayerMoveLeft => "player_move_left",
            InputBindings::PlayerMoveRight => "player_move_right",
            InputBindings::GamePause => "game_pause",
        }
    }
}

impl From<InputBindings> for &'static str {
    /// Converts a binding into its action name.
    fn from(binding: InputBindings) -> (name: &'static str) {
        binding.action_name()
    }
}

impl vstd::std_specs::convert::FromSpecImpl<InputBindings> for &'static str {
    open spec fn obeys_from_spec() -> bool {
        true
    }

    open spec fn from_spec(binding: InputBindings) -> &'static str {
        binding.spec_action_str()
    }
}

} // verus!
