use grid_explorer::floor_manager::{FloorManager, SetupSignal, WorkerReport};
use grid_explorer::game_manager::{GameManager, GameState};
use grid_explorer::generation::generate;
use grid_explorer::player::{HeldDirections, Player, PlayerAction, PlayerStatus};
use grid_explorer::ratio::Ratio;
use grid_explorer::save_game::SaveGame;

const PHASES: [GameState; 5] =
    [GameState::Loading, GameState::WarmUp, GameState::Running, GameState::Scoring, GameState::Paused];

const HALF: Ratio = Ratio { numerator: 450, denominator: 900 };
const WHOLE: Ratio = Ratio { numerator: 900, denominator: 900 };

fn parts() -> (GameManager, Player, FloorManager) {
    (GameManager::init(), Player::init(), FloorManager::init())
}

#[test]
fn a_new_manager_is_loading() {
    let manager = GameManager::init();
    assert_eq!(manager.game_state(), GameState::Loading);
    assert_eq!(manager.current_game(), SaveGame::new(0));
    assert_eq!(manager.floor_layout().len(), 0);
    assert_eq!(manager.estimated_completion_time(), Ratio { numerator: 0, denominator: 1 });
    assert!(!manager.run_timer());
    assert_eq!(manager.process(), None);
}

#[test]
fn entering_a_phase_tells_the_player() {
    for phase in PHASES {
        let (mut manager, mut player, mut floor_manager) = parts();
        manager.change_game_state(phase, &mut player, &mut floor_manager);
        assert_eq!(manager.game_state(), phase);
        assert_eq!(player.game_state(), phase);
        assert_eq!(player.status(), PlayerStatus::Idle);
    }
}

#[test]
fn entering_the_warm_up_or_the_run_starts_the_timer() {
    for phase in PHASES {
        let (mut manager, mut player, mut floor_manager) = parts();
        manager.change_game_state(phase, &mut player, &mut floor_manager);
        assert_eq!(manager.run_timer(), phase == GameState::WarmUp || phase == GameState::Running);
        manager.change_game_state(GameState::WarmUp, &mut player, &mut floor_manager);
        assert!(manager.run_timer());
        manager.change_game_state(phase, &mut player, &mut floor_manager);
        assert!(manager.run_timer());
    }
}

#[test]
fn entering_loading_asks_for_the_floor_of_the_snapshot() {
    let (mut manager, mut player, mut floor_manager) = parts();
    let snapshot = SaveGame { level_seed: 6, current_floor: 2, in_shop: false, mod_shop_page: 0, money: 11 };
    manager.set_current_game(snapshot);
    assert_eq!(manager.current_game(), snapshot);
    assert!(manager.change_game_state(GameState::Loading, &mut player, &mut floor_manager));
    assert!(floor_manager.is_generating());
    assert!(!manager.change_game_state(GameState::Loading, &mut player, &mut floor_manager));
    assert!(floor_manager.is_generating());
    for phase in [GameState::WarmUp, GameState::Running, GameState::Scoring, GameState::Paused] {
        let (mut manager, mut player, mut floor_manager) = parts();
        assert!(!manager.change_game_state(phase, &mut player, &mut floor_manager));
        assert!(!floor_manager.is_generating());
    }
}

#[test]
fn a_frame_moves_on_when_the_timer_has_stopped() {
    let (mut manager, mut player, mut floor_manager) = parts();
    manager.change_game_state(GameState::WarmUp, &mut player, &mut floor_manager);
    assert_eq!(manager.process(), None);
    manager.physics_process(false, HALF);
    assert!(manager.run_timer());
    assert_eq!(manager.process(), None);
    manager.physics_process(true, HALF);
    assert!(!manager.run_timer());
    assert_eq!(manager.process(), Some(GameState::Running));

    manager.change_game_state(GameState::Running, &mut player, &mut floor_manager);
    assert!(manager.run_timer());
    assert_eq!(manager.process(), None);
    manager.physics_process(true, HALF);
    assert!(manager.run_timer());
    manager.physics_process(false, Ratio { numerator: 899, denominator: 900 });
    assert!(manager.run_timer());
    assert_eq!(manager.process(), None);
    manager.physics_process(false, WHOLE);
    assert!(!manager.run_timer());
    assert_eq!(manager.process(), Some(GameState::Scoring));

    manager.change_game_state(GameState::Scoring, &mut player, &mut floor_manager);
    assert_eq!(manager.process(), None);
    manager.change_game_state(GameState::Paused, &mut player, &mut floor_manager);
    assert_eq!(manager.process(), None);
    manager.change_game_state(GameState::Loading, &mut player, &mut floor_manager);
    assert_eq!(manager.process(), None);
}

#[test]
fn the_warm_up_ignores_the_floor_and_the_run_ignores_the_warm_up() {
    let (mut manager, mut player, mut floor_manager) = parts();
    manager.change_game_state(GameState::WarmUp, &mut player, &mut floor_manager);
    manager.physics_process(false, WHOLE);
    assert!(manager.run_timer());
    manager.change_game_state(GameState::Running, &mut player, &mut floor_manager);
    manager.physics_process(true, Ratio { numerator: 0, denominator: 1 });
    assert!(manager.run_timer());
    manager.change_game_state(GameState::Paused, &mut player, &mut floor_manager);
    manager.physics_process(true, WHOLE);
    assert!(manager.run_timer());
}

#[test]
fn a_stopped_timer_stays_stopped() {
    let (mut manager, mut player, mut floor_manager) = parts();
    manager.change_game_state(GameState::WarmUp, &mut player, &mut floor_manager);
    manager.physics_process(true, HALF);
    manager.physics_process(false, HALF);
    assert!(!manager.run_timer());
}

#[test]
fn the_pause_key_pauses_unless_scoring_or_paused() {
    for phase in PHASES {
        let (mut manager, mut player, mut floor_manager) = parts();
        manager.change_game_state(phase, &mut player, &mut floor_manager);
        assert!(!manager.input(false));
        assert_eq!(manager.input(true), phase != GameState::Scoring && phase != GameState::Paused);
        assert_eq!(manager.game_state(), phase);
    }
}

#[test]
fn a_floor_that_was_set_up_starts_the_warm_up() {
    let (mut manager, mut player, mut floor_manager) = parts();
    let snapshot = SaveGame { level_seed: 0, current_floor: 1, in_shop: false, mod_shop_page: 0, money: 0 };
    manager.set_current_game(snapshot);
    assert!(manager.change_game_state(GameState::Loading, &mut player, &mut floor_manager));
    let result = generate(&snapshot);
    assert_eq!(
        floor_manager.process(WorkerReport::Finished(result.layout, result.estimated_completion_time)),
        SetupSignal::Complete
    );
    manager.level_setup_complete(
        floor_manager.current_floor_layout().clone(),
        floor_manager.estimated_completion_time(),
        &mut player,
    );
    assert_eq!(manager.game_state(), GameState::WarmUp);
    assert!(manager.run_timer());
    assert_eq!(manager.floor_layout().len(), 9);
    assert_eq!(manager.estimated_completion_time(), Ratio { numerator: 63, denominator: 3 });
    assert_eq!(manager.current_game(), snapshot);
    assert_eq!(player.game_state(), GameState::WarmUp);
    assert_eq!(player.current_game(), snapshot);
    assert_eq!(player.status(), PlayerStatus::Idle);
    assert_eq!(player.target_position(), (0, 0));

    manager.change_game_state(GameState::Running, &mut player, &mut floor_manager);
    let down = HeldDirections { up: false, down: true, left: false, right: false };
    assert_eq!(player.physics_process(down, false, false), PlayerAction::Rest);
    assert_eq!(player.status(), PlayerStatus::Moving);
    assert_eq!(player.target_position(), (0, -1));
}

#[test]
fn a_failed_setup_starts_over() {
    let (mut manager, mut player, mut floor_manager) = parts();
    assert!(manager.change_game_state(GameState::Loading, &mut player, &mut floor_manager));
    assert_eq!(floor_manager.process(WorkerReport::Failed), SetupSignal::Failed);
    assert!(!floor_manager.is_generating());
    assert!(manager.level_setup_failed(&mut player, &mut floor_manager));
    assert_eq!(manager.game_state(), GameState::Loading);
    assert_eq!(player.game_state(), GameState::Loading);
    assert!(floor_manager.is_generating());
    assert_eq!(floor_manager.current_floor().len(), 0);
    assert_eq!(manager.floor_layout().len(), 0);
}
