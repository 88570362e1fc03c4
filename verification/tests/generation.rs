use grid_explorer::generation::{
    estimated_completion_time, generate, max_room_count, settle_delta, take_step,
};
use grid_explorer::layout::{FloorLayout, RoomType};
use grid_explorer::ratio::Ratio;
use grid_explorer::save_game::SaveGame;
use rand::rngs::SmallRng;
use rand::{Rng, SeedableRng};
use std::collections::HashMap;

fn cells_of(layout: &FloorLayout) -> Vec<(i64, i64)> {
    (0..layout.len()).map(|i| layout.entry(i).0).collect()
}

fn save(level_seed: i64, current_floor: i64, in_shop: bool, mod_shop_page: i32, money: i64) -> SaveGame {
    SaveGame { level_seed, current_floor, in_shop, mod_shop_page, money }
}

fn starting_floor() -> Vec<(i64, i64)> {
    vec![(-1, 1), (0, 1), (0, 0), (1, 0), (2, 0), (3, 0), (4, 0), (5, 0), (5, -1)]
}

/// The walk written straight against `rand`, with a hash map for the rooms.
fn walk_with_rand(save: &SaveGame) -> (HashMap<(i64, i64), RoomType>, Vec<(i64, i64)>) {
    let mut seed = Vec::new();
    seed.extend_from_slice(&save.level_seed.to_le_bytes());
    seed.extend_from_slice(&save.current_floor.to_le_bytes());
    let shop: i64 = if save.in_shop { (save.mod_shop_page as i64) + 1 } else { 0 };
    seed.extend_from_slice(&shop.to_le_bytes());
    seed.extend_from_slice(&save.money.to_le_bytes());
    let seed: [u8; 32] = seed.as_slice().try_into().unwrap();
    let mut rng = SmallRng::from_seed(seed);

    let mut rooms = HashMap::new();
    let mut order = Vec::new();
    let mut position: (i64, i64) = (0, 0);
    let max_room_count = 20 + (save.current_floor.pow(2)) + rng.random_range(-10..=10);
    for _ in 0..3 {
        let _ = rng.random_range(-1..=1);
    }
    for _ in 0..max_room_count {
        if rooms.insert(position, RoomType::Normal).is_none() {
            order.push(position);
        }
        let mut delta = (rng.random_range(-1..=1), rng.random_range(-1..=1));
        if delta.0 != 0 && delta.1 != 0 {
            if rng.random_bool(0.5) {
                delta.0 = 0;
            } else {
                delta.1 = 0;
            }
        }
        position = (position.0 + delta.0, position.1 + delta.1);
    }
    (rooms, order)
}

fn estimate_as_float(estimate: Ratio) -> f64 {
    estimate.numerator as f64 / estimate.denominator as f64
}

#[test]
fn floor_zero_is_the_fixed_starting_floor() {
    let result = generate(&save(0, 0, false, 0, 0));
    assert_eq!(cells_of(&result.layout), starting_floor());
    assert_eq!(result.layout.len(), 9);
    for cell in starting_floor() {
        assert_eq!(result.layout.get(&cell), Some(RoomType::Normal));
    }
    assert_eq!(result.estimated_completion_time, Ratio { numerator: 0, denominator: 1 });
    assert_eq!(estimate_as_float(result.estimated_completion_time), 0.0);
}

#[test]
fn floor_zero_does_not_depend_on_the_seed() {
    for level_seed in [-5i64, 0, 1, 77, i64::MAX, i64::MIN] {
        for money in [0i64, 13, -4] {
            for in_shop in [false, true] {
                let result = generate(&save(level_seed, 0, in_shop, 3, money));
                assert_eq!(cells_of(&result.layout), starting_floor());
                assert!(result.estimated_completion_time.is_zero());
            }
        }
    }
}

#[test]
fn golden_floor_one_of_a_new_game() {
    let result = generate(&save(0, 1, false, 0, 0));
    let expected: Vec<(i64, i64)> =
        vec![(0, 0), (0, -1), (-1, -1), (-1, -2), (0, -2), (0, -3), (-1, -3), (-2, -3), (-2, -4)];
    assert_eq!(cells_of(&result.layout), expected);
    assert_eq!(result.layout.len(), 9);
    assert_eq!(result.estimated_completion_time, Ratio { numerator: 63, denominator: 3 });
    assert_eq!(estimate_as_float(result.estimated_completion_time), 21.0);
}

#[test]
fn generation_is_repeatable() {
    for floor in 1..12i64 {
        let snapshot = save(991, floor, true, 2, 40);
        let first = generate(&snapshot);
        let second = generate(&snapshot);
        assert_eq!(cells_of(&first.layout), cells_of(&second.layout));
        assert_eq!(first.estimated_completion_time, second.estimated_completion_time);
    }
}

#[test]
fn generation_agrees_with_the_walk_written_against_rand() {
    for level_seed in [0i64, 1, 2, 42, -7, 123_456_789, i64::MAX, i64::MIN] {
        for floor in [1i64, 2, 3, 5, 8, 13, -1, -4] {
            for (in_shop, page, money) in [(false, 0, 0i64), (true, 0, 5), (true, 4, -3), (false, 4, 100)] {
                let snapshot = save(level_seed, floor, in_shop, page, money);
                let result = generate(&snapshot);
                let (rooms, order) = walk_with_rand(&snapshot);
                assert_eq!(cells_of(&result.layout), order);
                assert_eq!(result.layout.len(), rooms.len());
                for cell in rooms.keys() {
                    assert_eq!(result.layout.get(cell), Some(RoomType::Normal));
                }
                let level = floor.max(0) as f64;
                let expected_time = rooms.len() as f64 * ((1.0 / ((level / 2.0) + 1.0)) * 2.0 + 1.0);
                let time = estimate_as_float(result.estimated_completion_time);
                assert!((time - expected_time).abs() <= 1e-9 * expected_time.max(1.0));
            }
        }
    }
}

#[test]
fn the_seed_reaches_the_generator() {
    let base = cells_of(&generate(&save(0, 3, false, 0, 0)).layout);
    let mut differing = 0;
    for level_seed in 1..20i64 {
        if cells_of(&generate(&save(level_seed, 3, false, 0, 0)).layout) != base {
            differing += 1;
        }
    }
    assert!(differing > 0);
}

#[test]
fn every_generated_floor_holds_the_origin() {
    for level_seed in 0..25i64 {
        for floor in 1..10i64 {
            let result = generate(&save(level_seed, floor, false, 0, 0));
            assert!(result.layout.contains_key(&(0, 0)));
            assert_eq!(result.layout.entry(0).0, (0, 0));
        }
    }
}

#[test]
fn every_new_cell_touches_an_earlier_one() {
    for level_seed in 0..25i64 {
        for floor in [1i64, 4, 9] {
            let cells = cells_of(&generate(&save(level_seed, floor, true, 1, 9)).layout);
            for i in 1..cells.len() {
                let touches = cells[..i]
                    .iter()
                    .any(|c| (c.0 - cells[i].0).abs() + (c.1 - cells[i].1).abs() == 1);
                assert!(touches, "cell {:?} has no earlier neighbour", cells[i]);
            }
        }
    }
}

#[test]
fn the_room_count_stays_within_the_step_count() {
    for level_seed in 0..10i64 {
        for floor in 1..8i64 {
            let result = generate(&save(level_seed, floor, false, 0, 0));
            assert!(result.layout.len() >= 1);
            assert!(result.layout.len() as i64 <= 20 + floor * floor + 10);
        }
    }
}

#[test]
fn max_room_count_adds_the_square_of_the_floor() {
    assert_eq!(max_room_count(1, 0), 21);
    assert_eq!(max_room_count(1, -10), 11);
    assert_eq!(max_room_count(1, 10), 31);
    assert_eq!(max_room_count(7, 3), 72);
    assert_eq!(max_room_count(-3, -2), 27);
    assert_eq!(max_room_count(0, 0), 20);
    assert_eq!(max_room_count(3_037_000_499, 10), 20 + 3_037_000_499i64 * 3_037_000_499i64 + 10);
}

#[test]
fn settle_delta_never_steps_diagonally() {
    for dx in -1..=1i64 {
        for dy in -1..=1i64 {
            for coin in [false, true] {
                let delta = settle_delta(dx, dy, coin);
                assert!(delta.0 == 0 || delta.1 == 0);
                assert!(delta.0.abs() + delta.1.abs() <= 1);
                if dx == 0 || dy == 0 {
                    assert_eq!(delta, (dx, dy));
                } else if coin {
                    assert_eq!(delta, (0, dy));
                } else {
                    assert_eq!(delta, (dx, 0));
                }
            }
        }
    }
}

#[test]
fn settle_delta_on_chosen_values() {
    assert_eq!(settle_delta(1, -1, true), (0, -1));
    assert_eq!(settle_delta(1, -1, false), (1, 0));
    assert_eq!(settle_delta(-1, 1, true), (0, 1));
    assert_eq!(settle_delta(0, 1, true), (0, 1));
    assert_eq!(settle_delta(-1, 0, false), (-1, 0));
    assert_eq!(settle_delta(0, 0, true), (0, 0));
}

#[test]
fn estimated_time_is_exact() {
    assert_eq!(estimated_completion_time(12, 1), Ratio { numerator: 84, denominator: 3 });
    assert_eq!(estimated_completion_time(9, 1), Ratio { numerator: 63, denominator: 3 });
    assert_eq!(estimated_completion_time(10, 2), Ratio { numerator: 80, denominator: 4 });
    assert_eq!(estimated_completion_time(5, 0), Ratio { numerator: 30, denominator: 2 });
    assert_eq!(estimated_completion_time(5, -9), Ratio { numerator: 30, denominator: 2 });
    assert_eq!(estimated_completion_time(0, 4), Ratio { numerator: 0, denominator: 6 });
    assert_eq!(
        estimated_completion_time(usize::MAX, i64::MAX),
        Ratio {
            numerator: (usize::MAX as u128) * (i64::MAX as u128 + 6),
            denominator: i64::MAX as u128 + 2,
        }
    );
}

#[test]
fn estimated_time_follows_the_formula() {
    for rooms in [1usize, 7, 30, 1000] {
        for floor in [-2i64, 0, 1, 2, 3, 10, 99] {
            let level = floor.max(0) as f64;
            let expected = rooms as f64 * (2.0 / (level / 2.0 + 1.0) + 1.0);
            let time = estimate_as_float(estimated_completion_time(rooms, floor));
            assert!((time - expected).abs() <= 1e-9 * expected);
        }
    }
}

#[test]
fn a_walk_on_given_draws_records_each_cell_once() {
    let draws: [(i64, i64, bool); 8] = [
        (1, 0, false),
        (1, 1, true),
        (0, -1, true),
        (-1, -1, false),
        (0, 0, false),
        (-1, 0, true),
        (1, 1, false),
        (0, 1, false),
    ];
    let positions: [(i64, i64); 9] =
        [(0, 0), (1, 0), (1, 1), (1, 0), (0, 0), (0, 0), (-1, 0), (0, 0), (0, 1)];
    let mut layout = FloorLayout::new();
    let mut position = (0i64, 0i64);
    for (i, (dx, dy, coin)) in draws.iter().enumerate() {
        assert_eq!(position, positions[i]);
        position = take_step(&mut layout, position, *dx, *dy, *coin);
        assert!(layout.contains_key(&positions[i]));
    }
    assert_eq!(position, positions[8]);
    assert_eq!(cells_of(&layout), vec![(0, 0), (1, 0), (1, 1), (-1, 0)]);
    assert!(!layout.contains_key(&(0, 1)));
}

#[test]
fn a_step_records_the_cell_it_leaves() {
    let mut layout = FloorLayout::new();
    assert_eq!(take_step(&mut layout, (7, -7), -1, 1, true), (7, -6));
    assert_eq!(cells_of(&layout), vec![(7, -7)]);
    assert_eq!(take_step(&mut layout, (7, -6), -1, 1, false), (6, -6));
    assert_eq!(take_step(&mut layout, (6, -6), 0, 0, true), (6, -6));
    assert_eq!(take_step(&mut layout, (6, -6), 1, 0, true), (7, -6));
    assert_eq!(cells_of(&layout), vec![(7, -7), (7, -6), (6, -6)]);
    assert_eq!(layout.get(&(6, -6)), Some(RoomType::Normal));
}
