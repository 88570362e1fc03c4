//! Floor generation: a seeded random walk over the grid.

use crate::layout::{FloorLayout, RoomType};
use crate::ratio::Ratio;
use crate::rng::{
    discard_short_draw, draw_in_range, draw_ratio, generator_state, range_draw, ratio_draw,
    seeded_generator, seeded_state, state_after_short_draw,
};
use crate::save_game::SaveGame;
use rand::rngs::SmallRng;
use vstd::prelude::*;

verus! {

/// What one generation request produces.
pub struct GenerationResult {
    pub layout: FloorLayout,
    pub estimated_completion_time: Ratio,
}

/// A cell with its coordinates as mathematical integers.
pub open spec fn int_cell(cell: (i64, i64)) -> (int, int) {
    (cell.0 as int, cell.1 as int)
}

/// A sequence of cells with their coordinates as mathematical integers.
pub open spec fn int_cells(cells: Seq<(i64, i64)>) -> Seq<(int, int)> {
    cells.map_values(|cell: (i64, i64)| int_cell(cell))
}

/// Two cells are adjacent when they differ by one unit along exactly one axis.
pub open spec fn adjacent(a: (i64, i64), b: (i64, i64)) -> bool {
    ||| a.0 == b.0 && (a.1 - b.1 == 1 || b.1 - a.1 == 1)
    ||| a.1 == b.1 && (a.0 - b.0 == 1 || b.0 - a.0 == 1)
}

/// `cell` is the cell at `position` of `cells` or adjacent to it.
pub open spec fn reaches(cells: Seq<(i64, i64)>, position: int, cell: (i64, i64)) -> bool {
    0 <= position < cells.len() && (cells[position] == cell || adjacent(cells[position], cell))
}

/// `cell` has a neighbour among the first `count` cells.
pub open spec fn has_earlier_neighbour(cells: Seq<(i64, i64)>, count: int, cell: (i64, i64)) -> bool {
    exists|j: int| 0 <= j < count && j < cells.len() && #[trigger] adjacent(cells[j], cell)
}

/// Every cell but the first is adjacent to a cell that comes before it: the cells can be
/// walked in order without a diagonal step and without a jump.
pub open spec fn grown_by_steps(cells: Seq<(i64, i64)>) -> bool {
    forall|i: int| 0 < i < cells.len() ==> #[trigger] has_earlier_neighbour(cells, i, cells[i])
}

/// The cells of floor zero, in the order in which they are laid out.
pub open spec fn starting_floor() -> Seq<(int, int)> {
    seq![(-1, 1), (0, 1), (0, 0), (1, 0), (2, 0), (3, 0), (4, 0), (5, 0), (5, -1)]
}

/// The number of steps of the walk on a floor, for a drawn `jitter`.
pub open spec fn spec_max_room_count(floor: int, jitter: int) -> int {
    20 + floor * floor + jitter
}

/// The step that the walk takes for two drawn axis moves: where both are non-zero, the coin
/// clears the horizontal move when it shows `true` and the vertical move when it shows `false`.
pub open spec fn spec_settle_delta(dx: int, dy: int, coin: bool) -> (int, int) {
    if dx != 0 && dy != 0 {
        if coin {
            (0, dy)
        } else {
            (dx, 0)
        }
    } else {
        (dx, dy)
    }
}

/// The cells that a walk of `steps` steps adds to `visited`, in the order of their first
/// visit, when it starts on `position` with the generator in `state`. Each step records the
/// current cell, draws a move for each axis from -1..=1, flips a coin only if both moves are
/// non-zero, and moves on.
pub open spec fn spec_walk(
    state: Seq<u64>,
    position: (int, int),
    steps: nat,
    visited: Seq<(int, int)>,
) -> Seq<(int, int)>
    decreases steps,
{
    if steps == 0 {
        visited
    } else {
        let visited = if visited.contains(position) {
            visited
        } else {
            visited.push(position)
        };
        let (dx, after_dx) = range_draw(state, -1, 1);
        let (dy, after_dy) = range_draw(after_dx, -1, 1);
        let (coin, after_coin) = ratio_draw(after_dy, 1, 2);
        let delta = spec_settle_delta(dx, dy, coin);
        let after = if dx != 0 && dy != 0 {
            after_coin
        } else {
            after_dy
        };
        spec_walk(
            after,
            (position.0 + delta.0, position.1 + delta.1),
            (steps - 1) as nat,
            visited,
        )
    }
}

/// The state of the generator when the walk begins: seeded, one draw for the jitter taken, and
/// three short draws discarded.
pub open spec fn spec_walk_state(seed: Seq<u8>) -> Seq<u64> {
    let after_jitter = range_draw(seeded_state(seed), -10, 10).1;
    state_after_short_draw(
        state_after_short_draw(state_after_short_draw(after_jitter, -1, 1), -1, 1),
        -1,
        1,
    )
}

/// The jitter that is drawn for a seed.
pub open spec fn spec_jitter(seed: Seq<u8>) -> int {
    range_draw(seeded_state(seed), -10, 10).0
}

/// The cells of the floor that a snapshot generates, in the order of their first visit.
pub open spec fn spec_floor_cells(save_game: SaveGame) -> Seq<(int, int)> {
    if save_game.current_floor == 0 {
        starting_floor()
    } else {
        let seed = save_game.spec_rng_seed();
        let steps = spec_max_room_count(save_game.current_floor as int, spec_jitter(seed));
        spec_walk(
            spec_walk_state(seed),
            (0, 0),
            if steps > 0 {
                steps as nat
            } else {
                0
            },
            Seq::empty(),
        )
    }
}

/// The estimated completion time of a floor with `room_count` rooms, in seconds: each room
/// counts for `2 / (f / 2 + 1) + 1` seconds, where `f` is the floor or zero if the floor is
/// negative. That is `(f + 6) / (f + 2)` for each room.
pub open spec fn spec_estimated_time(room_count: nat, floor: int) -> Ratio {
    let level = if floor > 0 {
        floor
    } else {
        0
    };
    Ratio {
        numerator: (room_count * (level + 6)) as u128,
        denominator: (level + 2) as u128,
    }
}

/// The estimated completion time of the floor that a snapshot generates: zero on floor zero.
pub open spec fn spec_floor_estimate(save_game: SaveGame) -> Ratio {
    if save_game.current_floor == 0 {
        Ratio { numerator: 0, denominator: 1 }
    } else {
        spec_estimated_time(spec_floor_cells(save_game).len(), save_game.current_floor as int)
    }
}

/// `result` is what generation makes of a snapshot: the cells of its floor in the order of
/// their first visit, and the estimate for that floor.
pub open spec fn is_generation_of(result: GenerationResult, save_game: SaveGame) -> bool {
    &&& result.layout.wf()
    &&& int_cells(result.layout.order()) == spec_floor_cells(save_game)
    &&& result.estimated_completion_time == spec_floor_estimate(save_game)
}

/// Floor zero is the fixed starting floor with an estimated time of zero, whatever the other
/// fields of the snapshot hold.
pub proof fn lemma_floor_zero_is_fixed(save_game: SaveGame)
    requires
        save_game.current_floor == 0,
    ensures
        spec_floor_cells(save_game) == starting_floor(),
        spec_floor_cells(save_game).len() == 9,
        spec_floor_estimate(save_game) == (Ratio { numerator: 0, denominator: 1 }),
{
}

/// Generation is repeatable: two results for one snapshot hold the same cells in the same
/// order, the same rooms on them, and the same estimated time.
pub proof fn lemma_generation_is_repeatable(
    save_game: SaveGame,
    first: GenerationResult,
    second: GenerationResult,
)
    requires
        is_generation_of(first, save_game),
        is_generation_of(second, save_game),
    ensures
        first.layout.order() == second.layout.order(),
        first.layout@ == second.layout@,
        first.estimated_completion_time == second.estimated_completion_time,
{
    let a = first.layout.order();
    let b = second.layout.order();
    assert(a.len() == int_cells(a).len());
    assert(b.len() == int_cells(b).len());
    assert forall|i: int| 0 <= i < a.len() implies a[i] == b[i] by {
        assert(int_cells(a)[i] == int_cell(a[i]));
        assert(int_cells(b)[i] == int_cell(b[i]));
    }
    assert(a =~= b);
    first.layout.lemma_order_lists_cells();
    second.layout.lemma_order_lists_cells();
    assert(first.layout@.dom() =~= second.layout@.dom());
    assert forall|cell: (i64, i64)| first.layout@.dom().contains(cell) implies first.layout@[cell]
        == second.layout@[cell] by {
        assert(first.layout@[cell] is Normal);
        assert(second.layout@[cell] is Normal);
    }
    assert(first.layout@ =~= second.layout@);
}

/// Generation depends on the snapshot only through the floor and the seed bytes.
pub proof fn lemma_generation_depends_on_floor_and_seed(first: SaveGame, second: SaveGame)
    requires
        first.current_floor == second.current_floor,
        first.spec_rng_seed() == second.spec_rng_seed(),
    ensures
        spec_floor_cells(first) == spec_floor_cells(second),
        spec_floor_estimate(first) == spec_floor_estimate(second),
{
}

/// The floors that can be generated: the number of steps has to fit in 64 bits.
pub open spec fn floor_in_range(floor: i64) -> bool {
    floor * floor <= i64::MAX - 30
}

/// Computes the number of steps of the walk.
pub fn max_room_count(floor: i64, jitter: i64) -> (count: i64)
    requires
        floor_in_range(floor),
        -10 <= jitter <= 10,
    ensures
        count == spec_max_room_count(floor as int, jitter as int),
{
    assert(0 <= floor * floor) by (nonlinear_arith);
    20 + floor * floor + jitter
}

/// Settles the step of the walk from the two drawn axis moves and the coin.
pub fn settle_delta(dx: i64, dy: i64, coin: bool) -> (delta: (i64, i64))
    ensures
        int_cell(delta) == spec_settle_delta(dx as int, dy as int, coin),
        delta.0 == 0 || delta.1 == 0,
        -1 <= dx <= 1 && -1 <= dy <= 1 ==> -1 <= delta.0 <= 1 && -1 <= delta.1 <= 1,
{
    if dx != 0 && dy != 0 {
        if coin {
            (0, dy)
        } else {
            (dx, 0)
        }
    } else {
        (dx, dy)
    }
}

/// No step of the walk is diagonal: a settled step leaves one axis alone and moves by at most
/// one unit along the other.
pub proof fn lemma_settled_step_keeps_to_one_axis(dx: int, dy: int, coin: bool)
    requires
        -1 <= dx <= 1,
        -1 <= dy <= 1,
    ensures
        ({
            let delta = spec_settle_delta(dx, dy, coin);
            ||| delta.0 == 0 && -1 <= delta.1 <= 1
            ||| delta.1 == 0 && -1 <= delta.0 <= 1
        }),
{
}

/// The cells visited so far after `position` was recorded.
pub open spec fn spec_record(visited: Seq<(i64, i64)>, position: (i64, i64)) -> Seq<(i64, i64)> {
    if visited.contains(position) {
        visited
    } else {
        visited.push(position)
    }
}

/// Takes one step of the walk: records a normal room on `position` and returns the position
/// that the settled step leads to.
pub fn take_step(layout: &mut FloorLayout, position: (i64, i64), dx: i64, dy: i64, coin: bool) -> (next: (i64, i64))
    requires
        old(layout).wf(),
        -1 <= dx <= 1,
        -1 <= dy <= 1,
        i64::MIN < position.0 < i64::MAX,
        i64::MIN < position.1 < i64::MAX,
    ensures
        final(layout).wf(),
        final(layout)@ == old(layout)@.insert(position, RoomType::Normal),
        final(layout).order() == spec_record(old(layout).order(), position),
        int_cell(next) == (
            position.0 + spec_settle_delta(dx as int, dy as int, coin).0,
            position.1 + spec_settle_delta(dx as int, dy as int, coin).1,
        ),
        next == position || adjacent(position, next),
{
    proof {
        layout.lemma_order_lists_cells();
    }
    layout.insert(position, RoomType::Normal);
    let delta = settle_delta(dx, dy, coin);
    (position.0 + delta.0, position.1 + delta.1)
}

/// Computes the estimated completion time of a floor from its number of rooms.
pub fn estimated_completion_time(room_count: usize, floor: i64) -> (estimate: Ratio)
    ensures
        estimate == spec_estimated_time(room_count as nat, floor as int),
        estimate.wf(),
{
    let level: u128 = if floor > 0 {
        floor as u128
    } else {
        0
    };
    assert(room_count * (level + 6) <= 0xffff_ffff_ffff_ffff * 0x8000_0000_0000_0005)
        by (nonlinear_arith)
        requires
            0 <= room_count <= 0xffff_ffff_ffff_ffff,
            0 <= level + 6 <= 0x8000_0000_0000_0005,
    ;
    Ratio { numerator: (room_count as u128) * (level + 6), denominator: level + 2 }
}


proof fn lemma_int_cells_contains(cells: Seq<(i64, i64)>, cell: (i64, i64))
    ensures
        int_cells(cells).contains(int_cell(cell)) <==> cells.contains(cell),
{
    if int_cells(cells).contains(int_cell(cell)) {
        let i = choose|i: int| 0 <= i < int_cells(cells).len() && int_cells(cells)[i] == int_cell(cell);
        assert(cells[i] == cell);
    }
    if cells.contains(cell) {
        let i = choose|i: int| 0 <= i < cells.len() && cells[i] == cell;
        assert(int_cells(cells)[i] == int_cell(cell));
    }
}

/// Builds the layout of floor zero.
fn build_starting_floor() -> (layout: FloorLayout)
    ensures
        layout.wf(),
        int_cells(layout.order()) == starting_floor(),
        layout@.contains_key((0, 0)),
        grown_by_steps(layout.order()),
{
    let mut layout = FloorLayout::new();
    layout.insert((-1, 1), RoomType::Normal);
    layout.insert((0, 1), RoomType::Normal);
    layout.insert((0, 0), RoomType::Normal);
    layout.insert((1, 0), RoomType::Normal);
    layout.insert((2, 0), RoomType::Normal);
    layout.insert((3, 0), RoomType::Normal);
    layout.insert((4, 0), RoomType::Normal);
    layout.insert((5, 0), RoomType::Normal);
    layout.insert((5, -1), RoomType::Normal);
    proof {
        let cells = layout.order();
        assert(cells =~= seq![
            (-1i64, 1i64),
            (0i64, 1i64),
            (0i64, 0i64),
            (1i64, 0i64),
            (2i64, 0i64),
            (3i64, 0i64),
            (4i64, 0i64),
            (5i64, 0i64),
            (5i64, -1i64),
        ]);
        assert(int_cells(cells) =~= starting_floor());
        assert forall|i: int| 0 < i < cells.len() implies #[trigger] has_earlier_neighbour(
            cells,
            i,
            cells[i],
        ) by {
            assert(adjacent(cells[i - 1], cells[i]));
        }
    }
    layout
}

/// Generates the floor of a snapshot.
///
/// Floor zero is the fixed starting floor, whatever the seed, with an estimated time of zero.
/// Every other floor is a random walk from the origin: the generator is seeded from the
/// snapshot, the jitter of the step count is drawn, three short draws are discarded, and then
/// each step records the current cell and moves by at most one unit along one axis.
pub fn generate(save_game: &SaveGame) -> (result: GenerationResult)
    requires
        floor_in_range(save_game.current_floor),
    ensures
        is_generation_of(result, *save_game),
        save_game.current_floor == 0 ==> int_cells(result.layout.order()) == starting_floor()
            && result.estimated_completion_time == (Ratio { numerator: 0, denominator: 1 }),
        result.layout.order().len() == spec_floor_cells(*save_game).len(),
        result.estimated_completion_time.wf(),
        result.layout@.contains_key((0, 0)),
        grown_by_steps(result.layout.order()),
{
    let seed = save_game.get_rng_seed();
    let mut rng: SmallRng = seeded_generator(seed);
    if save_game.current_floor == 0 {
        return GenerationResult {
            layout: build_starting_floor(),
            estimated_completion_time: Ratio::zero(),
        };
    }
    let jitter = draw_in_range(&mut rng, -10, 10);
    let max_steps = max_room_count(save_game.current_floor, jitter);
    assert(max_steps >= 10) by (nonlinear_arith)
        requires
            max_steps == 20 + save_game.current_floor * save_game.current_floor + jitter,
            jitter >= -10,
    ;
    discard_short_draw(&mut rng, -1, 1);
    discard_short_draw(&mut rng, -1, 1);
    discard_short_draw(&mut rng, -1, 1);

    let ghost start = generator_state(rng);
    let mut layout = FloorLayout::new();
    let mut position: (i64, i64) = (0, 0);
    let mut step: i64 = 0;
    assert(int_cells(layout.order()) =~= Seq::<(int, int)>::empty());
    while step < max_steps
        invariant
            0 <= step <= max_steps,
            layout.wf(),
            -step <= position.0 <= step,
            -step <= position.1 <= step,
            spec_walk(
                generator_state(rng),
                int_cell(position),
                (max_steps - step) as nat,
                int_cells(layout.order()),
            ) == spec_walk(start, (0, 0), max_steps as nat, Seq::empty()),
            step > 0 ==> layout@.contains_key((0, 0)),
            step == 0 ==> position == (0i64, 0i64) && layout.order().len() == 0,
            grown_by_steps(layout.order()),
            layout.order().len() > 0 ==> exists|j: int| #[trigger] reaches(layout.order(), j, position),
        decreases max_steps - step,
    {
        let ghost cells_before = layout.order();
        proof {
            layout.lemma_order_lists_cells();
            lemma_int_cells_contains(cells_before, position);
        }
        let dx = draw_in_range(&mut rng, -1, 1);
        let dy = draw_in_range(&mut rng, -1, 1);
        let coin = if dx != 0 && dy != 0 {
            draw_ratio(&mut rng, 1, 2)
        } else {
            false
        };
        let ghost here = position;
        position = take_step(&mut layout, position, dx, dy, coin);
        let ghost cells = layout.order();
        proof {
            layout.lemma_order_lists_cells();
            if cells_before.contains(here) {
                assert(cells == cells_before);
            } else {
                assert(int_cells(cells) =~= int_cells(cells_before).push(int_cell(here)));
                let last = cells_before.len() as int;
                assert forall|i: int| 0 < i < cells.len() implies #[trigger] has_earlier_neighbour(
                    cells,
                    i,
                    cells[i],
                ) by {
                    if i < last {
                        assert(has_earlier_neighbour(cells_before, i, cells_before[i]));
                        let j = choose|j: int|
                            0 <= j < i && j < cells_before.len() && #[trigger] adjacent(
                                cells_before[j],
                                cells_before[i],
                            );
                        assert(adjacent(cells[j], cells[i]));
                    } else {
                        let j = choose|j: int| #[trigger] reaches(cells_before, j, here);
                        assert(cells_before[j] != here);
                        assert(adjacent(cells[j], cells[i]));
                    }
                }
            }
            assert(cells.to_set().contains(here));
        }
        step += 1;
        proof {
            let k = choose|k: int| 0 <= k < cells.len() && cells[k] == here;
            assert(reaches(cells, k, position));
        }
    }
    let estimated_completion_time = estimated_completion_time(
        layout.len(),
        save_game.current_floor,
    );
    GenerationResult { layout, estimated_completion_time }
}

} // verus!
