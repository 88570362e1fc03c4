//! What the player has seen of one room.
//!
//! A room is seen in seven parts: its centre, its pair of horizontal corridors, its pair of
//! vertical corridors and its four quadrants. The caller compares the player's world position
//! with the room's and reports the outcome as a [`Sighting`]; the room decides which parts that
//! reveals.

use crate::save_game::SaveGame;
use vstd::prelude::*;

verus! {

/// Where the player stands along one axis, measured against the room's extent on that axis.
#[derive(Clone, Copy, Debug, PartialEq, Eq, Structural)]
pub enum Side {
    /// Before the room's low edge.
    Low,
    /// Strictly between the room's edges.
    Inside,
    /// Beyond the room's high edge.
    High,
    /// Exactly on an edge, or nowhere that compares.
    Edge,
}

/// The lateral region of a room that the player stands in.
#[derive(Clone, Copy, Debug, PartialEq, Eq, Structural)]
pub enum Region {
    /// Left of the room, level with it.
    Left,
    /// In the room's column, on the low side of the vertical axis.
    Top,
    /// Inside the room.
    Center,
    /// In the room's column, on the high side of the vertical axis.
    Bottom,
    /// Right of the room, level with it.
    Right,
    /// In none of the five regions.
    Outside,
}

/// How the player's position compares with a room's.
#[derive(Clone, Copy, Debug, PartialEq, Eq, Structural)]
pub struct Sighting {
    /// The player is no farther from the room's centre than the view distance plus half the
    /// room's extent.
    pub in_view: bool,
    /// The player is less than one grid unit from the room's centre.
    pub nearby: bool,
    /// The player's vertical offset lies within the narrow band around the room's centre line.
    pub on_row: bool,
    /// The player's horizontal offset lies within the narrow band around the room's centre
    /// line.
    pub on_column: bool,
    /// Where the player stands along the horizontal axis.
    pub horizontal: Side,
    /// Where the player stands along the vertical axis.
    pub vertical: Side,
}

/// The seven parts of a room, each seen or not.
#[derive(Clone, Copy, Debug, PartialEq, Eq, Structural)]
pub struct Visibility {
    pub horizontal_corridors: bool,
    pub vertical_corridors: bool,
    pub center: bool,
    pub top_left: bool,
    pub top_right: bool,
    pub bottom_left: bool,
    pub bottom_right: bool,
}

/// On which sides a room has a neighbour, and so a corridor.
#[derive(Clone, Copy, Debug, PartialEq, Eq, Structural)]
pub struct Corridors {
    pub left: bool,
    pub right: bool,
    pub top: bool,
    pub bottom: bool,
}

/// A room of which nothing was seen.
pub open spec fn unseen() -> Visibility {
    Visibility {
        horizontal_corridors: false,
        vertical_corridors: false,
        center: false,
        top_left: false,
        top_right: false,
        bottom_left: false,
        bottom_right: false,
    }
}

/// All seven parts were seen.
pub open spec fn all_seen(seen: Visibility) -> bool {
    &&& seen.horizontal_corridors
    &&& seen.vertical_corridors
    &&& seen.center
    &&& seen.top_left
    &&& seen.top_right
    &&& seen.bottom_left
    &&& seen.bottom_right
}

/// Every part that was seen in `before` is seen in `after`.
pub open spec fn keeps_seen(before: Visibility, after: Visibility) -> bool {
    &&& before.horizontal_corridors ==> after.horizontal_corridors
    &&& before.vertical_corridors ==> after.vertical_corridors
    &&& before.center ==> after.center
    &&& before.top_left ==> after.top_left
    &&& before.top_right ==> after.top_right
    &&& before.bottom_left ==> after.bottom_left
    &&& before.bottom_right ==> after.bottom_right
}

/// The worth of a part in hundredths, if it was seen.
pub open spec fn part(seen: bool, hundredths: int) -> int {
    if seen {
        hundredths
    } else {
        0
    }
}

/// The seen progress of a room in hundredths: 25 for each pair of corridors, 30 for the
/// centre and 5 for each quadrant.
pub open spec fn spec_seen_progress(seen: Visibility) -> int {
    part(seen.horizontal_corridors, 25) + part(seen.vertical_corridors, 25) + part(seen.center, 30)
        + part(seen.top_left, 5) + part(seen.top_right, 5) + part(seen.bottom_left, 5) + part(
        seen.bottom_right,
        5,
    )
}

/// The region that the player stands in.
pub open spec fn spec_region(horizontal: Side, vertical: Side) -> Region {
    match (horizontal, vertical) {
        (Side::Low, Side::Inside) => Region::Left,
        (Side::Inside, Side::Low) => Region::Top,
        (Side::Inside, Side::Inside) => Region::Center,
        (Side::Inside, Side::High) => Region::Bottom,
        (Side::High, Side::Inside) => Region::Right,
        _ => Region::Outside,
    }
}

/// What the player sees from the centre lines: on the room's row, the horizontal corridors and
/// the centre; on the room's column, the vertical corridors and the centre.
pub open spec fn spec_see_along_lines(seen: Visibility, on_row: bool, on_column: bool) -> Visibility {
    Visibility {
        horizontal_corridors: seen.horizontal_corridors || on_row,
        vertical_corridors: seen.vertical_corridors || on_column,
        center: seen.center || on_row || on_column,
        ..seen
    }
}

/// The quadrants that the player sees from a region: from the left both right quadrants, from
/// the top both top quadrants, from the centre all four, from the bottom both bottom
/// quadrants, from the right both left quadrants.
pub open spec fn spec_see_quadrants(seen: Visibility, region: Region) -> Visibility {
    Visibility {
        top_left: seen.top_left || region == Region::Top || region == Region::Center || region
            == Region::Right,
        top_right: seen.top_right || region == Region::Left || region == Region::Top || region
            == Region::Center,
        bottom_left: seen.bottom_left || region == Region::Center || region == Region::Bottom
            || region == Region::Right,
        bottom_right: seen.bottom_right || region == Region::Left || region == Region::Center
            || region == Region::Bottom,
        ..seen
    }
}

/// The corridors that a nearby player sees from a region: from the left and the right the
/// vertical corridors, from the top and the bottom the horizontal corridors, from the centre
/// both pairs.
pub open spec fn spec_see_corridors_nearby(seen: Visibility, region: Region) -> Visibility {
    Visibility {
        horizontal_corridors: seen.horizontal_corridors || region == Region::Top || region
            == Region::Center || region == Region::Bottom,
        vertical_corridors: seen.vertical_corridors || region == Region::Left || region
            == Region::Center || region == Region::Right,
        ..seen
    }
}

/// What a room in view shows of itself to one sighting.
pub open spec fn spec_observe(seen: Visibility, sighting: Sighting) -> Visibility {
    let region = spec_region(sighting.horizontal, sighting.vertical);
    let lines = spec_see_along_lines(seen, sighting.on_row, sighting.on_column);
    let quadrants = spec_see_quadrants(lines, region);
    if sighting.nearby {
        spec_see_corridors_nearby(quadrants, region)
    } else {
        quadrants
    }
}

/// What one physics tick makes of what was seen: nothing changes once the room is completely
/// seen, or while it is out of view.
pub open spec fn spec_tick_seen(seen: Visibility, sighting: Sighting) -> Visibility {
    if all_seen(seen) || !sighting.in_view {
        seen
    } else {
        spec_observe(seen, sighting)
    }
}

/// Seen progress lies between zero and one hundred hundredths, and is one hundred exactly when
/// all seven parts were seen.
pub proof fn lemma_progress_is_full_iff_all_seen(seen: Visibility)
    ensures
        0 <= spec_seen_progress(seen) <= 100,
        spec_seen_progress(seen) == 100 <==> all_seen(seen),
{
}

/// Seeing more never lowers the progress.
pub proof fn lemma_progress_is_monotonic(before: Visibility, after: Visibility)
    requires
        keeps_seen(before, after),
    ensures
        spec_seen_progress(before) <= spec_seen_progress(after),
{
}

/// A physics tick never takes back what was seen, so it never lowers the progress.
pub proof fn lemma_tick_never_hides(seen: Visibility, sighting: Sighting)
    ensures
        keeps_seen(seen, spec_tick_seen(seen, sighting)),
        spec_seen_progress(seen) <= spec_seen_progress(spec_tick_seen(seen, sighting)),
{
    lemma_progress_is_monotonic(seen, spec_tick_seen(seen, sighting));
}

/// Finds the region that the player stands in.
pub fn region(horizontal: Side, vertical: Side) -> (region: Region)
    ensures
        region == spec_region(horizontal, vertical),
{
    match horizontal {
        Side::Low => match vertical {
            Side::Inside => Region::Left,
            _ => Region::Outside,
        },
        Side::Inside => match vertical {
            Side::Low => Region::Top,
            Side::Inside => Region::Center,
            Side::High => Region::Bottom,
            Side::Edge => Region::Outside,
        },
        Side::High => match vertical {
            Side::Inside => Region::Right,
            _ => Region::Outside,
        },
        Side::Edge => Region::Outside,
    }
}

/// Marks what the player sees from the centre lines.
pub fn see_along_lines(seen: Visibility, on_row: bool, on_column: bool) -> (marked: Visibility)
    ensures
        marked == spec_see_along_lines(seen, on_row, on_column),
{
    let mut marked = seen;
    if on_row {
        marked.horizontal_corridors = true;
        marked.center = true;
    }
    if on_column {
        marked.vertical_corridors = true;
        marked.center = true;
    }
    marked
}

/// Marks the quadrants that the player sees from a region.
pub fn see_quadrants(seen: Visibility, region: Region) -> (marked: Visibility)
    ensures
        marked == spec_see_quadrants(seen, region),
{
    let mut marked = seen;
    match region {
        Region::Left => {
            marked.top_right = true;
            marked.bottom_right = true;
        },
        Region::Top => {
            marked.top_left = true;
            marked.top_right = true;
        },
        Region::Center => {
            marked.top_left = true;
            marked.top_right = true;
            marked.bottom_left = true;
            marked.bottom_right = true;
        },
        Region::Bottom => {
            marked.bottom_left = true;
            marked.bottom_right = true;
        },
        Region::Right => {
            marked.top_left = true;
            marked.bottom_left = true;
        },
        Region::Outside => {},
    }
    marked
}

/// Marks the corridors that a nearby player sees from a region.
pub fn see_corridors_nearby(seen: Visibility, region: Region) -> (marked: Visibility)
    ensures
        marked == spec_see_corridors_nearby(seen, region),
{
    let mut marked = seen;
    match region {
        Region::Left => {
            marked.vertical_corridors = true;
        },
        Region::Top => {
            marked.horizontal_corridors = true;
        },
        Region::Center => {
            marked.vertical_corridors = true;
            marked.horizontal_corridors = true;
        },
        Region::Bottom => {
            marked.horizontal_corridors = true;
        },
        Region::Right => {
            marked.vertical_corridors = true;
        },
        Region::Outside => {},
    }
    marked
}

/// Marks all that a room in view shows of itself to one sighting.
pub fn observe(seen: Visibility, sighting: Sighting) -> (marked: Visibility)
    ensures
        marked == spec_observe(seen, sighting),
{
    let region = region(sighting.horizontal, sighting.vertical);
    let lines = see_along_lines(seen, sighting.on_row, sighting.on_column);
    let quadrants = see_quadrants(lines, region);
    if sighting.nearby {
        see_corridors_nearby(quadrants, region)
    } else {
        quadrants
    }
}

/// Computes the seen progress of a room in hundredths.
pub fn seen_progress_of(seen: &Visibility) -> (progress: u8)
    ensures
        progress == spec_seen_progress(*seen),
{
    let mut progress: u8 = 0;
    if seen.horizontal_corridors {
        progress += 25;
    }
    if seen.vertical_corridors {
        progress += 25;
    }
    if seen.center {
        progress += 30;
    }
    if seen.top_left {
        progress += 5;
    }
    if seen.top_right {
        progress += 5;
    }
    if seen.bottom_left {
        progress += 5;
    }
    if seen.bottom_right {
        progress += 5;
    }
    progress
}

/// One room of a floor and what the player has seen of it.
#[derive(Clone, Copy, Debug)]
pub struct Room {
    position: (i64, i64),
    corridors: Corridors,
    room_completely_revealed: bool,
    seen: Visibility,
    current_game: SaveGame,
    seen_progress: u8,
}

impl Room {
    /// The cell that the room stands on.
    pub closed spec fn spec_position(&self) -> (i64, i64) {
        self.position
    }

    /// The sides on which the room has a corridor.
    pub closed spec fn spec_corridors(&self) -> Corridors {
        self.corridors
    }

    /// The parts of the room that were seen.
    pub closed spec fn spec_seen(&self) -> Visibility {
        self.seen
    }

    /// Whether the room was marked as completely revealed.
    pub closed spec fn spec_completely_revealed(&self) -> bool {
        self.room_completely_revealed
    }

    /// The seen progress that the room holds, in hundredths.
    pub closed spec fn spec_progress(&self) -> int {
        self.seen_progress as int
    }

    /// The snapshot that the room was last given.
    pub closed spec fn spec_current_game(&self) -> SaveGame {
        self.current_game
    }

    /// The invariant of a room: its progress is the weighted sum of what was seen, and it is
    /// marked as completely revealed exactly when all seven parts were seen.
    pub open spec fn wf(&self) -> bool {
        &&& self.spec_progress() == spec_seen_progress(self.spec_seen())
        &&& self.spec_completely_revealed() == all_seen(self.spec_seen())
    }

    /// Creates an unseen room on the origin, without corridors.
    pub fn init() -> (room: Room)
        ensures
            room.wf(),
            room.spec_position() == (0i64, 0i64),
            room.spec_corridors() == (Corridors {
                left: false,
                right: false,
                top: false,
                bottom: false,
            }),
            room.spec_seen() == unseen(),
            room.spec_progress() == 0,
            room.spec_current_game() == (SaveGame {
                level_seed: 0,
                current_floor: 0,
                in_shop: false,
                mod_shop_page: 0,
                money: 0,
            }),
    {
        Room {
            position: (0, 0),
            corridors: Corridors { left: false, right: false, top: false, bottom: false },
            room_completely_revealed: false,
            seen: Visibility {
                horizontal_corridors: false,
                vertical_corridors: false,
                center: false,
                top_left: false,
                top_right: false,
                bottom_left: false,
                bottom_right: false,
            },
            current_game: SaveGame::new(0),
            seen_progress: 0,
        }
    }

    /// Puts the room on a cell.
    pub fn place(&mut self, position: (i64, i64))
        ensures
            final(self).spec_position() == position,
            final(self).spec_corridors() == old(self).spec_corridors(),
            final(self).spec_seen() == old(self).spec_seen(),
            final(self).spec_completely_revealed() == old(self).spec_completely_revealed(),
            final(self).spec_progress() == old(self).spec_progress(),
            final(self).spec_current_game() == old(self).spec_current_game(),
    {
        self.position = position;
    }

    /// Forgets all that was seen of the room.
    pub fn reset(&mut self)
        ensures
            final(self).wf(),
            final(self).spec_seen() == unseen(),
            final(self).spec_progress() == 0,
            !final(self).spec_completely_revealed(),
            final(self).spec_position() == old(self).spec_position(),
            final(self).spec_corridors() == old(self).spec_corridors(),
            final(self).spec_current_game() == old(self).spec_current_game(),
    {
        self.room_completely_revealed = false;
        self.seen = Visibility {
            horizontal_corridors: false,
            vertical_corridors: false,
            center: false,
            top_left: false,
            top_right: false,
            bottom_left: false,
            bottom_right: false,
        };
        self.seen_progress = 0;
    }

    /// Records on which sides the room has a neighbour.
    pub fn set_corridors(&mut self, left: bool, right: bool, top: bool, bottom: bool)
        ensures
            final(self).spec_corridors() == (Corridors { left, right, top, bottom }),
            final(self).spec_position() == old(self).spec_position(),
            final(self).spec_seen() == old(self).spec_seen(),
            final(self).spec_completely_revealed() == old(self).spec_completely_revealed(),
            final(self).spec_progress() == old(self).spec_progress(),
            final(self).spec_current_game() == old(self).spec_current_game(),
    {
        self.corridors = Corridors { left, right, top, bottom };
    }

    /// Hands the room the snapshot of the game.
    pub fn set_current_game(&mut self, current_game: SaveGame)
        ensures
            final(self).spec_current_game() == current_game,
            final(self).spec_position() == old(self).spec_position(),
            final(self).spec_corridors() == old(self).spec_corridors(),
            final(self).spec_seen() == old(self).spec_seen(),
            final(self).spec_completely_revealed() == old(self).spec_completely_revealed(),
            final(self).spec_progress() == old(self).spec_progress(),
    {
        self.current_game = current_game;
    }

    /// Returns the cell that the room stands on.
    pub fn position(&self) -> (position: (i64, i64))
        ensures
            position == self.spec_position(),
    {
        self.position
    }

    /// Returns the sides on which the room has a corridor.
    pub fn corridors(&self) -> (corridors: Corridors)
        ensures
            corridors == self.spec_corridors(),
    {
        self.corridors
    }

    /// Returns the parts of the room that were seen.
    pub fn seen(&self) -> (seen: Visibility)
        ensures
            seen == self.spec_seen(),
    {
        self.seen
    }

    /// Returns the seen progress in hundredths.
    pub fn seen_progress(&self) -> (progress: u8)
        ensures
            progress == self.spec_progress(),
    {
        self.seen_progress
    }

    /// Tells whether the room is completely revealed.
    pub fn is_completely_revealed(&self) -> (revealed: bool)
        ensures
            revealed == self.spec_completely_revealed(),
    {
        self.room_completely_revealed
    }

    /// Returns the snapshot that the room was last given.
    pub fn current_game(&self) -> (save_game: SaveGame)
        ensures
            save_game == self.spec_current_game(),
    {
        self.current_game
    }

    /// Tells whether the fog of the room is to be drawn anew on this frame: while the room is
    /// in view and not yet completely revealed.
    pub fn process(&self, in_view: bool) -> (redraw: bool)
        ensures
            redraw == (in_view && !self.spec_completely_revealed()),
    {
        in_view && !self.room_completely_revealed
    }

    /// Takes one sighting of the player into account and tells whether it completed the room.
    ///
    /// A room that is completely revealed, or out of view, stays as it is. Otherwise the
    /// sighting reveals parts of the room, and the progress is computed anew.
    pub fn physics_process(&mut self, sighting: Sighting) -> (completed: bool)
        requires
            old(self).wf(),
        ensures
            final(self).wf(),
            final(self).spec_seen() == spec_tick_seen(old(self).spec_seen(), sighting),
            final(self).spec_progress() >= old(self).spec_progress(),
            final(self).spec_progress() == 100 <==> all_seen(final(self).spec_seen()),
            completed == (!old(self).spec_completely_revealed()
                && final(self).spec_completely_revealed()),
            final(self).spec_position() == old(self).spec_position(),
            final(self).spec_corridors() == old(self).spec_corridors(),
            final(self).spec_current_game() == old(self).spec_current_game(),
    {
        proof {
            lemma_tick_never_hides(self.spec_seen(), sighting);
            lemma_progress_is_full_iff_all_seen(spec_tick_seen(self.spec_seen(), sighting));
        }
        if self.room_completely_revealed || !sighting.in_view {
            return false;
        }
        let seen = observe(self.seen, sighting);
        self.seen = seen;
        self.seen_progress = seen_progress_of(&seen);
        if self.seen_progress == 100 {
            self.room_completely_revealed = true;
            true
        } else {
            false
        }
    }
}

} // verus!
