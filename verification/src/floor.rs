//! The rooms of the loaded floor and the progress of the player over all of them.

use crate::layout::{spec_has_neighbour, FloorLayout, RoomType};
use crate::ratio::Ratio;
use crate::room::{all_seen, spec_tick_seen, unseen, Corridors, Room, Sighting};
use vstd::prelude::*;

verus! {

/// The corridors of the room on `cell`: one towards each neighbouring cell that holds a room.
/// The left and right neighbours lie one unit down and up the horizontal axis, the top and
/// bottom neighbours one unit down and up the vertical axis.
pub open spec fn spec_corridors_of(layout: Map<(i64, i64), RoomType>, cell: (i64, i64)) -> Corridors {
    Corridors {
        left: spec_has_neighbour(layout, cell, (-1i64, 0i64)),
        right: spec_has_neighbour(layout, cell, (1i64, 0i64)),
        top: spec_has_neighbour(layout, cell, (0i64, -1i64)),
        bottom: spec_has_neighbour(layout, cell, (0i64, 1i64)),
    }
}

/// The room is as it is built for `cell` of a layout: placed, with its corridors set, and with
/// nothing seen.
pub open spec fn is_fresh_room(room: Room, layout: Map<(i64, i64), RoomType>, cell: (i64, i64)) -> bool {
    &&& room.wf()
    &&& room.spec_position() == cell
    &&& room.spec_corridors() == spec_corridors_of(layout, cell)
    &&& room.spec_seen() == unseen()
    &&& room.spec_progress() == 0
    &&& !room.spec_completely_revealed()
}

/// The sum of the seen progress of the first `count` rooms, in hundredths.
pub open spec fn spec_total_progress(rooms: Seq<Room>, count: int) -> int
    decreases count,
{
    if count <= 0 {
        0
    } else {
        spec_total_progress(rooms, count - 1) + rooms[count - 1].spec_progress()
    }
}

/// The arithmetic mean of the rooms' seen progress as a fraction of one: the sum of their
/// hundredths over one hundred times their number, and zero where there is no room.
pub open spec fn spec_completion_progress(rooms: Seq<Room>) -> Ratio {
    if rooms.len() == 0 {
        Ratio { numerator: 0, denominator: 1 }
    } else {
        Ratio {
            numerator: spec_total_progress(rooms, rooms.len() as int) as u128,
            denominator: (100 * rooms.len()) as u128,
        }
    }
}

/// The progress of the first `count` rooms sums to at most one hundred each, and to exactly
/// that when all of them are completely seen.
pub proof fn lemma_total_progress_bounds(rooms: Seq<Room>, count: int)
    requires
        0 <= count <= rooms.len(),
        forall|i: int| 0 <= i < rooms.len() ==> (#[trigger] rooms[i]).wf(),
    ensures
        0 <= spec_total_progress(rooms, count) <= 100 * count,
        spec_total_progress(rooms, count) == 100 * count <==> (forall|i: int|
            0 <= i < count ==> all_seen((#[trigger] rooms[i]).spec_seen())),
    decreases count,
{
    if count > 0 {
        lemma_total_progress_bounds(rooms, count - 1);
        let last = rooms[count - 1];
        assert(last.wf());
        crate::room::lemma_progress_is_full_iff_all_seen(last.spec_seen());
        if spec_total_progress(rooms, count) == 100 * count {
            assert forall|i: int| 0 <= i < count implies all_seen(
                (#[trigger] rooms[i]).spec_seen(),
            ) by {
                if i == count - 1 {
                } else {
                }
            }
        }
    }
}

/// A floor with rooms is complete, its progress a whole one, exactly when every room is
/// completely seen; a floor without rooms has no progress.
pub proof fn lemma_complete_iff_all_rooms_seen(rooms: Seq<Room>)
    requires
        forall|i: int| 0 <= i < rooms.len() ==> (#[trigger] rooms[i]).wf(),
        100 * rooms.len() <= u128::MAX,
    ensures
        spec_completion_progress(rooms).wf(),
        spec_completion_progress(rooms).numerator <= spec_completion_progress(rooms).denominator,
        rooms.len() == 0 ==> spec_completion_progress(rooms).numerator == 0,
        rooms.len() > 0 ==> (spec_completion_progress(rooms).numerator == spec_completion_progress(
            rooms,
        ).denominator <==> (forall|i: int|
            0 <= i < rooms.len() ==> all_seen((#[trigger] rooms[i]).spec_seen()))),
{
    lemma_total_progress_bounds(rooms, rooms.len() as int);
}

/// The rooms of the loaded floor, in the order of the layout they were built from.
pub struct Floor {
    floor_objects: Vec<Room>,
}

impl View for Floor {
    type V = Seq<Room>;

    /// The rooms of the floor.
    closed spec fn view(&self) -> Seq<Room> {
        self.floor_objects@
    }
}

impl Floor {
    /// The invariant of a floor: each of its rooms is well formed.
    pub open spec fn wf(&self) -> bool {
        forall|i: int| 0 <= i < self@.len() ==> (#[trigger] self@[i]).wf()
    }

    /// Creates a floor without rooms.
    pub fn init() -> (floor: Floor)
        ensures
            floor.wf(),
            floor@.len() == 0,
    {
        Floor { floor_objects: Vec::new() }
    }

    /// Replaces the rooms of the floor by fresh rooms for the cells of `layout`, in the order
    /// of the layout.
    pub fn load_floor(&mut self, layout: &FloorLayout)
        requires
            layout.wf(),
        ensures
            final(self).wf(),
            final(self)@.len() == layout.order().len(),
            forall|i: int|
                0 <= i < layout.order().len() ==> is_fresh_room(
                    #[trigger] final(self)@[i],
                    layout@,
                    layout.order()[i],
                ),
    {
        let mut rooms: Vec<Room> = Vec::new();
        let count = layout.len();
        let mut i: usize = 0;
        while i < count
            invariant
                layout.wf(),
                count == layout.order().len(),
                i <= count,
                rooms@.len() == i,
                forall|j: int|
                    0 <= j < i ==> is_fresh_room(#[trigger] rooms@[j], layout@, layout.order()[j]),
            decreases count - i,
        {
            let (cell, room_type) = layout.entry(i);
            match room_type {
                RoomType::Normal => {
                    let mut room = Room::init();
                    room.place(cell);
                    let has_room_left = layout.has_neighbour(cell, (-1, 0));
                    let has_room_right = layout.has_neighbour(cell, (1, 0));
                    let has_room_top = layout.has_neighbour(cell, (0, -1));
                    let has_room_bottom = layout.has_neighbour(cell, (0, 1));
                    room.set_corridors(has_room_left, has_room_right, has_room_top, has_room_bottom);
                    room.reset();
                    rooms.push(room);
                },
            }
            i += 1;
        }
        self.floor_objects = rooms;
    }

    /// Returns the number of rooms.
    pub fn len(&self) -> (count: usize)
        ensures
            count == self@.len(),
    {
        self.floor_objects.len()
    }

    /// Returns the room at `index`.
    pub fn room(&self, index: usize) -> (room: &Room)
        requires
            index < self@.len(),
        ensures
            *room == self@[index as int],
    {
        &self.floor_objects[index]
    }

    /// Lets the room at `index` take one sighting of the player into account and tells whether
    /// it completed the room. The other rooms stay as they are.
    pub fn physics_process(&mut self, index: usize, sighting: Sighting) -> (completed: bool)
        requires
            old(self).wf(),
            index < old(self)@.len(),
        ensures
            final(self).wf(),
            final(self)@.len() == old(self)@.len(),
            forall|i: int|
                0 <= i < old(self)@.len() && i != index ==> final(self)@[i] == old(self)@[i],
            final(self)@[index as int].spec_seen() == spec_tick_seen(
                old(self)@[index as int].spec_seen(),
                sighting,
            ),
            final(self)@[index as int].spec_progress() >= old(self)@[index as int].spec_progress(),
            final(self)@[index as int].spec_position() == old(self)@[index as int].spec_position(),
            final(self)@[index as int].spec_corridors() == old(self)@[index as int].spec_corridors(),
            completed == (!old(self)@[index as int].spec_completely_revealed() && final(self)@[index as int].spec_completely_revealed()),
    {
        let mut room = self.floor_objects[index];
        assert(room == self@[index as int]);
        assert(room.wf());
        let completed = room.physics_process(sighting);
        self.floor_objects.set(index, room);
        completed
    }

    /// Returns the mean seen progress of the rooms as a fraction of one.
    pub fn get_completion_progress(&self) -> (progress: Ratio)
        requires
            self.wf(),
        ensures
            progress == spec_completion_progress(self@),
            progress.wf(),
            progress.numerator <= progress.denominator,
    {
        let count = self.floor_objects.len();
        if count == 0 {
            return Ratio::zero();
        }
        let mut total: u128 = 0;
        let mut i: usize = 0;
        while i < count
            invariant
                self.wf(),
                count == self@.len(),
                i <= count,
                total == spec_total_progress(self@, i as int),
                total <= 100 * i,
            decreases count - i,
        {
            proof {
                lemma_total_progress_bounds(self@, i + 1);
            }
            total += self.floor_objects[i].seen_progress() as u128;
            i += 1;
        }
        Ratio { numerator: total, denominator: 100 * (count as u128) }
    }
}

} // verus!
