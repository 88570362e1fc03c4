//! Floor layouts: which grid cells hold a room, and of which kind.

use std::collections::HashMap;
use vstd::prelude::*;

verus! {

broadcast use vstd::std_specs::hash::group_hash_axioms;

/// The kind of room that stands on a cell.
#[derive(Clone, Copy, Debug, PartialEq, Eq, Structural)]
pub enum RoomType {
    Normal,
}

/// The cell next to `cell` in `direction`, if its coordinates fit in 64 bits.
pub open spec fn spec_neighbour(cell: (i64, i64), direction: (i64, i64)) -> Option<(i64, i64)> {
    let x = cell.0 + direction.0;
    let y = cell.1 + direction.1;
    if i64::MIN <= x <= i64::MAX && i64::MIN <= y <= i64::MAX {
        Some((x as i64, y as i64))
    } else {
        None
    }
}

/// Computes the cell next to `cell` in `direction`.
pub fn neighbour(cell: (i64, i64), direction: (i64, i64)) -> (next: Option<(i64, i64)>)
    ensures
        next == spec_neighbour(cell, direction),
{
    match (cell.0.checked_add(direction.0), cell.1.checked_add(direction.1)) {
        (Some(x), Some(y)) => Some((x, y)),
        _ => None,
    }
}

/// Tells whether a layout has a room on the cell next to `cell` in `direction`.
pub open spec fn spec_has_neighbour(
    layout: Map<(i64, i64), RoomType>,
    cell: (i64, i64),
    direction: (i64, i64),
) -> bool {
    match spec_neighbour(cell, direction) {
        Some(next) => layout.contains_key(next),
        None => false,
    }
}

/// The integer under which a cell is indexed: distinct cells have distinct keys.
spec fn cell_key(cell: (i64, i64)) -> int {
    cell.0 * 0x1_0000_0000_0000_0000 + (cell.1 - i64::MIN)
}

proof fn lemma_cell_key_injective(a: (i64, i64), b: (i64, i64))
    requires
        cell_key(a) == cell_key(b),
    ensures
        a == b,
{
}

fn key_of(cell: (i64, i64)) -> (key: i128)
    ensures
        key == cell_key(cell),
{
    (cell.0 as i128) * 0x1_0000_0000_0000_0000i128 + ((cell.1 as i128) - (i64::MIN as i128))
}

/// A floor layout: a finite map from grid cells to room types that also remembers the order in
/// which its cells were first inserted.
pub struct FloorLayout {
    rooms: Vec<((i64, i64), RoomType)>,
    index: HashMap<i128, usize>,
}

impl View for FloorLayout {
    type V = Map<(i64, i64), RoomType>;

    /// The layout as a map from cells to room types.
    closed spec fn view(&self) -> Map<(i64, i64), RoomType> {
        Map::new(
            |cell: (i64, i64)| self.index@.contains_key(cell_key(cell) as i128),
            |cell: (i64, i64)| self.rooms@[self.index@[cell_key(cell) as i128] as int].1,
        )
    }
}

impl FloorLayout {
    /// The representation invariant: the index and the list of rooms describe the same cells.
    pub closed spec fn wf(&self) -> bool {
        &&& forall|i: int|
            0 <= i < self.rooms@.len() ==> {
                &&& self.index@.contains_key(cell_key(#[trigger] self.rooms@[i].0) as i128)
                &&& self.index@[cell_key(self.rooms@[i].0) as i128] == i
            }
        &&& forall|k: i128| #[trigger]
            self.index@.contains_key(k) ==> {
                &&& 0 <= self.index@[k] < self.rooms@.len()
                &&& cell_key(self.rooms@[self.index@[k] as int].0) == k
            }
    }

    /// The cells of the layout in the order in which they were first inserted.
    pub closed spec fn order(&self) -> Seq<(i64, i64)> {
        self.rooms@.map_values(|entry: ((i64, i64), RoomType)| entry.0)
    }

    /// The order of a well-formed layout lists each cell of the map exactly once.
    pub proof fn lemma_order_lists_cells(&self)
        requires
            self.wf(),
        ensures
            self.order().no_duplicates(),
            self.order().to_set() == self@.dom(),
            self@.dom().finite(),
            self@.dom().len() == self.order().len(),
    {
        let order = self.order();
        assert forall|i: int, j: int| 0 <= i < order.len() && 0 <= j < order.len() && i != j implies order[i]
            != order[j] by {
            assert(self.rooms@[i].0 == order[i]);
            assert(self.rooms@[j].0 == order[j]);
        }
        assert forall|cell: (i64, i64)| order.to_set().contains(cell) <==> self@.dom().contains(
            cell,
        ) by {
            if order.to_set().contains(cell) {
                let i = choose|i: int| 0 <= i < order.len() && order[i] == cell;
                assert(self.rooms@[i].0 == cell);
            }
            if self@.dom().contains(cell) {
                let k = cell_key(cell) as i128;
                let i = self.index@[k] as int;
                lemma_cell_key_injective(self.rooms@[i].0, cell);
                assert(order[i] == cell);
            }
        }
        assert(order.to_set() =~= self@.dom());
        order.unique_seq_to_set();
    }

    /// Creates a layout without rooms.
    pub fn new() -> (layout: FloorLayout)
        ensures
            layout.wf(),
            layout@ == Map::<(i64, i64), RoomType>::empty(),
            layout.order() == Seq::<(i64, i64)>::empty(),
    {
        let layout = FloorLayout { rooms: Vec::new(), index: HashMap::new() };
        proof {
            assert(layout@ =~= Map::<(i64, i64), RoomType>::empty());
            assert(layout.order() =~= Seq::<(i64, i64)>::empty());
        }
        layout
    }

    /// Puts a room on `cell`. A cell that already holds a room keeps its place in the order and
    /// takes the new room type; the room type it held before is returned.
    pub fn insert(&mut self, cell: (i64, i64), room_type: RoomType) -> (previous: Option<RoomType>)
        requires
            old(self).wf(),
        ensures
            final(self).wf(),
            final(self)@ == old(self)@.insert(cell, room_type),
            previous == (if old(self)@.contains_key(cell) {
                Some(old(self)@[cell])
            } else {
                None
            }),
            final(self).order() == (if old(self)@.contains_key(cell) {
                old(self).order()
            } else {
                old(self).order().push(cell)
            }),
    {
        let key = key_of(cell);
        let slot = match self.index.get(&key) {
            Some(slot) => Some(*slot),
            None => None,
        };
        match slot {
            Some(i) => {
                let previous = self.rooms[i].1;
                proof {
                    lemma_cell_key_injective(self.rooms@[i as int].0, cell);
                }
                self.rooms.set(i, (cell, room_type));
                proof {
                    assert forall|other: (i64, i64)| #[trigger]
                        self@.dom().contains(other) <==> old(self)@.insert(
                            cell,
                            room_type,
                        ).dom().contains(other) by {}
                    assert forall|other: (i64, i64)| #[trigger]
                        self@.dom().contains(other) implies self@[other] == old(self)@.insert(
                        cell,
                        room_type,
                    )[other] by {
                        if other != cell {
                            if cell_key(other) == cell_key(cell) {
                                lemma_cell_key_injective(other, cell);
                            }
                        }
                    }
                    assert(self@ =~= old(self)@.insert(cell, room_type));
                    assert(self.order() =~= old(self).order());
                }
                Some(previous)
            },
            None => {
                let i = self.rooms.len();
                self.rooms.push((cell, room_type));
                self.index.insert(key, i);
                proof {
                    assert forall|j: int| 0 <= j < self.rooms@.len() implies {
                        &&& self.index@.contains_key(cell_key(#[trigger] self.rooms@[j].0) as i128)
                        &&& self.index@[cell_key(self.rooms@[j].0) as i128] == j
                    } by {
                        if j < i {
                            assert(self.rooms@[j] == old(self).rooms@[j]);
                        }
                    }
                    assert forall|other: (i64, i64)| #[trigger]
                        self@.dom().contains(other) <==> old(self)@.insert(
                            cell,
                            room_type,
                        ).dom().contains(other) by {
                        if cell_key(other) == cell_key(cell) {
                            lemma_cell_key_injective(other, cell);
                        }
                    }
                    assert forall|other: (i64, i64)| #[trigger]
                        self@.dom().contains(other) implies self@[other] == old(self)@.insert(
                        cell,
                        room_type,
                    )[other] by {
                        if cell_key(other) == cell_key(cell) {
                            lemma_cell_key_injective(other, cell);
                        }
                    }
                    assert(self@ =~= old(self)@.insert(cell, room_type));
                    assert(self.order() =~= old(self).order().push(cell));
                }
                None
            },
        }
    }

    /// Tells whether a room stands on `cell`.
    pub fn contains_key(&self, cell: &(i64, i64)) -> (found: bool)
        requires
            self.wf(),
        ensures
            found == self@.contains_key(*cell),
    {
        let key = key_of(*cell);
        self.index.contains_key(&key)
    }

    /// Returns the type of the room on `cell`, if there is one.
    pub fn get(&self, cell: &(i64, i64)) -> (room_type: Option<RoomType>)
        requires
            self.wf(),
        ensures
            room_type == (if self@.contains_key(*cell) {
                Some(self@[*cell])
            } else {
                None
            }),
    {
        let key = key_of(*cell);
        match self.index.get(&key) {
            Some(slot) => Some(self.rooms[*slot].1),
            None => None,
        }
    }

    /// Tells whether a room stands on the cell next to `cell` in `direction`.
    pub fn has_neighbour(&self, cell: (i64, i64), direction: (i64, i64)) -> (found: bool)
        requires
            self.wf(),
        ensures
            found == spec_has_neighbour(self@, cell, direction),
    {
        match neighbour(cell, direction) {
            Some(next) => self.contains_key(&next),
            None => false,
        }
    }

    /// Returns the number of rooms.
    pub fn len(&self) -> (count: usize)
        requires
            self.wf(),
        ensures
            count == self@.dom().len(),
            count == self.order().len(),
    {
        proof {
            self.lemma_order_lists_cells();
        }
        self.rooms.len()
    }

    /// Tells whether the layout has no room.
    pub fn is_empty(&self) -> (empty: bool)
        requires
            self.wf(),
        ensures
            empty == (self@.dom().len() == 0),
    {
        proof {
            self.lemma_order_lists_cells();
        }
        self.rooms.len() == 0
    }

    /// Returns the cell that was inserted as number `position`, with its room type.
    pub fn entry(&self, position: usize) -> (entry: ((i64, i64), RoomType))
        requires
            self.wf(),
            position < self.order().len(),
        ensures
            entry.0 == self.order()[position as int],
            self@.contains_key(entry.0),
            entry.1 == self@[entry.0],
    {
        self.rooms[position]
    }
}

impl Clone for FloorLayout {
    /// Copies the layout, cells and order alike.
    fn clone(&self) -> (copy: FloorLayout)
        ensures
            self.wf() ==> copy.wf() && copy@ == self@ && copy.order() == self.order(),
    {
        let mut rooms: Vec<((i64, i64), RoomType)> = Vec::new();
        let mut i: usize = 0;
        while i < self.rooms.len()
            invariant
                i <= self.rooms@.len(),
                rooms@ == self.rooms@.subrange(0, i as int),
            decreases self.rooms@.len() - i,
        {
            rooms.push(self.rooms[i]);
            proof {
                assert(rooms@ =~= self.rooms@.subrange(0, i + 1));
            }
            i += 1;
        }
        proof {
            assert(rooms@ =~= self.rooms@);
        }
        let copy = FloorLayout { rooms, index: self.index.clone() };
        proof {
            if self.wf() {
                assert(copy@ =~= self@);
                assert(copy.order() =~= self.order());
            }
        }
        copy
    }
}

} // verus!
