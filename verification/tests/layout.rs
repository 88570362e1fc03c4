use grid_explorer::layout::{neighbour, FloorLayout, RoomType};

#[test]
fn a_new_layout_is_empty() {
    let layout = FloorLayout::new();
    assert_eq!(layout.len(), 0);
    assert!(layout.is_empty());
    assert!(!layout.contains_key(&(0, 0)));
    assert_eq!(layout.get(&(0, 0)), None);
}

#[test]
fn insert_adds_a_cell_once() {
    let mut layout = FloorLayout::new();
    assert_eq!(layout.insert((2, -3), RoomType::Normal), None);
    assert_eq!(layout.len(), 1);
    assert!(!layout.is_empty());
    assert!(layout.contains_key(&(2, -3)));
    assert!(!layout.contains_key(&(-3, 2)));
    assert_eq!(layout.get(&(2, -3)), Some(RoomType::Normal));
    assert_eq!(layout.insert((2, -3), RoomType::Normal), Some(RoomType::Normal));
    assert_eq!(layout.len(), 1);
    assert_eq!(layout.entry(0), ((2, -3), RoomType::Normal));
}

#[test]
fn entries_come_in_the_order_of_first_insertion() {
    let mut layout = FloorLayout::new();
    let cells = [(0i64, 0i64), (0, 1), (1, 1), (0, 1), (0, 0), (-1, 1), (1, 1), (5, 5)];
    for cell in cells {
        layout.insert(cell, RoomType::Normal);
    }
    assert_eq!(layout.len(), 5);
    let order: Vec<(i64, i64)> = (0..layout.len()).map(|i| layout.entry(i).0).collect();
    assert_eq!(order, vec![(0, 0), (0, 1), (1, 1), (-1, 1), (5, 5)]);
}

#[test]
fn cells_that_differ_in_one_coordinate_are_distinct() {
    let mut layout = FloorLayout::new();
    let cells = [
        (0i64, 0i64),
        (0, 1),
        (1, 0),
        (0, -1),
        (-1, 0),
        (i64::MAX, i64::MAX),
        (i64::MAX, i64::MIN),
        (i64::MIN, i64::MAX),
        (i64::MIN, i64::MIN),
        (i64::MAX, 0),
        (0, i64::MAX),
        (i64::MIN, 0),
        (0, i64::MIN),
        (1, i64::MIN),
        (0, i64::MAX - 1),
    ];
    for (i, cell) in cells.iter().enumerate() {
        assert!(!layout.contains_key(cell));
        assert_eq!(layout.insert(*cell, RoomType::Normal), None);
        assert_eq!(layout.len(), i + 1);
    }
    for (i, cell) in cells.iter().enumerate() {
        assert!(layout.contains_key(cell));
        assert_eq!(layout.entry(i).0, *cell);
    }
    assert!(!layout.contains_key(&(1, 1)));
    assert!(!layout.contains_key(&(i64::MAX, 1)));
}

#[test]
fn a_clone_holds_the_same_cells_in_the_same_order() {
    let mut layout = FloorLayout::new();
    for cell in [(3i64, 4i64), (-1, -1), (0, 0)] {
        layout.insert(cell, RoomType::Normal);
    }
    let copy = layout.clone();
    layout.insert((9, 9), RoomType::Normal);
    assert_eq!(copy.len(), 3);
    assert_eq!(copy.entry(0).0, (3, 4));
    assert_eq!(copy.entry(1).0, (-1, -1));
    assert_eq!(copy.entry(2).0, (0, 0));
    assert!(copy.contains_key(&(-1, -1)));
    assert!(!copy.contains_key(&(9, 9)));
    assert!(layout.contains_key(&(9, 9)));
}

#[test]
fn neighbour_steps_by_the_direction() {
    assert_eq!(neighbour((0, 0), (0, 1)), Some((0, 1)));
    assert_eq!(neighbour((0, 0), (0, -1)), Some((0, -1)));
    assert_eq!(neighbour((4, -2), (-1, 0)), Some((3, -2)));
    assert_eq!(neighbour((4, -2), (1, 0)), Some((5, -2)));
    assert_eq!(neighbour((4, -2), (0, 0)), Some((4, -2)));
}

#[test]
fn neighbour_stops_at_the_end_of_the_grid() {
    assert_eq!(neighbour((i64::MAX, 0), (1, 0)), None);
    assert_eq!(neighbour((i64::MIN, 0), (-1, 0)), None);
    assert_eq!(neighbour((0, i64::MAX), (0, 1)), None);
    assert_eq!(neighbour((0, i64::MIN), (0, -1)), None);
    assert_eq!(neighbour((i64::MAX, 0), (-1, 0)), Some((i64::MAX - 1, 0)));
    assert_eq!(neighbour((i64::MIN, i64::MAX), (1, 0)), Some((i64::MIN + 1, i64::MAX)));
}

#[test]
fn has_neighbour_looks_one_cell_over() {
    let mut layout = FloorLayout::new();
    layout.insert((0, 0), RoomType::Normal);
    layout.insert((1, 0), RoomType::Normal);
    layout.insert((i64::MAX, 0), RoomType::Normal);
    assert!(layout.has_neighbour((0, 0), (1, 0)));
    assert!(!layout.has_neighbour((0, 0), (-1, 0)));
    assert!(!layout.has_neighbour((0, 0), (0, 1)));
    assert!(layout.has_neighbour((1, 0), (-1, 0)));
    assert!(layout.has_neighbour((2, 0), (-1, 0)));
    assert!(!layout.has_neighbour((i64::MAX, 0), (1, 0)));
    assert!(layout.has_neighbour((i64::MAX - 1, 0), (1, 0)));
}
