use conway::{Cell, ConwayCell, Field, Glyph};

fn field_of(size: (usize, usize), alive: &[(usize, usize)]) -> Field<ConwayCell> {
    let mut field = Field::<ConwayCell>::new(size);
    for &loc in alive {
        field.get_mut(loc).unwrap().alive = true;
    }
    field
}

fn alive_in(field: &Field<ConwayCell>) -> Vec<(usize, usize)> {
    let mut alive = field.alive_locs();
    alive.sort();
    alive
}

fn sorted(mut locs: Vec<(usize, usize)>) -> Vec<(usize, usize)> {
    locs.sort();
    locs
}

/// The first `count` of the eight neighbours of `(2, 2)`.
fn some_neighbors(count: usize) -> Vec<(usize, usize)> {
    let around = [(1, 1), (2, 1), (3, 1), (1, 2), (3, 2), (1, 3), (2, 3), (3, 3)];
    around[..count].to_vec()
}

#[test]
fn update_sets_the_state() {
    let mut cell = ConwayCell { alive: false };
    cell.update(true);
    assert!(cell.alive);
    cell.update(true);
    assert!(cell.alive);
    cell.update(false);
    assert!(!cell.alive);
}

#[test]
fn glyph_is_a_block_or_a_blank() {
    assert_eq!(ConwayCell { alive: true }.glyph(), '\u{2588}');
    assert_eq!(ConwayCell { alive: false }.glyph(), ' ');
}

#[test]
fn dead_cell_comes_alive_with_exactly_three_neighbors() {
    for count in 0..=8 {
        let field = field_of((5, 5), &some_neighbors(count));
        let cell = *field.get((2, 2)).unwrap();
        assert!(!cell.alive);
        assert_eq!(cell.next_state(&field, (2, 2)), count == 3, "{count} neighbours");
    }
}

#[test]
fn alive_cell_stays_alive_with_two_or_three_neighbors() {
    for count in 0..=8 {
        let mut alive = some_neighbors(count);
        alive.push((2, 2));
        let field = field_of((5, 5), &alive);
        let cell = *field.get((2, 2)).unwrap();
        assert!(cell.alive);
        assert_eq!(
            cell.next_state(&field, (2, 2)),
            count == 2 || count == 3,
            "{count} neighbours"
        );
    }
}

#[test]
fn every_single_neighbor_counts_once() {
    let around = [(1, 1), (2, 1), (3, 1), (1, 2), (3, 2), (1, 3), (2, 3), (3, 3)];
    for skip in 0..8 {
        // Two fixed neighbours and one more make three; leaving one of the
        // three out makes two.
        let others: Vec<(usize, usize)> =
            (0..3).map(|k| around[(skip + 1 + k) % 8]).collect();
        let field = field_of((5, 5), &others);
        assert!(ConwayCell { alive: false }.next_state(&field, (2, 2)));
        let field = field_of((5, 5), &others[..2]);
        assert!(!ConwayCell { alive: false }.next_state(&field, (2, 2)));
        assert!(ConwayCell { alive: true }.next_state(&field, (2, 2)));
    }
}

#[test]
fn the_cell_itself_is_no_neighbor() {
    let field = field_of((5, 5), &[(2, 2), (1, 1), (3, 3)]);
    assert!(field.get((2, 2)).unwrap().next_state(&field, (2, 2)));
    let field = field_of((5, 5), &[(2, 2), (1, 1)]);
    assert!(!field.get((2, 2)).unwrap().next_state(&field, (2, 2)));
}

#[test]
fn cells_two_away_are_no_neighbors() {
    let far = [
        (0, 0), (1, 0), (2, 0), (3, 0), (4, 0), (0, 1), (4, 1), (0, 2), (4, 2), (0, 3),
        (4, 3), (0, 4), (1, 4), (2, 4), (3, 4), (4, 4),
    ];
    let field = field_of((5, 5), &far);
    assert!(!ConwayCell { alive: false }.next_state(&field, (2, 2)));
    assert!(!ConwayCell { alive: true }.next_state(&field, (2, 2)));
}

#[test]
fn corner_cell_has_three_neighbors() {
    let field = field_of((4, 4), &[(1, 0), (0, 1), (1, 1)]);
    assert!(ConwayCell { alive: false }.next_state(&field, (0, 0)));
    let full: Vec<(usize, usize)> = field.locs();
    let field = field_of((4, 4), &full);
    // With every cell alive a corner has three neighbours and lives on,
    // an edge cell has five and an inner cell eight: both die.
    for loc in [(0, 0), (3, 0), (0, 3), (3, 3)] {
        assert!(field.get(loc).unwrap().next_state(&field, loc), "{loc:?}");
    }
    for loc in [(1, 0), (0, 2), (3, 1), (2, 3), (1, 1), (2, 2)] {
        assert!(!field.get(loc).unwrap().next_state(&field, loc), "{loc:?}");
    }
}

#[test]
fn field_does_not_wrap_around() {
    // Were the field a torus, the first corner would have these three as
    // neighbours.
    let field = field_of((4, 4), &[(3, 3), (3, 0), (0, 3)]);
    assert!(!ConwayCell { alive: false }.next_state(&field, (0, 0)));
    let field = field_of((4, 4), &[(3, 3), (1, 0), (0, 1)]);
    assert!(!ConwayCell { alive: false }.next_state(&field, (0, 0)));
    let field = field_of((4, 4), &[(1, 1), (1, 0), (0, 1)]);
    assert!(ConwayCell { alive: false }.next_state(&field, (0, 0)));
    // The last cell of a row is no neighbour of the first cell of the next.
    let field = field_of((4, 4), &[(3, 0), (3, 1), (3, 2)]);
    assert!(!ConwayCell { alive: false }.next_state(&field, (0, 1)));
    assert!(ConwayCell { alive: false }.next_state(&field, (2, 1)));
}

#[test]
fn opposite_corner_counts_on_a_field_of_two_by_two() {
    // Here the opposite corner is next to the first one.
    let field = field_of((2, 2), &[(1, 0), (0, 1), (1, 1)]);
    assert!(ConwayCell { alive: false }.next_state(&field, (0, 0)));
    let field = field_of((2, 2), &[(1, 0), (0, 1)]);
    assert!(!ConwayCell { alive: false }.next_state(&field, (0, 0)));
}

#[test]
fn single_cell_field_dies() {
    let mut field = field_of((1, 1), &[(0, 0)]);
    field.next_generation();
    assert!(!field.get((0, 0)).unwrap().alive);
}

#[test]
fn block_is_a_still_life() {
    let block = [(2, 1), (3, 1), (2, 2), (3, 2)];
    let mut field = field_of((6, 5), &block);
    let before: Vec<bool> = field.cells().iter().map(|cell| cell.alive).collect();
    field.next_generation();
    let after: Vec<bool> = field.cells().iter().map(|cell| cell.alive).collect();
    assert_eq!(before, after);
    assert_eq!(alive_in(&field), sorted(block.to_vec()));
    assert_eq!(field.size(), (6, 5));
}

#[test]
fn blinker_turns_and_comes_back() {
    for size in [(3, 3), (4, 3), (3, 5), (20, 15)] {
        let mut field = field_of(size, &[(1, 0), (1, 1), (1, 2)]);
        field.next_generation();
        assert_eq!(alive_in(&field), vec![(0, 1), (1, 1), (2, 1)], "{size:?}");
        field.next_generation();
        assert_eq!(alive_in(&field), vec![(1, 0), (1, 1), (1, 2)], "{size:?}");
    }
}

#[test]
fn glider_moves_one_cell_diagonally_in_four_generations() {
    let glider = [(1usize, 0usize), (2, 1), (0, 2), (1, 2), (2, 2)];
    let placed = |dx: usize, dy: usize| -> Vec<(usize, usize)> {
        sorted(glider.iter().map(|&(x, y)| (x + dx, y + dy)).collect())
    };
    let mut field = field_of((12, 12), &placed(2, 2));
    for round in 1..=4 {
        for _ in 0..4 {
            field.next_generation();
        }
        assert_eq!(alive_in(&field), placed(2 + round, 2 + round), "round {round}");
    }
}

#[test]
fn glider_goes_through_its_four_shapes() {
    let mut field = field_of((8, 8), &[(3, 2), (4, 3), (2, 4), (3, 4), (4, 4)]);
    field.next_generation();
    assert_eq!(alive_in(&field), sorted(vec![(2, 3), (4, 3), (3, 4), (4, 4), (3, 5)]));
    field.next_generation();
    assert_eq!(alive_in(&field), sorted(vec![(4, 3), (2, 4), (4, 4), (3, 5), (4, 5)]));
    field.next_generation();
    assert_eq!(alive_in(&field), sorted(vec![(3, 3), (4, 4), (5, 4), (3, 5), (4, 5)]));
    field.next_generation();
    assert_eq!(alive_in(&field), sorted(vec![(4, 3), (5, 4), (3, 5), (4, 5), (5, 5)]));
}

#[test]
fn next_state_takes_the_cell_it_is_called_on() {
    let field = field_of((5, 5), &[(1, 1), (2, 1)]);
    assert!(ConwayCell { alive: true }.next_state(&field, (2, 2)));
    assert!(!ConwayCell { alive: false }.next_state(&field, (2, 2)));
}
