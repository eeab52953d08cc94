use crate::cell::{Cell, Glyph};
use crate::field::Field;
use crate::grid::Grid;
use vstd::prelude::*;

verus! {

/// One cell of Conway's Game of Life: it is either alive or not.
#[derive(Debug, Clone, Copy)]
pub struct ConwayCell {
    pub alive: bool,
}

impl Default for ConwayCell {
    /// A cell that is not alive.
    fn default() -> (cell: Self)
        ensures
            !cell.alive,
    {
        ConwayCell { alive: false }
    }
}

/// Whether `(x, y)` is a position of the grid and the cell there is alive.
/// Outside the grid nothing is alive: the grid does not wrap around.
pub open spec fn alive_at(grid: Grid<ConwayCell>, x: int, y: int) -> bool {
    grid.contains(x, y) && grid.cell(x, y).alive
}

/// One for `true`, nought for `false`.
pub open spec fn one_if(b: bool) -> nat {
    if b {
        1
    } else {
        0
    }
}

/// How many of the eight positions around `(x, y)` hold a cell that is
/// alive.
pub open spec fn alive_neighbors(grid: Grid<ConwayCell>, x: int, y: int) -> nat {
    one_if(alive_at(grid, x - 1, y - 1)) + one_if(alive_at(grid, x - 1, y)) + one_if(
        alive_at(grid, x - 1, y + 1),
    ) + one_if(alive_at(grid, x, y - 1)) + one_if(alive_at(grid, x, y + 1)) + one_if(
        alive_at(grid, x + 1, y - 1),
    ) + one_if(alive_at(grid, x + 1, y)) + one_if(alive_at(grid, x + 1, y + 1))
}

/// The rule of the game: a cell that is alive stays so with two or three
/// neighbours that are alive, and a cell that is not comes alive with
/// exactly three.
pub open spec fn lives_on(alive: bool, neighbors: nat) -> bool {
    if alive {
        neighbors == 2 || neighbors == 3
    } else {
        neighbors == 3
    }
}

/// The coordinate next to `coord` in the direction `step`, if there is one
/// that is not negative and fits the machine.
fn shifted(coord: usize, step: i8) -> (moved: Option<usize>)
    requires
        -1 <= step <= 1,
    ensures
        moved.is_some() <==> 0 <= coord + step <= usize::MAX,
        moved.is_some() ==> moved.unwrap() == coord + step,
{
    if step < 0 {
        if coord == 0 {
            None
        } else {
            Some(coord - 1)
        }
    } else if step > 0 {
        if coord == usize::MAX {
            None
        } else {
            Some(coord + 1)
        }
    } else {
        Some(coord)
    }
}

/// One if the position `(dx, dy)` away from `loc` lies in the field and
/// holds a cell that is alive, nought otherwise.
fn alive_beside(field: &Field<ConwayCell>, loc: (usize, usize), dx: i8, dy: i8) -> (count: u8)
    requires
        -1 <= dx <= 1,
        -1 <= dy <= 1,
    ensures
        count == one_if(alive_at(field@, loc.0 + dx, loc.1 + dy)),
{
    let (width, height) = field.size();
    match (shifted(loc.0, dx), shifted(loc.1, dy)) {
        (Some(x), Some(y)) => {
            if x < width && y < height {
                match field.get((x, y)) {
                    Some(cell) => if cell.alive {
                        1
                    } else {
                        0
                    },
                    None => 0,
                }
            } else {
                0
            }
        },
        _ => 0,
    }
}

impl Cell for ConwayCell {
    type State = bool;

    open spec fn updated(self, state: bool) -> ConwayCell {
        ConwayCell { alive: state }
    }

    open spec fn next_state_spec(self, grid: Grid<ConwayCell>, loc: (int, int)) -> bool {
        lives_on(self.alive, alive_neighbors(grid, loc.0, loc.1))
    }

    /// Is alive from now on if and only if `state` says so.
    fn update(&mut self, state: bool)
        ensures
            final(self).alive == state,
    {
        self.alive = state;
    }

    /// Whether this cell is alive in the next generation: the rule of the
    /// game, on the cells around `loc` that the field holds.
    fn next_state(&self, field: &Field<ConwayCell>, loc: (usize, usize)) -> (state: bool)
        ensures
            state == lives_on(self.alive, alive_neighbors(field@, loc.0 as int, loc.1 as int)),
    {
        let alive_count: u8 = alive_beside(field, loc, -1, -1) + alive_beside(field, loc, -1, 0)
            + alive_beside(field, loc, -1, 1) + alive_beside(field, loc, 0, -1) + alive_beside(
            field,
            loc,
            0,
            1,
        ) + alive_beside(field, loc, 1, -1) + alive_beside(field, loc, 1, 0) + alive_beside(
            field,
            loc,
            1,
            1,
        );
        if self.alive {
            if alive_count < 2 {
                false
            } else {
                alive_count <= 3
            }
        } else if alive_count == 3 {
            true
        } else {
            self.alive
        }
    }
}

/// Of the positions at the first `count` places of the grid, those whose
/// cells are alive, in the order of their places.
pub open spec fn alive_among(grid: Grid<ConwayCell>, count: nat) -> Seq<(int, int)> {
    Seq::new(count, |i: int| grid.loc_of(i)).filter(|p: (int, int)| alive_at(grid, p.0, p.1))
}

/// The positions of the grid whose cells are alive, row by row, from left
/// to right in each row.
pub open spec fn alive_positions(grid: Grid<ConwayCell>) -> Seq<(int, int)> {
    alive_among(grid, grid.cells.len())
}

impl Field<ConwayCell> {
    /// The positions of the cells that are alive, in the order of `locs`:
    /// what there is to paint of the field.
    pub fn alive_locs(&self) -> (locs: Vec<(usize, usize)>)
        ensures
            self@.wf(),
            locs@.len() == alive_positions(self@).len(),
            forall|k: int|
                0 <= k < locs@.len() ==> ((#[trigger] locs@[k]).0 as int, locs@[k].1 as int)
                    == alive_positions(self@)[k],
    {
        let (width, _) = self.size();
        let cells = self.cells();
        let ghost grid = self@;
        let mut locs: Vec<(usize, usize)> = Vec::new();
        let mut num: usize = 0;
        while num < cells.len()
            invariant
                grid == self@,
                grid.wf(),
                width == grid.width,
                cells@.len() == grid.cells.len(),
                forall|i: int| 0 <= i < cells@.len() ==> *cells@[i] == grid.cells[i],
                num <= cells@.len(),
                locs@.len() == alive_among(grid, num as nat).len(),
                forall|k: int|
                    0 <= k < locs@.len() ==> ((#[trigger] locs@[k]).0 as int, locs@[k].1 as int)
                        == alive_among(grid, num as nat)[k],
            decreases cells@.len() - num,
        {
            proof {
                crate::grid::lemma_loc_of_in_grid(grid, num as int);
                reveal(Seq::filter);
                assert(Seq::new((num + 1) as nat, |i: int| grid.loc_of(i)).drop_last()
                    =~= Seq::new(num as nat, |i: int| grid.loc_of(i)));
            }
            if cells[num].alive {
                locs.push((num % width, num / width));
            }
            num += 1;
        }
        locs
    }
}

impl Glyph for ConwayCell {
    open spec fn glyph_spec(self) -> char {
        if self.alive {
            '\u{2588}'
        } else {
            ' '
        }
    }

    /// A full block for a cell that is alive, a blank for one that is not.
    fn glyph(&self) -> (glyph: char)
        ensures
            glyph == (if self.alive {
                '\u{2588}'
            } else {
                ' '
            }),
    {
        if self.alive {
            '\u{2588}'
        } else {
            ' '
        }
    }
}

/// In the next generation the cell at each position is alive if and only
/// if the rule says so of the cell as it is now and of the number of its
/// neighbours that are alive now: a cell that is not alive and has exactly
/// three such neighbours comes alive, a cell that is alive and has two or
/// three stays alive, and every other cell is not alive afterwards.
pub proof fn lemma_next_generation_follows_rule(grid: Grid<ConwayCell>, x: int, y: int)
    requires
        grid.wf(),
        grid.contains(x, y),
    ensures
        grid.next_generation().wf(),
        grid.next_generation().contains(x, y),
        alive_at(grid.next_generation(), x, y) == lives_on(
            alive_at(grid, x, y),
            alive_neighbors(grid, x, y),
        ),
        !alive_at(grid, x, y) && alive_neighbors(grid, x, y) == 3 ==> alive_at(
            grid.next_generation(),
            x,
            y,
        ),
        alive_at(grid, x, y) && (alive_neighbors(grid, x, y) == 2 || alive_neighbors(grid, x, y)
            == 3) ==> alive_at(grid.next_generation(), x, y),
        alive_at(grid, x, y) && alive_neighbors(grid, x, y) != 2 && alive_neighbors(grid, x, y)
            != 3 ==> !alive_at(grid.next_generation(), x, y),
        !alive_at(grid, x, y) && alive_neighbors(grid, x, y) != 3 ==> !alive_at(
            grid.next_generation(),
            x,
            y,
        ),
{
    crate::grid::lemma_index_of_in_range(grid, x, y);
}

/// How many of `c - 1`, `c` and `c + 1` are coordinates below `len` that
/// are not negative.
pub open spec fn reach(len: nat, c: int) -> nat {
    one_if(0 <= c - 1 < len) + one_if(0 <= c < len) + one_if(0 <= c + 1 < len)
}

/// Only neighbours inside the grid are counted: a cell has no more
/// neighbours that are alive than it has neighbours in the grid, which is
/// eight at most, five at most on an edge and three at most in a corner.
pub proof fn lemma_neighbors_within_grid(grid: Grid<ConwayCell>, x: int, y: int)
    requires
        grid.wf(),
        grid.contains(x, y),
    ensures
        alive_neighbors(grid, x, y) <= reach(grid.width, x) * reach(grid.height, y) - 1,
        alive_neighbors(grid, x, y) <= 8,
        x == 0 || x == grid.width - 1 || y == 0 || y == grid.height - 1 ==> alive_neighbors(
            grid,
            x,
            y,
        ) <= 5,
        (x == 0 || x == grid.width - 1) && (y == 0 || y == grid.height - 1) ==> alive_neighbors(
            grid,
            x,
            y,
        ) <= 3,
{
    let rx = reach(grid.width, x);
    let ry = reach(grid.height, y);
    assert(1 <= rx <= 3 && 1 <= ry <= 3);
    assert(rx * ry == if ry == 1 {
        rx
    } else if ry == 2 {
        2 * rx
    } else {
        3 * rx
    }) by (nonlinear_arith)
        requires
            1 <= ry <= 3,
    ;
}

/// The number of neighbours that are alive depends on the cells next to
/// the position alone: two grids of one size that agree on them give the
/// same number, whatever they hold elsewhere.
pub proof fn lemma_neighbors_are_local(
    first: Grid<ConwayCell>,
    second: Grid<ConwayCell>,
    x: int,
    y: int,
)
    requires
        first.wf(),
        second.wf(),
        first.width == second.width,
        first.height == second.height,
        forall|nx: int, ny: int|
            x - 1 <= nx <= x + 1 && y - 1 <= ny <= y + 1 && (nx != x || ny != y) && first.contains(
                nx,
                ny,
            ) ==> #[trigger] first.cell(nx, ny).alive == second.cell(nx, ny).alive,
    ensures
        alive_neighbors(first, x, y) == alive_neighbors(second, x, y),
{
}

/// The field does not wrap around: on a grid with more than two columns or
/// more than two rows, the cell in the first corner has the same number of
/// neighbours that are alive whatever the cell in the opposite corner
/// holds.
pub proof fn lemma_opposite_corner_is_no_neighbor(grid: Grid<ConwayCell>, cell: ConwayCell)
    requires
        grid.wf(),
        grid.width > 2 || grid.height > 2,
        grid.width > 0,
        grid.height > 0,
    ensures
        alive_neighbors(grid.with_cell(grid.width - 1, grid.height - 1, cell), 0, 0)
            == alive_neighbors(grid, 0, 0),
{
    let w = grid.width as int;
    let h = grid.height as int;
    let other = grid.with_cell(w - 1, h - 1, cell);
    crate::grid::lemma_index_of_in_range(grid, w - 1, h - 1);
    assert forall|nx: int, ny: int|
        -1 <= nx <= 1 && -1 <= ny <= 1 && (nx != 0 || ny != 0) && other.contains(
            nx,
            ny,
        ) implies #[trigger] other.cell(nx, ny).alive == grid.cell(nx, ny).alive by {
        crate::grid::lemma_index_of_in_range(grid, nx, ny);
    }
    lemma_neighbors_are_local(other, grid, 0, 0);
}

} // verus!
