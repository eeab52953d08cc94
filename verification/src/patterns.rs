use crate::grid::Grid;
use crate::life::{alive_at, lemma_next_generation_follows_rule, lives_on, one_if, ConwayCell};
use vstd::prelude::*;

verus! {

/// The positions of the grid whose cells are alive.
pub open spec fn alive_set(grid: Grid<ConwayCell>) -> Set<(int, int)> {
    Set::new(|p: (int, int)| alive_at(grid, p.0, p.1))
}

/// How many of the eight positions around `(x, y)` are in `alive`.
pub open spec fn neighbors_in(alive: Set<(int, int)>, x: int, y: int) -> nat {
    one_if(alive.contains((x - 1, y - 1))) + one_if(alive.contains((x - 1, y))) + one_if(
        alive.contains((x - 1, y + 1)),
    ) + one_if(alive.contains((x, y - 1))) + one_if(alive.contains((x, y + 1))) + one_if(
        alive.contains((x + 1, y - 1)),
    ) + one_if(alive.contains((x + 1, y))) + one_if(alive.contains((x + 1, y + 1)))
}

/// The square of four cells whose first corner is `(x, y)`.
pub open spec fn block(x: int, y: int) -> Set<(int, int)> {
    set![(x, y), (x + 1, y), (x, y + 1), (x + 1, y + 1)]
}

/// Three cells in the column `x`, around `(x, y)`.
pub open spec fn blinker_upright(x: int, y: int) -> Set<(int, int)> {
    set![(x, y - 1), (x, y), (x, y + 1)]
}

/// Three cells in the row `y`, around `(x, y)`.
pub open spec fn blinker_level(x: int, y: int) -> Set<(int, int)> {
    set![(x - 1, y), (x, y), (x + 1, y)]
}

/// The glider that heads for growing `x` and `y`, in the first of its four
/// shapes, in the square of three by three whose first corner is `(x, y)`.
pub open spec fn glider(x: int, y: int) -> Set<(int, int)> {
    set![(x + 1, y), (x + 2, y + 1), (x, y + 2), (x + 1, y + 2), (x + 2, y + 2)]
}

/// The glider of `glider(x, y)` one generation later.
pub open spec fn glider_second(x: int, y: int) -> Set<(int, int)> {
    set![(x, y + 1), (x + 2, y + 1), (x + 1, y + 2), (x + 2, y + 2), (x + 1, y + 3)]
}

/// The glider of `glider(x, y)` two generations later.
pub open spec fn glider_third(x: int, y: int) -> Set<(int, int)> {
    set![(x + 2, y + 1), (x, y + 2), (x + 2, y + 2), (x + 1, y + 3), (x + 2, y + 3)]
}

/// The glider of `glider(x, y)` three generations later.
pub open spec fn glider_fourth(x: int, y: int) -> Set<(int, int)> {
    set![(x + 1, y + 1), (x + 2, y + 2), (x + 3, y + 2), (x + 1, y + 3), (x + 2, y + 3)]
}

/// The cells that are alive in the next generation are those positions of
/// the grid of which the rule says so, counted on the set of the cells
/// that are alive now.
pub proof fn lemma_next_alive_set(
    grid: Grid<ConwayCell>,
    now: Set<(int, int)>,
    then: Set<(int, int)>,
)
    requires
        grid.wf(),
        alive_set(grid) == now,
        forall|x: int, y: int| #[trigger] then.contains((x, y)) ==> grid.contains(x, y),
        forall|x: int, y: int|
            grid.contains(x, y) ==> (#[trigger] then.contains((x, y)) <==> lives_on(
                now.contains((x, y)),
                neighbors_in(now, x, y),
            )),
    ensures
        grid.next_generation().wf(),
        alive_set(grid.next_generation()) == then,
{
    let next = grid.next_generation();
    assert forall|a: int, b: int| #[trigger] alive_at(grid, a, b) == now.contains((a, b)) by {
        assert(alive_set(grid).contains((a, b)) == alive_at(grid, a, b));
    }
    assert forall|p: (int, int)| alive_set(next).contains(p) == then.contains(p) by {
        assert(then.contains((p.0, p.1)) == then.contains(p));
        if grid.contains(p.0, p.1) {
            lemma_next_generation_follows_rule(grid, p.0, p.1);
        }
    }
    assert(alive_set(next) =~= then);
}

/// A block that lies in the grid, with no other cell alive, is a still
/// life: the next generation is the same grid.
pub proof fn lemma_block_is_still(grid: Grid<ConwayCell>, x: int, y: int)
    requires
        grid.wf(),
        grid.contains(x, y),
        grid.contains(x + 1, y + 1),
        alive_set(grid) == block(x, y),
    ensures
        grid.next_generation() == grid,
{
    let next = grid.next_generation();
    lemma_next_alive_set(grid, block(x, y), block(x, y));
    assert forall|i: int| 0 <= i < grid.cells.len() implies next.cells[i] == grid.cells[i] by {
        crate::grid::lemma_loc_of_in_grid(grid, i);
        let p = grid.loc_of(i);
        assert(alive_set(next).contains(p) == alive_set(grid).contains(p));
    }
    assert(next.cells =~= grid.cells);
}

/// A blinker turns: three cells in a column, with no other cell alive,
/// become the three cells in the row through the middle one, and those
/// become the three cells in the column again.
pub proof fn lemma_blinker_turns(grid: Grid<ConwayCell>, x: int, y: int)
    requires
        grid.wf(),
        grid.contains(x - 1, y - 1),
        grid.contains(x + 1, y + 1),
        alive_set(grid) == blinker_upright(x, y),
    ensures
        alive_set(grid.next_generation()) == blinker_level(x, y),
        alive_set(grid.next_generation().next_generation()) == blinker_upright(x, y),
{
    lemma_next_alive_set(grid, blinker_upright(x, y), blinker_level(x, y));
    lemma_next_alive_set(grid.next_generation(), blinker_level(x, y), blinker_upright(x, y));
}

/// A glider moves: with the square of four by four whose first corner is
/// `(x, y)` inside the grid, and no other cell alive, the glider goes
/// through its four shapes and is, four generations later, the same
/// glider one column and one row further on.
pub proof fn lemma_glider_moves(grid: Grid<ConwayCell>, x: int, y: int)
    requires
        grid.wf(),
        grid.contains(x, y),
        grid.contains(x + 3, y + 3),
        alive_set(grid) == glider(x, y),
    ensures
        alive_set(grid.next_generation()) == glider_second(x, y),
        alive_set(grid.next_generation().next_generation()) == glider_third(x, y),
        alive_set(grid.next_generation().next_generation().next_generation()) == glider_fourth(
            x,
            y,
        ),
        alive_set(grid.next_generation().next_generation().next_generation().next_generation())
            == glider(x + 1, y + 1),
{
    let second = grid.next_generation();
    let third = second.next_generation();
    let fourth = third.next_generation();
    lemma_next_alive_set(grid, glider(x, y), glider_second(x, y));
    lemma_next_alive_set(second, glider_second(x, y), glider_third(x, y));
    lemma_next_alive_set(third, glider_third(x, y), glider_fourth(x, y));
    lemma_next_alive_set(fourth, glider_fourth(x, y), glider(x + 1, y + 1));
}

} // verus!
