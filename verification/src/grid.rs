use vstd::prelude::*;

verus! {

/// The mathematical model of a field: its dimensions and its cells in
/// row-major order, so that the cell at column `x` of row `y` is
/// `cells[y * width + x]`.
pub struct Grid<C> {
    pub width: nat,
    pub height: nat,
    pub cells: Seq<C>,
}

impl<C> Grid<C> {
    /// There is exactly one cell for each position.
    pub open spec fn wf(self) -> bool {
        self.cells.len() == self.width * self.height
    }

    /// Whether `(x, y)` is a position of the grid.
    pub open spec fn contains(self, x: int, y: int) -> bool {
        0 <= x < self.width && 0 <= y < self.height
    }

    /// The place in `cells` of the position `(x, y)`.
    pub open spec fn index_of(self, x: int, y: int) -> int {
        y * self.width + x
    }

    /// The position whose place in `cells` is `i`.
    pub open spec fn loc_of(self, i: int) -> (int, int) {
        (i % (self.width as int), i / (self.width as int))
    }

    /// The cell at the position `(x, y)`.
    pub open spec fn cell(self, x: int, y: int) -> C
        recommends
            self.wf(),
            self.contains(x, y),
    {
        self.cells[self.index_of(x, y)]
    }

    /// The same grid with the cell at `(x, y)` replaced.
    pub open spec fn with_cell(self, x: int, y: int, c: C) -> Grid<C>
        recommends
            self.wf(),
            self.contains(x, y),
    {
        Grid { cells: self.cells.update(self.index_of(x, y), c), ..self }
    }
}

/// Each position of a well-formed grid has a place of its own in `cells`,
/// and `loc_of` leads back from the place to the position.
pub proof fn lemma_index_of_in_range<C>(g: Grid<C>, x: int, y: int)
    requires
        g.wf(),
        g.contains(x, y),
    ensures
        0 <= g.index_of(x, y) < g.cells.len(),
        g.loc_of(g.index_of(x, y)) == (x, y),
{
    let w = g.width as int;
    let h = g.height as int;
    assert(y * w + x < w * h) by (nonlinear_arith)
        requires
            0 <= x < w,
            0 <= y < h,
    ;
    assert(0 <= y * w + x) by (nonlinear_arith)
        requires
            0 <= x < w,
            0 <= y < h,
    ;
    vstd::arithmetic::div_mod::lemma_fundamental_div_mod_converse(y * w + x, w, y, x);
}

/// Each place in `cells` of a well-formed grid belongs to one position of
/// the grid, and `index_of` leads back from the position to the place.
pub proof fn lemma_loc_of_in_grid<C>(g: Grid<C>, i: int)
    requires
        g.wf(),
        0 <= i < g.cells.len(),
    ensures
        g.contains(g.loc_of(i).0, g.loc_of(i).1),
        g.index_of(g.loc_of(i).0, g.loc_of(i).1) == i,
{
    let w = g.width as int;
    let h = g.height as int;
    assert(w > 0) by (nonlinear_arith)
        requires
            0 <= i < w * h,
            0 <= w,
    ;
    vstd::arithmetic::div_mod::lemma_fundamental_div_mod(i, w);
    vstd::arithmetic::div_mod::lemma_mod_bound(i, w);
    vstd::arithmetic::div_mod::lemma_div_pos_is_pos(i, w);
    assert(i / w < h) by (nonlinear_arith)
        requires
            0 <= i < w * h,
            w > 0,
            i == w * (i / w) + i % w,
            0 <= i % w < w,
    ;
    assert((i / w) * w == w * (i / w)) by (nonlinear_arith);
}

} // verus!
