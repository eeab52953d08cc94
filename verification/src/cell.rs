use crate::field::Field;
use crate::grid::Grid;
use std::fmt::Debug;
use vstd::prelude::*;

verus! {

/// What a rule of a cellular automaton has to provide: how a cell finds its
/// next state from the field around it, and how it takes a state on.
pub trait Cell: Copy + Default {
    /// What one generation hands to a cell.
    type State: Debug;

    /// The cell after it has taken `state` on.
    spec fn updated(self, state: Self::State) -> Self;

    /// The state that the rule gives this cell when it stands at `loc` in
    /// `grid`.
    spec fn next_state_spec(self, grid: Grid<Self>, loc: (int, int)) -> Self::State;

    /// Takes `state` on.
    fn update(&mut self, state: Self::State)
        ensures
            *final(self) == old(self).updated(state),
    ;

    /// Finds the next state of this cell, which stands at `loc`, from the
    /// field as it is now.
    fn next_state(&self, field: &Field<Self>, loc: (usize, usize)) -> (state: Self::State)
        requires
            field@.contains(loc.0 as int, loc.1 as int),
        ensures
            state == self.next_state_spec(field@, (loc.0 as int, loc.1 as int)),
    ;
}

/// How a cell is shown in text: by one character.
pub trait Glyph: Sized {
    /// The character that stands for the cell.
    spec fn glyph_spec(self) -> char;

    /// The character that stands for the cell.
    fn glyph(&self) -> (glyph: char)
        ensures
            glyph == self.glyph_spec(),
    ;
}

impl<C: Glyph> Grid<C> {
    /// The row `y` as text: the character of each of its cells, from left
    /// to right, and a line feed.
    pub open spec fn row_text(self, y: int) -> Seq<char> {
        Seq::new(self.width, |x: int| self.cell(x, y).glyph_spec()).push('\n')
    }

    /// The first `rows` rows as text, one after the other.
    pub open spec fn rows_text(self, rows: nat) -> Seq<char>
        decreases rows,
    {
        if rows == 0 {
            Seq::empty()
        } else {
            self.rows_text((rows - 1) as nat) + self.row_text(rows - 1)
        }
    }

    /// The grid as text: all its rows, or nothing where a row has no cell.
    pub open spec fn text(self) -> Seq<char> {
        if self.width == 0 {
            Seq::empty()
        } else {
            self.rows_text(self.height)
        }
    }
}

impl<C: Cell> Grid<C> {
    /// The grid one generation later: every cell has taken on the state
    /// that the rule gives it in this grid, at its own position.
    pub open spec fn next_generation(self) -> Grid<C> {
        Grid {
            cells: Seq::new(
                self.cells.len(),
                |i: int| self.cells[i].updated(self.cells[i].next_state_spec(self, self.loc_of(i))),
            ),
            ..self
        }
    }
}

} // verus!
