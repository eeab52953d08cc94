use crate::cell::{Cell, Glyph};
use crate::grid::Grid;
use vstd::prelude::*;

verus! {

/// A field of fixed size that holds one cell for each position, row by row.
#[derive(Debug)]
pub struct Field<C> {
    size: (usize, usize),
    field: Vec<C>,
}

impl<C> View for Field<C> {
    type V = Grid<C>;

    closed spec fn view(&self) -> Grid<C> {
        Grid { width: self.size.0 as nat, height: self.size.1 as nat, cells: self.field@ }
    }
}

impl<C> Field<C> {
    #[verifier::type_invariant]
    spec fn inv(self) -> bool {
        self.field@.len() == self.size.0 * self.size.1
    }
}

impl<C: Copy + Default> Field<C> {
    /// Makes a field of `size.0` columns and `size.1` rows in which every
    /// cell is a default cell.
    pub fn new(size: (usize, usize)) -> (field: Field<C>)
        requires
            size.0 * size.1 <= usize::MAX,
        ensures
            field@.wf(),
            field@.width == size.0,
            field@.height == size.1,
            forall|i: int|
                0 <= i < field@.cells.len() ==> call_ensures(C::default, (), #[trigger] field@.cells[i]),
            forall|i: int, j: int|
                0 <= i < field@.cells.len() && 0 <= j < field@.cells.len() ==> field@.cells[i]
                    == field@.cells[j],
    {
        let count: usize = size.0 * size.1;
        let cell = C::default();
        let mut cells: Vec<C> = Vec::new();
        while cells.len() < count
            invariant
                cells.len() <= count,
                call_ensures(C::default, (), cell),
                forall|i: int| 0 <= i < cells.len() ==> cells[i] == cell,
            decreases count - cells.len(),
        {
            cells.push(cell);
        }
        Field { size, field: cells }
    }
}

impl<C: Copy + Default> Default for Field<C> {
    /// A field of one default cell.
    fn default() -> (field: Self)
        ensures
            field@.wf(),
            field@.width == 1,
            field@.height == 1,
            call_ensures(C::default, (), field@.cells[0]),
    {
        Self::new((1, 1))
    }
}

impl<C> Field<C> {
    /// The dimensions of the field: its width, then its height.
    pub fn size(&self) -> (size: (usize, usize))
        ensures
            self@.wf(),
            size.0 == self@.width,
            size.1 == self@.height,
    {
        proof {
            use_type_invariant(self);
        }
        self.size
    }

    /// All positions of the field, row by row, from left to right in each
    /// row: the position at place `i` is that of the cell at place `i`.
    pub fn locs(&self) -> (locs: Vec<(usize, usize)>)
        ensures
            self@.wf(),
            locs@.len() == self@.cells.len(),
            forall|i: int|
                0 <= i < locs@.len() ==> (#[trigger] locs@[i]).0 == self@.loc_of(i).0 && locs@[i].1
                    == self@.loc_of(i).1,
    {
        proof {
            use_type_invariant(self);
        }
        let (length, height) = self.size;
        let ghost grid = self@;
        let mut locs: Vec<(usize, usize)> = Vec::new();
        let mut y: usize = 0;
        while y < height
            invariant
                grid.wf(),
                grid.width == length,
                grid.height == height,
                y <= height,
                locs@.len() == y * length,
                forall|i: int|
                    0 <= i < locs@.len() ==> (#[trigger] locs@[i]).0 == grid.loc_of(i).0
                        && locs@[i].1 == grid.loc_of(i).1,
            decreases height - y,
        {
            let mut x: usize = 0;
            while x < length
                invariant
                    grid.wf(),
                    grid.width == length,
                    grid.height == height,
                    y < height,
                    x <= length,
                    locs@.len() == y * length + x,
                    forall|i: int|
                        0 <= i < locs@.len() ==> (#[trigger] locs@[i]).0 == grid.loc_of(i).0
                            && locs@[i].1 == grid.loc_of(i).1,
                decreases length - x,
            {
                proof {
                    crate::grid::lemma_index_of_in_range(grid, x as int, y as int);
                }
                locs.push((x, y));
                x += 1;
            }
            assert((y + 1) * length == y * length + length) by (nonlinear_arith);
            y += 1;
        }
        assert(height * length == length * height) by (nonlinear_arith);
        locs
    }

    /// All cells of the field, in the order of `locs`.
    pub fn cells(&self) -> (cells: Vec<&C>)
        ensures
            self@.wf(),
            cells@.len() == self@.cells.len(),
            forall|i: int| 0 <= i < cells@.len() ==> *cells@[i] == self@.cells[i],
    {
        proof {
            use_type_invariant(self);
        }
        let count = self.field.len();
        let mut cells: Vec<&C> = Vec::new();
        let mut ind: usize = 0;
        while ind < count
            invariant
                count == self.field.len(),
                ind <= count,
                cells@.len() == ind,
                forall|i: int| 0 <= i < ind ==> *cells@[i] == self.field@[i],
            decreases count - ind,
        {
            cells.push(&self.field[ind]);
            ind += 1;
        }
        cells
    }

    /// The place in the row-major buffer of the position `loc`.
    pub fn index(&self, loc: (usize, usize)) -> (index: usize)
        requires
            loc.1 * self@.width + loc.0 <= usize::MAX,
        ensures
            index == self@.index_of(loc.0 as int, loc.1 as int),
    {
        loc.1 * self.size.0 + loc.0
    }

    /// The cell at `loc`, if `loc` is a position of the field.
    pub fn get(&self, loc: (usize, usize)) -> (cell: Option<&C>)
        ensures
            self@.wf(),
            self@.contains(loc.0 as int, loc.1 as int) ==> cell == Some(
                &self@.cell(loc.0 as int, loc.1 as int),
            ),
            !self@.contains(loc.0 as int, loc.1 as int) ==> cell.is_none(),
    {
        proof {
            use_type_invariant(self);
        }
        if loc.0 < self.size.0 && loc.1 < self.size.1 {
            proof {
                crate::grid::lemma_index_of_in_range(self@, loc.0 as int, loc.1 as int);
                assert(self@.index_of(loc.0 as int, loc.1 as int) < self.field.len());
            }
            let index = self.index(loc);
            Some(&self.field[index])
        } else {
            None
        }
    }

    /// The cell at `loc` to write to, if `loc` is a position of the field.
    /// What the caller leaves in it is the field's cell at `loc` afterwards;
    /// nothing else changes.
    pub fn get_mut(&mut self, loc: (usize, usize)) -> (cell: Option<&mut C>)
        ensures
            old(self)@.wf(),
            final(self)@.wf(),
            old(self)@.contains(loc.0 as int, loc.1 as int) ==> cell.is_some()
                && *cell.unwrap() == old(self)@.cell(loc.0 as int, loc.1 as int)
                && final(self)@ == old(self)@.with_cell(
                loc.0 as int,
                loc.1 as int,
                *final(cell.unwrap()),
            ),
            !old(self)@.contains(loc.0 as int, loc.1 as int) ==> cell.is_none() && final(self)@
                == old(self)@,
    {
        proof {
            use_type_invariant(&*self);
        }
        if loc.0 < self.size.0 && loc.1 < self.size.1 {
            proof {
                crate::grid::lemma_index_of_in_range(self@, loc.0 as int, loc.1 as int);
                assert(self@.index_of(loc.0 as int, loc.1 as int) < self.field.len());
            }
            let index = self.index(loc);
            Some(&mut self.field[index])
        } else {
            None
        }
    }
}

/// `String::push` of std: the character is appended to the string, and
/// nothing else of the string changes.
pub assume_specification[ String::push ](text: &mut String, ch: char)
    ensures
        final(text)@ == old(text)@.push(ch),
;

impl<C: Glyph> Field<C> {
    /// The field as text: row by row the character of each cell, and a
    /// line feed after each row.
    pub fn render_rows(&self) -> (text: String)
        ensures
            self@.wf(),
            text@ == self@.text(),
    {
        proof {
            use_type_invariant(self);
        }
        let (length, height) = self.size;
        let ghost grid = self@;
        let mut output = String::new();
        if length == 0 {
            return output;
        }
        let mut y: usize = 0;
        while y < height
            invariant
                self@ == grid,
                grid.wf(),
                grid.width == length,
                grid.height == height,
                length > 0,
                y <= height,
                output@ == grid.rows_text(y as nat),
            decreases height - y,
        {
            let ghost done = output@;
            let mut x: usize = 0;
            while x < length
                invariant
                    self@ == grid,
                    grid.wf(),
                    grid.width == length,
                    grid.height == height,
                    y < height,
                    x <= length,
                    output@ == done + Seq::new(x as nat, |i: int| grid.cell(i, y as int).glyph_spec()),
                decreases length - x,
            {
                proof {
                    crate::grid::lemma_index_of_in_range(grid, x as int, y as int);
                    assert(grid.index_of(x as int, y as int) < self.field.len());
                    assert(0 <= y * length) by (nonlinear_arith);
                }
                let glyph = self.field[y * length + x].glyph();
                output.push(glyph);
                assert(output@ =~= done + Seq::new(
                    (x + 1) as nat,
                    |i: int| grid.cell(i, y as int).glyph_spec(),
                ));
                x += 1;
            }
            output.push('\n');
            assert(output@ =~= done + grid.row_text(y as int));
            y += 1;
        }
        output
    }
}

impl<C: Cell> Field<C> {
    /// Moves the whole field on by one generation. Every next state is
    /// found from the field as it was before the call; only then does any
    /// cell change.
    pub fn next_generation(&mut self)
        ensures
            old(self)@.wf(),
            final(self)@.wf(),
            final(self)@.width == old(self)@.width,
            final(self)@.height == old(self)@.height,
            final(self)@.cells.len() == old(self)@.cells.len(),
            final(self)@ == old(self)@.next_generation(),
    {
        proof {
            use_type_invariant(&*self);
        }
        let ghost before = self@;
        let count = self.field.len();
        let width = self.size.0;
        let mut new_states: Vec<C::State> = Vec::new();
        let mut index: usize = 0;
        while index < count
            invariant
                self@ == before,
                before.wf(),
                count == before.cells.len(),
                width == before.width,
                index <= count,
                new_states.len() == index,
                forall|i: int|
                    0 <= i < index ==> new_states[i] == before.cells[i].next_state_spec(
                        before,
                        before.loc_of(i),
                    ),
            decreases count - index,
        {
            proof {
                crate::grid::lemma_loc_of_in_grid(before, index as int);
            }
            let loc = (index % width, index / width);
            let state = self.field[index].next_state(&*self, loc);
            new_states.push(state);
            index += 1;
        }
        let ghost states = new_states@;
        let mut index: usize = 0;
        for state in it: new_states
            invariant
                index == it.index(),
                it.seq() == states,
                states.len() == count,
                self@.width == before.width,
                self@.height == before.height,
                self@.cells.len() == count,
                before.wf(),
                count == before.cells.len(),
                forall|i: int| 0 <= i < index ==> self@.cells[i] == before.cells[i].updated(states[i]),
                forall|i: int| index <= i < count ==> self@.cells[i] == before.cells[i],
        {
            self.field[index].update(state);
            index += 1;
        }
        assert(self@.cells =~= before.next_generation().cells);
    }
}

} // verus!
