use crate::field::Field;
use crate::grid::Grid;
use crate::life::ConwayCell;
use vstd::prelude::*;

verus! {

/// Whether the game is being edited or is running.
#[derive(Debug, Clone, Copy, PartialEq, Eq)]
pub enum InputMode {
    Edit,
    Run,
}

/// A key of the keyboard, as far as the game tells keys apart.
#[derive(Debug, Clone, Copy, PartialEq, Eq)]
pub enum Key {
    Enter,
    Esc,
    Left,
    Right,
    Up,
    Down,
    Char(char),
    Other,
}

/// What the player did: a key was pressed, or the left mouse button went
/// down or was dragged at a row and a column of the screen.
#[derive(Debug, Clone, Copy, PartialEq, Eq)]
pub enum Event {
    Key(Key),
    LeftDown { row: u16, column: u16 },
    LeftDrag { row: u16, column: u16 },
    Other,
}

/// The model of a game: the grid, where the cursor is, where the last
/// press of the mouse was and what it painted, and the mode.
pub struct AppState {
    pub grid: Grid<ConwayCell>,
    pub cursor: (int, int),
    pub dragging: (int, int),
    pub dragging_state: bool,
    pub mode: InputMode,
}

/// The cell of the screen column or row `at`, which is one further than the
/// coordinate because of the border, kept below `limit`.
pub open spec fn on_field(at: int, limit: int) -> int {
    if at - 1 < 0 {
        0
    } else if at - 1 > limit - 1 {
        limit - 1
    } else {
        at - 1
    }
}

impl AppState {
    /// The grid is well formed and the cursor stands on one of its cells.
    pub open spec fn wf(self) -> bool {
        self.grid.wf() && self.grid.contains(self.cursor.0, self.cursor.1)
    }

    /// The cursor one column to the left, unless it is in the first.
    pub open spec fn move_cursor_left(self) -> AppState {
        AppState {
            cursor: (
                if self.cursor.0 > 0 {
                    self.cursor.0 - 1
                } else {
                    0
                },
                self.cursor.1,
            ),
            ..self
        }
    }

    /// The cursor one column to the right, unless it is in the last.
    pub open spec fn move_cursor_right(self) -> AppState {
        AppState {
            cursor: (
                if self.cursor.0 + 1 < self.grid.width {
                    self.cursor.0 + 1
                } else {
                    self.grid.width - 1
                },
                self.cursor.1,
            ),
            ..self
        }
    }

    /// The cursor one row up, unless it is in the first.
    pub open spec fn move_cursor_up(self) -> AppState {
        AppState {
            cursor: (
                self.cursor.0,
                if self.cursor.1 > 0 {
                    self.cursor.1 - 1
                } else {
                    0
                },
            ),
            ..self
        }
    }

    /// The cursor one row down, unless it is in the last.
    pub open spec fn move_cursor_down(self) -> AppState {
        AppState {
            cursor: (
                self.cursor.0,
                if self.cursor.1 + 1 < self.grid.height {
                    self.cursor.1 + 1
                } else {
                    self.grid.height - 1
                },
            ),
            ..self
        }
    }

    /// The game with the cell under the cursor set to `alive`.
    pub open spec fn paint(self, alive: bool) -> AppState {
        AppState {
            grid: self.grid.with_cell(self.cursor.0, self.cursor.1, ConwayCell { alive }),
            ..self
        }
    }

    /// The game with the cell under the cursor turned over.
    pub open spec fn toggle(self) -> AppState {
        self.paint(!self.grid.cell(self.cursor.0, self.cursor.1).alive)
    }

    /// The game with the cursor on the cell that is shown at `row` and
    /// `column` of the screen, or on the nearest cell of the field.
    pub open spec fn set_cursor(self, row: int, column: int) -> AppState {
        AppState {
            cursor: (on_field(column, self.grid.width as int), on_field(row, self.grid.height as int)),
            ..self
        }
    }

    /// The game with dragging set to paint the opposite of what the cell
    /// under the cursor is.
    pub open spec fn toggle_dragging_state(self) -> AppState {
        AppState { dragging_state: !self.grid.cell(self.cursor.0, self.cursor.1).alive, ..self }
    }

    /// The game with the cell under the cursor set to what dragging paints.
    pub open spec fn set_cell(self) -> AppState {
        self.paint(self.dragging_state)
    }

    /// The game after one tick: a generation later if it is running, and
    /// unchanged if it is being edited.
    pub open spec fn update(self) -> AppState {
        match self.mode {
            InputMode::Run => AppState { grid: self.grid.next_generation(), ..self },
            InputMode::Edit => self,
        }
    }

    /// The game after a press of the left mouse button at `row` and
    /// `column`: the cursor goes there, the cell there is turned over, and
    /// dragging paints from now on what that cell has become.
    pub open spec fn press(self, row: int, column: int) -> AppState {
        let at = self.set_cursor(row, column).toggle_dragging_state();
        (AppState { dragging: at.cursor, ..at }).set_cell()
    }

    /// The game after `key` was pressed.
    pub open spec fn key(self, key: Key) -> AppState {
        match key {
            Key::Enter => match self.mode {
                InputMode::Edit => AppState { mode: InputMode::Run, ..self },
                InputMode::Run => AppState { mode: InputMode::Edit, ..self },
            },
            Key::Left | Key::Char('h') => self.move_cursor_left(),
            Key::Right | Key::Char('l') => self.move_cursor_right(),
            Key::Up | Key::Char('k') => self.move_cursor_up(),
            Key::Down | Key::Char('j') => self.move_cursor_down(),
            Key::Char(' ') => match self.mode {
                InputMode::Edit => self.toggle(),
                InputMode::Run => self,
            },
            _ => self,
        }
    }

    /// The game after `event`. The mouse paints only while the game is
    /// being edited.
    pub open spec fn handle_event(self, event: Event) -> AppState {
        match event {
            Event::Key(key) => self.key(key),
            Event::LeftDown { row, column } => match self.mode {
                InputMode::Edit => self.press(row as int, column as int),
                InputMode::Run => self,
            },
            Event::LeftDrag { row, column } => match self.mode {
                InputMode::Edit => self.set_cursor(row as int, column as int).set_cell(),
                InputMode::Run => self,
            },
            Event::Other => self,
        }
    }
}

/// A game of life with a cursor to edit it by.
pub struct App {
    field: Field<ConwayCell>,
    cursor_loc: (usize, usize),
    dragging_loc: (usize, usize),
    dragging_state: bool,
    mode: InputMode,
}

impl View for App {
    type V = AppState;

    closed spec fn view(&self) -> AppState {
        AppState {
            grid: self.field@,
            cursor: (self.cursor_loc.0 as int, self.cursor_loc.1 as int),
            dragging: (self.dragging_loc.0 as int, self.dragging_loc.1 as int),
            dragging_state: self.dragging_state,
            mode: self.mode,
        }
    }
}

impl App {
    /// A game on a field of `size.0` columns and `size.1` rows, with no
    /// cell alive, the cursor in the first corner, and ready to be edited.
    pub fn new(size: (usize, usize)) -> (app: App)
        requires
            size.0 > 0,
            size.1 > 0,
            size.0 * size.1 <= usize::MAX,
        ensures
            app@.wf(),
            app@.grid.width == size.0,
            app@.grid.height == size.1,
            forall|i: int| 0 <= i < app@.grid.cells.len() ==> !(#[trigger] app@.grid.cells[i]).alive,
            app@.cursor == (0int, 0int),
            app@.dragging == (0int, 0int),
            app@.dragging_state,
            app@.mode == InputMode::Edit,
    {
        App {
            field: Field::new(size),
            cursor_loc: (0, 0),
            dragging_loc: (0, 0),
            dragging_state: true,
            mode: InputMode::Edit,
        }
    }

    /// The field of the game.
    pub fn field(&self) -> (field: &Field<ConwayCell>)
        ensures
            field@ == self@.grid,
    {
        &self.field
    }

    /// Where the cursor is: its column, then its row.
    pub fn cursor_loc(&self) -> (loc: (usize, usize))
        ensures
            (loc.0 as int, loc.1 as int) == self@.cursor,
    {
        self.cursor_loc
    }

    /// Whether the game is being edited or is running.
    pub fn mode(&self) -> (mode: InputMode)
        ensures
            mode == self@.mode,
    {
        self.mode
    }

    /// Moves the cursor one column to the left, unless it is in the first.
    pub fn move_cursor_left(&mut self)
        requires
            old(self)@.wf(),
        ensures
            final(self)@ == old(self)@.move_cursor_left(),
            final(self)@.wf(),
    {
        if self.cursor_loc.0 > 0 {
            self.cursor_loc.0 = self.cursor_loc.0 - 1;
        }
    }

    /// Moves the cursor one column to the right, unless it is in the last.
    pub fn move_cursor_right(&mut self)
        requires
            old(self)@.wf(),
        ensures
            final(self)@ == old(self)@.move_cursor_right(),
            final(self)@.wf(),
    {
        let (x_lim, _) = self.field.size();
        if self.cursor_loc.0 + 1 < x_lim {
            self.cursor_loc.0 = self.cursor_loc.0 + 1;
        } else {
            self.cursor_loc.0 = x_lim - 1;
        }
    }

    /// Moves the cursor one row down, unless it is in the last.
    pub fn move_cursor_down(&mut self)
        requires
            old(self)@.wf(),
        ensures
            final(self)@ == old(self)@.move_cursor_down(),
            final(self)@.wf(),
    {
        let (_, y_lim) = self.field.size();
        if self.cursor_loc.1 + 1 < y_lim {
            self.cursor_loc.1 = self.cursor_loc.1 + 1;
        } else {
            self.cursor_loc.1 = y_lim - 1;
        }
    }

    /// Moves the cursor one row up, unless it is in the first.
    pub fn move_cursor_up(&mut self)
        requires
            old(self)@.wf(),
        ensures
            final(self)@ == old(self)@.move_cursor_up(),
            final(self)@.wf(),
    {
        if self.cursor_loc.1 > 0 {
            self.cursor_loc.1 = self.cursor_loc.1 - 1;
        }
    }

    /// Lets the game run.
    pub fn start(&mut self)
        requires
            old(self)@.wf(),
        ensures
            final(self)@ == (AppState { mode: InputMode::Run, ..old(self)@ }),
            final(self)@.wf(),
    {
        self.mode = InputMode::Run;
    }

    /// Stops the game, to edit it.
    pub fn pause(&mut self)
        requires
            old(self)@.wf(),
        ensures
            final(self)@ == (AppState { mode: InputMode::Edit, ..old(self)@ }),
            final(self)@.wf(),
    {
        self.mode = InputMode::Edit;
    }

    /// Turns the cell under the cursor over.
    pub fn toggle(&mut self)
        requires
            old(self)@.wf(),
        ensures
            final(self)@ == old(self)@.toggle(),
            final(self)@.wf(),
    {
        let cell = self.field.get_mut(self.cursor_loc).expect("Cursor is bounded");
        cell.alive = !cell.alive;
    }

    /// One tick: moves the field on by a generation if the game is running.
    pub fn update(&mut self)
        requires
            old(self)@.wf(),
        ensures
            final(self)@ == old(self)@.update(),
            final(self)@.wf(),
    {
        if let InputMode::Run = self.mode {
            self.field.next_generation();
        }
    }

    /// Puts the cursor on the cell that is shown at `row` and `column` of
    /// the screen, or on the nearest cell of the field.
    pub fn set_cursor(&mut self, row: u16, column: u16)
        requires
            old(self)@.wf(),
        ensures
            final(self)@ == old(self)@.set_cursor(row as int, column as int),
            final(self)@.wf(),
    {
        let (x_lim, y_lim) = self.field.size();
        self.cursor_loc = (to_field(column, x_lim), to_field(row, y_lim));
    }

    /// Sets dragging to paint the opposite of what the cell under the
    /// cursor is.
    pub fn toggle_dragging_state(&mut self)
        requires
            old(self)@.wf(),
        ensures
            final(self)@ == old(self)@.toggle_dragging_state(),
            final(self)@.wf(),
    {
        self.dragging_state = !self.field.get(self.cursor_loc).expect("Cursor is bounded").alive;
    }

    /// Sets the cell under the cursor to what dragging paints.
    pub fn set_cell(&mut self)
        requires
            old(self)@.wf(),
        ensures
            final(self)@ == old(self)@.set_cell(),
            final(self)@.wf(),
    {
        let cell = self.field.get_mut(self.cursor_loc).expect("Cursor is bounded");
        cell.alive = self.dragging_state;
    }

    /// Takes one event in. Says whether the player wants to leave, which
    /// is so on the escape key and on nothing else.
    pub fn handle_event(&mut self, event: Event) -> (quit: bool)
        requires
            old(self)@.wf(),
        ensures
            final(self)@ == old(self)@.handle_event(event),
            final(self)@.wf(),
            quit <==> event == Event::Key(Key::Esc),
    {
        match event {
            Event::Key(key) => match self.mode {
                InputMode::Edit => match key {
                    Key::Enter => self.start(),
                    Key::Char('h') | Key::Left => self.move_cursor_left(),
                    Key::Char('l') | Key::Right => self.move_cursor_right(),
                    Key::Char('k') | Key::Up => self.move_cursor_up(),
                    Key::Char('j') | Key::Down => self.move_cursor_down(),
                    Key::Char(' ') => self.toggle(),
                    Key::Esc => return true,
                    _ => {},
                },
                InputMode::Run => match key {
                    Key::Esc => return true,
                    Key::Enter => self.pause(),
                    Key::Char('h') | Key::Left => self.move_cursor_left(),
                    Key::Char('l') | Key::Right => self.move_cursor_right(),
                    Key::Char('k') | Key::Up => self.move_cursor_up(),
                    Key::Char('j') | Key::Down => self.move_cursor_down(),
                    _ => {},
                },
            },
            Event::LeftDown { row, column } => match self.mode {
                InputMode::Edit => {
                    self.set_cursor(row, column);
                    self.toggle_dragging_state();
                    self.dragging_loc = self.cursor_loc;
                    self.set_cell();
                },
                InputMode::Run => {},
            },
            Event::LeftDrag { row, column } => match self.mode {
                InputMode::Edit => {
                    self.set_cursor(row, column);
                    self.set_cell();
                },
                InputMode::Run => {},
            },
            Event::Other => {},
        }
        false
    }
}

/// The coordinate on the field of the screen column or row `at`: one less,
/// because of the border, and no less than nought and no more than the
/// last coordinate below `limit`.
fn to_field(at: u16, limit: usize) -> (coord: usize)
    requires
        limit > 0,
    ensures
        coord == on_field(at as int, limit as int),
{
    let inner: usize = if at == 0 {
        0
    } else {
        (at - 1) as usize
    };
    if inner > limit - 1 {
        limit - 1
    } else {
        inner
    }
}

} // verus!
