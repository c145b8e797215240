use vstd::prelude::*;

use crate::terminal::event::{Event, Key};
use crate::terminal::style::Color;
use crate::terminal::Size;
use crate::text_buffer::{
    after_save, after_save_as, edited, empty_buffer, lemma_buffer_never_empty, opened, inserted, Buffer, BufferStatus, BufferView,
};

mod cursor;
pub mod mode;
mod prompt;

pub use cursor::Cursor;
pub use prompt::{closes_help_menu, first_forbidden_in_argument, lemma_utf8_len_of_prefix, is_forbidden_in_path, prompt_step, utf8_len, utf8_width, PathPrompt};

verus! {

/// The editor's state: the buffer, the cursor in it, the offsets of the
/// viewport (the buffer cell shown at the top-left of the screen), the
/// terminal's size, and whether the user asked to quit.
pub struct Editor {
    will_quit_flag: bool,
    size: Size,
    text_buffer: Buffer,
    cursor: Cursor,
    text_buffer_row_offset: usize,
    text_buffer_col_offset: usize,
}

/// What an editor holds, in plain numbers.
pub struct EditorView {
    pub buffer: BufferView,
    pub col: int,
    pub row: int,
    pub row_offset: int,
    pub col_offset: int,
    pub screen_cols: int,
    pub screen_rows: int,
    pub will_quit: bool,
}

/// The hint shown at the left of the status bar.
pub const STATUS_BAR: &'static str = "ctrl + h: help menu";

/// The label shown for a buffer with no path.
pub const UNSAVED_LABEL: &'static str = "unsaved";

/// What the user's control-key command asks of the surroundings.
#[derive(Clone, Copy, Debug, PartialEq, Eq, Structural)]
pub enum Request {
    Nothing,
    /// Write the buffer to its path.
    Save,
    /// Ask the user for a path, then write the buffer there.
    AskPathThenSave,
    /// Ask the user for a path, then open that file.
    AskPathThenOpen,
    ShowHelp,
}

pub open spec fn smaller(a: int, b: int) -> int {
    if a < b {
        a
    } else {
        b
    }
}

pub open spec fn row_len(v: EditorView, r: int) -> int {
    v.buffer.rows[r].len() as int
}

/// Rows of text on screen: the terminal's last row holds the status bar.
pub open spec fn visible_rows(v: EditorView) -> int {
    v.screen_rows - 1
}

/// The cursor is on an existing row, at most one past its last character.
pub open spec fn cursor_in_buffer(v: EditorView) -> bool {
    &&& 0 <= v.row < v.buffer.rows.len()
    &&& 0 <= v.col <= row_len(v, v.row)
}

/// The viewport starts at or before the cursor, so the cursor's position on
/// screen (its position minus the offsets) is defined.
pub open spec fn caret_on_screen(v: EditorView) -> bool {
    &&& 0 <= v.row_offset <= v.row
    &&& 0 <= v.col_offset <= v.col
}

/// The cursor lies inside the viewport: its row among the rows of text on
/// screen, its column at most one screen width right of the column offset.
pub open spec fn viewport_holds(v: EditorView) -> bool {
    viewport_rows_hold(v) && viewport_cols_hold(v)
}

/// How many rows of text the screen shows: the rows from the row offset on,
/// at most as many as fit above the status bar.
pub open spec fn shown_row_count(v: EditorView) -> int {
    smaller(v.screen_rows - 1, v.buffer.rows.len() - v.row_offset)
}

/// The part of `line` that the screen shows: from the column offset on, at
/// most one column fewer than the screen is wide.
pub open spec fn shown_part(v: EditorView, line: Seq<char>) -> Seq<char> {
    line.subrange(
        smaller(v.col_offset, line.len() as int),
        smaller(line.len() as int, v.col_offset + v.screen_cols - 1),
    )
}

/// The label at the right end of the status bar: the buffer's path, green
/// when saved and red when not, placed so that it ends at the screen's edge
/// and shown only when narrower than the screen; or "unsaved" in red when
/// there is no path.
pub open spec fn status_label_of(v: EditorView) -> Option<(Seq<char>, int, Color, Color)> {
    match v.buffer.path {
        Some(p) => if utf8_len(p) < v.screen_cols {
            Some(
                (
                    p,
                    v.screen_cols - utf8_len(p),
                    Color::White,
                    if v.buffer.status == BufferStatus::Saved {
                        Color::Green
                    } else {
                        Color::Red
                    },
                ),
            )
        } else {
            None
        },
        None => Some((UNSAVED_LABEL@, v.screen_cols - 7, Color::White, Color::Red)),
    }
}

/// The rows half of `viewport_holds`.
pub open spec fn viewport_rows_hold(v: EditorView) -> bool {
    0 <= v.row_offset <= v.row < v.row_offset + visible_rows(v)
}

/// The columns half of `viewport_holds`.
pub open spec fn viewport_cols_hold(v: EditorView) -> bool {
    0 <= v.col_offset <= v.col <= v.col_offset + v.screen_cols
}

/// A move up recomputes the column offset without passing the cursor: the new
/// column fits on screen, or the row above is at most one screen wider than it.
pub open spec fn up_offset_fits(v: EditorView) -> bool {
    v.row > 0 ==> {
        let nc = smaller(v.col, row_len(v, v.row - 1));
        nc < v.screen_cols || row_len(v, v.row - 1) <= nc + v.screen_cols
    }
}

/// A move down recomputes the column offset without passing the cursor: the
/// new column fits on screen, or the row left is at most one screen wider
/// than it.
pub open spec fn down_offset_fits(v: EditorView) -> bool {
    v.row + 1 < v.buffer.rows.len() ==> {
        let nc = smaller(v.col, row_len(v, v.row + 1));
        nc < v.screen_cols || row_len(v, v.row) <= nc + v.screen_cols
    }
}

/// Moving up: the column is clamped to the row above, the view scrolls up
/// when the cursor was on its top row, and the column offset is recomputed
/// from the row entered.
pub open spec fn moved_up(v: EditorView) -> EditorView {
    if v.row > 0 {
        let nr = v.row - 1;
        let nc = smaller(v.col, row_len(v, nr));
        EditorView {
            row_offset: if v.row == v.row_offset {
                v.row_offset - 1
            } else {
                v.row_offset
            },
            col: nc,
            row: nr,
            col_offset: if nc < v.screen_cols {
                0
            } else {
                row_len(v, nr) - v.screen_cols
            },
            ..v
        }
    } else {
        v
    }
}

/// Moving down: the column is clamped to the row below, the view scrolls down
/// when the cursor would come within two rows of the screen's bottom, and the
/// column offset is recomputed from the row left.
pub open spec fn moved_down(v: EditorView) -> EditorView {
    if v.row + 1 < v.buffer.rows.len() {
        let nr = v.row + 1;
        let nc = smaller(v.col, row_len(v, nr));
        EditorView {
            row_offset: if v.row - v.row_offset + 2 >= v.screen_rows {
                v.row_offset + 1
            } else {
                v.row_offset
            },
            col: nc,
            row: nr,
            col_offset: if nc < v.screen_cols {
                0
            } else {
                row_len(v, v.row) - v.screen_cols
            },
            ..v
        }
    } else {
        v
    }
}

/// Moving left: within the screen the cursor moves; at the screen's left edge
/// the view scrolls left with it; at the buffer's left edge nothing happens.
pub open spec fn moved_left(v: EditorView) -> EditorView {
    if v.col - v.col_offset > 0 {
        EditorView { col: v.col - 1, ..v }
    } else if v.col_offset > 0 {
        EditorView { col: v.col - 1, col_offset: v.col_offset - 1, ..v }
    } else {
        v
    }
}

/// Moving right: nothing past the row's end; otherwise the view scrolls right
/// when the cursor would pass the second-to-last screen column.
pub open spec fn moved_right(v: EditorView) -> EditorView {
    if v.col < row_len(v, v.row) {
        EditorView {
            col: v.col + 1,
            col_offset: if v.col - v.col_offset + 2 > v.screen_cols {
                v.col_offset + 1
            } else {
                v.col_offset
            },
            ..v
        }
    } else {
        v
    }
}

/// Typing `c`: it is inserted at the cursor, which then moves right.
pub open spec fn typed(v: EditorView, c: char) -> EditorView {
    moved_right(
        EditorView {
            buffer: edited(
                v.buffer,
                v.buffer.rows.update(v.row, inserted(v.buffer.rows[v.row], v.col, c)),
            ),
            ..v
        },
    )
}

/// Backspace: deletes the character left of the cursor and moves left; at a
/// row's start, joins the row onto the one above, with the cursor at the join.
pub open spec fn backspaced(v: EditorView) -> EditorView {
    if v.col > 0 {
        moved_left(
            EditorView {
                buffer: edited(
                    v.buffer,
                    v.buffer.rows.update(v.row, v.buffer.rows[v.row].remove(v.col - 1)),
                ),
                ..v
            },
        )
    } else if v.row > 0 {
        let above = v.buffer.rows[v.row - 1];
        EditorView {
            buffer: edited(
                v.buffer,
                v.buffer.rows.remove(v.row).update(v.row - 1, above + v.buffer.rows[v.row]),
            ),
            col: above.len() as int,
            row: v.row - 1,
            ..v
        }
    } else {
        v
    }
}

/// Enter: at a row's end, opens an empty row below; elsewhere moves the rest
/// of the row to a new row below. Either way the cursor moves down, and in the
/// second case to the new row's start.
pub open spec fn entered(v: EditorView) -> EditorView {
    let line = v.buffer.rows[v.row];
    if v.col == line.len() {
        moved_down(
            EditorView {
                buffer: edited(v.buffer, v.buffer.rows.insert(v.row + 1, Seq::empty())),
                ..v
            },
        )
    } else {
        let rows = v.buffer.rows.update(v.row, line.subrange(0, v.col)).insert(
            v.row + 1,
            line.subrange(v.col, line.len() as int),
        );
        EditorView { col: 0, ..moved_down(EditorView { buffer: edited(v.buffer, rows), ..v }) }
    }
}

/// The effect of pressing `key` without a modifier.
pub open spec fn key_effect(v: EditorView, key: Key) -> EditorView {
    match key {
        Key::Char(c) => typed(v, c),
        Key::Backspace => backspaced(v),
        Key::Enter => entered(v),
        Key::DownArrow => moved_down(v),
        Key::UpArrow => moved_up(v),
        Key::LeftArrow => moved_left(v),
        Key::RightArrow => moved_right(v),
        _ => v,
    }
}

/// The edit that `key` makes keeps every count within `usize`.
pub open spec fn fits_in_memory(v: EditorView, key: Key) -> bool {
    match key {
        Key::Char(_) => row_len(v, v.row) < usize::MAX,
        Key::Enter => v.buffer.rows.len() < usize::MAX,
        Key::Backspace => (v.col == 0 && v.row > 0) ==> row_len(v, v.row - 1) + row_len(v, v.row)
            <= usize::MAX,
        _ => true,
    }
}

/// What a control-key command asks for.
pub open spec fn ctrl_request(v: EditorView, key: Key) -> Request {
    match key {
        Key::Char(c) => if c == 's' {
            if v.buffer.path.is_some() {
                Request::Save
            } else {
                Request::AskPathThenSave
            }
        } else if c == 'o' {
            Request::AskPathThenOpen
        } else if c == 'h' {
            Request::ShowHelp
        } else {
            Request::Nothing
        },
        _ => Request::Nothing,
    }
}

/// Each cursor move keeps the cursor inside the viewport. Moving left or right
/// always does; moving up or down always keeps the rows, and keeps the columns
/// whenever the column offset it recomputes does not pass the cursor.
pub proof fn lemma_moves_keep_viewport(v: EditorView)
    requires
        cursor_in_buffer(v),
        viewport_holds(v),
    ensures
        viewport_holds(moved_left(v)),
        viewport_holds(moved_right(v)),
        viewport_rows_hold(moved_up(v)),
        viewport_rows_hold(moved_down(v)),
        up_offset_fits(v) ==> viewport_holds(moved_up(v)),
        down_offset_fits(v) ==> viewport_holds(moved_down(v)),
{
}

impl View for Editor {
    type V = EditorView;

    closed spec fn view(&self) -> EditorView {
        EditorView {
            buffer: self.text_buffer@,
            col: self.cursor@.0 as int,
            row: self.cursor@.1 as int,
            row_offset: self.text_buffer_row_offset as int,
            col_offset: self.text_buffer_col_offset as int,
            screen_cols: self.size.cols_spec() as int,
            screen_rows: self.size.rows_spec() as int,
            will_quit: self.will_quit_flag,
        }
    }
}

impl Editor {
    /// The buffer is well formed and the cursor lies in it.
    pub closed spec fn wf(&self) -> bool {
        &&& self.text_buffer.wf()
        &&& cursor_in_buffer(self@)
    }

    /// An editor on the file named by `args`, given what reading it gave, or
    /// on an empty buffer when there is no file; the cursor and the viewport
    /// start at the top-left.
    pub fn new(args: Option<String>, contents: Option<Vec<char>>, size: Size) -> (r: Self)
        ensures
            r.wf(),
            r@.buffer == match args {
                Some(p) => opened(
                    p@,
                    match contents {
                        Some(t) => Some(t@),
                        None => None,
                    },
                ),
                None => empty_buffer(),
            },
            r@.col == 0 && r@.row == 0,
            r@.row_offset == 0 && r@.col_offset == 0,
            r@.screen_cols == size.cols_spec() && r@.screen_rows == size.rows_spec(),
            !r@.will_quit,
    {
        let text_buffer = match args {
            Some(e) => Buffer::new_from_file(e, contents),
            None => Buffer::new_empty(),
        };
        Editor {
            will_quit_flag: false,
            size,
            text_buffer,
            cursor: Cursor::new(),
            text_buffer_row_offset: 0,
            text_buffer_col_offset: 0,
        }
    }

    pub fn current_row_position(&self) -> (r: usize)
        ensures
            r == self@.row,
    {
        self.cursor.get_row()
    }

    pub fn current_col_position(&self) -> (r: usize)
        ensures
            r == self@.col,
    {
        self.cursor.get_col()
    }

    /// The buffer row shown at the top of the screen.
    pub fn row_offset(&self) -> (r: usize)
        ensures
            r == self@.row_offset,
    {
        self.text_buffer_row_offset
    }

    /// The buffer column shown at the left of the screen.
    pub fn col_offset(&self) -> (r: usize)
        ensures
            r == self@.col_offset,
    {
        self.text_buffer_col_offset
    }

    pub fn move_cursor_up(&mut self)
        requires
            old(self).wf(),
        ensures
            final(self).wf(),
            final(self)@ == moved_up(old(self)@),
    {
        let row = self.current_row_position();
        if row > 0 {
            if row == self.text_buffer_row_offset {
                self.text_buffer_row_offset = self.text_buffer_row_offset - 1;
            }
            let above = self.text_buffer.get_lenght_of_row(row - 1);
            let col = self.current_col_position();
            let new_col = if col < above {
                col
            } else {
                above
            };
            self.cursor.set_col_row(new_col, row - 1);
            if new_col < self.size.get_cols() {
                self.text_buffer_col_offset = 0;
            } else {
                self.text_buffer_col_offset = above - self.size.get_cols();
            }
        }
    }

    pub fn move_cursor_down(&mut self)
        requires
            old(self).wf(),
            caret_on_screen(old(self)@),
        ensures
            final(self).wf(),
            final(self)@ == moved_down(old(self)@),
    {
        let row = self.current_row_position();
        let count = self.text_buffer.get_lenght();
        if row + 1 < count {
            if row - self.text_buffer_row_offset + 2 >= self.size.get_rows() {
                self.text_buffer_row_offset = self.text_buffer_row_offset + 1;
            }
            let here = self.text_buffer.get_lenght_of_row(row);
            let below = self.text_buffer.get_lenght_of_row(row + 1);
            let col = self.current_col_position();
            let new_col = if col < below {
                col
            } else {
                below
            };
            self.cursor.set_col_row(new_col, row + 1);
            if new_col < self.size.get_cols() {
                self.text_buffer_col_offset = 0;
            } else {
                self.text_buffer_col_offset = here - self.size.get_cols();
            }
        }
    }

    pub fn move_cursor_left(&mut self)
        requires
            old(self).wf(),
            caret_on_screen(old(self)@),
        ensures
            final(self).wf(),
            final(self)@ == moved_left(old(self)@),
    {
        let col = self.current_col_position();
        if col - self.text_buffer_col_offset > 0 {
            self.cursor.set_col(col - 1);
        } else {
            if self.text_buffer_col_offset > 0 {
                self.text_buffer_col_offset = self.text_buffer_col_offset - 1;
                self.cursor.set_col(col - 1);
            }
        }
    }

    pub fn move_cursor_right(&mut self)
        requires
            old(self).wf(),
            caret_on_screen(old(self)@),
        ensures
            final(self).wf(),
            final(self)@ == moved_right(old(self)@),
    {
        let col = self.current_col_position();
        if col < self.text_buffer.get_lenght_of_row(self.current_row_position()) {
            if col - self.text_buffer_col_offset + 1 >= self.size.get_cols() {
                self.text_buffer_col_offset = self.text_buffer_col_offset + 1;
            }
            self.cursor.set_col(col + 1);
        }
    }

    /// Whether the edit that `key` would make keeps every count within `usize`.
    pub fn fits_in_memory(&self, key: Key) -> (r: bool)
        requires
            self.wf(),
        ensures
            r == fits_in_memory(self@, key),
    {
        let row = self.current_row_position();
        match key {
            Key::Char(_) => self.text_buffer.get_lenght_of_row(row) < usize::MAX,
            Key::Enter => self.text_buffer.get_lenght() < usize::MAX,
            Key::Backspace => {
                if self.current_col_position() == 0 && row > 0 {
                    self.text_buffer.get_lenght_of_row(row - 1) <= usize::MAX
                        - self.text_buffer.get_lenght_of_row(row)
                } else {
                    true
                }
            },
            _ => true,
        }
    }

    /// Handles a key pressed without a modifier.
    pub fn key_pressed(&mut self, key: Key)
        requires
            old(self).wf(),
            caret_on_screen(old(self)@),
            fits_in_memory(old(self)@, key),
        ensures
            final(self).wf(),
            final(self)@ == key_effect(old(self)@, key),
    {
        match key {
            Key::Char(c) => {
                self.text_buffer.insert_char(
                    self.current_col_position(),
                    self.current_row_position(),
                    c,
                );
                self.move_cursor_right();
            },
            Key::Backspace => self.backspace_key_pressed(),
            Key::Enter => self.enter_key_pressed(),
            Key::DownArrow => self.move_cursor_down(),
            Key::UpArrow => self.move_cursor_up(),
            Key::LeftArrow => self.move_cursor_left(),
            Key::RightArrow => self.move_cursor_right(),
            _ => {},
        }
    }

    pub fn backspace_key_pressed(&mut self)
        requires
            old(self).wf(),
            caret_on_screen(old(self)@),
            fits_in_memory(old(self)@, Key::Backspace),
        ensures
            final(self).wf(),
            final(self)@ == backspaced(old(self)@),
    {
        let col = self.current_col_position();
        let row = self.current_row_position();
        if col > 0 {
            // Moving left first keeps the cursor inside the shortened row;
            // the move does not depend on the row's contents.
            self.move_cursor_left();
            self.text_buffer.delete_char(col - 1, row);
        } else if row != 0 {
            let previous_len_row_above = self.text_buffer.get_lenght_of_row(row - 1);
            let mut data = self.text_buffer.remove_row_to_get_data(row);
            self.text_buffer.push_vec_to_row(row - 1, &mut data);
            self.cursor.set_col_row(previous_len_row_above, row - 1);
            assert(self@.buffer.rows =~= old(self)@.buffer.rows.remove(row as int).update(
                row - 1,
                old(self)@.buffer.rows[row - 1] + old(self)@.buffer.rows[row as int],
            ));
        }
    }

    pub fn enter_key_pressed(&mut self)
        requires
            old(self).wf(),
            caret_on_screen(old(self)@),
            fits_in_memory(old(self)@, Key::Enter),
        ensures
            final(self).wf(),
            final(self)@ == entered(old(self)@),
    {
        let col = self.current_col_position();
        let row = self.current_row_position();
        if col == self.text_buffer.get_lenght_of_row(row) {
            self.text_buffer.insert_row_at(row + 1);
            self.move_cursor_down();
        } else {
            let vec = self.text_buffer.remove_row_from(col, row);
            self.text_buffer.insert_row_at_with_vec(row + 1, vec);
            self.move_cursor_down();
            self.cursor.set_col(0);
        }
    }

    /// Handles a key pressed with Control: Control-C asks to quit; the other
    /// commands are handed back as a request.
    pub fn key_pressed_with_ctrl(&mut self, key: Key) -> (r: Request)
        requires
            old(self).wf(),
        ensures
            final(self).wf(),
            final(self)@ == (EditorView {
                will_quit: old(self)@.will_quit || key == Key::Char('c'),
                ..old(self)@
            }),
            r == ctrl_request(old(self)@, key),
    {
        match key {
            Key::Char('c') => {
                self.will_quit_flag = true;
                Request::Nothing
            },
            Key::Char('s') => match self.text_buffer.get_path_as_str() {
                Some(_) => Request::Save,
                None => Request::AskPathThenSave,
            },
            Key::Char('o') => Request::AskPathThenOpen,
            Key::Char('h') => Request::ShowHelp,
            _ => Request::Nothing,
        }
    }

    /// Whether the user asked to quit.
    pub fn will_quit(&self) -> (r: bool)
        ensures
            r == self@.will_quit,
    {
        self.will_quit_flag
    }

    /// Records a new terminal size.
    pub fn update_size(&mut self, cols: usize, rows: usize)
        requires
            old(self).wf(),
        ensures
            final(self).wf(),
            final(self)@ == (EditorView { screen_cols: cols as int, screen_rows: rows as int, ..old(self)@ }),
    {
        self.size.set(cols, rows);
    }

    pub fn get_size(&self) -> (r: Size)
        ensures
            r.cols_spec() == self@.screen_cols,
            r.rows_spec() == self@.screen_rows,
    {
        self.size
    }

    pub fn text_buffer(&self) -> (r: &Buffer)
        requires
            self.wf(),
        ensures
            r.wf(),
            r@ == self@.buffer,
    {
        &self.text_buffer
    }

    /// Replaces the buffer with a newly opened one; the cursor and the
    /// viewport go back to the top-left, so that the cursor lies in the new
    /// buffer.
    pub fn open_new_file(&mut self, text_buffer: Buffer)
        requires
            text_buffer.wf(),
        ensures
            final(self).wf(),
            final(self)@ == (EditorView {
                buffer: text_buffer@,
                col: 0,
                row: 0,
                row_offset: 0,
                col_offset: 0,
                ..old(self)@
            }),
    {
        proof {
            lemma_buffer_never_empty(&text_buffer);
        }
        self.text_buffer = text_buffer;
        self.cursor.set_col_row(0, 0);
        self.text_buffer_row_offset = 0;
        self.text_buffer_col_offset = 0;
    }

    /// Records the outcome of writing the buffer to its path.
    pub fn save(&mut self, written: bool) -> (r: BufferStatus)
        requires
            old(self).wf(),
        ensures
            final(self).wf(),
            final(self)@ == (EditorView { buffer: after_save(old(self)@.buffer, written), ..old(self)@ }),
            r == final(self)@.buffer.status,
    {
        self.text_buffer.save(written)
    }

    /// Records the outcome of writing the buffer to a newly chosen path.
    pub fn save_as(&mut self, path: String, written: bool) -> (r: BufferStatus)
        requires
            old(self).wf(),
        ensures
            final(self).wf(),
            final(self)@ == (EditorView {
                buffer: after_save_as(old(self)@.buffer, path@, written),
                ..old(self)@
            }),
            r == final(self)@.buffer.status,
    {
        self.text_buffer.save_as(path, written)
    }

    /// The text the screen shows, one entry per row shown, top to bottom.
    pub fn visible_lines(&self) -> (r: Vec<Vec<char>>)
        requires
            self.wf(),
            caret_on_screen(self@),
            self@.screen_rows >= 1,
            self@.screen_cols >= 1,
        ensures
            r@.len() == shown_row_count(self@),
            forall|k: int|
                0 <= k < r@.len() ==> (#[trigger] r@[k])@ == shown_part(
                    self@,
                    self@.buffer.rows[self@.row_offset + k],
                ),
    {
        let last_row = self.size.get_rows() - 1;
        let last_col = self.size.get_cols() - 1;
        let row_offset = self.text_buffer_row_offset;
        let col_offset = self.text_buffer_col_offset;
        let count = self.text_buffer.get_lenght();
        let below = count - row_offset;
        let n = if last_row < below {
            last_row
        } else {
            below
        };
        let mut lines: Vec<Vec<char>> = Vec::new();
        let mut k: usize = 0;
        while k < n
            invariant
                self.wf(),
                caret_on_screen(self@),
                n == shown_row_count(self@),
                count == self@.buffer.rows.len(),
                n <= count - row_offset,
                row_offset == self@.row_offset,
                col_offset == self@.col_offset,
                last_col == self@.screen_cols - 1,
                k <= n,
                lines@.len() == k,
                forall|j: int|
                    0 <= j < k ==> (#[trigger] lines@[j])@ == shown_part(
                        self@,
                        self@.buffer.rows[self@.row_offset + j],
                    ),
            decreases n - k,
        {
            let line = self.text_buffer.borrow_row_at(row_offset + k).get_data();
            let len = line.len();
            let start = if col_offset < len {
                col_offset
            } else {
                len
            };
            let end = if len - start > last_col {
                start + last_col
            } else {
                len
            };
            let mut part: Vec<char> = Vec::new();
            let mut j: usize = start;
            while j < end
                invariant
                    start <= j <= end <= line@.len(),
                    part@ == line@.subrange(start as int, j as int),
                decreases end - j,
            {
                part.push(line[j]);
                j = j + 1;
                assert(part@ =~= line@.subrange(start as int, j as int));
            }
            lines.push(part);
            k = k + 1;
        }
        lines
    }

    /// Whether the cursor's position on screen is defined: the viewport starts
    /// at or before it.
    pub fn caret_on_screen(&self) -> (r: bool)
        ensures
            r == caret_on_screen(self@),
    {
        self.text_buffer_row_offset <= self.current_row_position()
            && self.text_buffer_col_offset <= self.current_col_position()
    }

    /// Where the cursor shows on screen: its position minus the offsets.
    pub fn caret_position(&self) -> (r: (usize, usize))
        requires
            caret_on_screen(self@),
        ensures
            r.0 == self@.col - self@.col_offset,
            r.1 == self@.row - self@.row_offset,
    {
        (
            self.current_col_position() - self.text_buffer_col_offset,
            self.current_row_position() - self.text_buffer_row_offset,
        )
    }

    /// Whether the status bar has room for its hint.
    pub fn shows_status_hint(&self) -> (r: bool)
        ensures
            r == (utf8_len(STATUS_BAR@) + 7 < self@.screen_cols),
    {
        match width_below(STATUS_BAR, self.size.get_cols()) {
            Some(width) => self.size.get_cols() - width > 7,
            None => false,
        }
    }

    /// The status bar's label, with the column it starts at and its colours
    /// (text, then background).
    pub fn status_label(&self) -> (r: Option<(String, usize, Color, Color)>)
        requires
            self.wf(),
            self@.buffer.path.is_none() ==> self@.screen_cols >= 7,
        ensures
            match (r, status_label_of(self@)) {
                (Some((t, c, f, b)), Some((t2, c2, f2, b2))) => t@ == t2 && c == c2 && f == f2 && b
                    == b2,
                (None, None) => true,
                _ => false,
            },
    {
        let cols = self.size.get_cols();
        match self.text_buffer.get_path_as_str() {
            Some(s) => {
                match width_below(s, cols) {
                    Some(width) => {
                        let bg = match self.text_buffer.get_status() {
                            BufferStatus::Saved => Color::Green,
                            BufferStatus::Unsaved => Color::Red,
                        };
                        Some((s.to_string(), cols - width, Color::White, bg))
                    },
                    None => None,
                }
            },
            None => Some((UNSAVED_LABEL.to_string(), cols - 7, Color::White, Color::Red)),
        }
    }
}

/// The number of bytes that `s` takes in UTF-8, when that is below `limit`.
fn width_below(s: &str, limit: usize) -> (r: Option<usize>)
    ensures
        match r {
            Some(w) => w == utf8_len(s@) && w < limit,
            None => utf8_len(s@) >= limit,
        },
{
    if limit == 0 {
        return None;
    }
    let n = s.unicode_len();
    let mut total: usize = 0;
    let mut i: usize = 0;
    assert(s@.subrange(0, 0) =~= Seq::<char>::empty());
    while i < n
        invariant
            n == s@.len(),
            i <= n,
            total == utf8_len(s@.subrange(0, i as int)),
            total < limit,
        decreases n - i,
    {
        let c = s.get_char(i);
        assert(s@.subrange(0, i + 1).drop_last() =~= s@.subrange(0, i as int));
        let w = utf8_width(c);
        if w >= limit - total {
            proof {
                lemma_utf8_len_of_prefix(s@, i + 1);
            }
            return None;
        }
        total = total + w;
        i = i + 1;
    }
    assert(s@.subrange(0, i as int) =~= s@);
    Some(total)
}

} // verus!
