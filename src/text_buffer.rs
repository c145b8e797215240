use vstd::prelude::*;

mod file_format;
mod row_buffer;

pub use file_format::{
    complete_lines, is_whitespace, is_whitespace_char, lemma_round_trip, no_trailing_space,
    lines_of, pending_line, rows_from_text, rows_of_text, rows_view, text_from_rows, text_of_rows,
    trim_end,
};
pub use row_buffer::{inserted, lemma_row_length_is_char_count, RowBuffer};

pub(crate) use row_buffer::string_from_chars;

verus! {

/// Whether the buffer matches what was last written to its file.
#[derive(Clone, Copy, Debug, PartialEq, Eq, Structural)]
pub enum BufferStatus {
    Saved,
    Unsaved,
}

/// The whole text of the open file, as a sequence of rows that is never empty,
/// with the file's path (if any) and its save status.
pub struct Buffer {
    data: Vec<RowBuffer>,
    lenght: usize,
    path: Option<String>,
    status: BufferStatus,
}

/// What a buffer holds: its rows' characters, its path and its status.
pub struct BufferView {
    pub rows: Seq<Seq<char>>,
    pub path: Option<Seq<char>>,
    pub status: BufferStatus,
}

pub open spec fn path_view(p: Option<String>) -> Option<Seq<char>> {
    match p {
        Some(s) => Some(s@),
        None => None,
    }
}

/// The buffer read from the file at `path`, given the file's text, or `None`
/// when it could not be read.
pub open spec fn opened(path: Seq<char>, contents: Option<Seq<char>>) -> BufferView {
    BufferView {
        rows: match contents {
            Some(t) => rows_of_text(t),
            None => seq![Seq::<char>::empty()],
        },
        path: Some(path),
        status: BufferStatus::Saved,
    }
}

/// A fresh buffer with no file: one empty row.
pub open spec fn empty_buffer() -> BufferView {
    BufferView {
        rows: seq![Seq::<char>::empty()],
        path: None,
        status: BufferStatus::Unsaved,
    }
}

/// The buffer after a save whose file write succeeded or not: it is saved
/// only when it has a path and the write went through.
pub open spec fn after_save(v: BufferView, written: bool) -> BufferView {
    BufferView {
        status: if v.path.is_some() && written {
            BufferStatus::Saved
        } else {
            BufferStatus::Unsaved
        },
        ..v
    }
}

/// The buffer after a save under a new path: on failure it keeps no path.
pub open spec fn after_save_as(v: BufferView, path: Seq<char>, written: bool) -> BufferView {
    if written {
        BufferView { path: Some(path), status: BufferStatus::Saved, ..v }
    } else {
        BufferView { path: None, status: BufferStatus::Unsaved, ..v }
    }
}

/// The buffer after an edit that turns `rows` into `new_rows`.
pub open spec fn edited(v: BufferView, new_rows: Seq<Seq<char>>) -> BufferView {
    BufferView { rows: new_rows, status: BufferStatus::Unsaved, ..v }
}

impl View for Buffer {
    type V = BufferView;

    closed spec fn view(&self) -> BufferView {
        BufferView { rows: rows_view(self.data@), path: path_view(self.path), status: self.status }
    }
}

impl Buffer {
    /// The cached row count matches the rows, there is at least one row, and
    /// every row is well formed.
    pub closed spec fn wf(&self) -> bool {
        &&& self.lenght == self.data@.len()
        &&& self.data@.len() >= 1
        &&& forall|i: int| 0 <= i < self.data@.len() ==> (#[trigger] self.data@[i]).wf()
    }

    /// Builds the buffer of the file at `file_path`, given what reading it
    /// gave: its text, or `None` when it could not be read, in which case the
    /// buffer is one empty row that remembers the path.
    pub fn new_from_file(file_path: String, contents: Option<Vec<char>>) -> (r: Self)
        ensures
            r.wf(),
            r@ == opened(
                file_path@,
                match contents {
                    Some(t) => Some(t@),
                    None => None,
                },
            ),
    {
        let data = match contents {
            Some(text) => rows_from_text(text.as_slice()),
            None => {
                let mut v: Vec<RowBuffer> = Vec::new();
                v.push(RowBuffer::new_empty());
                assert(rows_view(v@) =~= seq![Seq::<char>::empty()]);
                v
            },
        };
        Buffer { lenght: data.len(), data, path: Some(file_path), status: BufferStatus::Saved }
    }

    pub fn new_empty() -> (r: Self)
        ensures
            r.wf(),
            r@ == empty_buffer(),
    {
        let mut data: Vec<RowBuffer> = Vec::new();
        data.push(RowBuffer::new_empty());
        assert(rows_view(data@) =~= seq![Seq::<char>::empty()]);
        Buffer { data, lenght: 1, path: None, status: BufferStatus::Unsaved }
    }

    pub fn borrow_row_at(&self, index: usize) -> (r: &RowBuffer)
        requires
            self.wf(),
            index < self@.rows.len(),
        ensures
            r.wf(),
            r@ == self@.rows[index as int],
    {
        &self.data[index]
    }

    pub fn borrow_char_at(&self, col: usize, row: usize) -> (r: &char)
        requires
            self.wf(),
            row < self@.rows.len(),
            col < self@.rows[row as int].len(),
        ensures
            *r == self@.rows[row as int][col as int],
    {
        self.data[row].borrow_char_at(col)
    }

    pub fn get_lenght(&self) -> (r: usize)
        requires
            self.wf(),
        ensures
            r == self@.rows.len(),
    {
        self.lenght
    }

    pub fn get_lenght_of_row(&self, index: usize) -> (r: usize)
        requires
            self.wf(),
            index < self@.rows.len(),
        ensures
            r == self@.rows[index as int].len(),
    {
        self.data[index].get_lenght()
    }

    pub fn get_path(&self) -> (r: Option<String>)
        ensures
            path_view(r) == self@.path,
    {
        match &self.path {
            Some(p) => Some(p.clone()),
            None => None,
        }
    }

    pub fn get_path_as_str(&self) -> (r: Option<&str>)
        ensures
            match r {
                Some(s) => self@.path == Some(s@),
                None => self@.path.is_none(),
            },
    {
        match &self.path {
            Some(p) => Some(p.as_str()),
            None => None,
        }
    }

    pub fn is_empty(&self) -> (r: bool)
        requires
            self.wf(),
        ensures
            r == (self@.rows.len() == 0),
            !r,
    {
        self.data.is_empty()
    }

    pub fn row_is_empty(&self, index: usize) -> (r: bool)
        requires
            self.wf(),
            index < self@.rows.len(),
        ensures
            r == (self@.rows[index as int].len() == 0),
    {
        self.data[index].is_empty()
    }

    pub fn get_status(&self) -> (r: BufferStatus)
        ensures
            r == self@.status,
    {
        self.status
    }

    fn set_status(&mut self, new_status: BufferStatus)
        ensures
            final(self).data == old(self).data,
            final(self).lenght == old(self).lenght,
            final(self).path == old(self).path,
            final(self).status == new_status,
    {
        self.status = new_status;
    }

    /// The text to write to the buffer's file: every row followed by a newline.
    pub fn file_text(&self) -> (r: String)
        requires
            self.wf(),
        ensures
            r@ == text_of_rows(self@.rows),
    {
        let chars = text_from_rows(&self.data);
        string_from_chars(chars.as_slice())
    }

    /// Records the outcome of writing `file_text` to the buffer's path:
    /// `written` tells whether that write succeeded (it is ignored, and the
    /// buffer stays unsaved, when there is no path).
    pub fn save(&mut self, written: bool) -> (r: BufferStatus)
        requires
            old(self).wf(),
        ensures
            final(self).wf(),
            final(self)@ == after_save(old(self)@, written),
            r == final(self)@.status,
    {
        if self.path.is_some() && written {
            self.set_status(BufferStatus::Saved);
        } else {
            self.set_status(BufferStatus::Unsaved);
        }
        self.get_status()
    }

    /// Associates the buffer with `path` and records the outcome of writing
    /// `file_text` there; a failed write leaves the buffer with no path.
    pub fn save_as(&mut self, path: String, written: bool) -> (r: BufferStatus)
        requires
            old(self).wf(),
        ensures
            final(self).wf(),
            final(self)@ == after_save_as(old(self)@, path@, written),
            r == final(self)@.status,
    {
        self.path = Some(path);
        if let BufferStatus::Unsaved = self.save(written) {
            self.path = None;
            self.set_status(BufferStatus::Unsaved);
        } else {
            self.set_status(BufferStatus::Saved);
        }
        self.get_status()
    }

    pub fn clear_path(&mut self)
        requires
            old(self).wf(),
        ensures
            final(self).wf(),
            final(self)@ == (BufferView { path: None, ..old(self)@ }),
    {
        self.path = None;
    }

    pub fn insert_char(&mut self, col: usize, row: usize, c: char)
        requires
            old(self).wf(),
            row < old(self)@.rows.len(),
            old(self)@.rows[row as int].len() < usize::MAX,
        ensures
            final(self).wf(),
            final(self)@ == edited(
                old(self)@,
                old(self)@.rows.update(row as int, inserted(old(self)@.rows[row as int], col as int, c)),
            ),
    {
        let ghost before = self.data@;
        self.data[row].insert(col, c);
        assert(rows_view(self.data@) =~= rows_view(before).update(
            row as int,
            inserted(rows_view(before)[row as int], col as int, c),
        ));
        self.set_status(BufferStatus::Unsaved);
    }

    pub fn insert_row_at(&mut self, index: usize)
        requires
            old(self).wf(),
            index <= old(self)@.rows.len(),
            old(self)@.rows.len() < usize::MAX,
        ensures
            final(self).wf(),
            final(self)@ == edited(old(self)@, old(self)@.rows.insert(index as int, Seq::empty())),
    {
        let ghost before = self.data@;
        self.data.insert(index, RowBuffer::new_empty());
        self.lenght = self.lenght + 1;
        assert(rows_view(self.data@) =~= rows_view(before).insert(index as int, Seq::empty()));
        self.set_status(BufferStatus::Unsaved);
    }

    pub fn insert_row_at_with_vec(&mut self, index: usize, vec: Vec<char>)
        requires
            old(self).wf(),
            index <= old(self)@.rows.len(),
            old(self)@.rows.len() < usize::MAX,
        ensures
            final(self).wf(),
            final(self)@ == edited(old(self)@, old(self)@.rows.insert(index as int, vec@)),
    {
        let ghost before = self.data@;
        self.data.insert(index, RowBuffer::new_from_vec(vec));
        self.lenght = self.lenght + 1;
        assert(rows_view(self.data@) =~= rows_view(before).insert(index as int, vec@));
        self.set_status(BufferStatus::Unsaved);
    }

    pub fn delete_char(&mut self, col: usize, row: usize)
        requires
            old(self).wf(),
            row < old(self)@.rows.len(),
            col < old(self)@.rows[row as int].len(),
        ensures
            final(self).wf(),
            final(self)@ == edited(
                old(self)@,
                old(self)@.rows.update(row as int, old(self)@.rows[row as int].remove(col as int)),
            ),
    {
        let ghost before = self.data@;
        self.data[row].delete(col);
        assert(rows_view(self.data@) =~= rows_view(before).update(
            row as int,
            rows_view(before)[row as int].remove(col as int),
        ));
        self.set_status(BufferStatus::Unsaved);
    }

    /// Cuts row `row` at `col`, returning its tail.
    pub fn remove_row_from(&mut self, col: usize, row: usize) -> (r: Vec<char>)
        requires
            old(self).wf(),
            row < old(self)@.rows.len(),
            col <= old(self)@.rows[row as int].len(),
        ensures
            final(self).wf(),
            final(self)@ == edited(
                old(self)@,
                old(self)@.rows.update(row as int, old(self)@.rows[row as int].subrange(0, col as int)),
            ),
            r@ == old(self)@.rows[row as int].subrange(
                col as int,
                old(self)@.rows[row as int].len() as int,
            ),
    {
        self.set_status(BufferStatus::Unsaved);
        let ghost before = self.data@;
        let r = self.data[row].remove_from(col);
        assert(rows_view(self.data@) =~= rows_view(before).update(
            row as int,
            rows_view(before)[row as int].subrange(0, col as int),
        ));
        r
    }

    /// Removes row `index` and returns its characters; the buffer keeps at
    /// least one row, so it must have two or more.
    pub fn remove_row_to_get_data(&mut self, index: usize) -> (r: Vec<char>)
        requires
            old(self).wf(),
            index < old(self)@.rows.len(),
            old(self)@.rows.len() >= 2,
        ensures
            final(self).wf(),
            final(self)@ == edited(old(self)@, old(self)@.rows.remove(index as int)),
            r@ == old(self)@.rows[index as int],
    {
        self.set_status(BufferStatus::Unsaved);
        let ghost before = self.data@;
        self.lenght = self.lenght - 1;
        let removed = self.data.remove(index);
        assert(rows_view(self.data@) =~= rows_view(before).remove(index as int));
        removed.unwrap_to_get_data()
    }

    /// Moves the characters of `vec` to the end of row `index`.
    pub fn push_vec_to_row(&mut self, index: usize, vec: &mut Vec<char>)
        requires
            old(self).wf(),
            index < old(self)@.rows.len(),
            old(self)@.rows[index as int].len() + old(vec)@.len() <= usize::MAX,
        ensures
            final(self).wf(),
            final(self)@ == edited(
                old(self)@,
                old(self)@.rows.update(index as int, old(self)@.rows[index as int] + old(vec)@),
            ),
            final(vec)@ == Seq::<char>::empty(),
    {
        let ghost before = self.data@;
        self.data[index].append_mb_vec_at_end(vec);
        assert(rows_view(self.data@) =~= rows_view(before).update(
            index as int,
            rows_view(before)[index as int] + old(vec)@,
        ));
        self.set_status(BufferStatus::Unsaved);
    }
}

/// A buffer always has at least one row: every constructor makes one and every
/// edit keeps one, removing a row included.
pub proof fn lemma_buffer_never_empty(b: &Buffer)
    requires
        b.wf(),
    ensures
        b@.rows.len() >= 1,
{
}

/// Saving twice in a row with no edit between, where both writes have the same
/// outcome, leaves the buffer as the first save left it, and writes the same
/// text both times.
pub proof fn lemma_save_twice(v: BufferView, written: bool)
    ensures
        after_save(after_save(v, written), written) == after_save(v, written),
        text_of_rows(after_save(v, written).rows) == text_of_rows(v.rows),
{
}

} // verus!
