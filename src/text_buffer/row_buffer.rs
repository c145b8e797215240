use vstd::prelude::*;

verus! {

/// One line of text: an ordered sequence of characters with no line separator,
/// together with a cached count of those characters.
pub struct RowBuffer {
    data: Vec<char>,
    lenght: usize,
}

impl View for RowBuffer {
    type V = Seq<char>;

    /// The characters of the row, in order.
    closed spec fn view(&self) -> Seq<char> {
        self.data@
    }
}

/// Relies on std's `impl FromIterator<&char> for String`: collecting the
/// characters of a slice yields a string holding exactly those characters, in
/// order.
#[verifier::external_body]
pub(crate) fn string_from_chars(chars: &[char]) -> (r: String)
    ensures
        r@ == chars@,
{
    chars.iter().collect()
}

impl RowBuffer {
    /// The cached length agrees with the stored characters.
    pub closed spec fn wf(&self) -> bool {
        self.lenght == self.data@.len()
    }

    /// The length the row reports, as cached next to its characters.
    pub closed spec fn cached_len(&self) -> nat {
        self.lenght as nat
    }

    pub fn new_from_str(data: &str) -> (r: Self)
        ensures
            r.wf(),
            r@ == data@,
    {
        let n = data.unicode_len();
        let mut v: Vec<char> = Vec::new();
        let mut i: usize = 0;
        while i < n
            invariant
                n == data@.len(),
                i <= n,
                v@ == data@.subrange(0, i as int),
            decreases n - i,
        {
            v.push(data.get_char(i));
            i = i + 1;
            assert(v@ =~= data@.subrange(0, i as int));
        }
        assert(v@ =~= data@);
        RowBuffer { lenght: v.len(), data: v }
    }

    pub fn new_from_slice_char(slice: &[char]) -> (r: Self)
        ensures
            r.wf(),
            r@ == slice@,
    {
        let mut temp: Vec<char> = Vec::new();
        let mut i: usize = 0;
        while i < slice.len()
            invariant
                i <= slice@.len(),
                temp@ == slice@.subrange(0, i as int),
            decreases slice@.len() - i,
        {
            temp.push(slice[i]);
            i = i + 1;
            assert(temp@ =~= slice@.subrange(0, i as int));
        }
        assert(temp@ =~= slice@);
        RowBuffer { lenght: slice.len(), data: temp }
    }

    pub fn new_from_vec(vec: Vec<char>) -> (r: Self)
        ensures
            r.wf(),
            r@ == vec@,
    {
        RowBuffer { lenght: vec.len(), data: vec }
    }

    pub fn new_empty() -> (r: Self)
        ensures
            r.wf(),
            r@ == Seq::<char>::empty(),
    {
        RowBuffer { data: Vec::new(), lenght: 0 }
    }

    pub fn get_data(&self) -> (r: &[char])
        ensures
            r@ == self@,
    {
        self.data.as_slice()
    }

    pub fn get_lenght(&self) -> (r: usize)
        requires
            self.wf(),
        ensures
            r == self@.len(),
            r == self.cached_len(),
    {
        self.lenght
    }

    pub fn is_empty(&self) -> (r: bool)
        ensures
            r == (self@.len() == 0),
    {
        self.data.is_empty()
    }

    pub fn borrow_char_at(&self, index: usize) -> (r: &char)
        requires
            index < self@.len(),
        ensures
            *r == self@[index as int],
    {
        &self.data[index]
    }

    /// Inserts `c` before position `index`; an index at or past the end appends.
    pub fn insert(&mut self, index: usize, c: char)
        requires
            old(self).wf(),
            old(self)@.len() < usize::MAX,
        ensures
            final(self).wf(),
            final(self)@ == inserted(old(self)@, index as int, c),
    {
        if index < self.lenght {
            self.data.insert(index, c);
        } else {
            self.data.push(c);
        }
        self.lenght = self.lenght + 1;
    }

    /// Removes the character at `index`, which must be in the row.
    pub fn delete(&mut self, index: usize)
        requires
            old(self).wf(),
            index < old(self)@.len(),
        ensures
            final(self).wf(),
            final(self)@ == old(self)@.remove(index as int),
    {
        self.data.remove(index);
        self.lenght = self.lenght - 1;
    }

    /// Cuts the row at `index`: returns the characters from `index` to the end
    /// and keeps those before it.
    pub fn remove_from(&mut self, index: usize) -> (r: Vec<char>)
        requires
            old(self).wf(),
            index <= old(self)@.len(),
        ensures
            final(self).wf(),
            final(self)@ == old(self)@.subrange(0, index as int),
            r@ == old(self)@.subrange(index as int, old(self)@.len() as int),
    {
        let temp = self.data.split_off(index);
        self.lenght = index;
        temp
    }

    /// Moves every character of `vec` to the end of the row, leaving `vec` empty.
    pub fn append_mb_vec_at_end(&mut self, vec: &mut Vec<char>)
        requires
            old(self).wf(),
            old(self)@.len() + old(vec)@.len() <= usize::MAX,
        ensures
            final(self).wf(),
            final(self)@ == old(self)@ + old(vec)@,
            final(vec)@ == Seq::<char>::empty(),
    {
        self.lenght = self.lenght + vec.len();
        self.data.append(vec);
    }

    pub fn unwrap_to_get_data(self) -> (r: Vec<char>)
        ensures
            r@ == self@,
    {
        self.data
    }

    /// The row as displayable text: its characters, in order.
    pub fn render(&self) -> (r: String)
        ensures
            r@ == self@,
    {
        string_from_chars(self.data.as_slice())
    }
}

/// The row `s` after inserting `c` before `index`, or at the end when `index`
/// is not inside the row.
pub open spec fn inserted(s: Seq<char>, index: int, c: char) -> Seq<char> {
    if 0 <= index < s.len() {
        s.insert(index, c)
    } else {
        s.push(c)
    }
}

/// Every operation on a row keeps it well formed, and a well-formed row's
/// cached length is exactly the number of characters it stores.
pub proof fn lemma_row_length_is_char_count(r: &RowBuffer)
    requires
        r.wf(),
    ensures
        r.cached_len() == r@.len(),
{
}

} // verus!
