use vstd::prelude::*;

use crate::terminal::event::{Event, Key};
use crate::text_buffer::string_from_chars;

verus! {

/// The number of bytes `c` takes in UTF-8, as `char::len_utf8` gives it.
pub open spec fn utf8_char_len(c: char) -> nat {
    if (c as u32) < 0x80 {
        1
    } else if (c as u32) < 0x800 {
        2
    } else if (c as u32) < 0x10000 {
        3
    } else {
        4
    }
}

/// The number of bytes `s` takes in UTF-8.
pub open spec fn utf8_len(s: Seq<char>) -> nat
    decreases s.len(),
{
    if s.len() == 0 {
        0
    } else {
        utf8_len(s.drop_last()) + utf8_char_len(s.last())
    }
}

/// A prefix of a text takes no more bytes than the whole.
pub proof fn lemma_utf8_len_of_prefix(s: Seq<char>, i: int)
    requires
        0 <= i <= s.len(),
    ensures
        utf8_len(s.subrange(0, i)) <= utf8_len(s),
    decreases s.len() - i,
{
    if i < s.len() {
        lemma_utf8_len_of_prefix(s, i + 1);
        assert(s.subrange(0, i + 1).drop_last() =~= s.subrange(0, i));
    } else {
        assert(s.subrange(0, i) =~= s);
    }
}

pub fn utf8_width(c: char) -> (r: usize)
    ensures
        r == utf8_char_len(c),
        1 <= r <= 4,
{
    let code = c as u32;
    if code < 0x80 {
        1
    } else if code < 0x800 {
        2
    } else if code < 0x10000 {
        3
    } else {
        4
    }
}

/// The characters a path typed at the prompt may not hold.
pub open spec fn forbidden_in_path(c: char) -> bool {
    c == '<' || c == '>' || c == ':' || c == '"' || c == '|' || c == '?' || c == '*'
}

pub fn is_forbidden_in_path(c: char) -> (r: bool)
    ensures
        r == forbidden_in_path(c),
{
    c == '<' || c == '>' || c == ':' || c == '"' || c == '|' || c == '?' || c == '*'
}

/// The characters a path given on the command line may not hold.
pub open spec fn forbidden_in_argument(c: char) -> bool {
    forbidden_in_path(c) || c == '/' || c == '\\'
}

/// The first character of a command-line path that it may not hold, if any.
pub fn first_forbidden_in_argument(arg: &str) -> (r: Option<char>)
    ensures
        match r {
            Some(c) => exists|i: int|
                0 <= i < arg@.len() && arg@[i] == c && forbidden_in_argument(c) && forall|j: int|
                    0 <= j < i ==> !forbidden_in_argument(#[trigger] arg@[j]),
            None => forall|j: int| 0 <= j < arg@.len() ==> !forbidden_in_argument(#[trigger] arg@[j]),
        },
{
    let n = arg.unicode_len();
    let mut i: usize = 0;
    while i < n
        invariant
            n == arg@.len(),
            i <= n,
            forall|j: int| 0 <= j < i ==> !forbidden_in_argument(#[trigger] arg@[j]),
        decreases n - i,
    {
        let c = arg.get_char(i);
        if is_forbidden_in_path(c) || c == '/' || c == '\\' {
            return Some(c);
        }
        i = i + 1;
    }
    None
}

/// The prompt's text after `event`, and whether the prompt is done. A
/// character is taken while the text stays narrower than the screen less
/// seven columns and the character is allowed in a path; Backspace removes the
/// last character; Enter ends the prompt; Escape and Control-C end it with no
/// text.
pub open spec fn prompt_step(text: Seq<char>, event: Event, cols: int) -> (Seq<char>, bool) {
    match event {
        Event::KeyPressed(key) => match key {
            Key::Char(c) => if utf8_len(text) + 7 < cols && !forbidden_in_path(c) {
                (text.push(c), false)
            } else {
                (text, false)
            },
            Key::Backspace => if text.len() > 0 {
                (text.drop_last(), false)
            } else {
                (text, false)
            },
            Key::Enter => (text, true),
            Key::Esc => (Seq::empty(), true),
            _ => (text, false),
        },
        Event::CtrlKeyPressed(key) => match key {
            Key::Char(c) => if c == 'c' {
                (Seq::empty(), true)
            } else {
                (text, false)
            },
            _ => (text, false),
        },
        _ => (text, false),
    }
}

/// Whether `event` closes the help overlay: Control-C or Control-H.
pub fn closes_help_menu(event: Event) -> (r: bool)
    ensures
        r == (event == Event::CtrlKeyPressed(Key::Char('c')) || event == Event::CtrlKeyPressed(
            Key::Char('h'),
        )),
{
    match event {
        Event::CtrlKeyPressed(Key::Char(c)) => c == 'c' || c == 'h',
        _ => false,
    }
}

/// The path the user is typing at the prompt, with its size in UTF-8 bytes.
pub struct PathPrompt {
    text: Vec<char>,
    bytes: usize,
}

impl View for PathPrompt {
    type V = Seq<char>;

    closed spec fn view(&self) -> Seq<char> {
        self.text@
    }
}

impl PathPrompt {
    pub closed spec fn wf(&self) -> bool {
        self.bytes == utf8_len(self.text@)
    }

    pub fn new() -> (r: Self)
        ensures
            r.wf(),
            r@ == Seq::<char>::empty(),
    {
        PathPrompt { text: Vec::new(), bytes: 0 }
    }

    /// The text typed so far.
    pub fn text(&self) -> (r: String)
        ensures
            r@ == self@,
    {
        string_from_chars(self.text.as_slice())
    }

    /// Applies `event` on a screen `cols` wide; returns whether the prompt is
    /// done.
    pub fn handle_event(&mut self, event: Event, cols: usize) -> (r: bool)
        requires
            old(self).wf(),
        ensures
            final(self).wf(),
            (final(self)@, r) == prompt_step(old(self)@, event, cols as int),
    {
        match event {
            Event::KeyPressed(key) => match key {
                Key::Char(c) => {
                    if cols > 7 && self.bytes < cols - 7 && !is_forbidden_in_path(c) {
                        let ghost before = self.text@;
                        self.text.push(c);
                        self.bytes = self.bytes + utf8_width(c);
                        assert(self.text@.drop_last() =~= before);
                    }
                    false
                },
                Key::Backspace => {
                    if self.text.len() > 0 {
                        let ghost before = self.text@;
                        let c = self.text.pop().unwrap();
                        assert(before.drop_last() =~= self.text@);
                        self.bytes = self.bytes - utf8_width(c);
                    }
                    false
                },
                Key::Enter => true,
                Key::Esc => {
                    self.text.clear();
                    self.bytes = 0;
                    assert(self.text@ =~= Seq::<char>::empty());
                    true
                },
                _ => false,
            },
            Event::CtrlKeyPressed(Key::Char(c)) => {
                if c == 'c' {
                    self.text.clear();
                    self.bytes = 0;
                    assert(self.text@ =~= Seq::<char>::empty());
                    true
                } else {
                    false
                }
            },
            _ => false,
        }
    }

    /// The chosen path, or `None` when the text is empty.
    pub fn into_path(self) -> (r: Option<String>)
        ensures
            match r {
                Some(p) => self@.len() > 0 && p@ == self@,
                None => self@.len() == 0,
            },
    {
        if self.text.len() == 0 {
            None
        } else {
            Some(string_from_chars(self.text.as_slice()))
        }
    }
}

} // verus!
