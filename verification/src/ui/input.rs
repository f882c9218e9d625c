//! A single line of editable text with a cursor.

use vstd::prelude::*;
use crate::key::Key;
use crate::text::{char_count, slice};
use crate::ui::layout::{add_sat, Area, Position};

verus! {

/// One line of text, the cursor's position counted in characters, and
/// whether the field has the focus.
#[derive(Debug)]
pub struct Input {
    pub index: usize,
    pub text: String,
    pub active: bool,
}

/// What an [`Input`] holds, as mathematical values.
pub struct InputView {
    pub index: nat,
    pub text: Seq<char>,
    pub active: bool,
}

impl InputView {
    /// The cursor stands inside the text or just behind it.
    pub open spec fn wf(self) -> bool {
        self.index <= self.text.len()
    }

    /// Where the cursor takes effect: a cursor past the end counts as
    /// standing at the end.
    pub open spec fn caret(self) -> nat {
        if self.index < self.text.len() { self.index } else { self.text.len() }
    }

    /// `c` inserted at the cursor, the cursor behind it.
    pub open spec fn input(self, c: char) -> InputView {
        InputView {
            index: self.caret() + 1,
            text: self.text.insert(self.caret() as int, c),
            active: self.active,
        }
    }

    /// The cursor one character further right, at most at the end.
    pub open spec fn right(self) -> InputView {
        InputView {
            index: if self.index < self.text.len() { self.index + 1 } else { self.text.len() },
            ..self
        }
    }

    /// The cursor one character further left, at most at the start, and
    /// never past the end.
    pub open spec fn left(self) -> InputView {
        InputView {
            index: if self.index == 0 {
                0
            } else if self.index - 1 < self.text.len() {
                (self.index - 1) as nat
            } else {
                self.text.len()
            },
            ..self
        }
    }

    /// No text, the cursor at the start.
    pub open spec fn clear(self) -> InputView {
        InputView { index: 0, text: Seq::empty(), active: self.active }
    }

    /// The character left of the cursor removed and the cursor moved left;
    /// nothing at all with the cursor at the start.
    pub open spec fn delete(self) -> InputView {
        if self.index == 0 {
            self
        } else if self.index <= self.text.len() {
            InputView {
                index: (self.index - 1) as nat,
                text: self.text.remove(self.index - 1),
                active: self.active,
            }
        } else {
            InputView { index: self.text.len(), ..self }
        }
    }

    /// The field after one key: backspace deletes, the horizontal arrows
    /// move the cursor, a character is inserted, any other key is ignored.
    pub open spec fn key_binding(self, key: Key) -> InputView {
        match key {
            Key::Backspace => self.delete(),
            Key::Left => self.left(),
            Key::Right => self.right(),
            Key::Char(c) => self.input(c),
            _ => self,
        }
    }

    /// The same field with the focus set to `active`.
    pub open spec fn focused(self, active: bool) -> InputView {
        InputView { active, ..self }
    }

    /// The same field holding `text`, the cursor where it was.
    pub open spec fn filled(self, text: Seq<char>) -> InputView {
        InputView { text, ..self }
    }

    /// Where the terminal's cursor goes when the field is drawn into
    /// `area`: the column of the field's cursor on the area's first row, held
    /// at the last column of the terminal; none without the focus.
    pub open spec fn cursor(self, area: Area) -> Option<Position> {
        if self.active {
            Some(Position { x: add_sat(area.x as int, self.index as int) as u16, y: area.y })
        } else {
            None
        }
    }
}

impl View for Input {
    type V = InputView;

    open spec fn view(&self) -> InputView {
        InputView { index: self.index as nat, text: self.text@, active: self.active }
    }
}

impl Input {
    /// An empty field without the focus.
    pub fn new() -> (r: Self)
        ensures
            r@ == (InputView { index: 0, text: Seq::empty(), active: false }),
            r@.wf(),
    {
        Self { index: 0, text: String::new(), active: false }
    }

    /// Where to put the terminal's cursor when the field is drawn into
    /// `area`.
    pub fn render(&self, area: Area) -> (cursor: Option<Position>)
        ensures
            cursor == self@.cursor(area),
    {
        if self.active {
            let room: u16 = u16::MAX - area.x;
            let x: u16 = if self.index <= room as usize {
                area.x + self.index as u16
            } else {
                u16::MAX
            };
            Some(Position { x, y: area.y })
        } else {
            None
        }
    }

    /// Inserts `c` at the cursor and moves the cursor behind it.
    pub fn input(&mut self, c: char)
        ensures
            final(self)@ == old(self)@.input(c),
            final(self)@.wf(),
    {
        let n = char_count(&self.text);
        let at = if self.index < n { self.index } else { n };
        let mut text = slice(&self.text, 0, at);
        text.push(c);
        let rest = slice(&self.text, at, n);
        text.append(rest.as_str());
        assert(text@ == self.text@.insert(at as int, c));
        self.text = text;
        self.index = at;
        self.right();
    }

    /// Moves the cursor one character to the right, at most to the end.
    pub fn right(&mut self)
        ensures
            final(self)@ == old(self)@.right(),
            final(self).text == old(self).text,
            final(self)@.wf(),
    {
        let n = char_count(&self.text);
        if self.index < n {
            self.index = self.index + 1;
        } else {
            self.index = n;
        }
    }

    /// Moves the cursor one character to the left, at most to the start.
    pub fn left(&mut self)
        ensures
            final(self)@ == old(self)@.left(),
            final(self).text == old(self).text,
            final(self)@.wf(),
    {
        let n = char_count(&self.text);
        let back = if self.index > 0 { self.index - 1 } else { 0 };
        self.index = if back < n { back } else { n };
    }

    /// Empties the text and puts the cursor at the start.
    pub fn clear(&mut self)
        ensures
            final(self)@ == old(self)@.clear(),
            final(self)@.wf(),
    {
        self.index = 0;
        self.text = String::new();
    }

    /// Removes the character left of the cursor and moves the cursor left.
    pub fn delete(&mut self)
        ensures
            final(self)@ == old(self)@.delete(),
            old(self)@.wf() ==> final(self)@.wf(),
    {
        if self.index != 0 {
            let n = char_count(&self.text);
            if self.index <= n {
                let mut text = slice(&self.text, 0, self.index - 1);
                let rest = slice(&self.text, self.index, n);
                text.append(rest.as_str());
                assert(text@ == self.text@.remove(self.index - 1));
                self.text = text;
            }
            self.left();
        }
    }

    /// Hands one key to the field.
    pub fn key_binding(&mut self, key: Key)
        ensures
            final(self)@ == old(self)@.key_binding(key),
            old(self)@.wf() ==> final(self)@.wf(),
    {
        match key {
            Key::Backspace => self.delete(),
            Key::Left => self.left(),
            Key::Right => self.right(),
            Key::Char(c) => self.input(c),
            _ => {},
        }
    }
}

} // verus!
