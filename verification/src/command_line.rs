//! The command-line widget: one editable line of text and a cursor. It
//! applies ordinary editing semantics to key events and reports the
//! line's content; it interprets no command itself, and it never
//! accepts a second line.

use vstd::prelude::*;
use crate::input::{Key, KeyEvent};

verus! {

/// True when a text holds no line break; the widget keeps its content
/// on a single line.
pub open spec fn single_line(text: Seq<char>) -> bool {
    forall|i: int| 0 <= i < text.len() ==> (#[trigger] text[i]) != '\n' && text[i] != '\r'
}

/// What one key event does to the line. Printable characters are
/// inserted at the cursor, backspace and delete remove a character
/// around it, the arrow, home and end keys move it, and every other
/// event — including control-modified characters and line breaks —
/// leaves the widget unchanged.
pub open spec fn spec_feed(text: Seq<char>, cursor: int, ev: KeyEvent) -> (Seq<char>, int) {
    match ev.key {
        Key::Char(c) => if !ev.ctrl && c != '\n' && c != '\r' && text.len() < usize::MAX {
            (text.insert(cursor, c), cursor + 1)
        } else {
            (text, cursor)
        },
        Key::Backspace => if cursor > 0 {
            (text.remove(cursor - 1), cursor - 1)
        } else {
            (text, cursor)
        },
        Key::Delete => if cursor < text.len() {
            (text.remove(cursor), cursor)
        } else {
            (text, cursor)
        },
        Key::Left => (text, if cursor > 0 { cursor - 1 } else { 0 }),
        Key::Right => (text, if cursor < text.len() { cursor + 1 } else { cursor }),
        Key::Home => (text, 0),
        Key::End => (text, text.len() as int),
        _ => (text, cursor),
    }
}

proof fn lemma_single_line_insert(text: Seq<char>, i: int, c: char)
    requires
        single_line(text),
        0 <= i <= text.len(),
        c != '\n',
        c != '\r',
    ensures
        single_line(text.insert(i, c)),
{
    text.insert_ensures(i, c);
    assert forall|j: int| 0 <= j < text.insert(i, c).len() implies (#[trigger] text.insert(
        i,
        c,
    )[j]) != '\n' && text.insert(i, c)[j] != '\r' by {
        if j < i {
            assert(text.insert(i, c)[j] == text[j]);
        } else if j == i {
            assert(text.insert(i, c)[j] == c);
        } else {
            assert(text.insert(i, c)[j] == text[j - 1]);
        }
    }
}

proof fn lemma_single_line_remove(text: Seq<char>, i: int)
    requires
        single_line(text),
        0 <= i < text.len(),
    ensures
        single_line(text.remove(i)),
{
    text.remove_ensures(i);
    assert forall|j: int| 0 <= j < text.remove(i).len() implies (#[trigger] text.remove(i)[j])
        != '\n' && text.remove(i)[j] != '\r' by {
        if j < i {
            assert(text.remove(i)[j] == text[j]);
        } else {
            assert(text.remove(i)[j] == text[j + 1]);
        }
    }
}

/// One editable line of text with a cursor.
#[derive(Debug)]
pub struct CommandLine {
    buf: Vec<char>,
    cursor: usize,
}

impl View for CommandLine {
    type V = Seq<char>;

    closed spec fn view(&self) -> Seq<char> {
        self.buf@
    }
}

impl CommandLine {
    /// The cursor position, as a count of characters from the start.
    pub closed spec fn spec_cursor(&self) -> int {
        self.cursor as int
    }

    /// Well-formed: the cursor stays inside the text and the text stays
    /// on one line.
    pub closed spec fn wf(&self) -> bool {
        0 <= self.spec_cursor() <= self@.len() && single_line(self@)
    }

    /// Creates an empty widget with the cursor at the start.
    pub fn new() -> (w: CommandLine)
        ensures
            w.wf(),
            w@ == Seq::<char>::empty(),
            w.spec_cursor() == 0,
    {
        let buf: Vec<char> = Vec::new();
        proof {
            assert(buf@ =~= Seq::<char>::empty());
        }
        CommandLine { buf, cursor: 0 }
    }

    /// The current text: the line's characters in order.
    pub fn current_text(&self) -> (r: Vec<char>)
        ensures
            r@ == self@,
    {
        let mut r: Vec<char> = Vec::new();
        let mut i: usize = 0;
        while i < self.buf.len()
            invariant
                i <= self.buf@.len(),
                r@ == self.buf@.subrange(0, i as int),
            decreases self.buf@.len() - i,
        {
            r.push(self.buf[i]);
            proof {
                assert(r@ =~= self.buf@.subrange(0, i as int + 1));
            }
            i += 1;
        }
        proof {
            assert(r@ =~= self@);
        }
        r
    }

    /// The cursor position, as a count of characters from the start.
    pub fn cursor(&self) -> (c: usize)
        ensures
            c as int == self.spec_cursor(),
    {
        self.cursor
    }

    /// Empties the line and returns the cursor to the start.
    pub fn clear(&mut self)
        ensures
            final(self).wf(),
            final(self)@ == Seq::<char>::empty(),
            final(self).spec_cursor() == 0,
    {
        self.buf.clear();
        self.cursor = 0;
        proof {
            assert(self.buf@ =~= Seq::<char>::empty());
        }
    }

    /// Applies ordinary editing semantics for one key event, exactly as
    /// `spec_feed` states.
    pub fn feed(&mut self, ev: KeyEvent)
        requires
            old(self).wf(),
        ensures
            final(self).wf(),
            (final(self)@, final(self).spec_cursor()) == spec_feed(
                old(self)@,
                old(self).spec_cursor(),
                ev,
            ),
    {
        match ev.key {
            Key::Char(c) => {
                if !ev.ctrl && c != '\n' && c != '\r' && self.buf.len() < usize::MAX {
                    self.buf.insert(self.cursor, c);
                    self.cursor += 1;
                    proof {
                        lemma_single_line_insert(
                            old(self)@,
                            old(self).spec_cursor(),
                            c,
                        );
                        old(self)@.insert_ensures(old(self).spec_cursor(), c);
                    }
                }
            },
            Key::Backspace => {
                if self.cursor > 0 {
                    self.buf.remove(self.cursor - 1);
                    self.cursor -= 1;
                    proof {
                        lemma_single_line_remove(old(self)@, old(self).spec_cursor() - 1);
                        old(self)@.remove_ensures(old(self).spec_cursor() - 1);
                    }
                }
            },
            Key::Delete => {
                if self.cursor < self.buf.len() {
                    self.buf.remove(self.cursor);
                    proof {
                        lemma_single_line_remove(old(self)@, old(self).spec_cursor());
                        old(self)@.remove_ensures(old(self).spec_cursor());
                    }
                }
            },
            Key::Left => {
                if self.cursor > 0 {
                    self.cursor -= 1;
                }
            },
            Key::Right => {
                if self.cursor < self.buf.len() {
                    self.cursor += 1;
                }
            },
            Key::Home => {
                self.cursor = 0;
            },
            Key::End => {
                self.cursor = self.buf.len();
            },
            _ => {},
        }
    }
}

} // verus!
