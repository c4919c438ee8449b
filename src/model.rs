use crate::classify::{word_back, word_end};
use crate::keys::{action_of, Action, EditEntry, Key, Mode};
use vstd::prelude::*;

verus! {

/// The abstract state of an input widget: the line of text, the buffer index
/// of the first visible character, the cursor's column inside the visible
/// window, the width of the last render and whether the widget has focus.
pub struct EditorView {
    pub text: Seq<char>,
    pub window_start: nat,
    pub cursor_column: nat,
    pub last_width: nat,
    pub focused: bool,
}

impl EditorView {
    /// The state of a fresh widget.
    pub open spec fn empty() -> EditorView {
        EditorView {
            text: Seq::empty(),
            window_start: 0,
            cursor_column: 0,
            last_width: 0,
            focused: false,
        }
    }

    pub open spec fn len(self) -> nat {
        self.text.len()
    }

    /// The logical position: the buffer index under the cursor.
    pub open spec fn pos(self) -> nat {
        self.window_start + self.cursor_column
    }

    /// `min(len, last_width - 1)`, taken as 0 while the width is 0.
    pub open spec fn max_right(self) -> nat {
        if self.last_width == 0 {
            0
        } else if self.len() < self.last_width - 1 {
            self.len()
        } else {
            (self.last_width - 1) as nat
        }
    }

    /// The logical position lies within the buffer (and so does the window
    /// start).
    pub open spec fn positioned(self) -> bool {
        self.window_start + self.cursor_column <= self.len()
    }

    /// The cursor column fits the last width: `cursor_column < last_width`
    /// when that width is positive; the position and the window start lie
    /// within the buffer.
    pub open spec fn invariants(self) -> bool {
        &&& (self.last_width > 0 ==> self.cursor_column < self.last_width)
        &&& self.window_start + self.cursor_column <= self.len()
        &&& self.window_start <= self.len()
    }

    /// Positioned, with the cursor at most at the rightmost column allowed.
    pub open spec fn settled(self) -> bool {
        self.positioned() && self.cursor_column <= self.max_right()
    }

    pub open spec fn with_cursor(self, window_start: nat, cursor_column: nat) -> EditorView {
        EditorView { window_start, cursor_column, ..self }
    }

    pub open spec fn with_text(self, text: Seq<char>) -> EditorView {
        EditorView { text, ..self }
    }

    /// Pulls a cursor that lies right of the rightmost allowed column (after
    /// the width shrank) back to that column, scrolling the window so that the
    /// logical position stays where it was.
    pub open spec fn normalized(self) -> EditorView {
        let m = self.max_right();
        if self.cursor_column > m {
            self.with_cursor((self.window_start + self.cursor_column - m) as nat, m)
        } else {
            self
        }
    }

    /// One position left: the cursor moves, or else the window scrolls; no
    /// change at position 0.
    pub open spec fn moved_left(self) -> EditorView {
        let n = self.normalized();
        if n.cursor_column > 0 {
            n.with_cursor(n.window_start, (n.cursor_column - 1) as nat)
        } else if n.window_start > 0 {
            n.with_cursor((n.window_start - 1) as nat, n.cursor_column)
        } else {
            n
        }
    }

    /// One position right: the cursor moves while it is left of the rightmost
    /// allowed column, or else the window scrolls while it does not yet reach
    /// the end of the buffer; no change at the end of the buffer.
    pub open spec fn moved_right(self) -> EditorView {
        let n = self.normalized();
        if n.pos() < n.len() {
            if n.cursor_column < n.max_right() {
                n.with_cursor(n.window_start, n.cursor_column + 1)
            } else if n.window_start + n.last_width < n.len() {
                n.with_cursor(n.window_start + 1, n.cursor_column)
            } else {
                n
            }
        } else {
            n
        }
    }

    /// One position right, scrolling when the cursor stands on the last
    /// visible column; no change at the end of the buffer.
    pub open spec fn stepped_forward(self) -> EditorView {
        let n = self.normalized();
        if n.pos() < n.len() {
            if n.cursor_column + 1 >= n.last_width {
                n.with_cursor(n.window_start + 1, n.cursor_column)
            } else {
                n.with_cursor(n.window_start, n.cursor_column + 1)
            }
        } else {
            n
        }
    }

    pub open spec fn at_line_start(self) -> EditorView {
        self.with_cursor(0, 0)
    }

    /// The end of the buffer in view, the cursor on the rightmost allowed
    /// column.
    pub open spec fn at_line_end(self) -> EditorView {
        let ws = if self.len() >= self.last_width {
            (self.len() - self.last_width) as nat
        } else {
            0
        };
        self.with_cursor(ws, self.max_right())
    }

    /// The cursor on `word_end` of its position; when that lies right of the
    /// window, the window scrolls so that it is the last visible column.
    pub open spec fn after_word_end(self) -> EditorView {
        let n = self.normalized();
        let r = word_end(n.text, n.pos() as int);
        let m = n.max_right();
        if n.window_start <= r && r - n.window_start <= m {
            n.with_cursor(n.window_start, (r - n.window_start) as nat)
        } else {
            let c = if r < m {
                r as nat
            } else {
                m
            };
            n.with_cursor((r - c) as nat, c)
        }
    }

    /// The cursor on `word_back` of its position; when that lies left of the
    /// window, the window starts there.
    pub open spec fn after_word_back(self) -> EditorView {
        let n = self.normalized();
        let r = word_back(n.text, n.pos() as int);
        if n.window_start > r {
            n.with_cursor(r as nat, 0)
        } else {
            n.with_cursor(n.window_start, (r - n.window_start) as nat)
        }
    }

    /// `ch` inserted at the logical position, which then moves one forward.
    pub open spec fn inserted(self, ch: char) -> EditorView {
        let n = self.normalized();
        n.with_text(n.text.insert(n.pos() as int, ch)).stepped_forward()
    }

    /// The character before the logical position removed, which then moves
    /// one back; no change at position 0.
    pub open spec fn backspaced(self) -> EditorView {
        let n = self.normalized();
        if n.pos() == 0 {
            n
        } else {
            let m = n.with_text(n.text.remove(n.pos() - 1));
            if m.cursor_column > 0 {
                m.with_cursor(m.window_start, (m.cursor_column - 1) as nat)
            } else {
                m.with_cursor((m.window_start - 1) as nat, m.cursor_column)
            }
        }
    }

    pub open spec fn resized(self, width: nat) -> EditorView {
        EditorView { last_width: width, ..self }
    }

    /// The visible part of the text for a render of `width` columns.
    pub open spec fn visible(self, width: nat) -> Seq<char> {
        let rest = (self.len() - self.window_start) as nat;
        let n = if width < rest {
            width
        } else {
            rest
        };
        self.text.subrange(self.window_start as int, (self.window_start + n) as int)
    }

    /// The state and mode after `action`.
    pub open spec fn applied(self, mode: Mode, action: Action) -> (EditorView, Mode) {
        match action {
            Action::MoveLeft => (self.moved_left(), mode),
            Action::MoveRight => (self.moved_right(), mode),
            Action::JumpStart => (self.at_line_start(), mode),
            Action::JumpEnd => (self.at_line_end(), mode),
            Action::WordForward => (self.after_word_end(), mode),
            Action::WordBack => (self.after_word_back(), mode),
            Action::EnterEditing(entry) => match entry {
                EditEntry::InPlace => (self.normalized(), Mode::Editing),
                EditEntry::AtLineStart => (self.at_line_start(), Mode::Editing),
                EditEntry::AfterCursor => (self.stepped_forward(), Mode::Editing),
                EditEntry::AtLineEnd => (self.at_line_end(), Mode::Editing),
            },
            Action::InsertChar(c) => (self.inserted(c), mode),
            Action::DeleteBack => (self.backspaced(), mode),
            Action::Cancel => (self.normalized(), Mode::Navigation),
        }
    }

    /// The state and mode after one key event; an unbound key changes nothing.
    pub open spec fn stepped(self, mode: Mode, key: Key) -> (EditorView, Mode) {
        match action_of(mode, self.focused, key) {
            Some(a) => self.applied(mode, a),
            None => (self, mode),
        }
    }
}

/// The state and mode after the key events of `keys`, in order.
pub open spec fn ran(v: EditorView, mode: Mode, keys: Seq<Key>) -> (EditorView, Mode)
    decreases keys.len(),
{
    if keys.len() == 0 {
        (v, mode)
    } else {
        let (w, m) = ran(v, mode, keys.drop_last());
        w.stepped(m, keys.last())
    }
}

} // verus!
