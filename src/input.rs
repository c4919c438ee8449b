use crate::classify::{ascii_punct, blank, class_at, scan_backward, scan_forward, word_back, word_end, CharClass};
use crate::keys::{action_for, Action, EditEntry, Key, Mode};
use crate::model::{ran, EditorView};
use vstd::prelude::*;

verus! {

/// The state of a single-line input: the text and where it is shown.
pub struct InputState {
    /// The whole line being edited.
    pub buffer: Vec<char>,
    focused: bool,
    cursor_offset: u16,
    visible_buffer_offset: usize,
    last_render_width: u16,
}

impl View for InputState {
    type V = EditorView;

    closed spec fn view(&self) -> EditorView {
        EditorView {
            text: self.buffer@,
            window_start: self.visible_buffer_offset as nat,
            cursor_column: self.cursor_offset as nat,
            last_width: self.last_render_width as nat,
            focused: self.focused,
        }
    }
}

impl Default for InputState {
    /// An empty line, nothing scrolled, no width known yet, without focus.
    fn default() -> (r: Self)
        ensures
            r@ == EditorView::empty(),
    {
        let r = InputState {
            focused: false,
            last_render_width: 0,
            cursor_offset: 0,
            visible_buffer_offset: 0,
            buffer: Vec::new(),
        };
        assert(r@.text =~= Seq::<char>::empty());
        r
    }
}

impl InputState {
    /// Gives the widget focus: it takes key events and shows a caret.
    pub fn focus(&mut self)
        ensures
            final(self)@ == (EditorView { focused: true, ..old(self)@ }),
    {
        self.focused = true;
    }

    /// Takes focus away from the widget.
    pub fn blur(&mut self)
        ensures
            final(self)@ == (EditorView { focused: false, ..old(self)@ }),
    {
        self.focused = false;
    }

    pub fn is_focused(&self) -> (r: bool)
        ensures
            r == self@.focused,
    {
        self.focused
    }

    /// The cursor's column inside the visible window.
    pub fn cursor_column(&self) -> (r: u16)
        ensures
            r == self@.cursor_column,
    {
        self.cursor_offset
    }

    /// The buffer index of the first visible character.
    pub fn window_start(&self) -> (r: usize)
        ensures
            r == self@.window_start,
    {
        self.visible_buffer_offset
    }

    /// The width of the last render.
    pub fn last_width(&self) -> (r: u16)
        ensures
            r == self@.last_width,
    {
        self.last_render_width
    }

    /// Whether the logical position lies within the buffer, which every
    /// operation of `Input` asks for.
    pub fn is_positioned(&self) -> (r: bool)
        ensures
            r == self@.positioned(),
    {
        self.visible_buffer_offset <= self.buffer.len() && (self.cursor_offset as usize)
            <= self.buffer.len() - self.visible_buffer_offset
    }

    fn set_cursor(&mut self, window_start: usize, cursor_column: u16)
        ensures
            final(self)@ == old(self)@.with_cursor(window_start as nat, cursor_column as nat),
    {
        self.visible_buffer_offset = window_start;
        self.cursor_offset = cursor_column;
    }
}

/// A single-line input widget with vim-style navigation; its state lives in
/// an `InputState`.
pub struct Input<'a> {
    title: &'a str,
}

impl<'a> Input<'a> {
    pub closed spec fn title_spec(&self) -> &'a str {
        self.title
    }

    pub fn new(title: &'a str) -> (r: Self)
        ensures
            r.title_spec() == title,
    {
        Input { title }
    }

    /// The title shown above the input.
    pub fn title(&self) -> (r: &'a str)
        ensures
            r == self.title_spec(),
    {
        self.title
    }

    /// The largest column the cursor may take without scrolling:
    /// `min(len, last_width - 1)`, 0 while no width is known.
    pub fn get_max_right_cursor_pos(&self, state: &InputState) -> (r: u16)
        ensures
            r == state@.max_right(),
    {
        if state.last_render_width == 0 {
            0
        } else if state.buffer.len() < (state.last_render_width - 1) as usize {
            state.buffer.len() as u16
        } else {
            state.last_render_width - 1
        }
    }

    /// The logical position: the buffer index under the cursor.
    pub fn get_buffer_update_offset(&self, state: &InputState) -> (r: usize)
        requires
            state@.positioned(),
        ensures
            r == state@.pos(),
    {
        let len = state.buffer.len();
        assert(state.visible_buffer_offset + state.cursor_offset <= len);
        state.visible_buffer_offset + state.cursor_offset as usize
    }

    /// Records the width of a render; nothing else moves.
    pub fn recompute_on_resize(&self, state: &mut InputState, width: u16)
        ensures
            final(state)@ == old(state)@.resized(width as nat),
    {
        state.last_render_width = width;
    }

    /// Brings a cursor that a narrower width left too far right back onto the
    /// rightmost allowed column, keeping the logical position.
    fn settle(&self, state: &mut InputState)
        requires
            old(state)@.positioned(),
        ensures
            final(state)@ == old(state)@.normalized(),
            final(state)@.settled(),
    {
        let len = state.buffer.len();
        assert(state.visible_buffer_offset + state.cursor_offset <= len);
        let m = self.get_max_right_cursor_pos(state);
        if state.cursor_offset > m {
            let ws = state.visible_buffer_offset + (state.cursor_offset - m) as usize;
            state.set_cursor(ws, m);
        }
    }

    /// Moves one position left (`h`, left arrow).
    pub fn go_left(&self, state: &mut InputState)
        requires
            old(state)@.positioned(),
        ensures
            final(state)@ == old(state)@.moved_left(),
    {
        self.settle(state);
        if state.cursor_offset != 0 {
            let c = state.cursor_offset - 1;
            let ws = state.visible_buffer_offset;
            state.set_cursor(ws, c);
        } else if state.visible_buffer_offset != 0 {
            let ws = state.visible_buffer_offset - 1;
            let c = state.cursor_offset;
            state.set_cursor(ws, c);
        }
    }

    /// Moves one position right (`l`, right arrow).
    pub fn go_right(&self, state: &mut InputState)
        requires
            old(state)@.positioned(),
        ensures
            final(state)@ == old(state)@.moved_right(),
    {
        self.settle(state);
        let len = state.buffer.len();
        let ws = state.visible_buffer_offset;
        let c = state.cursor_offset;
        let width = state.last_render_width as usize;
        if ws + (c as usize) < len {
            if c < self.get_max_right_cursor_pos(state) {
                state.set_cursor(ws, c + 1);
            } else if width < len && ws < len - width {
                state.set_cursor(ws + 1, c);
            }
        }
    }

    /// Moves one position right, scrolling when the cursor stands on the last
    /// visible column.
    fn step_forward(&self, state: &mut InputState)
        requires
            old(state)@.positioned(),
        ensures
            final(state)@ == old(state)@.stepped_forward(),
    {
        self.settle(state);
        let ws = state.visible_buffer_offset;
        let c = state.cursor_offset;
        let len = state.buffer.len();
        if ws + (c as usize) < len {
            if c as usize + 1 >= state.last_render_width as usize {
                state.set_cursor(ws + 1, c);
            } else {
                state.set_cursor(ws, c + 1);
            }
        }
    }

    /// Jumps to the start of the line (`^`).
    pub fn go_far_left(&self, state: &mut InputState)
        ensures
            final(state)@ == old(state)@.at_line_start(),
    {
        state.set_cursor(0, 0);
    }

    /// Jumps to the end of the line (`$`): the last characters in view, the
    /// cursor on the rightmost allowed column.
    pub fn go_far_right(&self, state: &mut InputState)
        ensures
            final(state)@ == old(state)@.at_line_end(),
    {
        let len = state.buffer.len();
        let width = state.last_render_width as usize;
        let c = self.get_max_right_cursor_pos(state);
        let ws = if len >= width {
            len - width
        } else {
            0
        };
        state.set_cursor(ws, c);
    }
    /// The class of position `pos` of `chars`.
    pub fn get_char_class(&self, pos: usize, chars: &Vec<char>) -> (r: CharClass)
        ensures
            r == class_at(chars@, pos as int),
    {
        if pos >= chars.len() {
            CharClass::OutOfBounds
        } else if blank(chars[pos]) {
            CharClass::Whitespace
        } else if ascii_punct(chars[pos]) {
            CharClass::Punctuation
        } else {
            CharClass::Word
        }
    }

    /// The first position at or after `from` whose class is not `class`.
    fn skip_forward(&self, from: usize, class: CharClass, chars: &Vec<char>) -> (r: usize)
        requires
            from <= chars@.len(),
        ensures
            r == scan_forward(chars@, from as int, class),
            from <= r <= chars@.len(),
    {
        let mut pos = from;
        while pos < chars.len() && self.get_char_class(pos, chars) == class
            invariant
                from <= pos <= chars@.len(),
                scan_forward(chars@, pos as int, class) == scan_forward(
                    chars@,
                    from as int,
                    class,
                ),
            decreases chars@.len() - pos,
        {
            pos += 1;
        }
        pos
    }

    /// Walks back from `from` while the class is `class`, stopping at 0.
    fn skip_backward(&self, from: usize, class: CharClass, chars: &Vec<char>) -> (r: usize)
        ensures
            r == scan_backward(chars@, from as int, class),
            r <= from,
    {
        let mut pos = from;
        while self.get_char_class(pos, chars) == class
            invariant
                pos <= from,
                scan_backward(chars@, pos as int, class) == scan_backward(
                    chars@,
                    from as int,
                    class,
                ),
            decreases pos,
        {
            if pos <= 1 {
                return 0;
            }
            pos -= 1;
        }
        pos
    }

    /// Jumps forward to the end of the word (`e`); see `word_end`.
    pub fn go_end_of_word(&self, state: &mut InputState)
        requires
            old(state)@.positioned(),
        ensures
            final(state)@ == old(state)@.after_word_end(),
    {
        self.settle(state);
        let p = self.get_buffer_update_offset(state);
        let len = state.buffer.len();
        let r: usize = if p >= len {
            len
        } else {
            let a = self.skip_forward(p + 1, CharClass::Whitespace, &state.buffer);
            let class = self.get_char_class(a, &state.buffer);
            let b = self.skip_forward(a, class, &state.buffer);
            assert(b > p) by {
                if a < len {
                    assert(class_at(state.buffer@, a as int) == class);
                }
            }
            b - 1
        };
        assert(r == word_end(state@.text, state@.pos() as int));
        let ws = state.visible_buffer_offset;
        let m = self.get_max_right_cursor_pos(state);
        if ws <= r && r - ws <= m as usize {
            state.set_cursor(ws, (r - ws) as u16);
        } else {
            let c: u16 = if r < m as usize {
                r as u16
            } else {
                m
            };
            state.set_cursor(r - c as usize, c);
        }
    }

    /// Jumps back over a word (`b`); see `word_back`.
    pub fn go_back_word(&self, state: &mut InputState)
        requires
            old(state)@.positioned(),
        ensures
            final(state)@ == old(state)@.after_word_back(),
    {
        self.settle(state);
        let p = self.get_buffer_update_offset(state);
        let start: usize = if p > 0 {
            p - 1
        } else {
            0
        };
        let a = self.skip_backward(start, CharClass::Whitespace, &state.buffer);
        let class = self.get_char_class(a, &state.buffer);
        let r = if a != 0 && class != CharClass::OutOfBounds {
            self.skip_backward(a, class, &state.buffer)
        } else {
            a
        };
        assert(r == word_back(state@.text, state@.pos() as int));
        let ws = state.visible_buffer_offset;
        if ws > r {
            state.set_cursor(r, 0);
        } else {
            let c = state.cursor_offset;
            assert(r - ws <= c);
            state.set_cursor(ws, (r - ws) as u16);
        }
    }
    /// Inserts `c` at the logical position and moves past it.
    pub fn insert_char(&self, state: &mut InputState, c: char)
        requires
            old(state)@.positioned(),
        ensures
            final(state)@ == old(state)@.inserted(c),
    {
        self.settle(state);
        let p = self.get_buffer_update_offset(state);
        state.buffer.insert(p, c);
        self.step_forward(state);
    }

    /// Deletes the character before the logical position and moves back onto
    /// it; nothing happens at position 0.
    pub fn delete_back(&self, state: &mut InputState)
        requires
            old(state)@.positioned(),
        ensures
            final(state)@ == old(state)@.backspaced(),
    {
        self.settle(state);
        let p = self.get_buffer_update_offset(state);
        if p > 0 {
            state.buffer.remove(p - 1);
            let ws = state.visible_buffer_offset;
            let c = state.cursor_offset;
            if c > 0 {
                state.set_cursor(ws, c - 1);
            } else {
                state.set_cursor(ws - 1, c);
            }
        }
    }

    /// Carries out `action` in `mode`, and returns the mode that follows.
    pub fn apply(&self, state: &mut InputState, mode: Mode, action: Action) -> (r: Mode)
        requires
            old(state)@.positioned(),
        ensures
            (final(state)@, r) == old(state)@.applied(mode, action),
    {
        match action {
            Action::MoveLeft => {
                self.go_left(state);
                mode
            },
            Action::MoveRight => {
                self.go_right(state);
                mode
            },
            Action::JumpStart => {
                self.go_far_left(state);
                mode
            },
            Action::JumpEnd => {
                self.go_far_right(state);
                mode
            },
            Action::WordForward => {
                self.go_end_of_word(state);
                mode
            },
            Action::WordBack => {
                self.go_back_word(state);
                mode
            },
            Action::EnterEditing(entry) => {
                match entry {
                    EditEntry::InPlace => self.settle(state),
                    EditEntry::AtLineStart => self.go_far_left(state),
                    EditEntry::AfterCursor => self.step_forward(state),
                    EditEntry::AtLineEnd => self.go_far_right(state),
                }
                Mode::Editing
            },
            Action::InsertChar(c) => {
                self.insert_char(state, c);
                mode
            },
            Action::DeleteBack => {
                self.delete_back(state);
                mode
            },
            Action::Cancel => {
                self.settle(state);
                Mode::Navigation
            },
        }
    }

    /// Handles one key event in `mode`, and returns the mode that follows.
    pub fn handle_key(&self, state: &mut InputState, mode: Mode, key: Key) -> (r: Mode)
        requires
            old(state)@.positioned(),
        ensures
            (final(state)@, r) == old(state)@.stepped(mode, key),
            final(state)@.positioned(),
    {
        match action_for(mode, state.focused, key) {
            Some(action) => {
                let r = self.apply(state, mode, action);
                proof {
                    crate::laws::lemma_applied_settles(old(state)@, mode, action);
                }
                r
            },
            None => mode,
        }
    }

    /// Handles the key events of `keys` in order, starting in `mode`, and
    /// returns the mode that follows.
    pub fn update(&self, state: &mut InputState, mode: Mode, keys: &Vec<Key>) -> (r: Mode)
        requires
            old(state)@.positioned(),
        ensures
            (final(state)@, r) == ran(old(state)@, mode, keys@),
            final(state)@.positioned(),
    {
        let ghost start = state@;
        let mut m = mode;
        let mut i: usize = 0;
        while i < keys.len()
            invariant
                i <= keys@.len(),
                state@.positioned(),
                (state@, m) == ran(start, mode, keys@.take(i as int)),
            decreases keys@.len() - i,
        {
            proof {
                assert(keys@.take(i as int + 1).drop_last() =~= keys@.take(i as int));
            }
            m = self.handle_key(state, m, keys[i]);
            i += 1;
        }
        proof {
            assert(keys@.take(i as int) =~= keys@);
        }
        m
    }

    /// The visible part of the buffer for a render of `width` columns.
    pub fn trimmed_buffer(&self, state: &InputState, width: u16) -> (r: Vec<char>)
        requires
            state@.positioned(),
        ensures
            r@ == state@.visible(width as nat),
    {
        let len = state.buffer.len();
        let start = state.visible_buffer_offset;
        let rest = len - start;
        let n: usize = if (width as usize) < rest {
            width as usize
        } else {
            rest
        };
        let mut r: Vec<char> = Vec::new();
        let mut i: usize = 0;
        while i < n
            invariant
                i <= n,
                start + n <= len,
                len == state.buffer@.len(),
                r@ =~= state.buffer@.subrange(start as int, start + i),
            decreases n - i,
        {
            r.push(state.buffer[start + i]);
            i += 1;
        }
        r
    }

    /// One render pass over a region whose text starts at column `left` of
    /// row `top` and is `width` columns wide: a focused widget first handles
    /// the pending key events in order, then the width is recorded, and the
    /// visible text is projected together with, when focused, the caret's
    /// screen position.
    pub fn render(
        &self,
        state: &mut InputState,
        mode: Mode,
        keys: &Vec<Key>,
        left: u16,
        top: u16,
        width: u16,
    ) -> (r: Projection)
        requires
            old(state)@.positioned(),
        ensures
            ({
                let (v, m) = if old(state)@.focused {
                    ran(old(state)@, mode, keys@)
                } else {
                    (old(state)@, mode)
                };
                &&& final(state)@ == v.resized(width as nat)
                &&& r.mode == m
                &&& r.visible@ == final(state)@.visible(width as nat)
                &&& r.caret == if v.focused {
                    Some(((left + v.cursor_column) as u32, top))
                } else {
                    None::<(u32, u16)>
                }
            }),
            final(state)@.positioned(),
    {
        let m = if state.focused {
            self.update(state, mode, keys)
        } else {
            mode
        };
        self.recompute_on_resize(state, width);
        let caret = if state.focused {
            Some((left as u32 + state.cursor_offset as u32, top))
        } else {
            None
        };
        let visible = self.trimmed_buffer(state, width);
        Projection { mode: m, visible, caret }
    }
}

/// What a render pass hands the host to draw.
pub struct Projection {
    /// The editing mode after the pass.
    pub mode: Mode,
    /// The visible part of the text.
    pub visible: Vec<char>,
    /// Where the caret goes on screen (column, row), when the widget has focus.
    pub caret: Option<(u32, u16)>,
}

} // verus!
