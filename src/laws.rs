use crate::classify::{class_at, scan_backward, scan_forward, word_back, word_end, CharClass};
use crate::keys::{action_of, Action, Key, Mode};
use crate::model::{ran, EditorView};
use vstd::prelude::*;

verus! {

/// A forward scan never moves back, and from within the buffer it stops at
/// its end at the latest.
pub proof fn lemma_scan_forward_bounds(s: Seq<char>, i: int, c: CharClass)
    requires
        0 <= i,
    ensures
        i <= scan_forward(s, i, c),
        i <= s.len() ==> scan_forward(s, i, c) <= s.len(),
    decreases s.len() - i,
{
    if 0 <= i < s.len() && class_at(s, i) == c {
        lemma_scan_forward_bounds(s, i + 1, c);
    }
}

/// A backward scan stays between 0 and its start.
pub proof fn lemma_scan_backward_bounds(s: Seq<char>, i: int, c: CharClass)
    requires
        0 <= i,
    ensures
        0 <= scan_backward(s, i, c) <= i,
    decreases i,
{
    if class_at(s, i) == c && i > 1 {
        lemma_scan_backward_bounds(s, i - 1, c);
    }
}

/// A forward word motion from a position within the buffer lands between
/// that position and the end of the buffer.
pub proof fn lemma_word_end_bounds(s: Seq<char>, p: int)
    requires
        0 <= p <= s.len(),
    ensures
        p <= word_end(s, p) <= s.len(),
{
    let a = scan_forward(s, p + 1, CharClass::Whitespace);
    lemma_scan_forward_bounds(s, p + 1, CharClass::Whitespace);
    lemma_scan_forward_bounds(s, a, class_at(s, a));
    if a > s.len() {
        assert(scan_forward(s, a, class_at(s, a)) == a);
    }
}

/// A backward word motion lands between the start of the buffer and the
/// position it started from.
pub proof fn lemma_word_back_bounds(s: Seq<char>, p: int)
    requires
        0 <= p,
    ensures
        0 <= word_back(s, p) <= p,
{
    let a = scan_backward(s, if p > 0 { p - 1 } else { 0 }, CharClass::Whitespace);
    lemma_scan_backward_bounds(s, if p > 0 { p - 1 } else { 0 }, CharClass::Whitespace);
    lemma_scan_backward_bounds(s, a, class_at(s, a));
}

/// Pulling the cursor back onto the allowed columns keeps the logical
/// position, and settles a state whose position lies within the buffer.
pub proof fn lemma_normalized(v: EditorView)
    requires
        v.positioned(),
    ensures
        v.normalized().settled(),
        v.normalized().pos() == v.pos(),
        v.normalized().text == v.text,
        v.normalized().last_width == v.last_width,
        v.normalized().focused == v.focused,
        v.settled() ==> v.normalized() == v,
{
}

/// The motions that keep the text leave a positioned state settled.
pub proof fn lemma_motions_settle(v: EditorView)
    requires
        v.positioned(),
    ensures
        v.moved_left().settled(),
        v.moved_right().settled(),
        v.stepped_forward().settled(),
        v.at_line_start().settled(),
        v.at_line_end().settled(),
{
    lemma_normalized(v);
}

/// The word motions leave a positioned state settled.
pub proof fn lemma_word_motions_settle(v: EditorView)
    requires
        v.positioned(),
    ensures
        v.after_word_end().settled(),
        v.after_word_back().settled(),
{
    let n = v.normalized();
    lemma_normalized(v);
    lemma_word_end_bounds(n.text, n.pos() as int);
    lemma_word_back_bounds(n.text, n.pos() as int);
}

/// The edits leave a positioned state settled.
pub proof fn lemma_edits_settle(v: EditorView, c: char)
    requires
        v.positioned(),
    ensures
        v.inserted(c).settled(),
        v.backspaced().settled(),
{
    let n = v.normalized();
    lemma_normalized(v);
    let w = n.with_text(n.text.insert(n.pos() as int, c));
    lemma_motions_settle(w);
}

/// Every action leaves the state settled: the position within the buffer and
/// the cursor at most on the rightmost allowed column.
pub proof fn lemma_applied_settles(v: EditorView, mode: Mode, action: Action)
    requires
        v.positioned(),
    ensures
        v.applied(mode, action).0.settled(),
{
    lemma_normalized(v);
    lemma_motions_settle(v);
    match action {
        Action::WordForward => lemma_word_motions_settle(v),
        Action::WordBack => lemma_word_motions_settle(v),
        Action::InsertChar(c) => lemma_edits_settle(v, c),
        Action::DeleteBack => lemma_edits_settle(v, ' '),
        _ => {},
    }
}

/// A fresh widget satisfies the invariants.
pub proof fn lemma_empty_invariants()
    ensures
        EditorView::empty().invariants(),
{
}

/// A settled state satisfies the invariants.
pub proof fn lemma_settled_invariants(v: EditorView)
    requires
        v.settled(),
    ensures
        v.invariants(),
{
}

/// Handling a key event keeps the position within the buffer; it keeps the
/// invariants, and restores them after a narrower width whenever the key is
/// bound to an action.
pub proof fn lemma_step_invariants(v: EditorView, mode: Mode, key: Key)
    requires
        v.positioned(),
    ensures
        v.stepped(mode, key).0.positioned(),
        v.invariants() ==> v.stepped(mode, key).0.invariants(),
        action_of(mode, v.focused, key) is Some ==> v.stepped(
            mode,
            key,
        ).0.invariants(),
{
    if let Some(a) = action_of(mode, v.focused, key) {
        lemma_applied_settles(v, mode, a);
    }
}

/// Handling any sequence of key events keeps the invariants.
pub proof fn lemma_run_invariants(v: EditorView, mode: Mode, keys: Seq<Key>)
    requires
        v.invariants(),
    ensures
        ran(v, mode, keys).0.invariants(),
    decreases keys.len(),
{
    if keys.len() > 0 {
        lemma_run_invariants(v, mode, keys.drop_last());
        let (w, m) = ran(v, mode, keys.drop_last());
        lemma_step_invariants(w, m, keys.last());
    }
}

/// Recording a new width moves nothing: the position stays within the
/// buffer, and the invariants hold on whenever the cursor column is left of
/// the new width (or the width is 0).
pub proof fn lemma_resize_invariants(v: EditorView, width: nat)
    requires
        v.invariants(),
        width == 0 || v.cursor_column < width,
    ensures
        v.resized(width).invariants(),
        v.resized(width).pos() == v.pos(),
{
}

/// Jumping to the start of the line puts window and cursor at 0, and doing
/// it again changes nothing.
pub proof fn lemma_line_start_fixed(v: EditorView)
    ensures
        v.at_line_start().window_start == 0,
        v.at_line_start().cursor_column == 0,
        v.at_line_start().at_line_start() == v.at_line_start(),
{
}

/// Jumping to the end of the line a second time changes nothing.
pub proof fn lemma_line_end_fixed(v: EditorView)
    ensures
        v.at_line_end().at_line_end() == v.at_line_end(),
{
}

/// Jumping to the end of the line and then to its start puts window and
/// cursor at 0, with the text unchanged.
pub proof fn lemma_end_then_start(v: EditorView)
    ensures
        v.at_line_end().at_line_start().window_start == 0,
        v.at_line_end().at_line_start().cursor_column == 0,
        v.at_line_end().at_line_start().text == v.text,
{
}

/// Typing a character puts it at the logical position, which then moves one
/// forward.
pub proof fn lemma_insert_advances(v: EditorView, c: char)
    requires
        v.positioned(),
    ensures
        v.inserted(c).text == v.text.insert(v.pos() as int, c),
        v.inserted(c).pos() == v.pos() + 1,
{
    let n = v.normalized();
    lemma_normalized(v);
    let w = n.with_text(n.text.insert(n.pos() as int, c));
    lemma_normalized(w);
}

/// A backspace removes the character before the logical position, which then
/// moves one back; at position 0 text and position stay.
pub proof fn lemma_backspace_retreats(v: EditorView)
    requires
        v.positioned(),
    ensures
        v.pos() == 0 ==> v.backspaced().text == v.text && v.backspaced().pos() == 0,
        v.pos() > 0 ==> v.backspaced().text == v.text.remove(v.pos() - 1)
            && v.backspaced().pos() == v.pos() - 1,
{
    lemma_normalized(v);
}

/// The motions one position left or right change the logical position by
/// at most one, and never leave the buffer; left always reaches the previous
/// position.
pub proof fn lemma_motion_positions(v: EditorView)
    requires
        v.positioned(),
    ensures
        v.moved_left().pos() == if v.pos() > 0 {
            v.pos() - 1
        } else {
            0
        },
        v.moved_right().pos() == v.pos() || v.moved_right().pos() == v.pos() + 1,
        v.moved_right().pos() <= v.len(),
        v.moved_left().text == v.text && v.moved_right().text == v.text,
{
    lemma_normalized(v);
}

} // verus!
