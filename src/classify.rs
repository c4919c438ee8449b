use vstd::prelude::*;

verus! {

/// The class of a buffer position, used by word motions.
#[derive(PartialEq, Eq, Structural, Clone, Copy, Debug)]
pub enum CharClass {
    Whitespace,
    Punctuation,
    Word,
    /// The position lies at or past the end of the buffer.
    OutOfBounds,
}

/// What `char::is_whitespace` answers for `c` (the Unicode `White_Space`
/// property).
pub uninterp spec fn is_blank(c: char) -> bool;

/// The ASCII punctuation marks: `!` to `/`, `:` to `@`, `[` to `` ` `` and `{` to `~`.
pub open spec fn is_ascii_punct(c: char) -> bool {
    let u = c as u32;
    (0x21 <= u && u <= 0x2f) || (0x3a <= u && u <= 0x40) || (0x5b <= u && u <= 0x60) || (0x7b
        <= u && u <= 0x7e)
}

/// The class of position `i` of `s`.
pub open spec fn class_at(s: Seq<char>, i: int) -> CharClass {
    if i < 0 || i >= s.len() {
        CharClass::OutOfBounds
    } else if is_blank(s[i]) {
        CharClass::Whitespace
    } else if is_ascii_punct(s[i]) {
        CharClass::Punctuation
    } else {
        CharClass::Word
    }
}

/// The first position at or after `i` whose class is not `c`.
pub open spec fn scan_forward(s: Seq<char>, i: int, c: CharClass) -> int
    decreases s.len() - i,
{
    if 0 <= i < s.len() && class_at(s, i) == c {
        scan_forward(s, i + 1, c)
    } else {
        i
    }
}

/// Walks back from `i` while the class is `c`: the first position whose
/// class is not `c`, or 0 once the walk reaches the start (position 0 itself
/// is not examined after a step).
pub open spec fn scan_backward(s: Seq<char>, i: int, c: CharClass) -> int
    decreases i,
{
    if class_at(s, i) == c {
        if i <= 1 {
            0
        } else {
            scan_backward(s, i - 1, c)
        }
    } else {
        i
    }
}

/// Where a forward word motion from `p` lands: past any whitespace after `p`,
/// the last position of the run of one class that follows.
pub open spec fn word_end(s: Seq<char>, p: int) -> int {
    let a = scan_forward(s, p + 1, CharClass::Whitespace);
    scan_forward(s, a, class_at(s, a)) - 1
}

/// Where a backward word motion from `p` lands: back past any whitespace
/// before `p`, then back past the run of one class found there.
pub open spec fn word_back(s: Seq<char>, p: int) -> int {
    let a = scan_backward(s, if p > 0 { p - 1 } else { 0 }, CharClass::Whitespace);
    let c = class_at(s, a);
    if a != 0 && c != CharClass::OutOfBounds {
        scan_backward(s, a, c)
    } else {
        a
    }
}

/// Relies on `char::is_whitespace`: its answer depends on `c` alone, and a
/// space is whitespace.
#[verifier::external_body]
pub(crate) fn blank(c: char) -> (r: bool)
    ensures
        r == is_blank(c),
        c == ' ' ==> r,
{
    c.is_whitespace()
}

/// Relies on `char::is_ascii_punctuation`: true exactly on the four ASCII
/// punctuation ranges.
#[verifier::external_body]
pub(crate) fn ascii_punct(c: char) -> (r: bool)
    ensures
        r == is_ascii_punct(c),
{
    c.is_ascii_punctuation()
}

} // verus!
