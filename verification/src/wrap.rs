//! Greedy word-wrap layout for the text tool.
//!
//! Characters flow left to right into lines of a given width. A newline
//! starts a new line. A word (a maximal run of characters that are
//! neither blanks nor newlines) that does not fit on the rest of the
//! current line is moved whole to the next line, unless it is wider than
//! a whole line, in which case it is broken at the margin. A blank at or
//! past the margin is dropped.
//!
//! The layout is a pure function of the text and the width: each
//! character either gets a `(row, column)` cell or is not drawn, and no
//! two characters share a cell.

use vstd::prelude::*;

verus! {

/// Longest text the layout accepts, so that rows and columns fit
/// comfortably in machine integers.
pub const TEXT_LIMIT: usize = 0x7fff_ffff;

pub open spec fn is_newline(c: char) -> bool {
    c == '\n'
}

pub open spec fn is_blank(c: char) -> bool {
    c == ' '
}

pub open spec fn is_word_char(c: char) -> bool {
    !is_newline(c) && !is_blank(c)
}

/// The length of the word starting at index `i` (zero when `i` does not
/// sit on a word character).
pub open spec fn word_len_from(text: Seq<char>, i: int) -> int
    decreases text.len() - i when 0 <= i <= text.len()
{
    if i < 0 || i >= text.len() || !is_word_char(text[i]) {
        0
    } else {
        1 + word_len_from(text, i + 1)
    }
}

/// Whether index `i` is the first character of a word.
pub open spec fn is_word_start(text: Seq<char>, i: int) -> bool {
    is_word_char(text[i]) && (i == 0 || !is_word_char(text[i - 1]))
}

/// Whether the word character at `i`, reached in state `st`, moves to
/// the start of the next line: either its whole word still fits on one
/// line but not on the rest of this one, or the margin is reached.
pub open spec fn needs_wrap(text: Seq<char>, w: int, i: int, st: (int, int)) -> bool {
    ||| (is_word_start(text, i) && st.1 > 0 && st.1 + word_len_from(text, i) > w
        && word_len_from(text, i) <= w)
    ||| st.1 >= w
}

/// The layout state (current row, current column) after processing the
/// character at `i` from state `st`.
pub open spec fn wrap_step(text: Seq<char>, w: int, i: int, st: (int, int)) -> (int, int) {
    let c = text[i];
    if is_newline(c) {
        (st.0 + 1, 0)
    } else if is_blank(c) {
        if st.1 < w {
            (st.0, st.1 + 1)
        } else {
            st
        }
    } else {
        if needs_wrap(text, w, i, st) {
            (st.0 + 1, 1)
        } else {
            (st.0, st.1 + 1)
        }
    }
}

/// The layout state before the character at `i` is processed.
pub open spec fn wrap_state(text: Seq<char>, w: int, i: int) -> (int, int)
    decreases i when i >= 0
{
    if i <= 0 {
        (0, 0)
    } else {
        wrap_step(text, w, i - 1, wrap_state(text, w, i - 1))
    }
}

/// The cell `(row, column)` the character at `i` is drawn into, or
/// nothing when it is not drawn (a newline, or a dropped blank).
pub open spec fn wrap_placed(text: Seq<char>, w: int, i: int) -> Option<(int, int)> {
    let st = wrap_state(text, w, i);
    let c = text[i];
    if is_newline(c) {
        None
    } else if is_blank(c) {
        if st.1 < w {
            Some(st)
        } else {
            None
        }
    } else {
        if needs_wrap(text, w, i, st) {
            Some(((st.0 + 1) as int, 0int))
        } else {
            Some(st)
        }
    }
}

/// `a` comes no later than `b` in reading order.
pub open spec fn lex_le(a: (int, int), b: (int, int)) -> bool {
    a.0 < b.0 || (a.0 == b.0 && a.1 <= b.1)
}

/// `a` comes strictly before `b` in reading order.
pub open spec fn lex_lt(a: (int, int), b: (int, int)) -> bool {
    a.0 < b.0 || (a.0 == b.0 && a.1 < b.1)
}

/// Layout states are non-negative, keep the column within the line, and
/// never move backwards in reading order.
pub proof fn lemma_wrap_state_bounds(text: Seq<char>, w: int, i: int)
    requires
        w >= 1,
        0 <= i,
    ensures
        0 <= wrap_state(text, w, i).0 <= i,
        0 <= wrap_state(text, w, i).1 <= w,
    decreases i,
{
    if i > 0 {
        lemma_wrap_state_bounds(text, w, i - 1);
    }
}

/// Each step moves the state forward (never backwards) in reading order.
pub proof fn lemma_wrap_state_monotone(text: Seq<char>, w: int, i: int, j: int)
    requires
        w >= 1,
        0 <= i <= j,
    ensures
        lex_le(wrap_state(text, w, i), wrap_state(text, w, j)),
    decreases j - i,
{
    if i < j {
        lemma_wrap_state_monotone(text, w, i, j - 1);
        lemma_wrap_state_bounds(text, w, j - 1);
    }
}

/// A placed character sits no earlier than the state it was reached in,
/// and strictly before the state that follows it.
pub proof fn lemma_wrap_placed_between(text: Seq<char>, w: int, i: int)
    requires
        w >= 1,
        0 <= i < text.len(),
        wrap_placed(text, w, i) is Some,
    ensures
        lex_le(wrap_state(text, w, i), wrap_placed(text, w, i)->Some_0),
        lex_lt(wrap_placed(text, w, i)->Some_0, wrap_state(text, w, i + 1)),
{
    lemma_wrap_state_bounds(text, w, i);
}

/// No two characters are drawn into the same cell: a later character's
/// cell comes strictly later in reading order.
pub proof fn lemma_wrap_placed_distinct(text: Seq<char>, w: int, i: int, j: int)
    requires
        w >= 1,
        0 <= i < j < text.len(),
        wrap_placed(text, w, i) is Some,
        wrap_placed(text, w, j) is Some,
    ensures
        lex_lt(wrap_placed(text, w, i)->Some_0, wrap_placed(text, w, j)->Some_0),
{
    lemma_wrap_placed_between(text, w, i);
    lemma_wrap_placed_between(text, w, j);
    lemma_wrap_state_monotone(text, w, i + 1, j);
}

/// A drawn character's column lies inside the line, and its row is
/// non-negative.
pub proof fn lemma_wrap_placed_in_line(text: Seq<char>, w: int, i: int)
    requires
        w >= 1,
        0 <= i < text.len(),
        wrap_placed(text, w, i) is Some,
    ensures
        0 <= wrap_placed(text, w, i)->Some_0.0 <= i + 1,
        0 <= wrap_placed(text, w, i)->Some_0.1 < w,
    decreases i,
{
    lemma_wrap_state_bounds(text, w, i);
}

/// The cell of each character of `text` laid out into lines of width
/// `w`, or nothing for a character that is not drawn.
pub fn wrap_layout(text: &Vec<char>, w: i64) -> (pos: Vec<Option<(i64, i64)>>)
    requires
        1 <= w <= 0x4000_0000_0000_0000,
        text@.len() <= TEXT_LIMIT,
    ensures
        pos@.len() == text@.len(),
        forall|i: int|
            0 <= i < text@.len() ==> #[trigger] pos@[i] == match wrap_placed(text@, w as int, i) {
                Option::Some(rc) => Option::Some((rc.0 as i64, rc.1 as i64)),
                Option::None => Option::<(i64, i64)>::None,
            },
{
    let n = text.len();
    let mut pos: Vec<Option<(i64, i64)>> = Vec::new();
    let mut row: i64 = 0;
    let mut col: i64 = 0;
    let mut i: usize = 0;
    while i < n
        invariant
            1 <= w <= 0x4000_0000_0000_0000,
            n == text@.len(),
            n <= TEXT_LIMIT,
            i <= n,
            pos@.len() == i,
            (row as int, col as int) == wrap_state(text@, w as int, i as int),
            0 <= row <= i,
            0 <= col,
            col <= w,
            forall|k: int|
                0 <= k < i ==> #[trigger] pos@[k] == match wrap_placed(text@, w as int, k) {
                    Option::Some(rc) => Option::Some((rc.0 as i64, rc.1 as i64)),
                    Option::None => Option::<(i64, i64)>::None,
                },
        decreases n - i,
    {
        let c = text[i];
        if c == '\n' {
            pos.push(None);
            row = row + 1;
            col = 0;
        } else if c == ' ' {
            if col < w {
                pos.push(Some((row, col)));
                col = col + 1;
            } else {
                pos.push(None);
            }
        } else {
            let fresh = i == 0 || !(text[i - 1] != '\n' && text[i - 1] != ' ');
            let mut wrap_here = col >= w;
            if fresh && col > 0 && !wrap_here {
                let wl = word_length(text, i);
                proof {
                    assert(is_word_start(text@, i as int));
                }
                if col + wl > w && wl <= w {
                    wrap_here = true;
                }
            }
            proof {
                assert(wrap_here == needs_wrap(
                    text@,
                    w as int,
                    i as int,
                    (row as int, col as int),
                ));
            }
            if wrap_here {
                pos.push(Some((row + 1, 0)));
                row = row + 1;
                col = 1;
            } else {
                pos.push(Some((row, col)));
                col = col + 1;
            }
        }
        i = i + 1;
    }
    pos
}

/// The length of the word starting at `i`, by scanning forward.
fn word_length(text: &Vec<char>, i: usize) -> (l: i64)
    requires
        i < text@.len(),
        text@.len() <= TEXT_LIMIT,
    ensures
        l == word_len_from(text@, i as int),
        0 <= l <= text@.len() - i,
{
    let n = text.len();
    let mut j = i;
    while j < n && text[j] != '\n' && text[j] != ' '
        invariant
            i <= j <= n,
            n == text@.len(),
            n <= TEXT_LIMIT,
            forall|k: int| i <= k < j ==> is_word_char(#[trigger] text@[k]),
        decreases n - j,
    {
        j = j + 1;
    }
    proof {
        lemma_word_len_scan(text@, i as int, j as int);
    }
    (j - i) as i64
}

/// The characters of a string, in order, as a vector.
pub fn to_chars(s: &str) -> (v: Vec<char>)
    ensures
        v@ == s@,
{
    let n = s.unicode_len();
    let mut v: Vec<char> = Vec::new();
    let mut i: usize = 0;
    while i < n
        invariant
            n == s@.len(),
            i <= n,
            v@.len() == i,
            forall|k: int| 0 <= k < i ==> #[trigger] v@[k] == s@[k],
        decreases n - i,
    {
        v.push(s.get_char(i));
        i = i + 1;
    }
    proof {
        assert(v@ =~= s@);
    }
    v
}

/// A maximal scanned run of word characters has exactly the word length.
proof fn lemma_word_len_scan(text: Seq<char>, i: int, j: int)
    requires
        0 <= i <= j <= text.len(),
        forall|k: int| i <= k < j ==> is_word_char(#[trigger] text[k]),
        j == text.len() || !is_word_char(text[j]),
    ensures
        word_len_from(text, i) == j - i,
    decreases j - i,
{
    if i < j {
        lemma_word_len_scan(text, i + 1, j);
    }
}

} // verus!
