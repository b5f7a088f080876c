//! A look at `.obj` text for face and line statements that hold a dash.
//!
//! A statement is a line of words. A `#` begins a comment that runs to the
//! end of its line; space, tab and carriage return part the words. In a
//! statement whose first word is `f` or `l`, the words that follow are vertex
//! indices, and the format as it is read here has no negative index: a dash
//! in such a word makes the statement unreadable.

use vstd::prelude::*;

verus! {

pub const NEWLINE: u8 = 10;

pub const HASH: u8 = 35;

pub const DASH: u8 = 45;

pub const LOWER_F: u8 = 102;

pub const LOWER_L: u8 = 108;

/// The byte parts words without ending the line.
pub open spec fn blank(byte: u8) -> bool {
    byte == 32 || byte == 9 || byte == 13
}

/// A line begins at `s`.
pub open spec fn line_start(text: Seq<u8>, s: int) -> bool {
    0 <= s <= text.len() && (s == 0 || text[s - 1] == NEWLINE)
}

/// The line that begins at `s` has `f` or `l` at `w` as its first word, and
/// a dash at `d` in a later word, before any comment.
pub open spec fn dashed_statement(text: Seq<u8>, s: int, w: int, d: int) -> bool {
    &&& line_start(text, s)
    &&& s <= w
    &&& w + 1 < d < text.len()
    &&& forall|k: int| s <= k < w ==> blank(#[trigger] text[k])
    &&& (text[w] == LOWER_F || text[w] == LOWER_L)
    &&& blank(text[w + 1])
    &&& text[d] == DASH
    &&& forall|k: int| s <= k <= d ==> #[trigger] text[k] != NEWLINE && text[k] != HASH
}

/// The line that begins at `s` is a face or line statement with a dash.
pub open spec fn dashed_at(text: Seq<u8>, s: int) -> bool {
    exists|w: int, d: int| dashed_statement(text, s, w, d)
}

/// Some face or line statement of the text holds a dash.
pub open spec fn has_dashed_statement(text: Seq<u8>) -> bool {
    exists|s: int| dashed_at(text, s)
}

/// How many line ends stand before position `i`.
pub open spec fn newlines_before(text: Seq<u8>, i: int) -> nat
    decreases i,
{
    if i <= 0 {
        0
    } else if text[i - 1] == NEWLINE {
        newlines_before(text, i - 1) + 1
    } else {
        newlines_before(text, i - 1)
    }
}

/// `line`, counted from 1, is the first line that is a face or line
/// statement with a dash.
pub open spec fn first_dashed_line(text: Seq<u8>, line: int) -> bool {
    exists|s: int|
        {
            &&& #[trigger] dashed_at(text, s)
            &&& forall|t: int| 0 <= t < s ==> !#[trigger] dashed_at(text, t)
            &&& line == newlines_before(text, s) + 1
        }
}

proof fn lemma_same_line(text: Seq<u8>, from: int, to: int)
    requires
        0 <= from <= to <= text.len(),
        forall|k: int| from <= k < to ==> #[trigger] text[k] != NEWLINE,
    ensures
        newlines_before(text, to) == newlines_before(text, from),
    decreases to - from,
{
    if from < to {
        lemma_same_line(text, from, to - 1);
    }
}

/// Finds the first face or line statement with a dash and gives its line
/// number, counted from 1.
#[verifier::loop_isolation(false)]
pub fn find_dashed_statement(text: &[u8]) -> (r: Option<usize>)
    ensures
        match r {
            Some(line) => first_dashed_line(text@, line as int),
            None => !has_dashed_statement(text@),
        },
{
    let n: usize = text.len();
    let mut s: usize = 0;
    let mut newlines: usize = 0;
    while s < n
        invariant
            n == text@.len(),
            s <= n,
            s < n ==> line_start(text@, s as int),
            newlines == newlines_before(text@, s as int),
            newlines <= s,
            forall|t: int| 0 <= t < s ==> !#[trigger] dashed_at(text@, t),
        decreases n - s,
    {
        let mut w: usize = s;
        while w < n && (text[w] == 32 || text[w] == 9 || text[w] == 13)
            invariant
                s <= w <= n,
                forall|k: int| s <= k < w ==> blank(#[trigger] text@[k]),
            decreases n - w,
        {
            w += 1;
        }
        let face: bool = w < n - 1 && (text[w] == LOWER_F || text[w] == LOWER_L) && (text[w + 1] == 32
            || text[w + 1] == 9 || text[w + 1] == 13);
        let mut d: usize = w;
        while d < n && text[d] != NEWLINE && text[d] != HASH
            invariant
                w <= d <= n,
                forall|k: int| s <= k < d ==> #[trigger] text@[k] != NEWLINE && text@[k] != HASH,
                face ==> forall|k: int| w + 1 < k < d ==> #[trigger] text@[k] != DASH,
            decreases n - d,
        {
            if face && d > w + 1 && text[d] == DASH {
                assert(dashed_statement(text@, s as int, w as int, d as int));
                assert(dashed_at(text@, s as int));
                return Some(newlines + 1);
            }
            d += 1;
        }
        assert(!dashed_at(text@, s as int)) by {
            if dashed_at(text@, s as int) {
                let (w2, d2) = choose|w2: int, d2: int| dashed_statement(text@, s as int, w2, d2);
                if w2 < w {
                    assert(blank(text@[w2]));
                } else if w2 > w {
                    assert(blank(text@[w as int]));
                } else if d2 < d {
                    assert(text@[d2] != DASH);
                } else {
                    assert(text@[d as int] != NEWLINE && text@[d as int] != HASH);
                }
            }
        }
        let mut e: usize = d;
        while e < n && text[e] != NEWLINE
            invariant
                d <= e <= n,
                forall|k: int| d <= k < e ==> #[trigger] text@[k] != NEWLINE,
            decreases n - e,
        {
            e += 1;
        }
        proof {
            assert forall|k: int| s <= k < e implies #[trigger] text@[k] != NEWLINE by {
                if k < d {
                    assert(text@[k] != NEWLINE && text@[k] != HASH);
                }
            }
            lemma_same_line(text@, s as int, e as int);
            assert forall|t: int| s < t <= e implies !#[trigger] dashed_at(text@, t) by {
                assert(text@[t - 1] != NEWLINE);
            }
        }
        if e < n {
            s = e + 1;
            newlines += 1;
        } else {
            s = n;
        }
    }
    None
}

} // verus!
