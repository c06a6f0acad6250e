//! The fixed glyph pattern shown while the game is paused, and the points
//! it covers when drawn on the grid.

use vstd::prelude::*;
use vstd::string::StrSliceExecFns;
use crate::geometry::Point;

verus! {

/// The pause overlay pattern: `#` marks a filled cell, newlines separate
/// the rows.
const PAUSE: &'static str = "\
#### #### #  #  ### #####
#  # #  # #  # #    #     
#### #### #  #  ##  ###   
#    #  # #  #    # #     
#    #  # #### ###  #####";

/// The characters of the pause overlay pattern.
pub open spec fn pause_pattern() -> Seq<char> {
    "\
#### #### #  #  ### #####
#  # #  # #  # #    #     
#### #### #  #  ##  ###   
#    #  # #  #    # #     
#    #  # #### ###  #####"@
}

/// The row (number of newlines) reached after the first `i` characters of
/// the pattern.
pub open spec fn row_at(s: Seq<char>, i: int) -> int
    decreases i,
{
    if i <= 0 {
        0
    } else {
        row_at(s, i - 1) + if s[i - 1] == '\n' {
            1 as int
        } else {
            0
        }
    }
}

/// The column reached after the first `i` characters of the pattern: the
/// number of characters since the last newline.
pub open spec fn col_at(s: Seq<char>, i: int) -> int
    decreases i,
{
    if i <= 0 {
        0
    } else if s[i - 1] == '\n' {
        0
    } else {
        col_at(s, i - 1) + 1
    }
}

/// The cells covered by the first `i` characters of pattern `s` when its
/// top-left corner sits at `start`: one cell per `#`, offset by the
/// character's column and row.
pub open spec fn logo_cells(s: Seq<char>, i: int, start: Point) -> Seq<Point>
    decreases i,
{
    if i <= 0 {
        Seq::empty()
    } else if s[i - 1] == '#' {
        logo_cells(s, i - 1, start).push(
            Point((start.0 + col_at(s, i - 1)) as i32, (start.1 + row_at(s, i - 1)) as i32),
        )
    } else {
        logo_cells(s, i - 1, start)
    }
}

/// A prefix of the pattern never reaches a row or column beyond its own
/// length.
proof fn lemma_row_col_bounds(s: Seq<char>, i: int)
    requires
        0 <= i,
    ensures
        0 <= row_at(s, i) <= i,
        0 <= col_at(s, i) <= i,
    decreases i,
{
    if i > 0 {
        lemma_row_col_bounds(s, i - 1);
    }
}

/// The cells of the pause overlay, the pattern's top-left placed at
/// `start`.
pub fn paused_logo(start: &Point) -> (r: Vec<Point>)
    requires
        start.0 + pause_pattern().len() <= i32::MAX,
        start.1 + pause_pattern().len() <= i32::MAX,
    ensures
        r@ == logo_cells(pause_pattern(), pause_pattern().len() as int, *start),
{
    proof {
        reveal_strlit("\
#### #### #  #  ### #####
#  # #  # #  # #    #     
#### #### #  #  ##  ###   
#    #  # #  #    # #     
#    #  # #### ###  #####");
        assert(pause_pattern().len() <= 200);
    }
    let pat = PAUSE;
    let n = pat.unicode_len();
    let mut vecs: Vec<Point> = Vec::new();
    let mut row: i32 = 0;
    let mut col: i32 = 0;
    let mut i: usize = 0;
    while i < n
        invariant
            pat@ == pause_pattern(),
            n == pat@.len(),
            n <= 200,
            i <= n,
            row == row_at(pat@, i as int),
            col == col_at(pat@, i as int),
            vecs@ == logo_cells(pat@, i as int, *start),
            start.0 + pat@.len() <= i32::MAX,
            start.1 + pat@.len() <= i32::MAX,
        decreases n - i,
    {
        proof {
            lemma_row_col_bounds(pat@, i as int);
        }
        let c = pat.get_char(i);
        if c == '\n' {
            row = row + 1;
            col = 0;
        } else {
            if c == '#' {
                let x = start.0 + col;
                let y = start.1 + row;
                vecs.push(Point(x, y));
            }
            col = col + 1;
        }
        i = i + 1;
    }
    vecs
}

} // verus!
