use rand::Rng;
use vstd::prelude::*;

use crate::text::push_char;

verus! {

/// The glyph a visualizer bar is drawn with.
pub const BAR_SYMBOL: char = '⣿';

/// Relies on rand's `thread_rng().gen_range(0..bound)`: a value drawn from
/// `[0, bound)`. It panics on an empty range, which `requires` rules out.
#[verifier::external_body]
fn random_below(bound: u16) -> (r: u16)
    requires
        bound > 0,
    ensures
        r < bound,
{
    rand::thread_rng().gen_range(0..bound)
}

/// Bar heights that fit a visualizer `height` rows tall: each below
/// `height`, so a bar never fills the whole column, and all zero when there
/// are no rows.
pub open spec fn fitting_heights(heights: Seq<u16>, height: u16) -> bool {
    forall|i: int| 0 <= i < heights.len() ==> #[trigger] heights[i] < height || heights[i] == 0
}

/// One row of the visualizer, at height `y` above the bottom: a bar symbol
/// in each column whose bar reaches above `y`, a blank elsewhere.
pub open spec fn bar_row(heights: Seq<u16>, y: int) -> Seq<char> {
    Seq::new(heights.len(), |i: int| if y < heights[i] as int { BAR_SYMBOL } else { ' ' })
}

/// The rows of a visualizer `height` rows tall, top row first.
pub open spec fn bar_rows(heights: Seq<u16>, height: u16, rows: Seq<String>) -> bool {
    &&& rows.len() == height
    &&& forall|k: int| 0 <= k < height ==> #[trigger] rows[k]@ == bar_row(heights, height - 1 - k)
}

/// A random height for each of `width` columns, fitting `height` rows.
pub fn random_bar_heights(width: u16, height: u16) -> (r: Vec<u16>)
    ensures
        r@.len() == width,
        fitting_heights(r@, height),
{
    let mut heights: Vec<u16> = Vec::new();
    let mut i: u16 = 0;
    while i < width
        invariant
            i <= width,
            heights@.len() == i,
            fitting_heights(heights@, height),
        decreases width - i,
    {
        let h = if height > 0 { random_below(height) } else { 0 };
        heights.push(h);
        i = i + 1;
    }
    heights
}

/// The visualizer's rows for the given bar heights, top row first.
pub fn visualizer_lines(heights: &Vec<u16>, height: u16) -> (r: Vec<String>)
    ensures
        bar_rows(heights@, height, r@),
{
    let mut rows: Vec<String> = Vec::new();
    let mut k: u16 = 0;
    while k < height
        invariant
            k <= height,
            rows@.len() == k,
            forall|j: int| 0 <= j < k ==> #[trigger] rows@[j]@ == bar_row(heights@, height - 1 - j),
        decreases height - k,
    {
        let y = height - 1 - k;
        let mut line = String::new();
        let mut i: usize = 0;
        while i < heights.len()
            invariant
                i <= heights@.len(),
                line@ == bar_row(heights@, y as int).subrange(0, i as int),
            decreases heights@.len() - i,
        {
            let c = if y < heights[i] { BAR_SYMBOL } else { ' ' };
            push_char(&mut line, c);
            assert(bar_row(heights@, y as int).subrange(0, i + 1) == bar_row(heights@, y as int).subrange(
                0,
                i as int,
            ).push(c));
            i = i + 1;
        }
        assert(line@ == bar_row(heights@, y as int));
        rows.push(line);
        k = k + 1;
    }
    rows
}

/// A fresh random frame of the visualizer, `width` columns by `height` rows,
/// top row first: whatever heights were drawn, they fit the rows and every
/// row shows them.
pub fn render_visualizer(width: u16, height: u16) -> (r: Vec<String>)
    ensures
        exists|heights: Seq<u16>|
            heights.len() == width && fitting_heights(heights, height) && bar_rows(heights, height, r@),
{
    let heights = random_bar_heights(width, height);
    let rows = visualizer_lines(&heights, height);
    assert(heights@.len() == width && fitting_heights(heights@, height) && bar_rows(heights@, height, rows@));
    rows
}

} // verus!
