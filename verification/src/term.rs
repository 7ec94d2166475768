//! Turning a terminal's reported size into grid dimensions.
//!
//! Glyphs are drawn two screen columns apart, so the grid gets half the
//! terminal's width, rounded so that odd-columned screens still print on
//! the rightmost edge; one extra line hides the staging row. Both axes are
//! floored first, and an unreported size falls back to the floor.

use vstd::prelude::*;

verus! {

/// The smallest terminal width and height the grid is computed from.
pub const MIN_TERM_DIM: usize = 10;

/// The `(lines, cols)` pair the grid is built with, from a terminal size
/// report of `(width, height)`, or from none.
pub open spec fn spec_grid_dims(dims: Option<(usize, usize)>) -> (int, int) {
    match dims {
        Option::Some((width, height)) => {
            let w = if width < MIN_TERM_DIM { MIN_TERM_DIM as int } else { width as int };
            let h = if height < MIN_TERM_DIM { MIN_TERM_DIM as int } else { height as int };
            if w % 2 != 0 {
                (h + 1, w / 2 + 1)
            } else {
                (h + 1, w / 2)
            }
        },
        Option::None => (MIN_TERM_DIM as int, MIN_TERM_DIM as int),
    }
}

/// Compute the grid dimensions `(lines, cols)` for a reported terminal size.
pub fn grid_dims(dims: Option<(usize, usize)>) -> (r: (usize, usize))
    requires
        dims matches Some((w, h)) ==> h < usize::MAX,
    ensures
        (r.0 as int, r.1 as int) == spec_grid_dims(dims),
        r.0 >= 5,
        r.1 >= 5,
{
    match dims {
        Option::Some((width, height)) => {
            let w = if width < MIN_TERM_DIM { MIN_TERM_DIM } else { width };
            let h = if height < MIN_TERM_DIM { MIN_TERM_DIM } else { height };
            if w % 2 != 0 {
                (h + 1, w / 2 + 1)
            } else {
                (h + 1, w / 2)
            }
        },
        Option::None => (MIN_TERM_DIM, MIN_TERM_DIM),
    }
}

} // verus!
