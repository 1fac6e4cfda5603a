//! Move-legality engine for a two-player game on an 8x8 board.
//!
//! The crate decides whether a proposed move is legal for the piece
//! standing on the source square, applies legal moves in place, and
//! reports whether the move captured a king (the one game-ending
//! condition supported).

use vstd::prelude::*;

pub mod piece;

verus! {

/// Returns the smaller of two coordinates.
pub fn min(a: usize, b: usize) -> (r: usize)
    ensures
        r == (if a < b { a as int } else { b as int }),
{
    let smallest: usize = if a < b { a } else { b };
    smallest
}

/// Returns the larger of two coordinates.
pub fn max(a: usize, b: usize) -> (r: usize)
    ensures
        r == (if a > b { a as int } else { b as int }),
{
    let largest: usize = if a > b { a } else { b };
    largest
}

/// Normalises two coordinates into a (low, high) pair, so that a scan
/// along a rank or file can run over a single ascending range.
pub fn min_max(a: usize, b: usize) -> (r: (usize, usize))
    ensures
        r.0 <= r.1,
        r.0 == (if a < b { a as int } else { b as int }),
        r.1 == (if a > b { a as int } else { b as int }),
{
    let smallest: usize = min(a, b);
    let largest: usize = max(a, b);
    (smallest, largest)
}

} // verus!
