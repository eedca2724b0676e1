//! Layout arithmetic of the album-grid command: how many albums a square
//! grid holds and where each tile goes. The image fetching, decoding and
//! compositing stay outside the library.

use vstd::prelude::*;

verus! {

/// How many albums a square grid of the given side holds.
pub fn album_count(square_size: usize) -> (r: usize)
    requires
        square_size * square_size <= usize::MAX,
    ensures
        r == square_size * square_size,
{
    square_size * square_size
}

/// The pixel position of the tile with the given index in a square grid
/// of 64-by-64 tiles, filled row by row.
pub fn grid_slot(index: u32, square_size: u32) -> (r: (u32, u32))
    requires
        square_size > 0,
        index < square_size * square_size,
        64 * square_size <= u32::MAX,
    ensures
        r.0 == 64 * ((index as int) % (square_size as int)),
        r.1 == 64 * ((index as int) / (square_size as int)),
{
    proof {
        let i = index as int;
        let s = square_size as int;
        assert(i % s < s && i % s >= 0 && i / s < s && i / s >= 0) by (nonlinear_arith)
            requires
                s > 0,
                0 <= i < s * s,
        ;
        assert(64 * (i % s) <= 64 * (s - 1) && 64 * (i / s) <= 64 * (s - 1)) by (nonlinear_arith)
            requires
                i % s < s && i % s >= 0 && i / s < s && i / s >= 0,
        ;
    }
    let x = 64 * (index % square_size);
    let y = 64 * (index / square_size);
    (x, y)
}

} // verus!
