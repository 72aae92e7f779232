//! Overlapping sliding-window coordinates.
//!
//! For an image axis of length `dim` and a tile size `tile`, tiles overlap
//! by half a tile: the stride is `tile / 2` and the number of steps is
//! `dim / tile * 2`.  Each coordinate is clamped to `dim - tile - 1`, so the
//! final tile sits flush against the far edge instead of overflowing.  An
//! axis no longer than the tile admits no window at all; callers must reject
//! such images rather than let the clamp underflow.

use vstd::prelude::*;

use vstd::arithmetic::div_mod::lemma_div_non_zero;
use vstd::arithmetic::div_mod::lemma_div_nonincreasing;
use vstd::arithmetic::div_mod::lemma_multiply_divide_lt;

verus! {

/// Number of window steps along one axis.
pub open spec fn axis_steps(dim: u32, tile: u32) -> int
    recommends
        tile >= 1,
{
    dim as int / tile as int * 2
}

/// Top-left window coordinate of step `i` along one axis.
pub open spec fn axis_coord(dim: u32, tile: u32, i: int) -> int
    recommends
        tile < dim,
{
    let raw = i * tile as int / 2;
    let maxc = dim as int - tile as int - 1;
    if raw <= maxc {
        raw
    } else {
        maxc
    }
}

/// One tile position: its step indices along each axis and its top-left
/// pixel coordinates.
pub struct TilePos {
    /// Step index along the x axis.
    pub col: u64,
    /// Step index along the y axis.
    pub row: u64,
    /// Top-left pixel column.
    pub x: u32,
    /// Top-left pixel row.
    pub y: u32,
}

/// `p` is the position at flat index `k` of the window sequence, which
/// walks the y axis innermost, and its tile lies strictly inside the image.
pub open spec fn pos_ok(p: TilePos, width: u32, height: u32, tile: u32, k: int) -> bool {
    let sy = axis_steps(height, tile);
    &&& p.col == k / sy
    &&& p.row == k % sy
    &&& p.col < axis_steps(width, tile)
    &&& p.row < sy
    &&& p.x == axis_coord(width, tile, p.col as int)
    &&& p.y == axis_coord(height, tile, p.row as int)
    &&& p.x + tile < width
    &&& p.y + tile < height
}

/// All window positions over a `width` by `height` image, ordered with the
/// y axis innermost; every tile lies strictly inside the image.
pub fn window_positions(width: u32, height: u32, tile: u32) -> (r: Vec<TilePos>)
    requires
        1 <= tile,
        tile < width,
        tile < height,
    ensures
        r@.len() == axis_steps(width, tile) * axis_steps(height, tile),
        forall|k: int| 0 <= k < r@.len() ==> pos_ok(#[trigger] r@[k], width, height, tile, k),
{
    let sx: u64 = width as u64 / tile as u64 * 2;
    let sy: u64 = height as u64 / tile as u64 * 2;
    proof {
        lemma_div_nonincreasing(width as int, tile as int);
        lemma_div_nonincreasing(height as int, tile as int);
        lemma_div_non_zero(width as int, tile as int);
        lemma_div_non_zero(height as int, tile as int);
        assert(sx as int * sy as int <= 0x2_0000_0000 * 0x2_0000_0000) by (nonlinear_arith)
            requires
                0 <= sx as int <= 0x2_0000_0000,
                0 <= sy as int <= 0x2_0000_0000,
        ;
    }
    let total: u128 = sx as u128 * sy as u128;
    let max_x: u32 = width - tile - 1;
    let max_y: u32 = height - tile - 1;
    let mut r: Vec<TilePos> = Vec::new();
    let mut k: u128 = 0;
    while k < total
        invariant
            sx == axis_steps(width, tile),
            sy == axis_steps(height, tile),
            2 <= sy,
            total == sx as int * sy as int,
            max_x == width - tile - 1,
            max_y == height - tile - 1,
            tile >= 1,
            tile < width,
            tile < height,
            k <= total,
            r@.len() == k,
            forall|m: int| 0 <= m < r@.len() ==> pos_ok(#[trigger] r@[m], width, height, tile, m),
        decreases total - k,
    {
        proof {
            assert(sy as int * sx as int == sx as int * sy as int) by (nonlinear_arith);
            lemma_multiply_divide_lt(k as int, sy as int, sx as int);
        }
        let col: u64 = (k / sy as u128) as u64;
        let row: u64 = (k % sy as u128) as u64;
        proof {
            assert(col as int * tile as int <= 0x2_0000_0000 * 0x1_0000_0000)
                by (nonlinear_arith)
                requires
                    0 <= col as int <= 0x2_0000_0000,
                    0 <= tile as int <= 0x1_0000_0000,
            ;
            assert(row as int * tile as int <= 0x2_0000_0000 * 0x1_0000_0000)
                by (nonlinear_arith)
                requires
                    0 <= row as int <= 0x2_0000_0000,
                    0 <= tile as int <= 0x1_0000_0000,
            ;
        }
        let rawx: u128 = col as u128 * tile as u128 / 2;
        let x: u32 = if rawx <= max_x as u128 {
            rawx as u32
        } else {
            max_x
        };
        let rawy: u128 = row as u128 * tile as u128 / 2;
        let y: u32 = if rawy <= max_y as u128 {
            rawy as u32
        } else {
            max_y
        };
        r.push(TilePos { col, row, x, y });
        k += 1;
    }
    r
}

} // verus!
