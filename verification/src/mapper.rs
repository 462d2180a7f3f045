//! Coordinate/shard mapper: pure functions from a global pixel coordinate to
//! a shard coordinate and a local index inside that shard.

use vstd::prelude::*;
use crate::PixelError;

verus! {

/// Total canvas resolution per axis, in pixels.
pub const CANVAS_RES: u32 = 524288;

/// Pixels per shard edge.
pub const SHARD_DIMENSION: u32 = 90;

/// Shards per axis (ceiling of `CANVAS_RES / SHARD_DIMENSION`).
pub const SHARDS_PER_DIM: u32 = (CANVAS_RES + SHARD_DIMENSION - 1) / SHARD_DIMENSION;

/// Pixels stored in each shard.
pub const PIXELS_PER_SHARD: u32 = SHARD_DIMENSION * SHARD_DIMENSION;

/// Whether `(px, py)` lies on the canvas.
pub open spec fn pixel_in_bounds(px: u32, py: u32) -> bool {
    px < CANVAS_RES && py < CANVAS_RES
}

/// The shard column holding column `px`.
pub open spec fn spec_shard_x(px: u32) -> u16 {
    (px / SHARD_DIMENSION) as u16
}

/// The shard row holding row `py`.
pub open spec fn spec_shard_y(py: u32) -> u16 {
    (py / SHARD_DIMENSION) as u16
}

/// The index of `(px, py)` inside its shard's row-major pixel grid.
pub open spec fn spec_local_index(px: u32, py: u32) -> u32 {
    ((py % SHARD_DIMENSION) * SHARD_DIMENSION + px % SHARD_DIMENSION) as u32
}

/// Maps a global pixel coordinate to the coordinate of the shard holding it.
///
/// Returns `InvalidPixelCoord` exactly when the pixel lies outside the
/// canvas.
pub fn shard_of(px: u32, py: u32) -> (r: Result<(u16, u16), PixelError>)
    ensures
        pixel_in_bounds(px, py) <==> r is Ok,
        r is Ok ==> r == Ok::<_, PixelError>((spec_shard_x(px), spec_shard_y(py))),
        r is Err ==> r == Err::<(u16, u16), _>(PixelError::InvalidPixelCoord),
{
    if px < CANVAS_RES && py < CANVAS_RES {
        let sx = px / SHARD_DIMENSION;
        let sy = py / SHARD_DIMENSION;
        Ok((sx as u16, sy as u16))
    } else {
        Err(PixelError::InvalidPixelCoord)
    }
}

/// Maps a global pixel coordinate to its index inside its shard.
pub fn local_index(px: u32, py: u32) -> (idx: u32)
    requires
        pixel_in_bounds(px, py),
    ensures
        idx == spec_local_index(px, py),
        idx < PIXELS_PER_SHARD,
{
    let lx = px % SHARD_DIMENSION;
    let ly = py % SHARD_DIMENSION;
    ly * SHARD_DIMENSION + lx
}

/// Shard coordinates are always in range: mapping any on-canvas pixel yields
/// a shard coordinate below `SHARDS_PER_DIM` on each axis.
pub proof fn lemma_shard_in_range(px: u32, py: u32)
    requires
        pixel_in_bounds(px, py),
    ensures
        spec_shard_x(px) < SHARDS_PER_DIM,
        spec_shard_y(py) < SHARDS_PER_DIM,
{
}

/// Round trip of the addressing scheme: the shard coordinate and the local
/// index together recover the global pixel coordinate exactly.
pub proof fn lemma_mapper_round_trip(px: u32, py: u32)
    requires
        pixel_in_bounds(px, py),
    ensures
        spec_shard_x(px) * SHARD_DIMENSION + spec_local_index(px, py) % SHARD_DIMENSION == px,
        spec_shard_y(py) * SHARD_DIMENSION + spec_local_index(px, py) / SHARD_DIMENSION == py,
{
    let d = SHARD_DIMENSION as int;
    let lx = px as int % d;
    let ly = py as int % d;
    assert(spec_local_index(px, py) == ly * d + lx);
    assert((ly * d + lx) % d == lx && (ly * d + lx) / d == ly) by (nonlinear_arith)
        requires
            0 <= lx < d,
            0 <= ly < d,
    ;
    assert(px as int == d * (px as int / d) + lx) by {
        vstd::arithmetic::div_mod::lemma_fundamental_div_mod(px as int, d);
    }
    assert(py as int == d * (py as int / d) + ly) by {
        vstd::arithmetic::div_mod::lemma_fundamental_div_mod(py as int, d);
    }
}

} // verus!
