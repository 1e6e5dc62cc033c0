//! Launch planning: derives the kernel launch geometry from the output
//! dimensions.

use vstd::prelude::*;
use vstd::arithmetic::div_mod::{
    lemma_div_is_ordered, lemma_div_plus_one, lemma_fundamental_div_mod,
    lemma_fundamental_div_mod_converse_div, lemma_fundamental_div_mod_converse_mod,
    lemma_mod_division_less_than_divisor,
};

verus! {

/// Threads per block along each image axis; blocks are square tiles.
pub const TILE: u32 = 16;

/// Largest dimension the kernel interface accepts: every width and height is
/// handed to the device as a signed 32-bit integer.
pub const MAX_DIM: u32 = 0x7fff_ffff;

/// Grid and block geometry, plus the dynamic shared-memory byte count, for
/// one kernel launch.
#[derive(Clone, Copy, Debug, PartialEq, Eq, Structural)]
pub struct LaunchConfig {
    /// Number of blocks along the output x axis.
    pub grid_x: u32,
    /// Number of blocks along the output y axis.
    pub grid_y: u32,
    /// Number of blocks along the z axis; always 1.
    pub grid_z: u32,
    /// Threads per block along the x axis; always [`TILE`].
    pub block_x: u32,
    /// Threads per block along the y axis; always [`TILE`].
    pub block_y: u32,
    /// Threads per block along the z axis; always 1.
    pub block_z: u32,
    /// Dynamic shared memory per block; always 0, the kernel is
    /// branch-free per thread and its threads never communicate.
    pub shared_mem_bytes: u32,
}

/// Number of tiles needed to cover `dim` coordinates: `dim / TILE` rounded up.
pub open spec fn tiles_for(dim: int) -> int {
    (dim + TILE - 1) / (TILE as int)
}

/// The launch geometry planned for an output of `out_w` by `out_h` pixels.
pub open spec fn plan_spec(out_w: int, out_h: int) -> LaunchConfig {
    LaunchConfig {
        grid_x: tiles_for(out_w) as u32,
        grid_y: tiles_for(out_h) as u32,
        grid_z: 1,
        block_x: TILE,
        block_y: TILE,
        block_z: 1,
        shared_mem_bytes: 0,
    }
}

/// The block/thread pair `(b, t)` is assigned output coordinate `coord`
/// along one axis.
pub open spec fn assigned(b: int, t: int, coord: int) -> bool {
    b * (TILE as int) + t == coord
}

/// Plans the launch geometry for an output of `out_w` by `out_h` pixels:
/// square blocks of `TILE` by `TILE` threads, and just enough blocks along
/// each axis that every output pixel gets a thread (integer ceiling
/// division), with no shared memory.
pub fn plan(out_w: u32, out_h: u32) -> (r: LaunchConfig)
    requires
        out_w <= MAX_DIM,
        out_h <= MAX_DIM,
    ensures
        r == plan_spec(out_w as int, out_h as int),
{
    LaunchConfig {
        grid_x: (out_w + TILE - 1) / TILE,
        grid_y: (out_h + TILE - 1) / TILE,
        grid_z: 1,
        block_x: TILE,
        block_y: TILE,
        block_z: 1,
        shared_mem_bytes: 0,
    }
}

/// Law: along one axis, the planned grid covers every coordinate in
/// `[0, dim)` exactly once.  Every coordinate is assigned to some in-range
/// block/thread pair, and any in-range pair assigned to it is the one pair
/// `(coord / TILE, coord % TILE)` — so no coordinate is written by two
/// different thread assignments.
pub proof fn lemma_axis_covered_exactly_once(dim: int, coord: int)
    requires
        0 <= coord < dim,
    ensures
        exists|b: int, t: int|
            0 <= b < tiles_for(dim) && 0 <= t < TILE && #[trigger] assigned(b, t, coord),
        forall|b: int, t: int|
            0 <= t < TILE && #[trigger] assigned(b, t, coord) ==> b == coord / (TILE as int)
                && t == coord % (TILE as int),
{
    let tile = TILE as int;
    let b0 = coord / tile;
    let t0 = coord % tile;
    lemma_fundamental_div_mod(coord, tile);
    lemma_mod_division_less_than_divisor(coord, tile);
    assert(assigned(b0, t0, coord)) by {
        assert(coord == tile * b0 + t0);
        assert(b0 * tile == tile * b0) by (nonlinear_arith);
    }
    assert(b0 < tiles_for(dim)) by {
        lemma_div_is_ordered(coord, dim - 1, tile);
        lemma_div_plus_one(dim - 1, tile);
        assert((dim - 1) / tile + 1 == (dim + tile - 1) / tile);
    }
    assert(forall|b: int, t: int|
        0 <= t < TILE && #[trigger] assigned(b, t, coord) ==> b == coord / tile && t == coord
            % tile) by {
        assert forall|b: int, t: int|
            0 <= t < TILE && #[trigger] assigned(b, t, coord) implies b == coord / tile && t
            == coord % tile by {
            lemma_fundamental_div_mod_converse_div(coord, tile, b, t);
            lemma_fundamental_div_mod_converse_mod(coord, tile, b, t);
        }
    }
}

/// Law: the planned grid and block geometry covers every output coordinate
/// `(x, y)` with `x < out_w`, `y < out_h` through exactly one block/thread
/// assignment per axis.
pub proof fn lemma_plan_covers(out_w: int, out_h: int, x: int, y: int)
    requires
        0 <= x < out_w,
        0 <= y < out_h,
    ensures
        ({
            let cfg = plan_spec(out_w, out_h);
            &&& exists|b: int, t: int|
                0 <= b < tiles_for(out_w) && 0 <= t < cfg.block_x && #[trigger] assigned(
                    b,
                    t,
                    x,
                )
            &&& exists|b: int, t: int|
                0 <= b < tiles_for(out_h) && 0 <= t < cfg.block_y && #[trigger] assigned(
                    b,
                    t,
                    y,
                )
            &&& forall|b: int, t: int|
                0 <= t < cfg.block_x && #[trigger] assigned(b, t, x) ==> b == x / (
                TILE as int) && t == x % (TILE as int)
            &&& forall|b: int, t: int|
                0 <= t < cfg.block_y && #[trigger] assigned(b, t, y) ==> b == y / (
                TILE as int) && t == y % (TILE as int)
        }),
{
    lemma_axis_covered_exactly_once(out_w, x);
    lemma_axis_covered_exactly_once(out_h, y);
}

} // verus!
