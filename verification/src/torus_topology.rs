//! Wrap-around coordinate arithmetic for a fixed-size 2D grid.
//!
//! A torus has no edges: the neighbor of the last row or column is the first
//! one. Every spatial lookup goes through [`modulo_robust`], which reduces a
//! coordinate into `[0, extent)` under modular arithmetic, correct for
//! coordinates up to one extent below zero.

use crate::lattice::spec_cell_at;
use crate::lattice::spec_channel;
use crate::lattice::Cell;
use crate::lattice::Lattice;
use crate::params::DIAG_WEIGHT;
use crate::params::FIXED_ONE;
use vstd::prelude::*;

verus! {

/// A coordinate reduced into `[0, extent)` under modular arithmetic.
///
/// `%` on `int` is Euclidean: for `extent > 0` the result is already in
/// `[0, extent)`, also for negative coordinates.
pub open spec fn wrap_spec(coord: int, extent: int) -> int
    recommends
        extent > 0,
{
    coord % extent
}

/// Reduces `coord` into `[0, extent)`, correct for `coord` down to `-extent`.
pub fn modulo_robust(first: i32, second: i32) -> (r: usize)
    requires
        second > 0,
        first + second >= 0,
        first + second <= i32::MAX,
    ensures
        r == wrap_spec(first as int, second as int),
        r < second,
{
    proof {
        vstd::arithmetic::div_mod::lemma_mod_add_multiples_vanish(first as int, second as int);
        vstd::arithmetic::div_mod::lemma_mod_bound(first as int, second as int);
    }
    ((first + second) % second) as usize
}

/// Torus wrap law: the wrapped coordinate lies in `[0, extent)`, and shifting
/// a coordinate by a full extent does not change where it wraps to.
pub proof fn lemma_wrap_torus(coord: int, extent: int)
    requires
        extent > 0,
    ensures
        0 <= wrap_spec(coord, extent) < extent,
        wrap_spec(coord + extent, extent) == wrap_spec(coord, extent),
{
    vstd::arithmetic::div_mod::lemma_mod_add_multiples_vanish(coord, extent);
    vstd::arithmetic::div_mod::lemma_mod_bound(coord, extent);
}

/// The value of channel `channel` at position `(x, y)` wrapped onto a torus
/// of the given extents, read from a row-major cell buffer.
pub open spec fn spec_torus_channel(
    cells: Seq<Cell>,
    width: int,
    height: int,
    x: int,
    y: int,
    channel: int,
) -> int {
    spec_channel(
        spec_cell_at(cells, width, wrap_spec(x, width), wrap_spec(y, height)),
        channel,
    )
}

/// The weighted sum of channel `channel` over the 8-connected Moore
/// neighborhood of `(x, y)` on the torus, in fixed-point units: orthogonal
/// neighbors weigh [`FIXED_ONE`], diagonal neighbors [`DIAG_WEIGHT`].
pub open spec fn spec_weighted_sum(
    cells: Seq<Cell>,
    width: int,
    height: int,
    x: int,
    y: int,
    channel: int,
) -> int {
    spec_torus_channel(cells, width, height, x - 1, y - 1, channel) * DIAG_WEIGHT
        + spec_torus_channel(cells, width, height, x, y - 1, channel) * FIXED_ONE
        + spec_torus_channel(cells, width, height, x + 1, y - 1, channel) * DIAG_WEIGHT
        + spec_torus_channel(cells, width, height, x - 1, y, channel) * FIXED_ONE
        + spec_torus_channel(cells, width, height, x + 1, y, channel) * FIXED_ONE
        + spec_torus_channel(cells, width, height, x - 1, y + 1, channel) * DIAG_WEIGHT
        + spec_torus_channel(cells, width, height, x, y + 1, channel) * FIXED_ONE
        + spec_torus_channel(cells, width, height, x + 1, y + 1, channel) * DIAG_WEIGHT
}

/// Reads channel `channel` of the cell at `(x, y)` wrapped onto the torus.
fn torus_pixel_channel(lat: &Lattice, x: i32, y: i32, channel: usize) -> (r: u8)
    requires
        lat.wf(),
        -(lat.width as int) <= x,
        x <= 2 * lat.width,
        -(lat.height as int) <= y,
        y <= 2 * lat.height,
    ensures
        r as int == spec_torus_channel(
            lat.cells@,
            lat.width as int,
            lat.height as int,
            x as int,
            y as int,
            channel as int,
        ),
{
    let wx = modulo_robust(x, lat.width as i32);
    let wy = modulo_robust(y, lat.height as i32);
    lat.get(wx, wy).channel(channel)
}

/// The weighted sum of channel `channel` over the 8 Moore neighbors of the
/// in-range cell `(x, y)`, diagonal neighbors weighted by `1/sqrt(2)`, in
/// fixed-point units.
pub fn sum_neighbour_channel(lat: &Lattice, x: i32, y: i32, channel: usize) -> (r: i64)
    requires
        lat.wf(),
        0 <= x < lat.width,
        0 <= y < lat.height,
    ensures
        r == spec_weighted_sum(
            lat.cells@,
            lat.width as int,
            lat.height as int,
            x as int,
            y as int,
            channel as int,
        ),
        0 <= r <= 255 * (4 * FIXED_ONE + 4 * DIAG_WEIGHT),
{
    (torus_pixel_channel(lat, x - 1, y - 1, channel) as i64) * DIAG_WEIGHT
        + (torus_pixel_channel(lat, x, y - 1, channel) as i64) * FIXED_ONE
        + (torus_pixel_channel(lat, x + 1, y - 1, channel) as i64) * DIAG_WEIGHT
        + (torus_pixel_channel(lat, x - 1, y, channel) as i64) * FIXED_ONE
        + (torus_pixel_channel(lat, x + 1, y, channel) as i64) * FIXED_ONE
        + (torus_pixel_channel(lat, x - 1, y + 1, channel) as i64) * DIAG_WEIGHT
        + (torus_pixel_channel(lat, x, y + 1, channel) as i64) * FIXED_ONE
        + (torus_pixel_channel(lat, x + 1, y + 1, channel) as i64) * DIAG_WEIGHT
}

/// On a lattice whose selected channel is the uniform value `v`, the torus
/// lookup reads `v` at every position.
proof fn lemma_torus_channel_uniform(
    cells: Seq<Cell>,
    width: int,
    height: int,
    x: int,
    y: int,
    channel: int,
    v: int,
)
    requires
        width >= 1,
        height >= 1,
        forall|i: int, j: int|
            0 <= i < width && 0 <= j < height ==> spec_channel(
                #[trigger] spec_cell_at(cells, width, i, j),
                channel,
            ) == v,
    ensures
        spec_torus_channel(cells, width, height, x, y, channel) == v,
{
    lemma_wrap_torus(x, width);
    lemma_wrap_torus(y, height);
    let wx = wrap_spec(x, width);
    let wy = wrap_spec(y, height);
    assert(spec_channel(spec_cell_at(cells, width, wx, wy), channel) == v);
}

/// Neighbor sum symmetry: on a lattice whose selected channel is the uniform
/// value `v`, the weighted neighbor sum is `v * (4 + 4/sqrt(2))` in
/// fixed-point units at every cell; the torus has no edge cases.
pub proof fn lemma_weighted_sum_uniform(
    cells: Seq<Cell>,
    width: int,
    height: int,
    x: int,
    y: int,
    channel: int,
    v: int,
)
    requires
        width >= 1,
        height >= 1,
        forall|i: int, j: int|
            0 <= i < width && 0 <= j < height ==> spec_channel(
                #[trigger] spec_cell_at(cells, width, i, j),
                channel,
            ) == v,
    ensures
        spec_weighted_sum(cells, width, height, x, y, channel) == v * (4 * FIXED_ONE + 4
            * DIAG_WEIGHT),
{
    lemma_torus_channel_uniform(cells, width, height, x - 1, y - 1, channel, v);
    lemma_torus_channel_uniform(cells, width, height, x, y - 1, channel, v);
    lemma_torus_channel_uniform(cells, width, height, x + 1, y - 1, channel, v);
    lemma_torus_channel_uniform(cells, width, height, x - 1, y, channel, v);
    lemma_torus_channel_uniform(cells, width, height, x + 1, y, channel, v);
    lemma_torus_channel_uniform(cells, width, height, x - 1, y + 1, channel, v);
    lemma_torus_channel_uniform(cells, width, height, x, y + 1, channel, v);
    lemma_torus_channel_uniform(cells, width, height, x + 1, y + 1, channel, v);
    assert(spec_weighted_sum(cells, width, height, x, y, channel) == v * (4 * FIXED_ONE + 4
        * DIAG_WEIGHT))
        by (nonlinear_arith)
        requires
            spec_torus_channel(cells, width, height, x - 1, y - 1, channel) == v,
            spec_torus_channel(cells, width, height, x, y - 1, channel) == v,
            spec_torus_channel(cells, width, height, x + 1, y - 1, channel) == v,
            spec_torus_channel(cells, width, height, x - 1, y, channel) == v,
            spec_torus_channel(cells, width, height, x + 1, y, channel) == v,
            spec_torus_channel(cells, width, height, x - 1, y + 1, channel) == v,
            spec_torus_channel(cells, width, height, x, y + 1, channel) == v,
            spec_torus_channel(cells, width, height, x + 1, y + 1, channel) == v,
    ;
}

} // verus!
