//! The per-cell diffusion and reaction arithmetic of one simulation tick.
//!
//! Every formula is deterministic fixed-point integer arithmetic with
//! [`FIXED_ONE`] units to the unit. Channel values enter as 8-bit integers
//! and the combined update is clamped back into `[0, 255]`, so a numeric
//! overflow of the formulas saturates instead of wrapping.

use crate::lattice::spec_cell_at;
use crate::lattice::spec_channel;
use crate::lattice::Cell;
use crate::lattice::Lattice;
use crate::params::ChannelParameters;
use crate::params::COEFF_MAX;
use crate::params::DIAG_WEIGHT;
use crate::params::FIXED_ONE;
use crate::params::OUTFLOW_FACTOR;
use crate::torus_topology::spec_weighted_sum;
use vstd::arithmetic::div_mod::lemma_div_by_multiple;
use vstd::arithmetic::div_mod::lemma_div_is_ordered;
use vstd::arithmetic::div_mod::lemma_div_is_ordered_by_denominator;
use vstd::arithmetic::div_mod::lemma_div_pos_is_pos;
use vstd::prelude::*;

verus! {

/// The largest magnitude the scaled diffusion result can take; the reaction
/// term stays within `2 * COEFF_MAX`, so the combined channel update stays
/// within `DIFFUSION_MAX + 255 * 2 * COEFF_MAX`.
pub const DIFFUSION_MAX: i64 = 20_000_000_000;

/// A product of nonnegative factors is bounded by the product of their
/// bounds.
pub(crate) proof fn lemma_mul_bound(a: int, amax: int, b: int, bmax: int)
    by (nonlinear_arith)
    requires
        0 <= a <= amax,
        0 <= b <= bmax,
    ensures
        0 <= a * b <= amax * bmax,
{
}

/// A nonnegative dividend bounded by `amax` divides to a quotient bounded by
/// `amax / b`.
pub(crate) proof fn lemma_div_bound(a: int, amax: int, b: int)
    requires
        0 <= a <= amax,
        0 < b,
    ensures
        0 <= a / b <= amax / b,
{
    lemma_div_pos_is_pos(a, b);
    lemma_div_is_ordered(a, amax, b);
}

/// Truncated division of a nonnegative amount by a positive divisor.
pub(crate) fn div_nonneg(a: i64, b: i64) -> (r: i64)
    requires
        0 <= a,
        0 < b,
    ensures
        r == a as int / b as int,
{
    proof {
        lemma_div_bound(a as int, a as int, b as int);
    }
    ((a as u64) / (b as u64)) as i64
}

/// A channel value normalized from `[0, 255]` to `[0, 1]` in fixed-point
/// units.
pub open spec fn spec_norm(v: int) -> int {
    v * FIXED_ONE / 255
}

/// Normalizes an 8-bit channel value to `[0, 1]` in fixed-point units.
pub fn norm_channel(v: u8) -> (r: i64)
    ensures
        r == spec_norm(v as int),
        0 <= r <= FIXED_ONE,
{
    proof {
        lemma_div_bound((v as int) * (FIXED_ONE as int), 255 * (FIXED_ONE as int), 255);
        lemma_div_by_multiple(FIXED_ONE as int, 255);
    }
    div_nonneg((v as i64) * FIXED_ONE, 255)
}

/// The diffused channel value in fixed-point units: the cell keeps its value,
/// loses `6.837 * value * diffusion` to the neighborhood and gains
/// `neighbor_sum * diffusion` from it. `6.837` is the rounded sum of the 8
/// neighbor weights, so at the critical coefficient outflow balances inflow
/// under a uniform field.
pub open spec fn spec_diffusion(v: int, neighbor_sum: int, diffusion: int) -> int {
    v * FIXED_ONE - OUTFLOW_FACTOR * v * diffusion / (FIXED_ONE as int) + neighbor_sum * diffusion
        / (FIXED_ONE as int)
}

/// Applies the diffusion formula to one channel of one cell.
pub fn diffusion(v: u8, neighbour_sum: i64, diffusion_coefficient: i64) -> (r: i64)
    requires
        0 <= neighbour_sum <= 255 * (4 * FIXED_ONE + 4 * DIAG_WEIGHT),
        0 <= diffusion_coefficient <= COEFF_MAX,
    ensures
        r == spec_diffusion(v as int, neighbour_sum as int, diffusion_coefficient as int),
        -DIFFUSION_MAX <= r <= DIFFUSION_MAX,
{
    let vi = v as i64;
    proof {
        lemma_mul_bound(
            OUTFLOW_FACTOR as int,
            OUTFLOW_FACTOR as int,
            vi as int,
            255,
        );
        lemma_mul_bound(
            (OUTFLOW_FACTOR as int) * (vi as int),
            (OUTFLOW_FACTOR as int) * 255,
            diffusion_coefficient as int,
            COEFF_MAX as int,
        );
        lemma_div_bound(
            (OUTFLOW_FACTOR as int) * (vi as int) * (diffusion_coefficient as int),
            (OUTFLOW_FACTOR as int) * 255 * (COEFF_MAX as int),
            FIXED_ONE as int,
        );
        lemma_mul_bound(
            neighbour_sum as int,
            255 * (4 * FIXED_ONE + 4 * DIAG_WEIGHT) as int,
            diffusion_coefficient as int,
            COEFF_MAX as int,
        );
        lemma_div_bound(
            (neighbour_sum as int) * (diffusion_coefficient as int),
            255 * (4 * FIXED_ONE + 4 * DIAG_WEIGHT) as int * (COEFF_MAX as int),
            FIXED_ONE as int,
        );
    }
    let outflow = div_nonneg(OUTFLOW_FACTOR * vi * diffusion_coefficient, FIXED_ONE);
    let inflow = div_nonneg(neighbour_sum * diffusion_coefficient, FIXED_ONE);
    vi * FIXED_ONE - outflow + inflow
}

/// The logistic growth term `growth * x * (1 - x)` in fixed-point units.
pub open spec fn spec_growth_term(x: int, p: ChannelParameters) -> int {
    (p.growth_rate * x / (FIXED_ONE as int)) * (FIXED_ONE - x) / (FIXED_ONE as int)
}

/// The cross-channel suppression term `interaction * x * y / (1 + saturation
/// * x^2)` in fixed-point units.
pub open spec fn spec_interaction_term(x: int, y: int, p: ChannelParameters) -> int {
    let numerator = (p.interaction_coefficient * x / (FIXED_ONE as int)) * y / (FIXED_ONE as int);
    let denominator = FIXED_ONE + (p.saturation_constant * x / (FIXED_ONE as int)) * x / (
    FIXED_ONE as int);
    numerator * FIXED_ONE / denominator
}

/// The third-channel-gated feedback term `feedback * (y - x) * z^2` in
/// fixed-point units; the sign follows `y - x`.
pub open spec fn spec_feedback_term(x: int, y: int, z: int, p: ChannelParameters) -> int {
    let z2 = z * z / (FIXED_ONE as int);
    if y >= x {
        (p.feedback_coefficient * (y - x) / (FIXED_ONE as int)) * z2 / (FIXED_ONE as int)
    } else {
        -((p.feedback_coefficient * (x - y) / (FIXED_ONE as int)) * z2 / (FIXED_ONE as int))
    }
}

/// The reaction term of a channel whose normalized value is `x` against its
/// cyclic successor `y` and the remaining channel `z`:
/// `growth * x * (1 - x) - interaction * x * y / (1 + saturation * x^2)
/// + feedback * (y - x) * z^2`, all in fixed-point units.
pub open spec fn spec_reaction(x: int, y: int, z: int, p: ChannelParameters) -> int {
    spec_growth_term(x, p) - spec_interaction_term(x, y, p) + spec_feedback_term(x, y, z, p)
}

/// Computes the growth term.
fn growth_term(x: i64, p: &ChannelParameters) -> (r: i64)
    requires
        0 <= x <= FIXED_ONE,
        p.wf(),
    ensures
        r == spec_growth_term(x as int, *p),
        0 <= r <= COEFF_MAX,
{
    proof {
        lemma_mul_bound(p.growth_rate as int, COEFF_MAX as int, x as int, FIXED_ONE as int);
        lemma_div_bound(
            (p.growth_rate as int) * (x as int),
            (COEFF_MAX as int) * (FIXED_ONE as int),
            FIXED_ONE as int,
        );
        lemma_mul_bound(
            (p.growth_rate as int) * (x as int) / (FIXED_ONE as int),
            COEFF_MAX as int,
            FIXED_ONE - x as int,
            FIXED_ONE as int,
        );
        lemma_div_bound(
            ((p.growth_rate as int) * (x as int) / (FIXED_ONE as int)) * (FIXED_ONE - x as int),
            (COEFF_MAX as int) * (FIXED_ONE as int),
            FIXED_ONE as int,
        );
    }
    let gx = div_nonneg(p.growth_rate * x, FIXED_ONE);
    div_nonneg(gx * (FIXED_ONE - x), FIXED_ONE)
}

/// Computes the suppression term.
fn interaction_term(x: i64, y: i64, p: &ChannelParameters) -> (r: i64)
    requires
        0 <= x <= FIXED_ONE,
        0 <= y <= FIXED_ONE,
        p.wf(),
    ensures
        r == spec_interaction_term(x as int, y as int, *p),
        0 <= r <= COEFF_MAX,
{
    proof {
        lemma_mul_bound(
            p.interaction_coefficient as int,
            COEFF_MAX as int,
            x as int,
            FIXED_ONE as int,
        );
        lemma_div_bound(
            (p.interaction_coefficient as int) * (x as int),
            (COEFF_MAX as int) * (FIXED_ONE as int),
            FIXED_ONE as int,
        );
        lemma_mul_bound(
            (p.interaction_coefficient as int) * (x as int) / (FIXED_ONE as int),
            COEFF_MAX as int,
            y as int,
            FIXED_ONE as int,
        );
        lemma_div_bound(
            ((p.interaction_coefficient as int) * (x as int) / (FIXED_ONE as int)) * (y as int),
            (COEFF_MAX as int) * (FIXED_ONE as int),
            FIXED_ONE as int,
        );
        lemma_mul_bound(
            p.saturation_constant as int,
            COEFF_MAX as int,
            x as int,
            FIXED_ONE as int,
        );
        lemma_div_bound(
            (p.saturation_constant as int) * (x as int),
            (COEFF_MAX as int) * (FIXED_ONE as int),
            FIXED_ONE as int,
        );
        lemma_mul_bound(
            (p.saturation_constant as int) * (x as int) / (FIXED_ONE as int),
            COEFF_MAX as int,
            x as int,
            FIXED_ONE as int,
        );
        lemma_div_bound(
            ((p.saturation_constant as int) * (x as int) / (FIXED_ONE as int)) * (x as int),
            (COEFF_MAX as int) * (FIXED_ONE as int),
            FIXED_ONE as int,
        );
    }
    let numerator = div_nonneg(div_nonneg(p.interaction_coefficient * x, FIXED_ONE) * y, FIXED_ONE);
    let saturation = div_nonneg(
        div_nonneg(p.saturation_constant * x, FIXED_ONE) * x,
        FIXED_ONE,
    );
    let denominator = FIXED_ONE + saturation;
    proof {
        lemma_mul_bound(numerator as int, COEFF_MAX as int, FIXED_ONE as int, FIXED_ONE as int);
        lemma_div_pos_is_pos((numerator as int) * (FIXED_ONE as int), denominator as int);
        lemma_div_is_ordered_by_denominator(
            (numerator as int) * (FIXED_ONE as int),
            FIXED_ONE as int,
            denominator as int,
        );
        lemma_div_by_multiple(numerator as int, FIXED_ONE as int);
    }
    div_nonneg(numerator * FIXED_ONE, denominator)
}

/// Computes the feedback term.
fn feedback_term(x: i64, y: i64, z: i64, p: &ChannelParameters) -> (r: i64)
    requires
        0 <= x <= FIXED_ONE,
        0 <= y <= FIXED_ONE,
        0 <= z <= FIXED_ONE,
        p.wf(),
    ensures
        r == spec_feedback_term(x as int, y as int, z as int, *p),
        -COEFF_MAX <= r <= COEFF_MAX,
{
    proof {
        lemma_mul_bound(z as int, FIXED_ONE as int, z as int, FIXED_ONE as int);
        lemma_div_bound(
            (z as int) * (z as int),
            (FIXED_ONE as int) * (FIXED_ONE as int),
            FIXED_ONE as int,
        );
        lemma_div_by_multiple(FIXED_ONE as int, FIXED_ONE as int);
    }
    let z2 = div_nonneg(z * z, FIXED_ONE);
    let diff = if y >= x {
        y - x
    } else {
        x - y
    };
    proof {
        lemma_mul_bound(p.feedback_coefficient as int, COEFF_MAX as int, diff as int, FIXED_ONE as int);
        lemma_div_bound(
            (p.feedback_coefficient as int) * (diff as int),
            (COEFF_MAX as int) * (FIXED_ONE as int),
            FIXED_ONE as int,
        );
        lemma_mul_bound(
            (p.feedback_coefficient as int) * (diff as int) / (FIXED_ONE as int),
            COEFF_MAX as int,
            z2 as int,
            FIXED_ONE as int,
        );
        lemma_div_bound(
            ((p.feedback_coefficient as int) * (diff as int) / (FIXED_ONE as int)) * (z2 as int),
            (COEFF_MAX as int) * (FIXED_ONE as int),
            FIXED_ONE as int,
        );
    }
    let magnitude = div_nonneg(
        div_nonneg(p.feedback_coefficient * diff, FIXED_ONE) * z2,
        FIXED_ONE,
    );
    if y >= x {
        magnitude
    } else {
        -magnitude
    }
}

/// Computes the full reaction term for a channel with normalized value `x`,
/// cyclic successor `y` and remaining channel `z`.
pub fn reaction(x: i64, y: i64, z: i64, p: &ChannelParameters) -> (r: i64)
    requires
        0 <= x <= FIXED_ONE,
        0 <= y <= FIXED_ONE,
        0 <= z <= FIXED_ONE,
        p.wf(),
    ensures
        r == spec_reaction(x as int, y as int, z as int, *p),
        -2 * COEFF_MAX <= r <= 2 * COEFF_MAX,
{
    growth_term(x, p) - interaction_term(x, y, p) + feedback_term(x, y, z, p)
}

/// The red reaction: red grows logistically, is suppressed by green and fed
/// back through blue.
pub fn reaction_red(red: i64, green: i64, blue: i64, p: &ChannelParameters) -> (r: i64)
    requires
        0 <= red <= FIXED_ONE,
        0 <= green <= FIXED_ONE,
        0 <= blue <= FIXED_ONE,
        p.wf(),
    ensures
        r == spec_reaction(red as int, green as int, blue as int, *p),
        -2 * COEFF_MAX <= r <= 2 * COEFF_MAX,
{
    reaction(red, green, blue, p)
}

/// The green reaction: green grows logistically, is suppressed by blue and
/// fed back through red.
pub fn reaction_green(red: i64, green: i64, blue: i64, p: &ChannelParameters) -> (r: i64)
    requires
        0 <= red <= FIXED_ONE,
        0 <= green <= FIXED_ONE,
        0 <= blue <= FIXED_ONE,
        p.wf(),
    ensures
        r == spec_reaction(green as int, blue as int, red as int, *p),
        -2 * COEFF_MAX <= r <= 2 * COEFF_MAX,
{
    reaction(green, blue, red, p)
}

/// The blue reaction: blue grows logistically, is suppressed by red and fed
/// back through green.
pub fn reaction_blue(red: i64, green: i64, blue: i64, p: &ChannelParameters) -> (r: i64)
    requires
        0 <= red <= FIXED_ONE,
        0 <= green <= FIXED_ONE,
        0 <= blue <= FIXED_ONE,
        p.wf(),
    ensures
        r == spec_reaction(blue as int, red as int, green as int, *p),
        -2 * COEFF_MAX <= r <= 2 * COEFF_MAX,
{
    reaction(blue, red, green, p)
}

/// A scaled channel update clamped back into the 8-bit range: negative
/// results saturate at 0 and results of a unit or more above 255 saturate at
/// 255, instead of wrapping at the bit level.
pub open spec fn spec_clamp_channel(val: int) -> int {
    if val <= 0 {
        0
    } else if val / (FIXED_ONE as int) >= 255 {
        255
    } else {
        val / (FIXED_ONE as int)
    }
}

/// Clamps a scaled channel update into the 8-bit range.
pub fn clamp_channel(val: i64) -> (r: u8)
    requires
        -4 * DIFFUSION_MAX <= val <= 4 * DIFFUSION_MAX,
    ensures
        r as int == spec_clamp_channel(val as int),
{
    if val <= 0 {
        0
    } else {
        proof {
            lemma_div_bound(val as int, 4 * (DIFFUSION_MAX as int), FIXED_ONE as int);
        }
        let q = div_nonneg(val, FIXED_ONE);
        if q >= 255 {
            255
        } else {
            q as u8
        }
    }
}

/// The value of channel `channel` of the cell that one tick writes at
/// `(x, y)`: its diffused value plus 255 times its reaction term, clamped to
/// 8 bits. `p` is that channel's parameter set.
pub open spec fn spec_next_channel(
    cells: Seq<Cell>,
    width: int,
    height: int,
    x: int,
    y: int,
    channel: int,
    p: ChannelParameters,
) -> int {
    let c = spec_cell_at(cells, width, x, y);
    let xr = spec_norm(c.r as int);
    let xg = spec_norm(c.g as int);
    let xb = spec_norm(c.b as int);
    let reaction_term = if channel == 0 {
        spec_reaction(xr, xg, xb, p)
    } else if channel == 1 {
        spec_reaction(xg, xb, xr, p)
    } else {
        spec_reaction(xb, xr, xg, p)
    };
    spec_clamp_channel(
        spec_diffusion(
            spec_channel(c, channel),
            spec_weighted_sum(cells, width, height, x, y, channel),
            p.diffusion_coefficient as int,
        ) + 255 * reaction_term,
    )
}

/// The cell that one tick writes at `(x, y)`: every channel diffuses with its
/// own coefficient and reacts against the other two channels in the fixed
/// cyclic rotation red-green-blue.
pub open spec fn spec_next_cell(
    cells: Seq<Cell>,
    width: int,
    height: int,
    x: int,
    y: int,
    red: ChannelParameters,
    green: ChannelParameters,
    blue: ChannelParameters,
) -> Cell {
    Cell {
        r: spec_next_channel(cells, width, height, x, y, 0, red) as u8,
        g: spec_next_channel(cells, width, height, x, y, 1, green) as u8,
        b: spec_next_channel(cells, width, height, x, y, 2, blue) as u8,
    }
}

/// The whole-lattice result of one normal tick: every cell of the grid is
/// replaced by [`spec_next_cell`] computed from the full pre-tick buffer, so
/// no partially updated value is ever read.
pub open spec fn spec_step(
    cells: Seq<Cell>,
    width: int,
    height: int,
    red: ChannelParameters,
    green: ChannelParameters,
    blue: ChannelParameters,
) -> Seq<Cell> {
    Seq::new(
        (width * height) as nat,
        |k: int| spec_next_cell(cells, width, height, k % width, k / width, red, green, blue),
    )
}

/// Computes the cell that one tick writes at in-range position `(x, y)` from
/// the pre-tick lattice.
pub fn next_cell(
    lat: &Lattice,
    x: usize,
    y: usize,
    red: &ChannelParameters,
    green: &ChannelParameters,
    blue: &ChannelParameters,
) -> (r: Cell)
    requires
        lat.wf(),
        x < lat.width,
        y < lat.height,
        red.wf(),
        green.wf(),
        blue.wf(),
    ensures
        r == spec_next_cell(
            lat.cells@,
            lat.width as int,
            lat.height as int,
            x as int,
            y as int,
            *red,
            *green,
            *blue,
        ),
{
    let c = lat.get(x, y);
    let xi = x as i32;
    let yi = y as i32;
    let r_sum = crate::torus_topology::sum_neighbour_channel(lat, xi, yi, 0);
    let g_sum = crate::torus_topology::sum_neighbour_channel(lat, xi, yi, 1);
    let b_sum = crate::torus_topology::sum_neighbour_channel(lat, xi, yi, 2);
    let xr = norm_channel(c.r);
    let xg = norm_channel(c.g);
    let xb = norm_channel(c.b);
    let new_r = clamp_channel(
        diffusion(c.r, r_sum, red.diffusion_coefficient) + 255 * reaction_red(xr, xg, xb, red),
    );
    let new_g = clamp_channel(
        diffusion(c.g, g_sum, green.diffusion_coefficient) + 255 * reaction_green(
            xr,
            xg,
            xb,
            green,
        ),
    );
    let new_b = clamp_channel(
        diffusion(c.b, b_sum, blue.diffusion_coefficient) + 255 * reaction_blue(xr, xg, xb, blue),
    );
    Cell { r: new_r, g: new_g, b: new_b }
}

} // verus!
