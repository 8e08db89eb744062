//! The randomized field generator and randomized coefficient presets.
//!
//! A reset fills the lattice with a gradient-biased random field: each
//! channel of each cell is an independent uniform draw scaled by a positional
//! gradient, so the initial condition shades from dark corners into bright
//! ones instead of being uniform noise. The gradient shape is load-bearing
//! for the initial aesthetics and is stated exactly; only the draws
//! themselves are random.

use crate::lattice::lemma_index_in_bounds;
use crate::lattice::lemma_index_injective;
use crate::lattice::Cell;
use crate::lattice::Lattice;
use crate::lattice::MAX_DIM;
use crate::params::ChannelParameters;
use crate::params::COEFF_MAX;
use crate::params::FIXED_ONE;
use crate::rng::draw_unit;
use crate::rng::fresh_rng;
use crate::step::div_nonneg;
use crate::step::lemma_div_bound;
use vstd::arithmetic::div_mod::lemma_multiply_divide_lt;
use vstd::prelude::*;

verus! {

/// The red channel of a seeded cell: `255 * u * (y / height)` for the
/// fixed-point uniform draw `u`, brightening from the top row down.
pub open spec fn spec_seed_red(u: int, y: int, height: int) -> int {
    255 * u * y / (FIXED_ONE * height)
}

/// The green channel of a seeded cell: `255 * u * (x * y) / (width * height)`,
/// brightening toward one corner.
pub open spec fn spec_seed_green(u: int, x: int, y: int, width: int, height: int) -> int {
    255 * u * x * y / (FIXED_ONE * width * height)
}

/// The blue channel of a seeded cell: `255 * u * (x / width)`, brightening
/// from the first column across.
pub open spec fn spec_seed_blue(u: int, x: int, width: int) -> int {
    255 * u * x / (FIXED_ONE * width)
}

/// The deterministic skeleton of the gradient bias: whatever the draws, a
/// seeded cell has zero red and green in the first row and zero blue and
/// green in the first column.
pub open spec fn spec_border_zero(c: Cell, x: int, y: int) -> bool {
    &&& (y == 0 ==> c.r == 0)
    &&& ((x == 0 || y == 0) ==> c.g == 0)
    &&& (x == 0 ==> c.b == 0)
}

/// The cell seeded at `(x, y)` from the three fixed-point uniform draws
/// `ur`, `ug`, `ub`.
pub open spec fn spec_seed_cell(
    ur: int,
    ug: int,
    ub: int,
    x: int,
    y: int,
    width: int,
    height: int,
) -> Cell {
    Cell {
        r: spec_seed_red(ur, y, height) as u8,
        g: spec_seed_green(ug, x, y, width, height) as u8,
        b: spec_seed_blue(ub, x, width) as u8,
    }
}

/// Computes the gradient-biased cell at `(x, y)` from three fixed-point
/// uniform draws; the result of every draw gives a channel value below 255.
pub fn seed_cell(ur: i64, ug: i64, ub: i64, x: usize, y: usize, width: usize, height: usize) -> (r:
    Cell)
    requires
        0 <= ur <= FIXED_ONE,
        0 <= ug <= FIXED_ONE,
        0 <= ub <= FIXED_ONE,
        x < width <= MAX_DIM,
        y < height <= MAX_DIM,
    ensures
        r == spec_seed_cell(
            ur as int,
            ug as int,
            ub as int,
            x as int,
            y as int,
            width as int,
            height as int,
        ),
        spec_border_zero(r, x as int, y as int),
{
    let xi = x as i64;
    let yi = y as i64;
    let wi = width as i64;
    let hi = height as i64;

    proof {
        assert(0 <= 255 * ur * yi && 255 * ur * yi < (FIXED_ONE * hi) * 255) by (nonlinear_arith)
            requires
                0 <= ur <= FIXED_ONE,
                0 <= yi < hi <= MAX_DIM,
        ;
        lemma_multiply_divide_lt(255 * ur * yi, FIXED_ONE * hi, 255);
        lemma_div_bound(255 * ur * yi, (FIXED_ONE * hi) * 255, FIXED_ONE * hi);
    }
    let red = div_nonneg(255 * ur * yi, FIXED_ONE * hi);

    proof {
        assert(0 <= FIXED_ONE * wi * hi <= FIXED_ONE * MAX_DIM * MAX_DIM && 0 <= 255 * ug * xi
            && 255 * ug * xi <= 255 * FIXED_ONE * MAX_DIM && 0 <= 255 * ug * xi * yi && 255 * ug
            * xi * yi < (FIXED_ONE * wi * hi) * 255) by (nonlinear_arith)
            requires
                0 <= ug <= FIXED_ONE,
                0 <= xi < wi <= MAX_DIM,
                0 <= yi < hi <= MAX_DIM,
        ;
        lemma_multiply_divide_lt(255 * ug * xi * yi, FIXED_ONE * wi * hi, 255);
        lemma_div_bound(255 * ug * xi * yi, (FIXED_ONE * wi * hi) * 255, FIXED_ONE * wi * hi);
    }
    let green = div_nonneg(255 * ug * xi * yi, FIXED_ONE * wi * hi);

    proof {
        assert(0 <= 255 * ub * xi && 255 * ub * xi < (FIXED_ONE * wi) * 255) by (nonlinear_arith)
            requires
                0 <= ub <= FIXED_ONE,
                0 <= xi < wi <= MAX_DIM,
        ;
        lemma_multiply_divide_lt(255 * ub * xi, FIXED_ONE * wi, 255);
        lemma_div_bound(255 * ub * xi, (FIXED_ONE * wi) * 255, FIXED_ONE * wi);
    }
    let blue = div_nonneg(255 * ub * xi, FIXED_ONE * wi);

    proof {
        if yi == 0 {
            assert(255 * ur * yi == 0 && 255 * ug * xi * yi == 0) by (nonlinear_arith)
                requires
                    yi == 0,
            ;
        }
        if xi == 0 {
            assert(255 * ub * xi == 0 && 255 * ug * xi * yi == 0) by (nonlinear_arith)
                requires
                    xi == 0,
            ;
        }
        assert(FIXED_ONE * hi > 0 && FIXED_ONE * wi > 0 && FIXED_ONE * wi * hi > 0)
            by (nonlinear_arith)
            requires
                1 <= wi,
                1 <= hi,
        ;
        vstd::arithmetic::div_mod::lemma_div_of0(FIXED_ONE * hi);
        vstd::arithmetic::div_mod::lemma_div_of0(FIXED_ONE * wi);
        vstd::arithmetic::div_mod::lemma_div_of0(FIXED_ONE * wi * hi);
    }
    Cell { r: red as u8, g: green as u8, b: blue as u8 }
}

/// Builds a fresh `width x height` lattice whose every cell is seeded from
/// independent uniform draws through the gradient formulas of
/// [`spec_seed_cell`]. The draws are random, so beyond the dimensions only
/// the deterministic skeleton of the gradient bias is promised: the first row
/// and column carry the zeros the gradients force there, whatever the draws.
/// What each single draw produces is stated by [`seed_cell`].
#[verifier::loop_isolation(false)]
pub fn initial_system(width: usize, height: usize) -> (r: Lattice)
    requires
        1 <= width <= MAX_DIM,
        1 <= height <= MAX_DIM,
    ensures
        r.wf(),
        r.width == width,
        r.height == height,
        forall|x: int, y: int|
            0 <= x < width && 0 <= y < height ==> spec_border_zero(
                #[trigger] r.spec_cell(x, y),
                x,
                y,
            ),
{
    let ghost wi = width as int;
    let ghost hi = height as int;
    let mut rng = fresh_rng();
    let mut lat = Lattice::new(width, height, Cell { r: 128, g: 0, b: 50 });
    let mut x: usize = 0;
    while x < width
        invariant
            lat.wf(),
            lat.width == width,
            lat.height == height,
            x <= width,
            forall|x2: int, y2: int|
                0 <= x2 < x && 0 <= y2 < hi ==> spec_border_zero(
                    #[trigger] lat.spec_cell(x2, y2),
                    x2,
                    y2,
                ),
        decreases width - x,
    {
        let mut y: usize = 0;
        while y < height
            invariant
                lat.wf(),
                lat.width == width,
                lat.height == height,
                x < width,
                y <= height,
                forall|x2: int, y2: int|
                    0 <= x2 < x && 0 <= y2 < hi ==> spec_border_zero(
                        #[trigger] lat.spec_cell(x2, y2),
                        x2,
                        y2,
                    ),
                forall|y2: int|
                    0 <= y2 < y ==> spec_border_zero(
                        #[trigger] lat.spec_cell(x as int, y2),
                        x as int,
                        y2,
                    ),
            decreases height - y,
        {
            let ur = draw_unit(&mut rng);
            let ug = draw_unit(&mut rng);
            let ub = draw_unit(&mut rng);
            let c = seed_cell(ur, ug, ub, x, y, width, height);
            let ghost prelat = lat;
            lat.set(x, y, c);
            proof {
                lemma_index_in_bounds(wi, hi, x as int, y as int);
                assert forall|x2: int, y2: int| 0 <= x2 < x as int && 0 <= y2 < hi implies
                    spec_border_zero(#[trigger] lat.spec_cell(x2, y2), x2, y2) by {
                    lemma_index_in_bounds(wi, hi, x2, y2);
                    if x2 + wi * y2 == x as int + wi * (y as int) {
                        lemma_index_injective(wi, x2, y2, x as int, y as int);
                    }
                    assert(lat.spec_cell(x2, y2) == prelat.spec_cell(x2, y2));
                    assert(spec_border_zero(prelat.spec_cell(x2, y2), x2, y2));
                }
                assert forall|y2: int| 0 <= y2 < y as int + 1 implies spec_border_zero(
                    #[trigger] lat.spec_cell(x as int, y2),
                    x as int,
                    y2,
                ) by {
                    lemma_index_in_bounds(wi, hi, x as int, y2);
                    if y2 < y as int {
                        if x as int + wi * y2 == x as int + wi * (y as int) {
                            lemma_index_injective(wi, x as int, y2, x as int, y as int);
                        }
                        assert(lat.spec_cell(x as int, y2) == prelat.spec_cell(x as int, y2));
                        assert(spec_border_zero(prelat.spec_cell(x as int, y2), x as int, y2));
                    } else {
                        assert(lat.spec_cell(x as int, y2) == c);
                    }
                }
            }
            y = y + 1;
        }
        proof {
            assert forall|x2: int, y2: int| 0 <= x2 < x as int + 1 && 0 <= y2 < hi implies
                spec_border_zero(#[trigger] lat.spec_cell(x2, y2), x2, y2) by {
                if x2 == x as int {
                    assert(spec_border_zero(lat.spec_cell(x as int, y2), x as int, y2));
                }
            }
        }
        x = x + 1;
    }
    lat
}

/// The coefficient set determined by five fixed-point uniform draws: each
/// coefficient is placed linearly inside its documented slider range —
/// diffusion in `[0, 0.1]`, growth in `[0.7, 1.0]`, interaction in `[0, 5]`,
/// saturation in `[0, 3]`, feedback in `[0, 3]`.
pub fn channel_parameters_from_units(u0: i64, u1: i64, u2: i64, u3: i64, u4: i64) -> (r:
    ChannelParameters)
    requires
        0 <= u0 <= FIXED_ONE,
        0 <= u1 <= FIXED_ONE,
        0 <= u2 <= FIXED_ONE,
        0 <= u3 <= FIXED_ONE,
        0 <= u4 <= FIXED_ONE,
    ensures
        r.wf(),
        r.diffusion_coefficient == u0 * 10_000 / (FIXED_ONE as int),
        r.growth_rate == 70_000 + u1 * 30_000 / (FIXED_ONE as int),
        r.interaction_coefficient == u2 * 500_000 / (FIXED_ONE as int),
        r.saturation_constant == u3 * 300_000 / (FIXED_ONE as int),
        r.feedback_coefficient == u4 * 300_000 / (FIXED_ONE as int),
{
    proof {
        lemma_div_bound(u0 * 10_000, FIXED_ONE * 10_000, FIXED_ONE as int);
        lemma_div_bound(u1 * 30_000, FIXED_ONE * 30_000, FIXED_ONE as int);
        lemma_div_bound(u2 * 500_000, FIXED_ONE * 500_000, FIXED_ONE as int);
        lemma_div_bound(u3 * 300_000, FIXED_ONE * 300_000, FIXED_ONE as int);
        lemma_div_bound(u4 * 300_000, FIXED_ONE * 300_000, FIXED_ONE as int);
    }
    ChannelParameters {
        diffusion_coefficient: div_nonneg(u0 * 10_000, FIXED_ONE),
        growth_rate: 70_000 + div_nonneg(u1 * 30_000, FIXED_ONE),
        interaction_coefficient: div_nonneg(u2 * 500_000, FIXED_ONE),
        saturation_constant: div_nonneg(u3 * 300_000, FIXED_ONE),
        feedback_coefficient: div_nonneg(u4 * 300_000, FIXED_ONE),
    }
}

/// Draws a random coefficient set, each slider placed uniformly inside its
/// documented range.
pub fn random_channel_parameters() -> (r: ChannelParameters)
    ensures
        r.wf(),
{
    let mut rng = fresh_rng();
    let u0 = draw_unit(&mut rng);
    let u1 = draw_unit(&mut rng);
    let u2 = draw_unit(&mut rng);
    let u3 = draw_unit(&mut rng);
    let u4 = draw_unit(&mut rng);
    channel_parameters_from_units(u0, u1, u2, u3, u4)
}

} // verus!
