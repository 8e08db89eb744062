//! The simulation state and its tick: {Idle, Resetting, Stepping}.
//!
//! The state owns the current lattice exclusively between ticks. A tick
//! first serves a pending reset (regenerating the field and clearing the
//! flag), otherwise it is a no-op while paused with no paint pending, and
//! otherwise it applies a pending paint stamp and advances the whole grid by
//! one coupled diffusion-reaction update. The new grid is computed entirely
//! from the pre-tick buffer and committed by swapping, so no partially
//! updated cell is ever read.

use crate::field::initial_system;
use crate::lattice::Cell;
use crate::lattice::Lattice;
use crate::paint::paint_lattice;
use crate::paint::spec_paint_view;
use crate::params::ChannelParameters;
use crate::step::next_cell;
use crate::step::spec_step;
use vstd::arithmetic::div_mod::lemma_fundamental_div_mod_converse;
use vstd::arithmetic::mul::lemma_mul_is_commutative;
use vstd::prelude::*;

verus! {

/// The full simulation state: the lattice, the run/pause flag, the pending
/// one-shot reset and paint requests, the render-channel selector and the
/// three per-channel coefficient sets.
pub struct CellularSystemState {
    /// Advance the simulation on every tick; pausing leaves the lattice
    /// untouched unless a paint is pending.
    pub iterating: bool,
    /// One-shot request: stamp the paint disc at the next tick, which also
    /// forces a normal step while paused.
    pub painting: bool,
    /// The cell the paint stamp is centered on.
    pub paint_x: usize,
    pub paint_y: usize,
    /// The radius of the paint disc, in cells.
    pub paint_radius: usize,
    /// The color the paint stamp writes.
    pub paint_color: Cell,
    /// One-shot request: replace the lattice with a fresh random field at the
    /// next tick.
    pub resetting: bool,
    /// Which channel the height field renders: 0 red, 1 green, 2 blue, any
    /// other value the channel average.
    pub render_channel: usize,
    /// The current lattice; the single source of truth.
    pub lattice: Lattice,
    pub red: ChannelParameters,
    pub green: ChannelParameters,
    pub blue: ChannelParameters,
}

impl CellularSystemState {
    /// The lattice is well-formed, the paint center lies on it, the paint
    /// radius does not exceed either extent, and all coefficients are in
    /// range.
    pub open spec fn wf(self) -> bool {
        &&& self.lattice.wf()
        &&& self.paint_x < self.lattice.width
        &&& self.paint_y < self.lattice.height
        &&& self.paint_radius <= self.lattice.width
        &&& self.paint_radius <= self.lattice.height
        &&& self.red.wf()
        &&& self.green.wf()
        &&& self.blue.wf()
    }

    /// The lattice after serving the pending paint request, as seen by the
    /// step that follows it in the same tick.
    pub open spec fn spec_tick_base(self) -> Seq<Cell> {
        if self.painting {
            spec_paint_view(
                self.lattice.cells@,
                self.lattice.width as int,
                self.lattice.height as int,
                self.paint_x as int,
                self.paint_y as int,
                self.paint_radius as int,
                self.paint_color,
            )
        } else {
            self.lattice.cells@
        }
    }

    /// Stamps the paint color into the disc around the paint center, wrapping
    /// over the torus edges; every other cell and every other field keeps its
    /// value.
    pub fn paint(&mut self)
        requires
            old(self).wf(),
        ensures
            final(self).wf(),
            *final(self) == (CellularSystemState { lattice: final(self).lattice, ..*old(self) }),
            final(self).lattice.width == old(self).lattice.width,
            final(self).lattice.height == old(self).lattice.height,
            final(self).lattice.cells@ == spec_paint_view(
                old(self).lattice.cells@,
                old(self).lattice.width as int,
                old(self).lattice.height as int,
                old(self).paint_x as int,
                old(self).paint_y as int,
                old(self).paint_radius as int,
                old(self).paint_color,
            ),
    {
        let cx = self.paint_x;
        let cy = self.paint_y;
        let radius = self.paint_radius;
        let color = self.paint_color;
        paint_lattice(&mut self.lattice, cx, cy, radius, color);
    }

    /// Marks a reset: the next tick discards the lattice for a fresh random
    /// field.
    pub fn request_reset(&mut self)
        ensures
            *final(self) == (CellularSystemState { resetting: true, ..*old(self) }),
    {
        self.resetting = true;
    }

    /// Marks a paint request: the next tick stamps `color` into the disc of
    /// the given radius around `(x, y)`, even while paused.
    pub fn request_paint(&mut self, x: usize, y: usize, radius: usize, color: Cell)
        requires
            x < old(self).lattice.width,
            y < old(self).lattice.height,
            radius <= old(self).lattice.width,
            radius <= old(self).lattice.height,
        ensures
            *final(self) == (CellularSystemState {
                painting: true,
                paint_x: x,
                paint_y: y,
                paint_radius: radius,
                paint_color: color,
                ..*old(self)
            }),
    {
        self.painting = true;
        self.paint_x = x;
        self.paint_y = y;
        self.paint_radius = radius;
        self.paint_color = color;
    }

    /// Replaces the three coefficient sets; they take effect on the next
    /// tick.
    pub fn configure(&mut self, red: ChannelParameters, green: ChannelParameters, blue: ChannelParameters)
        requires
            red.wf(),
            green.wf(),
            blue.wf(),
        ensures
            *final(self) == (CellularSystemState { red, green, blue, ..*old(self) }),
    {
        self.red = red;
        self.green = green;
        self.blue = blue;
    }

    /// The current lattice, read-only: the direct color visualization maps
    /// each of its cells to one pixel.
    pub fn current_lattice(&self) -> (r: &Lattice)
        ensures
            r == &self.lattice,
    {
        &self.lattice
    }
}

impl Default for CellularSystemState {
    /// The interactive default: a 160x160 gradient-biased random field,
    /// running, rendering the channel average, with white paint of radius 20
    /// centered mid-canvas and the canonical coefficient presets of the three
    /// channels.
    fn default() -> (r: Self)
        ensures
            r.wf(),
            r.iterating == true,
            r.painting == false,
            r.resetting == false,
            r.render_channel == 3,
            r.lattice.width == 160,
            r.lattice.height == 160,
            r.paint_x == 25,
            r.paint_y == 25,
            r.paint_radius == 20,
            r.paint_color == (Cell { r: 255, g: 255, b: 255 }),
            r.red == (ChannelParameters {
                diffusion_coefficient: 2248,
                growth_rate: 98204,
                interaction_coefficient: 319500,
                saturation_constant: 11200,
                feedback_coefficient: 45800,
            }),
            r.green == (ChannelParameters {
                diffusion_coefficient: 8454,
                growth_rate: 92762,
                interaction_coefficient: 466600,
                saturation_constant: 62000,
                feedback_coefficient: 98100,
            }),
            r.blue == (ChannelParameters {
                diffusion_coefficient: 5918,
                growth_rate: 92696,
                interaction_coefficient: 201500,
                saturation_constant: 46500,
                feedback_coefficient: 72700,
            }),
    {
        CellularSystemState {
            iterating: true,
            painting: false,
            paint_x: 25,
            paint_y: 25,
            paint_radius: 20,
            paint_color: Cell { r: 255, g: 255, b: 255 },
            resetting: false,
            render_channel: 3,
            lattice: initial_system(160, 160),
            red: ChannelParameters {
                diffusion_coefficient: 2248,
                growth_rate: 98204,
                interaction_coefficient: 319500,
                saturation_constant: 11200,
                feedback_coefficient: 45800,
            },
            green: ChannelParameters {
                diffusion_coefficient: 8454,
                growth_rate: 92762,
                interaction_coefficient: 466600,
                saturation_constant: 62000,
                feedback_coefficient: 98100,
            },
            blue: ChannelParameters {
                diffusion_coefficient: 5918,
                growth_rate: 92696,
                interaction_coefficient: 201500,
                saturation_constant: 46500,
                feedback_coefficient: 72700,
            },
        }
    }
}

/// Advances the simulation by one tick.
///
/// A pending reset replaces the lattice with a fresh random field of the same
/// dimensions and is consumed, skipping the step. Otherwise, while paused
/// with no paint pending the tick changes nothing at all. Otherwise a pending
/// paint stamp is applied and consumed, and every cell of the grid is
/// replaced by its coupled diffusion-reaction update computed from the full
/// pre-step buffer.
#[verifier::loop_isolation(false)]
pub fn next_iteration(state: &mut CellularSystemState)
    requires
        old(state).wf(),
    ensures
        final(state).wf(),
        final(state).lattice.width == old(state).lattice.width,
        final(state).lattice.height == old(state).lattice.height,
        final(state).resetting == false,
        old(state).resetting ==> *final(state) == (CellularSystemState {
            lattice: final(state).lattice,
            resetting: false,
            ..*old(state)
        }),
        old(state).resetting ==> forall|x: int, y: int|
            0 <= x < old(state).lattice.width && 0 <= y < old(state).lattice.height
                ==> crate::field::spec_border_zero(
                #[trigger] final(state).lattice.spec_cell(x, y),
                x,
                y,
            ),
        (!old(state).resetting && !old(state).iterating && !old(state).painting) ==> *final(state)
            == *old(state),
        (!old(state).resetting && (old(state).iterating || old(state).painting)) ==> {
            &&& *final(state) == (CellularSystemState {
                lattice: final(state).lattice,
                painting: false,
                ..*old(state)
            })
            &&& final(state).lattice.cells@ == spec_step(
                old(state).spec_tick_base(),
                old(state).lattice.width as int,
                old(state).lattice.height as int,
                old(state).red,
                old(state).green,
                old(state).blue,
            )
        },
{
    if state.resetting {
        let w = state.lattice.width;
        let h = state.lattice.height;
        state.lattice = initial_system(w, h);
        state.resetting = false;
    } else if state.iterating || state.painting {
        if state.painting {
            state.paint();
            state.painting = false;
        }
        let w = state.lattice.width;
        let h = state.lattice.height;
        let ghost wi = w as int;
        let ghost hi = h as int;
        let ghost base = state.lattice.cells@;
        let mut new_cells: Vec<Cell> = Vec::new();
        let mut y: usize = 0;
        while y < h
            invariant
                new_cells.len() == y * w,
                y <= h,
                forall|k: int|
                    0 <= k < y * w ==> new_cells[k] == spec_next_cell_at(
                        base,
                        wi,
                        hi,
                        k,
                        old(state).red,
                        old(state).green,
                        old(state).blue,
                    ),
            decreases h - y,
        {
            let mut x: usize = 0;
            while x < w
                invariant
                    new_cells.len() == y * w + x,
                    y < h,
                    x <= w,
                    forall|k: int|
                        0 <= k < y * w + x ==> new_cells[k] == spec_next_cell_at(
                            base,
                            wi,
                            hi,
                            k,
                            old(state).red,
                            old(state).green,
                            old(state).blue,
                        ),
                decreases w - x,
            {
                let c = next_cell(&state.lattice, x, y, &state.red, &state.green, &state.blue);
                new_cells.push(c);
                proof {
                    lemma_fundamental_div_mod_converse(
                        (y * w + x) as int,
                        wi,
                        y as int,
                        x as int,
                    );
                }
                x = x + 1;
            }
            proof {
                assert((y + 1) * w == y * w + w) by (nonlinear_arith);
            }
            y = y + 1;
        }
        proof {
            lemma_mul_is_commutative(hi, wi);
            assert(new_cells@ =~= spec_step(
                base,
                wi,
                hi,
                old(state).red,
                old(state).green,
                old(state).blue,
            ));
        }
        state.lattice = Lattice { cells: new_cells, width: w, height: h };
    }
}

/// The cell a tick writes at row-major index `k`: [`crate::step::spec_next_cell`]
/// at the position `k` addresses.
pub open spec fn spec_next_cell_at(
    cells: Seq<Cell>,
    width: int,
    height: int,
    k: int,
    red: ChannelParameters,
    green: ChannelParameters,
    blue: ChannelParameters,
) -> Cell {
    crate::step::spec_next_cell(cells, width, height, k % width, k / width, red, green, blue)
}

} // verus!
