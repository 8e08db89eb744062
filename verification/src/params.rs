//! Fixed-point scale and the per-channel reaction-diffusion coefficients.
//!
//! Coefficients are real-valued sliders in the interface; the engine holds
//! them as fixed-point integers with [`FIXED_ONE`] units to the unit, so the
//! whole update is deterministic integer arithmetic. A coefficient value `c`
//! stands for the real number `c / FIXED_ONE`.

use vstd::prelude::*;

verus! {

/// One unit in fixed-point representation: 1.0 is `FIXED_ONE` units.
pub const FIXED_ONE: i64 = 100_000;

/// The weight of a diagonal Moore neighbor, `1/sqrt(2) ~ 0.70922`, in
/// fixed-point units. Orthogonal neighbors weigh a full unit.
pub const DIAG_WEIGHT: i64 = 70_922;

/// The diffusion outflow factor `6.837` in fixed-point units: the rounded sum
/// of the 8 neighbor weights, `4 * 1.0 + 4 / sqrt(2)`. At the critical
/// diffusion coefficient the outflow it scales balances the inflow of a
/// uniform field.
pub const OUTFLOW_FACTOR: i64 = 683_700;

/// The largest magnitude a coefficient may take: `100.0` in fixed-point
/// units. The documented slider ranges go no higher than `5.0`; the bound
/// only keeps the fixed-point products inside `i64`.
pub const COEFF_MAX: i64 = 10_000_000;

/// The coefficients steering one channel's diffusion and reaction.
///
/// Each field is a nonnegative fixed-point number (see [`FIXED_ONE`]). The
/// documented slider ranges are: diffusion in `[0, 0.1]`, growth in
/// `[0.7, 1.0]`, interaction in `[0, 5]`, saturation in `[0, 3]`, feedback in
/// `[0, 3]`; the engine accepts any value satisfying [`ChannelParameters::wf`]
/// and out-of-range values merely produce different dynamics.
#[derive(Clone, Copy)]
pub struct ChannelParameters {
    /// Fraction of concentration exchanged with the neighborhood per tick.
    pub diffusion_coefficient: i64,
    /// Local logistic growth factor.
    pub growth_rate: i64,
    /// Strength of the cross-channel suppression term.
    pub interaction_coefficient: i64,
    /// Self-limiting term in the suppression denominator.
    pub saturation_constant: i64,
    /// Strength of the third-channel-gated feedback term.
    pub feedback_coefficient: i64,
}

impl ChannelParameters {
    /// Every coefficient is nonnegative and small enough that the fixed-point
    /// products of the update formulas stay inside `i64`.
    pub open spec fn wf(self) -> bool {
        &&& 0 <= self.diffusion_coefficient <= COEFF_MAX
        &&& 0 <= self.growth_rate <= COEFF_MAX
        &&& 0 <= self.interaction_coefficient <= COEFF_MAX
        &&& 0 <= self.saturation_constant <= COEFF_MAX
        &&& 0 <= self.feedback_coefficient <= COEFF_MAX
    }
}

impl Default for ChannelParameters {
    /// All coefficients zero: a channel that neither diffuses nor reacts.
    fn default() -> (r: Self)
        ensures
            r.wf(),
            r.diffusion_coefficient == 0,
            r.growth_rate == 0,
            r.interaction_coefficient == 0,
            r.saturation_constant == 0,
            r.feedback_coefficient == 0,
    {
        ChannelParameters {
            diffusion_coefficient: 0,
            growth_rate: 0,
            interaction_coefficient: 0,
            saturation_constant: 0,
            feedback_coefficient: 0,
        }
    }
}

} // verus!
